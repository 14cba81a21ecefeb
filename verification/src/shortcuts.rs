//! The global-shortcut session.
//!
//! The session negotiates with an external shortcut-activation service:
//! it queries the protocol version, creates a session, binds the
//! application's declared shortcuts, and then listens for activation
//! events until it is torn down.  While bound it owns one process
//! keep-alive token and one listener task handle, both handed back exactly
//! once on teardown.
//!
//! The service itself is not reachable from the library: each asynchronous
//! step is performed by the caller, which hands the outcome back as a
//! plain value (`establish_begin`, then `on_version`, `on_session_created`
//! and `on_bound`).

use vstd::prelude::*;
use vstd::string::StringExecFns;

use crate::inhibitor::HoldGuard;

verus! {

/// Lowest service protocol version that supports live reconfiguration of
/// bound shortcuts.
pub const MIN_CONFIGURE_VERSION: u32 = 2;

/// Errors of the global-shortcut session.  All of them are non-fatal: the
/// application stays usable without global shortcuts.
#[derive(Debug, Clone, Copy, PartialEq, Eq, Structural)]
pub enum ShortcutsError {
    /// The service is absent, or the handshake failed.
    NegotiationFailed,
    /// The service rejected the declared shortcut set.
    BindingFailed,
    /// An activation event carried an id that was never bound.
    ActivationStreamUnknownId,
    /// Reconfiguration is unavailable, or the service call failed.
    ConfigureFailed,
}

/// A shortcut as declared by the application and shown to the user.
#[derive(Debug)]
pub struct Shortcut {
    /// Stable identifier, chosen by the application, unique in a session.
    pub id: String,
    /// Display text.
    pub description: String,
    /// Advisory accelerator; the service may assign a different trigger.
    pub preferred_trigger: Option<String>,
    /// The trigger the service reports as currently assigned.
    pub actual_trigger_description: String,
}

/// The abstract value of a [`Shortcut`].
pub struct ShortcutV {
    pub id: Seq<char>,
    pub description: Seq<char>,
    pub preferred_trigger: Option<Seq<char>>,
    pub actual_trigger_description: Seq<char>,
}

impl View for Shortcut {
    type V = ShortcutV;

    open spec fn view(&self) -> ShortcutV {
        ShortcutV {
            id: self.id@,
            description: self.description@,
            preferred_trigger: match self.preferred_trigger {
                Option::None => None,
                Option::Some(t) => Some(t@),
            },
            actual_trigger_description: self.actual_trigger_description@,
        }
    }
}

impl DeepView for Shortcut {
    type V = ShortcutV;

    open spec fn deep_view(&self) -> ShortcutV {
        self.view()
    }
}

/// One entry of the service's answer to a shortcut listing: a bound id
/// with its display text and the trigger currently assigned to it.
#[derive(Debug)]
pub struct ShortcutInfo {
    pub id: String,
    pub description: String,
    pub trigger_description: String,
}

/// The abstract value of a [`ShortcutInfo`].
pub struct ShortcutInfoV {
    pub id: Seq<char>,
    pub description: Seq<char>,
    pub trigger_description: Seq<char>,
}

impl View for ShortcutInfo {
    type V = ShortcutInfoV;

    open spec fn view(&self) -> ShortcutInfoV {
        ShortcutInfoV {
            id: self.id@,
            description: self.description@,
            trigger_description: self.trigger_description@,
        }
    }
}

impl DeepView for ShortcutInfo {
    type V = ShortcutInfoV;

    open spec fn deep_view(&self) -> ShortcutInfoV {
        self.view()
    }
}

/// The handle of the long-lived task that consumes the activation stream.
/// The caller mints one when it starts the task and cancels the task when
/// the handle is handed back.
#[derive(Debug)]
pub struct ListenerHandle {
    id: u64,
}

impl View for ListenerHandle {
    type V = u64;

    closed spec fn view(&self) -> u64 {
        self.id
    }
}

impl ListenerHandle {
    pub fn new(id: u64) -> (r: Self)
        ensures
            r@ == id,
    {
        ListenerHandle { id }
    }

    pub fn id(&self) -> (r: u64)
        ensures
            r == self@,
    {
        self.id
    }
}

/// The session's lifecycle state, as contracts speak of it.  Negotiation
/// has three waiting points, one per asynchronous service call.
pub enum PhaseV {
    Uninitialized,
    AwaitingVersion,
    AwaitingSession { version: u32 },
    AwaitingBind { version: u32, identity: Seq<char> },
    Bound { version: u32, identity: Seq<char>, listener: u64, keep_alive: u64 },
    TornDown,
}

/// The abstract value of a [`GlobalShortcutsSession`].
pub struct SessionV {
    pub declared: Seq<ShortcutV>,
    pub phase: PhaseV,
}

impl SessionV {
    /// Well-formedness: declared shortcut ids are unique in the session.
    pub open spec fn inv(self) -> bool {
        forall|i: int, j: int|
            0 <= i < j < self.declared.len() ==> self.declared[i].id != self.declared[j].id
    }
}

/// Whether `id` names one of the declared shortcuts.
pub open spec fn known(declared: Seq<ShortcutV>, id: Seq<char>) -> bool {
    exists|i: int| 0 <= i < declared.len() && declared[i].id == id
}

/// The keep-alive token the session owns, if any: one exactly while bound.
pub open spec fn v_keep_alive(s: SessionV) -> Option<u64> {
    match s.phase {
        PhaseV::Bound { keep_alive, .. } => Some(keep_alive),
        _ => None,
    }
}

/// The listener task the session owns, if any: one exactly while bound.
pub open spec fn v_listener(s: SessionV) -> Option<u64> {
    match s.phase {
        PhaseV::Bound { listener, .. } => Some(listener),
        _ => None,
    }
}

/// Whether reconfiguration is available: only in a bound session whose
/// negotiated version reaches [`MIN_CONFIGURE_VERSION`].
pub open spec fn v_can_configure(s: SessionV) -> bool {
    match s.phase {
        PhaseV::Bound { version, .. } => version >= MIN_CONFIGURE_VERSION,
        _ => false,
    }
}

/// Teardown: from any state the session ends up torn down, and exactly the
/// resources of a bound session are handed back.
pub open spec fn v_teardown(s: SessionV) -> (SessionV, Option<u64>, Option<u64>) {
    (
        SessionV { declared: s.declared, phase: PhaseV::TornDown },
        v_listener(s),
        v_keep_alive(s),
    )
}

/// The events that reach the activation handler, in order: the
/// sub-sequence of `events` whose ids are declared.
pub open spec fn v_dispatch_all(declared: Seq<ShortcutV>, events: Seq<Seq<char>>) -> Seq<Seq<char>>
    decreases events.len(),
{
    if events.len() == 0 {
        Seq::empty()
    } else {
        let rest = v_dispatch_all(declared, events.skip(1));
        if known(declared, events[0]) {
            seq![events[0]] + rest
        } else {
            rest
        }
    }
}

/// The preferred trigger the application declared for `id`, if any.
pub open spec fn v_lookup_preferred(declared: Seq<ShortcutV>, id: Seq<char>) -> Option<Seq<char>>
    decreases declared.len(),
{
    if declared.len() == 0 {
        None
    } else if declared[0].id == id {
        declared[0].preferred_trigger
    } else {
        v_lookup_preferred(declared.skip(1), id)
    }
}

/// One display row per service-reported shortcut: the service's display
/// text and live trigger, joined with the locally declared preferred
/// trigger.
pub open spec fn v_resolve(declared: Seq<ShortcutV>, live: Seq<ShortcutInfoV>) -> Seq<ShortcutV> {
    live.map_values(
        |info: ShortcutInfoV|
            ShortcutV {
                id: info.id,
                description: info.description,
                preferred_trigger: v_lookup_preferred(declared, info.id),
                actual_trigger_description: info.trigger_description,
            },
    )
}

/// The session's lifecycle state together with the resources it owns.
enum Phase {
    Uninitialized,
    AwaitingVersion,
    AwaitingSession { version: u32 },
    AwaitingBind { version: u32, identity: String },
    Bound { version: u32, identity: String, listener: ListenerHandle, keep_alive: HoldGuard },
    TornDown,
}

/// What the caller must do after [`GlobalShortcutsSession::establish_begin`].
#[derive(Debug, Clone, Copy, PartialEq, Eq, Structural)]
pub enum EstablishStep {
    /// The session is already bound: nothing to do.
    AlreadyBound,
    /// The session was torn down and cannot be established again.
    Unavailable,
    /// Query the service's protocol version and hand it to `on_version`.
    QueryVersion,
}

/// The resources handed back by [`GlobalShortcutsSession::teardown`]: the
/// listener task to cancel and the keep-alive token to let go.
#[derive(Debug)]
pub struct TeardownResources {
    pub listener: Option<ListenerHandle>,
    pub keep_alive: Option<HoldGuard>,
}

/// The abstract value of an optional listener handle.
pub open spec fn listener_view(l: Option<ListenerHandle>) -> Option<u64> {
    match l {
        Option::None => None,
        Option::Some(h) => Some(h@),
    }
}

/// The abstract value of an optional keep-alive token.
pub open spec fn hold_view(h: Option<HoldGuard>) -> Option<u64> {
    match h {
        Option::None => None,
        Option::Some(g) => Some(g@),
    }
}

/// A session with the external shortcut-activation service.
pub struct GlobalShortcutsSession {
    declared: Vec<Shortcut>,
    phase: Phase,
}

impl View for GlobalShortcutsSession {
    type V = SessionV;

    closed spec fn view(&self) -> SessionV {
        SessionV {
            declared: self.declared.deep_view(),
            phase: match self.phase {
                Phase::Uninitialized => PhaseV::Uninitialized,
                Phase::AwaitingVersion => PhaseV::AwaitingVersion,
                Phase::AwaitingSession { version } => PhaseV::AwaitingSession { version },
                Phase::AwaitingBind { version, identity } => PhaseV::AwaitingBind {
                    version,
                    identity: identity@,
                },
                Phase::Bound { version, identity, listener, keep_alive } => PhaseV::Bound {
                    version,
                    identity: identity@,
                    listener: listener@,
                    keep_alive: keep_alive@,
                },
                Phase::TornDown => PhaseV::TornDown,
            },
        }
    }
}

impl GlobalShortcutsSession {
    pub open spec fn wf(&self) -> bool {
        self@.inv()
    }

    /// Whether the session is neither negotiating nor waiting for a
    /// service answer.
    pub open spec fn idle(&self) -> bool {
        match self@.phase {
            PhaseV::Uninitialized => true,
            PhaseV::Bound { .. } => true,
            PhaseV::TornDown => true,
            _ => false,
        }
    }

    /// A new, unestablished session over the given declared shortcut set.
    pub fn new(declared: Vec<Shortcut>) -> (r: Self)
        requires
            forall|i: int, j: int|
                0 <= i < j < declared@.len() ==> declared@[i]@.id != declared@[j]@.id,
        ensures
            r.wf(),
            r@.declared == declared.deep_view(),
            r@.phase is Uninitialized,
    {
        GlobalShortcutsSession { declared, phase: Phase::Uninitialized }
    }

    /// The application's declared shortcut set, as it is handed to the
    /// service when binding.
    pub fn declared(&self) -> (r: &Vec<Shortcut>)
        ensures
            r.deep_view() == self@.declared,
    {
        &self.declared
    }

    pub fn is_bound(&self) -> (r: bool)
        ensures
            r == (self@.phase is Bound),
    {
        match self.phase {
            Phase::Bound { .. } => true,
            _ => false,
        }
    }

    pub fn holds_keep_alive(&self) -> (r: bool)
        ensures
            r == (v_keep_alive(self@) is Some),
    {
        match self.phase {
            Phase::Bound { .. } => true,
            _ => false,
        }
    }

    /// The protocol version negotiated for the bound session.
    pub fn negotiated_version(&self) -> (r: Option<u32>)
        ensures
            self@.phase matches PhaseV::Bound { version, .. } ==> r == Some(version),
            !(self@.phase is Bound) ==> r is None,
    {
        match &self.phase {
            Phase::Bound { version, .. } => Some(*version),
            _ => None,
        }
    }

    /// Whether the "configure shortcuts" capability was enabled during
    /// negotiation.
    pub fn can_configure(&self) -> (r: bool)
        ensures
            r == v_can_configure(self@),
    {
        match &self.phase {
            Phase::Bound { version, .. } => *version >= MIN_CONFIGURE_VERSION,
            _ => false,
        }
    }

    /// Start establishing the session.  A bound session is left alone; a
    /// torn-down session stays down; otherwise the caller must query the
    /// service's protocol version.
    pub fn establish_begin(&mut self) -> (step: EstablishStep)
        requires
            old(self).wf(),
            old(self).idle(),
        ensures
            final(self).wf(),
            final(self)@.declared == old(self)@.declared,
            old(self)@.phase is Bound ==> step is AlreadyBound && *final(self) == *old(self),
            old(self)@.phase is TornDown ==> step is Unavailable && *final(self) == *old(self),
            old(self)@.phase is Uninitialized ==> step is QueryVersion && final(self)@.phase
                is AwaitingVersion,
    {
        match self.phase {
            Phase::Bound { .. } => EstablishStep::AlreadyBound,
            Phase::TornDown => EstablishStep::Unavailable,
            _ => {
                self.phase = Phase::AwaitingVersion;
                EstablishStep::QueryVersion
            },
        }
    }

    /// Record the service's protocol version, or the handshake's failure.
    /// On success the caller must ask the service to create a session; a
    /// version below [`MIN_CONFIGURE_VERSION`] merely disables
    /// reconfiguration, it does not stop establishment.
    pub fn on_version(&mut self, version: Option<u32>) -> (r: Result<(), ShortcutsError>)
        requires
            old(self).wf(),
            old(self)@.phase is AwaitingVersion,
        ensures
            final(self).wf(),
            final(self)@.declared == old(self)@.declared,
            version matches Some(v) ==> r is Ok && final(self)@.phase == (PhaseV::AwaitingSession {
                version: v,
            }),
            version is None ==> r == Err::<(), ShortcutsError>(ShortcutsError::NegotiationFailed)
                && final(self)@.phase is Uninitialized,
    {
        match version {
            Some(v) => {
                self.phase = Phase::AwaitingSession { version: v };
                Ok(())
            },
            None => {
                self.phase = Phase::Uninitialized;
                Err(ShortcutsError::NegotiationFailed)
            },
        }
    }

    /// Record the identity of the created session, or the creation's
    /// failure.  On success the caller must ask the service to bind the
    /// declared shortcut set under a parent-window token.
    pub fn on_session_created(&mut self, identity: Option<String>) -> (r: Result<
        (),
        ShortcutsError,
    >)
        requires
            old(self).wf(),
            old(self)@.phase is AwaitingSession,
        ensures
            final(self).wf(),
            final(self)@.declared == old(self)@.declared,
            identity matches Some(p) ==> r is Ok && final(self)@.phase == (PhaseV::AwaitingBind {
                version: old(self)@.phase->AwaitingSession_version,
                identity: p@,
            }),
            identity is None ==> r == Err::<(), ShortcutsError>(ShortcutsError::NegotiationFailed)
                && final(self)@.phase is Uninitialized,
    {
        let version = match &self.phase {
            Phase::AwaitingSession { version } => *version,
            _ => 0,
        };
        match identity {
            Some(p) => {
                self.phase = Phase::AwaitingBind { version, identity: p };
                Ok(())
            },
            None => {
                self.phase = Phase::Uninitialized;
                Err(ShortcutsError::NegotiationFailed)
            },
        }
    }

    /// Record the outcome of binding.  On success the caller has started
    /// the activation listener and acquired the keep-alive token, and
    /// hands both in; the session is then bound.  On failure the session
    /// falls back to the start, holding no resources, and a later
    /// establishment retries cleanly.
    pub fn on_bound(&mut self, resources: Option<(ListenerHandle, HoldGuard)>) -> (r: Result<
        (),
        ShortcutsError,
    >)
        requires
            old(self).wf(),
            old(self)@.phase is AwaitingBind,
        ensures
            final(self).wf(),
            final(self)@.declared == old(self)@.declared,
            resources matches Some(t) ==> r is Ok && final(self)@.phase == (PhaseV::Bound {
                version: old(self)@.phase->AwaitingBind_version,
                identity: old(self)@.phase->AwaitingBind_identity,
                listener: t.0@,
                keep_alive: t.1@,
            }),
            resources is None ==> r == Err::<(), ShortcutsError>(ShortcutsError::BindingFailed)
                && final(self)@.phase is Uninitialized && v_keep_alive(final(self)@) is None,
    {
        let mut taken = Phase::Uninitialized;
        core::mem::swap(&mut taken, &mut self.phase);
        let (version, identity) = match taken {
            Phase::AwaitingBind { version, identity } => (version, identity),
            _ => (0, String::new()),
        };
        match resources {
            Some((listener, keep_alive)) => {
                self.phase = Phase::Bound { version, identity, listener, keep_alive };
                Ok(())
            },
            None => Err(ShortcutsError::BindingFailed),
        }
    }

    /// Tear the session down: the listener task and the keep-alive token,
    /// if the session was bound, are handed back to be cancelled and let
    /// go.  Safe to call in any state and any number of times; after the
    /// first call nothing is handed back, so nothing is released twice.
    pub fn teardown(&mut self) -> (r: TeardownResources)
        requires
            old(self).wf(),
        ensures
            final(self).wf(),
            final(self)@ == v_teardown(old(self)@).0,
            listener_view(r.listener) == v_teardown(old(self)@).1,
            hold_view(r.keep_alive) == v_teardown(old(self)@).2,
            final(self)@.phase is TornDown,
            !(old(self)@.phase is Bound) ==> r.listener is None && r.keep_alive is None,
    {
        let mut taken = Phase::TornDown;
        core::mem::swap(&mut taken, &mut self.phase);
        match taken {
            Phase::Bound { listener, keep_alive, .. } => TeardownResources {
                listener: Some(listener),
                keep_alive: Some(keep_alive),
            },
            _ => TeardownResources { listener: None, keep_alive: None },
        }
    }

    /// Ask to open the service's configuration surface.  Granted exactly
    /// when the session is bound and reconfiguration was enabled during
    /// negotiation; rejected locally otherwise, without contacting the
    /// service.  On success the caller opens the surface for the returned
    /// session identity.
    pub fn configure_request(&self) -> (r: Result<String, ShortcutsError>)
        ensures
            (r is Ok) == v_can_configure(self@),
            r matches Ok(p) ==> (self@.phase matches PhaseV::Bound { identity, .. } && p@
                == identity),
            r is Err ==> r == Err::<String, ShortcutsError>(ShortcutsError::ConfigureFailed),
    {
        match &self.phase {
            Phase::Bound { version, identity, .. } => {
                if *version >= MIN_CONFIGURE_VERSION {
                    Ok(identity.clone())
                } else {
                    Err(ShortcutsError::ConfigureFailed)
                }
            },
            _ => Err(ShortcutsError::ConfigureFailed),
        }
    }

    /// Dispatch one activation event: the index of the declared shortcut
    /// with this id, or `ActivationStreamUnknownId` for an id that was
    /// never declared.
    pub fn dispatch_activation(&self, shortcut_id: &String) -> (r: Result<usize, ShortcutsError>)
        ensures
            (r is Ok) == known(self@.declared, shortcut_id@),
            r matches Ok(i) ==> i < self@.declared.len() && self@.declared[i as int].id
                == shortcut_id@,
            r is Err ==> r == Err::<usize, ShortcutsError>(ShortcutsError::ActivationStreamUnknownId),
    {
        let n = self.declared.len();
        let mut i: usize = 0;
        while i < n
            invariant
                n == self.declared.len(),
                i <= n,
                forall|j: int| 0 <= j < i ==> self@.declared[j].id != shortcut_id@,
            decreases n - i,
        {
            if self.declared[i].id == *shortcut_id {
                return Ok(i);
            }
            i += 1;
        }
        Err(ShortcutsError::ActivationStreamUnknownId)
    }

    /// Dispatch a whole run of activation events, in the order the service
    /// emitted them.  Returns the ids that reached the handler: the
    /// declared ones, in the same order; unknown ids are ignored.
    pub fn dispatch_all(&self, events: &Vec<String>) -> (handled: Vec<String>)
        ensures
            handled.deep_view() == v_dispatch_all(self@.declared, events.deep_view()),
    {
        let mut handled: Vec<String> = Vec::new();
        let n = events.len();
        let mut k: usize = 0;
        while k < n
            invariant
                n == events@.len(),
                k <= n,
                handled.deep_view() == v_dispatch_all(
                    self@.declared,
                    events.deep_view().take(k as int),
                ),
            decreases n - k,
        {
            proof {
                assert(events.deep_view().take(k + 1) =~= events.deep_view().take(
                    k as int,
                ).push(events.deep_view()[k as int]));
                lemma_dispatch_all_snoc(
                    self@.declared,
                    events.deep_view().take(k as int),
                    events.deep_view()[k as int],
                );
            }
            match self.dispatch_activation(&events[k]) {
                Ok(_) => {
                    handled.push(events[k].clone());
                    proof {
                        assert(handled.deep_view() =~= v_dispatch_all(
                            self@.declared,
                            events.deep_view().take(k + 1),
                        ));
                    }
                },
                Err(_) => {
                    proof {
                        assert(handled.deep_view() =~= v_dispatch_all(
                            self@.declared,
                            events.deep_view().take(k + 1),
                        ));
                    }
                },
            }
            k += 1;
        }
        proof {
            assert(events.deep_view().take(n as int) =~= events.deep_view());
        }
        handled
    }

    /// Build the display rows for a shortcut listing from the service's
    /// answer: each reported shortcut keeps the service's display text and
    /// live trigger, joined with the locally declared preferred trigger.
    pub fn resolve_triggers(&self, live: &Vec<ShortcutInfo>) -> (rows: Vec<Shortcut>)
        ensures
            rows.deep_view() == v_resolve(self@.declared, live.deep_view()),
    {
        let mut rows: Vec<Shortcut> = Vec::new();
        let n = live.len();
        let mut k: usize = 0;
        while k < n
            invariant
                n == live@.len(),
                k <= n,
                rows.deep_view() =~= v_resolve(self@.declared, live.deep_view()).take(k as int),
            decreases n - k,
        {
            let info = &live[k];
            let preferred = self.lookup_preferred(&info.id);
            let row = Shortcut {
                id: info.id.clone(),
                description: info.description.clone(),
                preferred_trigger: preferred,
                actual_trigger_description: info.trigger_description.clone(),
            };
            proof {
                let rr = v_resolve(self@.declared, live.deep_view());
                assert(row@ == rr[k as int]);
                assert(rr.take(k + 1) =~= rr.take(k as int).push(rr[k as int]));
            }
            rows.push(row);
            proof {
                let rr = v_resolve(self@.declared, live.deep_view());
                assert(rows.deep_view() =~= rr.take(k + 1));
            }
            k += 1;
        }
        proof {
            assert(rows.deep_view() =~= v_resolve(self@.declared, live.deep_view()));
        }
        rows
    }

    /// The preferred trigger declared for `id`, cloned for display.
    fn lookup_preferred(&self, id: &String) -> (r: Option<String>)
        ensures
            match r {
                Option::None => v_lookup_preferred(self@.declared, id@) is None,
                Option::Some(t) => v_lookup_preferred(self@.declared, id@) == Some(t@),
            },
    {
        let n = self.declared.len();
        let mut i: usize = 0;
        while i < n
            invariant
                n == self.declared.len(),
                i <= n,
                forall|j: int| 0 <= j < i ==> self@.declared[j].id != id@,
            decreases n - i,
        {
            if self.declared[i].id == *id {
                proof {
                    lemma_lookup_preferred_at(self@.declared, id@, i as int);
                }
                return match &self.declared[i].preferred_trigger {
                    Some(t) => Some(t.clone()),
                    None => None,
                };
            }
            i += 1;
        }
        proof {
            lemma_lookup_preferred_none(self@.declared, id@);
        }
        None
    }
}

/// Appending one event to a run of dispatched events appends its handling.
proof fn lemma_dispatch_all_snoc(declared: Seq<ShortcutV>, events: Seq<Seq<char>>, e: Seq<char>)
    ensures
        v_dispatch_all(declared, events.push(e)) == v_dispatch_all(declared, events) + (
        if known(declared, e) {
            seq![e]
        } else {
            Seq::empty()
        }),
    decreases events.len(),
{
    let whole = events.push(e);
    if events.len() == 0 {
        assert(whole[0] == e);
        assert(whole.skip(1) =~= Seq::<Seq<char>>::empty());
        assert(v_dispatch_all(declared, Seq::<Seq<char>>::empty()) =~= Seq::<Seq<char>>::empty());
        if known(declared, e) {
            assert(v_dispatch_all(declared, whole) =~= v_dispatch_all(declared, events) + seq![e]);
        } else {
            assert(v_dispatch_all(declared, whole) =~= v_dispatch_all(
                declared,
                events,
            ) + Seq::<Seq<char>>::empty());
        }
    } else {
        assert(whole[0] == events[0]);
        assert(whole.skip(1) =~= events.skip(1).push(e));
        lemma_dispatch_all_snoc(declared, events.skip(1), e);
        assert(v_dispatch_all(declared, whole) =~= v_dispatch_all(declared, events) + (
        if known(declared, e) {
            seq![e]
        } else {
            Seq::empty()
        }));
    }
}

/// A first match at index `i` settles the lookup.
proof fn lemma_lookup_preferred_at(declared: Seq<ShortcutV>, id: Seq<char>, i: int)
    requires
        0 <= i < declared.len(),
        declared[i].id == id,
        forall|j: int| 0 <= j < i ==> declared[j].id != id,
    ensures
        v_lookup_preferred(declared, id) == declared[i].preferred_trigger,
    decreases i,
{
    if i > 0 {
        lemma_lookup_preferred_at(declared.skip(1), id, i - 1);
    }
}

/// No match anywhere settles the lookup to nothing.
proof fn lemma_lookup_preferred_none(declared: Seq<ShortcutV>, id: Seq<char>)
    requires
        forall|j: int| 0 <= j < declared.len() ==> declared[j].id != id,
    ensures
        v_lookup_preferred(declared, id) is None,
    decreases declared.len(),
{
    if declared.len() > 0 {
        lemma_lookup_preferred_none(declared.skip(1), id);
    }
}

/// Teardown safety: tearing down twice neither errors nor hands anything
/// back a second time, and tearing down a session that was never
/// established hands nothing back at all.
pub proof fn law_teardown_idempotent(s: SessionV)
    ensures
        v_teardown(v_teardown(s).0).1 is None,
        v_teardown(v_teardown(s).0).2 is None,
        v_teardown(v_teardown(s).0).0 == v_teardown(s).0,
        s.phase is Uninitialized ==> v_teardown(s).1 is None && v_teardown(s).2 is None,
{
}

/// Ordering: when every emitted event carries a declared id, the handler
/// observes exactly the emitted sequence, in the order the service emitted
/// it.
pub proof fn law_activation_order(declared: Seq<ShortcutV>, events: Seq<Seq<char>>)
    requires
        forall|j: int| 0 <= j < events.len() ==> known(declared, events[j]),
    ensures
        v_dispatch_all(declared, events) == events,
    decreases events.len(),
{
    if events.len() > 0 {
        assert(known(declared, events[0]));
        law_activation_order(declared, events.skip(1));
        assert(v_dispatch_all(declared, events) =~= events);
    }
}

/// The shortcut set this application declares: one global toggle.
pub fn app_shortcuts() -> (r: Vec<Shortcut>)
    ensures
        r.deep_view().len() == 1,
        r.deep_view()[0].id == "keep-me-awake-toggle"@,
        r.deep_view()[0].description == "Toggle Keep me Awake"@,
        r.deep_view()[0].preferred_trigger == Some("LOGO+w"@),
        r.deep_view()[0].actual_trigger_description == Seq::<char>::empty(),
{
    let toggle = Shortcut {
        id: String::from_str("keep-me-awake-toggle"),
        description: String::from_str("Toggle Keep me Awake"),
        preferred_trigger: Some(String::from_str("LOGO+w")),
        actual_trigger_description: String::new(),
    };
    let mut declared: Vec<Shortcut> = Vec::new();
    declared.push(toggle);
    declared
}

} // verus!
