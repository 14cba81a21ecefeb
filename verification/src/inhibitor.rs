//! The inhibition controller.
//!
//! The controller owns at most one pair of resource tokens: a process
//! keep-alive token and a session inhibition cookie, acquired together and
//! released together.  Changing the level is idempotent, releases the old
//! pair before a new grant is requested, and produces exactly one change
//! notification per effective call.
//!
//! The desktop session itself is not reachable from the library, so a level
//! change runs in two steps: [`Inhibitor::set_inhibitors`] releases the old
//! pair and says which flags to request, and the caller, having asked the
//! session for a grant, hands the outcome back through
//! [`Inhibitor::supply_grant`].

use vstd::prelude::*;

use crate::inhibit::{flags_for, Inhibit, InhibitFlags};

verus! {

/// A process keep-alive token: while it exists, the host application keeps
/// running.  The caller mints one per grant, names it by an identifier of
/// its choosing, and lets it go when it is handed back.
#[derive(Debug)]
pub struct HoldGuard {
    id: u64,
}

impl View for HoldGuard {
    type V = u64;

    closed spec fn view(&self) -> u64 {
        self.id
    }
}

impl HoldGuard {
    pub fn new(id: u64) -> (r: Self)
        ensures
            r@ == id,
    {
        HoldGuard { id }
    }

    pub fn id(&self) -> (r: u64)
        ensures
            r == self@,
    {
        self.id
    }
}

/// An inhibition cookie as handed out by the desktop session, together with
/// the flag set it was acquired with.
#[derive(Debug)]
pub struct InhibitCookieGuard {
    cookie: u32,
    flags: InhibitFlags,
}

impl View for InhibitCookieGuard {
    type V = (u32, InhibitFlags);

    closed spec fn view(&self) -> (u32, InhibitFlags) {
        (self.cookie, self.flags)
    }
}

impl InhibitCookieGuard {
    pub fn new(cookie: u32, flags: InhibitFlags) -> (r: Self)
        ensures
            r@ == (cookie, flags),
    {
        InhibitCookieGuard { cookie, flags }
    }

    pub fn cookie(&self) -> (r: u32)
        ensures
            r == self@.0,
    {
        self.cookie
    }

    pub fn flags(&self) -> (r: InhibitFlags)
        ensures
            r == self@.1,
    {
        self.flags
    }
}

/// The token pair owned by the controller: nothing, or one keep-alive
/// token with one inhibition cookie.
#[derive(Debug)]
pub enum InhibitState {
    Nothing,
    Inhibited(HoldGuard, InhibitCookieGuard),
}

impl View for InhibitState {
    type V = Option<(u64, u32, InhibitFlags)>;

    closed spec fn view(&self) -> Option<(u64, u32, InhibitFlags)> {
        match self {
            InhibitState::Nothing => None,
            InhibitState::Inhibited(hold, cookie) => Some((hold@, cookie@.0, cookie@.1)),
        }
    }
}

impl Default for InhibitState {
    fn default() -> (r: Self)
        ensures
            r@ is None,
    {
        InhibitState::Nothing
    }
}

/// The level shown by a token pair: the idle bit distinguishes full
/// inhibition from suspend-only inhibition.
pub open spec fn level_of(pair: Option<(u64, u32, InhibitFlags)>) -> Inhibit {
    match pair {
        Option::None => Inhibit::Nothing,
        Option::Some(p) => if p.2.idle {
            Inhibit::SuspendAndIdle
        } else {
            Inhibit::Suspend
        },
    }
}

impl From<&InhibitState> for Inhibit {
    fn from(value: &InhibitState) -> (r: Self) {
        match value {
            InhibitState::Nothing => Inhibit::Nothing,
            InhibitState::Inhibited(_, cookie) => {
                if cookie.flags().idle {
                    Inhibit::SuspendAndIdle
                } else {
                    Inhibit::Suspend
                }
            },
        }
    }
}

impl vstd::std_specs::convert::FromSpecImpl<&InhibitState> for Inhibit {
    open spec fn obeys_from_spec() -> bool {
        true
    }

    open spec fn from_spec(t: &InhibitState) -> Self {
        level_of(t@)
    }
}

/// The controller's state as contracts speak of it: the token pair it
/// holds, and the level of a change whose grant is still outstanding.
pub struct InhibitorV {
    pub pair: Option<(u64, u32, InhibitFlags)>,
    pub pending: Option<Inhibit>,
}

impl InhibitorV {
    /// The externally observable level.
    pub open spec fn level(self) -> Inhibit {
        level_of(self.pair)
    }

    /// Well-formedness: a held pair always carries the suspend flag (so its
    /// flags are exactly those of a non-`Nothing` level), no pair is held
    /// while a grant is outstanding, and an outstanding change never aims
    /// at `Nothing` (that level needs no grant).
    pub open spec fn inv(self) -> bool {
        &&& (self.pair matches Some(p) ==> p.2.suspend)
        &&& (self.pair is Some ==> self.pending is None)
        &&& (self.pending matches Some(l) ==> !(l is Nothing))
    }
}

/// What one step of a level change does, seen abstractly: the pair handed
/// back for release, the flag set of a requested grant, and the change
/// notification to emit.
pub struct SetEffects {
    pub released: Option<(u64, u32, InhibitFlags)>,
    pub acquire: Option<InhibitFlags>,
    pub note: Option<Inhibit>,
}

/// What the caller must do after [`Inhibitor::set_inhibitors`].
#[derive(Debug)]
pub enum SetStep {
    /// The requested level is the current one: nothing to do.
    Unchanged,
    /// The change is complete.  Release the returned pair, if any, and
    /// emit the notification `note`.
    Done { released: Option<(HoldGuard, InhibitCookieGuard)>, note: Inhibit },
    /// Release the returned pair, if any, then request a grant with the
    /// given flags from the desktop session and hand the outcome to
    /// [`Inhibitor::supply_grant`].  The request must not be bound to any
    /// window, even if one exists: a window-bound grant lapses with the
    /// window, and inhibition is meant to continue after the window
    /// closes.
    Acquiring { released: Option<(HoldGuard, InhibitCookieGuard)>, flags: InhibitFlags },
}

/// The abstract value of a released pair.
pub open spec fn released_view(
    p: Option<(HoldGuard, InhibitCookieGuard)>,
) -> Option<(u64, u32, InhibitFlags)> {
    match p {
        Option::None => None,
        Option::Some(t) => Some((t.0@, t.1@.0, t.1@.1)),
    }
}

impl View for SetStep {
    type V = SetEffects;

    open spec fn view(&self) -> SetEffects {
        match self {
            SetStep::Unchanged => SetEffects { released: None, acquire: None, note: None },
            SetStep::Done { released, note } => SetEffects {
                released: released_view(*released),
                acquire: None,
                note: Some(*note),
            },
            SetStep::Acquiring { released, flags } => SetEffects {
                released: released_view(*released),
                acquire: Some(*flags),
                note: None,
            },
        }
    }
}

/// The first step of `set(level)`: a no-op on the current level; otherwise
/// the old pair leaves the controller, and a grant with the level's flags
/// is requested unless the target is `Nothing`.
pub open spec fn v_set_begin(s: InhibitorV, inhibit: Inhibit) -> (InhibitorV, SetEffects) {
    if inhibit == s.level() {
        (s, SetEffects { released: None, acquire: None, note: None })
    } else if inhibit is Nothing {
        (
            InhibitorV { pair: None, pending: None },
            SetEffects { released: s.pair, acquire: None, note: Some(Inhibit::Nothing) },
        )
    } else {
        (
            InhibitorV { pair: None, pending: Some(inhibit) },
            SetEffects { released: s.pair, acquire: Some(flags_for(inhibit)), note: None },
        )
    }
}

/// The second step of `set(level)`: a granted cookie is installed with the
/// pending level's flags; a refused grant settles the controller into
/// `Nothing`, so that no keep-alive token is held without a cookie.
pub open spec fn v_set_finish(s: InhibitorV, grant: Option<(u64, u32)>) -> (InhibitorV, Inhibit)
    recommends
        s.inv(),
        s.pending is Some,
{
    match (grant, s.pending) {
        (Some(g), Some(l)) => (
            InhibitorV { pair: Some((g.0, g.1, flags_for(l))), pending: None },
            l,
        ),
        _ => (InhibitorV { pair: None, pending: None }, Inhibit::Nothing),
    }
}

/// One whole `set(level)` call, with `grant` the desktop session's answer
/// where a grant is requested.
pub struct SetResult {
    pub state: InhibitorV,
    pub released: Option<(u64, u32, InhibitFlags)>,
    pub acquire_requested: Option<InhibitFlags>,
    pub note: Option<Inhibit>,
}

pub open spec fn v_set(s: InhibitorV, inhibit: Inhibit, grant: Option<(u64, u32)>) -> SetResult {
    let begun = v_set_begin(s, inhibit);
    match begun.1.acquire {
        Option::Some(_) => {
            let finished = v_set_finish(begun.0, grant);
            SetResult {
                state: finished.0,
                released: begun.1.released,
                acquire_requested: begun.1.acquire,
                note: Some(finished.1),
            }
        },
        Option::None => SetResult {
            state: begun.0,
            released: begun.1.released,
            acquire_requested: None,
            note: begun.1.note,
        },
    }
}

/// The abstract value of a grant.
pub open spec fn grant_view(g: Option<(HoldGuard, u32)>) -> Option<(u64, u32)> {
    match g {
        Option::None => None,
        Option::Some(t) => Some((t.0@, t.1)),
    }
}

/// The inhibition controller: owns the token pair and applies level
/// changes.
#[derive(Debug)]
pub struct Inhibitor {
    state: InhibitState,
    pending: Option<Inhibit>,
}

impl View for Inhibitor {
    type V = InhibitorV;

    closed spec fn view(&self) -> InhibitorV {
        InhibitorV { pair: self.state@, pending: self.pending }
    }
}

impl Default for Inhibitor {
    fn default() -> (r: Self)
        ensures
            r@.pair is None,
            r@.pending is None,
            r.wf(),
    {
        Inhibitor { state: InhibitState::Nothing, pending: None }
    }
}

impl Inhibitor {
    pub open spec fn wf(&self) -> bool {
        self@.inv()
    }

    /// The current inhibition level; pure.
    pub fn inhibitors(&self) -> (r: Inhibit)
        ensures
            r == self@.level(),
    {
        Inhibit::from(&self.state)
    }

    /// Begin `set(level)`.  A request for the current level is a no-op;
    /// otherwise the held pair is handed back for release, and the caller
    /// is told whether a grant must be requested.
    pub fn set_inhibitors(&mut self, inhibit: Inhibit) -> (step: SetStep)
        requires
            old(self).wf(),
            old(self)@.pending is None,
        ensures
            final(self).wf(),
            final(self)@ == v_set_begin(old(self)@, inhibit).0,
            step@ == v_set_begin(old(self)@, inhibit).1,
            inhibit == old(self)@.level() ==> (step is Unchanged && *final(self) == *old(self)),
            inhibit != old(self)@.level() ==> final(self)@.pair is None,
            (final(self)@.pending is Some) == (inhibit != old(self)@.level() && !(inhibit
                is Nothing)),
    {
        let current = self.inhibitors();
        if inhibit == current {
            return SetStep::Unchanged;
        }
        let mut taken = InhibitState::Nothing;
        core::mem::swap(&mut taken, &mut self.state);
        let released = match taken {
            InhibitState::Nothing => None,
            InhibitState::Inhibited(hold, cookie) => Some((hold, cookie)),
        };
        match inhibit {
            Inhibit::Nothing => SetStep::Done { released, note: Inhibit::Nothing },
            Inhibit::Suspend | Inhibit::SuspendAndIdle => {
                self.pending = Some(inhibit);
                SetStep::Acquiring { released, flags: InhibitFlags::from(inhibit) }
            },
        }
    }

    /// Finish `set(level)` with the desktop session's answer to the
    /// requested grant.  Returns the level to carry in the change
    /// notification: the pending level on success, `Nothing` when the
    /// grant was refused.
    pub fn supply_grant(&mut self, grant: Option<(HoldGuard, u32)>) -> (note: Inhibit)
        requires
            old(self).wf(),
            old(self)@.pending is Some,
        ensures
            final(self).wf(),
            final(self)@ == v_set_finish(old(self)@, grant_view(grant)).0,
            note == v_set_finish(old(self)@, grant_view(grant)).1,
            final(self)@.pending is None,
            grant is Some ==> final(self)@.level() == old(self)@.pending->0,
            grant is None ==> final(self)@.level() is Nothing && final(self)@.pair is None,
    {
        let level = match self.pending {
            Some(l) => l,
            None => Inhibit::Nothing,
        };
        self.pending = None;
        match grant {
            Some((hold, cookie)) => {
                let guard = InhibitCookieGuard::new(cookie, InhibitFlags::from(level));
                self.state = InhibitState::Inhibited(hold, guard);
                level
            },
            None => Inhibit::Nothing,
        }
    }
}

/// Exclusivity: a well-formed controller holds a pair exactly when its
/// level is not `Nothing`, and the pair's flag set is exactly the one that
/// belongs to that level.
pub proof fn law_exclusive_pair(s: InhibitorV)
    requires
        s.inv(),
    ensures
        (s.pair is Some) == !(s.level() is Nothing),
        s.pair matches Some(p) ==> p.2 == flags_for(s.level()),
{
}

/// One `set` call keeps the controller well-formed and leaves no grant
/// outstanding.
pub proof fn law_set_preserves_inv(s: InhibitorV, inhibit: Inhibit, grant: Option<(u64, u32)>)
    requires
        s.inv(),
        s.pending is None,
    ensures
        v_set(s, inhibit, grant).state.inv(),
        v_set(s, inhibit, grant).state.pending is None,
{
}

/// A whole run of `set` calls, each with the desktop session's answer.
pub open spec fn v_run(s: InhibitorV, calls: Seq<(Inhibit, Option<(u64, u32)>)>) -> InhibitorV
    decreases calls.len(),
{
    if calls.len() == 0 {
        s
    } else {
        v_run(v_set(s, calls[0].0, calls[0].1).state, calls.skip(1))
    }
}

/// Exclusivity after any sequence of `set` calls: the controller still
/// holds zero or one pair, with flags that match its level exactly.
pub proof fn law_exclusivity(s: InhibitorV, calls: Seq<(Inhibit, Option<(u64, u32)>)>)
    requires
        s.inv(),
        s.pending is None,
    ensures
        v_run(s, calls).inv(),
        v_run(s, calls).pending is None,
        (v_run(s, calls).pair is Some) == !(v_run(s, calls).level() is Nothing),
        v_run(s, calls).pair matches Some(p) ==> p.2 == flags_for(v_run(s, calls).level()),
    decreases calls.len(),
{
    if calls.len() == 0 {
    } else {
        law_set_preserves_inv(s, calls[0].0, calls[0].1);
        law_exclusivity(v_set(s, calls[0].0, calls[0].1).state, calls.skip(1));
    }
}

/// Idempotence: once a `set(level)` call has reached its level, a second
/// call with the same level releases nothing, requests no grant, emits no
/// notification, and leaves the state as it was.  (A first call whose
/// grant was refused does not reach a non-`Nothing` level, so the law asks
/// that the first grant succeed unless the level is `Nothing`.)
pub proof fn law_set_idempotent(
    s: InhibitorV,
    inhibit: Inhibit,
    g1: Option<(u64, u32)>,
    g2: Option<(u64, u32)>,
)
    requires
        s.inv(),
        s.pending is None,
        inhibit is Nothing || g1 is Some,
    ensures
        ({
            let first = v_set(s, inhibit, g1);
            let second = v_set(first.state, inhibit, g2);
            &&& second.released is None
            &&& second.acquire_requested is None
            &&& second.note is None
            &&& second.state == first.state
        }),
{
}

/// Monotonic release: changing from one active level to a different active
/// level hands the old pair back in the very step that requests the new
/// grant, and the controller holds no pair while that request is out — two
/// cookies are never held at once.
pub proof fn law_monotonic_release(s: InhibitorV, inhibit: Inhibit)
    requires
        s.inv(),
        s.pending is None,
        !(s.level() is Nothing),
        !(inhibit is Nothing),
        inhibit != s.level(),
    ensures
        v_set_begin(s, inhibit).1.released == s.pair,
        s.pair is Some,
        v_set_begin(s, inhibit).0.pair is None,
        v_set_begin(s, inhibit).1.acquire == Some(flags_for(inhibit)),
{
}

} // verus!
