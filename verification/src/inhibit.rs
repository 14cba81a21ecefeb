//! The inhibition level and the flag set that each level is acquired with.

use vstd::prelude::*;

verus! {

/// What's currently being inhibited.
#[derive(Debug, Clone, Copy, PartialEq, Eq, Structural)]
pub enum Inhibit {
    /// Inhibit nothing.
    Nothing,
    /// Inhibit suspend.
    Suspend,
    /// Inhibit suspend and session idle.
    SuspendAndIdle,
}

impl Default for Inhibit {
    fn default() -> (r: Self)
        ensures
            r is Nothing,
    {
        Inhibit::Nothing
    }
}

impl Inhibit {
    /// The level a user toggle switches to: from `Nothing` to full
    /// inhibition, and from any active level back to `Nothing`.
    pub fn toggled(self) -> (r: Inhibit)
        ensures
            self is Nothing ==> r is SuspendAndIdle,
            !(self is Nothing) ==> r is Nothing,
    {
        match self {
            Inhibit::Nothing => Inhibit::SuspendAndIdle,
            Inhibit::Suspend | Inhibit::SuspendAndIdle => Inhibit::Nothing,
        }
    }
}

/// The flag set handed to the desktop session when an inhibition grant is
/// requested: the suspend bit, and the idle bit for screen-lock inhibition.
#[derive(Debug, Clone, Copy, PartialEq, Eq, Structural)]
pub struct InhibitFlags {
    pub suspend: bool,
    pub idle: bool,
}

/// The flag set that belongs to each inhibition level: `Suspend` asks for
/// the suspend bit only, `SuspendAndIdle` for suspend and idle together.
pub open spec fn flags_for(inhibit: Inhibit) -> InhibitFlags {
    match inhibit {
        Inhibit::Nothing => InhibitFlags { suspend: false, idle: false },
        Inhibit::Suspend => InhibitFlags { suspend: true, idle: false },
        Inhibit::SuspendAndIdle => InhibitFlags { suspend: true, idle: true },
    }
}

impl From<Inhibit> for InhibitFlags {
    fn from(value: Inhibit) -> (r: Self) {
        match value {
            Inhibit::Nothing => InhibitFlags { suspend: false, idle: false },
            Inhibit::Suspend => InhibitFlags { suspend: true, idle: false },
            Inhibit::SuspendAndIdle => InhibitFlags { suspend: true, idle: true },
        }
    }
}

impl vstd::std_specs::convert::FromSpecImpl<Inhibit> for InhibitFlags {
    open spec fn obeys_from_spec() -> bool {
        true
    }

    open spec fn from_spec(t: Inhibit) -> Self {
        flags_for(t)
    }
}

/// The icon that shows the current level in the user interface.
pub fn icon_name(inhibit: Inhibit) -> (r: &'static str)
    ensures
        inhibit is Nothing ==> r@ == "cup-empty"@,
        inhibit is Suspend ==> r@ == "cup-full"@,
        inhibit is SuspendAndIdle ==> r@ == "cup-full-steaming"@,
{
    match inhibit {
        Inhibit::Nothing => "cup-empty",
        Inhibit::Suspend => "cup-full",
        Inhibit::SuspendAndIdle => "cup-full-steaming",
    }
}

/// Title and body of the persistent notification that reminds the user of
/// an active inhibition; `Nothing` shows no notification.
pub fn notification_text(inhibit: Inhibit) -> (r: Option<(&'static str, &'static str)>)
    ensures
        (r is Some) == !(inhibit is Nothing),
        inhibit is Suspend ==> (r matches Some(t) && t.0@ == "Suspend inhibited"@
            && t.1@ == "Keep me Awake inhibits suspend at your request."@),
        inhibit is SuspendAndIdle ==> (r matches Some(t)
            && t.0@ == "Suspend and screen lock inhibited"@
            && t.1@ == "Keep me Awake inhibits suspend and screen lock at your request."@),
{
    match inhibit {
        Inhibit::Nothing => None,
        Inhibit::Suspend => Some((
            "Suspend inhibited",
            "Keep me Awake inhibits suspend at your request.",
        )),
        Inhibit::SuspendAndIdle => Some((
            "Suspend and screen lock inhibited",
            "Keep me Awake inhibits suspend and screen lock at your request.",
        )),
    }
}

} // verus!
