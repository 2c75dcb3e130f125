//! Launch at login: what to do about a request to switch it on or off,
//! and what two readings of the setting are worth.

use vstd::prelude::*;

verus! {

/// What a request to switch launch at login calls for.
#[derive(Clone, Copy, Debug, PartialEq, Eq, Structural)]
pub enum Switch {
    /// The setting is as requested: leave it.
    Keep,
    /// Switch it on.
    Enable,
    /// Switch it off.
    Disable,
}

/// The setting did not take: what was requested, and what the setting
/// reads after the switch.
#[derive(Clone, Copy, Debug, PartialEq, Eq, Structural)]
pub struct NotApplied {
    pub requested: bool,
    pub observed: bool,
}

/// Two readings of the setting, taken one after the other, differ.
#[derive(Clone, Copy, Debug, PartialEq, Eq, Structural)]
pub struct Unstable;

/// What a request for `requested` calls for when the setting reads
/// `current`: nothing where the two agree, else the switch towards the
/// request.
pub open spec fn switch_for(current: bool, requested: bool) -> Switch {
    if current == requested {
        Switch::Keep
    } else if requested {
        Switch::Enable
    } else {
        Switch::Disable
    }
}

/// What a request for `requested` calls for when the setting reads
/// `current`.
pub fn plan_switch(current: bool, requested: bool) -> (r: Switch)
    ensures
        r == switch_for(current, requested),
{
    if current == requested {
        Switch::Keep
    } else if requested {
        Switch::Enable
    } else {
        Switch::Disable
    }
}

/// Whether a switch took: it did where the setting, read again, is what
/// was requested.
pub fn confirm_switch(requested: bool, observed: bool) -> (r: Result<(), NotApplied>)
    ensures
        r == if observed == requested {
            Ok::<(), NotApplied>(())
        } else {
            Err::<(), NotApplied>(NotApplied { requested, observed })
        },
{
    if observed == requested {
        Ok(())
    } else {
        Err(NotApplied { requested, observed })
    }
}

/// The setting, from two readings: their common value, or a failure
/// where they differ.
pub fn settled_state(first: bool, second: bool) -> (r: Result<bool, Unstable>)
    ensures
        r == if first == second {
            Ok::<bool, Unstable>(first)
        } else {
            Err::<bool, Unstable>(Unstable)
        },
{
    if first == second {
        Ok(first)
    } else {
        Err(Unstable)
    }
}

} // verus!
