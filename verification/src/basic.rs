//! The basic split driver: a named split always fires, and autostart knows three
//! modes. A run-wide counter (`temp_var`) lets a rule wait for its second chance.

use vstd::prelude::*;
use crate::splits::SplitSet;

verus! {

/// What happens when a new file is created.
#[derive(Clone, Copy, PartialEq, Eq, Structural, Debug)]
pub enum AutoStart {
    /// Start the timer, resetting if it was already running (the default).
    AutoReset,
    /// Start the timer if it was not already running.
    AutoStart,
    /// Do nothing.
    Off,
}

impl Default for AutoStart {
    fn default() -> (r: AutoStart)
        ensures
            r == AutoStart::AutoReset,
    {
        AutoStart::AutoReset
    }
}

/// What starting a run asks of the timer, in this order.
#[derive(Clone, Copy, PartialEq, Eq, Structural, Debug)]
pub struct StartRequest {
    pub reset: bool,
    pub start: bool,
}

/// Starts a run: `AutoReset` clears the counter and the splits and asks for a reset and
/// a start, `AutoStart` only asks for a start, `Off` does nothing.
pub fn start(auto_start: &AutoStart, splits: &mut SplitSet, temp_var: &mut u64) -> (r: StartRequest)
    ensures
        *auto_start == AutoStart::AutoReset ==> final(splits)@ == Set::<Seq<char>>::empty()
            && *final(temp_var) == 0,
        *auto_start != AutoStart::AutoReset ==> final(splits)@ == old(splits)@ && *final(temp_var)
            == *old(temp_var),
        r.reset == (*auto_start == AutoStart::AutoReset),
        r.start == (*auto_start != AutoStart::Off),
{
    match auto_start {
        AutoStart::AutoReset => {
            *temp_var = 0;
            splits.clear();
            StartRequest { reset: true, start: true }
        },
        AutoStart::AutoStart => StartRequest { reset: false, start: true },
        AutoStart::Off => StartRequest { reset: false, start: false },
    }
}

/// Records the split `name`; the caller announces it and splits the timer.
pub fn split(splits: &mut SplitSet, name: &str)
    ensures
        final(splits)@ == old(splits)@.insert(name@),
{
    splits.insert(name);
}

} // verus!
