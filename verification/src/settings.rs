//! The user's choices that the split logic reads.

use vstd::prelude::*;

verus! {

/// Which splits pause game time at the end of a chapter.
#[derive(Clone, Copy, PartialEq, Eq, Structural, Debug)]
pub enum PauseTiming {
    /// Individual chapter run rules.
    SingleChapter,
    /// All Chapters rules (the default).
    AllChapters,
    /// OST% timing: chapters 1, 3, 4 and 5 end on credits music start.
    OST,
    /// Demo and per-chapter OST% timing: every chapter ends on credits song start.
    OSTLateCh2,
}

impl Default for PauseTiming {
    fn default() -> (r: PauseTiming)
        ensures
            r == PauseTiming::AllChapters,
    {
        PauseTiming::AllChapters
    }
}

/// What happens when a new file is created.
#[derive(Clone, Copy, PartialEq, Eq, Structural, Debug)]
pub enum AutoStart {
    /// Start the timer, resetting if it was already running (the default).
    AutoReset,
    /// Start the timer, and resume game time if it was already running.
    AutoStartAndUnpause,
    /// Start the timer if it was not already running.
    AutoStart,
    /// Do nothing.
    Off,
}

impl Default for AutoStart {
    fn default() -> (r: AutoStart)
        ensures
            r == AutoStart::AutoReset,
    {
        AutoStart::AutoReset
    }
}

/// Whether chapter 5 starts the timer on loading chapter 4 completion data.
#[derive(Clone, Copy, PartialEq, Eq, Structural, Debug)]
pub enum Ch5StartOnPrev {
    /// No (the default).
    No,
    /// Yes, besides the usual start.
    Yes,
    /// Only there.
    Exclusively,
}

impl Default for Ch5StartOnPrev {
    fn default() -> (r: Ch5StartOnPrev)
        ensures
            r == Ch5StartOnPrev::No,
    {
        Ch5StartOnPrev::No
    }
}

/// The general settings. Each individual split is switched on or off in the host's
/// settings map under the split's own name; those switches are read there.
#[derive(Clone, Copy, PartialEq, Eq, Structural, Debug)]
pub struct Settings {
    /// On creating a new file.
    pub auto_start: AutoStart,
    /// Pause the timer between chapters (on by default).
    pub ac_pause_timer: bool,
    /// Timing of the pauses.
    pub chapter_pause_timing: PauseTiming,
    /// Also unpause from loading a savefile.
    pub ac_unpause_loadsave: bool,
    /// Item tracker.
    pub item_tracking: bool,
    /// Function with unrecognized `data.win` files.
    pub allow_unsupported_version: bool,
    /// Start or reset the timer on loading chapter 4 completion data.
    pub ch5_start_on_prev: Ch5StartOnPrev,
}

impl Default for Settings {
    fn default() -> (r: Settings)
        ensures
            r.auto_start == AutoStart::AutoReset,
            r.ac_pause_timer,
            r.chapter_pause_timing == PauseTiming::AllChapters,
            !r.ac_unpause_loadsave,
            !r.item_tracking,
            !r.allow_unsupported_version,
            r.ch5_start_on_prev == Ch5StartOnPrev::No,
    {
        Settings {
            auto_start: AutoStart::AutoReset,
            ac_pause_timer: true,
            chapter_pause_timing: PauseTiming::AllChapters,
            ac_unpause_loadsave: false,
            item_tracking: false,
            allow_unsupported_version: false,
            ch5_start_on_prev: Ch5StartOnPrev::No,
        }
    }
}

} // verus!
