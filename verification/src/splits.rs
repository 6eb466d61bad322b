//! Splits: the set of splits already done in a run, the rule that decides whether a
//! named split fires, which splits pause game time, and what starting a run resets.

use vstd::prelude::*;
use crate::settings::{AutoStart, PauseTiming, Settings};
use crate::text::str_eq;
use crate::titles::TitleTracker;

verus! {

/// The names of the splits done in the current run, each once.
pub struct SplitSet {
    names: Vec<String>,
}

/// The names held by a sequence of strings.
pub open spec fn name_set(names: Seq<String>) -> Set<Seq<char>> {
    Set::new(|n: Seq<char>| exists|i: int| 0 <= i < names.len() && #[trigger] names[i]@ == n)
}

impl View for SplitSet {
    type V = Set<Seq<char>>;

    closed spec fn view(&self) -> Set<Seq<char>> {
        name_set(self.names@)
    }
}

impl SplitSet {
    #[verifier::type_invariant]
    closed spec fn distinct(&self) -> bool {
        forall|i: int, j: int|
            0 <= i < j < self.names@.len() ==> #[trigger] self.names@[i]@ != #[trigger] self.names@[j]@
    }

    /// An empty set.
    pub fn new() -> (r: SplitSet)
        ensures
            r@ == Set::<Seq<char>>::empty(),
            r@.finite(),
    {
        let r = SplitSet { names: Vec::new() };
        assert(name_set(r.names@) =~= Set::<Seq<char>>::empty());
        r
    }

    /// Whether the split `name` has been done.
    pub fn contains(&self, name: &str) -> (r: bool)
        ensures
            r == self@.contains(name@),
            self@.finite(),
    {
        proof {
            use_type_invariant(self);
            lemma_distinct_names_len(self.names@);
        }
        let mut i: usize = 0;
        while i < self.names.len()
            invariant
                i <= self.names@.len(),
                self@.finite(),
                forall|j: int| 0 <= j < i ==> #[trigger] self.names@[j]@ != name@,
            decreases self.names@.len() - i,
        {
            if str_eq(self.names[i].as_str(), name) {
                assert(self.names@[i as int]@ == name@);
                return true;
            }
            i = i + 1;
        }
        false
    }

    /// Whether no split has been done.
    pub fn is_empty(&self) -> (r: bool)
        ensures
            r == (self@ == Set::<Seq<char>>::empty()),
    {
        let r = self.names.len() == 0;
        proof {
            if r {
                assert(name_set(self.names@) =~= Set::<Seq<char>>::empty());
            } else {
                assert(name_set(self.names@).contains(self.names@[0]@));
            }
        }
        r
    }

    /// The number of splits done.
    pub fn len(&self) -> (r: usize)
        ensures
            r == self@.len(),
            self@.finite(),
    {
        proof {
            use_type_invariant(self);
            lemma_distinct_names_len(self.names@);
        }
        self.names.len()
    }

    /// Records the split `name`; a name already recorded is not recorded twice.
    pub fn insert(&mut self, name: &str)
        ensures
            final(self)@ == old(self)@.insert(name@),
            old(self)@.finite() && final(self)@.finite(),
    {
        proof {
            use_type_invariant(&*self);
            lemma_distinct_names_len(self.names@);
        }
        if !self.contains(name) {
            let ghost before = self.names@;
            let mut v: Vec<String> = Vec::new();
            std::mem::swap(&mut v, &mut self.names);
            v.push(name.to_owned());
            proof {
                assert(v@ == before.push(v@[before.len() as int]));
                assert forall|i: int, j: int| 0 <= i < j < v@.len() implies #[trigger] v@[i]@
                    != #[trigger] v@[j]@ by {
                    if j == before.len() {
                        assert(before[i]@ != name@);
                    } else {
                        assert(before[i]@ != before[j]@);
                    }
                }
                assert(name_set(v@) =~= name_set(before).insert(name@)) by {
                    assert forall|n: Seq<char>| #[trigger] name_set(before).insert(name@).contains(n)
                        implies name_set(v@).contains(n) by {
                        if n == name@ {
                            assert(v@[before.len() as int]@ == n);
                        } else {
                            let k = choose|k: int| 0 <= k < before.len() && before[k]@ == n;
                            assert(v@[k]@ == n);
                        }
                    }
                    assert forall|n: Seq<char>| #[trigger] name_set(v@).contains(n) implies name_set(
                        before,
                    ).insert(name@).contains(n) by {
                        let k = choose|k: int| 0 <= k < v@.len() && v@[k]@ == n;
                        if k < before.len() {
                            assert(before[k]@ == n);
                        }
                    }
                }
            }
            self.names = v;
        } else {
            proof {
                assert(old(self)@.insert(name@) =~= old(self)@);
            }
        }
    }

    /// Forgets every split.
    pub fn clear(&mut self)
        ensures
            final(self)@ == Set::<Seq<char>>::empty(),
            final(self)@.finite(),
    {
        self.names = Vec::new();
        assert(name_set(self.names@) =~= Set::<Seq<char>>::empty());
    }
}

/// A sequence of strings with pairwise distinct contents holds as many names as strings.
proof fn lemma_distinct_names_len(names: Seq<String>)
    requires
        forall|i: int, j: int| 0 <= i < j < names.len() ==> #[trigger] names[i]@ != #[trigger] names[j]@,
    ensures
        name_set(names).finite(),
        name_set(names).len() == names.len(),
    decreases names.len(),
{
    if names.len() == 0 {
        assert(name_set(names) =~= Set::<Seq<char>>::empty());
    } else {
        let init = names.drop_last();
        lemma_distinct_names_len(init);
        let last = names.last();
        assert(name_set(names) =~= name_set(init).insert(last@)) by {
            assert forall|n: Seq<char>| #[trigger] name_set(names).contains(n) implies name_set(
                init,
            ).insert(last@).contains(n) by {
                let k = choose|k: int| 0 <= k < names.len() && names[k]@ == n;
                if k < init.len() {
                    assert(init[k]@ == n);
                }
            }
            assert forall|n: Seq<char>| #[trigger] name_set(init).insert(last@).contains(n)
                implies name_set(names).contains(n) by {
                if n == last@ {
                    assert(names[names.len() - 1]@ == n);
                } else {
                    let k = choose|k: int| 0 <= k < init.len() && init[k]@ == n;
                    assert(names[k]@ == n);
                }
            }
        }
        assert(!name_set(init).contains(last@)) by {
            if name_set(init).contains(last@) {
                let k = choose|k: int| 0 <= k < init.len() && init[k]@ == last@;
                assert(names[k]@ != names[names.len() - 1]@);
            }
        }
    }
}

/// The name of the pseudo-split that resumes game time instead of splitting.
pub open spec fn resume_name() -> Seq<char> {
    "resume_igt"@
}

/// The splits after which game time pauses, for each pause timing.
pub open spec fn pause_list(t: PauseTiming) -> Seq<Seq<char>> {
    match t {
        PauseTiming::SingleChapter => seq![
            "ch1_ending"@,
            "ch2_ending_il"@,
            "ch3_ending"@,
            "ch4_ending_il"@,
            "ch5_ending_src"@,
        ],
        PauseTiming::AllChapters => seq![
            "ch1_ending"@,
            "ch2_ending_ac"@,
            "ch3_ending"@,
            "ch4_ending"@,
            "ch5_ending_src"@,
        ],
        PauseTiming::OST => seq![
            "ch1_ending_ost"@,
            "ch2_ending_ac"@,
            "ch3_ending_ost"@,
            "ch4_ending_ost"@,
            "ch5_ending_src"@,
        ],
        PauseTiming::OSTLateCh2 => seq![
            "ch1_ending_ost"@,
            "ch2_ending_ost"@,
            "ch3_ending_ost"@,
            "ch4_ending_ost"@,
            "ch5_ending_src"@,
        ],
    }
}

fn pause_names(t: PauseTiming) -> (r: [&'static str; 5])
    ensures
        r@.map_values(|s: &str| s@) == pause_list(t),
{
    let r = match t {
        PauseTiming::SingleChapter => [
            "ch1_ending",
            "ch2_ending_il",
            "ch3_ending",
            "ch4_ending_il",
            "ch5_ending_src",
        ],
        PauseTiming::AllChapters => [
            "ch1_ending",
            "ch2_ending_ac",
            "ch3_ending",
            "ch4_ending",
            "ch5_ending_src",
        ],
        PauseTiming::OST => [
            "ch1_ending_ost",
            "ch2_ending_ac",
            "ch3_ending_ost",
            "ch4_ending_ost",
            "ch5_ending_src",
        ],
        PauseTiming::OSTLateCh2 => [
            "ch1_ending_ost",
            "ch2_ending_ost",
            "ch3_ending_ost",
            "ch4_ending_ost",
            "ch5_ending_src",
        ],
    };
    assert(r@.map_values(|s: &str| s@) =~= pause_list(t));
    r
}

/// Whether the split `name` pauses game time under the pause timing `t`.
pub fn is_pause_split(t: PauseTiming, name: &str) -> (r: bool)
    ensures
        r == pause_list(t).contains(name@),
{
    let names = pause_names(t);
    let ghost list = pause_list(t);
    let mut i: usize = 0;
    while i < 5
        invariant
            i <= 5,
            names@.map_values(|s: &str| s@) == list,
            list == pause_list(t),
            list.len() == 5,
            forall|j: int| 0 <= j < i ==> list[j] != name@,
        decreases 5 - i,
    {
        assert(list[i as int] == names@[i as int]@);
        if str_eq(names[i], name) {
            assert(list[i as int] == name@);
            return true;
        }
        i = i + 1;
    }
    false
}

/// What a call of `split` asks the timer to do, in this order.
#[derive(Clone, Copy, PartialEq, Eq, Structural, Debug)]
pub struct SplitOutcome {
    /// Resume game time (and do nothing else).
    pub resume_game_time: bool,
    /// Pause game time.
    pub pause_game_time: bool,
    /// Announce the split and split the timer.
    pub split: bool,
}

/// Whether `split` resumes game time for `name`.
pub open spec fn resumes(settings: Settings, name: Seq<char>) -> bool {
    settings.ac_pause_timer && name == resume_name()
}

/// Whether `split` pauses game time for `name`.
pub open spec fn pauses(settings: Settings, name: Seq<char>) -> bool {
    settings.ac_pause_timer && name != resume_name() && pause_list(
        settings.chapter_pause_timing,
    ).contains(name)
}

/// Whether `split` fires for `name`: not the resume pseudo-split, and either checked
/// by the caller already or a non-empty name, not done yet in this run, and switched
/// on in the settings map (`enabled`).
pub open spec fn fires(
    done: Set<Seq<char>>,
    settings: Settings,
    name: Seq<char>,
    already_checked: bool,
    enabled: bool,
) -> bool {
    !resumes(settings, name) && (already_checked || (name.len() != 0 && !done.contains(name)
        && enabled))
}

/// The split rule. With pauses on, the name `resume_igt` only resumes game time, and a
/// chapter-ending split pauses game time. The split then fires as `fires` says, and a
/// fired split is recorded in `splits`. `enabled` is the value of the split's switch in
/// the settings map.
pub fn split(
    splits: &mut SplitSet,
    settings: &Settings,
    name: &str,
    already_checked: bool,
    enabled: bool,
) -> (r: SplitOutcome)
    ensures
        r.resume_game_time == resumes(*settings, name@),
        r.pause_game_time == pauses(*settings, name@),
        r.split == fires(old(splits)@, *settings, name@, already_checked, enabled),
        final(splits)@ == if r.split {
            old(splits)@.insert(name@)
        } else {
            old(splits)@
        },
        old(splits)@.finite() && final(splits)@.finite(),
{
    proof {
        use_type_invariant(&*splits);
        lemma_distinct_names_len(splits.names@);
    }
    let mut pause = false;
    if settings.ac_pause_timer {
        if str_eq(name, "resume_igt") {
            return SplitOutcome { resume_game_time: true, pause_game_time: false, split: false };
        }
        if is_pause_split(settings.chapter_pause_timing, name) {
            pause = true;
        }
    }
    if !already_checked && (name.is_empty() || splits.contains(name) || !enabled) {
        return SplitOutcome { resume_game_time: false, pause_game_time: pause, split: false };
    }
    splits.insert(name);
    SplitOutcome { resume_game_time: false, pause_game_time: pause, split: true }
}

/// What starting a run asks for, in this order.
#[derive(Clone, Copy, PartialEq, Eq, Structural, Debug)]
pub struct StartOutcome {
    /// Forget the items tracked so far.
    pub clear_items: bool,
    /// Reset the timer.
    pub reset: bool,
    /// Start the timer.
    pub start: bool,
    /// Resume game time.
    pub resume_game_time: bool,
}

/// Starts a run as the autostart mode says: `AutoReset` forgets the splits, items and
/// titles of the previous run, resets and starts the timer; `AutoStartAndUnpause`
/// starts the timer and resumes game time; `AutoStart` only starts the timer; `Off`
/// does nothing.
pub fn start(auto_start: &AutoStart, splits: &mut SplitSet, titles: &mut TitleTracker) -> (r:
    StartOutcome)
    ensures
        *auto_start == AutoStart::AutoReset ==> final(splits)@ == Set::<Seq<char>>::empty()
            && final(titles)@ == Set::<crate::titles::Title>::empty(),
        *auto_start != AutoStart::AutoReset ==> final(splits)@ == old(splits)@ && final(titles)@
            == old(titles)@,
        r.clear_items == (*auto_start == AutoStart::AutoReset),
        r.reset == (*auto_start == AutoStart::AutoReset),
        r.start == (*auto_start != AutoStart::Off),
        r.resume_game_time == (*auto_start == AutoStart::AutoStartAndUnpause),
{
    match auto_start {
        AutoStart::AutoReset => {
            splits.clear();
            titles.clear();
            StartOutcome { clear_items: true, reset: true, start: true, resume_game_time: false }
        },
        AutoStart::AutoStartAndUnpause => StartOutcome {
            clear_items: false,
            reset: false,
            start: true,
            resume_game_time: true,
        },
        AutoStart::AutoStart => StartOutcome {
            clear_items: false,
            reset: false,
            start: true,
            resume_game_time: false,
        },
        AutoStart::Off => StartOutcome {
            clear_items: false,
            reset: false,
            start: false,
            resume_game_time: false,
        },
    }
}

/// With pauses on, game time pauses exactly on the chapter-ending splits of the chosen
/// timing: the individual-chapter endings for `SingleChapter`, the All Chapters endings
/// for `AllChapters`, the credits-music endings of chapters 1, 3 and 4 with the All
/// Chapters endings of chapters 2 and 5 for `OST`, and the credits-song endings of every
/// chapter (chapter 5 ending on its source) for `OSTLateCh2`.
pub proof fn law_pause_lists(settings: Settings, name: Seq<char>)
    requires
        settings.ac_pause_timer,
    ensures
        settings.chapter_pause_timing == PauseTiming::SingleChapter ==> (pauses(settings, name) <==> (name == "ch1_ending"@ || name == "ch2_ending_il"@ || name == "ch3_ending"@ || name == "ch4_ending_il"@ || name == "ch5_ending_src"@)),
        settings.chapter_pause_timing == PauseTiming::AllChapters ==> (pauses(settings, name) <==> (name == "ch1_ending"@ || name == "ch2_ending_ac"@ || name == "ch3_ending"@ || name == "ch4_ending"@ || name == "ch5_ending_src"@)),
        settings.chapter_pause_timing == PauseTiming::OST ==> (pauses(settings, name) <==> (name == "ch1_ending_ost"@ || name == "ch2_ending_ac"@ || name == "ch3_ending_ost"@ || name == "ch4_ending_ost"@ || name == "ch5_ending_src"@)),
        settings.chapter_pause_timing == PauseTiming::OSTLateCh2 ==> (pauses(settings, name) <==> (name == "ch1_ending_ost"@ || name == "ch2_ending_ost"@ || name == "ch3_ending_ost"@ || name == "ch4_ending_ost"@ || name == "ch5_ending_src"@)),
{
    reveal_strlit("resume_igt");
    reveal_strlit("ch1_ending");
    reveal_strlit("ch1_ending_ost");
    reveal_strlit("ch2_ending_ac");
    reveal_strlit("ch2_ending_il");
    reveal_strlit("ch2_ending_ost");
    reveal_strlit("ch3_ending");
    reveal_strlit("ch3_ending_ost");
    reveal_strlit("ch4_ending");
    reveal_strlit("ch4_ending_il");
    reveal_strlit("ch4_ending_ost");
    reveal_strlit("ch5_ending_src");
    assert("resume_igt"@[0] != "ch1_ending"@[0]);
    assert("resume_igt"@[0] != "ch1_ending_ost"@[0]);
    assert("resume_igt"@[0] != "ch2_ending_ac"@[0]);
    assert("resume_igt"@[0] != "ch2_ending_il"@[0]);
    assert("resume_igt"@[0] != "ch2_ending_ost"@[0]);
    assert("resume_igt"@[0] != "ch3_ending"@[0]);
    assert("resume_igt"@[0] != "ch3_ending_ost"@[0]);
    assert("resume_igt"@[0] != "ch4_ending"@[0]);
    assert("resume_igt"@[0] != "ch4_ending_il"@[0]);
    assert("resume_igt"@[0] != "ch4_ending_ost"@[0]);
    assert("resume_igt"@[0] != "ch5_ending_src"@[0]);
    let l = pause_list(settings.chapter_pause_timing);
    if pauses(settings, name) {
        let i = choose|i: int| 0 <= i < l.len() && l[i] == name;
        assert(i == 0 || i == 1 || i == 2 || i == 3 || i == 4);
    }
    assert(l[0] == name ==> l.contains(name));
    assert(l[1] == name ==> l.contains(name));
    assert(l[2] == name ==> l.contains(name));
    assert(l[3] == name ==> l.contains(name));
    assert(l[4] == name ==> l.contains(name));
}

/// A split fires exactly when the caller has checked it already, or when its name is not
/// empty, not done yet in this run and switched on; never for the resume pseudo-split
/// while pauses are on. A split that is switched off never fires unless checked already.
pub proof fn law_when_splits_fire(
    done: Set<Seq<char>>,
    settings: Settings,
    name: Seq<char>,
    already_checked: bool,
    enabled: bool,
)
    ensures
        !(settings.ac_pause_timer && name == "resume_igt"@) ==> (fires(
            done,
            settings,
            name,
            already_checked,
            enabled,
        ) <==> (already_checked || (name.len() != 0 && !done.contains(name) && enabled))),
        settings.ac_pause_timer && name == "resume_igt"@ ==> !fires(
            done,
            settings,
            name,
            already_checked,
            enabled,
        ),
        !enabled && !already_checked ==> !fires(done, settings, name, already_checked, enabled),
        done.contains(name) && !already_checked ==> !fires(done, settings, name, already_checked, enabled),
{
}

/// A split fires at most once in a run: once `split` has recorded a name, asking for
/// that name again (without the caller's own check) does not fire, whatever the switch.
pub proof fn law_split_fires_once(
    done: Set<Seq<char>>,
    settings: Settings,
    name: Seq<char>,
    enabled: bool,
    enabled_again: bool,
)
    requires
        fires(done, settings, name, false, enabled),
    ensures
        !fires(done.insert(name), settings, name, false, enabled_again),
{
}

/// The resume pseudo-split only resumes game time: it never splits, never pauses and is
/// never recorded.
pub proof fn law_resume_only_resumes(
    done: Set<Seq<char>>,
    settings: Settings,
    already_checked: bool,
    enabled: bool,
)
    requires
        settings.ac_pause_timer,
    ensures
        resumes(settings, resume_name()),
        !pauses(settings, resume_name()),
        !fires(done, settings, resume_name(), already_checked, enabled),
{
}

/// With pauses off, game time is never paused or resumed.
pub proof fn law_no_pauses_when_off(settings: Settings, name: Seq<char>)
    requires
        !settings.ac_pause_timer,
    ensures
        !resumes(settings, name),
        !pauses(settings, name),
{
}

/// The empty name, which the rules give when a tick triggers nothing, never splits
/// unless the caller has checked it already.
pub proof fn law_empty_name_never_splits(
    done: Set<Seq<char>>,
    settings: Settings,
    enabled: bool,
)
    ensures
        !fires(done, settings, Seq::<char>::empty(), false, enabled),
{
}

/// After a reset start, which forgets every split, any switched-on split other than the
/// resume pseudo-split fires again.
pub proof fn law_reset_rearms_splits(settings: Settings, name: Seq<char>)
    requires
        name.len() != 0,
        !resumes(settings, name),
    ensures
        fires(Set::<Seq<char>>::empty(), settings, name, false, true),
{
}

} // verus!
