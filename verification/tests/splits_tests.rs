use deltarune_autosplit::settings::{AutoStart, Ch5StartOnPrev, PauseTiming, Settings};
use deltarune_autosplit::splits::{is_pause_split, split, start, SplitOutcome, SplitSet, StartOutcome};
use deltarune_autosplit::titles::{Title, TitleTracker};

fn settings(pauses: bool, timing: PauseTiming) -> Settings {
    Settings {
        auto_start: AutoStart::AutoReset,
        ac_pause_timer: pauses,
        chapter_pause_timing: timing,
        ac_unpause_loadsave: false,
        item_tracking: false,
        allow_unsupported_version: false,
        ch5_start_on_prev: Ch5StartOnPrev::No,
    }
}

#[test]
fn default_settings() {
    let s = Settings::default();
    assert_eq!(s, settings(true, PauseTiming::AllChapters));
    assert_eq!(AutoStart::default(), AutoStart::AutoReset);
    assert_eq!(PauseTiming::default(), PauseTiming::AllChapters);
    assert_eq!(Ch5StartOnPrev::default(), Ch5StartOnPrev::No);
}

#[test]
fn split_set_basics() {
    let mut s = SplitSet::new();
    assert!(s.is_empty());
    s.insert("ch1_school");
    s.insert("ch1_school");
    s.insert("ch1_field");
    assert_eq!(s.len(), 2);
    assert!(s.contains("ch1_field"));
    assert!(!s.contains("ch1_board"));
    s.clear();
    assert!(s.is_empty());
    assert_eq!(s.len(), 0);
}

#[test]
fn pause_lists() {
    assert!(is_pause_split(PauseTiming::SingleChapter, "ch2_ending_il"));
    assert!(!is_pause_split(PauseTiming::SingleChapter, "ch2_ending_ac"));
    assert!(is_pause_split(PauseTiming::AllChapters, "ch4_ending"));
    assert!(!is_pause_split(PauseTiming::AllChapters, "ch4_ending_il"));
    assert!(is_pause_split(PauseTiming::OST, "ch3_ending_ost"));
    assert!(is_pause_split(PauseTiming::OST, "ch2_ending_ac"));
    assert!(is_pause_split(PauseTiming::OSTLateCh2, "ch2_ending_ost"));
    assert!(is_pause_split(PauseTiming::OSTLateCh2, "ch3_ending_ost"));
    assert!(!is_pause_split(PauseTiming::OSTLateCh2, "ch3_ending"));
    assert!(is_pause_split(PauseTiming::OSTLateCh2, "ch1_ending_ost"));
    assert!(is_pause_split(PauseTiming::OSTLateCh2, "ch4_ending_ost"));
    for t in [PauseTiming::SingleChapter, PauseTiming::AllChapters, PauseTiming::OST, PauseTiming::OSTLateCh2] {
        assert!(is_pause_split(t, "ch5_ending_src"));
        assert!(!is_pause_split(t, "ch1_school"));
        assert!(!is_pause_split(t, ""));
    }
}

#[test]
fn split_fires_once_when_enabled() {
    let mut done = SplitSet::new();
    let s = settings(true, PauseTiming::AllChapters);
    let r = split(&mut done, &s, "ch1_school", false, true);
    assert_eq!(r, SplitOutcome { resume_game_time: false, pause_game_time: false, split: true });
    assert!(done.contains("ch1_school"));
    let r2 = split(&mut done, &s, "ch1_school", false, true);
    assert!(!r2.split);
    assert_eq!(done.len(), 1);
}

#[test]
fn split_respects_the_switch_and_the_empty_name() {
    let mut done = SplitSet::new();
    let s = settings(false, PauseTiming::AllChapters);
    assert!(!split(&mut done, &s, "ch1_school", false, false).split);
    assert!(!split(&mut done, &s, "", false, true).split);
    assert!(done.is_empty());
    let forced = split(&mut done, &s, "ch1_school", true, false);
    assert!(forced.split);
    assert!(split(&mut done, &s, "ch1_school", true, false).split);
    assert_eq!(done.len(), 1);
}

#[test]
fn resume_and_pause() {
    let mut done = SplitSet::new();
    let s = settings(true, PauseTiming::AllChapters);
    let r = split(&mut done, &s, "resume_igt", false, true);
    assert_eq!(r, SplitOutcome { resume_game_time: true, pause_game_time: false, split: false });
    assert!(done.is_empty());
    let p = split(&mut done, &s, "ch1_ending", false, true);
    assert_eq!(p, SplitOutcome { resume_game_time: false, pause_game_time: true, split: true });
    let p2 = split(&mut done, &s, "ch1_ending", false, true);
    assert_eq!(p2, SplitOutcome { resume_game_time: false, pause_game_time: true, split: false });
    let off = settings(false, PauseTiming::AllChapters);
    let r3 = split(&mut done, &off, "resume_igt", false, true);
    assert_eq!(r3, SplitOutcome { resume_game_time: false, pause_game_time: false, split: true });
    assert!(done.contains("resume_igt"));
}

#[test]
fn start_modes() {
    let mut done = SplitSet::new();
    let mut titles = TitleTracker::new();
    done.insert("ch1_school");
    titles.insert(Title::Human);
    let r = start(&AutoStart::AutoStart, &mut done, &mut titles);
    assert_eq!(r, StartOutcome { clear_items: false, reset: false, start: true, resume_game_time: false });
    assert_eq!(done.len(), 1);
    let r = start(&AutoStart::AutoStartAndUnpause, &mut done, &mut titles);
    assert_eq!(r, StartOutcome { clear_items: false, reset: false, start: true, resume_game_time: true });
    let r = start(&AutoStart::Off, &mut done, &mut titles);
    assert_eq!(r, StartOutcome { clear_items: false, reset: false, start: false, resume_game_time: false });
    assert_eq!(titles.len(), 1);
    let r = start(&AutoStart::AutoReset, &mut done, &mut titles);
    assert_eq!(r, StartOutcome { clear_items: true, reset: true, start: true, resume_game_time: false });
    assert!(done.is_empty());
    assert_eq!(titles.len(), 0);
    let s = settings(true, PauseTiming::AllChapters);
    assert!(split(&mut done, &s, "ch1_school", false, true).split);
}
