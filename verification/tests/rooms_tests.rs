use deltarune_autosplit::basic::{split, start, AutoStart, StartRequest};
use deltarune_autosplit::rooms::{any_text_matches, room_check, room_check_both, room_match, text_close_check, text_match, text_open_check};
use deltarune_autosplit::splits::SplitSet;
use deltarune_autosplit::watch::Pair;

fn rooms(old: &str, current: &str) -> Pair<String> {
    Pair { old: old.to_string(), current: current.to_string() }
}

#[test]
fn room_match_needs_the_chapter_1_suffix() {
    assert!(room_match("room_krisroom_ch1", "room_krisroom"));
    assert!(!room_match("room_krisroom", "room_krisroom"));
    assert!(room_match("room_krisroom", ""));
    assert!(!room_match("room_krisroom_ch1", "room_krisroom_ch1"));
    assert!(room_match("room_krisroom_ch1_ch1", "room_krisroom_ch1"));
}

#[test]
fn room_checks() {
    let p = rooms("PLACE_MENU_ch1", "PLACE_CONTACT_ch1");
    assert!(room_check(&p, "PLACE_CONTACT"));
    assert!(!room_check(&p, "PLACE_MENU"));
    assert!(room_check_both(&p, "PLACE_MENU", "PLACE_CONTACT"));
    assert!(!room_check_both(&p, "PLACE_CONTACT", "PLACE_MENU"));
    let same = rooms("room_dark1_ch1", "room_dark1_ch1");
    assert!(!room_check(&same, "room_dark1"));
}

#[test]
fn text_checks() {
    let en = "* (You decided to go to bed.)/%";
    let jp = "＊ (ねむることにした)/%";
    assert!(text_match(en.as_bytes(), en, jp));
    assert!(text_match(jp.as_bytes(), en, jp));
    assert!(!text_match(b"", en, jp));
    let opening = Pair { old: Vec::new(), current: en.as_bytes().to_vec() };
    assert!(text_open_check(&opening, en, jp));
    assert!(!text_close_check(&opening, en, jp));
    let closing = Pair { old: jp.as_bytes().to_vec(), current: b"other".to_vec() };
    assert!(text_close_check(&closing, en, jp));
    assert!(!text_open_check(&closing, en, jp));
    let texts = vec![b"hello".to_vec(), jp.as_bytes().to_vec()];
    assert!(any_text_matches(&texts, en, jp));
    assert!(!any_text_matches(&vec![b"hello".to_vec()], en, jp));
    assert!(!any_text_matches(&Vec::new(), en, jp));
}

#[test]
fn basic_start_and_split() {
    let mut done = SplitSet::new();
    let mut counter: u64 = 1;
    split(&mut done, "ch1_contact");
    split(&mut done, "ch1_contact");
    assert_eq!(done.len(), 1);
    assert_eq!(start(&AutoStart::AutoStart, &mut done, &mut counter), StartRequest { reset: false, start: true });
    assert_eq!(counter, 1);
    assert_eq!(start(&AutoStart::Off, &mut done, &mut counter), StartRequest { reset: false, start: false });
    assert_eq!(done.len(), 1);
    assert_eq!(start(&AutoStart::AutoReset, &mut done, &mut counter), StartRequest { reset: true, start: true });
    assert_eq!(counter, 0);
    assert!(done.is_empty());
    assert_eq!(AutoStart::default(), AutoStart::AutoReset);
}
