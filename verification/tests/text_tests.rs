use deltarune_autosplit::text::{bytes_eq, ends_with, with_suffix, str_eq, strip_suffix, text_is, trim_end_matches};

#[test]
fn string_equality() {
    assert!(str_eq("room_dark1", "room_dark1"));
    assert!(!str_eq("room_dark1", "room_dark2"));
    assert!(!str_eq("room", "room_dark1"));
    assert!(str_eq("", ""));
    assert!(str_eq("＊ (ねむることにした)/%", "＊ (ねむることにした)/%"));
    assert!(!str_eq("é", "e"));
}

#[test]
fn byte_equality() {
    assert!(bytes_eq(b"abc", b"abc"));
    assert!(!bytes_eq(b"abc", b"abd"));
    assert!(!bytes_eq(b"abc", b"ab"));
    assert!(bytes_eq(b"", b""));
}

#[test]
fn suffixes() {
    assert!(ends_with(r"C:\game\chapter2_windows\", r"chapter2_windows\"));
    assert!(!ends_with("chapter2", "chapter2_windows"));
    assert!(ends_with("anything", ""));
    assert_eq!(strip_suffix("room_krisroom_ch1", "_ch1"), Some("room_krisroom"));
    assert_eq!(strip_suffix("room_krisroom", "_ch1"), None);
    assert_eq!(strip_suffix("_ch1", "_ch1"), Some(""));
}

#[test]
fn trimming_removes_every_repetition() {
    assert_eq!(trim_end_matches("room_field_ch1", "_ch1"), "room_field");
    assert_eq!(trim_end_matches("room_field_ch1_ch1", "_ch1"), "room_field");
    assert_eq!(trim_end_matches("room_field", "_ch1"), "room_field");
    assert_eq!(trim_end_matches("flag[0]", "[0]"), "flag");
    assert_eq!(trim_end_matches("abc", ""), "abc");
    assert_eq!(trim_end_matches("ねこねこ", "ねこ"), "");
    let once = trim_end_matches("x_ch1_ch1", "_ch1");
    assert_eq!(trim_end_matches(once, "_ch1"), once);
}

#[test]
fn concatenation() {
    assert_eq!(with_suffix("obj_writer", "_ch1"), "obj_writer_ch1");
    assert_eq!(with_suffix("", ""), "");
}

#[test]
fn c_string_text() {
    assert!(text_is(b"mystring", "mystring"));
    assert!(!text_is(b"mystring ", "mystring"));
    assert!(text_is("＊ (パンを　てにいれた)/%".as_bytes(), "＊ (パンを　てにいれた)/%"));
}
