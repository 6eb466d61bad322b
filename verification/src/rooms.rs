//! Room and text conditions. Room names come from the game as C strings; a room of
//! chapter 1 carries the suffix `_ch1` in some versions. Text boxes are compared on
//! their raw C-string bytes.

use vstd::prelude::*;
use crate::text::{spec_ends_with, spec_strip_suffix, spec_text_is, str_eq, strip_suffix, text_is};
use crate::watch::Pair;

verus! {

/// Whether the room `cur_room` is `check_room`: the name must end in `_ch1` and match
/// without it, and a name without that suffix counts as the empty name.
pub open spec fn spec_room_match(cur_room: Seq<char>, check_room: Seq<char>) -> bool {
    match spec_strip_suffix(cur_room, "_ch1"@) {
        Some(base) => base == check_room,
        None => check_room == Seq::<char>::empty(),
    }
}

/// Whether the room `cur_room` is `check_room`, as `spec_room_match` says.
pub fn room_match(cur_room: &str, check_room: &str) -> (r: bool)
    ensures
        r == spec_room_match(cur_room@, check_room@),
{
    match strip_suffix(cur_room, "_ch1") {
        Some(base) => str_eq(base, check_room),
        None => {
            let r = check_room.is_empty();
            proof {
                if r {
                    assert(check_room@ =~= Seq::<char>::empty());
                }
            }
            r
        },
    }
}

/// The player has just entered `dest`: the current room is `dest` and the previous
/// one was not.
pub fn room_check(room: &Pair<String>, dest: &str) -> (r: bool)
    ensures
        r == (spec_room_match(room.current@, dest@) && !spec_room_match(room.old@, dest@)),
{
    room_match(room.current.as_str(), dest) && !room_match(room.old.as_str(), dest)
}

/// The player has just gone from `orig` to `dest`.
pub fn room_check_both(room: &Pair<String>, orig: &str, dest: &str) -> (r: bool)
    ensures
        r == (spec_room_match(room.current@, dest@) && spec_room_match(room.old@, orig@)),
{
    room_match(room.current.as_str(), dest) && room_match(room.old.as_str(), orig)
}

/// Whether a text box shows the English text `en` or the Japanese text `jp`.
pub open spec fn spec_text_match(txt: Seq<u8>, en: &str, jp: &str) -> bool {
    spec_text_is(txt, en) || spec_text_is(txt, jp)
}

/// Whether a text box shows `en` or `jp`.
pub fn text_match(txt: &[u8], en: &str, jp: &str) -> (r: bool)
    ensures
        r == spec_text_match(txt@, en, jp),
{
    text_is(txt, en) || text_is(txt, jp)
}

/// The text box has just opened on `en` or `jp`.
pub fn text_open_check(txt: &Pair<Vec<u8>>, en: &str, jp: &str) -> (r: bool)
    ensures
        r == (spec_text_match(txt.current@, en, jp) && !spec_text_match(txt.old@, en, jp)),
{
    text_match(txt.current.as_slice(), en, jp) && !text_match(txt.old.as_slice(), en, jp)
}

/// The text box showing `en` or `jp` has just closed.
pub fn text_close_check(txt: &Pair<Vec<u8>>, en: &str, jp: &str) -> (r: bool)
    ensures
        r == (spec_text_match(txt.old@, en, jp) && !spec_text_match(txt.current@, en, jp)),
{
    text_match(txt.old.as_slice(), en, jp) && !text_match(txt.current.as_slice(), en, jp)
}

/// Whether any of the writers' texts is `en` or `jp`.
pub open spec fn spec_any_text_matches(texts: Seq<Vec<u8>>, en: &str, jp: &str) -> bool {
    exists|i: int| 0 <= i < texts.len() && spec_text_match(#[trigger] texts[i]@, en, jp)
}

/// Whether any of the texts that the writer instances show is `en` or `jp` (the texts
/// of instances whose variables could not be found are left out by the caller).
pub fn any_text_matches(texts: &Vec<Vec<u8>>, en: &str, jp: &str) -> (r: bool)
    ensures
        r == spec_any_text_matches(texts@, en, jp),
{
    let mut i: usize = 0;
    while i < texts.len()
        invariant
            i <= texts@.len(),
            forall|j: int| 0 <= j < i ==> !spec_text_match(#[trigger] texts@[j]@, en, jp),
        decreases texts@.len() - i,
    {
        if text_match(texts[i].as_slice(), en, jp) {
            return true;
        }
        i = i + 1;
    }
    false
}

/// A room name matches the room it names once its `_ch1` suffix is taken off: the name
/// `base_ch1` matches exactly `base`, and a name without the suffix matches only the empty
/// name.
pub proof fn law_room_match(base: Seq<char>, check: Seq<char>, plain: Seq<char>)
    ensures
        spec_room_match(base + "_ch1"@, check) <==> base == check,
        !spec_ends_with(plain, "_ch1"@) ==> (spec_room_match(plain, check) <==> check.len() == 0),
{
    reveal_strlit("_ch1");
    let s = base + "_ch1"@;
    assert(s.subrange(s.len() - 4, s.len() as int) =~= "_ch1"@);
    assert(s.subrange(0, s.len() - 4) =~= base);
    if check.len() == 0 {
        assert(check =~= Seq::<char>::empty());
    }
}

} // verus!
