//! Laws of the split rules, stated room by room over the readings of a tick: which
//! split each trigger gives, independently of how the rules are written down.

use vstd::prelude::*;
use crate::num::{eqc, gec, lec, ltc, R_0, R_1, R_2, R_3, R_4, R_7, R_18, R_21, R_32, R_60, R_75, R_76, R_108, R_110, R_120, R_140, R_150, R_156, R_560, R_601, R_1173, R_MINUS_1};
use crate::rules::{has_key_item, no_split, spec_chapter_split, lemma_transition_first, ch1_prevs, ch1_curs, ch1_names, ch2_prevs, ch2_curs, ch2_names, ch3_prevs, ch3_curs, ch3_names, ch4_prevs, ch4_curs, ch4_names, ch5_prevs, ch5_curs, ch5_names, TickInputs};
use crate::settings::{Ch5StartOnPrev, Settings};
use crate::rules::{spec_autostart, spec_reads_namer, watches_con, watches_inst, watches_text, spec_chapter1ify, spec_con_source, spec_flag_index, spec_inst_count, spec_text2_source, spec_text_source, InstCount};
use crate::versions::EngineVersion;
use crate::watch::Pair;
use crate::num::{GameNum, R_74};
use crate::text::spec_ends_with;

verus! {

/// When a run starts automatically, for every chapter and every pair of rooms:
///   - never in the chapter select (chapter 0);
///   - in chapter 1, exactly on entering the contact screen from another room;
///   - in the chapters other than 0, 1 and 5, exactly on leaving the menu as the naming
///     event turns 75 (a new file is named), and never otherwise;
///   - in chapter 5, on leaving the contact screen for the menu as the naming event goes
///     from 74 to 75, or on leaving the menu as it turns 75, unless the setting starts only
///     on completion data; and on going from the menu to Kris's room while the event is
///     not 75 (chapter 4 completion data is loaded), unless the setting is `No`.
pub proof fn law_autostart_rules(
    chapter: i32,
    prev: Seq<char>,
    cur: Seq<char>,
    settings: Settings,
    namer: Pair<GameNum>,
)
    ensures
        chapter == 0 ==> !spec_autostart(chapter, prev, cur, settings, namer),
        chapter == 1 ==> (spec_autostart(chapter, prev, cur, settings, namer) <==> (prev != cur
            && cur == "PLACE_CONTACT"@)),
        chapter != 0 && chapter != 1 && chapter != 5 && prev == "PLACE_MENU"@ ==> (spec_autostart(
            chapter,
            prev,
            cur,
            settings,
            namer,
        ) <==> (eqc(namer.current, R_75) && !eqc(namer.old, R_75))),
        chapter != 0 && chapter != 1 && chapter != 5 && prev != "PLACE_MENU"@ ==> !spec_autostart(
            chapter,
            prev,
            cur,
            settings,
            namer,
        ),
        chapter == 5 && prev == "PLACE_CONTACT"@ ==> (spec_autostart(chapter, prev, cur, settings, namer)
            <==> (settings.ch5_start_on_prev != Ch5StartOnPrev::Exclusively && cur == "PLACE_MENU"@
            && eqc(namer.current, R_75) && eqc(namer.old, R_74))),
        chapter == 5 && prev == "PLACE_MENU"@ ==> (spec_autostart(chapter, prev, cur, settings, namer)
            <==> ((settings.ch5_start_on_prev != Ch5StartOnPrev::No && cur == "room_krisroom"@ && !eqc(
            namer.old,
            R_75,
        )) || (settings.ch5_start_on_prev != Ch5StartOnPrev::Exclusively && eqc(namer.current, R_75)
            && !eqc(namer.old, R_75)))),
        chapter == 5 && prev != "PLACE_MENU"@ && prev != "PLACE_CONTACT"@ ==> !spec_autostart(
            chapter,
            prev,
            cur,
            settings,
            namer,
        ),
{
    reveal_strlit("PLACE_MENU");
    reveal_strlit("PLACE_CONTACT");
    assert("PLACE_MENU"@[6] != "PLACE_CONTACT"@[6]);
}

/// Which object variable the rules watch as `con`, room by room: in chapter 1 the contact
/// event, the dark door's progress and Jevil's dance level (under the version's chapter 1
/// object names); in chapter 2 Spamton's loaded disk background and the Snowgrave timer; in
/// chapter 4 Mike's action during the battle, the upstairs event at Toriel's and the
/// hammer's
/// hair sprite; nothing elsewhere.
pub proof fn law_con_sources(version: EngineVersion, chapter: i32, cur: Seq<char>, fighting_now: GameNum)
    ensures
        chapter == 1 && cur == "PLACE_CONTACT"@
            ==> spec_con_source(version, chapter, cur, fighting_now) == Some((spec_chapter1ify(version, "DEVICE_CONTACT"@), "EVENT"@)),
        chapter == 1 && cur == "room_castle_darkdoor"@
            ==> spec_con_source(version, chapter, cur, fighting_now) == Some((spec_chapter1ify(version, "obj_darkdoorevent"@), "con"@)),
        chapter == 1 && cur == "room_cc_joker"@
            ==> spec_con_source(version, chapter, cur, fighting_now) == Some((spec_chapter1ify(version, "obj_joker_body"@), "dancelv"@)),
        chapter == 1 && !(cur == "PLACE_CONTACT"@) && !(cur == "room_castle_darkdoor"@) && !(cur == "room_cc_joker"@)
            ==> spec_con_source(version, chapter, cur, fighting_now) is None,
        chapter == 2 && cur == "room_shop_ch2_spamton"@
            ==> spec_con_source(version, chapter, cur, fighting_now) == Some(("obj_shop_ch2_spamton"@, "greybgtimer"@)),
        chapter == 2 && cur == "room_dw_city_berdly"@
            ==> spec_con_source(version, chapter, cur, fighting_now) == Some(("obj_spell_snowgrave"@, "timer"@)),
        chapter == 2 && !(cur == "room_shop_ch2_spamton"@) && !(cur == "room_dw_city_berdly"@)
            ==> spec_con_source(version, chapter, cur, fighting_now) is None,
        chapter == 4 && cur == "room_dw_castle_tv_zone_battle"@ && eqc(fighting_now, R_1)
            ==> spec_con_source(version, chapter, cur, fighting_now) == Some(("obj_mike_attack_controller"@, "action"@)),
        chapter == 4 && cur == "room_torhouse"@
            ==> spec_con_source(version, chapter, cur, fighting_now) == Some(("obj_ch4_LWF03"@, "upstairscon"@)),
        chapter == 4 && cur == "room_dw_church_arena"@
            ==> spec_con_source(version, chapter, cur, fighting_now) == Some(("obj_hammer_of_justice_enemy"@, "nohairsprite"@)),
        chapter == 4 && !(cur == "room_dw_castle_tv_zone_battle"@ && eqc(fighting_now, R_1)) && !(cur == "room_torhouse"@) && !(cur == "room_dw_church_arena"@)
            ==> spec_con_source(version, chapter, cur, fighting_now) is None,
        chapter != 1 && chapter != 2 && chapter != 4 ==> spec_con_source(version, chapter, cur, fighting_now) is None,
{
    reveal_strlit("PLACE_CONTACT");
    reveal_strlit("room_castle_darkdoor");
    reveal_strlit("room_cc_joker");
    reveal_strlit("room_dw_castle_tv_zone_battle");
    reveal_strlit("room_dw_church_arena");
    reveal_strlit("room_dw_city_berdly");
    reveal_strlit("room_shop_ch2_spamton");
    reveal_strlit("room_torhouse");
    assert("PLACE_CONTACT"@.len() != "room_castle_darkdoor"@.len());
    assert("PLACE_CONTACT"@[0] != "room_cc_joker"@[0]);
    assert("room_castle_darkdoor"@.len() != "room_cc_joker"@.len());
    assert("room_dw_castle_tv_zone_battle"@.len() != "room_dw_church_arena"@.len());
    assert("room_dw_castle_tv_zone_battle"@.len() != "room_torhouse"@.len());
    assert("room_dw_church_arena"@.len() != "room_torhouse"@.len());
    assert("room_dw_city_berdly"@.len() != "room_shop_ch2_spamton"@.len());
}

/// Which text the first text check looks for, room by room, in English and Japanese; no
/// text
/// elsewhere.
pub proof fn law_text_sources(version: EngineVersion, chapter: i32, cur: Seq<char>, fighting_now: GameNum)
    ensures
        chapter == 1 && cur == "room_krisroom"@
            ==> spec_text_source(version, chapter, cur) == Some((spec_chapter1ify(version, "obj_writer"@), r"* (You decided to go to bed.)/%"@, r"＊ (ねむることにした)/%"@)),
        chapter == 1 && !(cur == "room_krisroom"@)
            ==> spec_text_source(version, chapter, cur) is None,
        chapter == 2 && cur == "room_dw_cyber_queen_boxing"@
            ==> spec_text_source(version, chapter, cur) == Some(("obj_writer"@, r"\\EH* C'mon^1, let's go after her!/%"@, r"\\EH＊ おまえら^1！&　 追っかけるぞ！/%"@)),
        chapter == 2 && cur == "room_dw_city_big_2"@
            ==> spec_text_source(version, chapter, cur) == Some(("obj_writer"@, r"* (You got the FreezeRing.)/%"@, r"＊ (凍てつく指輪を　手に入れた)/%"@)),
        chapter == 2 && cur == "room_dw_city_moss"@
            ==> spec_text_source(version, chapter, cur) == Some(("obj_writer"@, r"\S1* (You got the ThornRing.)/%"@, r"\S1＊ (いばらの指輪を　手に入れた)/%"@)),
        chapter == 2 && cur == "room_dw_castle_west_cliff"@
            ==> spec_text_source(version, chapter, cur) == Some(("obj_writer"@, r"* (You have too many \cYWEAPONs\cW to&||take \cYPuppetScarf\c0.)/%"@, r"＊ (\cYぶき\cWが多すぎて&　 \cYパペットマフラー\c0を&　 持てない)/%"@)),
        chapter == 2 && cur == "room_torhouse"@
            ==> spec_text_source(version, chapter, cur) == Some(("obj_writer"@, r"* (... Susie fell asleep.)/%"@, r"＊ (…スージィは　ねおちした)/%"@)),
        chapter == 2 && !(cur == "room_dw_cyber_queen_boxing"@) && !(cur == "room_dw_city_big_2"@) && !(cur == "room_dw_city_moss"@) && !(cur == "room_dw_castle_west_cliff"@) && !(cur == "room_torhouse"@)
            ==> spec_text_source(version, chapter, cur) is None,
        chapter == 4 && cur == "room_dw_churchb_man"@
            ==> spec_text_source(version, chapter, cur) == Some(("obj_writer"@, r"* (An Egg was picked up from a&||nearby easel.)/%"@, r"＊ (近くのイーゼルから\n　 タマゴを　拾いあげた)/%"@)),
        chapter == 4 && cur == "room_dw_churchc_prophecies"@
            ==> spec_text_source(version, chapter, cur) == Some(("obj_writer"@, r"* (\cYPrincessRBN\cW was added to your&||\cYARMORs\cW.)/%"@, r"＊ (\cYプリティリボン\cWが&　 \cYぼうぐ\cWに　加わった)/%"@)),
        chapter == 4 && !(cur == "room_dw_churchb_man"@) && !(cur == "room_dw_churchc_prophecies"@)
            ==> spec_text_source(version, chapter, cur) is None,
        chapter == 5 && cur == "room_town_mid"@
            ==> spec_text_source(version, chapter, cur) == Some(("obj_writer"@, r"* (You got the Bread.)/%"@, r"＊ (パンを　てにいれた)/%"@)),
        chapter == 5 && !(cur == "room_town_mid"@)
            ==> spec_text_source(version, chapter, cur) is None,
        chapter != 1 && chapter != 2 && chapter != 4 && chapter != 5 ==> spec_text_source(version, chapter, cur) is None,
{
    reveal_strlit("room_dw_castle_west_cliff");
    reveal_strlit("room_dw_churchb_man");
    reveal_strlit("room_dw_churchc_prophecies");
    reveal_strlit("room_dw_city_big_2");
    reveal_strlit("room_dw_city_moss");
    reveal_strlit("room_dw_cyber_queen_boxing");
    reveal_strlit("room_torhouse");
    assert("room_dw_castle_west_cliff"@.len() != "room_dw_city_big_2"@.len());
    assert("room_dw_castle_west_cliff"@.len() != "room_dw_city_moss"@.len());
    assert("room_dw_castle_west_cliff"@.len() != "room_dw_cyber_queen_boxing"@.len());
    assert("room_dw_castle_west_cliff"@.len() != "room_torhouse"@.len());
    assert("room_dw_churchb_man"@.len() != "room_dw_churchc_prophecies"@.len());
    assert("room_dw_city_big_2"@.len() != "room_dw_city_moss"@.len());
    assert("room_dw_city_big_2"@.len() != "room_dw_cyber_queen_boxing"@.len());
    assert("room_dw_city_big_2"@.len() != "room_torhouse"@.len());
    assert("room_dw_city_moss"@.len() != "room_dw_cyber_queen_boxing"@.len());
    assert("room_dw_city_moss"@.len() != "room_torhouse"@.len());
    assert("room_dw_cyber_queen_boxing"@.len() != "room_torhouse"@.len());
}


/// The other reads, room by room: Toriel's "already asleep" text in chapter 2 at Toriel's
/// house; flag 930 in chapter 3's egg room and flag 1047 in the snow zone; the Shadow
/// Mantle outro's instance count in chapter 3's mantle room and the CRT ending's in chapter
/// 5's beach; nothing elsewhere.
pub proof fn law_other_reads(chapter: i32, cur: Seq<char>)
    ensures
        chapter == 2 && cur == "room_torhouse"@ ==> spec_text2_source(chapter, cur) == Some(
            (
                "obj_writer"@,
                r"\E1* ... they're already&||asleep.../%"@,
                r"\E1＊ …ふたりとも　もう&　 ねむってしまったのね。/%"@,
            ),
        ),
        !(chapter == 2 && cur == "room_torhouse"@) ==> spec_text2_source(chapter, cur) is None,
        chapter == 3 && cur == "room_dw_ch3_man"@ ==> spec_flag_index(chapter, cur) == Some(930u64),
        chapter == 3 && cur == "room_dw_snow_zone"@ ==> spec_flag_index(chapter, cur) == Some(1047u64),
        !(chapter == 3 && (cur == "room_dw_ch3_man"@ || cur == "room_dw_snow_zone"@)) ==> spec_flag_index(chapter, cur) is None,
        chapter == 3 && cur == "room_shadowmantle"@ ==> spec_inst_count(chapter, cur) == Some(InstCount::MantleOutro),
        chapter == 5 && cur == "room_beach"@ ==> spec_inst_count(chapter, cur) == Some(InstCount::CrtEnd),
        !(chapter == 3 && cur == "room_shadowmantle"@) && !(chapter == 5 && cur == "room_beach"@) ==> spec_inst_count(chapter, cur) is None,
{
    reveal_strlit("room_dw_ch3_man");
    reveal_strlit("room_dw_snow_zone");
    assert("room_dw_ch3_man"@.len() != "room_dw_snow_zone"@.len());
}

/// In the demo runners (GameMaker Studio 2 2022.1 and 2022.2) chapter 1's objects carry the
/// suffix `_ch1`; in every other runner their names are used as they are.
pub proof fn law_chapter1ify(version: EngineVersion, name: Seq<char>)
    ensures
        (version == EngineVersion::GMS2_2022_1 || version == EngineVersion::GMS2_2022_2)
            ==> spec_chapter1ify(version, name) == name + "_ch1"@,
        !(version == EngineVersion::GMS2_2022_1 || version == EngineVersion::GMS2_2022_2)
            ==> spec_chapter1ify(version, name) == name,
{
}

/// Which readings each chapter watches from tick to tick: `con` in chapters 1, 2 and 4;
/// the first text check in chapters 1, 2, 4 and 5; whether an instance exists in chapters
/// 3 and 5. The naming event is read when chapter 5 leaves the contact screen, and when any
/// chapter but the chapter select and chapter 1 leaves the menu.
pub proof fn law_watched_readings(chapter: i32, prev: Seq<char>)
    ensures
        watches_con(chapter) <==> (chapter == 1 || chapter == 2 || chapter == 4),
        watches_text(chapter) <==> (chapter == 1 || chapter == 2 || chapter == 4 || chapter == 5),
        watches_inst(chapter) <==> (chapter == 3 || chapter == 5),
        spec_reads_namer(chapter, prev) <==> ((chapter == 5 && prev == "PLACE_CONTACT"@) || (
        chapter != 0 && chapter != 1 && prev == "PLACE_MENU"@)),
{
}

/// In chapter 1, a tick in which the raw room name does not change gives each same-room
/// split exactly when its trigger reading
/// happens, and no split when none does. The triggers, in the order they are checked:
///   - the contact event goes from 75 to 76: `ch1_contact`
///   - the door event goes from 7 to 21: `ch1_castle_town_door`
///   - the message turns 601 with the first choice picked: `ch1_egg`
///   - Jevil's dance level turns 4: `ch1_beat_jevil`
///   - the King battle ends: `ch1_king`
///   - the going-to-bed text appears: `ch1_ending`
///   - the credits timer reaches 108: `ch1_ending_ost`
pub proof fn law_ch1_same_room_splits(raw_changed: bool, prev: Seq<char>, room: Seq<char>, settings: Settings, inp: &TickInputs)
    requires
        !raw_changed,
    ensures
        room == "PLACE_CONTACT"@ && (inp.con.old.bits == R_75 && inp.con.current.bits == R_76)
            ==> spec_chapter_split(1, raw_changed, prev, room, settings, inp) == "ch1_contact"@,
        room == "room_castle_darkdoor"@ && (inp.con.old.bits == R_7 && inp.con.current.bits == R_21)
            ==> spec_chapter_split(1, raw_changed, prev, room, settings, inp) == "ch1_castle_town_door"@,
        room == "room_man"@ && (inp.msc.old.bits != R_601 && inp.msc.current.bits == R_601) && (eqc(inp.choice.current, R_0))
            ==> spec_chapter_split(1, raw_changed, prev, room, settings, inp) == "ch1_egg"@,
        room == "room_cc_joker"@ && (inp.con.old.bits != R_4 && inp.con.current.bits == R_4)
            ==> spec_chapter_split(1, raw_changed, prev, room, settings, inp) == "ch1_beat_jevil"@,
        room == "room_cc_kingbattle"@ && (inp.fighting.old.bits == R_1 && inp.fighting.current.bits == R_0)
            ==> spec_chapter_split(1, raw_changed, prev, room, settings, inp) == "ch1_king"@,
        room == "room_krisroom"@ && (inp.text_check.old != true && inp.text_check.current == true)
            ==> spec_chapter_split(1, raw_changed, prev, room, settings, inp) == "ch1_ending"@,
        room == "room_ed"@ && (gec(inp.credits_timer, R_108))
            ==> spec_chapter_split(1, raw_changed, prev, room, settings, inp) == "ch1_ending_ost"@,
        !((room == "PLACE_CONTACT"@) && (inp.con.old.bits == R_75 && inp.con.current.bits == R_76)) && !((room == "room_castle_darkdoor"@) && (inp.con.old.bits == R_7 && inp.con.current.bits == R_21)) && !((room == "room_man"@) && (inp.msc.old.bits != R_601 && inp.msc.current.bits == R_601) && (eqc(inp.choice.current, R_0))) && !((room == "room_cc_joker"@) && (inp.con.old.bits != R_4 && inp.con.current.bits == R_4)) && !((room == "room_cc_kingbattle"@) && (inp.fighting.old.bits == R_1 && inp.fighting.current.bits == R_0)) && !((room == "room_krisroom"@) && (inp.text_check.old != true && inp.text_check.current == true)) && !((room == "room_ed"@) && (gec(inp.credits_timer, R_108)))
            ==> spec_chapter_split(1, raw_changed, prev, room, settings, inp) == no_split(),
{
    assert("PLACE_CONTACT"@ != "room_castle_darkdoor"@) by {
        reveal_strlit("PLACE_CONTACT");
        reveal_strlit("room_castle_darkdoor");
        assert("PLACE_CONTACT"@.len() != "room_castle_darkdoor"@.len());
    }
    assert("PLACE_CONTACT"@ != "room_cc_joker"@) by {
        reveal_strlit("PLACE_CONTACT");
        reveal_strlit("room_cc_joker");
        assert("PLACE_CONTACT"@[0] != "room_cc_joker"@[0]);
    }
    assert("PLACE_CONTACT"@ != "room_cc_kingbattle"@) by {
        reveal_strlit("PLACE_CONTACT");
        reveal_strlit("room_cc_kingbattle");
        assert("PLACE_CONTACT"@.len() != "room_cc_kingbattle"@.len());
    }
    assert("PLACE_CONTACT"@ != "room_ed"@) by {
        reveal_strlit("PLACE_CONTACT");
        reveal_strlit("room_ed");
        assert("PLACE_CONTACT"@.len() != "room_ed"@.len());
    }
    assert("PLACE_CONTACT"@ != "room_krisroom"@) by {
        reveal_strlit("PLACE_CONTACT");
        reveal_strlit("room_krisroom");
        assert("PLACE_CONTACT"@[0] != "room_krisroom"@[0]);
    }
    assert("PLACE_CONTACT"@ != "room_man"@) by {
        reveal_strlit("PLACE_CONTACT");
        reveal_strlit("room_man");
        assert("PLACE_CONTACT"@.len() != "room_man"@.len());
    }
    assert("room_castle_darkdoor"@ != "room_cc_joker"@) by {
        reveal_strlit("room_castle_darkdoor");
        reveal_strlit("room_cc_joker");
        assert("room_castle_darkdoor"@.len() != "room_cc_joker"@.len());
    }
    assert("room_castle_darkdoor"@ != "room_cc_kingbattle"@) by {
        reveal_strlit("room_castle_darkdoor");
        reveal_strlit("room_cc_kingbattle");
        assert("room_castle_darkdoor"@.len() != "room_cc_kingbattle"@.len());
    }
    assert("room_castle_darkdoor"@ != "room_ed"@) by {
        reveal_strlit("room_castle_darkdoor");
        reveal_strlit("room_ed");
        assert("room_castle_darkdoor"@.len() != "room_ed"@.len());
    }
    assert("room_castle_darkdoor"@ != "room_krisroom"@) by {
        reveal_strlit("room_castle_darkdoor");
        reveal_strlit("room_krisroom");
        assert("room_castle_darkdoor"@.len() != "room_krisroom"@.len());
    }
    assert("room_castle_darkdoor"@ != "room_man"@) by {
        reveal_strlit("room_castle_darkdoor");
        reveal_strlit("room_man");
        assert("room_castle_darkdoor"@.len() != "room_man"@.len());
    }
    assert("room_cc_joker"@ != "room_cc_kingbattle"@) by {
        reveal_strlit("room_cc_joker");
        reveal_strlit("room_cc_kingbattle");
        assert("room_cc_joker"@.len() != "room_cc_kingbattle"@.len());
    }
    assert("room_cc_joker"@ != "room_ed"@) by {
        reveal_strlit("room_cc_joker");
        reveal_strlit("room_ed");
        assert("room_cc_joker"@.len() != "room_ed"@.len());
    }
    assert("room_cc_joker"@ != "room_krisroom"@) by {
        reveal_strlit("room_cc_joker");
        reveal_strlit("room_krisroom");
        assert("room_cc_joker"@[5] != "room_krisroom"@[5]);
    }
    assert("room_cc_joker"@ != "room_man"@) by {
        reveal_strlit("room_cc_joker");
        reveal_strlit("room_man");
        assert("room_cc_joker"@.len() != "room_man"@.len());
    }
    assert("room_cc_kingbattle"@ != "room_ed"@) by {
        reveal_strlit("room_cc_kingbattle");
        reveal_strlit("room_ed");
        assert("room_cc_kingbattle"@.len() != "room_ed"@.len());
    }
    assert("room_cc_kingbattle"@ != "room_krisroom"@) by {
        reveal_strlit("room_cc_kingbattle");
        reveal_strlit("room_krisroom");
        assert("room_cc_kingbattle"@.len() != "room_krisroom"@.len());
    }
    assert("room_cc_kingbattle"@ != "room_man"@) by {
        reveal_strlit("room_cc_kingbattle");
        reveal_strlit("room_man");
        assert("room_cc_kingbattle"@.len() != "room_man"@.len());
    }
    assert("room_ed"@ != "room_krisroom"@) by {
        reveal_strlit("room_ed");
        reveal_strlit("room_krisroom");
        assert("room_ed"@.len() != "room_krisroom"@.len());
    }
    assert("room_ed"@ != "room_man"@) by {
        reveal_strlit("room_ed");
        reveal_strlit("room_man");
        assert("room_ed"@.len() != "room_man"@.len());
    }
    assert("room_krisroom"@ != "room_man"@) by {
        reveal_strlit("room_krisroom");
        reveal_strlit("room_man");
        assert("room_krisroom"@.len() != "room_man"@.len());
    }
}

/// In chapter 2, a tick spent in one room gives each same-room split exactly when its
/// trigger reading
/// happens, and no split when none does. The triggers, in the order they are checked:
///   - the text after the arcade closes: `ch2_arcade_text`
///   - the DJ battle ends: `ch2_dj_battle`
///   - the FreezeRing text appears: `ch2_freeze_ring`
///   - the ThornRing text closes: `ch2_thorn_ring`
///   - the message was 1173 and the first choice is picked: `ch2_egg`
///   - the PuppetScarf text appears: `ch2_thorny_ending`
///   - Susie falls asleep: `ch2_ending_ac`
///   - Toriel finds them asleep: `ch2_ending_il`
pub proof fn law_ch2_same_room_splits(raw_changed: bool, room: Seq<char>, settings: Settings, inp: &TickInputs)
    ensures
        room == "room_dw_cyber_queen_boxing"@ && (inp.text_check.old != false && inp.text_check.current == false)
            ==> spec_chapter_split(2, raw_changed, room, room, settings, inp) == "ch2_arcade_text"@,
        room == "room_dw_cyber_music_final"@ && (inp.fighting.old.bits == R_1 && inp.fighting.current.bits == R_0)
            ==> spec_chapter_split(2, raw_changed, room, room, settings, inp) == "ch2_dj_battle"@,
        room == "room_dw_city_big_2"@ && (inp.text_check.old != true && inp.text_check.current == true)
            ==> spec_chapter_split(2, raw_changed, room, room, settings, inp) == "ch2_freeze_ring"@,
        room == "room_dw_city_moss"@ && (inp.text_check.old != false && inp.text_check.current == false)
            ==> spec_chapter_split(2, raw_changed, room, room, settings, inp) == "ch2_thorn_ring"@,
        (room == "room_dw_cyber_musical_door"@ || room == "room_dw_city_man"@) && (eqc(inp.msc.old, R_1173)) && (gec(inp.msc.current, R_1173)) && (lec(inp.choice.current, R_0))
            ==> spec_chapter_split(2, raw_changed, room, room, settings, inp) == "ch2_egg"@,
        room == "room_dw_castle_west_cliff"@ && (inp.text_check.old != true && inp.text_check.current == true)
            ==> spec_chapter_split(2, raw_changed, room, room, settings, inp) == "ch2_thorny_ending"@,
        room == "room_torhouse"@ && (inp.text_check.old != true && inp.text_check.current == true)
            ==> spec_chapter_split(2, raw_changed, room, room, settings, inp) == "ch2_ending_ac"@,
        room == "room_torhouse"@ && (inp.text_check2.old != true && inp.text_check2.current == true) && !((inp.text_check.old != true && inp.text_check.current == true))
            ==> spec_chapter_split(2, raw_changed, room, room, settings, inp) == "ch2_ending_il"@,
        !((room == "room_dw_cyber_queen_boxing"@) && (inp.text_check.old != false && inp.text_check.current == false)) && !((room == "room_dw_cyber_music_final"@) && (inp.fighting.old.bits == R_1 && inp.fighting.current.bits == R_0)) && !((room == "room_dw_city_big_2"@) && (inp.text_check.old != true && inp.text_check.current == true)) && !((room == "room_dw_city_moss"@) && (inp.text_check.old != false && inp.text_check.current == false)) && !((room == "room_dw_cyber_musical_door"@ || room == "room_dw_city_man"@) && (eqc(inp.msc.old, R_1173)) && (gec(inp.msc.current, R_1173)) && (lec(inp.choice.current, R_0))) && !((room == "room_dw_castle_west_cliff"@) && (inp.text_check.old != true && inp.text_check.current == true)) && !((room == "room_torhouse"@) && (inp.text_check.old != true && inp.text_check.current == true)) && !((room == "room_torhouse"@) && (inp.text_check2.old != true && inp.text_check2.current == true))
            ==> spec_chapter_split(2, raw_changed, room, room, settings, inp) == no_split(),
{
    assert("room_dw_castle_west_cliff"@ != "room_dw_city_big_2"@) by {
        reveal_strlit("room_dw_castle_west_cliff");
        reveal_strlit("room_dw_city_big_2");
        assert("room_dw_castle_west_cliff"@.len() != "room_dw_city_big_2"@.len());
    }
    assert("room_dw_castle_west_cliff"@ != "room_dw_city_man"@) by {
        reveal_strlit("room_dw_castle_west_cliff");
        reveal_strlit("room_dw_city_man");
        assert("room_dw_castle_west_cliff"@.len() != "room_dw_city_man"@.len());
    }
    assert("room_dw_castle_west_cliff"@ != "room_dw_city_moss"@) by {
        reveal_strlit("room_dw_castle_west_cliff");
        reveal_strlit("room_dw_city_moss");
        assert("room_dw_castle_west_cliff"@.len() != "room_dw_city_moss"@.len());
    }
    assert("room_dw_castle_west_cliff"@ != "room_dw_cyber_music_final"@) by {
        reveal_strlit("room_dw_castle_west_cliff");
        reveal_strlit("room_dw_cyber_music_final");
        assert("room_dw_castle_west_cliff"@[9] != "room_dw_cyber_music_final"@[9]);
    }
    assert("room_dw_castle_west_cliff"@ != "room_dw_cyber_musical_door"@) by {
        reveal_strlit("room_dw_castle_west_cliff");
        reveal_strlit("room_dw_cyber_musical_door");
        assert("room_dw_castle_west_cliff"@.len() != "room_dw_cyber_musical_door"@.len());
    }
    assert("room_dw_castle_west_cliff"@ != "room_dw_cyber_queen_boxing"@) by {
        reveal_strlit("room_dw_castle_west_cliff");
        reveal_strlit("room_dw_cyber_queen_boxing");
        assert("room_dw_castle_west_cliff"@.len() != "room_dw_cyber_queen_boxing"@.len());
    }
    assert("room_dw_castle_west_cliff"@ != "room_torhouse"@) by {
        reveal_strlit("room_dw_castle_west_cliff");
        reveal_strlit("room_torhouse");
        assert("room_dw_castle_west_cliff"@.len() != "room_torhouse"@.len());
    }
    assert("room_dw_city_big_2"@ != "room_dw_city_man"@) by {
        reveal_strlit("room_dw_city_big_2");
        reveal_strlit("room_dw_city_man");
        assert("room_dw_city_big_2"@.len() != "room_dw_city_man"@.len());
    }
    assert("room_dw_city_big_2"@ != "room_dw_city_moss"@) by {
        reveal_strlit("room_dw_city_big_2");
        reveal_strlit("room_dw_city_moss");
        assert("room_dw_city_big_2"@.len() != "room_dw_city_moss"@.len());
    }
    assert("room_dw_city_big_2"@ != "room_dw_cyber_music_final"@) by {
        reveal_strlit("room_dw_city_big_2");
        reveal_strlit("room_dw_cyber_music_final");
        assert("room_dw_city_big_2"@.len() != "room_dw_cyber_music_final"@.len());
    }
    assert("room_dw_city_big_2"@ != "room_dw_cyber_musical_door"@) by {
        reveal_strlit("room_dw_city_big_2");
        reveal_strlit("room_dw_cyber_musical_door");
        assert("room_dw_city_big_2"@.len() != "room_dw_cyber_musical_door"@.len());
    }
    assert("room_dw_city_big_2"@ != "room_dw_cyber_queen_boxing"@) by {
        reveal_strlit("room_dw_city_big_2");
        reveal_strlit("room_dw_cyber_queen_boxing");
        assert("room_dw_city_big_2"@.len() != "room_dw_cyber_queen_boxing"@.len());
    }
    assert("room_dw_city_big_2"@ != "room_torhouse"@) by {
        reveal_strlit("room_dw_city_big_2");
        reveal_strlit("room_torhouse");
        assert("room_dw_city_big_2"@.len() != "room_torhouse"@.len());
    }
    assert("room_dw_city_man"@ != "room_dw_city_moss"@) by {
        reveal_strlit("room_dw_city_man");
        reveal_strlit("room_dw_city_moss");
        assert("room_dw_city_man"@.len() != "room_dw_city_moss"@.len());
    }
    assert("room_dw_city_man"@ != "room_dw_cyber_music_final"@) by {
        reveal_strlit("room_dw_city_man");
        reveal_strlit("room_dw_cyber_music_final");
        assert("room_dw_city_man"@.len() != "room_dw_cyber_music_final"@.len());
    }
    assert("room_dw_city_man"@ != "room_dw_cyber_queen_boxing"@) by {
        reveal_strlit("room_dw_city_man");
        reveal_strlit("room_dw_cyber_queen_boxing");
        assert("room_dw_city_man"@.len() != "room_dw_cyber_queen_boxing"@.len());
    }
    assert("room_dw_city_man"@ != "room_torhouse"@) by {
        reveal_strlit("room_dw_city_man");
        reveal_strlit("room_torhouse");
        assert("room_dw_city_man"@.len() != "room_torhouse"@.len());
    }
    assert("room_dw_city_moss"@ != "room_dw_cyber_music_final"@) by {
        reveal_strlit("room_dw_city_moss");
        reveal_strlit("room_dw_cyber_music_final");
        assert("room_dw_city_moss"@.len() != "room_dw_cyber_music_final"@.len());
    }
    assert("room_dw_city_moss"@ != "room_dw_cyber_musical_door"@) by {
        reveal_strlit("room_dw_city_moss");
        reveal_strlit("room_dw_cyber_musical_door");
        assert("room_dw_city_moss"@.len() != "room_dw_cyber_musical_door"@.len());
    }
    assert("room_dw_city_moss"@ != "room_dw_cyber_queen_boxing"@) by {
        reveal_strlit("room_dw_city_moss");
        reveal_strlit("room_dw_cyber_queen_boxing");
        assert("room_dw_city_moss"@.len() != "room_dw_cyber_queen_boxing"@.len());
    }
    assert("room_dw_city_moss"@ != "room_torhouse"@) by {
        reveal_strlit("room_dw_city_moss");
        reveal_strlit("room_torhouse");
        assert("room_dw_city_moss"@.len() != "room_torhouse"@.len());
    }
    assert("room_dw_cyber_music_final"@ != "room_dw_cyber_musical_door"@) by {
        reveal_strlit("room_dw_cyber_music_final");
        reveal_strlit("room_dw_cyber_musical_door");
        assert("room_dw_cyber_music_final"@.len() != "room_dw_cyber_musical_door"@.len());
    }
    assert("room_dw_cyber_music_final"@ != "room_dw_cyber_queen_boxing"@) by {
        reveal_strlit("room_dw_cyber_music_final");
        reveal_strlit("room_dw_cyber_queen_boxing");
        assert("room_dw_cyber_music_final"@.len() != "room_dw_cyber_queen_boxing"@.len());
    }
    assert("room_dw_cyber_music_final"@ != "room_torhouse"@) by {
        reveal_strlit("room_dw_cyber_music_final");
        reveal_strlit("room_torhouse");
        assert("room_dw_cyber_music_final"@.len() != "room_torhouse"@.len());
    }
    assert("room_dw_cyber_musical_door"@ != "room_dw_cyber_queen_boxing"@) by {
        reveal_strlit("room_dw_cyber_musical_door");
        reveal_strlit("room_dw_cyber_queen_boxing");
        assert("room_dw_cyber_musical_door"@[14] != "room_dw_cyber_queen_boxing"@[14]);
    }
    assert("room_dw_cyber_musical_door"@ != "room_torhouse"@) by {
        reveal_strlit("room_dw_cyber_musical_door");
        reveal_strlit("room_torhouse");
        assert("room_dw_cyber_musical_door"@.len() != "room_torhouse"@.len());
    }
    assert("room_dw_cyber_queen_boxing"@ != "room_torhouse"@) by {
        reveal_strlit("room_dw_cyber_queen_boxing");
        reveal_strlit("room_torhouse");
        assert("room_dw_cyber_queen_boxing"@.len() != "room_torhouse"@.len());
    }
}

/// In chapter 3, a tick spent in one room gives each same-room split exactly when its
/// trigger reading
/// happens, and no split when none does. The triggers, in the order they are checked:
///   - the knight flag leaves 0 (1 a win, 2 a death): `ch3_knight_win, ch3_knight_death`
///   - the knight battle starts: `ch3_enter_knight`
///   - the night ambience stops: `ch3_ending`
///   - the egg flag goes from 0 to 1: `ch3_egg`
///   - the Shadow Mantle outro appears: `ch3_end_mantle`
pub proof fn law_ch3_same_room_splits(raw_changed: bool, room: Seq<char>, settings: Settings, inp: &TickInputs)
    ensures
        room == "room_dw_snow_zone"@ && (inp.flag.old.bits == R_0 && inp.flag.current.bits != R_0) && (eqc(inp.flag.current, R_1))
            ==> spec_chapter_split(3, raw_changed, room, room, settings, inp) == "ch3_knight_win"@,
        room == "room_dw_snow_zone"@ && (inp.flag.old.bits == R_0 && inp.flag.current.bits != R_0) && (!eqc(inp.flag.current, R_1) && eqc(inp.flag.current, R_2))
            ==> spec_chapter_split(3, raw_changed, room, room, settings, inp) == "ch3_knight_death"@,
        room == "room_dw_snow_zone"@ && (inp.flag.old.bits == R_0 && inp.flag.current.bits != R_0) && (!eqc(inp.flag.current, R_1) && !eqc(inp.flag.current, R_2))
            ==> spec_chapter_split(3, raw_changed, room, room, settings, inp) == no_split(),
        room == "room_dw_snow_zone"@ && (inp.fighting.old.bits == R_0 && inp.fighting.current.bits == R_1) && !((inp.flag.old.bits == R_0 && inp.flag.current.bits != R_0))
            ==> spec_chapter_split(3, raw_changed, room, room, settings, inp) == "ch3_enter_knight"@,
        room == "room_town_shelter"@ && (inp.mus_current@.len() == 0 && spec_ends_with(inp.mus_old@, r"mus\night_ambience.ogg"@))
            ==> spec_chapter_split(3, raw_changed, room, room, settings, inp) == "ch3_ending"@,
        room == "room_dw_man"@ && (inp.flag.old.bits == R_0 && inp.flag.current.bits == R_1)
            ==> spec_chapter_split(3, raw_changed, room, room, settings, inp) == "ch3_egg"@,
        room == "room_shadowmantle"@ && (inp.inst_exists.old != true && inp.inst_exists.current == true)
            ==> spec_chapter_split(3, raw_changed, room, room, settings, inp) == "ch3_end_mantle"@,
        !((room == "room_dw_snow_zone"@) && (inp.flag.old.bits == R_0 && inp.flag.current.bits != R_0)) && !((room == "room_dw_snow_zone"@) && (inp.fighting.old.bits == R_0 && inp.fighting.current.bits == R_1)) && !((room == "room_town_shelter"@) && (inp.mus_current@.len() == 0 && spec_ends_with(inp.mus_old@, r"mus\night_ambience.ogg"@))) && !((room == "room_dw_man"@) && (inp.flag.old.bits == R_0 && inp.flag.current.bits == R_1)) && !((room == "room_shadowmantle"@) && (inp.inst_exists.old != true && inp.inst_exists.current == true))
            ==> spec_chapter_split(3, raw_changed, room, room, settings, inp) == no_split(),
{
    assert("room_dw_man"@ != "room_dw_snow_zone"@) by {
        reveal_strlit("room_dw_man");
        reveal_strlit("room_dw_snow_zone");
        assert("room_dw_man"@.len() != "room_dw_snow_zone"@.len());
    }
    assert("room_dw_man"@ != "room_shadowmantle"@) by {
        reveal_strlit("room_dw_man");
        reveal_strlit("room_shadowmantle");
        assert("room_dw_man"@.len() != "room_shadowmantle"@.len());
    }
    assert("room_dw_man"@ != "room_town_shelter"@) by {
        reveal_strlit("room_dw_man");
        reveal_strlit("room_town_shelter");
        assert("room_dw_man"@.len() != "room_town_shelter"@.len());
    }
    assert("room_dw_snow_zone"@ != "room_shadowmantle"@) by {
        reveal_strlit("room_dw_snow_zone");
        reveal_strlit("room_shadowmantle");
        assert("room_dw_snow_zone"@[5] != "room_shadowmantle"@[5]);
    }
    assert("room_dw_snow_zone"@ != "room_town_shelter"@) by {
        reveal_strlit("room_dw_snow_zone");
        reveal_strlit("room_town_shelter");
        assert("room_dw_snow_zone"@[5] != "room_town_shelter"@[5]);
    }
    assert("room_shadowmantle"@ != "room_town_shelter"@) by {
        reveal_strlit("room_shadowmantle");
        reveal_strlit("room_town_shelter");
        assert("room_shadowmantle"@[5] != "room_town_shelter"@[5]);
    }
}

/// In chapter 4, a tick spent in one room gives each same-room split exactly when its
/// trigger reading
/// happens, and no split when none does. The triggers, in the order they are checked:
///   - the Mike battle starts: `ch4_start_mike`
///   - Mike's action turns 18 during the battle: `ch4_beat_mike`
///   - the Jackenstein battle ends: `ch4_jackenstein`
///   - the hammer's hair sprite leaves 0 during the battle: `ch4_hammer_of_justice`
///   - the egg text closes: `ch4_egg`
///   - the PrincessRBN text appears: `ch4_princess_ribbon`
///   - the Titan battle starts: `ch4_start_titan_fight`
///   - the upstairs event goes from 0 to 1: `ch4_ending_il`
pub proof fn law_ch4_same_room_splits(raw_changed: bool, room: Seq<char>, settings: Settings, inp: &TickInputs)
    ensures
        room == "room_dw_castle_tv_zone_battle"@ && (eqc(inp.fighting.old, R_0)) && (eqc(inp.fighting.current, R_1))
            ==> spec_chapter_split(4, raw_changed, room, room, settings, inp) == "ch4_start_mike"@,
        room == "room_dw_castle_tv_zone_battle"@ && (eqc(inp.fighting.current, R_1)) && (inp.con.old.bits != R_18 && inp.con.current.bits == R_18) && !((eqc(inp.fighting.old, R_0)) && (eqc(inp.fighting.current, R_1)))
            ==> spec_chapter_split(4, raw_changed, room, room, settings, inp) == "ch4_beat_mike"@,
        room == "room_dw_church_jackenstein"@ && (eqc(inp.fighting.old, R_1)) && (eqc(inp.fighting.current, R_0))
            ==> spec_chapter_split(4, raw_changed, room, room, settings, inp) == "ch4_jackenstein"@,
        room == "room_dw_church_arena"@ && (eqc(inp.fighting.current, R_1)) && (inp.con.old.bits == R_0 && inp.con.current.bits != R_0)
            ==> spec_chapter_split(4, raw_changed, room, room, settings, inp) == "ch4_hammer_of_justice"@,
        room == "room_dw_churchb_man"@ && (inp.text_check.old != false && inp.text_check.current == false)
            ==> spec_chapter_split(4, raw_changed, room, room, settings, inp) == "ch4_egg"@,
        room == "room_dw_churchc_prophecies"@ && (inp.text_check.old != true && inp.text_check.current == true)
            ==> spec_chapter_split(4, raw_changed, room, room, settings, inp) == "ch4_princess_ribbon"@,
        room == "room_dw_churchc_titanclimb2_post"@ && (eqc(inp.fighting.old, R_0)) && (eqc(inp.fighting.current, R_1))
            ==> spec_chapter_split(4, raw_changed, room, room, settings, inp) == "ch4_start_titan_fight"@,
        room == "room_torhouse"@ && (inp.con.old.bits == R_0 && inp.con.current.bits == R_1)
            ==> spec_chapter_split(4, raw_changed, room, room, settings, inp) == "ch4_ending_il"@,
        !((room == "room_dw_castle_tv_zone_battle"@) && (eqc(inp.fighting.old, R_0)) && (eqc(inp.fighting.current, R_1))) && !((room == "room_dw_castle_tv_zone_battle"@) && (eqc(inp.fighting.current, R_1)) && (inp.con.old.bits != R_18 && inp.con.current.bits == R_18)) && !((room == "room_dw_church_jackenstein"@) && (eqc(inp.fighting.old, R_1)) && (eqc(inp.fighting.current, R_0))) && !((room == "room_dw_church_arena"@) && (eqc(inp.fighting.current, R_1)) && (inp.con.old.bits == R_0 && inp.con.current.bits != R_0)) && !((room == "room_dw_churchb_man"@) && (inp.text_check.old != false && inp.text_check.current == false)) && !((room == "room_dw_churchc_prophecies"@) && (inp.text_check.old != true && inp.text_check.current == true)) && !((room == "room_dw_churchc_titanclimb2_post"@) && (eqc(inp.fighting.old, R_0)) && (eqc(inp.fighting.current, R_1))) && !((room == "room_torhouse"@) && (inp.con.old.bits == R_0 && inp.con.current.bits == R_1))
            ==> spec_chapter_split(4, raw_changed, room, room, settings, inp) == no_split(),
{
    assert("room_dw_castle_tv_zone_battle"@ != "room_dw_church_arena"@) by {
        reveal_strlit("room_dw_castle_tv_zone_battle");
        reveal_strlit("room_dw_church_arena");
        assert("room_dw_castle_tv_zone_battle"@.len() != "room_dw_church_arena"@.len());
    }
    assert("room_dw_castle_tv_zone_battle"@ != "room_dw_church_jackenstein"@) by {
        reveal_strlit("room_dw_castle_tv_zone_battle");
        reveal_strlit("room_dw_church_jackenstein");
        assert("room_dw_castle_tv_zone_battle"@.len() != "room_dw_church_jackenstein"@.len());
    }
    assert("room_dw_castle_tv_zone_battle"@ != "room_dw_churchb_man"@) by {
        reveal_strlit("room_dw_castle_tv_zone_battle");
        reveal_strlit("room_dw_churchb_man");
        assert("room_dw_castle_tv_zone_battle"@.len() != "room_dw_churchb_man"@.len());
    }
    assert("room_dw_castle_tv_zone_battle"@ != "room_dw_churchc_prophecies"@) by {
        reveal_strlit("room_dw_castle_tv_zone_battle");
        reveal_strlit("room_dw_churchc_prophecies");
        assert("room_dw_castle_tv_zone_battle"@.len() != "room_dw_churchc_prophecies"@.len());
    }
    assert("room_dw_castle_tv_zone_battle"@ != "room_dw_churchc_titanclimb2_post"@) by {
        reveal_strlit("room_dw_castle_tv_zone_battle");
        reveal_strlit("room_dw_churchc_titanclimb2_post");
        assert("room_dw_castle_tv_zone_battle"@.len() != "room_dw_churchc_titanclimb2_post"@.len());
    }
    assert("room_dw_castle_tv_zone_battle"@ != "room_torhouse"@) by {
        reveal_strlit("room_dw_castle_tv_zone_battle");
        reveal_strlit("room_torhouse");
        assert("room_dw_castle_tv_zone_battle"@.len() != "room_torhouse"@.len());
    }
    assert("room_dw_church_arena"@ != "room_dw_church_jackenstein"@) by {
        reveal_strlit("room_dw_church_arena");
        reveal_strlit("room_dw_church_jackenstein");
        assert("room_dw_church_arena"@.len() != "room_dw_church_jackenstein"@.len());
    }
    assert("room_dw_church_arena"@ != "room_dw_churchb_man"@) by {
        reveal_strlit("room_dw_church_arena");
        reveal_strlit("room_dw_churchb_man");
        assert("room_dw_church_arena"@.len() != "room_dw_churchb_man"@.len());
    }
    assert("room_dw_church_arena"@ != "room_dw_churchc_prophecies"@) by {
        reveal_strlit("room_dw_church_arena");
        reveal_strlit("room_dw_churchc_prophecies");
        assert("room_dw_church_arena"@.len() != "room_dw_churchc_prophecies"@.len());
    }
    assert("room_dw_church_arena"@ != "room_dw_churchc_titanclimb2_post"@) by {
        reveal_strlit("room_dw_church_arena");
        reveal_strlit("room_dw_churchc_titanclimb2_post");
        assert("room_dw_church_arena"@.len() != "room_dw_churchc_titanclimb2_post"@.len());
    }
    assert("room_dw_church_arena"@ != "room_torhouse"@) by {
        reveal_strlit("room_dw_church_arena");
        reveal_strlit("room_torhouse");
        assert("room_dw_church_arena"@.len() != "room_torhouse"@.len());
    }
    assert("room_dw_church_jackenstein"@ != "room_dw_churchb_man"@) by {
        reveal_strlit("room_dw_church_jackenstein");
        reveal_strlit("room_dw_churchb_man");
        assert("room_dw_church_jackenstein"@.len() != "room_dw_churchb_man"@.len());
    }
    assert("room_dw_church_jackenstein"@ != "room_dw_churchc_prophecies"@) by {
        reveal_strlit("room_dw_church_jackenstein");
        reveal_strlit("room_dw_churchc_prophecies");
        assert("room_dw_church_jackenstein"@[14] != "room_dw_churchc_prophecies"@[14]);
    }
    assert("room_dw_church_jackenstein"@ != "room_dw_churchc_titanclimb2_post"@) by {
        reveal_strlit("room_dw_church_jackenstein");
        reveal_strlit("room_dw_churchc_titanclimb2_post");
        assert("room_dw_church_jackenstein"@.len() != "room_dw_churchc_titanclimb2_post"@.len());
    }
    assert("room_dw_church_jackenstein"@ != "room_torhouse"@) by {
        reveal_strlit("room_dw_church_jackenstein");
        reveal_strlit("room_torhouse");
        assert("room_dw_church_jackenstein"@.len() != "room_torhouse"@.len());
    }
    assert("room_dw_churchb_man"@ != "room_dw_churchc_prophecies"@) by {
        reveal_strlit("room_dw_churchb_man");
        reveal_strlit("room_dw_churchc_prophecies");
        assert("room_dw_churchb_man"@.len() != "room_dw_churchc_prophecies"@.len());
    }
    assert("room_dw_churchb_man"@ != "room_dw_churchc_titanclimb2_post"@) by {
        reveal_strlit("room_dw_churchb_man");
        reveal_strlit("room_dw_churchc_titanclimb2_post");
        assert("room_dw_churchb_man"@.len() != "room_dw_churchc_titanclimb2_post"@.len());
    }
    assert("room_dw_churchb_man"@ != "room_torhouse"@) by {
        reveal_strlit("room_dw_churchb_man");
        reveal_strlit("room_torhouse");
        assert("room_dw_churchb_man"@.len() != "room_torhouse"@.len());
    }
    assert("room_dw_churchc_prophecies"@ != "room_dw_churchc_titanclimb2_post"@) by {
        reveal_strlit("room_dw_churchc_prophecies");
        reveal_strlit("room_dw_churchc_titanclimb2_post");
        assert("room_dw_churchc_prophecies"@.len() != "room_dw_churchc_titanclimb2_post"@.len());
    }
    assert("room_dw_churchc_prophecies"@ != "room_torhouse"@) by {
        reveal_strlit("room_dw_churchc_prophecies");
        reveal_strlit("room_torhouse");
        assert("room_dw_churchc_prophecies"@.len() != "room_torhouse"@.len());
    }
    assert("room_dw_churchc_titanclimb2_post"@ != "room_torhouse"@) by {
        reveal_strlit("room_dw_churchc_titanclimb2_post");
        reveal_strlit("room_torhouse");
        assert("room_dw_churchc_titanclimb2_post"@.len() != "room_torhouse"@.len());
    }
}

/// In chapter 5, a tick spent in one room gives each same-room split exactly when its
/// trigger reading
/// happens, and no split when none does. The triggers, in the order they are checked:
///   - the battle ends: `ch5_aqua_end`
///   - the choice goes from -1 to 0: `ch5_egg`
///   - the battle ends: `ch5_beat_seth_aqua`
///   - the battle ends: `ch5_pink_end`
///   - the battle starts: `ch5_start_flowery`
///   - the plot turns 560: `ch5_seed_packets`
///   - the Bread text appears: `ch5_bread`
///   - the CRT ending instance appears: `ch5_sideb`
pub proof fn law_ch5_same_room_splits(raw_changed: bool, room: Seq<char>, settings: Settings, inp: &TickInputs)
    ensures
        room == "room_dw_garden_aqua"@ && (inp.fighting.old.bits == R_1 && inp.fighting.current.bits == R_0)
            ==> spec_chapter_split(5, raw_changed, room, room, settings, inp) == "ch5_aqua_end"@,
        room == "room_man"@ && (inp.choice.old.bits == R_MINUS_1 && inp.choice.current.bits == R_0)
            ==> spec_chapter_split(5, raw_changed, room, room, settings, inp) == "ch5_egg"@,
        room == "room_dw_cliff_sethaqua_battle"@ && (inp.fighting.old.bits == R_1 && inp.fighting.current.bits == R_0)
            ==> spec_chapter_split(5, raw_changed, room, room, settings, inp) == "ch5_beat_seth_aqua"@,
        room == "room_dw_pink_encounter"@ && (inp.fighting.old.bits == R_1 && inp.fighting.current.bits == R_0)
            ==> spec_chapter_split(5, raw_changed, room, room, settings, inp) == "ch5_pink_end"@,
        room == "room_dw_fcastle_flowery"@ && (inp.fighting.old.bits == R_0 && inp.fighting.current.bits == R_1)
            ==> spec_chapter_split(5, raw_changed, room, room, settings, inp) == "ch5_start_flowery"@,
        room == "room_flowershop_2f"@ && (inp.plot.old.bits != R_560 && inp.plot.current.bits == R_560)
            ==> spec_chapter_split(5, raw_changed, room, room, settings, inp) == "ch5_seed_packets"@,
        room == "room_mid_town"@ && (inp.text_check.old != true && inp.text_check.current == true)
            ==> spec_chapter_split(5, raw_changed, room, room, settings, inp) == "ch5_bread"@,
        room == "room_beach"@ && (inp.inst_exists.old != true && inp.inst_exists.current == true)
            ==> spec_chapter_split(5, raw_changed, room, room, settings, inp) == "ch5_sideb"@,
        !((room == "room_dw_garden_aqua"@) && (inp.fighting.old.bits == R_1 && inp.fighting.current.bits == R_0)) && !((room == "room_man"@) && (inp.choice.old.bits == R_MINUS_1 && inp.choice.current.bits == R_0)) && !((room == "room_dw_cliff_sethaqua_battle"@) && (inp.fighting.old.bits == R_1 && inp.fighting.current.bits == R_0)) && !((room == "room_dw_pink_encounter"@) && (inp.fighting.old.bits == R_1 && inp.fighting.current.bits == R_0)) && !((room == "room_dw_fcastle_flowery"@) && (inp.fighting.old.bits == R_0 && inp.fighting.current.bits == R_1)) && !((room == "room_flowershop_2f"@) && (inp.plot.old.bits != R_560 && inp.plot.current.bits == R_560)) && !((room == "room_mid_town"@) && (inp.text_check.old != true && inp.text_check.current == true)) && !((room == "room_beach"@) && (inp.inst_exists.old != true && inp.inst_exists.current == true))
            ==> spec_chapter_split(5, raw_changed, room, room, settings, inp) == no_split(),
{
    assert("room_beach"@ != "room_dw_cliff_sethaqua_battle"@) by {
        reveal_strlit("room_beach");
        reveal_strlit("room_dw_cliff_sethaqua_battle");
        assert("room_beach"@.len() != "room_dw_cliff_sethaqua_battle"@.len());
    }
    assert("room_beach"@ != "room_dw_fcastle_flowery"@) by {
        reveal_strlit("room_beach");
        reveal_strlit("room_dw_fcastle_flowery");
        assert("room_beach"@.len() != "room_dw_fcastle_flowery"@.len());
    }
    assert("room_beach"@ != "room_dw_garden_aqua"@) by {
        reveal_strlit("room_beach");
        reveal_strlit("room_dw_garden_aqua");
        assert("room_beach"@.len() != "room_dw_garden_aqua"@.len());
    }
    assert("room_beach"@ != "room_dw_pink_encounter"@) by {
        reveal_strlit("room_beach");
        reveal_strlit("room_dw_pink_encounter");
        assert("room_beach"@.len() != "room_dw_pink_encounter"@.len());
    }
    assert("room_beach"@ != "room_flowershop_2f"@) by {
        reveal_strlit("room_beach");
        reveal_strlit("room_flowershop_2f");
        assert("room_beach"@.len() != "room_flowershop_2f"@.len());
    }
    assert("room_beach"@ != "room_man"@) by {
        reveal_strlit("room_beach");
        reveal_strlit("room_man");
        assert("room_beach"@.len() != "room_man"@.len());
    }
    assert("room_beach"@ != "room_mid_town"@) by {
        reveal_strlit("room_beach");
        reveal_strlit("room_mid_town");
        assert("room_beach"@.len() != "room_mid_town"@.len());
    }
    assert("room_dw_cliff_sethaqua_battle"@ != "room_dw_fcastle_flowery"@) by {
        reveal_strlit("room_dw_cliff_sethaqua_battle");
        reveal_strlit("room_dw_fcastle_flowery");
        assert("room_dw_cliff_sethaqua_battle"@.len() != "room_dw_fcastle_flowery"@.len());
    }
    assert("room_dw_cliff_sethaqua_battle"@ != "room_dw_garden_aqua"@) by {
        reveal_strlit("room_dw_cliff_sethaqua_battle");
        reveal_strlit("room_dw_garden_aqua");
        assert("room_dw_cliff_sethaqua_battle"@.len() != "room_dw_garden_aqua"@.len());
    }
    assert("room_dw_cliff_sethaqua_battle"@ != "room_dw_pink_encounter"@) by {
        reveal_strlit("room_dw_cliff_sethaqua_battle");
        reveal_strlit("room_dw_pink_encounter");
        assert("room_dw_cliff_sethaqua_battle"@.len() != "room_dw_pink_encounter"@.len());
    }
    assert("room_dw_cliff_sethaqua_battle"@ != "room_flowershop_2f"@) by {
        reveal_strlit("room_dw_cliff_sethaqua_battle");
        reveal_strlit("room_flowershop_2f");
        assert("room_dw_cliff_sethaqua_battle"@.len() != "room_flowershop_2f"@.len());
    }
    assert("room_dw_cliff_sethaqua_battle"@ != "room_man"@) by {
        reveal_strlit("room_dw_cliff_sethaqua_battle");
        reveal_strlit("room_man");
        assert("room_dw_cliff_sethaqua_battle"@.len() != "room_man"@.len());
    }
    assert("room_dw_cliff_sethaqua_battle"@ != "room_mid_town"@) by {
        reveal_strlit("room_dw_cliff_sethaqua_battle");
        reveal_strlit("room_mid_town");
        assert("room_dw_cliff_sethaqua_battle"@.len() != "room_mid_town"@.len());
    }
    assert("room_dw_fcastle_flowery"@ != "room_dw_garden_aqua"@) by {
        reveal_strlit("room_dw_fcastle_flowery");
        reveal_strlit("room_dw_garden_aqua");
        assert("room_dw_fcastle_flowery"@.len() != "room_dw_garden_aqua"@.len());
    }
    assert("room_dw_fcastle_flowery"@ != "room_dw_pink_encounter"@) by {
        reveal_strlit("room_dw_fcastle_flowery");
        reveal_strlit("room_dw_pink_encounter");
        assert("room_dw_fcastle_flowery"@.len() != "room_dw_pink_encounter"@.len());
    }
    assert("room_dw_fcastle_flowery"@ != "room_flowershop_2f"@) by {
        reveal_strlit("room_dw_fcastle_flowery");
        reveal_strlit("room_flowershop_2f");
        assert("room_dw_fcastle_flowery"@.len() != "room_flowershop_2f"@.len());
    }
    assert("room_dw_fcastle_flowery"@ != "room_man"@) by {
        reveal_strlit("room_dw_fcastle_flowery");
        reveal_strlit("room_man");
        assert("room_dw_fcastle_flowery"@.len() != "room_man"@.len());
    }
    assert("room_dw_fcastle_flowery"@ != "room_mid_town"@) by {
        reveal_strlit("room_dw_fcastle_flowery");
        reveal_strlit("room_mid_town");
        assert("room_dw_fcastle_flowery"@.len() != "room_mid_town"@.len());
    }
    assert("room_dw_garden_aqua"@ != "room_dw_pink_encounter"@) by {
        reveal_strlit("room_dw_garden_aqua");
        reveal_strlit("room_dw_pink_encounter");
        assert("room_dw_garden_aqua"@.len() != "room_dw_pink_encounter"@.len());
    }
    assert("room_dw_garden_aqua"@ != "room_flowershop_2f"@) by {
        reveal_strlit("room_dw_garden_aqua");
        reveal_strlit("room_flowershop_2f");
        assert("room_dw_garden_aqua"@.len() != "room_flowershop_2f"@.len());
    }
    assert("room_dw_garden_aqua"@ != "room_man"@) by {
        reveal_strlit("room_dw_garden_aqua");
        reveal_strlit("room_man");
        assert("room_dw_garden_aqua"@.len() != "room_man"@.len());
    }
    assert("room_dw_garden_aqua"@ != "room_mid_town"@) by {
        reveal_strlit("room_dw_garden_aqua");
        reveal_strlit("room_mid_town");
        assert("room_dw_garden_aqua"@.len() != "room_mid_town"@.len());
    }
    assert("room_dw_pink_encounter"@ != "room_flowershop_2f"@) by {
        reveal_strlit("room_dw_pink_encounter");
        reveal_strlit("room_flowershop_2f");
        assert("room_dw_pink_encounter"@.len() != "room_flowershop_2f"@.len());
    }
    assert("room_dw_pink_encounter"@ != "room_man"@) by {
        reveal_strlit("room_dw_pink_encounter");
        reveal_strlit("room_man");
        assert("room_dw_pink_encounter"@.len() != "room_man"@.len());
    }
    assert("room_dw_pink_encounter"@ != "room_mid_town"@) by {
        reveal_strlit("room_dw_pink_encounter");
        reveal_strlit("room_mid_town");
        assert("room_dw_pink_encounter"@.len() != "room_mid_town"@.len());
    }
    assert("room_flowershop_2f"@ != "room_man"@) by {
        reveal_strlit("room_flowershop_2f");
        reveal_strlit("room_man");
        assert("room_flowershop_2f"@.len() != "room_man"@.len());
    }
    assert("room_flowershop_2f"@ != "room_mid_town"@) by {
        reveal_strlit("room_flowershop_2f");
        reveal_strlit("room_mid_town");
        assert("room_flowershop_2f"@.len() != "room_mid_town"@.len());
    }
    assert("room_man"@ != "room_mid_town"@) by {
        reveal_strlit("room_man");
        reveal_strlit("room_mid_town");
        assert("room_man"@.len() != "room_mid_town"@.len());
    }
}

/// In chapter 1, a tick in which the raw room name changes gives the split that belongs to
/// the pair of rooms: every
/// pair of the chapter's room-change table gives its split (the clauses after the
/// special cases list the pairs in table order), and besides:
/// leaving the prison cells for Lancer's cell gives `ch1_escape_prison` once the plot is
/// 156, and nothing before.
pub proof fn law_ch1_room_change_splits(raw_changed: bool, prev: Seq<char>, cur: Seq<char>, settings: Settings, inp: &TickInputs)
    requires
        raw_changed,
    ensures
        prev == "room_cc_prison_cells"@ && cur == "room_cc_prisonlancer"@ && eqc(inp.plot.current, R_156) ==> spec_chapter_split(1, raw_changed, prev, cur, settings, inp) == "ch1_escape_prison"@,
        prev == "room_cc_prison_cells"@ && cur == "room_cc_prisonlancer"@ && !eqc(inp.plot.current, R_156) ==> spec_chapter_split(1, raw_changed, prev, cur, settings, inp) == no_split(),
        prev == "room_krisroom"@ && cur == "room_dark1"@ ==> spec_chapter_split(1, raw_changed, prev, cur, settings, inp) == "ch1_bedskip"@,
        prev == "room_insidecloset"@ && cur == "room_dark1"@ ==> spec_chapter_split(1, raw_changed, prev, cur, settings, inp) == "ch1_school"@,
        prev == "room_dark7"@ && cur == "room_dark_chase1"@ ==> spec_chapter_split(1, raw_changed, prev, cur, settings, inp) == "ch1_cliffs"@,
        prev == "room_castle_darkdoor"@ && cur == "room_field_start"@ ==> spec_chapter_split(1, raw_changed, prev, cur, settings, inp) == "ch1_castle_town_room"@,
        prev == "room_field4"@ && cur == "room_field_checkers4"@ ==> spec_chapter_split(1, raw_changed, prev, cur, settings, inp) == "ch1_field"@,
        prev == "room_field_checkersboss"@ && cur == "room_forest_savepoint1"@ ==> spec_chapter_split(1, raw_changed, prev, cur, settings, inp) == "ch1_board"@,
        prev == "room_forest_area3"@ && cur == "room_forest_savepoint2"@ ==> spec_chapter_split(1, raw_changed, prev, cur, settings, inp) == "ch1_enter_bake_sale"@,
        prev == "room_forest_savepoint_relax"@ && cur == "room_forest_maze1"@ ==> spec_chapter_split(1, raw_changed, prev, cur, settings, inp) == "ch1_enter_forest_maze"@,
        prev == "room_forest_fightsusie"@ && cur == "room_forest_afterthrash2"@ ==> spec_chapter_split(1, raw_changed, prev, cur, settings, inp) == "ch1_susie_lancer_exit"@,
        prev == "room_forest_castlefront"@ && cur == "room_cc_prison_cells"@ ==> spec_chapter_split(1, raw_changed, prev, cur, settings, inp) == "ch1_get_captured"@,
        prev == "room_cc_prison_to_elevator"@ && cur == "room_cc_prisonelevator"@ ==> spec_chapter_split(1, raw_changed, prev, cur, settings, inp) == "ch1_enter_elevator"@,
        prev == "room_forest_fightsusie"@ && cur == "room_field3"@ ==> spec_chapter_split(1, raw_changed, prev, cur, settings, inp) == "ch1_cf_warp"@,
        prev == "room_field3"@ && cur == "room_forest_savepoint2"@ ==> spec_chapter_split(1, raw_changed, prev, cur, settings, inp) == "ch1_fb_warp"@,
        prev == "room_forest_savepoint2"@ && cur == "room_forest_fightsusie"@ ==> spec_chapter_split(1, raw_changed, prev, cur, settings, inp) == "ch1_bc_warp"@,
        prev == "room_cc_prison_prejoker"@ && cur == "room_cc_joker"@ ==> spec_chapter_split(1, raw_changed, prev, cur, settings, inp) == "ch1_enter_jevil"@,
        prev == "room_cc_joker"@ && cur == "room_cc_prison_prejoker"@ ==> spec_chapter_split(1, raw_changed, prev, cur, settings, inp) == "ch1_exit_jevil"@,
        prev == "room_cc_6f"@ && cur == "room_cc_throneroom"@ ==> spec_chapter_split(1, raw_changed, prev, cur, settings, inp) == "ch1_exit_kround2"@,
        prev == "room_cc_throneroom"@ && cur == "room_cc_preroof"@ ==> spec_chapter_split(1, raw_changed, prev, cur, settings, inp) == "ch1_exit_throne_room"@,
        prev == "room_cc_preroof"@ && cur == "room_cc_kingbattle"@ ==> spec_chapter_split(1, raw_changed, prev, cur, settings, inp) == "ch1_exit_preking"@,
        prev == "room_cc_kingbattle"@ && cur == "room_cc_prefountain"@ ==> spec_chapter_split(1, raw_changed, prev, cur, settings, inp) == "ch1_post_king"@,
        prev == "room_cc_prefountain"@ && cur == "room_cc_fountain"@ ==> spec_chapter_split(1, raw_changed, prev, cur, settings, inp) == "ch1_enter_fountain"@,
        prev == "room_cc_fountain"@ && cur == "room_school_unusedroom"@ ==> spec_chapter_split(1, raw_changed, prev, cur, settings, inp) == "ch1_seal_fountain"@,
{
    if prev == "room_krisroom"@ && cur == "room_dark1"@ {
        ch1_row_0(raw_changed, prev, cur, settings, inp);
    }
    if prev == "room_insidecloset"@ && cur == "room_dark1"@ {
        ch1_row_1(raw_changed, prev, cur, settings, inp);
    }
    if prev == "room_dark7"@ && cur == "room_dark_chase1"@ {
        ch1_row_2(raw_changed, prev, cur, settings, inp);
    }
    if prev == "room_castle_darkdoor"@ && cur == "room_field_start"@ {
        ch1_row_3(raw_changed, prev, cur, settings, inp);
    }
    if prev == "room_field4"@ && cur == "room_field_checkers4"@ {
        ch1_row_4(raw_changed, prev, cur, settings, inp);
    }
    if prev == "room_field_checkersboss"@ && cur == "room_forest_savepoint1"@ {
        ch1_row_5(raw_changed, prev, cur, settings, inp);
    }
    if prev == "room_forest_area3"@ && cur == "room_forest_savepoint2"@ {
        ch1_row_6(raw_changed, prev, cur, settings, inp);
    }
    if prev == "room_forest_savepoint_relax"@ && cur == "room_forest_maze1"@ {
        ch1_row_7(raw_changed, prev, cur, settings, inp);
    }
    if prev == "room_forest_fightsusie"@ && cur == "room_forest_afterthrash2"@ {
        ch1_row_8(raw_changed, prev, cur, settings, inp);
    }
    if prev == "room_forest_castlefront"@ && cur == "room_cc_prison_cells"@ {
        ch1_row_9(raw_changed, prev, cur, settings, inp);
    }
    if prev == "room_cc_prison_to_elevator"@ && cur == "room_cc_prisonelevator"@ {
        ch1_row_10(raw_changed, prev, cur, settings, inp);
    }
    if prev == "room_forest_fightsusie"@ && cur == "room_field3"@ {
        ch1_row_11(raw_changed, prev, cur, settings, inp);
    }
    if prev == "room_field3"@ && cur == "room_forest_savepoint2"@ {
        ch1_row_12(raw_changed, prev, cur, settings, inp);
    }
    if prev == "room_forest_savepoint2"@ && cur == "room_forest_fightsusie"@ {
        ch1_row_13(raw_changed, prev, cur, settings, inp);
    }
    if prev == "room_cc_prison_prejoker"@ && cur == "room_cc_joker"@ {
        ch1_row_14(raw_changed, prev, cur, settings, inp);
    }
    if prev == "room_cc_joker"@ && cur == "room_cc_prison_prejoker"@ {
        ch1_row_15(raw_changed, prev, cur, settings, inp);
    }
    if prev == "room_cc_6f"@ && cur == "room_cc_throneroom"@ {
        ch1_row_16(raw_changed, prev, cur, settings, inp);
    }
    if prev == "room_cc_throneroom"@ && cur == "room_cc_preroof"@ {
        ch1_row_17(raw_changed, prev, cur, settings, inp);
    }
    if prev == "room_cc_preroof"@ && cur == "room_cc_kingbattle"@ {
        ch1_row_18(raw_changed, prev, cur, settings, inp);
    }
    if prev == "room_cc_kingbattle"@ && cur == "room_cc_prefountain"@ {
        ch1_row_19(raw_changed, prev, cur, settings, inp);
    }
    if prev == "room_cc_prefountain"@ && cur == "room_cc_fountain"@ {
        ch1_row_20(raw_changed, prev, cur, settings, inp);
    }
    if prev == "room_cc_fountain"@ && cur == "room_school_unusedroom"@ {
        ch1_row_21(raw_changed, prev, cur, settings, inp);
    }
}

/// In chapter 2, a change of room gives the split that belongs to the pair of rooms: every
/// pair of the chapter's room-change table gives its split (the clauses after the
/// special cases list the pairs in table order), and besides:
/// with pauses on, leaving the menu for `room_krisroom` resumes game time, and so does
/// leaving it for any room when loaded saves unpause too; leaving the Cyber Field's musical
/// door for Cyber City or the mansion gives a skip split while the previous plot is below
/// 60, and a warp split after.
pub proof fn law_ch2_room_change_splits(raw_changed: bool, prev: Seq<char>, cur: Seq<char>, settings: Settings, inp: &TickInputs)
    ensures
        prev == "PLACE_MENU"@ && cur == "room_krisroom"@ && settings.ac_pause_timer ==> spec_chapter_split(2, raw_changed, prev, cur, settings, inp) == "resume_igt"@,
        prev == "PLACE_MENU"@ && cur != prev && settings.ac_pause_timer && settings.ac_unpause_loadsave ==> spec_chapter_split(2, raw_changed, prev, cur, settings, inp) == "resume_igt"@,
        prev == "room_dw_cyber_musical_door"@ && cur == "room_dw_city_intro"@ && ltc(inp.plot.old, R_60) ==> spec_chapter_split(2, raw_changed, prev, cur, settings, inp) == "ch2_cf_tz_skip"@,
        prev == "room_dw_cyber_musical_door"@ && cur == "room_dw_city_intro"@ && !ltc(inp.plot.old, R_60) ==> spec_chapter_split(2, raw_changed, prev, cur, settings, inp) == "ch2_cf_tz_warp"@,
        prev == "room_dw_cyber_musical_door"@ && cur == "room_dw_mansion_entrance"@ && ltc(inp.plot.old, R_60) ==> spec_chapter_split(2, raw_changed, prev, cur, settings, inp) == "ch2_cf_m_skip"@,
        prev == "room_dw_cyber_musical_door"@ && cur == "room_dw_mansion_entrance"@ && !ltc(inp.plot.old, R_60) ==> spec_chapter_split(2, raw_changed, prev, cur, settings, inp) == "ch2_cf_m_warp"@,
        prev == "room_krisroom"@ && cur == "room_dw_cyber_intro_1"@ ==> spec_chapter_split(2, raw_changed, prev, cur, settings, inp) == "ch2_bedskip"@,
        prev == "room_library"@ && cur == "room_dw_cyber_intro_1"@ ==> spec_chapter_split(2, raw_changed, prev, cur, settings, inp) == "ch2_library"@,
        prev == "room_dw_cyber_queen_boxing"@ && cur == "room_dw_cyber_musical_door"@ ==> spec_chapter_split(2, raw_changed, prev, cur, settings, inp) == "ch2_arcade_room"@,
        prev == "room_dw_cyber_musical_door"@ && cur == "room_dw_cyber_musical_shop"@ ==> spec_chapter_split(2, raw_changed, prev, cur, settings, inp) == "ch2_dj_shop"@,
        prev == "room_dw_cyber_teacup_final"@ && cur == "room_dw_cyber_rollercoaster"@ ==> spec_chapter_split(2, raw_changed, prev, cur, settings, inp) == "ch2_ragger2_room"@,
        prev == "room_dw_city_intro"@ && cur == "room_dw_cyber_musical_door"@ ==> spec_chapter_split(2, raw_changed, prev, cur, settings, inp) == "ch2_tz_cf_warp"@,
        prev == "room_dw_city_intro"@ && cur == "room_dw_mansion_entrance"@ ==> spec_chapter_split(2, raw_changed, prev, cur, settings, inp) == "ch2_tz_m_warp"@,
        prev == "room_dw_mansion_entrance"@ && cur == "room_dw_city_intro"@ ==> spec_chapter_split(2, raw_changed, prev, cur, settings, inp) == "ch2_m_tz_warp"@,
        prev == "room_dw_mansion_entrance"@ && cur == "room_dw_cyber_musical_door"@ ==> spec_chapter_split(2, raw_changed, prev, cur, settings, inp) == "ch2_m_cf_warp"@,
        prev == "room_dw_city_mice2"@ && cur == "room_dw_city_cheesemaze"@ ==> spec_chapter_split(2, raw_changed, prev, cur, settings, inp) == "ch2_maus_2"@,
        prev == "room_dw_city_berdly"@ && cur == "room_dw_city_poppup"@ ==> spec_chapter_split(2, raw_changed, prev, cur, settings, inp) == "ch2_sideb_berdly2"@,
        prev == "room_dw_city_berdly"@ && cur == "room_dw_city_traffic_4"@ ==> spec_chapter_split(2, raw_changed, prev, cur, settings, inp) == "ch2_berdly2_mr"@,
        prev == "room_dw_city_spamton_alley"@ && cur == "room_dw_city_traffic_4"@ ==> spec_chapter_split(2, raw_changed, prev, cur, settings, inp) == "ch2_spamton_room"@,
        prev == "room_dw_city_mansion_front"@ && cur == "room_dw_mansion_krisroom"@ ==> spec_chapter_split(2, raw_changed, prev, cur, settings, inp) == "ch2_cyber_city"@,
        prev == "room_dw_mansion_dining_a"@ && cur == "room_dw_mansion_entrance"@ ==> spec_chapter_split(2, raw_changed, prev, cur, settings, inp) == "ch2_mansion_escape"@,
        prev == "room_dw_mansion_entrance"@ && cur == "room_dw_mansion_fire_paintings"@ ==> spec_chapter_split(2, raw_changed, prev, cur, settings, inp) == "ch2_start_pandora"@,
        prev == "room_dw_mansion_tasquePaintings"@ && cur == "room_dw_mansion_traffic"@ ==> spec_chapter_split(2, raw_changed, prev, cur, settings, inp) == "ch2_tasque_manager_room"@,
        prev == "room_dw_mansion_kitchen"@ && cur == "room_dw_mansion_east_2f_transformed_new"@ ==> spec_chapter_split(2, raw_changed, prev, cur, settings, inp) == "ch2_mauswheel"@,
        prev == "room_dw_mansion_b_east"@ && cur == "room_dw_mansion_b_east_a"@ ==> spec_chapter_split(2, raw_changed, prev, cur, settings, inp) == "ch2_exit_neo"@,
        prev == "room_dw_mansion_east_3f"@ && cur == "room_dw_mansion_acid_tunnel"@ ==> spec_chapter_split(2, raw_changed, prev, cur, settings, inp) == "ch2_enter_acid"@,
        prev == "room_dw_mansion_acid_tunnel_loop_rouxls"@ && cur == "room_dw_mansion_acid_tunnel_exit"@ ==> spec_chapter_split(2, raw_changed, prev, cur, settings, inp) == "ch2_exit_acid"@,
        prev == "room_dw_mansion_east_4f_d"@ && cur == "room_dw_mansion_top"@ ==> spec_chapter_split(2, raw_changed, prev, cur, settings, inp) == "ch2_queen_room"@,
        prev == "room_dw_mansion_top"@ && cur == "room_dw_mansion_top_post"@ ==> spec_chapter_split(2, raw_changed, prev, cur, settings, inp) == "ch2_giga_queen"@,
        prev == "room_dw_mansion_top_post"@ && cur == "room_cc_fountain"@ ==> spec_chapter_split(2, raw_changed, prev, cur, settings, inp) == "ch2_enter_fountain"@,
        prev == "room_dw_mansion_prefountain"@ && cur == "room_dw_mansion_fountain"@ ==> spec_chapter_split(2, raw_changed, prev, cur, settings, inp) == "ch2_enter_fountain"@,
        prev == "room_cc_fountain"@ && cur == "room_lw_computer_lab"@ ==> spec_chapter_split(2, raw_changed, prev, cur, settings, inp) == "ch2_seal_fountain"@,
        prev == "room_dw_mansion_fountain"@ && cur == "room_lw_computer_lab"@ ==> spec_chapter_split(2, raw_changed, prev, cur, settings, inp) == "ch2_seal_fountain"@,
        prev == "room_torhouse"@ && cur == "room_ed"@ ==> spec_chapter_split(2, raw_changed, prev, cur, settings, inp) == "ch2_ending_ost"@,
{
    assert("PLACE_MENU"@ != "room_krisroom"@) by {
        reveal_strlit("PLACE_MENU");
        reveal_strlit("room_krisroom");
        assert("PLACE_MENU"@.len() != "room_krisroom"@.len());
    }
    assert("room_dw_city_intro"@ != "room_dw_mansion_entrance"@) by {
        reveal_strlit("room_dw_city_intro");
        reveal_strlit("room_dw_mansion_entrance");
        assert("room_dw_city_intro"@.len() != "room_dw_mansion_entrance"@.len());
    }
    assert("room_dw_cyber_musical_door"@ != "PLACE_MENU"@) by {
        reveal_strlit("room_dw_cyber_musical_door");
        reveal_strlit("PLACE_MENU");
        assert("room_dw_cyber_musical_door"@.len() != "PLACE_MENU"@.len());
    }
    assert("room_dw_cyber_musical_door"@ != "room_dw_city_intro"@) by {
        reveal_strlit("room_dw_cyber_musical_door");
        reveal_strlit("room_dw_city_intro");
        assert("room_dw_cyber_musical_door"@.len() != "room_dw_city_intro"@.len());
    }
    assert("room_dw_cyber_musical_door"@ != "room_dw_mansion_entrance"@) by {
        reveal_strlit("room_dw_cyber_musical_door");
        reveal_strlit("room_dw_mansion_entrance");
        assert("room_dw_cyber_musical_door"@.len() != "room_dw_mansion_entrance"@.len());
    }
    if prev == "room_krisroom"@ && cur == "room_dw_cyber_intro_1"@ {
        ch2_row_0(raw_changed, prev, cur, settings, inp);
    }
    if prev == "room_library"@ && cur == "room_dw_cyber_intro_1"@ {
        ch2_row_1(raw_changed, prev, cur, settings, inp);
    }
    if prev == "room_dw_cyber_queen_boxing"@ && cur == "room_dw_cyber_musical_door"@ {
        ch2_row_2(raw_changed, prev, cur, settings, inp);
    }
    if prev == "room_dw_cyber_musical_door"@ && cur == "room_dw_cyber_musical_shop"@ {
        ch2_row_3(raw_changed, prev, cur, settings, inp);
    }
    if prev == "room_dw_cyber_teacup_final"@ && cur == "room_dw_cyber_rollercoaster"@ {
        ch2_row_4(raw_changed, prev, cur, settings, inp);
    }
    if prev == "room_dw_city_intro"@ && cur == "room_dw_cyber_musical_door"@ {
        ch2_row_5(raw_changed, prev, cur, settings, inp);
    }
    if prev == "room_dw_city_intro"@ && cur == "room_dw_mansion_entrance"@ {
        ch2_row_6(raw_changed, prev, cur, settings, inp);
    }
    if prev == "room_dw_mansion_entrance"@ && cur == "room_dw_city_intro"@ {
        ch2_row_7(raw_changed, prev, cur, settings, inp);
    }
    if prev == "room_dw_mansion_entrance"@ && cur == "room_dw_cyber_musical_door"@ {
        ch2_row_8(raw_changed, prev, cur, settings, inp);
    }
    if prev == "room_dw_city_mice2"@ && cur == "room_dw_city_cheesemaze"@ {
        ch2_row_9(raw_changed, prev, cur, settings, inp);
    }
    if prev == "room_dw_city_berdly"@ && cur == "room_dw_city_poppup"@ {
        ch2_row_10(raw_changed, prev, cur, settings, inp);
    }
    if prev == "room_dw_city_berdly"@ && cur == "room_dw_city_traffic_4"@ {
        ch2_row_11(raw_changed, prev, cur, settings, inp);
    }
    if prev == "room_dw_city_spamton_alley"@ && cur == "room_dw_city_traffic_4"@ {
        ch2_row_12(raw_changed, prev, cur, settings, inp);
    }
    if prev == "room_dw_city_mansion_front"@ && cur == "room_dw_mansion_krisroom"@ {
        ch2_row_13(raw_changed, prev, cur, settings, inp);
    }
    if prev == "room_dw_mansion_dining_a"@ && cur == "room_dw_mansion_entrance"@ {
        ch2_row_14(raw_changed, prev, cur, settings, inp);
    }
    if prev == "room_dw_mansion_entrance"@ && cur == "room_dw_mansion_fire_paintings"@ {
        ch2_row_15(raw_changed, prev, cur, settings, inp);
    }
    if prev == "room_dw_mansion_tasquePaintings"@ && cur == "room_dw_mansion_traffic"@ {
        ch2_row_16(raw_changed, prev, cur, settings, inp);
    }
    if prev == "room_dw_mansion_kitchen"@ && cur == "room_dw_mansion_east_2f_transformed_new"@ {
        ch2_row_17(raw_changed, prev, cur, settings, inp);
    }
    if prev == "room_dw_mansion_b_east"@ && cur == "room_dw_mansion_b_east_a"@ {
        ch2_row_18(raw_changed, prev, cur, settings, inp);
    }
    if prev == "room_dw_mansion_east_3f"@ && cur == "room_dw_mansion_acid_tunnel"@ {
        ch2_row_19(raw_changed, prev, cur, settings, inp);
    }
    if prev == "room_dw_mansion_acid_tunnel_loop_rouxls"@ && cur == "room_dw_mansion_acid_tunnel_exit"@ {
        ch2_row_20(raw_changed, prev, cur, settings, inp);
    }
    if prev == "room_dw_mansion_east_4f_d"@ && cur == "room_dw_mansion_top"@ {
        ch2_row_21(raw_changed, prev, cur, settings, inp);
    }
    if prev == "room_dw_mansion_top"@ && cur == "room_dw_mansion_top_post"@ {
        ch2_row_22(raw_changed, prev, cur, settings, inp);
    }
    if prev == "room_dw_mansion_top_post"@ && cur == "room_cc_fountain"@ {
        ch2_row_23(raw_changed, prev, cur, settings, inp);
    }
    if prev == "room_dw_mansion_prefountain"@ && cur == "room_dw_mansion_fountain"@ {
        ch2_row_24(raw_changed, prev, cur, settings, inp);
    }
    if prev == "room_cc_fountain"@ && cur == "room_lw_computer_lab"@ {
        ch2_row_25(raw_changed, prev, cur, settings, inp);
    }
    if prev == "room_dw_mansion_fountain"@ && cur == "room_lw_computer_lab"@ {
        ch2_row_26(raw_changed, prev, cur, settings, inp);
    }
    if prev == "room_torhouse"@ && cur == "room_ed"@ {
        ch2_row_27(raw_changed, prev, cur, settings, inp);
    }
}

/// In chapter 3, a change of room gives the split that belongs to the pair of rooms: every
/// pair of the chapter's room-change table gives its split (the clauses after the
/// special cases list the pairs in table order), and besides:
/// with pauses on, leaving the menu for `room_dw_couch_overworld_intro` resumes game time,
/// and so does leaving it for any room when loaded saves unpause too; going from the game
/// show to the green room ends round 1 at plot 110 or 120 and round 2 at plot 140 or 150.
pub proof fn law_ch3_room_change_splits(raw_changed: bool, prev: Seq<char>, cur: Seq<char>, settings: Settings, inp: &TickInputs)
    ensures
        prev == "PLACE_MENU"@ && cur == "room_dw_couch_overworld_intro"@ && settings.ac_pause_timer ==> spec_chapter_split(3, raw_changed, prev, cur, settings, inp) == "resume_igt"@,
        prev == "PLACE_MENU"@ && cur != prev && settings.ac_pause_timer && settings.ac_unpause_loadsave ==> spec_chapter_split(3, raw_changed, prev, cur, settings, inp) == "resume_igt"@,
        prev == "room_gameshowroom"@ && cur == "room_dw_green_room"@ && (eqc(inp.plot.current, R_110) || eqc(inp.plot.current, R_120)) ==> spec_chapter_split(3, raw_changed, prev, cur, settings, inp) == "ch3_end_round1"@,
        prev == "room_gameshowroom"@ && cur == "room_dw_green_room"@ && !(eqc(inp.plot.current, R_110) || eqc(inp.plot.current, R_120)) && (eqc(inp.plot.current, R_140) || eqc(inp.plot.current, R_150)) ==> spec_chapter_split(3, raw_changed, prev, cur, settings, inp) == "ch3_end_round2"@,
        prev == "room_gameshowroom"@ && cur == "room_dw_green_room"@ && !(eqc(inp.plot.current, R_110) || eqc(inp.plot.current, R_120)) && !(eqc(inp.plot.current, R_140) || eqc(inp.plot.current, R_150)) ==> spec_chapter_split(3, raw_changed, prev, cur, settings, inp) == no_split(),
        prev == "room_dw_couch_overworld_intro"@ && cur == "room_board_gsa02_b0"@ ==> spec_chapter_split(3, raw_changed, prev, cur, settings, inp) == "ch3_enter_round1"@,
        prev == "room_gameshowroom"@ && cur == "room_board_gsa02_b0"@ ==> spec_chapter_split(3, raw_changed, prev, cur, settings, inp) == "ch3_enter_round1"@,
        prev == "room_board_1"@ && cur == "room_dw_chef"@ ==> spec_chapter_split(3, raw_changed, prev, cur, settings, inp) == "ch3_enter_cooking"@,
        prev == "room_board_2"@ && cur == "room_dw_rhythm"@ ==> spec_chapter_split(3, raw_changed, prev, cur, settings, inp) == "ch3_enter_rhythm"@,
        prev == "room_gameshowroom"@ && cur == "room_dw_backstage"@ ==> spec_chapter_split(3, raw_changed, prev, cur, settings, inp) == "ch3_escape_doom_board"@,
        prev == "room_dw_backstage"@ && cur == "room_dw_teevie_intro"@ ==> spec_chapter_split(3, raw_changed, prev, cur, settings, inp) == "ch3_enter_tv_world"@,
        prev == "room_dw_b3bs_jail2"@ && cur == "room_dw_teevie_cowboy_zone_02_intro"@ ==> spec_chapter_split(3, raw_changed, prev, cur, settings, inp) == "ch3_2nd_shootout_room"@,
        prev == "room_dw_teevie_stealth_d"@ && cur == "room_dw_teevie_chef"@ ==> spec_chapter_split(3, raw_changed, prev, cur, settings, inp) == "ch3_enter_rouxls"@,
        prev == "room_dw_teevie_chef"@ && cur == "room_dw_teevie_dust"@ ==> spec_chapter_split(3, raw_changed, prev, cur, settings, inp) == "ch3_exit_rouxls"@,
        prev == "room_dw_snow_zone_battle"@ && cur == "room_dw_snow_zone"@ ==> spec_chapter_split(3, raw_changed, prev, cur, settings, inp) == "ch3_escape_doom_board"@,
        prev == "room_dw_snow_zone"@ && cur == "room_gameover"@ ==> spec_chapter_split(3, raw_changed, prev, cur, settings, inp) == "ch3_knight_death"@,
        prev == "room_board_1_sword_trees"@ && cur == "room_dw_console_room"@ ==> spec_chapter_split(3, raw_changed, prev, cur, settings, inp) == "ch3_ice_key"@,
        prev == "room_board_dungeon_2"@ && cur == "room_dw_console_room"@ ==> spec_chapter_split(3, raw_changed, prev, cur, settings, inp) == "ch3_shelter_key"@,
        prev == "room_board_preshadowmantle"@ && cur == "room_shadowmantle"@ ==> spec_chapter_split(3, raw_changed, prev, cur, settings, inp) == "ch3_enter_mantle"@,
        prev == "room_board_postshadowmantle"@ && cur == "room_dw_console_room"@ ==> spec_chapter_split(3, raw_changed, prev, cur, settings, inp) == "ch3_exit_mantle"@,
        prev == "room_town_shelter"@ && cur == "room_ed"@ ==> spec_chapter_split(3, raw_changed, prev, cur, settings, inp) == "ch3_ending_ost"@,
{
    assert("PLACE_MENU"@ != "room_dw_couch_overworld_intro"@) by {
        reveal_strlit("PLACE_MENU");
        reveal_strlit("room_dw_couch_overworld_intro");
        assert("PLACE_MENU"@.len() != "room_dw_couch_overworld_intro"@.len());
    }
    assert("room_gameshowroom"@ != "PLACE_MENU"@) by {
        reveal_strlit("room_gameshowroom");
        reveal_strlit("PLACE_MENU");
        assert("room_gameshowroom"@.len() != "PLACE_MENU"@.len());
    }
    assert("room_gameshowroom"@ != "room_dw_green_room"@) by {
        reveal_strlit("room_gameshowroom");
        reveal_strlit("room_dw_green_room");
        assert("room_gameshowroom"@.len() != "room_dw_green_room"@.len());
    }
    if prev == "room_dw_couch_overworld_intro"@ && cur == "room_board_gsa02_b0"@ {
        ch3_row_0(raw_changed, prev, cur, settings, inp);
    }
    if prev == "room_gameshowroom"@ && cur == "room_board_gsa02_b0"@ {
        ch3_row_1(raw_changed, prev, cur, settings, inp);
    }
    if prev == "room_board_1"@ && cur == "room_dw_chef"@ {
        ch3_row_2(raw_changed, prev, cur, settings, inp);
    }
    if prev == "room_board_2"@ && cur == "room_dw_rhythm"@ {
        ch3_row_3(raw_changed, prev, cur, settings, inp);
    }
    if prev == "room_gameshowroom"@ && cur == "room_dw_backstage"@ {
        ch3_row_4(raw_changed, prev, cur, settings, inp);
    }
    if prev == "room_dw_backstage"@ && cur == "room_dw_teevie_intro"@ {
        ch3_row_5(raw_changed, prev, cur, settings, inp);
    }
    if prev == "room_dw_b3bs_jail2"@ && cur == "room_dw_teevie_cowboy_zone_02_intro"@ {
        ch3_row_6(raw_changed, prev, cur, settings, inp);
    }
    if prev == "room_dw_teevie_stealth_d"@ && cur == "room_dw_teevie_chef"@ {
        ch3_row_7(raw_changed, prev, cur, settings, inp);
    }
    if prev == "room_dw_teevie_chef"@ && cur == "room_dw_teevie_dust"@ {
        ch3_row_8(raw_changed, prev, cur, settings, inp);
    }
    if prev == "room_dw_snow_zone_battle"@ && cur == "room_dw_snow_zone"@ {
        ch3_row_9(raw_changed, prev, cur, settings, inp);
    }
    if prev == "room_dw_snow_zone"@ && cur == "room_gameover"@ {
        ch3_row_10(raw_changed, prev, cur, settings, inp);
    }
    if prev == "room_board_1_sword_trees"@ && cur == "room_dw_console_room"@ {
        ch3_row_11(raw_changed, prev, cur, settings, inp);
    }
    if prev == "room_board_dungeon_2"@ && cur == "room_dw_console_room"@ {
        ch3_row_12(raw_changed, prev, cur, settings, inp);
    }
    if prev == "room_board_preshadowmantle"@ && cur == "room_shadowmantle"@ {
        ch3_row_13(raw_changed, prev, cur, settings, inp);
    }
    if prev == "room_board_postshadowmantle"@ && cur == "room_dw_console_room"@ {
        ch3_row_14(raw_changed, prev, cur, settings, inp);
    }
    if prev == "room_town_shelter"@ && cur == "room_ed"@ {
        ch3_row_15(raw_changed, prev, cur, settings, inp);
    }
}

/// In chapter 4, a change of room gives the split that belongs to the pair of rooms: every
/// pair of the chapter's room-change table gives its split (the clauses after the
/// special cases list the pairs in table order), and besides:
/// with pauses on, leaving the menu for `room_cc_fountain` resumes game time, and so does
/// leaving it for any room when loaded saves unpause too.
pub proof fn law_ch4_room_change_splits(raw_changed: bool, prev: Seq<char>, cur: Seq<char>, settings: Settings, inp: &TickInputs)
    ensures
        prev == "PLACE_MENU"@ && cur == "room_cc_fountain"@ && settings.ac_pause_timer ==> spec_chapter_split(4, raw_changed, prev, cur, settings, inp) == "resume_igt"@,
        prev == "PLACE_MENU"@ && cur != prev && settings.ac_pause_timer && settings.ac_unpause_loadsave ==> spec_chapter_split(4, raw_changed, prev, cur, settings, inp) == "resume_igt"@,
        prev == "room_schooldoor"@ && cur == "room_dw_castle_area_1"@ ==> spec_chapter_split(4, raw_changed, prev, cur, settings, inp) == "ch4_enter_castle_town"@,
        prev == "room_dw_church_knightclimb_post"@ && cur == "room_dw_castle_area_1"@ ==> spec_chapter_split(4, raw_changed, prev, cur, settings, inp) == "ch4_enter_castle_town"@,
        prev == "room_town_noellehouse"@ && cur == "room_lw_noellehouse_main"@ ==> spec_chapter_split(4, raw_changed, prev, cur, settings, inp) == "ch4_enter_mansion"@,
        prev == "room_torhouse"@ && cur == "room_dw_church_intro1"@ ==> spec_chapter_split(4, raw_changed, prev, cur, settings, inp) == "ch4_chairskip"@,
        prev == "room_town_church"@ && cur == "room_dw_church_intro1"@ ==> spec_chapter_split(4, raw_changed, prev, cur, settings, inp) == "ch4_enter_sanctuary"@,
        prev == "room_dw_church_darkmaze"@ && cur == "room_dw_church_gersonstudy"@ ==> spec_chapter_split(4, raw_changed, prev, cur, settings, inp) == "ch4_enter_study"@,
        prev == "room_dw_church_secretpiano"@ && cur == "room_dw_church_gersonstudy"@ ==> spec_chapter_split(4, raw_changed, prev, cur, settings, inp) == "ch4_golden_piano"@,
        prev == "room_dw_church_gersonstudy"@ && cur == "room_dw_church_arena"@ ==> spec_chapter_split(4, raw_changed, prev, cur, settings, inp) == "ch4_enter_hoj"@,
        prev == "room_dw_church_arena"@ && cur == "room_dw_church_gersonstudy"@ ==> spec_chapter_split(4, raw_changed, prev, cur, settings, inp) == "ch4_exit_axe_room"@,
        prev == "room_dw_church_gersonstudy"@ && cur == "room_dw_church_trueclimbadventure"@ ==> spec_chapter_split(4, raw_changed, prev, cur, settings, inp) == "ch4_grand_piano"@,
        prev == "room_dw_church_gersonstudy"@ && cur == "room_dw_church_rightconnect"@ ==> spec_chapter_split(4, raw_changed, prev, cur, settings, inp) == "ch4_grand_piano"@,
        prev == "room_dw_church_holywatercooler"@ && cur == "roohurch_entrance"@ ==> spec_chapter_split(4, raw_changed, prev, cur, settings, inp) == "ch4_second_sanctuary"@,
        prev == "room_dw_churchc_pretitan"@ && cur == "room_dw_churchc_titanclimb1"@ ==> spec_chapter_split(4, raw_changed, prev, cur, settings, inp) == "ch4_start_titan_climb1"@,
        prev == "room_dw_churchc_titanclimb1"@ && cur == "room_dw_churchc_titanclimb1_post"@ ==> spec_chapter_split(4, raw_changed, prev, cur, settings, inp) == "ch4_end_titan_climb1"@,
        prev == "room_dw_churchc_titanclimb1_post"@ && cur == "room_dw_churchc_titanclimb2"@ ==> spec_chapter_split(4, raw_changed, prev, cur, settings, inp) == "ch4_start_titan_climb2"@,
        prev == "room_dw_churchc_titanclimb2"@ && cur == "room_dw_churchc_titanclimb2_post"@ ==> spec_chapter_split(4, raw_changed, prev, cur, settings, inp) == "ch4_end_titan_climb2"@,
        prev == "room_dw_churchc_titanclimb2_post"@ && cur == "room_dw_churchc_insidetitan"@ ==> spec_chapter_split(4, raw_changed, prev, cur, settings, inp) == "ch4_end_titan_fight"@,
        prev == "room_dw_churchc_insidetitan"@ && cur == "room_dw_churchc_titandefeated"@ ==> spec_chapter_split(4, raw_changed, prev, cur, settings, inp) == "ch4_seal_titan"@,
        prev == "room_cc_fountain"@ && cur == "room_lw_church_main"@ ==> spec_chapter_split(4, raw_changed, prev, cur, settings, inp) == "ch4_third_sanctuary"@,
        prev == "room_torhouse"@ && cur == "room_krisroom_dark"@ ==> spec_chapter_split(4, raw_changed, prev, cur, settings, inp) == "ch4_ending"@,
        prev == "room_town_krisyard_dark"@ && cur == "room_ed"@ ==> spec_chapter_split(4, raw_changed, prev, cur, settings, inp) == "ch4_ending_ost"@,
{
    assert("PLACE_MENU"@ != "room_cc_fountain"@) by {
        reveal_strlit("PLACE_MENU");
        reveal_strlit("room_cc_fountain");
        assert("PLACE_MENU"@.len() != "room_cc_fountain"@.len());
    }
    if prev == "room_schooldoor"@ && cur == "room_dw_castle_area_1"@ {
        ch4_row_0(raw_changed, prev, cur, settings, inp);
    }
    if prev == "room_dw_church_knightclimb_post"@ && cur == "room_dw_castle_area_1"@ {
        ch4_row_1(raw_changed, prev, cur, settings, inp);
    }
    if prev == "room_town_noellehouse"@ && cur == "room_lw_noellehouse_main"@ {
        ch4_row_2(raw_changed, prev, cur, settings, inp);
    }
    if prev == "room_torhouse"@ && cur == "room_dw_church_intro1"@ {
        ch4_row_3(raw_changed, prev, cur, settings, inp);
    }
    if prev == "room_town_church"@ && cur == "room_dw_church_intro1"@ {
        ch4_row_4(raw_changed, prev, cur, settings, inp);
    }
    if prev == "room_dw_church_darkmaze"@ && cur == "room_dw_church_gersonstudy"@ {
        ch4_row_5(raw_changed, prev, cur, settings, inp);
    }
    if prev == "room_dw_church_secretpiano"@ && cur == "room_dw_church_gersonstudy"@ {
        ch4_row_6(raw_changed, prev, cur, settings, inp);
    }
    if prev == "room_dw_church_gersonstudy"@ && cur == "room_dw_church_arena"@ {
        ch4_row_7(raw_changed, prev, cur, settings, inp);
    }
    if prev == "room_dw_church_arena"@ && cur == "room_dw_church_gersonstudy"@ {
        ch4_row_8(raw_changed, prev, cur, settings, inp);
    }
    if prev == "room_dw_church_gersonstudy"@ && cur == "room_dw_church_trueclimbadventure"@ {
        ch4_row_9(raw_changed, prev, cur, settings, inp);
    }
    if prev == "room_dw_church_gersonstudy"@ && cur == "room_dw_church_rightconnect"@ {
        ch4_row_10(raw_changed, prev, cur, settings, inp);
    }
    if prev == "room_dw_church_holywatercooler"@ && cur == "roohurch_entrance"@ {
        ch4_row_11(raw_changed, prev, cur, settings, inp);
    }
    if prev == "room_dw_churchc_pretitan"@ && cur == "room_dw_churchc_titanclimb1"@ {
        ch4_row_12(raw_changed, prev, cur, settings, inp);
    }
    if prev == "room_dw_churchc_titanclimb1"@ && cur == "room_dw_churchc_titanclimb1_post"@ {
        ch4_row_13(raw_changed, prev, cur, settings, inp);
    }
    if prev == "room_dw_churchc_titanclimb1_post"@ && cur == "room_dw_churchc_titanclimb2"@ {
        ch4_row_14(raw_changed, prev, cur, settings, inp);
    }
    if prev == "room_dw_churchc_titanclimb2"@ && cur == "room_dw_churchc_titanclimb2_post"@ {
        ch4_row_15(raw_changed, prev, cur, settings, inp);
    }
    if prev == "room_dw_churchc_titanclimb2_post"@ && cur == "room_dw_churchc_insidetitan"@ {
        ch4_row_16(raw_changed, prev, cur, settings, inp);
    }
    if prev == "room_dw_churchc_insidetitan"@ && cur == "room_dw_churchc_titandefeated"@ {
        ch4_row_17(raw_changed, prev, cur, settings, inp);
    }
    if prev == "room_cc_fountain"@ && cur == "room_lw_church_main"@ {
        ch4_row_18(raw_changed, prev, cur, settings, inp);
    }
    if prev == "room_torhouse"@ && cur == "room_krisroom_dark"@ {
        ch4_row_19(raw_changed, prev, cur, settings, inp);
    }
    if prev == "room_town_krisyard_dark"@ && cur == "room_ed"@ {
        ch4_row_20(raw_changed, prev, cur, settings, inp);
    }
}

/// In chapter 5, a change of room gives the split that belongs to the pair of rooms: every
/// pair of the chapter's room-change table gives its split (the clauses after the
/// special cases list the pairs in table order), and besides:
/// with pauses on, leaving the menu for `room_krisroom` resumes game time, and so does
/// leaving it for any room when loaded saves unpause too; going from the shop to the cliff
/// shop holding key item 32 gives `ch5_pink_shop`; entering the school door with flag 1324
/// at 3 gives `ch5_ending_completion_data`.
pub proof fn law_ch5_room_change_splits(raw_changed: bool, prev: Seq<char>, cur: Seq<char>, settings: Settings, inp: &TickInputs)
    ensures
        prev == "PLACE_MENU"@ && cur == "room_krisroom"@ && settings.ac_pause_timer ==> spec_chapter_split(5, raw_changed, prev, cur, settings, inp) == "resume_igt"@,
        prev == "PLACE_MENU"@ && cur != prev && settings.ac_pause_timer && settings.ac_unpause_loadsave ==> spec_chapter_split(5, raw_changed, prev, cur, settings, inp) == "resume_igt"@,
        prev == "room_shop"@ && cur == "room_dw_cliff_shop"@ && has_key_item(inp.key_items@, R_32) ==> spec_chapter_split(5, raw_changed, prev, cur, settings, inp) == "ch5_pink_shop"@,
        cur == "room_schooldoor"@ && prev != cur && !(prev == "PLACE_MENU"@ && settings.ac_pause_timer && settings.ac_unpause_loadsave) && eqc(inp.flag_1324, R_3) ==> spec_chapter_split(5, raw_changed, prev, cur, settings, inp) == "ch5_ending_completion_data"@,
        prev == "room_schooldoor"@ && cur == "room_dw_castle_area_1"@ ==> spec_chapter_split(5, raw_changed, prev, cur, settings, inp) == "ch5_enter_castle_town"@,
        prev == "room_krisroom"@ && cur == "room_dw_garden_intro"@ ==> spec_chapter_split(5, raw_changed, prev, cur, settings, inp) == "ch5_bedskip"@,
        prev == "room_town_north"@ && cur == "room_dw_garden_intro"@ ==> spec_chapter_split(5, raw_changed, prev, cur, settings, inp) == "ch5_enter_dw"@,
        prev == "room_dw_garden_firstdash"@ && cur == "room_dw_garden_diner"@ ==> spec_chapter_split(5, raw_changed, prev, cur, settings, inp) == "ch5_enter_diner"@,
        prev == "room_dw_garden_diner"@ && cur == "room_dw_garden_newdash"@ ==> spec_chapter_split(5, raw_changed, prev, cur, settings, inp) == "ch5_exit_diner"@,
        prev == "room_dw_garden_hardpressureplates"@ && cur == "room_dw_garden_aquatransition"@ ==> spec_chapter_split(5, raw_changed, prev, cur, settings, inp) == "ch5_dark_garden"@,
        prev == "room_dw_garden_wateringcan_aqua"@ && cur == "room_dw_garden_aqua"@ ==> spec_chapter_split(5, raw_changed, prev, cur, settings, inp) == "ch5_enter_aqua"@,
        prev == "room_dw_garden_aqua"@ && cur == "room_dw_garden_aquadarkness"@ ==> spec_chapter_split(5, raw_changed, prev, cur, settings, inp) == "ch5_exit_aqua"@,
        prev == "room_dw_garden_aquashrine"@ && cur == "room_dw_garden_aquahole"@ ==> spec_chapter_split(5, raw_changed, prev, cur, settings, inp) == "ch5_exit_feather"@,
        prev == "room_dw_garden_aquashrine"@ && cur == "room_dw_garden_aquaplatforming"@ ==> spec_chapter_split(5, raw_changed, prev, cur, settings, inp) == "ch5_exit_feather"@,
        prev == "room_dw_garden_finalplatforming"@ && cur == "room_dw_garden_cliffexit"@ ==> spec_chapter_split(5, raw_changed, prev, cur, settings, inp) == "ch5_enter_cliff1"@,
        prev == "room_dw_garden_cliffexit"@ && cur == "room_dw_cliff_gardentransition_new"@ ==> spec_chapter_split(5, raw_changed, prev, cur, settings, inp) == "ch5_enter_cliff2"@,
        prev == "room_dw_cliff_seth_miniboss"@ && cur == "room_dw_cliff_shop"@ ==> spec_chapter_split(5, raw_changed, prev, cur, settings, inp) == "ch5_enter_shop_room"@,
        prev == "room_dw_cliff_shop"@ && cur == "room_dw_cliff_kawkawdash"@ ==> spec_chapter_split(5, raw_changed, prev, cur, settings, inp) == "ch5_exit_shop_room"@,
        prev == "room_dw_cliff_verticalwind_post"@ && cur == "room_dw_cliff_sethaqua_battle"@ ==> spec_chapter_split(5, raw_changed, prev, cur, settings, inp) == "ch5_enter_seth_aqua"@,
        prev == "room_dw_cliff_sethaqua_battle"@ && cur == "room_dw_fcastle_entrance"@ ==> spec_chapter_split(5, raw_changed, prev, cur, settings, inp) == "ch5_exit_seth_aqua"@,
        prev == "room_dw_fcastle_entrance"@ && cur == "room_town_north"@ ==> spec_chapter_split(5, raw_changed, prev, cur, settings, inp) == "ch5_exit_dw"@,
        prev == "room_town_north"@ && cur == "room_dw_fcastle_partyjail"@ ==> spec_chapter_split(5, raw_changed, prev, cur, settings, inp) == "ch5_reenter_dw"@,
        prev == "room_dw_fcastle_foyer"@ && cur == "room_dw_fcastle_shinobeetle_encounter"@ ==> spec_chapter_split(5, raw_changed, prev, cur, settings, inp) == "ch5_enter_left"@,
        prev == "room_dw_fcastle_onsen"@ && cur == "room_dw_fcastle_foyer"@ ==> spec_chapter_split(5, raw_changed, prev, cur, settings, inp) == "ch5_exit_left"@,
        prev == "room_dw_fcastle_foyer"@ && cur == "room_dw_fcastle_cafe"@ ==> spec_chapter_split(5, raw_changed, prev, cur, settings, inp) == "ch5_enter_right"@,
        prev == "room_dw_fcastle_right_endingscene"@ && cur == "room_dw_fcastle_foyer"@ ==> spec_chapter_split(5, raw_changed, prev, cur, settings, inp) == "ch5_exit_right"@,
        prev == "room_dw_fcastle_foyer"@ && cur == "room_dw_fcastle_asgore"@ ==> spec_chapter_split(5, raw_changed, prev, cur, settings, inp) == "ch5_beanstalk"@,
        prev == "room_dw_fcastle_top_pinkdoor"@ && cur == "room_dw_fcastle_pinkroom"@ ==> spec_chapter_split(5, raw_changed, prev, cur, settings, inp) == "ch5_pink_door"@,
        prev == "room_dw_fcastle_pinkroom"@ && cur == "room_dw_pink_encounter"@ ==> spec_chapter_split(5, raw_changed, prev, cur, settings, inp) == "ch5_pink_start"@,
        prev == "room_dw_pink_encounter"@ && cur == "room_dw_fcastle_pinkroom"@ ==> spec_chapter_split(5, raw_changed, prev, cur, settings, inp) == "ch5_pink_exit"@,
        prev == "room_dw_fcastle_top_staircase_2"@ && cur == "room_dw_fcastle_green_checkpoint"@ ==> spec_chapter_split(5, raw_changed, prev, cur, settings, inp) == "ch5_enter_ultimate_shop"@,
        prev == "room_dw_fcastle_green_checkpoint"@ && cur == "room_dw_fcastle_top_ascent"@ ==> spec_chapter_split(5, raw_changed, prev, cur, settings, inp) == "ch5_exit_ultimate_shop"@,
        prev == "room_dw_fcastle_orange_gauntlet"@ && cur == "room_dw_fcastle_final_save"@ ==> spec_chapter_split(5, raw_changed, prev, cur, settings, inp) == "ch5_enter_final_save"@,
        prev == "room_dw_fcastle_final_save"@ && cur == "room_dw_fcastle_flowery"@ ==> spec_chapter_split(5, raw_changed, prev, cur, settings, inp) == "ch5_exit_final_save"@,
        prev == "room_dw_fcastle_flowery"@ && cur == "room_dw_fcastle_flowerclimb"@ ==> spec_chapter_split(5, raw_changed, prev, cur, settings, inp) == "ch5_end_flowery"@,
        prev == "room_dw_fcastle_flowerclimb"@ && cur == "room_dw_fcastle_flowerydash"@ ==> spec_chapter_split(5, raw_changed, prev, cur, settings, inp) == "ch5_end_final_climb"@,
        prev == "room_dw_fcastle_flowerydash"@ && cur == "room_dw_post_flowery_battle"@ ==> spec_chapter_split(5, raw_changed, prev, cur, settings, inp) == "ch5_omega_flowery"@,
        prev == "room_dw_fcastle_top_fountain"@ && cur == "room_dw_post_fountain_close"@ ==> spec_chapter_split(5, raw_changed, prev, cur, settings, inp) == "ch5_fountain1"@,
        prev == "room_cc_fountain"@ && cur == "room_flowershop_2f"@ ==> spec_chapter_split(5, raw_changed, prev, cur, settings, inp) == "ch5_fountain2"@,
        prev == "room_schooldoor"@ && cur == "room_ed"@ ==> spec_chapter_split(5, raw_changed, prev, cur, settings, inp) == "ch5_ending_src"@,
{
    assert("PLACE_MENU"@ != "room_krisroom"@) by {
        reveal_strlit("PLACE_MENU");
        reveal_strlit("room_krisroom");
        assert("PLACE_MENU"@.len() != "room_krisroom"@.len());
    }
    assert("room_dw_cliff_shop"@ != "room_schooldoor"@) by {
        reveal_strlit("room_dw_cliff_shop");
        reveal_strlit("room_schooldoor");
        assert("room_dw_cliff_shop"@.len() != "room_schooldoor"@.len());
    }
    assert("room_krisroom"@ != "room_schooldoor"@) by {
        reveal_strlit("room_krisroom");
        reveal_strlit("room_schooldoor");
        assert("room_krisroom"@.len() != "room_schooldoor"@.len());
    }
    assert("room_shop"@ != "PLACE_MENU"@) by {
        reveal_strlit("room_shop");
        reveal_strlit("PLACE_MENU");
        assert("room_shop"@.len() != "PLACE_MENU"@.len());
    }
    assert("room_shop"@ != "room_dw_cliff_shop"@) by {
        reveal_strlit("room_shop");
        reveal_strlit("room_dw_cliff_shop");
        assert("room_shop"@.len() != "room_dw_cliff_shop"@.len());
    }
    if prev == "room_schooldoor"@ && cur == "room_dw_castle_area_1"@ {
        ch5_row_0(raw_changed, prev, cur, settings, inp);
    }
    if prev == "room_krisroom"@ && cur == "room_dw_garden_intro"@ {
        ch5_row_1(raw_changed, prev, cur, settings, inp);
    }
    if prev == "room_town_north"@ && cur == "room_dw_garden_intro"@ {
        ch5_row_2(raw_changed, prev, cur, settings, inp);
    }
    if prev == "room_dw_garden_firstdash"@ && cur == "room_dw_garden_diner"@ {
        ch5_row_3(raw_changed, prev, cur, settings, inp);
    }
    if prev == "room_dw_garden_diner"@ && cur == "room_dw_garden_newdash"@ {
        ch5_row_4(raw_changed, prev, cur, settings, inp);
    }
    if prev == "room_dw_garden_hardpressureplates"@ && cur == "room_dw_garden_aquatransition"@ {
        ch5_row_5(raw_changed, prev, cur, settings, inp);
    }
    if prev == "room_dw_garden_wateringcan_aqua"@ && cur == "room_dw_garden_aqua"@ {
        ch5_row_6(raw_changed, prev, cur, settings, inp);
    }
    if prev == "room_dw_garden_aqua"@ && cur == "room_dw_garden_aquadarkness"@ {
        ch5_row_7(raw_changed, prev, cur, settings, inp);
    }
    if prev == "room_dw_garden_aquashrine"@ && cur == "room_dw_garden_aquahole"@ {
        ch5_row_8(raw_changed, prev, cur, settings, inp);
    }
    if prev == "room_dw_garden_aquashrine"@ && cur == "room_dw_garden_aquaplatforming"@ {
        ch5_row_9(raw_changed, prev, cur, settings, inp);
    }
    if prev == "room_dw_garden_finalplatforming"@ && cur == "room_dw_garden_cliffexit"@ {
        ch5_row_10(raw_changed, prev, cur, settings, inp);
    }
    if prev == "room_dw_garden_cliffexit"@ && cur == "room_dw_cliff_gardentransition_new"@ {
        ch5_row_11(raw_changed, prev, cur, settings, inp);
    }
    if prev == "room_dw_cliff_seth_miniboss"@ && cur == "room_dw_cliff_shop"@ {
        ch5_row_12(raw_changed, prev, cur, settings, inp);
    }
    if prev == "room_dw_cliff_shop"@ && cur == "room_dw_cliff_kawkawdash"@ {
        ch5_row_13(raw_changed, prev, cur, settings, inp);
    }
    if prev == "room_dw_cliff_verticalwind_post"@ && cur == "room_dw_cliff_sethaqua_battle"@ {
        ch5_row_14(raw_changed, prev, cur, settings, inp);
    }
    if prev == "room_dw_cliff_sethaqua_battle"@ && cur == "room_dw_fcastle_entrance"@ {
        ch5_row_15(raw_changed, prev, cur, settings, inp);
    }
    if prev == "room_dw_fcastle_entrance"@ && cur == "room_town_north"@ {
        ch5_row_16(raw_changed, prev, cur, settings, inp);
    }
    if prev == "room_town_north"@ && cur == "room_dw_fcastle_partyjail"@ {
        ch5_row_17(raw_changed, prev, cur, settings, inp);
    }
    if prev == "room_dw_fcastle_foyer"@ && cur == "room_dw_fcastle_shinobeetle_encounter"@ {
        ch5_row_18(raw_changed, prev, cur, settings, inp);
    }
    if prev == "room_dw_fcastle_onsen"@ && cur == "room_dw_fcastle_foyer"@ {
        ch5_row_19(raw_changed, prev, cur, settings, inp);
    }
    if prev == "room_dw_fcastle_foyer"@ && cur == "room_dw_fcastle_cafe"@ {
        ch5_row_20(raw_changed, prev, cur, settings, inp);
    }
    if prev == "room_dw_fcastle_right_endingscene"@ && cur == "room_dw_fcastle_foyer"@ {
        ch5_row_21(raw_changed, prev, cur, settings, inp);
    }
    if prev == "room_dw_fcastle_foyer"@ && cur == "room_dw_fcastle_asgore"@ {
        ch5_row_22(raw_changed, prev, cur, settings, inp);
    }
    if prev == "room_dw_fcastle_top_pinkdoor"@ && cur == "room_dw_fcastle_pinkroom"@ {
        ch5_row_23(raw_changed, prev, cur, settings, inp);
    }
    if prev == "room_dw_fcastle_pinkroom"@ && cur == "room_dw_pink_encounter"@ {
        ch5_row_24(raw_changed, prev, cur, settings, inp);
    }
    if prev == "room_dw_pink_encounter"@ && cur == "room_dw_fcastle_pinkroom"@ {
        ch5_row_25(raw_changed, prev, cur, settings, inp);
    }
    if prev == "room_dw_fcastle_top_staircase_2"@ && cur == "room_dw_fcastle_green_checkpoint"@ {
        ch5_row_26(raw_changed, prev, cur, settings, inp);
    }
    if prev == "room_dw_fcastle_green_checkpoint"@ && cur == "room_dw_fcastle_top_ascent"@ {
        ch5_row_27(raw_changed, prev, cur, settings, inp);
    }
    if prev == "room_dw_fcastle_orange_gauntlet"@ && cur == "room_dw_fcastle_final_save"@ {
        ch5_row_28(raw_changed, prev, cur, settings, inp);
    }
    if prev == "room_dw_fcastle_final_save"@ && cur == "room_dw_fcastle_flowery"@ {
        ch5_row_29(raw_changed, prev, cur, settings, inp);
    }
    if prev == "room_dw_fcastle_flowery"@ && cur == "room_dw_fcastle_flowerclimb"@ {
        ch5_row_30(raw_changed, prev, cur, settings, inp);
    }
    if prev == "room_dw_fcastle_flowerclimb"@ && cur == "room_dw_fcastle_flowerydash"@ {
        ch5_row_31(raw_changed, prev, cur, settings, inp);
    }
    if prev == "room_dw_fcastle_flowerydash"@ && cur == "room_dw_post_flowery_battle"@ {
        ch5_row_32(raw_changed, prev, cur, settings, inp);
    }
    if prev == "room_dw_fcastle_top_fountain"@ && cur == "room_dw_post_fountain_close"@ {
        ch5_row_33(raw_changed, prev, cur, settings, inp);
    }
    if prev == "room_cc_fountain"@ && cur == "room_flowershop_2f"@ {
        ch5_row_34(raw_changed, prev, cur, settings, inp);
    }
    if prev == "room_schooldoor"@ && cur == "room_ed"@ {
        ch5_row_35(raw_changed, prev, cur, settings, inp);
    }
}


proof fn ch1_row_0(raw_changed: bool, prev: Seq<char>, cur: Seq<char>, settings: Settings, inp: &TickInputs)
    requires
        raw_changed,
        prev == "room_krisroom"@,
        cur == "room_dark1"@,
    ensures
        spec_chapter_split(1, raw_changed, prev, cur, settings, inp) == "ch1_bedskip"@,
{
    reveal_strlit("room_krisroom");
    reveal_strlit("room_cc_prison_cells");
    assert("room_krisroom"@.len() != "room_cc_prison_cells"@.len());
    assert(ch1_prevs()[0] == prev && ch1_curs()[0] == cur && ch1_names()[0] == "ch1_bedskip"@);
    lemma_transition_first(ch1_prevs(), ch1_curs(), ch1_names(), prev, cur, 0);
}

proof fn ch1_row_1(raw_changed: bool, prev: Seq<char>, cur: Seq<char>, settings: Settings, inp: &TickInputs)
    requires
        raw_changed,
        prev == "room_insidecloset"@,
        cur == "room_dark1"@,
    ensures
        spec_chapter_split(1, raw_changed, prev, cur, settings, inp) == "ch1_school"@,
{
    reveal_strlit("room_insidecloset");
    reveal_strlit("room_cc_prison_cells");
    reveal_strlit("room_krisroom");
    assert("room_insidecloset"@.len() != "room_cc_prison_cells"@.len());
    assert("room_krisroom"@.len() != "room_insidecloset"@.len());
    assert forall|j: int| 0 <= j < 1 implies !(#[trigger] ch1_prevs()[j] == prev && ch1_curs()[j] == cur) by {
        if j == 0 {
            assert(ch1_prevs()[0] == "room_krisroom"@);
        }
    }
    assert(ch1_prevs()[1] == prev && ch1_curs()[1] == cur && ch1_names()[1] == "ch1_school"@);
    lemma_transition_first(ch1_prevs(), ch1_curs(), ch1_names(), prev, cur, 1);
}

proof fn ch1_row_2(raw_changed: bool, prev: Seq<char>, cur: Seq<char>, settings: Settings, inp: &TickInputs)
    requires
        raw_changed,
        prev == "room_dark7"@,
        cur == "room_dark_chase1"@,
    ensures
        spec_chapter_split(1, raw_changed, prev, cur, settings, inp) == "ch1_cliffs"@,
{
    reveal_strlit("room_dark7");
    reveal_strlit("room_cc_prison_cells");
    reveal_strlit("room_krisroom");
    reveal_strlit("room_insidecloset");
    assert("room_dark7"@.len() != "room_cc_prison_cells"@.len());
    assert("room_krisroom"@.len() != "room_dark7"@.len());
    assert("room_insidecloset"@.len() != "room_dark7"@.len());
    assert forall|j: int| 0 <= j < 2 implies !(#[trigger] ch1_prevs()[j] == prev && ch1_curs()[j] == cur) by {
        if j == 0 {
            assert(ch1_prevs()[0] == "room_krisroom"@);
        } else if j == 1 {
            assert(ch1_prevs()[1] == "room_insidecloset"@);
        }
    }
    assert(ch1_prevs()[2] == prev && ch1_curs()[2] == cur && ch1_names()[2] == "ch1_cliffs"@);
    lemma_transition_first(ch1_prevs(), ch1_curs(), ch1_names(), prev, cur, 2);
}

proof fn ch1_row_3(raw_changed: bool, prev: Seq<char>, cur: Seq<char>, settings: Settings, inp: &TickInputs)
    requires
        raw_changed,
        prev == "room_castle_darkdoor"@,
        cur == "room_field_start"@,
    ensures
        spec_chapter_split(1, raw_changed, prev, cur, settings, inp) == "ch1_castle_town_room"@,
{
    reveal_strlit("room_castle_darkdoor");
    reveal_strlit("room_cc_prison_cells");
    reveal_strlit("room_krisroom");
    reveal_strlit("room_insidecloset");
    reveal_strlit("room_dark7");
    assert("room_castle_darkdoor"@[6] != "room_cc_prison_cells"@[6]);
    assert("room_krisroom"@.len() != "room_castle_darkdoor"@.len());
    assert("room_insidecloset"@.len() != "room_castle_darkdoor"@.len());
    assert("room_dark7"@.len() != "room_castle_darkdoor"@.len());
    assert forall|j: int| 0 <= j < 3 implies !(#[trigger] ch1_prevs()[j] == prev && ch1_curs()[j] == cur) by {
        if j == 0 {
            assert(ch1_prevs()[0] == "room_krisroom"@);
        } else if j == 1 {
            assert(ch1_prevs()[1] == "room_insidecloset"@);
        } else if j == 2 {
            assert(ch1_prevs()[2] == "room_dark7"@);
        }
    }
    assert(ch1_prevs()[3] == prev && ch1_curs()[3] == cur && ch1_names()[3] == "ch1_castle_town_room"@);
    lemma_transition_first(ch1_prevs(), ch1_curs(), ch1_names(), prev, cur, 3);
}

proof fn ch1_row_4(raw_changed: bool, prev: Seq<char>, cur: Seq<char>, settings: Settings, inp: &TickInputs)
    requires
        raw_changed,
        prev == "room_field4"@,
        cur == "room_field_checkers4"@,
    ensures
        spec_chapter_split(1, raw_changed, prev, cur, settings, inp) == "ch1_field"@,
{
    reveal_strlit("room_field4");
    reveal_strlit("room_cc_prison_cells");
    reveal_strlit("room_krisroom");
    reveal_strlit("room_insidecloset");
    reveal_strlit("room_dark7");
    reveal_strlit("room_castle_darkdoor");
    assert("room_field4"@.len() != "room_cc_prison_cells"@.len());
    assert("room_krisroom"@.len() != "room_field4"@.len());
    assert("room_insidecloset"@.len() != "room_field4"@.len());
    assert("room_dark7"@.len() != "room_field4"@.len());
    assert("room_castle_darkdoor"@.len() != "room_field4"@.len());
    assert forall|j: int| 0 <= j < 4 implies !(#[trigger] ch1_prevs()[j] == prev && ch1_curs()[j] == cur) by {
        if j == 0 {
            assert(ch1_prevs()[0] == "room_krisroom"@);
        } else if j == 1 {
            assert(ch1_prevs()[1] == "room_insidecloset"@);
        } else if j == 2 {
            assert(ch1_prevs()[2] == "room_dark7"@);
        } else if j == 3 {
            assert(ch1_prevs()[3] == "room_castle_darkdoor"@);
        }
    }
    assert(ch1_prevs()[4] == prev && ch1_curs()[4] == cur && ch1_names()[4] == "ch1_field"@);
    lemma_transition_first(ch1_prevs(), ch1_curs(), ch1_names(), prev, cur, 4);
}

proof fn ch1_row_5(raw_changed: bool, prev: Seq<char>, cur: Seq<char>, settings: Settings, inp: &TickInputs)
    requires
        raw_changed,
        prev == "room_field_checkersboss"@,
        cur == "room_forest_savepoint1"@,
    ensures
        spec_chapter_split(1, raw_changed, prev, cur, settings, inp) == "ch1_board"@,
{
    reveal_strlit("room_field_checkersboss");
    reveal_strlit("room_cc_prison_cells");
    reveal_strlit("room_krisroom");
    reveal_strlit("room_insidecloset");
    reveal_strlit("room_dark7");
    reveal_strlit("room_castle_darkdoor");
    reveal_strlit("room_field4");
    assert("room_field_checkersboss"@.len() != "room_cc_prison_cells"@.len());
    assert("room_krisroom"@.len() != "room_field_checkersboss"@.len());
    assert("room_insidecloset"@.len() != "room_field_checkersboss"@.len());
    assert("room_dark7"@.len() != "room_field_checkersboss"@.len());
    assert("room_castle_darkdoor"@.len() != "room_field_checkersboss"@.len());
    assert("room_field4"@.len() != "room_field_checkersboss"@.len());
    assert forall|j: int| 0 <= j < 5 implies !(#[trigger] ch1_prevs()[j] == prev && ch1_curs()[j] == cur) by {
        if j == 0 {
            assert(ch1_prevs()[0] == "room_krisroom"@);
        } else if j == 1 {
            assert(ch1_prevs()[1] == "room_insidecloset"@);
        } else if j == 2 {
            assert(ch1_prevs()[2] == "room_dark7"@);
        } else if j == 3 {
            assert(ch1_prevs()[3] == "room_castle_darkdoor"@);
        } else if j == 4 {
            assert(ch1_prevs()[4] == "room_field4"@);
        }
    }
    assert(ch1_prevs()[5] == prev && ch1_curs()[5] == cur && ch1_names()[5] == "ch1_board"@);
    lemma_transition_first(ch1_prevs(), ch1_curs(), ch1_names(), prev, cur, 5);
}

proof fn ch1_row_6(raw_changed: bool, prev: Seq<char>, cur: Seq<char>, settings: Settings, inp: &TickInputs)
    requires
        raw_changed,
        prev == "room_forest_area3"@,
        cur == "room_forest_savepoint2"@,
    ensures
        spec_chapter_split(1, raw_changed, prev, cur, settings, inp) == "ch1_enter_bake_sale"@,
{
    reveal_strlit("room_forest_area3");
    reveal_strlit("room_cc_prison_cells");
    reveal_strlit("room_krisroom");
    reveal_strlit("room_insidecloset");
    reveal_strlit("room_dark7");
    reveal_strlit("room_castle_darkdoor");
    reveal_strlit("room_field4");
    reveal_strlit("room_field_checkersboss");
    assert("room_forest_area3"@.len() != "room_cc_prison_cells"@.len());
    assert("room_krisroom"@.len() != "room_forest_area3"@.len());
    assert("room_insidecloset"@[5] != "room_forest_area3"@[5]);
    assert("room_dark7"@.len() != "room_forest_area3"@.len());
    assert("room_castle_darkdoor"@.len() != "room_forest_area3"@.len());
    assert("room_field4"@.len() != "room_forest_area3"@.len());
    assert("room_field_checkersboss"@.len() != "room_forest_area3"@.len());
    assert forall|j: int| 0 <= j < 6 implies !(#[trigger] ch1_prevs()[j] == prev && ch1_curs()[j] == cur) by {
        if j == 0 {
            assert(ch1_prevs()[0] == "room_krisroom"@);
        } else if j == 1 {
            assert(ch1_prevs()[1] == "room_insidecloset"@);
        } else if j == 2 {
            assert(ch1_prevs()[2] == "room_dark7"@);
        } else if j == 3 {
            assert(ch1_prevs()[3] == "room_castle_darkdoor"@);
        } else if j == 4 {
            assert(ch1_prevs()[4] == "room_field4"@);
        } else if j == 5 {
            assert(ch1_prevs()[5] == "room_field_checkersboss"@);
        }
    }
    assert(ch1_prevs()[6] == prev && ch1_curs()[6] == cur && ch1_names()[6] == "ch1_enter_bake_sale"@);
    lemma_transition_first(ch1_prevs(), ch1_curs(), ch1_names(), prev, cur, 6);
}

proof fn ch1_row_7(raw_changed: bool, prev: Seq<char>, cur: Seq<char>, settings: Settings, inp: &TickInputs)
    requires
        raw_changed,
        prev == "room_forest_savepoint_relax"@,
        cur == "room_forest_maze1"@,
    ensures
        spec_chapter_split(1, raw_changed, prev, cur, settings, inp) == "ch1_enter_forest_maze"@,
{
    reveal_strlit("room_forest_savepoint_relax");
    reveal_strlit("room_cc_prison_cells");
    reveal_strlit("room_krisroom");
    reveal_strlit("room_insidecloset");
    reveal_strlit("room_dark7");
    reveal_strlit("room_castle_darkdoor");
    reveal_strlit("room_field4");
    reveal_strlit("room_field_checkersboss");
    reveal_strlit("room_forest_area3");
    assert("room_forest_savepoint_relax"@.len() != "room_cc_prison_cells"@.len());
    assert("room_krisroom"@.len() != "room_forest_savepoint_relax"@.len());
    assert("room_insidecloset"@.len() != "room_forest_savepoint_relax"@.len());
    assert("room_dark7"@.len() != "room_forest_savepoint_relax"@.len());
    assert("room_castle_darkdoor"@.len() != "room_forest_savepoint_relax"@.len());
    assert("room_field4"@.len() != "room_forest_savepoint_relax"@.len());
    assert("room_field_checkersboss"@.len() != "room_forest_savepoint_relax"@.len());
    assert("room_forest_area3"@.len() != "room_forest_savepoint_relax"@.len());
    assert forall|j: int| 0 <= j < 7 implies !(#[trigger] ch1_prevs()[j] == prev && ch1_curs()[j] == cur) by {
        if j == 0 {
            assert(ch1_prevs()[0] == "room_krisroom"@);
        } else if j == 1 {
            assert(ch1_prevs()[1] == "room_insidecloset"@);
        } else if j == 2 {
            assert(ch1_prevs()[2] == "room_dark7"@);
        } else if j == 3 {
            assert(ch1_prevs()[3] == "room_castle_darkdoor"@);
        } else if j == 4 {
            assert(ch1_prevs()[4] == "room_field4"@);
        } else if j == 5 {
            assert(ch1_prevs()[5] == "room_field_checkersboss"@);
        } else if j == 6 {
            assert(ch1_prevs()[6] == "room_forest_area3"@);
        }
    }
    assert(ch1_prevs()[7] == prev && ch1_curs()[7] == cur && ch1_names()[7] == "ch1_enter_forest_maze"@);
    lemma_transition_first(ch1_prevs(), ch1_curs(), ch1_names(), prev, cur, 7);
}

proof fn ch1_row_8(raw_changed: bool, prev: Seq<char>, cur: Seq<char>, settings: Settings, inp: &TickInputs)
    requires
        raw_changed,
        prev == "room_forest_fightsusie"@,
        cur == "room_forest_afterthrash2"@,
    ensures
        spec_chapter_split(1, raw_changed, prev, cur, settings, inp) == "ch1_susie_lancer_exit"@,
{
    reveal_strlit("room_forest_fightsusie");
    reveal_strlit("room_cc_prison_cells");
    reveal_strlit("room_krisroom");
    reveal_strlit("room_insidecloset");
    reveal_strlit("room_dark7");
    reveal_strlit("room_castle_darkdoor");
    reveal_strlit("room_field4");
    reveal_strlit("room_field_checkersboss");
    reveal_strlit("room_forest_area3");
    reveal_strlit("room_forest_savepoint_relax");
    assert("room_forest_fightsusie"@.len() != "room_cc_prison_cells"@.len());
    assert("room_krisroom"@.len() != "room_forest_fightsusie"@.len());
    assert("room_insidecloset"@.len() != "room_forest_fightsusie"@.len());
    assert("room_dark7"@.len() != "room_forest_fightsusie"@.len());
    assert("room_castle_darkdoor"@.len() != "room_forest_fightsusie"@.len());
    assert("room_field4"@.len() != "room_forest_fightsusie"@.len());
    assert("room_field_checkersboss"@.len() != "room_forest_fightsusie"@.len());
    assert("room_forest_area3"@.len() != "room_forest_fightsusie"@.len());
    assert("room_forest_savepoint_relax"@.len() != "room_forest_fightsusie"@.len());
    assert forall|j: int| 0 <= j < 8 implies !(#[trigger] ch1_prevs()[j] == prev && ch1_curs()[j] == cur) by {
        if j == 0 {
            assert(ch1_prevs()[0] == "room_krisroom"@);
        } else if j == 1 {
            assert(ch1_prevs()[1] == "room_insidecloset"@);
        } else if j == 2 {
            assert(ch1_prevs()[2] == "room_dark7"@);
        } else if j == 3 {
            assert(ch1_prevs()[3] == "room_castle_darkdoor"@);
        } else if j == 4 {
            assert(ch1_prevs()[4] == "room_field4"@);
        } else if j == 5 {
            assert(ch1_prevs()[5] == "room_field_checkersboss"@);
        } else if j == 6 {
            assert(ch1_prevs()[6] == "room_forest_area3"@);
        } else if j == 7 {
            assert(ch1_prevs()[7] == "room_forest_savepoint_relax"@);
        }
    }
    assert(ch1_prevs()[8] == prev && ch1_curs()[8] == cur && ch1_names()[8] == "ch1_susie_lancer_exit"@);
    lemma_transition_first(ch1_prevs(), ch1_curs(), ch1_names(), prev, cur, 8);
}

proof fn ch1_row_9(raw_changed: bool, prev: Seq<char>, cur: Seq<char>, settings: Settings, inp: &TickInputs)
    requires
        raw_changed,
        prev == "room_forest_castlefront"@,
        cur == "room_cc_prison_cells"@,
    ensures
        spec_chapter_split(1, raw_changed, prev, cur, settings, inp) == "ch1_get_captured"@,
{
    reveal_strlit("room_forest_castlefront");
    reveal_strlit("room_cc_prison_cells");
    reveal_strlit("room_krisroom");
    reveal_strlit("room_insidecloset");
    reveal_strlit("room_dark7");
    reveal_strlit("room_castle_darkdoor");
    reveal_strlit("room_field4");
    reveal_strlit("room_field_checkersboss");
    reveal_strlit("room_forest_area3");
    reveal_strlit("room_forest_savepoint_relax");
    reveal_strlit("room_forest_fightsusie");
    assert("room_forest_castlefront"@.len() != "room_cc_prison_cells"@.len());
    assert("room_krisroom"@.len() != "room_forest_castlefront"@.len());
    assert("room_insidecloset"@.len() != "room_forest_castlefront"@.len());
    assert("room_dark7"@.len() != "room_forest_castlefront"@.len());
    assert("room_castle_darkdoor"@.len() != "room_forest_castlefront"@.len());
    assert("room_field4"@.len() != "room_forest_castlefront"@.len());
    assert("room_field_checkersboss"@[6] != "room_forest_castlefront"@[6]);
    assert("room_forest_area3"@.len() != "room_forest_castlefront"@.len());
    assert("room_forest_savepoint_relax"@.len() != "room_forest_castlefront"@.len());
    assert("room_forest_fightsusie"@.len() != "room_forest_castlefront"@.len());
    assert forall|j: int| 0 <= j < 9 implies !(#[trigger] ch1_prevs()[j] == prev && ch1_curs()[j] == cur) by {
        if j == 0 {
            assert(ch1_prevs()[0] == "room_krisroom"@);
        } else if j == 1 {
            assert(ch1_prevs()[1] == "room_insidecloset"@);
        } else if j == 2 {
            assert(ch1_prevs()[2] == "room_dark7"@);
        } else if j == 3 {
            assert(ch1_prevs()[3] == "room_castle_darkdoor"@);
        } else if j == 4 {
            assert(ch1_prevs()[4] == "room_field4"@);
        } else if j == 5 {
            assert(ch1_prevs()[5] == "room_field_checkersboss"@);
        } else if j == 6 {
            assert(ch1_prevs()[6] == "room_forest_area3"@);
        } else if j == 7 {
            assert(ch1_prevs()[7] == "room_forest_savepoint_relax"@);
        } else if j == 8 {
            assert(ch1_prevs()[8] == "room_forest_fightsusie"@);
        }
    }
    assert(ch1_prevs()[9] == prev && ch1_curs()[9] == cur && ch1_names()[9] == "ch1_get_captured"@);
    lemma_transition_first(ch1_prevs(), ch1_curs(), ch1_names(), prev, cur, 9);
}

proof fn ch1_row_10(raw_changed: bool, prev: Seq<char>, cur: Seq<char>, settings: Settings, inp: &TickInputs)
    requires
        raw_changed,
        prev == "room_cc_prison_to_elevator"@,
        cur == "room_cc_prisonelevator"@,
    ensures
        spec_chapter_split(1, raw_changed, prev, cur, settings, inp) == "ch1_enter_elevator"@,
{
    reveal_strlit("room_cc_prison_to_elevator");
    reveal_strlit("room_cc_prison_cells");
    reveal_strlit("room_krisroom");
    reveal_strlit("room_insidecloset");
    reveal_strlit("room_dark7");
    reveal_strlit("room_castle_darkdoor");
    reveal_strlit("room_field4");
    reveal_strlit("room_field_checkersboss");
    reveal_strlit("room_forest_area3");
    reveal_strlit("room_forest_savepoint_relax");
    reveal_strlit("room_forest_fightsusie");
    reveal_strlit("room_forest_castlefront");
    assert("room_cc_prison_to_elevator"@.len() != "room_cc_prison_cells"@.len());
    assert("room_krisroom"@.len() != "room_cc_prison_to_elevator"@.len());
    assert("room_insidecloset"@.len() != "room_cc_prison_to_elevator"@.len());
    assert("room_dark7"@.len() != "room_cc_prison_to_elevator"@.len());
    assert("room_castle_darkdoor"@.len() != "room_cc_prison_to_elevator"@.len());
    assert("room_field4"@.len() != "room_cc_prison_to_elevator"@.len());
    assert("room_field_checkersboss"@.len() != "room_cc_prison_to_elevator"@.len());
    assert("room_forest_area3"@.len() != "room_cc_prison_to_elevator"@.len());
    assert("room_forest_savepoint_relax"@.len() != "room_cc_prison_to_elevator"@.len());
    assert("room_forest_fightsusie"@.len() != "room_cc_prison_to_elevator"@.len());
    assert("room_forest_castlefront"@.len() != "room_cc_prison_to_elevator"@.len());
    assert forall|j: int| 0 <= j < 10 implies !(#[trigger] ch1_prevs()[j] == prev && ch1_curs()[j] == cur) by {
        if j == 0 {
            assert(ch1_prevs()[0] == "room_krisroom"@);
        } else if j == 1 {
            assert(ch1_prevs()[1] == "room_insidecloset"@);
        } else if j == 2 {
            assert(ch1_prevs()[2] == "room_dark7"@);
        } else if j == 3 {
            assert(ch1_prevs()[3] == "room_castle_darkdoor"@);
        } else if j == 4 {
            assert(ch1_prevs()[4] == "room_field4"@);
        } else if j == 5 {
            assert(ch1_prevs()[5] == "room_field_checkersboss"@);
        } else if j == 6 {
            assert(ch1_prevs()[6] == "room_forest_area3"@);
        } else if j == 7 {
            assert(ch1_prevs()[7] == "room_forest_savepoint_relax"@);
        } else if j == 8 {
            assert(ch1_prevs()[8] == "room_forest_fightsusie"@);
        } else if j == 9 {
            assert(ch1_prevs()[9] == "room_forest_castlefront"@);
        }
    }
    assert(ch1_prevs()[10] == prev && ch1_curs()[10] == cur && ch1_names()[10] == "ch1_enter_elevator"@);
    lemma_transition_first(ch1_prevs(), ch1_curs(), ch1_names(), prev, cur, 10);
}

proof fn ch1_row_11(raw_changed: bool, prev: Seq<char>, cur: Seq<char>, settings: Settings, inp: &TickInputs)
    requires
        raw_changed,
        prev == "room_forest_fightsusie"@,
        cur == "room_field3"@,
    ensures
        spec_chapter_split(1, raw_changed, prev, cur, settings, inp) == "ch1_cf_warp"@,
{
    reveal_strlit("room_forest_fightsusie");
    reveal_strlit("room_cc_prison_cells");
    reveal_strlit("room_krisroom");
    reveal_strlit("room_insidecloset");
    reveal_strlit("room_dark7");
    reveal_strlit("room_castle_darkdoor");
    reveal_strlit("room_field4");
    reveal_strlit("room_field_checkersboss");
    reveal_strlit("room_forest_area3");
    reveal_strlit("room_forest_savepoint_relax");
    reveal_strlit("room_forest_afterthrash2");
    reveal_strlit("room_field3");
    reveal_strlit("room_forest_castlefront");
    reveal_strlit("room_cc_prison_to_elevator");
    assert("room_forest_fightsusie"@.len() != "room_cc_prison_cells"@.len());
    assert("room_krisroom"@.len() != "room_forest_fightsusie"@.len());
    assert("room_insidecloset"@.len() != "room_forest_fightsusie"@.len());
    assert("room_dark7"@.len() != "room_forest_fightsusie"@.len());
    assert("room_castle_darkdoor"@.len() != "room_forest_fightsusie"@.len());
    assert("room_field4"@.len() != "room_forest_fightsusie"@.len());
    assert("room_field_checkersboss"@.len() != "room_forest_fightsusie"@.len());
    assert("room_forest_area3"@.len() != "room_forest_fightsusie"@.len());
    assert("room_forest_savepoint_relax"@.len() != "room_forest_fightsusie"@.len());
    assert("room_forest_afterthrash2"@.len() != "room_field3"@.len());
    assert("room_forest_castlefront"@.len() != "room_forest_fightsusie"@.len());
    assert("room_cc_prison_to_elevator"@.len() != "room_forest_fightsusie"@.len());
    assert forall|j: int| 0 <= j < 11 implies !(#[trigger] ch1_prevs()[j] == prev && ch1_curs()[j] == cur) by {
        if j == 0 {
            assert(ch1_prevs()[0] == "room_krisroom"@);
        } else if j == 1 {
            assert(ch1_prevs()[1] == "room_insidecloset"@);
        } else if j == 2 {
            assert(ch1_prevs()[2] == "room_dark7"@);
        } else if j == 3 {
            assert(ch1_prevs()[3] == "room_castle_darkdoor"@);
        } else if j == 4 {
            assert(ch1_prevs()[4] == "room_field4"@);
        } else if j == 5 {
            assert(ch1_prevs()[5] == "room_field_checkersboss"@);
        } else if j == 6 {
            assert(ch1_prevs()[6] == "room_forest_area3"@);
        } else if j == 7 {
            assert(ch1_prevs()[7] == "room_forest_savepoint_relax"@);
        } else if j == 8 {
            assert(ch1_curs()[8] == "room_forest_afterthrash2"@);
        } else if j == 9 {
            assert(ch1_prevs()[9] == "room_forest_castlefront"@);
        } else if j == 10 {
            assert(ch1_prevs()[10] == "room_cc_prison_to_elevator"@);
        }
    }
    assert(ch1_prevs()[11] == prev && ch1_curs()[11] == cur && ch1_names()[11] == "ch1_cf_warp"@);
    lemma_transition_first(ch1_prevs(), ch1_curs(), ch1_names(), prev, cur, 11);
}

proof fn ch1_row_12(raw_changed: bool, prev: Seq<char>, cur: Seq<char>, settings: Settings, inp: &TickInputs)
    requires
        raw_changed,
        prev == "room_field3"@,
        cur == "room_forest_savepoint2"@,
    ensures
        spec_chapter_split(1, raw_changed, prev, cur, settings, inp) == "ch1_fb_warp"@,
{
    reveal_strlit("room_field3");
    reveal_strlit("room_cc_prison_cells");
    reveal_strlit("room_krisroom");
    reveal_strlit("room_insidecloset");
    reveal_strlit("room_dark7");
    reveal_strlit("room_castle_darkdoor");
    reveal_strlit("room_field4");
    reveal_strlit("room_field_checkersboss");
    reveal_strlit("room_forest_area3");
    reveal_strlit("room_forest_savepoint_relax");
    reveal_strlit("room_forest_fightsusie");
    reveal_strlit("room_forest_castlefront");
    reveal_strlit("room_cc_prison_to_elevator");
    assert("room_field3"@.len() != "room_cc_prison_cells"@.len());
    assert("room_krisroom"@.len() != "room_field3"@.len());
    assert("room_insidecloset"@.len() != "room_field3"@.len());
    assert("room_dark7"@.len() != "room_field3"@.len());
    assert("room_castle_darkdoor"@.len() != "room_field3"@.len());
    assert("room_field4"@[10] != "room_field3"@[10]);
    assert("room_field_checkersboss"@.len() != "room_field3"@.len());
    assert("room_forest_area3"@.len() != "room_field3"@.len());
    assert("room_forest_savepoint_relax"@.len() != "room_field3"@.len());
    assert("room_forest_fightsusie"@.len() != "room_field3"@.len());
    assert("room_forest_castlefront"@.len() != "room_field3"@.len());
    assert("room_cc_prison_to_elevator"@.len() != "room_field3"@.len());
    assert forall|j: int| 0 <= j < 12 implies !(#[trigger] ch1_prevs()[j] == prev && ch1_curs()[j] == cur) by {
        if j == 0 {
            assert(ch1_prevs()[0] == "room_krisroom"@);
        } else if j == 1 {
            assert(ch1_prevs()[1] == "room_insidecloset"@);
        } else if j == 2 {
            assert(ch1_prevs()[2] == "room_dark7"@);
        } else if j == 3 {
            assert(ch1_prevs()[3] == "room_castle_darkdoor"@);
        } else if j == 4 {
            assert(ch1_prevs()[4] == "room_field4"@);
        } else if j == 5 {
            assert(ch1_prevs()[5] == "room_field_checkersboss"@);
        } else if j == 6 {
            assert(ch1_prevs()[6] == "room_forest_area3"@);
        } else if j == 7 {
            assert(ch1_prevs()[7] == "room_forest_savepoint_relax"@);
        } else if j == 8 {
            assert(ch1_prevs()[8] == "room_forest_fightsusie"@);
        } else if j == 9 {
            assert(ch1_prevs()[9] == "room_forest_castlefront"@);
        } else if j == 10 {
            assert(ch1_prevs()[10] == "room_cc_prison_to_elevator"@);
        } else if j == 11 {
            assert(ch1_prevs()[11] == "room_forest_fightsusie"@);
        }
    }
    assert(ch1_prevs()[12] == prev && ch1_curs()[12] == cur && ch1_names()[12] == "ch1_fb_warp"@);
    lemma_transition_first(ch1_prevs(), ch1_curs(), ch1_names(), prev, cur, 12);
}

proof fn ch1_row_13(raw_changed: bool, prev: Seq<char>, cur: Seq<char>, settings: Settings, inp: &TickInputs)
    requires
        raw_changed,
        prev == "room_forest_savepoint2"@,
        cur == "room_forest_fightsusie"@,
    ensures
        spec_chapter_split(1, raw_changed, prev, cur, settings, inp) == "ch1_bc_warp"@,
{
    reveal_strlit("room_forest_savepoint2");
    reveal_strlit("room_cc_prison_cells");
    reveal_strlit("room_krisroom");
    reveal_strlit("room_insidecloset");
    reveal_strlit("room_dark7");
    reveal_strlit("room_castle_darkdoor");
    reveal_strlit("room_field4");
    reveal_strlit("room_field_checkersboss");
    reveal_strlit("room_forest_area3");
    reveal_strlit("room_forest_savepoint_relax");
    reveal_strlit("room_forest_fightsusie");
    reveal_strlit("room_forest_castlefront");
    reveal_strlit("room_cc_prison_to_elevator");
    reveal_strlit("room_field3");
    assert("room_forest_savepoint2"@.len() != "room_cc_prison_cells"@.len());
    assert("room_krisroom"@.len() != "room_forest_savepoint2"@.len());
    assert("room_insidecloset"@.len() != "room_forest_savepoint2"@.len());
    assert("room_dark7"@.len() != "room_forest_savepoint2"@.len());
    assert("room_castle_darkdoor"@.len() != "room_forest_savepoint2"@.len());
    assert("room_field4"@.len() != "room_forest_savepoint2"@.len());
    assert("room_field_checkersboss"@.len() != "room_forest_savepoint2"@.len());
    assert("room_forest_area3"@.len() != "room_forest_savepoint2"@.len());
    assert("room_forest_savepoint_relax"@.len() != "room_forest_savepoint2"@.len());
    assert("room_forest_fightsusie"@[12] != "room_forest_savepoint2"@[12]);
    assert("room_forest_castlefront"@.len() != "room_forest_savepoint2"@.len());
    assert("room_cc_prison_to_elevator"@.len() != "room_forest_savepoint2"@.len());
    assert("room_field3"@.len() != "room_forest_savepoint2"@.len());
    assert forall|j: int| 0 <= j < 13 implies !(#[trigger] ch1_prevs()[j] == prev && ch1_curs()[j] == cur) by {
        if j == 0 {
            assert(ch1_prevs()[0] == "room_krisroom"@);
        } else if j == 1 {
            assert(ch1_prevs()[1] == "room_insidecloset"@);
        } else if j == 2 {
            assert(ch1_prevs()[2] == "room_dark7"@);
        } else if j == 3 {
            assert(ch1_prevs()[3] == "room_castle_darkdoor"@);
        } else if j == 4 {
            assert(ch1_prevs()[4] == "room_field4"@);
        } else if j == 5 {
            assert(ch1_prevs()[5] == "room_field_checkersboss"@);
        } else if j == 6 {
            assert(ch1_prevs()[6] == "room_forest_area3"@);
        } else if j == 7 {
            assert(ch1_prevs()[7] == "room_forest_savepoint_relax"@);
        } else if j == 8 {
            assert(ch1_prevs()[8] == "room_forest_fightsusie"@);
        } else if j == 9 {
            assert(ch1_prevs()[9] == "room_forest_castlefront"@);
        } else if j == 10 {
            assert(ch1_prevs()[10] == "room_cc_prison_to_elevator"@);
        } else if j == 11 {
            assert(ch1_prevs()[11] == "room_forest_fightsusie"@);
        } else if j == 12 {
            assert(ch1_prevs()[12] == "room_field3"@);
        }
    }
    assert(ch1_prevs()[13] == prev && ch1_curs()[13] == cur && ch1_names()[13] == "ch1_bc_warp"@);
    lemma_transition_first(ch1_prevs(), ch1_curs(), ch1_names(), prev, cur, 13);
}

proof fn ch1_row_14(raw_changed: bool, prev: Seq<char>, cur: Seq<char>, settings: Settings, inp: &TickInputs)
    requires
        raw_changed,
        prev == "room_cc_prison_prejoker"@,
        cur == "room_cc_joker"@,
    ensures
        spec_chapter_split(1, raw_changed, prev, cur, settings, inp) == "ch1_enter_jevil"@,
{
    reveal_strlit("room_cc_prison_prejoker");
    reveal_strlit("room_cc_prison_cells");
    reveal_strlit("room_krisroom");
    reveal_strlit("room_insidecloset");
    reveal_strlit("room_dark7");
    reveal_strlit("room_castle_darkdoor");
    reveal_strlit("room_field4");
    reveal_strlit("room_field_checkersboss");
    reveal_strlit("room_forest_area3");
    reveal_strlit("room_forest_savepoint_relax");
    reveal_strlit("room_forest_fightsusie");
    reveal_strlit("room_forest_castlefront");
    reveal_strlit("room_cc_prison_to_elevator");
    reveal_strlit("room_field3");
    reveal_strlit("room_forest_savepoint2");
    assert("room_cc_prison_prejoker"@.len() != "room_cc_prison_cells"@.len());
    assert("room_krisroom"@.len() != "room_cc_prison_prejoker"@.len());
    assert("room_insidecloset"@.len() != "room_cc_prison_prejoker"@.len());
    assert("room_dark7"@.len() != "room_cc_prison_prejoker"@.len());
    assert("room_castle_darkdoor"@.len() != "room_cc_prison_prejoker"@.len());
    assert("room_field4"@.len() != "room_cc_prison_prejoker"@.len());
    assert("room_field_checkersboss"@[5] != "room_cc_prison_prejoker"@[5]);
    assert("room_forest_area3"@.len() != "room_cc_prison_prejoker"@.len());
    assert("room_forest_savepoint_relax"@.len() != "room_cc_prison_prejoker"@.len());
    assert("room_forest_fightsusie"@.len() != "room_cc_prison_prejoker"@.len());
    assert("room_forest_castlefront"@[5] != "room_cc_prison_prejoker"@[5]);
    assert("room_cc_prison_to_elevator"@.len() != "room_cc_prison_prejoker"@.len());
    assert("room_field3"@.len() != "room_cc_prison_prejoker"@.len());
    assert("room_forest_savepoint2"@.len() != "room_cc_prison_prejoker"@.len());
    assert forall|j: int| 0 <= j < 14 implies !(#[trigger] ch1_prevs()[j] == prev && ch1_curs()[j] == cur) by {
        if j == 0 {
            assert(ch1_prevs()[0] == "room_krisroom"@);
        } else if j == 1 {
            assert(ch1_prevs()[1] == "room_insidecloset"@);
        } else if j == 2 {
            assert(ch1_prevs()[2] == "room_dark7"@);
        } else if j == 3 {
            assert(ch1_prevs()[3] == "room_castle_darkdoor"@);
        } else if j == 4 {
            assert(ch1_prevs()[4] == "room_field4"@);
        } else if j == 5 {
            assert(ch1_prevs()[5] == "room_field_checkersboss"@);
        } else if j == 6 {
            assert(ch1_prevs()[6] == "room_forest_area3"@);
        } else if j == 7 {
            assert(ch1_prevs()[7] == "room_forest_savepoint_relax"@);
        } else if j == 8 {
            assert(ch1_prevs()[8] == "room_forest_fightsusie"@);
        } else if j == 9 {
            assert(ch1_prevs()[9] == "room_forest_castlefront"@);
        } else if j == 10 {
            assert(ch1_prevs()[10] == "room_cc_prison_to_elevator"@);
        } else if j == 11 {
            assert(ch1_prevs()[11] == "room_forest_fightsusie"@);
        } else if j == 12 {
            assert(ch1_prevs()[12] == "room_field3"@);
        } else if j == 13 {
            assert(ch1_prevs()[13] == "room_forest_savepoint2"@);
        }
    }
    assert(ch1_prevs()[14] == prev && ch1_curs()[14] == cur && ch1_names()[14] == "ch1_enter_jevil"@);
    lemma_transition_first(ch1_prevs(), ch1_curs(), ch1_names(), prev, cur, 14);
}

proof fn ch1_row_15(raw_changed: bool, prev: Seq<char>, cur: Seq<char>, settings: Settings, inp: &TickInputs)
    requires
        raw_changed,
        prev == "room_cc_joker"@,
        cur == "room_cc_prison_prejoker"@,
    ensures
        spec_chapter_split(1, raw_changed, prev, cur, settings, inp) == "ch1_exit_jevil"@,
{
    reveal_strlit("room_cc_joker");
    reveal_strlit("room_cc_prison_cells");
    reveal_strlit("room_krisroom");
    reveal_strlit("room_insidecloset");
    reveal_strlit("room_dark7");
    reveal_strlit("room_castle_darkdoor");
    reveal_strlit("room_field4");
    reveal_strlit("room_field_checkersboss");
    reveal_strlit("room_forest_area3");
    reveal_strlit("room_forest_savepoint_relax");
    reveal_strlit("room_forest_fightsusie");
    reveal_strlit("room_forest_castlefront");
    reveal_strlit("room_cc_prison_to_elevator");
    reveal_strlit("room_field3");
    reveal_strlit("room_forest_savepoint2");
    reveal_strlit("room_cc_prison_prejoker");
    assert("room_cc_joker"@.len() != "room_cc_prison_cells"@.len());
    assert("room_krisroom"@[5] != "room_cc_joker"@[5]);
    assert("room_insidecloset"@.len() != "room_cc_joker"@.len());
    assert("room_dark7"@.len() != "room_cc_joker"@.len());
    assert("room_castle_darkdoor"@.len() != "room_cc_joker"@.len());
    assert("room_field4"@.len() != "room_cc_joker"@.len());
    assert("room_field_checkersboss"@.len() != "room_cc_joker"@.len());
    assert("room_forest_area3"@.len() != "room_cc_joker"@.len());
    assert("room_forest_savepoint_relax"@.len() != "room_cc_joker"@.len());
    assert("room_forest_fightsusie"@.len() != "room_cc_joker"@.len());
    assert("room_forest_castlefront"@.len() != "room_cc_joker"@.len());
    assert("room_cc_prison_to_elevator"@.len() != "room_cc_joker"@.len());
    assert("room_field3"@.len() != "room_cc_joker"@.len());
    assert("room_forest_savepoint2"@.len() != "room_cc_joker"@.len());
    assert("room_cc_prison_prejoker"@.len() != "room_cc_joker"@.len());
    assert forall|j: int| 0 <= j < 15 implies !(#[trigger] ch1_prevs()[j] == prev && ch1_curs()[j] == cur) by {
        if j == 0 {
            assert(ch1_prevs()[0] == "room_krisroom"@);
        } else if j == 1 {
            assert(ch1_prevs()[1] == "room_insidecloset"@);
        } else if j == 2 {
            assert(ch1_prevs()[2] == "room_dark7"@);
        } else if j == 3 {
            assert(ch1_prevs()[3] == "room_castle_darkdoor"@);
        } else if j == 4 {
            assert(ch1_prevs()[4] == "room_field4"@);
        } else if j == 5 {
            assert(ch1_prevs()[5] == "room_field_checkersboss"@);
        } else if j == 6 {
            assert(ch1_prevs()[6] == "room_forest_area3"@);
        } else if j == 7 {
            assert(ch1_prevs()[7] == "room_forest_savepoint_relax"@);
        } else if j == 8 {
            assert(ch1_prevs()[8] == "room_forest_fightsusie"@);
        } else if j == 9 {
            assert(ch1_prevs()[9] == "room_forest_castlefront"@);
        } else if j == 10 {
            assert(ch1_prevs()[10] == "room_cc_prison_to_elevator"@);
        } else if j == 11 {
            assert(ch1_prevs()[11] == "room_forest_fightsusie"@);
        } else if j == 12 {
            assert(ch1_prevs()[12] == "room_field3"@);
        } else if j == 13 {
            assert(ch1_prevs()[13] == "room_forest_savepoint2"@);
        } else if j == 14 {
            assert(ch1_prevs()[14] == "room_cc_prison_prejoker"@);
        }
    }
    assert(ch1_prevs()[15] == prev && ch1_curs()[15] == cur && ch1_names()[15] == "ch1_exit_jevil"@);
    lemma_transition_first(ch1_prevs(), ch1_curs(), ch1_names(), prev, cur, 15);
}

proof fn ch1_row_16(raw_changed: bool, prev: Seq<char>, cur: Seq<char>, settings: Settings, inp: &TickInputs)
    requires
        raw_changed,
        prev == "room_cc_6f"@,
        cur == "room_cc_throneroom"@,
    ensures
        spec_chapter_split(1, raw_changed, prev, cur, settings, inp) == "ch1_exit_kround2"@,
{
    reveal_strlit("room_cc_6f");
    reveal_strlit("room_cc_prison_cells");
    reveal_strlit("room_krisroom");
    reveal_strlit("room_insidecloset");
    reveal_strlit("room_dark7");
    reveal_strlit("room_castle_darkdoor");
    reveal_strlit("room_field4");
    reveal_strlit("room_field_checkersboss");
    reveal_strlit("room_forest_area3");
    reveal_strlit("room_forest_savepoint_relax");
    reveal_strlit("room_forest_fightsusie");
    reveal_strlit("room_forest_castlefront");
    reveal_strlit("room_cc_prison_to_elevator");
    reveal_strlit("room_field3");
    reveal_strlit("room_forest_savepoint2");
    reveal_strlit("room_cc_prison_prejoker");
    reveal_strlit("room_cc_joker");
    assert("room_cc_6f"@.len() != "room_cc_prison_cells"@.len());
    assert("room_krisroom"@.len() != "room_cc_6f"@.len());
    assert("room_insidecloset"@.len() != "room_cc_6f"@.len());
    assert("room_dark7"@[5] != "room_cc_6f"@[5]);
    assert("room_castle_darkdoor"@.len() != "room_cc_6f"@.len());
    assert("room_field4"@.len() != "room_cc_6f"@.len());
    assert("room_field_checkersboss"@.len() != "room_cc_6f"@.len());
    assert("room_forest_area3"@.len() != "room_cc_6f"@.len());
    assert("room_forest_savepoint_relax"@.len() != "room_cc_6f"@.len());
    assert("room_forest_fightsusie"@.len() != "room_cc_6f"@.len());
    assert("room_forest_castlefront"@.len() != "room_cc_6f"@.len());
    assert("room_cc_prison_to_elevator"@.len() != "room_cc_6f"@.len());
    assert("room_field3"@.len() != "room_cc_6f"@.len());
    assert("room_forest_savepoint2"@.len() != "room_cc_6f"@.len());
    assert("room_cc_prison_prejoker"@.len() != "room_cc_6f"@.len());
    assert("room_cc_joker"@.len() != "room_cc_6f"@.len());
    assert forall|j: int| 0 <= j < 16 implies !(#[trigger] ch1_prevs()[j] == prev && ch1_curs()[j] == cur) by {
        if j == 0 {
            assert(ch1_prevs()[0] == "room_krisroom"@);
        } else if j == 1 {
            assert(ch1_prevs()[1] == "room_insidecloset"@);
        } else if j == 2 {
            assert(ch1_prevs()[2] == "room_dark7"@);
        } else if j == 3 {
            assert(ch1_prevs()[3] == "room_castle_darkdoor"@);
        } else if j == 4 {
            assert(ch1_prevs()[4] == "room_field4"@);
        } else if j == 5 {
            assert(ch1_prevs()[5] == "room_field_checkersboss"@);
        } else if j == 6 {
            assert(ch1_prevs()[6] == "room_forest_area3"@);
        } else if j == 7 {
            assert(ch1_prevs()[7] == "room_forest_savepoint_relax"@);
        } else if j == 8 {
            assert(ch1_prevs()[8] == "room_forest_fightsusie"@);
        } else if j == 9 {
            assert(ch1_prevs()[9] == "room_forest_castlefront"@);
        } else if j == 10 {
            assert(ch1_prevs()[10] == "room_cc_prison_to_elevator"@);
        } else if j == 11 {
            assert(ch1_prevs()[11] == "room_forest_fightsusie"@);
        } else if j == 12 {
            assert(ch1_prevs()[12] == "room_field3"@);
        } else if j == 13 {
            assert(ch1_prevs()[13] == "room_forest_savepoint2"@);
        } else if j == 14 {
            assert(ch1_prevs()[14] == "room_cc_prison_prejoker"@);
        } else if j == 15 {
            assert(ch1_prevs()[15] == "room_cc_joker"@);
        }
    }
    assert(ch1_prevs()[16] == prev && ch1_curs()[16] == cur && ch1_names()[16] == "ch1_exit_kround2"@);
    lemma_transition_first(ch1_prevs(), ch1_curs(), ch1_names(), prev, cur, 16);
}

proof fn ch1_row_17(raw_changed: bool, prev: Seq<char>, cur: Seq<char>, settings: Settings, inp: &TickInputs)
    requires
        raw_changed,
        prev == "room_cc_throneroom"@,
        cur == "room_cc_preroof"@,
    ensures
        spec_chapter_split(1, raw_changed, prev, cur, settings, inp) == "ch1_exit_throne_room"@,
{
    reveal_strlit("room_cc_throneroom");
    reveal_strlit("room_cc_prison_cells");
    reveal_strlit("room_krisroom");
    reveal_strlit("room_insidecloset");
    reveal_strlit("room_dark7");
    reveal_strlit("room_castle_darkdoor");
    reveal_strlit("room_field4");
    reveal_strlit("room_field_checkersboss");
    reveal_strlit("room_forest_area3");
    reveal_strlit("room_forest_savepoint_relax");
    reveal_strlit("room_forest_fightsusie");
    reveal_strlit("room_forest_castlefront");
    reveal_strlit("room_cc_prison_to_elevator");
    reveal_strlit("room_field3");
    reveal_strlit("room_forest_savepoint2");
    reveal_strlit("room_cc_prison_prejoker");
    reveal_strlit("room_cc_joker");
    reveal_strlit("room_cc_6f");
    assert("room_cc_throneroom"@.len() != "room_cc_prison_cells"@.len());
    assert("room_krisroom"@.len() != "room_cc_throneroom"@.len());
    assert("room_insidecloset"@.len() != "room_cc_throneroom"@.len());
    assert("room_dark7"@.len() != "room_cc_throneroom"@.len());
    assert("room_castle_darkdoor"@.len() != "room_cc_throneroom"@.len());
    assert("room_field4"@.len() != "room_cc_throneroom"@.len());
    assert("room_field_checkersboss"@.len() != "room_cc_throneroom"@.len());
    assert("room_forest_area3"@.len() != "room_cc_throneroom"@.len());
    assert("room_forest_savepoint_relax"@.len() != "room_cc_throneroom"@.len());
    assert("room_forest_fightsusie"@.len() != "room_cc_throneroom"@.len());
    assert("room_forest_castlefront"@.len() != "room_cc_throneroom"@.len());
    assert("room_cc_prison_to_elevator"@.len() != "room_cc_throneroom"@.len());
    assert("room_field3"@.len() != "room_cc_throneroom"@.len());
    assert("room_forest_savepoint2"@.len() != "room_cc_throneroom"@.len());
    assert("room_cc_prison_prejoker"@.len() != "room_cc_throneroom"@.len());
    assert("room_cc_joker"@.len() != "room_cc_throneroom"@.len());
    assert("room_cc_6f"@.len() != "room_cc_throneroom"@.len());
    assert forall|j: int| 0 <= j < 17 implies !(#[trigger] ch1_prevs()[j] == prev && ch1_curs()[j] == cur) by {
        if j == 0 {
            assert(ch1_prevs()[0] == "room_krisroom"@);
        } else if j == 1 {
            assert(ch1_prevs()[1] == "room_insidecloset"@);
        } else if j == 2 {
            assert(ch1_prevs()[2] == "room_dark7"@);
        } else if j == 3 {
            assert(ch1_prevs()[3] == "room_castle_darkdoor"@);
        } else if j == 4 {
            assert(ch1_prevs()[4] == "room_field4"@);
        } else if j == 5 {
            assert(ch1_prevs()[5] == "room_field_checkersboss"@);
        } else if j == 6 {
            assert(ch1_prevs()[6] == "room_forest_area3"@);
        } else if j == 7 {
            assert(ch1_prevs()[7] == "room_forest_savepoint_relax"@);
        } else if j == 8 {
            assert(ch1_prevs()[8] == "room_forest_fightsusie"@);
        } else if j == 9 {
            assert(ch1_prevs()[9] == "room_forest_castlefront"@);
        } else if j == 10 {
            assert(ch1_prevs()[10] == "room_cc_prison_to_elevator"@);
        } else if j == 11 {
            assert(ch1_prevs()[11] == "room_forest_fightsusie"@);
        } else if j == 12 {
            assert(ch1_prevs()[12] == "room_field3"@);
        } else if j == 13 {
            assert(ch1_prevs()[13] == "room_forest_savepoint2"@);
        } else if j == 14 {
            assert(ch1_prevs()[14] == "room_cc_prison_prejoker"@);
        } else if j == 15 {
            assert(ch1_prevs()[15] == "room_cc_joker"@);
        } else if j == 16 {
            assert(ch1_prevs()[16] == "room_cc_6f"@);
        }
    }
    assert(ch1_prevs()[17] == prev && ch1_curs()[17] == cur && ch1_names()[17] == "ch1_exit_throne_room"@);
    lemma_transition_first(ch1_prevs(), ch1_curs(), ch1_names(), prev, cur, 17);
}

proof fn ch1_row_18(raw_changed: bool, prev: Seq<char>, cur: Seq<char>, settings: Settings, inp: &TickInputs)
    requires
        raw_changed,
        prev == "room_cc_preroof"@,
        cur == "room_cc_kingbattle"@,
    ensures
        spec_chapter_split(1, raw_changed, prev, cur, settings, inp) == "ch1_exit_preking"@,
{
    reveal_strlit("room_cc_preroof");
    reveal_strlit("room_cc_prison_cells");
    reveal_strlit("room_krisroom");
    reveal_strlit("room_insidecloset");
    reveal_strlit("room_dark7");
    reveal_strlit("room_castle_darkdoor");
    reveal_strlit("room_field4");
    reveal_strlit("room_field_checkersboss");
    reveal_strlit("room_forest_area3");
    reveal_strlit("room_forest_savepoint_relax");
    reveal_strlit("room_forest_fightsusie");
    reveal_strlit("room_forest_castlefront");
    reveal_strlit("room_cc_prison_to_elevator");
    reveal_strlit("room_field3");
    reveal_strlit("room_forest_savepoint2");
    reveal_strlit("room_cc_prison_prejoker");
    reveal_strlit("room_cc_joker");
    reveal_strlit("room_cc_6f");
    reveal_strlit("room_cc_throneroom");
    assert("room_cc_preroof"@.len() != "room_cc_prison_cells"@.len());
    assert("room_krisroom"@.len() != "room_cc_preroof"@.len());
    assert("room_insidecloset"@.len() != "room_cc_preroof"@.len());
    assert("room_dark7"@.len() != "room_cc_preroof"@.len());
    assert("room_castle_darkdoor"@.len() != "room_cc_preroof"@.len());
    assert("room_field4"@.len() != "room_cc_preroof"@.len());
    assert("room_field_checkersboss"@.len() != "room_cc_preroof"@.len());
    assert("room_forest_area3"@.len() != "room_cc_preroof"@.len());
    assert("room_forest_savepoint_relax"@.len() != "room_cc_preroof"@.len());
    assert("room_forest_fightsusie"@.len() != "room_cc_preroof"@.len());
    assert("room_forest_castlefront"@.len() != "room_cc_preroof"@.len());
    assert("room_cc_prison_to_elevator"@.len() != "room_cc_preroof"@.len());
    assert("room_field3"@.len() != "room_cc_preroof"@.len());
    assert("room_forest_savepoint2"@.len() != "room_cc_preroof"@.len());
    assert("room_cc_prison_prejoker"@.len() != "room_cc_preroof"@.len());
    assert("room_cc_joker"@.len() != "room_cc_preroof"@.len());
    assert("room_cc_6f"@.len() != "room_cc_preroof"@.len());
    assert("room_cc_throneroom"@.len() != "room_cc_preroof"@.len());
    assert forall|j: int| 0 <= j < 18 implies !(#[trigger] ch1_prevs()[j] == prev && ch1_curs()[j] == cur) by {
        if j == 0 {
            assert(ch1_prevs()[0] == "room_krisroom"@);
        } else if j == 1 {
            assert(ch1_prevs()[1] == "room_insidecloset"@);
        } else if j == 2 {
            assert(ch1_prevs()[2] == "room_dark7"@);
        } else if j == 3 {
            assert(ch1_prevs()[3] == "room_castle_darkdoor"@);
        } else if j == 4 {
            assert(ch1_prevs()[4] == "room_field4"@);
        } else if j == 5 {
            assert(ch1_prevs()[5] == "room_field_checkersboss"@);
        } else if j == 6 {
            assert(ch1_prevs()[6] == "room_forest_area3"@);
        } else if j == 7 {
            assert(ch1_prevs()[7] == "room_forest_savepoint_relax"@);
        } else if j == 8 {
            assert(ch1_prevs()[8] == "room_forest_fightsusie"@);
        } else if j == 9 {
            assert(ch1_prevs()[9] == "room_forest_castlefront"@);
        } else if j == 10 {
            assert(ch1_prevs()[10] == "room_cc_prison_to_elevator"@);
        } else if j == 11 {
            assert(ch1_prevs()[11] == "room_forest_fightsusie"@);
        } else if j == 12 {
            assert(ch1_prevs()[12] == "room_field3"@);
        } else if j == 13 {
            assert(ch1_prevs()[13] == "room_forest_savepoint2"@);
        } else if j == 14 {
            assert(ch1_prevs()[14] == "room_cc_prison_prejoker"@);
        } else if j == 15 {
            assert(ch1_prevs()[15] == "room_cc_joker"@);
        } else if j == 16 {
            assert(ch1_prevs()[16] == "room_cc_6f"@);
        } else if j == 17 {
            assert(ch1_prevs()[17] == "room_cc_throneroom"@);
        }
    }
    assert(ch1_prevs()[18] == prev && ch1_curs()[18] == cur && ch1_names()[18] == "ch1_exit_preking"@);
    lemma_transition_first(ch1_prevs(), ch1_curs(), ch1_names(), prev, cur, 18);
}

proof fn ch1_row_19(raw_changed: bool, prev: Seq<char>, cur: Seq<char>, settings: Settings, inp: &TickInputs)
    requires
        raw_changed,
        prev == "room_cc_kingbattle"@,
        cur == "room_cc_prefountain"@,
    ensures
        spec_chapter_split(1, raw_changed, prev, cur, settings, inp) == "ch1_post_king"@,
{
    reveal_strlit("room_cc_kingbattle");
    reveal_strlit("room_cc_prison_cells");
    reveal_strlit("room_krisroom");
    reveal_strlit("room_insidecloset");
    reveal_strlit("room_dark7");
    reveal_strlit("room_castle_darkdoor");
    reveal_strlit("room_field4");
    reveal_strlit("room_field_checkersboss");
    reveal_strlit("room_forest_area3");
    reveal_strlit("room_forest_savepoint_relax");
    reveal_strlit("room_forest_fightsusie");
    reveal_strlit("room_forest_castlefront");
    reveal_strlit("room_cc_prison_to_elevator");
    reveal_strlit("room_field3");
    reveal_strlit("room_forest_savepoint2");
    reveal_strlit("room_cc_prison_prejoker");
    reveal_strlit("room_cc_joker");
    reveal_strlit("room_cc_6f");
    reveal_strlit("room_cc_throneroom");
    reveal_strlit("room_cc_preroof");
    assert("room_cc_kingbattle"@.len() != "room_cc_prison_cells"@.len());
    assert("room_krisroom"@.len() != "room_cc_kingbattle"@.len());
    assert("room_insidecloset"@.len() != "room_cc_kingbattle"@.len());
    assert("room_dark7"@.len() != "room_cc_kingbattle"@.len());
    assert("room_castle_darkdoor"@.len() != "room_cc_kingbattle"@.len());
    assert("room_field4"@.len() != "room_cc_kingbattle"@.len());
    assert("room_field_checkersboss"@.len() != "room_cc_kingbattle"@.len());
    assert("room_forest_area3"@.len() != "room_cc_kingbattle"@.len());
    assert("room_forest_savepoint_relax"@.len() != "room_cc_kingbattle"@.len());
    assert("room_forest_fightsusie"@.len() != "room_cc_kingbattle"@.len());
    assert("room_forest_castlefront"@.len() != "room_cc_kingbattle"@.len());
    assert("room_cc_prison_to_elevator"@.len() != "room_cc_kingbattle"@.len());
    assert("room_field3"@.len() != "room_cc_kingbattle"@.len());
    assert("room_forest_savepoint2"@.len() != "room_cc_kingbattle"@.len());
    assert("room_cc_prison_prejoker"@.len() != "room_cc_kingbattle"@.len());
    assert("room_cc_joker"@.len() != "room_cc_kingbattle"@.len());
    assert("room_cc_6f"@.len() != "room_cc_kingbattle"@.len());
    assert("room_cc_throneroom"@[8] != "room_cc_kingbattle"@[8]);
    assert("room_cc_preroof"@.len() != "room_cc_kingbattle"@.len());
    assert forall|j: int| 0 <= j < 19 implies !(#[trigger] ch1_prevs()[j] == prev && ch1_curs()[j] == cur) by {
        if j == 0 {
            assert(ch1_prevs()[0] == "room_krisroom"@);
        } else if j == 1 {
            assert(ch1_prevs()[1] == "room_insidecloset"@);
        } else if j == 2 {
            assert(ch1_prevs()[2] == "room_dark7"@);
        } else if j == 3 {
            assert(ch1_prevs()[3] == "room_castle_darkdoor"@);
        } else if j == 4 {
            assert(ch1_prevs()[4] == "room_field4"@);
        } else if j == 5 {
            assert(ch1_prevs()[5] == "room_field_checkersboss"@);
        } else if j == 6 {
            assert(ch1_prevs()[6] == "room_forest_area3"@);
        } else if j == 7 {
            assert(ch1_prevs()[7] == "room_forest_savepoint_relax"@);
        } else if j == 8 {
            assert(ch1_prevs()[8] == "room_forest_fightsusie"@);
        } else if j == 9 {
            assert(ch1_prevs()[9] == "room_forest_castlefront"@);
        } else if j == 10 {
            assert(ch1_prevs()[10] == "room_cc_prison_to_elevator"@);
        } else if j == 11 {
            assert(ch1_prevs()[11] == "room_forest_fightsusie"@);
        } else if j == 12 {
            assert(ch1_prevs()[12] == "room_field3"@);
        } else if j == 13 {
            assert(ch1_prevs()[13] == "room_forest_savepoint2"@);
        } else if j == 14 {
            assert(ch1_prevs()[14] == "room_cc_prison_prejoker"@);
        } else if j == 15 {
            assert(ch1_prevs()[15] == "room_cc_joker"@);
        } else if j == 16 {
            assert(ch1_prevs()[16] == "room_cc_6f"@);
        } else if j == 17 {
            assert(ch1_prevs()[17] == "room_cc_throneroom"@);
        } else if j == 18 {
            assert(ch1_prevs()[18] == "room_cc_preroof"@);
        }
    }
    assert(ch1_prevs()[19] == prev && ch1_curs()[19] == cur && ch1_names()[19] == "ch1_post_king"@);
    lemma_transition_first(ch1_prevs(), ch1_curs(), ch1_names(), prev, cur, 19);
}

proof fn ch1_row_20(raw_changed: bool, prev: Seq<char>, cur: Seq<char>, settings: Settings, inp: &TickInputs)
    requires
        raw_changed,
        prev == "room_cc_prefountain"@,
        cur == "room_cc_fountain"@,
    ensures
        spec_chapter_split(1, raw_changed, prev, cur, settings, inp) == "ch1_enter_fountain"@,
{
    reveal_strlit("room_cc_prefountain");
    reveal_strlit("room_cc_prison_cells");
    reveal_strlit("room_krisroom");
    reveal_strlit("room_insidecloset");
    reveal_strlit("room_dark7");
    reveal_strlit("room_castle_darkdoor");
    reveal_strlit("room_field4");
    reveal_strlit("room_field_checkersboss");
    reveal_strlit("room_forest_area3");
    reveal_strlit("room_forest_savepoint_relax");
    reveal_strlit("room_forest_fightsusie");
    reveal_strlit("room_forest_castlefront");
    reveal_strlit("room_cc_prison_to_elevator");
    reveal_strlit("room_field3");
    reveal_strlit("room_forest_savepoint2");
    reveal_strlit("room_cc_prison_prejoker");
    reveal_strlit("room_cc_joker");
    reveal_strlit("room_cc_6f");
    reveal_strlit("room_cc_throneroom");
    reveal_strlit("room_cc_preroof");
    reveal_strlit("room_cc_kingbattle");
    assert("room_cc_prefountain"@.len() != "room_cc_prison_cells"@.len());
    assert("room_krisroom"@.len() != "room_cc_prefountain"@.len());
    assert("room_insidecloset"@.len() != "room_cc_prefountain"@.len());
    assert("room_dark7"@.len() != "room_cc_prefountain"@.len());
    assert("room_castle_darkdoor"@.len() != "room_cc_prefountain"@.len());
    assert("room_field4"@.len() != "room_cc_prefountain"@.len());
    assert("room_field_checkersboss"@.len() != "room_cc_prefountain"@.len());
    assert("room_forest_area3"@.len() != "room_cc_prefountain"@.len());
    assert("room_forest_savepoint_relax"@.len() != "room_cc_prefountain"@.len());
    assert("room_forest_fightsusie"@.len() != "room_cc_prefountain"@.len());
    assert("room_forest_castlefront"@.len() != "room_cc_prefountain"@.len());
    assert("room_cc_prison_to_elevator"@.len() != "room_cc_prefountain"@.len());
    assert("room_field3"@.len() != "room_cc_prefountain"@.len());
    assert("room_forest_savepoint2"@.len() != "room_cc_prefountain"@.len());
    assert("room_cc_prison_prejoker"@.len() != "room_cc_prefountain"@.len());
    assert("room_cc_joker"@.len() != "room_cc_prefountain"@.len());
    assert("room_cc_6f"@.len() != "room_cc_prefountain"@.len());
    assert("room_cc_throneroom"@.len() != "room_cc_prefountain"@.len());
    assert("room_cc_preroof"@.len() != "room_cc_prefountain"@.len());
    assert("room_cc_kingbattle"@.len() != "room_cc_prefountain"@.len());
    assert forall|j: int| 0 <= j < 20 implies !(#[trigger] ch1_prevs()[j] == prev && ch1_curs()[j] == cur) by {
        if j == 0 {
            assert(ch1_prevs()[0] == "room_krisroom"@);
        } else if j == 1 {
            assert(ch1_prevs()[1] == "room_insidecloset"@);
        } else if j == 2 {
            assert(ch1_prevs()[2] == "room_dark7"@);
        } else if j == 3 {
            assert(ch1_prevs()[3] == "room_castle_darkdoor"@);
        } else if j == 4 {
            assert(ch1_prevs()[4] == "room_field4"@);
        } else if j == 5 {
            assert(ch1_prevs()[5] == "room_field_checkersboss"@);
        } else if j == 6 {
            assert(ch1_prevs()[6] == "room_forest_area3"@);
        } else if j == 7 {
            assert(ch1_prevs()[7] == "room_forest_savepoint_relax"@);
        } else if j == 8 {
            assert(ch1_prevs()[8] == "room_forest_fightsusie"@);
        } else if j == 9 {
            assert(ch1_prevs()[9] == "room_forest_castlefront"@);
        } else if j == 10 {
            assert(ch1_prevs()[10] == "room_cc_prison_to_elevator"@);
        } else if j == 11 {
            assert(ch1_prevs()[11] == "room_forest_fightsusie"@);
        } else if j == 12 {
            assert(ch1_prevs()[12] == "room_field3"@);
        } else if j == 13 {
            assert(ch1_prevs()[13] == "room_forest_savepoint2"@);
        } else if j == 14 {
            assert(ch1_prevs()[14] == "room_cc_prison_prejoker"@);
        } else if j == 15 {
            assert(ch1_prevs()[15] == "room_cc_joker"@);
        } else if j == 16 {
            assert(ch1_prevs()[16] == "room_cc_6f"@);
        } else if j == 17 {
            assert(ch1_prevs()[17] == "room_cc_throneroom"@);
        } else if j == 18 {
            assert(ch1_prevs()[18] == "room_cc_preroof"@);
        } else if j == 19 {
            assert(ch1_prevs()[19] == "room_cc_kingbattle"@);
        }
    }
    assert(ch1_prevs()[20] == prev && ch1_curs()[20] == cur && ch1_names()[20] == "ch1_enter_fountain"@);
    lemma_transition_first(ch1_prevs(), ch1_curs(), ch1_names(), prev, cur, 20);
}

proof fn ch1_row_21(raw_changed: bool, prev: Seq<char>, cur: Seq<char>, settings: Settings, inp: &TickInputs)
    requires
        raw_changed,
        prev == "room_cc_fountain"@,
        cur == "room_school_unusedroom"@,
    ensures
        spec_chapter_split(1, raw_changed, prev, cur, settings, inp) == "ch1_seal_fountain"@,
{
    reveal_strlit("room_cc_fountain");
    reveal_strlit("room_cc_prison_cells");
    reveal_strlit("room_krisroom");
    reveal_strlit("room_insidecloset");
    reveal_strlit("room_dark7");
    reveal_strlit("room_castle_darkdoor");
    reveal_strlit("room_field4");
    reveal_strlit("room_field_checkersboss");
    reveal_strlit("room_forest_area3");
    reveal_strlit("room_forest_savepoint_relax");
    reveal_strlit("room_forest_fightsusie");
    reveal_strlit("room_forest_castlefront");
    reveal_strlit("room_cc_prison_to_elevator");
    reveal_strlit("room_field3");
    reveal_strlit("room_forest_savepoint2");
    reveal_strlit("room_cc_prison_prejoker");
    reveal_strlit("room_cc_joker");
    reveal_strlit("room_cc_6f");
    reveal_strlit("room_cc_throneroom");
    reveal_strlit("room_cc_preroof");
    reveal_strlit("room_cc_kingbattle");
    reveal_strlit("room_cc_prefountain");
    assert("room_cc_fountain"@.len() != "room_cc_prison_cells"@.len());
    assert("room_krisroom"@.len() != "room_cc_fountain"@.len());
    assert("room_insidecloset"@.len() != "room_cc_fountain"@.len());
    assert("room_dark7"@.len() != "room_cc_fountain"@.len());
    assert("room_castle_darkdoor"@.len() != "room_cc_fountain"@.len());
    assert("room_field4"@.len() != "room_cc_fountain"@.len());
    assert("room_field_checkersboss"@.len() != "room_cc_fountain"@.len());
    assert("room_forest_area3"@.len() != "room_cc_fountain"@.len());
    assert("room_forest_savepoint_relax"@.len() != "room_cc_fountain"@.len());
    assert("room_forest_fightsusie"@.len() != "room_cc_fountain"@.len());
    assert("room_forest_castlefront"@.len() != "room_cc_fountain"@.len());
    assert("room_cc_prison_to_elevator"@.len() != "room_cc_fountain"@.len());
    assert("room_field3"@.len() != "room_cc_fountain"@.len());
    assert("room_forest_savepoint2"@.len() != "room_cc_fountain"@.len());
    assert("room_cc_prison_prejoker"@.len() != "room_cc_fountain"@.len());
    assert("room_cc_joker"@.len() != "room_cc_fountain"@.len());
    assert("room_cc_6f"@.len() != "room_cc_fountain"@.len());
    assert("room_cc_throneroom"@.len() != "room_cc_fountain"@.len());
    assert("room_cc_preroof"@.len() != "room_cc_fountain"@.len());
    assert("room_cc_kingbattle"@.len() != "room_cc_fountain"@.len());
    assert("room_cc_prefountain"@.len() != "room_cc_fountain"@.len());
    assert forall|j: int| 0 <= j < 21 implies !(#[trigger] ch1_prevs()[j] == prev && ch1_curs()[j] == cur) by {
        if j == 0 {
            assert(ch1_prevs()[0] == "room_krisroom"@);
        } else if j == 1 {
            assert(ch1_prevs()[1] == "room_insidecloset"@);
        } else if j == 2 {
            assert(ch1_prevs()[2] == "room_dark7"@);
        } else if j == 3 {
            assert(ch1_prevs()[3] == "room_castle_darkdoor"@);
        } else if j == 4 {
            assert(ch1_prevs()[4] == "room_field4"@);
        } else if j == 5 {
            assert(ch1_prevs()[5] == "room_field_checkersboss"@);
        } else if j == 6 {
            assert(ch1_prevs()[6] == "room_forest_area3"@);
        } else if j == 7 {
            assert(ch1_prevs()[7] == "room_forest_savepoint_relax"@);
        } else if j == 8 {
            assert(ch1_prevs()[8] == "room_forest_fightsusie"@);
        } else if j == 9 {
            assert(ch1_prevs()[9] == "room_forest_castlefront"@);
        } else if j == 10 {
            assert(ch1_prevs()[10] == "room_cc_prison_to_elevator"@);
        } else if j == 11 {
            assert(ch1_prevs()[11] == "room_forest_fightsusie"@);
        } else if j == 12 {
            assert(ch1_prevs()[12] == "room_field3"@);
        } else if j == 13 {
            assert(ch1_prevs()[13] == "room_forest_savepoint2"@);
        } else if j == 14 {
            assert(ch1_prevs()[14] == "room_cc_prison_prejoker"@);
        } else if j == 15 {
            assert(ch1_prevs()[15] == "room_cc_joker"@);
        } else if j == 16 {
            assert(ch1_prevs()[16] == "room_cc_6f"@);
        } else if j == 17 {
            assert(ch1_prevs()[17] == "room_cc_throneroom"@);
        } else if j == 18 {
            assert(ch1_prevs()[18] == "room_cc_preroof"@);
        } else if j == 19 {
            assert(ch1_prevs()[19] == "room_cc_kingbattle"@);
        } else if j == 20 {
            assert(ch1_prevs()[20] == "room_cc_prefountain"@);
        }
    }
    assert(ch1_prevs()[21] == prev && ch1_curs()[21] == cur && ch1_names()[21] == "ch1_seal_fountain"@);
    lemma_transition_first(ch1_prevs(), ch1_curs(), ch1_names(), prev, cur, 21);
}


proof fn ch2_row_0(raw_changed: bool, prev: Seq<char>, cur: Seq<char>, settings: Settings, inp: &TickInputs)
    requires
        prev == "room_krisroom"@,
        cur == "room_dw_cyber_intro_1"@,
    ensures
        spec_chapter_split(2, raw_changed, prev, cur, settings, inp) == "ch2_bedskip"@,
{
    reveal_strlit("room_krisroom");
    reveal_strlit("PLACE_MENU");
    reveal_strlit("room_dw_cyber_intro_1");
    reveal_strlit("room_dw_cyber_musical_door");
    assert("room_krisroom"@.len() != "PLACE_MENU"@.len());
    assert("room_krisroom"@.len() != "room_dw_cyber_intro_1"@.len());
    assert("room_krisroom"@.len() != "room_dw_cyber_musical_door"@.len());
    assert(ch2_prevs()[0] == prev && ch2_curs()[0] == cur && ch2_names()[0] == "ch2_bedskip"@);
    lemma_transition_first(ch2_prevs(), ch2_curs(), ch2_names(), prev, cur, 0);
}

proof fn ch2_row_1(raw_changed: bool, prev: Seq<char>, cur: Seq<char>, settings: Settings, inp: &TickInputs)
    requires
        prev == "room_library"@,
        cur == "room_dw_cyber_intro_1"@,
    ensures
        spec_chapter_split(2, raw_changed, prev, cur, settings, inp) == "ch2_library"@,
{
    reveal_strlit("room_library");
    reveal_strlit("PLACE_MENU");
    reveal_strlit("room_dw_cyber_intro_1");
    reveal_strlit("room_dw_cyber_musical_door");
    reveal_strlit("room_krisroom");
    assert("room_library"@.len() != "PLACE_MENU"@.len());
    assert("room_library"@.len() != "room_dw_cyber_intro_1"@.len());
    assert("room_library"@.len() != "room_dw_cyber_musical_door"@.len());
    assert("room_krisroom"@.len() != "room_library"@.len());
    assert forall|j: int| 0 <= j < 1 implies !(#[trigger] ch2_prevs()[j] == prev && ch2_curs()[j] == cur) by {
        if j == 0 {
            assert(ch2_prevs()[0] == "room_krisroom"@);
        }
    }
    assert(ch2_prevs()[1] == prev && ch2_curs()[1] == cur && ch2_names()[1] == "ch2_library"@);
    lemma_transition_first(ch2_prevs(), ch2_curs(), ch2_names(), prev, cur, 1);
}

proof fn ch2_row_2(raw_changed: bool, prev: Seq<char>, cur: Seq<char>, settings: Settings, inp: &TickInputs)
    requires
        prev == "room_dw_cyber_queen_boxing"@,
        cur == "room_dw_cyber_musical_door"@,
    ensures
        spec_chapter_split(2, raw_changed, prev, cur, settings, inp) == "ch2_arcade_room"@,
{
    reveal_strlit("room_dw_cyber_queen_boxing");
    reveal_strlit("PLACE_MENU");
    reveal_strlit("room_dw_cyber_musical_door");
    reveal_strlit("room_krisroom");
    reveal_strlit("room_library");
    assert("room_dw_cyber_queen_boxing"@.len() != "PLACE_MENU"@.len());
    assert("room_dw_cyber_queen_boxing"@[14] != "room_dw_cyber_musical_door"@[14]);
    assert("room_krisroom"@.len() != "room_dw_cyber_queen_boxing"@.len());
    assert("room_library"@.len() != "room_dw_cyber_queen_boxing"@.len());
    assert forall|j: int| 0 <= j < 2 implies !(#[trigger] ch2_prevs()[j] == prev && ch2_curs()[j] == cur) by {
        if j == 0 {
            assert(ch2_prevs()[0] == "room_krisroom"@);
        } else if j == 1 {
            assert(ch2_prevs()[1] == "room_library"@);
        }
    }
    assert(ch2_prevs()[2] == prev && ch2_curs()[2] == cur && ch2_names()[2] == "ch2_arcade_room"@);
    lemma_transition_first(ch2_prevs(), ch2_curs(), ch2_names(), prev, cur, 2);
}

proof fn ch2_row_3(raw_changed: bool, prev: Seq<char>, cur: Seq<char>, settings: Settings, inp: &TickInputs)
    requires
        prev == "room_dw_cyber_musical_door"@,
        cur == "room_dw_cyber_musical_shop"@,
    ensures
        spec_chapter_split(2, raw_changed, prev, cur, settings, inp) == "ch2_dj_shop"@,
{
    reveal_strlit("room_dw_cyber_musical_door");
    reveal_strlit("PLACE_MENU");
    reveal_strlit("room_dw_cyber_musical_shop");
    reveal_strlit("room_dw_city_intro");
    reveal_strlit("room_dw_mansion_entrance");
    reveal_strlit("room_krisroom");
    reveal_strlit("room_library");
    reveal_strlit("room_dw_cyber_queen_boxing");
    assert("room_dw_cyber_musical_door"@.len() != "PLACE_MENU"@.len());
    assert("room_dw_cyber_musical_door"@[22] != "room_dw_cyber_musical_shop"@[22]);
    assert("room_dw_cyber_musical_shop"@.len() != "room_dw_city_intro"@.len());
    assert("room_dw_cyber_musical_shop"@.len() != "room_dw_mansion_entrance"@.len());
    assert("room_krisroom"@.len() != "room_dw_cyber_musical_door"@.len());
    assert("room_library"@.len() != "room_dw_cyber_musical_door"@.len());
    assert("room_dw_cyber_queen_boxing"@[14] != "room_dw_cyber_musical_door"@[14]);
    assert forall|j: int| 0 <= j < 3 implies !(#[trigger] ch2_prevs()[j] == prev && ch2_curs()[j] == cur) by {
        if j == 0 {
            assert(ch2_prevs()[0] == "room_krisroom"@);
        } else if j == 1 {
            assert(ch2_prevs()[1] == "room_library"@);
        } else if j == 2 {
            assert(ch2_prevs()[2] == "room_dw_cyber_queen_boxing"@);
        }
    }
    assert(ch2_prevs()[3] == prev && ch2_curs()[3] == cur && ch2_names()[3] == "ch2_dj_shop"@);
    lemma_transition_first(ch2_prevs(), ch2_curs(), ch2_names(), prev, cur, 3);
}

proof fn ch2_row_4(raw_changed: bool, prev: Seq<char>, cur: Seq<char>, settings: Settings, inp: &TickInputs)
    requires
        prev == "room_dw_cyber_teacup_final"@,
        cur == "room_dw_cyber_rollercoaster"@,
    ensures
        spec_chapter_split(2, raw_changed, prev, cur, settings, inp) == "ch2_ragger2_room"@,
{
    reveal_strlit("room_dw_cyber_teacup_final");
    reveal_strlit("PLACE_MENU");
    reveal_strlit("room_dw_cyber_rollercoaster");
    reveal_strlit("room_dw_cyber_musical_door");
    reveal_strlit("room_krisroom");
    reveal_strlit("room_library");
    reveal_strlit("room_dw_cyber_queen_boxing");
    assert("room_dw_cyber_teacup_final"@.len() != "PLACE_MENU"@.len());
    assert("room_dw_cyber_teacup_final"@.len() != "room_dw_cyber_rollercoaster"@.len());
    assert("room_dw_cyber_teacup_final"@[14] != "room_dw_cyber_musical_door"@[14]);
    assert("room_krisroom"@.len() != "room_dw_cyber_teacup_final"@.len());
    assert("room_library"@.len() != "room_dw_cyber_teacup_final"@.len());
    assert("room_dw_cyber_queen_boxing"@[14] != "room_dw_cyber_teacup_final"@[14]);
    assert forall|j: int| 0 <= j < 4 implies !(#[trigger] ch2_prevs()[j] == prev && ch2_curs()[j] == cur) by {
        if j == 0 {
            assert(ch2_prevs()[0] == "room_krisroom"@);
        } else if j == 1 {
            assert(ch2_prevs()[1] == "room_library"@);
        } else if j == 2 {
            assert(ch2_prevs()[2] == "room_dw_cyber_queen_boxing"@);
        } else if j == 3 {
            assert(ch2_prevs()[3] == "room_dw_cyber_musical_door"@);
        }
    }
    assert(ch2_prevs()[4] == prev && ch2_curs()[4] == cur && ch2_names()[4] == "ch2_ragger2_room"@);
    lemma_transition_first(ch2_prevs(), ch2_curs(), ch2_names(), prev, cur, 4);
}

proof fn ch2_row_5(raw_changed: bool, prev: Seq<char>, cur: Seq<char>, settings: Settings, inp: &TickInputs)
    requires
        prev == "room_dw_city_intro"@,
        cur == "room_dw_cyber_musical_door"@,
    ensures
        spec_chapter_split(2, raw_changed, prev, cur, settings, inp) == "ch2_tz_cf_warp"@,
{
    reveal_strlit("room_dw_city_intro");
    reveal_strlit("PLACE_MENU");
    reveal_strlit("room_dw_cyber_musical_door");
    reveal_strlit("room_krisroom");
    reveal_strlit("room_library");
    reveal_strlit("room_dw_cyber_queen_boxing");
    reveal_strlit("room_dw_cyber_teacup_final");
    assert("room_dw_city_intro"@.len() != "PLACE_MENU"@.len());
    assert("room_dw_city_intro"@.len() != "room_dw_cyber_musical_door"@.len());
    assert("room_krisroom"@.len() != "room_dw_city_intro"@.len());
    assert("room_library"@.len() != "room_dw_city_intro"@.len());
    assert("room_dw_cyber_queen_boxing"@.len() != "room_dw_city_intro"@.len());
    assert("room_dw_cyber_teacup_final"@.len() != "room_dw_city_intro"@.len());
    assert forall|j: int| 0 <= j < 5 implies !(#[trigger] ch2_prevs()[j] == prev && ch2_curs()[j] == cur) by {
        if j == 0 {
            assert(ch2_prevs()[0] == "room_krisroom"@);
        } else if j == 1 {
            assert(ch2_prevs()[1] == "room_library"@);
        } else if j == 2 {
            assert(ch2_prevs()[2] == "room_dw_cyber_queen_boxing"@);
        } else if j == 3 {
            assert(ch2_prevs()[3] == "room_dw_cyber_musical_door"@);
        } else if j == 4 {
            assert(ch2_prevs()[4] == "room_dw_cyber_teacup_final"@);
        }
    }
    assert(ch2_prevs()[5] == prev && ch2_curs()[5] == cur && ch2_names()[5] == "ch2_tz_cf_warp"@);
    lemma_transition_first(ch2_prevs(), ch2_curs(), ch2_names(), prev, cur, 5);
}

proof fn ch2_row_6(raw_changed: bool, prev: Seq<char>, cur: Seq<char>, settings: Settings, inp: &TickInputs)
    requires
        prev == "room_dw_city_intro"@,
        cur == "room_dw_mansion_entrance"@,
    ensures
        spec_chapter_split(2, raw_changed, prev, cur, settings, inp) == "ch2_tz_m_warp"@,
{
    reveal_strlit("room_dw_city_intro");
    reveal_strlit("PLACE_MENU");
    reveal_strlit("room_dw_mansion_entrance");
    reveal_strlit("room_dw_cyber_musical_door");
    reveal_strlit("room_krisroom");
    reveal_strlit("room_library");
    reveal_strlit("room_dw_cyber_queen_boxing");
    reveal_strlit("room_dw_cyber_teacup_final");
    assert("room_dw_city_intro"@.len() != "PLACE_MENU"@.len());
    assert("room_dw_city_intro"@.len() != "room_dw_mansion_entrance"@.len());
    assert("room_dw_city_intro"@.len() != "room_dw_cyber_musical_door"@.len());
    assert("room_krisroom"@.len() != "room_dw_city_intro"@.len());
    assert("room_library"@.len() != "room_dw_city_intro"@.len());
    assert("room_dw_cyber_queen_boxing"@.len() != "room_dw_city_intro"@.len());
    assert("room_dw_cyber_teacup_final"@.len() != "room_dw_city_intro"@.len());
    assert("room_dw_cyber_musical_door"@.len() != "room_dw_mansion_entrance"@.len());
    assert forall|j: int| 0 <= j < 6 implies !(#[trigger] ch2_prevs()[j] == prev && ch2_curs()[j] == cur) by {
        if j == 0 {
            assert(ch2_prevs()[0] == "room_krisroom"@);
        } else if j == 1 {
            assert(ch2_prevs()[1] == "room_library"@);
        } else if j == 2 {
            assert(ch2_prevs()[2] == "room_dw_cyber_queen_boxing"@);
        } else if j == 3 {
            assert(ch2_prevs()[3] == "room_dw_cyber_musical_door"@);
        } else if j == 4 {
            assert(ch2_prevs()[4] == "room_dw_cyber_teacup_final"@);
        } else if j == 5 {
            assert(ch2_curs()[5] == "room_dw_cyber_musical_door"@);
        }
    }
    assert(ch2_prevs()[6] == prev && ch2_curs()[6] == cur && ch2_names()[6] == "ch2_tz_m_warp"@);
    lemma_transition_first(ch2_prevs(), ch2_curs(), ch2_names(), prev, cur, 6);
}

proof fn ch2_row_7(raw_changed: bool, prev: Seq<char>, cur: Seq<char>, settings: Settings, inp: &TickInputs)
    requires
        prev == "room_dw_mansion_entrance"@,
        cur == "room_dw_city_intro"@,
    ensures
        spec_chapter_split(2, raw_changed, prev, cur, settings, inp) == "ch2_m_tz_warp"@,
{
    reveal_strlit("room_dw_mansion_entrance");
    reveal_strlit("PLACE_MENU");
    reveal_strlit("room_dw_city_intro");
    reveal_strlit("room_dw_cyber_musical_door");
    reveal_strlit("room_krisroom");
    reveal_strlit("room_library");
    reveal_strlit("room_dw_cyber_queen_boxing");
    reveal_strlit("room_dw_cyber_teacup_final");
    assert("room_dw_mansion_entrance"@.len() != "PLACE_MENU"@.len());
    assert("room_dw_mansion_entrance"@.len() != "room_dw_city_intro"@.len());
    assert("room_dw_mansion_entrance"@.len() != "room_dw_cyber_musical_door"@.len());
    assert("room_krisroom"@.len() != "room_dw_mansion_entrance"@.len());
    assert("room_library"@.len() != "room_dw_mansion_entrance"@.len());
    assert("room_dw_cyber_queen_boxing"@.len() != "room_dw_mansion_entrance"@.len());
    assert("room_dw_cyber_teacup_final"@.len() != "room_dw_mansion_entrance"@.len());
    assert forall|j: int| 0 <= j < 7 implies !(#[trigger] ch2_prevs()[j] == prev && ch2_curs()[j] == cur) by {
        if j == 0 {
            assert(ch2_prevs()[0] == "room_krisroom"@);
        } else if j == 1 {
            assert(ch2_prevs()[1] == "room_library"@);
        } else if j == 2 {
            assert(ch2_prevs()[2] == "room_dw_cyber_queen_boxing"@);
        } else if j == 3 {
            assert(ch2_prevs()[3] == "room_dw_cyber_musical_door"@);
        } else if j == 4 {
            assert(ch2_prevs()[4] == "room_dw_cyber_teacup_final"@);
        } else if j == 5 {
            assert(ch2_prevs()[5] == "room_dw_city_intro"@);
        } else if j == 6 {
            assert(ch2_prevs()[6] == "room_dw_city_intro"@);
        }
    }
    assert(ch2_prevs()[7] == prev && ch2_curs()[7] == cur && ch2_names()[7] == "ch2_m_tz_warp"@);
    lemma_transition_first(ch2_prevs(), ch2_curs(), ch2_names(), prev, cur, 7);
}

proof fn ch2_row_8(raw_changed: bool, prev: Seq<char>, cur: Seq<char>, settings: Settings, inp: &TickInputs)
    requires
        prev == "room_dw_mansion_entrance"@,
        cur == "room_dw_cyber_musical_door"@,
    ensures
        spec_chapter_split(2, raw_changed, prev, cur, settings, inp) == "ch2_m_cf_warp"@,
{
    reveal_strlit("room_dw_mansion_entrance");
    reveal_strlit("PLACE_MENU");
    reveal_strlit("room_dw_cyber_musical_door");
    reveal_strlit("room_krisroom");
    reveal_strlit("room_library");
    reveal_strlit("room_dw_cyber_queen_boxing");
    reveal_strlit("room_dw_cyber_teacup_final");
    reveal_strlit("room_dw_city_intro");
    assert("room_dw_mansion_entrance"@.len() != "PLACE_MENU"@.len());
    assert("room_dw_mansion_entrance"@.len() != "room_dw_cyber_musical_door"@.len());
    assert("room_krisroom"@.len() != "room_dw_mansion_entrance"@.len());
    assert("room_library"@.len() != "room_dw_mansion_entrance"@.len());
    assert("room_dw_cyber_queen_boxing"@.len() != "room_dw_mansion_entrance"@.len());
    assert("room_dw_cyber_teacup_final"@.len() != "room_dw_mansion_entrance"@.len());
    assert("room_dw_city_intro"@.len() != "room_dw_mansion_entrance"@.len());
    assert("room_dw_city_intro"@.len() != "room_dw_cyber_musical_door"@.len());
    assert forall|j: int| 0 <= j < 8 implies !(#[trigger] ch2_prevs()[j] == prev && ch2_curs()[j] == cur) by {
        if j == 0 {
            assert(ch2_prevs()[0] == "room_krisroom"@);
        } else if j == 1 {
            assert(ch2_prevs()[1] == "room_library"@);
        } else if j == 2 {
            assert(ch2_prevs()[2] == "room_dw_cyber_queen_boxing"@);
        } else if j == 3 {
            assert(ch2_prevs()[3] == "room_dw_cyber_musical_door"@);
        } else if j == 4 {
            assert(ch2_prevs()[4] == "room_dw_cyber_teacup_final"@);
        } else if j == 5 {
            assert(ch2_prevs()[5] == "room_dw_city_intro"@);
        } else if j == 6 {
            assert(ch2_prevs()[6] == "room_dw_city_intro"@);
        } else if j == 7 {
            assert(ch2_curs()[7] == "room_dw_city_intro"@);
        }
    }
    assert(ch2_prevs()[8] == prev && ch2_curs()[8] == cur && ch2_names()[8] == "ch2_m_cf_warp"@);
    lemma_transition_first(ch2_prevs(), ch2_curs(), ch2_names(), prev, cur, 8);
}

proof fn ch2_row_9(raw_changed: bool, prev: Seq<char>, cur: Seq<char>, settings: Settings, inp: &TickInputs)
    requires
        prev == "room_dw_city_mice2"@,
        cur == "room_dw_city_cheesemaze"@,
    ensures
        spec_chapter_split(2, raw_changed, prev, cur, settings, inp) == "ch2_maus_2"@,
{
    reveal_strlit("room_dw_city_mice2");
    reveal_strlit("PLACE_MENU");
    reveal_strlit("room_dw_city_cheesemaze");
    reveal_strlit("room_dw_cyber_musical_door");
    reveal_strlit("room_krisroom");
    reveal_strlit("room_library");
    reveal_strlit("room_dw_cyber_queen_boxing");
    reveal_strlit("room_dw_cyber_teacup_final");
    reveal_strlit("room_dw_city_intro");
    reveal_strlit("room_dw_mansion_entrance");
    assert("room_dw_city_mice2"@.len() != "PLACE_MENU"@.len());
    assert("room_dw_city_mice2"@.len() != "room_dw_city_cheesemaze"@.len());
    assert("room_dw_city_mice2"@.len() != "room_dw_cyber_musical_door"@.len());
    assert("room_krisroom"@.len() != "room_dw_city_mice2"@.len());
    assert("room_library"@.len() != "room_dw_city_mice2"@.len());
    assert("room_dw_cyber_queen_boxing"@.len() != "room_dw_city_mice2"@.len());
    assert("room_dw_cyber_teacup_final"@.len() != "room_dw_city_mice2"@.len());
    assert("room_dw_city_intro"@[13] != "room_dw_city_mice2"@[13]);
    assert("room_dw_mansion_entrance"@.len() != "room_dw_city_mice2"@.len());
    assert forall|j: int| 0 <= j < 9 implies !(#[trigger] ch2_prevs()[j] == prev && ch2_curs()[j] == cur) by {
        if j == 0 {
            assert(ch2_prevs()[0] == "room_krisroom"@);
        } else if j == 1 {
            assert(ch2_prevs()[1] == "room_library"@);
        } else if j == 2 {
            assert(ch2_prevs()[2] == "room_dw_cyber_queen_boxing"@);
        } else if j == 3 {
            assert(ch2_prevs()[3] == "room_dw_cyber_musical_door"@);
        } else if j == 4 {
            assert(ch2_prevs()[4] == "room_dw_cyber_teacup_final"@);
        } else if j == 5 {
            assert(ch2_prevs()[5] == "room_dw_city_intro"@);
        } else if j == 6 {
            assert(ch2_prevs()[6] == "room_dw_city_intro"@);
        } else if j == 7 {
            assert(ch2_prevs()[7] == "room_dw_mansion_entrance"@);
        } else if j == 8 {
            assert(ch2_prevs()[8] == "room_dw_mansion_entrance"@);
        }
    }
    assert(ch2_prevs()[9] == prev && ch2_curs()[9] == cur && ch2_names()[9] == "ch2_maus_2"@);
    lemma_transition_first(ch2_prevs(), ch2_curs(), ch2_names(), prev, cur, 9);
}

proof fn ch2_row_10(raw_changed: bool, prev: Seq<char>, cur: Seq<char>, settings: Settings, inp: &TickInputs)
    requires
        prev == "room_dw_city_berdly"@,
        cur == "room_dw_city_poppup"@,
    ensures
        spec_chapter_split(2, raw_changed, prev, cur, settings, inp) == "ch2_sideb_berdly2"@,
{
    reveal_strlit("room_dw_city_berdly");
    reveal_strlit("PLACE_MENU");
    reveal_strlit("room_dw_city_poppup");
    reveal_strlit("room_dw_cyber_musical_door");
    reveal_strlit("room_krisroom");
    reveal_strlit("room_library");
    reveal_strlit("room_dw_cyber_queen_boxing");
    reveal_strlit("room_dw_cyber_teacup_final");
    reveal_strlit("room_dw_city_intro");
    reveal_strlit("room_dw_mansion_entrance");
    reveal_strlit("room_dw_city_mice2");
    assert("room_dw_city_berdly"@.len() != "PLACE_MENU"@.len());
    assert("room_dw_city_berdly"@[13] != "room_dw_city_poppup"@[13]);
    assert("room_dw_city_berdly"@.len() != "room_dw_cyber_musical_door"@.len());
    assert("room_krisroom"@.len() != "room_dw_city_berdly"@.len());
    assert("room_library"@.len() != "room_dw_city_berdly"@.len());
    assert("room_dw_cyber_queen_boxing"@.len() != "room_dw_city_berdly"@.len());
    assert("room_dw_cyber_teacup_final"@.len() != "room_dw_city_berdly"@.len());
    assert("room_dw_city_intro"@.len() != "room_dw_city_berdly"@.len());
    assert("room_dw_mansion_entrance"@.len() != "room_dw_city_berdly"@.len());
    assert("room_dw_city_mice2"@.len() != "room_dw_city_berdly"@.len());
    assert forall|j: int| 0 <= j < 10 implies !(#[trigger] ch2_prevs()[j] == prev && ch2_curs()[j] == cur) by {
        if j == 0 {
            assert(ch2_prevs()[0] == "room_krisroom"@);
        } else if j == 1 {
            assert(ch2_prevs()[1] == "room_library"@);
        } else if j == 2 {
            assert(ch2_prevs()[2] == "room_dw_cyber_queen_boxing"@);
        } else if j == 3 {
            assert(ch2_prevs()[3] == "room_dw_cyber_musical_door"@);
        } else if j == 4 {
            assert(ch2_prevs()[4] == "room_dw_cyber_teacup_final"@);
        } else if j == 5 {
            assert(ch2_prevs()[5] == "room_dw_city_intro"@);
        } else if j == 6 {
            assert(ch2_prevs()[6] == "room_dw_city_intro"@);
        } else if j == 7 {
            assert(ch2_prevs()[7] == "room_dw_mansion_entrance"@);
        } else if j == 8 {
            assert(ch2_prevs()[8] == "room_dw_mansion_entrance"@);
        } else if j == 9 {
            assert(ch2_prevs()[9] == "room_dw_city_mice2"@);
        }
    }
    assert(ch2_prevs()[10] == prev && ch2_curs()[10] == cur && ch2_names()[10] == "ch2_sideb_berdly2"@);
    lemma_transition_first(ch2_prevs(), ch2_curs(), ch2_names(), prev, cur, 10);
}

proof fn ch2_row_11(raw_changed: bool, prev: Seq<char>, cur: Seq<char>, settings: Settings, inp: &TickInputs)
    requires
        prev == "room_dw_city_berdly"@,
        cur == "room_dw_city_traffic_4"@,
    ensures
        spec_chapter_split(2, raw_changed, prev, cur, settings, inp) == "ch2_berdly2_mr"@,
{
    reveal_strlit("room_dw_city_berdly");
    reveal_strlit("PLACE_MENU");
    reveal_strlit("room_dw_city_traffic_4");
    reveal_strlit("room_dw_cyber_musical_door");
    reveal_strlit("room_krisroom");
    reveal_strlit("room_library");
    reveal_strlit("room_dw_cyber_queen_boxing");
    reveal_strlit("room_dw_cyber_teacup_final");
    reveal_strlit("room_dw_city_intro");
    reveal_strlit("room_dw_mansion_entrance");
    reveal_strlit("room_dw_city_mice2");
    reveal_strlit("room_dw_city_poppup");
    assert("room_dw_city_berdly"@.len() != "PLACE_MENU"@.len());
    assert("room_dw_city_berdly"@.len() != "room_dw_city_traffic_4"@.len());
    assert("room_dw_city_berdly"@.len() != "room_dw_cyber_musical_door"@.len());
    assert("room_krisroom"@.len() != "room_dw_city_berdly"@.len());
    assert("room_library"@.len() != "room_dw_city_berdly"@.len());
    assert("room_dw_cyber_queen_boxing"@.len() != "room_dw_city_berdly"@.len());
    assert("room_dw_cyber_teacup_final"@.len() != "room_dw_city_berdly"@.len());
    assert("room_dw_city_intro"@.len() != "room_dw_city_berdly"@.len());
    assert("room_dw_mansion_entrance"@.len() != "room_dw_city_berdly"@.len());
    assert("room_dw_city_mice2"@.len() != "room_dw_city_berdly"@.len());
    assert("room_dw_city_poppup"@.len() != "room_dw_city_traffic_4"@.len());
    assert forall|j: int| 0 <= j < 11 implies !(#[trigger] ch2_prevs()[j] == prev && ch2_curs()[j] == cur) by {
        if j == 0 {
            assert(ch2_prevs()[0] == "room_krisroom"@);
        } else if j == 1 {
            assert(ch2_prevs()[1] == "room_library"@);
        } else if j == 2 {
            assert(ch2_prevs()[2] == "room_dw_cyber_queen_boxing"@);
        } else if j == 3 {
            assert(ch2_prevs()[3] == "room_dw_cyber_musical_door"@);
        } else if j == 4 {
            assert(ch2_prevs()[4] == "room_dw_cyber_teacup_final"@);
        } else if j == 5 {
            assert(ch2_prevs()[5] == "room_dw_city_intro"@);
        } else if j == 6 {
            assert(ch2_prevs()[6] == "room_dw_city_intro"@);
        } else if j == 7 {
            assert(ch2_prevs()[7] == "room_dw_mansion_entrance"@);
        } else if j == 8 {
            assert(ch2_prevs()[8] == "room_dw_mansion_entrance"@);
        } else if j == 9 {
            assert(ch2_prevs()[9] == "room_dw_city_mice2"@);
        } else if j == 10 {
            assert(ch2_curs()[10] == "room_dw_city_poppup"@);
        }
    }
    assert(ch2_prevs()[11] == prev && ch2_curs()[11] == cur && ch2_names()[11] == "ch2_berdly2_mr"@);
    lemma_transition_first(ch2_prevs(), ch2_curs(), ch2_names(), prev, cur, 11);
}

proof fn ch2_row_12(raw_changed: bool, prev: Seq<char>, cur: Seq<char>, settings: Settings, inp: &TickInputs)
    requires
        prev == "room_dw_city_spamton_alley"@,
        cur == "room_dw_city_traffic_4"@,
    ensures
        spec_chapter_split(2, raw_changed, prev, cur, settings, inp) == "ch2_spamton_room"@,
{
    reveal_strlit("room_dw_city_spamton_alley");
    reveal_strlit("PLACE_MENU");
    reveal_strlit("room_dw_city_traffic_4");
    reveal_strlit("room_dw_cyber_musical_door");
    reveal_strlit("room_krisroom");
    reveal_strlit("room_library");
    reveal_strlit("room_dw_cyber_queen_boxing");
    reveal_strlit("room_dw_cyber_teacup_final");
    reveal_strlit("room_dw_city_intro");
    reveal_strlit("room_dw_mansion_entrance");
    reveal_strlit("room_dw_city_mice2");
    reveal_strlit("room_dw_city_berdly");
    assert("room_dw_city_spamton_alley"@.len() != "PLACE_MENU"@.len());
    assert("room_dw_city_spamton_alley"@.len() != "room_dw_city_traffic_4"@.len());
    assert("room_dw_city_spamton_alley"@[9] != "room_dw_cyber_musical_door"@[9]);
    assert("room_krisroom"@.len() != "room_dw_city_spamton_alley"@.len());
    assert("room_library"@.len() != "room_dw_city_spamton_alley"@.len());
    assert("room_dw_cyber_queen_boxing"@[9] != "room_dw_city_spamton_alley"@[9]);
    assert("room_dw_cyber_teacup_final"@[9] != "room_dw_city_spamton_alley"@[9]);
    assert("room_dw_city_intro"@.len() != "room_dw_city_spamton_alley"@.len());
    assert("room_dw_mansion_entrance"@.len() != "room_dw_city_spamton_alley"@.len());
    assert("room_dw_city_mice2"@.len() != "room_dw_city_spamton_alley"@.len());
    assert("room_dw_city_berdly"@.len() != "room_dw_city_spamton_alley"@.len());
    assert forall|j: int| 0 <= j < 12 implies !(#[trigger] ch2_prevs()[j] == prev && ch2_curs()[j] == cur) by {
        if j == 0 {
            assert(ch2_prevs()[0] == "room_krisroom"@);
        } else if j == 1 {
            assert(ch2_prevs()[1] == "room_library"@);
        } else if j == 2 {
            assert(ch2_prevs()[2] == "room_dw_cyber_queen_boxing"@);
        } else if j == 3 {
            assert(ch2_prevs()[3] == "room_dw_cyber_musical_door"@);
        } else if j == 4 {
            assert(ch2_prevs()[4] == "room_dw_cyber_teacup_final"@);
        } else if j == 5 {
            assert(ch2_prevs()[5] == "room_dw_city_intro"@);
        } else if j == 6 {
            assert(ch2_prevs()[6] == "room_dw_city_intro"@);
        } else if j == 7 {
            assert(ch2_prevs()[7] == "room_dw_mansion_entrance"@);
        } else if j == 8 {
            assert(ch2_prevs()[8] == "room_dw_mansion_entrance"@);
        } else if j == 9 {
            assert(ch2_prevs()[9] == "room_dw_city_mice2"@);
        } else if j == 10 {
            assert(ch2_prevs()[10] == "room_dw_city_berdly"@);
        } else if j == 11 {
            assert(ch2_prevs()[11] == "room_dw_city_berdly"@);
        }
    }
    assert(ch2_prevs()[12] == prev && ch2_curs()[12] == cur && ch2_names()[12] == "ch2_spamton_room"@);
    lemma_transition_first(ch2_prevs(), ch2_curs(), ch2_names(), prev, cur, 12);
}

proof fn ch2_row_13(raw_changed: bool, prev: Seq<char>, cur: Seq<char>, settings: Settings, inp: &TickInputs)
    requires
        prev == "room_dw_city_mansion_front"@,
        cur == "room_dw_mansion_krisroom"@,
    ensures
        spec_chapter_split(2, raw_changed, prev, cur, settings, inp) == "ch2_cyber_city"@,
{
    reveal_strlit("room_dw_city_mansion_front");
    reveal_strlit("PLACE_MENU");
    reveal_strlit("room_dw_mansion_krisroom");
    reveal_strlit("room_dw_cyber_musical_door");
    reveal_strlit("room_krisroom");
    reveal_strlit("room_library");
    reveal_strlit("room_dw_cyber_queen_boxing");
    reveal_strlit("room_dw_cyber_teacup_final");
    reveal_strlit("room_dw_city_intro");
    reveal_strlit("room_dw_mansion_entrance");
    reveal_strlit("room_dw_city_mice2");
    reveal_strlit("room_dw_city_berdly");
    reveal_strlit("room_dw_city_spamton_alley");
    assert("room_dw_city_mansion_front"@.len() != "PLACE_MENU"@.len());
    assert("room_dw_city_mansion_front"@.len() != "room_dw_mansion_krisroom"@.len());
    assert("room_dw_city_mansion_front"@[9] != "room_dw_cyber_musical_door"@[9]);
    assert("room_krisroom"@.len() != "room_dw_city_mansion_front"@.len());
    assert("room_library"@.len() != "room_dw_city_mansion_front"@.len());
    assert("room_dw_cyber_queen_boxing"@[9] != "room_dw_city_mansion_front"@[9]);
    assert("room_dw_cyber_teacup_final"@[9] != "room_dw_city_mansion_front"@[9]);
    assert("room_dw_city_intro"@.len() != "room_dw_city_mansion_front"@.len());
    assert("room_dw_mansion_entrance"@.len() != "room_dw_city_mansion_front"@.len());
    assert("room_dw_city_mice2"@.len() != "room_dw_city_mansion_front"@.len());
    assert("room_dw_city_berdly"@.len() != "room_dw_city_mansion_front"@.len());
    assert("room_dw_city_spamton_alley"@[13] != "room_dw_city_mansion_front"@[13]);
    assert forall|j: int| 0 <= j < 13 implies !(#[trigger] ch2_prevs()[j] == prev && ch2_curs()[j] == cur) by {
        if j == 0 {
            assert(ch2_prevs()[0] == "room_krisroom"@);
        } else if j == 1 {
            assert(ch2_prevs()[1] == "room_library"@);
        } else if j == 2 {
            assert(ch2_prevs()[2] == "room_dw_cyber_queen_boxing"@);
        } else if j == 3 {
            assert(ch2_prevs()[3] == "room_dw_cyber_musical_door"@);
        } else if j == 4 {
            assert(ch2_prevs()[4] == "room_dw_cyber_teacup_final"@);
        } else if j == 5 {
            assert(ch2_prevs()[5] == "room_dw_city_intro"@);
        } else if j == 6 {
            assert(ch2_prevs()[6] == "room_dw_city_intro"@);
        } else if j == 7 {
            assert(ch2_prevs()[7] == "room_dw_mansion_entrance"@);
        } else if j == 8 {
            assert(ch2_prevs()[8] == "room_dw_mansion_entrance"@);
        } else if j == 9 {
            assert(ch2_prevs()[9] == "room_dw_city_mice2"@);
        } else if j == 10 {
            assert(ch2_prevs()[10] == "room_dw_city_berdly"@);
        } else if j == 11 {
            assert(ch2_prevs()[11] == "room_dw_city_berdly"@);
        } else if j == 12 {
            assert(ch2_prevs()[12] == "room_dw_city_spamton_alley"@);
        }
    }
    assert(ch2_prevs()[13] == prev && ch2_curs()[13] == cur && ch2_names()[13] == "ch2_cyber_city"@);
    lemma_transition_first(ch2_prevs(), ch2_curs(), ch2_names(), prev, cur, 13);
}

proof fn ch2_row_14(raw_changed: bool, prev: Seq<char>, cur: Seq<char>, settings: Settings, inp: &TickInputs)
    requires
        prev == "room_dw_mansion_dining_a"@,
        cur == "room_dw_mansion_entrance"@,
    ensures
        spec_chapter_split(2, raw_changed, prev, cur, settings, inp) == "ch2_mansion_escape"@,
{
    reveal_strlit("room_dw_mansion_dining_a");
    reveal_strlit("PLACE_MENU");
    reveal_strlit("room_dw_mansion_entrance");
    reveal_strlit("room_dw_cyber_musical_door");
    reveal_strlit("room_krisroom");
    reveal_strlit("room_library");
    reveal_strlit("room_dw_cyber_queen_boxing");
    reveal_strlit("room_dw_cyber_teacup_final");
    reveal_strlit("room_dw_city_intro");
    reveal_strlit("room_dw_city_mice2");
    reveal_strlit("room_dw_city_berdly");
    reveal_strlit("room_dw_city_spamton_alley");
    reveal_strlit("room_dw_city_mansion_front");
    assert("room_dw_mansion_dining_a"@.len() != "PLACE_MENU"@.len());
    assert("room_dw_mansion_dining_a"@[16] != "room_dw_mansion_entrance"@[16]);
    assert("room_dw_mansion_dining_a"@.len() != "room_dw_cyber_musical_door"@.len());
    assert("room_krisroom"@.len() != "room_dw_mansion_dining_a"@.len());
    assert("room_library"@.len() != "room_dw_mansion_dining_a"@.len());
    assert("room_dw_cyber_queen_boxing"@.len() != "room_dw_mansion_dining_a"@.len());
    assert("room_dw_cyber_teacup_final"@.len() != "room_dw_mansion_dining_a"@.len());
    assert("room_dw_city_intro"@.len() != "room_dw_mansion_dining_a"@.len());
    assert("room_dw_city_mice2"@.len() != "room_dw_mansion_dining_a"@.len());
    assert("room_dw_city_berdly"@.len() != "room_dw_mansion_dining_a"@.len());
    assert("room_dw_city_spamton_alley"@.len() != "room_dw_mansion_dining_a"@.len());
    assert("room_dw_city_mansion_front"@.len() != "room_dw_mansion_dining_a"@.len());
    assert forall|j: int| 0 <= j < 14 implies !(#[trigger] ch2_prevs()[j] == prev && ch2_curs()[j] == cur) by {
        if j == 0 {
            assert(ch2_prevs()[0] == "room_krisroom"@);
        } else if j == 1 {
            assert(ch2_prevs()[1] == "room_library"@);
        } else if j == 2 {
            assert(ch2_prevs()[2] == "room_dw_cyber_queen_boxing"@);
        } else if j == 3 {
            assert(ch2_prevs()[3] == "room_dw_cyber_musical_door"@);
        } else if j == 4 {
            assert(ch2_prevs()[4] == "room_dw_cyber_teacup_final"@);
        } else if j == 5 {
            assert(ch2_prevs()[5] == "room_dw_city_intro"@);
        } else if j == 6 {
            assert(ch2_prevs()[6] == "room_dw_city_intro"@);
        } else if j == 7 {
            assert(ch2_prevs()[7] == "room_dw_mansion_entrance"@);
        } else if j == 8 {
            assert(ch2_prevs()[8] == "room_dw_mansion_entrance"@);
        } else if j == 9 {
            assert(ch2_prevs()[9] == "room_dw_city_mice2"@);
        } else if j == 10 {
            assert(ch2_prevs()[10] == "room_dw_city_berdly"@);
        } else if j == 11 {
            assert(ch2_prevs()[11] == "room_dw_city_berdly"@);
        } else if j == 12 {
            assert(ch2_prevs()[12] == "room_dw_city_spamton_alley"@);
        } else if j == 13 {
            assert(ch2_prevs()[13] == "room_dw_city_mansion_front"@);
        }
    }
    assert(ch2_prevs()[14] == prev && ch2_curs()[14] == cur && ch2_names()[14] == "ch2_mansion_escape"@);
    lemma_transition_first(ch2_prevs(), ch2_curs(), ch2_names(), prev, cur, 14);
}

proof fn ch2_row_15(raw_changed: bool, prev: Seq<char>, cur: Seq<char>, settings: Settings, inp: &TickInputs)
    requires
        prev == "room_dw_mansion_entrance"@,
        cur == "room_dw_mansion_fire_paintings"@,
    ensures
        spec_chapter_split(2, raw_changed, prev, cur, settings, inp) == "ch2_start_pandora"@,
{
    reveal_strlit("room_dw_mansion_entrance");
    reveal_strlit("PLACE_MENU");
    reveal_strlit("room_dw_mansion_fire_paintings");
    reveal_strlit("room_dw_cyber_musical_door");
    reveal_strlit("room_krisroom");
    reveal_strlit("room_library");
    reveal_strlit("room_dw_cyber_queen_boxing");
    reveal_strlit("room_dw_cyber_teacup_final");
    reveal_strlit("room_dw_city_intro");
    reveal_strlit("room_dw_city_mice2");
    reveal_strlit("room_dw_city_berdly");
    reveal_strlit("room_dw_city_spamton_alley");
    reveal_strlit("room_dw_city_mansion_front");
    reveal_strlit("room_dw_mansion_dining_a");
    assert("room_dw_mansion_entrance"@.len() != "PLACE_MENU"@.len());
    assert("room_dw_mansion_entrance"@.len() != "room_dw_mansion_fire_paintings"@.len());
    assert("room_dw_mansion_entrance"@.len() != "room_dw_cyber_musical_door"@.len());
    assert("room_krisroom"@.len() != "room_dw_mansion_entrance"@.len());
    assert("room_library"@.len() != "room_dw_mansion_entrance"@.len());
    assert("room_dw_cyber_queen_boxing"@.len() != "room_dw_mansion_entrance"@.len());
    assert("room_dw_cyber_teacup_final"@.len() != "room_dw_mansion_entrance"@.len());
    assert("room_dw_city_intro"@.len() != "room_dw_mansion_entrance"@.len());
    assert("room_dw_city_intro"@.len() != "room_dw_mansion_fire_paintings"@.len());
    assert("room_dw_cyber_musical_door"@.len() != "room_dw_mansion_fire_paintings"@.len());
    assert("room_dw_city_mice2"@.len() != "room_dw_mansion_entrance"@.len());
    assert("room_dw_city_berdly"@.len() != "room_dw_mansion_entrance"@.len());
    assert("room_dw_city_spamton_alley"@.len() != "room_dw_mansion_entrance"@.len());
    assert("room_dw_city_mansion_front"@.len() != "room_dw_mansion_entrance"@.len());
    assert("room_dw_mansion_dining_a"@[16] != "room_dw_mansion_entrance"@[16]);
    assert forall|j: int| 0 <= j < 15 implies !(#[trigger] ch2_prevs()[j] == prev && ch2_curs()[j] == cur) by {
        if j == 0 {
            assert(ch2_prevs()[0] == "room_krisroom"@);
        } else if j == 1 {
            assert(ch2_prevs()[1] == "room_library"@);
        } else if j == 2 {
            assert(ch2_prevs()[2] == "room_dw_cyber_queen_boxing"@);
        } else if j == 3 {
            assert(ch2_prevs()[3] == "room_dw_cyber_musical_door"@);
        } else if j == 4 {
            assert(ch2_prevs()[4] == "room_dw_cyber_teacup_final"@);
        } else if j == 5 {
            assert(ch2_prevs()[5] == "room_dw_city_intro"@);
        } else if j == 6 {
            assert(ch2_prevs()[6] == "room_dw_city_intro"@);
        } else if j == 7 {
            assert(ch2_curs()[7] == "room_dw_city_intro"@);
        } else if j == 8 {
            assert(ch2_curs()[8] == "room_dw_cyber_musical_door"@);
        } else if j == 9 {
            assert(ch2_prevs()[9] == "room_dw_city_mice2"@);
        } else if j == 10 {
            assert(ch2_prevs()[10] == "room_dw_city_berdly"@);
        } else if j == 11 {
            assert(ch2_prevs()[11] == "room_dw_city_berdly"@);
        } else if j == 12 {
            assert(ch2_prevs()[12] == "room_dw_city_spamton_alley"@);
        } else if j == 13 {
            assert(ch2_prevs()[13] == "room_dw_city_mansion_front"@);
        } else if j == 14 {
            assert(ch2_prevs()[14] == "room_dw_mansion_dining_a"@);
        }
    }
    assert(ch2_prevs()[15] == prev && ch2_curs()[15] == cur && ch2_names()[15] == "ch2_start_pandora"@);
    lemma_transition_first(ch2_prevs(), ch2_curs(), ch2_names(), prev, cur, 15);
}

proof fn ch2_row_16(raw_changed: bool, prev: Seq<char>, cur: Seq<char>, settings: Settings, inp: &TickInputs)
    requires
        prev == "room_dw_mansion_tasquePaintings"@,
        cur == "room_dw_mansion_traffic"@,
    ensures
        spec_chapter_split(2, raw_changed, prev, cur, settings, inp) == "ch2_tasque_manager_room"@,
{
    reveal_strlit("room_dw_mansion_tasquePaintings");
    reveal_strlit("PLACE_MENU");
    reveal_strlit("room_dw_mansion_traffic");
    reveal_strlit("room_dw_cyber_musical_door");
    reveal_strlit("room_krisroom");
    reveal_strlit("room_library");
    reveal_strlit("room_dw_cyber_queen_boxing");
    reveal_strlit("room_dw_cyber_teacup_final");
    reveal_strlit("room_dw_city_intro");
    reveal_strlit("room_dw_mansion_entrance");
    reveal_strlit("room_dw_city_mice2");
    reveal_strlit("room_dw_city_berdly");
    reveal_strlit("room_dw_city_spamton_alley");
    reveal_strlit("room_dw_city_mansion_front");
    reveal_strlit("room_dw_mansion_dining_a");
    assert("room_dw_mansion_tasquePaintings"@.len() != "PLACE_MENU"@.len());
    assert("room_dw_mansion_tasquePaintings"@.len() != "room_dw_mansion_traffic"@.len());
    assert("room_dw_mansion_tasquePaintings"@.len() != "room_dw_cyber_musical_door"@.len());
    assert("room_krisroom"@.len() != "room_dw_mansion_tasquePaintings"@.len());
    assert("room_library"@.len() != "room_dw_mansion_tasquePaintings"@.len());
    assert("room_dw_cyber_queen_boxing"@.len() != "room_dw_mansion_tasquePaintings"@.len());
    assert("room_dw_cyber_teacup_final"@.len() != "room_dw_mansion_tasquePaintings"@.len());
    assert("room_dw_city_intro"@.len() != "room_dw_mansion_tasquePaintings"@.len());
    assert("room_dw_mansion_entrance"@.len() != "room_dw_mansion_tasquePaintings"@.len());
    assert("room_dw_city_mice2"@.len() != "room_dw_mansion_tasquePaintings"@.len());
    assert("room_dw_city_berdly"@.len() != "room_dw_mansion_tasquePaintings"@.len());
    assert("room_dw_city_spamton_alley"@.len() != "room_dw_mansion_tasquePaintings"@.len());
    assert("room_dw_city_mansion_front"@.len() != "room_dw_mansion_tasquePaintings"@.len());
    assert("room_dw_mansion_dining_a"@.len() != "room_dw_mansion_tasquePaintings"@.len());
    assert forall|j: int| 0 <= j < 16 implies !(#[trigger] ch2_prevs()[j] == prev && ch2_curs()[j] == cur) by {
        if j == 0 {
            assert(ch2_prevs()[0] == "room_krisroom"@);
        } else if j == 1 {
            assert(ch2_prevs()[1] == "room_library"@);
        } else if j == 2 {
            assert(ch2_prevs()[2] == "room_dw_cyber_queen_boxing"@);
        } else if j == 3 {
            assert(ch2_prevs()[3] == "room_dw_cyber_musical_door"@);
        } else if j == 4 {
            assert(ch2_prevs()[4] == "room_dw_cyber_teacup_final"@);
        } else if j == 5 {
            assert(ch2_prevs()[5] == "room_dw_city_intro"@);
        } else if j == 6 {
            assert(ch2_prevs()[6] == "room_dw_city_intro"@);
        } else if j == 7 {
            assert(ch2_prevs()[7] == "room_dw_mansion_entrance"@);
        } else if j == 8 {
            assert(ch2_prevs()[8] == "room_dw_mansion_entrance"@);
        } else if j == 9 {
            assert(ch2_prevs()[9] == "room_dw_city_mice2"@);
        } else if j == 10 {
            assert(ch2_prevs()[10] == "room_dw_city_berdly"@);
        } else if j == 11 {
            assert(ch2_prevs()[11] == "room_dw_city_berdly"@);
        } else if j == 12 {
            assert(ch2_prevs()[12] == "room_dw_city_spamton_alley"@);
        } else if j == 13 {
            assert(ch2_prevs()[13] == "room_dw_city_mansion_front"@);
        } else if j == 14 {
            assert(ch2_prevs()[14] == "room_dw_mansion_dining_a"@);
        } else if j == 15 {
            assert(ch2_prevs()[15] == "room_dw_mansion_entrance"@);
        }
    }
    assert(ch2_prevs()[16] == prev && ch2_curs()[16] == cur && ch2_names()[16] == "ch2_tasque_manager_room"@);
    lemma_transition_first(ch2_prevs(), ch2_curs(), ch2_names(), prev, cur, 16);
}

proof fn ch2_row_17(raw_changed: bool, prev: Seq<char>, cur: Seq<char>, settings: Settings, inp: &TickInputs)
    requires
        prev == "room_dw_mansion_kitchen"@,
        cur == "room_dw_mansion_east_2f_transformed_new"@,
    ensures
        spec_chapter_split(2, raw_changed, prev, cur, settings, inp) == "ch2_mauswheel"@,
{
    reveal_strlit("room_dw_mansion_kitchen");
    reveal_strlit("PLACE_MENU");
    reveal_strlit("room_dw_mansion_east_2f_transformed_new");
    reveal_strlit("room_dw_cyber_musical_door");
    reveal_strlit("room_krisroom");
    reveal_strlit("room_library");
    reveal_strlit("room_dw_cyber_queen_boxing");
    reveal_strlit("room_dw_cyber_teacup_final");
    reveal_strlit("room_dw_city_intro");
    reveal_strlit("room_dw_mansion_entrance");
    reveal_strlit("room_dw_city_mice2");
    reveal_strlit("room_dw_city_berdly");
    reveal_strlit("room_dw_city_spamton_alley");
    reveal_strlit("room_dw_city_mansion_front");
    reveal_strlit("room_dw_mansion_dining_a");
    reveal_strlit("room_dw_mansion_tasquePaintings");
    assert("room_dw_mansion_kitchen"@.len() != "PLACE_MENU"@.len());
    assert("room_dw_mansion_kitchen"@.len() != "room_dw_mansion_east_2f_transformed_new"@.len());
    assert("room_dw_mansion_kitchen"@.len() != "room_dw_cyber_musical_door"@.len());
    assert("room_krisroom"@.len() != "room_dw_mansion_kitchen"@.len());
    assert("room_library"@.len() != "room_dw_mansion_kitchen"@.len());
    assert("room_dw_cyber_queen_boxing"@.len() != "room_dw_mansion_kitchen"@.len());
    assert("room_dw_cyber_teacup_final"@.len() != "room_dw_mansion_kitchen"@.len());
    assert("room_dw_city_intro"@.len() != "room_dw_mansion_kitchen"@.len());
    assert("room_dw_mansion_entrance"@.len() != "room_dw_mansion_kitchen"@.len());
    assert("room_dw_city_mice2"@.len() != "room_dw_mansion_kitchen"@.len());
    assert("room_dw_city_berdly"@.len() != "room_dw_mansion_kitchen"@.len());
    assert("room_dw_city_spamton_alley"@.len() != "room_dw_mansion_kitchen"@.len());
    assert("room_dw_city_mansion_front"@.len() != "room_dw_mansion_kitchen"@.len());
    assert("room_dw_mansion_dining_a"@.len() != "room_dw_mansion_kitchen"@.len());
    assert("room_dw_mansion_tasquePaintings"@.len() != "room_dw_mansion_kitchen"@.len());
    assert forall|j: int| 0 <= j < 17 implies !(#[trigger] ch2_prevs()[j] == prev && ch2_curs()[j] == cur) by {
        if j == 0 {
            assert(ch2_prevs()[0] == "room_krisroom"@);
        } else if j == 1 {
            assert(ch2_prevs()[1] == "room_library"@);
        } else if j == 2 {
            assert(ch2_prevs()[2] == "room_dw_cyber_queen_boxing"@);
        } else if j == 3 {
            assert(ch2_prevs()[3] == "room_dw_cyber_musical_door"@);
        } else if j == 4 {
            assert(ch2_prevs()[4] == "room_dw_cyber_teacup_final"@);
        } else if j == 5 {
            assert(ch2_prevs()[5] == "room_dw_city_intro"@);
        } else if j == 6 {
            assert(ch2_prevs()[6] == "room_dw_city_intro"@);
        } else if j == 7 {
            assert(ch2_prevs()[7] == "room_dw_mansion_entrance"@);
        } else if j == 8 {
            assert(ch2_prevs()[8] == "room_dw_mansion_entrance"@);
        } else if j == 9 {
            assert(ch2_prevs()[9] == "room_dw_city_mice2"@);
        } else if j == 10 {
            assert(ch2_prevs()[10] == "room_dw_city_berdly"@);
        } else if j == 11 {
            assert(ch2_prevs()[11] == "room_dw_city_berdly"@);
        } else if j == 12 {
            assert(ch2_prevs()[12] == "room_dw_city_spamton_alley"@);
        } else if j == 13 {
            assert(ch2_prevs()[13] == "room_dw_city_mansion_front"@);
        } else if j == 14 {
            assert(ch2_prevs()[14] == "room_dw_mansion_dining_a"@);
        } else if j == 15 {
            assert(ch2_prevs()[15] == "room_dw_mansion_entrance"@);
        } else if j == 16 {
            assert(ch2_prevs()[16] == "room_dw_mansion_tasquePaintings"@);
        }
    }
    assert(ch2_prevs()[17] == prev && ch2_curs()[17] == cur && ch2_names()[17] == "ch2_mauswheel"@);
    lemma_transition_first(ch2_prevs(), ch2_curs(), ch2_names(), prev, cur, 17);
}

proof fn ch2_row_18(raw_changed: bool, prev: Seq<char>, cur: Seq<char>, settings: Settings, inp: &TickInputs)
    requires
        prev == "room_dw_mansion_b_east"@,
        cur == "room_dw_mansion_b_east_a"@,
    ensures
        spec_chapter_split(2, raw_changed, prev, cur, settings, inp) == "ch2_exit_neo"@,
{
    reveal_strlit("room_dw_mansion_b_east");
    reveal_strlit("PLACE_MENU");
    reveal_strlit("room_dw_mansion_b_east_a");
    reveal_strlit("room_dw_cyber_musical_door");
    reveal_strlit("room_krisroom");
    reveal_strlit("room_library");
    reveal_strlit("room_dw_cyber_queen_boxing");
    reveal_strlit("room_dw_cyber_teacup_final");
    reveal_strlit("room_dw_city_intro");
    reveal_strlit("room_dw_mansion_entrance");
    reveal_strlit("room_dw_city_mice2");
    reveal_strlit("room_dw_city_berdly");
    reveal_strlit("room_dw_city_spamton_alley");
    reveal_strlit("room_dw_city_mansion_front");
    reveal_strlit("room_dw_mansion_dining_a");
    reveal_strlit("room_dw_mansion_tasquePaintings");
    reveal_strlit("room_dw_mansion_kitchen");
    assert("room_dw_mansion_b_east"@.len() != "PLACE_MENU"@.len());
    assert("room_dw_mansion_b_east"@.len() != "room_dw_mansion_b_east_a"@.len());
    assert("room_dw_mansion_b_east"@.len() != "room_dw_cyber_musical_door"@.len());
    assert("room_krisroom"@.len() != "room_dw_mansion_b_east"@.len());
    assert("room_library"@.len() != "room_dw_mansion_b_east"@.len());
    assert("room_dw_cyber_queen_boxing"@.len() != "room_dw_mansion_b_east"@.len());
    assert("room_dw_cyber_teacup_final"@.len() != "room_dw_mansion_b_east"@.len());
    assert("room_dw_city_intro"@.len() != "room_dw_mansion_b_east"@.len());
    assert("room_dw_mansion_entrance"@.len() != "room_dw_mansion_b_east"@.len());
    assert("room_dw_city_mice2"@.len() != "room_dw_mansion_b_east"@.len());
    assert("room_dw_city_berdly"@.len() != "room_dw_mansion_b_east"@.len());
    assert("room_dw_city_spamton_alley"@.len() != "room_dw_mansion_b_east"@.len());
    assert("room_dw_city_mansion_front"@.len() != "room_dw_mansion_b_east"@.len());
    assert("room_dw_mansion_dining_a"@.len() != "room_dw_mansion_b_east"@.len());
    assert("room_dw_mansion_tasquePaintings"@.len() != "room_dw_mansion_b_east"@.len());
    assert("room_dw_mansion_kitchen"@.len() != "room_dw_mansion_b_east"@.len());
    assert forall|j: int| 0 <= j < 18 implies !(#[trigger] ch2_prevs()[j] == prev && ch2_curs()[j] == cur) by {
        if j == 0 {
            assert(ch2_prevs()[0] == "room_krisroom"@);
        } else if j == 1 {
            assert(ch2_prevs()[1] == "room_library"@);
        } else if j == 2 {
            assert(ch2_prevs()[2] == "room_dw_cyber_queen_boxing"@);
        } else if j == 3 {
            assert(ch2_prevs()[3] == "room_dw_cyber_musical_door"@);
        } else if j == 4 {
            assert(ch2_prevs()[4] == "room_dw_cyber_teacup_final"@);
        } else if j == 5 {
            assert(ch2_prevs()[5] == "room_dw_city_intro"@);
        } else if j == 6 {
            assert(ch2_prevs()[6] == "room_dw_city_intro"@);
        } else if j == 7 {
            assert(ch2_prevs()[7] == "room_dw_mansion_entrance"@);
        } else if j == 8 {
            assert(ch2_prevs()[8] == "room_dw_mansion_entrance"@);
        } else if j == 9 {
            assert(ch2_prevs()[9] == "room_dw_city_mice2"@);
        } else if j == 10 {
            assert(ch2_prevs()[10] == "room_dw_city_berdly"@);
        } else if j == 11 {
            assert(ch2_prevs()[11] == "room_dw_city_berdly"@);
        } else if j == 12 {
            assert(ch2_prevs()[12] == "room_dw_city_spamton_alley"@);
        } else if j == 13 {
            assert(ch2_prevs()[13] == "room_dw_city_mansion_front"@);
        } else if j == 14 {
            assert(ch2_prevs()[14] == "room_dw_mansion_dining_a"@);
        } else if j == 15 {
            assert(ch2_prevs()[15] == "room_dw_mansion_entrance"@);
        } else if j == 16 {
            assert(ch2_prevs()[16] == "room_dw_mansion_tasquePaintings"@);
        } else if j == 17 {
            assert(ch2_prevs()[17] == "room_dw_mansion_kitchen"@);
        }
    }
    assert(ch2_prevs()[18] == prev && ch2_curs()[18] == cur && ch2_names()[18] == "ch2_exit_neo"@);
    lemma_transition_first(ch2_prevs(), ch2_curs(), ch2_names(), prev, cur, 18);
}

proof fn ch2_row_19(raw_changed: bool, prev: Seq<char>, cur: Seq<char>, settings: Settings, inp: &TickInputs)
    requires
        prev == "room_dw_mansion_east_3f"@,
        cur == "room_dw_mansion_acid_tunnel"@,
    ensures
        spec_chapter_split(2, raw_changed, prev, cur, settings, inp) == "ch2_enter_acid"@,
{
    reveal_strlit("room_dw_mansion_east_3f");
    reveal_strlit("PLACE_MENU");
    reveal_strlit("room_dw_mansion_acid_tunnel");
    reveal_strlit("room_dw_cyber_musical_door");
    reveal_strlit("room_krisroom");
    reveal_strlit("room_library");
    reveal_strlit("room_dw_cyber_queen_boxing");
    reveal_strlit("room_dw_cyber_teacup_final");
    reveal_strlit("room_dw_city_intro");
    reveal_strlit("room_dw_mansion_entrance");
    reveal_strlit("room_dw_city_mice2");
    reveal_strlit("room_dw_city_berdly");
    reveal_strlit("room_dw_city_spamton_alley");
    reveal_strlit("room_dw_city_mansion_front");
    reveal_strlit("room_dw_mansion_dining_a");
    reveal_strlit("room_dw_mansion_tasquePaintings");
    reveal_strlit("room_dw_mansion_kitchen");
    reveal_strlit("room_dw_mansion_b_east");
    assert("room_dw_mansion_east_3f"@.len() != "PLACE_MENU"@.len());
    assert("room_dw_mansion_east_3f"@.len() != "room_dw_mansion_acid_tunnel"@.len());
    assert("room_dw_mansion_east_3f"@.len() != "room_dw_cyber_musical_door"@.len());
    assert("room_krisroom"@.len() != "room_dw_mansion_east_3f"@.len());
    assert("room_library"@.len() != "room_dw_mansion_east_3f"@.len());
    assert("room_dw_cyber_queen_boxing"@.len() != "room_dw_mansion_east_3f"@.len());
    assert("room_dw_cyber_teacup_final"@.len() != "room_dw_mansion_east_3f"@.len());
    assert("room_dw_city_intro"@.len() != "room_dw_mansion_east_3f"@.len());
    assert("room_dw_mansion_entrance"@.len() != "room_dw_mansion_east_3f"@.len());
    assert("room_dw_city_mice2"@.len() != "room_dw_mansion_east_3f"@.len());
    assert("room_dw_city_berdly"@.len() != "room_dw_mansion_east_3f"@.len());
    assert("room_dw_city_spamton_alley"@.len() != "room_dw_mansion_east_3f"@.len());
    assert("room_dw_city_mansion_front"@.len() != "room_dw_mansion_east_3f"@.len());
    assert("room_dw_mansion_dining_a"@.len() != "room_dw_mansion_east_3f"@.len());
    assert("room_dw_mansion_tasquePaintings"@.len() != "room_dw_mansion_east_3f"@.len());
    assert("room_dw_mansion_kitchen"@[16] != "room_dw_mansion_east_3f"@[16]);
    assert("room_dw_mansion_b_east"@.len() != "room_dw_mansion_east_3f"@.len());
    assert forall|j: int| 0 <= j < 19 implies !(#[trigger] ch2_prevs()[j] == prev && ch2_curs()[j] == cur) by {
        if j == 0 {
            assert(ch2_prevs()[0] == "room_krisroom"@);
        } else if j == 1 {
            assert(ch2_prevs()[1] == "room_library"@);
        } else if j == 2 {
            assert(ch2_prevs()[2] == "room_dw_cyber_queen_boxing"@);
        } else if j == 3 {
            assert(ch2_prevs()[3] == "room_dw_cyber_musical_door"@);
        } else if j == 4 {
            assert(ch2_prevs()[4] == "room_dw_cyber_teacup_final"@);
        } else if j == 5 {
            assert(ch2_prevs()[5] == "room_dw_city_intro"@);
        } else if j == 6 {
            assert(ch2_prevs()[6] == "room_dw_city_intro"@);
        } else if j == 7 {
            assert(ch2_prevs()[7] == "room_dw_mansion_entrance"@);
        } else if j == 8 {
            assert(ch2_prevs()[8] == "room_dw_mansion_entrance"@);
        } else if j == 9 {
            assert(ch2_prevs()[9] == "room_dw_city_mice2"@);
        } else if j == 10 {
            assert(ch2_prevs()[10] == "room_dw_city_berdly"@);
        } else if j == 11 {
            assert(ch2_prevs()[11] == "room_dw_city_berdly"@);
        } else if j == 12 {
            assert(ch2_prevs()[12] == "room_dw_city_spamton_alley"@);
        } else if j == 13 {
            assert(ch2_prevs()[13] == "room_dw_city_mansion_front"@);
        } else if j == 14 {
            assert(ch2_prevs()[14] == "room_dw_mansion_dining_a"@);
        } else if j == 15 {
            assert(ch2_prevs()[15] == "room_dw_mansion_entrance"@);
        } else if j == 16 {
            assert(ch2_prevs()[16] == "room_dw_mansion_tasquePaintings"@);
        } else if j == 17 {
            assert(ch2_prevs()[17] == "room_dw_mansion_kitchen"@);
        } else if j == 18 {
            assert(ch2_prevs()[18] == "room_dw_mansion_b_east"@);
        }
    }
    assert(ch2_prevs()[19] == prev && ch2_curs()[19] == cur && ch2_names()[19] == "ch2_enter_acid"@);
    lemma_transition_first(ch2_prevs(), ch2_curs(), ch2_names(), prev, cur, 19);
}

proof fn ch2_row_20(raw_changed: bool, prev: Seq<char>, cur: Seq<char>, settings: Settings, inp: &TickInputs)
    requires
        prev == "room_dw_mansion_acid_tunnel_loop_rouxls"@,
        cur == "room_dw_mansion_acid_tunnel_exit"@,
    ensures
        spec_chapter_split(2, raw_changed, prev, cur, settings, inp) == "ch2_exit_acid"@,
{
    reveal_strlit("room_dw_mansion_acid_tunnel_loop_rouxls");
    reveal_strlit("PLACE_MENU");
    reveal_strlit("room_dw_mansion_acid_tunnel_exit");
    reveal_strlit("room_dw_cyber_musical_door");
    reveal_strlit("room_krisroom");
    reveal_strlit("room_library");
    reveal_strlit("room_dw_cyber_queen_boxing");
    reveal_strlit("room_dw_cyber_teacup_final");
    reveal_strlit("room_dw_city_intro");
    reveal_strlit("room_dw_mansion_entrance");
    reveal_strlit("room_dw_city_mice2");
    reveal_strlit("room_dw_city_berdly");
    reveal_strlit("room_dw_city_spamton_alley");
    reveal_strlit("room_dw_city_mansion_front");
    reveal_strlit("room_dw_mansion_dining_a");
    reveal_strlit("room_dw_mansion_tasquePaintings");
    reveal_strlit("room_dw_mansion_kitchen");
    reveal_strlit("room_dw_mansion_b_east");
    reveal_strlit("room_dw_mansion_east_3f");
    assert("room_dw_mansion_acid_tunnel_loop_rouxls"@.len() != "PLACE_MENU"@.len());
    assert("room_dw_mansion_acid_tunnel_loop_rouxls"@.len() != "room_dw_mansion_acid_tunnel_exit"@.len());
    assert("room_dw_mansion_acid_tunnel_loop_rouxls"@.len() != "room_dw_cyber_musical_door"@.len());
    assert("room_krisroom"@.len() != "room_dw_mansion_acid_tunnel_loop_rouxls"@.len());
    assert("room_library"@.len() != "room_dw_mansion_acid_tunnel_loop_rouxls"@.len());
    assert("room_dw_cyber_queen_boxing"@.len() != "room_dw_mansion_acid_tunnel_loop_rouxls"@.len());
    assert("room_dw_cyber_teacup_final"@.len() != "room_dw_mansion_acid_tunnel_loop_rouxls"@.len());
    assert("room_dw_city_intro"@.len() != "room_dw_mansion_acid_tunnel_loop_rouxls"@.len());
    assert("room_dw_mansion_entrance"@.len() != "room_dw_mansion_acid_tunnel_loop_rouxls"@.len());
    assert("room_dw_city_mice2"@.len() != "room_dw_mansion_acid_tunnel_loop_rouxls"@.len());
    assert("room_dw_city_berdly"@.len() != "room_dw_mansion_acid_tunnel_loop_rouxls"@.len());
    assert("room_dw_city_spamton_alley"@.len() != "room_dw_mansion_acid_tunnel_loop_rouxls"@.len());
    assert("room_dw_city_mansion_front"@.len() != "room_dw_mansion_acid_tunnel_loop_rouxls"@.len());
    assert("room_dw_mansion_dining_a"@.len() != "room_dw_mansion_acid_tunnel_loop_rouxls"@.len());
    assert("room_dw_mansion_tasquePaintings"@.len() != "room_dw_mansion_acid_tunnel_loop_rouxls"@.len());
    assert("room_dw_mansion_kitchen"@.len() != "room_dw_mansion_acid_tunnel_loop_rouxls"@.len());
    assert("room_dw_mansion_b_east"@.len() != "room_dw_mansion_acid_tunnel_loop_rouxls"@.len());
    assert("room_dw_mansion_east_3f"@.len() != "room_dw_mansion_acid_tunnel_loop_rouxls"@.len());
    assert forall|j: int| 0 <= j < 20 implies !(#[trigger] ch2_prevs()[j] == prev && ch2_curs()[j] == cur) by {
        if j == 0 {
            assert(ch2_prevs()[0] == "room_krisroom"@);
        } else if j == 1 {
            assert(ch2_prevs()[1] == "room_library"@);
        } else if j == 2 {
            assert(ch2_prevs()[2] == "room_dw_cyber_queen_boxing"@);
        } else if j == 3 {
            assert(ch2_prevs()[3] == "room_dw_cyber_musical_door"@);
        } else if j == 4 {
            assert(ch2_prevs()[4] == "room_dw_cyber_teacup_final"@);
        } else if j == 5 {
            assert(ch2_prevs()[5] == "room_dw_city_intro"@);
        } else if j == 6 {
            assert(ch2_prevs()[6] == "room_dw_city_intro"@);
        } else if j == 7 {
            assert(ch2_prevs()[7] == "room_dw_mansion_entrance"@);
        } else if j == 8 {
            assert(ch2_prevs()[8] == "room_dw_mansion_entrance"@);
        } else if j == 9 {
            assert(ch2_prevs()[9] == "room_dw_city_mice2"@);
        } else if j == 10 {
            assert(ch2_prevs()[10] == "room_dw_city_berdly"@);
        } else if j == 11 {
            assert(ch2_prevs()[11] == "room_dw_city_berdly"@);
        } else if j == 12 {
            assert(ch2_prevs()[12] == "room_dw_city_spamton_alley"@);
        } else if j == 13 {
            assert(ch2_prevs()[13] == "room_dw_city_mansion_front"@);
        } else if j == 14 {
            assert(ch2_prevs()[14] == "room_dw_mansion_dining_a"@);
        } else if j == 15 {
            assert(ch2_prevs()[15] == "room_dw_mansion_entrance"@);
        } else if j == 16 {
            assert(ch2_prevs()[16] == "room_dw_mansion_tasquePaintings"@);
        } else if j == 17 {
            assert(ch2_prevs()[17] == "room_dw_mansion_kitchen"@);
        } else if j == 18 {
            assert(ch2_prevs()[18] == "room_dw_mansion_b_east"@);
        } else if j == 19 {
            assert(ch2_prevs()[19] == "room_dw_mansion_east_3f"@);
        }
    }
    assert(ch2_prevs()[20] == prev && ch2_curs()[20] == cur && ch2_names()[20] == "ch2_exit_acid"@);
    lemma_transition_first(ch2_prevs(), ch2_curs(), ch2_names(), prev, cur, 20);
}

proof fn ch2_row_21(raw_changed: bool, prev: Seq<char>, cur: Seq<char>, settings: Settings, inp: &TickInputs)
    requires
        prev == "room_dw_mansion_east_4f_d"@,
        cur == "room_dw_mansion_top"@,
    ensures
        spec_chapter_split(2, raw_changed, prev, cur, settings, inp) == "ch2_queen_room"@,
{
    reveal_strlit("room_dw_mansion_east_4f_d");
    reveal_strlit("PLACE_MENU");
    reveal_strlit("room_dw_mansion_top");
    reveal_strlit("room_dw_cyber_musical_door");
    reveal_strlit("room_krisroom");
    reveal_strlit("room_library");
    reveal_strlit("room_dw_cyber_queen_boxing");
    reveal_strlit("room_dw_cyber_teacup_final");
    reveal_strlit("room_dw_city_intro");
    reveal_strlit("room_dw_mansion_entrance");
    reveal_strlit("room_dw_city_mice2");
    reveal_strlit("room_dw_city_berdly");
    reveal_strlit("room_dw_city_spamton_alley");
    reveal_strlit("room_dw_city_mansion_front");
    reveal_strlit("room_dw_mansion_dining_a");
    reveal_strlit("room_dw_mansion_tasquePaintings");
    reveal_strlit("room_dw_mansion_kitchen");
    reveal_strlit("room_dw_mansion_b_east");
    reveal_strlit("room_dw_mansion_east_3f");
    reveal_strlit("room_dw_mansion_acid_tunnel_loop_rouxls");
    assert("room_dw_mansion_east_4f_d"@.len() != "PLACE_MENU"@.len());
    assert("room_dw_mansion_east_4f_d"@.len() != "room_dw_mansion_top"@.len());
    assert("room_dw_mansion_east_4f_d"@.len() != "room_dw_cyber_musical_door"@.len());
    assert("room_krisroom"@.len() != "room_dw_mansion_east_4f_d"@.len());
    assert("room_library"@.len() != "room_dw_mansion_east_4f_d"@.len());
    assert("room_dw_cyber_queen_boxing"@.len() != "room_dw_mansion_east_4f_d"@.len());
    assert("room_dw_cyber_teacup_final"@.len() != "room_dw_mansion_east_4f_d"@.len());
    assert("room_dw_city_intro"@.len() != "room_dw_mansion_east_4f_d"@.len());
    assert("room_dw_mansion_entrance"@.len() != "room_dw_mansion_east_4f_d"@.len());
    assert("room_dw_city_mice2"@.len() != "room_dw_mansion_east_4f_d"@.len());
    assert("room_dw_city_berdly"@.len() != "room_dw_mansion_east_4f_d"@.len());
    assert("room_dw_city_spamton_alley"@.len() != "room_dw_mansion_east_4f_d"@.len());
    assert("room_dw_city_mansion_front"@.len() != "room_dw_mansion_east_4f_d"@.len());
    assert("room_dw_mansion_dining_a"@.len() != "room_dw_mansion_east_4f_d"@.len());
    assert("room_dw_mansion_tasquePaintings"@.len() != "room_dw_mansion_east_4f_d"@.len());
    assert("room_dw_mansion_kitchen"@.len() != "room_dw_mansion_east_4f_d"@.len());
    assert("room_dw_mansion_b_east"@.len() != "room_dw_mansion_east_4f_d"@.len());
    assert("room_dw_mansion_east_3f"@.len() != "room_dw_mansion_east_4f_d"@.len());
    assert("room_dw_mansion_acid_tunnel_loop_rouxls"@.len() != "room_dw_mansion_east_4f_d"@.len());
    assert forall|j: int| 0 <= j < 21 implies !(#[trigger] ch2_prevs()[j] == prev && ch2_curs()[j] == cur) by {
        if j == 0 {
            assert(ch2_prevs()[0] == "room_krisroom"@);
        } else if j == 1 {
            assert(ch2_prevs()[1] == "room_library"@);
        } else if j == 2 {
            assert(ch2_prevs()[2] == "room_dw_cyber_queen_boxing"@);
        } else if j == 3 {
            assert(ch2_prevs()[3] == "room_dw_cyber_musical_door"@);
        } else if j == 4 {
            assert(ch2_prevs()[4] == "room_dw_cyber_teacup_final"@);
        } else if j == 5 {
            assert(ch2_prevs()[5] == "room_dw_city_intro"@);
        } else if j == 6 {
            assert(ch2_prevs()[6] == "room_dw_city_intro"@);
        } else if j == 7 {
            assert(ch2_prevs()[7] == "room_dw_mansion_entrance"@);
        } else if j == 8 {
            assert(ch2_prevs()[8] == "room_dw_mansion_entrance"@);
        } else if j == 9 {
            assert(ch2_prevs()[9] == "room_dw_city_mice2"@);
        } else if j == 10 {
            assert(ch2_prevs()[10] == "room_dw_city_berdly"@);
        } else if j == 11 {
            assert(ch2_prevs()[11] == "room_dw_city_berdly"@);
        } else if j == 12 {
            assert(ch2_prevs()[12] == "room_dw_city_spamton_alley"@);
        } else if j == 13 {
            assert(ch2_prevs()[13] == "room_dw_city_mansion_front"@);
        } else if j == 14 {
            assert(ch2_prevs()[14] == "room_dw_mansion_dining_a"@);
        } else if j == 15 {
            assert(ch2_prevs()[15] == "room_dw_mansion_entrance"@);
        } else if j == 16 {
            assert(ch2_prevs()[16] == "room_dw_mansion_tasquePaintings"@);
        } else if j == 17 {
            assert(ch2_prevs()[17] == "room_dw_mansion_kitchen"@);
        } else if j == 18 {
            assert(ch2_prevs()[18] == "room_dw_mansion_b_east"@);
        } else if j == 19 {
            assert(ch2_prevs()[19] == "room_dw_mansion_east_3f"@);
        } else if j == 20 {
            assert(ch2_prevs()[20] == "room_dw_mansion_acid_tunnel_loop_rouxls"@);
        }
    }
    assert(ch2_prevs()[21] == prev && ch2_curs()[21] == cur && ch2_names()[21] == "ch2_queen_room"@);
    lemma_transition_first(ch2_prevs(), ch2_curs(), ch2_names(), prev, cur, 21);
}

proof fn ch2_row_22(raw_changed: bool, prev: Seq<char>, cur: Seq<char>, settings: Settings, inp: &TickInputs)
    requires
        prev == "room_dw_mansion_top"@,
        cur == "room_dw_mansion_top_post"@,
    ensures
        spec_chapter_split(2, raw_changed, prev, cur, settings, inp) == "ch2_giga_queen"@,
{
    reveal_strlit("room_dw_mansion_top");
    reveal_strlit("PLACE_MENU");
    reveal_strlit("room_dw_mansion_top_post");
    reveal_strlit("room_dw_cyber_musical_door");
    reveal_strlit("room_krisroom");
    reveal_strlit("room_library");
    reveal_strlit("room_dw_cyber_queen_boxing");
    reveal_strlit("room_dw_cyber_teacup_final");
    reveal_strlit("room_dw_city_intro");
    reveal_strlit("room_dw_mansion_entrance");
    reveal_strlit("room_dw_city_mice2");
    reveal_strlit("room_dw_city_berdly");
    reveal_strlit("room_dw_city_spamton_alley");
    reveal_strlit("room_dw_city_mansion_front");
    reveal_strlit("room_dw_mansion_dining_a");
    reveal_strlit("room_dw_mansion_tasquePaintings");
    reveal_strlit("room_dw_mansion_kitchen");
    reveal_strlit("room_dw_mansion_b_east");
    reveal_strlit("room_dw_mansion_east_3f");
    reveal_strlit("room_dw_mansion_acid_tunnel_loop_rouxls");
    reveal_strlit("room_dw_mansion_east_4f_d");
    assert("room_dw_mansion_top"@.len() != "PLACE_MENU"@.len());
    assert("room_dw_mansion_top"@.len() != "room_dw_mansion_top_post"@.len());
    assert("room_dw_mansion_top"@.len() != "room_dw_cyber_musical_door"@.len());
    assert("room_krisroom"@.len() != "room_dw_mansion_top"@.len());
    assert("room_library"@.len() != "room_dw_mansion_top"@.len());
    assert("room_dw_cyber_queen_boxing"@.len() != "room_dw_mansion_top"@.len());
    assert("room_dw_cyber_teacup_final"@.len() != "room_dw_mansion_top"@.len());
    assert("room_dw_city_intro"@.len() != "room_dw_mansion_top"@.len());
    assert("room_dw_mansion_entrance"@.len() != "room_dw_mansion_top"@.len());
    assert("room_dw_city_mice2"@.len() != "room_dw_mansion_top"@.len());
    assert("room_dw_city_berdly"@[8] != "room_dw_mansion_top"@[8]);
    assert("room_dw_city_spamton_alley"@.len() != "room_dw_mansion_top"@.len());
    assert("room_dw_city_mansion_front"@.len() != "room_dw_mansion_top"@.len());
    assert("room_dw_mansion_dining_a"@.len() != "room_dw_mansion_top"@.len());
    assert("room_dw_mansion_tasquePaintings"@.len() != "room_dw_mansion_top"@.len());
    assert("room_dw_mansion_kitchen"@.len() != "room_dw_mansion_top"@.len());
    assert("room_dw_mansion_b_east"@.len() != "room_dw_mansion_top"@.len());
    assert("room_dw_mansion_east_3f"@.len() != "room_dw_mansion_top"@.len());
    assert("room_dw_mansion_acid_tunnel_loop_rouxls"@.len() != "room_dw_mansion_top"@.len());
    assert("room_dw_mansion_east_4f_d"@.len() != "room_dw_mansion_top"@.len());
    assert forall|j: int| 0 <= j < 22 implies !(#[trigger] ch2_prevs()[j] == prev && ch2_curs()[j] == cur) by {
        if j == 0 {
            assert(ch2_prevs()[0] == "room_krisroom"@);
        } else if j == 1 {
            assert(ch2_prevs()[1] == "room_library"@);
        } else if j == 2 {
            assert(ch2_prevs()[2] == "room_dw_cyber_queen_boxing"@);
        } else if j == 3 {
            assert(ch2_prevs()[3] == "room_dw_cyber_musical_door"@);
        } else if j == 4 {
            assert(ch2_prevs()[4] == "room_dw_cyber_teacup_final"@);
        } else if j == 5 {
            assert(ch2_prevs()[5] == "room_dw_city_intro"@);
        } else if j == 6 {
            assert(ch2_prevs()[6] == "room_dw_city_intro"@);
        } else if j == 7 {
            assert(ch2_prevs()[7] == "room_dw_mansion_entrance"@);
        } else if j == 8 {
            assert(ch2_prevs()[8] == "room_dw_mansion_entrance"@);
        } else if j == 9 {
            assert(ch2_prevs()[9] == "room_dw_city_mice2"@);
        } else if j == 10 {
            assert(ch2_prevs()[10] == "room_dw_city_berdly"@);
        } else if j == 11 {
            assert(ch2_prevs()[11] == "room_dw_city_berdly"@);
        } else if j == 12 {
            assert(ch2_prevs()[12] == "room_dw_city_spamton_alley"@);
        } else if j == 13 {
            assert(ch2_prevs()[13] == "room_dw_city_mansion_front"@);
        } else if j == 14 {
            assert(ch2_prevs()[14] == "room_dw_mansion_dining_a"@);
        } else if j == 15 {
            assert(ch2_prevs()[15] == "room_dw_mansion_entrance"@);
        } else if j == 16 {
            assert(ch2_prevs()[16] == "room_dw_mansion_tasquePaintings"@);
        } else if j == 17 {
            assert(ch2_prevs()[17] == "room_dw_mansion_kitchen"@);
        } else if j == 18 {
            assert(ch2_prevs()[18] == "room_dw_mansion_b_east"@);
        } else if j == 19 {
            assert(ch2_prevs()[19] == "room_dw_mansion_east_3f"@);
        } else if j == 20 {
            assert(ch2_prevs()[20] == "room_dw_mansion_acid_tunnel_loop_rouxls"@);
        } else if j == 21 {
            assert(ch2_prevs()[21] == "room_dw_mansion_east_4f_d"@);
        }
    }
    assert(ch2_prevs()[22] == prev && ch2_curs()[22] == cur && ch2_names()[22] == "ch2_giga_queen"@);
    lemma_transition_first(ch2_prevs(), ch2_curs(), ch2_names(), prev, cur, 22);
}

proof fn ch2_row_23(raw_changed: bool, prev: Seq<char>, cur: Seq<char>, settings: Settings, inp: &TickInputs)
    requires
        prev == "room_dw_mansion_top_post"@,
        cur == "room_cc_fountain"@,
    ensures
        spec_chapter_split(2, raw_changed, prev, cur, settings, inp) == "ch2_enter_fountain"@,
{
    reveal_strlit("room_dw_mansion_top_post");
    reveal_strlit("PLACE_MENU");
    reveal_strlit("room_cc_fountain");
    reveal_strlit("room_dw_cyber_musical_door");
    reveal_strlit("room_krisroom");
    reveal_strlit("room_library");
    reveal_strlit("room_dw_cyber_queen_boxing");
    reveal_strlit("room_dw_cyber_teacup_final");
    reveal_strlit("room_dw_city_intro");
    reveal_strlit("room_dw_mansion_entrance");
    reveal_strlit("room_dw_city_mice2");
    reveal_strlit("room_dw_city_berdly");
    reveal_strlit("room_dw_city_spamton_alley");
    reveal_strlit("room_dw_city_mansion_front");
    reveal_strlit("room_dw_mansion_dining_a");
    reveal_strlit("room_dw_mansion_tasquePaintings");
    reveal_strlit("room_dw_mansion_kitchen");
    reveal_strlit("room_dw_mansion_b_east");
    reveal_strlit("room_dw_mansion_east_3f");
    reveal_strlit("room_dw_mansion_acid_tunnel_loop_rouxls");
    reveal_strlit("room_dw_mansion_east_4f_d");
    reveal_strlit("room_dw_mansion_top");
    assert("room_dw_mansion_top_post"@.len() != "PLACE_MENU"@.len());
    assert("room_dw_mansion_top_post"@.len() != "room_cc_fountain"@.len());
    assert("room_dw_mansion_top_post"@.len() != "room_dw_cyber_musical_door"@.len());
    assert("room_krisroom"@.len() != "room_dw_mansion_top_post"@.len());
    assert("room_library"@.len() != "room_dw_mansion_top_post"@.len());
    assert("room_dw_cyber_queen_boxing"@.len() != "room_dw_mansion_top_post"@.len());
    assert("room_dw_cyber_teacup_final"@.len() != "room_dw_mansion_top_post"@.len());
    assert("room_dw_city_intro"@.len() != "room_dw_mansion_top_post"@.len());
    assert("room_dw_mansion_entrance"@[16] != "room_dw_mansion_top_post"@[16]);
    assert("room_dw_city_mice2"@.len() != "room_dw_mansion_top_post"@.len());
    assert("room_dw_city_berdly"@.len() != "room_dw_mansion_top_post"@.len());
    assert("room_dw_city_spamton_alley"@.len() != "room_dw_mansion_top_post"@.len());
    assert("room_dw_city_mansion_front"@.len() != "room_dw_mansion_top_post"@.len());
    assert("room_dw_mansion_dining_a"@[16] != "room_dw_mansion_top_post"@[16]);
    assert("room_dw_mansion_tasquePaintings"@.len() != "room_dw_mansion_top_post"@.len());
    assert("room_dw_mansion_kitchen"@.len() != "room_dw_mansion_top_post"@.len());
    assert("room_dw_mansion_b_east"@.len() != "room_dw_mansion_top_post"@.len());
    assert("room_dw_mansion_east_3f"@.len() != "room_dw_mansion_top_post"@.len());
    assert("room_dw_mansion_acid_tunnel_loop_rouxls"@.len() != "room_dw_mansion_top_post"@.len());
    assert("room_dw_mansion_east_4f_d"@.len() != "room_dw_mansion_top_post"@.len());
    assert("room_dw_mansion_top"@.len() != "room_dw_mansion_top_post"@.len());
    assert forall|j: int| 0 <= j < 23 implies !(#[trigger] ch2_prevs()[j] == prev && ch2_curs()[j] == cur) by {
        if j == 0 {
            assert(ch2_prevs()[0] == "room_krisroom"@);
        } else if j == 1 {
            assert(ch2_prevs()[1] == "room_library"@);
        } else if j == 2 {
            assert(ch2_prevs()[2] == "room_dw_cyber_queen_boxing"@);
        } else if j == 3 {
            assert(ch2_prevs()[3] == "room_dw_cyber_musical_door"@);
        } else if j == 4 {
            assert(ch2_prevs()[4] == "room_dw_cyber_teacup_final"@);
        } else if j == 5 {
            assert(ch2_prevs()[5] == "room_dw_city_intro"@);
        } else if j == 6 {
            assert(ch2_prevs()[6] == "room_dw_city_intro"@);
        } else if j == 7 {
            assert(ch2_prevs()[7] == "room_dw_mansion_entrance"@);
        } else if j == 8 {
            assert(ch2_prevs()[8] == "room_dw_mansion_entrance"@);
        } else if j == 9 {
            assert(ch2_prevs()[9] == "room_dw_city_mice2"@);
        } else if j == 10 {
            assert(ch2_prevs()[10] == "room_dw_city_berdly"@);
        } else if j == 11 {
            assert(ch2_prevs()[11] == "room_dw_city_berdly"@);
        } else if j == 12 {
            assert(ch2_prevs()[12] == "room_dw_city_spamton_alley"@);
        } else if j == 13 {
            assert(ch2_prevs()[13] == "room_dw_city_mansion_front"@);
        } else if j == 14 {
            assert(ch2_prevs()[14] == "room_dw_mansion_dining_a"@);
        } else if j == 15 {
            assert(ch2_prevs()[15] == "room_dw_mansion_entrance"@);
        } else if j == 16 {
            assert(ch2_prevs()[16] == "room_dw_mansion_tasquePaintings"@);
        } else if j == 17 {
            assert(ch2_prevs()[17] == "room_dw_mansion_kitchen"@);
        } else if j == 18 {
            assert(ch2_prevs()[18] == "room_dw_mansion_b_east"@);
        } else if j == 19 {
            assert(ch2_prevs()[19] == "room_dw_mansion_east_3f"@);
        } else if j == 20 {
            assert(ch2_prevs()[20] == "room_dw_mansion_acid_tunnel_loop_rouxls"@);
        } else if j == 21 {
            assert(ch2_prevs()[21] == "room_dw_mansion_east_4f_d"@);
        } else if j == 22 {
            assert(ch2_prevs()[22] == "room_dw_mansion_top"@);
        }
    }
    assert(ch2_prevs()[23] == prev && ch2_curs()[23] == cur && ch2_names()[23] == "ch2_enter_fountain"@);
    lemma_transition_first(ch2_prevs(), ch2_curs(), ch2_names(), prev, cur, 23);
}

proof fn ch2_row_24(raw_changed: bool, prev: Seq<char>, cur: Seq<char>, settings: Settings, inp: &TickInputs)
    requires
        prev == "room_dw_mansion_prefountain"@,
        cur == "room_dw_mansion_fountain"@,
    ensures
        spec_chapter_split(2, raw_changed, prev, cur, settings, inp) == "ch2_enter_fountain"@,
{
    reveal_strlit("room_dw_mansion_prefountain");
    reveal_strlit("PLACE_MENU");
    reveal_strlit("room_dw_mansion_fountain");
    reveal_strlit("room_dw_cyber_musical_door");
    reveal_strlit("room_krisroom");
    reveal_strlit("room_library");
    reveal_strlit("room_dw_cyber_queen_boxing");
    reveal_strlit("room_dw_cyber_teacup_final");
    reveal_strlit("room_dw_city_intro");
    reveal_strlit("room_dw_mansion_entrance");
    reveal_strlit("room_dw_city_mice2");
    reveal_strlit("room_dw_city_berdly");
    reveal_strlit("room_dw_city_spamton_alley");
    reveal_strlit("room_dw_city_mansion_front");
    reveal_strlit("room_dw_mansion_dining_a");
    reveal_strlit("room_dw_mansion_tasquePaintings");
    reveal_strlit("room_dw_mansion_kitchen");
    reveal_strlit("room_dw_mansion_b_east");
    reveal_strlit("room_dw_mansion_east_3f");
    reveal_strlit("room_dw_mansion_acid_tunnel_loop_rouxls");
    reveal_strlit("room_dw_mansion_east_4f_d");
    reveal_strlit("room_dw_mansion_top");
    reveal_strlit("room_dw_mansion_top_post");
    assert("room_dw_mansion_prefountain"@.len() != "PLACE_MENU"@.len());
    assert("room_dw_mansion_prefountain"@.len() != "room_dw_mansion_fountain"@.len());
    assert("room_dw_mansion_prefountain"@.len() != "room_dw_cyber_musical_door"@.len());
    assert("room_krisroom"@.len() != "room_dw_mansion_prefountain"@.len());
    assert("room_library"@.len() != "room_dw_mansion_prefountain"@.len());
    assert("room_dw_cyber_queen_boxing"@.len() != "room_dw_mansion_prefountain"@.len());
    assert("room_dw_cyber_teacup_final"@.len() != "room_dw_mansion_prefountain"@.len());
    assert("room_dw_city_intro"@.len() != "room_dw_mansion_prefountain"@.len());
    assert("room_dw_mansion_entrance"@.len() != "room_dw_mansion_prefountain"@.len());
    assert("room_dw_city_mice2"@.len() != "room_dw_mansion_prefountain"@.len());
    assert("room_dw_city_berdly"@.len() != "room_dw_mansion_prefountain"@.len());
    assert("room_dw_city_spamton_alley"@.len() != "room_dw_mansion_prefountain"@.len());
    assert("room_dw_city_mansion_front"@.len() != "room_dw_mansion_prefountain"@.len());
    assert("room_dw_mansion_dining_a"@.len() != "room_dw_mansion_prefountain"@.len());
    assert("room_dw_mansion_tasquePaintings"@.len() != "room_dw_mansion_prefountain"@.len());
    assert("room_dw_mansion_kitchen"@.len() != "room_dw_mansion_prefountain"@.len());
    assert("room_dw_mansion_b_east"@.len() != "room_dw_mansion_prefountain"@.len());
    assert("room_dw_mansion_east_3f"@.len() != "room_dw_mansion_prefountain"@.len());
    assert("room_dw_mansion_acid_tunnel_loop_rouxls"@.len() != "room_dw_mansion_prefountain"@.len());
    assert("room_dw_mansion_east_4f_d"@.len() != "room_dw_mansion_prefountain"@.len());
    assert("room_dw_mansion_top"@.len() != "room_dw_mansion_prefountain"@.len());
    assert("room_dw_mansion_top_post"@.len() != "room_dw_mansion_prefountain"@.len());
    assert forall|j: int| 0 <= j < 24 implies !(#[trigger] ch2_prevs()[j] == prev && ch2_curs()[j] == cur) by {
        if j == 0 {
            assert(ch2_prevs()[0] == "room_krisroom"@);
        } else if j == 1 {
            assert(ch2_prevs()[1] == "room_library"@);
        } else if j == 2 {
            assert(ch2_prevs()[2] == "room_dw_cyber_queen_boxing"@);
        } else if j == 3 {
            assert(ch2_prevs()[3] == "room_dw_cyber_musical_door"@);
        } else if j == 4 {
            assert(ch2_prevs()[4] == "room_dw_cyber_teacup_final"@);
        } else if j == 5 {
            assert(ch2_prevs()[5] == "room_dw_city_intro"@);
        } else if j == 6 {
            assert(ch2_prevs()[6] == "room_dw_city_intro"@);
        } else if j == 7 {
            assert(ch2_prevs()[7] == "room_dw_mansion_entrance"@);
        } else if j == 8 {
            assert(ch2_prevs()[8] == "room_dw_mansion_entrance"@);
        } else if j == 9 {
            assert(ch2_prevs()[9] == "room_dw_city_mice2"@);
        } else if j == 10 {
            assert(ch2_prevs()[10] == "room_dw_city_berdly"@);
        } else if j == 11 {
            assert(ch2_prevs()[11] == "room_dw_city_berdly"@);
        } else if j == 12 {
            assert(ch2_prevs()[12] == "room_dw_city_spamton_alley"@);
        } else if j == 13 {
            assert(ch2_prevs()[13] == "room_dw_city_mansion_front"@);
        } else if j == 14 {
            assert(ch2_prevs()[14] == "room_dw_mansion_dining_a"@);
        } else if j == 15 {
            assert(ch2_prevs()[15] == "room_dw_mansion_entrance"@);
        } else if j == 16 {
            assert(ch2_prevs()[16] == "room_dw_mansion_tasquePaintings"@);
        } else if j == 17 {
            assert(ch2_prevs()[17] == "room_dw_mansion_kitchen"@);
        } else if j == 18 {
            assert(ch2_prevs()[18] == "room_dw_mansion_b_east"@);
        } else if j == 19 {
            assert(ch2_prevs()[19] == "room_dw_mansion_east_3f"@);
        } else if j == 20 {
            assert(ch2_prevs()[20] == "room_dw_mansion_acid_tunnel_loop_rouxls"@);
        } else if j == 21 {
            assert(ch2_prevs()[21] == "room_dw_mansion_east_4f_d"@);
        } else if j == 22 {
            assert(ch2_prevs()[22] == "room_dw_mansion_top"@);
        } else if j == 23 {
            assert(ch2_prevs()[23] == "room_dw_mansion_top_post"@);
        }
    }
    assert(ch2_prevs()[24] == prev && ch2_curs()[24] == cur && ch2_names()[24] == "ch2_enter_fountain"@);
    lemma_transition_first(ch2_prevs(), ch2_curs(), ch2_names(), prev, cur, 24);
}

proof fn ch2_row_25(raw_changed: bool, prev: Seq<char>, cur: Seq<char>, settings: Settings, inp: &TickInputs)
    requires
        prev == "room_cc_fountain"@,
        cur == "room_lw_computer_lab"@,
    ensures
        spec_chapter_split(2, raw_changed, prev, cur, settings, inp) == "ch2_seal_fountain"@,
{
    reveal_strlit("room_cc_fountain");
    reveal_strlit("PLACE_MENU");
    reveal_strlit("room_lw_computer_lab");
    reveal_strlit("room_dw_cyber_musical_door");
    reveal_strlit("room_krisroom");
    reveal_strlit("room_library");
    reveal_strlit("room_dw_cyber_queen_boxing");
    reveal_strlit("room_dw_cyber_teacup_final");
    reveal_strlit("room_dw_city_intro");
    reveal_strlit("room_dw_mansion_entrance");
    reveal_strlit("room_dw_city_mice2");
    reveal_strlit("room_dw_city_berdly");
    reveal_strlit("room_dw_city_spamton_alley");
    reveal_strlit("room_dw_city_mansion_front");
    reveal_strlit("room_dw_mansion_dining_a");
    reveal_strlit("room_dw_mansion_tasquePaintings");
    reveal_strlit("room_dw_mansion_kitchen");
    reveal_strlit("room_dw_mansion_b_east");
    reveal_strlit("room_dw_mansion_east_3f");
    reveal_strlit("room_dw_mansion_acid_tunnel_loop_rouxls");
    reveal_strlit("room_dw_mansion_east_4f_d");
    reveal_strlit("room_dw_mansion_top");
    reveal_strlit("room_dw_mansion_top_post");
    reveal_strlit("room_dw_mansion_prefountain");
    assert("room_cc_fountain"@.len() != "PLACE_MENU"@.len());
    assert("room_cc_fountain"@.len() != "room_lw_computer_lab"@.len());
    assert("room_cc_fountain"@.len() != "room_dw_cyber_musical_door"@.len());
    assert("room_krisroom"@.len() != "room_cc_fountain"@.len());
    assert("room_library"@.len() != "room_cc_fountain"@.len());
    assert("room_dw_cyber_queen_boxing"@.len() != "room_cc_fountain"@.len());
    assert("room_dw_cyber_teacup_final"@.len() != "room_cc_fountain"@.len());
    assert("room_dw_city_intro"@.len() != "room_cc_fountain"@.len());
    assert("room_dw_mansion_entrance"@.len() != "room_cc_fountain"@.len());
    assert("room_dw_city_mice2"@.len() != "room_cc_fountain"@.len());
    assert("room_dw_city_berdly"@.len() != "room_cc_fountain"@.len());
    assert("room_dw_city_spamton_alley"@.len() != "room_cc_fountain"@.len());
    assert("room_dw_city_mansion_front"@.len() != "room_cc_fountain"@.len());
    assert("room_dw_mansion_dining_a"@.len() != "room_cc_fountain"@.len());
    assert("room_dw_mansion_tasquePaintings"@.len() != "room_cc_fountain"@.len());
    assert("room_dw_mansion_kitchen"@.len() != "room_cc_fountain"@.len());
    assert("room_dw_mansion_b_east"@.len() != "room_cc_fountain"@.len());
    assert("room_dw_mansion_east_3f"@.len() != "room_cc_fountain"@.len());
    assert("room_dw_mansion_acid_tunnel_loop_rouxls"@.len() != "room_cc_fountain"@.len());
    assert("room_dw_mansion_east_4f_d"@.len() != "room_cc_fountain"@.len());
    assert("room_dw_mansion_top"@.len() != "room_cc_fountain"@.len());
    assert("room_dw_mansion_top_post"@.len() != "room_cc_fountain"@.len());
    assert("room_dw_mansion_prefountain"@.len() != "room_cc_fountain"@.len());
    assert forall|j: int| 0 <= j < 25 implies !(#[trigger] ch2_prevs()[j] == prev && ch2_curs()[j] == cur) by {
        if j == 0 {
            assert(ch2_prevs()[0] == "room_krisroom"@);
        } else if j == 1 {
            assert(ch2_prevs()[1] == "room_library"@);
        } else if j == 2 {
            assert(ch2_prevs()[2] == "room_dw_cyber_queen_boxing"@);
        } else if j == 3 {
            assert(ch2_prevs()[3] == "room_dw_cyber_musical_door"@);
        } else if j == 4 {
            assert(ch2_prevs()[4] == "room_dw_cyber_teacup_final"@);
        } else if j == 5 {
            assert(ch2_prevs()[5] == "room_dw_city_intro"@);
        } else if j == 6 {
            assert(ch2_prevs()[6] == "room_dw_city_intro"@);
        } else if j == 7 {
            assert(ch2_prevs()[7] == "room_dw_mansion_entrance"@);
        } else if j == 8 {
            assert(ch2_prevs()[8] == "room_dw_mansion_entrance"@);
        } else if j == 9 {
            assert(ch2_prevs()[9] == "room_dw_city_mice2"@);
        } else if j == 10 {
            assert(ch2_prevs()[10] == "room_dw_city_berdly"@);
        } else if j == 11 {
            assert(ch2_prevs()[11] == "room_dw_city_berdly"@);
        } else if j == 12 {
            assert(ch2_prevs()[12] == "room_dw_city_spamton_alley"@);
        } else if j == 13 {
            assert(ch2_prevs()[13] == "room_dw_city_mansion_front"@);
        } else if j == 14 {
            assert(ch2_prevs()[14] == "room_dw_mansion_dining_a"@);
        } else if j == 15 {
            assert(ch2_prevs()[15] == "room_dw_mansion_entrance"@);
        } else if j == 16 {
            assert(ch2_prevs()[16] == "room_dw_mansion_tasquePaintings"@);
        } else if j == 17 {
            assert(ch2_prevs()[17] == "room_dw_mansion_kitchen"@);
        } else if j == 18 {
            assert(ch2_prevs()[18] == "room_dw_mansion_b_east"@);
        } else if j == 19 {
            assert(ch2_prevs()[19] == "room_dw_mansion_east_3f"@);
        } else if j == 20 {
            assert(ch2_prevs()[20] == "room_dw_mansion_acid_tunnel_loop_rouxls"@);
        } else if j == 21 {
            assert(ch2_prevs()[21] == "room_dw_mansion_east_4f_d"@);
        } else if j == 22 {
            assert(ch2_prevs()[22] == "room_dw_mansion_top"@);
        } else if j == 23 {
            assert(ch2_prevs()[23] == "room_dw_mansion_top_post"@);
        } else if j == 24 {
            assert(ch2_prevs()[24] == "room_dw_mansion_prefountain"@);
        }
    }
    assert(ch2_prevs()[25] == prev && ch2_curs()[25] == cur && ch2_names()[25] == "ch2_seal_fountain"@);
    lemma_transition_first(ch2_prevs(), ch2_curs(), ch2_names(), prev, cur, 25);
}

proof fn ch2_row_26(raw_changed: bool, prev: Seq<char>, cur: Seq<char>, settings: Settings, inp: &TickInputs)
    requires
        prev == "room_dw_mansion_fountain"@,
        cur == "room_lw_computer_lab"@,
    ensures
        spec_chapter_split(2, raw_changed, prev, cur, settings, inp) == "ch2_seal_fountain"@,
{
    reveal_strlit("room_dw_mansion_fountain");
    reveal_strlit("PLACE_MENU");
    reveal_strlit("room_lw_computer_lab");
    reveal_strlit("room_dw_cyber_musical_door");
    reveal_strlit("room_krisroom");
    reveal_strlit("room_library");
    reveal_strlit("room_dw_cyber_queen_boxing");
    reveal_strlit("room_dw_cyber_teacup_final");
    reveal_strlit("room_dw_city_intro");
    reveal_strlit("room_dw_mansion_entrance");
    reveal_strlit("room_dw_city_mice2");
    reveal_strlit("room_dw_city_berdly");
    reveal_strlit("room_dw_city_spamton_alley");
    reveal_strlit("room_dw_city_mansion_front");
    reveal_strlit("room_dw_mansion_dining_a");
    reveal_strlit("room_dw_mansion_tasquePaintings");
    reveal_strlit("room_dw_mansion_kitchen");
    reveal_strlit("room_dw_mansion_b_east");
    reveal_strlit("room_dw_mansion_east_3f");
    reveal_strlit("room_dw_mansion_acid_tunnel_loop_rouxls");
    reveal_strlit("room_dw_mansion_east_4f_d");
    reveal_strlit("room_dw_mansion_top");
    reveal_strlit("room_dw_mansion_top_post");
    reveal_strlit("room_dw_mansion_prefountain");
    reveal_strlit("room_cc_fountain");
    assert("room_dw_mansion_fountain"@.len() != "PLACE_MENU"@.len());
    assert("room_dw_mansion_fountain"@.len() != "room_lw_computer_lab"@.len());
    assert("room_dw_mansion_fountain"@.len() != "room_dw_cyber_musical_door"@.len());
    assert("room_krisroom"@.len() != "room_dw_mansion_fountain"@.len());
    assert("room_library"@.len() != "room_dw_mansion_fountain"@.len());
    assert("room_dw_cyber_queen_boxing"@.len() != "room_dw_mansion_fountain"@.len());
    assert("room_dw_cyber_teacup_final"@.len() != "room_dw_mansion_fountain"@.len());
    assert("room_dw_city_intro"@.len() != "room_dw_mansion_fountain"@.len());
    assert("room_dw_mansion_entrance"@[16] != "room_dw_mansion_fountain"@[16]);
    assert("room_dw_city_mice2"@.len() != "room_dw_mansion_fountain"@.len());
    assert("room_dw_city_berdly"@.len() != "room_dw_mansion_fountain"@.len());
    assert("room_dw_city_spamton_alley"@.len() != "room_dw_mansion_fountain"@.len());
    assert("room_dw_city_mansion_front"@.len() != "room_dw_mansion_fountain"@.len());
    assert("room_dw_mansion_dining_a"@[16] != "room_dw_mansion_fountain"@[16]);
    assert("room_dw_mansion_tasquePaintings"@.len() != "room_dw_mansion_fountain"@.len());
    assert("room_dw_mansion_kitchen"@.len() != "room_dw_mansion_fountain"@.len());
    assert("room_dw_mansion_b_east"@.len() != "room_dw_mansion_fountain"@.len());
    assert("room_dw_mansion_east_3f"@.len() != "room_dw_mansion_fountain"@.len());
    assert("room_dw_mansion_acid_tunnel_loop_rouxls"@.len() != "room_dw_mansion_fountain"@.len());
    assert("room_dw_mansion_east_4f_d"@.len() != "room_dw_mansion_fountain"@.len());
    assert("room_dw_mansion_top"@.len() != "room_dw_mansion_fountain"@.len());
    assert("room_dw_mansion_top_post"@[16] != "room_dw_mansion_fountain"@[16]);
    assert("room_dw_mansion_prefountain"@.len() != "room_dw_mansion_fountain"@.len());
    assert("room_cc_fountain"@.len() != "room_dw_mansion_fountain"@.len());
    assert forall|j: int| 0 <= j < 26 implies !(#[trigger] ch2_prevs()[j] == prev && ch2_curs()[j] == cur) by {
        if j == 0 {
            assert(ch2_prevs()[0] == "room_krisroom"@);
        } else if j == 1 {
            assert(ch2_prevs()[1] == "room_library"@);
        } else if j == 2 {
            assert(ch2_prevs()[2] == "room_dw_cyber_queen_boxing"@);
        } else if j == 3 {
            assert(ch2_prevs()[3] == "room_dw_cyber_musical_door"@);
        } else if j == 4 {
            assert(ch2_prevs()[4] == "room_dw_cyber_teacup_final"@);
        } else if j == 5 {
            assert(ch2_prevs()[5] == "room_dw_city_intro"@);
        } else if j == 6 {
            assert(ch2_prevs()[6] == "room_dw_city_intro"@);
        } else if j == 7 {
            assert(ch2_prevs()[7] == "room_dw_mansion_entrance"@);
        } else if j == 8 {
            assert(ch2_prevs()[8] == "room_dw_mansion_entrance"@);
        } else if j == 9 {
            assert(ch2_prevs()[9] == "room_dw_city_mice2"@);
        } else if j == 10 {
            assert(ch2_prevs()[10] == "room_dw_city_berdly"@);
        } else if j == 11 {
            assert(ch2_prevs()[11] == "room_dw_city_berdly"@);
        } else if j == 12 {
            assert(ch2_prevs()[12] == "room_dw_city_spamton_alley"@);
        } else if j == 13 {
            assert(ch2_prevs()[13] == "room_dw_city_mansion_front"@);
        } else if j == 14 {
            assert(ch2_prevs()[14] == "room_dw_mansion_dining_a"@);
        } else if j == 15 {
            assert(ch2_prevs()[15] == "room_dw_mansion_entrance"@);
        } else if j == 16 {
            assert(ch2_prevs()[16] == "room_dw_mansion_tasquePaintings"@);
        } else if j == 17 {
            assert(ch2_prevs()[17] == "room_dw_mansion_kitchen"@);
        } else if j == 18 {
            assert(ch2_prevs()[18] == "room_dw_mansion_b_east"@);
        } else if j == 19 {
            assert(ch2_prevs()[19] == "room_dw_mansion_east_3f"@);
        } else if j == 20 {
            assert(ch2_prevs()[20] == "room_dw_mansion_acid_tunnel_loop_rouxls"@);
        } else if j == 21 {
            assert(ch2_prevs()[21] == "room_dw_mansion_east_4f_d"@);
        } else if j == 22 {
            assert(ch2_prevs()[22] == "room_dw_mansion_top"@);
        } else if j == 23 {
            assert(ch2_prevs()[23] == "room_dw_mansion_top_post"@);
        } else if j == 24 {
            assert(ch2_prevs()[24] == "room_dw_mansion_prefountain"@);
        } else if j == 25 {
            assert(ch2_prevs()[25] == "room_cc_fountain"@);
        }
    }
    assert(ch2_prevs()[26] == prev && ch2_curs()[26] == cur && ch2_names()[26] == "ch2_seal_fountain"@);
    lemma_transition_first(ch2_prevs(), ch2_curs(), ch2_names(), prev, cur, 26);
}

proof fn ch2_row_27(raw_changed: bool, prev: Seq<char>, cur: Seq<char>, settings: Settings, inp: &TickInputs)
    requires
        prev == "room_torhouse"@,
        cur == "room_ed"@,
    ensures
        spec_chapter_split(2, raw_changed, prev, cur, settings, inp) == "ch2_ending_ost"@,
{
    reveal_strlit("room_torhouse");
    reveal_strlit("PLACE_MENU");
    reveal_strlit("room_ed");
    reveal_strlit("room_dw_cyber_musical_door");
    reveal_strlit("room_krisroom");
    reveal_strlit("room_library");
    reveal_strlit("room_dw_cyber_queen_boxing");
    reveal_strlit("room_dw_cyber_teacup_final");
    reveal_strlit("room_dw_city_intro");
    reveal_strlit("room_dw_mansion_entrance");
    reveal_strlit("room_dw_city_mice2");
    reveal_strlit("room_dw_city_berdly");
    reveal_strlit("room_dw_city_spamton_alley");
    reveal_strlit("room_dw_city_mansion_front");
    reveal_strlit("room_dw_mansion_dining_a");
    reveal_strlit("room_dw_mansion_tasquePaintings");
    reveal_strlit("room_dw_mansion_kitchen");
    reveal_strlit("room_dw_mansion_b_east");
    reveal_strlit("room_dw_mansion_east_3f");
    reveal_strlit("room_dw_mansion_acid_tunnel_loop_rouxls");
    reveal_strlit("room_dw_mansion_east_4f_d");
    reveal_strlit("room_dw_mansion_top");
    reveal_strlit("room_dw_mansion_top_post");
    reveal_strlit("room_dw_mansion_prefountain");
    reveal_strlit("room_cc_fountain");
    reveal_strlit("room_dw_mansion_fountain");
    assert("room_torhouse"@.len() != "PLACE_MENU"@.len());
    assert("room_torhouse"@.len() != "room_ed"@.len());
    assert("room_torhouse"@.len() != "room_dw_cyber_musical_door"@.len());
    assert("room_krisroom"@[5] != "room_torhouse"@[5]);
    assert("room_library"@.len() != "room_torhouse"@.len());
    assert("room_dw_cyber_queen_boxing"@.len() != "room_torhouse"@.len());
    assert("room_dw_cyber_teacup_final"@.len() != "room_torhouse"@.len());
    assert("room_dw_city_intro"@.len() != "room_torhouse"@.len());
    assert("room_dw_mansion_entrance"@.len() != "room_torhouse"@.len());
    assert("room_dw_city_mice2"@.len() != "room_torhouse"@.len());
    assert("room_dw_city_berdly"@.len() != "room_torhouse"@.len());
    assert("room_dw_city_spamton_alley"@.len() != "room_torhouse"@.len());
    assert("room_dw_city_mansion_front"@.len() != "room_torhouse"@.len());
    assert("room_dw_mansion_dining_a"@.len() != "room_torhouse"@.len());
    assert("room_dw_mansion_tasquePaintings"@.len() != "room_torhouse"@.len());
    assert("room_dw_mansion_kitchen"@.len() != "room_torhouse"@.len());
    assert("room_dw_mansion_b_east"@.len() != "room_torhouse"@.len());
    assert("room_dw_mansion_east_3f"@.len() != "room_torhouse"@.len());
    assert("room_dw_mansion_acid_tunnel_loop_rouxls"@.len() != "room_torhouse"@.len());
    assert("room_dw_mansion_east_4f_d"@.len() != "room_torhouse"@.len());
    assert("room_dw_mansion_top"@.len() != "room_torhouse"@.len());
    assert("room_dw_mansion_top_post"@.len() != "room_torhouse"@.len());
    assert("room_dw_mansion_prefountain"@.len() != "room_torhouse"@.len());
    assert("room_cc_fountain"@.len() != "room_torhouse"@.len());
    assert("room_dw_mansion_fountain"@.len() != "room_torhouse"@.len());
    assert forall|j: int| 0 <= j < 27 implies !(#[trigger] ch2_prevs()[j] == prev && ch2_curs()[j] == cur) by {
        if j == 0 {
            assert(ch2_prevs()[0] == "room_krisroom"@);
        } else if j == 1 {
            assert(ch2_prevs()[1] == "room_library"@);
        } else if j == 2 {
            assert(ch2_prevs()[2] == "room_dw_cyber_queen_boxing"@);
        } else if j == 3 {
            assert(ch2_prevs()[3] == "room_dw_cyber_musical_door"@);
        } else if j == 4 {
            assert(ch2_prevs()[4] == "room_dw_cyber_teacup_final"@);
        } else if j == 5 {
            assert(ch2_prevs()[5] == "room_dw_city_intro"@);
        } else if j == 6 {
            assert(ch2_prevs()[6] == "room_dw_city_intro"@);
        } else if j == 7 {
            assert(ch2_prevs()[7] == "room_dw_mansion_entrance"@);
        } else if j == 8 {
            assert(ch2_prevs()[8] == "room_dw_mansion_entrance"@);
        } else if j == 9 {
            assert(ch2_prevs()[9] == "room_dw_city_mice2"@);
        } else if j == 10 {
            assert(ch2_prevs()[10] == "room_dw_city_berdly"@);
        } else if j == 11 {
            assert(ch2_prevs()[11] == "room_dw_city_berdly"@);
        } else if j == 12 {
            assert(ch2_prevs()[12] == "room_dw_city_spamton_alley"@);
        } else if j == 13 {
            assert(ch2_prevs()[13] == "room_dw_city_mansion_front"@);
        } else if j == 14 {
            assert(ch2_prevs()[14] == "room_dw_mansion_dining_a"@);
        } else if j == 15 {
            assert(ch2_prevs()[15] == "room_dw_mansion_entrance"@);
        } else if j == 16 {
            assert(ch2_prevs()[16] == "room_dw_mansion_tasquePaintings"@);
        } else if j == 17 {
            assert(ch2_prevs()[17] == "room_dw_mansion_kitchen"@);
        } else if j == 18 {
            assert(ch2_prevs()[18] == "room_dw_mansion_b_east"@);
        } else if j == 19 {
            assert(ch2_prevs()[19] == "room_dw_mansion_east_3f"@);
        } else if j == 20 {
            assert(ch2_prevs()[20] == "room_dw_mansion_acid_tunnel_loop_rouxls"@);
        } else if j == 21 {
            assert(ch2_prevs()[21] == "room_dw_mansion_east_4f_d"@);
        } else if j == 22 {
            assert(ch2_prevs()[22] == "room_dw_mansion_top"@);
        } else if j == 23 {
            assert(ch2_prevs()[23] == "room_dw_mansion_top_post"@);
        } else if j == 24 {
            assert(ch2_prevs()[24] == "room_dw_mansion_prefountain"@);
        } else if j == 25 {
            assert(ch2_prevs()[25] == "room_cc_fountain"@);
        } else if j == 26 {
            assert(ch2_prevs()[26] == "room_dw_mansion_fountain"@);
        }
    }
    assert(ch2_prevs()[27] == prev && ch2_curs()[27] == cur && ch2_names()[27] == "ch2_ending_ost"@);
    lemma_transition_first(ch2_prevs(), ch2_curs(), ch2_names(), prev, cur, 27);
}

proof fn ch3_row_0(raw_changed: bool, prev: Seq<char>, cur: Seq<char>, settings: Settings, inp: &TickInputs)
    requires
        prev == "room_dw_couch_overworld_intro"@,
        cur == "room_board_gsa02_b0"@,
    ensures
        spec_chapter_split(3, raw_changed, prev, cur, settings, inp) == "ch3_enter_round1"@,
{
    reveal_strlit("room_dw_couch_overworld_intro");
    reveal_strlit("PLACE_MENU");
    reveal_strlit("room_board_gsa02_b0");
    reveal_strlit("room_gameshowroom");
    assert("room_dw_couch_overworld_intro"@.len() != "PLACE_MENU"@.len());
    assert("room_dw_couch_overworld_intro"@.len() != "room_board_gsa02_b0"@.len());
    assert("room_dw_couch_overworld_intro"@.len() != "room_gameshowroom"@.len());
    assert(ch3_prevs()[0] == prev && ch3_curs()[0] == cur && ch3_names()[0] == "ch3_enter_round1"@);
    lemma_transition_first(ch3_prevs(), ch3_curs(), ch3_names(), prev, cur, 0);
}

proof fn ch3_row_1(raw_changed: bool, prev: Seq<char>, cur: Seq<char>, settings: Settings, inp: &TickInputs)
    requires
        prev == "room_gameshowroom"@,
        cur == "room_board_gsa02_b0"@,
    ensures
        spec_chapter_split(3, raw_changed, prev, cur, settings, inp) == "ch3_enter_round1"@,
{
    reveal_strlit("room_gameshowroom");
    reveal_strlit("PLACE_MENU");
    reveal_strlit("room_board_gsa02_b0");
    reveal_strlit("room_dw_green_room");
    reveal_strlit("room_dw_couch_overworld_intro");
    assert("room_gameshowroom"@.len() != "PLACE_MENU"@.len());
    assert("room_gameshowroom"@.len() != "room_board_gsa02_b0"@.len());
    assert("room_board_gsa02_b0"@.len() != "room_dw_green_room"@.len());
    assert("room_dw_couch_overworld_intro"@.len() != "room_gameshowroom"@.len());
    assert forall|j: int| 0 <= j < 1 implies !(#[trigger] ch3_prevs()[j] == prev && ch3_curs()[j] == cur) by {
        if j == 0 {
            assert(ch3_prevs()[0] == "room_dw_couch_overworld_intro"@);
        }
    }
    assert(ch3_prevs()[1] == prev && ch3_curs()[1] == cur && ch3_names()[1] == "ch3_enter_round1"@);
    lemma_transition_first(ch3_prevs(), ch3_curs(), ch3_names(), prev, cur, 1);
}

proof fn ch3_row_2(raw_changed: bool, prev: Seq<char>, cur: Seq<char>, settings: Settings, inp: &TickInputs)
    requires
        prev == "room_board_1"@,
        cur == "room_dw_chef"@,
    ensures
        spec_chapter_split(3, raw_changed, prev, cur, settings, inp) == "ch3_enter_cooking"@,
{
    reveal_strlit("room_board_1");
    reveal_strlit("PLACE_MENU");
    reveal_strlit("room_dw_chef");
    reveal_strlit("room_gameshowroom");
    reveal_strlit("room_dw_couch_overworld_intro");
    assert("room_board_1"@.len() != "PLACE_MENU"@.len());
    assert("room_board_1"@[5] != "room_dw_chef"@[5]);
    assert("room_board_1"@.len() != "room_gameshowroom"@.len());
    assert("room_dw_couch_overworld_intro"@.len() != "room_board_1"@.len());
    assert forall|j: int| 0 <= j < 2 implies !(#[trigger] ch3_prevs()[j] == prev && ch3_curs()[j] == cur) by {
        if j == 0 {
            assert(ch3_prevs()[0] == "room_dw_couch_overworld_intro"@);
        } else if j == 1 {
            assert(ch3_prevs()[1] == "room_gameshowroom"@);
        }
    }
    assert(ch3_prevs()[2] == prev && ch3_curs()[2] == cur && ch3_names()[2] == "ch3_enter_cooking"@);
    lemma_transition_first(ch3_prevs(), ch3_curs(), ch3_names(), prev, cur, 2);
}

proof fn ch3_row_3(raw_changed: bool, prev: Seq<char>, cur: Seq<char>, settings: Settings, inp: &TickInputs)
    requires
        prev == "room_board_2"@,
        cur == "room_dw_rhythm"@,
    ensures
        spec_chapter_split(3, raw_changed, prev, cur, settings, inp) == "ch3_enter_rhythm"@,
{
    reveal_strlit("room_board_2");
    reveal_strlit("PLACE_MENU");
    reveal_strlit("room_dw_rhythm");
    reveal_strlit("room_gameshowroom");
    reveal_strlit("room_dw_couch_overworld_intro");
    reveal_strlit("room_board_1");
    assert("room_board_2"@.len() != "PLACE_MENU"@.len());
    assert("room_board_2"@.len() != "room_dw_rhythm"@.len());
    assert("room_board_2"@.len() != "room_gameshowroom"@.len());
    assert("room_dw_couch_overworld_intro"@.len() != "room_board_2"@.len());
    assert("room_board_1"@[11] != "room_board_2"@[11]);
    assert forall|j: int| 0 <= j < 3 implies !(#[trigger] ch3_prevs()[j] == prev && ch3_curs()[j] == cur) by {
        if j == 0 {
            assert(ch3_prevs()[0] == "room_dw_couch_overworld_intro"@);
        } else if j == 1 {
            assert(ch3_prevs()[1] == "room_gameshowroom"@);
        } else if j == 2 {
            assert(ch3_prevs()[2] == "room_board_1"@);
        }
    }
    assert(ch3_prevs()[3] == prev && ch3_curs()[3] == cur && ch3_names()[3] == "ch3_enter_rhythm"@);
    lemma_transition_first(ch3_prevs(), ch3_curs(), ch3_names(), prev, cur, 3);
}

proof fn ch3_row_4(raw_changed: bool, prev: Seq<char>, cur: Seq<char>, settings: Settings, inp: &TickInputs)
    requires
        prev == "room_gameshowroom"@,
        cur == "room_dw_backstage"@,
    ensures
        spec_chapter_split(3, raw_changed, prev, cur, settings, inp) == "ch3_escape_doom_board"@,
{
    reveal_strlit("room_gameshowroom");
    reveal_strlit("PLACE_MENU");
    reveal_strlit("room_dw_backstage");
    reveal_strlit("room_dw_green_room");
    reveal_strlit("room_dw_couch_overworld_intro");
    reveal_strlit("room_board_gsa02_b0");
    reveal_strlit("room_board_1");
    reveal_strlit("room_board_2");
    assert("room_gameshowroom"@.len() != "PLACE_MENU"@.len());
    assert("room_gameshowroom"@[5] != "room_dw_backstage"@[5]);
    assert("room_dw_backstage"@.len() != "room_dw_green_room"@.len());
    assert("room_dw_couch_overworld_intro"@.len() != "room_gameshowroom"@.len());
    assert("room_board_gsa02_b0"@.len() != "room_dw_backstage"@.len());
    assert("room_board_1"@.len() != "room_gameshowroom"@.len());
    assert("room_board_2"@.len() != "room_gameshowroom"@.len());
    assert forall|j: int| 0 <= j < 4 implies !(#[trigger] ch3_prevs()[j] == prev && ch3_curs()[j] == cur) by {
        if j == 0 {
            assert(ch3_prevs()[0] == "room_dw_couch_overworld_intro"@);
        } else if j == 1 {
            assert(ch3_curs()[1] == "room_board_gsa02_b0"@);
        } else if j == 2 {
            assert(ch3_prevs()[2] == "room_board_1"@);
        } else if j == 3 {
            assert(ch3_prevs()[3] == "room_board_2"@);
        }
    }
    assert(ch3_prevs()[4] == prev && ch3_curs()[4] == cur && ch3_names()[4] == "ch3_escape_doom_board"@);
    lemma_transition_first(ch3_prevs(), ch3_curs(), ch3_names(), prev, cur, 4);
}

proof fn ch3_row_5(raw_changed: bool, prev: Seq<char>, cur: Seq<char>, settings: Settings, inp: &TickInputs)
    requires
        prev == "room_dw_backstage"@,
        cur == "room_dw_teevie_intro"@,
    ensures
        spec_chapter_split(3, raw_changed, prev, cur, settings, inp) == "ch3_enter_tv_world"@,
{
    reveal_strlit("room_dw_backstage");
    reveal_strlit("PLACE_MENU");
    reveal_strlit("room_dw_teevie_intro");
    reveal_strlit("room_gameshowroom");
    reveal_strlit("room_dw_couch_overworld_intro");
    reveal_strlit("room_board_1");
    reveal_strlit("room_board_2");
    assert("room_dw_backstage"@.len() != "PLACE_MENU"@.len());
    assert("room_dw_backstage"@.len() != "room_dw_teevie_intro"@.len());
    assert("room_dw_backstage"@[5] != "room_gameshowroom"@[5]);
    assert("room_dw_couch_overworld_intro"@.len() != "room_dw_backstage"@.len());
    assert("room_board_1"@.len() != "room_dw_backstage"@.len());
    assert("room_board_2"@.len() != "room_dw_backstage"@.len());
    assert forall|j: int| 0 <= j < 5 implies !(#[trigger] ch3_prevs()[j] == prev && ch3_curs()[j] == cur) by {
        if j == 0 {
            assert(ch3_prevs()[0] == "room_dw_couch_overworld_intro"@);
        } else if j == 1 {
            assert(ch3_prevs()[1] == "room_gameshowroom"@);
        } else if j == 2 {
            assert(ch3_prevs()[2] == "room_board_1"@);
        } else if j == 3 {
            assert(ch3_prevs()[3] == "room_board_2"@);
        } else if j == 4 {
            assert(ch3_prevs()[4] == "room_gameshowroom"@);
        }
    }
    assert(ch3_prevs()[5] == prev && ch3_curs()[5] == cur && ch3_names()[5] == "ch3_enter_tv_world"@);
    lemma_transition_first(ch3_prevs(), ch3_curs(), ch3_names(), prev, cur, 5);
}

proof fn ch3_row_6(raw_changed: bool, prev: Seq<char>, cur: Seq<char>, settings: Settings, inp: &TickInputs)
    requires
        prev == "room_dw_b3bs_jail2"@,
        cur == "room_dw_teevie_cowboy_zone_02_intro"@,
    ensures
        spec_chapter_split(3, raw_changed, prev, cur, settings, inp) == "ch3_2nd_shootout_room"@,
{
    reveal_strlit("room_dw_b3bs_jail2");
    reveal_strlit("PLACE_MENU");
    reveal_strlit("room_dw_teevie_cowboy_zone_02_intro");
    reveal_strlit("room_gameshowroom");
    reveal_strlit("room_dw_couch_overworld_intro");
    reveal_strlit("room_board_1");
    reveal_strlit("room_board_2");
    reveal_strlit("room_dw_backstage");
    assert("room_dw_b3bs_jail2"@.len() != "PLACE_MENU"@.len());
    assert("room_dw_b3bs_jail2"@.len() != "room_dw_teevie_cowboy_zone_02_intro"@.len());
    assert("room_dw_b3bs_jail2"@.len() != "room_gameshowroom"@.len());
    assert("room_dw_couch_overworld_intro"@.len() != "room_dw_b3bs_jail2"@.len());
    assert("room_board_1"@.len() != "room_dw_b3bs_jail2"@.len());
    assert("room_board_2"@.len() != "room_dw_b3bs_jail2"@.len());
    assert("room_dw_backstage"@.len() != "room_dw_b3bs_jail2"@.len());
    assert forall|j: int| 0 <= j < 6 implies !(#[trigger] ch3_prevs()[j] == prev && ch3_curs()[j] == cur) by {
        if j == 0 {
            assert(ch3_prevs()[0] == "room_dw_couch_overworld_intro"@);
        } else if j == 1 {
            assert(ch3_prevs()[1] == "room_gameshowroom"@);
        } else if j == 2 {
            assert(ch3_prevs()[2] == "room_board_1"@);
        } else if j == 3 {
            assert(ch3_prevs()[3] == "room_board_2"@);
        } else if j == 4 {
            assert(ch3_prevs()[4] == "room_gameshowroom"@);
        } else if j == 5 {
            assert(ch3_prevs()[5] == "room_dw_backstage"@);
        }
    }
    assert(ch3_prevs()[6] == prev && ch3_curs()[6] == cur && ch3_names()[6] == "ch3_2nd_shootout_room"@);
    lemma_transition_first(ch3_prevs(), ch3_curs(), ch3_names(), prev, cur, 6);
}

proof fn ch3_row_7(raw_changed: bool, prev: Seq<char>, cur: Seq<char>, settings: Settings, inp: &TickInputs)
    requires
        prev == "room_dw_teevie_stealth_d"@,
        cur == "room_dw_teevie_chef"@,
    ensures
        spec_chapter_split(3, raw_changed, prev, cur, settings, inp) == "ch3_enter_rouxls"@,
{
    reveal_strlit("room_dw_teevie_stealth_d");
    reveal_strlit("PLACE_MENU");
    reveal_strlit("room_dw_teevie_chef");
    reveal_strlit("room_gameshowroom");
    reveal_strlit("room_dw_couch_overworld_intro");
    reveal_strlit("room_board_1");
    reveal_strlit("room_board_2");
    reveal_strlit("room_dw_backstage");
    reveal_strlit("room_dw_b3bs_jail2");
    assert("room_dw_teevie_stealth_d"@.len() != "PLACE_MENU"@.len());
    assert("room_dw_teevie_stealth_d"@.len() != "room_dw_teevie_chef"@.len());
    assert("room_dw_teevie_stealth_d"@.len() != "room_gameshowroom"@.len());
    assert("room_dw_couch_overworld_intro"@.len() != "room_dw_teevie_stealth_d"@.len());
    assert("room_board_1"@.len() != "room_dw_teevie_stealth_d"@.len());
    assert("room_board_2"@.len() != "room_dw_teevie_stealth_d"@.len());
    assert("room_dw_backstage"@.len() != "room_dw_teevie_stealth_d"@.len());
    assert("room_dw_b3bs_jail2"@.len() != "room_dw_teevie_stealth_d"@.len());
    assert forall|j: int| 0 <= j < 7 implies !(#[trigger] ch3_prevs()[j] == prev && ch3_curs()[j] == cur) by {
        if j == 0 {
            assert(ch3_prevs()[0] == "room_dw_couch_overworld_intro"@);
        } else if j == 1 {
            assert(ch3_prevs()[1] == "room_gameshowroom"@);
        } else if j == 2 {
            assert(ch3_prevs()[2] == "room_board_1"@);
        } else if j == 3 {
            assert(ch3_prevs()[3] == "room_board_2"@);
        } else if j == 4 {
            assert(ch3_prevs()[4] == "room_gameshowroom"@);
        } else if j == 5 {
            assert(ch3_prevs()[5] == "room_dw_backstage"@);
        } else if j == 6 {
            assert(ch3_prevs()[6] == "room_dw_b3bs_jail2"@);
        }
    }
    assert(ch3_prevs()[7] == prev && ch3_curs()[7] == cur && ch3_names()[7] == "ch3_enter_rouxls"@);
    lemma_transition_first(ch3_prevs(), ch3_curs(), ch3_names(), prev, cur, 7);
}

proof fn ch3_row_8(raw_changed: bool, prev: Seq<char>, cur: Seq<char>, settings: Settings, inp: &TickInputs)
    requires
        prev == "room_dw_teevie_chef"@,
        cur == "room_dw_teevie_dust"@,
    ensures
        spec_chapter_split(3, raw_changed, prev, cur, settings, inp) == "ch3_exit_rouxls"@,
{
    reveal_strlit("room_dw_teevie_chef");
    reveal_strlit("PLACE_MENU");
    reveal_strlit("room_dw_teevie_dust");
    reveal_strlit("room_gameshowroom");
    reveal_strlit("room_dw_couch_overworld_intro");
    reveal_strlit("room_board_1");
    reveal_strlit("room_board_2");
    reveal_strlit("room_dw_backstage");
    reveal_strlit("room_dw_b3bs_jail2");
    reveal_strlit("room_dw_teevie_stealth_d");
    assert("room_dw_teevie_chef"@.len() != "PLACE_MENU"@.len());
    assert("room_dw_teevie_chef"@[15] != "room_dw_teevie_dust"@[15]);
    assert("room_dw_teevie_chef"@.len() != "room_gameshowroom"@.len());
    assert("room_dw_couch_overworld_intro"@.len() != "room_dw_teevie_chef"@.len());
    assert("room_board_1"@.len() != "room_dw_teevie_chef"@.len());
    assert("room_board_2"@.len() != "room_dw_teevie_chef"@.len());
    assert("room_dw_backstage"@.len() != "room_dw_teevie_chef"@.len());
    assert("room_dw_b3bs_jail2"@.len() != "room_dw_teevie_chef"@.len());
    assert("room_dw_teevie_stealth_d"@.len() != "room_dw_teevie_chef"@.len());
    assert forall|j: int| 0 <= j < 8 implies !(#[trigger] ch3_prevs()[j] == prev && ch3_curs()[j] == cur) by {
        if j == 0 {
            assert(ch3_prevs()[0] == "room_dw_couch_overworld_intro"@);
        } else if j == 1 {
            assert(ch3_prevs()[1] == "room_gameshowroom"@);
        } else if j == 2 {
            assert(ch3_prevs()[2] == "room_board_1"@);
        } else if j == 3 {
            assert(ch3_prevs()[3] == "room_board_2"@);
        } else if j == 4 {
            assert(ch3_prevs()[4] == "room_gameshowroom"@);
        } else if j == 5 {
            assert(ch3_prevs()[5] == "room_dw_backstage"@);
        } else if j == 6 {
            assert(ch3_prevs()[6] == "room_dw_b3bs_jail2"@);
        } else if j == 7 {
            assert(ch3_prevs()[7] == "room_dw_teevie_stealth_d"@);
        }
    }
    assert(ch3_prevs()[8] == prev && ch3_curs()[8] == cur && ch3_names()[8] == "ch3_exit_rouxls"@);
    lemma_transition_first(ch3_prevs(), ch3_curs(), ch3_names(), prev, cur, 8);
}

proof fn ch3_row_9(raw_changed: bool, prev: Seq<char>, cur: Seq<char>, settings: Settings, inp: &TickInputs)
    requires
        prev == "room_dw_snow_zone_battle"@,
        cur == "room_dw_snow_zone"@,
    ensures
        spec_chapter_split(3, raw_changed, prev, cur, settings, inp) == "ch3_escape_doom_board"@,
{
    reveal_strlit("room_dw_snow_zone_battle");
    reveal_strlit("PLACE_MENU");
    reveal_strlit("room_dw_snow_zone");
    reveal_strlit("room_gameshowroom");
    reveal_strlit("room_dw_couch_overworld_intro");
    reveal_strlit("room_board_1");
    reveal_strlit("room_board_2");
    reveal_strlit("room_dw_backstage");
    reveal_strlit("room_dw_b3bs_jail2");
    reveal_strlit("room_dw_teevie_stealth_d");
    reveal_strlit("room_dw_teevie_chef");
    assert("room_dw_snow_zone_battle"@.len() != "PLACE_MENU"@.len());
    assert("room_dw_snow_zone_battle"@.len() != "room_dw_snow_zone"@.len());
    assert("room_dw_snow_zone_battle"@.len() != "room_gameshowroom"@.len());
    assert("room_dw_couch_overworld_intro"@.len() != "room_dw_snow_zone_battle"@.len());
    assert("room_board_1"@.len() != "room_dw_snow_zone_battle"@.len());
    assert("room_board_2"@.len() != "room_dw_snow_zone_battle"@.len());
    assert("room_dw_backstage"@.len() != "room_dw_snow_zone_battle"@.len());
    assert("room_dw_b3bs_jail2"@.len() != "room_dw_snow_zone_battle"@.len());
    assert("room_dw_teevie_stealth_d"@[8] != "room_dw_snow_zone_battle"@[8]);
    assert("room_dw_teevie_chef"@.len() != "room_dw_snow_zone_battle"@.len());
    assert forall|j: int| 0 <= j < 9 implies !(#[trigger] ch3_prevs()[j] == prev && ch3_curs()[j] == cur) by {
        if j == 0 {
            assert(ch3_prevs()[0] == "room_dw_couch_overworld_intro"@);
        } else if j == 1 {
            assert(ch3_prevs()[1] == "room_gameshowroom"@);
        } else if j == 2 {
            assert(ch3_prevs()[2] == "room_board_1"@);
        } else if j == 3 {
            assert(ch3_prevs()[3] == "room_board_2"@);
        } else if j == 4 {
            assert(ch3_prevs()[4] == "room_gameshowroom"@);
        } else if j == 5 {
            assert(ch3_prevs()[5] == "room_dw_backstage"@);
        } else if j == 6 {
            assert(ch3_prevs()[6] == "room_dw_b3bs_jail2"@);
        } else if j == 7 {
            assert(ch3_prevs()[7] == "room_dw_teevie_stealth_d"@);
        } else if j == 8 {
            assert(ch3_prevs()[8] == "room_dw_teevie_chef"@);
        }
    }
    assert(ch3_prevs()[9] == prev && ch3_curs()[9] == cur && ch3_names()[9] == "ch3_escape_doom_board"@);
    lemma_transition_first(ch3_prevs(), ch3_curs(), ch3_names(), prev, cur, 9);
}

proof fn ch3_row_10(raw_changed: bool, prev: Seq<char>, cur: Seq<char>, settings: Settings, inp: &TickInputs)
    requires
        prev == "room_dw_snow_zone"@,
        cur == "room_gameover"@,
    ensures
        spec_chapter_split(3, raw_changed, prev, cur, settings, inp) == "ch3_knight_death"@,
{
    reveal_strlit("room_dw_snow_zone");
    reveal_strlit("PLACE_MENU");
    reveal_strlit("room_gameover");
    reveal_strlit("room_gameshowroom");
    reveal_strlit("room_dw_couch_overworld_intro");
    reveal_strlit("room_board_1");
    reveal_strlit("room_board_2");
    reveal_strlit("room_dw_backstage");
    reveal_strlit("room_dw_b3bs_jail2");
    reveal_strlit("room_dw_teevie_stealth_d");
    reveal_strlit("room_dw_teevie_chef");
    reveal_strlit("room_dw_snow_zone_battle");
    assert("room_dw_snow_zone"@.len() != "PLACE_MENU"@.len());
    assert("room_dw_snow_zone"@.len() != "room_gameover"@.len());
    assert("room_dw_snow_zone"@[5] != "room_gameshowroom"@[5]);
    assert("room_dw_couch_overworld_intro"@.len() != "room_dw_snow_zone"@.len());
    assert("room_board_1"@.len() != "room_dw_snow_zone"@.len());
    assert("room_board_2"@.len() != "room_dw_snow_zone"@.len());
    assert("room_dw_backstage"@[8] != "room_dw_snow_zone"@[8]);
    assert("room_dw_b3bs_jail2"@.len() != "room_dw_snow_zone"@.len());
    assert("room_dw_teevie_stealth_d"@.len() != "room_dw_snow_zone"@.len());
    assert("room_dw_teevie_chef"@.len() != "room_dw_snow_zone"@.len());
    assert("room_dw_snow_zone_battle"@.len() != "room_dw_snow_zone"@.len());
    assert forall|j: int| 0 <= j < 10 implies !(#[trigger] ch3_prevs()[j] == prev && ch3_curs()[j] == cur) by {
        if j == 0 {
            assert(ch3_prevs()[0] == "room_dw_couch_overworld_intro"@);
        } else if j == 1 {
            assert(ch3_prevs()[1] == "room_gameshowroom"@);
        } else if j == 2 {
            assert(ch3_prevs()[2] == "room_board_1"@);
        } else if j == 3 {
            assert(ch3_prevs()[3] == "room_board_2"@);
        } else if j == 4 {
            assert(ch3_prevs()[4] == "room_gameshowroom"@);
        } else if j == 5 {
            assert(ch3_prevs()[5] == "room_dw_backstage"@);
        } else if j == 6 {
            assert(ch3_prevs()[6] == "room_dw_b3bs_jail2"@);
        } else if j == 7 {
            assert(ch3_prevs()[7] == "room_dw_teevie_stealth_d"@);
        } else if j == 8 {
            assert(ch3_prevs()[8] == "room_dw_teevie_chef"@);
        } else if j == 9 {
            assert(ch3_prevs()[9] == "room_dw_snow_zone_battle"@);
        }
    }
    assert(ch3_prevs()[10] == prev && ch3_curs()[10] == cur && ch3_names()[10] == "ch3_knight_death"@);
    lemma_transition_first(ch3_prevs(), ch3_curs(), ch3_names(), prev, cur, 10);
}

proof fn ch3_row_11(raw_changed: bool, prev: Seq<char>, cur: Seq<char>, settings: Settings, inp: &TickInputs)
    requires
        prev == "room_board_1_sword_trees"@,
        cur == "room_dw_console_room"@,
    ensures
        spec_chapter_split(3, raw_changed, prev, cur, settings, inp) == "ch3_ice_key"@,
{
    reveal_strlit("room_board_1_sword_trees");
    reveal_strlit("PLACE_MENU");
    reveal_strlit("room_dw_console_room");
    reveal_strlit("room_gameshowroom");
    reveal_strlit("room_dw_couch_overworld_intro");
    reveal_strlit("room_board_1");
    reveal_strlit("room_board_2");
    reveal_strlit("room_dw_backstage");
    reveal_strlit("room_dw_b3bs_jail2");
    reveal_strlit("room_dw_teevie_stealth_d");
    reveal_strlit("room_dw_teevie_chef");
    reveal_strlit("room_dw_snow_zone_battle");
    reveal_strlit("room_dw_snow_zone");
    assert("room_board_1_sword_trees"@.len() != "PLACE_MENU"@.len());
    assert("room_board_1_sword_trees"@.len() != "room_dw_console_room"@.len());
    assert("room_board_1_sword_trees"@.len() != "room_gameshowroom"@.len());
    assert("room_dw_couch_overworld_intro"@.len() != "room_board_1_sword_trees"@.len());
    assert("room_board_1"@.len() != "room_board_1_sword_trees"@.len());
    assert("room_board_2"@.len() != "room_board_1_sword_trees"@.len());
    assert("room_dw_backstage"@.len() != "room_board_1_sword_trees"@.len());
    assert("room_dw_b3bs_jail2"@.len() != "room_board_1_sword_trees"@.len());
    assert("room_dw_teevie_stealth_d"@[5] != "room_board_1_sword_trees"@[5]);
    assert("room_dw_teevie_chef"@.len() != "room_board_1_sword_trees"@.len());
    assert("room_dw_snow_zone_battle"@[5] != "room_board_1_sword_trees"@[5]);
    assert("room_dw_snow_zone"@.len() != "room_board_1_sword_trees"@.len());
    assert forall|j: int| 0 <= j < 11 implies !(#[trigger] ch3_prevs()[j] == prev && ch3_curs()[j] == cur) by {
        if j == 0 {
            assert(ch3_prevs()[0] == "room_dw_couch_overworld_intro"@);
        } else if j == 1 {
            assert(ch3_prevs()[1] == "room_gameshowroom"@);
        } else if j == 2 {
            assert(ch3_prevs()[2] == "room_board_1"@);
        } else if j == 3 {
            assert(ch3_prevs()[3] == "room_board_2"@);
        } else if j == 4 {
            assert(ch3_prevs()[4] == "room_gameshowroom"@);
        } else if j == 5 {
            assert(ch3_prevs()[5] == "room_dw_backstage"@);
        } else if j == 6 {
            assert(ch3_prevs()[6] == "room_dw_b3bs_jail2"@);
        } else if j == 7 {
            assert(ch3_prevs()[7] == "room_dw_teevie_stealth_d"@);
        } else if j == 8 {
            assert(ch3_prevs()[8] == "room_dw_teevie_chef"@);
        } else if j == 9 {
            assert(ch3_prevs()[9] == "room_dw_snow_zone_battle"@);
        } else if j == 10 {
            assert(ch3_prevs()[10] == "room_dw_snow_zone"@);
        }
    }
    assert(ch3_prevs()[11] == prev && ch3_curs()[11] == cur && ch3_names()[11] == "ch3_ice_key"@);
    lemma_transition_first(ch3_prevs(), ch3_curs(), ch3_names(), prev, cur, 11);
}

proof fn ch3_row_12(raw_changed: bool, prev: Seq<char>, cur: Seq<char>, settings: Settings, inp: &TickInputs)
    requires
        prev == "room_board_dungeon_2"@,
        cur == "room_dw_console_room"@,
    ensures
        spec_chapter_split(3, raw_changed, prev, cur, settings, inp) == "ch3_shelter_key"@,
{
    reveal_strlit("room_board_dungeon_2");
    reveal_strlit("PLACE_MENU");
    reveal_strlit("room_dw_console_room");
    reveal_strlit("room_gameshowroom");
    reveal_strlit("room_dw_couch_overworld_intro");
    reveal_strlit("room_board_1");
    reveal_strlit("room_board_2");
    reveal_strlit("room_dw_backstage");
    reveal_strlit("room_dw_b3bs_jail2");
    reveal_strlit("room_dw_teevie_stealth_d");
    reveal_strlit("room_dw_teevie_chef");
    reveal_strlit("room_dw_snow_zone_battle");
    reveal_strlit("room_dw_snow_zone");
    reveal_strlit("room_board_1_sword_trees");
    assert("room_board_dungeon_2"@.len() != "PLACE_MENU"@.len());
    assert("room_board_dungeon_2"@[5] != "room_dw_console_room"@[5]);
    assert("room_board_dungeon_2"@.len() != "room_gameshowroom"@.len());
    assert("room_dw_couch_overworld_intro"@.len() != "room_board_dungeon_2"@.len());
    assert("room_board_1"@.len() != "room_board_dungeon_2"@.len());
    assert("room_board_2"@.len() != "room_board_dungeon_2"@.len());
    assert("room_dw_backstage"@.len() != "room_board_dungeon_2"@.len());
    assert("room_dw_b3bs_jail2"@.len() != "room_board_dungeon_2"@.len());
    assert("room_dw_teevie_stealth_d"@.len() != "room_board_dungeon_2"@.len());
    assert("room_dw_teevie_chef"@.len() != "room_board_dungeon_2"@.len());
    assert("room_dw_snow_zone_battle"@.len() != "room_board_dungeon_2"@.len());
    assert("room_dw_snow_zone"@.len() != "room_board_dungeon_2"@.len());
    assert("room_board_1_sword_trees"@.len() != "room_board_dungeon_2"@.len());
    assert forall|j: int| 0 <= j < 12 implies !(#[trigger] ch3_prevs()[j] == prev && ch3_curs()[j] == cur) by {
        if j == 0 {
            assert(ch3_prevs()[0] == "room_dw_couch_overworld_intro"@);
        } else if j == 1 {
            assert(ch3_prevs()[1] == "room_gameshowroom"@);
        } else if j == 2 {
            assert(ch3_prevs()[2] == "room_board_1"@);
        } else if j == 3 {
            assert(ch3_prevs()[3] == "room_board_2"@);
        } else if j == 4 {
            assert(ch3_prevs()[4] == "room_gameshowroom"@);
        } else if j == 5 {
            assert(ch3_prevs()[5] == "room_dw_backstage"@);
        } else if j == 6 {
            assert(ch3_prevs()[6] == "room_dw_b3bs_jail2"@);
        } else if j == 7 {
            assert(ch3_prevs()[7] == "room_dw_teevie_stealth_d"@);
        } else if j == 8 {
            assert(ch3_prevs()[8] == "room_dw_teevie_chef"@);
        } else if j == 9 {
            assert(ch3_prevs()[9] == "room_dw_snow_zone_battle"@);
        } else if j == 10 {
            assert(ch3_prevs()[10] == "room_dw_snow_zone"@);
        } else if j == 11 {
            assert(ch3_prevs()[11] == "room_board_1_sword_trees"@);
        }
    }
    assert(ch3_prevs()[12] == prev && ch3_curs()[12] == cur && ch3_names()[12] == "ch3_shelter_key"@);
    lemma_transition_first(ch3_prevs(), ch3_curs(), ch3_names(), prev, cur, 12);
}

proof fn ch3_row_13(raw_changed: bool, prev: Seq<char>, cur: Seq<char>, settings: Settings, inp: &TickInputs)
    requires
        prev == "room_board_preshadowmantle"@,
        cur == "room_shadowmantle"@,
    ensures
        spec_chapter_split(3, raw_changed, prev, cur, settings, inp) == "ch3_enter_mantle"@,
{
    reveal_strlit("room_board_preshadowmantle");
    reveal_strlit("PLACE_MENU");
    reveal_strlit("room_shadowmantle");
    reveal_strlit("room_gameshowroom");
    reveal_strlit("room_dw_couch_overworld_intro");
    reveal_strlit("room_board_1");
    reveal_strlit("room_board_2");
    reveal_strlit("room_dw_backstage");
    reveal_strlit("room_dw_b3bs_jail2");
    reveal_strlit("room_dw_teevie_stealth_d");
    reveal_strlit("room_dw_teevie_chef");
    reveal_strlit("room_dw_snow_zone_battle");
    reveal_strlit("room_dw_snow_zone");
    reveal_strlit("room_board_1_sword_trees");
    reveal_strlit("room_board_dungeon_2");
    assert("room_board_preshadowmantle"@.len() != "PLACE_MENU"@.len());
    assert("room_board_preshadowmantle"@.len() != "room_shadowmantle"@.len());
    assert("room_board_preshadowmantle"@.len() != "room_gameshowroom"@.len());
    assert("room_dw_couch_overworld_intro"@.len() != "room_board_preshadowmantle"@.len());
    assert("room_board_1"@.len() != "room_board_preshadowmantle"@.len());
    assert("room_board_2"@.len() != "room_board_preshadowmantle"@.len());
    assert("room_dw_backstage"@.len() != "room_board_preshadowmantle"@.len());
    assert("room_dw_b3bs_jail2"@.len() != "room_board_preshadowmantle"@.len());
    assert("room_dw_teevie_stealth_d"@.len() != "room_board_preshadowmantle"@.len());
    assert("room_dw_teevie_chef"@.len() != "room_board_preshadowmantle"@.len());
    assert("room_dw_snow_zone_battle"@.len() != "room_board_preshadowmantle"@.len());
    assert("room_dw_snow_zone"@.len() != "room_board_preshadowmantle"@.len());
    assert("room_board_1_sword_trees"@.len() != "room_board_preshadowmantle"@.len());
    assert("room_board_dungeon_2"@.len() != "room_board_preshadowmantle"@.len());
    assert forall|j: int| 0 <= j < 13 implies !(#[trigger] ch3_prevs()[j] == prev && ch3_curs()[j] == cur) by {
        if j == 0 {
            assert(ch3_prevs()[0] == "room_dw_couch_overworld_intro"@);
        } else if j == 1 {
            assert(ch3_prevs()[1] == "room_gameshowroom"@);
        } else if j == 2 {
            assert(ch3_prevs()[2] == "room_board_1"@);
        } else if j == 3 {
            assert(ch3_prevs()[3] == "room_board_2"@);
        } else if j == 4 {
            assert(ch3_prevs()[4] == "room_gameshowroom"@);
        } else if j == 5 {
            assert(ch3_prevs()[5] == "room_dw_backstage"@);
        } else if j == 6 {
            assert(ch3_prevs()[6] == "room_dw_b3bs_jail2"@);
        } else if j == 7 {
            assert(ch3_prevs()[7] == "room_dw_teevie_stealth_d"@);
        } else if j == 8 {
            assert(ch3_prevs()[8] == "room_dw_teevie_chef"@);
        } else if j == 9 {
            assert(ch3_prevs()[9] == "room_dw_snow_zone_battle"@);
        } else if j == 10 {
            assert(ch3_prevs()[10] == "room_dw_snow_zone"@);
        } else if j == 11 {
            assert(ch3_prevs()[11] == "room_board_1_sword_trees"@);
        } else if j == 12 {
            assert(ch3_prevs()[12] == "room_board_dungeon_2"@);
        }
    }
    assert(ch3_prevs()[13] == prev && ch3_curs()[13] == cur && ch3_names()[13] == "ch3_enter_mantle"@);
    lemma_transition_first(ch3_prevs(), ch3_curs(), ch3_names(), prev, cur, 13);
}

proof fn ch3_row_14(raw_changed: bool, prev: Seq<char>, cur: Seq<char>, settings: Settings, inp: &TickInputs)
    requires
        prev == "room_board_postshadowmantle"@,
        cur == "room_dw_console_room"@,
    ensures
        spec_chapter_split(3, raw_changed, prev, cur, settings, inp) == "ch3_exit_mantle"@,
{
    reveal_strlit("room_board_postshadowmantle");
    reveal_strlit("PLACE_MENU");
    reveal_strlit("room_dw_console_room");
    reveal_strlit("room_gameshowroom");
    reveal_strlit("room_dw_couch_overworld_intro");
    reveal_strlit("room_board_1");
    reveal_strlit("room_board_2");
    reveal_strlit("room_dw_backstage");
    reveal_strlit("room_dw_b3bs_jail2");
    reveal_strlit("room_dw_teevie_stealth_d");
    reveal_strlit("room_dw_teevie_chef");
    reveal_strlit("room_dw_snow_zone_battle");
    reveal_strlit("room_dw_snow_zone");
    reveal_strlit("room_board_1_sword_trees");
    reveal_strlit("room_board_dungeon_2");
    reveal_strlit("room_board_preshadowmantle");
    assert("room_board_postshadowmantle"@.len() != "PLACE_MENU"@.len());
    assert("room_board_postshadowmantle"@.len() != "room_dw_console_room"@.len());
    assert("room_board_postshadowmantle"@.len() != "room_gameshowroom"@.len());
    assert("room_dw_couch_overworld_intro"@.len() != "room_board_postshadowmantle"@.len());
    assert("room_board_1"@.len() != "room_board_postshadowmantle"@.len());
    assert("room_board_2"@.len() != "room_board_postshadowmantle"@.len());
    assert("room_dw_backstage"@.len() != "room_board_postshadowmantle"@.len());
    assert("room_dw_b3bs_jail2"@.len() != "room_board_postshadowmantle"@.len());
    assert("room_dw_teevie_stealth_d"@.len() != "room_board_postshadowmantle"@.len());
    assert("room_dw_teevie_chef"@.len() != "room_board_postshadowmantle"@.len());
    assert("room_dw_snow_zone_battle"@.len() != "room_board_postshadowmantle"@.len());
    assert("room_dw_snow_zone"@.len() != "room_board_postshadowmantle"@.len());
    assert("room_board_1_sword_trees"@.len() != "room_board_postshadowmantle"@.len());
    assert("room_board_dungeon_2"@.len() != "room_board_postshadowmantle"@.len());
    assert("room_board_preshadowmantle"@.len() != "room_board_postshadowmantle"@.len());
    assert forall|j: int| 0 <= j < 14 implies !(#[trigger] ch3_prevs()[j] == prev && ch3_curs()[j] == cur) by {
        if j == 0 {
            assert(ch3_prevs()[0] == "room_dw_couch_overworld_intro"@);
        } else if j == 1 {
            assert(ch3_prevs()[1] == "room_gameshowroom"@);
        } else if j == 2 {
            assert(ch3_prevs()[2] == "room_board_1"@);
        } else if j == 3 {
            assert(ch3_prevs()[3] == "room_board_2"@);
        } else if j == 4 {
            assert(ch3_prevs()[4] == "room_gameshowroom"@);
        } else if j == 5 {
            assert(ch3_prevs()[5] == "room_dw_backstage"@);
        } else if j == 6 {
            assert(ch3_prevs()[6] == "room_dw_b3bs_jail2"@);
        } else if j == 7 {
            assert(ch3_prevs()[7] == "room_dw_teevie_stealth_d"@);
        } else if j == 8 {
            assert(ch3_prevs()[8] == "room_dw_teevie_chef"@);
        } else if j == 9 {
            assert(ch3_prevs()[9] == "room_dw_snow_zone_battle"@);
        } else if j == 10 {
            assert(ch3_prevs()[10] == "room_dw_snow_zone"@);
        } else if j == 11 {
            assert(ch3_prevs()[11] == "room_board_1_sword_trees"@);
        } else if j == 12 {
            assert(ch3_prevs()[12] == "room_board_dungeon_2"@);
        } else if j == 13 {
            assert(ch3_prevs()[13] == "room_board_preshadowmantle"@);
        }
    }
    assert(ch3_prevs()[14] == prev && ch3_curs()[14] == cur && ch3_names()[14] == "ch3_exit_mantle"@);
    lemma_transition_first(ch3_prevs(), ch3_curs(), ch3_names(), prev, cur, 14);
}

proof fn ch3_row_15(raw_changed: bool, prev: Seq<char>, cur: Seq<char>, settings: Settings, inp: &TickInputs)
    requires
        prev == "room_town_shelter"@,
        cur == "room_ed"@,
    ensures
        spec_chapter_split(3, raw_changed, prev, cur, settings, inp) == "ch3_ending_ost"@,
{
    reveal_strlit("room_town_shelter");
    reveal_strlit("PLACE_MENU");
    reveal_strlit("room_ed");
    reveal_strlit("room_gameshowroom");
    reveal_strlit("room_dw_couch_overworld_intro");
    reveal_strlit("room_board_1");
    reveal_strlit("room_board_2");
    reveal_strlit("room_dw_backstage");
    reveal_strlit("room_dw_b3bs_jail2");
    reveal_strlit("room_dw_teevie_stealth_d");
    reveal_strlit("room_dw_teevie_chef");
    reveal_strlit("room_dw_snow_zone_battle");
    reveal_strlit("room_dw_snow_zone");
    reveal_strlit("room_board_1_sword_trees");
    reveal_strlit("room_board_dungeon_2");
    reveal_strlit("room_board_preshadowmantle");
    reveal_strlit("room_board_postshadowmantle");
    assert("room_town_shelter"@.len() != "PLACE_MENU"@.len());
    assert("room_town_shelter"@.len() != "room_ed"@.len());
    assert("room_town_shelter"@[5] != "room_gameshowroom"@[5]);
    assert("room_dw_couch_overworld_intro"@.len() != "room_town_shelter"@.len());
    assert("room_board_1"@.len() != "room_town_shelter"@.len());
    assert("room_board_2"@.len() != "room_town_shelter"@.len());
    assert("room_dw_backstage"@[5] != "room_town_shelter"@[5]);
    assert("room_dw_b3bs_jail2"@.len() != "room_town_shelter"@.len());
    assert("room_dw_teevie_stealth_d"@.len() != "room_town_shelter"@.len());
    assert("room_dw_teevie_chef"@.len() != "room_town_shelter"@.len());
    assert("room_dw_snow_zone_battle"@.len() != "room_town_shelter"@.len());
    assert("room_dw_snow_zone"@[5] != "room_town_shelter"@[5]);
    assert("room_board_1_sword_trees"@.len() != "room_town_shelter"@.len());
    assert("room_board_dungeon_2"@.len() != "room_town_shelter"@.len());
    assert("room_board_preshadowmantle"@.len() != "room_town_shelter"@.len());
    assert("room_board_postshadowmantle"@.len() != "room_town_shelter"@.len());
    assert forall|j: int| 0 <= j < 15 implies !(#[trigger] ch3_prevs()[j] == prev && ch3_curs()[j] == cur) by {
        if j == 0 {
            assert(ch3_prevs()[0] == "room_dw_couch_overworld_intro"@);
        } else if j == 1 {
            assert(ch3_prevs()[1] == "room_gameshowroom"@);
        } else if j == 2 {
            assert(ch3_prevs()[2] == "room_board_1"@);
        } else if j == 3 {
            assert(ch3_prevs()[3] == "room_board_2"@);
        } else if j == 4 {
            assert(ch3_prevs()[4] == "room_gameshowroom"@);
        } else if j == 5 {
            assert(ch3_prevs()[5] == "room_dw_backstage"@);
        } else if j == 6 {
            assert(ch3_prevs()[6] == "room_dw_b3bs_jail2"@);
        } else if j == 7 {
            assert(ch3_prevs()[7] == "room_dw_teevie_stealth_d"@);
        } else if j == 8 {
            assert(ch3_prevs()[8] == "room_dw_teevie_chef"@);
        } else if j == 9 {
            assert(ch3_prevs()[9] == "room_dw_snow_zone_battle"@);
        } else if j == 10 {
            assert(ch3_prevs()[10] == "room_dw_snow_zone"@);
        } else if j == 11 {
            assert(ch3_prevs()[11] == "room_board_1_sword_trees"@);
        } else if j == 12 {
            assert(ch3_prevs()[12] == "room_board_dungeon_2"@);
        } else if j == 13 {
            assert(ch3_prevs()[13] == "room_board_preshadowmantle"@);
        } else if j == 14 {
            assert(ch3_prevs()[14] == "room_board_postshadowmantle"@);
        }
    }
    assert(ch3_prevs()[15] == prev && ch3_curs()[15] == cur && ch3_names()[15] == "ch3_ending_ost"@);
    lemma_transition_first(ch3_prevs(), ch3_curs(), ch3_names(), prev, cur, 15);
}

proof fn ch4_row_0(raw_changed: bool, prev: Seq<char>, cur: Seq<char>, settings: Settings, inp: &TickInputs)
    requires
        prev == "room_schooldoor"@,
        cur == "room_dw_castle_area_1"@,
    ensures
        spec_chapter_split(4, raw_changed, prev, cur, settings, inp) == "ch4_enter_castle_town"@,
{
    reveal_strlit("room_schooldoor");
    reveal_strlit("PLACE_MENU");
    reveal_strlit("room_dw_castle_area_1");
    assert("room_schooldoor"@.len() != "PLACE_MENU"@.len());
    assert("room_schooldoor"@.len() != "room_dw_castle_area_1"@.len());
    assert(ch4_prevs()[0] == prev && ch4_curs()[0] == cur && ch4_names()[0] == "ch4_enter_castle_town"@);
    lemma_transition_first(ch4_prevs(), ch4_curs(), ch4_names(), prev, cur, 0);
}

proof fn ch4_row_1(raw_changed: bool, prev: Seq<char>, cur: Seq<char>, settings: Settings, inp: &TickInputs)
    requires
        prev == "room_dw_church_knightclimb_post"@,
        cur == "room_dw_castle_area_1"@,
    ensures
        spec_chapter_split(4, raw_changed, prev, cur, settings, inp) == "ch4_enter_castle_town"@,
{
    reveal_strlit("room_dw_church_knightclimb_post");
    reveal_strlit("PLACE_MENU");
    reveal_strlit("room_dw_castle_area_1");
    reveal_strlit("room_schooldoor");
    assert("room_dw_church_knightclimb_post"@.len() != "PLACE_MENU"@.len());
    assert("room_dw_church_knightclimb_post"@.len() != "room_dw_castle_area_1"@.len());
    assert("room_schooldoor"@.len() != "room_dw_church_knightclimb_post"@.len());
    assert forall|j: int| 0 <= j < 1 implies !(#[trigger] ch4_prevs()[j] == prev && ch4_curs()[j] == cur) by {
        if j == 0 {
            assert(ch4_prevs()[0] == "room_schooldoor"@);
        }
    }
    assert(ch4_prevs()[1] == prev && ch4_curs()[1] == cur && ch4_names()[1] == "ch4_enter_castle_town"@);
    lemma_transition_first(ch4_prevs(), ch4_curs(), ch4_names(), prev, cur, 1);
}

proof fn ch4_row_2(raw_changed: bool, prev: Seq<char>, cur: Seq<char>, settings: Settings, inp: &TickInputs)
    requires
        prev == "room_town_noellehouse"@,
        cur == "room_lw_noellehouse_main"@,
    ensures
        spec_chapter_split(4, raw_changed, prev, cur, settings, inp) == "ch4_enter_mansion"@,
{
    reveal_strlit("room_town_noellehouse");
    reveal_strlit("PLACE_MENU");
    reveal_strlit("room_lw_noellehouse_main");
    reveal_strlit("room_schooldoor");
    reveal_strlit("room_dw_church_knightclimb_post");
    assert("room_town_noellehouse"@.len() != "PLACE_MENU"@.len());
    assert("room_town_noellehouse"@.len() != "room_lw_noellehouse_main"@.len());
    assert("room_schooldoor"@.len() != "room_town_noellehouse"@.len());
    assert("room_dw_church_knightclimb_post"@.len() != "room_town_noellehouse"@.len());
    assert forall|j: int| 0 <= j < 2 implies !(#[trigger] ch4_prevs()[j] == prev && ch4_curs()[j] == cur) by {
        if j == 0 {
            assert(ch4_prevs()[0] == "room_schooldoor"@);
        } else if j == 1 {
            assert(ch4_prevs()[1] == "room_dw_church_knightclimb_post"@);
        }
    }
    assert(ch4_prevs()[2] == prev && ch4_curs()[2] == cur && ch4_names()[2] == "ch4_enter_mansion"@);
    lemma_transition_first(ch4_prevs(), ch4_curs(), ch4_names(), prev, cur, 2);
}

proof fn ch4_row_3(raw_changed: bool, prev: Seq<char>, cur: Seq<char>, settings: Settings, inp: &TickInputs)
    requires
        prev == "room_torhouse"@,
        cur == "room_dw_church_intro1"@,
    ensures
        spec_chapter_split(4, raw_changed, prev, cur, settings, inp) == "ch4_chairskip"@,
{
    reveal_strlit("room_torhouse");
    reveal_strlit("PLACE_MENU");
    reveal_strlit("room_dw_church_intro1");
    reveal_strlit("room_schooldoor");
    reveal_strlit("room_dw_church_knightclimb_post");
    reveal_strlit("room_town_noellehouse");
    assert("room_torhouse"@.len() != "PLACE_MENU"@.len());
    assert("room_torhouse"@.len() != "room_dw_church_intro1"@.len());
    assert("room_schooldoor"@.len() != "room_torhouse"@.len());
    assert("room_dw_church_knightclimb_post"@.len() != "room_torhouse"@.len());
    assert("room_town_noellehouse"@.len() != "room_torhouse"@.len());
    assert forall|j: int| 0 <= j < 3 implies !(#[trigger] ch4_prevs()[j] == prev && ch4_curs()[j] == cur) by {
        if j == 0 {
            assert(ch4_prevs()[0] == "room_schooldoor"@);
        } else if j == 1 {
            assert(ch4_prevs()[1] == "room_dw_church_knightclimb_post"@);
        } else if j == 2 {
            assert(ch4_prevs()[2] == "room_town_noellehouse"@);
        }
    }
    assert(ch4_prevs()[3] == prev && ch4_curs()[3] == cur && ch4_names()[3] == "ch4_chairskip"@);
    lemma_transition_first(ch4_prevs(), ch4_curs(), ch4_names(), prev, cur, 3);
}

proof fn ch4_row_4(raw_changed: bool, prev: Seq<char>, cur: Seq<char>, settings: Settings, inp: &TickInputs)
    requires
        prev == "room_town_church"@,
        cur == "room_dw_church_intro1"@,
    ensures
        spec_chapter_split(4, raw_changed, prev, cur, settings, inp) == "ch4_enter_sanctuary"@,
{
    reveal_strlit("room_town_church");
    reveal_strlit("PLACE_MENU");
    reveal_strlit("room_dw_church_intro1");
    reveal_strlit("room_schooldoor");
    reveal_strlit("room_dw_church_knightclimb_post");
    reveal_strlit("room_town_noellehouse");
    reveal_strlit("room_torhouse");
    assert("room_town_church"@.len() != "PLACE_MENU"@.len());
    assert("room_town_church"@.len() != "room_dw_church_intro1"@.len());
    assert("room_schooldoor"@.len() != "room_town_church"@.len());
    assert("room_dw_church_knightclimb_post"@.len() != "room_town_church"@.len());
    assert("room_town_noellehouse"@.len() != "room_town_church"@.len());
    assert("room_torhouse"@.len() != "room_town_church"@.len());
    assert forall|j: int| 0 <= j < 4 implies !(#[trigger] ch4_prevs()[j] == prev && ch4_curs()[j] == cur) by {
        if j == 0 {
            assert(ch4_prevs()[0] == "room_schooldoor"@);
        } else if j == 1 {
            assert(ch4_prevs()[1] == "room_dw_church_knightclimb_post"@);
        } else if j == 2 {
            assert(ch4_prevs()[2] == "room_town_noellehouse"@);
        } else if j == 3 {
            assert(ch4_prevs()[3] == "room_torhouse"@);
        }
    }
    assert(ch4_prevs()[4] == prev && ch4_curs()[4] == cur && ch4_names()[4] == "ch4_enter_sanctuary"@);
    lemma_transition_first(ch4_prevs(), ch4_curs(), ch4_names(), prev, cur, 4);
}

proof fn ch4_row_5(raw_changed: bool, prev: Seq<char>, cur: Seq<char>, settings: Settings, inp: &TickInputs)
    requires
        prev == "room_dw_church_darkmaze"@,
        cur == "room_dw_church_gersonstudy"@,
    ensures
        spec_chapter_split(4, raw_changed, prev, cur, settings, inp) == "ch4_enter_study"@,
{
    reveal_strlit("room_dw_church_darkmaze");
    reveal_strlit("PLACE_MENU");
    reveal_strlit("room_dw_church_gersonstudy");
    reveal_strlit("room_schooldoor");
    reveal_strlit("room_dw_church_knightclimb_post");
    reveal_strlit("room_town_noellehouse");
    reveal_strlit("room_torhouse");
    reveal_strlit("room_town_church");
    assert("room_dw_church_darkmaze"@.len() != "PLACE_MENU"@.len());
    assert("room_dw_church_darkmaze"@.len() != "room_dw_church_gersonstudy"@.len());
    assert("room_schooldoor"@.len() != "room_dw_church_darkmaze"@.len());
    assert("room_dw_church_knightclimb_post"@.len() != "room_dw_church_darkmaze"@.len());
    assert("room_town_noellehouse"@.len() != "room_dw_church_darkmaze"@.len());
    assert("room_torhouse"@.len() != "room_dw_church_darkmaze"@.len());
    assert("room_town_church"@.len() != "room_dw_church_darkmaze"@.len());
    assert forall|j: int| 0 <= j < 5 implies !(#[trigger] ch4_prevs()[j] == prev && ch4_curs()[j] == cur) by {
        if j == 0 {
            assert(ch4_prevs()[0] == "room_schooldoor"@);
        } else if j == 1 {
            assert(ch4_prevs()[1] == "room_dw_church_knightclimb_post"@);
        } else if j == 2 {
            assert(ch4_prevs()[2] == "room_town_noellehouse"@);
        } else if j == 3 {
            assert(ch4_prevs()[3] == "room_torhouse"@);
        } else if j == 4 {
            assert(ch4_prevs()[4] == "room_town_church"@);
        }
    }
    assert(ch4_prevs()[5] == prev && ch4_curs()[5] == cur && ch4_names()[5] == "ch4_enter_study"@);
    lemma_transition_first(ch4_prevs(), ch4_curs(), ch4_names(), prev, cur, 5);
}

proof fn ch4_row_6(raw_changed: bool, prev: Seq<char>, cur: Seq<char>, settings: Settings, inp: &TickInputs)
    requires
        prev == "room_dw_church_secretpiano"@,
        cur == "room_dw_church_gersonstudy"@,
    ensures
        spec_chapter_split(4, raw_changed, prev, cur, settings, inp) == "ch4_golden_piano"@,
{
    reveal_strlit("room_dw_church_secretpiano");
    reveal_strlit("PLACE_MENU");
    reveal_strlit("room_dw_church_gersonstudy");
    reveal_strlit("room_schooldoor");
    reveal_strlit("room_dw_church_knightclimb_post");
    reveal_strlit("room_town_noellehouse");
    reveal_strlit("room_torhouse");
    reveal_strlit("room_town_church");
    reveal_strlit("room_dw_church_darkmaze");
    assert("room_dw_church_secretpiano"@.len() != "PLACE_MENU"@.len());
    assert("room_dw_church_secretpiano"@[15] != "room_dw_church_gersonstudy"@[15]);
    assert("room_schooldoor"@.len() != "room_dw_church_secretpiano"@.len());
    assert("room_dw_church_knightclimb_post"@.len() != "room_dw_church_secretpiano"@.len());
    assert("room_town_noellehouse"@.len() != "room_dw_church_secretpiano"@.len());
    assert("room_torhouse"@.len() != "room_dw_church_secretpiano"@.len());
    assert("room_town_church"@.len() != "room_dw_church_secretpiano"@.len());
    assert("room_dw_church_darkmaze"@.len() != "room_dw_church_secretpiano"@.len());
    assert forall|j: int| 0 <= j < 6 implies !(#[trigger] ch4_prevs()[j] == prev && ch4_curs()[j] == cur) by {
        if j == 0 {
            assert(ch4_prevs()[0] == "room_schooldoor"@);
        } else if j == 1 {
            assert(ch4_prevs()[1] == "room_dw_church_knightclimb_post"@);
        } else if j == 2 {
            assert(ch4_prevs()[2] == "room_town_noellehouse"@);
        } else if j == 3 {
            assert(ch4_prevs()[3] == "room_torhouse"@);
        } else if j == 4 {
            assert(ch4_prevs()[4] == "room_town_church"@);
        } else if j == 5 {
            assert(ch4_prevs()[5] == "room_dw_church_darkmaze"@);
        }
    }
    assert(ch4_prevs()[6] == prev && ch4_curs()[6] == cur && ch4_names()[6] == "ch4_golden_piano"@);
    lemma_transition_first(ch4_prevs(), ch4_curs(), ch4_names(), prev, cur, 6);
}

proof fn ch4_row_7(raw_changed: bool, prev: Seq<char>, cur: Seq<char>, settings: Settings, inp: &TickInputs)
    requires
        prev == "room_dw_church_gersonstudy"@,
        cur == "room_dw_church_arena"@,
    ensures
        spec_chapter_split(4, raw_changed, prev, cur, settings, inp) == "ch4_enter_hoj"@,
{
    reveal_strlit("room_dw_church_gersonstudy");
    reveal_strlit("PLACE_MENU");
    reveal_strlit("room_dw_church_arena");
    reveal_strlit("room_schooldoor");
    reveal_strlit("room_dw_church_knightclimb_post");
    reveal_strlit("room_town_noellehouse");
    reveal_strlit("room_torhouse");
    reveal_strlit("room_town_church");
    reveal_strlit("room_dw_church_darkmaze");
    reveal_strlit("room_dw_church_secretpiano");
    assert("room_dw_church_gersonstudy"@.len() != "PLACE_MENU"@.len());
    assert("room_dw_church_gersonstudy"@.len() != "room_dw_church_arena"@.len());
    assert("room_schooldoor"@.len() != "room_dw_church_gersonstudy"@.len());
    assert("room_dw_church_knightclimb_post"@.len() != "room_dw_church_gersonstudy"@.len());
    assert("room_town_noellehouse"@.len() != "room_dw_church_gersonstudy"@.len());
    assert("room_torhouse"@.len() != "room_dw_church_gersonstudy"@.len());
    assert("room_town_church"@.len() != "room_dw_church_gersonstudy"@.len());
    assert("room_dw_church_darkmaze"@.len() != "room_dw_church_gersonstudy"@.len());
    assert("room_dw_church_secretpiano"@[15] != "room_dw_church_gersonstudy"@[15]);
    assert forall|j: int| 0 <= j < 7 implies !(#[trigger] ch4_prevs()[j] == prev && ch4_curs()[j] == cur) by {
        if j == 0 {
            assert(ch4_prevs()[0] == "room_schooldoor"@);
        } else if j == 1 {
            assert(ch4_prevs()[1] == "room_dw_church_knightclimb_post"@);
        } else if j == 2 {
            assert(ch4_prevs()[2] == "room_town_noellehouse"@);
        } else if j == 3 {
            assert(ch4_prevs()[3] == "room_torhouse"@);
        } else if j == 4 {
            assert(ch4_prevs()[4] == "room_town_church"@);
        } else if j == 5 {
            assert(ch4_prevs()[5] == "room_dw_church_darkmaze"@);
        } else if j == 6 {
            assert(ch4_prevs()[6] == "room_dw_church_secretpiano"@);
        }
    }
    assert(ch4_prevs()[7] == prev && ch4_curs()[7] == cur && ch4_names()[7] == "ch4_enter_hoj"@);
    lemma_transition_first(ch4_prevs(), ch4_curs(), ch4_names(), prev, cur, 7);
}

proof fn ch4_row_8(raw_changed: bool, prev: Seq<char>, cur: Seq<char>, settings: Settings, inp: &TickInputs)
    requires
        prev == "room_dw_church_arena"@,
        cur == "room_dw_church_gersonstudy"@,
    ensures
        spec_chapter_split(4, raw_changed, prev, cur, settings, inp) == "ch4_exit_axe_room"@,
{
    reveal_strlit("room_dw_church_arena");
    reveal_strlit("PLACE_MENU");
    reveal_strlit("room_dw_church_gersonstudy");
    reveal_strlit("room_schooldoor");
    reveal_strlit("room_dw_church_knightclimb_post");
    reveal_strlit("room_town_noellehouse");
    reveal_strlit("room_torhouse");
    reveal_strlit("room_town_church");
    reveal_strlit("room_dw_church_darkmaze");
    reveal_strlit("room_dw_church_secretpiano");
    assert("room_dw_church_arena"@.len() != "PLACE_MENU"@.len());
    assert("room_dw_church_arena"@.len() != "room_dw_church_gersonstudy"@.len());
    assert("room_schooldoor"@.len() != "room_dw_church_arena"@.len());
    assert("room_dw_church_knightclimb_post"@.len() != "room_dw_church_arena"@.len());
    assert("room_town_noellehouse"@.len() != "room_dw_church_arena"@.len());
    assert("room_torhouse"@.len() != "room_dw_church_arena"@.len());
    assert("room_town_church"@.len() != "room_dw_church_arena"@.len());
    assert("room_dw_church_darkmaze"@.len() != "room_dw_church_arena"@.len());
    assert("room_dw_church_secretpiano"@.len() != "room_dw_church_arena"@.len());
    assert forall|j: int| 0 <= j < 8 implies !(#[trigger] ch4_prevs()[j] == prev && ch4_curs()[j] == cur) by {
        if j == 0 {
            assert(ch4_prevs()[0] == "room_schooldoor"@);
        } else if j == 1 {
            assert(ch4_prevs()[1] == "room_dw_church_knightclimb_post"@);
        } else if j == 2 {
            assert(ch4_prevs()[2] == "room_town_noellehouse"@);
        } else if j == 3 {
            assert(ch4_prevs()[3] == "room_torhouse"@);
        } else if j == 4 {
            assert(ch4_prevs()[4] == "room_town_church"@);
        } else if j == 5 {
            assert(ch4_prevs()[5] == "room_dw_church_darkmaze"@);
        } else if j == 6 {
            assert(ch4_prevs()[6] == "room_dw_church_secretpiano"@);
        } else if j == 7 {
            assert(ch4_prevs()[7] == "room_dw_church_gersonstudy"@);
        }
    }
    assert(ch4_prevs()[8] == prev && ch4_curs()[8] == cur && ch4_names()[8] == "ch4_exit_axe_room"@);
    lemma_transition_first(ch4_prevs(), ch4_curs(), ch4_names(), prev, cur, 8);
}

proof fn ch4_row_9(raw_changed: bool, prev: Seq<char>, cur: Seq<char>, settings: Settings, inp: &TickInputs)
    requires
        prev == "room_dw_church_gersonstudy"@,
        cur == "room_dw_church_trueclimbadventure"@,
    ensures
        spec_chapter_split(4, raw_changed, prev, cur, settings, inp) == "ch4_grand_piano"@,
{
    reveal_strlit("room_dw_church_gersonstudy");
    reveal_strlit("PLACE_MENU");
    reveal_strlit("room_dw_church_trueclimbadventure");
    reveal_strlit("room_schooldoor");
    reveal_strlit("room_dw_church_knightclimb_post");
    reveal_strlit("room_town_noellehouse");
    reveal_strlit("room_torhouse");
    reveal_strlit("room_town_church");
    reveal_strlit("room_dw_church_darkmaze");
    reveal_strlit("room_dw_church_secretpiano");
    reveal_strlit("room_dw_church_arena");
    assert("room_dw_church_gersonstudy"@.len() != "PLACE_MENU"@.len());
    assert("room_dw_church_gersonstudy"@.len() != "room_dw_church_trueclimbadventure"@.len());
    assert("room_schooldoor"@.len() != "room_dw_church_gersonstudy"@.len());
    assert("room_dw_church_knightclimb_post"@.len() != "room_dw_church_gersonstudy"@.len());
    assert("room_town_noellehouse"@.len() != "room_dw_church_gersonstudy"@.len());
    assert("room_torhouse"@.len() != "room_dw_church_gersonstudy"@.len());
    assert("room_town_church"@.len() != "room_dw_church_gersonstudy"@.len());
    assert("room_dw_church_darkmaze"@.len() != "room_dw_church_gersonstudy"@.len());
    assert("room_dw_church_secretpiano"@[15] != "room_dw_church_gersonstudy"@[15]);
    assert("room_dw_church_arena"@.len() != "room_dw_church_trueclimbadventure"@.len());
    assert("room_dw_church_arena"@.len() != "room_dw_church_gersonstudy"@.len());
    assert forall|j: int| 0 <= j < 9 implies !(#[trigger] ch4_prevs()[j] == prev && ch4_curs()[j] == cur) by {
        if j == 0 {
            assert(ch4_prevs()[0] == "room_schooldoor"@);
        } else if j == 1 {
            assert(ch4_prevs()[1] == "room_dw_church_knightclimb_post"@);
        } else if j == 2 {
            assert(ch4_prevs()[2] == "room_town_noellehouse"@);
        } else if j == 3 {
            assert(ch4_prevs()[3] == "room_torhouse"@);
        } else if j == 4 {
            assert(ch4_prevs()[4] == "room_town_church"@);
        } else if j == 5 {
            assert(ch4_prevs()[5] == "room_dw_church_darkmaze"@);
        } else if j == 6 {
            assert(ch4_prevs()[6] == "room_dw_church_secretpiano"@);
        } else if j == 7 {
            assert(ch4_curs()[7] == "room_dw_church_arena"@);
        } else if j == 8 {
            assert(ch4_prevs()[8] == "room_dw_church_arena"@);
        }
    }
    assert(ch4_prevs()[9] == prev && ch4_curs()[9] == cur && ch4_names()[9] == "ch4_grand_piano"@);
    lemma_transition_first(ch4_prevs(), ch4_curs(), ch4_names(), prev, cur, 9);
}

proof fn ch4_row_10(raw_changed: bool, prev: Seq<char>, cur: Seq<char>, settings: Settings, inp: &TickInputs)
    requires
        prev == "room_dw_church_gersonstudy"@,
        cur == "room_dw_church_rightconnect"@,
    ensures
        spec_chapter_split(4, raw_changed, prev, cur, settings, inp) == "ch4_grand_piano"@,
{
    reveal_strlit("room_dw_church_gersonstudy");
    reveal_strlit("PLACE_MENU");
    reveal_strlit("room_dw_church_rightconnect");
    reveal_strlit("room_schooldoor");
    reveal_strlit("room_dw_church_knightclimb_post");
    reveal_strlit("room_town_noellehouse");
    reveal_strlit("room_torhouse");
    reveal_strlit("room_town_church");
    reveal_strlit("room_dw_church_darkmaze");
    reveal_strlit("room_dw_church_secretpiano");
    reveal_strlit("room_dw_church_arena");
    reveal_strlit("room_dw_church_trueclimbadventure");
    assert("room_dw_church_gersonstudy"@.len() != "PLACE_MENU"@.len());
    assert("room_dw_church_gersonstudy"@.len() != "room_dw_church_rightconnect"@.len());
    assert("room_schooldoor"@.len() != "room_dw_church_gersonstudy"@.len());
    assert("room_dw_church_knightclimb_post"@.len() != "room_dw_church_gersonstudy"@.len());
    assert("room_town_noellehouse"@.len() != "room_dw_church_gersonstudy"@.len());
    assert("room_torhouse"@.len() != "room_dw_church_gersonstudy"@.len());
    assert("room_town_church"@.len() != "room_dw_church_gersonstudy"@.len());
    assert("room_dw_church_darkmaze"@.len() != "room_dw_church_gersonstudy"@.len());
    assert("room_dw_church_secretpiano"@[15] != "room_dw_church_gersonstudy"@[15]);
    assert("room_dw_church_arena"@.len() != "room_dw_church_rightconnect"@.len());
    assert("room_dw_church_arena"@.len() != "room_dw_church_gersonstudy"@.len());
    assert("room_dw_church_trueclimbadventure"@.len() != "room_dw_church_rightconnect"@.len());
    assert forall|j: int| 0 <= j < 10 implies !(#[trigger] ch4_prevs()[j] == prev && ch4_curs()[j] == cur) by {
        if j == 0 {
            assert(ch4_prevs()[0] == "room_schooldoor"@);
        } else if j == 1 {
            assert(ch4_prevs()[1] == "room_dw_church_knightclimb_post"@);
        } else if j == 2 {
            assert(ch4_prevs()[2] == "room_town_noellehouse"@);
        } else if j == 3 {
            assert(ch4_prevs()[3] == "room_torhouse"@);
        } else if j == 4 {
            assert(ch4_prevs()[4] == "room_town_church"@);
        } else if j == 5 {
            assert(ch4_prevs()[5] == "room_dw_church_darkmaze"@);
        } else if j == 6 {
            assert(ch4_prevs()[6] == "room_dw_church_secretpiano"@);
        } else if j == 7 {
            assert(ch4_curs()[7] == "room_dw_church_arena"@);
        } else if j == 8 {
            assert(ch4_prevs()[8] == "room_dw_church_arena"@);
        } else if j == 9 {
            assert(ch4_curs()[9] == "room_dw_church_trueclimbadventure"@);
        }
    }
    assert(ch4_prevs()[10] == prev && ch4_curs()[10] == cur && ch4_names()[10] == "ch4_grand_piano"@);
    lemma_transition_first(ch4_prevs(), ch4_curs(), ch4_names(), prev, cur, 10);
}

proof fn ch4_row_11(raw_changed: bool, prev: Seq<char>, cur: Seq<char>, settings: Settings, inp: &TickInputs)
    requires
        prev == "room_dw_church_holywatercooler"@,
        cur == "roohurch_entrance"@,
    ensures
        spec_chapter_split(4, raw_changed, prev, cur, settings, inp) == "ch4_second_sanctuary"@,
{
    reveal_strlit("room_dw_church_holywatercooler");
    reveal_strlit("PLACE_MENU");
    reveal_strlit("roohurch_entrance");
    reveal_strlit("room_schooldoor");
    reveal_strlit("room_dw_church_knightclimb_post");
    reveal_strlit("room_town_noellehouse");
    reveal_strlit("room_torhouse");
    reveal_strlit("room_town_church");
    reveal_strlit("room_dw_church_darkmaze");
    reveal_strlit("room_dw_church_secretpiano");
    reveal_strlit("room_dw_church_gersonstudy");
    reveal_strlit("room_dw_church_arena");
    assert("room_dw_church_holywatercooler"@.len() != "PLACE_MENU"@.len());
    assert("room_dw_church_holywatercooler"@.len() != "roohurch_entrance"@.len());
    assert("room_schooldoor"@.len() != "room_dw_church_holywatercooler"@.len());
    assert("room_dw_church_knightclimb_post"@.len() != "room_dw_church_holywatercooler"@.len());
    assert("room_town_noellehouse"@.len() != "room_dw_church_holywatercooler"@.len());
    assert("room_torhouse"@.len() != "room_dw_church_holywatercooler"@.len());
    assert("room_town_church"@.len() != "room_dw_church_holywatercooler"@.len());
    assert("room_dw_church_darkmaze"@.len() != "room_dw_church_holywatercooler"@.len());
    assert("room_dw_church_secretpiano"@.len() != "room_dw_church_holywatercooler"@.len());
    assert("room_dw_church_gersonstudy"@.len() != "room_dw_church_holywatercooler"@.len());
    assert("room_dw_church_arena"@.len() != "room_dw_church_holywatercooler"@.len());
    assert forall|j: int| 0 <= j < 11 implies !(#[trigger] ch4_prevs()[j] == prev && ch4_curs()[j] == cur) by {
        if j == 0 {
            assert(ch4_prevs()[0] == "room_schooldoor"@);
        } else if j == 1 {
            assert(ch4_prevs()[1] == "room_dw_church_knightclimb_post"@);
        } else if j == 2 {
            assert(ch4_prevs()[2] == "room_town_noellehouse"@);
        } else if j == 3 {
            assert(ch4_prevs()[3] == "room_torhouse"@);
        } else if j == 4 {
            assert(ch4_prevs()[4] == "room_town_church"@);
        } else if j == 5 {
            assert(ch4_prevs()[5] == "room_dw_church_darkmaze"@);
        } else if j == 6 {
            assert(ch4_prevs()[6] == "room_dw_church_secretpiano"@);
        } else if j == 7 {
            assert(ch4_prevs()[7] == "room_dw_church_gersonstudy"@);
        } else if j == 8 {
            assert(ch4_prevs()[8] == "room_dw_church_arena"@);
        } else if j == 9 {
            assert(ch4_prevs()[9] == "room_dw_church_gersonstudy"@);
        } else if j == 10 {
            assert(ch4_prevs()[10] == "room_dw_church_gersonstudy"@);
        }
    }
    assert(ch4_prevs()[11] == prev && ch4_curs()[11] == cur && ch4_names()[11] == "ch4_second_sanctuary"@);
    lemma_transition_first(ch4_prevs(), ch4_curs(), ch4_names(), prev, cur, 11);
}

proof fn ch4_row_12(raw_changed: bool, prev: Seq<char>, cur: Seq<char>, settings: Settings, inp: &TickInputs)
    requires
        prev == "room_dw_churchc_pretitan"@,
        cur == "room_dw_churchc_titanclimb1"@,
    ensures
        spec_chapter_split(4, raw_changed, prev, cur, settings, inp) == "ch4_start_titan_climb1"@,
{
    reveal_strlit("room_dw_churchc_pretitan");
    reveal_strlit("PLACE_MENU");
    reveal_strlit("room_dw_churchc_titanclimb1");
    reveal_strlit("room_schooldoor");
    reveal_strlit("room_dw_church_knightclimb_post");
    reveal_strlit("room_town_noellehouse");
    reveal_strlit("room_torhouse");
    reveal_strlit("room_town_church");
    reveal_strlit("room_dw_church_darkmaze");
    reveal_strlit("room_dw_church_secretpiano");
    reveal_strlit("room_dw_church_gersonstudy");
    reveal_strlit("room_dw_church_arena");
    reveal_strlit("room_dw_church_holywatercooler");
    assert("room_dw_churchc_pretitan"@.len() != "PLACE_MENU"@.len());
    assert("room_dw_churchc_pretitan"@.len() != "room_dw_churchc_titanclimb1"@.len());
    assert("room_schooldoor"@.len() != "room_dw_churchc_pretitan"@.len());
    assert("room_dw_church_knightclimb_post"@.len() != "room_dw_churchc_pretitan"@.len());
    assert("room_town_noellehouse"@.len() != "room_dw_churchc_pretitan"@.len());
    assert("room_torhouse"@.len() != "room_dw_churchc_pretitan"@.len());
    assert("room_town_church"@.len() != "room_dw_churchc_pretitan"@.len());
    assert("room_dw_church_darkmaze"@.len() != "room_dw_churchc_pretitan"@.len());
    assert("room_dw_church_secretpiano"@.len() != "room_dw_churchc_pretitan"@.len());
    assert("room_dw_church_gersonstudy"@.len() != "room_dw_churchc_pretitan"@.len());
    assert("room_dw_church_arena"@.len() != "room_dw_churchc_pretitan"@.len());
    assert("room_dw_church_holywatercooler"@.len() != "room_dw_churchc_pretitan"@.len());
    assert forall|j: int| 0 <= j < 12 implies !(#[trigger] ch4_prevs()[j] == prev && ch4_curs()[j] == cur) by {
        if j == 0 {
            assert(ch4_prevs()[0] == "room_schooldoor"@);
        } else if j == 1 {
            assert(ch4_prevs()[1] == "room_dw_church_knightclimb_post"@);
        } else if j == 2 {
            assert(ch4_prevs()[2] == "room_town_noellehouse"@);
        } else if j == 3 {
            assert(ch4_prevs()[3] == "room_torhouse"@);
        } else if j == 4 {
            assert(ch4_prevs()[4] == "room_town_church"@);
        } else if j == 5 {
            assert(ch4_prevs()[5] == "room_dw_church_darkmaze"@);
        } else if j == 6 {
            assert(ch4_prevs()[6] == "room_dw_church_secretpiano"@);
        } else if j == 7 {
            assert(ch4_prevs()[7] == "room_dw_church_gersonstudy"@);
        } else if j == 8 {
            assert(ch4_prevs()[8] == "room_dw_church_arena"@);
        } else if j == 9 {
            assert(ch4_prevs()[9] == "room_dw_church_gersonstudy"@);
        } else if j == 10 {
            assert(ch4_prevs()[10] == "room_dw_church_gersonstudy"@);
        } else if j == 11 {
            assert(ch4_prevs()[11] == "room_dw_church_holywatercooler"@);
        }
    }
    assert(ch4_prevs()[12] == prev && ch4_curs()[12] == cur && ch4_names()[12] == "ch4_start_titan_climb1"@);
    lemma_transition_first(ch4_prevs(), ch4_curs(), ch4_names(), prev, cur, 12);
}

proof fn ch4_row_13(raw_changed: bool, prev: Seq<char>, cur: Seq<char>, settings: Settings, inp: &TickInputs)
    requires
        prev == "room_dw_churchc_titanclimb1"@,
        cur == "room_dw_churchc_titanclimb1_post"@,
    ensures
        spec_chapter_split(4, raw_changed, prev, cur, settings, inp) == "ch4_end_titan_climb1"@,
{
    reveal_strlit("room_dw_churchc_titanclimb1");
    reveal_strlit("PLACE_MENU");
    reveal_strlit("room_dw_churchc_titanclimb1_post");
    reveal_strlit("room_schooldoor");
    reveal_strlit("room_dw_church_knightclimb_post");
    reveal_strlit("room_town_noellehouse");
    reveal_strlit("room_torhouse");
    reveal_strlit("room_town_church");
    reveal_strlit("room_dw_church_darkmaze");
    reveal_strlit("room_dw_church_secretpiano");
    reveal_strlit("room_dw_church_gersonstudy");
    reveal_strlit("room_dw_church_arena");
    reveal_strlit("room_dw_church_holywatercooler");
    reveal_strlit("room_dw_churchc_pretitan");
    assert("room_dw_churchc_titanclimb1"@.len() != "PLACE_MENU"@.len());
    assert("room_dw_churchc_titanclimb1"@.len() != "room_dw_churchc_titanclimb1_post"@.len());
    assert("room_schooldoor"@.len() != "room_dw_churchc_titanclimb1"@.len());
    assert("room_dw_church_knightclimb_post"@.len() != "room_dw_churchc_titanclimb1"@.len());
    assert("room_town_noellehouse"@.len() != "room_dw_churchc_titanclimb1"@.len());
    assert("room_torhouse"@.len() != "room_dw_churchc_titanclimb1"@.len());
    assert("room_town_church"@.len() != "room_dw_churchc_titanclimb1"@.len());
    assert("room_dw_church_darkmaze"@.len() != "room_dw_churchc_titanclimb1"@.len());
    assert("room_dw_church_secretpiano"@.len() != "room_dw_churchc_titanclimb1"@.len());
    assert("room_dw_church_gersonstudy"@.len() != "room_dw_churchc_titanclimb1"@.len());
    assert("room_dw_church_arena"@.len() != "room_dw_churchc_titanclimb1"@.len());
    assert("room_dw_church_holywatercooler"@.len() != "room_dw_churchc_titanclimb1"@.len());
    assert("room_dw_churchc_pretitan"@.len() != "room_dw_churchc_titanclimb1"@.len());
    assert forall|j: int| 0 <= j < 13 implies !(#[trigger] ch4_prevs()[j] == prev && ch4_curs()[j] == cur) by {
        if j == 0 {
            assert(ch4_prevs()[0] == "room_schooldoor"@);
        } else if j == 1 {
            assert(ch4_prevs()[1] == "room_dw_church_knightclimb_post"@);
        } else if j == 2 {
            assert(ch4_prevs()[2] == "room_town_noellehouse"@);
        } else if j == 3 {
            assert(ch4_prevs()[3] == "room_torhouse"@);
        } else if j == 4 {
            assert(ch4_prevs()[4] == "room_town_church"@);
        } else if j == 5 {
            assert(ch4_prevs()[5] == "room_dw_church_darkmaze"@);
        } else if j == 6 {
            assert(ch4_prevs()[6] == "room_dw_church_secretpiano"@);
        } else if j == 7 {
            assert(ch4_prevs()[7] == "room_dw_church_gersonstudy"@);
        } else if j == 8 {
            assert(ch4_prevs()[8] == "room_dw_church_arena"@);
        } else if j == 9 {
            assert(ch4_prevs()[9] == "room_dw_church_gersonstudy"@);
        } else if j == 10 {
            assert(ch4_prevs()[10] == "room_dw_church_gersonstudy"@);
        } else if j == 11 {
            assert(ch4_prevs()[11] == "room_dw_church_holywatercooler"@);
        } else if j == 12 {
            assert(ch4_prevs()[12] == "room_dw_churchc_pretitan"@);
        }
    }
    assert(ch4_prevs()[13] == prev && ch4_curs()[13] == cur && ch4_names()[13] == "ch4_end_titan_climb1"@);
    lemma_transition_first(ch4_prevs(), ch4_curs(), ch4_names(), prev, cur, 13);
}

proof fn ch4_row_14(raw_changed: bool, prev: Seq<char>, cur: Seq<char>, settings: Settings, inp: &TickInputs)
    requires
        prev == "room_dw_churchc_titanclimb1_post"@,
        cur == "room_dw_churchc_titanclimb2"@,
    ensures
        spec_chapter_split(4, raw_changed, prev, cur, settings, inp) == "ch4_start_titan_climb2"@,
{
    reveal_strlit("room_dw_churchc_titanclimb1_post");
    reveal_strlit("PLACE_MENU");
    reveal_strlit("room_dw_churchc_titanclimb2");
    reveal_strlit("room_schooldoor");
    reveal_strlit("room_dw_church_knightclimb_post");
    reveal_strlit("room_town_noellehouse");
    reveal_strlit("room_torhouse");
    reveal_strlit("room_town_church");
    reveal_strlit("room_dw_church_darkmaze");
    reveal_strlit("room_dw_church_secretpiano");
    reveal_strlit("room_dw_church_gersonstudy");
    reveal_strlit("room_dw_church_arena");
    reveal_strlit("room_dw_church_holywatercooler");
    reveal_strlit("room_dw_churchc_pretitan");
    reveal_strlit("room_dw_churchc_titanclimb1");
    assert("room_dw_churchc_titanclimb1_post"@.len() != "PLACE_MENU"@.len());
    assert("room_dw_churchc_titanclimb1_post"@.len() != "room_dw_churchc_titanclimb2"@.len());
    assert("room_schooldoor"@.len() != "room_dw_churchc_titanclimb1_post"@.len());
    assert("room_dw_church_knightclimb_post"@.len() != "room_dw_churchc_titanclimb1_post"@.len());
    assert("room_town_noellehouse"@.len() != "room_dw_churchc_titanclimb1_post"@.len());
    assert("room_torhouse"@.len() != "room_dw_churchc_titanclimb1_post"@.len());
    assert("room_town_church"@.len() != "room_dw_churchc_titanclimb1_post"@.len());
    assert("room_dw_church_darkmaze"@.len() != "room_dw_churchc_titanclimb1_post"@.len());
    assert("room_dw_church_secretpiano"@.len() != "room_dw_churchc_titanclimb1_post"@.len());
    assert("room_dw_church_gersonstudy"@.len() != "room_dw_churchc_titanclimb1_post"@.len());
    assert("room_dw_church_arena"@.len() != "room_dw_churchc_titanclimb1_post"@.len());
    assert("room_dw_church_holywatercooler"@.len() != "room_dw_churchc_titanclimb1_post"@.len());
    assert("room_dw_churchc_pretitan"@.len() != "room_dw_churchc_titanclimb1_post"@.len());
    assert("room_dw_churchc_titanclimb1"@.len() != "room_dw_churchc_titanclimb1_post"@.len());
    assert forall|j: int| 0 <= j < 14 implies !(#[trigger] ch4_prevs()[j] == prev && ch4_curs()[j] == cur) by {
        if j == 0 {
            assert(ch4_prevs()[0] == "room_schooldoor"@);
        } else if j == 1 {
            assert(ch4_prevs()[1] == "room_dw_church_knightclimb_post"@);
        } else if j == 2 {
            assert(ch4_prevs()[2] == "room_town_noellehouse"@);
        } else if j == 3 {
            assert(ch4_prevs()[3] == "room_torhouse"@);
        } else if j == 4 {
            assert(ch4_prevs()[4] == "room_town_church"@);
        } else if j == 5 {
            assert(ch4_prevs()[5] == "room_dw_church_darkmaze"@);
        } else if j == 6 {
            assert(ch4_prevs()[6] == "room_dw_church_secretpiano"@);
        } else if j == 7 {
            assert(ch4_prevs()[7] == "room_dw_church_gersonstudy"@);
        } else if j == 8 {
            assert(ch4_prevs()[8] == "room_dw_church_arena"@);
        } else if j == 9 {
            assert(ch4_prevs()[9] == "room_dw_church_gersonstudy"@);
        } else if j == 10 {
            assert(ch4_prevs()[10] == "room_dw_church_gersonstudy"@);
        } else if j == 11 {
            assert(ch4_prevs()[11] == "room_dw_church_holywatercooler"@);
        } else if j == 12 {
            assert(ch4_prevs()[12] == "room_dw_churchc_pretitan"@);
        } else if j == 13 {
            assert(ch4_prevs()[13] == "room_dw_churchc_titanclimb1"@);
        }
    }
    assert(ch4_prevs()[14] == prev && ch4_curs()[14] == cur && ch4_names()[14] == "ch4_start_titan_climb2"@);
    lemma_transition_first(ch4_prevs(), ch4_curs(), ch4_names(), prev, cur, 14);
}

proof fn ch4_row_15(raw_changed: bool, prev: Seq<char>, cur: Seq<char>, settings: Settings, inp: &TickInputs)
    requires
        prev == "room_dw_churchc_titanclimb2"@,
        cur == "room_dw_churchc_titanclimb2_post"@,
    ensures
        spec_chapter_split(4, raw_changed, prev, cur, settings, inp) == "ch4_end_titan_climb2"@,
{
    reveal_strlit("room_dw_churchc_titanclimb2");
    reveal_strlit("PLACE_MENU");
    reveal_strlit("room_dw_churchc_titanclimb2_post");
    reveal_strlit("room_schooldoor");
    reveal_strlit("room_dw_church_knightclimb_post");
    reveal_strlit("room_town_noellehouse");
    reveal_strlit("room_torhouse");
    reveal_strlit("room_town_church");
    reveal_strlit("room_dw_church_darkmaze");
    reveal_strlit("room_dw_church_secretpiano");
    reveal_strlit("room_dw_church_gersonstudy");
    reveal_strlit("room_dw_church_arena");
    reveal_strlit("room_dw_church_holywatercooler");
    reveal_strlit("room_dw_churchc_pretitan");
    reveal_strlit("room_dw_churchc_titanclimb1");
    reveal_strlit("room_dw_churchc_titanclimb1_post");
    assert("room_dw_churchc_titanclimb2"@.len() != "PLACE_MENU"@.len());
    assert("room_dw_churchc_titanclimb2"@.len() != "room_dw_churchc_titanclimb2_post"@.len());
    assert("room_schooldoor"@.len() != "room_dw_churchc_titanclimb2"@.len());
    assert("room_dw_church_knightclimb_post"@.len() != "room_dw_churchc_titanclimb2"@.len());
    assert("room_town_noellehouse"@.len() != "room_dw_churchc_titanclimb2"@.len());
    assert("room_torhouse"@.len() != "room_dw_churchc_titanclimb2"@.len());
    assert("room_town_church"@.len() != "room_dw_churchc_titanclimb2"@.len());
    assert("room_dw_church_darkmaze"@.len() != "room_dw_churchc_titanclimb2"@.len());
    assert("room_dw_church_secretpiano"@.len() != "room_dw_churchc_titanclimb2"@.len());
    assert("room_dw_church_gersonstudy"@.len() != "room_dw_churchc_titanclimb2"@.len());
    assert("room_dw_church_arena"@.len() != "room_dw_churchc_titanclimb2"@.len());
    assert("room_dw_church_holywatercooler"@.len() != "room_dw_churchc_titanclimb2"@.len());
    assert("room_dw_churchc_pretitan"@.len() != "room_dw_churchc_titanclimb2"@.len());
    assert("room_dw_churchc_titanclimb1"@[26] != "room_dw_churchc_titanclimb2"@[26]);
    assert("room_dw_churchc_titanclimb1_post"@.len() != "room_dw_churchc_titanclimb2"@.len());
    assert forall|j: int| 0 <= j < 15 implies !(#[trigger] ch4_prevs()[j] == prev && ch4_curs()[j] == cur) by {
        if j == 0 {
            assert(ch4_prevs()[0] == "room_schooldoor"@);
        } else if j == 1 {
            assert(ch4_prevs()[1] == "room_dw_church_knightclimb_post"@);
        } else if j == 2 {
            assert(ch4_prevs()[2] == "room_town_noellehouse"@);
        } else if j == 3 {
            assert(ch4_prevs()[3] == "room_torhouse"@);
        } else if j == 4 {
            assert(ch4_prevs()[4] == "room_town_church"@);
        } else if j == 5 {
            assert(ch4_prevs()[5] == "room_dw_church_darkmaze"@);
        } else if j == 6 {
            assert(ch4_prevs()[6] == "room_dw_church_secretpiano"@);
        } else if j == 7 {
            assert(ch4_prevs()[7] == "room_dw_church_gersonstudy"@);
        } else if j == 8 {
            assert(ch4_prevs()[8] == "room_dw_church_arena"@);
        } else if j == 9 {
            assert(ch4_prevs()[9] == "room_dw_church_gersonstudy"@);
        } else if j == 10 {
            assert(ch4_prevs()[10] == "room_dw_church_gersonstudy"@);
        } else if j == 11 {
            assert(ch4_prevs()[11] == "room_dw_church_holywatercooler"@);
        } else if j == 12 {
            assert(ch4_prevs()[12] == "room_dw_churchc_pretitan"@);
        } else if j == 13 {
            assert(ch4_prevs()[13] == "room_dw_churchc_titanclimb1"@);
        } else if j == 14 {
            assert(ch4_prevs()[14] == "room_dw_churchc_titanclimb1_post"@);
        }
    }
    assert(ch4_prevs()[15] == prev && ch4_curs()[15] == cur && ch4_names()[15] == "ch4_end_titan_climb2"@);
    lemma_transition_first(ch4_prevs(), ch4_curs(), ch4_names(), prev, cur, 15);
}

proof fn ch4_row_16(raw_changed: bool, prev: Seq<char>, cur: Seq<char>, settings: Settings, inp: &TickInputs)
    requires
        prev == "room_dw_churchc_titanclimb2_post"@,
        cur == "room_dw_churchc_insidetitan"@,
    ensures
        spec_chapter_split(4, raw_changed, prev, cur, settings, inp) == "ch4_end_titan_fight"@,
{
    reveal_strlit("room_dw_churchc_titanclimb2_post");
    reveal_strlit("PLACE_MENU");
    reveal_strlit("room_dw_churchc_insidetitan");
    reveal_strlit("room_schooldoor");
    reveal_strlit("room_dw_church_knightclimb_post");
    reveal_strlit("room_town_noellehouse");
    reveal_strlit("room_torhouse");
    reveal_strlit("room_town_church");
    reveal_strlit("room_dw_church_darkmaze");
    reveal_strlit("room_dw_church_secretpiano");
    reveal_strlit("room_dw_church_gersonstudy");
    reveal_strlit("room_dw_church_arena");
    reveal_strlit("room_dw_church_holywatercooler");
    reveal_strlit("room_dw_churchc_pretitan");
    reveal_strlit("room_dw_churchc_titanclimb1");
    reveal_strlit("room_dw_churchc_titanclimb1_post");
    reveal_strlit("room_dw_churchc_titanclimb2");
    assert("room_dw_churchc_titanclimb2_post"@.len() != "PLACE_MENU"@.len());
    assert("room_dw_churchc_titanclimb2_post"@.len() != "room_dw_churchc_insidetitan"@.len());
    assert("room_schooldoor"@.len() != "room_dw_churchc_titanclimb2_post"@.len());
    assert("room_dw_church_knightclimb_post"@.len() != "room_dw_churchc_titanclimb2_post"@.len());
    assert("room_town_noellehouse"@.len() != "room_dw_churchc_titanclimb2_post"@.len());
    assert("room_torhouse"@.len() != "room_dw_churchc_titanclimb2_post"@.len());
    assert("room_town_church"@.len() != "room_dw_churchc_titanclimb2_post"@.len());
    assert("room_dw_church_darkmaze"@.len() != "room_dw_churchc_titanclimb2_post"@.len());
    assert("room_dw_church_secretpiano"@.len() != "room_dw_churchc_titanclimb2_post"@.len());
    assert("room_dw_church_gersonstudy"@.len() != "room_dw_churchc_titanclimb2_post"@.len());
    assert("room_dw_church_arena"@.len() != "room_dw_churchc_titanclimb2_post"@.len());
    assert("room_dw_church_holywatercooler"@.len() != "room_dw_churchc_titanclimb2_post"@.len());
    assert("room_dw_churchc_pretitan"@.len() != "room_dw_churchc_titanclimb2_post"@.len());
    assert("room_dw_churchc_titanclimb1"@.len() != "room_dw_churchc_titanclimb2_post"@.len());
    assert("room_dw_churchc_titanclimb1_post"@[26] != "room_dw_churchc_titanclimb2_post"@[26]);
    assert("room_dw_churchc_titanclimb2"@.len() != "room_dw_churchc_titanclimb2_post"@.len());
    assert forall|j: int| 0 <= j < 16 implies !(#[trigger] ch4_prevs()[j] == prev && ch4_curs()[j] == cur) by {
        if j == 0 {
            assert(ch4_prevs()[0] == "room_schooldoor"@);
        } else if j == 1 {
            assert(ch4_prevs()[1] == "room_dw_church_knightclimb_post"@);
        } else if j == 2 {
            assert(ch4_prevs()[2] == "room_town_noellehouse"@);
        } else if j == 3 {
            assert(ch4_prevs()[3] == "room_torhouse"@);
        } else if j == 4 {
            assert(ch4_prevs()[4] == "room_town_church"@);
        } else if j == 5 {
            assert(ch4_prevs()[5] == "room_dw_church_darkmaze"@);
        } else if j == 6 {
            assert(ch4_prevs()[6] == "room_dw_church_secretpiano"@);
        } else if j == 7 {
            assert(ch4_prevs()[7] == "room_dw_church_gersonstudy"@);
        } else if j == 8 {
            assert(ch4_prevs()[8] == "room_dw_church_arena"@);
        } else if j == 9 {
            assert(ch4_prevs()[9] == "room_dw_church_gersonstudy"@);
        } else if j == 10 {
            assert(ch4_prevs()[10] == "room_dw_church_gersonstudy"@);
        } else if j == 11 {
            assert(ch4_prevs()[11] == "room_dw_church_holywatercooler"@);
        } else if j == 12 {
            assert(ch4_prevs()[12] == "room_dw_churchc_pretitan"@);
        } else if j == 13 {
            assert(ch4_prevs()[13] == "room_dw_churchc_titanclimb1"@);
        } else if j == 14 {
            assert(ch4_prevs()[14] == "room_dw_churchc_titanclimb1_post"@);
        } else if j == 15 {
            assert(ch4_prevs()[15] == "room_dw_churchc_titanclimb2"@);
        }
    }
    assert(ch4_prevs()[16] == prev && ch4_curs()[16] == cur && ch4_names()[16] == "ch4_end_titan_fight"@);
    lemma_transition_first(ch4_prevs(), ch4_curs(), ch4_names(), prev, cur, 16);
}

proof fn ch4_row_17(raw_changed: bool, prev: Seq<char>, cur: Seq<char>, settings: Settings, inp: &TickInputs)
    requires
        prev == "room_dw_churchc_insidetitan"@,
        cur == "room_dw_churchc_titandefeated"@,
    ensures
        spec_chapter_split(4, raw_changed, prev, cur, settings, inp) == "ch4_seal_titan"@,
{
    reveal_strlit("room_dw_churchc_insidetitan");
    reveal_strlit("PLACE_MENU");
    reveal_strlit("room_dw_churchc_titandefeated");
    reveal_strlit("room_schooldoor");
    reveal_strlit("room_dw_church_knightclimb_post");
    reveal_strlit("room_town_noellehouse");
    reveal_strlit("room_torhouse");
    reveal_strlit("room_town_church");
    reveal_strlit("room_dw_church_darkmaze");
    reveal_strlit("room_dw_church_secretpiano");
    reveal_strlit("room_dw_church_gersonstudy");
    reveal_strlit("room_dw_church_arena");
    reveal_strlit("room_dw_church_holywatercooler");
    reveal_strlit("room_dw_churchc_pretitan");
    reveal_strlit("room_dw_churchc_titanclimb1");
    reveal_strlit("room_dw_churchc_titanclimb1_post");
    reveal_strlit("room_dw_churchc_titanclimb2");
    reveal_strlit("room_dw_churchc_titanclimb2_post");
    assert("room_dw_churchc_insidetitan"@.len() != "PLACE_MENU"@.len());
    assert("room_dw_churchc_insidetitan"@.len() != "room_dw_churchc_titandefeated"@.len());
    assert("room_schooldoor"@.len() != "room_dw_churchc_insidetitan"@.len());
    assert("room_dw_church_knightclimb_post"@.len() != "room_dw_churchc_insidetitan"@.len());
    assert("room_town_noellehouse"@.len() != "room_dw_churchc_insidetitan"@.len());
    assert("room_torhouse"@.len() != "room_dw_churchc_insidetitan"@.len());
    assert("room_town_church"@.len() != "room_dw_churchc_insidetitan"@.len());
    assert("room_dw_church_darkmaze"@.len() != "room_dw_churchc_insidetitan"@.len());
    assert("room_dw_church_secretpiano"@.len() != "room_dw_churchc_insidetitan"@.len());
    assert("room_dw_church_gersonstudy"@.len() != "room_dw_churchc_insidetitan"@.len());
    assert("room_dw_church_arena"@.len() != "room_dw_churchc_insidetitan"@.len());
    assert("room_dw_church_holywatercooler"@.len() != "room_dw_churchc_insidetitan"@.len());
    assert("room_dw_churchc_pretitan"@.len() != "room_dw_churchc_insidetitan"@.len());
    assert("room_dw_churchc_titanclimb1"@[16] != "room_dw_churchc_insidetitan"@[16]);
    assert("room_dw_churchc_titanclimb1_post"@.len() != "room_dw_churchc_insidetitan"@.len());
    assert("room_dw_churchc_titanclimb2"@[16] != "room_dw_churchc_insidetitan"@[16]);
    assert("room_dw_churchc_titanclimb2_post"@.len() != "room_dw_churchc_insidetitan"@.len());
    assert forall|j: int| 0 <= j < 17 implies !(#[trigger] ch4_prevs()[j] == prev && ch4_curs()[j] == cur) by {
        if j == 0 {
            assert(ch4_prevs()[0] == "room_schooldoor"@);
        } else if j == 1 {
            assert(ch4_prevs()[1] == "room_dw_church_knightclimb_post"@);
        } else if j == 2 {
            assert(ch4_prevs()[2] == "room_town_noellehouse"@);
        } else if j == 3 {
            assert(ch4_prevs()[3] == "room_torhouse"@);
        } else if j == 4 {
            assert(ch4_prevs()[4] == "room_town_church"@);
        } else if j == 5 {
            assert(ch4_prevs()[5] == "room_dw_church_darkmaze"@);
        } else if j == 6 {
            assert(ch4_prevs()[6] == "room_dw_church_secretpiano"@);
        } else if j == 7 {
            assert(ch4_prevs()[7] == "room_dw_church_gersonstudy"@);
        } else if j == 8 {
            assert(ch4_prevs()[8] == "room_dw_church_arena"@);
        } else if j == 9 {
            assert(ch4_prevs()[9] == "room_dw_church_gersonstudy"@);
        } else if j == 10 {
            assert(ch4_prevs()[10] == "room_dw_church_gersonstudy"@);
        } else if j == 11 {
            assert(ch4_prevs()[11] == "room_dw_church_holywatercooler"@);
        } else if j == 12 {
            assert(ch4_prevs()[12] == "room_dw_churchc_pretitan"@);
        } else if j == 13 {
            assert(ch4_prevs()[13] == "room_dw_churchc_titanclimb1"@);
        } else if j == 14 {
            assert(ch4_prevs()[14] == "room_dw_churchc_titanclimb1_post"@);
        } else if j == 15 {
            assert(ch4_prevs()[15] == "room_dw_churchc_titanclimb2"@);
        } else if j == 16 {
            assert(ch4_prevs()[16] == "room_dw_churchc_titanclimb2_post"@);
        }
    }
    assert(ch4_prevs()[17] == prev && ch4_curs()[17] == cur && ch4_names()[17] == "ch4_seal_titan"@);
    lemma_transition_first(ch4_prevs(), ch4_curs(), ch4_names(), prev, cur, 17);
}

proof fn ch4_row_18(raw_changed: bool, prev: Seq<char>, cur: Seq<char>, settings: Settings, inp: &TickInputs)
    requires
        prev == "room_cc_fountain"@,
        cur == "room_lw_church_main"@,
    ensures
        spec_chapter_split(4, raw_changed, prev, cur, settings, inp) == "ch4_third_sanctuary"@,
{
    reveal_strlit("room_cc_fountain");
    reveal_strlit("PLACE_MENU");
    reveal_strlit("room_lw_church_main");
    reveal_strlit("room_schooldoor");
    reveal_strlit("room_dw_church_knightclimb_post");
    reveal_strlit("room_town_noellehouse");
    reveal_strlit("room_torhouse");
    reveal_strlit("room_town_church");
    reveal_strlit("room_dw_church_darkmaze");
    reveal_strlit("room_dw_church_secretpiano");
    reveal_strlit("room_dw_church_gersonstudy");
    reveal_strlit("room_dw_church_arena");
    reveal_strlit("room_dw_church_holywatercooler");
    reveal_strlit("room_dw_churchc_pretitan");
    reveal_strlit("room_dw_churchc_titanclimb1");
    reveal_strlit("room_dw_churchc_titanclimb1_post");
    reveal_strlit("room_dw_churchc_titanclimb2");
    reveal_strlit("room_dw_churchc_titanclimb2_post");
    reveal_strlit("room_dw_churchc_insidetitan");
    assert("room_cc_fountain"@.len() != "PLACE_MENU"@.len());
    assert("room_cc_fountain"@.len() != "room_lw_church_main"@.len());
    assert("room_schooldoor"@.len() != "room_cc_fountain"@.len());
    assert("room_dw_church_knightclimb_post"@.len() != "room_cc_fountain"@.len());
    assert("room_town_noellehouse"@.len() != "room_cc_fountain"@.len());
    assert("room_torhouse"@.len() != "room_cc_fountain"@.len());
    assert("room_town_church"@[5] != "room_cc_fountain"@[5]);
    assert("room_dw_church_darkmaze"@.len() != "room_cc_fountain"@.len());
    assert("room_dw_church_secretpiano"@.len() != "room_cc_fountain"@.len());
    assert("room_dw_church_gersonstudy"@.len() != "room_cc_fountain"@.len());
    assert("room_dw_church_arena"@.len() != "room_cc_fountain"@.len());
    assert("room_dw_church_holywatercooler"@.len() != "room_cc_fountain"@.len());
    assert("room_dw_churchc_pretitan"@.len() != "room_cc_fountain"@.len());
    assert("room_dw_churchc_titanclimb1"@.len() != "room_cc_fountain"@.len());
    assert("room_dw_churchc_titanclimb1_post"@.len() != "room_cc_fountain"@.len());
    assert("room_dw_churchc_titanclimb2"@.len() != "room_cc_fountain"@.len());
    assert("room_dw_churchc_titanclimb2_post"@.len() != "room_cc_fountain"@.len());
    assert("room_dw_churchc_insidetitan"@.len() != "room_cc_fountain"@.len());
    assert forall|j: int| 0 <= j < 18 implies !(#[trigger] ch4_prevs()[j] == prev && ch4_curs()[j] == cur) by {
        if j == 0 {
            assert(ch4_prevs()[0] == "room_schooldoor"@);
        } else if j == 1 {
            assert(ch4_prevs()[1] == "room_dw_church_knightclimb_post"@);
        } else if j == 2 {
            assert(ch4_prevs()[2] == "room_town_noellehouse"@);
        } else if j == 3 {
            assert(ch4_prevs()[3] == "room_torhouse"@);
        } else if j == 4 {
            assert(ch4_prevs()[4] == "room_town_church"@);
        } else if j == 5 {
            assert(ch4_prevs()[5] == "room_dw_church_darkmaze"@);
        } else if j == 6 {
            assert(ch4_prevs()[6] == "room_dw_church_secretpiano"@);
        } else if j == 7 {
            assert(ch4_prevs()[7] == "room_dw_church_gersonstudy"@);
        } else if j == 8 {
            assert(ch4_prevs()[8] == "room_dw_church_arena"@);
        } else if j == 9 {
            assert(ch4_prevs()[9] == "room_dw_church_gersonstudy"@);
        } else if j == 10 {
            assert(ch4_prevs()[10] == "room_dw_church_gersonstudy"@);
        } else if j == 11 {
            assert(ch4_prevs()[11] == "room_dw_church_holywatercooler"@);
        } else if j == 12 {
            assert(ch4_prevs()[12] == "room_dw_churchc_pretitan"@);
        } else if j == 13 {
            assert(ch4_prevs()[13] == "room_dw_churchc_titanclimb1"@);
        } else if j == 14 {
            assert(ch4_prevs()[14] == "room_dw_churchc_titanclimb1_post"@);
        } else if j == 15 {
            assert(ch4_prevs()[15] == "room_dw_churchc_titanclimb2"@);
        } else if j == 16 {
            assert(ch4_prevs()[16] == "room_dw_churchc_titanclimb2_post"@);
        } else if j == 17 {
            assert(ch4_prevs()[17] == "room_dw_churchc_insidetitan"@);
        }
    }
    assert(ch4_prevs()[18] == prev && ch4_curs()[18] == cur && ch4_names()[18] == "ch4_third_sanctuary"@);
    lemma_transition_first(ch4_prevs(), ch4_curs(), ch4_names(), prev, cur, 18);
}

proof fn ch4_row_19(raw_changed: bool, prev: Seq<char>, cur: Seq<char>, settings: Settings, inp: &TickInputs)
    requires
        prev == "room_torhouse"@,
        cur == "room_krisroom_dark"@,
    ensures
        spec_chapter_split(4, raw_changed, prev, cur, settings, inp) == "ch4_ending"@,
{
    reveal_strlit("room_torhouse");
    reveal_strlit("PLACE_MENU");
    reveal_strlit("room_krisroom_dark");
    reveal_strlit("room_schooldoor");
    reveal_strlit("room_dw_church_knightclimb_post");
    reveal_strlit("room_town_noellehouse");
    reveal_strlit("room_dw_church_intro1");
    reveal_strlit("room_town_church");
    reveal_strlit("room_dw_church_darkmaze");
    reveal_strlit("room_dw_church_secretpiano");
    reveal_strlit("room_dw_church_gersonstudy");
    reveal_strlit("room_dw_church_arena");
    reveal_strlit("room_dw_church_holywatercooler");
    reveal_strlit("room_dw_churchc_pretitan");
    reveal_strlit("room_dw_churchc_titanclimb1");
    reveal_strlit("room_dw_churchc_titanclimb1_post");
    reveal_strlit("room_dw_churchc_titanclimb2");
    reveal_strlit("room_dw_churchc_titanclimb2_post");
    reveal_strlit("room_dw_churchc_insidetitan");
    reveal_strlit("room_cc_fountain");
    assert("room_torhouse"@.len() != "PLACE_MENU"@.len());
    assert("room_torhouse"@.len() != "room_krisroom_dark"@.len());
    assert("room_schooldoor"@.len() != "room_torhouse"@.len());
    assert("room_dw_church_knightclimb_post"@.len() != "room_torhouse"@.len());
    assert("room_town_noellehouse"@.len() != "room_torhouse"@.len());
    assert("room_dw_church_intro1"@.len() != "room_krisroom_dark"@.len());
    assert("room_town_church"@.len() != "room_torhouse"@.len());
    assert("room_dw_church_darkmaze"@.len() != "room_torhouse"@.len());
    assert("room_dw_church_secretpiano"@.len() != "room_torhouse"@.len());
    assert("room_dw_church_gersonstudy"@.len() != "room_torhouse"@.len());
    assert("room_dw_church_arena"@.len() != "room_torhouse"@.len());
    assert("room_dw_church_holywatercooler"@.len() != "room_torhouse"@.len());
    assert("room_dw_churchc_pretitan"@.len() != "room_torhouse"@.len());
    assert("room_dw_churchc_titanclimb1"@.len() != "room_torhouse"@.len());
    assert("room_dw_churchc_titanclimb1_post"@.len() != "room_torhouse"@.len());
    assert("room_dw_churchc_titanclimb2"@.len() != "room_torhouse"@.len());
    assert("room_dw_churchc_titanclimb2_post"@.len() != "room_torhouse"@.len());
    assert("room_dw_churchc_insidetitan"@.len() != "room_torhouse"@.len());
    assert("room_cc_fountain"@.len() != "room_torhouse"@.len());
    assert forall|j: int| 0 <= j < 19 implies !(#[trigger] ch4_prevs()[j] == prev && ch4_curs()[j] == cur) by {
        if j == 0 {
            assert(ch4_prevs()[0] == "room_schooldoor"@);
        } else if j == 1 {
            assert(ch4_prevs()[1] == "room_dw_church_knightclimb_post"@);
        } else if j == 2 {
            assert(ch4_prevs()[2] == "room_town_noellehouse"@);
        } else if j == 3 {
            assert(ch4_curs()[3] == "room_dw_church_intro1"@);
        } else if j == 4 {
            assert(ch4_prevs()[4] == "room_town_church"@);
        } else if j == 5 {
            assert(ch4_prevs()[5] == "room_dw_church_darkmaze"@);
        } else if j == 6 {
            assert(ch4_prevs()[6] == "room_dw_church_secretpiano"@);
        } else if j == 7 {
            assert(ch4_prevs()[7] == "room_dw_church_gersonstudy"@);
        } else if j == 8 {
            assert(ch4_prevs()[8] == "room_dw_church_arena"@);
        } else if j == 9 {
            assert(ch4_prevs()[9] == "room_dw_church_gersonstudy"@);
        } else if j == 10 {
            assert(ch4_prevs()[10] == "room_dw_church_gersonstudy"@);
        } else if j == 11 {
            assert(ch4_prevs()[11] == "room_dw_church_holywatercooler"@);
        } else if j == 12 {
            assert(ch4_prevs()[12] == "room_dw_churchc_pretitan"@);
        } else if j == 13 {
            assert(ch4_prevs()[13] == "room_dw_churchc_titanclimb1"@);
        } else if j == 14 {
            assert(ch4_prevs()[14] == "room_dw_churchc_titanclimb1_post"@);
        } else if j == 15 {
            assert(ch4_prevs()[15] == "room_dw_churchc_titanclimb2"@);
        } else if j == 16 {
            assert(ch4_prevs()[16] == "room_dw_churchc_titanclimb2_post"@);
        } else if j == 17 {
            assert(ch4_prevs()[17] == "room_dw_churchc_insidetitan"@);
        } else if j == 18 {
            assert(ch4_prevs()[18] == "room_cc_fountain"@);
        }
    }
    assert(ch4_prevs()[19] == prev && ch4_curs()[19] == cur && ch4_names()[19] == "ch4_ending"@);
    lemma_transition_first(ch4_prevs(), ch4_curs(), ch4_names(), prev, cur, 19);
}

proof fn ch4_row_20(raw_changed: bool, prev: Seq<char>, cur: Seq<char>, settings: Settings, inp: &TickInputs)
    requires
        prev == "room_town_krisyard_dark"@,
        cur == "room_ed"@,
    ensures
        spec_chapter_split(4, raw_changed, prev, cur, settings, inp) == "ch4_ending_ost"@,
{
    reveal_strlit("room_town_krisyard_dark");
    reveal_strlit("PLACE_MENU");
    reveal_strlit("room_ed");
    reveal_strlit("room_schooldoor");
    reveal_strlit("room_dw_church_knightclimb_post");
    reveal_strlit("room_town_noellehouse");
    reveal_strlit("room_torhouse");
    reveal_strlit("room_town_church");
    reveal_strlit("room_dw_church_darkmaze");
    reveal_strlit("room_dw_church_secretpiano");
    reveal_strlit("room_dw_church_gersonstudy");
    reveal_strlit("room_dw_church_arena");
    reveal_strlit("room_dw_church_holywatercooler");
    reveal_strlit("room_dw_churchc_pretitan");
    reveal_strlit("room_dw_churchc_titanclimb1");
    reveal_strlit("room_dw_churchc_titanclimb1_post");
    reveal_strlit("room_dw_churchc_titanclimb2");
    reveal_strlit("room_dw_churchc_titanclimb2_post");
    reveal_strlit("room_dw_churchc_insidetitan");
    reveal_strlit("room_cc_fountain");
    assert("room_town_krisyard_dark"@.len() != "PLACE_MENU"@.len());
    assert("room_town_krisyard_dark"@.len() != "room_ed"@.len());
    assert("room_schooldoor"@.len() != "room_town_krisyard_dark"@.len());
    assert("room_dw_church_knightclimb_post"@.len() != "room_town_krisyard_dark"@.len());
    assert("room_town_noellehouse"@.len() != "room_town_krisyard_dark"@.len());
    assert("room_torhouse"@.len() != "room_town_krisyard_dark"@.len());
    assert("room_town_church"@.len() != "room_town_krisyard_dark"@.len());
    assert("room_dw_church_darkmaze"@[5] != "room_town_krisyard_dark"@[5]);
    assert("room_dw_church_secretpiano"@.len() != "room_town_krisyard_dark"@.len());
    assert("room_dw_church_gersonstudy"@.len() != "room_town_krisyard_dark"@.len());
    assert("room_dw_church_arena"@.len() != "room_town_krisyard_dark"@.len());
    assert("room_dw_church_holywatercooler"@.len() != "room_town_krisyard_dark"@.len());
    assert("room_dw_churchc_pretitan"@.len() != "room_town_krisyard_dark"@.len());
    assert("room_dw_churchc_titanclimb1"@.len() != "room_town_krisyard_dark"@.len());
    assert("room_dw_churchc_titanclimb1_post"@.len() != "room_town_krisyard_dark"@.len());
    assert("room_dw_churchc_titanclimb2"@.len() != "room_town_krisyard_dark"@.len());
    assert("room_dw_churchc_titanclimb2_post"@.len() != "room_town_krisyard_dark"@.len());
    assert("room_dw_churchc_insidetitan"@.len() != "room_town_krisyard_dark"@.len());
    assert("room_cc_fountain"@.len() != "room_town_krisyard_dark"@.len());
    assert forall|j: int| 0 <= j < 20 implies !(#[trigger] ch4_prevs()[j] == prev && ch4_curs()[j] == cur) by {
        if j == 0 {
            assert(ch4_prevs()[0] == "room_schooldoor"@);
        } else if j == 1 {
            assert(ch4_prevs()[1] == "room_dw_church_knightclimb_post"@);
        } else if j == 2 {
            assert(ch4_prevs()[2] == "room_town_noellehouse"@);
        } else if j == 3 {
            assert(ch4_prevs()[3] == "room_torhouse"@);
        } else if j == 4 {
            assert(ch4_prevs()[4] == "room_town_church"@);
        } else if j == 5 {
            assert(ch4_prevs()[5] == "room_dw_church_darkmaze"@);
        } else if j == 6 {
            assert(ch4_prevs()[6] == "room_dw_church_secretpiano"@);
        } else if j == 7 {
            assert(ch4_prevs()[7] == "room_dw_church_gersonstudy"@);
        } else if j == 8 {
            assert(ch4_prevs()[8] == "room_dw_church_arena"@);
        } else if j == 9 {
            assert(ch4_prevs()[9] == "room_dw_church_gersonstudy"@);
        } else if j == 10 {
            assert(ch4_prevs()[10] == "room_dw_church_gersonstudy"@);
        } else if j == 11 {
            assert(ch4_prevs()[11] == "room_dw_church_holywatercooler"@);
        } else if j == 12 {
            assert(ch4_prevs()[12] == "room_dw_churchc_pretitan"@);
        } else if j == 13 {
            assert(ch4_prevs()[13] == "room_dw_churchc_titanclimb1"@);
        } else if j == 14 {
            assert(ch4_prevs()[14] == "room_dw_churchc_titanclimb1_post"@);
        } else if j == 15 {
            assert(ch4_prevs()[15] == "room_dw_churchc_titanclimb2"@);
        } else if j == 16 {
            assert(ch4_prevs()[16] == "room_dw_churchc_titanclimb2_post"@);
        } else if j == 17 {
            assert(ch4_prevs()[17] == "room_dw_churchc_insidetitan"@);
        } else if j == 18 {
            assert(ch4_prevs()[18] == "room_cc_fountain"@);
        } else if j == 19 {
            assert(ch4_prevs()[19] == "room_torhouse"@);
        }
    }
    assert(ch4_prevs()[20] == prev && ch4_curs()[20] == cur && ch4_names()[20] == "ch4_ending_ost"@);
    lemma_transition_first(ch4_prevs(), ch4_curs(), ch4_names(), prev, cur, 20);
}

proof fn ch5_row_0(raw_changed: bool, prev: Seq<char>, cur: Seq<char>, settings: Settings, inp: &TickInputs)
    requires
        prev == "room_schooldoor"@,
        cur == "room_dw_castle_area_1"@,
    ensures
        spec_chapter_split(5, raw_changed, prev, cur, settings, inp) == "ch5_enter_castle_town"@,
{
    reveal_strlit("room_schooldoor");
    reveal_strlit("PLACE_MENU");
    reveal_strlit("room_dw_castle_area_1");
    reveal_strlit("room_shop");
    assert("room_schooldoor"@.len() != "PLACE_MENU"@.len());
    assert("room_schooldoor"@.len() != "room_dw_castle_area_1"@.len());
    assert("room_schooldoor"@.len() != "room_shop"@.len());
    assert(ch5_prevs()[0] == prev && ch5_curs()[0] == cur && ch5_names()[0] == "ch5_enter_castle_town"@);
    lemma_transition_first(ch5_prevs(), ch5_curs(), ch5_names(), prev, cur, 0);
}

proof fn ch5_row_1(raw_changed: bool, prev: Seq<char>, cur: Seq<char>, settings: Settings, inp: &TickInputs)
    requires
        prev == "room_krisroom"@,
        cur == "room_dw_garden_intro"@,
    ensures
        spec_chapter_split(5, raw_changed, prev, cur, settings, inp) == "ch5_bedskip"@,
{
    reveal_strlit("room_krisroom");
    reveal_strlit("PLACE_MENU");
    reveal_strlit("room_dw_garden_intro");
    reveal_strlit("room_shop");
    reveal_strlit("room_schooldoor");
    assert("room_krisroom"@.len() != "PLACE_MENU"@.len());
    assert("room_krisroom"@.len() != "room_dw_garden_intro"@.len());
    assert("room_krisroom"@.len() != "room_shop"@.len());
    assert("room_dw_garden_intro"@.len() != "room_schooldoor"@.len());
    assert("room_schooldoor"@.len() != "room_krisroom"@.len());
    assert forall|j: int| 0 <= j < 1 implies !(#[trigger] ch5_prevs()[j] == prev && ch5_curs()[j] == cur) by {
        if j == 0 {
            assert(ch5_prevs()[0] == "room_schooldoor"@);
        }
    }
    assert(ch5_prevs()[1] == prev && ch5_curs()[1] == cur && ch5_names()[1] == "ch5_bedskip"@);
    lemma_transition_first(ch5_prevs(), ch5_curs(), ch5_names(), prev, cur, 1);
}

proof fn ch5_row_2(raw_changed: bool, prev: Seq<char>, cur: Seq<char>, settings: Settings, inp: &TickInputs)
    requires
        prev == "room_town_north"@,
        cur == "room_dw_garden_intro"@,
    ensures
        spec_chapter_split(5, raw_changed, prev, cur, settings, inp) == "ch5_enter_dw"@,
{
    reveal_strlit("room_town_north");
    reveal_strlit("PLACE_MENU");
    reveal_strlit("room_dw_garden_intro");
    reveal_strlit("room_shop");
    reveal_strlit("room_schooldoor");
    reveal_strlit("room_krisroom");
    assert("room_town_north"@.len() != "PLACE_MENU"@.len());
    assert("room_town_north"@.len() != "room_dw_garden_intro"@.len());
    assert("room_town_north"@.len() != "room_shop"@.len());
    assert("room_dw_garden_intro"@.len() != "room_schooldoor"@.len());
    assert("room_schooldoor"@[5] != "room_town_north"@[5]);
    assert("room_krisroom"@.len() != "room_town_north"@.len());
    assert forall|j: int| 0 <= j < 2 implies !(#[trigger] ch5_prevs()[j] == prev && ch5_curs()[j] == cur) by {
        if j == 0 {
            assert(ch5_prevs()[0] == "room_schooldoor"@);
        } else if j == 1 {
            assert(ch5_prevs()[1] == "room_krisroom"@);
        }
    }
    assert(ch5_prevs()[2] == prev && ch5_curs()[2] == cur && ch5_names()[2] == "ch5_enter_dw"@);
    lemma_transition_first(ch5_prevs(), ch5_curs(), ch5_names(), prev, cur, 2);
}

proof fn ch5_row_3(raw_changed: bool, prev: Seq<char>, cur: Seq<char>, settings: Settings, inp: &TickInputs)
    requires
        prev == "room_dw_garden_firstdash"@,
        cur == "room_dw_garden_diner"@,
    ensures
        spec_chapter_split(5, raw_changed, prev, cur, settings, inp) == "ch5_enter_diner"@,
{
    reveal_strlit("room_dw_garden_firstdash");
    reveal_strlit("PLACE_MENU");
    reveal_strlit("room_dw_garden_diner");
    reveal_strlit("room_shop");
    reveal_strlit("room_schooldoor");
    reveal_strlit("room_krisroom");
    reveal_strlit("room_town_north");
    assert("room_dw_garden_firstdash"@.len() != "PLACE_MENU"@.len());
    assert("room_dw_garden_firstdash"@.len() != "room_dw_garden_diner"@.len());
    assert("room_dw_garden_firstdash"@.len() != "room_shop"@.len());
    assert("room_dw_garden_diner"@.len() != "room_schooldoor"@.len());
    assert("room_schooldoor"@.len() != "room_dw_garden_firstdash"@.len());
    assert("room_krisroom"@.len() != "room_dw_garden_firstdash"@.len());
    assert("room_town_north"@.len() != "room_dw_garden_firstdash"@.len());
    assert forall|j: int| 0 <= j < 3 implies !(#[trigger] ch5_prevs()[j] == prev && ch5_curs()[j] == cur) by {
        if j == 0 {
            assert(ch5_prevs()[0] == "room_schooldoor"@);
        } else if j == 1 {
            assert(ch5_prevs()[1] == "room_krisroom"@);
        } else if j == 2 {
            assert(ch5_prevs()[2] == "room_town_north"@);
        }
    }
    assert(ch5_prevs()[3] == prev && ch5_curs()[3] == cur && ch5_names()[3] == "ch5_enter_diner"@);
    lemma_transition_first(ch5_prevs(), ch5_curs(), ch5_names(), prev, cur, 3);
}

proof fn ch5_row_4(raw_changed: bool, prev: Seq<char>, cur: Seq<char>, settings: Settings, inp: &TickInputs)
    requires
        prev == "room_dw_garden_diner"@,
        cur == "room_dw_garden_newdash"@,
    ensures
        spec_chapter_split(5, raw_changed, prev, cur, settings, inp) == "ch5_exit_diner"@,
{
    reveal_strlit("room_dw_garden_diner");
    reveal_strlit("PLACE_MENU");
    reveal_strlit("room_dw_garden_newdash");
    reveal_strlit("room_shop");
    reveal_strlit("room_schooldoor");
    reveal_strlit("room_krisroom");
    reveal_strlit("room_town_north");
    reveal_strlit("room_dw_garden_firstdash");
    assert("room_dw_garden_diner"@.len() != "PLACE_MENU"@.len());
    assert("room_dw_garden_diner"@.len() != "room_dw_garden_newdash"@.len());
    assert("room_dw_garden_diner"@.len() != "room_shop"@.len());
    assert("room_dw_garden_newdash"@.len() != "room_schooldoor"@.len());
    assert("room_schooldoor"@.len() != "room_dw_garden_diner"@.len());
    assert("room_krisroom"@.len() != "room_dw_garden_diner"@.len());
    assert("room_town_north"@.len() != "room_dw_garden_diner"@.len());
    assert("room_dw_garden_firstdash"@.len() != "room_dw_garden_diner"@.len());
    assert forall|j: int| 0 <= j < 4 implies !(#[trigger] ch5_prevs()[j] == prev && ch5_curs()[j] == cur) by {
        if j == 0 {
            assert(ch5_prevs()[0] == "room_schooldoor"@);
        } else if j == 1 {
            assert(ch5_prevs()[1] == "room_krisroom"@);
        } else if j == 2 {
            assert(ch5_prevs()[2] == "room_town_north"@);
        } else if j == 3 {
            assert(ch5_prevs()[3] == "room_dw_garden_firstdash"@);
        }
    }
    assert(ch5_prevs()[4] == prev && ch5_curs()[4] == cur && ch5_names()[4] == "ch5_exit_diner"@);
    lemma_transition_first(ch5_prevs(), ch5_curs(), ch5_names(), prev, cur, 4);
}

proof fn ch5_row_5(raw_changed: bool, prev: Seq<char>, cur: Seq<char>, settings: Settings, inp: &TickInputs)
    requires
        prev == "room_dw_garden_hardpressureplates"@,
        cur == "room_dw_garden_aquatransition"@,
    ensures
        spec_chapter_split(5, raw_changed, prev, cur, settings, inp) == "ch5_dark_garden"@,
{
    reveal_strlit("room_dw_garden_hardpressureplates");
    reveal_strlit("PLACE_MENU");
    reveal_strlit("room_dw_garden_aquatransition");
    reveal_strlit("room_shop");
    reveal_strlit("room_schooldoor");
    reveal_strlit("room_krisroom");
    reveal_strlit("room_town_north");
    reveal_strlit("room_dw_garden_firstdash");
    reveal_strlit("room_dw_garden_diner");
    assert("room_dw_garden_hardpressureplates"@.len() != "PLACE_MENU"@.len());
    assert("room_dw_garden_hardpressureplates"@.len() != "room_dw_garden_aquatransition"@.len());
    assert("room_dw_garden_hardpressureplates"@.len() != "room_shop"@.len());
    assert("room_dw_garden_aquatransition"@.len() != "room_schooldoor"@.len());
    assert("room_schooldoor"@.len() != "room_dw_garden_hardpressureplates"@.len());
    assert("room_krisroom"@.len() != "room_dw_garden_hardpressureplates"@.len());
    assert("room_town_north"@.len() != "room_dw_garden_hardpressureplates"@.len());
    assert("room_dw_garden_firstdash"@.len() != "room_dw_garden_hardpressureplates"@.len());
    assert("room_dw_garden_diner"@.len() != "room_dw_garden_hardpressureplates"@.len());
    assert forall|j: int| 0 <= j < 5 implies !(#[trigger] ch5_prevs()[j] == prev && ch5_curs()[j] == cur) by {
        if j == 0 {
            assert(ch5_prevs()[0] == "room_schooldoor"@);
        } else if j == 1 {
            assert(ch5_prevs()[1] == "room_krisroom"@);
        } else if j == 2 {
            assert(ch5_prevs()[2] == "room_town_north"@);
        } else if j == 3 {
            assert(ch5_prevs()[3] == "room_dw_garden_firstdash"@);
        } else if j == 4 {
            assert(ch5_prevs()[4] == "room_dw_garden_diner"@);
        }
    }
    assert(ch5_prevs()[5] == prev && ch5_curs()[5] == cur && ch5_names()[5] == "ch5_dark_garden"@);
    lemma_transition_first(ch5_prevs(), ch5_curs(), ch5_names(), prev, cur, 5);
}

proof fn ch5_row_6(raw_changed: bool, prev: Seq<char>, cur: Seq<char>, settings: Settings, inp: &TickInputs)
    requires
        prev == "room_dw_garden_wateringcan_aqua"@,
        cur == "room_dw_garden_aqua"@,
    ensures
        spec_chapter_split(5, raw_changed, prev, cur, settings, inp) == "ch5_enter_aqua"@,
{
    reveal_strlit("room_dw_garden_wateringcan_aqua");
    reveal_strlit("PLACE_MENU");
    reveal_strlit("room_dw_garden_aqua");
    reveal_strlit("room_shop");
    reveal_strlit("room_schooldoor");
    reveal_strlit("room_krisroom");
    reveal_strlit("room_town_north");
    reveal_strlit("room_dw_garden_firstdash");
    reveal_strlit("room_dw_garden_diner");
    reveal_strlit("room_dw_garden_hardpressureplates");
    assert("room_dw_garden_wateringcan_aqua"@.len() != "PLACE_MENU"@.len());
    assert("room_dw_garden_wateringcan_aqua"@.len() != "room_dw_garden_aqua"@.len());
    assert("room_dw_garden_wateringcan_aqua"@.len() != "room_shop"@.len());
    assert("room_dw_garden_aqua"@.len() != "room_schooldoor"@.len());
    assert("room_schooldoor"@.len() != "room_dw_garden_wateringcan_aqua"@.len());
    assert("room_krisroom"@.len() != "room_dw_garden_wateringcan_aqua"@.len());
    assert("room_town_north"@.len() != "room_dw_garden_wateringcan_aqua"@.len());
    assert("room_dw_garden_firstdash"@.len() != "room_dw_garden_wateringcan_aqua"@.len());
    assert("room_dw_garden_diner"@.len() != "room_dw_garden_wateringcan_aqua"@.len());
    assert("room_dw_garden_hardpressureplates"@.len() != "room_dw_garden_wateringcan_aqua"@.len());
    assert forall|j: int| 0 <= j < 6 implies !(#[trigger] ch5_prevs()[j] == prev && ch5_curs()[j] == cur) by {
        if j == 0 {
            assert(ch5_prevs()[0] == "room_schooldoor"@);
        } else if j == 1 {
            assert(ch5_prevs()[1] == "room_krisroom"@);
        } else if j == 2 {
            assert(ch5_prevs()[2] == "room_town_north"@);
        } else if j == 3 {
            assert(ch5_prevs()[3] == "room_dw_garden_firstdash"@);
        } else if j == 4 {
            assert(ch5_prevs()[4] == "room_dw_garden_diner"@);
        } else if j == 5 {
            assert(ch5_prevs()[5] == "room_dw_garden_hardpressureplates"@);
        }
    }
    assert(ch5_prevs()[6] == prev && ch5_curs()[6] == cur && ch5_names()[6] == "ch5_enter_aqua"@);
    lemma_transition_first(ch5_prevs(), ch5_curs(), ch5_names(), prev, cur, 6);
}

proof fn ch5_row_7(raw_changed: bool, prev: Seq<char>, cur: Seq<char>, settings: Settings, inp: &TickInputs)
    requires
        prev == "room_dw_garden_aqua"@,
        cur == "room_dw_garden_aquadarkness"@,
    ensures
        spec_chapter_split(5, raw_changed, prev, cur, settings, inp) == "ch5_exit_aqua"@,
{
    reveal_strlit("room_dw_garden_aqua");
    reveal_strlit("PLACE_MENU");
    reveal_strlit("room_dw_garden_aquadarkness");
    reveal_strlit("room_shop");
    reveal_strlit("room_schooldoor");
    reveal_strlit("room_krisroom");
    reveal_strlit("room_town_north");
    reveal_strlit("room_dw_garden_firstdash");
    reveal_strlit("room_dw_garden_diner");
    reveal_strlit("room_dw_garden_hardpressureplates");
    reveal_strlit("room_dw_garden_wateringcan_aqua");
    assert("room_dw_garden_aqua"@.len() != "PLACE_MENU"@.len());
    assert("room_dw_garden_aqua"@.len() != "room_dw_garden_aquadarkness"@.len());
    assert("room_dw_garden_aqua"@.len() != "room_shop"@.len());
    assert("room_dw_garden_aquadarkness"@.len() != "room_schooldoor"@.len());
    assert("room_schooldoor"@.len() != "room_dw_garden_aqua"@.len());
    assert("room_krisroom"@.len() != "room_dw_garden_aqua"@.len());
    assert("room_town_north"@.len() != "room_dw_garden_aqua"@.len());
    assert("room_dw_garden_firstdash"@.len() != "room_dw_garden_aqua"@.len());
    assert("room_dw_garden_diner"@.len() != "room_dw_garden_aqua"@.len());
    assert("room_dw_garden_hardpressureplates"@.len() != "room_dw_garden_aqua"@.len());
    assert("room_dw_garden_wateringcan_aqua"@.len() != "room_dw_garden_aqua"@.len());
    assert forall|j: int| 0 <= j < 7 implies !(#[trigger] ch5_prevs()[j] == prev && ch5_curs()[j] == cur) by {
        if j == 0 {
            assert(ch5_prevs()[0] == "room_schooldoor"@);
        } else if j == 1 {
            assert(ch5_prevs()[1] == "room_krisroom"@);
        } else if j == 2 {
            assert(ch5_prevs()[2] == "room_town_north"@);
        } else if j == 3 {
            assert(ch5_prevs()[3] == "room_dw_garden_firstdash"@);
        } else if j == 4 {
            assert(ch5_prevs()[4] == "room_dw_garden_diner"@);
        } else if j == 5 {
            assert(ch5_prevs()[5] == "room_dw_garden_hardpressureplates"@);
        } else if j == 6 {
            assert(ch5_prevs()[6] == "room_dw_garden_wateringcan_aqua"@);
        }
    }
    assert(ch5_prevs()[7] == prev && ch5_curs()[7] == cur && ch5_names()[7] == "ch5_exit_aqua"@);
    lemma_transition_first(ch5_prevs(), ch5_curs(), ch5_names(), prev, cur, 7);
}

proof fn ch5_row_8(raw_changed: bool, prev: Seq<char>, cur: Seq<char>, settings: Settings, inp: &TickInputs)
    requires
        prev == "room_dw_garden_aquashrine"@,
        cur == "room_dw_garden_aquahole"@,
    ensures
        spec_chapter_split(5, raw_changed, prev, cur, settings, inp) == "ch5_exit_feather"@,
{
    reveal_strlit("room_dw_garden_aquashrine");
    reveal_strlit("PLACE_MENU");
    reveal_strlit("room_dw_garden_aquahole");
    reveal_strlit("room_shop");
    reveal_strlit("room_schooldoor");
    reveal_strlit("room_krisroom");
    reveal_strlit("room_town_north");
    reveal_strlit("room_dw_garden_firstdash");
    reveal_strlit("room_dw_garden_diner");
    reveal_strlit("room_dw_garden_hardpressureplates");
    reveal_strlit("room_dw_garden_wateringcan_aqua");
    reveal_strlit("room_dw_garden_aqua");
    assert("room_dw_garden_aquashrine"@.len() != "PLACE_MENU"@.len());
    assert("room_dw_garden_aquashrine"@.len() != "room_dw_garden_aquahole"@.len());
    assert("room_dw_garden_aquashrine"@.len() != "room_shop"@.len());
    assert("room_dw_garden_aquahole"@.len() != "room_schooldoor"@.len());
    assert("room_schooldoor"@.len() != "room_dw_garden_aquashrine"@.len());
    assert("room_krisroom"@.len() != "room_dw_garden_aquashrine"@.len());
    assert("room_town_north"@.len() != "room_dw_garden_aquashrine"@.len());
    assert("room_dw_garden_firstdash"@.len() != "room_dw_garden_aquashrine"@.len());
    assert("room_dw_garden_diner"@.len() != "room_dw_garden_aquashrine"@.len());
    assert("room_dw_garden_hardpressureplates"@.len() != "room_dw_garden_aquashrine"@.len());
    assert("room_dw_garden_wateringcan_aqua"@.len() != "room_dw_garden_aquashrine"@.len());
    assert("room_dw_garden_aqua"@.len() != "room_dw_garden_aquashrine"@.len());
    assert forall|j: int| 0 <= j < 8 implies !(#[trigger] ch5_prevs()[j] == prev && ch5_curs()[j] == cur) by {
        if j == 0 {
            assert(ch5_prevs()[0] == "room_schooldoor"@);
        } else if j == 1 {
            assert(ch5_prevs()[1] == "room_krisroom"@);
        } else if j == 2 {
            assert(ch5_prevs()[2] == "room_town_north"@);
        } else if j == 3 {
            assert(ch5_prevs()[3] == "room_dw_garden_firstdash"@);
        } else if j == 4 {
            assert(ch5_prevs()[4] == "room_dw_garden_diner"@);
        } else if j == 5 {
            assert(ch5_prevs()[5] == "room_dw_garden_hardpressureplates"@);
        } else if j == 6 {
            assert(ch5_prevs()[6] == "room_dw_garden_wateringcan_aqua"@);
        } else if j == 7 {
            assert(ch5_prevs()[7] == "room_dw_garden_aqua"@);
        }
    }
    assert(ch5_prevs()[8] == prev && ch5_curs()[8] == cur && ch5_names()[8] == "ch5_exit_feather"@);
    lemma_transition_first(ch5_prevs(), ch5_curs(), ch5_names(), prev, cur, 8);
}

proof fn ch5_row_9(raw_changed: bool, prev: Seq<char>, cur: Seq<char>, settings: Settings, inp: &TickInputs)
    requires
        prev == "room_dw_garden_aquashrine"@,
        cur == "room_dw_garden_aquaplatforming"@,
    ensures
        spec_chapter_split(5, raw_changed, prev, cur, settings, inp) == "ch5_exit_feather"@,
{
    reveal_strlit("room_dw_garden_aquashrine");
    reveal_strlit("PLACE_MENU");
    reveal_strlit("room_dw_garden_aquaplatforming");
    reveal_strlit("room_shop");
    reveal_strlit("room_schooldoor");
    reveal_strlit("room_krisroom");
    reveal_strlit("room_town_north");
    reveal_strlit("room_dw_garden_firstdash");
    reveal_strlit("room_dw_garden_diner");
    reveal_strlit("room_dw_garden_hardpressureplates");
    reveal_strlit("room_dw_garden_wateringcan_aqua");
    reveal_strlit("room_dw_garden_aqua");
    reveal_strlit("room_dw_garden_aquahole");
    assert("room_dw_garden_aquashrine"@.len() != "PLACE_MENU"@.len());
    assert("room_dw_garden_aquashrine"@.len() != "room_dw_garden_aquaplatforming"@.len());
    assert("room_dw_garden_aquashrine"@.len() != "room_shop"@.len());
    assert("room_dw_garden_aquaplatforming"@.len() != "room_schooldoor"@.len());
    assert("room_schooldoor"@.len() != "room_dw_garden_aquashrine"@.len());
    assert("room_krisroom"@.len() != "room_dw_garden_aquashrine"@.len());
    assert("room_town_north"@.len() != "room_dw_garden_aquashrine"@.len());
    assert("room_dw_garden_firstdash"@.len() != "room_dw_garden_aquashrine"@.len());
    assert("room_dw_garden_diner"@.len() != "room_dw_garden_aquashrine"@.len());
    assert("room_dw_garden_hardpressureplates"@.len() != "room_dw_garden_aquashrine"@.len());
    assert("room_dw_garden_wateringcan_aqua"@.len() != "room_dw_garden_aquashrine"@.len());
    assert("room_dw_garden_aqua"@.len() != "room_dw_garden_aquashrine"@.len());
    assert("room_dw_garden_aquahole"@.len() != "room_dw_garden_aquaplatforming"@.len());
    assert forall|j: int| 0 <= j < 9 implies !(#[trigger] ch5_prevs()[j] == prev && ch5_curs()[j] == cur) by {
        if j == 0 {
            assert(ch5_prevs()[0] == "room_schooldoor"@);
        } else if j == 1 {
            assert(ch5_prevs()[1] == "room_krisroom"@);
        } else if j == 2 {
            assert(ch5_prevs()[2] == "room_town_north"@);
        } else if j == 3 {
            assert(ch5_prevs()[3] == "room_dw_garden_firstdash"@);
        } else if j == 4 {
            assert(ch5_prevs()[4] == "room_dw_garden_diner"@);
        } else if j == 5 {
            assert(ch5_prevs()[5] == "room_dw_garden_hardpressureplates"@);
        } else if j == 6 {
            assert(ch5_prevs()[6] == "room_dw_garden_wateringcan_aqua"@);
        } else if j == 7 {
            assert(ch5_prevs()[7] == "room_dw_garden_aqua"@);
        } else if j == 8 {
            assert(ch5_curs()[8] == "room_dw_garden_aquahole"@);
        }
    }
    assert(ch5_prevs()[9] == prev && ch5_curs()[9] == cur && ch5_names()[9] == "ch5_exit_feather"@);
    lemma_transition_first(ch5_prevs(), ch5_curs(), ch5_names(), prev, cur, 9);
}

proof fn ch5_row_10(raw_changed: bool, prev: Seq<char>, cur: Seq<char>, settings: Settings, inp: &TickInputs)
    requires
        prev == "room_dw_garden_finalplatforming"@,
        cur == "room_dw_garden_cliffexit"@,
    ensures
        spec_chapter_split(5, raw_changed, prev, cur, settings, inp) == "ch5_enter_cliff1"@,
{
    reveal_strlit("room_dw_garden_finalplatforming");
    reveal_strlit("PLACE_MENU");
    reveal_strlit("room_dw_garden_cliffexit");
    reveal_strlit("room_shop");
    reveal_strlit("room_schooldoor");
    reveal_strlit("room_krisroom");
    reveal_strlit("room_town_north");
    reveal_strlit("room_dw_garden_firstdash");
    reveal_strlit("room_dw_garden_diner");
    reveal_strlit("room_dw_garden_hardpressureplates");
    reveal_strlit("room_dw_garden_wateringcan_aqua");
    reveal_strlit("room_dw_garden_aqua");
    reveal_strlit("room_dw_garden_aquashrine");
    assert("room_dw_garden_finalplatforming"@.len() != "PLACE_MENU"@.len());
    assert("room_dw_garden_finalplatforming"@.len() != "room_dw_garden_cliffexit"@.len());
    assert("room_dw_garden_finalplatforming"@.len() != "room_shop"@.len());
    assert("room_dw_garden_cliffexit"@.len() != "room_schooldoor"@.len());
    assert("room_schooldoor"@.len() != "room_dw_garden_finalplatforming"@.len());
    assert("room_krisroom"@.len() != "room_dw_garden_finalplatforming"@.len());
    assert("room_town_north"@.len() != "room_dw_garden_finalplatforming"@.len());
    assert("room_dw_garden_firstdash"@.len() != "room_dw_garden_finalplatforming"@.len());
    assert("room_dw_garden_diner"@.len() != "room_dw_garden_finalplatforming"@.len());
    assert("room_dw_garden_hardpressureplates"@.len() != "room_dw_garden_finalplatforming"@.len());
    assert("room_dw_garden_wateringcan_aqua"@[15] != "room_dw_garden_finalplatforming"@[15]);
    assert("room_dw_garden_aqua"@.len() != "room_dw_garden_finalplatforming"@.len());
    assert("room_dw_garden_aquashrine"@.len() != "room_dw_garden_finalplatforming"@.len());
    assert forall|j: int| 0 <= j < 10 implies !(#[trigger] ch5_prevs()[j] == prev && ch5_curs()[j] == cur) by {
        if j == 0 {
            assert(ch5_prevs()[0] == "room_schooldoor"@);
        } else if j == 1 {
            assert(ch5_prevs()[1] == "room_krisroom"@);
        } else if j == 2 {
            assert(ch5_prevs()[2] == "room_town_north"@);
        } else if j == 3 {
            assert(ch5_prevs()[3] == "room_dw_garden_firstdash"@);
        } else if j == 4 {
            assert(ch5_prevs()[4] == "room_dw_garden_diner"@);
        } else if j == 5 {
            assert(ch5_prevs()[5] == "room_dw_garden_hardpressureplates"@);
        } else if j == 6 {
            assert(ch5_prevs()[6] == "room_dw_garden_wateringcan_aqua"@);
        } else if j == 7 {
            assert(ch5_prevs()[7] == "room_dw_garden_aqua"@);
        } else if j == 8 {
            assert(ch5_prevs()[8] == "room_dw_garden_aquashrine"@);
        } else if j == 9 {
            assert(ch5_prevs()[9] == "room_dw_garden_aquashrine"@);
        }
    }
    assert(ch5_prevs()[10] == prev && ch5_curs()[10] == cur && ch5_names()[10] == "ch5_enter_cliff1"@);
    lemma_transition_first(ch5_prevs(), ch5_curs(), ch5_names(), prev, cur, 10);
}

proof fn ch5_row_11(raw_changed: bool, prev: Seq<char>, cur: Seq<char>, settings: Settings, inp: &TickInputs)
    requires
        prev == "room_dw_garden_cliffexit"@,
        cur == "room_dw_cliff_gardentransition_new"@,
    ensures
        spec_chapter_split(5, raw_changed, prev, cur, settings, inp) == "ch5_enter_cliff2"@,
{
    reveal_strlit("room_dw_garden_cliffexit");
    reveal_strlit("PLACE_MENU");
    reveal_strlit("room_dw_cliff_gardentransition_new");
    reveal_strlit("room_shop");
    reveal_strlit("room_schooldoor");
    reveal_strlit("room_krisroom");
    reveal_strlit("room_town_north");
    reveal_strlit("room_dw_garden_firstdash");
    reveal_strlit("room_dw_garden_diner");
    reveal_strlit("room_dw_garden_hardpressureplates");
    reveal_strlit("room_dw_garden_wateringcan_aqua");
    reveal_strlit("room_dw_garden_aqua");
    reveal_strlit("room_dw_garden_aquashrine");
    reveal_strlit("room_dw_garden_finalplatforming");
    assert("room_dw_garden_cliffexit"@.len() != "PLACE_MENU"@.len());
    assert("room_dw_garden_cliffexit"@.len() != "room_dw_cliff_gardentransition_new"@.len());
    assert("room_dw_garden_cliffexit"@.len() != "room_shop"@.len());
    assert("room_dw_cliff_gardentransition_new"@.len() != "room_schooldoor"@.len());
    assert("room_schooldoor"@.len() != "room_dw_garden_cliffexit"@.len());
    assert("room_krisroom"@.len() != "room_dw_garden_cliffexit"@.len());
    assert("room_town_north"@.len() != "room_dw_garden_cliffexit"@.len());
    assert("room_dw_garden_firstdash"@[15] != "room_dw_garden_cliffexit"@[15]);
    assert("room_dw_garden_diner"@.len() != "room_dw_garden_cliffexit"@.len());
    assert("room_dw_garden_hardpressureplates"@.len() != "room_dw_garden_cliffexit"@.len());
    assert("room_dw_garden_wateringcan_aqua"@.len() != "room_dw_garden_cliffexit"@.len());
    assert("room_dw_garden_aqua"@.len() != "room_dw_garden_cliffexit"@.len());
    assert("room_dw_garden_aquashrine"@.len() != "room_dw_garden_cliffexit"@.len());
    assert("room_dw_garden_finalplatforming"@.len() != "room_dw_garden_cliffexit"@.len());
    assert forall|j: int| 0 <= j < 11 implies !(#[trigger] ch5_prevs()[j] == prev && ch5_curs()[j] == cur) by {
        if j == 0 {
            assert(ch5_prevs()[0] == "room_schooldoor"@);
        } else if j == 1 {
            assert(ch5_prevs()[1] == "room_krisroom"@);
        } else if j == 2 {
            assert(ch5_prevs()[2] == "room_town_north"@);
        } else if j == 3 {
            assert(ch5_prevs()[3] == "room_dw_garden_firstdash"@);
        } else if j == 4 {
            assert(ch5_prevs()[4] == "room_dw_garden_diner"@);
        } else if j == 5 {
            assert(ch5_prevs()[5] == "room_dw_garden_hardpressureplates"@);
        } else if j == 6 {
            assert(ch5_prevs()[6] == "room_dw_garden_wateringcan_aqua"@);
        } else if j == 7 {
            assert(ch5_prevs()[7] == "room_dw_garden_aqua"@);
        } else if j == 8 {
            assert(ch5_prevs()[8] == "room_dw_garden_aquashrine"@);
        } else if j == 9 {
            assert(ch5_prevs()[9] == "room_dw_garden_aquashrine"@);
        } else if j == 10 {
            assert(ch5_prevs()[10] == "room_dw_garden_finalplatforming"@);
        }
    }
    assert(ch5_prevs()[11] == prev && ch5_curs()[11] == cur && ch5_names()[11] == "ch5_enter_cliff2"@);
    lemma_transition_first(ch5_prevs(), ch5_curs(), ch5_names(), prev, cur, 11);
}

proof fn ch5_row_12(raw_changed: bool, prev: Seq<char>, cur: Seq<char>, settings: Settings, inp: &TickInputs)
    requires
        prev == "room_dw_cliff_seth_miniboss"@,
        cur == "room_dw_cliff_shop"@,
    ensures
        spec_chapter_split(5, raw_changed, prev, cur, settings, inp) == "ch5_enter_shop_room"@,
{
    reveal_strlit("room_dw_cliff_seth_miniboss");
    reveal_strlit("PLACE_MENU");
    reveal_strlit("room_dw_cliff_shop");
    reveal_strlit("room_shop");
    reveal_strlit("room_schooldoor");
    reveal_strlit("room_krisroom");
    reveal_strlit("room_town_north");
    reveal_strlit("room_dw_garden_firstdash");
    reveal_strlit("room_dw_garden_diner");
    reveal_strlit("room_dw_garden_hardpressureplates");
    reveal_strlit("room_dw_garden_wateringcan_aqua");
    reveal_strlit("room_dw_garden_aqua");
    reveal_strlit("room_dw_garden_aquashrine");
    reveal_strlit("room_dw_garden_finalplatforming");
    reveal_strlit("room_dw_garden_cliffexit");
    assert("room_dw_cliff_seth_miniboss"@.len() != "PLACE_MENU"@.len());
    assert("room_dw_cliff_seth_miniboss"@.len() != "room_dw_cliff_shop"@.len());
    assert("room_dw_cliff_seth_miniboss"@.len() != "room_shop"@.len());
    assert("room_dw_cliff_shop"@.len() != "room_schooldoor"@.len());
    assert("room_schooldoor"@.len() != "room_dw_cliff_seth_miniboss"@.len());
    assert("room_krisroom"@.len() != "room_dw_cliff_seth_miniboss"@.len());
    assert("room_town_north"@.len() != "room_dw_cliff_seth_miniboss"@.len());
    assert("room_dw_garden_firstdash"@.len() != "room_dw_cliff_seth_miniboss"@.len());
    assert("room_dw_garden_diner"@.len() != "room_dw_cliff_seth_miniboss"@.len());
    assert("room_dw_garden_hardpressureplates"@.len() != "room_dw_cliff_seth_miniboss"@.len());
    assert("room_dw_garden_wateringcan_aqua"@.len() != "room_dw_cliff_seth_miniboss"@.len());
    assert("room_dw_garden_aqua"@.len() != "room_dw_cliff_seth_miniboss"@.len());
    assert("room_dw_garden_aquashrine"@.len() != "room_dw_cliff_seth_miniboss"@.len());
    assert("room_dw_garden_finalplatforming"@.len() != "room_dw_cliff_seth_miniboss"@.len());
    assert("room_dw_garden_cliffexit"@.len() != "room_dw_cliff_seth_miniboss"@.len());
    assert forall|j: int| 0 <= j < 12 implies !(#[trigger] ch5_prevs()[j] == prev && ch5_curs()[j] == cur) by {
        if j == 0 {
            assert(ch5_prevs()[0] == "room_schooldoor"@);
        } else if j == 1 {
            assert(ch5_prevs()[1] == "room_krisroom"@);
        } else if j == 2 {
            assert(ch5_prevs()[2] == "room_town_north"@);
        } else if j == 3 {
            assert(ch5_prevs()[3] == "room_dw_garden_firstdash"@);
        } else if j == 4 {
            assert(ch5_prevs()[4] == "room_dw_garden_diner"@);
        } else if j == 5 {
            assert(ch5_prevs()[5] == "room_dw_garden_hardpressureplates"@);
        } else if j == 6 {
            assert(ch5_prevs()[6] == "room_dw_garden_wateringcan_aqua"@);
        } else if j == 7 {
            assert(ch5_prevs()[7] == "room_dw_garden_aqua"@);
        } else if j == 8 {
            assert(ch5_prevs()[8] == "room_dw_garden_aquashrine"@);
        } else if j == 9 {
            assert(ch5_prevs()[9] == "room_dw_garden_aquashrine"@);
        } else if j == 10 {
            assert(ch5_prevs()[10] == "room_dw_garden_finalplatforming"@);
        } else if j == 11 {
            assert(ch5_prevs()[11] == "room_dw_garden_cliffexit"@);
        }
    }
    assert(ch5_prevs()[12] == prev && ch5_curs()[12] == cur && ch5_names()[12] == "ch5_enter_shop_room"@);
    lemma_transition_first(ch5_prevs(), ch5_curs(), ch5_names(), prev, cur, 12);
}

proof fn ch5_row_13(raw_changed: bool, prev: Seq<char>, cur: Seq<char>, settings: Settings, inp: &TickInputs)
    requires
        prev == "room_dw_cliff_shop"@,
        cur == "room_dw_cliff_kawkawdash"@,
    ensures
        spec_chapter_split(5, raw_changed, prev, cur, settings, inp) == "ch5_exit_shop_room"@,
{
    reveal_strlit("room_dw_cliff_shop");
    reveal_strlit("PLACE_MENU");
    reveal_strlit("room_dw_cliff_kawkawdash");
    reveal_strlit("room_shop");
    reveal_strlit("room_schooldoor");
    reveal_strlit("room_krisroom");
    reveal_strlit("room_town_north");
    reveal_strlit("room_dw_garden_firstdash");
    reveal_strlit("room_dw_garden_diner");
    reveal_strlit("room_dw_garden_hardpressureplates");
    reveal_strlit("room_dw_garden_wateringcan_aqua");
    reveal_strlit("room_dw_garden_aqua");
    reveal_strlit("room_dw_garden_aquashrine");
    reveal_strlit("room_dw_garden_finalplatforming");
    reveal_strlit("room_dw_garden_cliffexit");
    reveal_strlit("room_dw_cliff_seth_miniboss");
    assert("room_dw_cliff_shop"@.len() != "PLACE_MENU"@.len());
    assert("room_dw_cliff_shop"@.len() != "room_dw_cliff_kawkawdash"@.len());
    assert("room_dw_cliff_shop"@.len() != "room_shop"@.len());
    assert("room_dw_cliff_kawkawdash"@.len() != "room_schooldoor"@.len());
    assert("room_schooldoor"@.len() != "room_dw_cliff_shop"@.len());
    assert("room_krisroom"@.len() != "room_dw_cliff_shop"@.len());
    assert("room_town_north"@.len() != "room_dw_cliff_shop"@.len());
    assert("room_dw_garden_firstdash"@.len() != "room_dw_cliff_shop"@.len());
    assert("room_dw_garden_diner"@.len() != "room_dw_cliff_shop"@.len());
    assert("room_dw_garden_hardpressureplates"@.len() != "room_dw_cliff_shop"@.len());
    assert("room_dw_garden_wateringcan_aqua"@.len() != "room_dw_cliff_shop"@.len());
    assert("room_dw_garden_aqua"@.len() != "room_dw_cliff_shop"@.len());
    assert("room_dw_garden_aquashrine"@.len() != "room_dw_cliff_shop"@.len());
    assert("room_dw_garden_finalplatforming"@.len() != "room_dw_cliff_shop"@.len());
    assert("room_dw_garden_cliffexit"@.len() != "room_dw_cliff_shop"@.len());
    assert("room_dw_cliff_seth_miniboss"@.len() != "room_dw_cliff_shop"@.len());
    assert forall|j: int| 0 <= j < 13 implies !(#[trigger] ch5_prevs()[j] == prev && ch5_curs()[j] == cur) by {
        if j == 0 {
            assert(ch5_prevs()[0] == "room_schooldoor"@);
        } else if j == 1 {
            assert(ch5_prevs()[1] == "room_krisroom"@);
        } else if j == 2 {
            assert(ch5_prevs()[2] == "room_town_north"@);
        } else if j == 3 {
            assert(ch5_prevs()[3] == "room_dw_garden_firstdash"@);
        } else if j == 4 {
            assert(ch5_prevs()[4] == "room_dw_garden_diner"@);
        } else if j == 5 {
            assert(ch5_prevs()[5] == "room_dw_garden_hardpressureplates"@);
        } else if j == 6 {
            assert(ch5_prevs()[6] == "room_dw_garden_wateringcan_aqua"@);
        } else if j == 7 {
            assert(ch5_prevs()[7] == "room_dw_garden_aqua"@);
        } else if j == 8 {
            assert(ch5_prevs()[8] == "room_dw_garden_aquashrine"@);
        } else if j == 9 {
            assert(ch5_prevs()[9] == "room_dw_garden_aquashrine"@);
        } else if j == 10 {
            assert(ch5_prevs()[10] == "room_dw_garden_finalplatforming"@);
        } else if j == 11 {
            assert(ch5_prevs()[11] == "room_dw_garden_cliffexit"@);
        } else if j == 12 {
            assert(ch5_prevs()[12] == "room_dw_cliff_seth_miniboss"@);
        }
    }
    assert(ch5_prevs()[13] == prev && ch5_curs()[13] == cur && ch5_names()[13] == "ch5_exit_shop_room"@);
    lemma_transition_first(ch5_prevs(), ch5_curs(), ch5_names(), prev, cur, 13);
}

proof fn ch5_row_14(raw_changed: bool, prev: Seq<char>, cur: Seq<char>, settings: Settings, inp: &TickInputs)
    requires
        prev == "room_dw_cliff_verticalwind_post"@,
        cur == "room_dw_cliff_sethaqua_battle"@,
    ensures
        spec_chapter_split(5, raw_changed, prev, cur, settings, inp) == "ch5_enter_seth_aqua"@,
{
    reveal_strlit("room_dw_cliff_verticalwind_post");
    reveal_strlit("PLACE_MENU");
    reveal_strlit("room_dw_cliff_sethaqua_battle");
    reveal_strlit("room_shop");
    reveal_strlit("room_schooldoor");
    reveal_strlit("room_krisroom");
    reveal_strlit("room_town_north");
    reveal_strlit("room_dw_garden_firstdash");
    reveal_strlit("room_dw_garden_diner");
    reveal_strlit("room_dw_garden_hardpressureplates");
    reveal_strlit("room_dw_garden_wateringcan_aqua");
    reveal_strlit("room_dw_garden_aqua");
    reveal_strlit("room_dw_garden_aquashrine");
    reveal_strlit("room_dw_garden_finalplatforming");
    reveal_strlit("room_dw_garden_cliffexit");
    reveal_strlit("room_dw_cliff_seth_miniboss");
    reveal_strlit("room_dw_cliff_shop");
    assert("room_dw_cliff_verticalwind_post"@.len() != "PLACE_MENU"@.len());
    assert("room_dw_cliff_verticalwind_post"@.len() != "room_dw_cliff_sethaqua_battle"@.len());
    assert("room_dw_cliff_verticalwind_post"@.len() != "room_shop"@.len());
    assert("room_dw_cliff_sethaqua_battle"@.len() != "room_schooldoor"@.len());
    assert("room_schooldoor"@.len() != "room_dw_cliff_verticalwind_post"@.len());
    assert("room_krisroom"@.len() != "room_dw_cliff_verticalwind_post"@.len());
    assert("room_town_north"@.len() != "room_dw_cliff_verticalwind_post"@.len());
    assert("room_dw_garden_firstdash"@.len() != "room_dw_cliff_verticalwind_post"@.len());
    assert("room_dw_garden_diner"@.len() != "room_dw_cliff_verticalwind_post"@.len());
    assert("room_dw_garden_hardpressureplates"@.len() != "room_dw_cliff_verticalwind_post"@.len());
    assert("room_dw_garden_wateringcan_aqua"@[8] != "room_dw_cliff_verticalwind_post"@[8]);
    assert("room_dw_garden_aqua"@.len() != "room_dw_cliff_verticalwind_post"@.len());
    assert("room_dw_garden_aquashrine"@.len() != "room_dw_cliff_verticalwind_post"@.len());
    assert("room_dw_garden_finalplatforming"@[8] != "room_dw_cliff_verticalwind_post"@[8]);
    assert("room_dw_garden_cliffexit"@.len() != "room_dw_cliff_verticalwind_post"@.len());
    assert("room_dw_cliff_seth_miniboss"@.len() != "room_dw_cliff_verticalwind_post"@.len());
    assert("room_dw_cliff_shop"@.len() != "room_dw_cliff_verticalwind_post"@.len());
    assert forall|j: int| 0 <= j < 14 implies !(#[trigger] ch5_prevs()[j] == prev && ch5_curs()[j] == cur) by {
        if j == 0 {
            assert(ch5_prevs()[0] == "room_schooldoor"@);
        } else if j == 1 {
            assert(ch5_prevs()[1] == "room_krisroom"@);
        } else if j == 2 {
            assert(ch5_prevs()[2] == "room_town_north"@);
        } else if j == 3 {
            assert(ch5_prevs()[3] == "room_dw_garden_firstdash"@);
        } else if j == 4 {
            assert(ch5_prevs()[4] == "room_dw_garden_diner"@);
        } else if j == 5 {
            assert(ch5_prevs()[5] == "room_dw_garden_hardpressureplates"@);
        } else if j == 6 {
            assert(ch5_prevs()[6] == "room_dw_garden_wateringcan_aqua"@);
        } else if j == 7 {
            assert(ch5_prevs()[7] == "room_dw_garden_aqua"@);
        } else if j == 8 {
            assert(ch5_prevs()[8] == "room_dw_garden_aquashrine"@);
        } else if j == 9 {
            assert(ch5_prevs()[9] == "room_dw_garden_aquashrine"@);
        } else if j == 10 {
            assert(ch5_prevs()[10] == "room_dw_garden_finalplatforming"@);
        } else if j == 11 {
            assert(ch5_prevs()[11] == "room_dw_garden_cliffexit"@);
        } else if j == 12 {
            assert(ch5_prevs()[12] == "room_dw_cliff_seth_miniboss"@);
        } else if j == 13 {
            assert(ch5_prevs()[13] == "room_dw_cliff_shop"@);
        }
    }
    assert(ch5_prevs()[14] == prev && ch5_curs()[14] == cur && ch5_names()[14] == "ch5_enter_seth_aqua"@);
    lemma_transition_first(ch5_prevs(), ch5_curs(), ch5_names(), prev, cur, 14);
}

proof fn ch5_row_15(raw_changed: bool, prev: Seq<char>, cur: Seq<char>, settings: Settings, inp: &TickInputs)
    requires
        prev == "room_dw_cliff_sethaqua_battle"@,
        cur == "room_dw_fcastle_entrance"@,
    ensures
        spec_chapter_split(5, raw_changed, prev, cur, settings, inp) == "ch5_exit_seth_aqua"@,
{
    reveal_strlit("room_dw_cliff_sethaqua_battle");
    reveal_strlit("PLACE_MENU");
    reveal_strlit("room_dw_fcastle_entrance");
    reveal_strlit("room_shop");
    reveal_strlit("room_schooldoor");
    reveal_strlit("room_krisroom");
    reveal_strlit("room_town_north");
    reveal_strlit("room_dw_garden_firstdash");
    reveal_strlit("room_dw_garden_diner");
    reveal_strlit("room_dw_garden_hardpressureplates");
    reveal_strlit("room_dw_garden_wateringcan_aqua");
    reveal_strlit("room_dw_garden_aqua");
    reveal_strlit("room_dw_garden_aquashrine");
    reveal_strlit("room_dw_garden_finalplatforming");
    reveal_strlit("room_dw_garden_cliffexit");
    reveal_strlit("room_dw_cliff_seth_miniboss");
    reveal_strlit("room_dw_cliff_shop");
    reveal_strlit("room_dw_cliff_verticalwind_post");
    assert("room_dw_cliff_sethaqua_battle"@.len() != "PLACE_MENU"@.len());
    assert("room_dw_cliff_sethaqua_battle"@.len() != "room_dw_fcastle_entrance"@.len());
    assert("room_dw_cliff_sethaqua_battle"@.len() != "room_shop"@.len());
    assert("room_dw_fcastle_entrance"@.len() != "room_schooldoor"@.len());
    assert("room_schooldoor"@.len() != "room_dw_cliff_sethaqua_battle"@.len());
    assert("room_krisroom"@.len() != "room_dw_cliff_sethaqua_battle"@.len());
    assert("room_town_north"@.len() != "room_dw_cliff_sethaqua_battle"@.len());
    assert("room_dw_garden_firstdash"@.len() != "room_dw_cliff_sethaqua_battle"@.len());
    assert("room_dw_garden_diner"@.len() != "room_dw_cliff_sethaqua_battle"@.len());
    assert("room_dw_garden_hardpressureplates"@.len() != "room_dw_cliff_sethaqua_battle"@.len());
    assert("room_dw_garden_wateringcan_aqua"@.len() != "room_dw_cliff_sethaqua_battle"@.len());
    assert("room_dw_garden_aqua"@.len() != "room_dw_cliff_sethaqua_battle"@.len());
    assert("room_dw_garden_aquashrine"@.len() != "room_dw_cliff_sethaqua_battle"@.len());
    assert("room_dw_garden_finalplatforming"@.len() != "room_dw_cliff_sethaqua_battle"@.len());
    assert("room_dw_garden_cliffexit"@.len() != "room_dw_cliff_sethaqua_battle"@.len());
    assert("room_dw_cliff_seth_miniboss"@.len() != "room_dw_cliff_sethaqua_battle"@.len());
    assert("room_dw_cliff_shop"@.len() != "room_dw_cliff_sethaqua_battle"@.len());
    assert("room_dw_cliff_verticalwind_post"@.len() != "room_dw_cliff_sethaqua_battle"@.len());
    assert forall|j: int| 0 <= j < 15 implies !(#[trigger] ch5_prevs()[j] == prev && ch5_curs()[j] == cur) by {
        if j == 0 {
            assert(ch5_prevs()[0] == "room_schooldoor"@);
        } else if j == 1 {
            assert(ch5_prevs()[1] == "room_krisroom"@);
        } else if j == 2 {
            assert(ch5_prevs()[2] == "room_town_north"@);
        } else if j == 3 {
            assert(ch5_prevs()[3] == "room_dw_garden_firstdash"@);
        } else if j == 4 {
            assert(ch5_prevs()[4] == "room_dw_garden_diner"@);
        } else if j == 5 {
            assert(ch5_prevs()[5] == "room_dw_garden_hardpressureplates"@);
        } else if j == 6 {
            assert(ch5_prevs()[6] == "room_dw_garden_wateringcan_aqua"@);
        } else if j == 7 {
            assert(ch5_prevs()[7] == "room_dw_garden_aqua"@);
        } else if j == 8 {
            assert(ch5_prevs()[8] == "room_dw_garden_aquashrine"@);
        } else if j == 9 {
            assert(ch5_prevs()[9] == "room_dw_garden_aquashrine"@);
        } else if j == 10 {
            assert(ch5_prevs()[10] == "room_dw_garden_finalplatforming"@);
        } else if j == 11 {
            assert(ch5_prevs()[11] == "room_dw_garden_cliffexit"@);
        } else if j == 12 {
            assert(ch5_prevs()[12] == "room_dw_cliff_seth_miniboss"@);
        } else if j == 13 {
            assert(ch5_prevs()[13] == "room_dw_cliff_shop"@);
        } else if j == 14 {
            assert(ch5_prevs()[14] == "room_dw_cliff_verticalwind_post"@);
        }
    }
    assert(ch5_prevs()[15] == prev && ch5_curs()[15] == cur && ch5_names()[15] == "ch5_exit_seth_aqua"@);
    lemma_transition_first(ch5_prevs(), ch5_curs(), ch5_names(), prev, cur, 15);
}

proof fn ch5_row_16(raw_changed: bool, prev: Seq<char>, cur: Seq<char>, settings: Settings, inp: &TickInputs)
    requires
        prev == "room_dw_fcastle_entrance"@,
        cur == "room_town_north"@,
    ensures
        spec_chapter_split(5, raw_changed, prev, cur, settings, inp) == "ch5_exit_dw"@,
{
    reveal_strlit("room_dw_fcastle_entrance");
    reveal_strlit("PLACE_MENU");
    reveal_strlit("room_town_north");
    reveal_strlit("room_shop");
    reveal_strlit("room_schooldoor");
    reveal_strlit("room_krisroom");
    reveal_strlit("room_dw_garden_firstdash");
    reveal_strlit("room_dw_garden_diner");
    reveal_strlit("room_dw_garden_hardpressureplates");
    reveal_strlit("room_dw_garden_wateringcan_aqua");
    reveal_strlit("room_dw_garden_aqua");
    reveal_strlit("room_dw_garden_aquashrine");
    reveal_strlit("room_dw_garden_finalplatforming");
    reveal_strlit("room_dw_garden_cliffexit");
    reveal_strlit("room_dw_cliff_seth_miniboss");
    reveal_strlit("room_dw_cliff_shop");
    reveal_strlit("room_dw_cliff_verticalwind_post");
    reveal_strlit("room_dw_cliff_sethaqua_battle");
    assert("room_dw_fcastle_entrance"@.len() != "PLACE_MENU"@.len());
    assert("room_dw_fcastle_entrance"@.len() != "room_town_north"@.len());
    assert("room_dw_fcastle_entrance"@.len() != "room_shop"@.len());
    assert("room_town_north"@[5] != "room_schooldoor"@[5]);
    assert("room_schooldoor"@.len() != "room_dw_fcastle_entrance"@.len());
    assert("room_krisroom"@.len() != "room_dw_fcastle_entrance"@.len());
    assert("room_dw_garden_firstdash"@[8] != "room_dw_fcastle_entrance"@[8]);
    assert("room_dw_garden_diner"@.len() != "room_dw_fcastle_entrance"@.len());
    assert("room_dw_garden_hardpressureplates"@.len() != "room_dw_fcastle_entrance"@.len());
    assert("room_dw_garden_wateringcan_aqua"@.len() != "room_dw_fcastle_entrance"@.len());
    assert("room_dw_garden_aqua"@.len() != "room_dw_fcastle_entrance"@.len());
    assert("room_dw_garden_aquashrine"@.len() != "room_dw_fcastle_entrance"@.len());
    assert("room_dw_garden_finalplatforming"@.len() != "room_dw_fcastle_entrance"@.len());
    assert("room_dw_garden_cliffexit"@[8] != "room_dw_fcastle_entrance"@[8]);
    assert("room_dw_cliff_seth_miniboss"@.len() != "room_dw_fcastle_entrance"@.len());
    assert("room_dw_cliff_shop"@.len() != "room_dw_fcastle_entrance"@.len());
    assert("room_dw_cliff_verticalwind_post"@.len() != "room_dw_fcastle_entrance"@.len());
    assert("room_dw_cliff_sethaqua_battle"@.len() != "room_dw_fcastle_entrance"@.len());
    assert forall|j: int| 0 <= j < 16 implies !(#[trigger] ch5_prevs()[j] == prev && ch5_curs()[j] == cur) by {
        if j == 0 {
            assert(ch5_prevs()[0] == "room_schooldoor"@);
        } else if j == 1 {
            assert(ch5_prevs()[1] == "room_krisroom"@);
        } else if j == 2 {
            assert(ch5_prevs()[2] == "room_town_north"@);
        } else if j == 3 {
            assert(ch5_prevs()[3] == "room_dw_garden_firstdash"@);
        } else if j == 4 {
            assert(ch5_prevs()[4] == "room_dw_garden_diner"@);
        } else if j == 5 {
            assert(ch5_prevs()[5] == "room_dw_garden_hardpressureplates"@);
        } else if j == 6 {
            assert(ch5_prevs()[6] == "room_dw_garden_wateringcan_aqua"@);
        } else if j == 7 {
            assert(ch5_prevs()[7] == "room_dw_garden_aqua"@);
        } else if j == 8 {
            assert(ch5_prevs()[8] == "room_dw_garden_aquashrine"@);
        } else if j == 9 {
            assert(ch5_prevs()[9] == "room_dw_garden_aquashrine"@);
        } else if j == 10 {
            assert(ch5_prevs()[10] == "room_dw_garden_finalplatforming"@);
        } else if j == 11 {
            assert(ch5_prevs()[11] == "room_dw_garden_cliffexit"@);
        } else if j == 12 {
            assert(ch5_prevs()[12] == "room_dw_cliff_seth_miniboss"@);
        } else if j == 13 {
            assert(ch5_prevs()[13] == "room_dw_cliff_shop"@);
        } else if j == 14 {
            assert(ch5_prevs()[14] == "room_dw_cliff_verticalwind_post"@);
        } else if j == 15 {
            assert(ch5_prevs()[15] == "room_dw_cliff_sethaqua_battle"@);
        }
    }
    assert(ch5_prevs()[16] == prev && ch5_curs()[16] == cur && ch5_names()[16] == "ch5_exit_dw"@);
    lemma_transition_first(ch5_prevs(), ch5_curs(), ch5_names(), prev, cur, 16);
}

proof fn ch5_row_17(raw_changed: bool, prev: Seq<char>, cur: Seq<char>, settings: Settings, inp: &TickInputs)
    requires
        prev == "room_town_north"@,
        cur == "room_dw_fcastle_partyjail"@,
    ensures
        spec_chapter_split(5, raw_changed, prev, cur, settings, inp) == "ch5_reenter_dw"@,
{
    reveal_strlit("room_town_north");
    reveal_strlit("PLACE_MENU");
    reveal_strlit("room_dw_fcastle_partyjail");
    reveal_strlit("room_shop");
    reveal_strlit("room_schooldoor");
    reveal_strlit("room_krisroom");
    reveal_strlit("room_dw_garden_intro");
    reveal_strlit("room_dw_garden_firstdash");
    reveal_strlit("room_dw_garden_diner");
    reveal_strlit("room_dw_garden_hardpressureplates");
    reveal_strlit("room_dw_garden_wateringcan_aqua");
    reveal_strlit("room_dw_garden_aqua");
    reveal_strlit("room_dw_garden_aquashrine");
    reveal_strlit("room_dw_garden_finalplatforming");
    reveal_strlit("room_dw_garden_cliffexit");
    reveal_strlit("room_dw_cliff_seth_miniboss");
    reveal_strlit("room_dw_cliff_shop");
    reveal_strlit("room_dw_cliff_verticalwind_post");
    reveal_strlit("room_dw_cliff_sethaqua_battle");
    reveal_strlit("room_dw_fcastle_entrance");
    assert("room_town_north"@.len() != "PLACE_MENU"@.len());
    assert("room_town_north"@.len() != "room_dw_fcastle_partyjail"@.len());
    assert("room_town_north"@.len() != "room_shop"@.len());
    assert("room_dw_fcastle_partyjail"@.len() != "room_schooldoor"@.len());
    assert("room_schooldoor"@[5] != "room_town_north"@[5]);
    assert("room_krisroom"@.len() != "room_town_north"@.len());
    assert("room_dw_garden_intro"@.len() != "room_dw_fcastle_partyjail"@.len());
    assert("room_dw_garden_firstdash"@.len() != "room_town_north"@.len());
    assert("room_dw_garden_diner"@.len() != "room_town_north"@.len());
    assert("room_dw_garden_hardpressureplates"@.len() != "room_town_north"@.len());
    assert("room_dw_garden_wateringcan_aqua"@.len() != "room_town_north"@.len());
    assert("room_dw_garden_aqua"@.len() != "room_town_north"@.len());
    assert("room_dw_garden_aquashrine"@.len() != "room_town_north"@.len());
    assert("room_dw_garden_finalplatforming"@.len() != "room_town_north"@.len());
    assert("room_dw_garden_cliffexit"@.len() != "room_town_north"@.len());
    assert("room_dw_cliff_seth_miniboss"@.len() != "room_town_north"@.len());
    assert("room_dw_cliff_shop"@.len() != "room_town_north"@.len());
    assert("room_dw_cliff_verticalwind_post"@.len() != "room_town_north"@.len());
    assert("room_dw_cliff_sethaqua_battle"@.len() != "room_town_north"@.len());
    assert("room_dw_fcastle_entrance"@.len() != "room_town_north"@.len());
    assert forall|j: int| 0 <= j < 17 implies !(#[trigger] ch5_prevs()[j] == prev && ch5_curs()[j] == cur) by {
        if j == 0 {
            assert(ch5_prevs()[0] == "room_schooldoor"@);
        } else if j == 1 {
            assert(ch5_prevs()[1] == "room_krisroom"@);
        } else if j == 2 {
            assert(ch5_curs()[2] == "room_dw_garden_intro"@);
        } else if j == 3 {
            assert(ch5_prevs()[3] == "room_dw_garden_firstdash"@);
        } else if j == 4 {
            assert(ch5_prevs()[4] == "room_dw_garden_diner"@);
        } else if j == 5 {
            assert(ch5_prevs()[5] == "room_dw_garden_hardpressureplates"@);
        } else if j == 6 {
            assert(ch5_prevs()[6] == "room_dw_garden_wateringcan_aqua"@);
        } else if j == 7 {
            assert(ch5_prevs()[7] == "room_dw_garden_aqua"@);
        } else if j == 8 {
            assert(ch5_prevs()[8] == "room_dw_garden_aquashrine"@);
        } else if j == 9 {
            assert(ch5_prevs()[9] == "room_dw_garden_aquashrine"@);
        } else if j == 10 {
            assert(ch5_prevs()[10] == "room_dw_garden_finalplatforming"@);
        } else if j == 11 {
            assert(ch5_prevs()[11] == "room_dw_garden_cliffexit"@);
        } else if j == 12 {
            assert(ch5_prevs()[12] == "room_dw_cliff_seth_miniboss"@);
        } else if j == 13 {
            assert(ch5_prevs()[13] == "room_dw_cliff_shop"@);
        } else if j == 14 {
            assert(ch5_prevs()[14] == "room_dw_cliff_verticalwind_post"@);
        } else if j == 15 {
            assert(ch5_prevs()[15] == "room_dw_cliff_sethaqua_battle"@);
        } else if j == 16 {
            assert(ch5_prevs()[16] == "room_dw_fcastle_entrance"@);
        }
    }
    assert(ch5_prevs()[17] == prev && ch5_curs()[17] == cur && ch5_names()[17] == "ch5_reenter_dw"@);
    lemma_transition_first(ch5_prevs(), ch5_curs(), ch5_names(), prev, cur, 17);
}

proof fn ch5_row_18(raw_changed: bool, prev: Seq<char>, cur: Seq<char>, settings: Settings, inp: &TickInputs)
    requires
        prev == "room_dw_fcastle_foyer"@,
        cur == "room_dw_fcastle_shinobeetle_encounter"@,
    ensures
        spec_chapter_split(5, raw_changed, prev, cur, settings, inp) == "ch5_enter_left"@,
{
    reveal_strlit("room_dw_fcastle_foyer");
    reveal_strlit("PLACE_MENU");
    reveal_strlit("room_dw_fcastle_shinobeetle_encounter");
    reveal_strlit("room_shop");
    reveal_strlit("room_schooldoor");
    reveal_strlit("room_krisroom");
    reveal_strlit("room_town_north");
    reveal_strlit("room_dw_garden_firstdash");
    reveal_strlit("room_dw_garden_diner");
    reveal_strlit("room_dw_garden_hardpressureplates");
    reveal_strlit("room_dw_garden_wateringcan_aqua");
    reveal_strlit("room_dw_garden_aqua");
    reveal_strlit("room_dw_garden_aquashrine");
    reveal_strlit("room_dw_garden_finalplatforming");
    reveal_strlit("room_dw_garden_cliffexit");
    reveal_strlit("room_dw_cliff_seth_miniboss");
    reveal_strlit("room_dw_cliff_shop");
    reveal_strlit("room_dw_cliff_verticalwind_post");
    reveal_strlit("room_dw_cliff_sethaqua_battle");
    reveal_strlit("room_dw_fcastle_entrance");
    assert("room_dw_fcastle_foyer"@.len() != "PLACE_MENU"@.len());
    assert("room_dw_fcastle_foyer"@.len() != "room_dw_fcastle_shinobeetle_encounter"@.len());
    assert("room_dw_fcastle_foyer"@.len() != "room_shop"@.len());
    assert("room_dw_fcastle_shinobeetle_encounter"@.len() != "room_schooldoor"@.len());
    assert("room_schooldoor"@.len() != "room_dw_fcastle_foyer"@.len());
    assert("room_krisroom"@.len() != "room_dw_fcastle_foyer"@.len());
    assert("room_town_north"@.len() != "room_dw_fcastle_foyer"@.len());
    assert("room_dw_garden_firstdash"@.len() != "room_dw_fcastle_foyer"@.len());
    assert("room_dw_garden_diner"@.len() != "room_dw_fcastle_foyer"@.len());
    assert("room_dw_garden_hardpressureplates"@.len() != "room_dw_fcastle_foyer"@.len());
    assert("room_dw_garden_wateringcan_aqua"@.len() != "room_dw_fcastle_foyer"@.len());
    assert("room_dw_garden_aqua"@.len() != "room_dw_fcastle_foyer"@.len());
    assert("room_dw_garden_aquashrine"@.len() != "room_dw_fcastle_foyer"@.len());
    assert("room_dw_garden_finalplatforming"@.len() != "room_dw_fcastle_foyer"@.len());
    assert("room_dw_garden_cliffexit"@.len() != "room_dw_fcastle_foyer"@.len());
    assert("room_dw_cliff_seth_miniboss"@.len() != "room_dw_fcastle_foyer"@.len());
    assert("room_dw_cliff_shop"@.len() != "room_dw_fcastle_foyer"@.len());
    assert("room_dw_cliff_verticalwind_post"@.len() != "room_dw_fcastle_foyer"@.len());
    assert("room_dw_cliff_sethaqua_battle"@.len() != "room_dw_fcastle_foyer"@.len());
    assert("room_dw_fcastle_entrance"@.len() != "room_dw_fcastle_foyer"@.len());
    assert forall|j: int| 0 <= j < 18 implies !(#[trigger] ch5_prevs()[j] == prev && ch5_curs()[j] == cur) by {
        if j == 0 {
            assert(ch5_prevs()[0] == "room_schooldoor"@);
        } else if j == 1 {
            assert(ch5_prevs()[1] == "room_krisroom"@);
        } else if j == 2 {
            assert(ch5_prevs()[2] == "room_town_north"@);
        } else if j == 3 {
            assert(ch5_prevs()[3] == "room_dw_garden_firstdash"@);
        } else if j == 4 {
            assert(ch5_prevs()[4] == "room_dw_garden_diner"@);
        } else if j == 5 {
            assert(ch5_prevs()[5] == "room_dw_garden_hardpressureplates"@);
        } else if j == 6 {
            assert(ch5_prevs()[6] == "room_dw_garden_wateringcan_aqua"@);
        } else if j == 7 {
            assert(ch5_prevs()[7] == "room_dw_garden_aqua"@);
        } else if j == 8 {
            assert(ch5_prevs()[8] == "room_dw_garden_aquashrine"@);
        } else if j == 9 {
            assert(ch5_prevs()[9] == "room_dw_garden_aquashrine"@);
        } else if j == 10 {
            assert(ch5_prevs()[10] == "room_dw_garden_finalplatforming"@);
        } else if j == 11 {
            assert(ch5_prevs()[11] == "room_dw_garden_cliffexit"@);
        } else if j == 12 {
            assert(ch5_prevs()[12] == "room_dw_cliff_seth_miniboss"@);
        } else if j == 13 {
            assert(ch5_prevs()[13] == "room_dw_cliff_shop"@);
        } else if j == 14 {
            assert(ch5_prevs()[14] == "room_dw_cliff_verticalwind_post"@);
        } else if j == 15 {
            assert(ch5_prevs()[15] == "room_dw_cliff_sethaqua_battle"@);
        } else if j == 16 {
            assert(ch5_prevs()[16] == "room_dw_fcastle_entrance"@);
        } else if j == 17 {
            assert(ch5_prevs()[17] == "room_town_north"@);
        }
    }
    assert(ch5_prevs()[18] == prev && ch5_curs()[18] == cur && ch5_names()[18] == "ch5_enter_left"@);
    lemma_transition_first(ch5_prevs(), ch5_curs(), ch5_names(), prev, cur, 18);
}

proof fn ch5_row_19(raw_changed: bool, prev: Seq<char>, cur: Seq<char>, settings: Settings, inp: &TickInputs)
    requires
        prev == "room_dw_fcastle_onsen"@,
        cur == "room_dw_fcastle_foyer"@,
    ensures
        spec_chapter_split(5, raw_changed, prev, cur, settings, inp) == "ch5_exit_left"@,
{
    reveal_strlit("room_dw_fcastle_onsen");
    reveal_strlit("PLACE_MENU");
    reveal_strlit("room_dw_fcastle_foyer");
    reveal_strlit("room_shop");
    reveal_strlit("room_schooldoor");
    reveal_strlit("room_krisroom");
    reveal_strlit("room_town_north");
    reveal_strlit("room_dw_garden_firstdash");
    reveal_strlit("room_dw_garden_diner");
    reveal_strlit("room_dw_garden_hardpressureplates");
    reveal_strlit("room_dw_garden_wateringcan_aqua");
    reveal_strlit("room_dw_garden_aqua");
    reveal_strlit("room_dw_garden_aquashrine");
    reveal_strlit("room_dw_garden_finalplatforming");
    reveal_strlit("room_dw_garden_cliffexit");
    reveal_strlit("room_dw_cliff_seth_miniboss");
    reveal_strlit("room_dw_cliff_shop");
    reveal_strlit("room_dw_cliff_verticalwind_post");
    reveal_strlit("room_dw_cliff_sethaqua_battle");
    reveal_strlit("room_dw_fcastle_entrance");
    assert("room_dw_fcastle_onsen"@.len() != "PLACE_MENU"@.len());
    assert("room_dw_fcastle_onsen"@[16] != "room_dw_fcastle_foyer"@[16]);
    assert("room_dw_fcastle_onsen"@.len() != "room_shop"@.len());
    assert("room_dw_fcastle_foyer"@.len() != "room_schooldoor"@.len());
    assert("room_schooldoor"@.len() != "room_dw_fcastle_onsen"@.len());
    assert("room_krisroom"@.len() != "room_dw_fcastle_onsen"@.len());
    assert("room_town_north"@.len() != "room_dw_fcastle_onsen"@.len());
    assert("room_dw_garden_firstdash"@.len() != "room_dw_fcastle_onsen"@.len());
    assert("room_dw_garden_diner"@.len() != "room_dw_fcastle_onsen"@.len());
    assert("room_dw_garden_hardpressureplates"@.len() != "room_dw_fcastle_onsen"@.len());
    assert("room_dw_garden_wateringcan_aqua"@.len() != "room_dw_fcastle_onsen"@.len());
    assert("room_dw_garden_aqua"@.len() != "room_dw_fcastle_onsen"@.len());
    assert("room_dw_garden_aquashrine"@.len() != "room_dw_fcastle_onsen"@.len());
    assert("room_dw_garden_finalplatforming"@.len() != "room_dw_fcastle_onsen"@.len());
    assert("room_dw_garden_cliffexit"@.len() != "room_dw_fcastle_onsen"@.len());
    assert("room_dw_cliff_seth_miniboss"@.len() != "room_dw_fcastle_onsen"@.len());
    assert("room_dw_cliff_shop"@.len() != "room_dw_fcastle_onsen"@.len());
    assert("room_dw_cliff_verticalwind_post"@.len() != "room_dw_fcastle_onsen"@.len());
    assert("room_dw_cliff_sethaqua_battle"@.len() != "room_dw_fcastle_onsen"@.len());
    assert("room_dw_fcastle_entrance"@.len() != "room_dw_fcastle_onsen"@.len());
    assert forall|j: int| 0 <= j < 19 implies !(#[trigger] ch5_prevs()[j] == prev && ch5_curs()[j] == cur) by {
        if j == 0 {
            assert(ch5_prevs()[0] == "room_schooldoor"@);
        } else if j == 1 {
            assert(ch5_prevs()[1] == "room_krisroom"@);
        } else if j == 2 {
            assert(ch5_prevs()[2] == "room_town_north"@);
        } else if j == 3 {
            assert(ch5_prevs()[3] == "room_dw_garden_firstdash"@);
        } else if j == 4 {
            assert(ch5_prevs()[4] == "room_dw_garden_diner"@);
        } else if j == 5 {
            assert(ch5_prevs()[5] == "room_dw_garden_hardpressureplates"@);
        } else if j == 6 {
            assert(ch5_prevs()[6] == "room_dw_garden_wateringcan_aqua"@);
        } else if j == 7 {
            assert(ch5_prevs()[7] == "room_dw_garden_aqua"@);
        } else if j == 8 {
            assert(ch5_prevs()[8] == "room_dw_garden_aquashrine"@);
        } else if j == 9 {
            assert(ch5_prevs()[9] == "room_dw_garden_aquashrine"@);
        } else if j == 10 {
            assert(ch5_prevs()[10] == "room_dw_garden_finalplatforming"@);
        } else if j == 11 {
            assert(ch5_prevs()[11] == "room_dw_garden_cliffexit"@);
        } else if j == 12 {
            assert(ch5_prevs()[12] == "room_dw_cliff_seth_miniboss"@);
        } else if j == 13 {
            assert(ch5_prevs()[13] == "room_dw_cliff_shop"@);
        } else if j == 14 {
            assert(ch5_prevs()[14] == "room_dw_cliff_verticalwind_post"@);
        } else if j == 15 {
            assert(ch5_prevs()[15] == "room_dw_cliff_sethaqua_battle"@);
        } else if j == 16 {
            assert(ch5_prevs()[16] == "room_dw_fcastle_entrance"@);
        } else if j == 17 {
            assert(ch5_prevs()[17] == "room_town_north"@);
        } else if j == 18 {
            assert(ch5_prevs()[18] == "room_dw_fcastle_foyer"@);
        }
    }
    assert(ch5_prevs()[19] == prev && ch5_curs()[19] == cur && ch5_names()[19] == "ch5_exit_left"@);
    lemma_transition_first(ch5_prevs(), ch5_curs(), ch5_names(), prev, cur, 19);
}

proof fn ch5_row_20(raw_changed: bool, prev: Seq<char>, cur: Seq<char>, settings: Settings, inp: &TickInputs)
    requires
        prev == "room_dw_fcastle_foyer"@,
        cur == "room_dw_fcastle_cafe"@,
    ensures
        spec_chapter_split(5, raw_changed, prev, cur, settings, inp) == "ch5_enter_right"@,
{
    reveal_strlit("room_dw_fcastle_foyer");
    reveal_strlit("PLACE_MENU");
    reveal_strlit("room_dw_fcastle_cafe");
    reveal_strlit("room_shop");
    reveal_strlit("room_schooldoor");
    reveal_strlit("room_krisroom");
    reveal_strlit("room_town_north");
    reveal_strlit("room_dw_garden_firstdash");
    reveal_strlit("room_dw_garden_diner");
    reveal_strlit("room_dw_garden_hardpressureplates");
    reveal_strlit("room_dw_garden_wateringcan_aqua");
    reveal_strlit("room_dw_garden_aqua");
    reveal_strlit("room_dw_garden_aquashrine");
    reveal_strlit("room_dw_garden_finalplatforming");
    reveal_strlit("room_dw_garden_cliffexit");
    reveal_strlit("room_dw_cliff_seth_miniboss");
    reveal_strlit("room_dw_cliff_shop");
    reveal_strlit("room_dw_cliff_verticalwind_post");
    reveal_strlit("room_dw_cliff_sethaqua_battle");
    reveal_strlit("room_dw_fcastle_entrance");
    reveal_strlit("room_dw_fcastle_shinobeetle_encounter");
    reveal_strlit("room_dw_fcastle_onsen");
    assert("room_dw_fcastle_foyer"@.len() != "PLACE_MENU"@.len());
    assert("room_dw_fcastle_foyer"@.len() != "room_dw_fcastle_cafe"@.len());
    assert("room_dw_fcastle_foyer"@.len() != "room_shop"@.len());
    assert("room_dw_fcastle_cafe"@.len() != "room_schooldoor"@.len());
    assert("room_schooldoor"@.len() != "room_dw_fcastle_foyer"@.len());
    assert("room_krisroom"@.len() != "room_dw_fcastle_foyer"@.len());
    assert("room_town_north"@.len() != "room_dw_fcastle_foyer"@.len());
    assert("room_dw_garden_firstdash"@.len() != "room_dw_fcastle_foyer"@.len());
    assert("room_dw_garden_diner"@.len() != "room_dw_fcastle_foyer"@.len());
    assert("room_dw_garden_hardpressureplates"@.len() != "room_dw_fcastle_foyer"@.len());
    assert("room_dw_garden_wateringcan_aqua"@.len() != "room_dw_fcastle_foyer"@.len());
    assert("room_dw_garden_aqua"@.len() != "room_dw_fcastle_foyer"@.len());
    assert("room_dw_garden_aquashrine"@.len() != "room_dw_fcastle_foyer"@.len());
    assert("room_dw_garden_finalplatforming"@.len() != "room_dw_fcastle_foyer"@.len());
    assert("room_dw_garden_cliffexit"@.len() != "room_dw_fcastle_foyer"@.len());
    assert("room_dw_cliff_seth_miniboss"@.len() != "room_dw_fcastle_foyer"@.len());
    assert("room_dw_cliff_shop"@.len() != "room_dw_fcastle_foyer"@.len());
    assert("room_dw_cliff_verticalwind_post"@.len() != "room_dw_fcastle_foyer"@.len());
    assert("room_dw_cliff_sethaqua_battle"@.len() != "room_dw_fcastle_foyer"@.len());
    assert("room_dw_fcastle_entrance"@.len() != "room_dw_fcastle_foyer"@.len());
    assert("room_dw_fcastle_shinobeetle_encounter"@.len() != "room_dw_fcastle_cafe"@.len());
    assert("room_dw_fcastle_onsen"@[16] != "room_dw_fcastle_foyer"@[16]);
    assert forall|j: int| 0 <= j < 20 implies !(#[trigger] ch5_prevs()[j] == prev && ch5_curs()[j] == cur) by {
        if j == 0 {
            assert(ch5_prevs()[0] == "room_schooldoor"@);
        } else if j == 1 {
            assert(ch5_prevs()[1] == "room_krisroom"@);
        } else if j == 2 {
            assert(ch5_prevs()[2] == "room_town_north"@);
        } else if j == 3 {
            assert(ch5_prevs()[3] == "room_dw_garden_firstdash"@);
        } else if j == 4 {
            assert(ch5_prevs()[4] == "room_dw_garden_diner"@);
        } else if j == 5 {
            assert(ch5_prevs()[5] == "room_dw_garden_hardpressureplates"@);
        } else if j == 6 {
            assert(ch5_prevs()[6] == "room_dw_garden_wateringcan_aqua"@);
        } else if j == 7 {
            assert(ch5_prevs()[7] == "room_dw_garden_aqua"@);
        } else if j == 8 {
            assert(ch5_prevs()[8] == "room_dw_garden_aquashrine"@);
        } else if j == 9 {
            assert(ch5_prevs()[9] == "room_dw_garden_aquashrine"@);
        } else if j == 10 {
            assert(ch5_prevs()[10] == "room_dw_garden_finalplatforming"@);
        } else if j == 11 {
            assert(ch5_prevs()[11] == "room_dw_garden_cliffexit"@);
        } else if j == 12 {
            assert(ch5_prevs()[12] == "room_dw_cliff_seth_miniboss"@);
        } else if j == 13 {
            assert(ch5_prevs()[13] == "room_dw_cliff_shop"@);
        } else if j == 14 {
            assert(ch5_prevs()[14] == "room_dw_cliff_verticalwind_post"@);
        } else if j == 15 {
            assert(ch5_prevs()[15] == "room_dw_cliff_sethaqua_battle"@);
        } else if j == 16 {
            assert(ch5_prevs()[16] == "room_dw_fcastle_entrance"@);
        } else if j == 17 {
            assert(ch5_prevs()[17] == "room_town_north"@);
        } else if j == 18 {
            assert(ch5_curs()[18] == "room_dw_fcastle_shinobeetle_encounter"@);
        } else if j == 19 {
            assert(ch5_prevs()[19] == "room_dw_fcastle_onsen"@);
        }
    }
    assert(ch5_prevs()[20] == prev && ch5_curs()[20] == cur && ch5_names()[20] == "ch5_enter_right"@);
    lemma_transition_first(ch5_prevs(), ch5_curs(), ch5_names(), prev, cur, 20);
}

proof fn ch5_row_21(raw_changed: bool, prev: Seq<char>, cur: Seq<char>, settings: Settings, inp: &TickInputs)
    requires
        prev == "room_dw_fcastle_right_endingscene"@,
        cur == "room_dw_fcastle_foyer"@,
    ensures
        spec_chapter_split(5, raw_changed, prev, cur, settings, inp) == "ch5_exit_right"@,
{
    reveal_strlit("room_dw_fcastle_right_endingscene");
    reveal_strlit("PLACE_MENU");
    reveal_strlit("room_dw_fcastle_foyer");
    reveal_strlit("room_shop");
    reveal_strlit("room_schooldoor");
    reveal_strlit("room_krisroom");
    reveal_strlit("room_town_north");
    reveal_strlit("room_dw_garden_firstdash");
    reveal_strlit("room_dw_garden_diner");
    reveal_strlit("room_dw_garden_hardpressureplates");
    reveal_strlit("room_dw_garden_wateringcan_aqua");
    reveal_strlit("room_dw_garden_aqua");
    reveal_strlit("room_dw_garden_aquashrine");
    reveal_strlit("room_dw_garden_finalplatforming");
    reveal_strlit("room_dw_garden_cliffexit");
    reveal_strlit("room_dw_cliff_seth_miniboss");
    reveal_strlit("room_dw_cliff_shop");
    reveal_strlit("room_dw_cliff_verticalwind_post");
    reveal_strlit("room_dw_cliff_sethaqua_battle");
    reveal_strlit("room_dw_fcastle_entrance");
    reveal_strlit("room_dw_fcastle_onsen");
    assert("room_dw_fcastle_right_endingscene"@.len() != "PLACE_MENU"@.len());
    assert("room_dw_fcastle_right_endingscene"@.len() != "room_dw_fcastle_foyer"@.len());
    assert("room_dw_fcastle_right_endingscene"@.len() != "room_shop"@.len());
    assert("room_dw_fcastle_foyer"@.len() != "room_schooldoor"@.len());
    assert("room_schooldoor"@.len() != "room_dw_fcastle_right_endingscene"@.len());
    assert("room_krisroom"@.len() != "room_dw_fcastle_right_endingscene"@.len());
    assert("room_town_north"@.len() != "room_dw_fcastle_right_endingscene"@.len());
    assert("room_dw_garden_firstdash"@.len() != "room_dw_fcastle_right_endingscene"@.len());
    assert("room_dw_garden_diner"@.len() != "room_dw_fcastle_right_endingscene"@.len());
    assert("room_dw_garden_hardpressureplates"@[8] != "room_dw_fcastle_right_endingscene"@[8]);
    assert("room_dw_garden_wateringcan_aqua"@.len() != "room_dw_fcastle_right_endingscene"@.len());
    assert("room_dw_garden_aqua"@.len() != "room_dw_fcastle_right_endingscene"@.len());
    assert("room_dw_garden_aquashrine"@.len() != "room_dw_fcastle_right_endingscene"@.len());
    assert("room_dw_garden_finalplatforming"@.len() != "room_dw_fcastle_right_endingscene"@.len());
    assert("room_dw_garden_cliffexit"@.len() != "room_dw_fcastle_right_endingscene"@.len());
    assert("room_dw_cliff_seth_miniboss"@.len() != "room_dw_fcastle_right_endingscene"@.len());
    assert("room_dw_cliff_shop"@.len() != "room_dw_fcastle_right_endingscene"@.len());
    assert("room_dw_cliff_verticalwind_post"@.len() != "room_dw_fcastle_right_endingscene"@.len());
    assert("room_dw_cliff_sethaqua_battle"@.len() != "room_dw_fcastle_right_endingscene"@.len());
    assert("room_dw_fcastle_entrance"@.len() != "room_dw_fcastle_right_endingscene"@.len());
    assert("room_dw_fcastle_onsen"@.len() != "room_dw_fcastle_right_endingscene"@.len());
    assert forall|j: int| 0 <= j < 21 implies !(#[trigger] ch5_prevs()[j] == prev && ch5_curs()[j] == cur) by {
        if j == 0 {
            assert(ch5_prevs()[0] == "room_schooldoor"@);
        } else if j == 1 {
            assert(ch5_prevs()[1] == "room_krisroom"@);
        } else if j == 2 {
            assert(ch5_prevs()[2] == "room_town_north"@);
        } else if j == 3 {
            assert(ch5_prevs()[3] == "room_dw_garden_firstdash"@);
        } else if j == 4 {
            assert(ch5_prevs()[4] == "room_dw_garden_diner"@);
        } else if j == 5 {
            assert(ch5_prevs()[5] == "room_dw_garden_hardpressureplates"@);
        } else if j == 6 {
            assert(ch5_prevs()[6] == "room_dw_garden_wateringcan_aqua"@);
        } else if j == 7 {
            assert(ch5_prevs()[7] == "room_dw_garden_aqua"@);
        } else if j == 8 {
            assert(ch5_prevs()[8] == "room_dw_garden_aquashrine"@);
        } else if j == 9 {
            assert(ch5_prevs()[9] == "room_dw_garden_aquashrine"@);
        } else if j == 10 {
            assert(ch5_prevs()[10] == "room_dw_garden_finalplatforming"@);
        } else if j == 11 {
            assert(ch5_prevs()[11] == "room_dw_garden_cliffexit"@);
        } else if j == 12 {
            assert(ch5_prevs()[12] == "room_dw_cliff_seth_miniboss"@);
        } else if j == 13 {
            assert(ch5_prevs()[13] == "room_dw_cliff_shop"@);
        } else if j == 14 {
            assert(ch5_prevs()[14] == "room_dw_cliff_verticalwind_post"@);
        } else if j == 15 {
            assert(ch5_prevs()[15] == "room_dw_cliff_sethaqua_battle"@);
        } else if j == 16 {
            assert(ch5_prevs()[16] == "room_dw_fcastle_entrance"@);
        } else if j == 17 {
            assert(ch5_prevs()[17] == "room_town_north"@);
        } else if j == 18 {
            assert(ch5_prevs()[18] == "room_dw_fcastle_foyer"@);
        } else if j == 19 {
            assert(ch5_prevs()[19] == "room_dw_fcastle_onsen"@);
        } else if j == 20 {
            assert(ch5_prevs()[20] == "room_dw_fcastle_foyer"@);
        }
    }
    assert(ch5_prevs()[21] == prev && ch5_curs()[21] == cur && ch5_names()[21] == "ch5_exit_right"@);
    lemma_transition_first(ch5_prevs(), ch5_curs(), ch5_names(), prev, cur, 21);
}

proof fn ch5_row_22(raw_changed: bool, prev: Seq<char>, cur: Seq<char>, settings: Settings, inp: &TickInputs)
    requires
        prev == "room_dw_fcastle_foyer"@,
        cur == "room_dw_fcastle_asgore"@,
    ensures
        spec_chapter_split(5, raw_changed, prev, cur, settings, inp) == "ch5_beanstalk"@,
{
    reveal_strlit("room_dw_fcastle_foyer");
    reveal_strlit("PLACE_MENU");
    reveal_strlit("room_dw_fcastle_asgore");
    reveal_strlit("room_shop");
    reveal_strlit("room_schooldoor");
    reveal_strlit("room_krisroom");
    reveal_strlit("room_town_north");
    reveal_strlit("room_dw_garden_firstdash");
    reveal_strlit("room_dw_garden_diner");
    reveal_strlit("room_dw_garden_hardpressureplates");
    reveal_strlit("room_dw_garden_wateringcan_aqua");
    reveal_strlit("room_dw_garden_aqua");
    reveal_strlit("room_dw_garden_aquashrine");
    reveal_strlit("room_dw_garden_finalplatforming");
    reveal_strlit("room_dw_garden_cliffexit");
    reveal_strlit("room_dw_cliff_seth_miniboss");
    reveal_strlit("room_dw_cliff_shop");
    reveal_strlit("room_dw_cliff_verticalwind_post");
    reveal_strlit("room_dw_cliff_sethaqua_battle");
    reveal_strlit("room_dw_fcastle_entrance");
    reveal_strlit("room_dw_fcastle_shinobeetle_encounter");
    reveal_strlit("room_dw_fcastle_onsen");
    reveal_strlit("room_dw_fcastle_cafe");
    reveal_strlit("room_dw_fcastle_right_endingscene");
    assert("room_dw_fcastle_foyer"@.len() != "PLACE_MENU"@.len());
    assert("room_dw_fcastle_foyer"@.len() != "room_dw_fcastle_asgore"@.len());
    assert("room_dw_fcastle_foyer"@.len() != "room_shop"@.len());
    assert("room_dw_fcastle_asgore"@.len() != "room_schooldoor"@.len());
    assert("room_schooldoor"@.len() != "room_dw_fcastle_foyer"@.len());
    assert("room_krisroom"@.len() != "room_dw_fcastle_foyer"@.len());
    assert("room_town_north"@.len() != "room_dw_fcastle_foyer"@.len());
    assert("room_dw_garden_firstdash"@.len() != "room_dw_fcastle_foyer"@.len());
    assert("room_dw_garden_diner"@.len() != "room_dw_fcastle_foyer"@.len());
    assert("room_dw_garden_hardpressureplates"@.len() != "room_dw_fcastle_foyer"@.len());
    assert("room_dw_garden_wateringcan_aqua"@.len() != "room_dw_fcastle_foyer"@.len());
    assert("room_dw_garden_aqua"@.len() != "room_dw_fcastle_foyer"@.len());
    assert("room_dw_garden_aquashrine"@.len() != "room_dw_fcastle_foyer"@.len());
    assert("room_dw_garden_finalplatforming"@.len() != "room_dw_fcastle_foyer"@.len());
    assert("room_dw_garden_cliffexit"@.len() != "room_dw_fcastle_foyer"@.len());
    assert("room_dw_cliff_seth_miniboss"@.len() != "room_dw_fcastle_foyer"@.len());
    assert("room_dw_cliff_shop"@.len() != "room_dw_fcastle_foyer"@.len());
    assert("room_dw_cliff_verticalwind_post"@.len() != "room_dw_fcastle_foyer"@.len());
    assert("room_dw_cliff_sethaqua_battle"@.len() != "room_dw_fcastle_foyer"@.len());
    assert("room_dw_fcastle_entrance"@.len() != "room_dw_fcastle_foyer"@.len());
    assert("room_dw_fcastle_shinobeetle_encounter"@.len() != "room_dw_fcastle_asgore"@.len());
    assert("room_dw_fcastle_onsen"@[16] != "room_dw_fcastle_foyer"@[16]);
    assert("room_dw_fcastle_cafe"@.len() != "room_dw_fcastle_asgore"@.len());
    assert("room_dw_fcastle_right_endingscene"@.len() != "room_dw_fcastle_foyer"@.len());
    assert forall|j: int| 0 <= j < 22 implies !(#[trigger] ch5_prevs()[j] == prev && ch5_curs()[j] == cur) by {
        if j == 0 {
            assert(ch5_prevs()[0] == "room_schooldoor"@);
        } else if j == 1 {
            assert(ch5_prevs()[1] == "room_krisroom"@);
        } else if j == 2 {
            assert(ch5_prevs()[2] == "room_town_north"@);
        } else if j == 3 {
            assert(ch5_prevs()[3] == "room_dw_garden_firstdash"@);
        } else if j == 4 {
            assert(ch5_prevs()[4] == "room_dw_garden_diner"@);
        } else if j == 5 {
            assert(ch5_prevs()[5] == "room_dw_garden_hardpressureplates"@);
        } else if j == 6 {
            assert(ch5_prevs()[6] == "room_dw_garden_wateringcan_aqua"@);
        } else if j == 7 {
            assert(ch5_prevs()[7] == "room_dw_garden_aqua"@);
        } else if j == 8 {
            assert(ch5_prevs()[8] == "room_dw_garden_aquashrine"@);
        } else if j == 9 {
            assert(ch5_prevs()[9] == "room_dw_garden_aquashrine"@);
        } else if j == 10 {
            assert(ch5_prevs()[10] == "room_dw_garden_finalplatforming"@);
        } else if j == 11 {
            assert(ch5_prevs()[11] == "room_dw_garden_cliffexit"@);
        } else if j == 12 {
            assert(ch5_prevs()[12] == "room_dw_cliff_seth_miniboss"@);
        } else if j == 13 {
            assert(ch5_prevs()[13] == "room_dw_cliff_shop"@);
        } else if j == 14 {
            assert(ch5_prevs()[14] == "room_dw_cliff_verticalwind_post"@);
        } else if j == 15 {
            assert(ch5_prevs()[15] == "room_dw_cliff_sethaqua_battle"@);
        } else if j == 16 {
            assert(ch5_prevs()[16] == "room_dw_fcastle_entrance"@);
        } else if j == 17 {
            assert(ch5_prevs()[17] == "room_town_north"@);
        } else if j == 18 {
            assert(ch5_curs()[18] == "room_dw_fcastle_shinobeetle_encounter"@);
        } else if j == 19 {
            assert(ch5_prevs()[19] == "room_dw_fcastle_onsen"@);
        } else if j == 20 {
            assert(ch5_curs()[20] == "room_dw_fcastle_cafe"@);
        } else if j == 21 {
            assert(ch5_prevs()[21] == "room_dw_fcastle_right_endingscene"@);
        }
    }
    assert(ch5_prevs()[22] == prev && ch5_curs()[22] == cur && ch5_names()[22] == "ch5_beanstalk"@);
    lemma_transition_first(ch5_prevs(), ch5_curs(), ch5_names(), prev, cur, 22);
}

proof fn ch5_row_23(raw_changed: bool, prev: Seq<char>, cur: Seq<char>, settings: Settings, inp: &TickInputs)
    requires
        prev == "room_dw_fcastle_top_pinkdoor"@,
        cur == "room_dw_fcastle_pinkroom"@,
    ensures
        spec_chapter_split(5, raw_changed, prev, cur, settings, inp) == "ch5_pink_door"@,
{
    reveal_strlit("room_dw_fcastle_top_pinkdoor");
    reveal_strlit("PLACE_MENU");
    reveal_strlit("room_dw_fcastle_pinkroom");
    reveal_strlit("room_shop");
    reveal_strlit("room_schooldoor");
    reveal_strlit("room_krisroom");
    reveal_strlit("room_town_north");
    reveal_strlit("room_dw_garden_firstdash");
    reveal_strlit("room_dw_garden_diner");
    reveal_strlit("room_dw_garden_hardpressureplates");
    reveal_strlit("room_dw_garden_wateringcan_aqua");
    reveal_strlit("room_dw_garden_aqua");
    reveal_strlit("room_dw_garden_aquashrine");
    reveal_strlit("room_dw_garden_finalplatforming");
    reveal_strlit("room_dw_garden_cliffexit");
    reveal_strlit("room_dw_cliff_seth_miniboss");
    reveal_strlit("room_dw_cliff_shop");
    reveal_strlit("room_dw_cliff_verticalwind_post");
    reveal_strlit("room_dw_cliff_sethaqua_battle");
    reveal_strlit("room_dw_fcastle_entrance");
    reveal_strlit("room_dw_fcastle_foyer");
    reveal_strlit("room_dw_fcastle_onsen");
    reveal_strlit("room_dw_fcastle_right_endingscene");
    assert("room_dw_fcastle_top_pinkdoor"@.len() != "PLACE_MENU"@.len());
    assert("room_dw_fcastle_top_pinkdoor"@.len() != "room_dw_fcastle_pinkroom"@.len());
    assert("room_dw_fcastle_top_pinkdoor"@.len() != "room_shop"@.len());
    assert("room_dw_fcastle_pinkroom"@.len() != "room_schooldoor"@.len());
    assert("room_schooldoor"@.len() != "room_dw_fcastle_top_pinkdoor"@.len());
    assert("room_krisroom"@.len() != "room_dw_fcastle_top_pinkdoor"@.len());
    assert("room_town_north"@.len() != "room_dw_fcastle_top_pinkdoor"@.len());
    assert("room_dw_garden_firstdash"@.len() != "room_dw_fcastle_top_pinkdoor"@.len());
    assert("room_dw_garden_diner"@.len() != "room_dw_fcastle_top_pinkdoor"@.len());
    assert("room_dw_garden_hardpressureplates"@.len() != "room_dw_fcastle_top_pinkdoor"@.len());
    assert("room_dw_garden_wateringcan_aqua"@.len() != "room_dw_fcastle_top_pinkdoor"@.len());
    assert("room_dw_garden_aqua"@.len() != "room_dw_fcastle_top_pinkdoor"@.len());
    assert("room_dw_garden_aquashrine"@.len() != "room_dw_fcastle_top_pinkdoor"@.len());
    assert("room_dw_garden_finalplatforming"@.len() != "room_dw_fcastle_top_pinkdoor"@.len());
    assert("room_dw_garden_cliffexit"@.len() != "room_dw_fcastle_top_pinkdoor"@.len());
    assert("room_dw_cliff_seth_miniboss"@.len() != "room_dw_fcastle_top_pinkdoor"@.len());
    assert("room_dw_cliff_shop"@.len() != "room_dw_fcastle_top_pinkdoor"@.len());
    assert("room_dw_cliff_verticalwind_post"@.len() != "room_dw_fcastle_top_pinkdoor"@.len());
    assert("room_dw_cliff_sethaqua_battle"@.len() != "room_dw_fcastle_top_pinkdoor"@.len());
    assert("room_dw_fcastle_entrance"@.len() != "room_dw_fcastle_top_pinkdoor"@.len());
    assert("room_dw_fcastle_foyer"@.len() != "room_dw_fcastle_top_pinkdoor"@.len());
    assert("room_dw_fcastle_onsen"@.len() != "room_dw_fcastle_top_pinkdoor"@.len());
    assert("room_dw_fcastle_right_endingscene"@.len() != "room_dw_fcastle_top_pinkdoor"@.len());
    assert forall|j: int| 0 <= j < 23 implies !(#[trigger] ch5_prevs()[j] == prev && ch5_curs()[j] == cur) by {
        if j == 0 {
            assert(ch5_prevs()[0] == "room_schooldoor"@);
        } else if j == 1 {
            assert(ch5_prevs()[1] == "room_krisroom"@);
        } else if j == 2 {
            assert(ch5_prevs()[2] == "room_town_north"@);
        } else if j == 3 {
            assert(ch5_prevs()[3] == "room_dw_garden_firstdash"@);
        } else if j == 4 {
            assert(ch5_prevs()[4] == "room_dw_garden_diner"@);
        } else if j == 5 {
            assert(ch5_prevs()[5] == "room_dw_garden_hardpressureplates"@);
        } else if j == 6 {
            assert(ch5_prevs()[6] == "room_dw_garden_wateringcan_aqua"@);
        } else if j == 7 {
            assert(ch5_prevs()[7] == "room_dw_garden_aqua"@);
        } else if j == 8 {
            assert(ch5_prevs()[8] == "room_dw_garden_aquashrine"@);
        } else if j == 9 {
            assert(ch5_prevs()[9] == "room_dw_garden_aquashrine"@);
        } else if j == 10 {
            assert(ch5_prevs()[10] == "room_dw_garden_finalplatforming"@);
        } else if j == 11 {
            assert(ch5_prevs()[11] == "room_dw_garden_cliffexit"@);
        } else if j == 12 {
            assert(ch5_prevs()[12] == "room_dw_cliff_seth_miniboss"@);
        } else if j == 13 {
            assert(ch5_prevs()[13] == "room_dw_cliff_shop"@);
        } else if j == 14 {
            assert(ch5_prevs()[14] == "room_dw_cliff_verticalwind_post"@);
        } else if j == 15 {
            assert(ch5_prevs()[15] == "room_dw_cliff_sethaqua_battle"@);
        } else if j == 16 {
            assert(ch5_prevs()[16] == "room_dw_fcastle_entrance"@);
        } else if j == 17 {
            assert(ch5_prevs()[17] == "room_town_north"@);
        } else if j == 18 {
            assert(ch5_prevs()[18] == "room_dw_fcastle_foyer"@);
        } else if j == 19 {
            assert(ch5_prevs()[19] == "room_dw_fcastle_onsen"@);
        } else if j == 20 {
            assert(ch5_prevs()[20] == "room_dw_fcastle_foyer"@);
        } else if j == 21 {
            assert(ch5_prevs()[21] == "room_dw_fcastle_right_endingscene"@);
        } else if j == 22 {
            assert(ch5_prevs()[22] == "room_dw_fcastle_foyer"@);
        }
    }
    assert(ch5_prevs()[23] == prev && ch5_curs()[23] == cur && ch5_names()[23] == "ch5_pink_door"@);
    lemma_transition_first(ch5_prevs(), ch5_curs(), ch5_names(), prev, cur, 23);
}

proof fn ch5_row_24(raw_changed: bool, prev: Seq<char>, cur: Seq<char>, settings: Settings, inp: &TickInputs)
    requires
        prev == "room_dw_fcastle_pinkroom"@,
        cur == "room_dw_pink_encounter"@,
    ensures
        spec_chapter_split(5, raw_changed, prev, cur, settings, inp) == "ch5_pink_start"@,
{
    reveal_strlit("room_dw_fcastle_pinkroom");
    reveal_strlit("PLACE_MENU");
    reveal_strlit("room_dw_pink_encounter");
    reveal_strlit("room_shop");
    reveal_strlit("room_schooldoor");
    reveal_strlit("room_krisroom");
    reveal_strlit("room_town_north");
    reveal_strlit("room_dw_garden_firstdash");
    reveal_strlit("room_dw_garden_diner");
    reveal_strlit("room_dw_garden_hardpressureplates");
    reveal_strlit("room_dw_garden_wateringcan_aqua");
    reveal_strlit("room_dw_garden_aqua");
    reveal_strlit("room_dw_garden_aquashrine");
    reveal_strlit("room_dw_garden_finalplatforming");
    reveal_strlit("room_dw_garden_cliffexit");
    reveal_strlit("room_dw_cliff_seth_miniboss");
    reveal_strlit("room_dw_cliff_shop");
    reveal_strlit("room_dw_cliff_verticalwind_post");
    reveal_strlit("room_dw_cliff_sethaqua_battle");
    reveal_strlit("room_dw_fcastle_entrance");
    reveal_strlit("room_dw_fcastle_foyer");
    reveal_strlit("room_dw_fcastle_onsen");
    reveal_strlit("room_dw_fcastle_right_endingscene");
    reveal_strlit("room_dw_fcastle_top_pinkdoor");
    assert("room_dw_fcastle_pinkroom"@.len() != "PLACE_MENU"@.len());
    assert("room_dw_fcastle_pinkroom"@.len() != "room_dw_pink_encounter"@.len());
    assert("room_dw_fcastle_pinkroom"@.len() != "room_shop"@.len());
    assert("room_dw_pink_encounter"@.len() != "room_schooldoor"@.len());
    assert("room_schooldoor"@.len() != "room_dw_fcastle_pinkroom"@.len());
    assert("room_krisroom"@.len() != "room_dw_fcastle_pinkroom"@.len());
    assert("room_town_north"@.len() != "room_dw_fcastle_pinkroom"@.len());
    assert("room_dw_garden_firstdash"@[8] != "room_dw_fcastle_pinkroom"@[8]);
    assert("room_dw_garden_diner"@.len() != "room_dw_fcastle_pinkroom"@.len());
    assert("room_dw_garden_hardpressureplates"@.len() != "room_dw_fcastle_pinkroom"@.len());
    assert("room_dw_garden_wateringcan_aqua"@.len() != "room_dw_fcastle_pinkroom"@.len());
    assert("room_dw_garden_aqua"@.len() != "room_dw_fcastle_pinkroom"@.len());
    assert("room_dw_garden_aquashrine"@.len() != "room_dw_fcastle_pinkroom"@.len());
    assert("room_dw_garden_finalplatforming"@.len() != "room_dw_fcastle_pinkroom"@.len());
    assert("room_dw_garden_cliffexit"@[8] != "room_dw_fcastle_pinkroom"@[8]);
    assert("room_dw_cliff_seth_miniboss"@.len() != "room_dw_fcastle_pinkroom"@.len());
    assert("room_dw_cliff_shop"@.len() != "room_dw_fcastle_pinkroom"@.len());
    assert("room_dw_cliff_verticalwind_post"@.len() != "room_dw_fcastle_pinkroom"@.len());
    assert("room_dw_cliff_sethaqua_battle"@.len() != "room_dw_fcastle_pinkroom"@.len());
    assert("room_dw_fcastle_entrance"@[16] != "room_dw_fcastle_pinkroom"@[16]);
    assert("room_dw_fcastle_foyer"@.len() != "room_dw_fcastle_pinkroom"@.len());
    assert("room_dw_fcastle_onsen"@.len() != "room_dw_fcastle_pinkroom"@.len());
    assert("room_dw_fcastle_right_endingscene"@.len() != "room_dw_fcastle_pinkroom"@.len());
    assert("room_dw_fcastle_top_pinkdoor"@.len() != "room_dw_fcastle_pinkroom"@.len());
    assert forall|j: int| 0 <= j < 24 implies !(#[trigger] ch5_prevs()[j] == prev && ch5_curs()[j] == cur) by {
        if j == 0 {
            assert(ch5_prevs()[0] == "room_schooldoor"@);
        } else if j == 1 {
            assert(ch5_prevs()[1] == "room_krisroom"@);
        } else if j == 2 {
            assert(ch5_prevs()[2] == "room_town_north"@);
        } else if j == 3 {
            assert(ch5_prevs()[3] == "room_dw_garden_firstdash"@);
        } else if j == 4 {
            assert(ch5_prevs()[4] == "room_dw_garden_diner"@);
        } else if j == 5 {
            assert(ch5_prevs()[5] == "room_dw_garden_hardpressureplates"@);
        } else if j == 6 {
            assert(ch5_prevs()[6] == "room_dw_garden_wateringcan_aqua"@);
        } else if j == 7 {
            assert(ch5_prevs()[7] == "room_dw_garden_aqua"@);
        } else if j == 8 {
            assert(ch5_prevs()[8] == "room_dw_garden_aquashrine"@);
        } else if j == 9 {
            assert(ch5_prevs()[9] == "room_dw_garden_aquashrine"@);
        } else if j == 10 {
            assert(ch5_prevs()[10] == "room_dw_garden_finalplatforming"@);
        } else if j == 11 {
            assert(ch5_prevs()[11] == "room_dw_garden_cliffexit"@);
        } else if j == 12 {
            assert(ch5_prevs()[12] == "room_dw_cliff_seth_miniboss"@);
        } else if j == 13 {
            assert(ch5_prevs()[13] == "room_dw_cliff_shop"@);
        } else if j == 14 {
            assert(ch5_prevs()[14] == "room_dw_cliff_verticalwind_post"@);
        } else if j == 15 {
            assert(ch5_prevs()[15] == "room_dw_cliff_sethaqua_battle"@);
        } else if j == 16 {
            assert(ch5_prevs()[16] == "room_dw_fcastle_entrance"@);
        } else if j == 17 {
            assert(ch5_prevs()[17] == "room_town_north"@);
        } else if j == 18 {
            assert(ch5_prevs()[18] == "room_dw_fcastle_foyer"@);
        } else if j == 19 {
            assert(ch5_prevs()[19] == "room_dw_fcastle_onsen"@);
        } else if j == 20 {
            assert(ch5_prevs()[20] == "room_dw_fcastle_foyer"@);
        } else if j == 21 {
            assert(ch5_prevs()[21] == "room_dw_fcastle_right_endingscene"@);
        } else if j == 22 {
            assert(ch5_prevs()[22] == "room_dw_fcastle_foyer"@);
        } else if j == 23 {
            assert(ch5_prevs()[23] == "room_dw_fcastle_top_pinkdoor"@);
        }
    }
    assert(ch5_prevs()[24] == prev && ch5_curs()[24] == cur && ch5_names()[24] == "ch5_pink_start"@);
    lemma_transition_first(ch5_prevs(), ch5_curs(), ch5_names(), prev, cur, 24);
}

proof fn ch5_row_25(raw_changed: bool, prev: Seq<char>, cur: Seq<char>, settings: Settings, inp: &TickInputs)
    requires
        prev == "room_dw_pink_encounter"@,
        cur == "room_dw_fcastle_pinkroom"@,
    ensures
        spec_chapter_split(5, raw_changed, prev, cur, settings, inp) == "ch5_pink_exit"@,
{
    reveal_strlit("room_dw_pink_encounter");
    reveal_strlit("PLACE_MENU");
    reveal_strlit("room_dw_fcastle_pinkroom");
    reveal_strlit("room_shop");
    reveal_strlit("room_schooldoor");
    reveal_strlit("room_krisroom");
    reveal_strlit("room_town_north");
    reveal_strlit("room_dw_garden_firstdash");
    reveal_strlit("room_dw_garden_diner");
    reveal_strlit("room_dw_garden_hardpressureplates");
    reveal_strlit("room_dw_garden_wateringcan_aqua");
    reveal_strlit("room_dw_garden_aqua");
    reveal_strlit("room_dw_garden_aquashrine");
    reveal_strlit("room_dw_garden_finalplatforming");
    reveal_strlit("room_dw_garden_cliffexit");
    reveal_strlit("room_dw_cliff_seth_miniboss");
    reveal_strlit("room_dw_cliff_shop");
    reveal_strlit("room_dw_cliff_verticalwind_post");
    reveal_strlit("room_dw_cliff_sethaqua_battle");
    reveal_strlit("room_dw_fcastle_entrance");
    reveal_strlit("room_dw_fcastle_foyer");
    reveal_strlit("room_dw_fcastle_onsen");
    reveal_strlit("room_dw_fcastle_right_endingscene");
    reveal_strlit("room_dw_fcastle_top_pinkdoor");
    assert("room_dw_pink_encounter"@.len() != "PLACE_MENU"@.len());
    assert("room_dw_pink_encounter"@.len() != "room_dw_fcastle_pinkroom"@.len());
    assert("room_dw_pink_encounter"@.len() != "room_shop"@.len());
    assert("room_dw_fcastle_pinkroom"@.len() != "room_schooldoor"@.len());
    assert("room_schooldoor"@.len() != "room_dw_pink_encounter"@.len());
    assert("room_krisroom"@.len() != "room_dw_pink_encounter"@.len());
    assert("room_town_north"@.len() != "room_dw_pink_encounter"@.len());
    assert("room_dw_garden_firstdash"@.len() != "room_dw_pink_encounter"@.len());
    assert("room_dw_garden_diner"@.len() != "room_dw_pink_encounter"@.len());
    assert("room_dw_garden_hardpressureplates"@.len() != "room_dw_pink_encounter"@.len());
    assert("room_dw_garden_wateringcan_aqua"@.len() != "room_dw_pink_encounter"@.len());
    assert("room_dw_garden_aqua"@.len() != "room_dw_pink_encounter"@.len());
    assert("room_dw_garden_aquashrine"@.len() != "room_dw_pink_encounter"@.len());
    assert("room_dw_garden_finalplatforming"@.len() != "room_dw_pink_encounter"@.len());
    assert("room_dw_garden_cliffexit"@.len() != "room_dw_pink_encounter"@.len());
    assert("room_dw_cliff_seth_miniboss"@.len() != "room_dw_pink_encounter"@.len());
    assert("room_dw_cliff_shop"@.len() != "room_dw_pink_encounter"@.len());
    assert("room_dw_cliff_verticalwind_post"@.len() != "room_dw_pink_encounter"@.len());
    assert("room_dw_cliff_sethaqua_battle"@.len() != "room_dw_pink_encounter"@.len());
    assert("room_dw_fcastle_entrance"@.len() != "room_dw_pink_encounter"@.len());
    assert("room_dw_fcastle_foyer"@.len() != "room_dw_pink_encounter"@.len());
    assert("room_dw_fcastle_onsen"@.len() != "room_dw_pink_encounter"@.len());
    assert("room_dw_fcastle_right_endingscene"@.len() != "room_dw_pink_encounter"@.len());
    assert("room_dw_fcastle_top_pinkdoor"@.len() != "room_dw_pink_encounter"@.len());
    assert forall|j: int| 0 <= j < 25 implies !(#[trigger] ch5_prevs()[j] == prev && ch5_curs()[j] == cur) by {
        if j == 0 {
            assert(ch5_prevs()[0] == "room_schooldoor"@);
        } else if j == 1 {
            assert(ch5_prevs()[1] == "room_krisroom"@);
        } else if j == 2 {
            assert(ch5_prevs()[2] == "room_town_north"@);
        } else if j == 3 {
            assert(ch5_prevs()[3] == "room_dw_garden_firstdash"@);
        } else if j == 4 {
            assert(ch5_prevs()[4] == "room_dw_garden_diner"@);
        } else if j == 5 {
            assert(ch5_prevs()[5] == "room_dw_garden_hardpressureplates"@);
        } else if j == 6 {
            assert(ch5_prevs()[6] == "room_dw_garden_wateringcan_aqua"@);
        } else if j == 7 {
            assert(ch5_prevs()[7] == "room_dw_garden_aqua"@);
        } else if j == 8 {
            assert(ch5_prevs()[8] == "room_dw_garden_aquashrine"@);
        } else if j == 9 {
            assert(ch5_prevs()[9] == "room_dw_garden_aquashrine"@);
        } else if j == 10 {
            assert(ch5_prevs()[10] == "room_dw_garden_finalplatforming"@);
        } else if j == 11 {
            assert(ch5_prevs()[11] == "room_dw_garden_cliffexit"@);
        } else if j == 12 {
            assert(ch5_prevs()[12] == "room_dw_cliff_seth_miniboss"@);
        } else if j == 13 {
            assert(ch5_prevs()[13] == "room_dw_cliff_shop"@);
        } else if j == 14 {
            assert(ch5_prevs()[14] == "room_dw_cliff_verticalwind_post"@);
        } else if j == 15 {
            assert(ch5_prevs()[15] == "room_dw_cliff_sethaqua_battle"@);
        } else if j == 16 {
            assert(ch5_prevs()[16] == "room_dw_fcastle_entrance"@);
        } else if j == 17 {
            assert(ch5_prevs()[17] == "room_town_north"@);
        } else if j == 18 {
            assert(ch5_prevs()[18] == "room_dw_fcastle_foyer"@);
        } else if j == 19 {
            assert(ch5_prevs()[19] == "room_dw_fcastle_onsen"@);
        } else if j == 20 {
            assert(ch5_prevs()[20] == "room_dw_fcastle_foyer"@);
        } else if j == 21 {
            assert(ch5_prevs()[21] == "room_dw_fcastle_right_endingscene"@);
        } else if j == 22 {
            assert(ch5_prevs()[22] == "room_dw_fcastle_foyer"@);
        } else if j == 23 {
            assert(ch5_prevs()[23] == "room_dw_fcastle_top_pinkdoor"@);
        } else if j == 24 {
            assert(ch5_prevs()[24] == "room_dw_fcastle_pinkroom"@);
        }
    }
    assert(ch5_prevs()[25] == prev && ch5_curs()[25] == cur && ch5_names()[25] == "ch5_pink_exit"@);
    lemma_transition_first(ch5_prevs(), ch5_curs(), ch5_names(), prev, cur, 25);
}

proof fn ch5_row_26(raw_changed: bool, prev: Seq<char>, cur: Seq<char>, settings: Settings, inp: &TickInputs)
    requires
        prev == "room_dw_fcastle_top_staircase_2"@,
        cur == "room_dw_fcastle_green_checkpoint"@,
    ensures
        spec_chapter_split(5, raw_changed, prev, cur, settings, inp) == "ch5_enter_ultimate_shop"@,
{
    reveal_strlit("room_dw_fcastle_top_staircase_2");
    reveal_strlit("PLACE_MENU");
    reveal_strlit("room_dw_fcastle_green_checkpoint");
    reveal_strlit("room_shop");
    reveal_strlit("room_schooldoor");
    reveal_strlit("room_krisroom");
    reveal_strlit("room_town_north");
    reveal_strlit("room_dw_garden_firstdash");
    reveal_strlit("room_dw_garden_diner");
    reveal_strlit("room_dw_garden_hardpressureplates");
    reveal_strlit("room_dw_garden_wateringcan_aqua");
    reveal_strlit("room_dw_garden_aqua");
    reveal_strlit("room_dw_garden_aquashrine");
    reveal_strlit("room_dw_garden_finalplatforming");
    reveal_strlit("room_dw_garden_cliffexit");
    reveal_strlit("room_dw_cliff_seth_miniboss");
    reveal_strlit("room_dw_cliff_shop");
    reveal_strlit("room_dw_cliff_verticalwind_post");
    reveal_strlit("room_dw_cliff_sethaqua_battle");
    reveal_strlit("room_dw_fcastle_entrance");
    reveal_strlit("room_dw_fcastle_foyer");
    reveal_strlit("room_dw_fcastle_onsen");
    reveal_strlit("room_dw_fcastle_right_endingscene");
    reveal_strlit("room_dw_fcastle_top_pinkdoor");
    reveal_strlit("room_dw_fcastle_pinkroom");
    reveal_strlit("room_dw_pink_encounter");
    assert("room_dw_fcastle_top_staircase_2"@.len() != "PLACE_MENU"@.len());
    assert("room_dw_fcastle_top_staircase_2"@.len() != "room_dw_fcastle_green_checkpoint"@.len());
    assert("room_dw_fcastle_top_staircase_2"@.len() != "room_shop"@.len());
    assert("room_dw_fcastle_green_checkpoint"@.len() != "room_schooldoor"@.len());
    assert("room_schooldoor"@.len() != "room_dw_fcastle_top_staircase_2"@.len());
    assert("room_krisroom"@.len() != "room_dw_fcastle_top_staircase_2"@.len());
    assert("room_town_north"@.len() != "room_dw_fcastle_top_staircase_2"@.len());
    assert("room_dw_garden_firstdash"@.len() != "room_dw_fcastle_top_staircase_2"@.len());
    assert("room_dw_garden_diner"@.len() != "room_dw_fcastle_top_staircase_2"@.len());
    assert("room_dw_garden_hardpressureplates"@.len() != "room_dw_fcastle_top_staircase_2"@.len());
    assert("room_dw_garden_wateringcan_aqua"@[8] != "room_dw_fcastle_top_staircase_2"@[8]);
    assert("room_dw_garden_aqua"@.len() != "room_dw_fcastle_top_staircase_2"@.len());
    assert("room_dw_garden_aquashrine"@.len() != "room_dw_fcastle_top_staircase_2"@.len());
    assert("room_dw_garden_finalplatforming"@[8] != "room_dw_fcastle_top_staircase_2"@[8]);
    assert("room_dw_garden_cliffexit"@.len() != "room_dw_fcastle_top_staircase_2"@.len());
    assert("room_dw_cliff_seth_miniboss"@.len() != "room_dw_fcastle_top_staircase_2"@.len());
    assert("room_dw_cliff_shop"@.len() != "room_dw_fcastle_top_staircase_2"@.len());
    assert("room_dw_cliff_verticalwind_post"@[8] != "room_dw_fcastle_top_staircase_2"@[8]);
    assert("room_dw_cliff_sethaqua_battle"@.len() != "room_dw_fcastle_top_staircase_2"@.len());
    assert("room_dw_fcastle_entrance"@.len() != "room_dw_fcastle_top_staircase_2"@.len());
    assert("room_dw_fcastle_foyer"@.len() != "room_dw_fcastle_top_staircase_2"@.len());
    assert("room_dw_fcastle_onsen"@.len() != "room_dw_fcastle_top_staircase_2"@.len());
    assert("room_dw_fcastle_right_endingscene"@.len() != "room_dw_fcastle_top_staircase_2"@.len());
    assert("room_dw_fcastle_top_pinkdoor"@.len() != "room_dw_fcastle_top_staircase_2"@.len());
    assert("room_dw_fcastle_pinkroom"@.len() != "room_dw_fcastle_top_staircase_2"@.len());
    assert("room_dw_pink_encounter"@.len() != "room_dw_fcastle_top_staircase_2"@.len());
    assert forall|j: int| 0 <= j < 26 implies !(#[trigger] ch5_prevs()[j] == prev && ch5_curs()[j] == cur) by {
        if j == 0 {
            assert(ch5_prevs()[0] == "room_schooldoor"@);
        } else if j == 1 {
            assert(ch5_prevs()[1] == "room_krisroom"@);
        } else if j == 2 {
            assert(ch5_prevs()[2] == "room_town_north"@);
        } else if j == 3 {
            assert(ch5_prevs()[3] == "room_dw_garden_firstdash"@);
        } else if j == 4 {
            assert(ch5_prevs()[4] == "room_dw_garden_diner"@);
        } else if j == 5 {
            assert(ch5_prevs()[5] == "room_dw_garden_hardpressureplates"@);
        } else if j == 6 {
            assert(ch5_prevs()[6] == "room_dw_garden_wateringcan_aqua"@);
        } else if j == 7 {
            assert(ch5_prevs()[7] == "room_dw_garden_aqua"@);
        } else if j == 8 {
            assert(ch5_prevs()[8] == "room_dw_garden_aquashrine"@);
        } else if j == 9 {
            assert(ch5_prevs()[9] == "room_dw_garden_aquashrine"@);
        } else if j == 10 {
            assert(ch5_prevs()[10] == "room_dw_garden_finalplatforming"@);
        } else if j == 11 {
            assert(ch5_prevs()[11] == "room_dw_garden_cliffexit"@);
        } else if j == 12 {
            assert(ch5_prevs()[12] == "room_dw_cliff_seth_miniboss"@);
        } else if j == 13 {
            assert(ch5_prevs()[13] == "room_dw_cliff_shop"@);
        } else if j == 14 {
            assert(ch5_prevs()[14] == "room_dw_cliff_verticalwind_post"@);
        } else if j == 15 {
            assert(ch5_prevs()[15] == "room_dw_cliff_sethaqua_battle"@);
        } else if j == 16 {
            assert(ch5_prevs()[16] == "room_dw_fcastle_entrance"@);
        } else if j == 17 {
            assert(ch5_prevs()[17] == "room_town_north"@);
        } else if j == 18 {
            assert(ch5_prevs()[18] == "room_dw_fcastle_foyer"@);
        } else if j == 19 {
            assert(ch5_prevs()[19] == "room_dw_fcastle_onsen"@);
        } else if j == 20 {
            assert(ch5_prevs()[20] == "room_dw_fcastle_foyer"@);
        } else if j == 21 {
            assert(ch5_prevs()[21] == "room_dw_fcastle_right_endingscene"@);
        } else if j == 22 {
            assert(ch5_prevs()[22] == "room_dw_fcastle_foyer"@);
        } else if j == 23 {
            assert(ch5_prevs()[23] == "room_dw_fcastle_top_pinkdoor"@);
        } else if j == 24 {
            assert(ch5_prevs()[24] == "room_dw_fcastle_pinkroom"@);
        } else if j == 25 {
            assert(ch5_prevs()[25] == "room_dw_pink_encounter"@);
        }
    }
    assert(ch5_prevs()[26] == prev && ch5_curs()[26] == cur && ch5_names()[26] == "ch5_enter_ultimate_shop"@);
    lemma_transition_first(ch5_prevs(), ch5_curs(), ch5_names(), prev, cur, 26);
}

proof fn ch5_row_27(raw_changed: bool, prev: Seq<char>, cur: Seq<char>, settings: Settings, inp: &TickInputs)
    requires
        prev == "room_dw_fcastle_green_checkpoint"@,
        cur == "room_dw_fcastle_top_ascent"@,
    ensures
        spec_chapter_split(5, raw_changed, prev, cur, settings, inp) == "ch5_exit_ultimate_shop"@,
{
    reveal_strlit("room_dw_fcastle_green_checkpoint");
    reveal_strlit("PLACE_MENU");
    reveal_strlit("room_dw_fcastle_top_ascent");
    reveal_strlit("room_shop");
    reveal_strlit("room_schooldoor");
    reveal_strlit("room_krisroom");
    reveal_strlit("room_town_north");
    reveal_strlit("room_dw_garden_firstdash");
    reveal_strlit("room_dw_garden_diner");
    reveal_strlit("room_dw_garden_hardpressureplates");
    reveal_strlit("room_dw_garden_wateringcan_aqua");
    reveal_strlit("room_dw_garden_aqua");
    reveal_strlit("room_dw_garden_aquashrine");
    reveal_strlit("room_dw_garden_finalplatforming");
    reveal_strlit("room_dw_garden_cliffexit");
    reveal_strlit("room_dw_cliff_seth_miniboss");
    reveal_strlit("room_dw_cliff_shop");
    reveal_strlit("room_dw_cliff_verticalwind_post");
    reveal_strlit("room_dw_cliff_sethaqua_battle");
    reveal_strlit("room_dw_fcastle_entrance");
    reveal_strlit("room_dw_fcastle_foyer");
    reveal_strlit("room_dw_fcastle_onsen");
    reveal_strlit("room_dw_fcastle_right_endingscene");
    reveal_strlit("room_dw_fcastle_top_pinkdoor");
    reveal_strlit("room_dw_fcastle_pinkroom");
    reveal_strlit("room_dw_pink_encounter");
    reveal_strlit("room_dw_fcastle_top_staircase_2");
    assert("room_dw_fcastle_green_checkpoint"@.len() != "PLACE_MENU"@.len());
    assert("room_dw_fcastle_green_checkpoint"@.len() != "room_dw_fcastle_top_ascent"@.len());
    assert("room_dw_fcastle_green_checkpoint"@.len() != "room_shop"@.len());
    assert("room_dw_fcastle_top_ascent"@.len() != "room_schooldoor"@.len());
    assert("room_schooldoor"@.len() != "room_dw_fcastle_green_checkpoint"@.len());
    assert("room_krisroom"@.len() != "room_dw_fcastle_green_checkpoint"@.len());
    assert("room_town_north"@.len() != "room_dw_fcastle_green_checkpoint"@.len());
    assert("room_dw_garden_firstdash"@.len() != "room_dw_fcastle_green_checkpoint"@.len());
    assert("room_dw_garden_diner"@.len() != "room_dw_fcastle_green_checkpoint"@.len());
    assert("room_dw_garden_hardpressureplates"@.len() != "room_dw_fcastle_green_checkpoint"@.len());
    assert("room_dw_garden_wateringcan_aqua"@.len() != "room_dw_fcastle_green_checkpoint"@.len());
    assert("room_dw_garden_aqua"@.len() != "room_dw_fcastle_green_checkpoint"@.len());
    assert("room_dw_garden_aquashrine"@.len() != "room_dw_fcastle_green_checkpoint"@.len());
    assert("room_dw_garden_finalplatforming"@.len() != "room_dw_fcastle_green_checkpoint"@.len());
    assert("room_dw_garden_cliffexit"@.len() != "room_dw_fcastle_green_checkpoint"@.len());
    assert("room_dw_cliff_seth_miniboss"@.len() != "room_dw_fcastle_green_checkpoint"@.len());
    assert("room_dw_cliff_shop"@.len() != "room_dw_fcastle_green_checkpoint"@.len());
    assert("room_dw_cliff_verticalwind_post"@.len() != "room_dw_fcastle_green_checkpoint"@.len());
    assert("room_dw_cliff_sethaqua_battle"@.len() != "room_dw_fcastle_green_checkpoint"@.len());
    assert("room_dw_fcastle_entrance"@.len() != "room_dw_fcastle_green_checkpoint"@.len());
    assert("room_dw_fcastle_foyer"@.len() != "room_dw_fcastle_green_checkpoint"@.len());
    assert("room_dw_fcastle_onsen"@.len() != "room_dw_fcastle_green_checkpoint"@.len());
    assert("room_dw_fcastle_right_endingscene"@.len() != "room_dw_fcastle_green_checkpoint"@.len());
    assert("room_dw_fcastle_top_pinkdoor"@.len() != "room_dw_fcastle_green_checkpoint"@.len());
    assert("room_dw_fcastle_pinkroom"@.len() != "room_dw_fcastle_green_checkpoint"@.len());
    assert("room_dw_pink_encounter"@.len() != "room_dw_fcastle_green_checkpoint"@.len());
    assert("room_dw_fcastle_top_staircase_2"@.len() != "room_dw_fcastle_green_checkpoint"@.len());
    assert forall|j: int| 0 <= j < 27 implies !(#[trigger] ch5_prevs()[j] == prev && ch5_curs()[j] == cur) by {
        if j == 0 {
            assert(ch5_prevs()[0] == "room_schooldoor"@);
        } else if j == 1 {
            assert(ch5_prevs()[1] == "room_krisroom"@);
        } else if j == 2 {
            assert(ch5_prevs()[2] == "room_town_north"@);
        } else if j == 3 {
            assert(ch5_prevs()[3] == "room_dw_garden_firstdash"@);
        } else if j == 4 {
            assert(ch5_prevs()[4] == "room_dw_garden_diner"@);
        } else if j == 5 {
            assert(ch5_prevs()[5] == "room_dw_garden_hardpressureplates"@);
        } else if j == 6 {
            assert(ch5_prevs()[6] == "room_dw_garden_wateringcan_aqua"@);
        } else if j == 7 {
            assert(ch5_prevs()[7] == "room_dw_garden_aqua"@);
        } else if j == 8 {
            assert(ch5_prevs()[8] == "room_dw_garden_aquashrine"@);
        } else if j == 9 {
            assert(ch5_prevs()[9] == "room_dw_garden_aquashrine"@);
        } else if j == 10 {
            assert(ch5_prevs()[10] == "room_dw_garden_finalplatforming"@);
        } else if j == 11 {
            assert(ch5_prevs()[11] == "room_dw_garden_cliffexit"@);
        } else if j == 12 {
            assert(ch5_prevs()[12] == "room_dw_cliff_seth_miniboss"@);
        } else if j == 13 {
            assert(ch5_prevs()[13] == "room_dw_cliff_shop"@);
        } else if j == 14 {
            assert(ch5_prevs()[14] == "room_dw_cliff_verticalwind_post"@);
        } else if j == 15 {
            assert(ch5_prevs()[15] == "room_dw_cliff_sethaqua_battle"@);
        } else if j == 16 {
            assert(ch5_prevs()[16] == "room_dw_fcastle_entrance"@);
        } else if j == 17 {
            assert(ch5_prevs()[17] == "room_town_north"@);
        } else if j == 18 {
            assert(ch5_prevs()[18] == "room_dw_fcastle_foyer"@);
        } else if j == 19 {
            assert(ch5_prevs()[19] == "room_dw_fcastle_onsen"@);
        } else if j == 20 {
            assert(ch5_prevs()[20] == "room_dw_fcastle_foyer"@);
        } else if j == 21 {
            assert(ch5_prevs()[21] == "room_dw_fcastle_right_endingscene"@);
        } else if j == 22 {
            assert(ch5_prevs()[22] == "room_dw_fcastle_foyer"@);
        } else if j == 23 {
            assert(ch5_prevs()[23] == "room_dw_fcastle_top_pinkdoor"@);
        } else if j == 24 {
            assert(ch5_prevs()[24] == "room_dw_fcastle_pinkroom"@);
        } else if j == 25 {
            assert(ch5_prevs()[25] == "room_dw_pink_encounter"@);
        } else if j == 26 {
            assert(ch5_prevs()[26] == "room_dw_fcastle_top_staircase_2"@);
        }
    }
    assert(ch5_prevs()[27] == prev && ch5_curs()[27] == cur && ch5_names()[27] == "ch5_exit_ultimate_shop"@);
    lemma_transition_first(ch5_prevs(), ch5_curs(), ch5_names(), prev, cur, 27);
}

proof fn ch5_row_28(raw_changed: bool, prev: Seq<char>, cur: Seq<char>, settings: Settings, inp: &TickInputs)
    requires
        prev == "room_dw_fcastle_orange_gauntlet"@,
        cur == "room_dw_fcastle_final_save"@,
    ensures
        spec_chapter_split(5, raw_changed, prev, cur, settings, inp) == "ch5_enter_final_save"@,
{
    reveal_strlit("room_dw_fcastle_orange_gauntlet");
    reveal_strlit("PLACE_MENU");
    reveal_strlit("room_dw_fcastle_final_save");
    reveal_strlit("room_shop");
    reveal_strlit("room_schooldoor");
    reveal_strlit("room_krisroom");
    reveal_strlit("room_town_north");
    reveal_strlit("room_dw_garden_firstdash");
    reveal_strlit("room_dw_garden_diner");
    reveal_strlit("room_dw_garden_hardpressureplates");
    reveal_strlit("room_dw_garden_wateringcan_aqua");
    reveal_strlit("room_dw_garden_aqua");
    reveal_strlit("room_dw_garden_aquashrine");
    reveal_strlit("room_dw_garden_finalplatforming");
    reveal_strlit("room_dw_garden_cliffexit");
    reveal_strlit("room_dw_cliff_seth_miniboss");
    reveal_strlit("room_dw_cliff_shop");
    reveal_strlit("room_dw_cliff_verticalwind_post");
    reveal_strlit("room_dw_cliff_sethaqua_battle");
    reveal_strlit("room_dw_fcastle_entrance");
    reveal_strlit("room_dw_fcastle_foyer");
    reveal_strlit("room_dw_fcastle_onsen");
    reveal_strlit("room_dw_fcastle_right_endingscene");
    reveal_strlit("room_dw_fcastle_top_pinkdoor");
    reveal_strlit("room_dw_fcastle_pinkroom");
    reveal_strlit("room_dw_pink_encounter");
    reveal_strlit("room_dw_fcastle_top_staircase_2");
    reveal_strlit("room_dw_fcastle_green_checkpoint");
    assert("room_dw_fcastle_orange_gauntlet"@.len() != "PLACE_MENU"@.len());
    assert("room_dw_fcastle_orange_gauntlet"@.len() != "room_dw_fcastle_final_save"@.len());
    assert("room_dw_fcastle_orange_gauntlet"@.len() != "room_shop"@.len());
    assert("room_dw_fcastle_final_save"@.len() != "room_schooldoor"@.len());
    assert("room_schooldoor"@.len() != "room_dw_fcastle_orange_gauntlet"@.len());
    assert("room_krisroom"@.len() != "room_dw_fcastle_orange_gauntlet"@.len());
    assert("room_town_north"@.len() != "room_dw_fcastle_orange_gauntlet"@.len());
    assert("room_dw_garden_firstdash"@.len() != "room_dw_fcastle_orange_gauntlet"@.len());
    assert("room_dw_garden_diner"@.len() != "room_dw_fcastle_orange_gauntlet"@.len());
    assert("room_dw_garden_hardpressureplates"@.len() != "room_dw_fcastle_orange_gauntlet"@.len());
    assert("room_dw_garden_wateringcan_aqua"@[8] != "room_dw_fcastle_orange_gauntlet"@[8]);
    assert("room_dw_garden_aqua"@.len() != "room_dw_fcastle_orange_gauntlet"@.len());
    assert("room_dw_garden_aquashrine"@.len() != "room_dw_fcastle_orange_gauntlet"@.len());
    assert("room_dw_garden_finalplatforming"@[8] != "room_dw_fcastle_orange_gauntlet"@[8]);
    assert("room_dw_garden_cliffexit"@.len() != "room_dw_fcastle_orange_gauntlet"@.len());
    assert("room_dw_cliff_seth_miniboss"@.len() != "room_dw_fcastle_orange_gauntlet"@.len());
    assert("room_dw_cliff_shop"@.len() != "room_dw_fcastle_orange_gauntlet"@.len());
    assert("room_dw_cliff_verticalwind_post"@[8] != "room_dw_fcastle_orange_gauntlet"@[8]);
    assert("room_dw_cliff_sethaqua_battle"@.len() != "room_dw_fcastle_orange_gauntlet"@.len());
    assert("room_dw_fcastle_entrance"@.len() != "room_dw_fcastle_orange_gauntlet"@.len());
    assert("room_dw_fcastle_foyer"@.len() != "room_dw_fcastle_orange_gauntlet"@.len());
    assert("room_dw_fcastle_onsen"@.len() != "room_dw_fcastle_orange_gauntlet"@.len());
    assert("room_dw_fcastle_right_endingscene"@.len() != "room_dw_fcastle_orange_gauntlet"@.len());
    assert("room_dw_fcastle_top_pinkdoor"@.len() != "room_dw_fcastle_orange_gauntlet"@.len());
    assert("room_dw_fcastle_pinkroom"@.len() != "room_dw_fcastle_orange_gauntlet"@.len());
    assert("room_dw_pink_encounter"@.len() != "room_dw_fcastle_orange_gauntlet"@.len());
    assert("room_dw_fcastle_top_staircase_2"@[16] != "room_dw_fcastle_orange_gauntlet"@[16]);
    assert("room_dw_fcastle_green_checkpoint"@.len() != "room_dw_fcastle_orange_gauntlet"@.len());
    assert forall|j: int| 0 <= j < 28 implies !(#[trigger] ch5_prevs()[j] == prev && ch5_curs()[j] == cur) by {
        if j == 0 {
            assert(ch5_prevs()[0] == "room_schooldoor"@);
        } else if j == 1 {
            assert(ch5_prevs()[1] == "room_krisroom"@);
        } else if j == 2 {
            assert(ch5_prevs()[2] == "room_town_north"@);
        } else if j == 3 {
            assert(ch5_prevs()[3] == "room_dw_garden_firstdash"@);
        } else if j == 4 {
            assert(ch5_prevs()[4] == "room_dw_garden_diner"@);
        } else if j == 5 {
            assert(ch5_prevs()[5] == "room_dw_garden_hardpressureplates"@);
        } else if j == 6 {
            assert(ch5_prevs()[6] == "room_dw_garden_wateringcan_aqua"@);
        } else if j == 7 {
            assert(ch5_prevs()[7] == "room_dw_garden_aqua"@);
        } else if j == 8 {
            assert(ch5_prevs()[8] == "room_dw_garden_aquashrine"@);
        } else if j == 9 {
            assert(ch5_prevs()[9] == "room_dw_garden_aquashrine"@);
        } else if j == 10 {
            assert(ch5_prevs()[10] == "room_dw_garden_finalplatforming"@);
        } else if j == 11 {
            assert(ch5_prevs()[11] == "room_dw_garden_cliffexit"@);
        } else if j == 12 {
            assert(ch5_prevs()[12] == "room_dw_cliff_seth_miniboss"@);
        } else if j == 13 {
            assert(ch5_prevs()[13] == "room_dw_cliff_shop"@);
        } else if j == 14 {
            assert(ch5_prevs()[14] == "room_dw_cliff_verticalwind_post"@);
        } else if j == 15 {
            assert(ch5_prevs()[15] == "room_dw_cliff_sethaqua_battle"@);
        } else if j == 16 {
            assert(ch5_prevs()[16] == "room_dw_fcastle_entrance"@);
        } else if j == 17 {
            assert(ch5_prevs()[17] == "room_town_north"@);
        } else if j == 18 {
            assert(ch5_prevs()[18] == "room_dw_fcastle_foyer"@);
        } else if j == 19 {
            assert(ch5_prevs()[19] == "room_dw_fcastle_onsen"@);
        } else if j == 20 {
            assert(ch5_prevs()[20] == "room_dw_fcastle_foyer"@);
        } else if j == 21 {
            assert(ch5_prevs()[21] == "room_dw_fcastle_right_endingscene"@);
        } else if j == 22 {
            assert(ch5_prevs()[22] == "room_dw_fcastle_foyer"@);
        } else if j == 23 {
            assert(ch5_prevs()[23] == "room_dw_fcastle_top_pinkdoor"@);
        } else if j == 24 {
            assert(ch5_prevs()[24] == "room_dw_fcastle_pinkroom"@);
        } else if j == 25 {
            assert(ch5_prevs()[25] == "room_dw_pink_encounter"@);
        } else if j == 26 {
            assert(ch5_prevs()[26] == "room_dw_fcastle_top_staircase_2"@);
        } else if j == 27 {
            assert(ch5_prevs()[27] == "room_dw_fcastle_green_checkpoint"@);
        }
    }
    assert(ch5_prevs()[28] == prev && ch5_curs()[28] == cur && ch5_names()[28] == "ch5_enter_final_save"@);
    lemma_transition_first(ch5_prevs(), ch5_curs(), ch5_names(), prev, cur, 28);
}

proof fn ch5_row_29(raw_changed: bool, prev: Seq<char>, cur: Seq<char>, settings: Settings, inp: &TickInputs)
    requires
        prev == "room_dw_fcastle_final_save"@,
        cur == "room_dw_fcastle_flowery"@,
    ensures
        spec_chapter_split(5, raw_changed, prev, cur, settings, inp) == "ch5_exit_final_save"@,
{
    reveal_strlit("room_dw_fcastle_final_save");
    reveal_strlit("PLACE_MENU");
    reveal_strlit("room_dw_fcastle_flowery");
    reveal_strlit("room_shop");
    reveal_strlit("room_schooldoor");
    reveal_strlit("room_krisroom");
    reveal_strlit("room_town_north");
    reveal_strlit("room_dw_garden_firstdash");
    reveal_strlit("room_dw_garden_diner");
    reveal_strlit("room_dw_garden_hardpressureplates");
    reveal_strlit("room_dw_garden_wateringcan_aqua");
    reveal_strlit("room_dw_garden_aqua");
    reveal_strlit("room_dw_garden_aquashrine");
    reveal_strlit("room_dw_garden_finalplatforming");
    reveal_strlit("room_dw_garden_cliffexit");
    reveal_strlit("room_dw_cliff_seth_miniboss");
    reveal_strlit("room_dw_cliff_shop");
    reveal_strlit("room_dw_cliff_verticalwind_post");
    reveal_strlit("room_dw_cliff_sethaqua_battle");
    reveal_strlit("room_dw_fcastle_entrance");
    reveal_strlit("room_dw_fcastle_foyer");
    reveal_strlit("room_dw_fcastle_onsen");
    reveal_strlit("room_dw_fcastle_right_endingscene");
    reveal_strlit("room_dw_fcastle_top_pinkdoor");
    reveal_strlit("room_dw_fcastle_pinkroom");
    reveal_strlit("room_dw_pink_encounter");
    reveal_strlit("room_dw_fcastle_top_staircase_2");
    reveal_strlit("room_dw_fcastle_green_checkpoint");
    reveal_strlit("room_dw_fcastle_orange_gauntlet");
    assert("room_dw_fcastle_final_save"@.len() != "PLACE_MENU"@.len());
    assert("room_dw_fcastle_final_save"@.len() != "room_dw_fcastle_flowery"@.len());
    assert("room_dw_fcastle_final_save"@.len() != "room_shop"@.len());
    assert("room_dw_fcastle_flowery"@.len() != "room_schooldoor"@.len());
    assert("room_schooldoor"@.len() != "room_dw_fcastle_final_save"@.len());
    assert("room_krisroom"@.len() != "room_dw_fcastle_final_save"@.len());
    assert("room_town_north"@.len() != "room_dw_fcastle_final_save"@.len());
    assert("room_dw_garden_firstdash"@.len() != "room_dw_fcastle_final_save"@.len());
    assert("room_dw_garden_diner"@.len() != "room_dw_fcastle_final_save"@.len());
    assert("room_dw_garden_hardpressureplates"@.len() != "room_dw_fcastle_final_save"@.len());
    assert("room_dw_garden_wateringcan_aqua"@.len() != "room_dw_fcastle_final_save"@.len());
    assert("room_dw_garden_aqua"@.len() != "room_dw_fcastle_final_save"@.len());
    assert("room_dw_garden_aquashrine"@.len() != "room_dw_fcastle_final_save"@.len());
    assert("room_dw_garden_finalplatforming"@.len() != "room_dw_fcastle_final_save"@.len());
    assert("room_dw_garden_cliffexit"@.len() != "room_dw_fcastle_final_save"@.len());
    assert("room_dw_cliff_seth_miniboss"@.len() != "room_dw_fcastle_final_save"@.len());
    assert("room_dw_cliff_shop"@.len() != "room_dw_fcastle_final_save"@.len());
    assert("room_dw_cliff_verticalwind_post"@.len() != "room_dw_fcastle_final_save"@.len());
    assert("room_dw_cliff_sethaqua_battle"@.len() != "room_dw_fcastle_final_save"@.len());
    assert("room_dw_fcastle_entrance"@.len() != "room_dw_fcastle_final_save"@.len());
    assert("room_dw_fcastle_foyer"@.len() != "room_dw_fcastle_final_save"@.len());
    assert("room_dw_fcastle_onsen"@.len() != "room_dw_fcastle_final_save"@.len());
    assert("room_dw_fcastle_right_endingscene"@.len() != "room_dw_fcastle_final_save"@.len());
    assert("room_dw_fcastle_top_pinkdoor"@.len() != "room_dw_fcastle_final_save"@.len());
    assert("room_dw_fcastle_pinkroom"@.len() != "room_dw_fcastle_final_save"@.len());
    assert("room_dw_pink_encounter"@.len() != "room_dw_fcastle_final_save"@.len());
    assert("room_dw_fcastle_top_staircase_2"@.len() != "room_dw_fcastle_final_save"@.len());
    assert("room_dw_fcastle_green_checkpoint"@.len() != "room_dw_fcastle_final_save"@.len());
    assert("room_dw_fcastle_orange_gauntlet"@.len() != "room_dw_fcastle_final_save"@.len());
    assert forall|j: int| 0 <= j < 29 implies !(#[trigger] ch5_prevs()[j] == prev && ch5_curs()[j] == cur) by {
        if j == 0 {
            assert(ch5_prevs()[0] == "room_schooldoor"@);
        } else if j == 1 {
            assert(ch5_prevs()[1] == "room_krisroom"@);
        } else if j == 2 {
            assert(ch5_prevs()[2] == "room_town_north"@);
        } else if j == 3 {
            assert(ch5_prevs()[3] == "room_dw_garden_firstdash"@);
        } else if j == 4 {
            assert(ch5_prevs()[4] == "room_dw_garden_diner"@);
        } else if j == 5 {
            assert(ch5_prevs()[5] == "room_dw_garden_hardpressureplates"@);
        } else if j == 6 {
            assert(ch5_prevs()[6] == "room_dw_garden_wateringcan_aqua"@);
        } else if j == 7 {
            assert(ch5_prevs()[7] == "room_dw_garden_aqua"@);
        } else if j == 8 {
            assert(ch5_prevs()[8] == "room_dw_garden_aquashrine"@);
        } else if j == 9 {
            assert(ch5_prevs()[9] == "room_dw_garden_aquashrine"@);
        } else if j == 10 {
            assert(ch5_prevs()[10] == "room_dw_garden_finalplatforming"@);
        } else if j == 11 {
            assert(ch5_prevs()[11] == "room_dw_garden_cliffexit"@);
        } else if j == 12 {
            assert(ch5_prevs()[12] == "room_dw_cliff_seth_miniboss"@);
        } else if j == 13 {
            assert(ch5_prevs()[13] == "room_dw_cliff_shop"@);
        } else if j == 14 {
            assert(ch5_prevs()[14] == "room_dw_cliff_verticalwind_post"@);
        } else if j == 15 {
            assert(ch5_prevs()[15] == "room_dw_cliff_sethaqua_battle"@);
        } else if j == 16 {
            assert(ch5_prevs()[16] == "room_dw_fcastle_entrance"@);
        } else if j == 17 {
            assert(ch5_prevs()[17] == "room_town_north"@);
        } else if j == 18 {
            assert(ch5_prevs()[18] == "room_dw_fcastle_foyer"@);
        } else if j == 19 {
            assert(ch5_prevs()[19] == "room_dw_fcastle_onsen"@);
        } else if j == 20 {
            assert(ch5_prevs()[20] == "room_dw_fcastle_foyer"@);
        } else if j == 21 {
            assert(ch5_prevs()[21] == "room_dw_fcastle_right_endingscene"@);
        } else if j == 22 {
            assert(ch5_prevs()[22] == "room_dw_fcastle_foyer"@);
        } else if j == 23 {
            assert(ch5_prevs()[23] == "room_dw_fcastle_top_pinkdoor"@);
        } else if j == 24 {
            assert(ch5_prevs()[24] == "room_dw_fcastle_pinkroom"@);
        } else if j == 25 {
            assert(ch5_prevs()[25] == "room_dw_pink_encounter"@);
        } else if j == 26 {
            assert(ch5_prevs()[26] == "room_dw_fcastle_top_staircase_2"@);
        } else if j == 27 {
            assert(ch5_prevs()[27] == "room_dw_fcastle_green_checkpoint"@);
        } else if j == 28 {
            assert(ch5_prevs()[28] == "room_dw_fcastle_orange_gauntlet"@);
        }
    }
    assert(ch5_prevs()[29] == prev && ch5_curs()[29] == cur && ch5_names()[29] == "ch5_exit_final_save"@);
    lemma_transition_first(ch5_prevs(), ch5_curs(), ch5_names(), prev, cur, 29);
}

proof fn ch5_row_30(raw_changed: bool, prev: Seq<char>, cur: Seq<char>, settings: Settings, inp: &TickInputs)
    requires
        prev == "room_dw_fcastle_flowery"@,
        cur == "room_dw_fcastle_flowerclimb"@,
    ensures
        spec_chapter_split(5, raw_changed, prev, cur, settings, inp) == "ch5_end_flowery"@,
{
    reveal_strlit("room_dw_fcastle_flowery");
    reveal_strlit("PLACE_MENU");
    reveal_strlit("room_dw_fcastle_flowerclimb");
    reveal_strlit("room_shop");
    reveal_strlit("room_schooldoor");
    reveal_strlit("room_krisroom");
    reveal_strlit("room_town_north");
    reveal_strlit("room_dw_garden_firstdash");
    reveal_strlit("room_dw_garden_diner");
    reveal_strlit("room_dw_garden_hardpressureplates");
    reveal_strlit("room_dw_garden_wateringcan_aqua");
    reveal_strlit("room_dw_garden_aqua");
    reveal_strlit("room_dw_garden_aquashrine");
    reveal_strlit("room_dw_garden_finalplatforming");
    reveal_strlit("room_dw_garden_cliffexit");
    reveal_strlit("room_dw_cliff_seth_miniboss");
    reveal_strlit("room_dw_cliff_shop");
    reveal_strlit("room_dw_cliff_verticalwind_post");
    reveal_strlit("room_dw_cliff_sethaqua_battle");
    reveal_strlit("room_dw_fcastle_entrance");
    reveal_strlit("room_dw_fcastle_foyer");
    reveal_strlit("room_dw_fcastle_onsen");
    reveal_strlit("room_dw_fcastle_right_endingscene");
    reveal_strlit("room_dw_fcastle_top_pinkdoor");
    reveal_strlit("room_dw_fcastle_pinkroom");
    reveal_strlit("room_dw_pink_encounter");
    reveal_strlit("room_dw_fcastle_top_staircase_2");
    reveal_strlit("room_dw_fcastle_green_checkpoint");
    reveal_strlit("room_dw_fcastle_orange_gauntlet");
    reveal_strlit("room_dw_fcastle_final_save");
    assert("room_dw_fcastle_flowery"@.len() != "PLACE_MENU"@.len());
    assert("room_dw_fcastle_flowery"@.len() != "room_dw_fcastle_flowerclimb"@.len());
    assert("room_dw_fcastle_flowery"@.len() != "room_shop"@.len());
    assert("room_dw_fcastle_flowerclimb"@.len() != "room_schooldoor"@.len());
    assert("room_schooldoor"@.len() != "room_dw_fcastle_flowery"@.len());
    assert("room_krisroom"@.len() != "room_dw_fcastle_flowery"@.len());
    assert("room_town_north"@.len() != "room_dw_fcastle_flowery"@.len());
    assert("room_dw_garden_firstdash"@.len() != "room_dw_fcastle_flowery"@.len());
    assert("room_dw_garden_diner"@.len() != "room_dw_fcastle_flowery"@.len());
    assert("room_dw_garden_hardpressureplates"@.len() != "room_dw_fcastle_flowery"@.len());
    assert("room_dw_garden_wateringcan_aqua"@.len() != "room_dw_fcastle_flowery"@.len());
    assert("room_dw_garden_aqua"@.len() != "room_dw_fcastle_flowery"@.len());
    assert("room_dw_garden_aquashrine"@.len() != "room_dw_fcastle_flowery"@.len());
    assert("room_dw_garden_finalplatforming"@.len() != "room_dw_fcastle_flowery"@.len());
    assert("room_dw_garden_cliffexit"@.len() != "room_dw_fcastle_flowery"@.len());
    assert("room_dw_cliff_seth_miniboss"@.len() != "room_dw_fcastle_flowery"@.len());
    assert("room_dw_cliff_shop"@.len() != "room_dw_fcastle_flowery"@.len());
    assert("room_dw_cliff_verticalwind_post"@.len() != "room_dw_fcastle_flowery"@.len());
    assert("room_dw_cliff_sethaqua_battle"@.len() != "room_dw_fcastle_flowery"@.len());
    assert("room_dw_fcastle_entrance"@.len() != "room_dw_fcastle_flowery"@.len());
    assert("room_dw_fcastle_foyer"@.len() != "room_dw_fcastle_flowery"@.len());
    assert("room_dw_fcastle_onsen"@.len() != "room_dw_fcastle_flowery"@.len());
    assert("room_dw_fcastle_right_endingscene"@.len() != "room_dw_fcastle_flowery"@.len());
    assert("room_dw_fcastle_top_pinkdoor"@.len() != "room_dw_fcastle_flowery"@.len());
    assert("room_dw_fcastle_pinkroom"@.len() != "room_dw_fcastle_flowery"@.len());
    assert("room_dw_pink_encounter"@.len() != "room_dw_fcastle_flowery"@.len());
    assert("room_dw_fcastle_top_staircase_2"@.len() != "room_dw_fcastle_flowery"@.len());
    assert("room_dw_fcastle_green_checkpoint"@.len() != "room_dw_fcastle_flowery"@.len());
    assert("room_dw_fcastle_orange_gauntlet"@.len() != "room_dw_fcastle_flowery"@.len());
    assert("room_dw_fcastle_final_save"@.len() != "room_dw_fcastle_flowery"@.len());
    assert forall|j: int| 0 <= j < 30 implies !(#[trigger] ch5_prevs()[j] == prev && ch5_curs()[j] == cur) by {
        if j == 0 {
            assert(ch5_prevs()[0] == "room_schooldoor"@);
        } else if j == 1 {
            assert(ch5_prevs()[1] == "room_krisroom"@);
        } else if j == 2 {
            assert(ch5_prevs()[2] == "room_town_north"@);
        } else if j == 3 {
            assert(ch5_prevs()[3] == "room_dw_garden_firstdash"@);
        } else if j == 4 {
            assert(ch5_prevs()[4] == "room_dw_garden_diner"@);
        } else if j == 5 {
            assert(ch5_prevs()[5] == "room_dw_garden_hardpressureplates"@);
        } else if j == 6 {
            assert(ch5_prevs()[6] == "room_dw_garden_wateringcan_aqua"@);
        } else if j == 7 {
            assert(ch5_prevs()[7] == "room_dw_garden_aqua"@);
        } else if j == 8 {
            assert(ch5_prevs()[8] == "room_dw_garden_aquashrine"@);
        } else if j == 9 {
            assert(ch5_prevs()[9] == "room_dw_garden_aquashrine"@);
        } else if j == 10 {
            assert(ch5_prevs()[10] == "room_dw_garden_finalplatforming"@);
        } else if j == 11 {
            assert(ch5_prevs()[11] == "room_dw_garden_cliffexit"@);
        } else if j == 12 {
            assert(ch5_prevs()[12] == "room_dw_cliff_seth_miniboss"@);
        } else if j == 13 {
            assert(ch5_prevs()[13] == "room_dw_cliff_shop"@);
        } else if j == 14 {
            assert(ch5_prevs()[14] == "room_dw_cliff_verticalwind_post"@);
        } else if j == 15 {
            assert(ch5_prevs()[15] == "room_dw_cliff_sethaqua_battle"@);
        } else if j == 16 {
            assert(ch5_prevs()[16] == "room_dw_fcastle_entrance"@);
        } else if j == 17 {
            assert(ch5_prevs()[17] == "room_town_north"@);
        } else if j == 18 {
            assert(ch5_prevs()[18] == "room_dw_fcastle_foyer"@);
        } else if j == 19 {
            assert(ch5_prevs()[19] == "room_dw_fcastle_onsen"@);
        } else if j == 20 {
            assert(ch5_prevs()[20] == "room_dw_fcastle_foyer"@);
        } else if j == 21 {
            assert(ch5_prevs()[21] == "room_dw_fcastle_right_endingscene"@);
        } else if j == 22 {
            assert(ch5_prevs()[22] == "room_dw_fcastle_foyer"@);
        } else if j == 23 {
            assert(ch5_prevs()[23] == "room_dw_fcastle_top_pinkdoor"@);
        } else if j == 24 {
            assert(ch5_prevs()[24] == "room_dw_fcastle_pinkroom"@);
        } else if j == 25 {
            assert(ch5_prevs()[25] == "room_dw_pink_encounter"@);
        } else if j == 26 {
            assert(ch5_prevs()[26] == "room_dw_fcastle_top_staircase_2"@);
        } else if j == 27 {
            assert(ch5_prevs()[27] == "room_dw_fcastle_green_checkpoint"@);
        } else if j == 28 {
            assert(ch5_prevs()[28] == "room_dw_fcastle_orange_gauntlet"@);
        } else if j == 29 {
            assert(ch5_prevs()[29] == "room_dw_fcastle_final_save"@);
        }
    }
    assert(ch5_prevs()[30] == prev && ch5_curs()[30] == cur && ch5_names()[30] == "ch5_end_flowery"@);
    lemma_transition_first(ch5_prevs(), ch5_curs(), ch5_names(), prev, cur, 30);
}

proof fn ch5_row_31(raw_changed: bool, prev: Seq<char>, cur: Seq<char>, settings: Settings, inp: &TickInputs)
    requires
        prev == "room_dw_fcastle_flowerclimb"@,
        cur == "room_dw_fcastle_flowerydash"@,
    ensures
        spec_chapter_split(5, raw_changed, prev, cur, settings, inp) == "ch5_end_final_climb"@,
{
    reveal_strlit("room_dw_fcastle_flowerclimb");
    reveal_strlit("PLACE_MENU");
    reveal_strlit("room_dw_fcastle_flowerydash");
    reveal_strlit("room_shop");
    reveal_strlit("room_schooldoor");
    reveal_strlit("room_krisroom");
    reveal_strlit("room_town_north");
    reveal_strlit("room_dw_garden_firstdash");
    reveal_strlit("room_dw_garden_diner");
    reveal_strlit("room_dw_garden_hardpressureplates");
    reveal_strlit("room_dw_garden_wateringcan_aqua");
    reveal_strlit("room_dw_garden_aqua");
    reveal_strlit("room_dw_garden_aquashrine");
    reveal_strlit("room_dw_garden_finalplatforming");
    reveal_strlit("room_dw_garden_cliffexit");
    reveal_strlit("room_dw_cliff_seth_miniboss");
    reveal_strlit("room_dw_cliff_shop");
    reveal_strlit("room_dw_cliff_verticalwind_post");
    reveal_strlit("room_dw_cliff_sethaqua_battle");
    reveal_strlit("room_dw_fcastle_entrance");
    reveal_strlit("room_dw_fcastle_foyer");
    reveal_strlit("room_dw_fcastle_onsen");
    reveal_strlit("room_dw_fcastle_right_endingscene");
    reveal_strlit("room_dw_fcastle_top_pinkdoor");
    reveal_strlit("room_dw_fcastle_pinkroom");
    reveal_strlit("room_dw_pink_encounter");
    reveal_strlit("room_dw_fcastle_top_staircase_2");
    reveal_strlit("room_dw_fcastle_green_checkpoint");
    reveal_strlit("room_dw_fcastle_orange_gauntlet");
    reveal_strlit("room_dw_fcastle_final_save");
    reveal_strlit("room_dw_fcastle_flowery");
    assert("room_dw_fcastle_flowerclimb"@.len() != "PLACE_MENU"@.len());
    assert("room_dw_fcastle_flowerclimb"@[22] != "room_dw_fcastle_flowerydash"@[22]);
    assert("room_dw_fcastle_flowerclimb"@.len() != "room_shop"@.len());
    assert("room_dw_fcastle_flowerydash"@.len() != "room_schooldoor"@.len());
    assert("room_schooldoor"@.len() != "room_dw_fcastle_flowerclimb"@.len());
    assert("room_krisroom"@.len() != "room_dw_fcastle_flowerclimb"@.len());
    assert("room_town_north"@.len() != "room_dw_fcastle_flowerclimb"@.len());
    assert("room_dw_garden_firstdash"@.len() != "room_dw_fcastle_flowerclimb"@.len());
    assert("room_dw_garden_diner"@.len() != "room_dw_fcastle_flowerclimb"@.len());
    assert("room_dw_garden_hardpressureplates"@.len() != "room_dw_fcastle_flowerclimb"@.len());
    assert("room_dw_garden_wateringcan_aqua"@.len() != "room_dw_fcastle_flowerclimb"@.len());
    assert("room_dw_garden_aqua"@.len() != "room_dw_fcastle_flowerclimb"@.len());
    assert("room_dw_garden_aquashrine"@.len() != "room_dw_fcastle_flowerclimb"@.len());
    assert("room_dw_garden_finalplatforming"@.len() != "room_dw_fcastle_flowerclimb"@.len());
    assert("room_dw_garden_cliffexit"@.len() != "room_dw_fcastle_flowerclimb"@.len());
    assert("room_dw_cliff_seth_miniboss"@[8] != "room_dw_fcastle_flowerclimb"@[8]);
    assert("room_dw_cliff_shop"@.len() != "room_dw_fcastle_flowerclimb"@.len());
    assert("room_dw_cliff_verticalwind_post"@.len() != "room_dw_fcastle_flowerclimb"@.len());
    assert("room_dw_cliff_sethaqua_battle"@.len() != "room_dw_fcastle_flowerclimb"@.len());
    assert("room_dw_fcastle_entrance"@.len() != "room_dw_fcastle_flowerclimb"@.len());
    assert("room_dw_fcastle_foyer"@.len() != "room_dw_fcastle_flowerclimb"@.len());
    assert("room_dw_fcastle_onsen"@.len() != "room_dw_fcastle_flowerclimb"@.len());
    assert("room_dw_fcastle_right_endingscene"@.len() != "room_dw_fcastle_flowerclimb"@.len());
    assert("room_dw_fcastle_top_pinkdoor"@.len() != "room_dw_fcastle_flowerclimb"@.len());
    assert("room_dw_fcastle_pinkroom"@.len() != "room_dw_fcastle_flowerclimb"@.len());
    assert("room_dw_pink_encounter"@.len() != "room_dw_fcastle_flowerclimb"@.len());
    assert("room_dw_fcastle_top_staircase_2"@.len() != "room_dw_fcastle_flowerclimb"@.len());
    assert("room_dw_fcastle_green_checkpoint"@.len() != "room_dw_fcastle_flowerclimb"@.len());
    assert("room_dw_fcastle_orange_gauntlet"@.len() != "room_dw_fcastle_flowerclimb"@.len());
    assert("room_dw_fcastle_final_save"@.len() != "room_dw_fcastle_flowerclimb"@.len());
    assert("room_dw_fcastle_flowery"@.len() != "room_dw_fcastle_flowerclimb"@.len());
    assert forall|j: int| 0 <= j < 31 implies !(#[trigger] ch5_prevs()[j] == prev && ch5_curs()[j] == cur) by {
        if j == 0 {
            assert(ch5_prevs()[0] == "room_schooldoor"@);
        } else if j == 1 {
            assert(ch5_prevs()[1] == "room_krisroom"@);
        } else if j == 2 {
            assert(ch5_prevs()[2] == "room_town_north"@);
        } else if j == 3 {
            assert(ch5_prevs()[3] == "room_dw_garden_firstdash"@);
        } else if j == 4 {
            assert(ch5_prevs()[4] == "room_dw_garden_diner"@);
        } else if j == 5 {
            assert(ch5_prevs()[5] == "room_dw_garden_hardpressureplates"@);
        } else if j == 6 {
            assert(ch5_prevs()[6] == "room_dw_garden_wateringcan_aqua"@);
        } else if j == 7 {
            assert(ch5_prevs()[7] == "room_dw_garden_aqua"@);
        } else if j == 8 {
            assert(ch5_prevs()[8] == "room_dw_garden_aquashrine"@);
        } else if j == 9 {
            assert(ch5_prevs()[9] == "room_dw_garden_aquashrine"@);
        } else if j == 10 {
            assert(ch5_prevs()[10] == "room_dw_garden_finalplatforming"@);
        } else if j == 11 {
            assert(ch5_prevs()[11] == "room_dw_garden_cliffexit"@);
        } else if j == 12 {
            assert(ch5_prevs()[12] == "room_dw_cliff_seth_miniboss"@);
        } else if j == 13 {
            assert(ch5_prevs()[13] == "room_dw_cliff_shop"@);
        } else if j == 14 {
            assert(ch5_prevs()[14] == "room_dw_cliff_verticalwind_post"@);
        } else if j == 15 {
            assert(ch5_prevs()[15] == "room_dw_cliff_sethaqua_battle"@);
        } else if j == 16 {
            assert(ch5_prevs()[16] == "room_dw_fcastle_entrance"@);
        } else if j == 17 {
            assert(ch5_prevs()[17] == "room_town_north"@);
        } else if j == 18 {
            assert(ch5_prevs()[18] == "room_dw_fcastle_foyer"@);
        } else if j == 19 {
            assert(ch5_prevs()[19] == "room_dw_fcastle_onsen"@);
        } else if j == 20 {
            assert(ch5_prevs()[20] == "room_dw_fcastle_foyer"@);
        } else if j == 21 {
            assert(ch5_prevs()[21] == "room_dw_fcastle_right_endingscene"@);
        } else if j == 22 {
            assert(ch5_prevs()[22] == "room_dw_fcastle_foyer"@);
        } else if j == 23 {
            assert(ch5_prevs()[23] == "room_dw_fcastle_top_pinkdoor"@);
        } else if j == 24 {
            assert(ch5_prevs()[24] == "room_dw_fcastle_pinkroom"@);
        } else if j == 25 {
            assert(ch5_prevs()[25] == "room_dw_pink_encounter"@);
        } else if j == 26 {
            assert(ch5_prevs()[26] == "room_dw_fcastle_top_staircase_2"@);
        } else if j == 27 {
            assert(ch5_prevs()[27] == "room_dw_fcastle_green_checkpoint"@);
        } else if j == 28 {
            assert(ch5_prevs()[28] == "room_dw_fcastle_orange_gauntlet"@);
        } else if j == 29 {
            assert(ch5_prevs()[29] == "room_dw_fcastle_final_save"@);
        } else if j == 30 {
            assert(ch5_prevs()[30] == "room_dw_fcastle_flowery"@);
        }
    }
    assert(ch5_prevs()[31] == prev && ch5_curs()[31] == cur && ch5_names()[31] == "ch5_end_final_climb"@);
    lemma_transition_first(ch5_prevs(), ch5_curs(), ch5_names(), prev, cur, 31);
}

proof fn ch5_row_32(raw_changed: bool, prev: Seq<char>, cur: Seq<char>, settings: Settings, inp: &TickInputs)
    requires
        prev == "room_dw_fcastle_flowerydash"@,
        cur == "room_dw_post_flowery_battle"@,
    ensures
        spec_chapter_split(5, raw_changed, prev, cur, settings, inp) == "ch5_omega_flowery"@,
{
    reveal_strlit("room_dw_fcastle_flowerydash");
    reveal_strlit("PLACE_MENU");
    reveal_strlit("room_dw_post_flowery_battle");
    reveal_strlit("room_shop");
    reveal_strlit("room_schooldoor");
    reveal_strlit("room_krisroom");
    reveal_strlit("room_town_north");
    reveal_strlit("room_dw_garden_firstdash");
    reveal_strlit("room_dw_garden_diner");
    reveal_strlit("room_dw_garden_hardpressureplates");
    reveal_strlit("room_dw_garden_wateringcan_aqua");
    reveal_strlit("room_dw_garden_aqua");
    reveal_strlit("room_dw_garden_aquashrine");
    reveal_strlit("room_dw_garden_finalplatforming");
    reveal_strlit("room_dw_garden_cliffexit");
    reveal_strlit("room_dw_cliff_seth_miniboss");
    reveal_strlit("room_dw_cliff_shop");
    reveal_strlit("room_dw_cliff_verticalwind_post");
    reveal_strlit("room_dw_cliff_sethaqua_battle");
    reveal_strlit("room_dw_fcastle_entrance");
    reveal_strlit("room_dw_fcastle_foyer");
    reveal_strlit("room_dw_fcastle_onsen");
    reveal_strlit("room_dw_fcastle_right_endingscene");
    reveal_strlit("room_dw_fcastle_top_pinkdoor");
    reveal_strlit("room_dw_fcastle_pinkroom");
    reveal_strlit("room_dw_pink_encounter");
    reveal_strlit("room_dw_fcastle_top_staircase_2");
    reveal_strlit("room_dw_fcastle_green_checkpoint");
    reveal_strlit("room_dw_fcastle_orange_gauntlet");
    reveal_strlit("room_dw_fcastle_final_save");
    reveal_strlit("room_dw_fcastle_flowery");
    reveal_strlit("room_dw_fcastle_flowerclimb");
    assert("room_dw_fcastle_flowerydash"@.len() != "PLACE_MENU"@.len());
    assert("room_dw_fcastle_flowerydash"@[8] != "room_dw_post_flowery_battle"@[8]);
    assert("room_dw_fcastle_flowerydash"@.len() != "room_shop"@.len());
    assert("room_dw_post_flowery_battle"@.len() != "room_schooldoor"@.len());
    assert("room_schooldoor"@.len() != "room_dw_fcastle_flowerydash"@.len());
    assert("room_krisroom"@.len() != "room_dw_fcastle_flowerydash"@.len());
    assert("room_town_north"@.len() != "room_dw_fcastle_flowerydash"@.len());
    assert("room_dw_garden_firstdash"@.len() != "room_dw_fcastle_flowerydash"@.len());
    assert("room_dw_garden_diner"@.len() != "room_dw_fcastle_flowerydash"@.len());
    assert("room_dw_garden_hardpressureplates"@.len() != "room_dw_fcastle_flowerydash"@.len());
    assert("room_dw_garden_wateringcan_aqua"@.len() != "room_dw_fcastle_flowerydash"@.len());
    assert("room_dw_garden_aqua"@.len() != "room_dw_fcastle_flowerydash"@.len());
    assert("room_dw_garden_aquashrine"@.len() != "room_dw_fcastle_flowerydash"@.len());
    assert("room_dw_garden_finalplatforming"@.len() != "room_dw_fcastle_flowerydash"@.len());
    assert("room_dw_garden_cliffexit"@.len() != "room_dw_fcastle_flowerydash"@.len());
    assert("room_dw_cliff_seth_miniboss"@[8] != "room_dw_fcastle_flowerydash"@[8]);
    assert("room_dw_cliff_shop"@.len() != "room_dw_fcastle_flowerydash"@.len());
    assert("room_dw_cliff_verticalwind_post"@.len() != "room_dw_fcastle_flowerydash"@.len());
    assert("room_dw_cliff_sethaqua_battle"@.len() != "room_dw_fcastle_flowerydash"@.len());
    assert("room_dw_fcastle_entrance"@.len() != "room_dw_fcastle_flowerydash"@.len());
    assert("room_dw_fcastle_foyer"@.len() != "room_dw_fcastle_flowerydash"@.len());
    assert("room_dw_fcastle_onsen"@.len() != "room_dw_fcastle_flowerydash"@.len());
    assert("room_dw_fcastle_right_endingscene"@.len() != "room_dw_fcastle_flowerydash"@.len());
    assert("room_dw_fcastle_top_pinkdoor"@.len() != "room_dw_fcastle_flowerydash"@.len());
    assert("room_dw_fcastle_pinkroom"@.len() != "room_dw_fcastle_flowerydash"@.len());
    assert("room_dw_pink_encounter"@.len() != "room_dw_fcastle_flowerydash"@.len());
    assert("room_dw_fcastle_top_staircase_2"@.len() != "room_dw_fcastle_flowerydash"@.len());
    assert("room_dw_fcastle_green_checkpoint"@.len() != "room_dw_fcastle_flowerydash"@.len());
    assert("room_dw_fcastle_orange_gauntlet"@.len() != "room_dw_fcastle_flowerydash"@.len());
    assert("room_dw_fcastle_final_save"@.len() != "room_dw_fcastle_flowerydash"@.len());
    assert("room_dw_fcastle_flowery"@.len() != "room_dw_fcastle_flowerydash"@.len());
    assert("room_dw_fcastle_flowerclimb"@[22] != "room_dw_fcastle_flowerydash"@[22]);
    assert forall|j: int| 0 <= j < 32 implies !(#[trigger] ch5_prevs()[j] == prev && ch5_curs()[j] == cur) by {
        if j == 0 {
            assert(ch5_prevs()[0] == "room_schooldoor"@);
        } else if j == 1 {
            assert(ch5_prevs()[1] == "room_krisroom"@);
        } else if j == 2 {
            assert(ch5_prevs()[2] == "room_town_north"@);
        } else if j == 3 {
            assert(ch5_prevs()[3] == "room_dw_garden_firstdash"@);
        } else if j == 4 {
            assert(ch5_prevs()[4] == "room_dw_garden_diner"@);
        } else if j == 5 {
            assert(ch5_prevs()[5] == "room_dw_garden_hardpressureplates"@);
        } else if j == 6 {
            assert(ch5_prevs()[6] == "room_dw_garden_wateringcan_aqua"@);
        } else if j == 7 {
            assert(ch5_prevs()[7] == "room_dw_garden_aqua"@);
        } else if j == 8 {
            assert(ch5_prevs()[8] == "room_dw_garden_aquashrine"@);
        } else if j == 9 {
            assert(ch5_prevs()[9] == "room_dw_garden_aquashrine"@);
        } else if j == 10 {
            assert(ch5_prevs()[10] == "room_dw_garden_finalplatforming"@);
        } else if j == 11 {
            assert(ch5_prevs()[11] == "room_dw_garden_cliffexit"@);
        } else if j == 12 {
            assert(ch5_prevs()[12] == "room_dw_cliff_seth_miniboss"@);
        } else if j == 13 {
            assert(ch5_prevs()[13] == "room_dw_cliff_shop"@);
        } else if j == 14 {
            assert(ch5_prevs()[14] == "room_dw_cliff_verticalwind_post"@);
        } else if j == 15 {
            assert(ch5_prevs()[15] == "room_dw_cliff_sethaqua_battle"@);
        } else if j == 16 {
            assert(ch5_prevs()[16] == "room_dw_fcastle_entrance"@);
        } else if j == 17 {
            assert(ch5_prevs()[17] == "room_town_north"@);
        } else if j == 18 {
            assert(ch5_prevs()[18] == "room_dw_fcastle_foyer"@);
        } else if j == 19 {
            assert(ch5_prevs()[19] == "room_dw_fcastle_onsen"@);
        } else if j == 20 {
            assert(ch5_prevs()[20] == "room_dw_fcastle_foyer"@);
        } else if j == 21 {
            assert(ch5_prevs()[21] == "room_dw_fcastle_right_endingscene"@);
        } else if j == 22 {
            assert(ch5_prevs()[22] == "room_dw_fcastle_foyer"@);
        } else if j == 23 {
            assert(ch5_prevs()[23] == "room_dw_fcastle_top_pinkdoor"@);
        } else if j == 24 {
            assert(ch5_prevs()[24] == "room_dw_fcastle_pinkroom"@);
        } else if j == 25 {
            assert(ch5_prevs()[25] == "room_dw_pink_encounter"@);
        } else if j == 26 {
            assert(ch5_prevs()[26] == "room_dw_fcastle_top_staircase_2"@);
        } else if j == 27 {
            assert(ch5_prevs()[27] == "room_dw_fcastle_green_checkpoint"@);
        } else if j == 28 {
            assert(ch5_prevs()[28] == "room_dw_fcastle_orange_gauntlet"@);
        } else if j == 29 {
            assert(ch5_prevs()[29] == "room_dw_fcastle_final_save"@);
        } else if j == 30 {
            assert(ch5_prevs()[30] == "room_dw_fcastle_flowery"@);
        } else if j == 31 {
            assert(ch5_prevs()[31] == "room_dw_fcastle_flowerclimb"@);
        }
    }
    assert(ch5_prevs()[32] == prev && ch5_curs()[32] == cur && ch5_names()[32] == "ch5_omega_flowery"@);
    lemma_transition_first(ch5_prevs(), ch5_curs(), ch5_names(), prev, cur, 32);
}

proof fn ch5_row_33(raw_changed: bool, prev: Seq<char>, cur: Seq<char>, settings: Settings, inp: &TickInputs)
    requires
        prev == "room_dw_fcastle_top_fountain"@,
        cur == "room_dw_post_fountain_close"@,
    ensures
        spec_chapter_split(5, raw_changed, prev, cur, settings, inp) == "ch5_fountain1"@,
{
    reveal_strlit("room_dw_fcastle_top_fountain");
    reveal_strlit("PLACE_MENU");
    reveal_strlit("room_dw_post_fountain_close");
    reveal_strlit("room_shop");
    reveal_strlit("room_schooldoor");
    reveal_strlit("room_krisroom");
    reveal_strlit("room_town_north");
    reveal_strlit("room_dw_garden_firstdash");
    reveal_strlit("room_dw_garden_diner");
    reveal_strlit("room_dw_garden_hardpressureplates");
    reveal_strlit("room_dw_garden_wateringcan_aqua");
    reveal_strlit("room_dw_garden_aqua");
    reveal_strlit("room_dw_garden_aquashrine");
    reveal_strlit("room_dw_garden_finalplatforming");
    reveal_strlit("room_dw_garden_cliffexit");
    reveal_strlit("room_dw_cliff_seth_miniboss");
    reveal_strlit("room_dw_cliff_shop");
    reveal_strlit("room_dw_cliff_verticalwind_post");
    reveal_strlit("room_dw_cliff_sethaqua_battle");
    reveal_strlit("room_dw_fcastle_entrance");
    reveal_strlit("room_dw_fcastle_foyer");
    reveal_strlit("room_dw_fcastle_onsen");
    reveal_strlit("room_dw_fcastle_right_endingscene");
    reveal_strlit("room_dw_fcastle_top_pinkdoor");
    reveal_strlit("room_dw_fcastle_pinkroom");
    reveal_strlit("room_dw_pink_encounter");
    reveal_strlit("room_dw_fcastle_top_staircase_2");
    reveal_strlit("room_dw_fcastle_green_checkpoint");
    reveal_strlit("room_dw_fcastle_orange_gauntlet");
    reveal_strlit("room_dw_fcastle_final_save");
    reveal_strlit("room_dw_fcastle_flowery");
    reveal_strlit("room_dw_fcastle_flowerclimb");
    reveal_strlit("room_dw_fcastle_flowerydash");
    assert("room_dw_fcastle_top_fountain"@.len() != "PLACE_MENU"@.len());
    assert("room_dw_fcastle_top_fountain"@.len() != "room_dw_post_fountain_close"@.len());
    assert("room_dw_fcastle_top_fountain"@.len() != "room_shop"@.len());
    assert("room_dw_post_fountain_close"@.len() != "room_schooldoor"@.len());
    assert("room_schooldoor"@.len() != "room_dw_fcastle_top_fountain"@.len());
    assert("room_krisroom"@.len() != "room_dw_fcastle_top_fountain"@.len());
    assert("room_town_north"@.len() != "room_dw_fcastle_top_fountain"@.len());
    assert("room_dw_garden_firstdash"@.len() != "room_dw_fcastle_top_fountain"@.len());
    assert("room_dw_garden_diner"@.len() != "room_dw_fcastle_top_fountain"@.len());
    assert("room_dw_garden_hardpressureplates"@.len() != "room_dw_fcastle_top_fountain"@.len());
    assert("room_dw_garden_wateringcan_aqua"@.len() != "room_dw_fcastle_top_fountain"@.len());
    assert("room_dw_garden_aqua"@.len() != "room_dw_fcastle_top_fountain"@.len());
    assert("room_dw_garden_aquashrine"@.len() != "room_dw_fcastle_top_fountain"@.len());
    assert("room_dw_garden_finalplatforming"@.len() != "room_dw_fcastle_top_fountain"@.len());
    assert("room_dw_garden_cliffexit"@.len() != "room_dw_fcastle_top_fountain"@.len());
    assert("room_dw_cliff_seth_miniboss"@.len() != "room_dw_fcastle_top_fountain"@.len());
    assert("room_dw_cliff_shop"@.len() != "room_dw_fcastle_top_fountain"@.len());
    assert("room_dw_cliff_verticalwind_post"@.len() != "room_dw_fcastle_top_fountain"@.len());
    assert("room_dw_cliff_sethaqua_battle"@.len() != "room_dw_fcastle_top_fountain"@.len());
    assert("room_dw_fcastle_entrance"@.len() != "room_dw_fcastle_top_fountain"@.len());
    assert("room_dw_fcastle_foyer"@.len() != "room_dw_fcastle_top_fountain"@.len());
    assert("room_dw_fcastle_onsen"@.len() != "room_dw_fcastle_top_fountain"@.len());
    assert("room_dw_fcastle_right_endingscene"@.len() != "room_dw_fcastle_top_fountain"@.len());
    assert("room_dw_fcastle_top_pinkdoor"@[20] != "room_dw_fcastle_top_fountain"@[20]);
    assert("room_dw_fcastle_pinkroom"@.len() != "room_dw_fcastle_top_fountain"@.len());
    assert("room_dw_pink_encounter"@.len() != "room_dw_fcastle_top_fountain"@.len());
    assert("room_dw_fcastle_top_staircase_2"@.len() != "room_dw_fcastle_top_fountain"@.len());
    assert("room_dw_fcastle_green_checkpoint"@.len() != "room_dw_fcastle_top_fountain"@.len());
    assert("room_dw_fcastle_orange_gauntlet"@.len() != "room_dw_fcastle_top_fountain"@.len());
    assert("room_dw_fcastle_final_save"@.len() != "room_dw_fcastle_top_fountain"@.len());
    assert("room_dw_fcastle_flowery"@.len() != "room_dw_fcastle_top_fountain"@.len());
    assert("room_dw_fcastle_flowerclimb"@.len() != "room_dw_fcastle_top_fountain"@.len());
    assert("room_dw_fcastle_flowerydash"@.len() != "room_dw_fcastle_top_fountain"@.len());
    assert forall|j: int| 0 <= j < 33 implies !(#[trigger] ch5_prevs()[j] == prev && ch5_curs()[j] == cur) by {
        if j == 0 {
            assert(ch5_prevs()[0] == "room_schooldoor"@);
        } else if j == 1 {
            assert(ch5_prevs()[1] == "room_krisroom"@);
        } else if j == 2 {
            assert(ch5_prevs()[2] == "room_town_north"@);
        } else if j == 3 {
            assert(ch5_prevs()[3] == "room_dw_garden_firstdash"@);
        } else if j == 4 {
            assert(ch5_prevs()[4] == "room_dw_garden_diner"@);
        } else if j == 5 {
            assert(ch5_prevs()[5] == "room_dw_garden_hardpressureplates"@);
        } else if j == 6 {
            assert(ch5_prevs()[6] == "room_dw_garden_wateringcan_aqua"@);
        } else if j == 7 {
            assert(ch5_prevs()[7] == "room_dw_garden_aqua"@);
        } else if j == 8 {
            assert(ch5_prevs()[8] == "room_dw_garden_aquashrine"@);
        } else if j == 9 {
            assert(ch5_prevs()[9] == "room_dw_garden_aquashrine"@);
        } else if j == 10 {
            assert(ch5_prevs()[10] == "room_dw_garden_finalplatforming"@);
        } else if j == 11 {
            assert(ch5_prevs()[11] == "room_dw_garden_cliffexit"@);
        } else if j == 12 {
            assert(ch5_prevs()[12] == "room_dw_cliff_seth_miniboss"@);
        } else if j == 13 {
            assert(ch5_prevs()[13] == "room_dw_cliff_shop"@);
        } else if j == 14 {
            assert(ch5_prevs()[14] == "room_dw_cliff_verticalwind_post"@);
        } else if j == 15 {
            assert(ch5_prevs()[15] == "room_dw_cliff_sethaqua_battle"@);
        } else if j == 16 {
            assert(ch5_prevs()[16] == "room_dw_fcastle_entrance"@);
        } else if j == 17 {
            assert(ch5_prevs()[17] == "room_town_north"@);
        } else if j == 18 {
            assert(ch5_prevs()[18] == "room_dw_fcastle_foyer"@);
        } else if j == 19 {
            assert(ch5_prevs()[19] == "room_dw_fcastle_onsen"@);
        } else if j == 20 {
            assert(ch5_prevs()[20] == "room_dw_fcastle_foyer"@);
        } else if j == 21 {
            assert(ch5_prevs()[21] == "room_dw_fcastle_right_endingscene"@);
        } else if j == 22 {
            assert(ch5_prevs()[22] == "room_dw_fcastle_foyer"@);
        } else if j == 23 {
            assert(ch5_prevs()[23] == "room_dw_fcastle_top_pinkdoor"@);
        } else if j == 24 {
            assert(ch5_prevs()[24] == "room_dw_fcastle_pinkroom"@);
        } else if j == 25 {
            assert(ch5_prevs()[25] == "room_dw_pink_encounter"@);
        } else if j == 26 {
            assert(ch5_prevs()[26] == "room_dw_fcastle_top_staircase_2"@);
        } else if j == 27 {
            assert(ch5_prevs()[27] == "room_dw_fcastle_green_checkpoint"@);
        } else if j == 28 {
            assert(ch5_prevs()[28] == "room_dw_fcastle_orange_gauntlet"@);
        } else if j == 29 {
            assert(ch5_prevs()[29] == "room_dw_fcastle_final_save"@);
        } else if j == 30 {
            assert(ch5_prevs()[30] == "room_dw_fcastle_flowery"@);
        } else if j == 31 {
            assert(ch5_prevs()[31] == "room_dw_fcastle_flowerclimb"@);
        } else if j == 32 {
            assert(ch5_prevs()[32] == "room_dw_fcastle_flowerydash"@);
        }
    }
    assert(ch5_prevs()[33] == prev && ch5_curs()[33] == cur && ch5_names()[33] == "ch5_fountain1"@);
    lemma_transition_first(ch5_prevs(), ch5_curs(), ch5_names(), prev, cur, 33);
}

proof fn ch5_row_34(raw_changed: bool, prev: Seq<char>, cur: Seq<char>, settings: Settings, inp: &TickInputs)
    requires
        prev == "room_cc_fountain"@,
        cur == "room_flowershop_2f"@,
    ensures
        spec_chapter_split(5, raw_changed, prev, cur, settings, inp) == "ch5_fountain2"@,
{
    reveal_strlit("room_cc_fountain");
    reveal_strlit("PLACE_MENU");
    reveal_strlit("room_flowershop_2f");
    reveal_strlit("room_shop");
    reveal_strlit("room_schooldoor");
    reveal_strlit("room_krisroom");
    reveal_strlit("room_town_north");
    reveal_strlit("room_dw_garden_firstdash");
    reveal_strlit("room_dw_garden_diner");
    reveal_strlit("room_dw_garden_hardpressureplates");
    reveal_strlit("room_dw_garden_wateringcan_aqua");
    reveal_strlit("room_dw_garden_aqua");
    reveal_strlit("room_dw_garden_aquashrine");
    reveal_strlit("room_dw_garden_finalplatforming");
    reveal_strlit("room_dw_garden_cliffexit");
    reveal_strlit("room_dw_cliff_seth_miniboss");
    reveal_strlit("room_dw_cliff_shop");
    reveal_strlit("room_dw_cliff_verticalwind_post");
    reveal_strlit("room_dw_cliff_sethaqua_battle");
    reveal_strlit("room_dw_fcastle_entrance");
    reveal_strlit("room_dw_fcastle_foyer");
    reveal_strlit("room_dw_fcastle_onsen");
    reveal_strlit("room_dw_fcastle_right_endingscene");
    reveal_strlit("room_dw_fcastle_top_pinkdoor");
    reveal_strlit("room_dw_fcastle_pinkroom");
    reveal_strlit("room_dw_pink_encounter");
    reveal_strlit("room_dw_fcastle_top_staircase_2");
    reveal_strlit("room_dw_fcastle_green_checkpoint");
    reveal_strlit("room_dw_fcastle_orange_gauntlet");
    reveal_strlit("room_dw_fcastle_final_save");
    reveal_strlit("room_dw_fcastle_flowery");
    reveal_strlit("room_dw_fcastle_flowerclimb");
    reveal_strlit("room_dw_fcastle_flowerydash");
    reveal_strlit("room_dw_fcastle_top_fountain");
    assert("room_cc_fountain"@.len() != "PLACE_MENU"@.len());
    assert("room_cc_fountain"@.len() != "room_flowershop_2f"@.len());
    assert("room_cc_fountain"@.len() != "room_shop"@.len());
    assert("room_flowershop_2f"@.len() != "room_schooldoor"@.len());
    assert("room_schooldoor"@.len() != "room_cc_fountain"@.len());
    assert("room_krisroom"@.len() != "room_cc_fountain"@.len());
    assert("room_town_north"@.len() != "room_cc_fountain"@.len());
    assert("room_dw_garden_firstdash"@.len() != "room_cc_fountain"@.len());
    assert("room_dw_garden_diner"@.len() != "room_cc_fountain"@.len());
    assert("room_dw_garden_hardpressureplates"@.len() != "room_cc_fountain"@.len());
    assert("room_dw_garden_wateringcan_aqua"@.len() != "room_cc_fountain"@.len());
    assert("room_dw_garden_aqua"@.len() != "room_cc_fountain"@.len());
    assert("room_dw_garden_aquashrine"@.len() != "room_cc_fountain"@.len());
    assert("room_dw_garden_finalplatforming"@.len() != "room_cc_fountain"@.len());
    assert("room_dw_garden_cliffexit"@.len() != "room_cc_fountain"@.len());
    assert("room_dw_cliff_seth_miniboss"@.len() != "room_cc_fountain"@.len());
    assert("room_dw_cliff_shop"@.len() != "room_cc_fountain"@.len());
    assert("room_dw_cliff_verticalwind_post"@.len() != "room_cc_fountain"@.len());
    assert("room_dw_cliff_sethaqua_battle"@.len() != "room_cc_fountain"@.len());
    assert("room_dw_fcastle_entrance"@.len() != "room_cc_fountain"@.len());
    assert("room_dw_fcastle_foyer"@.len() != "room_cc_fountain"@.len());
    assert("room_dw_fcastle_onsen"@.len() != "room_cc_fountain"@.len());
    assert("room_dw_fcastle_right_endingscene"@.len() != "room_cc_fountain"@.len());
    assert("room_dw_fcastle_top_pinkdoor"@.len() != "room_cc_fountain"@.len());
    assert("room_dw_fcastle_pinkroom"@.len() != "room_cc_fountain"@.len());
    assert("room_dw_pink_encounter"@.len() != "room_cc_fountain"@.len());
    assert("room_dw_fcastle_top_staircase_2"@.len() != "room_cc_fountain"@.len());
    assert("room_dw_fcastle_green_checkpoint"@.len() != "room_cc_fountain"@.len());
    assert("room_dw_fcastle_orange_gauntlet"@.len() != "room_cc_fountain"@.len());
    assert("room_dw_fcastle_final_save"@.len() != "room_cc_fountain"@.len());
    assert("room_dw_fcastle_flowery"@.len() != "room_cc_fountain"@.len());
    assert("room_dw_fcastle_flowerclimb"@.len() != "room_cc_fountain"@.len());
    assert("room_dw_fcastle_flowerydash"@.len() != "room_cc_fountain"@.len());
    assert("room_dw_fcastle_top_fountain"@.len() != "room_cc_fountain"@.len());
    assert forall|j: int| 0 <= j < 34 implies !(#[trigger] ch5_prevs()[j] == prev && ch5_curs()[j] == cur) by {
        if j == 0 {
            assert(ch5_prevs()[0] == "room_schooldoor"@);
        } else if j == 1 {
            assert(ch5_prevs()[1] == "room_krisroom"@);
        } else if j == 2 {
            assert(ch5_prevs()[2] == "room_town_north"@);
        } else if j == 3 {
            assert(ch5_prevs()[3] == "room_dw_garden_firstdash"@);
        } else if j == 4 {
            assert(ch5_prevs()[4] == "room_dw_garden_diner"@);
        } else if j == 5 {
            assert(ch5_prevs()[5] == "room_dw_garden_hardpressureplates"@);
        } else if j == 6 {
            assert(ch5_prevs()[6] == "room_dw_garden_wateringcan_aqua"@);
        } else if j == 7 {
            assert(ch5_prevs()[7] == "room_dw_garden_aqua"@);
        } else if j == 8 {
            assert(ch5_prevs()[8] == "room_dw_garden_aquashrine"@);
        } else if j == 9 {
            assert(ch5_prevs()[9] == "room_dw_garden_aquashrine"@);
        } else if j == 10 {
            assert(ch5_prevs()[10] == "room_dw_garden_finalplatforming"@);
        } else if j == 11 {
            assert(ch5_prevs()[11] == "room_dw_garden_cliffexit"@);
        } else if j == 12 {
            assert(ch5_prevs()[12] == "room_dw_cliff_seth_miniboss"@);
        } else if j == 13 {
            assert(ch5_prevs()[13] == "room_dw_cliff_shop"@);
        } else if j == 14 {
            assert(ch5_prevs()[14] == "room_dw_cliff_verticalwind_post"@);
        } else if j == 15 {
            assert(ch5_prevs()[15] == "room_dw_cliff_sethaqua_battle"@);
        } else if j == 16 {
            assert(ch5_prevs()[16] == "room_dw_fcastle_entrance"@);
        } else if j == 17 {
            assert(ch5_prevs()[17] == "room_town_north"@);
        } else if j == 18 {
            assert(ch5_prevs()[18] == "room_dw_fcastle_foyer"@);
        } else if j == 19 {
            assert(ch5_prevs()[19] == "room_dw_fcastle_onsen"@);
        } else if j == 20 {
            assert(ch5_prevs()[20] == "room_dw_fcastle_foyer"@);
        } else if j == 21 {
            assert(ch5_prevs()[21] == "room_dw_fcastle_right_endingscene"@);
        } else if j == 22 {
            assert(ch5_prevs()[22] == "room_dw_fcastle_foyer"@);
        } else if j == 23 {
            assert(ch5_prevs()[23] == "room_dw_fcastle_top_pinkdoor"@);
        } else if j == 24 {
            assert(ch5_prevs()[24] == "room_dw_fcastle_pinkroom"@);
        } else if j == 25 {
            assert(ch5_prevs()[25] == "room_dw_pink_encounter"@);
        } else if j == 26 {
            assert(ch5_prevs()[26] == "room_dw_fcastle_top_staircase_2"@);
        } else if j == 27 {
            assert(ch5_prevs()[27] == "room_dw_fcastle_green_checkpoint"@);
        } else if j == 28 {
            assert(ch5_prevs()[28] == "room_dw_fcastle_orange_gauntlet"@);
        } else if j == 29 {
            assert(ch5_prevs()[29] == "room_dw_fcastle_final_save"@);
        } else if j == 30 {
            assert(ch5_prevs()[30] == "room_dw_fcastle_flowery"@);
        } else if j == 31 {
            assert(ch5_prevs()[31] == "room_dw_fcastle_flowerclimb"@);
        } else if j == 32 {
            assert(ch5_prevs()[32] == "room_dw_fcastle_flowerydash"@);
        } else if j == 33 {
            assert(ch5_prevs()[33] == "room_dw_fcastle_top_fountain"@);
        }
    }
    assert(ch5_prevs()[34] == prev && ch5_curs()[34] == cur && ch5_names()[34] == "ch5_fountain2"@);
    lemma_transition_first(ch5_prevs(), ch5_curs(), ch5_names(), prev, cur, 34);
}

proof fn ch5_row_35(raw_changed: bool, prev: Seq<char>, cur: Seq<char>, settings: Settings, inp: &TickInputs)
    requires
        prev == "room_schooldoor"@,
        cur == "room_ed"@,
    ensures
        spec_chapter_split(5, raw_changed, prev, cur, settings, inp) == "ch5_ending_src"@,
{
    reveal_strlit("room_schooldoor");
    reveal_strlit("PLACE_MENU");
    reveal_strlit("room_ed");
    reveal_strlit("room_shop");
    reveal_strlit("room_dw_castle_area_1");
    reveal_strlit("room_krisroom");
    reveal_strlit("room_town_north");
    reveal_strlit("room_dw_garden_firstdash");
    reveal_strlit("room_dw_garden_diner");
    reveal_strlit("room_dw_garden_hardpressureplates");
    reveal_strlit("room_dw_garden_wateringcan_aqua");
    reveal_strlit("room_dw_garden_aqua");
    reveal_strlit("room_dw_garden_aquashrine");
    reveal_strlit("room_dw_garden_finalplatforming");
    reveal_strlit("room_dw_garden_cliffexit");
    reveal_strlit("room_dw_cliff_seth_miniboss");
    reveal_strlit("room_dw_cliff_shop");
    reveal_strlit("room_dw_cliff_verticalwind_post");
    reveal_strlit("room_dw_cliff_sethaqua_battle");
    reveal_strlit("room_dw_fcastle_entrance");
    reveal_strlit("room_dw_fcastle_foyer");
    reveal_strlit("room_dw_fcastle_onsen");
    reveal_strlit("room_dw_fcastle_right_endingscene");
    reveal_strlit("room_dw_fcastle_top_pinkdoor");
    reveal_strlit("room_dw_fcastle_pinkroom");
    reveal_strlit("room_dw_pink_encounter");
    reveal_strlit("room_dw_fcastle_top_staircase_2");
    reveal_strlit("room_dw_fcastle_green_checkpoint");
    reveal_strlit("room_dw_fcastle_orange_gauntlet");
    reveal_strlit("room_dw_fcastle_final_save");
    reveal_strlit("room_dw_fcastle_flowery");
    reveal_strlit("room_dw_fcastle_flowerclimb");
    reveal_strlit("room_dw_fcastle_flowerydash");
    reveal_strlit("room_dw_fcastle_top_fountain");
    reveal_strlit("room_cc_fountain");
    assert("room_schooldoor"@.len() != "PLACE_MENU"@.len());
    assert("room_schooldoor"@.len() != "room_ed"@.len());
    assert("room_schooldoor"@.len() != "room_shop"@.len());
    assert("room_dw_castle_area_1"@.len() != "room_ed"@.len());
    assert("room_krisroom"@.len() != "room_schooldoor"@.len());
    assert("room_town_north"@[5] != "room_schooldoor"@[5]);
    assert("room_dw_garden_firstdash"@.len() != "room_schooldoor"@.len());
    assert("room_dw_garden_diner"@.len() != "room_schooldoor"@.len());
    assert("room_dw_garden_hardpressureplates"@.len() != "room_schooldoor"@.len());
    assert("room_dw_garden_wateringcan_aqua"@.len() != "room_schooldoor"@.len());
    assert("room_dw_garden_aqua"@.len() != "room_schooldoor"@.len());
    assert("room_dw_garden_aquashrine"@.len() != "room_schooldoor"@.len());
    assert("room_dw_garden_finalplatforming"@.len() != "room_schooldoor"@.len());
    assert("room_dw_garden_cliffexit"@.len() != "room_schooldoor"@.len());
    assert("room_dw_cliff_seth_miniboss"@.len() != "room_schooldoor"@.len());
    assert("room_dw_cliff_shop"@.len() != "room_schooldoor"@.len());
    assert("room_dw_cliff_verticalwind_post"@.len() != "room_schooldoor"@.len());
    assert("room_dw_cliff_sethaqua_battle"@.len() != "room_schooldoor"@.len());
    assert("room_dw_fcastle_entrance"@.len() != "room_schooldoor"@.len());
    assert("room_dw_fcastle_foyer"@.len() != "room_schooldoor"@.len());
    assert("room_dw_fcastle_onsen"@.len() != "room_schooldoor"@.len());
    assert("room_dw_fcastle_right_endingscene"@.len() != "room_schooldoor"@.len());
    assert("room_dw_fcastle_top_pinkdoor"@.len() != "room_schooldoor"@.len());
    assert("room_dw_fcastle_pinkroom"@.len() != "room_schooldoor"@.len());
    assert("room_dw_pink_encounter"@.len() != "room_schooldoor"@.len());
    assert("room_dw_fcastle_top_staircase_2"@.len() != "room_schooldoor"@.len());
    assert("room_dw_fcastle_green_checkpoint"@.len() != "room_schooldoor"@.len());
    assert("room_dw_fcastle_orange_gauntlet"@.len() != "room_schooldoor"@.len());
    assert("room_dw_fcastle_final_save"@.len() != "room_schooldoor"@.len());
    assert("room_dw_fcastle_flowery"@.len() != "room_schooldoor"@.len());
    assert("room_dw_fcastle_flowerclimb"@.len() != "room_schooldoor"@.len());
    assert("room_dw_fcastle_flowerydash"@.len() != "room_schooldoor"@.len());
    assert("room_dw_fcastle_top_fountain"@.len() != "room_schooldoor"@.len());
    assert("room_cc_fountain"@.len() != "room_schooldoor"@.len());
    assert forall|j: int| 0 <= j < 35 implies !(#[trigger] ch5_prevs()[j] == prev && ch5_curs()[j] == cur) by {
        if j == 0 {
            assert(ch5_curs()[0] == "room_dw_castle_area_1"@);
        } else if j == 1 {
            assert(ch5_prevs()[1] == "room_krisroom"@);
        } else if j == 2 {
            assert(ch5_prevs()[2] == "room_town_north"@);
        } else if j == 3 {
            assert(ch5_prevs()[3] == "room_dw_garden_firstdash"@);
        } else if j == 4 {
            assert(ch5_prevs()[4] == "room_dw_garden_diner"@);
        } else if j == 5 {
            assert(ch5_prevs()[5] == "room_dw_garden_hardpressureplates"@);
        } else if j == 6 {
            assert(ch5_prevs()[6] == "room_dw_garden_wateringcan_aqua"@);
        } else if j == 7 {
            assert(ch5_prevs()[7] == "room_dw_garden_aqua"@);
        } else if j == 8 {
            assert(ch5_prevs()[8] == "room_dw_garden_aquashrine"@);
        } else if j == 9 {
            assert(ch5_prevs()[9] == "room_dw_garden_aquashrine"@);
        } else if j == 10 {
            assert(ch5_prevs()[10] == "room_dw_garden_finalplatforming"@);
        } else if j == 11 {
            assert(ch5_prevs()[11] == "room_dw_garden_cliffexit"@);
        } else if j == 12 {
            assert(ch5_prevs()[12] == "room_dw_cliff_seth_miniboss"@);
        } else if j == 13 {
            assert(ch5_prevs()[13] == "room_dw_cliff_shop"@);
        } else if j == 14 {
            assert(ch5_prevs()[14] == "room_dw_cliff_verticalwind_post"@);
        } else if j == 15 {
            assert(ch5_prevs()[15] == "room_dw_cliff_sethaqua_battle"@);
        } else if j == 16 {
            assert(ch5_prevs()[16] == "room_dw_fcastle_entrance"@);
        } else if j == 17 {
            assert(ch5_prevs()[17] == "room_town_north"@);
        } else if j == 18 {
            assert(ch5_prevs()[18] == "room_dw_fcastle_foyer"@);
        } else if j == 19 {
            assert(ch5_prevs()[19] == "room_dw_fcastle_onsen"@);
        } else if j == 20 {
            assert(ch5_prevs()[20] == "room_dw_fcastle_foyer"@);
        } else if j == 21 {
            assert(ch5_prevs()[21] == "room_dw_fcastle_right_endingscene"@);
        } else if j == 22 {
            assert(ch5_prevs()[22] == "room_dw_fcastle_foyer"@);
        } else if j == 23 {
            assert(ch5_prevs()[23] == "room_dw_fcastle_top_pinkdoor"@);
        } else if j == 24 {
            assert(ch5_prevs()[24] == "room_dw_fcastle_pinkroom"@);
        } else if j == 25 {
            assert(ch5_prevs()[25] == "room_dw_pink_encounter"@);
        } else if j == 26 {
            assert(ch5_prevs()[26] == "room_dw_fcastle_top_staircase_2"@);
        } else if j == 27 {
            assert(ch5_prevs()[27] == "room_dw_fcastle_green_checkpoint"@);
        } else if j == 28 {
            assert(ch5_prevs()[28] == "room_dw_fcastle_orange_gauntlet"@);
        } else if j == 29 {
            assert(ch5_prevs()[29] == "room_dw_fcastle_final_save"@);
        } else if j == 30 {
            assert(ch5_prevs()[30] == "room_dw_fcastle_flowery"@);
        } else if j == 31 {
            assert(ch5_prevs()[31] == "room_dw_fcastle_flowerclimb"@);
        } else if j == 32 {
            assert(ch5_prevs()[32] == "room_dw_fcastle_flowerydash"@);
        } else if j == 33 {
            assert(ch5_prevs()[33] == "room_dw_fcastle_top_fountain"@);
        } else if j == 34 {
            assert(ch5_prevs()[34] == "room_cc_fountain"@);
        }
    }
    assert(ch5_prevs()[35] == prev && ch5_curs()[35] == cur && ch5_names()[35] == "ch5_ending_src"@);
    lemma_transition_first(ch5_prevs(), ch5_curs(), ch5_names(), prev, cur, 35);
}


} // verus!
