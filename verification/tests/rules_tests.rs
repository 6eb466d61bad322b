use deltarune_autosplit::num::GameNum;
use deltarune_autosplit::rules::{chapter1ify, chapter_split, plan_reads, reads_namer, GlobalReadings, InstCount, PlannedReadings, RuleState, TickInputs};
use deltarune_autosplit::settings::{AutoStart, Ch5StartOnPrev, PauseTiming, Settings};
use deltarune_autosplit::versions::EngineVersion;
use deltarune_autosplit::watch::Pair;

fn n(x: f64) -> GameNum {
    GameNum::from_bits(x.to_bits())
}

fn p(old: f64, current: f64) -> Pair<GameNum> {
    Pair { old: n(old), current: n(current) }
}

fn b(old: bool, current: bool) -> Pair<bool> {
    Pair { old, current }
}

fn quiet() -> TickInputs {
    TickInputs {
        plot: p(0.0, 0.0),
        choice: p(0.0, 0.0),
        msc: p(0.0, 0.0),
        fighting: p(0.0, 0.0),
        con: p(0.0, 0.0),
        text_check: b(false, false),
        text_check2: b(false, false),
        flag: p(0.0, 0.0),
        inst_exists: b(false, false),
        mus_current: Vec::new(),
        mus_old: String::new(),
        credits_timer: n(0.0),
        key_items: Vec::new(),
        flag_1324: n(0.0),
    }
}

fn settings(pauses: bool, unpause_loadsave: bool, ch5: Ch5StartOnPrev) -> Settings {
    Settings {
        auto_start: AutoStart::AutoReset,
        ac_pause_timer: pauses,
        chapter_pause_timing: PauseTiming::AllChapters,
        ac_unpause_loadsave: unpause_loadsave,
        item_tracking: false,
        allow_unsupported_version: false,
        ch5_start_on_prev: ch5,
    }
}

#[test]
fn chapter_1_room_changes() {
    let s = settings(true, false, Ch5StartOnPrev::No);
    let q = quiet();
    assert_eq!(chapter_split(1, true, "room_krisroom", "room_dark1", &s, &q), "ch1_bedskip");
    assert_eq!(chapter_split(1, true, "room_insidecloset", "room_dark1", &s, &q), "ch1_school");
    assert_eq!(chapter_split(1, true, "room_cc_fountain", "room_school_unusedroom", &s, &q), "ch1_seal_fountain");
    assert_eq!(chapter_split(1, true, "room_dark1", "room_krisroom", &s, &q), "");
    assert_eq!(chapter_split(1, true, "room_cc_prison_cells", "room_cc_prisonlancer", &s, &q), "");
    let mut escaped = quiet();
    escaped.plot = p(150.0, 156.0);
    assert_eq!(chapter_split(1, true, "room_cc_prison_cells", "room_cc_prisonlancer", &s, &escaped), "ch1_escape_prison");
    assert_eq!(chapter_split(1, false, "room_krisroom", "room_dark1", &s, &q), "");
}

#[test]
fn chapter_1_same_room() {
    let s = settings(true, false, Ch5StartOnPrev::No);
    let mut i = quiet();
    i.con = p(75.0, 76.0);
    assert_eq!(chapter_split(1, false, "PLACE_CONTACT", "PLACE_CONTACT", &s, &i), "ch1_contact");
    assert_eq!(chapter_split(1, false, "room_cc_joker", "room_cc_joker", &s, &i), "");
    i.con = p(7.0, 21.0);
    assert_eq!(chapter_split(1, false, "room_castle_darkdoor", "room_castle_darkdoor", &s, &i), "ch1_castle_town_door");
    let mut egg = quiet();
    egg.msc = p(600.0, 601.0);
    assert_eq!(chapter_split(1, false, "room_man", "room_man", &s, &egg), "ch1_egg");
    egg.choice = p(0.0, 1.0);
    assert_eq!(chapter_split(1, false, "room_man", "room_man", &s, &egg), "");
    let mut king = quiet();
    king.fighting = p(1.0, 0.0);
    assert_eq!(chapter_split(1, false, "room_cc_kingbattle", "room_cc_kingbattle", &s, &king), "ch1_king");
    king.fighting = Pair { old: n(1.0), current: n(-0.0) };
    assert_eq!(chapter_split(1, false, "room_cc_kingbattle", "room_cc_kingbattle", &s, &king), "");
    let mut end = quiet();
    end.text_check = b(false, true);
    assert_eq!(chapter_split(1, false, "room_krisroom", "room_krisroom", &s, &end), "ch1_ending");
    let mut ost = quiet();
    ost.credits_timer = n(108.0);
    assert_eq!(chapter_split(1, false, "room_ed", "room_ed", &s, &ost), "ch1_ending_ost");
    ost.credits_timer = n(107.5);
    assert_eq!(chapter_split(1, false, "room_ed", "room_ed", &s, &ost), "");
    let mut jevil = quiet();
    jevil.con = p(3.0, 4.0);
    assert_eq!(chapter_split(1, false, "room_cc_joker", "room_cc_joker", &s, &jevil), "ch1_beat_jevil");
}

#[test]
fn chapter_2_rules() {
    let on = settings(true, false, Ch5StartOnPrev::No);
    let loadsave = settings(true, true, Ch5StartOnPrev::No);
    let off = settings(false, true, Ch5StartOnPrev::No);
    let q = quiet();
    assert_eq!(chapter_split(2, false, "PLACE_MENU", "room_krisroom", &on, &q), "resume_igt");
    assert_eq!(chapter_split(2, false, "PLACE_MENU", "room_library", &on, &q), "");
    assert_eq!(chapter_split(2, false, "PLACE_MENU", "room_library", &loadsave, &q), "resume_igt");
    assert_eq!(chapter_split(2, false, "PLACE_MENU", "room_krisroom", &off, &q), "");
    assert_eq!(chapter_split(2, false, "room_library", "room_dw_cyber_intro_1", &on, &q), "ch2_library");
    let mut early = quiet();
    early.plot = p(59.0, 61.0);
    assert_eq!(chapter_split(2, false, "room_dw_cyber_musical_door", "room_dw_city_intro", &on, &early), "ch2_cf_tz_skip");
    assert_eq!(chapter_split(2, false, "room_dw_cyber_musical_door", "room_dw_mansion_entrance", &on, &early), "ch2_cf_m_skip");
    early.plot = p(60.0, 60.0);
    assert_eq!(chapter_split(2, false, "room_dw_cyber_musical_door", "room_dw_city_intro", &on, &early), "ch2_cf_tz_warp");
    assert_eq!(chapter_split(2, false, "room_dw_mansion_fountain", "room_lw_computer_lab", &on, &q), "ch2_seal_fountain");
    assert_eq!(chapter_split(2, false, "room_cc_fountain", "room_lw_computer_lab", &on, &q), "ch2_seal_fountain");
    let mut egg = quiet();
    egg.msc = p(1173.0, 1174.0);
    egg.choice = p(0.0, -1.0);
    assert_eq!(chapter_split(2, false, "room_dw_city_man", "room_dw_city_man", &on, &egg), "ch2_egg");
    assert_eq!(chapter_split(2, false, "room_dw_cyber_musical_door", "room_dw_cyber_musical_door", &on, &egg), "ch2_egg");
    let mut boxing = quiet();
    boxing.text_check = b(true, false);
    assert_eq!(chapter_split(2, false, "room_dw_cyber_queen_boxing", "room_dw_cyber_queen_boxing", &on, &boxing), "ch2_arcade_text");
    assert_eq!(chapter_split(2, false, "room_dw_city_moss", "room_dw_city_moss", &on, &boxing), "ch2_thorn_ring");
    let mut tor = quiet();
    tor.text_check2 = b(false, true);
    assert_eq!(chapter_split(2, false, "room_torhouse", "room_torhouse", &on, &tor), "ch2_ending_il");
    tor.text_check = b(false, true);
    assert_eq!(chapter_split(2, false, "room_torhouse", "room_torhouse", &on, &tor), "ch2_ending_ac");
}

#[test]
fn chapter_3_rules() {
    let on = settings(true, false, Ch5StartOnPrev::No);
    let q = quiet();
    assert_eq!(chapter_split(3, false, "PLACE_MENU", "room_dw_couch_overworld_intro", &on, &q), "resume_igt");
    assert_eq!(chapter_split(3, false, "room_gameshowroom", "room_board_gsa02_b0", &on, &q), "ch3_enter_round1");
    let mut green = quiet();
    green.plot = p(0.0, 120.0);
    assert_eq!(chapter_split(3, false, "room_gameshowroom", "room_dw_green_room", &on, &green), "ch3_end_round1");
    green.plot = p(0.0, 140.0);
    assert_eq!(chapter_split(3, false, "room_gameshowroom", "room_dw_green_room", &on, &green), "ch3_end_round2");
    green.plot = p(0.0, 130.0);
    assert_eq!(chapter_split(3, false, "room_gameshowroom", "room_dw_green_room", &on, &green), "");
    let mut knight = quiet();
    knight.flag = p(0.0, 1.0);
    assert_eq!(chapter_split(3, false, "room_dw_snow_zone", "room_dw_snow_zone", &on, &knight), "ch3_knight_win");
    knight.flag = p(0.0, 2.0);
    assert_eq!(chapter_split(3, false, "room_dw_snow_zone", "room_dw_snow_zone", &on, &knight), "ch3_knight_death");
    knight.flag = p(0.0, 0.0);
    knight.fighting = p(0.0, 1.0);
    assert_eq!(chapter_split(3, false, "room_dw_snow_zone", "room_dw_snow_zone", &on, &knight), "ch3_enter_knight");
    let mut night = quiet();
    night.mus_old = r"C:\game\mus\night_ambience.ogg".to_string();
    assert_eq!(chapter_split(3, false, "room_town_shelter", "room_town_shelter", &on, &night), "ch3_ending");
    night.mus_current = b"mus\\other.ogg".to_vec();
    assert_eq!(chapter_split(3, false, "room_town_shelter", "room_town_shelter", &on, &night), "");
    let mut mantle = quiet();
    mantle.inst_exists = b(false, true);
    assert_eq!(chapter_split(3, false, "room_shadowmantle", "room_shadowmantle", &on, &mantle), "ch3_end_mantle");
    assert_eq!(chapter_split(3, false, "room_dw_snow_zone", "room_gameover", &on, &q), "ch3_knight_death");
}

#[test]
fn chapter_4_rules() {
    let on = settings(true, false, Ch5StartOnPrev::No);
    let q = quiet();
    assert_eq!(chapter_split(4, false, "PLACE_MENU", "room_cc_fountain", &on, &q), "resume_igt");
    assert_eq!(chapter_split(4, false, "room_dw_church_knightclimb_post", "room_dw_castle_area_1", &on, &q), "ch4_enter_castle_town");
    assert_eq!(chapter_split(4, false, "room_dw_church_gersonstudy", "room_dw_church_rightconnect", &on, &q), "ch4_grand_piano");
    let mut mike = quiet();
    mike.fighting = p(0.0, 1.0);
    assert_eq!(chapter_split(4, false, "room_dw_castle_tv_zone_battle", "room_dw_castle_tv_zone_battle", &on, &mike), "ch4_start_mike");
    mike.fighting = p(1.0, 1.0);
    mike.con = p(17.0, 18.0);
    assert_eq!(chapter_split(4, false, "room_dw_castle_tv_zone_battle", "room_dw_castle_tv_zone_battle", &on, &mike), "ch4_beat_mike");
    let mut hoj = quiet();
    hoj.fighting = p(1.0, 1.0);
    hoj.con = p(0.0, 3.0);
    assert_eq!(chapter_split(4, false, "room_dw_church_arena", "room_dw_church_arena", &on, &hoj), "ch4_hammer_of_justice");
    let mut ending = quiet();
    ending.con = p(0.0, 1.0);
    assert_eq!(chapter_split(4, false, "room_torhouse", "room_torhouse", &on, &ending), "ch4_ending_il");
}

#[test]
fn chapter_5_rules() {
    let on = settings(true, false, Ch5StartOnPrev::No);
    let q = quiet();
    assert_eq!(chapter_split(5, false, "PLACE_MENU", "room_krisroom", &on, &q), "resume_igt");
    assert_eq!(chapter_split(5, false, "room_shop", "room_dw_cliff_shop", &on, &q), "");
    let mut key = quiet();
    key.key_items = vec![n(1.0), n(32.0), n(0.0)];
    assert_eq!(chapter_split(5, false, "room_shop", "room_dw_cliff_shop", &on, &key), "ch5_pink_shop");
    let mut done = quiet();
    done.flag_1324 = n(3.0);
    assert_eq!(chapter_split(5, false, "room_town_north", "room_schooldoor", &on, &done), "ch5_ending_completion_data");
    assert_eq!(chapter_split(5, false, "room_schooldoor", "room_ed", &on, &q), "ch5_ending_src");
    assert_eq!(chapter_split(5, false, "room_dw_garden_aquashrine", "room_dw_garden_aquahole", &on, &q), "ch5_exit_feather");
    let mut egg = quiet();
    egg.choice = p(-1.0, 0.0);
    assert_eq!(chapter_split(5, false, "room_man", "room_man", &on, &egg), "ch5_egg");
    let mut seeds = quiet();
    seeds.plot = p(550.0, 560.0);
    assert_eq!(chapter_split(5, false, "room_flowershop_2f", "room_flowershop_2f", &on, &seeds), "ch5_seed_packets");
    let mut crt = quiet();
    crt.inst_exists = b(false, true);
    assert_eq!(chapter_split(5, false, "room_beach", "room_beach", &on, &crt), "ch5_sideb");
}

#[test]
fn no_splits_outside_chapters() {
    let on = settings(true, true, Ch5StartOnPrev::No);
    let q = quiet();
    assert_eq!(chapter_split(0, true, "PLACE_MENU", "room_krisroom", &on, &q), "");
    assert_eq!(chapter_split(6, true, "PLACE_MENU", "room_krisroom", &on, &q), "");
    assert_eq!(chapter_split(-1, false, "room_krisroom", "room_dark1", &on, &q), "");
}

#[test]
fn reading_plans() {
    let v = EngineVersion::GMS2_2022_1;
    let plan = plan_reads(v, 1, "room_field", "PLACE_CONTACT", n(0.0));
    let con = plan.con.unwrap();
    assert_eq!(con.obj, "DEVICE_CONTACT_ch1");
    assert_eq!(con.var, "EVENT");
    assert!(plan.text.is_none());
    let plan = plan_reads(EngineVersion::GM_LTS2022_0_3_104, 1, "room_krisroom", "room_krisroom", n(0.0));
    let text = plan.text.unwrap();
    assert_eq!(text.writer, "obj_writer");
    assert_eq!(text.en, "* (You decided to go to bed.)/%");
    let plan = plan_reads(EngineVersion::GM_LTS2022_0_3_104, 4, "x", "room_dw_castle_tv_zone_battle", n(0.0));
    assert!(plan.con.is_none());
    let plan = plan_reads(EngineVersion::GM_LTS2022_0_3_104, 4, "x", "room_dw_castle_tv_zone_battle", n(1.0));
    assert_eq!(plan.con.unwrap().obj, "obj_mike_attack_controller");
    let plan = plan_reads(EngineVersion::GM_LTS2022_0_3_104, 3, "x", "room_dw_snow_zone", n(0.0));
    assert_eq!(plan.flag_index, Some(1047));
    let plan = plan_reads(EngineVersion::GM_LTS2022_0_3_104, 3, "x", "room_shadowmantle", n(0.0));
    assert_eq!(plan.inst_count, Some(InstCount::MantleOutro));
    let plan = plan_reads(EngineVersion::GM_LTS2022_0_3_104, 5, "room_shop", "room_dw_cliff_shop", n(0.0));
    assert!(plan.key_items);
    assert!(!plan.flag_1324);
    let plan = plan_reads(EngineVersion::GM_LTS2022_0_3_104, 5, "room_x", "room_schooldoor", n(0.0));
    assert!(plan.flag_1324);
    let plan = plan_reads(EngineVersion::GM_LTS2022_0_3_104, 2, "room_x", "room_torhouse", n(0.0));
    assert!(plan.text.is_some() && plan.text2.is_some());
    let plan = plan_reads(EngineVersion::GM_LTS2022_0_3_104, 1, "room_x", "room_ed", n(0.0));
    assert!(plan.credits_timer);
    assert_eq!(chapter1ify(EngineVersion::GMS2_2022_2, "obj_writer"), "obj_writer_ch1");
    assert_eq!(chapter1ify(EngineVersion::GMS2_v2_2_0, "obj_writer"), "obj_writer");
}

fn readings(con: f64, text: bool, inst: Option<i32>) -> PlannedReadings {
    PlannedReadings {
        con: n(con),
        text,
        text2: false,
        flag: n(0.0),
        inst_count: inst,
        credits_timer: n(0.0),
        key_items: Vec::new(),
        flag_1324: n(0.0),
        mus_current: Vec::new(),
        mus_old: String::new(),
    }
}

#[test]
fn observing_a_tick() {
    let mut st = RuleState::new();
    let g = GlobalReadings { fighting: n(0.0), plot: n(10.0), choice: n(0.0), msc: n(0.0) };
    let plan = plan_reads(EngineVersion::GM_LTS2022_0_3_104, 1, "room_x", "PLACE_CONTACT", n(0.0));
    let first = st.observe(1, &plan, g, readings(75.0, true, None));
    assert_eq!(first.con, p(75.0, 75.0));
    assert_eq!(first.text_check, b(false, false));
    assert_eq!(first.plot, p(10.0, 10.0));
    let second = st.observe(1, &plan, GlobalReadings { plot: n(11.0), ..g }, readings(76.0, false, None));
    assert_eq!(second.con, p(75.0, 76.0));
    assert_eq!(second.plot, p(10.0, 11.0));
    let s = Settings::default();
    assert_eq!(chapter_split(1, false, "PLACE_CONTACT", "PLACE_CONTACT", &s, &second), "ch1_contact");
    let elsewhere = plan_reads(EngineVersion::GM_LTS2022_0_3_104, 1, "room_x", "room_y", n(0.0));
    let third = st.observe(1, &elsewhere, g, readings(99.0, false, None));
    assert_eq!(third.con, p(76.0, 0.0));
    let ch3 = plan_reads(EngineVersion::GM_LTS2022_0_3_104, 3, "room_x", "room_shadowmantle", n(0.0));
    let t3 = st.observe(3, &ch3, g, readings(5.0, true, Some(1)));
    assert_eq!(t3.inst_exists, b(true, true));
    assert_eq!(t3.con, p(76.0, 0.0));
    let t4 = st.observe(3, &ch3, g, readings(5.0, true, Some(2)));
    assert_eq!(t4.inst_exists, b(true, false));
}

#[test]
fn autostart_rules() {
    let mut st = RuleState::new();
    let s = settings(true, false, Ch5StartOnPrev::No);
    let r = st.autostart(1, "PLACE_MENU", "PLACE_CONTACT", &s, n(0.0));
    assert!(r.start);
    assert!(r.namer.is_none());
    assert!(!st.autostart(1, "PLACE_CONTACT", "PLACE_CONTACT", &s, n(0.0)).start);
    assert!(!st.autostart(0, "PLACE_MENU", "PLACE_CONTACT", &s, n(75.0)).start);
    let r = st.autostart(2, "PLACE_MENU", "PLACE_MENU", &s, n(74.0));
    assert!(!r.start);
    assert_eq!(r.namer, Some(p(74.0, 74.0)));
    let r = st.autostart(2, "PLACE_MENU", "room_krisroom", &s, n(75.0));
    assert!(r.start);
    assert_eq!(r.namer, Some(p(74.0, 75.0)));
    let r = st.autostart(2, "PLACE_MENU", "room_krisroom", &s, n(75.0));
    assert!(!r.start);
    let r = st.autostart(3, "room_x", "room_y", &s, n(1.0));
    assert!(r.namer.is_none() && !r.start);

    let mut ch5 = RuleState::new();
    ch5.autostart(5, "PLACE_CONTACT", "PLACE_MENU", &s, n(74.0));
    assert!(ch5.autostart(5, "PLACE_CONTACT", "PLACE_MENU", &s, n(75.0)).start);
    let only = settings(true, false, Ch5StartOnPrev::Exclusively);
    let mut ch5b = RuleState::new();
    ch5b.autostart(5, "PLACE_CONTACT", "PLACE_MENU", &only, n(74.0));
    assert!(!ch5b.autostart(5, "PLACE_CONTACT", "PLACE_MENU", &only, n(75.0)).start);
    let mut ch5c = RuleState::new();
    ch5c.autostart(5, "PLACE_MENU", "PLACE_MENU", &s, n(74.0));
    assert!(ch5c.autostart(5, "PLACE_MENU", "room_krisroom", &s, n(75.0)).start);
}

#[test]
fn chapter_5_start_on_completion_data() {
    let no = settings(true, false, Ch5StartOnPrev::No);
    let yes = settings(true, false, Ch5StartOnPrev::Yes);
    let only = settings(true, false, Ch5StartOnPrev::Exclusively);

    let mut a = RuleState::new();
    assert!(!a.autostart(5, "PLACE_MENU", "room_krisroom", &no, n(0.0)).start);
    let mut b = RuleState::new();
    assert!(b.autostart(5, "PLACE_MENU", "room_krisroom", &yes, n(0.0)).start);
    let mut c = RuleState::new();
    assert!(c.autostart(5, "PLACE_MENU", "room_krisroom", &only, n(0.0)).start);
    assert!(!c.autostart(5, "PLACE_MENU", "room_town_north", &only, n(0.0)).start);

    let mut d = RuleState::new();
    d.autostart(5, "PLACE_MENU", "PLACE_MENU", &only, n(74.0));
    assert!(!d.autostart(5, "PLACE_MENU", "PLACE_MENU", &only, n(75.0)).start);
    let mut e = RuleState::new();
    e.autostart(5, "PLACE_MENU", "PLACE_MENU", &yes, n(74.0));
    assert!(e.autostart(5, "PLACE_MENU", "PLACE_MENU", &yes, n(75.0)).start);
    let mut f = RuleState::new();
    f.autostart(5, "PLACE_MENU", "PLACE_MENU", &yes, n(75.0));
    assert!(!f.autostart(5, "PLACE_MENU", "room_krisroom", &yes, n(75.0)).start);
}

#[test]
fn naming_event_reads() {
    assert!(reads_namer(5, "PLACE_CONTACT"));
    assert!(!reads_namer(4, "PLACE_CONTACT"));
    assert!(reads_namer(2, "PLACE_MENU"));
    assert!(reads_namer(5, "PLACE_MENU"));
    assert!(reads_namer(-1, "PLACE_MENU"));
    assert!(!reads_namer(1, "PLACE_MENU"));
    assert!(!reads_namer(0, "PLACE_MENU"));
    assert!(!reads_namer(3, "room_krisroom"));
}
