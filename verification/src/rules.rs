//! The split rules of each chapter. On every tick the host reads the values named by
//! `plan_reads`, `RuleState::observe` turns them into pairs of previous and current
//! readings, and `chapter_split` names the split that the tick triggers (the empty
//! name when there is none). Room names arrive with their `_ch1` suffix trimmed.

use vstd::prelude::*;
use crate::num::{GameNum, eqc, gec, lec, ltc, R_0, R_1, R_2, R_3, R_4, R_7, R_18, R_21, R_32, R_60, R_74, R_75, R_76, R_108, R_110, R_120, R_140, R_150, R_156, R_560, R_601, R_1173, R_MINUS_1};
use crate::settings::{Ch5StartOnPrev, Settings};
use crate::text::{with_suffix, ends_with, spec_ends_with, str_eq};
use crate::versions::EngineVersion;
use crate::watch::{Pair, Watcher, next_pair};
use vstd::string::StringSliceAdditionalSpecFns;

verus! {

/// The name that stands for "no split".
pub open spec fn no_split() -> Seq<char> {
    ""@
}

/// The name paired with the first row whose previous and current rooms are `prev`
/// and `cur`; `no_split()` when no row matches.
pub open spec fn spec_transition(
    prevs: Seq<Seq<char>>,
    curs: Seq<Seq<char>>,
    names: Seq<Seq<char>>,
    prev: Seq<char>,
    cur: Seq<char>,
) -> Seq<char>
    decreases prevs.len(),
{
    if prevs.len() == 0 || curs.len() == 0 || names.len() == 0 {
        no_split()
    } else if prevs[0] == prev && curs[0] == cur {
        names[0]
    } else {
        spec_transition(prevs.drop_first(), curs.drop_first(), names.drop_first(), prev, cur)
    }
}

pub proof fn lemma_transition_first(
    prevs: Seq<Seq<char>>,
    curs: Seq<Seq<char>>,
    names: Seq<Seq<char>>,
    prev: Seq<char>,
    cur: Seq<char>,
    i: int,
)
    requires
        prevs.len() == curs.len() == names.len(),
        0 <= i < prevs.len(),
        prevs[i] == prev && curs[i] == cur,
        forall|j: int| 0 <= j < i ==> !(#[trigger] prevs[j] == prev && curs[j] == cur),
    ensures
        spec_transition(prevs, curs, names, prev, cur) == names[i],
    decreases i,
{
    if i > 0 {
        let p2 = prevs.drop_first();
        let c2 = curs.drop_first();
        assert forall|j: int| 0 <= j < i - 1 implies !(#[trigger] p2[j] == prev && c2[j] == cur) by {
            assert(p2[j] == prevs[j + 1] && c2[j] == curs[j + 1]);
        }
        lemma_transition_first(p2, c2, names.drop_first(), prev, cur, i - 1);
        assert(!(prevs[0] == prev && curs[0] == cur));
    }
}

proof fn lemma_transition_none(
    prevs: Seq<Seq<char>>,
    curs: Seq<Seq<char>>,
    names: Seq<Seq<char>>,
    prev: Seq<char>,
    cur: Seq<char>,
)
    requires
        prevs.len() == curs.len() == names.len(),
        forall|j: int| 0 <= j < prevs.len() ==> !(#[trigger] prevs[j] == prev && curs[j] == cur),
    ensures
        spec_transition(prevs, curs, names, prev, cur) == no_split(),
    decreases prevs.len(),
{
    if prevs.len() > 0 {
        let p2 = prevs.drop_first();
        let c2 = curs.drop_first();
        assert forall|j: int| 0 <= j < p2.len() implies !(#[trigger] p2[j] == prev && c2[j] == cur) by {
            assert(p2[j] == prevs[j + 1] && c2[j] == curs[j + 1]);
        }
        assert(!(prevs[0] == prev && curs[0] == cur));
        lemma_transition_none(p2, c2, names.drop_first(), prev, cur);
    }
}

/// The views of a list of names.
pub open spec fn views(s: Seq<&str>) -> Seq<Seq<char>> {
    s.map_values(|x: &str| x@)
}

fn transition(
    prevs: &[&'static str],
    curs: &[&'static str],
    names: &[&'static str],
    prev: &str,
    cur: &str,
) -> (r: &'static str)
    requires
        prevs@.len() == curs@.len() == names@.len(),
    ensures
        r@ == spec_transition(views(prevs@), views(curs@), views(names@), prev@, cur@),
{
    let ghost ps = views(prevs@);
    let ghost cs = views(curs@);
    let ghost ns = views(names@);
    let mut i: usize = 0;
    while i < prevs.len()
        invariant
            i <= prevs@.len(),
            prevs@.len() == curs@.len() == names@.len(),
            ps == views(prevs@),
            cs == views(curs@),
            ns == views(names@),
            forall|j: int| 0 <= j < i ==> !(#[trigger] ps[j] == prev@ && cs[j] == cur@),
        decreases prevs@.len() - i,
    {
        if str_eq(prevs[i], prev) && str_eq(curs[i], cur) {
            proof {
                lemma_transition_first(ps, cs, ns, prev@, cur@, i as int);
            }
            return names[i];
        }
        i = i + 1;
    }
    proof {
        lemma_transition_none(ps, cs, ns, prev@, cur@);
    }
    ""
}

/// Column prevs of the chapter 1 room-change table.
pub open spec fn ch1_prevs() -> Seq<Seq<char>> {
    seq![
        "room_krisroom"@,
        "room_insidecloset"@,
        "room_dark7"@,
        "room_castle_darkdoor"@,
        "room_field4"@,
        "room_field_checkersboss"@,
        "room_forest_area3"@,
        "room_forest_savepoint_relax"@,
        "room_forest_fightsusie"@,
        "room_forest_castlefront"@,
        "room_cc_prison_to_elevator"@,
        "room_forest_fightsusie"@,
        "room_field3"@,
        "room_forest_savepoint2"@,
        "room_cc_prison_prejoker"@,
        "room_cc_joker"@,
        "room_cc_6f"@,
        "room_cc_throneroom"@,
        "room_cc_preroof"@,
        "room_cc_kingbattle"@,
        "room_cc_prefountain"@,
        "room_cc_fountain"@,
    ]
}

/// Column curs of the chapter 1 room-change table.
pub open spec fn ch1_curs() -> Seq<Seq<char>> {
    seq![
        "room_dark1"@,
        "room_dark1"@,
        "room_dark_chase1"@,
        "room_field_start"@,
        "room_field_checkers4"@,
        "room_forest_savepoint1"@,
        "room_forest_savepoint2"@,
        "room_forest_maze1"@,
        "room_forest_afterthrash2"@,
        "room_cc_prison_cells"@,
        "room_cc_prisonelevator"@,
        "room_field3"@,
        "room_forest_savepoint2"@,
        "room_forest_fightsusie"@,
        "room_cc_joker"@,
        "room_cc_prison_prejoker"@,
        "room_cc_throneroom"@,
        "room_cc_preroof"@,
        "room_cc_kingbattle"@,
        "room_cc_prefountain"@,
        "room_cc_fountain"@,
        "room_school_unusedroom"@,
    ]
}

/// Column names of the chapter 1 room-change table.
pub open spec fn ch1_names() -> Seq<Seq<char>> {
    seq![
        "ch1_bedskip"@,
        "ch1_school"@,
        "ch1_cliffs"@,
        "ch1_castle_town_room"@,
        "ch1_field"@,
        "ch1_board"@,
        "ch1_enter_bake_sale"@,
        "ch1_enter_forest_maze"@,
        "ch1_susie_lancer_exit"@,
        "ch1_get_captured"@,
        "ch1_enter_elevator"@,
        "ch1_cf_warp"@,
        "ch1_fb_warp"@,
        "ch1_bc_warp"@,
        "ch1_enter_jevil"@,
        "ch1_exit_jevil"@,
        "ch1_exit_kround2"@,
        "ch1_exit_throne_room"@,
        "ch1_exit_preking"@,
        "ch1_post_king"@,
        "ch1_enter_fountain"@,
        "ch1_seal_fountain"@,
    ]
}

fn ch1_table() -> (r: ([&'static str; 22], [&'static str; 22], [&'static str; 22]))
    ensures
        views(r.0@) == ch1_prevs(),
        views(r.1@) == ch1_curs(),
        views(r.2@) == ch1_names(),
{

    let p: [&'static str; 22] = [
        "room_krisroom",
        "room_insidecloset",
        "room_dark7",
        "room_castle_darkdoor",
        "room_field4",
        "room_field_checkersboss",
        "room_forest_area3",
        "room_forest_savepoint_relax",
        "room_forest_fightsusie",
        "room_forest_castlefront",
        "room_cc_prison_to_elevator",
        "room_forest_fightsusie",
        "room_field3",
        "room_forest_savepoint2",
        "room_cc_prison_prejoker",
        "room_cc_joker",
        "room_cc_6f",
        "room_cc_throneroom",
        "room_cc_preroof",
        "room_cc_kingbattle",
        "room_cc_prefountain",
        "room_cc_fountain",
    ];

    let c: [&'static str; 22] = [
        "room_dark1",
        "room_dark1",
        "room_dark_chase1",
        "room_field_start",
        "room_field_checkers4",
        "room_forest_savepoint1",
        "room_forest_savepoint2",
        "room_forest_maze1",
        "room_forest_afterthrash2",
        "room_cc_prison_cells",
        "room_cc_prisonelevator",
        "room_field3",
        "room_forest_savepoint2",
        "room_forest_fightsusie",
        "room_cc_joker",
        "room_cc_prison_prejoker",
        "room_cc_throneroom",
        "room_cc_preroof",
        "room_cc_kingbattle",
        "room_cc_prefountain",
        "room_cc_fountain",
        "room_school_unusedroom",
    ];

    let n: [&'static str; 22] = [
        "ch1_bedskip",
        "ch1_school",
        "ch1_cliffs",
        "ch1_castle_town_room",
        "ch1_field",
        "ch1_board",
        "ch1_enter_bake_sale",
        "ch1_enter_forest_maze",
        "ch1_susie_lancer_exit",
        "ch1_get_captured",
        "ch1_enter_elevator",
        "ch1_cf_warp",
        "ch1_fb_warp",
        "ch1_bc_warp",
        "ch1_enter_jevil",
        "ch1_exit_jevil",
        "ch1_exit_kround2",
        "ch1_exit_throne_room",
        "ch1_exit_preking",
        "ch1_post_king",
        "ch1_enter_fountain",
        "ch1_seal_fountain",
    ];

    assert(views(p@) =~= ch1_prevs());
    assert(views(c@) =~= ch1_curs());
    assert(views(n@) =~= ch1_names());
    (p, c, n)
}

/// Column prevs of the chapter 2 room-change table.
pub open spec fn ch2_prevs() -> Seq<Seq<char>> {
    seq![
        "room_krisroom"@,
        "room_library"@,
        "room_dw_cyber_queen_boxing"@,
        "room_dw_cyber_musical_door"@,
        "room_dw_cyber_teacup_final"@,
        "room_dw_city_intro"@,
        "room_dw_city_intro"@,
        "room_dw_mansion_entrance"@,
        "room_dw_mansion_entrance"@,
        "room_dw_city_mice2"@,
        "room_dw_city_berdly"@,
        "room_dw_city_berdly"@,
        "room_dw_city_spamton_alley"@,
        "room_dw_city_mansion_front"@,
        "room_dw_mansion_dining_a"@,
        "room_dw_mansion_entrance"@,
        "room_dw_mansion_tasquePaintings"@,
        "room_dw_mansion_kitchen"@,
        "room_dw_mansion_b_east"@,
        "room_dw_mansion_east_3f"@,
        "room_dw_mansion_acid_tunnel_loop_rouxls"@,
        "room_dw_mansion_east_4f_d"@,
        "room_dw_mansion_top"@,
        "room_dw_mansion_top_post"@,
        "room_dw_mansion_prefountain"@,
        "room_cc_fountain"@,
        "room_dw_mansion_fountain"@,
        "room_torhouse"@,
    ]
}

/// Column curs of the chapter 2 room-change table.
pub open spec fn ch2_curs() -> Seq<Seq<char>> {
    seq![
        "room_dw_cyber_intro_1"@,
        "room_dw_cyber_intro_1"@,
        "room_dw_cyber_musical_door"@,
        "room_dw_cyber_musical_shop"@,
        "room_dw_cyber_rollercoaster"@,
        "room_dw_cyber_musical_door"@,
        "room_dw_mansion_entrance"@,
        "room_dw_city_intro"@,
        "room_dw_cyber_musical_door"@,
        "room_dw_city_cheesemaze"@,
        "room_dw_city_poppup"@,
        "room_dw_city_traffic_4"@,
        "room_dw_city_traffic_4"@,
        "room_dw_mansion_krisroom"@,
        "room_dw_mansion_entrance"@,
        "room_dw_mansion_fire_paintings"@,
        "room_dw_mansion_traffic"@,
        "room_dw_mansion_east_2f_transformed_new"@,
        "room_dw_mansion_b_east_a"@,
        "room_dw_mansion_acid_tunnel"@,
        "room_dw_mansion_acid_tunnel_exit"@,
        "room_dw_mansion_top"@,
        "room_dw_mansion_top_post"@,
        "room_cc_fountain"@,
        "room_dw_mansion_fountain"@,
        "room_lw_computer_lab"@,
        "room_lw_computer_lab"@,
        "room_ed"@,
    ]
}

/// Column names of the chapter 2 room-change table.
pub open spec fn ch2_names() -> Seq<Seq<char>> {
    seq![
        "ch2_bedskip"@,
        "ch2_library"@,
        "ch2_arcade_room"@,
        "ch2_dj_shop"@,
        "ch2_ragger2_room"@,
        "ch2_tz_cf_warp"@,
        "ch2_tz_m_warp"@,
        "ch2_m_tz_warp"@,
        "ch2_m_cf_warp"@,
        "ch2_maus_2"@,
        "ch2_sideb_berdly2"@,
        "ch2_berdly2_mr"@,
        "ch2_spamton_room"@,
        "ch2_cyber_city"@,
        "ch2_mansion_escape"@,
        "ch2_start_pandora"@,
        "ch2_tasque_manager_room"@,
        "ch2_mauswheel"@,
        "ch2_exit_neo"@,
        "ch2_enter_acid"@,
        "ch2_exit_acid"@,
        "ch2_queen_room"@,
        "ch2_giga_queen"@,
        "ch2_enter_fountain"@,
        "ch2_enter_fountain"@,
        "ch2_seal_fountain"@,
        "ch2_seal_fountain"@,
        "ch2_ending_ost"@,
    ]
}

fn ch2_table() -> (r: ([&'static str; 28], [&'static str; 28], [&'static str; 28]))
    ensures
        views(r.0@) == ch2_prevs(),
        views(r.1@) == ch2_curs(),
        views(r.2@) == ch2_names(),
{

    let p: [&'static str; 28] = [
        "room_krisroom",
        "room_library",
        "room_dw_cyber_queen_boxing",
        "room_dw_cyber_musical_door",
        "room_dw_cyber_teacup_final",
        "room_dw_city_intro",
        "room_dw_city_intro",
        "room_dw_mansion_entrance",
        "room_dw_mansion_entrance",
        "room_dw_city_mice2",
        "room_dw_city_berdly",
        "room_dw_city_berdly",
        "room_dw_city_spamton_alley",
        "room_dw_city_mansion_front",
        "room_dw_mansion_dining_a",
        "room_dw_mansion_entrance",
        "room_dw_mansion_tasquePaintings",
        "room_dw_mansion_kitchen",
        "room_dw_mansion_b_east",
        "room_dw_mansion_east_3f",
        "room_dw_mansion_acid_tunnel_loop_rouxls",
        "room_dw_mansion_east_4f_d",
        "room_dw_mansion_top",
        "room_dw_mansion_top_post",
        "room_dw_mansion_prefountain",
        "room_cc_fountain",
        "room_dw_mansion_fountain",
        "room_torhouse",
    ];

    let c: [&'static str; 28] = [
        "room_dw_cyber_intro_1",
        "room_dw_cyber_intro_1",
        "room_dw_cyber_musical_door",
        "room_dw_cyber_musical_shop",
        "room_dw_cyber_rollercoaster",
        "room_dw_cyber_musical_door",
        "room_dw_mansion_entrance",
        "room_dw_city_intro",
        "room_dw_cyber_musical_door",
        "room_dw_city_cheesemaze",
        "room_dw_city_poppup",
        "room_dw_city_traffic_4",
        "room_dw_city_traffic_4",
        "room_dw_mansion_krisroom",
        "room_dw_mansion_entrance",
        "room_dw_mansion_fire_paintings",
        "room_dw_mansion_traffic",
        "room_dw_mansion_east_2f_transformed_new",
        "room_dw_mansion_b_east_a",
        "room_dw_mansion_acid_tunnel",
        "room_dw_mansion_acid_tunnel_exit",
        "room_dw_mansion_top",
        "room_dw_mansion_top_post",
        "room_cc_fountain",
        "room_dw_mansion_fountain",
        "room_lw_computer_lab",
        "room_lw_computer_lab",
        "room_ed",
    ];

    let n: [&'static str; 28] = [
        "ch2_bedskip",
        "ch2_library",
        "ch2_arcade_room",
        "ch2_dj_shop",
        "ch2_ragger2_room",
        "ch2_tz_cf_warp",
        "ch2_tz_m_warp",
        "ch2_m_tz_warp",
        "ch2_m_cf_warp",
        "ch2_maus_2",
        "ch2_sideb_berdly2",
        "ch2_berdly2_mr",
        "ch2_spamton_room",
        "ch2_cyber_city",
        "ch2_mansion_escape",
        "ch2_start_pandora",
        "ch2_tasque_manager_room",
        "ch2_mauswheel",
        "ch2_exit_neo",
        "ch2_enter_acid",
        "ch2_exit_acid",
        "ch2_queen_room",
        "ch2_giga_queen",
        "ch2_enter_fountain",
        "ch2_enter_fountain",
        "ch2_seal_fountain",
        "ch2_seal_fountain",
        "ch2_ending_ost",
    ];

    assert(views(p@) =~= ch2_prevs());
    assert(views(c@) =~= ch2_curs());
    assert(views(n@) =~= ch2_names());
    (p, c, n)
}

/// Column prevs of the chapter 3 room-change table.
pub open spec fn ch3_prevs() -> Seq<Seq<char>> {
    seq![
        "room_dw_couch_overworld_intro"@,
        "room_gameshowroom"@,
        "room_board_1"@,
        "room_board_2"@,
        "room_gameshowroom"@,
        "room_dw_backstage"@,
        "room_dw_b3bs_jail2"@,
        "room_dw_teevie_stealth_d"@,
        "room_dw_teevie_chef"@,
        "room_dw_snow_zone_battle"@,
        "room_dw_snow_zone"@,
        "room_board_1_sword_trees"@,
        "room_board_dungeon_2"@,
        "room_board_preshadowmantle"@,
        "room_board_postshadowmantle"@,
        "room_town_shelter"@,
    ]
}

/// Column curs of the chapter 3 room-change table.
pub open spec fn ch3_curs() -> Seq<Seq<char>> {
    seq![
        "room_board_gsa02_b0"@,
        "room_board_gsa02_b0"@,
        "room_dw_chef"@,
        "room_dw_rhythm"@,
        "room_dw_backstage"@,
        "room_dw_teevie_intro"@,
        "room_dw_teevie_cowboy_zone_02_intro"@,
        "room_dw_teevie_chef"@,
        "room_dw_teevie_dust"@,
        "room_dw_snow_zone"@,
        "room_gameover"@,
        "room_dw_console_room"@,
        "room_dw_console_room"@,
        "room_shadowmantle"@,
        "room_dw_console_room"@,
        "room_ed"@,
    ]
}

/// Column names of the chapter 3 room-change table.
pub open spec fn ch3_names() -> Seq<Seq<char>> {
    seq![
        "ch3_enter_round1"@,
        "ch3_enter_round1"@,
        "ch3_enter_cooking"@,
        "ch3_enter_rhythm"@,
        "ch3_escape_doom_board"@,
        "ch3_enter_tv_world"@,
        "ch3_2nd_shootout_room"@,
        "ch3_enter_rouxls"@,
        "ch3_exit_rouxls"@,
        "ch3_escape_doom_board"@,
        "ch3_knight_death"@,
        "ch3_ice_key"@,
        "ch3_shelter_key"@,
        "ch3_enter_mantle"@,
        "ch3_exit_mantle"@,
        "ch3_ending_ost"@,
    ]
}

fn ch3_table() -> (r: ([&'static str; 16], [&'static str; 16], [&'static str; 16]))
    ensures
        views(r.0@) == ch3_prevs(),
        views(r.1@) == ch3_curs(),
        views(r.2@) == ch3_names(),
{

    let p: [&'static str; 16] = [
        "room_dw_couch_overworld_intro",
        "room_gameshowroom",
        "room_board_1",
        "room_board_2",
        "room_gameshowroom",
        "room_dw_backstage",
        "room_dw_b3bs_jail2",
        "room_dw_teevie_stealth_d",
        "room_dw_teevie_chef",
        "room_dw_snow_zone_battle",
        "room_dw_snow_zone",
        "room_board_1_sword_trees",
        "room_board_dungeon_2",
        "room_board_preshadowmantle",
        "room_board_postshadowmantle",
        "room_town_shelter",
    ];

    let c: [&'static str; 16] = [
        "room_board_gsa02_b0",
        "room_board_gsa02_b0",
        "room_dw_chef",
        "room_dw_rhythm",
        "room_dw_backstage",
        "room_dw_teevie_intro",
        "room_dw_teevie_cowboy_zone_02_intro",
        "room_dw_teevie_chef",
        "room_dw_teevie_dust",
        "room_dw_snow_zone",
        "room_gameover",
        "room_dw_console_room",
        "room_dw_console_room",
        "room_shadowmantle",
        "room_dw_console_room",
        "room_ed",
    ];

    let n: [&'static str; 16] = [
        "ch3_enter_round1",
        "ch3_enter_round1",
        "ch3_enter_cooking",
        "ch3_enter_rhythm",
        "ch3_escape_doom_board",
        "ch3_enter_tv_world",
        "ch3_2nd_shootout_room",
        "ch3_enter_rouxls",
        "ch3_exit_rouxls",
        "ch3_escape_doom_board",
        "ch3_knight_death",
        "ch3_ice_key",
        "ch3_shelter_key",
        "ch3_enter_mantle",
        "ch3_exit_mantle",
        "ch3_ending_ost",
    ];

    assert(views(p@) =~= ch3_prevs());
    assert(views(c@) =~= ch3_curs());
    assert(views(n@) =~= ch3_names());
    (p, c, n)
}

/// Column prevs of the chapter 4 room-change table.
pub open spec fn ch4_prevs() -> Seq<Seq<char>> {
    seq![
        "room_schooldoor"@,
        "room_dw_church_knightclimb_post"@,
        "room_town_noellehouse"@,
        "room_torhouse"@,
        "room_town_church"@,
        "room_dw_church_darkmaze"@,
        "room_dw_church_secretpiano"@,
        "room_dw_church_gersonstudy"@,
        "room_dw_church_arena"@,
        "room_dw_church_gersonstudy"@,
        "room_dw_church_gersonstudy"@,
        "room_dw_church_holywatercooler"@,
        "room_dw_churchc_pretitan"@,
        "room_dw_churchc_titanclimb1"@,
        "room_dw_churchc_titanclimb1_post"@,
        "room_dw_churchc_titanclimb2"@,
        "room_dw_churchc_titanclimb2_post"@,
        "room_dw_churchc_insidetitan"@,
        "room_cc_fountain"@,
        "room_torhouse"@,
        "room_town_krisyard_dark"@,
    ]
}

/// Column curs of the chapter 4 room-change table.
pub open spec fn ch4_curs() -> Seq<Seq<char>> {
    seq![
        "room_dw_castle_area_1"@,
        "room_dw_castle_area_1"@,
        "room_lw_noellehouse_main"@,
        "room_dw_church_intro1"@,
        "room_dw_church_intro1"@,
        "room_dw_church_gersonstudy"@,
        "room_dw_church_gersonstudy"@,
        "room_dw_church_arena"@,
        "room_dw_church_gersonstudy"@,
        "room_dw_church_trueclimbadventure"@,
        "room_dw_church_rightconnect"@,
        "roohurch_entrance"@,
        "room_dw_churchc_titanclimb1"@,
        "room_dw_churchc_titanclimb1_post"@,
        "room_dw_churchc_titanclimb2"@,
        "room_dw_churchc_titanclimb2_post"@,
        "room_dw_churchc_insidetitan"@,
        "room_dw_churchc_titandefeated"@,
        "room_lw_church_main"@,
        "room_krisroom_dark"@,
        "room_ed"@,
    ]
}

/// Column names of the chapter 4 room-change table.
pub open spec fn ch4_names() -> Seq<Seq<char>> {
    seq![
        "ch4_enter_castle_town"@,
        "ch4_enter_castle_town"@,
        "ch4_enter_mansion"@,
        "ch4_chairskip"@,
        "ch4_enter_sanctuary"@,
        "ch4_enter_study"@,
        "ch4_golden_piano"@,
        "ch4_enter_hoj"@,
        "ch4_exit_axe_room"@,
        "ch4_grand_piano"@,
        "ch4_grand_piano"@,
        "ch4_second_sanctuary"@,
        "ch4_start_titan_climb1"@,
        "ch4_end_titan_climb1"@,
        "ch4_start_titan_climb2"@,
        "ch4_end_titan_climb2"@,
        "ch4_end_titan_fight"@,
        "ch4_seal_titan"@,
        "ch4_third_sanctuary"@,
        "ch4_ending"@,
        "ch4_ending_ost"@,
    ]
}

fn ch4_table() -> (r: ([&'static str; 21], [&'static str; 21], [&'static str; 21]))
    ensures
        views(r.0@) == ch4_prevs(),
        views(r.1@) == ch4_curs(),
        views(r.2@) == ch4_names(),
{

    let p: [&'static str; 21] = [
        "room_schooldoor",
        "room_dw_church_knightclimb_post",
        "room_town_noellehouse",
        "room_torhouse",
        "room_town_church",
        "room_dw_church_darkmaze",
        "room_dw_church_secretpiano",
        "room_dw_church_gersonstudy",
        "room_dw_church_arena",
        "room_dw_church_gersonstudy",
        "room_dw_church_gersonstudy",
        "room_dw_church_holywatercooler",
        "room_dw_churchc_pretitan",
        "room_dw_churchc_titanclimb1",
        "room_dw_churchc_titanclimb1_post",
        "room_dw_churchc_titanclimb2",
        "room_dw_churchc_titanclimb2_post",
        "room_dw_churchc_insidetitan",
        "room_cc_fountain",
        "room_torhouse",
        "room_town_krisyard_dark",
    ];

    let c: [&'static str; 21] = [
        "room_dw_castle_area_1",
        "room_dw_castle_area_1",
        "room_lw_noellehouse_main",
        "room_dw_church_intro1",
        "room_dw_church_intro1",
        "room_dw_church_gersonstudy",
        "room_dw_church_gersonstudy",
        "room_dw_church_arena",
        "room_dw_church_gersonstudy",
        "room_dw_church_trueclimbadventure",
        "room_dw_church_rightconnect",
        "roohurch_entrance",
        "room_dw_churchc_titanclimb1",
        "room_dw_churchc_titanclimb1_post",
        "room_dw_churchc_titanclimb2",
        "room_dw_churchc_titanclimb2_post",
        "room_dw_churchc_insidetitan",
        "room_dw_churchc_titandefeated",
        "room_lw_church_main",
        "room_krisroom_dark",
        "room_ed",
    ];

    let n: [&'static str; 21] = [
        "ch4_enter_castle_town",
        "ch4_enter_castle_town",
        "ch4_enter_mansion",
        "ch4_chairskip",
        "ch4_enter_sanctuary",
        "ch4_enter_study",
        "ch4_golden_piano",
        "ch4_enter_hoj",
        "ch4_exit_axe_room",
        "ch4_grand_piano",
        "ch4_grand_piano",
        "ch4_second_sanctuary",
        "ch4_start_titan_climb1",
        "ch4_end_titan_climb1",
        "ch4_start_titan_climb2",
        "ch4_end_titan_climb2",
        "ch4_end_titan_fight",
        "ch4_seal_titan",
        "ch4_third_sanctuary",
        "ch4_ending",
        "ch4_ending_ost",
    ];

    assert(views(p@) =~= ch4_prevs());
    assert(views(c@) =~= ch4_curs());
    assert(views(n@) =~= ch4_names());
    (p, c, n)
}

/// Column prevs of the chapter 5 room-change table.
pub open spec fn ch5_prevs() -> Seq<Seq<char>> {
    seq![
        "room_schooldoor"@,
        "room_krisroom"@,
        "room_town_north"@,
        "room_dw_garden_firstdash"@,
        "room_dw_garden_diner"@,
        "room_dw_garden_hardpressureplates"@,
        "room_dw_garden_wateringcan_aqua"@,
        "room_dw_garden_aqua"@,
        "room_dw_garden_aquashrine"@,
        "room_dw_garden_aquashrine"@,
        "room_dw_garden_finalplatforming"@,
        "room_dw_garden_cliffexit"@,
        "room_dw_cliff_seth_miniboss"@,
        "room_dw_cliff_shop"@,
        "room_dw_cliff_verticalwind_post"@,
        "room_dw_cliff_sethaqua_battle"@,
        "room_dw_fcastle_entrance"@,
        "room_town_north"@,
        "room_dw_fcastle_foyer"@,
        "room_dw_fcastle_onsen"@,
        "room_dw_fcastle_foyer"@,
        "room_dw_fcastle_right_endingscene"@,
        "room_dw_fcastle_foyer"@,
        "room_dw_fcastle_top_pinkdoor"@,
        "room_dw_fcastle_pinkroom"@,
        "room_dw_pink_encounter"@,
        "room_dw_fcastle_top_staircase_2"@,
        "room_dw_fcastle_green_checkpoint"@,
        "room_dw_fcastle_orange_gauntlet"@,
        "room_dw_fcastle_final_save"@,
        "room_dw_fcastle_flowery"@,
        "room_dw_fcastle_flowerclimb"@,
        "room_dw_fcastle_flowerydash"@,
        "room_dw_fcastle_top_fountain"@,
        "room_cc_fountain"@,
        "room_schooldoor"@,
    ]
}

/// Column curs of the chapter 5 room-change table.
pub open spec fn ch5_curs() -> Seq<Seq<char>> {
    seq![
        "room_dw_castle_area_1"@,
        "room_dw_garden_intro"@,
        "room_dw_garden_intro"@,
        "room_dw_garden_diner"@,
        "room_dw_garden_newdash"@,
        "room_dw_garden_aquatransition"@,
        "room_dw_garden_aqua"@,
        "room_dw_garden_aquadarkness"@,
        "room_dw_garden_aquahole"@,
        "room_dw_garden_aquaplatforming"@,
        "room_dw_garden_cliffexit"@,
        "room_dw_cliff_gardentransition_new"@,
        "room_dw_cliff_shop"@,
        "room_dw_cliff_kawkawdash"@,
        "room_dw_cliff_sethaqua_battle"@,
        "room_dw_fcastle_entrance"@,
        "room_town_north"@,
        "room_dw_fcastle_partyjail"@,
        "room_dw_fcastle_shinobeetle_encounter"@,
        "room_dw_fcastle_foyer"@,
        "room_dw_fcastle_cafe"@,
        "room_dw_fcastle_foyer"@,
        "room_dw_fcastle_asgore"@,
        "room_dw_fcastle_pinkroom"@,
        "room_dw_pink_encounter"@,
        "room_dw_fcastle_pinkroom"@,
        "room_dw_fcastle_green_checkpoint"@,
        "room_dw_fcastle_top_ascent"@,
        "room_dw_fcastle_final_save"@,
        "room_dw_fcastle_flowery"@,
        "room_dw_fcastle_flowerclimb"@,
        "room_dw_fcastle_flowerydash"@,
        "room_dw_post_flowery_battle"@,
        "room_dw_post_fountain_close"@,
        "room_flowershop_2f"@,
        "room_ed"@,
    ]
}

/// Column names of the chapter 5 room-change table.
pub open spec fn ch5_names() -> Seq<Seq<char>> {
    seq![
        "ch5_enter_castle_town"@,
        "ch5_bedskip"@,
        "ch5_enter_dw"@,
        "ch5_enter_diner"@,
        "ch5_exit_diner"@,
        "ch5_dark_garden"@,
        "ch5_enter_aqua"@,
        "ch5_exit_aqua"@,
        "ch5_exit_feather"@,
        "ch5_exit_feather"@,
        "ch5_enter_cliff1"@,
        "ch5_enter_cliff2"@,
        "ch5_enter_shop_room"@,
        "ch5_exit_shop_room"@,
        "ch5_enter_seth_aqua"@,
        "ch5_exit_seth_aqua"@,
        "ch5_exit_dw"@,
        "ch5_reenter_dw"@,
        "ch5_enter_left"@,
        "ch5_exit_left"@,
        "ch5_enter_right"@,
        "ch5_exit_right"@,
        "ch5_beanstalk"@,
        "ch5_pink_door"@,
        "ch5_pink_start"@,
        "ch5_pink_exit"@,
        "ch5_enter_ultimate_shop"@,
        "ch5_exit_ultimate_shop"@,
        "ch5_enter_final_save"@,
        "ch5_exit_final_save"@,
        "ch5_end_flowery"@,
        "ch5_end_final_climb"@,
        "ch5_omega_flowery"@,
        "ch5_fountain1"@,
        "ch5_fountain2"@,
        "ch5_ending_src"@,
    ]
}

fn ch5_table() -> (r: ([&'static str; 36], [&'static str; 36], [&'static str; 36]))
    ensures
        views(r.0@) == ch5_prevs(),
        views(r.1@) == ch5_curs(),
        views(r.2@) == ch5_names(),
{

    let p: [&'static str; 36] = [
        "room_schooldoor",
        "room_krisroom",
        "room_town_north",
        "room_dw_garden_firstdash",
        "room_dw_garden_diner",
        "room_dw_garden_hardpressureplates",
        "room_dw_garden_wateringcan_aqua",
        "room_dw_garden_aqua",
        "room_dw_garden_aquashrine",
        "room_dw_garden_aquashrine",
        "room_dw_garden_finalplatforming",
        "room_dw_garden_cliffexit",
        "room_dw_cliff_seth_miniboss",
        "room_dw_cliff_shop",
        "room_dw_cliff_verticalwind_post",
        "room_dw_cliff_sethaqua_battle",
        "room_dw_fcastle_entrance",
        "room_town_north",
        "room_dw_fcastle_foyer",
        "room_dw_fcastle_onsen",
        "room_dw_fcastle_foyer",
        "room_dw_fcastle_right_endingscene",
        "room_dw_fcastle_foyer",
        "room_dw_fcastle_top_pinkdoor",
        "room_dw_fcastle_pinkroom",
        "room_dw_pink_encounter",
        "room_dw_fcastle_top_staircase_2",
        "room_dw_fcastle_green_checkpoint",
        "room_dw_fcastle_orange_gauntlet",
        "room_dw_fcastle_final_save",
        "room_dw_fcastle_flowery",
        "room_dw_fcastle_flowerclimb",
        "room_dw_fcastle_flowerydash",
        "room_dw_fcastle_top_fountain",
        "room_cc_fountain",
        "room_schooldoor",
    ];

    let c: [&'static str; 36] = [
        "room_dw_castle_area_1",
        "room_dw_garden_intro",
        "room_dw_garden_intro",
        "room_dw_garden_diner",
        "room_dw_garden_newdash",
        "room_dw_garden_aquatransition",
        "room_dw_garden_aqua",
        "room_dw_garden_aquadarkness",
        "room_dw_garden_aquahole",
        "room_dw_garden_aquaplatforming",
        "room_dw_garden_cliffexit",
        "room_dw_cliff_gardentransition_new",
        "room_dw_cliff_shop",
        "room_dw_cliff_kawkawdash",
        "room_dw_cliff_sethaqua_battle",
        "room_dw_fcastle_entrance",
        "room_town_north",
        "room_dw_fcastle_partyjail",
        "room_dw_fcastle_shinobeetle_encounter",
        "room_dw_fcastle_foyer",
        "room_dw_fcastle_cafe",
        "room_dw_fcastle_foyer",
        "room_dw_fcastle_asgore",
        "room_dw_fcastle_pinkroom",
        "room_dw_pink_encounter",
        "room_dw_fcastle_pinkroom",
        "room_dw_fcastle_green_checkpoint",
        "room_dw_fcastle_top_ascent",
        "room_dw_fcastle_final_save",
        "room_dw_fcastle_flowery",
        "room_dw_fcastle_flowerclimb",
        "room_dw_fcastle_flowerydash",
        "room_dw_post_flowery_battle",
        "room_dw_post_fountain_close",
        "room_flowershop_2f",
        "room_ed",
    ];

    let n: [&'static str; 36] = [
        "ch5_enter_castle_town",
        "ch5_bedskip",
        "ch5_enter_dw",
        "ch5_enter_diner",
        "ch5_exit_diner",
        "ch5_dark_garden",
        "ch5_enter_aqua",
        "ch5_exit_aqua",
        "ch5_exit_feather",
        "ch5_exit_feather",
        "ch5_enter_cliff1",
        "ch5_enter_cliff2",
        "ch5_enter_shop_room",
        "ch5_exit_shop_room",
        "ch5_enter_seth_aqua",
        "ch5_exit_seth_aqua",
        "ch5_exit_dw",
        "ch5_reenter_dw",
        "ch5_enter_left",
        "ch5_exit_left",
        "ch5_enter_right",
        "ch5_exit_right",
        "ch5_beanstalk",
        "ch5_pink_door",
        "ch5_pink_start",
        "ch5_pink_exit",
        "ch5_enter_ultimate_shop",
        "ch5_exit_ultimate_shop",
        "ch5_enter_final_save",
        "ch5_exit_final_save",
        "ch5_end_flowery",
        "ch5_end_final_climb",
        "ch5_omega_flowery",
        "ch5_fountain1",
        "ch5_fountain2",
        "ch5_ending_src",
    ];

    assert(views(p@) =~= ch5_prevs());
    assert(views(c@) =~= ch5_curs());
    assert(views(n@) =~= ch5_names());
    (p, c, n)
}

/// The split that a change of room from `prev` to `cur` triggers in chapter 1.
pub open spec fn spec_ch1_room_change(prev: Seq<char>, cur: Seq<char>, settings: Settings, inp: &TickInputs) -> Seq<char> {
    if (prev == "room_cc_prison_cells"@) && (cur == "room_cc_prisonlancer"@) {
        if eqc(inp.plot.current, R_156) { "ch1_escape_prison"@ } else { no_split() }
    } else {
        spec_transition(ch1_prevs(), ch1_curs(), ch1_names(), prev, cur)
    }
}

fn ch1_room_change(prev: &str, cur: &str, settings: &Settings, inp: &TickInputs) -> (r: &'static str)
    ensures
        r@ == spec_ch1_room_change(prev@, cur@, *settings, inp),
{
    if (str_eq(prev, "room_cc_prison_cells")) && (str_eq(cur, "room_cc_prisonlancer")) {
        if inp.plot.current.eq_c(R_156) { "ch1_escape_prison" } else { "" }
    } else {
        {
            let (p, c, nm) = ch1_table();
            transition(&p, &c, &nm, prev, cur)
        }
    }
}


/// The split that a tick spent in the room `cur` triggers in chapter 1.
pub open spec fn spec_ch1_same_room(cur: Seq<char>, inp: &TickInputs) -> Seq<char> {
    if (cur == "PLACE_CONTACT"@) && (inp.con.old.bits == R_75 && inp.con.current.bits == R_76) {
        "ch1_contact"@
    } else if (cur == "room_castle_darkdoor"@) && (inp.con.old.bits == R_7 && inp.con.current.bits == R_21) {
        "ch1_castle_town_door"@
    } else if (cur == "room_man"@) && (inp.msc.old.bits != R_601 && inp.msc.current.bits == R_601) && (eqc(inp.choice.current, R_0)) {
        "ch1_egg"@
    } else if (cur == "room_cc_joker"@) && (inp.con.old.bits != R_4 && inp.con.current.bits == R_4) {
        "ch1_beat_jevil"@
    } else if (cur == "room_cc_kingbattle"@) && (inp.fighting.old.bits == R_1 && inp.fighting.current.bits == R_0) {
        "ch1_king"@
    } else if (cur == "room_krisroom"@) && (inp.text_check.old != true && inp.text_check.current == true) {
        "ch1_ending"@
    } else if (cur == "room_ed"@) && (gec(inp.credits_timer, R_108)) {
        "ch1_ending_ost"@
    } else {
        no_split()
    }
}

fn ch1_same_room(cur: &str, inp: &TickInputs) -> (r: &'static str)
    ensures
        r@ == spec_ch1_same_room(cur@, inp),
{
    if (str_eq(cur, "PLACE_CONTACT")) && (inp.con.bytes_changed_from_to(R_75, R_76)) {
        "ch1_contact"
    } else if (str_eq(cur, "room_castle_darkdoor")) && (inp.con.bytes_changed_from_to(R_7, R_21)) {
        "ch1_castle_town_door"
    } else if (str_eq(cur, "room_man")) && (inp.msc.bytes_changed_to(R_601)) && (inp.choice.current.eq_c(R_0)) {
        "ch1_egg"
    } else if (str_eq(cur, "room_cc_joker")) && (inp.con.bytes_changed_to(R_4)) {
        "ch1_beat_jevil"
    } else if (str_eq(cur, "room_cc_kingbattle")) && (inp.fighting.bytes_changed_from_to(R_1, R_0)) {
        "ch1_king"
    } else if (str_eq(cur, "room_krisroom")) && (inp.text_check.changed_to(true)) {
        "ch1_ending"
    } else if (str_eq(cur, "room_ed")) && (inp.credits_timer.ge_c(R_108)) {
        "ch1_ending_ost"
    } else {
        ""
    }
}


/// The split that a change of room from `prev` to `cur` triggers in chapter 2.
pub open spec fn spec_ch2_room_change(prev: Seq<char>, cur: Seq<char>, settings: Settings, inp: &TickInputs) -> Seq<char> {
    if (prev == "PLACE_MENU"@) && (cur == "room_krisroom"@) && (settings.ac_pause_timer) {
        "resume_igt"@
    } else if (prev == "PLACE_MENU"@) && (settings.ac_pause_timer && settings.ac_unpause_loadsave) {
        "resume_igt"@
    } else if (prev == "room_dw_cyber_musical_door"@) && (cur == "room_dw_city_intro"@) {
        if ltc(inp.plot.old, R_60) { "ch2_cf_tz_skip"@ } else { "ch2_cf_tz_warp"@ }
    } else if (prev == "room_dw_cyber_musical_door"@) && (cur == "room_dw_mansion_entrance"@) {
        if ltc(inp.plot.old, R_60) { "ch2_cf_m_skip"@ } else { "ch2_cf_m_warp"@ }
    } else {
        spec_transition(ch2_prevs(), ch2_curs(), ch2_names(), prev, cur)
    }
}

fn ch2_room_change(prev: &str, cur: &str, settings: &Settings, inp: &TickInputs) -> (r: &'static str)
    ensures
        r@ == spec_ch2_room_change(prev@, cur@, *settings, inp),
{
    if (str_eq(prev, "PLACE_MENU")) && (str_eq(cur, "room_krisroom")) && (settings.ac_pause_timer) {
        "resume_igt"
    } else if (str_eq(prev, "PLACE_MENU")) && (settings.ac_pause_timer && settings.ac_unpause_loadsave) {
        "resume_igt"
    } else if (str_eq(prev, "room_dw_cyber_musical_door")) && (str_eq(cur, "room_dw_city_intro")) {
        if inp.plot.old.lt_c(R_60) { "ch2_cf_tz_skip" } else { "ch2_cf_tz_warp" }
    } else if (str_eq(prev, "room_dw_cyber_musical_door")) && (str_eq(cur, "room_dw_mansion_entrance")) {
        if inp.plot.old.lt_c(R_60) { "ch2_cf_m_skip" } else { "ch2_cf_m_warp" }
    } else {
        {
            let (p, c, nm) = ch2_table();
            transition(&p, &c, &nm, prev, cur)
        }
    }
}


/// The split that a tick spent in the room `cur` triggers in chapter 2.
pub open spec fn spec_ch2_same_room(cur: Seq<char>, inp: &TickInputs) -> Seq<char> {
    if (cur == "room_dw_cyber_queen_boxing"@) && (inp.text_check.old != false && inp.text_check.current == false) {
        "ch2_arcade_text"@
    } else if (cur == "room_dw_cyber_music_final"@) && (inp.fighting.old.bits == R_1 && inp.fighting.current.bits == R_0) {
        "ch2_dj_battle"@
    } else if (cur == "room_dw_city_big_2"@) && (inp.text_check.old != true && inp.text_check.current == true) {
        "ch2_freeze_ring"@
    } else if (cur == "room_dw_city_moss"@) && (inp.text_check.old != false && inp.text_check.current == false) {
        "ch2_thorn_ring"@
    } else if ((cur == "room_dw_cyber_musical_door"@ || cur == "room_dw_city_man"@)) && (eqc(inp.msc.old, R_1173)) && (gec(inp.msc.current, R_1173)) && (lec(inp.choice.current, R_0)) {
        "ch2_egg"@
    } else if (cur == "room_dw_castle_west_cliff"@) && (inp.text_check.old != true && inp.text_check.current == true) {
        "ch2_thorny_ending"@
    } else if (cur == "room_torhouse"@) && (inp.text_check.old != true && inp.text_check.current == true) {
        "ch2_ending_ac"@
    } else if (cur == "room_torhouse"@) && (inp.text_check2.old != true && inp.text_check2.current == true) {
        "ch2_ending_il"@
    } else {
        no_split()
    }
}

fn ch2_same_room(cur: &str, inp: &TickInputs) -> (r: &'static str)
    ensures
        r@ == spec_ch2_same_room(cur@, inp),
{
    if (str_eq(cur, "room_dw_cyber_queen_boxing")) && (inp.text_check.changed_to(false)) {
        "ch2_arcade_text"
    } else if (str_eq(cur, "room_dw_cyber_music_final")) && (inp.fighting.bytes_changed_from_to(R_1, R_0)) {
        "ch2_dj_battle"
    } else if (str_eq(cur, "room_dw_city_big_2")) && (inp.text_check.changed_to(true)) {
        "ch2_freeze_ring"
    } else if (str_eq(cur, "room_dw_city_moss")) && (inp.text_check.changed_to(false)) {
        "ch2_thorn_ring"
    } else if ((str_eq(cur, "room_dw_cyber_musical_door") || str_eq(cur, "room_dw_city_man"))) && (inp.msc.old.eq_c(R_1173)) && (inp.msc.current.ge_c(R_1173)) && (inp.choice.current.le_c(R_0)) {
        "ch2_egg"
    } else if (str_eq(cur, "room_dw_castle_west_cliff")) && (inp.text_check.changed_to(true)) {
        "ch2_thorny_ending"
    } else if (str_eq(cur, "room_torhouse")) && (inp.text_check.changed_to(true)) {
        "ch2_ending_ac"
    } else if (str_eq(cur, "room_torhouse")) && (inp.text_check2.changed_to(true)) {
        "ch2_ending_il"
    } else {
        ""
    }
}


/// The split that a change of room from `prev` to `cur` triggers in chapter 3.
pub open spec fn spec_ch3_room_change(prev: Seq<char>, cur: Seq<char>, settings: Settings, inp: &TickInputs) -> Seq<char> {
    if (prev == "PLACE_MENU"@) && (cur == "room_dw_couch_overworld_intro"@) && (settings.ac_pause_timer) {
        "resume_igt"@
    } else if (prev == "PLACE_MENU"@) && (settings.ac_pause_timer && settings.ac_unpause_loadsave) {
        "resume_igt"@
    } else if (prev == "room_gameshowroom"@) && (cur == "room_dw_green_room"@) {
        if eqc(inp.plot.current, R_110) || eqc(inp.plot.current, R_120) { "ch3_end_round1"@ } else if eqc(inp.plot.current, R_140) || eqc(inp.plot.current, R_150) { "ch3_end_round2"@ } else { no_split() }
    } else {
        spec_transition(ch3_prevs(), ch3_curs(), ch3_names(), prev, cur)
    }
}

fn ch3_room_change(prev: &str, cur: &str, settings: &Settings, inp: &TickInputs) -> (r: &'static str)
    ensures
        r@ == spec_ch3_room_change(prev@, cur@, *settings, inp),
{
    if (str_eq(prev, "PLACE_MENU")) && (str_eq(cur, "room_dw_couch_overworld_intro")) && (settings.ac_pause_timer) {
        "resume_igt"
    } else if (str_eq(prev, "PLACE_MENU")) && (settings.ac_pause_timer && settings.ac_unpause_loadsave) {
        "resume_igt"
    } else if (str_eq(prev, "room_gameshowroom")) && (str_eq(cur, "room_dw_green_room")) {
        if inp.plot.current.eq_c(R_110) || inp.plot.current.eq_c(R_120) { "ch3_end_round1" } else if inp.plot.current.eq_c(R_140) || inp.plot.current.eq_c(R_150) { "ch3_end_round2" } else { "" }
    } else {
        {
            let (p, c, nm) = ch3_table();
            transition(&p, &c, &nm, prev, cur)
        }
    }
}


/// The split that a tick spent in the room `cur` triggers in chapter 3.
pub open spec fn spec_ch3_same_room(cur: Seq<char>, inp: &TickInputs) -> Seq<char> {
    if (cur == "room_dw_snow_zone"@) && (inp.flag.old.bits == R_0 && inp.flag.current.bits != R_0) {
        if eqc(inp.flag.current, R_1) { "ch3_knight_win"@ } else if eqc(inp.flag.current, R_2) { "ch3_knight_death"@ } else { no_split() }
    } else if (cur == "room_dw_snow_zone"@) && (inp.fighting.old.bits == R_0 && inp.fighting.current.bits == R_1) {
        "ch3_enter_knight"@
    } else if (cur == "room_town_shelter"@) && (inp.mus_current@.len() == 0 && spec_ends_with(inp.mus_old@, r"mus\night_ambience.ogg"@)) {
        "ch3_ending"@
    } else if (cur == "room_dw_man"@) && (inp.flag.old.bits == R_0 && inp.flag.current.bits == R_1) {
        "ch3_egg"@
    } else if (cur == "room_shadowmantle"@) && (inp.inst_exists.old != true && inp.inst_exists.current == true) {
        "ch3_end_mantle"@
    } else {
        no_split()
    }
}

fn ch3_same_room(cur: &str, inp: &TickInputs) -> (r: &'static str)
    ensures
        r@ == spec_ch3_same_room(cur@, inp),
{
    if (str_eq(cur, "room_dw_snow_zone")) && (inp.flag.bytes_changed_from(R_0)) {
        if inp.flag.current.eq_c(R_1) { "ch3_knight_win" } else if inp.flag.current.eq_c(R_2) { "ch3_knight_death" } else { "" }
    } else if (str_eq(cur, "room_dw_snow_zone")) && (inp.fighting.bytes_changed_from_to(R_0, R_1)) {
        "ch3_enter_knight"
    } else if (str_eq(cur, "room_town_shelter")) && (inp.mus_current.len() == 0 && ends_with(inp.mus_old.as_str(), r"mus\night_ambience.ogg")) {
        "ch3_ending"
    } else if (str_eq(cur, "room_dw_man")) && (inp.flag.bytes_changed_from_to(R_0, R_1)) {
        "ch3_egg"
    } else if (str_eq(cur, "room_shadowmantle")) && (inp.inst_exists.changed_to(true)) {
        "ch3_end_mantle"
    } else {
        ""
    }
}


/// The split that a change of room from `prev` to `cur` triggers in chapter 4.
pub open spec fn spec_ch4_room_change(prev: Seq<char>, cur: Seq<char>, settings: Settings, inp: &TickInputs) -> Seq<char> {
    if (prev == "PLACE_MENU"@) && (cur == "room_cc_fountain"@) && (settings.ac_pause_timer) {
        "resume_igt"@
    } else if (prev == "PLACE_MENU"@) && (settings.ac_pause_timer && settings.ac_unpause_loadsave) {
        "resume_igt"@
    } else {
        spec_transition(ch4_prevs(), ch4_curs(), ch4_names(), prev, cur)
    }
}

fn ch4_room_change(prev: &str, cur: &str, settings: &Settings, inp: &TickInputs) -> (r: &'static str)
    ensures
        r@ == spec_ch4_room_change(prev@, cur@, *settings, inp),
{
    if (str_eq(prev, "PLACE_MENU")) && (str_eq(cur, "room_cc_fountain")) && (settings.ac_pause_timer) {
        "resume_igt"
    } else if (str_eq(prev, "PLACE_MENU")) && (settings.ac_pause_timer && settings.ac_unpause_loadsave) {
        "resume_igt"
    } else {
        {
            let (p, c, nm) = ch4_table();
            transition(&p, &c, &nm, prev, cur)
        }
    }
}


/// The split that a tick spent in the room `cur` triggers in chapter 4.
pub open spec fn spec_ch4_same_room(cur: Seq<char>, inp: &TickInputs) -> Seq<char> {
    if (cur == "room_dw_castle_tv_zone_battle"@) && (eqc(inp.fighting.old, R_0)) && (eqc(inp.fighting.current, R_1)) {
        "ch4_start_mike"@
    } else if (cur == "room_dw_castle_tv_zone_battle"@) && (eqc(inp.fighting.current, R_1)) && (inp.con.old.bits != R_18 && inp.con.current.bits == R_18) {
        "ch4_beat_mike"@
    } else if (cur == "room_dw_church_jackenstein"@) && (eqc(inp.fighting.old, R_1)) && (eqc(inp.fighting.current, R_0)) {
        "ch4_jackenstein"@
    } else if (cur == "room_dw_church_arena"@) && (eqc(inp.fighting.current, R_1)) && (inp.con.old.bits == R_0 && inp.con.current.bits != R_0) {
        "ch4_hammer_of_justice"@
    } else if (cur == "room_dw_churchb_man"@) && (inp.text_check.old != false && inp.text_check.current == false) {
        "ch4_egg"@
    } else if (cur == "room_dw_churchc_prophecies"@) && (inp.text_check.old != true && inp.text_check.current == true) {
        "ch4_princess_ribbon"@
    } else if (cur == "room_dw_churchc_titanclimb2_post"@) && (eqc(inp.fighting.old, R_0)) && (eqc(inp.fighting.current, R_1)) {
        "ch4_start_titan_fight"@
    } else if (cur == "room_torhouse"@) && (inp.con.old.bits == R_0 && inp.con.current.bits == R_1) {
        "ch4_ending_il"@
    } else {
        no_split()
    }
}

fn ch4_same_room(cur: &str, inp: &TickInputs) -> (r: &'static str)
    ensures
        r@ == spec_ch4_same_room(cur@, inp),
{
    if (str_eq(cur, "room_dw_castle_tv_zone_battle")) && (inp.fighting.old.eq_c(R_0)) && (inp.fighting.current.eq_c(R_1)) {
        "ch4_start_mike"
    } else if (str_eq(cur, "room_dw_castle_tv_zone_battle")) && (inp.fighting.current.eq_c(R_1)) && (inp.con.bytes_changed_to(R_18)) {
        "ch4_beat_mike"
    } else if (str_eq(cur, "room_dw_church_jackenstein")) && (inp.fighting.old.eq_c(R_1)) && (inp.fighting.current.eq_c(R_0)) {
        "ch4_jackenstein"
    } else if (str_eq(cur, "room_dw_church_arena")) && (inp.fighting.current.eq_c(R_1)) && (inp.con.bytes_changed_from(R_0)) {
        "ch4_hammer_of_justice"
    } else if (str_eq(cur, "room_dw_churchb_man")) && (inp.text_check.changed_to(false)) {
        "ch4_egg"
    } else if (str_eq(cur, "room_dw_churchc_prophecies")) && (inp.text_check.changed_to(true)) {
        "ch4_princess_ribbon"
    } else if (str_eq(cur, "room_dw_churchc_titanclimb2_post")) && (inp.fighting.old.eq_c(R_0)) && (inp.fighting.current.eq_c(R_1)) {
        "ch4_start_titan_fight"
    } else if (str_eq(cur, "room_torhouse")) && (inp.con.bytes_changed_from_to(R_0, R_1)) {
        "ch4_ending_il"
    } else {
        ""
    }
}


/// The split that a change of room from `prev` to `cur` triggers in chapter 5.
pub open spec fn spec_ch5_room_change(prev: Seq<char>, cur: Seq<char>, settings: Settings, inp: &TickInputs) -> Seq<char> {
    if (prev == "PLACE_MENU"@) && (cur == "room_krisroom"@) && (settings.ac_pause_timer) {
        "resume_igt"@
    } else if (prev == "PLACE_MENU"@) && (settings.ac_pause_timer && settings.ac_unpause_loadsave) {
        "resume_igt"@
    } else if (prev == "room_shop"@) && (cur == "room_dw_cliff_shop"@) && (has_key_item(inp.key_items@, R_32)) {
        "ch5_pink_shop"@
    } else if (cur == "room_schooldoor"@) && (eqc(inp.flag_1324, R_3)) {
        "ch5_ending_completion_data"@
    } else {
        spec_transition(ch5_prevs(), ch5_curs(), ch5_names(), prev, cur)
    }
}

fn ch5_room_change(prev: &str, cur: &str, settings: &Settings, inp: &TickInputs) -> (r: &'static str)
    ensures
        r@ == spec_ch5_room_change(prev@, cur@, *settings, inp),
{
    if (str_eq(prev, "PLACE_MENU")) && (str_eq(cur, "room_krisroom")) && (settings.ac_pause_timer) {
        "resume_igt"
    } else if (str_eq(prev, "PLACE_MENU")) && (settings.ac_pause_timer && settings.ac_unpause_loadsave) {
        "resume_igt"
    } else if (str_eq(prev, "room_shop")) && (str_eq(cur, "room_dw_cliff_shop")) && (has_key_item_exec(&inp.key_items, R_32)) {
        "ch5_pink_shop"
    } else if (str_eq(cur, "room_schooldoor")) && (inp.flag_1324.eq_c(R_3)) {
        "ch5_ending_completion_data"
    } else {
        {
            let (p, c, nm) = ch5_table();
            transition(&p, &c, &nm, prev, cur)
        }
    }
}


/// The split that a tick spent in the room `cur` triggers in chapter 5.
pub open spec fn spec_ch5_same_room(cur: Seq<char>, inp: &TickInputs) -> Seq<char> {
    if (cur == "room_dw_garden_aqua"@) && (inp.fighting.old.bits == R_1 && inp.fighting.current.bits == R_0) {
        "ch5_aqua_end"@
    } else if (cur == "room_man"@) && (inp.choice.old.bits == R_MINUS_1 && inp.choice.current.bits == R_0) {
        "ch5_egg"@
    } else if (cur == "room_dw_cliff_sethaqua_battle"@) && (inp.fighting.old.bits == R_1 && inp.fighting.current.bits == R_0) {
        "ch5_beat_seth_aqua"@
    } else if (cur == "room_dw_pink_encounter"@) && (inp.fighting.old.bits == R_1 && inp.fighting.current.bits == R_0) {
        "ch5_pink_end"@
    } else if (cur == "room_dw_fcastle_flowery"@) && (inp.fighting.old.bits == R_0 && inp.fighting.current.bits == R_1) {
        "ch5_start_flowery"@
    } else if (cur == "room_flowershop_2f"@) && (inp.plot.old.bits != R_560 && inp.plot.current.bits == R_560) {
        "ch5_seed_packets"@
    } else if (cur == "room_mid_town"@) && (inp.text_check.old != true && inp.text_check.current == true) {
        "ch5_bread"@
    } else if (cur == "room_beach"@) && (inp.inst_exists.old != true && inp.inst_exists.current == true) {
        "ch5_sideb"@
    } else {
        no_split()
    }
}

fn ch5_same_room(cur: &str, inp: &TickInputs) -> (r: &'static str)
    ensures
        r@ == spec_ch5_same_room(cur@, inp),
{
    if (str_eq(cur, "room_dw_garden_aqua")) && (inp.fighting.bytes_changed_from_to(R_1, R_0)) {
        "ch5_aqua_end"
    } else if (str_eq(cur, "room_man")) && (inp.choice.bytes_changed_from_to(R_MINUS_1, R_0)) {
        "ch5_egg"
    } else if (str_eq(cur, "room_dw_cliff_sethaqua_battle")) && (inp.fighting.bytes_changed_from_to(R_1, R_0)) {
        "ch5_beat_seth_aqua"
    } else if (str_eq(cur, "room_dw_pink_encounter")) && (inp.fighting.bytes_changed_from_to(R_1, R_0)) {
        "ch5_pink_end"
    } else if (str_eq(cur, "room_dw_fcastle_flowery")) && (inp.fighting.bytes_changed_from_to(R_0, R_1)) {
        "ch5_start_flowery"
    } else if (str_eq(cur, "room_flowershop_2f")) && (inp.plot.bytes_changed_to(R_560)) {
        "ch5_seed_packets"
    } else if (str_eq(cur, "room_mid_town")) && (inp.text_check.changed_to(true)) {
        "ch5_bread"
    } else if (str_eq(cur, "room_beach")) && (inp.inst_exists.changed_to(true)) {
        "ch5_sideb"
    } else {
        ""
    }
}


/// What the chapter rules read on a tick, as previous and current readings where the
/// rules compare them: the globals `plot`, `choice`, `msc` and `fighting`; `con`, an
/// object variable chosen by room; the text checks; `flag`, a global flag chosen by
/// room; whether a watched instance exists; the music now and before (the previous
/// music's name as text); the credits timer; the twelve key item slots; flag 1324.
pub struct TickInputs {
    pub plot: Pair<GameNum>,
    pub choice: Pair<GameNum>,
    pub msc: Pair<GameNum>,
    pub fighting: Pair<GameNum>,
    pub con: Pair<GameNum>,
    pub text_check: Pair<bool>,
    pub text_check2: Pair<bool>,
    pub flag: Pair<GameNum>,
    pub inst_exists: Pair<bool>,
    pub mus_current: Vec<u8>,
    pub mus_old: String,
    pub credits_timer: GameNum,
    pub key_items: Vec<GameNum>,
    pub flag_1324: GameNum,
}

/// Whether some key item slot holds the item `c`.
pub open spec fn has_key_item(items: Seq<GameNum>, c: u64) -> bool {
    exists|i: int| 0 <= i < items.len() && eqc(#[trigger] items[i], c)
}

fn has_key_item_exec(items: &Vec<GameNum>, c: u64) -> (r: bool)
    ensures
        r == has_key_item(items@, c),
{
    let mut i: usize = 0;
    while i < items.len()
        invariant
            i <= items@.len(),
            forall|j: int| 0 <= j < i ==> !eqc(#[trigger] items@[j], c),
        decreases items@.len() - i,
    {
        if items[i].eq_c(c) {
            return true;
        }
        i = i + 1;
    }
    false
}

/// The split that a tick triggers. Chapter 1 tells a change of room by the raw room
/// names (`raw_changed`), the other chapters by the trimmed names; chapters outside
/// 1 to 5 have no splits.
pub open spec fn spec_chapter_split(
    chapter: i32,
    raw_changed: bool,
    prev: Seq<char>,
    cur: Seq<char>,
    settings: Settings,
    inp: &TickInputs,
) -> Seq<char> {
    if chapter == 1 {
        if raw_changed {
            spec_ch1_room_change(prev, cur, settings, inp)
        } else {
            spec_ch1_same_room(cur, inp)
        }
    } else if chapter == 2 {
        if prev != cur {
            spec_ch2_room_change(prev, cur, settings, inp)
        } else {
            spec_ch2_same_room(cur, inp)
        }
    } else if chapter == 3 {
        if prev != cur {
            spec_ch3_room_change(prev, cur, settings, inp)
        } else {
            spec_ch3_same_room(cur, inp)
        }
    } else if chapter == 4 {
        if prev != cur {
            spec_ch4_room_change(prev, cur, settings, inp)
        } else {
            spec_ch4_same_room(cur, inp)
        }
    } else if chapter == 5 {
        if prev != cur {
            spec_ch5_room_change(prev, cur, settings, inp)
        } else {
            spec_ch5_same_room(cur, inp)
        }
    } else {
        no_split()
    }
}

/// The name of the split that this tick triggers, as `spec_chapter_split` says; the
/// empty name when there is none.
pub fn chapter_split(
    chapter: i32,
    raw_changed: bool,
    prev: &str,
    cur: &str,
    settings: &Settings,
    inp: &TickInputs,
) -> (r: &'static str)
    ensures
        r@ == spec_chapter_split(chapter, raw_changed, prev@, cur@, *settings, inp),
{
    if chapter == 1 {
        if raw_changed {
            ch1_room_change(prev, cur, settings, inp)
        } else {
            ch1_same_room(cur, inp)
        }
    } else if chapter >= 2 && chapter <= 5 {
        let changed = !str_eq(prev, cur);
        if chapter == 2 {
            if changed {
                ch2_room_change(prev, cur, settings, inp)
            } else {
                ch2_same_room(cur, inp)
            }
        } else if chapter == 3 {
            if changed {
                ch3_room_change(prev, cur, settings, inp)
            } else {
                ch3_same_room(cur, inp)
            }
        } else if chapter == 4 {
            if changed {
                ch4_room_change(prev, cur, settings, inp)
            } else {
                ch4_same_room(cur, inp)
            }
        } else {
            if changed {
                ch5_room_change(prev, cur, settings, inp)
            } else {
                ch5_same_room(cur, inp)
            }
        }
    } else {
        ""
    }
}

/// An object's name as a 32-bit demo runner spells it in chapter 1: with the suffix
/// `_ch1`.
pub open spec fn spec_chapter1ify(version: EngineVersion, name: Seq<char>) -> Seq<char> {
    if version == EngineVersion::GMS2_2022_1 || version == EngineVersion::GMS2_2022_2 {
        name + "_ch1"@
    } else {
        name
    }
}

/// The name of a chapter 1 object in the given engine version.
pub fn chapter1ify(version: EngineVersion, name: &str) -> (r: String)
    ensures
        r@ == spec_chapter1ify(version, name@),
{
    match version {
        EngineVersion::GMS2_2022_1 | EngineVersion::GMS2_2022_2 => with_suffix(name, "_ch1"),
        _ => name.to_owned(),
    }
}

/// An object variable to read: the variable `var` of the first instance of `obj`.
pub struct VarSource {
    pub obj: String,
    pub var: &'static str,
}

/// A text to look for in the writer objects `writer`: English `en` or Japanese `jp`.
pub struct TextSource {
    pub writer: String,
    pub en: &'static str,
    pub jp: &'static str,
}

/// An instance count to read: that of the Shadow Mantle outro or of the CRT ending.
#[derive(Clone, Copy, PartialEq, Eq, Structural, Debug)]
pub enum InstCount {
    MantleOutro,
    CrtEnd,
}

/// The reads that a tick's rules need besides the globals.
pub struct ReadPlan {
    pub con: Option<VarSource>,
    pub text: Option<TextSource>,
    pub text2: Option<TextSource>,
    pub flag_index: Option<u64>,
    pub inst_count: Option<InstCount>,
    pub credits_timer: bool,
    pub key_items: bool,
    pub flag_1324: bool,
}

/// The object variable read into `con`, by chapter and room (and, in chapter 4, by
/// whether a battle is on).
pub open spec fn spec_con_source(
    version: EngineVersion,
    chapter: i32,
    cur: Seq<char>,
    fighting_now: GameNum,
) -> Option<(Seq<char>, Seq<char>)> {
    if chapter == 1 {
        if cur == "PLACE_CONTACT"@ {
            Some((spec_chapter1ify(version, "DEVICE_CONTACT"@), "EVENT"@))
        } else if cur == "room_castle_darkdoor"@ {
            Some((spec_chapter1ify(version, "obj_darkdoorevent"@), "con"@))
        } else if cur == "room_cc_joker"@ {
            Some((spec_chapter1ify(version, "obj_joker_body"@), "dancelv"@))
        } else {
            None
        }
    } else if chapter == 2 {
        if cur == "room_shop_ch2_spamton"@ {
            Some(("obj_shop_ch2_spamton"@, "greybgtimer"@))
        } else if cur == "room_dw_city_berdly"@ {
            Some(("obj_spell_snowgrave"@, "timer"@))
        } else {
            None
        }
    } else if chapter == 4 {
        if cur == "room_dw_castle_tv_zone_battle"@ && eqc(fighting_now, R_1) {
            Some(("obj_mike_attack_controller"@, "action"@))
        } else if cur == "room_torhouse"@ {
            Some(("obj_ch4_LWF03"@, "upstairscon"@))
        } else if cur == "room_dw_church_arena"@ {
            Some(("obj_hammer_of_justice_enemy"@, "nohairsprite"@))
        } else {
            None
        }
    } else {
        None
    }
}

/// The text looked for by the first text check, by chapter and room.
pub open spec fn spec_text_source(version: EngineVersion, chapter: i32, cur: Seq<char>) -> Option<
    (Seq<char>, Seq<char>, Seq<char>),
> {
    if chapter == 1 {
        if cur == "room_krisroom"@ {
            Some(
                (
                    spec_chapter1ify(version, "obj_writer"@),
                    r"* (You decided to go to bed.)/%"@,
                    r"＊ (ねむることにした)/%"@,
                ),
            )
        } else {
            None
        }
    } else if chapter == 2 {
        if cur == "room_dw_cyber_queen_boxing"@ {
            Some(
                (
                    "obj_writer"@,
                    r"\\EH* C'mon^1, let's go after her!/%"@,
                    r"\\EH＊ おまえら^1！&　 追っかけるぞ！/%"@,
                ),
            )
        } else if cur == "room_dw_city_big_2"@ {
            Some(
                (
                    "obj_writer"@,
                    r"* (You got the FreezeRing.)/%"@,
                    r"＊ (凍てつく指輪を　手に入れた)/%"@,
                ),
            )
        } else if cur == "room_dw_city_moss"@ {
            Some(
                (
                    "obj_writer"@,
                    r"\S1* (You got the ThornRing.)/%"@,
                    r"\S1＊ (いばらの指輪を　手に入れた)/%"@,
                ),
            )
        } else if cur == "room_dw_castle_west_cliff"@ {
            Some(
                (
                    "obj_writer"@,
                    r"* (You have too many \cYWEAPONs\cW to&||take \cYPuppetScarf\c0.)/%"@,
                    r"＊ (\cYぶき\cWが多すぎて&　 \cYパペットマフラー\c0を&　 持てない)/%"@,
                ),
            )
        } else if cur == "room_torhouse"@ {
            Some(
                (
                    "obj_writer"@,
                    r"* (... Susie fell asleep.)/%"@,
                    r"＊ (…スージィは　ねおちした)/%"@,
                ),
            )
        } else {
            None
        }
    } else if chapter == 4 {
        if cur == "room_dw_churchb_man"@ {
            Some(
                (
                    "obj_writer"@,
                    r"* (An Egg was picked up from a&||nearby easel.)/%"@,
                    r"＊ (近くのイーゼルから\n　 タマゴを　拾いあげた)/%"@,
                ),
            )
        } else if cur == "room_dw_churchc_prophecies"@ {
            Some(
                (
                    "obj_writer"@,
                    r"* (\cYPrincessRBN\cW was added to your&||\cYARMORs\cW.)/%"@,
                    r"＊ (\cYプリティリボン\cWが&　 \cYぼうぐ\cWに　加わった)/%"@,
                ),
            )
        } else {
            None
        }
    } else if chapter == 5 {
        if cur == "room_town_mid"@ {
            Some(("obj_writer"@, r"* (You got the Bread.)/%"@, r"＊ (パンを　てにいれた)/%"@))
        } else {
            None
        }
    } else {
        None
    }
}

/// The text looked for by the second text check (chapter 2, Tor's house only).
pub open spec fn spec_text2_source(chapter: i32, cur: Seq<char>) -> Option<
    (Seq<char>, Seq<char>, Seq<char>),
> {
    if chapter == 2 && cur == "room_torhouse"@ {
        Some(
            (
                "obj_writer"@,
                r"\E1* ... they're already&||asleep.../%"@,
                r"\E1＊ …ふたりとも　もう&　 ねむってしまったのね。/%"@,
            ),
        )
    } else {
        None
    }
}

/// The global flag read into `flag` (chapter 3 only).
pub open spec fn spec_flag_index(chapter: i32, cur: Seq<char>) -> Option<u64> {
    if chapter == 3 && cur == "room_dw_ch3_man"@ {
        Some(930)
    } else if chapter == 3 && cur == "room_dw_snow_zone"@ {
        Some(1047)
    } else {
        None
    }
}

/// The instance count read into `inst_exists`.
pub open spec fn spec_inst_count(chapter: i32, cur: Seq<char>) -> Option<InstCount> {
    if chapter == 3 && cur == "room_shadowmantle"@ {
        Some(InstCount::MantleOutro)
    } else if chapter == 5 && cur == "room_beach"@ {
        Some(InstCount::CrtEnd)
    } else {
        None
    }
}

/// The view of a variable source.
pub open spec fn var_view(s: Option<VarSource>) -> Option<(Seq<char>, Seq<char>)> {
    match s {
        Some(v) => Some((v.obj@, v.var@)),
        None => None,
    }
}

/// The view of a text source.
pub open spec fn text_view(s: Option<TextSource>) -> Option<(Seq<char>, Seq<char>, Seq<char>)> {
    match s {
        Some(t) => Some((t.writer@, t.en@, t.jp@)),
        None => None,
    }
}

fn var_source(obj: String, var: &'static str) -> (r: Option<VarSource>)
    ensures
        var_view(r) == Some((obj@, var@)),
{
    Some(VarSource { obj, var })
}

fn text_source(writer: String, en: &'static str, jp: &'static str) -> (r: Option<TextSource>)
    ensures
        text_view(r) == Some((writer@, en@, jp@)),
{
    Some(TextSource { writer, en, jp })
}

fn con_source(version: EngineVersion, chapter: i32, cur: &str, fighting_now: GameNum) -> (r: Option<VarSource>)
    ensures
        var_view(r) == spec_con_source(version, chapter, cur@, fighting_now),
{
    if chapter == 1 {
        if str_eq(cur, "PLACE_CONTACT") {
            var_source(chapter1ify(version, "DEVICE_CONTACT"), "EVENT")
        } else if str_eq(cur, "room_castle_darkdoor") {
            var_source(chapter1ify(version, "obj_darkdoorevent"), "con")
        } else if str_eq(cur, "room_cc_joker") {
            var_source(chapter1ify(version, "obj_joker_body"), "dancelv")
        } else {
            None
        }
    } else if chapter == 2 {
        if str_eq(cur, "room_shop_ch2_spamton") {
            var_source("obj_shop_ch2_spamton".to_owned(), "greybgtimer")
        } else if str_eq(cur, "room_dw_city_berdly") {
            var_source("obj_spell_snowgrave".to_owned(), "timer")
        } else {
            None
        }
    } else if chapter == 4 {
        if str_eq(cur, "room_dw_castle_tv_zone_battle") && fighting_now.eq_c(R_1) {
            var_source("obj_mike_attack_controller".to_owned(), "action")
        } else if str_eq(cur, "room_torhouse") {
            var_source("obj_ch4_LWF03".to_owned(), "upstairscon")
        } else if str_eq(cur, "room_dw_church_arena") {
            var_source("obj_hammer_of_justice_enemy".to_owned(), "nohairsprite")
        } else {
            None
        }
    } else {
        None
    }
}

fn text_source_for(version: EngineVersion, chapter: i32, cur: &str) -> (r: Option<TextSource>)
    ensures
        text_view(r) == spec_text_source(version, chapter, cur@),
{
    if chapter == 1 {
        if str_eq(cur, "room_krisroom") {
            text_source(
                chapter1ify(version, "obj_writer"),
                r"* (You decided to go to bed.)/%",
                r"＊ (ねむることにした)/%",
            )
        } else {
            None
        }
    } else if chapter == 2 {
        if str_eq(cur, "room_dw_cyber_queen_boxing") {
            text_source(
                "obj_writer".to_owned(),
                r"\\EH* C'mon^1, let's go after her!/%",
                r"\\EH＊ おまえら^1！&　 追っかけるぞ！/%",
            )
        } else if str_eq(cur, "room_dw_city_big_2") {
            text_source(
                "obj_writer".to_owned(),
                r"* (You got the FreezeRing.)/%",
                r"＊ (凍てつく指輪を　手に入れた)/%",
            )
        } else if str_eq(cur, "room_dw_city_moss") {
            text_source(
                "obj_writer".to_owned(),
                r"\S1* (You got the ThornRing.)/%",
                r"\S1＊ (いばらの指輪を　手に入れた)/%",
            )
        } else if str_eq(cur, "room_dw_castle_west_cliff") {
            text_source(
                "obj_writer".to_owned(),
                r"* (You have too many \cYWEAPONs\cW to&||take \cYPuppetScarf\c0.)/%",
                r"＊ (\cYぶき\cWが多すぎて&　 \cYパペットマフラー\c0を&　 持てない)/%",
            )
        } else if str_eq(cur, "room_torhouse") {
            text_source(
                "obj_writer".to_owned(),
                r"* (... Susie fell asleep.)/%",
                r"＊ (…スージィは　ねおちした)/%",
            )
        } else {
            None
        }
    } else if chapter == 4 {
        if str_eq(cur, "room_dw_churchb_man") {
            text_source(
                "obj_writer".to_owned(),
                r"* (An Egg was picked up from a&||nearby easel.)/%",
                r"＊ (近くのイーゼルから\n　 タマゴを　拾いあげた)/%",
            )
        } else if str_eq(cur, "room_dw_churchc_prophecies") {
            text_source(
                "obj_writer".to_owned(),
                r"* (\cYPrincessRBN\cW was added to your&||\cYARMORs\cW.)/%",
                r"＊ (\cYプリティリボン\cWが&　 \cYぼうぐ\cWに　加わった)/%",
            )
        } else {
            None
        }
    } else if chapter == 5 {
        if str_eq(cur, "room_town_mid") {
            text_source("obj_writer".to_owned(), r"* (You got the Bread.)/%", r"＊ (パンを　てにいれた)/%")
        } else {
            None
        }
    } else {
        None
    }
}

/// What the rules of a tick need read, besides the globals: the sources above, the
/// credits timer in the chapter 1 credits, the key items on leaving the shop for the
/// cliff shop in chapter 5, and flag 1324 on entering the school door in chapter 5.
pub fn plan_reads(version: EngineVersion, chapter: i32, prev: &str, cur: &str, fighting_now: GameNum) -> (r:
    ReadPlan)
    ensures
        var_view(r.con) == spec_con_source(version, chapter, cur@, fighting_now),
        text_view(r.text) == spec_text_source(version, chapter, cur@),
        text_view(r.text2) == spec_text2_source(chapter, cur@),
        r.flag_index == spec_flag_index(chapter, cur@),
        r.inst_count == spec_inst_count(chapter, cur@),
        r.credits_timer == (chapter == 1 && cur@ == "room_ed"@),
        r.key_items == (chapter == 5 && prev@ == "room_shop"@ && cur@ == "room_dw_cliff_shop"@),
        r.flag_1324 == (chapter == 5 && cur@ == "room_schooldoor"@ && prev@ != cur@),
{
    let text2 = if chapter == 2 && str_eq(cur, "room_torhouse") {
        text_source(
            "obj_writer".to_owned(),
            r"\E1* ... they're already&||asleep.../%",
            r"\E1＊ …ふたりとも　もう&　 ねむってしまったのね。/%",
        )
    } else {
        None
    };
    let flag_index = if chapter == 3 && str_eq(cur, "room_dw_ch3_man") {
        Some(930)
    } else if chapter == 3 && str_eq(cur, "room_dw_snow_zone") {
        Some(1047)
    } else {
        None
    };
    let inst_count = if chapter == 3 && str_eq(cur, "room_shadowmantle") {
        Some(InstCount::MantleOutro)
    } else if chapter == 5 && str_eq(cur, "room_beach") {
        Some(InstCount::CrtEnd)
    } else {
        None
    };
    ReadPlan {
        con: con_source(version, chapter, cur, fighting_now),
        text: text_source_for(version, chapter, cur),
        text2,
        flag_index,
        inst_count,
        credits_timer: chapter == 1 && str_eq(cur, "room_ed"),
        key_items: chapter == 5 && str_eq(prev, "room_shop") && str_eq(cur, "room_dw_cliff_shop"),
        flag_1324: chapter == 5 && str_eq(cur, "room_schooldoor") && !str_eq(prev, cur),
    }
}

/// The global values read on every tick of a run.
#[derive(Clone, Copy, PartialEq, Eq, Structural, Debug)]
pub struct GlobalReadings {
    pub fighting: GameNum,
    pub plot: GameNum,
    pub choice: GameNum,
    pub msc: GameNum,
}

/// The values read as a `ReadPlan` asked. A field that the plan did not ask for is
/// ignored; `inst_count` is the instance count read (`None` when the read failed).
pub struct PlannedReadings {
    pub con: GameNum,
    pub text: bool,
    pub text2: bool,
    pub flag: GameNum,
    pub inst_count: Option<i32>,
    pub credits_timer: GameNum,
    pub key_items: Vec<GameNum>,
    pub flag_1324: GameNum,
    pub mus_current: Vec<u8>,
    pub mus_old: String,
}

/// The watchers behind the chapter rules.
pub struct RuleState {
    pub plot: Watcher<GameNum>,
    pub choice: Watcher<GameNum>,
    pub msc: Watcher<GameNum>,
    pub fighting: Watcher<GameNum>,
    pub namer: Watcher<GameNum>,
    pub con: Watcher<GameNum>,
    pub text_check: Watcher<bool>,
    pub text_check2: Watcher<bool>,
    pub flag: Watcher<GameNum>,
    pub inst_exists: Watcher<bool>,
}

/// The watcher's pair, or `d` twice when it holds none.
pub open spec fn pair_or<T>(w: Watcher<T>, d: T) -> Pair<T> {
    match w.pair {
        Some(p) => p,
        None => Pair { old: d, current: d },
    }
}

fn pair_or_exec<T: Copy>(w: &Watcher<T>, d: T) -> (r: Pair<T>)
    ensures
        r == pair_or(*w, d),
{
    match w.pair {
        Some(p) => p,
        None => Pair { old: d, current: d },
    }
}

/// Whether the chapter's rules watch `con`.
pub open spec fn watches_con(chapter: i32) -> bool {
    chapter == 1 || chapter == 2 || chapter == 4
}

/// Whether the chapter's rules watch the first text check.
pub open spec fn watches_text(chapter: i32) -> bool {
    chapter == 1 || chapter == 2 || chapter == 4 || chapter == 5
}

/// Whether the chapter's rules watch whether an instance exists.
pub open spec fn watches_inst(chapter: i32) -> bool {
    chapter == 3 || chapter == 5
}

/// What the autostart rule decided, and the namer event pair when it read one.
#[derive(Clone, Copy, PartialEq, Eq, Structural, Debug)]
pub struct AutostartOutcome {
    pub start: bool,
    pub namer: Option<Pair<GameNum>>,
}

/// Whether the autostart rule reads the naming screen's event: in chapter 5 when
/// leaving the contact screen, and in chapters other than 0 and 1 when leaving the menu.
pub open spec fn spec_reads_namer(chapter: i32, prev: Seq<char>) -> bool {
    (chapter == 5 && prev == "PLACE_CONTACT"@) || (chapter != 0 && chapter != 1 && prev
        == "PLACE_MENU"@)
}

/// Whether the autostart rule reads the naming screen's event this tick, as
/// `spec_reads_namer` says.
pub fn reads_namer(chapter: i32, prev: &str) -> (r: bool)
    ensures
        r == spec_reads_namer(chapter, prev@),
{
    (chapter == 5 && str_eq(prev, "PLACE_CONTACT")) || (chapter != 0 && chapter != 1 && str_eq(
        prev,
        "PLACE_MENU",
    ))
}

/// Whether a run starts. Chapter 1 starts on entering the contact screen. In chapter
/// 5 the setting `ch5_start_on_prev` decides: loading chapter 4 completion data (going
/// from the menu to Kris's room while the naming event is not 75) starts a run unless
/// the setting is `No`; the usual starts (leaving the contact screen for the menu as
/// the naming event goes from 74 to 75, or leaving the menu as it turns 75) happen
/// unless the setting is `Exclusively`. In the other chapters, leaving the menu starts
/// a run when the naming event turns 75.
pub open spec fn spec_autostart(
    chapter: i32,
    prev: Seq<char>,
    cur: Seq<char>,
    settings: Settings,
    namer: Pair<GameNum>,
) -> bool {
    if chapter == 0 {
        false
    } else if chapter == 1 {
        prev != cur && cur == "PLACE_CONTACT"@
    } else if chapter == 5 && prev == "PLACE_CONTACT"@ {
        settings.ch5_start_on_prev != Ch5StartOnPrev::Exclusively && cur == "PLACE_MENU"@ && eqc(
            namer.current,
            R_75,
        ) && eqc(namer.old, R_74)
    } else if chapter == 5 && prev == "PLACE_MENU"@ {
        (settings.ch5_start_on_prev != Ch5StartOnPrev::No && cur == "room_krisroom"@ && !eqc(
            namer.old,
            R_75,
        )) || (settings.ch5_start_on_prev != Ch5StartOnPrev::Exclusively && eqc(namer.current, R_75)
            && !eqc(namer.old, R_75))
    } else if prev == "PLACE_MENU"@ {
        eqc(namer.current, R_75) && !eqc(namer.old, R_75)
    } else {
        false
    }
}

impl RuleState {
    /// Watchers with no readings.
    pub fn new() -> (r: RuleState)
        ensures
            r.plot.pair is None && r.choice.pair is None && r.msc.pair is None && r.fighting.pair is None,
            r.namer.pair is None && r.con.pair is None && r.flag.pair is None,
            r.text_check.pair is None && r.text_check2.pair is None && r.inst_exists.pair is None,
    {
        RuleState {
            plot: Watcher::new(),
            choice: Watcher::new(),
            msc: Watcher::new(),
            fighting: Watcher::new(),
            namer: Watcher::new(),
            con: Watcher::new(),
            text_check: Watcher::new(),
            text_check2: Watcher::new(),
            flag: Watcher::new(),
            inst_exists: Watcher::new(),
        }
    }

    /// The autostart rule for this tick. The naming event `namer_now` is recorded only
    /// when the rule reads it.
    pub fn autostart(
        &mut self,
        chapter: i32,
        prev: &str,
        cur: &str,
        settings: &Settings,
        namer_now: GameNum,
    ) -> (r: AutostartOutcome)
        ensures
            spec_reads_namer(chapter, prev@) ==> r.namer == Some(next_pair(old(self).namer, namer_now))
                && final(self).namer.pair == r.namer,
            !spec_reads_namer(chapter, prev@) ==> r.namer is None && final(self).namer == old(
                self,
            ).namer,
            r.start == spec_autostart(
                chapter,
                prev@,
                cur@,
                *settings,
                next_pair(old(self).namer, namer_now),
            ),
            final(self).plot == old(self).plot && final(self).choice == old(self).choice,
            final(self).msc == old(self).msc && final(self).fighting == old(self).fighting,
            final(self).con == old(self).con && final(self).flag == old(self).flag,
            final(self).text_check == old(self).text_check && final(self).text_check2 == old(
                self,
            ).text_check2,
            final(self).inst_exists == old(self).inst_exists,
    {
        if chapter == 0 {
            return AutostartOutcome { start: false, namer: None };
        }
        if chapter == 1 {
            let start = !str_eq(prev, cur) && str_eq(cur, "PLACE_CONTACT");
            return AutostartOutcome { start, namer: None };
        }
        let from_contact = chapter == 5 && str_eq(prev, "PLACE_CONTACT");
        let from_menu = str_eq(prev, "PLACE_MENU");
        if !from_contact && !from_menu {
            return AutostartOutcome { start: false, namer: None };
        }
        let namer = self.namer.update_infallible(namer_now);
        let start = if from_contact {
            settings.ch5_start_on_prev != Ch5StartOnPrev::Exclusively && str_eq(cur, "PLACE_MENU")
                && namer.current.eq_c(R_75) && namer.old.eq_c(R_74)
        } else if chapter == 5 {
            (settings.ch5_start_on_prev != Ch5StartOnPrev::No && str_eq(cur, "room_krisroom")
                && !namer.old.eq_c(R_75)) || (settings.ch5_start_on_prev
                != Ch5StartOnPrev::Exclusively && namer.current.eq_c(R_75) && !namer.old.eq_c(R_75))
        } else {
            namer.current.eq_c(R_75) && !namer.old.eq_c(R_75)
        };
        AutostartOutcome { start, namer: Some(namer) }
    }

    /// Records this tick's readings and returns the rules' inputs. The globals are
    /// recorded on every tick; `con`, the text checks, `flag` and the instance check are
    /// recorded in the chapters whose rules watch them, with the value read where the
    /// plan asked for one and 0 (or false) elsewhere.
    pub fn observe(&mut self, chapter: i32, plan: &ReadPlan, g: GlobalReadings, r: PlannedReadings) -> (inp:
        TickInputs)
        ensures
            inp.fighting == next_pair(old(self).fighting, g.fighting),
            inp.plot == next_pair(old(self).plot, g.plot),
            inp.choice == next_pair(old(self).choice, g.choice),
            inp.msc == next_pair(old(self).msc, g.msc),
            final(self).fighting.pair == Some(inp.fighting) && final(self).plot.pair == Some(inp.plot),
            final(self).choice.pair == Some(inp.choice) && final(self).msc.pair == Some(inp.msc),
            watches_con(chapter) ==> inp.con == next_pair(
                old(self).con,
                if plan.con is Some {
                    r.con
                } else {
                    GameNum { bits: 0 }
                },
            ) && final(self).con.pair == Some(inp.con),
            !watches_con(chapter) ==> inp.con == pair_or(old(self).con, GameNum { bits: 0 })
                && final(self).con == old(self).con,
            watches_text(chapter) ==> inp.text_check == next_pair(
                old(self).text_check,
                plan.text is Some && r.text,
            ) && final(self).text_check.pair == Some(inp.text_check),
            !watches_text(chapter) ==> inp.text_check == pair_or(old(self).text_check, false)
                && final(self).text_check == old(self).text_check,
            chapter == 2 ==> inp.text_check2 == next_pair(
                old(self).text_check2,
                plan.text2 is Some && r.text2,
            ) && final(self).text_check2.pair == Some(inp.text_check2),
            chapter != 2 ==> inp.text_check2 == pair_or(old(self).text_check2, false)
                && final(self).text_check2 == old(self).text_check2,
            chapter == 3 ==> inp.flag == next_pair(
                old(self).flag,
                if plan.flag_index is Some {
                    r.flag
                } else {
                    GameNum { bits: 0 }
                },
            ) && final(self).flag.pair == Some(inp.flag),
            chapter != 3 ==> inp.flag == pair_or(old(self).flag, GameNum { bits: 0 })
                && final(self).flag == old(self).flag,
            watches_inst(chapter) ==> inp.inst_exists == next_pair(
                old(self).inst_exists,
                plan.inst_count is Some && r.inst_count == Some(1i32),
            ) && final(self).inst_exists.pair == Some(inp.inst_exists),
            !watches_inst(chapter) ==> inp.inst_exists == pair_or(old(self).inst_exists, false)
                && final(self).inst_exists == old(self).inst_exists,
            final(self).namer == old(self).namer,
            inp.mus_current@ == r.mus_current@ && inp.mus_old@ == r.mus_old@,
            inp.credits_timer == r.credits_timer && inp.key_items@ == r.key_items@,
            inp.flag_1324 == r.flag_1324,
    {
        let zero = GameNum::zero();
        let fighting = self.fighting.update_infallible(g.fighting);
        let plot = self.plot.update_infallible(g.plot);
        let choice = self.choice.update_infallible(g.choice);
        let msc = self.msc.update_infallible(g.msc);
        let con = if chapter == 1 || chapter == 2 || chapter == 4 {
            let v = if plan.con.is_some() {
                r.con
            } else {
                zero
            };
            self.con.update_infallible(v)
        } else {
            pair_or_exec(&self.con, zero)
        };
        let text_check = if chapter == 1 || chapter == 2 || chapter == 4 || chapter == 5 {
            self.text_check.update_infallible(plan.text.is_some() && r.text)
        } else {
            pair_or_exec(&self.text_check, false)
        };
        let text_check2 = if chapter == 2 {
            self.text_check2.update_infallible(plan.text2.is_some() && r.text2)
        } else {
            pair_or_exec(&self.text_check2, false)
        };
        let flag = if chapter == 3 {
            let v = if plan.flag_index.is_some() {
                r.flag
            } else {
                zero
            };
            self.flag.update_infallible(v)
        } else {
            pair_or_exec(&self.flag, zero)
        };
        let inst_exists = if chapter == 3 || chapter == 5 {
            let exists_now = plan.inst_count.is_some() && match r.inst_count {
                Some(c) => c == 1,
                None => false,
            };
            self.inst_exists.update_infallible(exists_now)
        } else {
            pair_or_exec(&self.inst_exists, false)
        };
        TickInputs {
            plot,
            choice,
            msc,
            fighting,
            con,
            text_check,
            text_check2,
            flag,
            inst_exists,
            mus_current: r.mus_current,
            mus_old: r.mus_old,
            credits_timer: r.credits_timer,
            key_items: r.key_items,
            flag_1324: r.flag_1324,
        }
    }
}

/// Outside chapters 1 to 5 no split is ever triggered.
pub proof fn law_no_split_outside_chapters(
    chapter: i32,
    raw_changed: bool,
    prev: Seq<char>,
    cur: Seq<char>,
    settings: Settings,
    inp: &TickInputs,
)
    requires
        chapter < 1 || chapter > 5,
    ensures
        spec_chapter_split(chapter, raw_changed, prev, cur, settings, inp) == no_split(),
{
}

/// In chapters 2 to 5 the room-change rules and the same-room rules never both apply:
/// when the room stays the same only the same-room rules decide, and when it changes
/// only the room-change rules do.
pub proof fn law_room_change_or_same_room(
    chapter: i32,
    raw_changed: bool,
    prev: Seq<char>,
    cur: Seq<char>,
    settings: Settings,
    inp: &TickInputs,
)
    requires
        2 <= chapter <= 5,
    ensures
        prev == cur ==> spec_chapter_split(chapter, raw_changed, prev, cur, settings, inp) == (
        if chapter == 2 {
            spec_ch2_same_room(cur, inp)
        } else if chapter == 3 {
            spec_ch3_same_room(cur, inp)
        } else if chapter == 4 {
            spec_ch4_same_room(cur, inp)
        } else {
            spec_ch5_same_room(cur, inp)
        }),
        prev != cur ==> spec_chapter_split(chapter, raw_changed, prev, cur, settings, inp) == (
        if chapter == 2 {
            spec_ch2_room_change(prev, cur, settings, inp)
        } else if chapter == 3 {
            spec_ch3_room_change(prev, cur, settings, inp)
        } else if chapter == 4 {
            spec_ch4_room_change(prev, cur, settings, inp)
        } else {
            spec_ch5_room_change(prev, cur, settings, inp)
        }),
{
}

/// A run never starts automatically in the chapter select, and in chapter 1 only on a
/// change of room into the contact screen.
pub proof fn law_autostart_needs_entry(
    chapter: i32,
    prev: Seq<char>,
    cur: Seq<char>,
    settings: Settings,
    namer: Pair<GameNum>,
)
    ensures
        chapter == 0 ==> !spec_autostart(chapter, prev, cur, settings, namer),
        chapter == 1 && spec_autostart(chapter, prev, cur, settings, namer) ==> prev != cur && cur
            == "PLACE_CONTACT"@,
{
}

/// Leaving the menu starts a run only when the naming event has just turned 75, except
/// for the start on chapter 4 completion data in chapter 5.
pub proof fn law_menu_start_needs_event(
    chapter: i32,
    prev: Seq<char>,
    cur: Seq<char>,
    settings: Settings,
    namer: Pair<GameNum>,
)
    requires
        chapter != 0 && chapter != 1,
        chapter == 5 ==> !(cur == "room_krisroom"@ && !eqc(namer.old, R_75)),
        prev == "PLACE_MENU"@,
        spec_autostart(chapter, prev, cur, settings, namer),
    ensures
        eqc(namer.current, R_75) && !eqc(namer.old, R_75),
{
    reveal_strlit("PLACE_MENU");
    reveal_strlit("PLACE_CONTACT");
    assert("PLACE_MENU"@[6] != "PLACE_CONTACT"@[6]);
}



/// In chapter 5, loading chapter 4 completion data starts a run whenever the setting
/// allows it: going from the menu to Kris's room while the naming event is not 75.
pub proof fn law_ch5_completion_data_starts(cur: Seq<char>, settings: Settings, namer: Pair<GameNum>)
    requires
        settings.ch5_start_on_prev != Ch5StartOnPrev::No,
        cur == "room_krisroom"@,
        !eqc(namer.old, R_75),
    ensures
        spec_autostart(5, "PLACE_MENU"@, cur, settings, namer),
{
    reveal_strlit("PLACE_MENU");
    reveal_strlit("PLACE_CONTACT");
    assert("PLACE_MENU"@[6] != "PLACE_CONTACT"@[6]);
}

/// With the setting `Exclusively`, chapter 5 starts a run only on loading chapter 4
/// completion data.
pub proof fn law_ch5_exclusively_completion_data(
    prev: Seq<char>,
    cur: Seq<char>,
    settings: Settings,
    namer: Pair<GameNum>,
)
    requires
        settings.ch5_start_on_prev == Ch5StartOnPrev::Exclusively,
        spec_autostart(5, prev, cur, settings, namer),
    ensures
        prev == "PLACE_MENU"@,
        cur == "room_krisroom"@,
        !eqc(namer.old, R_75),
{
}

/// With the setting `No`, chapter 5 never starts a run on completion data: every start
/// follows the naming event reaching 75.
pub proof fn law_ch5_no_completion_data_start(
    prev: Seq<char>,
    cur: Seq<char>,
    settings: Settings,
    namer: Pair<GameNum>,
)
    requires
        settings.ch5_start_on_prev == Ch5StartOnPrev::No,
        spec_autostart(5, prev, cur, settings, namer),
    ensures
        eqc(namer.current, R_75),
{
}

/// Whether a name begins with `c`, as every chapter split's name does.
pub open spec fn begins_with_c(s: Seq<char>) -> bool {
    s.len() > 0 && s[0] == 'c'
}

/// Whether every name of a list begins with `c`.
pub open spec fn all_begin_with_c(s: Seq<Seq<char>>) -> bool
    decreases s.len(),
{
    s.len() == 0 || (begins_with_c(s[0]) && all_begin_with_c(s.drop_first()))
}

proof fn lemma_transition_begins_with_c(
    prevs: Seq<Seq<char>>,
    curs: Seq<Seq<char>>,
    names: Seq<Seq<char>>,
    prev: Seq<char>,
    cur: Seq<char>,
)
    requires
        all_begin_with_c(names),
    ensures
        spec_transition(prevs, curs, names, prev, cur) == no_split() || begins_with_c(
            spec_transition(prevs, curs, names, prev, cur),
        ),
    decreases prevs.len(),
{
    if prevs.len() == 0 || curs.len() == 0 || names.len() == 0 {
    } else if prevs[0] == prev && curs[0] == cur {
    } else {
        lemma_transition_begins_with_c(prevs.drop_first(), curs.drop_first(), names.drop_first(), prev, cur);
    }
}

proof fn lemma_ch1_names_begin_with_c()
    ensures
        all_begin_with_c(ch1_names()),
{
    reveal_strlit("ch1_bc_warp");
    reveal_strlit("ch1_bedskip");
    reveal_strlit("ch1_board");
    reveal_strlit("ch1_castle_town_room");
    reveal_strlit("ch1_cf_warp");
    reveal_strlit("ch1_cliffs");
    reveal_strlit("ch1_enter_bake_sale");
    reveal_strlit("ch1_enter_elevator");
    reveal_strlit("ch1_enter_forest_maze");
    reveal_strlit("ch1_enter_fountain");
    reveal_strlit("ch1_enter_jevil");
    reveal_strlit("ch1_exit_jevil");
    reveal_strlit("ch1_exit_kround2");
    reveal_strlit("ch1_exit_preking");
    reveal_strlit("ch1_exit_throne_room");
    reveal_strlit("ch1_fb_warp");
    reveal_strlit("ch1_field");
    reveal_strlit("ch1_get_captured");
    reveal_strlit("ch1_post_king");
    reveal_strlit("ch1_school");
    reveal_strlit("ch1_seal_fountain");
    reveal_strlit("ch1_susie_lancer_exit");
    reveal_with_fuel(all_begin_with_c, 23);
}

proof fn lemma_ch1_resume_only_from_menu(prev: Seq<char>, cur: Seq<char>, settings: Settings, inp: &TickInputs)
    ensures
        spec_ch1_room_change(prev, cur, settings, inp) != "resume_igt"@,
        spec_ch1_same_room(cur, inp) != "resume_igt"@,
{
    reveal_strlit("resume_igt");
    reveal_strlit("");
    assert(!begins_with_c("resume_igt"@));
    assert(!begins_with_c(""@));
    reveal_strlit("ch1_escape_prison");
    assert(begins_with_c("ch1_escape_prison"@));
    reveal_strlit("ch1_beat_jevil");
    assert(begins_with_c("ch1_beat_jevil"@));
    reveal_strlit("ch1_castle_town_door");
    assert(begins_with_c("ch1_castle_town_door"@));
    reveal_strlit("ch1_contact");
    assert(begins_with_c("ch1_contact"@));
    reveal_strlit("ch1_egg");
    assert(begins_with_c("ch1_egg"@));
    reveal_strlit("ch1_ending");
    assert(begins_with_c("ch1_ending"@));
    reveal_strlit("ch1_ending_ost");
    assert(begins_with_c("ch1_ending_ost"@));
    reveal_strlit("ch1_king");
    assert(begins_with_c("ch1_king"@));
    lemma_ch1_names_begin_with_c();
    lemma_transition_begins_with_c(ch1_prevs(), ch1_curs(), ch1_names(), prev, cur);
}

proof fn lemma_ch2_names_begin_with_c()
    ensures
        all_begin_with_c(ch2_names()),
{
    reveal_strlit("ch2_arcade_room");
    reveal_strlit("ch2_bedskip");
    reveal_strlit("ch2_berdly2_mr");
    reveal_strlit("ch2_cyber_city");
    reveal_strlit("ch2_dj_shop");
    reveal_strlit("ch2_ending_ost");
    reveal_strlit("ch2_enter_acid");
    reveal_strlit("ch2_enter_fountain");
    reveal_strlit("ch2_exit_acid");
    reveal_strlit("ch2_exit_neo");
    reveal_strlit("ch2_giga_queen");
    reveal_strlit("ch2_library");
    reveal_strlit("ch2_m_cf_warp");
    reveal_strlit("ch2_m_tz_warp");
    reveal_strlit("ch2_mansion_escape");
    reveal_strlit("ch2_maus_2");
    reveal_strlit("ch2_mauswheel");
    reveal_strlit("ch2_queen_room");
    reveal_strlit("ch2_ragger2_room");
    reveal_strlit("ch2_seal_fountain");
    reveal_strlit("ch2_sideb_berdly2");
    reveal_strlit("ch2_spamton_room");
    reveal_strlit("ch2_start_pandora");
    reveal_strlit("ch2_tasque_manager_room");
    reveal_strlit("ch2_tz_cf_warp");
    reveal_strlit("ch2_tz_m_warp");
    reveal_with_fuel(all_begin_with_c, 29);
}

proof fn lemma_ch2_resume_only_from_menu(prev: Seq<char>, cur: Seq<char>, settings: Settings, inp: &TickInputs)
    ensures
        spec_ch2_room_change(prev, cur, settings, inp) == "resume_igt"@ ==> prev == "PLACE_MENU"@
            && settings.ac_pause_timer,
        spec_ch2_same_room(cur, inp) != "resume_igt"@,
{
    reveal_strlit("resume_igt");
    reveal_strlit("");
    assert(!begins_with_c("resume_igt"@));
    assert(!begins_with_c(""@));
    reveal_strlit("ch2_cf_m_skip");
    assert(begins_with_c("ch2_cf_m_skip"@));
    reveal_strlit("ch2_cf_m_warp");
    assert(begins_with_c("ch2_cf_m_warp"@));
    reveal_strlit("ch2_cf_tz_skip");
    assert(begins_with_c("ch2_cf_tz_skip"@));
    reveal_strlit("ch2_cf_tz_warp");
    assert(begins_with_c("ch2_cf_tz_warp"@));
    reveal_strlit("ch2_arcade_text");
    assert(begins_with_c("ch2_arcade_text"@));
    reveal_strlit("ch2_dj_battle");
    assert(begins_with_c("ch2_dj_battle"@));
    reveal_strlit("ch2_egg");
    assert(begins_with_c("ch2_egg"@));
    reveal_strlit("ch2_ending_ac");
    assert(begins_with_c("ch2_ending_ac"@));
    reveal_strlit("ch2_ending_il");
    assert(begins_with_c("ch2_ending_il"@));
    reveal_strlit("ch2_freeze_ring");
    assert(begins_with_c("ch2_freeze_ring"@));
    reveal_strlit("ch2_thorn_ring");
    assert(begins_with_c("ch2_thorn_ring"@));
    reveal_strlit("ch2_thorny_ending");
    assert(begins_with_c("ch2_thorny_ending"@));
    lemma_ch2_names_begin_with_c();
    lemma_transition_begins_with_c(ch2_prevs(), ch2_curs(), ch2_names(), prev, cur);
}

proof fn lemma_ch3_names_begin_with_c()
    ensures
        all_begin_with_c(ch3_names()),
{
    reveal_strlit("ch3_2nd_shootout_room");
    reveal_strlit("ch3_ending_ost");
    reveal_strlit("ch3_enter_cooking");
    reveal_strlit("ch3_enter_mantle");
    reveal_strlit("ch3_enter_rhythm");
    reveal_strlit("ch3_enter_round1");
    reveal_strlit("ch3_enter_rouxls");
    reveal_strlit("ch3_enter_tv_world");
    reveal_strlit("ch3_escape_doom_board");
    reveal_strlit("ch3_exit_mantle");
    reveal_strlit("ch3_exit_rouxls");
    reveal_strlit("ch3_ice_key");
    reveal_strlit("ch3_knight_death");
    reveal_strlit("ch3_shelter_key");
    reveal_with_fuel(all_begin_with_c, 17);
}

proof fn lemma_ch3_resume_only_from_menu(prev: Seq<char>, cur: Seq<char>, settings: Settings, inp: &TickInputs)
    ensures
        spec_ch3_room_change(prev, cur, settings, inp) == "resume_igt"@ ==> prev == "PLACE_MENU"@
            && settings.ac_pause_timer,
        spec_ch3_same_room(cur, inp) != "resume_igt"@,
{
    reveal_strlit("resume_igt");
    reveal_strlit("");
    assert(!begins_with_c("resume_igt"@));
    assert(!begins_with_c(""@));
    reveal_strlit("ch3_end_round1");
    assert(begins_with_c("ch3_end_round1"@));
    reveal_strlit("ch3_end_round2");
    assert(begins_with_c("ch3_end_round2"@));
    reveal_strlit("ch3_egg");
    assert(begins_with_c("ch3_egg"@));
    reveal_strlit("ch3_end_mantle");
    assert(begins_with_c("ch3_end_mantle"@));
    reveal_strlit("ch3_ending");
    assert(begins_with_c("ch3_ending"@));
    reveal_strlit("ch3_enter_knight");
    assert(begins_with_c("ch3_enter_knight"@));
    reveal_strlit("ch3_knight_death");
    assert(begins_with_c("ch3_knight_death"@));
    reveal_strlit("ch3_knight_win");
    assert(begins_with_c("ch3_knight_win"@));
    lemma_ch3_names_begin_with_c();
    lemma_transition_begins_with_c(ch3_prevs(), ch3_curs(), ch3_names(), prev, cur);
}

proof fn lemma_ch4_names_begin_with_c()
    ensures
        all_begin_with_c(ch4_names()),
{
    reveal_strlit("ch4_chairskip");
    reveal_strlit("ch4_end_titan_climb1");
    reveal_strlit("ch4_end_titan_climb2");
    reveal_strlit("ch4_end_titan_fight");
    reveal_strlit("ch4_ending");
    reveal_strlit("ch4_ending_ost");
    reveal_strlit("ch4_enter_castle_town");
    reveal_strlit("ch4_enter_hoj");
    reveal_strlit("ch4_enter_mansion");
    reveal_strlit("ch4_enter_sanctuary");
    reveal_strlit("ch4_enter_study");
    reveal_strlit("ch4_exit_axe_room");
    reveal_strlit("ch4_golden_piano");
    reveal_strlit("ch4_grand_piano");
    reveal_strlit("ch4_seal_titan");
    reveal_strlit("ch4_second_sanctuary");
    reveal_strlit("ch4_start_titan_climb1");
    reveal_strlit("ch4_start_titan_climb2");
    reveal_strlit("ch4_third_sanctuary");
    reveal_with_fuel(all_begin_with_c, 22);
}

proof fn lemma_ch4_resume_only_from_menu(prev: Seq<char>, cur: Seq<char>, settings: Settings, inp: &TickInputs)
    ensures
        spec_ch4_room_change(prev, cur, settings, inp) == "resume_igt"@ ==> prev == "PLACE_MENU"@
            && settings.ac_pause_timer,
        spec_ch4_same_room(cur, inp) != "resume_igt"@,
{
    reveal_strlit("resume_igt");
    reveal_strlit("");
    assert(!begins_with_c("resume_igt"@));
    assert(!begins_with_c(""@));
    reveal_strlit("ch4_beat_mike");
    assert(begins_with_c("ch4_beat_mike"@));
    reveal_strlit("ch4_egg");
    assert(begins_with_c("ch4_egg"@));
    reveal_strlit("ch4_ending_il");
    assert(begins_with_c("ch4_ending_il"@));
    reveal_strlit("ch4_hammer_of_justice");
    assert(begins_with_c("ch4_hammer_of_justice"@));
    reveal_strlit("ch4_jackenstein");
    assert(begins_with_c("ch4_jackenstein"@));
    reveal_strlit("ch4_princess_ribbon");
    assert(begins_with_c("ch4_princess_ribbon"@));
    reveal_strlit("ch4_start_mike");
    assert(begins_with_c("ch4_start_mike"@));
    reveal_strlit("ch4_start_titan_fight");
    assert(begins_with_c("ch4_start_titan_fight"@));
    lemma_ch4_names_begin_with_c();
    lemma_transition_begins_with_c(ch4_prevs(), ch4_curs(), ch4_names(), prev, cur);
}

proof fn lemma_ch5_names_begin_with_c()
    ensures
        all_begin_with_c(ch5_names()),
{
    reveal_strlit("ch5_beanstalk");
    reveal_strlit("ch5_bedskip");
    reveal_strlit("ch5_dark_garden");
    reveal_strlit("ch5_end_final_climb");
    reveal_strlit("ch5_end_flowery");
    reveal_strlit("ch5_ending_src");
    reveal_strlit("ch5_enter_aqua");
    reveal_strlit("ch5_enter_castle_town");
    reveal_strlit("ch5_enter_cliff1");
    reveal_strlit("ch5_enter_cliff2");
    reveal_strlit("ch5_enter_diner");
    reveal_strlit("ch5_enter_dw");
    reveal_strlit("ch5_enter_final_save");
    reveal_strlit("ch5_enter_left");
    reveal_strlit("ch5_enter_right");
    reveal_strlit("ch5_enter_seth_aqua");
    reveal_strlit("ch5_enter_shop_room");
    reveal_strlit("ch5_enter_ultimate_shop");
    reveal_strlit("ch5_exit_aqua");
    reveal_strlit("ch5_exit_diner");
    reveal_strlit("ch5_exit_dw");
    reveal_strlit("ch5_exit_feather");
    reveal_strlit("ch5_exit_final_save");
    reveal_strlit("ch5_exit_left");
    reveal_strlit("ch5_exit_right");
    reveal_strlit("ch5_exit_seth_aqua");
    reveal_strlit("ch5_exit_shop_room");
    reveal_strlit("ch5_exit_ultimate_shop");
    reveal_strlit("ch5_fountain1");
    reveal_strlit("ch5_fountain2");
    reveal_strlit("ch5_omega_flowery");
    reveal_strlit("ch5_pink_door");
    reveal_strlit("ch5_pink_exit");
    reveal_strlit("ch5_pink_start");
    reveal_strlit("ch5_reenter_dw");
    reveal_with_fuel(all_begin_with_c, 37);
}

proof fn lemma_ch5_resume_only_from_menu(prev: Seq<char>, cur: Seq<char>, settings: Settings, inp: &TickInputs)
    ensures
        spec_ch5_room_change(prev, cur, settings, inp) == "resume_igt"@ ==> prev == "PLACE_MENU"@
            && settings.ac_pause_timer,
        spec_ch5_same_room(cur, inp) != "resume_igt"@,
{
    reveal_strlit("resume_igt");
    reveal_strlit("");
    assert(!begins_with_c("resume_igt"@));
    assert(!begins_with_c(""@));
    reveal_strlit("ch5_ending_completion_data");
    assert(begins_with_c("ch5_ending_completion_data"@));
    reveal_strlit("ch5_pink_shop");
    assert(begins_with_c("ch5_pink_shop"@));
    reveal_strlit("ch5_aqua_end");
    assert(begins_with_c("ch5_aqua_end"@));
    reveal_strlit("ch5_beat_seth_aqua");
    assert(begins_with_c("ch5_beat_seth_aqua"@));
    reveal_strlit("ch5_bread");
    assert(begins_with_c("ch5_bread"@));
    reveal_strlit("ch5_egg");
    assert(begins_with_c("ch5_egg"@));
    reveal_strlit("ch5_pink_end");
    assert(begins_with_c("ch5_pink_end"@));
    reveal_strlit("ch5_seed_packets");
    assert(begins_with_c("ch5_seed_packets"@));
    reveal_strlit("ch5_sideb");
    assert(begins_with_c("ch5_sideb"@));
    reveal_strlit("ch5_start_flowery");
    assert(begins_with_c("ch5_start_flowery"@));
    lemma_ch5_names_begin_with_c();
    lemma_transition_begins_with_c(ch5_prevs(), ch5_curs(), ch5_names(), prev, cur);
}

/// Game time is resumed only on leaving the menu with pauses on, in chapters 2 to 5:
/// no other rule ever gives the resume pseudo-split.
pub proof fn law_resume_only_from_menu(
    chapter: i32,
    raw_changed: bool,
    prev: Seq<char>,
    cur: Seq<char>,
    settings: Settings,
    inp: &TickInputs,
)
    requires
        spec_chapter_split(chapter, raw_changed, prev, cur, settings, inp) == "resume_igt"@,
    ensures
        2 <= chapter <= 5,
        prev != cur,
        prev == "PLACE_MENU"@,
        settings.ac_pause_timer,
{
    reveal_strlit("resume_igt");
    reveal_strlit("");
    assert(no_split() != "resume_igt"@) by {
        assert(no_split().len() == 0);
        assert("resume_igt"@.len() == 10);
    }
    lemma_ch1_resume_only_from_menu(prev, cur, settings, inp);
    lemma_ch2_resume_only_from_menu(prev, cur, settings, inp);
    lemma_ch3_resume_only_from_menu(prev, cur, settings, inp);
    lemma_ch4_resume_only_from_menu(prev, cur, settings, inp);
    lemma_ch5_resume_only_from_menu(prev, cur, settings, inp);
}


} // verus!
