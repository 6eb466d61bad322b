//! Attaching to the game and driving a session: what the user is shown about the
//! versions found, which chapter the process runs, where the runner keeps its string
//! and object tables, and the per-tick decisions about the timer.

use vstd::prelude::*;
use crate::text::{ends_with, spec_ends_with};
use crate::versions::{EngineVersion, GameVersion, PtrSize, verPs};

verus! {

/// The name shown for an engine version.
pub fn engine_version_name(v: EngineVersion) -> (r: &'static str)
    ensures
        r@ == (match v {
            EngineVersion::GMS2_v2_2_0 => "GMS2 v2.2.0 (32-bit)"@,
            EngineVersion::GMS2_2022_1 => "GMS2 Monthly 2022.1.0.482 (32-bit)"@,
            EngineVersion::GMS2_2022_2 => "GMS2 Monthly 2022.2 (32-bit)"@,
            EngineVersion::GM_LTS2022_0_3_99 => "GameMaker LTS 2022.0.3.99 (64-bit)"@,
            EngineVersion::GM_LTS2022_0_3_104 => "GameMaker LTS 2022.0.3.104 (64-bit)"@,
        }),
{
    match v {
        EngineVersion::GMS2_v2_2_0 => "GMS2 v2.2.0 (32-bit)",
        EngineVersion::GMS2_2022_1 => "GMS2 Monthly 2022.1.0.482 (32-bit)",
        EngineVersion::GMS2_2022_2 => "GMS2 Monthly 2022.2 (32-bit)",
        EngineVersion::GM_LTS2022_0_3_99 => "GameMaker LTS 2022.0.3.99 (64-bit)",
        EngineVersion::GM_LTS2022_0_3_104 => "GameMaker LTS 2022.0.3.104 (64-bit)",
    }
}

/// The name shown for a game version.
pub fn game_version_name(v: GameVersion) -> (r: &'static str)
    ensures
        r@ == (match v {
            GameVersion::Invalid => "invalid or unrecognized"@,
            GameVersion::SP => "SURVEY_PROGRAM"@,
            GameVersion::D109 => "Demo v1.09"@,
            GameVersion::D110 => "Demo v1.10"@,
            GameVersion::D115 => "Demo v1.15"@,
            GameVersion::D119 => "Demo v1.19"@,
            GameVersion::Ch4_v102 => "Ch1-4 v1.02"@,
            GameVersion::Ch5_v244 => "Ch1-5, Ch5 v0.0.244"@,
            GameVersion::Ch5_v247 => "Ch1-5, Ch5 v0.0.247"@,
        }),
{
    match v {
        GameVersion::Invalid => "invalid or unrecognized",
        GameVersion::SP => "SURVEY_PROGRAM",
        GameVersion::D109 => "Demo v1.09",
        GameVersion::D110 => "Demo v1.10",
        GameVersion::D115 => "Demo v1.15",
        GameVersion::D119 => "Demo v1.19",
        GameVersion::Ch4_v102 => "Ch1-4 v1.02",
        GameVersion::Ch5_v244 => "Ch1-5, Ch5 v0.0.244",
        GameVersion::Ch5_v247 => "Ch1-5, Ch5 v0.0.247",
    }
}

/// Whether the tracker runs on this game version: a recognized release, or any when the
/// user allows unsupported versions.
pub fn version_supported(game: GameVersion, allow_unsupported: bool) -> (r: bool)
    ensures
        r == (allow_unsupported || game != GameVersion::Invalid),
{
    allow_unsupported || game != GameVersion::Invalid
}

/// The chapter whose game runs from the working directory `dir`: the directory of a
/// chapter ends in `chapterN_windows\`; any other directory is the chapter select (0).
pub open spec fn spec_chapter_of_dir(dir: Seq<char>) -> i32 {
    if spec_ends_with(dir, r"chapter1_windows\"@) {
        1
    } else if spec_ends_with(dir, r"chapter2_windows\"@) {
        2
    } else if spec_ends_with(dir, r"chapter3_windows\"@) {
        3
    } else if spec_ends_with(dir, r"chapter4_windows\"@) {
        4
    } else if spec_ends_with(dir, r"chapter5_windows\"@) {
        5
    } else {
        0
    }
}

/// The chapter of the working directory `dir`, as `spec_chapter_of_dir` says.
pub fn chapter_of_dir(dir: &str) -> (r: i32)
    ensures
        r == spec_chapter_of_dir(dir@),
{
    if ends_with(dir, r"chapter1_windows\") {
        1
    } else if ends_with(dir, r"chapter2_windows\") {
        2
    } else if ends_with(dir, r"chapter3_windows\") {
        3
    } else if ends_with(dir, r"chapter4_windows\") {
        4
    } else if ends_with(dir, r"chapter5_windows\") {
        5
    } else {
        0
    }
}

/// The chapter known on attaching: a 64-bit runner tells it by its working directory,
/// SURVEY_PROGRAM is chapter 1, and the 32-bit demos report it later through a global
/// (-1 until then). `dir` is only read for a 64-bit runner.
pub fn initial_chapter(version: EngineVersion, dir: &str) -> (r: i32)
    ensures
        verPs(version) == PtrSize::Bit64 ==> r == spec_chapter_of_dir(dir@),
        version == EngineVersion::GMS2_v2_2_0 ==> r == 1,
        (version == EngineVersion::GMS2_2022_1 || version == EngineVersion::GMS2_2022_2) ==> r == -1,
{
    match version {
        EngineVersion::GMS2_v2_2_0 => 1,
        EngineVersion::GMS2_2022_1 | EngineVersion::GMS2_2022_2 => -1,
        _ => chapter_of_dir(dir),
    }
}

/// Where a 64-bit runner keeps the pointer to its working directory.
pub fn working_dir_offset(version: EngineVersion) -> (r: u64)
    requires
        verPs(version) == PtrSize::Bit64,
    ensures
        r == (if version == EngineVersion::GM_LTS2022_0_3_99 { 0x8B2818u64 } else { 0x8BA818u64 }),
{
    match version {
        EngineVersion::GM_LTS2022_0_3_99 => 0x8B2818,
        _ => 0x8BA818,
    }
}

/// The pointer path to the name of the sound playing; the placeholder `[0]` for
/// SURVEY_PROGRAM, which has none.
pub fn sound_path(version: EngineVersion) -> (r: Vec<u64>)
    ensures
        r@ == (match version {
            EngineVersion::GMS2_v2_2_0 => seq![0u64],
            EngineVersion::GMS2_2022_1 => seq![0x4E0794u64, 0x58, 0xC0, 0x40, 0x0],
            EngineVersion::GMS2_2022_2 => seq![0x4E20B4u64, 0x58, 0xC0, 0x40, 0x0],
            EngineVersion::GM_LTS2022_0_3_99 => seq![0x6A3818u64, 0x60, 0xD0, 0x58, 0x0],
            EngineVersion::GM_LTS2022_0_3_104 => seq![0x6AB818u64, 0x60, 0xD0, 0x58, 0x0],
        }),
{
    let r = match version {
        EngineVersion::GMS2_v2_2_0 => vec![0],
        EngineVersion::GMS2_2022_1 => vec![0x4E0794, 0x58, 0xC0, 0x40, 0x0],
        EngineVersion::GMS2_2022_2 => vec![0x4E20B4, 0x58, 0xC0, 0x40, 0x0],
        EngineVersion::GM_LTS2022_0_3_99 => vec![0x6A3818, 0x60, 0xD0, 0x58, 0x0],
        EngineVersion::GM_LTS2022_0_3_104 => vec![0x6AB818, 0x60, 0xD0, 0x58, 0x0],
    };
    assert(r@ =~= (match version {
        EngineVersion::GMS2_v2_2_0 => seq![0u64],
        EngineVersion::GMS2_2022_1 => seq![0x4E0794u64, 0x58, 0xC0, 0x40, 0x0],
        EngineVersion::GMS2_2022_2 => seq![0x4E20B4u64, 0x58, 0xC0, 0x40, 0x0],
        EngineVersion::GM_LTS2022_0_3_99 => seq![0x6A3818u64, 0x60, 0xD0, 0x58, 0x0],
        EngineVersion::GM_LTS2022_0_3_104 => seq![0x6AB818u64, 0x60, 0xD0, 0x58, 0x0],
    }));
    r
}

/// The pointer path to the name of the music playing; the placeholder `[0]` for
/// SURVEY_PROGRAM, which has none.
pub fn music_path(version: EngineVersion) -> (r: Vec<u64>)
    ensures
        r@ == (match version {
            EngineVersion::GMS2_v2_2_0 => seq![0u64],
            EngineVersion::GMS2_2022_1 => seq![0x4DFF58u64, 0x0, 0x44, 0x0],
            EngineVersion::GMS2_2022_2 => seq![0x4E1878u64, 0x0, 0x0, 0x0],
            EngineVersion::GM_LTS2022_0_3_99 => seq![0x6A2F90u64, 0x0, 0x0, 0x0],
            EngineVersion::GM_LTS2022_0_3_104 => seq![0x6AAF90u64, 0x0, 0x0, 0x0],
        }),
{
    let r = match version {
        EngineVersion::GMS2_v2_2_0 => vec![0],
        EngineVersion::GMS2_2022_1 => vec![0x4DFF58, 0x0, 0x44, 0x0],
        EngineVersion::GMS2_2022_2 => vec![0x4E1878, 0x0, 0x0, 0x0],
        EngineVersion::GM_LTS2022_0_3_99 => vec![0x6A2F90, 0x0, 0x0, 0x0],
        EngineVersion::GM_LTS2022_0_3_104 => vec![0x6AAF90, 0x0, 0x0, 0x0],
    };
    assert(r@ =~= (match version {
        EngineVersion::GMS2_v2_2_0 => seq![0u64],
        EngineVersion::GMS2_2022_1 => seq![0x4DFF58u64, 0x0, 0x44, 0x0],
        EngineVersion::GMS2_2022_2 => seq![0x4E1878u64, 0x0, 0x0, 0x0],
        EngineVersion::GM_LTS2022_0_3_99 => seq![0x6A2F90u64, 0x0, 0x0, 0x0],
        EngineVersion::GM_LTS2022_0_3_104 => seq![0x6AAF90u64, 0x0, 0x0, 0x0],
    }));
    r
}

/// Where the runner keeps its table of string names, relative to the module.
pub fn strings_list_offset(version: EngineVersion) -> (r: u64)
    ensures
        r == (match version {
            EngineVersion::GMS2_v2_2_0 => 0x3EAE58u64,
            EngineVersion::GMS2_2022_1 => 0x43EA88u64,
            EngineVersion::GMS2_2022_2 => 0x440AA8u64,
            EngineVersion::GM_LTS2022_0_3_99 => 0x5F4CF8u64,
            EngineVersion::GM_LTS2022_0_3_104 => 0x5FCD08u64,
        }),
{
    match version {
        EngineVersion::GMS2_v2_2_0 => 0x3EAE58,
        EngineVersion::GMS2_2022_1 => 0x43EA88,
        EngineVersion::GMS2_2022_2 => 0x440AA8,
        EngineVersion::GM_LTS2022_0_3_99 => 0x5F4CF8,
        EngineVersion::GM_LTS2022_0_3_104 => 0x5FCD08,
    }
}

/// The string id of entry `i` of the string table: SURVEY_PROGRAM numbers from 0, the
/// later runners from 100000.
pub fn string_id(version: EngineVersion, i: u32) -> (r: u32)
    requires
        version != EngineVersion::GMS2_v2_2_0 ==> i + 100000 <= u32::MAX,
    ensures
        r == (if version == EngineVersion::GMS2_v2_2_0 { i as int } else { i + 100000 }),
{
    match version {
        EngineVersion::GMS2_v2_2_0 => i,
        _ => i + 100000,
    }
}

/// Whether a table read found enough entries: at least three quarters of the `total`
/// the runner reports; otherwise the read is retried.
pub fn enough_found(found: u32, total: u32) -> (r: bool)
    requires
        total * 3 <= u32::MAX,
    ensures
        r == (found >= total * 3 / 4),
{
    found >= total * 3 / 4
}

/// Where the runner keeps its object table, relative to the module.
pub fn obj_array_offset(version: EngineVersion) -> (r: u64)
    ensures
        r == (match version {
            EngineVersion::GMS2_v2_2_0 => 0x49A5C8u64,
            EngineVersion::GMS2_2022_1 => 0x4DCCECu64,
            EngineVersion::GMS2_2022_2 => 0x4DE60Cu64,
            EngineVersion::GM_LTS2022_0_3_99 => 0x69FA98u64,
            EngineVersion::GM_LTS2022_0_3_104 => 0x6A7A98u64,
        }),
{
    match version {
        EngineVersion::GMS2_v2_2_0 => 0x49A5C8,
        EngineVersion::GMS2_2022_1 => 0x4DCCEC,
        EngineVersion::GMS2_2022_2 => 0x4DE60C,
        EngineVersion::GM_LTS2022_0_3_99 => 0x69FA98,
        EngineVersion::GM_LTS2022_0_3_104 => 0x6A7A98,
    }
}

/// Where the object table keeps its number of objects.
pub fn obj_count_offset(ps: PtrSize) -> (r: u64)
    requires
        ps != PtrSize::Bit16,
    ensures
        r == (if ps == PtrSize::Bit64 { 0xCu64 } else { 0x8u64 }),
{
    match ps {
        PtrSize::Bit64 => 0xC,
        _ => 0x8,
    }
}

/// The pointer path from an object to its name.
pub fn obj_name_path(version: EngineVersion, ps: PtrSize) -> (r: [u64; 3])
    requires
        ps != PtrSize::Bit16,
    ensures
        r@ == seq![
            if ps == PtrSize::Bit64 { 0x18u64 } else { 0xCu64 },
            if version == EngineVersion::GMS2_v2_2_0 { 0x14u64 } else { 0u64 },
            0u64,
        ],
{
    let prop: u64 = match ps {
        PtrSize::Bit64 => 0x18,
        _ => 0xC,
    };
    let name: u64 = match version {
        EngineVersion::GMS2_v2_2_0 => 0x14,
        _ => 0,
    };
    let r = [prop, name, 0];
    assert(r@ =~= seq![prop, name, 0u64]);
    r
}

/// The state of the host's timer.
#[derive(Clone, Copy, PartialEq, Eq, Structural, Debug)]
pub enum TimerPhase {
    NotRunning,
    Running,
    Paused,
    Ended,
}

/// Whether a run is over: the timer is stopped or has ended, so the run's splits and
/// items are forgotten.
pub fn run_over(phase: TimerPhase) -> (r: bool)
    ensures
        r == (phase == TimerPhase::NotRunning || phase == TimerPhase::Ended),
{
    match phase {
        TimerPhase::NotRunning | TimerPhase::Ended => true,
        _ => false,
    }
}

/// Whether the split rules run this tick: the timer runs and a chapter is known.
pub fn rules_active(phase: TimerPhase, chapter: i32) -> (r: bool)
    ensures
        r == (phase == TimerPhase::Running && chapter > 0),
{
    phase == TimerPhase::Running && chapter > 0
}

/// The countdown before the global scope is looked up again. While a chapter runs and
/// no global has been found, each tick counts down; at zero the lookup is redone and the
/// countdown restarts from 5.
pub fn global_retry(chapter: i32, nothing_found: bool, countdown: i32) -> (r: (i32, bool))
    requires
        countdown > i32::MIN,
    ensures
        !(chapter != 0 && nothing_found) ==> r == (countdown, false),
        chapter != 0 && nothing_found && countdown - 1 <= 0 ==> r == (5i32, true),
        chapter != 0 && nothing_found && countdown - 1 > 0 ==> r == ((countdown - 1) as i32, false),
{
    if chapter != 0 && nothing_found {
        let t = countdown - 1;
        if t <= 0 {
            (5, true)
        } else {
            (t, false)
        }
    } else {
        (countdown, false)
    }
}

/// The address that a 32-bit displacement `disp`, stored at `at`, refers to: the address
/// just past the displacement moved by `disp`, wrapping as the host's addresses do.
pub fn relative_target(at: u64, disp: i32) -> (r: u64)
    ensures
        r == vstd::wrapping::u64_specs::wrapping_add(
            at,
            vstd::wrapping::u64_specs::wrapping_add(disp as u64, 4u64),
        ),
{
    at.wrapping_add((disp as u64).wrapping_add(4))
}

/// The address of the slot holding room `room_id`'s name in the room table at `base`:
/// slots are a pointer wide, and the arithmetic wraps as the host's addresses do.
pub fn room_name_slot(base: u64, room_id: i32, ps: PtrSize) -> (r: u64)
    requires
        ps != PtrSize::Bit16,
    ensures
        r == vstd::wrapping::u64_specs::wrapping_add(
            base,
            vstd::wrapping::u64_specs::wrapping_mul(
                room_id as u64,
                if ps == PtrSize::Bit64 { 8u64 } else { 4u64 },
            ),
        ),
{
    let width: u64 = match ps {
        PtrSize::Bit64 => 8,
        _ => 4,
    };
    base.wrapping_add((room_id as u64).wrapping_mul(width))
}

/// The working directory of chapter N ends in `chapterN_windows\` for N from 1 to 5 and
/// gives chapter N; a directory that ends in none of them is the chapter select (0).
pub proof fn law_chapter_directories(dir: Seq<char>)
    ensures
        spec_ends_with(dir, r"chapter1_windows\"@) ==> spec_chapter_of_dir(dir) == 1i32,
        spec_ends_with(dir, r"chapter2_windows\"@) ==> spec_chapter_of_dir(dir) == 2i32,
        spec_ends_with(dir, r"chapter3_windows\"@) ==> spec_chapter_of_dir(dir) == 3i32,
        spec_ends_with(dir, r"chapter4_windows\"@) ==> spec_chapter_of_dir(dir) == 4i32,
        spec_ends_with(dir, r"chapter5_windows\"@) ==> spec_chapter_of_dir(dir) == 5i32,
        !spec_ends_with(dir, r"chapter1_windows\"@) && !spec_ends_with(dir, r"chapter2_windows\"@) && !spec_ends_with(dir, r"chapter3_windows\"@) && !spec_ends_with(dir, r"chapter4_windows\"@) && !spec_ends_with(dir, r"chapter5_windows\"@) ==> spec_chapter_of_dir(dir) == 0i32,
{
    reveal_strlit(r"chapter1_windows\");
    reveal_strlit(r"chapter2_windows\");
    reveal_strlit(r"chapter3_windows\");
    reveal_strlit(r"chapter4_windows\");
    reveal_strlit(r"chapter5_windows\");
    if spec_ends_with(dir, r"chapter1_windows\"@) && spec_ends_with(dir, r"chapter2_windows\"@) {
        assert(r"chapter1_windows\"@[7] != r"chapter2_windows\"@[7]);
        assert(dir[dir.len() - 10] == r"chapter1_windows\"@[7]);
        assert(dir[dir.len() - 10] == r"chapter2_windows\"@[7]);
    }
    if spec_ends_with(dir, r"chapter1_windows\"@) && spec_ends_with(dir, r"chapter3_windows\"@) {
        assert(r"chapter1_windows\"@[7] != r"chapter3_windows\"@[7]);
        assert(dir[dir.len() - 10] == r"chapter1_windows\"@[7]);
        assert(dir[dir.len() - 10] == r"chapter3_windows\"@[7]);
    }
    if spec_ends_with(dir, r"chapter1_windows\"@) && spec_ends_with(dir, r"chapter4_windows\"@) {
        assert(r"chapter1_windows\"@[7] != r"chapter4_windows\"@[7]);
        assert(dir[dir.len() - 10] == r"chapter1_windows\"@[7]);
        assert(dir[dir.len() - 10] == r"chapter4_windows\"@[7]);
    }
    if spec_ends_with(dir, r"chapter1_windows\"@) && spec_ends_with(dir, r"chapter5_windows\"@) {
        assert(r"chapter1_windows\"@[7] != r"chapter5_windows\"@[7]);
        assert(dir[dir.len() - 10] == r"chapter1_windows\"@[7]);
        assert(dir[dir.len() - 10] == r"chapter5_windows\"@[7]);
    }
    if spec_ends_with(dir, r"chapter2_windows\"@) && spec_ends_with(dir, r"chapter3_windows\"@) {
        assert(r"chapter2_windows\"@[7] != r"chapter3_windows\"@[7]);
        assert(dir[dir.len() - 10] == r"chapter2_windows\"@[7]);
        assert(dir[dir.len() - 10] == r"chapter3_windows\"@[7]);
    }
    if spec_ends_with(dir, r"chapter2_windows\"@) && spec_ends_with(dir, r"chapter4_windows\"@) {
        assert(r"chapter2_windows\"@[7] != r"chapter4_windows\"@[7]);
        assert(dir[dir.len() - 10] == r"chapter2_windows\"@[7]);
        assert(dir[dir.len() - 10] == r"chapter4_windows\"@[7]);
    }
    if spec_ends_with(dir, r"chapter2_windows\"@) && spec_ends_with(dir, r"chapter5_windows\"@) {
        assert(r"chapter2_windows\"@[7] != r"chapter5_windows\"@[7]);
        assert(dir[dir.len() - 10] == r"chapter2_windows\"@[7]);
        assert(dir[dir.len() - 10] == r"chapter5_windows\"@[7]);
    }
    if spec_ends_with(dir, r"chapter3_windows\"@) && spec_ends_with(dir, r"chapter4_windows\"@) {
        assert(r"chapter3_windows\"@[7] != r"chapter4_windows\"@[7]);
        assert(dir[dir.len() - 10] == r"chapter3_windows\"@[7]);
        assert(dir[dir.len() - 10] == r"chapter4_windows\"@[7]);
    }
    if spec_ends_with(dir, r"chapter3_windows\"@) && spec_ends_with(dir, r"chapter5_windows\"@) {
        assert(r"chapter3_windows\"@[7] != r"chapter5_windows\"@[7]);
        assert(dir[dir.len() - 10] == r"chapter3_windows\"@[7]);
        assert(dir[dir.len() - 10] == r"chapter5_windows\"@[7]);
    }
    if spec_ends_with(dir, r"chapter4_windows\"@) && spec_ends_with(dir, r"chapter5_windows\"@) {
        assert(r"chapter4_windows\"@[7] != r"chapter5_windows\"@[7]);
        assert(dir[dir.len() - 10] == r"chapter4_windows\"@[7]);
        assert(dir[dir.len() - 10] == r"chapter5_windows\"@[7]);
    }
}

} // verus!
