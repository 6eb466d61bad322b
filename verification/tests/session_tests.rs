use deltarune_autosplit::session::{chapter_of_dir, engine_version_name, enough_found, game_version_name, global_retry, initial_chapter, music_path, obj_array_offset, obj_count_offset, obj_name_path, relative_target, room_name_slot, rules_active, run_over, sound_path, string_id, strings_list_offset, version_supported, working_dir_offset, TimerPhase};
use deltarune_autosplit::versions::{EngineVersion, GameVersion, PtrSize};

#[test]
fn names_shown() {
    assert_eq!(engine_version_name(EngineVersion::GM_LTS2022_0_3_99), "GameMaker LTS 2022.0.3.99 (64-bit)");
    assert_eq!(engine_version_name(EngineVersion::GMS2_2022_1), "GMS2 Monthly 2022.1.0.482 (32-bit)");
    assert_eq!(game_version_name(GameVersion::Invalid), "invalid or unrecognized");
    assert_eq!(game_version_name(GameVersion::Ch5_v247), "Ch1-5, Ch5 v0.0.247");
    assert!(version_supported(GameVersion::SP, false));
    assert!(!version_supported(GameVersion::Invalid, false));
    assert!(version_supported(GameVersion::Invalid, true));
}

#[test]
fn chapters_from_directories() {
    assert_eq!(chapter_of_dir(r"C:\Steam\DELTARUNE\chapter3_windows\"), 3);
    assert_eq!(chapter_of_dir(r"C:\Steam\DELTARUNE\chapter5_windows\"), 5);
    assert_eq!(chapter_of_dir(r"C:\Steam\DELTARUNE\"), 0);
    assert_eq!(chapter_of_dir(r"C:\Steam\DELTARUNE\chapter3_windows"), 0);
    assert_eq!(initial_chapter(EngineVersion::GMS2_v2_2_0, "ignored"), 1);
    assert_eq!(initial_chapter(EngineVersion::GMS2_2022_2, "ignored"), -1);
    assert_eq!(initial_chapter(EngineVersion::GM_LTS2022_0_3_104, r"x\chapter1_windows\"), 1);
}

#[test]
fn tables_and_offsets() {
    assert_eq!(working_dir_offset(EngineVersion::GM_LTS2022_0_3_99), 0x8B2818);
    assert_eq!(working_dir_offset(EngineVersion::GM_LTS2022_0_3_104), 0x8BA818);
    assert_eq!(sound_path(EngineVersion::GMS2_v2_2_0), vec![0]);
    assert_eq!(sound_path(EngineVersion::GMS2_2022_2), vec![0x4E20B4, 0x58, 0xC0, 0x40, 0x0]);
    assert_eq!(music_path(EngineVersion::GM_LTS2022_0_3_104), vec![0x6AAF90, 0x0, 0x0, 0x0]);
    assert_eq!(strings_list_offset(EngineVersion::GMS2_2022_1), 0x43EA88);
    assert_eq!(obj_array_offset(EngineVersion::GM_LTS2022_0_3_99), 0x69FA98);
    assert_eq!(obj_count_offset(PtrSize::Bit64), 0xC);
    assert_eq!(obj_count_offset(PtrSize::Bit32), 0x8);
    assert_eq!(obj_name_path(EngineVersion::GMS2_v2_2_0, PtrSize::Bit32), [0xC, 0x14, 0]);
    assert_eq!(obj_name_path(EngineVersion::GM_LTS2022_0_3_104, PtrSize::Bit64), [0x18, 0, 0]);
    assert_eq!(string_id(EngineVersion::GMS2_v2_2_0, 42), 42);
    assert_eq!(string_id(EngineVersion::GM_LTS2022_0_3_104, 42), 100_042);
    assert!(enough_found(75, 100));
    assert!(!enough_found(74, 100));
    assert!(enough_found(0, 1));
}

#[test]
fn timer_decisions() {
    assert!(run_over(TimerPhase::NotRunning));
    assert!(run_over(TimerPhase::Ended));
    assert!(!run_over(TimerPhase::Running));
    assert!(!run_over(TimerPhase::Paused));
    assert!(rules_active(TimerPhase::Running, 1));
    assert!(!rules_active(TimerPhase::Running, 0));
    assert!(!rules_active(TimerPhase::Paused, 2));
    assert_eq!(global_retry(0, true, 3), (3, false));
    assert_eq!(global_retry(2, false, 3), (3, false));
    assert_eq!(global_retry(2, true, 3), (2, false));
    assert_eq!(global_retry(2, true, 1), (5, true));
    assert_eq!(global_retry(-1, true, -7), (5, true));
}

#[test]
fn room_slots() {
    assert_eq!(room_name_slot(0x1000, 3, PtrSize::Bit64), 0x1018);
    assert_eq!(room_name_slot(0x1000, 3, PtrSize::Bit32), 0x100C);
    assert_eq!(room_name_slot(0x1000, -1, PtrSize::Bit64), 0x1000 - 8);
}

#[test]
fn relative_addresses() {
    assert_eq!(relative_target(0x1000, 0x20), 0x1024);
    assert_eq!(relative_target(0x1000, -0x10), 0xFF4);
    assert_eq!(relative_target(0x1000, -4), 0x1000);
    assert_eq!(relative_target(u64::MAX, 1), 4);
}
