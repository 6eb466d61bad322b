use std::collections::HashMap;
use deltarune_autosplit::memory::{all_instances_layout, arr_pos, element_address, first_instance, first_instance_layout, get_obj, instance_walk_step, ScanAction, WalkAction, global_offset, ptr_bytes, uses_demo_global, GlobalReader, InstanceLayout, NameMap, VarFinder, VarLocation, NULL};
use deltarune_autosplit::versions::{EngineVersion, PtrSize};

#[test]
fn array_positions() {
    assert_eq!(arr_pos(0), 0);
    assert_eq!(arr_pos(12), 0xC0);
    assert_eq!(arr_pos(1851), 1851 * 16);
    assert_eq!(element_address(0x1000, 3), 0x1030);
    assert_eq!(element_address(u64::MAX, 1), 15);
    assert_eq!(ptr_bytes(PtrSize::Bit64), 8);
    assert_eq!(ptr_bytes(PtrSize::Bit32), 4);
}

#[test]
fn name_map_reads_back_writes() {
    let mut m = NameMap::new();
    assert!(m.is_empty());
    assert_eq!(get_obj(&m, "obj_writer"), NULL);
    m.insert("obj_writer", 0x10);
    m.insert("obj_credits", 0x20);
    m.insert("obj_writer", 0x30);
    assert_eq!(m.get("obj_writer"), Some(0x30));
    assert_eq!(get_obj(&m, "obj_credits"), 0x20);
    assert_eq!(m.get("obj_writer_ch1"), None);
    assert!(!m.is_empty());
    m.clear();
    assert!(m.is_empty());
}

#[test]
fn finders() {
    assert_eq!(VarFinder::instance_table_offset(EngineVersion::GMS2_v2_2_0), 0x60);
    assert_eq!(VarFinder::instance_table_offset(EngineVersion::GMS2_2022_2), 0x24);
    assert_eq!(VarFinder::instance_table_offset(EngineVersion::GM_LTS2022_0_3_104), 0x48);
    let sp = VarFinder::from_instance(EngineVersion::GMS2_v2_2_0, 0x100, 0x200);
    assert_eq!((sp.num_addr, sp.arr_addr, sp.ps, sp.jmp), (0x108, 0x204, PtrSize::Bit32, 0xC));
    let lts = VarFinder::from_instance(EngineVersion::GM_LTS2022_0_3_99, 0x100, 0x200);
    assert_eq!((lts.num_addr, lts.arr_addr, lts.ps, lts.jmp), (0x108, 0x200, PtrSize::Bit64, 0x10));
    let demo = VarFinder::from_demo_global(EngineVersion::GMS2_2022_1, 0x1000, 0x5000);
    assert_eq!((demo.num_addr, demo.arr_addr, demo.ps, demo.jmp), (0x1028, 0x5000, PtrSize::Bit32, 0xC));
    assert_eq!(lts.scan_end(3), 0x30);
    assert_eq!(demo.scan_end(u32::MAX), u32::MAX as u64 * 0xC);
    assert_eq!(sp.slot_id_address(0x18), 0x204 + 0x18 - 4);
    assert_eq!(demo.slot_id_address(0x18), 0x5000 + 0x18 + 4);
    assert_eq!(lts.slot_id_address(0x20), 0x200 + 0x20 + 8);
    let zero = VarFinder::from_instance(EngineVersion::GMS2_v2_2_0, 0, 0);
    assert_eq!(zero.slot_id_address(0), 0);
    let top = VarFinder::from_demo_global(EngineVersion::GMS2_2022_1, u64::MAX, u64::MAX);
    assert_eq!(top.num_addr, 0x27);
    assert_eq!(top.slot_id_address(0), 3);
}

#[test]
fn slot_matching() {
    let mut names = HashMap::new();
    names.insert(100_005u32, "plot".to_string());
    names.insert(100_006u32, "flag".to_string());
    let lts = VarFinder::from_instance(EngineVersion::GM_LTS2022_0_3_104, 0x100, 0x200);
    match lts.match_slot(&names, "plot", 0x40, 100_005) {
        Some(VarLocation::Pointer { addr, ps }) => {
            assert_eq!(addr, 0x240);
            assert_eq!(ps, PtrSize::Bit64);
        }
        other => panic!("unexpected {:?}", other),
    }
    match lts.match_slot(&names, "flag[0]", 0x50, 100_006) {
        Some(VarLocation::ArrayElement0 { base, ps, path, wide }) => {
            assert_eq!(base, 0x200);
            assert_eq!(ps, PtrSize::Bit64);
            assert_eq!(path, vec![0x50, 0x0, 0x90]);
            assert!(wide);
        }
        other => panic!("unexpected {:?}", other),
    }
    let sp = VarFinder::from_instance(EngineVersion::GMS2_v2_2_0, 0, 0);
    match sp.match_slot(&names, "flag[0]", 0xC, 100_006) {
        Some(VarLocation::ArrayElement0 { path, wide, .. }) => {
            assert_eq!(path, vec![0xC, 0x0, 0x24, 0xC]);
            assert!(!wide);
        }
        other => panic!("unexpected {:?}", other),
    }
    assert!(lts.match_slot(&names, "plot", 0x40, 100_006).is_none());
    assert!(lts.match_slot(&names, "choice", 0x40, 7).is_none());
}

#[test]
fn global_cache() {
    let finder = VarFinder::from_instance(EngineVersion::GM_LTS2022_0_3_104, 0, 0);
    let mut g = GlobalReader::new(finder);
    assert_eq!(g.cached("plot"), None);
    assert_eq!(g.remember("plot", NULL), NULL);
    assert_eq!(g.cached("plot"), None);
    assert!(g.cache.is_empty());
    assert_eq!(g.remember("plot", 0x99), 0x99);
    assert_eq!(g.cached("plot"), Some(0x99));
}

#[test]
fn layouts_and_offsets() {
    assert_eq!(first_instance_layout(EngineVersion::GMS2_v2_2_0), InstanceLayout { obj_prop: 0xC, count: 0xCC, first_node: 0xC4, node_inst: 0x8 });
    assert_eq!(all_instances_layout(EngineVersion::GMS2_v2_2_0), InstanceLayout { obj_prop: 0x18, count: 0xCC, first_node: 0xC4, node_inst: 0x8 });
    assert_eq!(all_instances_layout(EngineVersion::GMS2_2022_1), InstanceLayout { obj_prop: 0xC, count: 0x40, first_node: 0x38, node_inst: 0x8 });
    assert_eq!(first_instance_layout(EngineVersion::GM_LTS2022_0_3_99), InstanceLayout { obj_prop: 0x18, count: 0x78, first_node: 0x68, node_inst: 0x10 });
    assert_eq!(all_instances_layout(EngineVersion::GM_LTS2022_0_3_104), InstanceLayout { obj_prop: 0x18, count: 0x78, first_node: 0x68, node_inst: 0x10 });
    assert_eq!(global_offset(EngineVersion::GMS2_v2_2_0), 0x49C3E0);
    assert_eq!(global_offset(EngineVersion::GM_LTS2022_0_3_104), 0x6A9CA8);
    assert!(uses_demo_global(EngineVersion::GMS2_2022_2));
    assert!(!uses_demo_global(EngineVersion::GMS2_v2_2_0));
}

#[test]
fn name_map_counts_names() {
    let mut m = NameMap::new();
    assert_eq!(m.len(), 0);
    m.insert("obj_writer", 0x10);
    m.insert("obj_credits", 0x20);
    m.insert("obj_writer", 0x30);
    assert_eq!(m.len(), 2);
    assert_eq!(get_obj(&m, "obj_writer"), 0x30);
    m.clear();
    assert_eq!(m.len(), 0);
}

#[test]
fn variable_scan_stops_at_first_match() {
    let mut names = HashMap::new();
    names.insert(100_005u32, "plot".to_string());
    let lts = VarFinder::from_instance(EngineVersion::GM_LTS2022_0_3_104, 0x100, 0x200);
    assert!(matches!(lts.scan_begin(0), ScanAction::Missing));
    match lts.scan_begin(3) {
        ScanAction::ReadId { offset, id_at } => {
            assert_eq!(offset, 0);
            assert_eq!(id_at, 0x208);
        }
        other => panic!("unexpected {:?}", other),
    }
    match lts.scan_next(&names, "plot", 3, 0, 7) {
        ScanAction::ReadId { offset, id_at } => {
            assert_eq!(offset, 0x10);
            assert_eq!(id_at, 0x218);
        }
        other => panic!("unexpected {:?}", other),
    }
    match lts.scan_next(&names, "plot", 3, 0x10, 100_005) {
        ScanAction::Found(VarLocation::Pointer { addr, ps }) => {
            assert_eq!(addr, 0x210);
            assert_eq!(ps, PtrSize::Bit64);
        }
        other => panic!("unexpected {:?}", other),
    }
    assert!(matches!(lts.scan_next(&names, "plot", 3, 0x20, 7), ScanAction::Missing));
    let sp = VarFinder::from_instance(EngineVersion::GMS2_v2_2_0, 0, 0x100);
    match sp.scan_next(&names, "choice", 2, 0, 100_005) {
        ScanAction::ReadId { offset, id_at } => {
            assert_eq!(offset, 0xC);
            assert_eq!(id_at, 0x100 + 4 + 0xC - 4);
        }
        other => panic!("unexpected {:?}", other),
    }
}

#[test]
fn first_instances() {
    assert_eq!(first_instance(None, 3, Some(0x50)), NULL);
    assert_eq!(first_instance(Some(0x10), 0, Some(0x50)), NULL);
    assert_eq!(first_instance(Some(0x10), 2, Some(0x50)), 0x50);
    assert_eq!(first_instance(Some(0x10), 2, None), NULL);
}

#[test]
fn instance_walks() {
    let l = all_instances_layout(EngineVersion::GM_LTS2022_0_3_104);
    assert_eq!(instance_walk_step(&l, 0, 0, 0x1000), WalkAction::Done);
    assert_eq!(instance_walk_step(&l, 2, 0, 0x1000), WalkAction::Take { inst_at: 0x1010, follow: true });
    assert_eq!(instance_walk_step(&l, 2, 1, 0x2000), WalkAction::Take { inst_at: 0x2010, follow: false });
    assert_eq!(instance_walk_step(&l, 2, 2, 0x2000), WalkAction::Done);
    let d = all_instances_layout(EngineVersion::GMS2_2022_1);
    assert_eq!(instance_walk_step(&d, 1, 0, 0x30), WalkAction::Take { inst_at: 0x38, follow: false });
}
