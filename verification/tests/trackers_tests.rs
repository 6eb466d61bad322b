use deltarune_autosplit::num::GameNum;
use deltarune_autosplit::trackers::{PathTrack, VarTrack};
use deltarune_autosplit::versions::PtrSize;
use deltarune_autosplit::watch::{Pair, Watcher};

#[test]
fn watcher_pairs() {
    let mut w: Watcher<i32> = Watcher::new();
    assert_eq!(w.update_infallible(5), Pair { old: 5, current: 5 });
    assert_eq!(w.update_infallible(7), Pair { old: 5, current: 7 });
    assert_eq!(w.update_infallible(7), Pair { old: 7, current: 7 });
    assert_eq!(w.update(None), None);
    assert!(w.pair.is_none());
    assert_eq!(w.update(Some(1)), Some(Pair { old: 1, current: 1 }));
    assert_eq!(w.update(Some(2)), Some(Pair { old: 1, current: 2 }));
}

#[test]
fn pair_conditions() {
    let p = Pair { old: GameNum::from_bits(1.0f64.to_bits()), current: GameNum::from_bits(0.0f64.to_bits()) };
    assert!(p.bytes_changed_from_to(1.0f64.to_bits(), 0.0f64.to_bits()));
    assert!(p.bytes_changed_to(0.0f64.to_bits()));
    assert!(p.bytes_changed_from(1.0f64.to_bits()));
    assert!(!p.bytes_changed_to((-0.0f64).to_bits()));
    let same = Pair { old: GameNum::zero(), current: GameNum::zero() };
    assert!(!same.bytes_changed_to(0));
    assert!(same.bytes_changed_from_to(0, 0));
    let b = Pair { old: false, current: true };
    assert!(b.changed_to(true));
    assert!(!b.changed_to(false));
}

#[test]
fn path_tracker() {
    let mut none: PathTrack<i32> = PathTrack::new(0x400000, PtrSize::Bit64, &[0]);
    assert!(none.pointer.is_none());
    assert_eq!(none.update_value(Some(9), 0), Pair { old: 0, current: 0 });
    let mut t: PathTrack<i32> = PathTrack::new(0x400000, PtrSize::Bit64, &[0x6A3818, 0x60, 0xD0]);
    let p = t.pointer.as_ref().unwrap();
    assert_eq!(p.base, 0x400000);
    assert_eq!(p.offsets, vec![0x6A3818, 0x60, 0xD0]);
    assert_eq!(t.update_value(Some(3), 0), Pair { old: 3, current: 3 });
    assert_eq!(t.update_value(None, 0), Pair { old: 3, current: 0 });
    assert_eq!(t.update_value(Some(4), 0), Pair { old: 0, current: 4 });
}

#[test]
fn var_tracker_readings_stand_alone() {
    let mut d: VarTrack<i32> = VarTrack::disabled();
    assert_eq!(d.update_value(Some(3), 0), Pair { old: 0, current: 0 });
    let mut none: VarTrack<i32> = VarTrack::new(0x400000, PtrSize::Bit32, &[0]);
    assert_eq!(none.update_value(Some(3), 0), Pair { old: 0, current: 0 });
    let mut t: VarTrack<i32> = VarTrack::new(0x400000, PtrSize::Bit32, &[0x10, 0x20]);
    assert_eq!(t.update_value(Some(3), 0), Pair { old: 3, current: 3 });
    assert_eq!(t.update_value(Some(8), 0), Pair { old: 8, current: 8 });
    assert_eq!(t.update_value(None, -1), Pair { old: -1, current: -1 });
}
