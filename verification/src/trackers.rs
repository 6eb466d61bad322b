//! Values tracked through fixed pointer paths. A path of the single offset `0`
//! stands for "no path in this version": such a tracker reads nothing and yields the
//! zero value of its type.

use vstd::prelude::*;
use crate::versions::PtrSize;
use crate::watch::{Pair, Watcher};

verus! {

/// A pointer path: start at `base`, then follow `offsets` with pointers of size `ps`.
/// A path holds at most 16 offsets.
pub struct PointerPath {
    pub base: u64,
    pub ps: PtrSize,
    pub offsets: Vec<u64>,
}

/// Whether `offsets` is the placeholder path `[0]`.
pub open spec fn is_placeholder(offsets: Seq<u64>) -> bool {
    offsets == seq![0u64]
}

fn placeholder(offsets: &[u64]) -> (r: bool)
    ensures
        r == is_placeholder(offsets@),
{
    let r = offsets.len() == 1 && offsets[0] == 0;
    proof {
        if r {
            assert(offsets@ =~= seq![0u64]);
        }
    }
    r
}

fn make_path(base: u64, ps: PtrSize, offsets: &[u64]) -> (r: PointerPath)
    ensures
        r.base == base,
        r.ps == ps,
        r.offsets@ == offsets@,
{
    let mut v: Vec<u64> = Vec::new();
    let mut i: usize = 0;
    while i < offsets.len()
        invariant
            i <= offsets@.len(),
            v@ == offsets@.subrange(0, i as int),
        decreases offsets@.len() - i,
    {
        v.push(offsets[i]);
        i = i + 1;
        assert(v@ =~= offsets@.subrange(0, i as int));
    }
    assert(offsets@.subrange(0, offsets@.len() as int) =~= offsets@);
    PointerPath { base, ps, offsets: v }
}

/// A value read through a pointer path on every tick, with its previous reading.
pub struct PathTrack<T> {
    pub pointer: Option<PointerPath>,
    pub watcher: Watcher<T>,
}

impl<T: Copy> PathTrack<T> {
    /// A tracker of the value at `offsets` from `module_base`; the placeholder path
    /// `[0]` gives a tracker without a path.
    pub fn new(module_base: u64, pointer_size: PtrSize, offsets: &[u64]) -> (r: PathTrack<T>)
        requires
            offsets@.len() <= 16,
        ensures
            r.watcher.pair is None,
            is_placeholder(offsets@) ==> r.pointer is None,
            !is_placeholder(offsets@) ==> (r.pointer matches Some(p) && p.base == module_base && p.ps
                == pointer_size && p.offsets@ == offsets@),
    {
        PathTrack {
            watcher: Watcher::new(),
            pointer: if placeholder(offsets) {
                None
            } else {
                Some(make_path(module_base, pointer_size, offsets))
            },
        }
    }

    /// Records this tick's value: the value `read` through the path (`None` when the
    /// read failed), or `zero` when the read failed or there is no path.
    pub fn update_value(&mut self, read: Option<T>, zero: T) -> (r: Pair<T>)
        ensures
            r.current == (if old(self).pointer is None {
                zero
            } else {
                match read {
                    Some(v) => v,
                    None => zero,
                }
            }),
            r.old == match old(self).watcher.pair {
                Some(p) => p.current,
                None => r.current,
            },
            final(self).watcher.pair == Some(r),
            final(self).pointer == old(self).pointer,
    {
        let value = if self.pointer.is_none() {
            zero
        } else {
            match read {
                Some(v) => v,
                None => zero,
            }
        };
        self.watcher.update_infallible(value)
    }
}

/// The value read, or `zero` when the read failed.
pub open spec fn value_or<T>(read: Option<T>, zero: T) -> T {
    match read {
        Some(v) => v,
        None => zero,
    }
}

/// A value read through a pointer path, for which each reading stands alone.
pub struct VarTrack<T> {
    pub pointer: Option<PointerPath>,
    pub watcher: Option<Watcher<T>>,
}

impl<T: Copy> VarTrack<T> {
    /// A tracker that reads nothing.
    pub fn disabled() -> (r: VarTrack<T>)
        ensures
            r.pointer is None,
            r.watcher is None,
    {
        VarTrack { watcher: None, pointer: None }
    }

    /// A tracker of the value at `offsets` from `module_base`; the placeholder path
    /// `[0]` gives a tracker without a path.
    pub fn new(module_base: u64, pointer_size: PtrSize, offsets: &[u64]) -> (r: VarTrack<T>)
        requires
            offsets@.len() <= 16,
        ensures
            (r.watcher matches Some(w) && w.pair is None),
            is_placeholder(offsets@) ==> r.pointer is None,
            !is_placeholder(offsets@) ==> (r.pointer matches Some(p) && p.base == module_base && p.ps
                == pointer_size && p.offsets@ == offsets@),
    {
        VarTrack {
            watcher: Some(Watcher::new()),
            pointer: if placeholder(offsets) {
                None
            } else {
                Some(make_path(module_base, pointer_size, offsets))
            },
        }
    }

    /// This tick's reading. Without a path or a watcher both halves are `zero`;
    /// otherwise the value `read` (or `zero` when the read failed) is fed to a copy of
    /// the stored watcher, so the stored watcher keeps its state.
    pub fn update_value(&mut self, read: Option<T>, zero: T) -> (r: Pair<T>)
        ensures
            (old(self).pointer is None || old(self).watcher is None) ==> (r == (Pair {
                old: zero,
                current: zero,
            })),
            (old(self).pointer is Some && old(self).watcher is Some) ==> r.current == value_or(read, zero),
            (old(self).pointer is Some && old(self).watcher is Some) ==> r.old == (match old(
                self,
            ).watcher->0.pair {
                Some(p) => p.current,
                None => value_or(read, zero),
            }),
            final(self).pointer == old(self).pointer,
            final(self).watcher == old(self).watcher,
    {
        if self.pointer.is_none() || self.watcher.is_none() {
            return Pair { old: zero, current: zero };
        }
        let value = match read {
            Some(v) => v,
            None => zero,
        };
        let mut w = match self.watcher {
            Some(w) => w,
            None => Watcher::new(),
        };
        w.update_infallible(value)
    }
}

} // verus!
