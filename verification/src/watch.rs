//! Values watched across ticks: a `Pair` holds a value's previous and current reading,
//! and a `Watcher` turns a stream of readings into pairs.

use vstd::prelude::*;
use crate::num::GameNum;

verus! {

/// The previous and the current reading of a value.
#[derive(Clone, Copy, PartialEq, Eq, Structural, Debug)]
pub struct Pair<T> {
    pub old: T,
    pub current: T,
}

/// Turns readings into pairs. Before its first reading a watcher holds nothing.
#[derive(Clone, Copy)]
pub struct Watcher<T> {
    pub pair: Option<Pair<T>>,
}

impl<T: Copy> Watcher<T> {
    /// A watcher with no reading yet.
    pub fn new() -> (r: Watcher<T>)
        ensures
            r.pair is None,
    {
        Watcher { pair: None }
    }

    /// Records a reading. The first reading is both the previous and the current value;
    /// afterwards the current value becomes the previous one.
    pub fn update_infallible(&mut self, value: T) -> (r: Pair<T>)
        ensures
            r == next_pair(*old(self), value),
            final(self).pair == Some(r),
    {
        let old_value = match self.pair {
            Some(p) => p.current,
            None => value,
        };
        let p = Pair { old: old_value, current: value };
        self.pair = Some(p);
        p
    }

    /// Records a reading that may have failed. A failed reading forgets the watcher's
    /// history and yields nothing; a successful one acts as `update_infallible`.
    pub fn update(&mut self, value: Option<T>) -> (r: Option<Pair<T>>)
        ensures
            match value {
                Some(v) => {
                    &&& r is Some
                    &&& r->0.current == v
                    &&& r->0.old == match old(self).pair {
                        Some(p) => p.current,
                        None => v,
                    }
                },
                None => r is None,
            },
            final(self).pair == r,
    {
        match value {
            Some(v) => Some(self.update_infallible(v)),
            None => {
                self.pair = None;
                None
            },
        }
    }
}

impl Pair<GameNum> {
    /// The previous reading has the bits of `from` and the current one the bits of `to`.
    pub fn bytes_changed_from_to(&self, from: u64, to: u64) -> (r: bool)
        ensures
            r == (self.old.bits == from && self.current.bits == to),
    {
        self.old.bits == from && self.current.bits == to
    }

    /// The value now has the bits of `to`, and did not before.
    pub fn bytes_changed_to(&self, to: u64) -> (r: bool)
        ensures
            r == (self.old.bits != to && self.current.bits == to),
    {
        self.old.bits != to && self.current.bits == to
    }

    /// The value had the bits of `from`, and no longer has.
    pub fn bytes_changed_from(&self, from: u64) -> (r: bool)
        ensures
            r == (self.old.bits == from && self.current.bits != from),
    {
        self.old.bits == from && self.current.bits != from
    }
}

impl Pair<bool> {
    /// The flag is now `to`, and was not before.
    pub fn changed_to(&self, to: bool) -> (r: bool)
        ensures
            r == (self.old != to && self.current == to),
    {
        self.old != to && self.current == to
    }
}

/// The pair that a watcher yields when it records `value`.
pub open spec fn next_pair<T>(w: Watcher<T>, value: T) -> Pair<T> {
    Pair {
        old: match w.pair {
            Some(p) => p.current,
            None => value,
        },
        current: value,
    }
}

/// Two readings of the same value in a row leave a pair that has not changed: after
/// recording `v`, recording `v` again yields `v` as both readings.
pub proof fn law_repeat_reading_unchanged<T>(w: Watcher<T>, v: T)
    ensures
        next_pair(Watcher { pair: Some(next_pair(w, v)) }, v) == (Pair { old: v, current: v }),
{
}

/// A new value is seen as a change for exactly one reading: after recording `a` and then
/// `b`, the pair is `(a, b)`; recording `b` once more gives `(b, b)`.
pub proof fn law_change_seen_once<T>(w: Watcher<T>, a: T, b: T)
    ensures
        next_pair(Watcher { pair: Some(next_pair(w, a)) }, b) == (Pair { old: a, current: b }),
        next_pair(
            Watcher { pair: Some(next_pair(Watcher { pair: Some(next_pair(w, a)) }, b)) },
            b,
        ) == (Pair { old: b, current: b }),
{
}

} // verus!
