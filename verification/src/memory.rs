//! Where things live in the game's memory. Addresses are plain 64-bit integers and
//! move with wrapping arithmetic, as the host's addresses do. The functions here
//! decide which address or pointer path to read; the reads themselves happen on the
//! host side, which hands the values it read back in.

use vstd::prelude::*;
use vstd::wrapping::u64_specs;
use std::collections::HashMap;
use crate::text::{ends_with, spec_ends_with, spec_trim_end_matches, str_eq, trim_end_matches};
use crate::versions::{EngineVersion, PtrSize, verPs};

verus! {

broadcast use vstd::std_specs::hash::group_hash_axioms;

/// The null address.
pub const NULL: u64 = 0;

/// The offset of element `i` in a GameMaker array: elements are 16 bytes apart.
pub fn arr_pos(i: u64) -> (r: u64)
    requires
        i * 16 <= u64::MAX,
    ensures
        r == i * 16,
{
    i * 0x10
}

/// The number of bytes in a pointer of the given size.
pub fn ptr_bytes(ps: PtrSize) -> (r: u64)
    requires
        ps != PtrSize::Bit16,
    ensures
        r == (if ps == PtrSize::Bit64 { 8u64 } else { 4u64 }),
{
    match ps {
        PtrSize::Bit64 => 8,
        _ => 4,
    }
}

/// A table from names to addresses, each name at most once.
pub struct NameMap {
    entries: Vec<(String, u64)>,
}

/// The map that a sequence of entries denotes; a later entry of a name would win, but
/// a `NameMap` never holds two.
pub open spec fn entries_map(entries: Seq<(String, u64)>) -> Map<Seq<char>, u64>
    decreases entries.len(),
{
    if entries.len() == 0 {
        Map::empty()
    } else {
        entries_map(entries.drop_last()).insert(entries.last().0@, entries.last().1)
    }
}

proof fn lemma_entries_map_index(entries: Seq<(String, u64)>, i: int)
    requires
        0 <= i < entries.len(),
        forall|a: int, b: int| 0 <= a < b < entries.len() ==> #[trigger] entries[a].0@ != #[trigger] entries[b].0@,
    ensures
        entries_map(entries).contains_key(entries[i].0@),
        entries_map(entries)[entries[i].0@] == entries[i].1,
    decreases entries.len(),
{
    if i < entries.len() - 1 {
        let init = entries.drop_last();
        assert(init[i] == entries[i]);
        lemma_entries_map_index(init, i);
        assert(entries[i].0@ != entries[entries.len() - 1].0@);
    }
}

proof fn lemma_entries_map_absent(entries: Seq<(String, u64)>, k: Seq<char>)
    requires
        forall|a: int| 0 <= a < entries.len() ==> #[trigger] entries[a].0@ != k,
    ensures
        !entries_map(entries).contains_key(k),
    decreases entries.len(),
{
    if entries.len() > 0 {
        let init = entries.drop_last();
        assert forall|a: int| 0 <= a < init.len() implies #[trigger] init[a].0@ != k by {
            assert(init[a] == entries[a]);
        }
        lemma_entries_map_absent(init, k);
        assert(entries[entries.len() - 1].0@ != k);
    }
}

proof fn lemma_entries_map_update(entries: Seq<(String, u64)>, i: int, s: String, v: u64)
    requires
        0 <= i < entries.len(),
        entries[i].0@ == s@,
        forall|a: int, b: int| 0 <= a < b < entries.len() ==> #[trigger] entries[a].0@ != #[trigger] entries[b].0@,
    ensures
        entries_map(entries.update(i, (s, v))) == entries_map(entries).insert(s@, v),
    decreases entries.len(),
{
    let upd = entries.update(i, (s, v));
    if i == entries.len() - 1 {
        assert(upd.drop_last() =~= entries.drop_last());
        assert(entries_map(upd) =~= entries_map(entries).insert(s@, v));
    } else {
        let init = entries.drop_last();
        lemma_entries_map_update(init, i, s, v);
        assert(upd.drop_last() =~= init.update(i, (s, v)));
        assert(entries[entries.len() - 1].0@ != s@);
        assert(entries_map(upd) =~= entries_map(entries).insert(s@, v));
    }
}

proof fn lemma_entries_map_len(entries: Seq<(String, u64)>)
    requires
        forall|a: int, b: int| 0 <= a < b < entries.len() ==> #[trigger] entries[a].0@ != #[trigger] entries[b].0@,
    ensures
        entries_map(entries).dom().finite(),
        entries_map(entries).dom().len() == entries.len(),
    decreases entries.len(),
{
    if entries.len() == 0 {
        assert(entries_map(entries).dom() =~= Set::<Seq<char>>::empty());
    } else {
        let init = entries.drop_last();
        let k = entries.last().0@;
        assert forall|a: int, b: int| 0 <= a < b < init.len() implies #[trigger] init[a].0@
            != #[trigger] init[b].0@ by {
            assert(init[a] == entries[a] && init[b] == entries[b]);
        }
        lemma_entries_map_len(init);
        assert forall|a: int| 0 <= a < init.len() implies #[trigger] init[a].0@ != k by {
            assert(init[a] == entries[a]);
        }
        lemma_entries_map_absent(init, k);
        assert(entries_map(entries).dom() =~= entries_map(init).dom().insert(k));
    }
}

impl View for NameMap {
    type V = Map<Seq<char>, u64>;

    closed spec fn view(&self) -> Map<Seq<char>, u64> {
        entries_map(self.entries@)
    }
}

impl NameMap {
    #[verifier::type_invariant]
    closed spec fn distinct(&self) -> bool {
        forall|a: int, b: int|
            0 <= a < b < self.entries@.len() ==> #[trigger] self.entries@[a].0@
                != #[trigger] self.entries@[b].0@
    }

    /// An empty table.
    pub fn new() -> (r: NameMap)
        ensures
            r@ == Map::<Seq<char>, u64>::empty(),
    {
        NameMap { entries: Vec::new() }
    }

    fn find(&self, name: &str) -> (r: Option<usize>)
        ensures
            match r {
                Some(i) => i < self.entries@.len() && self.entries@[i as int].0@ == name@,
                None => forall|a: int| 0 <= a < self.entries@.len() ==> #[trigger] self.entries@[a].0@ != name@,
            },
    {
        let mut i: usize = 0;
        while i < self.entries.len()
            invariant
                i <= self.entries@.len(),
                forall|a: int| 0 <= a < i ==> #[trigger] self.entries@[a].0@ != name@,
            decreases self.entries@.len() - i,
        {
            if str_eq(self.entries[i].0.as_str(), name) {
                return Some(i);
            }
            i = i + 1;
        }
        None
    }

    /// The address recorded for `name`, if any.
    pub fn get(&self, name: &str) -> (r: Option<u64>)
        ensures
            r == (if self@.contains_key(name@) {
                Some(self@[name@])
            } else {
                None::<u64>
            }),
    {
        proof {
            use_type_invariant(self);
        }
        match self.find(name) {
            Some(i) => {
                proof {
                    lemma_entries_map_index(self.entries@, i as int);
                }
                Some(self.entries[i].1)
            },
            None => {
                proof {
                    lemma_entries_map_absent(self.entries@, name@);
                }
                None
            },
        }
    }

    /// Records `addr` for `name`, replacing an earlier address of that name.
    pub fn insert(&mut self, name: &str, addr: u64)
        ensures
            final(self)@ == old(self)@.insert(name@, addr),
    {
        proof {
            use_type_invariant(&*self);
        }
        let found = self.find(name);
        let mut v: Vec<(String, u64)> = Vec::new();
        std::mem::swap(&mut v, &mut self.entries);
        let ghost before = v@;
        match found {
            Some(i) => {
                let s = name.to_owned();
                v.set(i, (s, addr));
                proof {
                    lemma_entries_map_update(before, i as int, s, addr);
                    assert(v@ == before.update(i as int, (s, addr)));
                }
            },
            None => {
                v.push((name.to_owned(), addr));
                proof {
                    assert(v@.drop_last() =~= before);
                }
            },
        }
        self.entries = v;
    }

    /// Whether the table is empty.
    pub fn is_empty(&self) -> (r: bool)
        ensures
            r == (self@ == Map::<Seq<char>, u64>::empty()),
    {
        proof {
            use_type_invariant(self);
        }
        let r = self.entries.len() == 0;
        proof {
            if r {
                assert(self@ =~= Map::<Seq<char>, u64>::empty());
            } else {
                lemma_entries_map_index(self.entries@, 0);
                assert(self@.contains_key(self.entries@[0].0@));
            }
        }
        r
    }

    /// The number of names recorded.
    pub fn len(&self) -> (r: usize)
        ensures
            self@.dom().finite(),
            r == self@.dom().len(),
    {
        proof {
            use_type_invariant(self);
            lemma_entries_map_len(self.entries@);
        }
        self.entries.len()
    }

    /// Forgets every entry.
    pub fn clear(&mut self)
        ensures
            final(self)@ == Map::<Seq<char>, u64>::empty(),
    {
        self.entries = Vec::new();
    }
}

/// The address of the object called `name`, or null when the game has none.
pub fn get_obj(objs: &NameMap, name: &str) -> (r: u64)
    ensures
        r == (if objs@.contains_key(name@) {
            objs@[name@]
        } else {
            NULL
        }),
{
    match objs.get(name) {
        Some(a) => a,
        None => NULL,
    }
}

/// Where a variable's value is found, once its slot in a variable table is known.
#[derive(Debug)]
pub enum VarLocation {
    /// The value sits behind the pointer stored at `addr`.
    Pointer { addr: u64, ps: PtrSize },
    /// An array's element 0: follow `path` from `base`, reading a 64-bit address when
    /// `wide` holds and a 32-bit one otherwise.
    ArrayElement0 { base: u64, ps: PtrSize, path: Vec<u64>, wide: bool },
}

/// A variable table of an instance (or of the global scope): `num_addr` holds the
/// number of variables, `arr_addr` the first slot; slots are `jmp` bytes apart.
pub struct VarFinder {
    pub num_addr: u64,
    pub arr_addr: u64,
    pub version: EngineVersion,
    pub ps: PtrSize,
    pub jmp: u64,
}

/// Where an instance keeps the pointer to its variable table, per engine version.
pub open spec fn spec_instance_table_offset(version: EngineVersion) -> u64 {
    match version {
        EngineVersion::GMS2_v2_2_0 => 0x60,
        EngineVersion::GMS2_2022_1 | EngineVersion::GMS2_2022_2 => 0x24,
        _ => 0x48,
    }
}

/// The distance between slots for a pointer size.
pub open spec fn spec_slot_size(ps: PtrSize) -> u64 {
    if ps == PtrSize::Bit64 {
        0x10
    } else {
        0xC
    }
}

/// Where a slot keeps its string id, relative to the slot.
pub open spec fn spec_string_id_offset(version: EngineVersion) -> i64 {
    match version {
        EngineVersion::GMS2_v2_2_0 => -4i64,
        EngineVersion::GMS2_2022_1 | EngineVersion::GMS2_2022_2 => 4i64,
        _ => 8i64,
    }
}

/// The pointer path from an array slot to the address of element 0.
pub open spec fn spec_element0_path(version: EngineVersion, offset: u64) -> Seq<u64> {
    match version {
        EngineVersion::GMS2_v2_2_0 => seq![offset, 0x0, 0x24, 0xC],
        EngineVersion::GMS2_2022_1 | EngineVersion::GMS2_2022_2 => seq![offset, 0x0, 0x64],
        _ => seq![offset, 0x0, 0x90],
    }
}

/// Whether the string with id `string_id` names the variable `name` (an array's
/// element 0 is asked for as `name[0]`).
pub open spec fn spec_slot_names(names: Map<u32, String>, string_id: u32, name: Seq<char>) -> bool {
    names.contains_key(string_id) && names[string_id]@ == spec_trim_end_matches(name, "[0]"@)
}

/// Where the slot at `offset` of the table of `f` keeps its string id.
pub open spec fn spec_slot_id_address(f: VarFinder, offset: u64) -> u64 {
    u64_specs::wrapping_add_signed(
        u64_specs::wrapping_add(f.arr_addr, offset),
        spec_string_id_offset(f.version),
    )
}

/// Whether `loc` is where the variable `name` is found, given that the slot at `offset`
/// of the table of `f` holds it: behind the pointer stored in the slot, or, for an
/// array's element 0 (asked for as `name[0]`), at the end of the element-0 path.
pub open spec fn spec_slot_location(f: VarFinder, name: Seq<char>, offset: u64, loc: VarLocation) -> bool {
    match loc {
        VarLocation::Pointer { addr, ps } => !spec_ends_with(name, "[0]"@) && addr
            == u64_specs::wrapping_add(f.arr_addr, offset) && ps == f.ps,
        VarLocation::ArrayElement0 { base, ps, path, wide } => spec_ends_with(name, "[0]"@) && base
            == f.arr_addr && ps == f.ps && path@ == spec_element0_path(f.version, offset) && wide
            == (verPs(f.version) == PtrSize::Bit64),
    }
}

/// One step of the search for a variable in a table: read the string id of the next
/// slot, stop at the slot that holds the variable, or give up past the last slot.
#[derive(Debug)]
pub enum ScanAction {
    /// Read the string id stored at `id_at`, that of the slot at `offset`.
    ReadId { offset: u64, id_at: u64 },
    /// The variable is found here.
    Found(VarLocation),
    /// No slot holds the variable.
    Missing,
}

/// The step that visits the slot at `offset` of a table of `count` variables: read its
/// string id, or `Missing` once `offset` is past the last slot.
pub open spec fn spec_scan_at(f: VarFinder, count: u32, offset: u64) -> ScanAction {
    if offset < count * f.jmp {
        ScanAction::ReadId { offset, id_at: spec_slot_id_address(f, offset) }
    } else {
        ScanAction::Missing
    }
}

impl VarFinder {
    /// Where an instance keeps the pointer to its variable table.
    pub fn instance_table_offset(version: EngineVersion) -> (r: u64)
        ensures
            r == spec_instance_table_offset(version),
    {
        match version {
            EngineVersion::GMS2_v2_2_0 => 0x60,
            EngineVersion::GMS2_2022_1 | EngineVersion::GMS2_2022_2 => 0x24,
            _ => 0x48,
        }
    }

    /// The finder of an instance whose variable table is at `mid_addr`, where the
    /// pointer stored at `mid_addr + 0x10` is `arr_ptr`.
    pub fn from_instance(version: EngineVersion, mid_addr: u64, arr_ptr: u64) -> (r: VarFinder)
        ensures
            r.num_addr == u64_specs::wrapping_add(mid_addr, 0x8),
            r.arr_addr == u64_specs::wrapping_add(
                arr_ptr,
                if version == EngineVersion::GMS2_v2_2_0 {
                    0x4u64
                } else {
                    0u64
                },
            ),
            r.version == version,
            r.ps == verPs(version),
            r.jmp == spec_slot_size(verPs(version)),
    {
        let ps = verPs(version);
        VarFinder {
            num_addr: mid_addr.wrapping_add(0x8),
            arr_addr: arr_ptr.wrapping_add(
                match version {
                    EngineVersion::GMS2_v2_2_0 => 0x4,
                    _ => 0x0,
                },
            ),
            version,
            ps,
            jmp: match ps {
                PtrSize::Bit64 => 0x10,
                _ => 0xC,
            },
        }
    }

    /// The finder of the global scope of a 32-bit demo, found at `global_addr`, where
    /// the pointer stored at `global_addr + 0x30` is `arr_ptr`.
    pub fn from_demo_global(version: EngineVersion, global_addr: u64, arr_ptr: u64) -> (r: VarFinder)
        ensures
            r.num_addr == u64_specs::wrapping_add(global_addr, 0x28),
            r.arr_addr == arr_ptr,
            r.version == version,
            r.ps == PtrSize::Bit32,
            r.jmp == 0xC,
    {
        VarFinder {
            num_addr: global_addr.wrapping_add(0x28),
            arr_addr: arr_ptr,
            version,
            ps: PtrSize::Bit32,
            jmp: 0xC,
        }
    }

    /// The end of the slot offsets for a table of `count` variables.
    pub fn scan_end(&self, count: u32) -> (r: u64)
        requires
            self.jmp <= 0x10,
        ensures
            r == count * self.jmp,
    {
        proof {
            let c = count as u64;
            let j = self.jmp;
            assert(c * j <= 0xFFFF_FFFFu64 * 0x10u64) by (nonlinear_arith)
                requires
                    c <= 0xFFFF_FFFFu64,
                    j <= 0x10u64,
            ;
        }
        count as u64 * self.jmp
    }

    /// Where the slot at `offset` keeps its string id.
    pub fn slot_id_address(&self, offset: u64) -> (r: u64)
        ensures
            r == u64_specs::wrapping_add_signed(
                u64_specs::wrapping_add(self.arr_addr, offset),
                spec_string_id_offset(self.version),
            ),
    {
        let id_off: i64 = match self.version {
            EngineVersion::GMS2_v2_2_0 => -0x4,
            EngineVersion::GMS2_2022_1 | EngineVersion::GMS2_2022_2 => 0x4,
            _ => 0x8,
        };
        self.arr_addr.wrapping_add(offset).wrapping_add_signed(id_off)
    }

    /// The outcome of looking at the slot at `offset`, whose string id is
    /// `string_id`: where the variable `name` is found when the slot holds it, `None`
    /// when it does not.
    pub fn match_slot(&self, names: &HashMap<u32, String>, name: &str, offset: u64, string_id: u32) -> (r:
        Option<VarLocation>)
        requires
            vstd::std_specs::hash::obeys_key_model::<u32>(),
        ensures
            r is Some == spec_slot_names(names@, string_id, name@),
            r matches Some(VarLocation::Pointer { addr, ps }) ==> !spec_ends_with(name@, "[0]"@)
                && addr == u64_specs::wrapping_add(self.arr_addr, offset) && ps == self.ps,
            r matches Some(VarLocation::ArrayElement0 { base, ps, path, wide }) ==> spec_ends_with(
                name@,
                "[0]"@,
            ) && base == self.arr_addr && ps == self.ps && path@ == spec_element0_path(
                self.version,
                offset,
            ) && wide == (verPs(self.version) == PtrSize::Bit64),
            r is Some ==> (r matches Some(VarLocation::Pointer { .. })) == !spec_ends_with(name@, "[0]"@),
    {
        let base_name = trim_end_matches(name, "[0]");
        let holds = match names.get(&string_id) {
            Some(s) => str_eq(s.as_str(), base_name),
            None => false,
        };
        if !holds {
            return None;
        }
        if ends_with(name, "[0]") {
            let path = match self.version {
                EngineVersion::GMS2_v2_2_0 => vec![offset, 0x0, 0x24, 0xC],
                EngineVersion::GMS2_2022_1 | EngineVersion::GMS2_2022_2 => vec![offset, 0x0, 0x64],
                _ => vec![offset, 0x0, 0x90],
            };
            let wide = match self.version {
                EngineVersion::GMS2_v2_2_0 | EngineVersion::GMS2_2022_1 | EngineVersion::GMS2_2022_2 => false,
                _ => true,
            };
            proof {
                assert(path@ =~= spec_element0_path(self.version, offset));
            }
            Some(VarLocation::ArrayElement0 { base: self.arr_addr, ps: self.ps, path, wide })
        } else {
            Some(VarLocation::Pointer { addr: self.arr_addr.wrapping_add(offset), ps: self.ps })
        }
    }

    /// The first step of the search for a variable in a table of `count` variables: the
    /// read of slot 0's string id, or `Missing` for an empty table.
    pub fn scan_begin(&self, count: u32) -> (r: ScanAction)
        requires
            self.jmp <= 0x10,
        ensures
            r == spec_scan_at(*self, count, 0),
    {
        self.scan_at(count, 0)
    }

    fn scan_at(&self, count: u32, offset: u64) -> (r: ScanAction)
        requires
            self.jmp <= 0x10,
        ensures
            r == spec_scan_at(*self, count, offset),
    {
        if offset < self.scan_end(count) {
            ScanAction::ReadId { offset, id_at: self.slot_id_address(offset) }
        } else {
            ScanAction::Missing
        }
    }

    /// The step after reading the string id `string_id` of the slot at `offset`, in the
    /// search for `name` in a table of `count` variables. The first slot that holds the
    /// variable ends the search with its location; otherwise the search goes on to the
    /// next slot, and past the last one the variable is missing.
    pub fn scan_next(
        &self,
        names: &HashMap<u32, String>,
        name: &str,
        count: u32,
        offset: u64,
        string_id: u32,
    ) -> (r: ScanAction)
        requires
            self.jmp <= 0x10,
            offset < count * self.jmp,
            vstd::std_specs::hash::obeys_key_model::<u32>(),
        ensures
            spec_slot_names(names@, string_id, name@) ==> (r matches ScanAction::Found(loc)
                && spec_slot_location(*self, name@, offset, loc)),
            !spec_slot_names(names@, string_id, name@) ==> r == spec_scan_at(
                *self,
                count,
                (offset + self.jmp) as u64,
            ),
    {
        match self.match_slot(names, name, offset, string_id) {
            Some(loc) => ScanAction::Found(loc),
            None => {
                proof {
                    let c = count as u64;
                    let j = self.jmp;
                    assert(c * j <= 0xFFFF_FFFFu64 * 0x10u64) by (nonlinear_arith)
                        requires
                            c <= 0xFFFF_FFFFu64,
                            j <= 0x10u64,
                    ;
                }
                self.scan_at(count, offset + self.jmp)
            },
        }
    }
}

/// The address of element `index` of the array whose element 0 is at `base`.
pub fn element_address(base: u64, index: u64) -> (r: u64)
    requires
        index * 16 <= u64::MAX,
    ensures
        r == u64_specs::wrapping_add(base, (index * 16) as u64),
{
    base.wrapping_add(index * 0x10)
}

/// Reads of global variables: a finder over the global scope, and the addresses of
/// variables found so far.
pub struct GlobalReader {
    pub finder: VarFinder,
    pub cache: NameMap,
}

impl GlobalReader {
    /// A reader over `finder` that has found nothing yet.
    pub fn new(finder: VarFinder) -> (r: GlobalReader)
        ensures
            r.cache@ == Map::<Seq<char>, u64>::empty(),
            r.finder == finder,
    {
        GlobalReader { finder, cache: NameMap::new() }
    }

    /// The address already found for the global `name`, if any.
    pub fn cached(&self, name: &str) -> (r: Option<u64>)
        ensures
            r == (if self.cache@.contains_key(name@) {
                Some(self.cache@[name@])
            } else {
                None::<u64>
            }),
    {
        self.cache.get(name)
    }

    /// Keeps the address `found` for the global `name`, unless it is null; returns it.
    pub fn remember(&mut self, name: &str, found: u64) -> (r: u64)
        ensures
            r == found,
            final(self).finder == old(self).finder,
            final(self).cache@ == if found != NULL {
                old(self).cache@.insert(name@, found)
            } else {
                old(self).cache@
            },
    {
        if found != NULL {
            self.cache.insert(name, found);
        }
        found
    }
}

/// How to walk the instances of an object: where the object's properties are found,
/// where they keep the number of instances and the first list node, and where a node
/// keeps its instance.
#[derive(Clone, Copy, PartialEq, Eq, Structural, Debug)]
pub struct InstanceLayout {
    pub obj_prop: u64,
    pub count: u64,
    pub first_node: u64,
    pub node_inst: u64,
}

/// Where the instance count and the first node sit, per engine version.
pub open spec fn spec_count_and_first(version: EngineVersion) -> (u64, u64) {
    match version {
        EngineVersion::GMS2_v2_2_0 => (0xCC, 0xC4),
        EngineVersion::GMS2_2022_1 | EngineVersion::GMS2_2022_2 => (0x40, 0x38),
        _ => (0x78, 0x68),
    }
}

fn count_and_first(version: EngineVersion) -> (r: (u64, u64))
    ensures
        r == spec_count_and_first(version),
{
    match version {
        EngineVersion::GMS2_v2_2_0 => (0xCC, 0xC4),
        EngineVersion::GMS2_2022_1 | EngineVersion::GMS2_2022_2 => (0x40, 0x38),
        _ => (0x78, 0x68),
    }
}

/// The layout used to find an object's first instance: property and node offsets
/// follow the pointer size.
pub fn first_instance_layout(version: EngineVersion) -> (r: InstanceLayout)
    ensures
        r.obj_prop == (if verPs(version) == PtrSize::Bit64 { 0x18u64 } else { 0xCu64 }),
        (r.count, r.first_node) == spec_count_and_first(version),
        r.node_inst == (if verPs(version) == PtrSize::Bit64 { 0x10u64 } else { 0x8u64 }),
{
    let (count, first_node) = count_and_first(version);
    match verPs(version) {
        PtrSize::Bit64 => InstanceLayout { obj_prop: 0x18, count, first_node, node_inst: 0x10 },
        _ => InstanceLayout { obj_prop: 0xC, count, first_node, node_inst: 0x8 },
    }
}

/// The layout used to list all instances of an object: the demo runners keep the
/// properties at 0xC, the others at 0x18; the 32-bit runners keep a node's instance
/// at 0x8, the 64-bit ones at 0x10.
pub fn all_instances_layout(version: EngineVersion) -> (r: InstanceLayout)
    ensures
        r.obj_prop == (if version == EngineVersion::GMS2_2022_1 || version == EngineVersion::GMS2_2022_2 {
            0xCu64
        } else {
            0x18u64
        }),
        (r.count, r.first_node) == spec_count_and_first(version),
        r.node_inst == (if verPs(version) == PtrSize::Bit64 { 0x10u64 } else { 0x8u64 }),
{
    let (count, first_node) = count_and_first(version);
    let obj_prop: u64 = match version {
        EngineVersion::GMS2_2022_1 | EngineVersion::GMS2_2022_2 => 0xC,
        _ => 0x18,
    };
    let node_inst: u64 = match version {
        EngineVersion::GMS2_v2_2_0 | EngineVersion::GMS2_2022_1 | EngineVersion::GMS2_2022_2 => 0x8,
        _ => 0x10,
    };
    InstanceLayout { obj_prop, count, first_node, node_inst }
}

/// The first instance of an object, from what was read on the way there: the pointer to
/// the object's properties (`None` when it could not be read), the instance count
/// stored there, and the instance pointer read from the first list node (`None` when
/// that read failed). An object whose properties cannot be read, or that has no
/// instance, gives null.
pub fn first_instance(obj_prop: Option<u64>, count: u32, inst: Option<u64>) -> (r: u64)
    ensures
        (obj_prop is None || count == 0) ==> r == NULL,
        (obj_prop is Some && count != 0) ==> r == (match inst {
            Some(a) => a,
            None => NULL,
        }),
{
    if obj_prop.is_none() || count == 0 {
        NULL
    } else {
        match inst {
            Some(a) => a,
            None => NULL,
        }
    }
}

/// One step of the walk over an object's list of instances.
#[derive(Clone, Copy, PartialEq, Eq, Structural, Debug)]
pub enum WalkAction {
    /// Every instance has been taken.
    Done,
    /// Take the instance whose pointer is stored at `inst_at`; then, when `follow`
    /// holds, move to the next node, whose pointer the current node stores first.
    Take { inst_at: u64, follow: bool },
}

/// The step of the walk over `count` instances after `taken` of them, at the list node
/// `node`: done once `count` instances are taken; otherwise take the node's instance
/// and move on unless it is the last one.
pub fn instance_walk_step(l: &InstanceLayout, count: u32, taken: u32, node: u64) -> (r: WalkAction)
    ensures
        taken >= count ==> r == WalkAction::Done,
        taken < count ==> r == (WalkAction::Take {
            inst_at: u64_specs::wrapping_add(node, l.node_inst),
            follow: taken + 1 < count,
        }),
{
    if taken >= count {
        WalkAction::Done
    } else {
        WalkAction::Take { inst_at: node.wrapping_add(l.node_inst), follow: taken + 1 < count }
    }
}

/// Where the runner keeps the pointer to the global scope, relative to the module.
pub fn global_offset(version: EngineVersion) -> (r: u64)
    ensures
        r == (match version {
            EngineVersion::GMS2_v2_2_0 => 0x49C3E0u64,
            EngineVersion::GMS2_2022_1 => 0x6FCF38u64,
            EngineVersion::GMS2_2022_2 => 0x6FE860u64,
            EngineVersion::GM_LTS2022_0_3_99 => 0x6A1CA8u64,
            EngineVersion::GM_LTS2022_0_3_104 => 0x6A9CA8u64,
        }),
{
    match version {
        EngineVersion::GMS2_v2_2_0 => 0x49C3E0,
        EngineVersion::GMS2_2022_1 => 0x6FCF38,
        EngineVersion::GMS2_2022_2 => 0x6FE860,
        EngineVersion::GM_LTS2022_0_3_99 => 0x6A1CA8,
        EngineVersion::GM_LTS2022_0_3_104 => 0x6A9CA8,
    }
}

/// Whether the global scope is read as a demo global (a bare variable table) rather
/// than as an instance.
pub fn uses_demo_global(version: EngineVersion) -> (r: bool)
    ensures
        r == (version == EngineVersion::GMS2_2022_1 || version == EngineVersion::GMS2_2022_2),
{
    match version {
        EngineVersion::GMS2_2022_1 | EngineVersion::GMS2_2022_2 => true,
        _ => false,
    }
}

/// A table reads back what was last recorded: after recording `addr` for `name`, the
/// table gives `addr` for `name` and keeps every other name's address.
pub proof fn law_name_map_read_after_write(m: Map<Seq<char>, u64>, name: Seq<char>, addr: u64, other: Seq<char>)
    requires
        other != name,
    ensures
        m.insert(name, addr).contains_key(name),
        m.insert(name, addr)[name] == addr,
        m.insert(name, addr).contains_key(other) == m.contains_key(other),
        m.contains_key(other) ==> m.insert(name, addr)[other] == m[other],
{
}

/// A global found once is found again without a lookup: after `remember` with a
/// non-null address, `cached` gives that address; a null address is never kept.
pub proof fn law_global_found_is_cached(cache: Map<Seq<char>, u64>, name: Seq<char>, found: u64)
    ensures
        found != NULL ==> (if found != NULL {
            cache.insert(name, found)
        } else {
            cache
        }).contains_key(name) && (if found != NULL {
            cache.insert(name, found)
        } else {
            cache
        })[name] == found,
        found == NULL ==> (if found != NULL {
            cache.insert(name, found)
        } else {
            cache
        }) == cache,
{
}

/// Where the runners keep what a variable lookup needs: an instance's table pointer at
/// 0x60 (SURVEY_PROGRAM), 0x24 (the demos) or 0x48 (the LTS runners); slots 0x10 bytes
/// apart in 64-bit runners and 0xC in 32-bit ones; a slot's string id 4 bytes before it
/// (SURVEY_PROGRAM), 4 after (the demos) or 8 after (LTS); an array's element 0 reached
/// through offsets 0, 0x24, 0xC (SURVEY_PROGRAM), 0, 0x64 (the demos) or 0, 0x90 (LTS)
/// from its slot; and an object's instance count and first node at 0xCC and 0xC4
/// (SURVEY_PROGRAM), 0x40 and 0x38 (the demos) or 0x78 and 0x68 (LTS).
pub proof fn law_table_layouts(version: EngineVersion, ps: PtrSize, offset: u64)
    ensures
        version == EngineVersion::GMS2_v2_2_0 ==> spec_instance_table_offset(version) == 0x60
            && spec_string_id_offset(version) == -4 && spec_element0_path(version, offset) == seq![offset, 0u64, 0x24u64, 0xCu64]
            && spec_count_and_first(version) == (0xCCu64, 0xC4u64),
        (version == EngineVersion::GMS2_2022_1 || version == EngineVersion::GMS2_2022_2) ==> spec_instance_table_offset(version) == 0x24
            && spec_string_id_offset(version) == 4 && spec_element0_path(version, offset) == seq![offset, 0u64, 0x64u64]
            && spec_count_and_first(version) == (0x40u64, 0x38u64),
        (version == EngineVersion::GM_LTS2022_0_3_99 || version == EngineVersion::GM_LTS2022_0_3_104) ==> spec_instance_table_offset(version) == 0x48
            && spec_string_id_offset(version) == 8 && spec_element0_path(version, offset) == seq![offset, 0u64, 0x90u64]
            && spec_count_and_first(version) == (0x78u64, 0x68u64),
        ps == PtrSize::Bit64 ==> spec_slot_size(ps) == 0x10,
        ps != PtrSize::Bit64 ==> spec_slot_size(ps) == 0xC,
{
}

/// A variable is found in the slot whose string names it, and an array's element 0, asked
/// for as `name[0]`, in the slot named by the array's own name.
pub proof fn law_slots_name_variables(names: Map<u32, String>, id: u32, base: Seq<char>)
    requires
        names.contains_key(id),
        names[id]@ == base,
        !spec_ends_with(base, "[0]"@),
    ensures
        spec_slot_names(names, id, base),
        spec_slot_names(names, id, base + "[0]"@),
{
    reveal_strlit("[0]");
    let s = base + "[0]"@;
    assert(s.subrange(s.len() - 3, s.len() as int) =~= "[0]"@);
    assert(s.subrange(0, s.len() - 3) =~= base);
    assert(spec_trim_end_matches(base, "[0]"@) == base);
    assert(spec_trim_end_matches(s, "[0]"@) == spec_trim_end_matches(base, "[0]"@));
}

/// A search over a table of `count` variables visits the slots at offsets 0, `jmp`,
/// `2 * jmp`, ... below `count * jmp`, reading each slot's string id at its id address,
/// and ends as missing at the first offset past the table.
pub proof fn law_scan_visits_the_table(f: VarFinder, count: u32, offset: u64)
    ensures
        offset < count * f.jmp ==> spec_scan_at(f, count, offset) == (ScanAction::ReadId {
            offset,
            id_at: u64_specs::wrapping_add_signed(
                u64_specs::wrapping_add(f.arr_addr, offset),
                spec_string_id_offset(f.version),
            ),
        }),
        offset >= count * f.jmp ==> spec_scan_at(f, count, offset) is Missing,
{
}

} // verus!
