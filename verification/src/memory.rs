//! The byte-addressable store and its typed reads.
//!
//! Memory is type-erased. A write stores raw bytes or a pointer and checks
//! nothing but liveness and bounds. Types enter only at `read_typed`, which
//! holds the cells it finds against the validity invariant of the type it
//! was asked for.

use vstd::prelude::*;
use crate::encoding::{decode_le, encode_le, le_bytes, le_value};
use crate::error::ErrorKind;
use crate::reloc::{key_range, lookup, RelocTable};
use crate::types::{IntType, Type, PTR_SIZE};

verus! {

/// A memory location: an allocation and an offset into it. Pointer values
/// are always such pairs, never numbers.
#[derive(Clone, Copy, PartialEq, Eq, Structural, Debug)]
pub struct Pointer {
    pub alloc: usize,
    pub offset: usize,
}

/// What a typed read yields.
#[derive(Clone, Copy, PartialEq, Eq, Structural, Debug)]
pub enum Value {
    /// An integer, as its bit pattern at the width of its type.
    Int { bits: u128, ty: IntType },
    Bool(bool),
    Ptr(Pointer),
}

/// What a write stores, as a mathematical value.
pub enum RawData {
    Bytes(Seq<u8>),
    Pointer(Pointer),
}

impl RawData {
    /// Number of cells that the data covers.
    pub open spec fn len(self) -> nat {
        match self {
            RawData::Bytes(bytes) => bytes.len(),
            RawData::Pointer(_) => PTR_SIZE as nat,
        }
    }

    /// The cells that the data puts into memory. A pointer leaves the bytes
    /// of its offset there.
    pub open spec fn cells(self) -> Seq<Option<u8>> {
        match self {
            RawData::Bytes(bytes) => init_cells(bytes),
            RawData::Pointer(target) => init_cells(le_bytes(target.offset as nat, PTR_SIZE as nat)),
        }
    }

    /// The pointer that the data records at its first cell, if it is one.
    pub open spec fn reloc(self) -> Option<Pointer> {
        match self {
            RawData::Bytes(_) => None,
            RawData::Pointer(target) => Some(target),
        }
    }
}

/// What a write stores: raw bytes, or a pointer with its annotation.
#[derive(Clone, PartialEq, Eq, Debug)]
pub enum Datum {
    Bytes(Vec<u8>),
    Pointer(Pointer),
}

impl View for Datum {
    type V = RawData;

    open spec fn view(&self) -> RawData {
        match self {
            Datum::Bytes(bytes) => RawData::Bytes(bytes@),
            Datum::Pointer(target) => RawData::Pointer(*target),
        }
    }
}

impl Datum {
    pub fn get_len(&self) -> (n: usize)
        ensures
            n == self@.len(),
    {
        match self {
            Datum::Bytes(bytes) => bytes.len(),
            Datum::Pointer(_) => PTR_SIZE,
        }
    }
}

impl Value {
    /// The raw data that storing this value writes.
    pub open spec fn encoded(self) -> RawData {
        match self {
            Value::Int { bits, ty } => RawData::Bytes(le_bytes(bits as nat, ty.width.size())),
            Value::Bool(b) => RawData::Bytes(
                seq![if b {
                    1u8
                } else {
                    0u8
                }],
            ),
            Value::Ptr(target) => RawData::Pointer(target),
        }
    }

    pub fn encode(&self) -> (data: Datum)
        ensures
            data@ == self.encoded(),
    {
        match self {
            Value::Int { bits, ty } => Datum::Bytes(encode_le(*bits, ty.width.get_size())),
            Value::Bool(b) => {
                let mut bytes: Vec<u8> = Vec::new();
                bytes.push(if *b { 1u8 } else { 0u8 });
                Datum::Bytes(bytes)
            },
            Value::Ptr(target) => Datum::Pointer(*target),
        }
    }
}

/// Initialised cells that hold `bytes`.
pub open spec fn init_cells(bytes: Seq<u8>) -> Seq<Option<u8>> {
    bytes.map_values(|b: u8| Some(b))
}

/// Whether every cell of `region` holds a byte.
pub open spec fn all_init(region: Seq<Option<u8>>) -> bool {
    forall|i: int| 0 <= i < region.len() ==> (#[trigger] region[i]) is Some
}

/// The bytes that the cells of `region` hold, where `all_init(region)`.
pub open spec fn bytes_of(region: Seq<Option<u8>>) -> Seq<u8> {
    region.map_values(
        |cell: Option<u8>|
            match cell {
                Some(b) => b,
                None => 0u8,
            },
    )
}

/// `cells` with the cells from `start` on replaced by `new`.
pub open spec fn patch(cells: Seq<Option<u8>>, start: int, new: Seq<Option<u8>>) -> Seq<
    Option<u8>,
> {
    Seq::new(
        cells.len(),
        |i: int|
            if start <= i < start + new.len() {
                new[i - start]
            } else {
                cells[i]
            },
    )
}

/// The offsets at which a recorded pointer would share a cell with the `len`
/// cells from `start` on.
pub open spec fn overlapping_keys(start: usize, len: nat) -> Set<usize> {
    Set::new(|k: usize| len > 0 && k < start + len && start < k + PTR_SIZE)
}

/// One allocation, as a mathematical value.
pub struct AllocationView {
    /// A byte, or `None` where nothing was written yet.
    pub cells: Seq<Option<u8>>,
    /// The pointers stored in the allocation, by the offset of their first
    /// cell.
    pub relocs: Map<usize, Pointer>,
    pub align: usize,
    /// Whether the allocation can still be accessed.
    pub live: bool,
}

impl AllocationView {
    /// A live allocation of `size` uninitialised cells.
    pub open spec fn fresh(size: usize, align: usize) -> AllocationView {
        AllocationView {
            cells: Seq::new(size as nat, |i: int| None::<u8>),
            relocs: Map::empty(),
            align,
            live: true,
        }
    }

    /// The allocation after `data` was stored at `start`: the cells covered
    /// are replaced, every pointer that shared a cell with them is
    /// forgotten, and a pointer stored is recorded.
    pub open spec fn store(self, start: usize, data: RawData) -> AllocationView {
        let cleared = self.relocs.remove_keys(overlapping_keys(start, data.len()));
        AllocationView {
            cells: patch(self.cells, start as int, data.cells()),
            relocs: match data.reloc() {
                Some(target) => cleared.insert(start, target),
                None => cleared,
            },
            align: self.align,
            live: self.live,
        }
    }
}

/// Whether `mem` can be the contents of a store: every offset into an
/// allocation fits a `usize`.
pub open spec fn representable(mem: Seq<AllocationView>) -> bool {
    forall|i: int| 0 <= i < mem.len() ==> (#[trigger] mem[i]).cells.len() <= usize::MAX
}

/// Whether `alloc` names an allocation of `mem` that is live.
pub open spec fn is_live(mem: Seq<AllocationView>, alloc: usize) -> bool {
    alloc < mem.len() && mem[alloc as int].live
}

/// Why `len` cells at `offset` from `loc` cannot be accessed, if they
/// cannot. Liveness is looked at first, then the bounds.
pub open spec fn access_error(mem: Seq<AllocationView>, loc: Pointer, offset: usize, len: nat)
    -> Option<ErrorKind> {
    if !is_live(mem, loc.alloc) {
        Some(ErrorKind::OutOfLiveness)
    } else if loc.offset + offset + len > mem[loc.alloc as int].cells.len() {
        Some(ErrorKind::OutOfBounds)
    } else {
        None
    }
}

/// The value that `region` holds at type `ty`, or `None` where it violates
/// the type's validity invariant. `reloc` is the pointer recorded at the
/// first cell of the region.
///
/// Every initialised bit pattern is an integer. A boolean is the byte 0 or
/// 1. A reference is a recorded pointer to a live allocation of non-zero
/// size: neither the pointee's type nor the pointee's bytes are looked at.
/// A region that has not the size of the type holds no value of it.
pub open spec fn decode(
    mem: Seq<AllocationView>,
    region: Seq<Option<u8>>,
    reloc: Option<Pointer>,
    ty: Type,
) -> Option<Value> {
    if region.len() != ty.size() {
        None
    } else {
        decode_sized(mem, region, reloc, ty)
    }
}

/// `decode` on a region of the size of `ty`: one check for each variant.
pub open spec fn decode_sized(
    mem: Seq<AllocationView>,
    region: Seq<Option<u8>>,
    reloc: Option<Pointer>,
    ty: Type,
) -> Option<Value> {
    match ty {
        Type::Int(int_type) => if all_init(region) {
            Some(Value::Int { bits: le_value(bytes_of(region)) as u128, ty: int_type })
        } else {
            None
        },
        Type::Bool => if region[0] == Some(0u8) {
            Some(Value::Bool(false))
        } else if region[0] == Some(1u8) {
            Some(Value::Bool(true))
        } else {
            None
        },
        Type::Ref { .. } => match reloc {
            Some(target) => if is_live(mem, target.alloc) && mem[target.alloc as int].cells.len()
                > 0 {
                Some(Value::Ptr(target))
            } else {
                None
            },
            None => None,
        },
    }
}

/// The validity invariant of `ty`, on the cells and the recorded pointer of
/// a region of its size.
pub open spec fn valid(
    mem: Seq<AllocationView>,
    region: Seq<Option<u8>>,
    reloc: Option<Pointer>,
    ty: Type,
) -> bool {
    decode(mem, region, reloc, ty) is Some
}

/// The cells that a read of `len` cells at `start` of `alloc` looks at.
pub open spec fn region_at(alloc: AllocationView, start: int, len: nat) -> Seq<Option<u8>> {
    alloc.cells.subrange(start, start + len)
}

/// What freeing the allocation of `loc` does.
pub open spec fn deallocate_spec(mem: Seq<AllocationView>, loc: Pointer) -> Result<
    Seq<AllocationView>,
    ErrorKind,
> {
    if is_live(mem, loc.alloc) {
        let dead = AllocationView { live: false, ..mem[loc.alloc as int] };
        Ok(mem.update(loc.alloc as int, dead))
    } else {
        Err(ErrorKind::OutOfLiveness)
    }
}

/// What writing `data` at `offset` from `loc` does. No type is involved.
pub open spec fn write_spec(mem: Seq<AllocationView>, loc: Pointer, offset: usize, data: RawData)
    -> Result<Seq<AllocationView>, ErrorKind> {
    match access_error(mem, loc, offset, data.len()) {
        Some(kind) => Err(kind),
        None => Ok(
            mem.update(
                loc.alloc as int,
                mem[loc.alloc as int].store((loc.offset + offset) as usize, data),
            ),
        ),
    }
}

/// What reading at `offset` from `loc` at type `ty` gives: the cells are
/// fetched first, then held against the validity invariant of `ty`.
pub open spec fn read_spec(mem: Seq<AllocationView>, loc: Pointer, offset: usize, ty: Type)
    -> Result<Value, ErrorKind> {
    match access_error(mem, loc, offset, ty.size()) {
        Some(kind) => Err(kind),
        None => {
            let alloc = mem[loc.alloc as int];
            let start = loc.offset + offset;
            match decode(
                mem,
                region_at(alloc, start, ty.size()),
                lookup(alloc.relocs, start as usize),
                ty,
            ) {
                Some(value) => Ok(value),
                None => Err(ErrorKind::InvalidValue(ty)),
            }
        },
    }
}

/// One allocation: its cells, the pointers recorded in it, and whether it is
/// still live.
pub struct Allocation {
    cells: Vec<Option<u8>>,
    relocs: RelocTable,
    align: usize,
    live: bool,
}

impl View for Allocation {
    type V = AllocationView;

    closed spec fn view(&self) -> AllocationView {
        AllocationView {
            cells: self.cells@,
            relocs: self.relocs@,
            align: self.align,
            live: self.live,
        }
    }
}

impl Allocation {
    /// A live allocation that holds `cells` and no pointer.
    pub fn new(cells: Vec<Option<u8>>, align: usize) -> (alloc: Self)
        ensures
            alloc@ == (AllocationView {
                cells: cells@,
                relocs: Map::empty(),
                align,
                live: true,
            }),
    {
        Allocation { cells, relocs: RelocTable::new(), align, live: true }
    }

    /// Records `target` at `key` and forgets what was recorded there. The
    /// cells stay as they are.
    pub fn record_pointer(&mut self, key: usize, target: Pointer)
        ensures
            final(self)@ == (AllocationView {
                relocs: old(self)@.relocs.insert(key, target),
                ..old(self)@
            }),
    {
        self.relocs.insert(key, target);
    }

    /// Overwrites the cells from `start` on with `bytes`.
    fn fill(&mut self, start: usize, bytes: &Vec<u8>)
        requires
            start + bytes.len() <= old(self).cells.len(),
        ensures
            final(self).cells@ == patch(old(self).cells@, start as int, init_cells(bytes@)),
            final(self).relocs == old(self).relocs,
            final(self).align == old(self).align,
            final(self).live == old(self).live,
    {
        let mut i: usize = 0;
        while i < bytes.len()
            invariant
                i <= bytes.len(),
                start + bytes.len() <= self.cells.len(),
                self.cells.len() == old(self).cells.len(),
                self.cells@ == patch(
                    old(self).cells@,
                    start as int,
                    init_cells(bytes@.take(i as int)),
                ),
                self.relocs == old(self).relocs,
                self.align == old(self).align,
                self.live == old(self).live,
            decreases bytes.len() - i,
        {
            self.cells[start + i] = Some(bytes[i]);
            i = i + 1;
        }
    }

    /// Stores `data` at `start`.
    fn store(&mut self, start: usize, data: &Datum)
        requires
            start + data@.len() <= old(self).cells.len(),
        ensures
            final(self)@ == old(self)@.store(start, data@),
    {
        let len: usize = data.get_len();
        if len > 0 {
            let from: usize = if start >= PTR_SIZE - 1 {
                start - (PTR_SIZE - 1)
            } else {
                0
            };
            self.relocs.remove_range(from, start + len);
            assert(key_range(from, (start + len) as usize) =~= overlapping_keys(start, len as nat));
        } else {
            assert(overlapping_keys(start, 0) =~= Set::<usize>::empty());
            assert(self.relocs@.remove_keys(Set::<usize>::empty()) =~= self.relocs@);
        }
        match data {
            Datum::Bytes(bytes) => {
                self.fill(start, bytes);
            },
            Datum::Pointer(target) => {
                let bytes = encode_le(target.offset as u128, PTR_SIZE);
                proof {
                    crate::encoding::lemma_le_bytes_len(target.offset as nat, PTR_SIZE as nat);
                }
                self.fill(start, &bytes);
                self.relocs.insert(start, *target);
            },
        }
    }

    /// A copy of the `len` cells from `start` on.
    fn fetch(&self, start: usize, len: usize) -> (region: Vec<Option<u8>>)
        requires
            start + len <= self.cells.len(),
        ensures
            region@ == region_at(self@, start as int, len as nat),
    {
        let mut region: Vec<Option<u8>> = Vec::new();
        let mut i: usize = 0;
        while i < len
            invariant
                i <= len,
                start + len <= self.cells.len(),
                region@ == region_at(self@, start as int, i as nat),
            decreases len - i,
        {
            region.push(self.cells[start + i]);
            i = i + 1;
        }
        region
    }
}

/// The bytes that the cells of `region` hold, unless one of them is
/// uninitialised.
pub fn initialised(region: &Vec<Option<u8>>) -> (bytes: Option<Vec<u8>>)
    ensures
        bytes is Some <==> all_init(region@),
        bytes matches Some(found) ==> found@ == bytes_of(region@),
{
    let mut bytes: Vec<u8> = Vec::new();
    let mut i: usize = 0;
    while i < region.len()
        invariant
            i <= region.len(),
            bytes@ == bytes_of(region@.take(i as int)),
            all_init(region@.take(i as int)),
        decreases region.len() - i,
    {
        match region[i] {
            Some(byte) => {
                bytes.push(byte);
                assert forall|j: int| 0 <= j < i + 1 implies (#[trigger] region@.take(
                    i + 1,
                )[j]) is Some by {
                    if j < i {
                        assert(region@.take(i as int)[j] is Some);
                    }
                }
            },
            None => {
                return None;
            },
        }
        i = i + 1;
    }
    assert(region@.take(i as int) =~= region@);
    Some(bytes)
}

/// The store: allocations in the order in which they were made. An
/// allocation's place in that order is its id, and no id is used twice.
pub struct Memory {
    allocs: Vec<Allocation>,
}

impl View for Memory {
    type V = Seq<AllocationView>;

    closed spec fn view(&self) -> Seq<AllocationView> {
        self.allocs@.map_values(|alloc: Allocation| alloc@)
    }
}

impl Memory {
    /// A store without allocations.
    pub fn new() -> (mem: Self)
        ensures
            mem@ == Seq::<AllocationView>::empty(),
    {
        let mem = Memory { allocs: Vec::new() };
        mem
    }

    /// What a store holds is representable.
    pub proof fn lemma_representable(&self)
        ensures
            representable(self@),
    {
        assert forall|i: int| 0 <= i < self@.len() implies (#[trigger] self@[i]).cells.len()
            <= usize::MAX by {
            let alloc = self.allocs@[i];
            assert(alloc.cells@.len() == alloc.cells.len());
        }
    }

    /// Number of allocations made so far, live or not.
    pub fn count(&self) -> (n: usize)
        ensures
            n == self@.len(),
    {
        self.allocs.len()
    }

    /// Adds `alloc` as the newest allocation and returns its location.
    pub fn adopt(&mut self, alloc: Allocation) -> (loc: Pointer)
        ensures
            loc == (Pointer { alloc: old(self)@.len() as usize, offset: 0 }),
            final(self)@ == old(self)@.push(alloc@),
    {
        let id: usize = self.allocs.len();
        self.allocs.push(alloc);
        Pointer { alloc: id, offset: 0 }
    }

    /// Makes a live allocation of `size` uninitialised cells and returns its
    /// location.
    pub fn allocate(&mut self, size: usize, align: usize) -> (loc: Pointer)
        ensures
            loc == (Pointer { alloc: old(self)@.len() as usize, offset: 0 }),
            final(self)@ == old(self)@.push(AllocationView::fresh(size, align)),
    {
        let mut cells: Vec<Option<u8>> = Vec::new();
        let mut i: usize = 0;
        while i < size
            invariant
                i <= size,
                cells@ == Seq::new(i as nat, |j: int| None::<u8>),
            decreases size - i,
        {
            cells.push(None);
            i = i + 1;
        }
        self.adopt(Allocation::new(cells, align))
    }

    /// Ends the life of the allocation of `loc`. Its id is not given out
    /// again. Fails with `OutOfLiveness`, and changes nothing, where the
    /// allocation is not live.
    pub fn deallocate(&mut self, loc: Pointer) -> (done: Result<(), ErrorKind>)
        ensures
            match deallocate_spec(old(self)@, loc) {
                Ok(mem) => done == Ok::<(), ErrorKind>(()) && final(self)@ == mem,
                Err(kind) => done == Err::<(), ErrorKind>(kind) && final(self)@ == old(self)@,
            },
    {
        if loc.alloc >= self.allocs.len() || !self.allocs[loc.alloc].live {
            return Err(ErrorKind::OutOfLiveness);
        }
        self.allocs[loc.alloc].live = false;
        Ok(())
    }

    /// Stores `data` at `offset` from `loc`, whatever was there and whatever
    /// type it was written or will be read at. Fails with `OutOfLiveness`
    /// where the allocation is not live, else with `OutOfBounds` where the
    /// cells do not lie within it, and then changes nothing.
    pub fn write(&mut self, loc: Pointer, offset: usize, data: &Datum) -> (done: Result<
        (),
        ErrorKind,
    >)
        ensures
            match write_spec(old(self)@, loc, offset, data@) {
                Ok(mem) => done == Ok::<(), ErrorKind>(()) && final(self)@ == mem,
                Err(kind) => done == Err::<(), ErrorKind>(kind) && final(self)@ == old(self)@,
            },
    {
        if loc.alloc >= self.allocs.len() || !self.allocs[loc.alloc].live {
            return Err(ErrorKind::OutOfLiveness);
        }
        let len: usize = data.get_len();
        let size: usize = self.allocs[loc.alloc].cells.len();
        let start: usize = match loc.offset.checked_add(offset) {
            Some(start) => start,
            None => {
                return Err(ErrorKind::OutOfBounds);
            },
        };
        if start > size || len > size - start {
            return Err(ErrorKind::OutOfBounds);
        }
        self.allocs[loc.alloc].store(start, data);
        Ok(())
    }

    /// The validity check of `ty`: the value that the cells `region` and the
    /// pointer `reloc` recorded at their start hold at that type, or `None`
    /// where they violate its validity invariant.
    pub fn decode(&self, region: &Vec<Option<u8>>, reloc: Option<Pointer>, ty: &Type) -> (value:
        Option<Value>)
        ensures
            value == decode(self@, region@, reloc, *ty),
    {
        if region.len() != ty.get_size() {
            return None;
        }
        match ty {
            Type::Int(int_type) => match initialised(region) {
                Some(bytes) => {
                    proof {
                        crate::encoding::lemma_le_value_bound(bytes@);
                        crate::encoding::lemma_pow256_monotonic(bytes@.len(), 16);
                        crate::encoding::lemma_modulus_is_pow256(crate::types::IntWidth::W128);
                    }
                    Some(Value::Int { bits: decode_le(&bytes), ty: *int_type })
                },
                None => None,
            },
            Type::Bool => match region[0] {
                Some(0u8) => Some(Value::Bool(false)),
                Some(1u8) => Some(Value::Bool(true)),
                _ => None,
            },
            Type::Ref { .. } => match reloc {
                Some(target) => {
                    if target.alloc < self.allocs.len() && self.allocs[target.alloc].live
                        && self.allocs[target.alloc].cells.len() > 0 {
                        Some(Value::Ptr(target))
                    } else {
                        None
                    }
                },
                None => None,
            },
        }
    }

    /// Reads at `offset` from `loc` at type `ty`: fetches the cells, then
    /// runs the validity check of `ty` on them. Fails with `OutOfLiveness`
    /// where the allocation is not live, else with `OutOfBounds` where the
    /// cells do not lie within it, else with `InvalidValue(ty)` where what
    /// they hold violates the validity invariant of `ty`. Memory is not
    /// changed.
    pub fn read_typed(&self, loc: Pointer, offset: usize, ty: &Type) -> (read: Result<
        Value,
        ErrorKind,
    >)
        ensures
            read == read_spec(self@, loc, offset, *ty),
    {
        if loc.alloc >= self.allocs.len() || !self.allocs[loc.alloc].live {
            return Err(ErrorKind::OutOfLiveness);
        }
        let len: usize = ty.get_size();
        let alloc = &self.allocs[loc.alloc];
        let size: usize = alloc.cells.len();
        let start: usize = match loc.offset.checked_add(offset) {
            Some(start) => start,
            None => {
                return Err(ErrorKind::OutOfBounds);
            },
        };
        if start > size || len > size - start {
            return Err(ErrorKind::OutOfBounds);
        }
        let region = alloc.fetch(start, len);
        match self.decode(&region, alloc.relocs.get(start), ty) {
            Some(value) => Ok(value),
            None => Err(ErrorKind::InvalidValue(ty.clone())),
        }
    }
}

} // verus!
