//! What holds of memory and of the machine on every input.

use vstd::prelude::*;
use crate::encoding::{
    le_bytes, le_value, lemma_le_bytes_len, lemma_le_bytes_of_value, lemma_le_value_of_bytes,
    lemma_modulus_is_pow256,
};
use crate::error::{Diagnosis, ErrorKind};
use crate::eval::{eval_place, eval_value, execute, initial, storage, MachineView};
use crate::memory::{
    access_error, bytes_of, init_cells, is_live, read_spec, region_at, representable,
    valid, write_spec, AllocationView, Pointer, RawData, Value,
};
use crate::program::{global_place, GlobalName, Local, PlaceExpr, ProgramView, Statement, ValueExpr};
use crate::reloc::lookup;
use crate::types::{IntType, Type};

verus! {

/// Whether `value` is a valid value of type `ty` in `mem`: an integer of
/// that type whose bit pattern fits its width, a boolean, or a pointer to a
/// live allocation of non-zero size.
pub open spec fn is_valid_at(value: Value, ty: Type, mem: Seq<AllocationView>) -> bool {
    match value {
        Value::Int { bits, ty: int_type } => ty == Type::Int(int_type) && bits
            < int_type.width.modulus(),
        Value::Bool(_) => ty == Type::Bool,
        Value::Ptr(target) => ty is Ref && is_live(mem, target.alloc)
            && mem[target.alloc as int].cells.len() > 0,
    }
}

/// What was just written is found as written: the cells of the region are
/// those of the data, and a pointer is recorded at its first cell.
pub proof fn lemma_region_after_write(
    mem: Seq<AllocationView>,
    loc: Pointer,
    offset: usize,
    data: RawData,
)
    requires
        representable(mem),
        write_spec(mem, loc, offset, data) is Ok,
    ensures
        ({
            let after = write_spec(mem, loc, offset, data)->Ok_0;
            let start = loc.offset + offset;
            &&& access_error(after, loc, offset, data.len()) is None
            &&& region_at(after[loc.alloc as int], start, data.len()) == data.cells()
            &&& data.reloc() is Some ==> lookup(after[loc.alloc as int].relocs, start as usize)
                == data.reloc()
            &&& forall|id: usize| is_live(after, id) == is_live(mem, id)
            &&& forall|id: usize|
                id < mem.len() ==> (#[trigger] after[id as int]).cells.len() == mem[id as int].cells.len()
        }),
{
    match data {
        RawData::Bytes(_) => {},
        RawData::Pointer(target) => {
            lemma_le_bytes_len(target.offset as nat, crate::types::PTR_SIZE as nat);
        },
    }
}

/// A typed read of cells that can be accessed fails if and only if they
/// violate the validity invariant of the type asked for, and then with
/// `InvalidValue` of that very type.
pub proof fn law_read_checks_validity(
    mem: Seq<AllocationView>,
    loc: Pointer,
    offset: usize,
    ty: Type,
)
    requires
        access_error(mem, loc, offset, ty.size()) is None,
    ensures
        ({
            let alloc = mem[loc.alloc as int];
            let start = loc.offset + offset;
            let holds = valid(
                mem,
                region_at(alloc, start, ty.size()),
                lookup(alloc.relocs, start as usize),
                ty,
            );
            &&& read_spec(mem, loc, offset, ty) is Ok <==> holds
            &&& !holds ==> read_spec(mem, loc, offset, ty) == Err::<Value, ErrorKind>(
                ErrorKind::InvalidValue(ty),
            )
        }),
{
}

/// Storing an integer that was just read puts back the very bytes that
/// were read.
pub proof fn law_integer_load_then_store(
    mem: Seq<AllocationView>,
    loc: Pointer,
    offset: usize,
    ty: IntType,
)
    requires
        read_spec(mem, loc, offset, Type::Int(ty)) is Ok,
    ensures
        read_spec(mem, loc, offset, Type::Int(ty))->Ok_0.encoded().cells() == region_at(
            mem[loc.alloc as int],
            loc.offset + offset,
            ty.width.size(),
        ),
{
    let region = region_at(mem[loc.alloc as int], loc.offset + offset, ty.width.size());
    let bytes = bytes_of(region);
    lemma_le_bytes_of_value(bytes);
    crate::encoding::lemma_le_value_bound(bytes);
    crate::encoding::lemma_pow256_monotonic(bytes.len(), 16);
    lemma_modulus_is_pow256(crate::types::IntWidth::W128);
}

/// A read at an integer type right after a write of a region of the type's
/// size succeeds, whatever was written: bytes or a pointer. Raw bytes come
/// back as the number they spell.
pub proof fn law_integer_read_after_write(
    mem: Seq<AllocationView>,
    loc: Pointer,
    offset: usize,
    data: RawData,
    ty: IntType,
)
    requires
        representable(mem),
        data.len() == ty.width.size(),
        write_spec(mem, loc, offset, data) is Ok,
    ensures
        read_spec(write_spec(mem, loc, offset, data)->Ok_0, loc, offset, Type::Int(ty)) is Ok,
        data matches RawData::Bytes(bytes) ==> read_spec(
            write_spec(mem, loc, offset, data)->Ok_0,
            loc,
            offset,
            Type::Int(ty),
        ) == Ok::<Value, ErrorKind>(Value::Int { bits: le_value(bytes) as u128, ty }),
{
    lemma_region_after_write(mem, loc, offset, data);
    match data {
        RawData::Bytes(bytes) => {
            assert(bytes_of(init_cells(bytes)) =~= bytes);
        },
        RawData::Pointer(_) => {},
    }
}

/// A write never fails for the sake of a type: it fails only where the
/// allocation is not live or the region does not lie within it, and
/// succeeds everywhere else.
pub proof fn law_write_checks_no_type(
    mem: Seq<AllocationView>,
    loc: Pointer,
    offset: usize,
    data: RawData,
)
    ensures
        write_spec(mem, loc, offset, data) is Ok <==> is_live(mem, loc.alloc) && loc.offset
            + offset + data.len() <= mem[loc.alloc as int].cells.len(),
        write_spec(mem, loc, offset, data) matches Err(kind) ==> kind == ErrorKind::OutOfLiveness
            || kind == ErrorKind::OutOfBounds,
{
}

/// A read at the boolean type of a byte that can be accessed fails with
/// `InvalidValue(Bool)` if and only if the cell does not hold exactly 0 or
/// 1, and never fails otherwise.
pub proof fn law_bool_read(mem: Seq<AllocationView>, loc: Pointer, offset: usize)
    requires
        access_error(mem, loc, offset, 1) is None,
    ensures
        ({
            let cell = mem[loc.alloc as int].cells[loc.offset + offset];
            let read = read_spec(mem, loc, offset, Type::Bool);
            &&& read == Err::<Value, ErrorKind>(ErrorKind::InvalidValue(Type::Bool)) <==> cell
                != Some(0u8) && cell != Some(1u8)
            &&& cell == Some(0u8) ==> read == Ok::<Value, ErrorKind>(Value::Bool(false))
            &&& cell == Some(1u8) ==> read == Ok::<Value, ErrorKind>(Value::Bool(true))
        }),
{
}

/// Storing a valid value of a type and reading the same place at that type
/// gives the value back.
pub proof fn law_store_then_load(
    mem: Seq<AllocationView>,
    loc: Pointer,
    offset: usize,
    value: Value,
    ty: Type,
)
    requires
        representable(mem),
        is_valid_at(value, ty, mem),
        write_spec(mem, loc, offset, value.encoded()) is Ok,
    ensures
        read_spec(write_spec(mem, loc, offset, value.encoded())->Ok_0, loc, offset, ty) == Ok::<
            Value,
            ErrorKind,
        >(value),
{
    let data = value.encoded();
    lemma_region_after_write(mem, loc, offset, data);
    match value {
        Value::Int { bits, ty: int_type } => {
            let size = int_type.width.size();
            lemma_le_bytes_len(bits as nat, size);
            lemma_modulus_is_pow256(int_type.width);
            lemma_le_value_of_bytes(bits as nat, size);
            assert(bytes_of(init_cells(le_bytes(bits as nat, size))) =~= le_bytes(
                bits as nat,
                size,
            ));
        },
        Value::Bool(_) => {},
        Value::Ptr(_) => {},
    }
}

/// A read at a reference type is shallow. It does not depend on the type
/// of the pointee, nor on the mutability: at any two reference types it
/// succeeds on the same memory, with the same pointer.
pub proof fn law_reference_read_ignores_pointee_type(
    mem: Seq<AllocationView>,
    loc: Pointer,
    offset: usize,
    first: Type,
    second: Type,
)
    requires
        first is Ref,
        second is Ref,
    ensures
        read_spec(mem, loc, offset, first) is Ok <==> read_spec(mem, loc, offset, second) is Ok,
        read_spec(mem, loc, offset, first) is Ok ==> read_spec(mem, loc, offset, first)
            == read_spec(mem, loc, offset, second),
{
}

/// A read at a reference type does not look at what the pointer points
/// to: whatever the cells and pointers of another allocation are replaced
/// with, as long as their number stays, the read gives the same.
pub proof fn law_reference_read_ignores_pointee_bytes(
    mem: Seq<AllocationView>,
    loc: Pointer,
    offset: usize,
    ty: Type,
    other: usize,
    cells: Seq<Option<u8>>,
    relocs: Map<usize, Pointer>,
)
    requires
        ty is Ref,
        other < mem.len(),
        other != loc.alloc,
        cells.len() == mem[other as int].cells.len(),
    ensures
        read_spec(
            mem.update(other as int, AllocationView { cells, relocs, ..mem[other as int] }),
            loc,
            offset,
            ty,
        ) == read_spec(mem, loc, offset, ty),
{
}

/// Taking the address of a place checks nothing: it yields the location of
/// the place whenever the place evaluates, whatever pointer type was
/// declared for it.
pub proof fn law_addr_of_checks_no_type(
    m: MachineView,
    types: Seq<Type>,
    target: PlaceExpr,
    ptr_ty: Type,
)
    ensures
        eval_place(m, types, target) matches Ok(place) ==> eval_value(
            m,
            types,
            ValueExpr::AddrOf { target: Box::new(target), ptr_ty },
        ) == Ok::<Value, Diagnosis>(Value::Ptr(place.ptr)),
        eval_place(m, types, target) matches Err(diagnosis) ==> eval_value(
            m,
            types,
            ValueExpr::AddrOf { target: Box::new(target), ptr_ty },
        ) == Err::<Value, Diagnosis>(diagnosis),
{
}

/// An assignment checks nothing against the type of its place: where both
/// sides evaluate, it succeeds if the allocation is live and the value
/// fits within it, and stores the value as it is encoded.
pub proof fn law_assign_checks_no_type(
    m: MachineView,
    types: Seq<Type>,
    place: PlaceExpr,
    value: ValueExpr,
)
    requires
        eval_place(m, types, place) is Ok,
        eval_value(m, types, value) is Ok,
    ensures
        ({
            let target = eval_place(m, types, place)->Ok_0;
            let stored = eval_value(m, types, value)->Ok_0;
            let done = execute(m, types, Statement::Assign { place, value });
            &&& done is Ok <==> access_error(m.mem, target.ptr, 0, stored.encoded().len()) is None
            &&& done matches Ok(after) ==> write_spec(m.mem, target.ptr, 0, stored.encoded())
                == Ok::<Seq<AllocationView>, ErrorKind>(after.mem)
            &&& done matches Err(diagnosis) ==> diagnosis.kind == ErrorKind::OutOfLiveness
                || diagnosis.kind == ErrorKind::OutOfBounds
        }),
{
}

/// The bytes behind a pointer are held against a type only when they are
/// loaded, and against the type that the load names: a load through a
/// pointer is the typed read at the pointer's location, and nothing else
/// decides whether it fails.
pub proof fn law_pointee_checked_at_load(
    m: MachineView,
    types: Seq<Type>,
    operand: ValueExpr,
    ty: Type,
    ptr: Pointer,
)
    requires
        eval_value(m, types, operand) == Ok::<Value, Diagnosis>(Value::Ptr(ptr)),
    ensures
        ({
            let loaded = eval_value(
                m,
                types,
                ValueExpr::Load {
                    source: Box::new(PlaceExpr::Deref { operand: Box::new(operand), ty }),
                },
            );
            match read_spec(m.mem, ptr, 0, ty) {
                Ok(value) => loaded == Ok::<Value, Diagnosis>(value),
                Err(kind) => loaded == Err::<Value, Diagnosis>(
                    Diagnosis { kind, through_reference: true },
                ),
            }
        }),
{
}

/// Every access to a local outside its liveness window fails with
/// `OutOfLiveness`, whatever the type of the local: naming it as a place,
/// loading it, taking its address, and assigning to it.
pub proof fn law_dead_local(
    m: MachineView,
    types: Seq<Type>,
    local: Local,
    ptr_ty: Type,
    value: ValueExpr,
)
    requires
        storage(m, types, local.0) is None,
    ensures
        ({
            let dead = Diagnosis::direct(ErrorKind::OutOfLiveness);
            let place = PlaceExpr::Local(local);
            &&& eval_place(m, types, place) == Err::<crate::eval::Place, Diagnosis>(dead)
            &&& eval_value(m, types, ValueExpr::Load { source: Box::new(place) }) == Err::<
                Value,
                Diagnosis,
            >(dead)
            &&& eval_value(m, types, ValueExpr::AddrOf { target: Box::new(place), ptr_ty })
                == Err::<Value, Diagnosis>(dead)
            &&& execute(m, types, Statement::Assign { place, value }) == Err::<
                MachineView,
                Diagnosis,
            >(dead)
        }),
{
}

/// Before the first step every local is outside its liveness window.
pub proof fn law_locals_start_dead(program: ProgramView, types: Seq<Type>, local: Local)
    ensures
        storage(initial(program), types, local.0) is None,
{
}

/// `StorageLive` of a declared local opens its liveness window, and
/// `StorageDead` closes it, whatever came before.
pub proof fn law_liveness_window(m: MachineView, types: Seq<Type>, local: Local)
    requires
        local.0 < m.locals.len(),
        local.0 < types.len(),
    ensures
        execute(m, types, Statement::StorageLive(local)) matches Ok(after) && storage(
            after,
            types,
            local.0,
        ) is Some,
        execute(m, types, Statement::StorageDead(local)) matches Ok(after) && storage(
            after,
            types,
            local.0,
        ) is None,
{
}

/// The number that zero bytes spell is zero.
pub proof fn lemma_zero_bytes_spell_zero(n: nat)
    ensures
        le_value(Seq::new(n, |i: int| 0u8)) == 0,
    decreases n,
{
    if n > 0 {
        lemma_zero_bytes_spell_zero((n - 1) as nat);
        assert(Seq::new(n, |i: int| 0u8).drop_first() =~= Seq::new((n - 1) as nat, |i: int| 0u8));
    }
}

/// A load at an integer type of the place of a global yields zero wherever
/// the allocation of the global is live and holds zero bytes of the size of
/// the type.
pub proof fn law_zero_bytes_load_zero(
    m: MachineView,
    types: Seq<Type>,
    name: GlobalName,
    ty: IntType,
)
    requires
        is_live(m.mem, name.0),
        m.mem[name.0 as int].cells == Seq::new(ty.width.size(), |i: int| Some(0u8)),
    ensures
        eval_value(
            m,
            types,
            ValueExpr::Load { source: Box::new(global_place(name, Type::Int(ty))) },
        ) == Ok::<Value, Diagnosis>(Value::Int { bits: 0, ty }),
{
    let size = ty.width.size();
    let region = region_at(m.mem[name.0 as int], 0, size);
    assert(bytes_of(region) =~= Seq::new(size, |i: int| 0u8));
    lemma_zero_bytes_spell_zero(size);
    assert(eval_value(m, types, ValueExpr::Constant(crate::program::Constant::GlobalPointer(name)))
        == Ok::<Value, Diagnosis>(Value::Ptr(Pointer { alloc: name.0, offset: 0 })));
}

/// A load of a zero-initialised global at the integer type it was declared
/// for succeeds at the start of the program, and yields zero.
pub proof fn law_zeroed_global_loads_zero(
    program: ProgramView,
    types: Seq<Type>,
    name: GlobalName,
    ty: IntType,
)
    requires
        name.0 < program.globals.len(),
        program.globals[name.0 as int].is_zeroed(Type::Int(ty).size(), Type::Int(ty).align()),
    ensures
        eval_value(
            initial(program),
            types,
            ValueExpr::Load { source: Box::new(global_place(name, Type::Int(ty))) },
        ) == Ok::<Value, Diagnosis>(Value::Int { bits: 0, ty }),
{
    law_zero_bytes_load_zero(initial(program), types, name, ty);
}

} // verus!
