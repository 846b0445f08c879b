//! Programs of the machine: expressions, statements, functions and globals.

use vstd::prelude::*;
use crate::ints::IntConv;
use crate::types::{IntType, Type, TypeConv};

verus! {

/// A local of a function, by its id: its place in the order of declaration.
#[derive(Clone, Copy, PartialEq, Eq, Structural, Debug)]
pub struct Local(pub usize);

/// A basic block of a function, by its place in the function.
#[derive(Clone, Copy, PartialEq, Eq, Structural, Debug)]
pub struct BbName(pub usize);

/// A function of a program, by the order of declaration.
#[derive(Clone, Copy, PartialEq, Eq, Structural, Debug)]
pub struct FnName(pub usize);

/// A global of a program, by the order of declaration.
#[derive(Clone, Copy, PartialEq, Eq, Structural, Debug)]
pub struct GlobalName(pub usize);

/// A value written out in the program.
#[derive(Clone, Copy, PartialEq, Eq, Structural, Debug)]
pub enum Constant {
    /// An integer, as its bit pattern at the width of its type.
    Int { bits: u128, ty: IntType },
    Bool(bool),
    /// A pointer to the start of a global.
    GlobalPointer(GlobalName),
}

/// An expression that names a storage location.
#[derive(PartialEq, Eq, Debug)]
pub enum PlaceExpr {
    /// The storage of a local. Its type is the one the local was declared
    /// with.
    Local(Local),
    /// The location that a pointer value denotes, taken to hold a `ty`.
    Deref { operand: Box<ValueExpr>, ty: Type },
}

/// An expression that computes a value.
#[derive(PartialEq, Eq, Debug)]
pub enum ValueExpr {
    Constant(Constant),
    /// A typed read of a place, at the type of the place.
    Load { source: Box<PlaceExpr> },
    /// A pointer to a place. `ptr_ty` is the type that the pointer is
    /// declared to have: it is chosen freely and never held against what
    /// the place stores.
    AddrOf { target: Box<PlaceExpr>, ptr_ty: Type },
}

/// What can be used where a place is expected.
pub trait IntoPlace: Sized {
    spec fn place_of(self) -> PlaceExpr;

    fn into_place(self) -> (place: PlaceExpr)
        ensures
            place == self.place_of(),
    ;
}

impl IntoPlace for Local {
    open spec fn place_of(self) -> PlaceExpr {
        PlaceExpr::Local(self)
    }

    fn into_place(self) -> (place: PlaceExpr) {
        PlaceExpr::Local(self)
    }
}

impl IntoPlace for PlaceExpr {
    open spec fn place_of(self) -> PlaceExpr {
        self
    }

    fn into_place(self) -> (place: PlaceExpr) {
        self
    }
}

/// The place that the pointer `operand` denotes, taken to hold a `ty`.
pub fn deref(operand: ValueExpr, ty: Type) -> (place: PlaceExpr)
    ensures
        place == (PlaceExpr::Deref { operand: Box::new(operand), ty }),
{
    PlaceExpr::Deref { operand: Box::new(operand), ty }
}

/// A typed read of `source`.
pub fn load<P: IntoPlace>(source: P) -> (value: ValueExpr)
    ensures
        value == (ValueExpr::Load { source: Box::new(source.place_of()) }),
{
    ValueExpr::Load { source: Box::new(source.into_place()) }
}

/// A pointer to `target`, declared to have type `ptr_ty`.
pub fn addr_of<P: IntoPlace>(target: P, ptr_ty: Type) -> (value: ValueExpr)
    ensures
        value == (ValueExpr::AddrOf { target: Box::new(target.place_of()), ptr_ty }),
{
    ValueExpr::AddrOf { target: Box::new(target.into_place()), ptr_ty }
}

/// The integer `value` as a constant of its own type.
pub fn const_int<T: IntConv>(value: T) -> (expr: ValueExpr)
    ensures
        expr == ValueExpr::Constant(
            Constant::Int { bits: value.bits_of(), ty: T::int_type() },
        ),
{
    let ty = match T::get_type() {
        Type::Int(int_type) => int_type,
        _ => {
            proof {
                value.bits_represent_value();
            }
            unreached()
        },
    };
    proof {
        value.bits_represent_value();
    }
    ValueExpr::Constant(Constant::Int { bits: value.to_bits(), ty })
}

/// The boolean `value` as a constant.
pub fn const_bool(value: bool) -> (expr: ValueExpr)
    ensures
        expr == ValueExpr::Constant(Constant::Bool(value)),
{
    ValueExpr::Constant(Constant::Bool(value))
}

/// The place of the global `name`, taken to hold a `ty`.
pub open spec fn global_place(name: GlobalName, ty: Type) -> PlaceExpr {
    PlaceExpr::Deref {
        operand: Box::new(ValueExpr::Constant(Constant::GlobalPointer(name))),
        ty,
    }
}

/// The place of the global `name`, taken to hold a `T`.
pub fn global_by_name<T: TypeConv>(name: GlobalName) -> (place: PlaceExpr)
    ensures
        place == global_place(name, T::type_of()),
{
    deref(ValueExpr::Constant(Constant::GlobalPointer(name)), T::get_type())
}

/// One step of a function's body.
#[derive(PartialEq, Eq, Debug)]
pub enum Statement {
    /// Opens the liveness window of a local: gives it fresh storage.
    StorageLive(Local),
    /// Closes the liveness window of a local: frees its storage.
    StorageDead(Local),
    /// Evaluates `value` and stores it at `place`, whatever the type of the
    /// place.
    Assign { place: PlaceExpr, value: ValueExpr },
    /// Evaluates a boolean; where it is false, the path is unreachable.
    Assume(ValueExpr),
}

/// How a basic block ends.
#[derive(Clone, Copy, PartialEq, Eq, Structural, Debug)]
pub enum Terminator {
    /// Ends the program with success.
    Exit,
}

/// Statements that run in order, and what follows them.
#[derive(PartialEq, Eq, Debug)]
pub struct BasicBlock {
    pub statements: Vec<Statement>,
    pub terminator: Terminator,
}

/// A function: the types of its locals, by id, and its blocks.
#[derive(PartialEq, Eq, Debug)]
pub struct Function {
    pub locals: Vec<Type>,
    pub blocks: Vec<BasicBlock>,
    pub start: BbName,
}

/// What a statically initialised pointer points into.
#[derive(Clone, Copy, PartialEq, Eq, Structural, Debug)]
pub enum RelocTarget {
    Global(GlobalName),
    Function(FnName),
}

/// A statically initialised pointer: a named target and an offset into it,
/// in place of an address.
#[derive(Clone, Copy, PartialEq, Eq, Structural, Debug)]
pub struct Relocation {
    pub target: RelocTarget,
    pub offset: usize,
}

/// A global: its initial bytes, where `None` is an uninitialised byte, the
/// pointers among them by the offset of their first byte, and its
/// alignment.
#[derive(Clone, PartialEq, Eq, Debug)]
pub struct Global {
    pub bytes: Vec<Option<u8>>,
    pub relocations: Vec<(usize, Relocation)>,
    pub align: usize,
}

impl Global {
    /// Whether the global is `size` zero bytes without a pointer, aligned
    /// to `align`.
    pub open spec fn is_zeroed(self, size: nat, align: nat) -> bool {
        &&& self.bytes@ == Seq::new(size, |i: int| Some(0u8))
        &&& self.relocations@ == Seq::<(usize, Relocation)>::empty()
        &&& self.align == align
    }

    /// A global of `size` zero bytes without a pointer.
    pub fn zeroed(size: usize, align: usize) -> (global: Global)
        ensures
            global.is_zeroed(size as nat, align as nat),
    {
        let mut bytes: Vec<Option<u8>> = Vec::new();
        let mut i: usize = 0;
        while i < size
            invariant
                i <= size,
                bytes@ == Seq::new(i as nat, |j: int| Some(0u8)),
            decreases size - i,
        {
            bytes.push(Some(0u8));
            i = i + 1;
        }
        Global { bytes, relocations: Vec::new(), align }
    }
}

/// A finished program, as a mathematical value.
pub struct ProgramView {
    /// The functions by name. A function that was declared and never
    /// finished is `None`.
    pub functions: Seq<Option<Function>>,
    /// The globals by name.
    pub globals: Seq<Global>,
    /// The function that runs.
    pub start: FnName,
}

/// A finished program. Nothing about it can change any more.
#[derive(PartialEq, Eq, Debug)]
pub struct Program {
    functions: Vec<Option<Function>>,
    globals: Vec<Global>,
    start: FnName,
}

impl View for Program {
    type V = ProgramView;

    closed spec fn view(&self) -> ProgramView {
        ProgramView { functions: self.functions@, globals: self.globals@, start: self.start }
    }
}

impl Program {
    /// Freezes functions and globals into a program that starts at `start`.
    pub(crate) fn assemble(
        functions: Vec<Option<Function>>,
        globals: Vec<Global>,
        start: FnName,
    ) -> (program: Program)
        ensures
            program@ == (ProgramView { functions: functions@, globals: globals@, start }),
    {
        Program { functions, globals, start }
    }

    pub fn functions(&self) -> (functions: &Vec<Option<Function>>)
        ensures
            functions@ == self@.functions,
    {
        &self.functions
    }

    pub fn globals(&self) -> (globals: &Vec<Global>)
        ensures
            globals@ == self@.globals,
    {
        &self.globals
    }

    pub fn start(&self) -> (start: FnName)
        ensures
            start == self@.start,
    {
        self.start
    }
}

} // verus!
