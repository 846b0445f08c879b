//! Incremental construction of programs.
//!
//! A `ProgramBuilder` hands out `FunctionBuilder`s, takes the finished
//! functions back, and at last freezes everything into a `Program`. Each
//! step that comes too late, or names a function that was not declared or
//! not finished, is refused with `BuilderMisuse` and changes nothing.

use vstd::prelude::*;
use crate::error::ErrorKind;
use crate::program::{
    BasicBlock, BbName, FnName, Function, Global, GlobalName, IntoPlace, Local, Program,
    ProgramView, Statement, Terminator, ValueExpr,
};
use crate::types::{Type, TypeConv};

pub mod global;

verus! {

/// A function under construction: its locals, and the statements of its one
/// block, which stays open until `exit`.
pub struct FunctionBuilder {
    name: FnName,
    locals: Vec<Type>,
    statements: Vec<Statement>,
    terminated: bool,
}

impl FunctionBuilder {
    /// The name under which the function was declared.
    pub closed spec fn name(&self) -> FnName {
        self.name
    }

    /// The types of the locals declared so far, by id.
    pub closed spec fn locals(&self) -> Seq<Type> {
        self.locals@
    }

    /// The statements added so far.
    pub closed spec fn statements(&self) -> Seq<Statement> {
        self.statements@
    }

    /// Whether `exit` has closed the body.
    pub closed spec fn terminated(&self) -> bool {
        self.terminated
    }

    /// Whether `self` is `before` with `statement` added at the end.
    pub open spec fn extends(&self, before: &FunctionBuilder, statement: Statement) -> bool {
        &&& self.name() == before.name()
        &&& self.locals() == before.locals()
        &&& self.statements() == before.statements().push(statement)
        &&& self.terminated() == before.terminated()
    }

    /// Whether `function` is what this builder has put together: its locals,
    /// and one block of its statements that ends in `Exit`.
    pub open spec fn builds(&self, function: Function) -> bool {
        &&& function.locals@ == self.locals()
        &&& function.blocks@.len() == 1
        &&& function.blocks@[0].statements@ == self.statements()
        &&& function.blocks@[0].terminator == Terminator::Exit
        &&& function.start == BbName(0)
    }

    fn push(&mut self, statement: Statement) -> (done: Result<(), ErrorKind>)
        ensures
            !old(self).terminated() ==> done is Ok && final(self).extends(old(self), statement),
            old(self).terminated() ==> done == Err::<(), ErrorKind>(ErrorKind::BuilderMisuse)
                && *final(self) == *old(self),
    {
        if self.terminated {
            return Err(ErrorKind::BuilderMisuse);
        }
        self.statements.push(statement);
        Ok(())
    }

    /// Reserves a new local of the type that `T` stands for. It starts
    /// dead: only `storage_live` makes it accessible.
    pub fn declare_local<T: TypeConv>(&mut self) -> (local: Local)
        ensures
            local == Local(old(self).locals().len() as usize),
            final(self).locals() == old(self).locals().push(T::type_of()),
            final(self).name() == old(self).name(),
            final(self).statements() == old(self).statements(),
            final(self).terminated() == old(self).terminated(),
    {
        let id: usize = self.locals.len();
        self.locals.push(T::get_type());
        Local(id)
    }

    /// Adds the statement that opens the liveness window of `local`.
    /// Refused after `exit`.
    pub fn storage_live(&mut self, local: Local) -> (done: Result<(), ErrorKind>)
        ensures
            !old(self).terminated() ==> done is Ok && final(self).extends(
                old(self),
                Statement::StorageLive(local),
            ),
            old(self).terminated() ==> done == Err::<(), ErrorKind>(ErrorKind::BuilderMisuse)
                && *final(self) == *old(self),
    {
        self.push(Statement::StorageLive(local))
    }

    /// Adds the statement that closes the liveness window of `local`.
    /// Refused after `exit`.
    pub fn storage_dead(&mut self, local: Local) -> (done: Result<(), ErrorKind>)
        ensures
            !old(self).terminated() ==> done is Ok && final(self).extends(
                old(self),
                Statement::StorageDead(local),
            ),
            old(self).terminated() ==> done == Err::<(), ErrorKind>(ErrorKind::BuilderMisuse)
                && *final(self) == *old(self),
    {
        self.push(Statement::StorageDead(local))
    }

    /// Adds the statement that stores the value of `value` at `place`.
    /// Nothing holds the value against the type of the place. Refused after
    /// `exit`.
    pub fn assign<P: IntoPlace>(&mut self, place: P, value: ValueExpr) -> (done: Result<
        (),
        ErrorKind,
    >)
        ensures
            !old(self).terminated() ==> done is Ok && final(self).extends(
                old(self),
                Statement::Assign { place: place.place_of(), value },
            ),
            old(self).terminated() ==> done == Err::<(), ErrorKind>(ErrorKind::BuilderMisuse)
                && *final(self) == *old(self),
    {
        self.push(Statement::Assign { place: place.into_place(), value })
    }

    /// Adds the statement that evaluates `condition` as a boolean. Refused
    /// after `exit`.
    pub fn assume_that(&mut self, condition: ValueExpr) -> (done: Result<(), ErrorKind>)
        ensures
            !old(self).terminated() ==> done is Ok && final(self).extends(
                old(self),
                Statement::Assume(condition),
            ),
            old(self).terminated() ==> done == Err::<(), ErrorKind>(ErrorKind::BuilderMisuse)
                && *final(self) == *old(self),
    {
        self.push(Statement::Assume(condition))
    }

    /// Closes the body: the program ends with success where it gets here.
    /// Refused where the body is closed already.
    pub fn exit(&mut self) -> (done: Result<(), ErrorKind>)
        ensures
            !old(self).terminated() ==> done is Ok && final(self).terminated() && final(self).name() == old(self).name() && final(self).locals() == old(self).locals() && final(self).statements() == old(self).statements(),
            old(self).terminated() ==> done == Err::<(), ErrorKind>(ErrorKind::BuilderMisuse)
                && *final(self) == *old(self),
    {
        if self.terminated {
            return Err(ErrorKind::BuilderMisuse);
        }
        self.terminated = true;
        Ok(())
    }
}

/// A program under construction.
pub struct ProgramBuilder {
    functions: Vec<Option<Function>>,
    globals: Vec<Global>,
    finished: bool,
}

impl ProgramBuilder {
    /// The functions declared so far, by name: `None` until finished.
    pub closed spec fn functions(&self) -> Seq<Option<Function>> {
        self.functions@
    }

    /// The globals declared so far, by name.
    pub closed spec fn globals(&self) -> Seq<Global> {
        self.globals@
    }

    /// Whether `finish_program` has frozen the program.
    pub closed spec fn finished(&self) -> bool {
        self.finished
    }

    /// Whether `name` is a function that was declared and finished.
    pub open spec fn has_function(&self, name: FnName) -> bool {
        name.0 < self.functions().len() && self.functions()[name.0 as int] is Some
    }

    /// Whether `builder` can be handed in: the program is not frozen, the
    /// body is closed, and the function was declared here and not handed in
    /// before.
    pub open spec fn accepts(&self, builder: &FunctionBuilder) -> bool {
        &&& !self.finished()
        &&& builder.terminated()
        &&& builder.name().0 < self.functions().len()
        &&& self.functions()[builder.name().0 as int] is None
    }

    /// A builder without functions or globals.
    pub fn new() -> (builder: Self)
        ensures
            !builder.finished(),
            builder.functions() == Seq::<Option<Function>>::empty(),
            builder.globals() == Seq::<Global>::empty(),
    {
        ProgramBuilder { functions: Vec::new(), globals: Vec::new(), finished: false }
    }

    /// Opens a new function under the next free name. Refused once the
    /// program is frozen.
    pub fn declare_function(&mut self) -> (opened: Result<FunctionBuilder, ErrorKind>)
        ensures
            match opened {
                Ok(builder) => {
                    &&& !old(self).finished()
                    &&& builder.name() == FnName(old(self).functions().len() as usize)
                    &&& builder.locals() == Seq::<Type>::empty()
                    &&& builder.statements() == Seq::<Statement>::empty()
                    &&& !builder.terminated()
                    &&& final(self).functions() == old(self).functions().push(None)
                    &&& final(self).globals() == old(self).globals()
                    &&& !final(self).finished()
                },
                Err(kind) => {
                    &&& old(self).finished()
                    &&& kind == ErrorKind::BuilderMisuse
                    &&& *final(self) == *old(self)
                },
            },
    {
        if self.finished {
            return Err(ErrorKind::BuilderMisuse);
        }
        let name = FnName(self.functions.len());
        self.functions.push(None);
        Ok(FunctionBuilder { name, locals: Vec::new(), statements: Vec::new(), terminated: false })
    }

    /// Takes a function whose body is closed into the program, under the
    /// name it was declared with. Refused unless `accepts(builder)`.
    pub fn finish_function(&mut self, builder: FunctionBuilder) -> (named: Result<
        FnName,
        ErrorKind,
    >)
        ensures
            match named {
                Ok(name) => {
                    &&& old(self).accepts(&builder)
                    &&& name == builder.name()
                    &&& final(self).functions().len() == old(self).functions().len()
                    &&& final(self).functions()[name.0 as int] matches Some(function)
                        && builder.builds(function)
                    &&& forall|i: int|
                        0 <= i < old(self).functions().len() && i != name.0 ==> final(self).functions()[i] == old(self).functions()[i]
                    &&& final(self).globals() == old(self).globals()
                    &&& !final(self).finished()
                },
                Err(kind) => {
                    &&& !old(self).accepts(&builder)
                    &&& kind == ErrorKind::BuilderMisuse
                    &&& *final(self) == *old(self)
                },
            },
    {
        if self.finished || !builder.terminated || builder.name.0 >= self.functions.len() {
            return Err(ErrorKind::BuilderMisuse);
        }
        if self.functions[builder.name.0].is_some() {
            return Err(ErrorKind::BuilderMisuse);
        }
        let name = builder.name;
        let mut blocks: Vec<BasicBlock> = Vec::new();
        blocks.push(
            BasicBlock { statements: builder.statements, terminator: Terminator::Exit },
        );
        let function = Function { locals: builder.locals, blocks, start: BbName(0) };
        self.functions[name.0] = Some(function);
        Ok(name)
    }

    /// Adds `global` under the next free name. Refused once the program is
    /// frozen.
    pub fn declare_global(&mut self, global: Global) -> (named: Result<GlobalName, ErrorKind>)
        ensures
            match named {
                Ok(name) => {
                    &&& !old(self).finished()
                    &&& name == GlobalName(old(self).globals().len() as usize)
                    &&& final(self).globals() == old(self).globals().push(global)
                    &&& final(self).functions() == old(self).functions()
                    &&& !final(self).finished()
                },
                Err(kind) => {
                    &&& old(self).finished()
                    &&& kind == ErrorKind::BuilderMisuse
                    &&& *final(self) == *old(self)
                },
            },
    {
        if self.finished {
            return Err(ErrorKind::BuilderMisuse);
        }
        let name = GlobalName(self.globals.len());
        self.globals.push(global);
        Ok(name)
    }

    /// Freezes what was built into a program that starts at `entry`. The
    /// builder is spent: every later step on it is refused. Refused itself
    /// where the program is frozen already, or `entry` is not a finished
    /// function.
    pub fn finish_program(&mut self, entry: FnName) -> (frozen: Result<Program, ErrorKind>)
        ensures
            match frozen {
                Ok(program) => {
                    &&& !old(self).finished()
                    &&& old(self).has_function(entry)
                    &&& program@ == (ProgramView {
                        functions: old(self).functions(),
                        globals: old(self).globals(),
                        start: entry,
                    })
                    &&& final(self).finished()
                    &&& final(self).functions() == Seq::<Option<Function>>::empty()
                    &&& final(self).globals() == Seq::<Global>::empty()
                },
                Err(kind) => {
                    &&& old(self).finished() || !old(self).has_function(entry)
                    &&& kind == ErrorKind::BuilderMisuse
                    &&& *final(self) == *old(self)
                },
            },
    {
        if self.finished || entry.0 >= self.functions.len() {
            return Err(ErrorKind::BuilderMisuse);
        }
        if self.functions[entry.0].is_none() {
            return Err(ErrorKind::BuilderMisuse);
        }
        let mut functions: Vec<Option<Function>> = Vec::new();
        let mut globals: Vec<Global> = Vec::new();
        core::mem::swap(&mut self.functions, &mut functions);
        core::mem::swap(&mut self.globals, &mut globals);
        self.finished = true;
        Ok(Program::assemble(functions, globals, entry))
    }
}

} // verus!
