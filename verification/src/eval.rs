//! The evaluator: a linear state machine over a finished program.
//!
//! The spec functions of this module say what each expression, statement
//! and step does to the machine as a mathematical value. The executable
//! machine is proved to do exactly that.

use vstd::prelude::*;
use crate::error::{Diagnosis, ErrorKind};
use crate::memory::{
    deallocate_spec, read_spec, write_spec, Allocation, AllocationView, Memory, Pointer, Value,
};
use crate::program::{
    Constant, Function, Global, PlaceExpr, Program, ProgramView, RelocTarget, Relocation,
    Statement, Terminator, ValueExpr,
};
use crate::types::{Mutability, Type};

verus! {

/// A place that an expression evaluated to: where it is and the type it is
/// taken to hold.
#[derive(PartialEq, Eq, Debug)]
pub struct Place {
    pub ptr: Pointer,
    pub ty: Type,
}

/// Where the machine stands.
#[derive(PartialEq, Eq, Debug)]
pub enum State {
    /// About to run statement `stmt` of block `block`, or the block's
    /// terminator where `stmt` is the number of its statements.
    Running { block: usize, stmt: usize },
    /// Stopped for good: with success, or at the first failure.
    Halted(Result<(), Diagnosis>),
}

/// The machine as a mathematical value.
pub struct MachineView {
    pub mem: Seq<AllocationView>,
    /// The storage of each local of the running function, by id. `None` is
    /// a local outside its liveness window.
    pub locals: Seq<Option<Pointer>>,
    /// Whether no false condition was met so far.
    pub reachable: bool,
    pub state: State,
}

/// The pointer that a statically initialised pointer stands for, in a
/// program with `globals` globals: global `i` lives in allocation `i`, and
/// function `j` in allocation `globals + j`.
pub open spec fn resolve(reloc: Relocation, globals: nat) -> Pointer {
    match reloc.target {
        RelocTarget::Global(name) => Pointer { alloc: name.0, offset: reloc.offset },
        RelocTarget::Function(name) => Pointer {
            alloc: if globals + name.0 <= usize::MAX {
                (globals + name.0) as usize
            } else {
                usize::MAX
            },
            offset: reloc.offset,
        },
    }
}

/// The pointers that a global's relocations record, by offset. Of two at
/// one offset the later stands.
pub open spec fn resolve_all(relocs: Seq<(usize, Relocation)>, globals: nat) -> Map<
    usize,
    Pointer,
>
    decreases relocs.len(),
{
    if relocs.len() == 0 {
        Map::empty()
    } else {
        resolve_all(relocs.drop_last(), globals).insert(
            relocs.last().0,
            resolve(relocs.last().1, globals),
        )
    }
}

/// The allocation that a global starts out as.
pub open spec fn global_image(global: Global, globals: nat) -> AllocationView {
    AllocationView {
        cells: global.bytes@,
        relocs: resolve_all(global.relocations@, globals),
        align: global.align,
        live: true,
    }
}

/// The memory that a program starts with: one allocation for each global,
/// holding its bytes and pointers, then one of size zero for each function.
pub open spec fn initial_memory(program: ProgramView) -> Seq<AllocationView> {
    Seq::new(
        program.globals.len() + program.functions.len(),
        |i: int|
            if i < program.globals.len() {
                global_image(program.globals[i], program.globals.len())
            } else {
                AllocationView::fresh(0, 1)
            },
    )
}

/// The function that runs, if it was finished.
pub open spec fn entry(program: ProgramView) -> Option<Function> {
    if program.start.0 < program.functions.len() {
        program.functions[program.start.0 as int]
    } else {
        None
    }
}

/// The machine before the first step: every local is dead.
pub open spec fn initial(program: ProgramView) -> MachineView {
    match entry(program) {
        Some(function) => MachineView {
            mem: initial_memory(program),
            locals: Seq::new(function.locals@.len(), |i: int| None::<Pointer>),
            reachable: true,
            state: State::Running { block: function.start.0, stmt: 0 },
        },
        None => MachineView {
            mem: initial_memory(program),
            locals: Seq::empty(),
            reachable: true,
            state: State::Halted(Err(Diagnosis::direct(ErrorKind::BuilderMisuse))),
        },
    }
}

/// The value of a constant.
pub open spec fn constant_value(constant: Constant) -> Value {
    match constant {
        Constant::Int { bits, ty } => Value::Int { bits, ty },
        Constant::Bool(b) => Value::Bool(b),
        Constant::GlobalPointer(name) => Value::Ptr(Pointer { alloc: name.0, offset: 0 }),
    }
}

/// The storage of `local`, where it is within its liveness window.
pub open spec fn storage(m: MachineView, types: Seq<Type>, local: usize) -> Option<Pointer> {
    if local < m.locals.len() && local < types.len() {
        m.locals[local as int]
    } else {
        None
    }
}

/// What evaluating a place gives. A local outside its liveness window is
/// `OutOfLiveness`, whatever its type. Taking the place behind a pointer
/// checks nothing about the pointee.
pub open spec fn eval_place(m: MachineView, types: Seq<Type>, place: PlaceExpr) -> Result<
    Place,
    Diagnosis,
>
    decreases place,
{
    match place {
        PlaceExpr::Local(local) => match storage(m, types, local.0) {
            Some(ptr) => Ok(Place { ptr, ty: types[local.0 as int] }),
            None => Err(Diagnosis::direct(ErrorKind::OutOfLiveness)),
        },
        PlaceExpr::Deref { operand, ty } => match eval_value(m, types, *operand) {
            Ok(Value::Ptr(ptr)) => Ok(Place { ptr, ty }),
            Ok(_) => Err(
                Diagnosis::direct(
                    ErrorKind::InvalidValue(
                        Type::Ref { pointee: Box::new(ty), mutability: Mutability::Immutable },
                    ),
                ),
            ),
            Err(diagnosis) => Err(diagnosis),
        },
    }
}

/// What evaluating a value gives. Only a load reads memory, and only a load
/// holds anything against a type: the type of the place it reads.
pub open spec fn eval_value(m: MachineView, types: Seq<Type>, value: ValueExpr) -> Result<
    Value,
    Diagnosis,
>
    decreases value,
{
    match value {
        ValueExpr::Constant(constant) => Ok(constant_value(constant)),
        ValueExpr::Load { source } => match eval_place(m, types, *source) {
            Ok(place) => match read_spec(m.mem, place.ptr, 0, place.ty) {
                Ok(loaded) => Ok(loaded),
                Err(kind) => Err(Diagnosis { kind, through_reference: *source is Deref }),
            },
            Err(diagnosis) => Err(diagnosis),
        },
        ValueExpr::AddrOf { target, ptr_ty } => match eval_place(m, types, *target) {
            Ok(place) => Ok(Value::Ptr(place.ptr)),
            Err(diagnosis) => Err(diagnosis),
        },
    }
}

/// `mem` with the allocation of `ptr` freed, where it was live.
pub open spec fn freed(mem: Seq<AllocationView>, ptr: Pointer) -> Seq<AllocationView> {
    match deallocate_spec(mem, ptr) {
        Ok(after) => after,
        Err(_) => mem,
    }
}

/// What a statement does to the machine, or why it fails.
pub open spec fn execute(m: MachineView, types: Seq<Type>, statement: Statement) -> Result<
    MachineView,
    Diagnosis,
> {
    match statement {
        Statement::StorageLive(local) => if local.0 < m.locals.len() && local.0 < types.len() {
            let before = match m.locals[local.0 as int] {
                Some(ptr) => freed(m.mem, ptr),
                None => m.mem,
            };
            let ty = types[local.0 as int];
            Ok(
                MachineView {
                    mem: before.push(AllocationView::fresh(ty.size() as usize, ty.align() as usize)),
                    locals: m.locals.update(
                        local.0 as int,
                        Some(Pointer { alloc: before.len() as usize, offset: 0 }),
                    ),
                    ..m
                },
            )
        } else {
            Err(Diagnosis::direct(ErrorKind::OutOfLiveness))
        },
        Statement::StorageDead(local) => match storage(m, types, local.0) {
            Some(ptr) => Ok(
                MachineView {
                    mem: freed(m.mem, ptr),
                    locals: m.locals.update(local.0 as int, None),
                    ..m
                },
            ),
            None => Ok(m),
        },
        Statement::Assign { place, value } => match eval_place(m, types, place) {
            Ok(target) => match eval_value(m, types, value) {
                Ok(stored) => match write_spec(m.mem, target.ptr, 0, stored.encoded()) {
                    Ok(mem) => Ok(MachineView { mem, ..m }),
                    Err(kind) => Err(Diagnosis { kind, through_reference: place is Deref }),
                },
                Err(diagnosis) => Err(diagnosis),
            },
            Err(diagnosis) => Err(diagnosis),
        },
        Statement::Assume(condition) => match eval_value(m, types, condition) {
            Ok(Value::Bool(holds)) => Ok(MachineView { reachable: m.reachable && holds, ..m }),
            Ok(_) => Err(Diagnosis::direct(ErrorKind::InvalidValue(Type::Bool))),
            Err(diagnosis) => Err(diagnosis),
        },
    }
}

/// The machine stopped with `result`.
pub open spec fn halted(m: MachineView, result: Result<(), Diagnosis>) -> MachineView {
    MachineView { state: State::Halted(result), ..m }
}

/// One step: the next statement, or the terminator of the block. A halted
/// machine stays as it is.
pub open spec fn step(program: ProgramView, m: MachineView) -> MachineView {
    match m.state {
        State::Halted(_) => m,
        State::Running { block, stmt } => match entry(program) {
            Some(function) => if block < function.blocks@.len() {
                let statements = function.blocks@[block as int].statements@;
                if stmt < statements.len() {
                    match execute(m, function.locals@, statements[stmt as int]) {
                        Ok(after) => MachineView {
                            state: State::Running { block, stmt: (stmt + 1) as usize },
                            ..after
                        },
                        Err(diagnosis) => halted(m, Err(diagnosis)),
                    }
                } else {
                    match function.blocks@[block as int].terminator {
                        Terminator::Exit => halted(m, Ok(())),
                    }
                }
            } else {
                halted(m, Err(Diagnosis::direct(ErrorKind::BuilderMisuse)))
            },
            None => halted(m, Err(Diagnosis::direct(ErrorKind::BuilderMisuse))),
        },
    }
}

/// The machine after `n` steps.
pub open spec fn steps(program: ProgramView, m: MachineView, n: nat) -> MachineView
    decreases n,
{
    if n == 0 {
        m
    } else {
        steps(program, step(program, m), (n - 1) as nat)
    }
}

/// A number of steps after which the machine has halted.
pub open spec fn remaining(program: ProgramView, m: MachineView) -> nat {
    match m.state {
        State::Halted(_) => 0,
        State::Running { block, stmt } => match entry(program) {
            Some(function) => if block < function.blocks@.len() && stmt
                < function.blocks@[block as int].statements@.len() {
                (function.blocks@[block as int].statements@.len() - stmt + 1) as nat
            } else {
                1
            },
            None => 1,
        },
    }
}

/// The machine at the end of the run of `program`.
pub open spec fn final_machine(program: ProgramView) -> MachineView {
    steps(program, initial(program), remaining(program, initial(program)))
}

/// How the run of `program` ends: with success, or with the first failure.
/// The machine has halted by then: see `lemma_run_halts`.
pub open spec fn run_spec(program: ProgramView) -> Result<(), Diagnosis> {
    final_machine(program).state->Halted_0
}

/// A halted machine stays as it is, however many steps are asked of it.
pub proof fn lemma_halted_stays(program: ProgramView, m: MachineView, n: nat)
    requires
        m.state is Halted,
    ensures
        steps(program, m, n) == m,
    decreases n,
{
    if n > 0 {
        lemma_halted_stays(program, m, (n - 1) as nat);
    }
}

/// A step of a running machine brings it nearer to its end and does not
/// change where it ends.
pub proof fn lemma_step_progress(program: ProgramView, m: MachineView)
    requires
        m.state is Running,
    ensures
        remaining(program, step(program, m)) < remaining(program, m),
        steps(program, step(program, m), remaining(program, step(program, m))) == steps(
            program,
            m,
            remaining(program, m),
        ),
{
    let next = step(program, m);
    let left = remaining(program, m);
    match (m.state, entry(program)) {
        (State::Running { block, stmt }, Some(function)) => {
            if block < function.blocks@.len() {
                // The number of statements fits a `usize`, so the index of
                // the next one does not wrap.
                let statements = function.blocks@[block as int].statements;
                assert(statements@.len() == statements.len());
            }
        },
        _ => {},
    }
    if next.state is Halted {
        lemma_halted_stays(program, next, (left - 1) as nat);
        lemma_halted_stays(program, next, 0);
    }
}

/// Every run ends: after the steps that `remaining` counts the machine has
/// halted.
pub proof fn lemma_run_halts(program: ProgramView, m: MachineView)
    ensures
        steps(program, m, remaining(program, m)).state is Halted,
    decreases remaining(program, m),
{
    if m.state is Running {
        lemma_step_progress(program, m);
        lemma_run_halts(program, step(program, m));
    }
}

/// How a run ended, as its caller sees it.
#[derive(PartialEq, Eq, Debug)]
pub enum Outcome {
    /// The program reached `exit`.
    Success,
    /// The program met undefined behaviour: the first failure, with its
    /// message.
    Ub { kind: ErrorKind, message: String },
}

impl Outcome {
    /// Whether this outcome is the report of `result`.
    pub open spec fn reports(self, result: Result<(), Diagnosis>) -> bool {
        match result {
            Ok(_) => self is Success,
            Err(diagnosis) => self matches Outcome::Ub { kind, message } && kind == diagnosis.kind
                && message@ == diagnosis.message(),
        }
    }
}

/// The pointer that `reloc` stands for in a program with `globals` globals.
fn resolve_pointer(reloc: &Relocation, globals: usize) -> (ptr: Pointer)
    ensures
        ptr == resolve(*reloc, globals as nat),
{
    match reloc.target {
        RelocTarget::Global(name) => Pointer { alloc: name.0, offset: reloc.offset },
        RelocTarget::Function(name) => {
            let alloc: usize = match globals.checked_add(name.0) {
                Some(alloc) => alloc,
                None => usize::MAX,
            };
            Pointer { alloc, offset: reloc.offset }
        },
    }
}

/// The allocation that `global` starts out as.
fn load_global(global: &Global, globals: usize) -> (alloc: Allocation)
    ensures
        alloc@ == global_image(*global, globals as nat),
{
    let mut cells: Vec<Option<u8>> = Vec::new();
    let mut i: usize = 0;
    while i < global.bytes.len()
        invariant
            i <= global.bytes.len(),
            cells@ == global.bytes@.take(i as int),
        decreases global.bytes.len() - i,
    {
        cells.push(global.bytes[i]);
        i = i + 1;
    }
    assert(global.bytes@.take(i as int) =~= global.bytes@);
    let mut alloc = Allocation::new(cells, global.align);
    let mut k: usize = 0;
    while k < global.relocations.len()
        invariant
            k <= global.relocations.len(),
            alloc@ == (AllocationView {
                cells: global.bytes@,
                relocs: resolve_all(global.relocations@.take(k as int), globals as nat),
                align: global.align,
                live: true,
            }),
        decreases global.relocations.len() - k,
    {
        let entry = global.relocations[k];
        alloc.record_pointer(entry.0, resolve_pointer(&entry.1, globals));
        assert(global.relocations@.take(k + 1).drop_last() =~= global.relocations@.take(
            k as int,
        ));
        k = k + 1;
    }
    assert(global.relocations@.take(k as int) =~= global.relocations@);
    alloc
}

/// The machine: memory, the storage of the locals, and where it stands.
pub struct Machine {
    mem: Memory,
    locals: Vec<Option<Pointer>>,
    reachable: bool,
    state: State,
}

impl View for Machine {
    type V = MachineView;

    closed spec fn view(&self) -> MachineView {
        MachineView {
            mem: self.mem@,
            locals: self.locals@,
            reachable: self.reachable,
            state: self.state,
        }
    }
}

impl Machine {
    /// The machine before the first step of `program`, with fresh memory.
    pub fn new(program: &Program) -> (machine: Machine)
        ensures
            machine@ == initial(program@),
    {
        let globals = program.globals();
        let functions = program.functions();
        let mut mem = Memory::new();
        let mut i: usize = 0;
        while i < globals.len()
            invariant
                i <= globals.len(),
                mem@ == Seq::new(i as nat, |j: int| global_image(globals@[j], globals@.len())),
            decreases globals.len() - i,
        {
            let alloc = load_global(&globals[i], globals.len());
            mem.adopt(alloc);
            i = i + 1;
        }
        let mut k: usize = 0;
        while k < functions.len()
            invariant
                k <= functions.len(),
                globals@ == program@.globals,
                functions@ == program@.functions,
                mem@ == initial_memory(program@).take(globals@.len() + k),
            decreases functions.len() - k,
        {
            mem.allocate(0, 1);
            k = k + 1;
        }
        assert(initial_memory(program@).take(globals@.len() + k) =~= initial_memory(program@));
        let start = program.start();
        if start.0 < functions.len() {
            match &functions[start.0] {
                Some(function) => {
                    let mut locals: Vec<Option<Pointer>> = Vec::new();
                    let mut n: usize = 0;
                    while n < function.locals.len()
                        invariant
                            n <= function.locals.len(),
                            locals@ == Seq::new(n as nat, |i: int| None::<Pointer>),
                        decreases function.locals.len() - n,
                    {
                        locals.push(None);
                        n = n + 1;
                    }
                    return Machine {
                        mem,
                        locals,
                        reachable: true,
                        state: State::Running { block: function.start.0, stmt: 0 },
                    };
                },
                None => {},
            }
        }
        let machine = Machine {
            mem,
            locals: Vec::new(),
            reachable: true,
            state: State::Halted(
                Err(Diagnosis { kind: ErrorKind::BuilderMisuse, through_reference: false }),
            ),
        };
        machine
    }

    /// Whether the machine has not halted yet.
    pub fn is_running(&self) -> (running: bool)
        ensures
            running == (self@.state is Running),
    {
        match &self.state {
            State::Running { .. } => true,
            State::Halted(_) => false,
        }
    }

    /// Where the machine stands.
    pub fn state(&self) -> (state: &State)
        ensures
            *state == self@.state,
    {
        &self.state
    }

    /// Whether no false condition was met so far.
    pub fn is_reachable(&self) -> (reachable: bool)
        ensures
            reachable == self@.reachable,
    {
        self.reachable
    }

    /// The memory of the machine.
    pub fn memory(&self) -> (mem: &Memory)
        ensures
            mem@ == self@.mem,
    {
        &self.mem
    }

    /// Evaluates a place. `types` are the types of the function's locals.
    pub fn eval_place(&self, types: &Vec<Type>, place: &PlaceExpr) -> (found: Result<
        Place,
        Diagnosis,
    >)
        ensures
            found == eval_place(self@, types@, *place),
        decreases *place,
    {
        match place {
            PlaceExpr::Local(local) => {
                if local.0 < self.locals.len() && local.0 < types.len() {
                    match self.locals[local.0] {
                        Some(ptr) => Ok(Place { ptr, ty: types[local.0].clone() }),
                        None => Err(
                            Diagnosis {
                                kind: ErrorKind::OutOfLiveness,
                                through_reference: false,
                            },
                        ),
                    }
                } else {
                    Err(Diagnosis { kind: ErrorKind::OutOfLiveness, through_reference: false })
                }
            },
            PlaceExpr::Deref { operand, ty } => match self.eval_value(types, operand) {
                Ok(Value::Ptr(ptr)) => Ok(Place { ptr, ty: ty.clone() }),
                Ok(_) => Err(
                    Diagnosis {
                        kind: ErrorKind::InvalidValue(
                            Type::Ref {
                                pointee: Box::new(ty.clone()),
                                mutability: Mutability::Immutable,
                            },
                        ),
                        through_reference: false,
                    },
                ),
                Err(diagnosis) => Err(diagnosis),
            },
        }
    }

    /// Evaluates a value. `types` are the types of the function's locals.
    pub fn eval_value(&self, types: &Vec<Type>, value: &ValueExpr) -> (found: Result<
        Value,
        Diagnosis,
    >)
        ensures
            found == eval_value(self@, types@, *value),
        decreases *value,
    {
        match value {
            ValueExpr::Constant(constant) => Ok(
                match constant {
                    Constant::Int { bits, ty } => Value::Int { bits: *bits, ty: *ty },
                    Constant::Bool(b) => Value::Bool(*b),
                    Constant::GlobalPointer(name) => Value::Ptr(
                        Pointer { alloc: name.0, offset: 0 },
                    ),
                },
            ),
            ValueExpr::Load { source } => match self.eval_place(types, source) {
                Ok(place) => match self.mem.read_typed(place.ptr, 0, &place.ty) {
                    Ok(loaded) => Ok(loaded),
                    Err(kind) => {
                        let through_reference = match **source {
                            PlaceExpr::Deref { .. } => true,
                            PlaceExpr::Local(_) => false,
                        };
                        Err(Diagnosis { kind, through_reference })
                    },
                },
                Err(diagnosis) => Err(diagnosis),
            },
            ValueExpr::AddrOf { target, ptr_ty } => match self.eval_place(types, target) {
                Ok(place) => Ok(Value::Ptr(place.ptr)),
                Err(diagnosis) => Err(diagnosis),
            },
        }
    }

    /// Runs one statement. Where it fails, the machine is left as it was.
    pub fn execute(&mut self, types: &Vec<Type>, statement: &Statement) -> (done: Result<
        (),
        Diagnosis,
    >)
        ensures
            match execute(old(self)@, types@, *statement) {
                Ok(after) => done is Ok && final(self)@ == after,
                Err(diagnosis) => done == Err::<(), Diagnosis>(diagnosis) && final(self)@ == old(
                    self,
                )@,
            },
    {
        match statement {
            Statement::StorageLive(local) => {
                if local.0 < self.locals.len() && local.0 < types.len() {
                    match self.locals[local.0] {
                        Some(ptr) => {
                            let _ = self.mem.deallocate(ptr);
                        },
                        None => {},
                    }
                    let ty = &types[local.0];
                    let ptr = self.mem.allocate(ty.get_size(), ty.get_align());
                    self.locals[local.0] = Some(ptr);
                    Ok(())
                } else {
                    Err(Diagnosis { kind: ErrorKind::OutOfLiveness, through_reference: false })
                }
            },
            Statement::StorageDead(local) => {
                if local.0 < self.locals.len() && local.0 < types.len() {
                    match self.locals[local.0] {
                        Some(ptr) => {
                            let _ = self.mem.deallocate(ptr);
                            self.locals[local.0] = None;
                        },
                        None => {},
                    }
                }
                Ok(())
            },
            Statement::Assign { place, value } => {
                let target = match self.eval_place(types, place) {
                    Ok(target) => target,
                    Err(diagnosis) => {
                        return Err(diagnosis);
                    },
                };
                let stored = match self.eval_value(types, value) {
                    Ok(stored) => stored,
                    Err(diagnosis) => {
                        return Err(diagnosis);
                    },
                };
                match self.mem.write(target.ptr, 0, &stored.encode()) {
                    Ok(_) => Ok(()),
                    Err(kind) => {
                        let through_reference = match place {
                            PlaceExpr::Deref { .. } => true,
                            PlaceExpr::Local(_) => false,
                        };
                        Err(Diagnosis { kind, through_reference })
                    },
                }
            },
            Statement::Assume(condition) => match self.eval_value(types, condition) {
                Ok(Value::Bool(holds)) => {
                    self.reachable = self.reachable && holds;
                    Ok(())
                },
                Ok(_) => Err(
                    Diagnosis {
                        kind: ErrorKind::InvalidValue(Type::Bool),
                        through_reference: false,
                    },
                ),
                Err(diagnosis) => Err(diagnosis),
            },
        }
    }

    /// Takes one step of `program`.
    pub fn step(&mut self, program: &Program)
        ensures
            final(self)@ == step(program@, old(self)@),
    {
        let (block, stmt) = match &self.state {
            State::Halted(_) => {
                return ;
            },
            State::Running { block, stmt } => (*block, *stmt),
        };
        let functions = program.functions();
        let start = program.start();
        if start.0 < functions.len() {
            match &functions[start.0] {
                Some(function) => {
                    if block < function.blocks.len() {
                        let statements = &function.blocks[block].statements;
                        if stmt < statements.len() {
                            match self.execute(&function.locals, &statements[stmt]) {
                                Ok(_) => {
                                    self.state = State::Running { block, stmt: stmt + 1 };
                                },
                                Err(diagnosis) => {
                                    self.state = State::Halted(Err(diagnosis));
                                },
                            }
                        } else {
                            match function.blocks[block].terminator {
                                Terminator::Exit => {
                                    self.state = State::Halted(Ok(()));
                                },
                            }
                        }
                        return ;
                    }
                },
                None => {},
            }
        }
        self.state = State::Halted(
            Err(Diagnosis { kind: ErrorKind::BuilderMisuse, through_reference: false }),
        );
    }

    /// What the machine has come to: `None` while it runs.
    pub fn outcome(&self) -> (outcome: Option<Outcome>)
        ensures
            match self@.state {
                State::Running { .. } => outcome is None,
                State::Halted(result) => outcome matches Some(report) && report.reports(result),
            },
    {
        match &self.state {
            State::Running { .. } => None,
            State::Halted(Ok(_)) => Some(Outcome::Success),
            State::Halted(Err(diagnosis)) => Some(
                Outcome::Ub { kind: diagnosis.kind.clone(), message: diagnosis.describe() },
            ),
        }
    }
}

/// Runs `program` from its start, against fresh memory, to its end: success
/// at `exit`, or the first failure.
pub fn run(program: &Program) -> (outcome: Outcome)
    ensures
        final_machine(program@).state is Halted,
        outcome.reports(run_spec(program@)),
{
    let mut machine = Machine::new(program);
    loop
        invariant
            steps(program@, machine@, remaining(program@, machine@)) == final_machine(program@),
        decreases remaining(program@, machine@),
    {
        match machine.outcome() {
            Some(outcome) => {
                proof {
                    lemma_halted_stays(program@, machine@, 0);
                }
                return outcome;
            },
            None => {},
        }
        proof {
            lemma_step_progress(program@, machine@);
        }
        machine.step(program);
    }
}

} // verus!
