use miniutil::builder::global::global_int;
use miniutil::builder::{FunctionBuilder, ProgramBuilder};
use miniutil::error::{Diagnosis, ErrorKind};
use miniutil::eval::{run, Machine, Outcome, Place, State};
use miniutil::memory::{Pointer, Value};
use miniutil::program::{
    addr_of, const_bool, const_int, deref, global_by_name, load, FnName, Global, GlobalName,
    Local, PlaceExpr, Program, RelocTarget, Relocation, Statement, ValueExpr,
};
use miniutil::types::{IntType, IntWidth, Mutability, Type, TypeConv};

/// A program of one function, whose body `body` writes.
fn program_of(body: fn(&mut FunctionBuilder)) -> Program {
    let mut p = ProgramBuilder::new();
    let mut f = p.declare_function().unwrap();
    body(&mut f);
    f.exit().unwrap();
    let name = p.finish_function(f).unwrap();
    p.finish_program(name).unwrap()
}

fn kind_of(outcome: Outcome) -> Option<ErrorKind> {
    match outcome {
        Outcome::Success => None,
        Outcome::Ub { kind, .. } => Some(kind),
    }
}

fn message_of(outcome: Outcome) -> String {
    match outcome {
        Outcome::Success => String::new(),
        Outcome::Ub { message, .. } => message,
    }
}

fn ref_to(pointee: Type) -> Type {
    Type::Ref { pointee: Box::new(pointee), mutability: Mutability::Immutable }
}

#[test]
fn an_empty_program_succeeds() {
    assert_eq!(run(&program_of(|_| {})), Outcome::Success);
}

#[test]
fn a_well_typed_program_succeeds() {
    let program = program_of(|f| {
        let x = f.declare_local::<bool>();
        let p = f.declare_local::<&bool>();
        f.storage_live(x).unwrap();
        f.storage_live(p).unwrap();
        f.assign(x, const_bool(true)).unwrap();
        f.assign(p, addr_of(x, <&bool>::get_type())).unwrap();
        f.assume_that(load(deref(load(p), bool::get_type()))).unwrap();
        f.storage_dead(p).unwrap();
        f.storage_dead(x).unwrap();
    });
    assert_eq!(run(&program), Outcome::Success);
}

#[test]
fn a_local_is_dead_before_storage_live() {
    let load_u8 = program_of(|f| {
        let x = f.declare_local::<u8>();
        let y = f.declare_local::<u8>();
        f.storage_live(y).unwrap();
        f.assign(y, load(x)).unwrap();
    });
    assert_eq!(kind_of(run(&load_u8)), Some(ErrorKind::OutOfLiveness));
    let store_bool = program_of(|f| {
        let x = f.declare_local::<bool>();
        f.assign(x, const_bool(true)).unwrap();
    });
    assert_eq!(kind_of(run(&store_bool)), Some(ErrorKind::OutOfLiveness));
    let address_of_ref = program_of(|f| {
        let x = f.declare_local::<&u64>();
        let y = f.declare_local::<&&u64>();
        f.storage_live(y).unwrap();
        f.assign(y, addr_of(x, <&&u64>::get_type())).unwrap();
    });
    assert_eq!(
        run(&address_of_ref),
        Outcome::Ub {
            kind: ErrorKind::OutOfLiveness,
            message: String::from("access to storage that is not live"),
        }
    );
}

#[test]
fn a_local_is_dead_after_storage_dead() {
    let program = program_of(|f| {
        let x = f.declare_local::<u8>();
        f.storage_live(x).unwrap();
        f.assign(x, const_int(1u8)).unwrap();
        f.storage_dead(x).unwrap();
        f.assign(x, const_int(1u8)).unwrap();
    });
    let mut machine = Machine::new(&program);
    for done in 1..=3 {
        machine.step(&program);
        assert_eq!(*machine.state(), State::Running { block: 0, stmt: done });
    }
    machine.step(&program);
    assert_eq!(
        *machine.state(),
        State::Halted(Err(Diagnosis { kind: ErrorKind::OutOfLiveness, through_reference: false }))
    );
}

#[test]
fn a_local_of_any_type_is_dead_outside_its_window() {
    let types = vec![u8::get_type(), Type::Bool, ref_to(Type::Bool), u128::get_type()];
    let program = program_of(|f| {
        f.declare_local::<u8>();
        f.declare_local::<bool>();
        f.declare_local::<&bool>();
        f.declare_local::<u128>();
    });
    let machine = Machine::new(&program);
    let dead = Diagnosis { kind: ErrorKind::OutOfLiveness, through_reference: false };
    for id in 0..5 {
        let local = Local(id);
        assert_eq!(machine.eval_place(&types, &PlaceExpr::Local(local)), Err(dead.clone()));
        assert_eq!(machine.eval_value(&types, &load(local)), Err(dead.clone()));
        assert_eq!(
            machine.eval_value(&types, &addr_of(local, <&u8>::get_type())),
            Err(dead.clone())
        );
    }
}

#[test]
fn a_pointer_to_a_dead_local_is_no_valid_reference() {
    let program = program_of(|f| {
        let x = f.declare_local::<u8>();
        let p = f.declare_local::<&u8>();
        let y = f.declare_local::<u8>();
        f.storage_live(x).unwrap();
        f.storage_live(p).unwrap();
        f.storage_live(y).unwrap();
        f.assign(x, const_int(1u8)).unwrap();
        f.assign(p, addr_of(x, <&u8>::get_type())).unwrap();
        f.storage_dead(x).unwrap();
        f.assign(y, load(deref(load(p), u8::get_type()))).unwrap();
    });
    assert_eq!(
        run(&program),
        Outcome::Ub {
            kind: ErrorKind::InvalidValue(ref_to(u8::get_type())),
            message: String::from(
                "load at type &u8 but the data in memory violates the validity invariant"
            ),
        }
    );
}

#[test]
fn storage_live_again_gives_fresh_uninitialised_storage() {
    let program = program_of(|f| {
        let x = f.declare_local::<u8>();
        let y = f.declare_local::<u8>();
        f.storage_live(x).unwrap();
        f.storage_live(y).unwrap();
        f.assign(x, const_int(1u8)).unwrap();
        f.storage_live(x).unwrap();
        f.assign(y, load(x)).unwrap();
    });
    assert_eq!(kind_of(run(&program)), Some(ErrorKind::InvalidValue(u8::get_type())));
}

#[test]
fn storage_dead_of_a_dead_local_does_nothing() {
    let program = program_of(|f| {
        let x = f.declare_local::<u8>();
        f.storage_dead(x).unwrap();
        f.storage_live(x).unwrap();
        f.storage_dead(x).unwrap();
        f.storage_dead(x).unwrap();
    });
    assert_eq!(run(&program), Outcome::Success);
}

#[test]
fn a_direct_load_of_an_invalid_value_names_no_reference() {
    let program = program_of(|f| {
        let x = f.declare_local::<bool>();
        f.storage_live(x).unwrap();
        f.assign(x, const_int(2u8)).unwrap();
        f.assume_that(load(x)).unwrap();
    });
    assert_eq!(
        run(&program),
        Outcome::Ub {
            kind: ErrorKind::InvalidValue(Type::Bool),
            message: String::from(
                "load at type Bool but the data in memory violates the validity invariant"
            ),
        }
    );
}

#[test]
fn storing_through_a_wrongly_typed_reference_is_no_failure() {
    // `x: u8`, `p: &bool = &x`, `q: &bool = p`: the pointer is stored, loaded and
    // stored again, and nothing looks at the byte behind it.
    let program = program_of(|f| {
        let x = f.declare_local::<u8>();
        let p = f.declare_local::<&bool>();
        let q = f.declare_local::<&bool>();
        f.storage_live(x).unwrap();
        f.storage_live(p).unwrap();
        f.storage_live(q).unwrap();
        f.assign(x, const_int(2u8)).unwrap();
        f.assign(p, addr_of(x, <&bool>::get_type())).unwrap();
        f.assign(q, load(p)).unwrap();
        f.assign(deref(load(q), u8::get_type()), const_int(3u8)).unwrap();
    });
    assert_eq!(run(&program), Outcome::Success);
}

#[test]
fn a_value_larger_than_its_place_is_out_of_bounds() {
    let program = program_of(|f| {
        let x = f.declare_local::<u8>();
        f.storage_live(x).unwrap();
        f.assign(x, const_int(1u16)).unwrap();
    });
    assert_eq!(
        run(&program),
        Outcome::Ub {
            kind: ErrorKind::OutOfBounds,
            message: String::from("access beyond the extent of an allocation"),
        }
    );
}

#[test]
fn a_load_wider_than_the_pointee_is_out_of_bounds() {
    let program = program_of(|f| {
        let x = f.declare_local::<u8>();
        let y = f.declare_local::<u32>();
        f.storage_live(x).unwrap();
        f.storage_live(y).unwrap();
        f.assign(x, const_int(1u8)).unwrap();
        f.assign(y, load(deref(addr_of(x, <&u32>::get_type()), u32::get_type()))).unwrap();
    });
    assert_eq!(kind_of(run(&program)), Some(ErrorKind::OutOfBounds));
}

#[test]
fn a_false_condition_marks_the_path_unreachable() {
    let program = program_of(|f| {
        f.assume_that(const_bool(true)).unwrap();
        f.assume_that(const_bool(false)).unwrap();
        f.assume_that(const_bool(true)).unwrap();
    });
    let mut machine = Machine::new(&program);
    assert!(machine.is_reachable());
    machine.step(&program);
    assert!(machine.is_reachable());
    machine.step(&program);
    assert!(!machine.is_reachable());
    machine.step(&program);
    assert!(!machine.is_reachable());
    assert!(machine.is_running());
    machine.step(&program);
    assert_eq!(*machine.state(), State::Halted(Ok(())));
    assert_eq!(machine.outcome(), Some(Outcome::Success));
    assert_eq!(run(&program), Outcome::Success);
}

#[test]
fn a_condition_that_is_no_boolean_is_invalid() {
    let program = program_of(|f| {
        f.assume_that(const_int(1u8)).unwrap();
    });
    assert_eq!(kind_of(run(&program)), Some(ErrorKind::InvalidValue(Type::Bool)));
}

#[test]
fn a_deref_of_what_is_no_pointer_is_invalid() {
    let program = program_of(|f| {
        f.assume_that(load(deref(const_int(0u64), bool::get_type()))).unwrap();
    });
    assert_eq!(kind_of(run(&program)), Some(ErrorKind::InvalidValue(ref_to(Type::Bool))));
}

#[test]
fn a_halted_machine_stays_halted() {
    let program = program_of(|f| {
        let x = f.declare_local::<u8>();
        f.assign(x, const_int(1u8)).unwrap();
        f.storage_live(x).unwrap();
    });
    let mut machine = Machine::new(&program);
    assert_eq!(machine.outcome(), None);
    machine.step(&program);
    let halted = State::Halted(Err(Diagnosis {
        kind: ErrorKind::OutOfLiveness,
        through_reference: false,
    }));
    assert_eq!(*machine.state(), halted);
    assert!(!machine.is_running());
    machine.step(&program);
    machine.step(&program);
    assert_eq!(*machine.state(), halted);
    assert_eq!(machine.memory().count(), 1);
}

#[test]
fn a_statement_that_fails_leaves_the_machine_as_it_was() {
    let program = program_of(|f| {
        let x = f.declare_local::<u8>();
        f.storage_live(x).unwrap();
        f.assign(x, const_int(7u8)).unwrap();
    });
    let types = vec![u8::get_type()];
    let mut machine = Machine::new(&program);
    machine.step(&program);
    machine.step(&program);
    let too_wide = Statement::Assign { place: PlaceExpr::Local(Local(0)), value: const_int(1u32) };
    assert_eq!(
        machine.execute(&types, &too_wide),
        Err(Diagnosis { kind: ErrorKind::OutOfBounds, through_reference: false })
    );
    assert_eq!(
        machine.eval_value(&types, &load(Local(0))),
        Ok(Value::Int { bits: 7, ty: IntType { signed: false, width: IntWidth::W8 } })
    );
    assert!(machine.is_running());
}

#[test]
fn a_load_of_a_zero_initialised_global_yields_zero() {
    let mut p = ProgramBuilder::new();
    let byte = p.declare_global_zero_initialized::<u8>().unwrap();
    let wide = p.declare_global_zero_initialized::<i64>().unwrap();
    let flag = p.declare_global_zero_initialized::<bool>().unwrap();
    let mut f = p.declare_function().unwrap();
    f.exit().unwrap();
    let name = p.finish_function(f).unwrap();
    let program = p.finish_program(name).unwrap();
    let machine = Machine::new(&program);
    let types = Vec::new();
    assert_eq!(
        machine.eval_value(&types, &load(byte)),
        Ok(Value::Int { bits: 0, ty: IntType { signed: false, width: IntWidth::W8 } })
    );
    assert_eq!(
        machine.eval_value(&types, &load(wide)),
        Ok(Value::Int { bits: 0, ty: IntType { signed: true, width: IntWidth::W64 } })
    );
    assert_eq!(machine.eval_value(&types, &load(flag)), Ok(Value::Bool(false)));
}

#[test]
fn a_program_that_reads_a_zero_initialised_global_succeeds() {
    let mut p = ProgramBuilder::new();
    let global = p.declare_global_zero_initialized::<u8>().unwrap();
    let mut f = p.declare_function().unwrap();
    let x = f.declare_local::<u8>();
    f.storage_live(x).unwrap();
    f.assign(x, load(global)).unwrap();
    f.assume_that(load(deref(addr_of(x, <&bool>::get_type()), bool::get_type()))).unwrap();
    f.exit().unwrap();
    let name = p.finish_function(f).unwrap();
    let program = p.finish_program(name).unwrap();
    let mut machine = Machine::new(&program);
    while machine.is_running() {
        machine.step(&program);
    }
    assert_eq!(*machine.state(), State::Halted(Ok(())));
    // The zero byte is the boolean false: the condition did not hold.
    assert!(!machine.is_reachable());
}

#[test]
fn globals_live_in_the_first_allocations_and_functions_after_them() {
    let mut p = ProgramBuilder::new();
    p.declare_global(global_int::<u8>()).unwrap();
    let table = Global {
        bytes: vec![Some(0); 16],
        relocations: vec![
            (0, Relocation { target: RelocTarget::Global(GlobalName(0)), offset: 0 }),
            (8, Relocation { target: RelocTarget::Function(FnName(0)), offset: 0 }),
        ],
        align: 8,
    };
    p.declare_global(table).unwrap();
    let mut f = p.declare_function().unwrap();
    f.exit().unwrap();
    let name = p.finish_function(f).unwrap();
    let program = p.finish_program(name).unwrap();
    let machine = Machine::new(&program);
    assert_eq!(machine.memory().count(), 3);
    let types = Vec::new();
    let table_at = Pointer { alloc: 1, offset: 0 };
    assert_eq!(
        machine.eval_place(&types, &global_by_name::<&u8>(GlobalName(1))),
        Ok(Place { ptr: table_at, ty: ref_to(u8::get_type()) })
    );
    // The pointer to the global is a valid reference.
    assert_eq!(
        machine.memory().read_typed(table_at, 0, &ref_to(u8::get_type())),
        Ok(Value::Ptr(Pointer { alloc: 0, offset: 0 }))
    );
    // The pointer to the function is none: a function has no bytes.
    assert_eq!(
        machine.memory().read_typed(table_at, 8, &ref_to(u8::get_type())),
        Err(ErrorKind::InvalidValue(ref_to(u8::get_type())))
    );
    assert_eq!(
        machine.memory().read_typed(Pointer { alloc: 2, offset: 0 }, 0, &u8::get_type()),
        Err(ErrorKind::OutOfBounds)
    );
}

#[test]
fn uninitialised_bytes_of_a_global_stay_uninitialised() {
    let mut p = ProgramBuilder::new();
    let name = p
        .declare_global(Global { bytes: vec![Some(1), None], relocations: vec![], align: 1 })
        .unwrap();
    let mut f = p.declare_function().unwrap();
    f.exit().unwrap();
    let entry = p.finish_function(f).unwrap();
    let program = p.finish_program(entry).unwrap();
    let machine = Machine::new(&program);
    let at = Pointer { alloc: name.0, offset: 0 };
    assert_eq!(machine.memory().read_typed(at, 0, &Type::Bool), Ok(Value::Bool(true)));
    assert_eq!(
        machine.memory().read_typed(at, 1, &Type::Bool),
        Err(ErrorKind::InvalidValue(Type::Bool))
    );
    assert_eq!(
        machine.memory().read_typed(at, 0, &u16::get_type()),
        Err(ErrorKind::InvalidValue(u16::get_type()))
    );
}

#[test]
fn each_run_starts_from_fresh_memory() {
    let mut p = ProgramBuilder::new();
    let global = p.declare_global_zero_initialized::<bool>().unwrap();
    let mut f = p.declare_function().unwrap();
    f.assume_that(load(global_by_name::<bool>(GlobalName(0)))).unwrap();
    f.assign(global, const_int(2u8)).unwrap();
    f.exit().unwrap();
    let name = p.finish_function(f).unwrap();
    let program = p.finish_program(name).unwrap();
    assert_eq!(run(&program), Outcome::Success);
    assert_eq!(run(&program), Outcome::Success);
}

#[test]
fn messages_of_the_diagnoses() {
    let text = |kind, through_reference| Diagnosis { kind, through_reference }.describe();
    assert_eq!(
        text(ErrorKind::InvalidValue(Type::Bool), true),
        "Reference to invalid type: load at type Bool but the data in memory violates the \
         validity invariant"
    );
    assert_eq!(
        text(ErrorKind::InvalidValue(<&mut i16>::get_type()), false),
        "load at type &mut i16 but the data in memory violates the validity invariant"
    );
    assert_eq!(text(ErrorKind::OutOfLiveness, true), "access to storage that is not live");
    assert_eq!(text(ErrorKind::OutOfBounds, false), "access beyond the extent of an allocation");
    assert_eq!(
        text(ErrorKind::BuilderMisuse, false),
        "use of a function or block that was never finished"
    );
    assert_eq!(ErrorKind::InvalidValue(Type::Bool).clone(), ErrorKind::InvalidValue(Type::Bool));
}

#[test]
fn the_message_of_an_outcome_is_that_of_its_diagnosis() {
    let program = program_of(|f| {
        let x = f.declare_local::<u8>();
        f.assume_that(load(x)).unwrap();
    });
    assert_eq!(message_of(run(&program)), "access to storage that is not live");
    assert!(matches!(
        load(Local(0)),
        ValueExpr::Load { .. }
    ));
}

#[test]
fn a_local_that_was_never_declared_is_never_live() {
    let program = program_of(|f| {
        f.storage_dead(Local(3)).unwrap();
        f.storage_live(Local(3)).unwrap();
    });
    let mut machine = Machine::new(&program);
    machine.step(&program);
    assert_eq!(*machine.state(), State::Running { block: 0, stmt: 1 });
    assert_eq!(kind_of(run(&program)), Some(ErrorKind::OutOfLiveness));
    let access = program_of(|f| {
        f.assume_that(load(Local(0))).unwrap();
    });
    assert_eq!(kind_of(run(&access)), Some(ErrorKind::OutOfLiveness));
}
