use miniutil::builder::ProgramBuilder;
use miniutil::error::ErrorKind;
use miniutil::eval::{run, Machine, Outcome, State};
use miniutil::memory::{Pointer, Value};
use miniutil::program::{addr_of, const_int, deref, load, Program};
use miniutil::types::{Type, TypeConv};

struct BasicMem;

/// Fails unless `program` runs into undefined behaviour whose message
/// contains `expected`.
fn assert_ub<M>(program: Program, expected: &str) {
    match run(&program) {
        Outcome::Ub { message, .. } => {
            assert!(message.contains(expected), "got the message: {}", message)
        }
        Outcome::Success => panic!("the program ran to its end"),
    }
}

/// `x: u8 = 2`, `p: &bool = &x`, then a load of `*p` as a boolean.
fn confused_program() -> Program {
    let mut p = ProgramBuilder::new();
    let f = {
        let mut f = p.declare_function().unwrap();
        let no_bool = f.declare_local::<u8>();
        f.storage_live(no_bool).unwrap();
        f.assign(no_bool, const_int(2_u8)).unwrap();
        let buul = f.declare_local::<&bool>();
        f.storage_live(buul).unwrap();
        f.assign(buul, addr_of(no_bool, <&bool>::get_type())).unwrap();
        f.assume_that(load(deref(load(buul), <bool>::get_type()))).unwrap();
        f.exit().unwrap();
        p.finish_function(f).unwrap()
    };
    p.finish_program(f).unwrap()
}

#[test]
fn ref_not_ub() {
    let mut p = ProgramBuilder::new();
    let f = {
        let mut f = p.declare_function().unwrap();
        // declare non boolean
        let no_bool = f.declare_local::<u8>();
        f.storage_live(no_bool).unwrap();
        f.assign(no_bool, const_int(2_u8)).unwrap();

        // put it behind a boolean reference
        let buul = f.declare_local::<&bool>();
        f.storage_live(buul).unwrap();

        // Storing the pointer is no undefined behaviour.
        f.assign(buul, addr_of(no_bool, <&bool>::get_type())).unwrap();

        // Using this bool then is.
        f.assume_that(load(deref(load(buul), <bool>::get_type()))).unwrap();
        f.exit().unwrap();
        p.finish_function(f).unwrap()
    };
    let p = p.finish_program(f).unwrap();
    assert_ub::<BasicMem>(p, "Reference to invalid type");
}

#[test]
fn type_confusion_is_reported_at_the_type_of_the_load() {
    let outcome = run(&confused_program());
    assert_eq!(
        outcome,
        Outcome::Ub {
            kind: ErrorKind::InvalidValue(Type::Bool),
            message: String::from(
                "Reference to invalid type: load at type Bool but the data in memory \
                 violates the validity invariant"
            ),
        }
    );
}

#[test]
fn type_confusion_message_names_the_validity_invariant() {
    assert_ub::<BasicMem>(confused_program(), "violates the validity invariant");
    assert_ub::<BasicMem>(confused_program(), "Bool");
}

#[test]
fn type_confusion_appears_only_at_the_load_of_the_pointee() {
    let program = confused_program();
    let mut machine = Machine::new(&program);
    // storage_live, assign, storage_live, and the store of the pointer all pass.
    for done in 1..=4 {
        machine.step(&program);
        assert_eq!(*machine.state(), State::Running { block: 0, stmt: done });
    }
    // The pointer itself loads at `&bool`: the check is shallow.
    let types = &program.functions()[0].as_ref().unwrap().locals;
    let x = miniutil::program::Local(0);
    let p = miniutil::program::Local(1);
    let x_at = match machine.eval_value(types, &addr_of(x, <&u8>::get_type())) {
        Ok(Value::Ptr(ptr)) => ptr,
        other => panic!("no pointer: {:?}", other),
    };
    assert_eq!(machine.eval_value(types, &load(p)), Ok(Value::Ptr(x_at)));
    assert_eq!(x_at, Pointer { alloc: 1, offset: 0 });
    // Only the load of the pointee as a boolean fails.
    machine.step(&program);
    match machine.state() {
        State::Halted(Err(diagnosis)) => {
            assert_eq!(diagnosis.kind, ErrorKind::InvalidValue(Type::Bool));
            assert!(diagnosis.through_reference);
        }
        other => panic!("not halted with a failure: {:?}", other),
    }
}
