use abi_interp::interp::value::{FRegVal, VRegVal, Val, XRegVal};
use abi_interp::interp::vm::Vm;
use abi_interp::module::{
    EngineOrModuleTypeIndex, FuncRefIndex, FunctionType, Global, MemoryInitialization, Module,
    Table, Tag,
};
use std::cell::RefCell;

fn sample() -> Module {
    let mut m = Module::new();
    m.types.push(EngineOrModuleTypeIndex::Module(0));
    m.types.push(EngineOrModuleTypeIndex::Module(1));
    m.push_function(EngineOrModuleTypeIndex::Module(2));
    m.push_function(EngineOrModuleTypeIndex::Engine(3));
    m.functions[1].func_ref = FuncRefIndex(7);
    m.tables.push(Table {
        ref_type: EngineOrModuleTypeIndex::Module(4),
        minimum: 1,
        maximum: Some(9),
    });
    m.globals.push(Global { value_type: EngineOrModuleTypeIndex::RecGroup(5), mutability: true });
    m.push_tag(EngineOrModuleTypeIndex::Module(6));
    m
}

fn walk_of(m: &Module) -> Vec<EngineOrModuleTypeIndex> {
    let seen = RefCell::new(Vec::new());
    let r: Result<(), ()> = m.trace(&|t| {
        seen.borrow_mut().push(t);
        Ok(())
    });
    assert_eq!(r, Ok(()));
    seen.into_inner()
}

fn number(t: EngineOrModuleTypeIndex) -> u32 {
    match t {
        EngineOrModuleTypeIndex::Engine(n) => n,
        EngineOrModuleTypeIndex::Module(n) => n,
        EngineOrModuleTypeIndex::RecGroup(n) => n,
    }
}

#[test]
fn walk_visits_the_five_lists_in_order() {
    let m = sample();
    assert_eq!(
        walk_of(&m),
        vec![
            EngineOrModuleTypeIndex::Module(0),
            EngineOrModuleTypeIndex::Module(1),
            EngineOrModuleTypeIndex::Module(2),
            EngineOrModuleTypeIndex::Engine(3),
            EngineOrModuleTypeIndex::Module(4),
            EngineOrModuleTypeIndex::RecGroup(5),
            EngineOrModuleTypeIndex::Module(6),
        ]
    );
    assert_eq!(walk_of(&Module::new()), vec![]);
}

#[test]
fn walk_stops_at_the_first_failure() {
    let m = sample();
    for stop in 0..7u32 {
        let seen = RefCell::new(Vec::new());
        let r = m.trace(&|t| {
            seen.borrow_mut().push(number(t));
            if number(t) == stop {
                Err(stop + 100)
            } else {
                Ok(())
            }
        });
        assert_eq!(r, Err(stop + 100));
        assert_eq!(seen.into_inner(), (0..=stop).collect::<Vec<u32>>());
    }
}

#[test]
fn replacing_walk_changes_the_types_alone() {
    let mut m = sample();
    let r: Result<(), ()> = m.trace_mut(&|t| Ok(EngineOrModuleTypeIndex::Engine(number(t) + 10)));
    assert_eq!(r, Ok(()));
    assert_eq!(
        walk_of(&m),
        (10..17).map(EngineOrModuleTypeIndex::Engine).collect::<Vec<EngineOrModuleTypeIndex>>()
    );
    assert_eq!(m.functions[1].func_ref, FuncRefIndex(7));
    assert_eq!(
        m.tables[0],
        Table { ref_type: EngineOrModuleTypeIndex::Engine(14), minimum: 1, maximum: Some(9) }
    );
    assert_eq!(
        m.globals[0],
        Global { value_type: EngineOrModuleTypeIndex::Engine(15), mutability: true }
    );
    assert_eq!(m.tags[0], Tag { signature: EngineOrModuleTypeIndex::Engine(16) });
    assert_eq!(m.memories.len(), 0);
}

#[test]
fn replacing_walk_keeps_what_follows_a_failure() {
    for stop in 0..7u32 {
        let mut m = sample();
        let before = walk_of(&m);
        let r = m.trace_mut(&|t| {
            if number(t) == stop {
                Err(stop)
            } else {
                Ok(EngineOrModuleTypeIndex::Engine(number(t) + 10))
            }
        });
        assert_eq!(r, Err(stop));
        let after = walk_of(&m);
        for (at, t) in after.iter().enumerate() {
            if (at as u32) < stop {
                assert_eq!(*t, EngineOrModuleTypeIndex::Engine(at as u32 + 10));
            } else {
                assert_eq!(*t, before[at]);
            }
        }
    }
}

#[test]
fn walk_over_one_function() {
    let mut f = FunctionType {
        signature: EngineOrModuleTypeIndex::Module(3),
        func_ref: FuncRefIndex(1),
    };
    let seen = RefCell::new(Vec::new());
    let r: Result<(), u8> = f.trace(&|t| {
        seen.borrow_mut().push(t);
        Ok(())
    });
    assert_eq!(r, Ok(()));
    assert_eq!(seen.into_inner(), vec![EngineOrModuleTypeIndex::Module(3)]);
    assert_eq!(f.trace(&|_| Err(4u8)), Err(4));
    let r: Result<(), u8> = f.trace_mut(&|_| Ok(EngineOrModuleTypeIndex::Engine(8)));
    assert_eq!(r, Ok(()));
    assert_eq!(f.signature, EngineOrModuleTypeIndex::Engine(8));
    assert_eq!(f.func_ref, FuncRefIndex(1));
    assert_eq!(f.trace_mut(&|_| Err(5u8)), Err(5));
    assert_eq!(f.signature, EngineOrModuleTypeIndex::Engine(8));
}

#[test]
fn default_values() {
    assert_eq!(XRegVal::default().get_u64(), 0);
    assert_eq!(FRegVal::default().get_f64_bits(), 0);
    assert_eq!(VRegVal::default().get_u128(), 0);
    assert!(MemoryInitialization::default().is_segmented());
    match MemoryInitialization::default() {
        MemoryInitialization::Segmented(pieces) => assert!(pieces.is_empty()),
        MemoryInitialization::Static { .. } => panic!("not piece by piece"),
    }
    let vm = Vm::default();
    assert_eq!(vm.state().sp(), Vm::new().state().sp());
    assert_eq!(vm.state().stack_end() - vm.state().stack_base(), 1 << 20);
}

#[test]
fn values_from_numbers() {
    assert_eq!(Val::from(7u64), Val::XReg(XRegVal::new_u64(7)));
    assert_eq!(Val::from(7u32), Val::XReg(XRegVal::new_u64(7)));
    assert_eq!(Val::from(-1i64), Val::XReg(XRegVal::new_u64(u64::MAX)));
    assert_eq!(Val::from(-1i32), Val::XReg(XRegVal::new_u64(0xffff_ffff)));
    assert_eq!(Val::from(XRegVal::new_i32(-2)), Val::XReg(XRegVal::new_u64(0xffff_fffe)));
    assert_eq!(Val::from(FRegVal::new_f64_bits(3)), Val::FReg(FRegVal::new_f64_bits(3)));
    assert_eq!(Val::from(VRegVal::new_u128(1 << 100)), Val::VReg(VRegVal::new_u128(1 << 100)));
    let v: Val = 5u32.into();
    assert_eq!(v, Val::XReg(XRegVal::new_u32(5)));
}
