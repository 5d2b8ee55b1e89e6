use chip8_cpu::cpu::CPU;
use chip8_cpu::machine::Fault;
use chip8_cpu::opcode::{
    decode, dispatch, rule_table, select, word, Fields, Handler, Operation, Pattern, Rule,
};

#[test]
fn word_is_big_endian() {
    assert_eq!(word(0x80, 0x14), 0x8014);
    assert_eq!(word(0x00, 0xEE), 0x00EE);
    assert_eq!(word(0xFF, 0xFF), 0xFFFF);
    assert_eq!(word(0x01, 0x00), 256);
}

#[test]
fn decode_splits_the_nibbles() {
    assert_eq!(decode(0x8014), Fields { major: 8, x: 0, y: 1, minor: 4, addr: 0x014 });
    assert_eq!(decode(0x2100), Fields { major: 2, x: 1, y: 0, minor: 0, addr: 0x100 });
    assert_eq!(decode(0xABCD), Fields { major: 0xA, x: 0xB, y: 0xC, minor: 0xD, addr: 0xBCD });
    assert_eq!(decode(0x0000), Fields { major: 0, x: 0, y: 0, minor: 0, addr: 0 });
    assert_eq!(decode(0xFFFF), Fields { major: 15, x: 15, y: 15, minor: 15, addr: 0xFFF });
}

#[test]
fn decode_recomposes_for_every_opcode() {
    for opcode in 0..=u16::MAX {
        let fields = decode(opcode);
        assert_eq!(fields.major as u16 * 4096 + fields.addr, opcode);
        assert_eq!(fields.x as u16 * 256 + fields.y as u16 * 16 + fields.minor as u16, fields.addr);
    }
}

#[test]
fn dispatch_selects_each_operation() {
    assert_eq!(dispatch(decode(0x0000)), Some(Operation::Halt));
    assert_eq!(dispatch(decode(0x00EE)), Some(Operation::Return));
    assert_eq!(dispatch(decode(0x8014)), Some(Operation::AddXY { x: 0, y: 1 }));
    assert_eq!(dispatch(decode(0x8FE4)), Some(Operation::AddXY { x: 15, y: 14 }));
    assert_eq!(dispatch(decode(0x2100)), Some(Operation::Call { addr: 0x100 }));
    assert_eq!(dispatch(decode(0x2000)), Some(Operation::Call { addr: 0 }));
    assert_eq!(dispatch(decode(0x2FFF)), Some(Operation::Call { addr: 0xFFF }));
    assert_eq!(dispatch(decode(0x2004)), Some(Operation::Call { addr: 4 }));
}

#[test]
fn dispatch_rejects_what_no_rule_matches() {
    assert_eq!(dispatch(decode(0x1234)), None);
    assert_eq!(dispatch(decode(0x00E0)), None);
    assert_eq!(dispatch(decode(0x0001)), None);
    assert_eq!(dispatch(decode(0x8010)), None);
    assert_eq!(dispatch(decode(0x8015)), None);
    assert_eq!(dispatch(decode(0x3000)), None);
    assert_eq!(dispatch(decode(0x9004)), None);
    assert_eq!(dispatch(decode(0xFFFF)), None);
}

#[test]
fn dispatch_counts_the_operations_over_all_opcodes() {
    let mut halts = 0;
    let mut returns = 0;
    let mut adds = 0;
    let mut calls = 0;
    let mut unimplemented = 0;
    for opcode in 0..=u16::MAX {
        match dispatch(decode(opcode)) {
            Some(Operation::Halt) => halts += 1,
            Some(Operation::Return) => returns += 1,
            Some(Operation::AddXY { .. }) => adds += 1,
            Some(Operation::Call { .. }) => calls += 1,
            None => unimplemented += 1,
        }
    }
    assert_eq!((halts, returns, adds, calls), (1, 1, 256, 4096));
    assert_eq!(unimplemented, 65536 - 1 - 1 - 256 - 4096);
}

#[test]
fn new_fills_the_rest_with_zeros() {
    let cpu = CPU::new(&[1, 2, 3], &[9, 8], 6).unwrap();
    assert_eq!(cpu.register(0), Some(1));
    assert_eq!(cpu.register(2), Some(3));
    assert_eq!(cpu.register(3), Some(0));
    assert_eq!(cpu.register(15), Some(0));
    assert_eq!(cpu.memory_at(0), Some(9));
    assert_eq!(cpu.memory_at(1), Some(8));
    assert_eq!(cpu.memory_at(2), Some(0));
    assert_eq!(cpu.memory_at(4095), Some(0));
    assert_eq!(cpu.program_counter(), 6);
    assert_eq!(cpu.stack_pointer(), 0);
}

#[test]
fn new_refuses_what_does_not_fit() {
    assert!(CPU::new(&[0; 17], &[], 0).is_none());
    assert!(CPU::new(&[], &[0; 4097], 0).is_none());
    assert!(CPU::new(&[0; 16], &[0; 4096], 0).is_some());
}

#[test]
fn reads_outside_the_machine_give_nothing() {
    let cpu = CPU::new(&[], &[], 0).unwrap();
    assert_eq!(cpu.register(16), None);
    assert_eq!(cpu.memory_at(4096), None);
}

#[test]
fn add_xy_adds_and_keeps_the_right_operand() {
    let mut cpu = CPU::new(&[5, 10], &[], 0).unwrap();
    cpu.add_xy(0, 1);
    assert_eq!(cpu.register(0), Some(15));
    assert_eq!(cpu.register(1), Some(10));
    assert_eq!(cpu.program_counter(), 0);
}

#[test]
fn add_xy_wraps_at_256() {
    let mut cpu = CPU::new(&[200, 100], &[], 0).unwrap();
    cpu.add_xy(0, 1);
    assert_eq!(cpu.register(0), Some(44));
    assert_eq!(cpu.register(1), Some(100));
    let mut cpu = CPU::new(&[255, 1], &[], 0).unwrap();
    cpu.add_xy(0, 1);
    assert_eq!(cpu.register(0), Some(0));
}

#[test]
fn add_xy_for_every_pair_of_values() {
    for a in 0..=255u8 {
        for b in 0..=255u8 {
            let mut cpu = CPU::new(&[0, 0, a, 0, 0, 0, 0, b], &[], 0).unwrap();
            cpu.add_xy(2, 7);
            assert_eq!(cpu.register(2), Some(((a as u16 + b as u16) % 256) as u8));
            assert_eq!(cpu.register(7), Some(b));
        }
    }
}

#[test]
fn add_xy_of_a_register_to_itself_doubles_it() {
    let mut cpu = CPU::new(&[0, 0, 0, 130], &[], 0).unwrap();
    cpu.add_xy(3, 3);
    assert_eq!(cpu.register(3), Some(4));
}

#[test]
fn call_then_ret_restores_counter_and_stack() {
    let mut cpu = CPU::new(&[], &[], 0x042).unwrap();
    assert_eq!(cpu.call(0x300), Ok(()));
    assert_eq!(cpu.program_counter(), 0x300);
    assert_eq!(cpu.stack_pointer(), 1);
    assert_eq!(cpu.ret(), Ok(()));
    assert_eq!(cpu.program_counter(), 0x042);
    assert_eq!(cpu.stack_pointer(), 0);
}

#[test]
fn nested_calls_return_in_reverse_order() {
    let mut cpu = CPU::new(&[], &[], 2).unwrap();
    assert_eq!(cpu.call(0x100), Ok(()));
    assert_eq!(cpu.call(0x200), Ok(()));
    assert_eq!(cpu.call(0x300), Ok(()));
    assert_eq!(cpu.stack_pointer(), 3);
    assert_eq!(cpu.ret(), Ok(()));
    assert_eq!(cpu.program_counter(), 0x200);
    assert_eq!(cpu.ret(), Ok(()));
    assert_eq!(cpu.program_counter(), 0x100);
    assert_eq!(cpu.ret(), Ok(()));
    assert_eq!(cpu.program_counter(), 2);
    assert_eq!(cpu.stack_pointer(), 0);
}

#[test]
fn call_on_a_full_stack_overflows_and_changes_nothing() {
    let mut cpu = CPU::new(&[], &[], 0).unwrap();
    for depth in 0..16u16 {
        assert_eq!(cpu.call(0x100 + depth), Ok(()));
    }
    assert_eq!(cpu.stack_pointer(), 16);
    assert_eq!(cpu.call(0x400), Err(Fault::StackOverflow));
    assert_eq!(cpu.stack_pointer(), 16);
    assert_eq!(cpu.program_counter(), 0x10F);
    assert_eq!(cpu.ret(), Ok(()));
    assert_eq!(cpu.program_counter(), 0x10E);
    assert_eq!(cpu.call(0x400), Ok(()));
}

#[test]
fn ret_on_an_empty_stack_underflows_and_changes_nothing() {
    let mut cpu = CPU::new(&[], &[], 0x123).unwrap();
    assert_eq!(cpu.ret(), Err(Fault::StackUnderflow));
    assert_eq!(cpu.program_counter(), 0x123);
    assert_eq!(cpu.stack_pointer(), 0);
}

#[test]
fn rule_table_lists_the_rules_by_priority() {
    let rules = rule_table();
    assert_eq!(rules[0], Rule { pattern: Pattern::Exact { opcode: 0x0000 }, handler: Handler::Halt });
    assert_eq!(
        rules[1],
        Rule { pattern: Pattern::Exact { opcode: 0x00EE }, handler: Handler::Return }
    );
    assert_eq!(
        rules[2],
        Rule { pattern: Pattern::FamilyMinor { major: 8, minor: 4 }, handler: Handler::AddXY }
    );
    assert_eq!(rules[3], Rule { pattern: Pattern::Family { major: 2 }, handler: Handler::Call });
}

#[test]
fn select_agrees_with_dispatch_on_every_opcode() {
    let rules = rule_table();
    for opcode in 0..=u16::MAX {
        assert_eq!(select(&rules, decode(opcode)), dispatch(decode(opcode)));
    }
}

#[test]
fn select_takes_the_first_rule_that_fits() {
    let exact = Rule { pattern: Pattern::Exact { opcode: 0x0000 }, handler: Handler::Halt };
    let family = Rule { pattern: Pattern::Family { major: 0 }, handler: Handler::Call };
    assert_eq!(select(&[exact, family], decode(0x0000)), Some(Operation::Halt));
    assert_eq!(select(&[family, exact], decode(0x0000)), Some(Operation::Call { addr: 0 }));
    assert_eq!(select(&[exact, family], decode(0x0123)), Some(Operation::Call { addr: 0x123 }));
    assert_eq!(select(&[exact, family], decode(0x1123)), None);
    assert_eq!(select(&[], decode(0x0000)), None);
}

#[test]
fn patterns_fit_what_they_describe() {
    assert!(Pattern::Exact { opcode: 0x00EE }.is_match(decode(0x00EE)));
    assert!(!Pattern::Exact { opcode: 0x00EE }.is_match(decode(0x00EF)));
    assert!(!Pattern::Exact { opcode: 0x00EE }.is_match(decode(0x10EE)));
    assert!(Pattern::Exact { opcode: 0xFFFF }.is_match(decode(0xFFFF)));
    assert!(Pattern::FamilyMinor { major: 8, minor: 4 }.is_match(decode(0x8AB4)));
    assert!(!Pattern::FamilyMinor { major: 8, minor: 4 }.is_match(decode(0x8AB5)));
    assert!(!Pattern::FamilyMinor { major: 8, minor: 4 }.is_match(decode(0x7AB4)));
    assert!(Pattern::Family { major: 2 }.is_match(decode(0x2ABC)));
    assert!(!Pattern::Family { major: 2 }.is_match(decode(0x3ABC)));
}

#[test]
fn exact_pattern_rejects_fields_of_no_opcode() {
    let fields = Fields { major: 16, x: 0, y: 0, minor: 0, addr: 0 };
    assert!(!Pattern::Exact { opcode: 0x0000 }.is_match(fields));
    let fields = Fields { major: 255, x: 0, y: 0, minor: 0, addr: 0xFFFF };
    assert!(!Pattern::Exact { opcode: 0xFFFF }.is_match(fields));
}

#[test]
fn handlers_take_their_operands_from_the_fields() {
    let fields = decode(0x8AB4);
    assert_eq!(Handler::Halt.bind(fields), Operation::Halt);
    assert_eq!(Handler::Return.bind(fields), Operation::Return);
    assert_eq!(Handler::Call.bind(fields), Operation::Call { addr: 0xAB4 });
    assert_eq!(Handler::AddXY.bind(fields), Operation::AddXY { x: 0xA, y: 0xB });
}

#[test]
fn default_machine_is_all_zero() {
    let cpu = CPU::default();
    for index in 0..16 {
        assert_eq!(cpu.register(index), Some(0));
    }
    for address in 0..4096 {
        assert_eq!(cpu.memory_at(address), Some(0));
    }
    assert_eq!(cpu.program_counter(), 0);
    assert_eq!(cpu.stack_pointer(), 0);
}

#[test]
fn setters_store_inside_the_machine_only() {
    let mut cpu = CPU::default();
    assert!(cpu.set_register(15, 7));
    assert!(!cpu.set_register(16, 7));
    assert!(cpu.set_memory(4095, 9));
    assert!(!cpu.set_memory(4096, 9));
    cpu.set_program_counter(0x200);
    assert_eq!(cpu.register(15), Some(7));
    assert_eq!(cpu.register(14), Some(0));
    assert_eq!(cpu.memory_at(4095), Some(9));
    assert_eq!(cpu.memory_at(4094), Some(0));
    assert_eq!(cpu.program_counter(), 0x200);
}
