use stack_vm::stackvm::{StackByteCode, StackInstr, StackVM, VmError};
use stack_vm::value::NAN_BITS;
use stack_vm::VM;

fn instr(op: StackByteCode, addr: usize) -> StackInstr {
    StackInstr::new(op, addr)
}

fn top_f64(vm: &mut StackVM) -> f64 {
    f64::from_bits(vm.pop().unwrap())
}

#[test]
fn stack_vm() -> Result<(), VmError> {
    let consts = vec![5f64.to_bits(), 2f64.to_bits()];
    let program = vec![
        instr(StackByteCode::Const, 0),
        instr(StackByteCode::Store, 0),
        instr(StackByteCode::Const, 1),
        instr(StackByteCode::Store, 1),
        instr(StackByteCode::Get, 0),
        instr(StackByteCode::Get, 1),
        instr(StackByteCode::Add, 0),
        instr(StackByteCode::Halt, 0),
    ];
    let mut vm = StackVM::new(program, consts, 2);
    vm.run()?;
    assert_eq!(top_f64(&mut vm), 7.);
    Ok(())
}

#[test]
fn run_halts_and_reports_halted() {
    let program = vec![instr(StackByteCode::Halt, 0)];
    let mut vm = StackVM::new(program, vec![], 0);
    assert!(!vm.halted());
    assert_eq!(vm.run(), Ok(()));
    assert!(vm.halted());
    assert_eq!(vm.ip, 1);
}

#[test]
fn sub_is_order_sensitive() {
    let consts = vec![5f64.to_bits(), 2f64.to_bits()];
    let program = vec![
        instr(StackByteCode::Const, 0),
        instr(StackByteCode::Const, 1),
        instr(StackByteCode::Sub, 0),
        instr(StackByteCode::Halt, 0),
    ];
    let mut vm = StackVM::new(program, consts, 0);
    assert_eq!(vm.run(), Ok(()));
    assert_eq!(top_f64(&mut vm), 3.);
}

#[test]
fn jump_if_not_takes_zero_branch() {
    let consts = vec![0f64.to_bits(), 10f64.to_bits(), 20f64.to_bits()];
    let program = vec![
        instr(StackByteCode::Const, 0),
        instr(StackByteCode::JumpIfNot, 4),
        instr(StackByteCode::Const, 1),
        instr(StackByteCode::Halt, 0),
        instr(StackByteCode::Const, 2),
        instr(StackByteCode::Halt, 0),
    ];
    let mut vm = StackVM::new(program, consts, 0);
    assert_eq!(vm.run(), Ok(()));
    assert_eq!(top_f64(&mut vm), 20.);
}

#[test]
fn jump_if_takes_nonzero_branch() {
    let consts = vec![1f64.to_bits(), 10f64.to_bits(), 20f64.to_bits()];
    let program = vec![
        instr(StackByteCode::Const, 0),
        instr(StackByteCode::JumpIf, 4),
        instr(StackByteCode::Const, 1),
        instr(StackByteCode::Halt, 0),
        instr(StackByteCode::Const, 2),
        instr(StackByteCode::Halt, 0),
    ];
    let mut vm = StackVM::new(program, consts, 0);
    assert_eq!(vm.run(), Ok(()));
    assert_eq!(top_f64(&mut vm), 20.);
}

#[test]
fn jump_skips_to_target() {
    let consts = vec![10f64.to_bits(), 20f64.to_bits()];
    let program = vec![
        instr(StackByteCode::Jump, 3),
        instr(StackByteCode::Const, 0),
        instr(StackByteCode::Halt, 0),
        instr(StackByteCode::Const, 1),
        instr(StackByteCode::Halt, 0),
    ];
    let mut vm = StackVM::new(program, consts, 0);
    assert_eq!(vm.run(), Ok(()));
    assert_eq!(top_f64(&mut vm), 20.);
}

#[test]
fn running_off_the_end_is_out_of_bounds_ip() {
    let consts = vec![1f64.to_bits()];
    let program = vec![instr(StackByteCode::Const, 0)];
    let mut vm = StackVM::new(program, consts, 0);
    assert_eq!(vm.run(), Err(VmError::OutOfBoundsIp));
    assert!(!vm.halted());
}

#[test]
fn div_on_empty_stack_is_underflow() {
    let program = vec![instr(StackByteCode::Div, 0), instr(StackByteCode::Halt, 0)];
    let mut vm = StackVM::new(program, vec![], 0);
    assert_eq!(vm.run(), Err(VmError::StackUnderflow));
}

#[test]
fn out_of_range_memory_read_is_out_of_bounds_access() {
    let program = vec![instr(StackByteCode::Get, 5), instr(StackByteCode::Halt, 0)];
    let mut vm = StackVM::new(program, vec![], 2);
    assert_eq!(vm.run(), Err(VmError::OutOfBoundsAccess));
}

#[test]
fn out_of_range_memory_write_is_out_of_bounds_access() {
    let consts = vec![1f64.to_bits()];
    let program = vec![
        instr(StackByteCode::Const, 0),
        instr(StackByteCode::Store, 2),
        instr(StackByteCode::Halt, 0),
    ];
    let mut vm = StackVM::new(program, consts, 2);
    assert_eq!(vm.run(), Err(VmError::OutOfBoundsAccess));
}

#[test]
fn out_of_range_constant_is_out_of_bounds_access() {
    let consts = vec![1f64.to_bits()];
    let program = vec![instr(StackByteCode::Const, 1), instr(StackByteCode::Halt, 0)];
    let mut vm = StackVM::new(program, consts, 0);
    assert_eq!(vm.run(), Err(VmError::OutOfBoundsAccess));
}

#[test]
fn failed_step_leaves_no_partial_effect() {
    let consts = vec![9f64.to_bits()];
    let program = vec![
        instr(StackByteCode::Const, 0),
        instr(StackByteCode::Store, 7),
        instr(StackByteCode::Halt, 0),
    ];
    let mut vm = StackVM::new(program, consts, 1);
    assert_eq!(vm.run(), Err(VmError::OutOfBoundsAccess));
    // The value the failing `Store` would have consumed is still on the stack.
    assert_eq!(top_f64(&mut vm), 9.);
    assert_eq!(f64::from_bits(vm.memory[0]), 0.);
}

#[test]
fn arithmetic_results() {
    let cases: Vec<(StackByteCode, f64, f64, f64)> = vec![
        (StackByteCode::Add, 5., 2., 7.),
        (StackByteCode::Sub, 5., 2., 3.),
        (StackByteCode::Mul, 5., 2., 10.),
        (StackByteCode::Div, 5., 2., 2.5),
        (StackByteCode::Mod, 5., 2., 1.),
        (StackByteCode::Pow, 5., 2., 25.),
    ];
    for (op, a, b, expected) in cases {
        let consts = vec![a.to_bits(), b.to_bits()];
        let program = vec![
            instr(StackByteCode::Const, 0),
            instr(StackByteCode::Const, 1),
            instr(op, 0),
            instr(StackByteCode::Halt, 0),
        ];
        let mut vm = StackVM::new(program, consts, 0);
        assert_eq!(vm.run(), Ok(()));
        assert_eq!(top_f64(&mut vm), expected);
        assert!(vm.stack.is_empty());
    }
}

#[test]
fn nan_results_are_stored_canonically() {
    // 0/0 and inf - inf both produce a NaN; whatever payload the platform
    // chose, the machine stores the one canonical quiet-NaN pattern.
    for (op, a, b) in [
        (StackByteCode::Div, 0., 0.),
        (StackByteCode::Sub, f64::INFINITY, f64::INFINITY),
        (StackByteCode::Mul, 0., f64::INFINITY),
        (StackByteCode::Mod, 1., 0.),
    ] {
        let mut vm = StackVM::new(vec![], vec![], 0);
        vm.push(f64::to_bits(a));
        vm.push(f64::to_bits(b));
        vm.handle_instr(StackInstr::new(op, 0)).unwrap();
        let bits = vm.pop().unwrap();
        assert!(f64::from_bits(bits).is_nan());
        assert_eq!(bits, NAN_BITS);
    }
}

#[test]
fn non_nan_arithmetic_is_not_canonicalized() {
    // A result that is not NaN is stored exactly as computed.
    let mut vm = StackVM::new(vec![], vec![], 0);
    vm.push(f64::to_bits(1.));
    vm.push(f64::to_bits(0.));
    vm.handle_instr(StackInstr::new(StackByteCode::Div, 0)).unwrap();
    assert_eq!(vm.pop().unwrap(), f64::to_bits(f64::INFINITY));
}

#[test]
fn neg_negates_the_top() {
    let consts = vec![5f64.to_bits()];
    let program = vec![
        instr(StackByteCode::Const, 0),
        instr(StackByteCode::Neg, 0),
        instr(StackByteCode::Halt, 0),
    ];
    let mut vm = StackVM::new(program, consts, 0);
    assert_eq!(vm.run(), Ok(()));
    assert_eq!(top_f64(&mut vm), -5.);
}

#[test]
fn eq_follows_ieee_equality() {
    // NaN compares equal to nothing, not even itself; the two zeroes
    // compare equal to each other.
    for (a, b, expected) in [
        (f64::NAN, f64::NAN, 0.),
        (f64::NAN, 5., 0.),
        (0., -0., 1.),
        (-0., -0., 1.),
    ] {
        let mut vm = StackVM::new(vec![], vec![], 0);
        vm.push(f64::to_bits(a));
        vm.push(f64::to_bits(b));
        vm.handle_instr(StackInstr::new(StackByteCode::EQ, 0)).unwrap();
        assert_eq!(top_f64(&mut vm), expected);
    }
}

#[test]
fn jump_if_not_fires_on_negative_zero() {
    // The zero test behind the conditional jumps is float equality with
    // zero, so -0.0 counts as zero.
    let consts = vec![(-0f64).to_bits(), 10f64.to_bits(), 20f64.to_bits()];
    let program = vec![
        instr(StackByteCode::Const, 0),
        instr(StackByteCode::JumpIfNot, 4),
        instr(StackByteCode::Const, 1),
        instr(StackByteCode::Halt, 0),
        instr(StackByteCode::Const, 2),
        instr(StackByteCode::Halt, 0),
    ];
    let mut vm = StackVM::new(program, consts, 0);
    assert_eq!(vm.run(), Ok(()));
    assert_eq!(top_f64(&mut vm), 20.);
}

#[test]
fn eq_pushes_only_one_or_zero() {
    for (a, b, expected) in [(5., 5., 1.), (5., 2., 0.)] {
        let mut vm = StackVM::new(vec![], vec![], 0);
        vm.push(f64::to_bits(a));
        vm.push(f64::to_bits(b));
        vm.handle_instr(instr(StackByteCode::EQ, 0)).unwrap();
        assert_eq!(top_f64(&mut vm), expected);
    }
}

#[test]
fn lt_is_order_sensitive() {
    for (a, b, expected) in [(2., 5., 1.), (5., 2., 0.), (5., 5., 0.)] {
        let mut vm = StackVM::new(vec![], vec![], 0);
        vm.push(f64::to_bits(a));
        vm.push(f64::to_bits(b));
        vm.handle_instr(instr(StackByteCode::LT, 0)).unwrap();
        assert_eq!(top_f64(&mut vm), expected);
    }
}

#[test]
fn not_pushes_only_one_or_zero() {
    for (v, expected) in [(0., 1.), (3., 0.), (-0., 1.)] {
        let mut vm = StackVM::new(vec![], vec![], 0);
        vm.push(f64::to_bits(v));
        vm.handle_instr(instr(StackByteCode::Not, 0)).unwrap();
        assert_eq!(top_f64(&mut vm), expected);
    }
}

#[test]
fn copy_then_drop_restores_the_stack() {
    let mut vm = StackVM::new(vec![], vec![], 0);
    vm.push(4f64.to_bits());
    vm.push(9f64.to_bits());
    vm.handle_instr(instr(StackByteCode::Copy, 0)).unwrap();
    assert_eq!(vm.stack.len(), 3);
    vm.handle_instr(instr(StackByteCode::Drop, 0)).unwrap();
    assert_eq!(vm.stack.len(), 2);
    assert_eq!(top_f64(&mut vm), 9.);
    assert_eq!(top_f64(&mut vm), 4.);
}

#[test]
fn swap_twice_restores_the_order() {
    let mut vm = StackVM::new(vec![], vec![], 0);
    vm.push(4f64.to_bits());
    vm.push(9f64.to_bits());
    vm.handle_instr(instr(StackByteCode::Swap, 0)).unwrap();
    assert_eq!(f64::from_bits(vm.stack[1]), 4.);
    assert_eq!(f64::from_bits(vm.stack[0]), 9.);
    vm.handle_instr(instr(StackByteCode::Swap, 0)).unwrap();
    assert_eq!(top_f64(&mut vm), 9.);
    assert_eq!(top_f64(&mut vm), 4.);
}

#[test]
fn store_then_get_yields_the_stored_value() {
    let mut vm = StackVM::new(vec![], vec![], 3);
    vm.push(8f64.to_bits());
    vm.handle_instr(instr(StackByteCode::Store, 2)).unwrap();
    assert!(vm.stack.is_empty());
    vm.handle_instr(instr(StackByteCode::Get, 2)).unwrap();
    assert_eq!(top_f64(&mut vm), 8.);
    assert_eq!(f64::from_bits(vm.memory[2]), 8.);
}

#[test]
fn nop_changes_nothing() {
    let mut vm = StackVM::new(vec![instr(StackByteCode::Nop, 0)], vec![], 1);
    vm.push(6f64.to_bits());
    vm.handle_instr(instr(StackByteCode::Nop, 3)).unwrap();
    assert_eq!(vm.stack.len(), 1);
    assert_eq!(vm.ip, 0);
    assert!(!vm.halted());
    assert_eq!(top_f64(&mut vm), 6.);
}

#[test]
fn fetch_advances_the_pointer_by_one() {
    let program = vec![instr(StackByteCode::Jump, 9), instr(StackByteCode::Halt, 0)];
    let mut vm = StackVM::new(program, vec![], 0);
    let fetched = vm.fetch_instr().unwrap();
    assert_eq!(vm.ip, 1);
    assert_eq!(fetched, instr(StackByteCode::Jump, 9));
    let fetched = vm.fetch_instr().unwrap();
    assert_eq!(vm.ip, 2);
    assert_eq!(fetched, instr(StackByteCode::Halt, 0));
    assert_eq!(vm.fetch_instr(), Err(VmError::OutOfBoundsIp));
    assert_eq!(vm.ip, 2);
}

#[test]
fn step_executes_exactly_one_instruction() {
    let consts = vec![5f64.to_bits()];
    let program = vec![instr(StackByteCode::Const, 0), instr(StackByteCode::Halt, 0)];
    let mut vm = StackVM::new(program, consts, 0);
    assert_eq!(vm.step(), Ok(()));
    assert_eq!(vm.ip, 1);
    assert_eq!(vm.stack.len(), 1);
    assert!(!vm.halted());
    assert_eq!(vm.step(), Ok(()));
    assert!(vm.halted());
    assert_eq!(vm.stack.len(), 1);
}

#[test]
fn pop_on_empty_stack_is_underflow() {
    let mut vm = StackVM::new(vec![], vec![], 0);
    assert_eq!(vm.pop(), Err(VmError::StackUnderflow));
    vm.push(3f64.to_bits());
    assert_eq!(vm.pop(), Ok(3f64.to_bits()));
    assert_eq!(vm.pop(), Err(VmError::StackUnderflow));
}

#[test]
fn memory_starts_zeroed() {
    let vm = StackVM::new(vec![], vec![], 4);
    assert_eq!(vm.memory.len(), 4);
    for slot in &vm.memory {
        assert_eq!(f64::from_bits(*slot), 0.);
    }
    assert_eq!(vm.ip, 0);
    assert!(vm.stack.is_empty());
    assert!(!vm.halted);
}
