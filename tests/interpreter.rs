use learn_jvm::attribute::AttributeInfo;
use learn_jvm::classfile::MethodInfo;
use learn_jvm::error::ExecError;
use learn_jvm::execute::{compare_doubles, compare_floats, compute_int, compute_int_shift, compute_long_shift};
use learn_jvm::instructions::new_instruction;
use learn_jvm::interpreter::{interpret, Interpreter, Step, Stop};
use learn_jvm::runtime::{Frame, OperandStack};
use learn_jvm::semantics::{BinOp, FloatOp, Outcome, ReturnValue, ShiftOp};

fn method(max_stack: u16, max_locals: u16, code: Vec<u8>) -> MethodInfo {
    MethodInfo {
        name: b"main".to_vec(),
        access_flag: 0x9,
        descriptor_index: 0,
        attribute_info: vec![AttributeInfo::CodeAttribute {
            max_stacks: max_stack,
            max_locals,
            code_length: code.len() as u32,
            code,
            exception_table: Vec::new(),
            attributes: Vec::new(),
        }],
    }
}

fn run(max_stack: u16, max_locals: u16, code: Vec<u8>) -> (Interpreter, Result<Stop, ExecError>) {
    let m = method(max_stack, max_locals, code);
    let mut it = Interpreter::new(&m).unwrap();
    let r = it.run(1000);
    (it, r)
}

fn top(it: &Interpreter) -> &Frame {
    it.thread.current_frame().unwrap()
}

#[test]
fn bipush_add_store_gives_150() {
    // bipush 100; bipush 50; iadd; istore_0
    let (it, r) = run(2, 1, vec![0x10, 100, 0x10, 50, 0x60, 0x3b]);
    assert_eq!(r, Ok(Stop::EndOfCode));
    assert_eq!(top(&it).local_vars.get_int(0), 150);
}

#[test]
fn tableswitch_out_of_range_takes_default() {
    // 0: iconst_5; 1: tableswitch, padded to 4; default 100, low 0, high 2, offsets 10, 20, 30
    let mut code = vec![0x08, 0xaa, 0, 0];
    for v in [100i32, 0, 2, 10, 20, 30] {
        code.extend_from_slice(&v.to_be_bytes());
    }
    let m = method(1, 0, code);
    let mut it = Interpreter::new(&m).unwrap();
    assert_eq!(it.step(), Ok(Step::Executed(Outcome::Next)));
    assert_eq!(it.step(), Ok(Step::Executed(Outcome::Next)));
    assert_eq!(it.thread.pc(), 1);
    assert_eq!(top(&it).next_pc, 1 + 100);
}

#[test]
fn tableswitch_in_range_takes_its_offset() {
    // 0: iconst_1; 1: tableswitch with low 0, high 2, offsets 10, 20, 30
    let mut code = vec![0x04, 0xaa, 0, 0];
    for v in [100i32, 0, 2, 10, 20, 30] {
        code.extend_from_slice(&v.to_be_bytes());
    }
    let m = method(1, 0, code);
    let mut it = Interpreter::new(&m).unwrap();
    it.step().unwrap();
    it.step().unwrap();
    assert_eq!(top(&it).next_pc, 1 + 20);
}

#[test]
fn lookupswitch_without_match_takes_default() {
    // 0: bipush 15; 2: lookupswitch, padded to 4; default 50, 2 pairs (10, 7), (20, 9)
    let mut code = vec![0x10, 15, 0xab, 0];
    for v in [50i32, 2, 10, 7, 20, 9] {
        code.extend_from_slice(&v.to_be_bytes());
    }
    let m = method(1, 0, code);
    let mut it = Interpreter::new(&m).unwrap();
    it.step().unwrap();
    it.step().unwrap();
    assert_eq!(it.thread.pc(), 2);
    assert_eq!(top(&it).next_pc, 2 + 50);
}

#[test]
fn lookupswitch_with_match_takes_its_offset() {
    let mut code = vec![0x10, 20, 0xab, 0];
    for v in [50i32, 2, 10, 7, 20, 9] {
        code.extend_from_slice(&v.to_be_bytes());
    }
    let m = method(1, 0, code);
    let mut it = Interpreter::new(&m).unwrap();
    it.step().unwrap();
    it.step().unwrap();
    assert_eq!(top(&it).next_pc, 2 + 9);
}

#[test]
fn ishl_masks_shift_amount() {
    assert_eq!(compute_int_shift(ShiftOp::Shl, 1, 33), 2);
    for (v, s) in [(1i32, 33i32), (-7, 65), (12345, -1), (i32::MIN, 31), (3, 32)] {
        for op in [ShiftOp::Shl, ShiftOp::Shr, ShiftOp::Ushr] {
            assert_eq!(compute_int_shift(op, v, s), compute_int_shift(op, v, s & 0x1f));
            assert_eq!(compute_long_shift(op, v as i64, s), compute_long_shift(op, v as i64, s & 0x3f));
        }
    }
    assert_eq!(compute_long_shift(ShiftOp::Shl, 1, 65), 2);
    assert_eq!(compute_int_shift(ShiftOp::Shr, -8, 1), -4);
    assert_eq!(compute_int_shift(ShiftOp::Ushr, -8, 28), 15);
}

#[test]
fn ishl_by_33_through_the_interpreter() {
    // iconst_1; bipush 33; ishl; istore_0
    let (it, r) = run(2, 1, vec![0x04, 0x10, 33, 0x78, 0x3b]);
    assert_eq!(r, Ok(Stop::EndOfCode));
    assert_eq!(top(&it).local_vars.get_int(0), 2);
}

#[test]
fn nan_comparisons() {
    let nan = f32::NAN.to_bits();
    let one = 1.0f32.to_bits();
    assert_eq!(compare_floats(1, nan, one), 1);
    assert_eq!(compare_floats(-1, nan, one), -1);
    assert_eq!(compare_floats(1, one, nan), 1);
    assert_eq!(compare_floats(-1, one, nan), -1);
    let dnan = f64::NAN.to_bits();
    let two = 2.0f64.to_bits();
    assert_eq!(compare_doubles(1, two, dnan), 1);
    assert_eq!(compare_doubles(-1, dnan, two), -1);
}

#[test]
fn ordinary_float_comparisons() {
    let f = |x: f32| x.to_bits();
    assert_eq!(compare_floats(1, f(1.0), f(2.0)), -1);
    assert_eq!(compare_floats(1, f(2.0), f(1.0)), 1);
    assert_eq!(compare_floats(1, f(0.0), f(-0.0)), 0);
    assert_eq!(compare_floats(1, f(-3.0), f(-2.0)), -1);
    assert_eq!(compare_floats(1, f(f32::NEG_INFINITY), f(-1e30)), -1);
    let d = |x: f64| x.to_bits();
    assert_eq!(compare_doubles(-1, d(-1.5), d(1.5)), -1);
    assert_eq!(compare_doubles(-1, d(2.5), d(2.5)), 0);
}

#[test]
fn fcmpg_on_nan_through_the_interpreter() {
    // two floats are loaded from locals 0 and 1: fload_0; fload_1; fcmpg; istore_2; fload_0; fload_1; fcmpl; istore_3
    let m = method(2, 4, vec![0x22, 0x23, 0x96, 0x3d, 0x22, 0x23, 0x95, 0x3e]);
    let mut it = Interpreter::new(&m).unwrap();
    let mut f = it.thread.pop_frame().unwrap();
    f.local_vars.set_int(0, f32::NAN.to_bits() as i32);
    f.local_vars.set_int(1, 1.0f32.to_bits() as i32);
    it.thread.push_frame(f).unwrap();
    assert_eq!(it.run(100), Ok(Stop::EndOfCode));
    assert_eq!(top(&it).local_vars.get_int(2), 1);
    assert_eq!(top(&it).local_vars.get_int(3), -1);
}

#[test]
fn push_pop_round_trip() {
    let mut ops = OperandStack::new_operand_stack(16);
    ops.push_int(100).unwrap();
    ops.push_float(3.1415926f32.to_bits()).unwrap();
    ops.push_long(2997924580).unwrap();
    ops.push_double(2.71828182845f64.to_bits()).unwrap();
    ops.push_ref(None).unwrap();
    assert_eq!(ops.pop_ref(), Ok(None));
    assert_eq!(ops.pop_double(), Ok(2.71828182845f64.to_bits()));
    assert_eq!(ops.pop_long(), Ok(2997924580));
    assert_eq!(ops.pop_float(), Ok(3.1415926f32.to_bits()));
    assert_eq!(ops.pop_int(), Ok(100));
    assert_eq!(ops.pop_int(), Err(ExecError::EmptyStackPop));
}

#[test]
fn long_round_trip_negative() {
    let mut ops = OperandStack::new_operand_stack(4);
    ops.push_long(-2997924580).unwrap();
    ops.push_long(i64::MIN).unwrap();
    assert_eq!(ops.push_int(1), Err(ExecError::StackOverflow));
    assert_eq!(ops.pop_long(), Ok(i64::MIN));
    assert_eq!(ops.pop_long(), Ok(-2997924580));
}

#[test]
fn int_arithmetic_wraps_and_truncates() {
    assert_eq!(compute_int(BinOp::Add, i32::MAX, 1), Some(i32::MIN));
    assert_eq!(compute_int(BinOp::Div, -7, 2), Some(-3));
    assert_eq!(compute_int(BinOp::Rem, -7, 2), Some(-1));
    assert_eq!(compute_int(BinOp::Div, i32::MIN, -1), Some(i32::MIN));
    assert_eq!(compute_int(BinOp::Rem, i32::MIN, -1), Some(0));
    assert_eq!(compute_int(BinOp::Div, 1, 0), None);
    assert_eq!(compute_int(BinOp::Mul, 65536, 65536), Some(0));
}

#[test]
fn division_by_zero_is_reported() {
    // iconst_1; iconst_0; idiv
    let (_, r) = run(2, 0, vec![0x04, 0x03, 0x6c]);
    assert_eq!(r, Err(ExecError::DivisionByZero));
    // lconst_1; lconst_0; lrem
    let (_, r) = run(4, 0, vec![0x0a, 0x09, 0x71]);
    assert_eq!(r, Err(ExecError::DivisionByZero));
}

#[test]
fn execution_errors() {
    let (_, r) = run(2, 0, vec![0x60]);
    assert_eq!(r, Err(ExecError::EmptyStackPop));
    let (_, r) = run(1, 0, vec![0x04, 0x04]);
    assert_eq!(r, Err(ExecError::StackOverflow));
    let (_, r) = run(1, 0, vec![0xba]);
    assert_eq!(r, Err(ExecError::UnknownOpcode(0xba)));
    let (_, r) = run(1, 0, vec![0x10]);
    assert_eq!(r, Err(ExecError::TruncatedCode));
    let (_, r) = run(1, 1, vec![0x15, 5]);
    assert_eq!(r, Err(ExecError::BadLocalIndex(5)));
    let mut code = vec![0x00, 0xc8];
    code.extend_from_slice(&i32::MAX.to_be_bytes());
    let (_, r) = run(1, 0, code);
    assert_eq!(r, Err(ExecError::BadBranchTarget(i32::MAX)));
    assert!(matches!(new_instruction(0xcb), Err(ExecError::UnknownOpcode(0xcb))));
}

#[test]
fn return_and_host_stops() {
    // iconst_3; ireturn
    let (_, r) = run(1, 0, vec![0x06, 0xac]);
    assert_eq!(r, Ok(Stop::Returned(ReturnValue::Int(3))));
    // lconst_1; lreturn
    let (_, r) = run(2, 0, vec![0x0a, 0xad]);
    assert_eq!(r, Ok(Stop::Returned(ReturnValue::Long(1))));
    let (_, r) = run(1, 0, vec![0xb1]);
    assert_eq!(r, Ok(Stop::Returned(ReturnValue::Void)));
    // fconst_1; fconst_2; fadd
    let (it, r) = run(2, 0, vec![0x0c, 0x0d, 0x62]);
    assert_eq!(r, Ok(Stop::Host(FloatOp::FAdd)));
    assert_eq!(top(&it).operand_stack.size(), 2);
    assert_eq!(top(&it).next_pc, 3);
}

#[test]
fn wide_store_and_iinc() {
    // bipush 7; wide istore 0; wide iinc 0 by 300
    let (it, r) = run(1, 1, vec![0x10, 7, 0xc4, 0x36, 0, 0, 0xc4, 0x84, 0, 0, 0x01, 0x2c]);
    assert_eq!(r, Ok(Stop::EndOfCode));
    assert_eq!(top(&it).local_vars.get_int(0), 307);
}

#[test]
fn iinc_uses_a_signed_increment() {
    // bipush 10; istore_0; iinc 0 by -3
    let (it, _) = run(1, 1, vec![0x10, 10, 0x3b, 0x84, 0, 0xfd]);
    assert_eq!(top(&it).local_vars.get_int(0), 7);
}

#[test]
fn dup_x1_and_swap_permutations() {
    // iconst_1; iconst_2; dup_x1 -> 2 1 2; istore_0 (2); istore_1 (1); istore_2 (2)
    let (it, _) = run(3, 3, vec![0x04, 0x05, 0x5a, 0x3b, 0x3c, 0x3d]);
    let f = top(&it);
    assert_eq!((f.local_vars.get_int(0), f.local_vars.get_int(1), f.local_vars.get_int(2)), (2, 1, 2));
    // iconst_1; iconst_2; swap; istore_0 (1); istore_1 (2)
    let (it, _) = run(2, 2, vec![0x04, 0x05, 0x5f, 0x3b, 0x3c]);
    let f = top(&it);
    assert_eq!((f.local_vars.get_int(0), f.local_vars.get_int(1)), (1, 2));
}

#[test]
fn backward_branch_loop_counts_down() {
    // 0: bipush 3; 2: istore_0; 3: iinc 0 -1; 6: iload_0; 7: ifgt -4 (to 3); 10: end
    let (it, r) = run(1, 1, vec![0x10, 3, 0x3b, 0x84, 0, 0xff, 0x1a, 0x9d, 0xff, 0xfc]);
    assert_eq!(r, Ok(Stop::EndOfCode));
    assert_eq!(top(&it).local_vars.get_int(0), 0);
}

#[test]
fn conversions() {
    // bipush -1; i2l; lstore_0; sipush 300; i2b; istore_2
    let (it, _) = run(2, 3, vec![0x10, 0xff, 0x85, 0x3f, 0x11, 0x01, 0x2c, 0x91, 0x3d]);
    let f = top(&it);
    assert_eq!(f.local_vars.get_long(0), -1);
    assert_eq!(f.local_vars.get_int(2), 44);
}

#[test]
fn interpret_without_code_halts() {
    let m = MethodInfo { name: b"f".to_vec(), access_flag: 0, descriptor_index: 0, attribute_info: Vec::new() };
    assert_eq!(interpret(&m, 10), Ok(Stop::EndOfCode));
    let m = method(1, 0, vec![0x00, 0xa7, 0xff, 0xff]);
    assert_eq!(interpret(&m, 10), Ok(Stop::OutOfSteps));
}

#[test]
fn bipush_add_store_return_stops_at_return() {
    let (it, r) = run(2, 1, vec![0x10, 100, 0x10, 50, 0x60, 0x3b, 0xb1]);
    assert_eq!(r, Ok(Stop::Returned(ReturnValue::Void)));
    assert_eq!(top(&it).local_vars.get_int(0), 150);
    assert_eq!(it.thread.pc(), 6);
    let m = method(2, 1, vec![0x10, 100, 0x10, 50, 0x60, 0x3b, 0xb1]);
    assert_eq!(interpret(&m, 100), Ok(Stop::Returned(ReturnValue::Void)));
}

#[test]
fn failed_division_leaves_the_operands() {
    // iconst_1; iconst_0; idiv
    let (it, r) = run(2, 0, vec![0x04, 0x03, 0x6c]);
    assert_eq!(r, Err(ExecError::DivisionByZero));
    let f = top(&it);
    assert_eq!(f.operand_stack.size(), 2);
    assert_eq!(f.operand_stack.peek(0).num, 0);
    assert_eq!(f.operand_stack.peek(1).num, 1);
}

#[test]
fn failed_branch_leaves_the_operand() {
    // iconst_1; ifne with an offset that leaves the i32 range cannot happen with
    // 16 bits, so use goto_w after a push: iconst_1; goto_w MAX
    let mut code = vec![0x04, 0xc8];
    code.extend_from_slice(&i32::MAX.to_be_bytes());
    let (it, r) = run(1, 0, code);
    assert_eq!(r, Err(ExecError::BadBranchTarget(i32::MAX)));
    assert_eq!(top(&it).operand_stack.size(), 1);
}
