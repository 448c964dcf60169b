use learn_jvm::error::ExecError;
use learn_jvm::runtime::{Frame, LocalVars, Thread, MAX_FRAMES};

#[test]
fn call_stack_overflows_and_underflows() {
    let mut t = Thread::new_thread();
    assert!(matches!(t.pop_frame(), Err(ExecError::EmptyStackPop)));
    assert!(t.current_frame().is_err());
    for _ in 0..MAX_FRAMES {
        t.push_frame(Frame::new_frame(0, 0)).unwrap();
    }
    assert_eq!(t.push_frame(Frame::new_frame(0, 0)), Err(ExecError::StackOverflow));
    let mut f = Frame::new_frame(1, 1);
    f.next_pc = 9;
    t.pop_frame().unwrap();
    t.push_frame(f).unwrap();
    assert_eq!(t.current_frame().unwrap().next_pc, 9);
    assert_eq!(t.pop_frame().unwrap().next_pc, 9);
}

#[test]
fn thread_program_counter() {
    let mut t = Thread::new_thread();
    assert_eq!(t.pc(), 0);
    t.set_pc(42);
    assert_eq!(t.pc(), 42);
}

#[test]
fn local_vars_hold_ints_longs_and_refs() {
    let mut vars = LocalVars::new_local_vars(10);
    vars.set_int(0, 100);
    vars.set_int(1, -100);
    vars.set_long(2, 2997924580);
    vars.set_long(4, -2997924580);
    vars.set_int(6, 3.1415926f32.to_bits() as i32);
    vars.set_long(7, 2.71828182845f64.to_bits() as i64);
    vars.set_ref(9, None);
    assert_eq!(vars.get_int(0), 100);
    assert_eq!(vars.get_int(1), -100);
    assert_eq!(vars.get_long(2), 2997924580);
    assert_eq!(vars.get_long(4), -2997924580);
    assert_eq!(f32::from_bits(vars.get_int(6) as u32), 3.1415926f32);
    assert_eq!(f64::from_bits(vars.get_long(7) as u64), 2.71828182845f64);
    assert_eq!(vars.get_ref(9), None);
    assert_eq!(vars.len(), 10);
}
