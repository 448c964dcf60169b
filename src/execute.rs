use vstd::prelude::*;

use crate::error::ExecError;
use crate::runtime::{high_word, join_words, low_word, num_slot, Frame, Slot};
use crate::semantics::{
    applied, branch_if, branch_target, dcmp_effect, double_cmp, drop, fcmp_effect, float_cmp,
    host_effect, i2l_effect, if_acmp_effect, if_icmp_effect, if_int_effect, if_null_effect,
    iinc_effect, int_binary_effect, int_op, int_shift, int_shift_effect, int_unary_effect,
    l2i_effect, lcmp_effect, load_effect, long_binary_effect, long_op, long_shift,
    long_shift_effect, long_unary_effect, lookup_from, lookup_offset, lookup_switch_effect, next,
    push_effect, push_long, return_of, shuffle_effect, stack_op_effect, store_effect, table_offset,
    table_switch_effect, BinOp, Cond, FloatOp, Outcome, ReturnKind, ReturnValue, ShiftOp, StackOp,
    UnaryOp,
};

verus! {

/// Pushes one slot.
pub fn exec_push(frame: &mut Frame, slot: Slot) -> (r: Result<Outcome, ExecError>)
    requires
        old(frame).wf(),
    ensures
        applied(*old(frame), *final(frame), r, push_effect(old(frame).operand_stack@, old(frame).local_vars@, old(frame).operand_stack.capacity(), seq![slot])),
{
    proof {
        reveal(applied);
    }
    let ghost st = frame.operand_stack@;
    frame.operand_stack.push_slot(slot)?;
    assert(st.push(slot) =~= st + seq![slot]);
    Ok(Outcome::Next)
}

/// Pushes a long or double constant as two slots.
pub fn exec_push_long(frame: &mut Frame, v: i64) -> (r: Result<Outcome, ExecError>)
    requires
        old(frame).wf(),
    ensures
        applied(*old(frame), *final(frame), r, push_effect(old(frame).operand_stack@, old(frame).local_vars@, old(frame).operand_stack.capacity(),
            seq![num_slot(low_word(v)), num_slot(high_word(v))])),
{
    proof {
        reveal(applied);
    }
    let ghost st = frame.operand_stack@;
    frame.operand_stack.push_long(v)?;
    assert(st.push(num_slot(low_word(v))).push(num_slot(high_word(v))) =~= st + seq![num_slot(low_word(v)), num_slot(high_word(v))]);
    Ok(Outcome::Next)
}

/// Pushes copies of `width` (1 or 2) locals from `index` on.
pub fn exec_load(frame: &mut Frame, index: u16, width: usize) -> (r: Result<Outcome, ExecError>)
    requires
        old(frame).wf(),
        width == 1 || width == 2,
    ensures
        applied(*old(frame), *final(frame), r, load_effect(old(frame).operand_stack@, old(frame).local_vars@, old(frame).operand_stack.capacity(), index, width as int)),
{
    proof {
        reveal(applied);
    }
    let ghost st = frame.operand_stack@;
    let ghost lv = frame.local_vars@;
    if index as usize + width > frame.local_vars.len() {
        return Err(ExecError::BadLocalIndex(index));
    }
    if width > frame.operand_stack.free() {
        return Err(ExecError::StackOverflow);
    }
    let first = frame.local_vars.get_slot(index as usize);
    frame.operand_stack.push_slot(first)?;
    if width == 2 {
        let second = frame.local_vars.get_slot(index as usize + 1);
        frame.operand_stack.push_slot(second)?;
        assert(st.push(first).push(second) =~= st + lv.subrange(index as int, index + 2));
    } else {
        assert(st.push(first) =~= st + lv.subrange(index as int, index + 1));
    }
    Ok(Outcome::Next)
}

/// Pops `width` (1 or 2) slots into the locals from `index` on.
pub fn exec_store(frame: &mut Frame, index: u16, width: usize) -> (r: Result<Outcome, ExecError>)
    requires
        old(frame).wf(),
        width == 1 || width == 2,
    ensures
        applied(*old(frame), *final(frame), r, store_effect(old(frame).operand_stack@, old(frame).local_vars@, index, width as int)),
{
    proof {
        reveal(applied);
    }
    let ghost st = frame.operand_stack@;
    if frame.operand_stack.size() < width {
        return Err(ExecError::EmptyStackPop);
    }
    if index as usize + width > frame.local_vars.len() {
        return Err(ExecError::BadLocalIndex(index));
    }
    let top = frame.operand_stack.pop_slot()?;
    if width == 2 {
        let below = frame.operand_stack.pop_slot()?;
        frame.local_vars.set_slot(index as usize, below);
        frame.local_vars.set_slot(index as usize + 1, top);
        assert(st.drop_last().drop_last() =~= drop(st, 2));
    } else {
        frame.local_vars.set_slot(index as usize, top);
        assert(st.drop_last() =~= drop(st, 1));
    }
    Ok(Outcome::Next)
}

/// Pops `n` slots and pushes back the popped slots that `order` names, from
/// the bottom up; 0 names the slot that was on top.
pub fn exec_shuffle(frame: &mut Frame, n: usize, order: &[usize]) -> (r: Result<Outcome, ExecError>)
    requires
        old(frame).wf(),
        forall|k: int| 0 <= k < order@.len() ==> #[trigger] order@[k] < n,
        order@.len() <= 8,
        n <= 4,
    ensures
        applied(*old(frame), *final(frame), r, shuffle_effect(old(frame).operand_stack@, old(frame).local_vars@, old(frame).operand_stack.capacity(), n as int,
            Seq::new(order@.len(), |k: int| order@[k] as int))),
{
    proof {
        reveal(applied);
    }
    let ghost st = frame.operand_stack@;
    let ghost ord = Seq::new(order@.len(), |k: int| order@[k] as int);
    if frame.operand_stack.size() < n {
        return Err(ExecError::EmptyStackPop);
    }
    if order.len() > frame.operand_stack.free() + n {
        return Err(ExecError::StackOverflow);
    }
    let mut popped: Vec<Slot> = Vec::new();
    let mut i: usize = 0;
    while i < n
        invariant
            frame.wf(),
            frame.operand_stack.capacity() == old(frame).operand_stack.capacity(),
            frame.local_vars@ == old(frame).local_vars@,
            frame.next_pc == old(frame).next_pc,
            st == old(frame).operand_stack@,
            n <= st.len(),
            0 <= i <= n,
            frame.operand_stack@ == st.subrange(0, st.len() - i),
            popped@.len() == i,
            forall|k: int| 0 <= k < i ==> #[trigger] popped@[k] == st[st.len() - 1 - k],
        decreases n - i,
    {
        let s = frame.operand_stack.pop_slot()?;
        popped.push(s);
        i = i + 1;
        assert(frame.operand_stack@ =~= st.subrange(0, st.len() - i));
    }
    let ghost base = frame.operand_stack@;
    let mut j: usize = 0;
    while j < order.len()
        invariant
            frame.wf(),
            frame.operand_stack.capacity() == old(frame).operand_stack.capacity(),
            frame.local_vars@ == old(frame).local_vars@,
            frame.next_pc == old(frame).next_pc,
            st == old(frame).operand_stack@,
            n <= st.len(),
            base == drop(st, n as int),
            base.len() + order@.len() <= frame.operand_stack.capacity(),
            popped@.len() == n,
            forall|k: int| 0 <= k < n ==> #[trigger] popped@[k] == st[st.len() - 1 - k],
            forall|k: int| 0 <= k < order@.len() ==> #[trigger] order@[k] < n,
            ord == Seq::new(order@.len(), |k: int| order@[k] as int),
            0 <= j <= order@.len(),
            frame.operand_stack@ == base + Seq::new(j as nat, |k: int| st[st.len() - 1 - ord[k]]),
        decreases order@.len() - j,
    {
        let s = popped[order[j]];
        frame.operand_stack.push_slot(s)?;
        j = j + 1;
        assert(frame.operand_stack@ =~= base + Seq::new(j as nat, |k: int| st[st.len() - 1 - ord[k]]));
    }
    assert(Seq::new(j as nat, |k: int| st[st.len() - 1 - ord[k]]) =~= Seq::new(ord.len(), |k: int| st[st.len() - 1 - ord[k]]));
    Ok(Outcome::Next)
}

pub fn compute_int(op: BinOp, a: i32, b: i32) -> (r: Option<i32>)
    ensures
        r == int_op(op, a, b),
{
    match op {
        BinOp::Add => Some(a.wrapping_add(b)),
        BinOp::Sub => Some(a.wrapping_sub(b)),
        BinOp::Mul => Some(a.wrapping_mul(b)),
        BinOp::Div => if b == 0 {
            None
        } else {
            Some(match a.checked_div(b) {
                Some(q) => q,
                None => i32::MIN,
            })
        },
        BinOp::Rem => if b == 0 {
            None
        } else {
            Some(match a.checked_rem(b) {
                Some(q) => q,
                None => 0,
            })
        },
        BinOp::And => Some(a & b),
        BinOp::Or => Some(a | b),
        BinOp::Xor => Some(a ^ b),
    }
}

pub fn compute_long(op: BinOp, a: i64, b: i64) -> (r: Option<i64>)
    ensures
        r == long_op(op, a, b),
{
    match op {
        BinOp::Add => Some(a.wrapping_add(b)),
        BinOp::Sub => Some(a.wrapping_sub(b)),
        BinOp::Mul => Some(a.wrapping_mul(b)),
        BinOp::Div => if b == 0 {
            None
        } else {
            Some(match a.checked_div(b) {
                Some(q) => q,
                None => i64::MIN,
            })
        },
        BinOp::Rem => if b == 0 {
            None
        } else {
            Some(match a.checked_rem(b) {
                Some(q) => q,
                None => 0,
            })
        },
        BinOp::And => Some(a & b),
        BinOp::Or => Some(a | b),
        BinOp::Xor => Some(a ^ b),
    }
}

pub fn compute_int_shift(op: ShiftOp, v: i32, s: i32) -> (r: i32)
    ensures
        r == int_shift(op, v, s),
{
    let k = (s & 0x1f) as u32;
    match op {
        ShiftOp::Shl => v.wrapping_shl(k),
        ShiftOp::Shr => v.wrapping_shr(k),
        ShiftOp::Ushr => (v as u32).wrapping_shr(k) as i32,
    }
}

pub fn compute_long_shift(op: ShiftOp, v: i64, s: i32) -> (r: i64)
    ensures
        r == long_shift(op, v, s),
{
    let k = (s & 0x3f) as u32;
    match op {
        ShiftOp::Shl => v.wrapping_shl(k),
        ShiftOp::Shr => v.wrapping_shr(k),
        ShiftOp::Ushr => (v as u64).wrapping_shr(k) as i64,
    }
}

/// Compares float bits `a` with float bits `b`.
pub fn compare_floats(nan_result: i32, a: u32, b: u32) -> (r: i32)
    ensures
        r == float_cmp(nan_result, a, b),
{
    let a_nan = a & 0x7f80_0000 == 0x7f80_0000 && a & 0x007f_ffff != 0;
    let b_nan = b & 0x7f80_0000 == 0x7f80_0000 && b & 0x007f_ffff != 0;
    if a_nan || b_nan {
        return nan_result;
    }
    let ka: i64 = if a & 0x8000_0000 != 0 { -((a & 0x7fff_ffff) as i64) } else { (a & 0x7fff_ffff) as i64 };
    let kb: i64 = if b & 0x8000_0000 != 0 { -((b & 0x7fff_ffff) as i64) } else { (b & 0x7fff_ffff) as i64 };
    if ka > kb { 1 } else if ka == kb { 0 } else { -1 }
}

/// Compares double bits `a` with double bits `b`.
pub fn compare_doubles(nan_result: i32, a: u64, b: u64) -> (r: i32)
    ensures
        r == double_cmp(nan_result, a, b),
{
    let a_nan = a & 0x7ff0_0000_0000_0000 == 0x7ff0_0000_0000_0000 && a & 0x000f_ffff_ffff_ffff != 0;
    let b_nan = b & 0x7ff0_0000_0000_0000 == 0x7ff0_0000_0000_0000 && b & 0x000f_ffff_ffff_ffff != 0;
    if a_nan || b_nan {
        return nan_result;
    }
    let ma = a & 0x7fff_ffff_ffff_ffff;
    let mb = b & 0x7fff_ffff_ffff_ffff;
    assert(ma <= 0x7fff_ffff_ffff_ffff) by (bit_vector)
        requires
            ma == a & 0x7fff_ffff_ffff_ffff,
    ;
    assert(mb <= 0x7fff_ffff_ffff_ffff) by (bit_vector)
        requires
            mb == b & 0x7fff_ffff_ffff_ffff,
    ;
    let ka: i64 = if a & 0x8000_0000_0000_0000 != 0 { -(ma as i64) } else { ma as i64 };
    let kb: i64 = if b & 0x8000_0000_0000_0000 != 0 { -(mb as i64) } else { mb as i64 };
    if ka > kb { 1 } else if ka == kb { 0 } else { -1 }
}

pub fn exec_int_binary(frame: &mut Frame, op: BinOp) -> (r: Result<Outcome, ExecError>)
    requires
        old(frame).wf(),
    ensures
        applied(*old(frame), *final(frame), r, int_binary_effect(old(frame).operand_stack@, old(frame).local_vars@, op)),
{
    proof {
        reveal(applied);
    }
    let ghost st = frame.operand_stack@;
    if frame.operand_stack.size() < 2 {
        return Err(ExecError::EmptyStackPop);
    }
    let b = frame.operand_stack.peek(0).num;
    let a = frame.operand_stack.peek(1).num;
    match compute_int(op, a, b) {
        None => Err(ExecError::DivisionByZero),
        Some(v) => {
            frame.operand_stack.pop_int()?;
            frame.operand_stack.pop_int()?;
            frame.operand_stack.push_int(v)?;
            assert(st.drop_last().drop_last() =~= drop(st, 2));
            Ok(Outcome::Next)
        },
    }
}

/// The long whose words are `lo` and `hi`.
fn join(lo: i32, hi: i32) -> (r: i64)
    ensures
        r == join_words(lo, hi),
{
    ((hi as i64) << 32u64) | ((lo as u32) as i64)
}

pub fn exec_long_binary(frame: &mut Frame, op: BinOp) -> (r: Result<Outcome, ExecError>)
    requires
        old(frame).wf(),
    ensures
        applied(*old(frame), *final(frame), r, long_binary_effect(old(frame).operand_stack@, old(frame).local_vars@, op)),
{
    proof {
        reveal(applied);
    }
    let ghost st = frame.operand_stack@;
    if frame.operand_stack.size() < 4 {
        return Err(ExecError::EmptyStackPop);
    }
    let b = join(frame.operand_stack.peek(1).num, frame.operand_stack.peek(0).num);
    let a = join(frame.operand_stack.peek(3).num, frame.operand_stack.peek(2).num);
    match compute_long(op, a, b) {
        None => Err(ExecError::DivisionByZero),
        Some(v) => {
            frame.operand_stack.pop_long()?;
            frame.operand_stack.pop_long()?;
            assert(st.subrange(0, st.len() - 2).subrange(0, st.len() - 4) =~= drop(st, 4));
            frame.operand_stack.push_long(v)?;
            Ok(Outcome::Next)
        },
    }
}

pub fn exec_int_shift(frame: &mut Frame, op: ShiftOp) -> (r: Result<Outcome, ExecError>)
    requires
        old(frame).wf(),
    ensures
        applied(*old(frame), *final(frame), r, int_shift_effect(old(frame).operand_stack@, old(frame).local_vars@, op)),
{
    proof {
        reveal(applied);
    }
    let ghost st = frame.operand_stack@;
    if frame.operand_stack.size() < 2 {
        return Err(ExecError::EmptyStackPop);
    }
    let s = frame.operand_stack.pop_int()?;
    let v = frame.operand_stack.pop_int()?;
    frame.operand_stack.push_int(compute_int_shift(op, v, s))?;
    assert(st.drop_last().drop_last() =~= drop(st, 2));
    Ok(Outcome::Next)
}

pub fn exec_long_shift(frame: &mut Frame, op: ShiftOp) -> (r: Result<Outcome, ExecError>)
    requires
        old(frame).wf(),
    ensures
        applied(*old(frame), *final(frame), r, long_shift_effect(old(frame).operand_stack@, old(frame).local_vars@, op)),
{
    proof {
        reveal(applied);
    }
    let ghost st = frame.operand_stack@;
    if frame.operand_stack.size() < 3 {
        return Err(ExecError::EmptyStackPop);
    }
    let s = frame.operand_stack.pop_int()?;
    let v = frame.operand_stack.pop_long()?;
    assert(st.drop_last().subrange(0, st.len() - 3) =~= drop(st, 3));
    frame.operand_stack.push_long(compute_long_shift(op, v, s))?;
    Ok(Outcome::Next)
}

pub fn exec_int_unary(frame: &mut Frame, op: UnaryOp) -> (r: Result<Outcome, ExecError>)
    requires
        old(frame).wf(),
    ensures
        applied(*old(frame), *final(frame), r, int_unary_effect(old(frame).operand_stack@, old(frame).local_vars@, op)),
{
    proof {
        reveal(applied);
    }
    let ghost st = frame.operand_stack@;
    let v = frame.operand_stack.pop_int()?;
    let w = match op {
        UnaryOp::Neg => 0i32.wrapping_sub(v),
        UnaryOp::ToByte => (#[verifier::truncate] (v as i8)) as i32,
        UnaryOp::ToChar => (#[verifier::truncate] (v as u16)) as i32,
        UnaryOp::ToShort => (#[verifier::truncate] (v as i16)) as i32,
        UnaryOp::FloatNeg => v ^ i32::MIN,
    };
    frame.operand_stack.push_int(w)?;
    assert(st.drop_last() =~= drop(st, 1));
    Ok(Outcome::Next)
}

pub fn exec_long_unary(frame: &mut Frame, double: bool) -> (r: Result<Outcome, ExecError>)
    requires
        old(frame).wf(),
    ensures
        applied(*old(frame), *final(frame), r, long_unary_effect(old(frame).operand_stack@, old(frame).local_vars@, double)),
{
    proof {
        reveal(applied);
    }
    let ghost st = frame.operand_stack@;
    let v = frame.operand_stack.pop_long()?;
    let w = if double { v ^ i64::MIN } else { 0i64.wrapping_sub(v) };
    frame.operand_stack.push_long(w)?;
    Ok(Outcome::Next)
}

pub fn exec_i2l(frame: &mut Frame) -> (r: Result<Outcome, ExecError>)
    requires
        old(frame).wf(),
    ensures
        applied(*old(frame), *final(frame), r, i2l_effect(old(frame).operand_stack@, old(frame).local_vars@, old(frame).operand_stack.capacity())),
{
    proof {
        reveal(applied);
    }
    let ghost st = frame.operand_stack@;
    if frame.operand_stack.size() < 1 {
        return Err(ExecError::EmptyStackPop);
    }
    if frame.operand_stack.free() < 1 {
        return Err(ExecError::StackOverflow);
    }
    let v = frame.operand_stack.pop_int()?;
    frame.operand_stack.push_long(v as i64)?;
    assert(st.drop_last() =~= drop(st, 1));
    Ok(Outcome::Next)
}

pub fn exec_l2i(frame: &mut Frame) -> (r: Result<Outcome, ExecError>)
    requires
        old(frame).wf(),
    ensures
        applied(*old(frame), *final(frame), r, l2i_effect(old(frame).operand_stack@, old(frame).local_vars@)),
{
    proof {
        reveal(applied);
    }
    let v = frame.operand_stack.pop_long()?;
    frame.operand_stack.push_int(#[verifier::truncate] (v as i32))?;
    Ok(Outcome::Next)
}

pub fn exec_lcmp(frame: &mut Frame) -> (r: Result<Outcome, ExecError>)
    requires
        old(frame).wf(),
    ensures
        applied(*old(frame), *final(frame), r, lcmp_effect(old(frame).operand_stack@, old(frame).local_vars@)),
{
    proof {
        reveal(applied);
    }
    let ghost st = frame.operand_stack@;
    if frame.operand_stack.size() < 4 {
        return Err(ExecError::EmptyStackPop);
    }
    let b = frame.operand_stack.pop_long()?;
    let a = frame.operand_stack.pop_long()?;
    assert(st.subrange(0, st.len() - 2).subrange(0, st.len() - 4) =~= drop(st, 4));
    let c: i32 = if a > b { 1 } else if a == b { 0 } else { -1 };
    frame.operand_stack.push_int(c)?;
    Ok(Outcome::Next)
}

pub fn exec_fcmp(frame: &mut Frame, nan_result: i32) -> (r: Result<Outcome, ExecError>)
    requires
        old(frame).wf(),
    ensures
        applied(*old(frame), *final(frame), r, fcmp_effect(old(frame).operand_stack@, old(frame).local_vars@, nan_result)),
{
    proof {
        reveal(applied);
    }
    let ghost st = frame.operand_stack@;
    if frame.operand_stack.size() < 2 {
        return Err(ExecError::EmptyStackPop);
    }
    let b = frame.operand_stack.pop_float()?;
    let a = frame.operand_stack.pop_float()?;
    frame.operand_stack.push_int(compare_floats(nan_result, a, b))?;
    assert(st.drop_last().drop_last() =~= drop(st, 2));
    Ok(Outcome::Next)
}

pub fn exec_dcmp(frame: &mut Frame, nan_result: i32) -> (r: Result<Outcome, ExecError>)
    requires
        old(frame).wf(),
    ensures
        applied(*old(frame), *final(frame), r, dcmp_effect(old(frame).operand_stack@, old(frame).local_vars@, nan_result)),
{
    proof {
        reveal(applied);
    }
    let ghost st = frame.operand_stack@;
    if frame.operand_stack.size() < 4 {
        return Err(ExecError::EmptyStackPop);
    }
    let b = frame.operand_stack.pop_double()?;
    let a = frame.operand_stack.pop_double()?;
    assert(st.subrange(0, st.len() - 2).subrange(0, st.len() - 4) =~= drop(st, 4));
    frame.operand_stack.push_int(compare_doubles(nan_result, a, b))?;
    Ok(Outcome::Next)
}

/// The address `offset` away from the branch opcode at `pc`.
pub fn compute_target(pc: i32, offset: i32) -> (r: Result<i32, ExecError>)
    ensures
        r == branch_target(pc, offset),
{
    let t = pc as i64 + offset as i64;
    if t < i32::MIN as i64 || t > i32::MAX as i64 {
        Err(ExecError::BadBranchTarget(offset))
    } else {
        Ok(t as i32)
    }
}

/// Pops `n` slots, then branches by `offset` when `taken`. A bad target
/// fails before anything is popped.
fn pop_and_branch(frame: &mut Frame, pc: i32, offset: i32, taken: bool, n: usize) -> (r: Result<Outcome, ExecError>)
    requires
        old(frame).wf(),
        n <= 2,
        n <= old(frame).operand_stack@.len(),
    ensures
        applied(*old(frame), *final(frame), r, branch_if(drop(old(frame).operand_stack@, n as int), old(frame).local_vars@, pc, offset, taken)),
{
    proof {
        reveal(applied);
    }
    let ghost st = frame.operand_stack@;
    let mut target = frame.next_pc;
    if taken {
        target = compute_target(pc, offset)?;
    }
    if n >= 1 {
        frame.operand_stack.pop_slot()?;
    }
    if n == 2 {
        frame.operand_stack.pop_slot()?;
    }
    frame.next_pc = target;
    assert(frame.operand_stack@ =~= drop(st, n as int));
    Ok(Outcome::Next)
}

pub fn exec_if_int(frame: &mut Frame, pc: i32, c: Cond, offset: i32) -> (r: Result<Outcome, ExecError>)
    requires
        old(frame).wf(),
    ensures
        applied(*old(frame), *final(frame), r, if_int_effect(old(frame).operand_stack@, old(frame).local_vars@, pc, c, offset)),
{
    proof {
        reveal(applied);
    }
    if frame.operand_stack.size() < 1 {
        return Err(ExecError::EmptyStackPop);
    }
    let v = frame.operand_stack.peek(0).num;
    let taken = match c {
        Cond::Eq => v == 0,
        Cond::Ne => v != 0,
        Cond::Lt => v < 0,
        Cond::Ge => v >= 0,
        Cond::Gt => v > 0,
        Cond::Le => v <= 0,
    };
    pop_and_branch(frame, pc, offset, taken, 1)
}

pub fn exec_if_icmp(frame: &mut Frame, pc: i32, c: Cond, offset: i32) -> (r: Result<Outcome, ExecError>)
    requires
        old(frame).wf(),
    ensures
        applied(*old(frame), *final(frame), r, if_icmp_effect(old(frame).operand_stack@, old(frame).local_vars@, pc, c, offset)),
{
    proof {
        reveal(applied);
    }
    if frame.operand_stack.size() < 2 {
        return Err(ExecError::EmptyStackPop);
    }
    let b = frame.operand_stack.peek(0).num;
    let a = frame.operand_stack.peek(1).num;
    let taken = match c {
        Cond::Eq => a == b,
        Cond::Ne => a != b,
        Cond::Lt => a < b,
        Cond::Ge => a >= b,
        Cond::Gt => a > b,
        Cond::Le => a <= b,
    };
    pop_and_branch(frame, pc, offset, taken, 2)
}

pub fn exec_if_acmp(frame: &mut Frame, pc: i32, equal: bool, offset: i32) -> (r: Result<Outcome, ExecError>)
    requires
        old(frame).wf(),
    ensures
        applied(*old(frame), *final(frame), r, if_acmp_effect(old(frame).operand_stack@, old(frame).local_vars@, pc, equal, offset)),
{
    proof {
        reveal(applied);
    }
    if frame.operand_stack.size() < 2 {
        return Err(ExecError::EmptyStackPop);
    }
    let b = frame.operand_stack.peek(0).reference;
    let a = frame.operand_stack.peek(1).reference;
    let same = a == b;
    pop_and_branch(frame, pc, offset, same == equal, 2)
}

pub fn exec_if_null(frame: &mut Frame, pc: i32, null: bool, offset: i32) -> (r: Result<Outcome, ExecError>)
    requires
        old(frame).wf(),
    ensures
        applied(*old(frame), *final(frame), r, if_null_effect(old(frame).operand_stack@, old(frame).local_vars@, pc, null, offset)),
{
    proof {
        reveal(applied);
    }
    if frame.operand_stack.size() < 1 {
        return Err(ExecError::EmptyStackPop);
    }
    let v = frame.operand_stack.peek(0).reference;
    pop_and_branch(frame, pc, offset, v.is_none() == null, 1)
}

pub fn exec_goto(frame: &mut Frame, pc: i32, offset: i32) -> (r: Result<Outcome, ExecError>)
    requires
        old(frame).wf(),
    ensures
        applied(*old(frame), *final(frame), r, branch_if(old(frame).operand_stack@, old(frame).local_vars@, pc, offset, true)),
{
    assert(drop(frame.operand_stack@, 0) =~= frame.operand_stack@);
    pop_and_branch(frame, pc, offset, true, 0)
}

/// The offset a table switch takes for `key`.
pub fn table_lookup(default_offset: i32, low: i32, high: i32, jump_offsets: &Vec<i32>, key: i32) -> (r: i32)
    ensures
        r == table_offset(default_offset, low, high, jump_offsets@, key),
{
    if low <= key && key <= high {
        let k = (key as i64 - low as i64) as u64;
        if k < jump_offsets.len() as u64 {
            return jump_offsets[k as usize];
        }
    }
    default_offset
}

/// The offset a lookup switch takes for `key`: the one paired with the first
/// match, else the default.
pub fn pair_lookup(default_offset: i32, pairs: &Vec<i32>, key: i32) -> (r: i32)
    ensures
        r == lookup_offset(default_offset, pairs@, key),
{
    let mut k: usize = 0;
    while k < pairs.len() / 2
        invariant
            0 <= k <= pairs@.len() / 2,
            lookup_from(pairs@, key, 0) == lookup_from(pairs@, key, k as int),
        decreases pairs@.len() / 2 - k,
    {
        if pairs[2 * k] == key {
            return pairs[2 * k + 1];
        }
        k = k + 1;
    }
    assert(lookup_from(pairs@, key, k as int) is None);
    default_offset
}

pub fn exec_table_switch(frame: &mut Frame, pc: i32, default_offset: i32, low: i32, high: i32, jump_offsets: &Vec<i32>) -> (r: Result<Outcome, ExecError>)
    requires
        old(frame).wf(),
    ensures
        applied(*old(frame), *final(frame), r, table_switch_effect(old(frame).operand_stack@, old(frame).local_vars@, pc,
            default_offset, low, high, jump_offsets@)),
{
    proof {
        reveal(applied);
    }
    if frame.operand_stack.size() < 1 {
        return Err(ExecError::EmptyStackPop);
    }
    let key = frame.operand_stack.peek(0).num;
    let offset = table_lookup(default_offset, low, high, jump_offsets, key);
    pop_and_branch(frame, pc, offset, true, 1)
}

pub fn exec_lookup_switch(frame: &mut Frame, pc: i32, default_offset: i32, pairs: &Vec<i32>) -> (r: Result<Outcome, ExecError>)
    requires
        old(frame).wf(),
    ensures
        applied(*old(frame), *final(frame), r, lookup_switch_effect(old(frame).operand_stack@, old(frame).local_vars@, pc,
            default_offset, pairs@)),
{
    proof {
        reveal(applied);
    }
    if frame.operand_stack.size() < 1 {
        return Err(ExecError::EmptyStackPop);
    }
    let key = frame.operand_stack.peek(0).num;
    let offset = pair_lookup(default_offset, pairs, key);
    pop_and_branch(frame, pc, offset, true, 1)
}

pub fn exec_iinc(frame: &mut Frame, index: u16, delta: i16) -> (r: Result<Outcome, ExecError>)
    requires
        old(frame).wf(),
    ensures
        applied(*old(frame), *final(frame), r, iinc_effect(old(frame).operand_stack@, old(frame).local_vars@, index, delta)),
{
    proof {
        reveal(applied);
    }
    if index as usize >= frame.local_vars.len() {
        return Err(ExecError::BadLocalIndex(index));
    }
    let v = frame.local_vars.get_int(index as usize);
    frame.local_vars.set_int(index as usize, v.wrapping_add(delta as i32));
    Ok(Outcome::Next)
}

/// Pops the returned value, if any, and reports it.
pub fn exec_return(frame: &mut Frame, kind: ReturnKind) -> (r: Result<Outcome, ExecError>)
    requires
        old(frame).wf(),
    ensures
        applied(*old(frame), *final(frame), r, return_of(old(frame).operand_stack@, old(frame).local_vars@, kind)),
{
    proof {
        reveal(applied);
    }
    let ghost st = frame.operand_stack@;
    let v = match kind {
        ReturnKind::Void => ReturnValue::Void,
        ReturnKind::Int => ReturnValue::Int(frame.operand_stack.pop_int()?),
        ReturnKind::Float => ReturnValue::Float(frame.operand_stack.pop_float()?),
        ReturnKind::Reference => ReturnValue::Reference(frame.operand_stack.pop_ref()?),
        ReturnKind::Long => ReturnValue::Long(frame.operand_stack.pop_long()?),
        ReturnKind::Double => ReturnValue::Double(frame.operand_stack.pop_double()?),
    };
    assert(st.drop_last() =~= drop(st, 1));
    assert(st =~= drop(st, 0));
    Ok(Outcome::Return(v))
}

/// Applies one operand stack rearrangement.
pub fn exec_stack_op(frame: &mut Frame, op: StackOp) -> (r: Result<Outcome, ExecError>)
    requires
        old(frame).wf(),
    ensures
        applied(*old(frame), *final(frame), r, stack_op_effect(old(frame).operand_stack@, old(frame).local_vars@, old(frame).operand_stack.capacity(), op)),
{
    proof {
        reveal(applied);
    }
    match op {
        StackOp::Pop => {
            let order: [usize; 0] = [];
            proof {
                let want: Seq<int> = seq![];
                assert(Seq::new(order@.len(), |k: int| order@[k] as int) =~= want);
            }
            exec_shuffle(frame, 1, &order)
        },
        StackOp::Pop2 => {
            let order: [usize; 0] = [];
            proof {
                let want: Seq<int> = seq![];
                assert(Seq::new(order@.len(), |k: int| order@[k] as int) =~= want);
            }
            exec_shuffle(frame, 2, &order)
        },
        StackOp::Dup => {
            let order: [usize; 2] = [0, 0];
            proof {
                let want: Seq<int> = seq![0int, 0];
                assert(Seq::new(order@.len(), |k: int| order@[k] as int) =~= want);
            }
            exec_shuffle(frame, 1, &order)
        },
        StackOp::DupX1 => {
            let order: [usize; 3] = [0, 1, 0];
            proof {
                let want: Seq<int> = seq![0int, 1, 0];
                assert(Seq::new(order@.len(), |k: int| order@[k] as int) =~= want);
            }
            exec_shuffle(frame, 2, &order)
        },
        StackOp::DupX2 => {
            let order: [usize; 4] = [0, 2, 1, 0];
            proof {
                let want: Seq<int> = seq![0int, 2, 1, 0];
                assert(Seq::new(order@.len(), |k: int| order@[k] as int) =~= want);
            }
            exec_shuffle(frame, 3, &order)
        },
        StackOp::Dup2 => {
            let order: [usize; 4] = [1, 0, 1, 0];
            proof {
                let want: Seq<int> = seq![1int, 0, 1, 0];
                assert(Seq::new(order@.len(), |k: int| order@[k] as int) =~= want);
            }
            exec_shuffle(frame, 2, &order)
        },
        StackOp::Dup2X1 => {
            let order: [usize; 5] = [1, 0, 2, 1, 0];
            proof {
                let want: Seq<int> = seq![1int, 0, 2, 1, 0];
                assert(Seq::new(order@.len(), |k: int| order@[k] as int) =~= want);
            }
            exec_shuffle(frame, 3, &order)
        },
        StackOp::Dup2X2 => {
            let order: [usize; 6] = [1, 0, 3, 2, 1, 0];
            proof {
                let want: Seq<int> = seq![1int, 0, 3, 2, 1, 0];
                assert(Seq::new(order@.len(), |k: int| order@[k] as int) =~= want);
            }
            exec_shuffle(frame, 4, &order)
        },
        StackOp::Swap => {
            let order: [usize; 2] = [0, 1];
            proof {
                let want: Seq<int> = seq![0int, 1];
                assert(Seq::new(order@.len(), |k: int| order@[k] as int) =~= want);
            }
            exec_shuffle(frame, 2, &order)
        },
    }
}

/// Leaves the frame as it is and hands `op` to the host.
pub fn exec_host(frame: &mut Frame, op: FloatOp) -> (r: Result<Outcome, ExecError>)
    requires
        old(frame).wf(),
    ensures
        applied(*old(frame), *final(frame), r, host_effect(old(frame).operand_stack@, old(frame).local_vars@, op)),
{
    proof {
        reveal(applied);
    }
    let pc = frame.next_pc;
    frame.next_pc = pc;
    Ok(Outcome::Host(op))
}

/// Does nothing.
pub fn exec_nop(frame: &mut Frame) -> (r: Result<Outcome, ExecError>)
    requires
        old(frame).wf(),
    ensures
        applied(*old(frame), *final(frame), r, next(old(frame).operand_stack@, old(frame).local_vars@)),
{
    proof {
        reveal(applied);
    }
    let pc = frame.next_pc;
    frame.next_pc = pc;
    Ok(Outcome::Next)
}

} // verus!
