use vstd::prelude::*;

use crate::error::ExecError;
use crate::runtime::{high_word, join_words, low_word, num_slot, ref_slot, Frame, Object, Slot};

verus! {

/// Integer and long operations with two operands of the same width.
#[derive(Debug, Clone, Copy, PartialEq, Eq, Structural)]
pub enum BinOp {
    Add,
    Sub,
    Mul,
    Div,
    Rem,
    And,
    Or,
    Xor,
}

/// Shifts: the amount is an int on top of the value.
#[derive(Debug, Clone, Copy, PartialEq, Eq, Structural)]
pub enum ShiftOp {
    Shl,
    Shr,
    Ushr,
}

/// How a conditional branch compares its operands.
#[derive(Debug, Clone, Copy, PartialEq, Eq, Structural)]
pub enum Cond {
    Eq,
    Ne,
    Lt,
    Ge,
    Gt,
    Le,
}

/// Floating-point work that the host performs on the frame's operand stack:
/// the operands are on top, and the result replaces them.
#[derive(Debug, Clone, Copy, PartialEq, Eq, Structural)]
pub enum FloatOp {
    FAdd,
    DAdd,
    FSub,
    DSub,
    FMul,
    DMul,
    FDiv,
    DDiv,
    FRem,
    DRem,
    I2F,
    I2D,
    L2F,
    L2D,
    F2I,
    F2L,
    F2D,
    D2I,
    D2L,
    D2F,
}

/// What a method returned.
#[derive(Debug, Clone, Copy, PartialEq, Eq, Structural)]
pub enum ReturnValue {
    Void,
    Int(i32),
    Long(i64),
    Float(u32),
    Double(u64),
    Reference(Option<Object>),
}

/// How an executed instruction hands control back.
#[derive(Debug, Clone, Copy, PartialEq, Eq, Structural)]
pub enum Outcome {
    /// Go on at the frame's next program counter.
    Next,
    /// The host must perform this floating-point operation, then go on.
    Host(FloatOp),
    /// The method returned.
    Return(ReturnValue),
}

/// The int result of `a op b`, wrapping modulo 2^32, with division and
/// remainder truncating toward zero (so `MIN / -1` is `MIN` and `MIN % -1` is
/// 0); `None` for a division or remainder by zero.
pub open spec fn int_op(op: BinOp, a: i32, b: i32) -> Option<i32> {
    match op {
        BinOp::Add => Some(a.wrapping_add(b)),
        BinOp::Sub => Some(a.wrapping_sub(b)),
        BinOp::Mul => Some(a.wrapping_mul(b)),
        BinOp::Div => if b == 0 {
            None
        } else {
            Some(match a.checked_div(b) {
                Some(q) => q,
                None => i32::MIN,
            })
        },
        BinOp::Rem => if b == 0 {
            None
        } else {
            Some(match a.checked_rem(b) {
                Some(q) => q,
                None => 0,
            })
        },
        BinOp::And => Some(a & b),
        BinOp::Or => Some(a | b),
        BinOp::Xor => Some(a ^ b),
    }
}

/// The long result of `a op b`, with the same rules at 64 bits.
pub open spec fn long_op(op: BinOp, a: i64, b: i64) -> Option<i64> {
    match op {
        BinOp::Add => Some(a.wrapping_add(b)),
        BinOp::Sub => Some(a.wrapping_sub(b)),
        BinOp::Mul => Some(a.wrapping_mul(b)),
        BinOp::Div => if b == 0 {
            None
        } else {
            Some(match a.checked_div(b) {
                Some(q) => q,
                None => i64::MIN,
            })
        },
        BinOp::Rem => if b == 0 {
            None
        } else {
            Some(match a.checked_rem(b) {
                Some(q) => q,
                None => 0,
            })
        },
        BinOp::And => Some(a & b),
        BinOp::Or => Some(a | b),
        BinOp::Xor => Some(a ^ b),
    }
}

/// An int shift: only the low five bits of the amount count.
pub open spec fn int_shift(op: ShiftOp, v: i32, s: i32) -> i32 {
    let k = (s & 0x1f) as u32;
    match op {
        ShiftOp::Shl => v.wrapping_shl(k),
        ShiftOp::Shr => v.wrapping_shr(k),
        ShiftOp::Ushr => (v as u32).wrapping_shr(k) as i32,
    }
}

/// A long shift: only the low six bits of the amount count.
pub open spec fn long_shift(op: ShiftOp, v: i64, s: i32) -> i64 {
    let k = (s & 0x3f) as u32;
    match op {
        ShiftOp::Shl => v.wrapping_shl(k),
        ShiftOp::Shr => v.wrapping_shr(k),
        ShiftOp::Ushr => (v as u64).wrapping_shr(k) as i64,
    }
}

/// Only the low five bits of an int shift's amount count, and only the low
/// six bits of a long shift's: shifting by `s` is shifting by `s & 0x1f`
/// (int) or `s & 0x3f` (long).
pub proof fn lemma_shift_amount_masked(op: ShiftOp, v: i32, w: i64, s: i32)
    ensures
        int_shift(op, v, s) == int_shift(op, v, s & 0x1f),
        long_shift(op, w, s) == long_shift(op, w, s & 0x3f),
{
    assert((s & 0x1f) & 0x1f == s & 0x1f) by (bit_vector);
    assert((s & 0x3f) & 0x3f == s & 0x3f) by (bit_vector);
}

/// Int operations with one operand.
#[derive(Debug, Clone, Copy, PartialEq, Eq, Structural)]
pub enum UnaryOp {
    Neg,
    ToByte,
    ToChar,
    ToShort,
    /// Flips the sign bit of a float's bits: IEEE 754 negation.
    FloatNeg,
}

pub open spec fn int_unary(op: UnaryOp, v: i32) -> i32 {
    match op {
        UnaryOp::Neg => 0i32.wrapping_sub(v),
        UnaryOp::ToByte => v as i8 as i32,
        UnaryOp::ToChar => v as u16 as i32,
        UnaryOp::ToShort => v as i16 as i32,
        UnaryOp::FloatNeg => v ^ i32::MIN,
    }
}

/// Long negation; with `double` set, IEEE 754 negation of a double's bits.
pub open spec fn long_unary(double: bool, v: i64) -> i64 {
    if double { v ^ i64::MIN } else { 0i64.wrapping_sub(v) }
}

pub open spec fn holds(c: Cond, a: int, b: int) -> bool {
    match c {
        Cond::Eq => a == b,
        Cond::Ne => a != b,
        Cond::Lt => a < b,
        Cond::Ge => a >= b,
        Cond::Gt => a > b,
        Cond::Le => a <= b,
    }
}

/// -1, 0 or 1 as `a` is below, equal to or above `b`.
pub open spec fn sign_cmp(a: int, b: int) -> i32 {
    if a > b { 1i32 } else if a == b { 0i32 } else { -1i32 }
}

/// Whether the IEEE 754 single-precision bits `b` encode a NaN.
pub open spec fn float_is_nan(b: u32) -> bool {
    b & 0x7f80_0000 == 0x7f80_0000 && b & 0x007f_ffff != 0
}

/// Whether the IEEE 754 double-precision bits `b` encode a NaN.
pub open spec fn double_is_nan(b: u64) -> bool {
    b & 0x7ff0_0000_0000_0000 == 0x7ff0_0000_0000_0000 && b & 0x000f_ffff_ffff_ffff != 0
}

/// A key that orders non-NaN single-precision values as the reals they
/// denote, with both zeros equal: the magnitude bits, negated when the sign
/// bit is set.
pub open spec fn float_key(b: u32) -> int {
    if b & 0x8000_0000 != 0 { -((b & 0x7fff_ffff) as int) } else { (b & 0x7fff_ffff) as int }
}

/// The same key for double-precision values.
pub open spec fn double_key(b: u64) -> int {
    if b & 0x8000_0000_0000_0000 != 0 {
        -((b & 0x7fff_ffff_ffff_ffff) as int)
    } else {
        (b & 0x7fff_ffff_ffff_ffff) as int
    }
}

/// The result of comparing float `a` with float `b`: `nan_result` when
/// either is NaN, else -1, 0 or 1.
pub open spec fn float_cmp(nan_result: i32, a: u32, b: u32) -> i32 {
    if float_is_nan(a) || float_is_nan(b) { nan_result } else { sign_cmp(float_key(a), float_key(b)) }
}

pub open spec fn double_cmp(nan_result: i32, a: u64, b: u64) -> i32 {
    if double_is_nan(a) || double_is_nan(b) { nan_result } else { sign_cmp(double_key(a), double_key(b)) }
}

/// What an instruction does to a frame: its operand stack, its locals, the
/// branch target if it branches, and how control goes on.
pub type Effect = (Seq<Slot>, Seq<Slot>, Option<i32>, Outcome);

/// The int `k` slots below the top of `st` (0 is the top).
pub open spec fn int_at(st: Seq<Slot>, k: int) -> i32 {
    st[st.len() - 1 - k].num
}

/// The long whose high word is `k` slots below the top of `st`.
pub open spec fn long_at(st: Seq<Slot>, k: int) -> i64 {
    join_words(st[st.len() - 2 - k].num, st[st.len() - 1 - k].num)
}

/// `st` with its top `n` slots removed.
pub open spec fn drop(st: Seq<Slot>, n: int) -> Seq<Slot> {
    st.subrange(0, st.len() - n)
}

pub open spec fn push_long(st: Seq<Slot>, v: i64) -> Seq<Slot> {
    st.push(num_slot(low_word(v))).push(num_slot(high_word(v)))
}

/// Leaves the stack as `st` with locals `lv`, and goes on.
pub open spec fn next(st: Seq<Slot>, lv: Seq<Slot>) -> Result<Effect, ExecError> {
    Ok((st, lv, None, Outcome::Next))
}

/// Pushes `items` (one or two slots) onto `st`.
pub open spec fn push_effect(st: Seq<Slot>, lv: Seq<Slot>, cap: nat, items: Seq<Slot>) -> Result<Effect, ExecError> {
    if st.len() + items.len() > cap {
        Err(ExecError::StackOverflow)
    } else {
        next(st + items, lv)
    }
}

/// Pushes a copy of `width` locals starting at `index`.
pub open spec fn load_effect(st: Seq<Slot>, lv: Seq<Slot>, cap: nat, index: u16, width: int) -> Result<Effect, ExecError> {
    if index + width > lv.len() {
        Err(ExecError::BadLocalIndex(index))
    } else {
        push_effect(st, lv, cap, lv.subrange(index as int, index + width))
    }
}

/// Pops `width` slots into the locals starting at `index`.
pub open spec fn store_effect(st: Seq<Slot>, lv: Seq<Slot>, index: u16, width: int) -> Result<Effect, ExecError> {
    if st.len() < width {
        Err(ExecError::EmptyStackPop)
    } else if index + width > lv.len() {
        Err(ExecError::BadLocalIndex(index))
    } else if width == 1 {
        next(drop(st, 1), lv.update(index as int, st.last()))
    } else {
        next(drop(st, 2), lv.update(index as int, st[st.len() - 2]).update(index + 1, st.last()))
    }
}

/// Pops `n` slots and pushes back the popped slots that `order` names, from
/// the bottom up; 0 names the slot that was on top.
pub open spec fn shuffle_effect(st: Seq<Slot>, lv: Seq<Slot>, cap: nat, n: int, order: Seq<int>) -> Result<Effect, ExecError> {
    if st.len() < n {
        Err(ExecError::EmptyStackPop)
    } else if st.len() - n + order.len() > cap {
        Err(ExecError::StackOverflow)
    } else {
        next(drop(st, n) + Seq::new(order.len(), |k: int| st[st.len() - 1 - order[k]]), lv)
    }
}

pub open spec fn int_binary_effect(st: Seq<Slot>, lv: Seq<Slot>, op: BinOp) -> Result<Effect, ExecError> {
    if st.len() < 2 {
        Err(ExecError::EmptyStackPop)
    } else {
        match int_op(op, int_at(st, 1), int_at(st, 0)) {
            None => Err(ExecError::DivisionByZero),
            Some(v) => next(drop(st, 2).push(num_slot(v)), lv),
        }
    }
}

pub open spec fn long_binary_effect(st: Seq<Slot>, lv: Seq<Slot>, op: BinOp) -> Result<Effect, ExecError> {
    if st.len() < 4 {
        Err(ExecError::EmptyStackPop)
    } else {
        match long_op(op, long_at(st, 2), long_at(st, 0)) {
            None => Err(ExecError::DivisionByZero),
            Some(v) => next(push_long(drop(st, 4), v), lv),
        }
    }
}

pub open spec fn int_shift_effect(st: Seq<Slot>, lv: Seq<Slot>, op: ShiftOp) -> Result<Effect, ExecError> {
    if st.len() < 2 {
        Err(ExecError::EmptyStackPop)
    } else {
        next(drop(st, 2).push(num_slot(int_shift(op, int_at(st, 1), int_at(st, 0)))), lv)
    }
}

pub open spec fn long_shift_effect(st: Seq<Slot>, lv: Seq<Slot>, op: ShiftOp) -> Result<Effect, ExecError> {
    if st.len() < 3 {
        Err(ExecError::EmptyStackPop)
    } else {
        next(push_long(drop(st, 3), long_shift(op, long_at(st, 1), int_at(st, 0))), lv)
    }
}

pub open spec fn int_unary_effect(st: Seq<Slot>, lv: Seq<Slot>, op: UnaryOp) -> Result<Effect, ExecError> {
    if st.len() < 1 {
        Err(ExecError::EmptyStackPop)
    } else {
        next(drop(st, 1).push(num_slot(int_unary(op, int_at(st, 0)))), lv)
    }
}

pub open spec fn long_unary_effect(st: Seq<Slot>, lv: Seq<Slot>, double: bool) -> Result<Effect, ExecError> {
    if st.len() < 2 {
        Err(ExecError::EmptyStackPop)
    } else {
        next(push_long(drop(st, 2), long_unary(double, long_at(st, 0))), lv)
    }
}

/// Widens the int on top to a long.
pub open spec fn i2l_effect(st: Seq<Slot>, lv: Seq<Slot>, cap: nat) -> Result<Effect, ExecError> {
    if st.len() < 1 {
        Err(ExecError::EmptyStackPop)
    } else if st.len() + 1 > cap {
        Err(ExecError::StackOverflow)
    } else {
        next(push_long(drop(st, 1), int_at(st, 0) as i64), lv)
    }
}

/// Narrows the long on top to its low word.
pub open spec fn l2i_effect(st: Seq<Slot>, lv: Seq<Slot>) -> Result<Effect, ExecError> {
    if st.len() < 2 {
        Err(ExecError::EmptyStackPop)
    } else {
        next(drop(st, 2).push(num_slot(long_at(st, 0) as i32)), lv)
    }
}

pub open spec fn lcmp_effect(st: Seq<Slot>, lv: Seq<Slot>) -> Result<Effect, ExecError> {
    if st.len() < 4 {
        Err(ExecError::EmptyStackPop)
    } else {
        next(drop(st, 4).push(num_slot(sign_cmp(long_at(st, 2) as int, long_at(st, 0) as int))), lv)
    }
}

pub open spec fn fcmp_effect(st: Seq<Slot>, lv: Seq<Slot>, nan_result: i32) -> Result<Effect, ExecError> {
    if st.len() < 2 {
        Err(ExecError::EmptyStackPop)
    } else {
        next(drop(st, 2).push(num_slot(float_cmp(nan_result, int_at(st, 1) as u32, int_at(st, 0) as u32))), lv)
    }
}

pub open spec fn dcmp_effect(st: Seq<Slot>, lv: Seq<Slot>, nan_result: i32) -> Result<Effect, ExecError> {
    if st.len() < 4 {
        Err(ExecError::EmptyStackPop)
    } else {
        next(drop(st, 4).push(num_slot(double_cmp(nan_result, long_at(st, 2) as u64, long_at(st, 0) as u64))), lv)
    }
}

/// The target of a branch at `pc` by `offset`: the branch opcode's own
/// address plus the offset.
pub open spec fn branch_target(pc: i32, offset: i32) -> Result<i32, ExecError> {
    if i32::MIN <= pc + offset <= i32::MAX {
        Ok((pc + offset) as i32)
    } else {
        Err(ExecError::BadBranchTarget(offset))
    }
}

/// Leaves the stack as `st`, and branches by `offset` when `taken`.
pub open spec fn branch_if(st: Seq<Slot>, lv: Seq<Slot>, pc: i32, offset: i32, taken: bool) -> Result<Effect, ExecError> {
    if !taken {
        next(st, lv)
    } else {
        match branch_target(pc, offset) {
            Ok(t) => Ok((st, lv, Some(t), Outcome::Next)),
            Err(e) => Err(e),
        }
    }
}

pub open spec fn if_int_effect(st: Seq<Slot>, lv: Seq<Slot>, pc: i32, c: Cond, offset: i32) -> Result<Effect, ExecError> {
    if st.len() < 1 {
        Err(ExecError::EmptyStackPop)
    } else {
        branch_if(drop(st, 1), lv, pc, offset, holds(c, int_at(st, 0) as int, 0))
    }
}

pub open spec fn if_icmp_effect(st: Seq<Slot>, lv: Seq<Slot>, pc: i32, c: Cond, offset: i32) -> Result<Effect, ExecError> {
    if st.len() < 2 {
        Err(ExecError::EmptyStackPop)
    } else {
        branch_if(drop(st, 2), lv, pc, offset, holds(c, int_at(st, 1) as int, int_at(st, 0) as int))
    }
}

pub open spec fn if_acmp_effect(st: Seq<Slot>, lv: Seq<Slot>, pc: i32, equal: bool, offset: i32) -> Result<Effect, ExecError> {
    if st.len() < 2 {
        Err(ExecError::EmptyStackPop)
    } else {
        branch_if(drop(st, 2), lv, pc, offset, (st[st.len() - 2].reference == st.last().reference) == equal)
    }
}

pub open spec fn if_null_effect(st: Seq<Slot>, lv: Seq<Slot>, pc: i32, null: bool, offset: i32) -> Result<Effect, ExecError> {
    if st.len() < 1 {
        Err(ExecError::EmptyStackPop)
    } else {
        branch_if(drop(st, 1), lv, pc, offset, st.last().reference.is_none() == null)
    }
}

/// The offset a table switch takes for `key`.
pub open spec fn table_offset(default_offset: i32, low: i32, high: i32, jump_offsets: Seq<i32>, key: i32) -> i32 {
    if low <= key <= high && key - low < jump_offsets.len() {
        jump_offsets[key - low]
    } else {
        default_offset
    }
}

/// The offset paired with the first match of `key` among the (match, offset)
/// pairs of `pairs` from pair `k` on, if any.
pub open spec fn lookup_from(pairs: Seq<i32>, key: i32, k: int) -> Option<i32>
    decreases pairs.len() - 2 * k,
{
    if k < 0 || 2 * k + 1 >= pairs.len() {
        None
    } else if pairs[2 * k] == key {
        Some(pairs[2 * k + 1])
    } else {
        lookup_from(pairs, key, k + 1)
    }
}

/// The offset a lookup switch takes for `key`.
pub open spec fn lookup_offset(default_offset: i32, pairs: Seq<i32>, key: i32) -> i32 {
    match lookup_from(pairs, key, 0) {
        Some(o) => o,
        None => default_offset,
    }
}

/// Pops the key and branches by `offset_of(key)`.
pub open spec fn switch_effect(st: Seq<Slot>, lv: Seq<Slot>, pc: i32, offset: i32) -> Result<Effect, ExecError> {
    branch_if(drop(st, 1), lv, pc, offset, true)
}

pub open spec fn iinc_effect(st: Seq<Slot>, lv: Seq<Slot>, index: u16, delta: i16) -> Result<Effect, ExecError> {
    if index >= lv.len() {
        Err(ExecError::BadLocalIndex(index))
    } else {
        next(st, lv.update(index as int, num_slot(lv[index as int].num.wrapping_add(delta as i32))))
    }
}

/// Pops `width` slots and returns `v` from the method.
pub open spec fn return_effect(st: Seq<Slot>, lv: Seq<Slot>, width: int, v: ReturnValue) -> Result<Effect, ExecError> {
    if st.len() < width {
        Err(ExecError::EmptyStackPop)
    } else {
        Ok((drop(st, width), lv, None, Outcome::Return(v)))
    }
}

/// Pops the key and branches by the table switch's offset for it.
pub open spec fn table_switch_effect(st: Seq<Slot>, lv: Seq<Slot>, pc: i32, default_offset: i32, low: i32, high: i32, jump_offsets: Seq<i32>) -> Result<Effect, ExecError> {
    if st.len() < 1 {
        Err(ExecError::EmptyStackPop)
    } else {
        switch_effect(st, lv, pc, table_offset(default_offset, low, high, jump_offsets, int_at(st, 0)))
    }
}

/// Pops the key and branches by the lookup switch's offset for it.
pub open spec fn lookup_switch_effect(st: Seq<Slot>, lv: Seq<Slot>, pc: i32, default_offset: i32, pairs: Seq<i32>) -> Result<Effect, ExecError> {
    if st.len() < 1 {
        Err(ExecError::EmptyStackPop)
    } else {
        switch_effect(st, lv, pc, lookup_offset(default_offset, pairs, int_at(st, 0)))
    }
}

/// Hands a floating-point operation to the host, leaving the frame as it is.
pub open spec fn host_effect(st: Seq<Slot>, lv: Seq<Slot>, op: FloatOp) -> Result<Effect, ExecError> {
    Ok((st, lv, None, Outcome::Host(op)))
}

/// The operand stack rearrangements.
#[derive(Debug, Clone, Copy, PartialEq, Eq, Structural)]
pub enum StackOp {
    Pop,
    Pop2,
    Dup,
    DupX1,
    DupX2,
    Dup2,
    Dup2X1,
    Dup2X2,
    Swap,
}

/// Each rearrangement as the number of slots it pops and the popped slots it
/// pushes back, from the bottom up (0 is the slot that was on top).
pub open spec fn stack_op_effect(st: Seq<Slot>, lv: Seq<Slot>, cap: nat, op: StackOp) -> Result<Effect, ExecError> {
    match op {
        StackOp::Pop => shuffle_effect(st, lv, cap, 1, seq![]),
        StackOp::Pop2 => shuffle_effect(st, lv, cap, 2, seq![]),
        StackOp::Dup => shuffle_effect(st, lv, cap, 1, seq![0, 0]),
        StackOp::DupX1 => shuffle_effect(st, lv, cap, 2, seq![0, 1, 0]),
        StackOp::DupX2 => shuffle_effect(st, lv, cap, 3, seq![0, 2, 1, 0]),
        StackOp::Dup2 => shuffle_effect(st, lv, cap, 2, seq![1, 0, 1, 0]),
        StackOp::Dup2X1 => shuffle_effect(st, lv, cap, 3, seq![1, 0, 2, 1, 0]),
        StackOp::Dup2X2 => shuffle_effect(st, lv, cap, 4, seq![1, 0, 3, 2, 1, 0]),
        StackOp::Swap => shuffle_effect(st, lv, cap, 2, seq![0, 1]),
    }
}

/// Which kind of value a return instruction hands back.
#[derive(Debug, Clone, Copy, PartialEq, Eq, Structural)]
pub enum ReturnKind {
    Void,
    Int,
    Long,
    Float,
    Double,
    Reference,
}

pub open spec fn return_of(st: Seq<Slot>, lv: Seq<Slot>, kind: ReturnKind) -> Result<Effect, ExecError> {
    match kind {
        ReturnKind::Void => return_effect(st, lv, 0, ReturnValue::Void),
        ReturnKind::Int => return_effect(st, lv, 1, ReturnValue::Int(int_at(st, 0))),
        ReturnKind::Float => return_effect(st, lv, 1, ReturnValue::Float(int_at(st, 0) as u32)),
        ReturnKind::Reference => return_effect(st, lv, 1, ReturnValue::Reference(st.last().reference)),
        ReturnKind::Long => return_effect(st, lv, 2, ReturnValue::Long(long_at(st, 0))),
        ReturnKind::Double => return_effect(st, lv, 2, ReturnValue::Double(long_at(st, 0) as u64)),
    }
}

/// The frame after an executor ran: `r` and the new stack, locals and next
/// program counter are what `e` gives; on an error the frame is left as it
/// was. It is opaque, so that the contracts of
/// the many executors stay cheap to combine: `reveal(applied)` to read it.
#[verifier::opaque]
pub open spec fn applied(before: Frame, after: Frame, r: Result<Outcome, ExecError>, e: Result<Effect, ExecError>) -> bool {
    &&& after.wf()
    &&& after.operand_stack.capacity() == before.operand_stack.capacity()
    &&& match e {
        Ok((st, lv, jump, out)) => {
            &&& r == Ok::<Outcome, ExecError>(out)
            &&& after.operand_stack@ == st
            &&& after.local_vars@ == lv
            &&& after.next_pc == match jump {
                Some(t) => t,
                None => before.next_pc,
            }
        },
        Err(err) => {
            &&& r == Err::<Outcome, ExecError>(err)
            &&& after.operand_stack@ == before.operand_stack@
            &&& after.local_vars@ == before.local_vars@
            &&& after.next_pc == before.next_pc
        },
    }
}

} // verus!
