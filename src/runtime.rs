use vstd::prelude::*;

use crate::error::ExecError;

verus! {

/// A heap object. This core has no heap yet, so an object carries no data.
#[derive(Clone, Copy, Debug, PartialEq, Eq, Structural)]
pub struct Object {}

/// A 32-bit cell: numeric bits (an int, a float, or one half of a long or
/// double) or an object reference. The reader must know which it holds.
#[derive(Clone, Copy, Debug, PartialEq, Eq, Structural)]
pub struct Slot {
    pub num: i32,
    pub reference: Option<Object>,
}

/// The slot that holds the bits `v` and no reference.
pub open spec fn num_slot(v: i32) -> Slot {
    Slot { num: v, reference: None }
}

/// The slot that holds reference `r`.
pub open spec fn ref_slot(r: Option<Object>) -> Slot {
    Slot { num: 0, reference: r }
}

/// The low word of a 64-bit value: stored first.
pub open spec fn low_word(v: i64) -> i32 {
    v as i32
}

/// The high word of a 64-bit value: stored second.
pub open spec fn high_word(v: i64) -> i32 {
    (v >> 32u64) as i32
}

/// The 64-bit value whose words are `lo` and `hi`.
pub open spec fn join_words(lo: i32, hi: i32) -> i64 {
    (((hi as i64) << 32u64) | ((lo as u32) as i64)) as i64
}

/// Splitting a 64-bit value into two words and joining them gives it back.
pub proof fn lemma_words_round_trip(v: i64)
    ensures
        join_words(low_word(v), high_word(v)) == v,
{
    assert((((((v >> 32u64) as i32) as i64) << 32u64) | (((v as i32) as u32) as i64)) as i64 == v) by (bit_vector);
}

/// Pushing an int, a float, a long, a double and a null reference onto any
/// stack, then popping them in reverse order, gives back the same bits at each
/// step and the stack as it was: each `pop_*` of `OperandStack` reads exactly
/// these slots.
pub proof fn lemma_push_pop_round_trip(st: Seq<Slot>, i: i32, f: u32, l: i64, d: u64)
    ensures
        ({
            let s1 = st.push(num_slot(i));
            let s2 = s1.push(num_slot(f as i32));
            let s3 = s2.push(num_slot(low_word(l))).push(num_slot(high_word(l)));
            let s4 = s3.push(num_slot(low_word(d as i64))).push(num_slot(high_word(d as i64)));
            let s5 = s4.push(ref_slot(None));
            &&& s5.last().reference == None::<Object>
            &&& s5.drop_last() == s4
            &&& join_words(s4[s4.len() - 2].num, s4.last().num) as u64 == d
            &&& s4.subrange(0, s4.len() - 2) == s3
            &&& join_words(s3[s3.len() - 2].num, s3.last().num) == l
            &&& s3.subrange(0, s3.len() - 2) == s2
            &&& s2.last().num as u32 == f
            &&& s2.drop_last() == s1
            &&& s1.last().num == i
            &&& s1.drop_last() == st
        }),
{
    let s1 = st.push(num_slot(i));
    let s2 = s1.push(num_slot(f as i32));
    let s3 = s2.push(num_slot(low_word(l))).push(num_slot(high_word(l)));
    let s4 = s3.push(num_slot(low_word(d as i64))).push(num_slot(high_word(d as i64)));
    let s5 = s4.push(ref_slot(None));
    lemma_words_round_trip(l);
    lemma_words_round_trip(d as i64);
    assert((d as i64) as u64 == d) by (bit_vector);
    assert((f as i32) as u32 == f) by (bit_vector);
    assert(s5.drop_last() =~= s4);
    assert(s4.subrange(0, s4.len() - 2) =~= s3);
    assert(s3.subrange(0, s3.len() - 2) =~= s2);
    assert(s2.drop_last() =~= s1);
    assert(s1.drop_last() =~= st);
}

impl Slot {
    pub fn new_slot() -> (r: Slot)
        ensures
            r == num_slot(0),
    {
        Slot { num: 0, reference: None }
    }
}

/// The operand stack of one frame: a bounded LIFO of slots.
pub struct OperandStack {
    slots: Vec<Slot>,
    max_size: usize,
}

impl View for OperandStack {
    type V = Seq<Slot>;

    closed spec fn view(&self) -> Seq<Slot> {
        self.slots@
    }
}

impl OperandStack {
    /// How many slots the stack may hold.
    pub closed spec fn capacity(&self) -> nat {
        self.max_size as nat
    }

    pub open spec fn wf(&self) -> bool {
        self@.len() <= self.capacity()
    }

    /// Whether `n` more slots fit.
    pub open spec fn room(&self, n: int) -> bool {
        self@.len() + n <= self.capacity()
    }

    pub fn new_operand_stack(max_stack: usize) -> (r: OperandStack)
        ensures
            r.wf(),
            r@ == Seq::<Slot>::empty(),
            r.capacity() == max_stack,
    {
        OperandStack { slots: Vec::new(), max_size: max_stack }
    }

    /// How many more slots fit.
    pub fn free(&self) -> (r: usize)
        requires
            self.wf(),
        ensures
            r == self.capacity() - self@.len(),
            self.capacity() <= usize::MAX,
    {
        self.max_size - self.slots.len()
    }

    /// The slot `k` places below the top (0 is the top).
    pub fn peek(&self, k: usize) -> (r: Slot)
        requires
            k < self@.len(),
        ensures
            r == self@[self@.len() - 1 - k],
    {
        self.slots[self.slots.len() - 1 - k]
    }

    pub fn size(&self) -> (r: usize)
        ensures
            r == self@.len(),
    {
        self.slots.len()
    }

    pub fn push_slot(&mut self, value: Slot) -> (r: Result<(), ExecError>)
        requires
            old(self).wf(),
        ensures
            final(self).wf(),
            final(self).capacity() == old(self).capacity(),
            old(self).room(1) ==> r is Ok && final(self)@ == old(self)@.push(value),
            !old(self).room(1) ==> r == Err::<(), ExecError>(ExecError::StackOverflow) && final(self)@ == old(self)@,
    {
        if self.slots.len() >= self.max_size {
            return Err(ExecError::StackOverflow);
        }
        self.slots.push(value);
        Ok(())
    }

    pub fn pop_slot(&mut self) -> (r: Result<Slot, ExecError>)
        requires
            old(self).wf(),
        ensures
            final(self).wf(),
            final(self).capacity() == old(self).capacity(),
            old(self)@.len() > 0 ==> r == Ok::<Slot, ExecError>(old(self)@.last())
                && final(self)@ == old(self)@.drop_last(),
            old(self)@.len() == 0 ==> r == Err::<Slot, ExecError>(ExecError::EmptyStackPop) && final(self)@ == old(self)@,
    {
        match self.slots.pop() {
            Some(s) => Ok(s),
            None => Err(ExecError::EmptyStackPop),
        }
    }

    pub fn push_int(&mut self, value: i32) -> (r: Result<(), ExecError>)
        requires
            old(self).wf(),
        ensures
            final(self).wf(),
            final(self).capacity() == old(self).capacity(),
            old(self).room(1) ==> r is Ok && final(self)@ == old(self)@.push(num_slot(value)),
            !old(self).room(1) ==> r == Err::<(), ExecError>(ExecError::StackOverflow) && final(self)@ == old(self)@,
    {
        self.push_slot(Slot { num: value, reference: None })
    }

    pub fn pop_int(&mut self) -> (r: Result<i32, ExecError>)
        requires
            old(self).wf(),
        ensures
            final(self).wf(),
            final(self).capacity() == old(self).capacity(),
            old(self)@.len() > 0 ==> r == Ok::<i32, ExecError>(old(self)@.last().num)
                && final(self)@ == old(self)@.drop_last(),
            old(self)@.len() == 0 ==> r == Err::<i32, ExecError>(ExecError::EmptyStackPop) && final(self)@ == old(self)@,
    {
        let s = self.pop_slot()?;
        Ok(s.num)
    }

    /// Pushes the IEEE 754 bits of a float.
    pub fn push_float(&mut self, bits: u32) -> (r: Result<(), ExecError>)
        requires
            old(self).wf(),
        ensures
            final(self).wf(),
            final(self).capacity() == old(self).capacity(),
            old(self).room(1) ==> r is Ok && final(self)@ == old(self)@.push(num_slot(bits as i32)),
            !old(self).room(1) ==> r == Err::<(), ExecError>(ExecError::StackOverflow) && final(self)@ == old(self)@,
    {
        self.push_int(bits as i32)
    }

    /// Pops the IEEE 754 bits of a float.
    pub fn pop_float(&mut self) -> (r: Result<u32, ExecError>)
        requires
            old(self).wf(),
        ensures
            final(self).wf(),
            final(self).capacity() == old(self).capacity(),
            old(self)@.len() > 0 ==> r == Ok::<u32, ExecError>(old(self)@.last().num as u32)
                && final(self)@ == old(self)@.drop_last(),
            old(self)@.len() == 0 ==> r == Err::<u32, ExecError>(ExecError::EmptyStackPop) && final(self)@ == old(self)@,
    {
        let v = self.pop_int()?;
        Ok(v as u32)
    }

    /// Pushes a long as two slots: low word, then high word.
    pub fn push_long(&mut self, value: i64) -> (r: Result<(), ExecError>)
        requires
            old(self).wf(),
        ensures
            final(self).wf(),
            final(self).capacity() == old(self).capacity(),
            old(self).room(2) ==> r is Ok
                && final(self)@ == old(self)@.push(num_slot(low_word(value))).push(num_slot(high_word(value))),
            !old(self).room(2) ==> r == Err::<(), ExecError>(ExecError::StackOverflow) && final(self)@ == old(self)@,
    {
        if self.slots.len() >= self.max_size || self.max_size - self.slots.len() < 2 {
            return Err(ExecError::StackOverflow);
        }
        self.slots.push(Slot { num: #[verifier::truncate] (value as i32), reference: None });
        self.slots.push(Slot { num: #[verifier::truncate] ((value >> 32u64) as i32), reference: None });
        Ok(())
    }

    /// Pops a long stored as two slots: the high word on top, the low word below.
    pub fn pop_long(&mut self) -> (r: Result<i64, ExecError>)
        requires
            old(self).wf(),
        ensures
            final(self).wf(),
            final(self).capacity() == old(self).capacity(),
            old(self)@.len() >= 2 ==> r == Ok::<i64, ExecError>(join_words(
                old(self)@[old(self)@.len() - 2].num,
                old(self)@.last().num,
            )) && final(self)@ == old(self)@.subrange(0, old(self)@.len() - 2),
            old(self)@.len() < 2 ==> r == Err::<i64, ExecError>(ExecError::EmptyStackPop) && final(self)@ == old(self)@,
    {
        if self.slots.len() < 2 {
            return Err(ExecError::EmptyStackPop);
        }
        let high = self.pop_int()?;
        let low = self.pop_int()?;
        Ok(((high as i64) << 32u64) | ((low as u32) as i64))
    }

    /// Pushes the IEEE 754 bits of a double, as a long.
    pub fn push_double(&mut self, bits: u64) -> (r: Result<(), ExecError>)
        requires
            old(self).wf(),
        ensures
            final(self).wf(),
            final(self).capacity() == old(self).capacity(),
            old(self).room(2) ==> r is Ok
                && final(self)@ == old(self)@.push(num_slot(low_word(bits as i64))).push(num_slot(high_word(bits as i64))),
            !old(self).room(2) ==> r == Err::<(), ExecError>(ExecError::StackOverflow) && final(self)@ == old(self)@,
    {
        self.push_long(bits as i64)
    }

    /// Pops the IEEE 754 bits of a double.
    pub fn pop_double(&mut self) -> (r: Result<u64, ExecError>)
        requires
            old(self).wf(),
        ensures
            final(self).wf(),
            final(self).capacity() == old(self).capacity(),
            old(self)@.len() >= 2 ==> r == Ok::<u64, ExecError>(join_words(
                old(self)@[old(self)@.len() - 2].num,
                old(self)@.last().num,
            ) as u64) && final(self)@ == old(self)@.subrange(0, old(self)@.len() - 2),
            old(self)@.len() < 2 ==> r == Err::<u64, ExecError>(ExecError::EmptyStackPop) && final(self)@ == old(self)@,
    {
        let v = self.pop_long()?;
        Ok(v as u64)
    }

    pub fn push_ref(&mut self, value: Option<Object>) -> (r: Result<(), ExecError>)
        requires
            old(self).wf(),
        ensures
            final(self).wf(),
            final(self).capacity() == old(self).capacity(),
            old(self).room(1) ==> r is Ok && final(self)@ == old(self)@.push(ref_slot(value)),
            !old(self).room(1) ==> r == Err::<(), ExecError>(ExecError::StackOverflow) && final(self)@ == old(self)@,
    {
        self.push_slot(Slot { num: 0, reference: value })
    }

    pub fn pop_ref(&mut self) -> (r: Result<Option<Object>, ExecError>)
        requires
            old(self).wf(),
        ensures
            final(self).wf(),
            final(self).capacity() == old(self).capacity(),
            old(self)@.len() > 0 ==> r == Ok::<Option<Object>, ExecError>(old(self)@.last().reference)
                && final(self)@ == old(self)@.drop_last(),
            old(self)@.len() == 0 ==> r == Err::<Option<Object>, ExecError>(ExecError::EmptyStackPop) && final(self)@ == old(self)@,
    {
        let s = self.pop_slot()?;
        Ok(s.reference)
    }
}

/// The local variable slots of one frame; longs and doubles take two.
pub struct LocalVars(Vec<Slot>);

impl View for LocalVars {
    type V = Seq<Slot>;

    closed spec fn view(&self) -> Seq<Slot> {
        self.0@
    }
}

impl LocalVars {
    pub fn new_local_vars(max_size: usize) -> (r: LocalVars)
        ensures
            r@ == Seq::new(max_size as nat, |i: int| num_slot(0)),
    {
        let mut v: Vec<Slot> = Vec::new();
        let mut i: usize = 0;
        while i < max_size
            invariant
                0 <= i <= max_size,
                v@ == Seq::new(i as nat, |k: int| num_slot(0)),
            decreases max_size - i,
        {
            v.push(Slot::new_slot());
            i = i + 1;
            assert(v@ =~= Seq::new(i as nat, |k: int| num_slot(0)));
        }
        LocalVars(v)
    }

    pub fn len(&self) -> (r: usize)
        ensures
            r == self@.len(),
    {
        self.0.len()
    }

    pub fn get_slot(&self, index: usize) -> (r: Slot)
        requires
            index < self@.len(),
        ensures
            r == self@[index as int],
    {
        self.0[index]
    }

    pub fn set_slot(&mut self, index: usize, value: Slot)
        requires
            index < old(self)@.len(),
        ensures
            final(self)@ == old(self)@.update(index as int, value),
    {
        self.0[index] = value;
    }

    pub fn set_int(&mut self, index: usize, value: i32)
        requires
            index < old(self)@.len(),
        ensures
            final(self)@ == old(self)@.update(index as int, num_slot(value)),
    {
        self.set_slot(index, Slot { num: value, reference: None });
    }

    pub fn get_int(&self, index: usize) -> (r: i32)
        requires
            index < self@.len(),
        ensures
            r == self@[index as int].num,
    {
        self.0[index].num
    }

    /// Stores a long in slots `index` (low word) and `index + 1` (high word).
    pub fn set_long(&mut self, index: usize, value: i64)
        requires
            index + 1 < old(self)@.len(),
        ensures
            final(self)@ == old(self)@.update(index as int, num_slot(low_word(value)))
                .update(index + 1, num_slot(high_word(value))),
    {
        let len = self.0.len();
        assert(index + 1 < len);
        self.set_slot(index, Slot { num: #[verifier::truncate] (value as i32), reference: None });
        self.set_slot(index + 1, Slot { num: #[verifier::truncate] ((value >> 32u64) as i32), reference: None });
    }

    pub fn get_long(&self, index: usize) -> (r: i64)
        requires
            index + 1 < self@.len(),
        ensures
            r == join_words(self@[index as int].num, self@[index + 1].num),
    {
        let len = self.0.len();
        assert(index + 1 < len);
        let low = self.0[index].num;
        let high = self.0[index + 1].num;
        ((high as i64) << 32u64) | ((low as u32) as i64)
    }

    pub fn set_ref(&mut self, index: usize, value: Option<Object>)
        requires
            index < old(self)@.len(),
        ensures
            final(self)@ == old(self)@.update(index as int, ref_slot(value)),
    {
        self.set_slot(index, Slot { num: 0, reference: value });
    }

    pub fn get_ref(&self, index: usize) -> (r: Option<Object>)
        requires
            index < self@.len(),
        ensures
            r == self@[index as int].reference,
    {
        self.0[index].reference
    }
}

/// The execution context of one method activation.
pub struct Frame {
    pub local_vars: LocalVars,
    pub operand_stack: OperandStack,
    /// Where execution goes after the current instruction.
    pub next_pc: i32,
}

impl Frame {
    pub open spec fn wf(&self) -> bool {
        self.operand_stack.wf()
    }

    pub fn new_frame(max_local: usize, max_stack: usize) -> (r: Frame)
        ensures
            r.wf(),
            r.local_vars@ == Seq::new(max_local as nat, |i: int| num_slot(0)),
            r.operand_stack@ == Seq::<Slot>::empty(),
            r.operand_stack.capacity() == max_stack,
            r.next_pc == 0,
    {
        Frame {
            local_vars: LocalVars::new_local_vars(max_local),
            operand_stack: OperandStack::new_operand_stack(max_stack),
            next_pc: 0,
        }
    }
}

/// The call stack of one thread: frames in activation order, the last one on top.
/// The frame below a frame is the one before it.
pub struct Stack {
    max_size: usize,
    frames: Vec<Frame>,
}

impl View for Stack {
    type V = Seq<Frame>;

    closed spec fn view(&self) -> Seq<Frame> {
        self.frames@
    }
}

impl Stack {
    pub closed spec fn capacity(&self) -> nat {
        self.max_size as nat
    }

    pub fn new_stack(max_size: usize) -> (r: Stack)
        ensures
            r@ == Seq::<Frame>::empty(),
            r.capacity() == max_size,
    {
        Stack { max_size, frames: Vec::new() }
    }

    pub fn push(&mut self, frame: Frame) -> (r: Result<(), ExecError>)
        ensures
            final(self).capacity() == old(self).capacity(),
            old(self)@.len() < old(self).capacity() ==> r is Ok && final(self)@ == old(self)@.push(frame),
            old(self)@.len() >= old(self).capacity() ==> r == Err::<(), ExecError>(ExecError::StackOverflow)
                && final(self)@ == old(self)@,
    {
        if self.frames.len() >= self.max_size {
            return Err(ExecError::StackOverflow);
        }
        self.frames.push(frame);
        Ok(())
    }

    pub fn pop(&mut self) -> (r: Result<Frame, ExecError>)
        ensures
            final(self).capacity() == old(self).capacity(),
            old(self)@.len() > 0 ==> (r matches Ok(f) && f == old(self)@.last())
                && final(self)@ == old(self)@.drop_last(),
            old(self)@.len() == 0 ==> r is Err && r->Err_0 == ExecError::EmptyStackPop && final(self)@ == old(self)@,
    {
        match self.frames.pop() {
            Some(f) => Ok(f),
            None => Err(ExecError::EmptyStackPop),
        }
    }

    pub fn top(&self) -> (r: Result<&Frame, ExecError>)
        ensures
            self@.len() > 0 ==> (r matches Ok(f) && *f == self@.last()),
            self@.len() == 0 ==> r is Err && r->Err_0 == ExecError::EmptyStackPop,
    {
        if self.frames.len() == 0 {
            return Err(ExecError::EmptyStackPop);
        }
        Ok(&self.frames[self.frames.len() - 1])
    }
}

/// How many frames a thread's call stack holds at most.
pub const MAX_FRAMES: usize = 1024;

/// One interpreter thread: its call stack and the address of the instruction
/// being executed.
pub struct Thread {
    pub pc: i32,
    pub stack: Stack,
}

impl Thread {
    pub fn new_thread() -> (r: Thread)
        ensures
            r.pc == 0,
            r.stack@ == Seq::<Frame>::empty(),
            r.stack.capacity() == MAX_FRAMES,
    {
        Thread { pc: 0, stack: Stack::new_stack(MAX_FRAMES) }
    }

    pub fn pc(&self) -> (r: i32)
        ensures
            r == self.pc,
    {
        self.pc
    }

    pub fn set_pc(&mut self, pc: i32)
        ensures
            final(self).pc == pc,
            final(self).stack == old(self).stack,
    {
        self.pc = pc;
    }

    pub fn push_frame(&mut self, frame: Frame) -> (r: Result<(), ExecError>)
        ensures
            final(self).pc == old(self).pc,
            final(self).stack.capacity() == old(self).stack.capacity(),
            old(self).stack@.len() < old(self).stack.capacity() ==> r is Ok
                && final(self).stack@ == old(self).stack@.push(frame),
            old(self).stack@.len() >= old(self).stack.capacity()
                ==> r == Err::<(), ExecError>(ExecError::StackOverflow) && final(self).stack@ == old(self).stack@,
    {
        self.stack.push(frame)
    }

    pub fn pop_frame(&mut self) -> (r: Result<Frame, ExecError>)
        ensures
            final(self).pc == old(self).pc,
            final(self).stack.capacity() == old(self).stack.capacity(),
            old(self).stack@.len() > 0 ==> (r matches Ok(f) && f == old(self).stack@.last())
                && final(self).stack@ == old(self).stack@.drop_last(),
            old(self).stack@.len() == 0 ==> r is Err && r->Err_0 == ExecError::EmptyStackPop
                && final(self).stack@ == old(self).stack@,
    {
        self.stack.pop()
    }

    pub fn current_frame(&self) -> (r: Result<&Frame, ExecError>)
        ensures
            self.stack@.len() > 0 ==> (r matches Ok(f) && *f == self.stack@.last()),
            self.stack@.len() == 0 ==> r is Err && r->Err_0 == ExecError::EmptyStackPop,
    {
        self.stack.top()
    }
}

} // verus!
