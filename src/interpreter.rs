use vstd::prelude::*;

use crate::attribute::AttributeInfo;
use crate::bytecode_reader::BytecodeReader;
use crate::classfile::MethodInfo;
use crate::error::ExecError;
use crate::instructions::{effect, known_opcode, new_instruction, opcode_fits, opcode_of, operands_read, Instruction};
use crate::runtime::{num_slot, Frame, Thread};
use crate::semantics::{applied, Effect, FloatOp, Outcome, ReturnValue};

verus! {

/// What one fetch-execute step did.
#[derive(Debug, Clone, Copy, PartialEq, Eq, Structural)]
pub enum Step {
    /// The program counter reached the end of the code: the method halts.
    EndOfCode,
    /// One instruction ran, with this outcome.
    Executed(Outcome),
}

/// Why a run stopped.
#[derive(Debug, Clone, Copy, PartialEq, Eq, Structural)]
pub enum Stop {
    Returned(ReturnValue),
    EndOfCode,
    /// The host must perform this operation on the top frame, then run again.
    Host(FloatOp),
    /// The step budget ran out.
    OutOfSteps,
}

/// One method activation being interpreted: its thread and its code.
pub struct Interpreter {
    pub thread: Thread,
    pub reader: BytecodeReader,
}

/// Whether `method` has a Code attribute.
pub open spec fn has_code(method: &MethodInfo) -> bool {
    exists|k: int| 0 <= k < method.attribute_info@.len() && (#[trigger] method.attribute_info@[k] is CodeAttribute)
}

/// The Code attribute's stack size, locals and code, if `method` has one.
pub fn code_of(method: &MethodInfo) -> (r: Option<(u16, u16, Vec<u8>)>)
    ensures
        r matches Some(c) ==> exists|k: int| 0 <= k < method.attribute_info@.len()
            && (forall|j: int| 0 <= j < k ==> !(method.attribute_info@[j] is CodeAttribute))
            && (#[trigger] method.attribute_info@[k] matches AttributeInfo::CodeAttribute { max_stacks, max_locals, code, .. }
                && max_stacks == c.0 && max_locals == c.1 && code@ == c.2@),
        r is None ==> forall|k: int| 0 <= k < method.attribute_info@.len()
            ==> !(#[trigger] method.attribute_info@[k] is CodeAttribute),
{
    let mut i: usize = 0;
    while i < method.attribute_info.len()
        invariant
            0 <= i <= method.attribute_info@.len(),
            forall|k: int| 0 <= k < i ==> !(#[trigger] method.attribute_info@[k] is CodeAttribute),
        decreases method.attribute_info@.len() - i,
    {
        match &method.attribute_info[i] {
            AttributeInfo::CodeAttribute { max_stacks, max_locals, code, .. } => {
                return Some((*max_stacks, *max_locals, code.clone()));
            },
            _ => {},
        }
        i = i + 1;
    }
    None
}

/// One fetch-execute step took the interpreter from `before` to `after`
/// with result `r`: the opcode at the top frame's next program counter was
/// decoded with its operands and executed (or the code had ended).
pub open spec fn stepped(before: Interpreter, after: Interpreter, r: Result<Step, ExecError>) -> bool {
    &&& after.wf()
    &&& after.reader.content@ == before.reader.content@
    &&& before.thread.stack@.len() == 0 ==> r == Err::<Step, ExecError>(ExecError::EmptyStackPop)
    &&& before.thread.stack@.len() > 0 ==> ({
        let f = before.thread.stack@.last();
        let code = before.reader.content@;
        let pc = f.next_pc;
        &&& after.thread.pc == pc
        &&& (pc == code.len()) == (r == Ok::<Step, ExecError>(Step::EndOfCode))
        &&& pc == code.len() ==> after.thread.stack@ == before.thread.stack@
        &&& (pc < 0 || pc > code.len()) ==> r == Err::<Step, ExecError>(ExecError::TruncatedCode)
        &&& 0 <= pc < code.len() && pc < i32::MAX && !known_opcode(code[pc as int])
            ==> r == Err::<Step, ExecError>(ExecError::UnknownOpcode(code[pc as int]))
        &&& 0 <= pc < code.len() && pc < i32::MAX && known_opcode(code[pc as int]) && !opcode_fits(code[pc as int], code, pc + 1)
            ==> r is Err && (r->Err_0 == ExecError::TruncatedCode || r->Err_0 is UnknownOpcode)
        &&& 0 <= pc < code.len() && pc < i32::MAX && known_opcode(code[pc as int]) && opcode_fits(code[pc as int], code, pc + 1)
            ==> (r matches Err(e) ==> exists|ins: Instruction, end: int| {
                &&& opcode_of(ins) == code[pc as int]
                &&& #[trigger] operands_read(ins, code, pc + 1, end)
                &&& effect(ins, f.operand_stack@, f.local_vars@, f.operand_stack.capacity(), pc) == Err::<Effect, ExecError>(e)
            })
        &&& r matches Ok(Step::Executed(out)) ==> {
            &&& 0 <= pc < code.len()
            &&& after.thread.stack@.len() == before.thread.stack@.len()
            &&& after.thread.stack@.drop_last() == before.thread.stack@.drop_last()
            &&& exists|ins: Instruction, end: int| {
                &&& opcode_of(ins) == code[pc as int]
                &&& #[trigger] operands_read(ins, code, pc + 1, end)
                &&& applied(Frame { next_pc: end as i32, ..f }, after.thread.stack@.last(), Ok(out),
                    effect(ins, f.operand_stack@, f.local_vars@, f.operand_stack.capacity(), pc))
            }
        }
    })
}

/// Running at most `n` steps from `before` ended in `after` with result `r`:
/// steps that go on (`Executed(Next)`) continue the run, and the first step
/// that does anything else (ends the code, returns, hands over a
/// floating-point operation, or fails) stops it with that result; `n` steps
/// that all go on give `OutOfSteps`.
pub open spec fn ran(before: Interpreter, after: Interpreter, n: nat, r: Result<Stop, ExecError>) -> bool
    decreases n,
{
    if n == 0 {
        r == Ok::<Stop, ExecError>(Stop::OutOfSteps) && after == before
    } else {
        exists|mid: Interpreter, s: Result<Step, ExecError>| #[trigger] stepped(before, mid, s) && match s {
            Ok(Step::Executed(Outcome::Next)) => ran(mid, after, (n - 1) as nat, r),
            Ok(Step::EndOfCode) => r == Ok::<Stop, ExecError>(Stop::EndOfCode) && after == mid,
            Ok(Step::Executed(Outcome::Host(op))) => r == Ok::<Stop, ExecError>(Stop::Host(op)) && after == mid,
            Ok(Step::Executed(Outcome::Return(v))) => r == Ok::<Stop, ExecError>(Stop::Returned(v)) && after == mid,
            Err(e) => r == Err::<Stop, ExecError>(e) && after == mid,
        }
    }
}

/// `it` is the interpreter that `Interpreter::new` makes for `method`: the
/// first Code attribute's code, one frame with its locals and stack sizes, at
/// address 0.
pub open spec fn started(method: &MethodInfo, it: Interpreter) -> bool {
    exists|k: int| 0 <= k < method.attribute_info@.len() && ({
        let a = #[trigger] method.attribute_info@[k];
        &&& a is CodeAttribute
        &&& (forall|j: int| 0 <= j < k ==> !(method.attribute_info@[j] is CodeAttribute))
        &&& it.reader.content@ == a->CodeAttribute_code@
        &&& it.thread.pc == 0
        &&& it.thread.stack@.len() == 1
        &&& it.thread.stack@[0].next_pc == 0
        &&& it.thread.stack@[0].operand_stack@.len() == 0
        &&& it.thread.stack@[0].operand_stack.capacity() == a->CodeAttribute_max_stacks
        &&& it.thread.stack@[0].local_vars@ == Seq::new(a->CodeAttribute_max_locals as nat, |i: int| num_slot(0))
    })
}

impl Interpreter {
    /// Every frame's operand stack is within its capacity, and the call stack
    /// within its own.
    pub open spec fn wf(&self) -> bool {
        &&& self.thread.stack@.len() <= self.thread.stack.capacity()
        &&& forall|k: int| 0 <= k < self.thread.stack@.len() ==> (#[trigger] self.thread.stack@[k]).wf()
    }

    /// The interpreter for `method`'s code, with one frame pushed at address 0;
    /// `None` where the method has no Code attribute.
    pub fn new(method: &MethodInfo) -> (r: Option<Interpreter>)
        ensures
            r is None <==> !has_code(method),
            r matches Some(it) ==> it.wf() && started(method, it),
    {
        match code_of(method) {
            None => None,
            Some((max_stack, max_locals, code)) => {
                let mut thread = Thread::new_thread();
                let frame = Frame::new_frame(max_locals as usize, max_stack as usize);
                let pushed = thread.push_frame(frame);
                match pushed {
                    Ok(()) => Some(Interpreter { thread, reader: BytecodeReader::new(code) }),
                    Err(_) => None,
                }
            },
        }
    }

    /// Runs one fetch-execute step on the top frame: fetch the opcode at the
    /// frame's next program counter (halting where that is the end of the
    /// code), read its operands, then execute it.
    pub fn step(&mut self) -> (r: Result<Step, ExecError>)
        requires
            old(self).wf(),
        ensures
            stepped(*old(self), *final(self), r),
    {
        proof {
            reveal(applied);
        }
        let mut frame = self.thread.pop_frame()?;
        let pc = frame.next_pc;
        self.thread.set_pc(pc);
        if pc >= 0 && pc as usize == self.reader.content.len() {
            self.thread.push_frame(frame)?;
            assert(self.thread.stack@ =~= old(self).thread.stack@);
            return Ok(Step::EndOfCode);
        }
        self.reader.reset(pc);
        let opcode = match self.reader.read_u8() {
            Ok(op) => op,
            Err(e) => {
                self.thread.push_frame(frame)?;
                return Err(e);
            },
        };
        let mut ins = match new_instruction(opcode) {
            Ok(i) => i,
            Err(e) => {
                self.thread.push_frame(frame)?;
                return Err(e);
            },
        };
        let ghost start = self.reader.cursor as int;
        match ins.fetch_operands(&mut self.reader) {
            Ok(()) => {},
            Err(e) => {
                self.thread.push_frame(frame)?;
                return Err(e);
            },
        }
        let ghost end = self.reader.cursor as int;
        frame.next_pc = self.reader.cursor;
        let ghost before = frame;
        let out = ins.execute(&mut frame, pc);
        let ghost after = frame;
        self.thread.push_frame(frame)?;
        assert(self.thread.stack@.drop_last() =~= old(self).thread.stack@.drop_last());
        assert(opcode_of(ins) == self.reader.content@[pc as int]);
        assert(operands_read(ins, self.reader.content@, pc + 1, end));
        let out = out?;
        assert(opcode_of(ins) == self.reader.content@[pc as int]);
        assert(operands_read(ins, self.reader.content@, pc + 1, end));
        Ok(Step::Executed(out))
    }
}

impl Interpreter {
    /// Steps until an instruction returns, the code ends, the host has a
    /// floating-point operation to perform, a step fails, or `max_steps`
    /// steps have run.
    pub fn run(&mut self, max_steps: u64) -> (r: Result<Stop, ExecError>)
        requires
            old(self).wf(),
        ensures
            final(self).wf(),
            ran(*old(self), *final(self), max_steps as nat, r),
    {
        let mut n: u64 = 0;
        while n < max_steps
            invariant
                self.wf(),
                n <= max_steps,
                forall|a: Interpreter, q: Result<Stop, ExecError>| #[trigger] ran(*self, a, (max_steps - n) as nat, q)
                    ==> ran(*old(self), a, max_steps as nat, q),
            decreases max_steps - n,
        {
            let ghost mid = *self;
            let ghost k = (max_steps - n) as nat;
            let st = self.step();
            assert(stepped(mid, *self, st));
            let st = match st {
                Ok(x) => x,
                Err(e) => {
                    assert(ran(mid, *self, k, Err(e)));
                    return Err(e);
                },
            };
            match st {
                Step::EndOfCode => {
                    assert(ran(mid, *self, k, Ok(Stop::EndOfCode)));
                    return Ok(Stop::EndOfCode);
                },
                Step::Executed(Outcome::Next) => {},
                Step::Executed(Outcome::Host(op)) => {
                    assert(ran(mid, *self, k, Ok(Stop::Host(op))));
                    return Ok(Stop::Host(op));
                },
                Step::Executed(Outcome::Return(v)) => {
                    assert(ran(mid, *self, k, Ok(Stop::Returned(v))));
                    return Ok(Stop::Returned(v));
                },
            }
            n = n + 1;
            proof {
                assert forall|a: Interpreter, q: Result<Stop, ExecError>| #[trigger] ran(*self, a, (max_steps - n) as nat, q)
                    implies ran(*old(self), a, max_steps as nat, q) by {
                    assert((max_steps - n) as nat == (k - 1) as nat);
                    assert(stepped(mid, *self, Ok(Step::Executed(Outcome::Next))));
                    assert(ran(mid, a, k, q));
                }
            }
        }
        assert(ran(*self, *self, (max_steps - n) as nat, Ok(Stop::OutOfSteps)));
        Ok(Stop::OutOfSteps)
    }
}

/// Interprets `method`'s code from address 0 in a fresh thread, for at most
/// `max_steps` steps. A method without a Code attribute halts at once.
pub fn interpret(method: &MethodInfo, max_steps: u64) -> (r: Result<Stop, ExecError>)
    ensures
        !has_code(method) ==> r == Ok::<Stop, ExecError>(Stop::EndOfCode),
        has_code(method) ==> exists|it: Interpreter, after: Interpreter| started(method, it) && #[trigger] ran(it, after, max_steps as nat, r),
{
    match Interpreter::new(method) {
        None => Ok(Stop::EndOfCode),
        Some(mut it) => {
            let ghost start = it;
            let r = it.run(max_steps);
            assert(ran(start, it, max_steps as nat, r));
            r
        },
    }
}

} // verus!
