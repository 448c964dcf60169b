use vstd::prelude::*;

verus! {

/// Why a class file could not be decoded. Any of these aborts the whole load.
#[derive(Debug, Clone, Copy, PartialEq, Eq, Structural)]
pub enum DecodeError {
    /// A constant pool entry carries a tag that the format does not define.
    UnknownConstantTag(u8),
    /// A read went past the end of the input, or past the end of an attribute's body.
    TruncatedInput,
    /// A pool index does not name an entry of the expected kind.
    UnresolvedPoolReference(u16),
    /// Code attributes are nested deeper than the decoder allows.
    NestingTooDeep,
}

/// Why the interpreter stopped with a fault. Each one is fatal to the running thread.
#[derive(Debug, Clone, Copy, PartialEq, Eq, Structural)]
pub enum ExecError {
    /// A frame or an operand was pushed onto a stack that is full.
    StackOverflow,
    /// A frame or an operand was popped from an empty stack.
    EmptyStackPop,
    /// An integer or long division or remainder by zero.
    DivisionByZero,
    /// The byte at the program counter is not an opcode this interpreter knows.
    UnknownOpcode(u8),
    /// An instruction's operands run past the end of the method's code.
    TruncatedCode,
    /// A local-variable index lies outside the frame's slots.
    BadLocalIndex(u16),
    /// A branch target lies outside the method's code.
    BadBranchTarget(i32),
}

} // verus!
