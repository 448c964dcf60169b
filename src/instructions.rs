//! The instruction set: one type per opcode, holding that opcode's operands;
//! decoding in two phases (`new_instruction`, then `fetch_operands`); and
//! execution, whose effect on a frame is stated by `effect`.

use vstd::prelude::*;

use crate::bytecode_reader::{i32_run, padded, BytecodeReader};
use crate::bytes::{be16, be32};
use crate::error::ExecError;
use crate::execute::{
    exec_dcmp, exec_fcmp, exec_goto, exec_i2l, exec_if_acmp, exec_if_icmp, exec_if_int,
    exec_if_null, exec_iinc, exec_int_binary, exec_int_shift, exec_int_unary, exec_l2i, exec_lcmp,
    exec_load, exec_long_binary, exec_long_shift, exec_long_unary, exec_lookup_switch, exec_push,
    exec_push_long, exec_return, exec_stack_op, exec_store, exec_table_switch, exec_host, exec_nop,
};
use crate::runtime::{high_word, low_word, num_slot, ref_slot, Frame, Slot};
use crate::semantics::{
    applied, branch_if, dcmp_effect, fcmp_effect, host_effect, i2l_effect, if_acmp_effect,
    if_icmp_effect, if_int_effect, if_null_effect, iinc_effect, int_binary_effect,
    int_shift_effect, int_unary_effect, l2i_effect, lcmp_effect, load_effect, long_binary_effect,
    long_shift_effect, long_unary_effect, lookup_switch_effect, next, push_effect, return_of,
    stack_op_effect, store_effect, table_switch_effect, BinOp, Cond, Effect, FloatOp,
    Outcome, ReturnKind, ShiftOp, StackOp, UnaryOp, double_is_nan, drop, float_is_nan, int_at, long_at,
};

verus! {

/// The IEEE 754 bits of the float 1.0.
pub const FLOAT_ONE: i32 = 0x3f80_0000;
/// The IEEE 754 bits of the float 2.0.
pub const FLOAT_TWO: i32 = 0x4000_0000;
/// The IEEE 754 bits of the double 1.0.
pub const DOUBLE_ONE: i64 = 0x3ff0_0000_0000_0000;

/// `nop`.
#[derive(Debug, Clone, Copy, PartialEq, Eq)]
pub struct NoOperandsInstruction;

#[derive(Debug, Clone, Copy, PartialEq, Eq)]
pub struct AConstNull;

#[derive(Debug, Clone, Copy, PartialEq, Eq)]
pub struct IConstM1;

#[derive(Debug, Clone, Copy, PartialEq, Eq)]
pub struct IConst0;

#[derive(Debug, Clone, Copy, PartialEq, Eq)]
pub struct IConst1;

#[derive(Debug, Clone, Copy, PartialEq, Eq)]
pub struct IConst2;

#[derive(Debug, Clone, Copy, PartialEq, Eq)]
pub struct IConst3;

#[derive(Debug, Clone, Copy, PartialEq, Eq)]
pub struct IConst4;

#[derive(Debug, Clone, Copy, PartialEq, Eq)]
pub struct IConst5;

#[derive(Debug, Clone, Copy, PartialEq, Eq)]
pub struct LConst0;

#[derive(Debug, Clone, Copy, PartialEq, Eq)]
pub struct LConst1;

#[derive(Debug, Clone, Copy, PartialEq, Eq)]
pub struct FConst0;

#[derive(Debug, Clone, Copy, PartialEq, Eq)]
pub struct FConst1;

#[derive(Debug, Clone, Copy, PartialEq, Eq)]
pub struct FConst2;

#[derive(Debug, Clone, Copy, PartialEq, Eq)]
pub struct DConst0;

#[derive(Debug, Clone, Copy, PartialEq, Eq)]
pub struct DConst1;

#[derive(Debug, Clone, Copy, PartialEq, Eq)]
pub struct BIPush {
    pub value: i8,
}

#[derive(Debug, Clone, Copy, PartialEq, Eq)]
pub struct SIPush {
    pub value: i16,
}

#[derive(Debug, Clone, Copy, PartialEq, Eq)]
pub struct ILoad {
    pub index: u16,
}

#[derive(Debug, Clone, Copy, PartialEq, Eq)]
pub struct LLoad {
    pub index: u16,
}

#[derive(Debug, Clone, Copy, PartialEq, Eq)]
pub struct FLoad {
    pub index: u16,
}

#[derive(Debug, Clone, Copy, PartialEq, Eq)]
pub struct DLoad {
    pub index: u16,
}

#[derive(Debug, Clone, Copy, PartialEq, Eq)]
pub struct ALoad {
    pub index: u16,
}

#[derive(Debug, Clone, Copy, PartialEq, Eq)]
pub struct ILoad0;

#[derive(Debug, Clone, Copy, PartialEq, Eq)]
pub struct ILoad1;

#[derive(Debug, Clone, Copy, PartialEq, Eq)]
pub struct ILoad2;

#[derive(Debug, Clone, Copy, PartialEq, Eq)]
pub struct ILoad3;

#[derive(Debug, Clone, Copy, PartialEq, Eq)]
pub struct LLoad0;

#[derive(Debug, Clone, Copy, PartialEq, Eq)]
pub struct LLoad1;

#[derive(Debug, Clone, Copy, PartialEq, Eq)]
pub struct LLoad2;

#[derive(Debug, Clone, Copy, PartialEq, Eq)]
pub struct LLoad3;

#[derive(Debug, Clone, Copy, PartialEq, Eq)]
pub struct FLoad0;

#[derive(Debug, Clone, Copy, PartialEq, Eq)]
pub struct FLoad1;

#[derive(Debug, Clone, Copy, PartialEq, Eq)]
pub struct FLoad2;

#[derive(Debug, Clone, Copy, PartialEq, Eq)]
pub struct FLoad3;

#[derive(Debug, Clone, Copy, PartialEq, Eq)]
pub struct DLoad0;

#[derive(Debug, Clone, Copy, PartialEq, Eq)]
pub struct DLoad1;

#[derive(Debug, Clone, Copy, PartialEq, Eq)]
pub struct DLoad2;

#[derive(Debug, Clone, Copy, PartialEq, Eq)]
pub struct DLoad3;

#[derive(Debug, Clone, Copy, PartialEq, Eq)]
pub struct ALoad0;

#[derive(Debug, Clone, Copy, PartialEq, Eq)]
pub struct ALoad1;

#[derive(Debug, Clone, Copy, PartialEq, Eq)]
pub struct ALoad2;

#[derive(Debug, Clone, Copy, PartialEq, Eq)]
pub struct ALoad3;

#[derive(Debug, Clone, Copy, PartialEq, Eq)]
pub struct IStore {
    pub index: u16,
}

#[derive(Debug, Clone, Copy, PartialEq, Eq)]
pub struct LStore {
    pub index: u16,
}

#[derive(Debug, Clone, Copy, PartialEq, Eq)]
pub struct FStore {
    pub index: u16,
}

#[derive(Debug, Clone, Copy, PartialEq, Eq)]
pub struct DStore {
    pub index: u16,
}

#[derive(Debug, Clone, Copy, PartialEq, Eq)]
pub struct AStore {
    pub index: u16,
}

#[derive(Debug, Clone, Copy, PartialEq, Eq)]
pub struct IStore0;

#[derive(Debug, Clone, Copy, PartialEq, Eq)]
pub struct IStore1;

#[derive(Debug, Clone, Copy, PartialEq, Eq)]
pub struct IStore2;

#[derive(Debug, Clone, Copy, PartialEq, Eq)]
pub struct IStore3;

#[derive(Debug, Clone, Copy, PartialEq, Eq)]
pub struct LStore0;

#[derive(Debug, Clone, Copy, PartialEq, Eq)]
pub struct LStore1;

#[derive(Debug, Clone, Copy, PartialEq, Eq)]
pub struct LStore2;

#[derive(Debug, Clone, Copy, PartialEq, Eq)]
pub struct LStore3;

#[derive(Debug, Clone, Copy, PartialEq, Eq)]
pub struct FStore0;

#[derive(Debug, Clone, Copy, PartialEq, Eq)]
pub struct FStore1;

#[derive(Debug, Clone, Copy, PartialEq, Eq)]
pub struct FStore2;

#[derive(Debug, Clone, Copy, PartialEq, Eq)]
pub struct FStore3;

#[derive(Debug, Clone, Copy, PartialEq, Eq)]
pub struct DStore0;

#[derive(Debug, Clone, Copy, PartialEq, Eq)]
pub struct DStore1;

#[derive(Debug, Clone, Copy, PartialEq, Eq)]
pub struct DStore2;

#[derive(Debug, Clone, Copy, PartialEq, Eq)]
pub struct DStore3;

#[derive(Debug, Clone, Copy, PartialEq, Eq)]
pub struct AStore0;

#[derive(Debug, Clone, Copy, PartialEq, Eq)]
pub struct AStore1;

#[derive(Debug, Clone, Copy, PartialEq, Eq)]
pub struct AStore2;

#[derive(Debug, Clone, Copy, PartialEq, Eq)]
pub struct AStore3;

#[derive(Debug, Clone, Copy, PartialEq, Eq)]
pub struct Pop;

#[derive(Debug, Clone, Copy, PartialEq, Eq)]
pub struct Pop2;

#[derive(Debug, Clone, Copy, PartialEq, Eq)]
pub struct Dup;

#[derive(Debug, Clone, Copy, PartialEq, Eq)]
pub struct DupX1;

#[derive(Debug, Clone, Copy, PartialEq, Eq)]
pub struct DupX2;

#[derive(Debug, Clone, Copy, PartialEq, Eq)]
pub struct Dup2;

#[derive(Debug, Clone, Copy, PartialEq, Eq)]
pub struct Dup2X1;

#[derive(Debug, Clone, Copy, PartialEq, Eq)]
pub struct Dup2X2;

#[derive(Debug, Clone, Copy, PartialEq, Eq)]
pub struct Swap;

#[derive(Debug, Clone, Copy, PartialEq, Eq)]
pub struct IAdd;

#[derive(Debug, Clone, Copy, PartialEq, Eq)]
pub struct LAdd;

#[derive(Debug, Clone, Copy, PartialEq, Eq)]
pub struct FAdd;

#[derive(Debug, Clone, Copy, PartialEq, Eq)]
pub struct DAdd;

#[derive(Debug, Clone, Copy, PartialEq, Eq)]
pub struct ISub;

#[derive(Debug, Clone, Copy, PartialEq, Eq)]
pub struct LSub;

#[derive(Debug, Clone, Copy, PartialEq, Eq)]
pub struct FSub;

#[derive(Debug, Clone, Copy, PartialEq, Eq)]
pub struct DSub;

#[derive(Debug, Clone, Copy, PartialEq, Eq)]
pub struct IMul;

#[derive(Debug, Clone, Copy, PartialEq, Eq)]
pub struct LMul;

#[derive(Debug, Clone, Copy, PartialEq, Eq)]
pub struct FMul;

#[derive(Debug, Clone, Copy, PartialEq, Eq)]
pub struct DMul;

#[derive(Debug, Clone, Copy, PartialEq, Eq)]
pub struct IDiv;

#[derive(Debug, Clone, Copy, PartialEq, Eq)]
pub struct LDiv;

#[derive(Debug, Clone, Copy, PartialEq, Eq)]
pub struct FDiv;

#[derive(Debug, Clone, Copy, PartialEq, Eq)]
pub struct DDiv;

#[derive(Debug, Clone, Copy, PartialEq, Eq)]
pub struct IRem;

#[derive(Debug, Clone, Copy, PartialEq, Eq)]
pub struct LRem;

#[derive(Debug, Clone, Copy, PartialEq, Eq)]
pub struct FRem;

#[derive(Debug, Clone, Copy, PartialEq, Eq)]
pub struct DRem;

#[derive(Debug, Clone, Copy, PartialEq, Eq)]
pub struct INeg;

#[derive(Debug, Clone, Copy, PartialEq, Eq)]
pub struct LNeg;

#[derive(Debug, Clone, Copy, PartialEq, Eq)]
pub struct FNeg;

#[derive(Debug, Clone, Copy, PartialEq, Eq)]
pub struct DNeg;

#[derive(Debug, Clone, Copy, PartialEq, Eq)]
pub struct ISHL;

#[derive(Debug, Clone, Copy, PartialEq, Eq)]
pub struct LSHL;

#[derive(Debug, Clone, Copy, PartialEq, Eq)]
pub struct ISHR;

#[derive(Debug, Clone, Copy, PartialEq, Eq)]
pub struct LSHR;

#[derive(Debug, Clone, Copy, PartialEq, Eq)]
pub struct IUSHR;

#[derive(Debug, Clone, Copy, PartialEq, Eq)]
pub struct LUSHR;

#[derive(Debug, Clone, Copy, PartialEq, Eq)]
pub struct IAnd;

#[derive(Debug, Clone, Copy, PartialEq, Eq)]
pub struct LAnd;

#[derive(Debug, Clone, Copy, PartialEq, Eq)]
pub struct IOR;

#[derive(Debug, Clone, Copy, PartialEq, Eq)]
pub struct LOR;

#[derive(Debug, Clone, Copy, PartialEq, Eq)]
pub struct IXOR;

#[derive(Debug, Clone, Copy, PartialEq, Eq)]
pub struct LXOR;

#[derive(Debug, Clone, Copy, PartialEq, Eq)]
pub struct IINC {
    pub index: u16,
    pub value: i16,
}

#[derive(Debug, Clone, Copy, PartialEq, Eq)]
pub struct I2L;

#[derive(Debug, Clone, Copy, PartialEq, Eq)]
pub struct I2F;

#[derive(Debug, Clone, Copy, PartialEq, Eq)]
pub struct I2D;

#[derive(Debug, Clone, Copy, PartialEq, Eq)]
pub struct L2I;

#[derive(Debug, Clone, Copy, PartialEq, Eq)]
pub struct L2F;

#[derive(Debug, Clone, Copy, PartialEq, Eq)]
pub struct L2D;

#[derive(Debug, Clone, Copy, PartialEq, Eq)]
pub struct F2I;

#[derive(Debug, Clone, Copy, PartialEq, Eq)]
pub struct F2L;

#[derive(Debug, Clone, Copy, PartialEq, Eq)]
pub struct F2D;

#[derive(Debug, Clone, Copy, PartialEq, Eq)]
pub struct D2I;

#[derive(Debug, Clone, Copy, PartialEq, Eq)]
pub struct D2L;

#[derive(Debug, Clone, Copy, PartialEq, Eq)]
pub struct D2F;

#[derive(Debug, Clone, Copy, PartialEq, Eq)]
pub struct I2B;

#[derive(Debug, Clone, Copy, PartialEq, Eq)]
pub struct I2C;

#[derive(Debug, Clone, Copy, PartialEq, Eq)]
pub struct I2S;

#[derive(Debug, Clone, Copy, PartialEq, Eq)]
pub struct LCMP;

#[derive(Debug, Clone, Copy, PartialEq, Eq)]
pub struct FCMPL;

#[derive(Debug, Clone, Copy, PartialEq, Eq)]
pub struct FCMPG;

#[derive(Debug, Clone, Copy, PartialEq, Eq)]
pub struct DCMPL;

#[derive(Debug, Clone, Copy, PartialEq, Eq)]
pub struct DCMPG;

#[derive(Debug, Clone, Copy, PartialEq, Eq)]
pub struct IFEQ {
    pub offset: i32,
}

#[derive(Debug, Clone, Copy, PartialEq, Eq)]
pub struct IFNE {
    pub offset: i32,
}

#[derive(Debug, Clone, Copy, PartialEq, Eq)]
pub struct IFLT {
    pub offset: i32,
}

#[derive(Debug, Clone, Copy, PartialEq, Eq)]
pub struct IFGE {
    pub offset: i32,
}

#[derive(Debug, Clone, Copy, PartialEq, Eq)]
pub struct IFGT {
    pub offset: i32,
}

#[derive(Debug, Clone, Copy, PartialEq, Eq)]
pub struct IFLE {
    pub offset: i32,
}

#[derive(Debug, Clone, Copy, PartialEq, Eq)]
pub struct IFICMPEQ {
    pub offset: i32,
}

#[derive(Debug, Clone, Copy, PartialEq, Eq)]
pub struct IFICMPNE {
    pub offset: i32,
}

#[derive(Debug, Clone, Copy, PartialEq, Eq)]
pub struct IFICMPLT {
    pub offset: i32,
}

#[derive(Debug, Clone, Copy, PartialEq, Eq)]
pub struct IFICMPGE {
    pub offset: i32,
}

#[derive(Debug, Clone, Copy, PartialEq, Eq)]
pub struct IFICMPGT {
    pub offset: i32,
}

#[derive(Debug, Clone, Copy, PartialEq, Eq)]
pub struct IFICMPLE {
    pub offset: i32,
}

#[derive(Debug, Clone, Copy, PartialEq, Eq)]
pub struct IFACMPEQ {
    pub offset: i32,
}

#[derive(Debug, Clone, Copy, PartialEq, Eq)]
pub struct IFACMPNE {
    pub offset: i32,
}

#[derive(Debug, Clone, Copy, PartialEq, Eq)]
pub struct GOTO {
    pub offset: i32,
}

#[derive(Debug)]
pub struct TableSwitch {
    pub default_offset: i32,
    pub low: i32,
    pub high: i32,
    pub jump_offsets: Vec<i32>,
}

#[derive(Debug)]
pub struct LookUpSwitch {
    pub default_offset: i32,
    pub n_pairs: i32,
    /// The (match, offset) pairs, flattened.
    pub match_offsets: Vec<i32>,
}

#[derive(Debug, Clone, Copy, PartialEq, Eq)]
pub struct IReturn;

#[derive(Debug, Clone, Copy, PartialEq, Eq)]
pub struct LReturn;

#[derive(Debug, Clone, Copy, PartialEq, Eq)]
pub struct FReturn;

#[derive(Debug, Clone, Copy, PartialEq, Eq)]
pub struct DReturn;

#[derive(Debug, Clone, Copy, PartialEq, Eq)]
pub struct AReturn;

#[derive(Debug, Clone, Copy, PartialEq, Eq)]
pub struct Return;

#[derive(Debug)]
pub struct WIDE {
    pub modified_inst: Box<Instruction>,
}

#[derive(Debug, Clone, Copy, PartialEq, Eq)]
pub struct IFNULL {
    pub offset: i32,
}

#[derive(Debug, Clone, Copy, PartialEq, Eq)]
pub struct IFNOTNULL {
    pub offset: i32,
}

#[allow(non_camel_case_types)]
#[derive(Debug, Clone, Copy, PartialEq, Eq)]
pub struct GOTO_W {
    pub offset: i32,
}

/// A decoded instruction: one variant per opcode, holding its operands.
#[allow(non_camel_case_types)]
#[derive(Debug)]
pub enum Instruction {
    NoOperandsInstruction(NoOperandsInstruction),
    AConstNull(AConstNull),
    IConstM1(IConstM1),
    IConst0(IConst0),
    IConst1(IConst1),
    IConst2(IConst2),
    IConst3(IConst3),
    IConst4(IConst4),
    IConst5(IConst5),
    LConst0(LConst0),
    LConst1(LConst1),
    FConst0(FConst0),
    FConst1(FConst1),
    FConst2(FConst2),
    DConst0(DConst0),
    DConst1(DConst1),
    BIPush(BIPush),
    SIPush(SIPush),
    ILoad(ILoad),
    LLoad(LLoad),
    FLoad(FLoad),
    DLoad(DLoad),
    ALoad(ALoad),
    ILoad0(ILoad0),
    ILoad1(ILoad1),
    ILoad2(ILoad2),
    ILoad3(ILoad3),
    LLoad0(LLoad0),
    LLoad1(LLoad1),
    LLoad2(LLoad2),
    LLoad3(LLoad3),
    FLoad0(FLoad0),
    FLoad1(FLoad1),
    FLoad2(FLoad2),
    FLoad3(FLoad3),
    DLoad0(DLoad0),
    DLoad1(DLoad1),
    DLoad2(DLoad2),
    DLoad3(DLoad3),
    ALoad0(ALoad0),
    ALoad1(ALoad1),
    ALoad2(ALoad2),
    ALoad3(ALoad3),
    IStore(IStore),
    LStore(LStore),
    FStore(FStore),
    DStore(DStore),
    AStore(AStore),
    IStore0(IStore0),
    IStore1(IStore1),
    IStore2(IStore2),
    IStore3(IStore3),
    LStore0(LStore0),
    LStore1(LStore1),
    LStore2(LStore2),
    LStore3(LStore3),
    FStore0(FStore0),
    FStore1(FStore1),
    FStore2(FStore2),
    FStore3(FStore3),
    DStore0(DStore0),
    DStore1(DStore1),
    DStore2(DStore2),
    DStore3(DStore3),
    AStore0(AStore0),
    AStore1(AStore1),
    AStore2(AStore2),
    AStore3(AStore3),
    Pop(Pop),
    Pop2(Pop2),
    Dup(Dup),
    DupX1(DupX1),
    DupX2(DupX2),
    Dup2(Dup2),
    Dup2X1(Dup2X1),
    Dup2X2(Dup2X2),
    Swap(Swap),
    IAdd(IAdd),
    LAdd(LAdd),
    FAdd(FAdd),
    DAdd(DAdd),
    ISub(ISub),
    LSub(LSub),
    FSub(FSub),
    DSub(DSub),
    IMul(IMul),
    LMul(LMul),
    FMul(FMul),
    DMul(DMul),
    IDiv(IDiv),
    LDiv(LDiv),
    FDiv(FDiv),
    DDiv(DDiv),
    IRem(IRem),
    LRem(LRem),
    FRem(FRem),
    DRem(DRem),
    INeg(INeg),
    LNeg(LNeg),
    FNeg(FNeg),
    DNeg(DNeg),
    ISHL(ISHL),
    LSHL(LSHL),
    ISHR(ISHR),
    LSHR(LSHR),
    IUSHR(IUSHR),
    LUSHR(LUSHR),
    IAnd(IAnd),
    LAnd(LAnd),
    IOR(IOR),
    LOR(LOR),
    IXOR(IXOR),
    LXOR(LXOR),
    IINC(IINC),
    I2L(I2L),
    I2F(I2F),
    I2D(I2D),
    L2I(L2I),
    L2F(L2F),
    L2D(L2D),
    F2I(F2I),
    F2L(F2L),
    F2D(F2D),
    D2I(D2I),
    D2L(D2L),
    D2F(D2F),
    I2B(I2B),
    I2C(I2C),
    I2S(I2S),
    LCMP(LCMP),
    FCMPL(FCMPL),
    FCMPG(FCMPG),
    DCMPL(DCMPL),
    DCMPG(DCMPG),
    IFEQ(IFEQ),
    IFNE(IFNE),
    IFLT(IFLT),
    IFGE(IFGE),
    IFGT(IFGT),
    IFLE(IFLE),
    IFICMPEQ(IFICMPEQ),
    IFICMPNE(IFICMPNE),
    IFICMPLT(IFICMPLT),
    IFICMPGE(IFICMPGE),
    IFICMPGT(IFICMPGT),
    IFICMPLE(IFICMPLE),
    IFACMPEQ(IFACMPEQ),
    IFACMPNE(IFACMPNE),
    GOTO(GOTO),
    TableSwitch(TableSwitch),
    LookUpSwitch(LookUpSwitch),
    IReturn(IReturn),
    LReturn(LReturn),
    FReturn(FReturn),
    DReturn(DReturn),
    AReturn(AReturn),
    Return(Return),
    WIDE(WIDE),
    IFNULL(IFNULL),
    IFNOTNULL(IFNOTNULL),
    GOTO_W(GOTO_W),
}

/// The opcode that each instruction is decoded from.
pub open spec fn opcode_of(ins: Instruction) -> u8 {
    match ins {
        Instruction::NoOperandsInstruction(_) => 0x00,
        Instruction::AConstNull(_) => 0x01,
        Instruction::IConstM1(_) => 0x02,
        Instruction::IConst0(_) => 0x03,
        Instruction::IConst1(_) => 0x04,
        Instruction::IConst2(_) => 0x05,
        Instruction::IConst3(_) => 0x06,
        Instruction::IConst4(_) => 0x07,
        Instruction::IConst5(_) => 0x08,
        Instruction::LConst0(_) => 0x09,
        Instruction::LConst1(_) => 0x0a,
        Instruction::FConst0(_) => 0x0b,
        Instruction::FConst1(_) => 0x0c,
        Instruction::FConst2(_) => 0x0d,
        Instruction::DConst0(_) => 0x0e,
        Instruction::DConst1(_) => 0x0f,
        Instruction::BIPush(_) => 0x10,
        Instruction::SIPush(_) => 0x11,
        Instruction::ILoad(_) => 0x15,
        Instruction::LLoad(_) => 0x16,
        Instruction::FLoad(_) => 0x17,
        Instruction::DLoad(_) => 0x18,
        Instruction::ALoad(_) => 0x19,
        Instruction::ILoad0(_) => 0x1a,
        Instruction::ILoad1(_) => 0x1b,
        Instruction::ILoad2(_) => 0x1c,
        Instruction::ILoad3(_) => 0x1d,
        Instruction::LLoad0(_) => 0x1e,
        Instruction::LLoad1(_) => 0x1f,
        Instruction::LLoad2(_) => 0x20,
        Instruction::LLoad3(_) => 0x21,
        Instruction::FLoad0(_) => 0x22,
        Instruction::FLoad1(_) => 0x23,
        Instruction::FLoad2(_) => 0x24,
        Instruction::FLoad3(_) => 0x25,
        Instruction::DLoad0(_) => 0x26,
        Instruction::DLoad1(_) => 0x27,
        Instruction::DLoad2(_) => 0x28,
        Instruction::DLoad3(_) => 0x29,
        Instruction::ALoad0(_) => 0x2a,
        Instruction::ALoad1(_) => 0x2b,
        Instruction::ALoad2(_) => 0x2c,
        Instruction::ALoad3(_) => 0x2d,
        Instruction::IStore(_) => 0x36,
        Instruction::LStore(_) => 0x37,
        Instruction::FStore(_) => 0x38,
        Instruction::DStore(_) => 0x39,
        Instruction::AStore(_) => 0x3a,
        Instruction::IStore0(_) => 0x3b,
        Instruction::IStore1(_) => 0x3c,
        Instruction::IStore2(_) => 0x3d,
        Instruction::IStore3(_) => 0x3e,
        Instruction::LStore0(_) => 0x3f,
        Instruction::LStore1(_) => 0x40,
        Instruction::LStore2(_) => 0x41,
        Instruction::LStore3(_) => 0x42,
        Instruction::FStore0(_) => 0x43,
        Instruction::FStore1(_) => 0x44,
        Instruction::FStore2(_) => 0x45,
        Instruction::FStore3(_) => 0x46,
        Instruction::DStore0(_) => 0x47,
        Instruction::DStore1(_) => 0x48,
        Instruction::DStore2(_) => 0x49,
        Instruction::DStore3(_) => 0x4a,
        Instruction::AStore0(_) => 0x4b,
        Instruction::AStore1(_) => 0x4c,
        Instruction::AStore2(_) => 0x4d,
        Instruction::AStore3(_) => 0x4e,
        Instruction::Pop(_) => 0x57,
        Instruction::Pop2(_) => 0x58,
        Instruction::Dup(_) => 0x59,
        Instruction::DupX1(_) => 0x5a,
        Instruction::DupX2(_) => 0x5b,
        Instruction::Dup2(_) => 0x5c,
        Instruction::Dup2X1(_) => 0x5d,
        Instruction::Dup2X2(_) => 0x5e,
        Instruction::Swap(_) => 0x5f,
        Instruction::IAdd(_) => 0x60,
        Instruction::LAdd(_) => 0x61,
        Instruction::FAdd(_) => 0x62,
        Instruction::DAdd(_) => 0x63,
        Instruction::ISub(_) => 0x64,
        Instruction::LSub(_) => 0x65,
        Instruction::FSub(_) => 0x66,
        Instruction::DSub(_) => 0x67,
        Instruction::IMul(_) => 0x68,
        Instruction::LMul(_) => 0x69,
        Instruction::FMul(_) => 0x6a,
        Instruction::DMul(_) => 0x6b,
        Instruction::IDiv(_) => 0x6c,
        Instruction::LDiv(_) => 0x6d,
        Instruction::FDiv(_) => 0x6e,
        Instruction::DDiv(_) => 0x6f,
        Instruction::IRem(_) => 0x70,
        Instruction::LRem(_) => 0x71,
        Instruction::FRem(_) => 0x72,
        Instruction::DRem(_) => 0x73,
        Instruction::INeg(_) => 0x74,
        Instruction::LNeg(_) => 0x75,
        Instruction::FNeg(_) => 0x76,
        Instruction::DNeg(_) => 0x77,
        Instruction::ISHL(_) => 0x78,
        Instruction::LSHL(_) => 0x79,
        Instruction::ISHR(_) => 0x7a,
        Instruction::LSHR(_) => 0x7b,
        Instruction::IUSHR(_) => 0x7c,
        Instruction::LUSHR(_) => 0x7d,
        Instruction::IAnd(_) => 0x7e,
        Instruction::LAnd(_) => 0x7f,
        Instruction::IOR(_) => 0x80,
        Instruction::LOR(_) => 0x81,
        Instruction::IXOR(_) => 0x82,
        Instruction::LXOR(_) => 0x83,
        Instruction::IINC(_) => 0x84,
        Instruction::I2L(_) => 0x85,
        Instruction::I2F(_) => 0x86,
        Instruction::I2D(_) => 0x87,
        Instruction::L2I(_) => 0x88,
        Instruction::L2F(_) => 0x89,
        Instruction::L2D(_) => 0x8a,
        Instruction::F2I(_) => 0x8b,
        Instruction::F2L(_) => 0x8c,
        Instruction::F2D(_) => 0x8d,
        Instruction::D2I(_) => 0x8e,
        Instruction::D2L(_) => 0x8f,
        Instruction::D2F(_) => 0x90,
        Instruction::I2B(_) => 0x91,
        Instruction::I2C(_) => 0x92,
        Instruction::I2S(_) => 0x93,
        Instruction::LCMP(_) => 0x94,
        Instruction::FCMPL(_) => 0x95,
        Instruction::FCMPG(_) => 0x96,
        Instruction::DCMPL(_) => 0x97,
        Instruction::DCMPG(_) => 0x98,
        Instruction::IFEQ(_) => 0x99,
        Instruction::IFNE(_) => 0x9a,
        Instruction::IFLT(_) => 0x9b,
        Instruction::IFGE(_) => 0x9c,
        Instruction::IFGT(_) => 0x9d,
        Instruction::IFLE(_) => 0x9e,
        Instruction::IFICMPEQ(_) => 0x9f,
        Instruction::IFICMPNE(_) => 0xa0,
        Instruction::IFICMPLT(_) => 0xa1,
        Instruction::IFICMPGE(_) => 0xa2,
        Instruction::IFICMPGT(_) => 0xa3,
        Instruction::IFICMPLE(_) => 0xa4,
        Instruction::IFACMPEQ(_) => 0xa5,
        Instruction::IFACMPNE(_) => 0xa6,
        Instruction::GOTO(_) => 0xa7,
        Instruction::TableSwitch(_) => 0xaa,
        Instruction::LookUpSwitch(_) => 0xab,
        Instruction::IReturn(_) => 0xac,
        Instruction::LReturn(_) => 0xad,
        Instruction::FReturn(_) => 0xae,
        Instruction::DReturn(_) => 0xaf,
        Instruction::AReturn(_) => 0xb0,
        Instruction::Return(_) => 0xb1,
        Instruction::WIDE(_) => 0xc4,
        Instruction::IFNULL(_) => 0xc6,
        Instruction::IFNOTNULL(_) => 0xc7,
        Instruction::GOTO_W(_) => 0xc8,
    }
}

/// Whether `op` is an opcode this interpreter implements.
pub open spec fn known_opcode(op: u8) -> bool {
    (0x00 <= op <= 0x11)
        || (0x15 <= op <= 0x2d)
        || (0x36 <= op <= 0x4e)
        || (0x57 <= op <= 0xa7)
        || (0xaa <= op <= 0xb1)
        || op == 0xc4
        || (0xc6 <= op <= 0xc8)
}

/// The instruction for `opcode`, with its operands not read yet.
pub fn new_instruction(opcode: u8) -> (r: Result<Instruction, ExecError>)
    ensures
        r is Ok <==> known_opcode(opcode),
        r matches Ok(i) ==> opcode_of(i) == opcode && fresh(i),
        r is Err ==> r == Err::<Instruction, ExecError>(ExecError::UnknownOpcode(opcode)),
{
    let i = match opcode {
        0x00 => Instruction::NoOperandsInstruction(NoOperandsInstruction),
        0x01 => Instruction::AConstNull(AConstNull),
        0x02 => Instruction::IConstM1(IConstM1),
        0x03 => Instruction::IConst0(IConst0),
        0x04 => Instruction::IConst1(IConst1),
        0x05 => Instruction::IConst2(IConst2),
        0x06 => Instruction::IConst3(IConst3),
        0x07 => Instruction::IConst4(IConst4),
        0x08 => Instruction::IConst5(IConst5),
        0x09 => Instruction::LConst0(LConst0),
        0x0a => Instruction::LConst1(LConst1),
        0x0b => Instruction::FConst0(FConst0),
        0x0c => Instruction::FConst1(FConst1),
        0x0d => Instruction::FConst2(FConst2),
        0x0e => Instruction::DConst0(DConst0),
        0x0f => Instruction::DConst1(DConst1),
        0x10 => Instruction::BIPush(BIPush { value: 0 }),
        0x11 => Instruction::SIPush(SIPush { value: 0 }),
        0x15 => Instruction::ILoad(ILoad { index: 0 }),
        0x16 => Instruction::LLoad(LLoad { index: 0 }),
        0x17 => Instruction::FLoad(FLoad { index: 0 }),
        0x18 => Instruction::DLoad(DLoad { index: 0 }),
        0x19 => Instruction::ALoad(ALoad { index: 0 }),
        0x1a => Instruction::ILoad0(ILoad0),
        0x1b => Instruction::ILoad1(ILoad1),
        0x1c => Instruction::ILoad2(ILoad2),
        0x1d => Instruction::ILoad3(ILoad3),
        0x1e => Instruction::LLoad0(LLoad0),
        0x1f => Instruction::LLoad1(LLoad1),
        0x20 => Instruction::LLoad2(LLoad2),
        0x21 => Instruction::LLoad3(LLoad3),
        0x22 => Instruction::FLoad0(FLoad0),
        0x23 => Instruction::FLoad1(FLoad1),
        0x24 => Instruction::FLoad2(FLoad2),
        0x25 => Instruction::FLoad3(FLoad3),
        0x26 => Instruction::DLoad0(DLoad0),
        0x27 => Instruction::DLoad1(DLoad1),
        0x28 => Instruction::DLoad2(DLoad2),
        0x29 => Instruction::DLoad3(DLoad3),
        0x2a => Instruction::ALoad0(ALoad0),
        0x2b => Instruction::ALoad1(ALoad1),
        0x2c => Instruction::ALoad2(ALoad2),
        0x2d => Instruction::ALoad3(ALoad3),
        0x36 => Instruction::IStore(IStore { index: 0 }),
        0x37 => Instruction::LStore(LStore { index: 0 }),
        0x38 => Instruction::FStore(FStore { index: 0 }),
        0x39 => Instruction::DStore(DStore { index: 0 }),
        0x3a => Instruction::AStore(AStore { index: 0 }),
        0x3b => Instruction::IStore0(IStore0),
        0x3c => Instruction::IStore1(IStore1),
        0x3d => Instruction::IStore2(IStore2),
        0x3e => Instruction::IStore3(IStore3),
        0x3f => Instruction::LStore0(LStore0),
        0x40 => Instruction::LStore1(LStore1),
        0x41 => Instruction::LStore2(LStore2),
        0x42 => Instruction::LStore3(LStore3),
        0x43 => Instruction::FStore0(FStore0),
        0x44 => Instruction::FStore1(FStore1),
        0x45 => Instruction::FStore2(FStore2),
        0x46 => Instruction::FStore3(FStore3),
        0x47 => Instruction::DStore0(DStore0),
        0x48 => Instruction::DStore1(DStore1),
        0x49 => Instruction::DStore2(DStore2),
        0x4a => Instruction::DStore3(DStore3),
        0x4b => Instruction::AStore0(AStore0),
        0x4c => Instruction::AStore1(AStore1),
        0x4d => Instruction::AStore2(AStore2),
        0x4e => Instruction::AStore3(AStore3),
        0x57 => Instruction::Pop(Pop),
        0x58 => Instruction::Pop2(Pop2),
        0x59 => Instruction::Dup(Dup),
        0x5a => Instruction::DupX1(DupX1),
        0x5b => Instruction::DupX2(DupX2),
        0x5c => Instruction::Dup2(Dup2),
        0x5d => Instruction::Dup2X1(Dup2X1),
        0x5e => Instruction::Dup2X2(Dup2X2),
        0x5f => Instruction::Swap(Swap),
        0x60 => Instruction::IAdd(IAdd),
        0x61 => Instruction::LAdd(LAdd),
        0x62 => Instruction::FAdd(FAdd),
        0x63 => Instruction::DAdd(DAdd),
        0x64 => Instruction::ISub(ISub),
        0x65 => Instruction::LSub(LSub),
        0x66 => Instruction::FSub(FSub),
        0x67 => Instruction::DSub(DSub),
        0x68 => Instruction::IMul(IMul),
        0x69 => Instruction::LMul(LMul),
        0x6a => Instruction::FMul(FMul),
        0x6b => Instruction::DMul(DMul),
        0x6c => Instruction::IDiv(IDiv),
        0x6d => Instruction::LDiv(LDiv),
        0x6e => Instruction::FDiv(FDiv),
        0x6f => Instruction::DDiv(DDiv),
        0x70 => Instruction::IRem(IRem),
        0x71 => Instruction::LRem(LRem),
        0x72 => Instruction::FRem(FRem),
        0x73 => Instruction::DRem(DRem),
        0x74 => Instruction::INeg(INeg),
        0x75 => Instruction::LNeg(LNeg),
        0x76 => Instruction::FNeg(FNeg),
        0x77 => Instruction::DNeg(DNeg),
        0x78 => Instruction::ISHL(ISHL),
        0x79 => Instruction::LSHL(LSHL),
        0x7a => Instruction::ISHR(ISHR),
        0x7b => Instruction::LSHR(LSHR),
        0x7c => Instruction::IUSHR(IUSHR),
        0x7d => Instruction::LUSHR(LUSHR),
        0x7e => Instruction::IAnd(IAnd),
        0x7f => Instruction::LAnd(LAnd),
        0x80 => Instruction::IOR(IOR),
        0x81 => Instruction::LOR(LOR),
        0x82 => Instruction::IXOR(IXOR),
        0x83 => Instruction::LXOR(LXOR),
        0x84 => Instruction::IINC(IINC { index: 0, value: 0 }),
        0x85 => Instruction::I2L(I2L),
        0x86 => Instruction::I2F(I2F),
        0x87 => Instruction::I2D(I2D),
        0x88 => Instruction::L2I(L2I),
        0x89 => Instruction::L2F(L2F),
        0x8a => Instruction::L2D(L2D),
        0x8b => Instruction::F2I(F2I),
        0x8c => Instruction::F2L(F2L),
        0x8d => Instruction::F2D(F2D),
        0x8e => Instruction::D2I(D2I),
        0x8f => Instruction::D2L(D2L),
        0x90 => Instruction::D2F(D2F),
        0x91 => Instruction::I2B(I2B),
        0x92 => Instruction::I2C(I2C),
        0x93 => Instruction::I2S(I2S),
        0x94 => Instruction::LCMP(LCMP),
        0x95 => Instruction::FCMPL(FCMPL),
        0x96 => Instruction::FCMPG(FCMPG),
        0x97 => Instruction::DCMPL(DCMPL),
        0x98 => Instruction::DCMPG(DCMPG),
        0x99 => Instruction::IFEQ(IFEQ { offset: 0 }),
        0x9a => Instruction::IFNE(IFNE { offset: 0 }),
        0x9b => Instruction::IFLT(IFLT { offset: 0 }),
        0x9c => Instruction::IFGE(IFGE { offset: 0 }),
        0x9d => Instruction::IFGT(IFGT { offset: 0 }),
        0x9e => Instruction::IFLE(IFLE { offset: 0 }),
        0x9f => Instruction::IFICMPEQ(IFICMPEQ { offset: 0 }),
        0xa0 => Instruction::IFICMPNE(IFICMPNE { offset: 0 }),
        0xa1 => Instruction::IFICMPLT(IFICMPLT { offset: 0 }),
        0xa2 => Instruction::IFICMPGE(IFICMPGE { offset: 0 }),
        0xa3 => Instruction::IFICMPGT(IFICMPGT { offset: 0 }),
        0xa4 => Instruction::IFICMPLE(IFICMPLE { offset: 0 }),
        0xa5 => Instruction::IFACMPEQ(IFACMPEQ { offset: 0 }),
        0xa6 => Instruction::IFACMPNE(IFACMPNE { offset: 0 }),
        0xa7 => Instruction::GOTO(GOTO { offset: 0 }),
        0xaa => Instruction::TableSwitch(TableSwitch { default_offset: 0, low: 0, high: 0, jump_offsets: Vec::new() }),
        0xab => Instruction::LookUpSwitch(LookUpSwitch { default_offset: 0, n_pairs: 0, match_offsets: Vec::new() }),
        0xac => Instruction::IReturn(IReturn),
        0xad => Instruction::LReturn(LReturn),
        0xae => Instruction::FReturn(FReturn),
        0xaf => Instruction::DReturn(DReturn),
        0xb0 => Instruction::AReturn(AReturn),
        0xb1 => Instruction::Return(Return),
        0xc4 => Instruction::WIDE(WIDE { modified_inst: Box::new(Instruction::NoOperandsInstruction(NoOperandsInstruction)) }),
        0xc6 => Instruction::IFNULL(IFNULL { offset: 0 }),
        0xc7 => Instruction::IFNOTNULL(IFNOTNULL { offset: 0 }),
        0xc8 => Instruction::GOTO_W(GOTO_W { offset: 0 }),
        _ => {
            return Err(ExecError::UnknownOpcode(opcode));
        },
    };
    Ok(i)
}

/// An instruction as `new_instruction` makes it: a WIDE holds no widened
/// instruction yet.
pub open spec fn fresh(i: Instruction) -> bool {
    match i {
        Instruction::WIDE(w) => *w.modified_inst is NoOperandsInstruction,
        _ => true,
    }
}

/// `ins` holds the operands that the code bytes from `c` on encode, and they
/// end at `end`.
pub open spec fn operands_read(ins: Instruction, code: Seq<u8>, c: int, end: int) -> bool
    decreases ins,
{
    match ins {
        Instruction::BIPush(i) => i.value == code[c] as i8 && end == c + 1,
        Instruction::SIPush(i) => i.value == be16(code, c) as i16 && end == c + 2,
        Instruction::ILoad(i) => i.index == code[c] as u16 && end == c + 1,
        Instruction::LLoad(i) => i.index == code[c] as u16 && end == c + 1,
        Instruction::FLoad(i) => i.index == code[c] as u16 && end == c + 1,
        Instruction::DLoad(i) => i.index == code[c] as u16 && end == c + 1,
        Instruction::ALoad(i) => i.index == code[c] as u16 && end == c + 1,
        Instruction::IStore(i) => i.index == code[c] as u16 && end == c + 1,
        Instruction::LStore(i) => i.index == code[c] as u16 && end == c + 1,
        Instruction::FStore(i) => i.index == code[c] as u16 && end == c + 1,
        Instruction::DStore(i) => i.index == code[c] as u16 && end == c + 1,
        Instruction::AStore(i) => i.index == code[c] as u16 && end == c + 1,
        Instruction::IINC(i) => i.index == code[c] as u16 && i.value == code[c + 1] as i8 as i16 && end == c + 2,
        Instruction::IFEQ(i) => i.offset == be16(code, c) as i16 as i32 && end == c + 2,
        Instruction::IFNE(i) => i.offset == be16(code, c) as i16 as i32 && end == c + 2,
        Instruction::IFLT(i) => i.offset == be16(code, c) as i16 as i32 && end == c + 2,
        Instruction::IFGE(i) => i.offset == be16(code, c) as i16 as i32 && end == c + 2,
        Instruction::IFGT(i) => i.offset == be16(code, c) as i16 as i32 && end == c + 2,
        Instruction::IFLE(i) => i.offset == be16(code, c) as i16 as i32 && end == c + 2,
        Instruction::IFICMPEQ(i) => i.offset == be16(code, c) as i16 as i32 && end == c + 2,
        Instruction::IFICMPNE(i) => i.offset == be16(code, c) as i16 as i32 && end == c + 2,
        Instruction::IFICMPLT(i) => i.offset == be16(code, c) as i16 as i32 && end == c + 2,
        Instruction::IFICMPGE(i) => i.offset == be16(code, c) as i16 as i32 && end == c + 2,
        Instruction::IFICMPGT(i) => i.offset == be16(code, c) as i16 as i32 && end == c + 2,
        Instruction::IFICMPLE(i) => i.offset == be16(code, c) as i16 as i32 && end == c + 2,
        Instruction::IFACMPEQ(i) => i.offset == be16(code, c) as i16 as i32 && end == c + 2,
        Instruction::IFACMPNE(i) => i.offset == be16(code, c) as i16 as i32 && end == c + 2,
        Instruction::GOTO(i) => i.offset == be16(code, c) as i16 as i32 && end == c + 2,
        Instruction::TableSwitch(i) => table_read(i, code, c, end),
        Instruction::LookUpSwitch(i) => lookup_read(i, code, c, end),
        Instruction::WIDE(i) => wide_read(*i.modified_inst, code, c, end),
        Instruction::IFNULL(i) => i.offset == be16(code, c) as i16 as i32 && end == c + 2,
        Instruction::IFNOTNULL(i) => i.offset == be16(code, c) as i16 as i32 && end == c + 2,
        Instruction::GOTO_W(i) => i.offset == be32(code, c) as i32 && end == c + 4,
        _ => end == c,
    }
}

/// Whether `n` bytes of `code` from `c` on can be read (the cursor is an `i32`).
pub open spec fn in_code(code: Seq<u8>, c: int, n: int) -> bool {
    0 <= c && c + n <= code.len() && c + n <= i32::MAX
}

/// Whether the code from `c` on holds all the operands of the instruction
/// kind of `ins`, so that reading them cannot fail.
pub open spec fn operands_fit(ins: Instruction, code: Seq<u8>, c: int) -> bool {
    opcode_fits(opcode_of(ins), code, c)
}

/// Whether the code from `c` on holds all the operands that opcode `op` takes.
pub open spec fn opcode_fits(op: u8, code: Seq<u8>, c: int) -> bool {
    if op == 0xaa {
        let p = padded(c);
        let count = table_count(be32(code, p + 4) as i32, be32(code, p + 8) as i32);
        &&& (p == c || in_code(code, c, p - c))
        &&& in_code(code, p, 12)
        &&& (count == 0 || in_code(code, p + 12, 4 * count as int))
    } else if op == 0xab {
        let p = padded(c);
        let count = pair_count(be32(code, p + 4) as i32);
        &&& (p == c || in_code(code, c, p - c))
        &&& in_code(code, p, 8)
        &&& (count == 0 || in_code(code, p + 8, 8 * count as int))
    } else if op == 0xc4 {
        &&& in_code(code, c, 1)
        &&& widenable(code[c])
        &&& in_code(code, c + 1, if code[c] == 0x84 { 4 } else { 2 })
    } else if op == 0xc8 {
        in_code(code, c, 4)
    } else if op == 0x11 || op == 0x84 || (0x99 <= op <= 0xa7) || op == 0xc6 || op == 0xc7 {
        in_code(code, c, 2)
    } else if op == 0x10 || (0x15 <= op <= 0x19) || (0x36 <= op <= 0x3a) {
        in_code(code, c, 1)
    } else {
        true
    }
}

/// `i` holds the table switch operands encoded from `c` on (after the
/// padding to a multiple of four), which end at `end`.
pub open spec fn table_read(i: TableSwitch, code: Seq<u8>, c: int, end: int) -> bool {
    let p = padded(c);
    let count = table_count(i.low, i.high);
    &&& i.default_offset == be32(code, p) as i32
    &&& i.low == be32(code, p + 4) as i32
    &&& i.high == be32(code, p + 8) as i32
    &&& i.jump_offsets@ == i32_run(code, p + 12, count)
    &&& end == p + 12 + 4 * count
}

/// `i` holds the lookup switch operands encoded from `c` on, which end at `end`.
pub open spec fn lookup_read(i: LookUpSwitch, code: Seq<u8>, c: int, end: int) -> bool {
    let p = padded(c);
    let count = pair_count(i.n_pairs);
    &&& i.default_offset == be32(code, p) as i32
    &&& i.n_pairs == be32(code, p + 4) as i32
    &&& i.match_offsets@ == i32_run(code, p + 8, 2 * count)
    &&& end == p + 8 + 8 * count
}

/// `inner` is the instruction that a WIDE at `c - 1` widens: the opcode at
/// `c`, with 16-bit operands after it, which end at `end`.
pub open spec fn wide_read(inner: Instruction, code: Seq<u8>, c: int, end: int) -> bool {
    &&& widenable(code[c])
    &&& opcode_of(inner) == code[c]
    &&& wide_operands(inner, code, c + 1, end)
}

/// How many jump offsets a table switch from `low` to `high` holds.
pub open spec fn table_count(low: i32, high: i32) -> nat {
    if high < low { 0 } else { (high - low + 1) as nat }
}

/// How many pairs a lookup switch holds.
pub open spec fn pair_count(n_pairs: i32) -> nat {
    if n_pairs < 0 { 0 } else { n_pairs as nat }
}

/// The opcodes that WIDE may widen.
pub open spec fn widenable(op: u8) -> bool {
    (0x15 <= op <= 0x19) || (0x36 <= op <= 0x3a) || op == 0x84
}

/// The operands of an instruction that WIDE widened: a 16-bit local index,
/// and for IINC a 16-bit increment.
pub open spec fn wide_operands(ins: Instruction, code: Seq<u8>, c: int, end: int) -> bool {
    match ins {
        Instruction::ILoad(i) => i.index == be16(code, c) && end == c + 2,
        Instruction::LLoad(i) => i.index == be16(code, c) && end == c + 2,
        Instruction::FLoad(i) => i.index == be16(code, c) && end == c + 2,
        Instruction::DLoad(i) => i.index == be16(code, c) && end == c + 2,
        Instruction::ALoad(i) => i.index == be16(code, c) && end == c + 2,
        Instruction::IStore(i) => i.index == be16(code, c) && end == c + 2,
        Instruction::LStore(i) => i.index == be16(code, c) && end == c + 2,
        Instruction::FStore(i) => i.index == be16(code, c) && end == c + 2,
        Instruction::DStore(i) => i.index == be16(code, c) && end == c + 2,
        Instruction::AStore(i) => i.index == be16(code, c) && end == c + 2,
        Instruction::IINC(i) => i.index == be16(code, c) && i.value == be16(code, c + 2) as i16 && end == c + 4,
        _ => false,
    }
}

/// What executing `ins` at address `pc` does to a frame whose operand stack
/// is `st` (of capacity `cap`) and whose locals are `lv`.
pub open spec fn effect(ins: Instruction, st: Seq<Slot>, lv: Seq<Slot>, cap: nat, pc: i32) -> Result<Effect, ExecError>
    decreases ins,
{
    match ins {
        Instruction::NoOperandsInstruction(_) => next(st, lv),
        Instruction::AConstNull(_) => push_effect(st, lv, cap, seq![ref_slot(None)]),
        Instruction::IConstM1(_) => push_effect(st, lv, cap, seq![num_slot(-1i32)]),
        Instruction::IConst0(_) => push_effect(st, lv, cap, seq![num_slot(0i32)]),
        Instruction::IConst1(_) => push_effect(st, lv, cap, seq![num_slot(1i32)]),
        Instruction::IConst2(_) => push_effect(st, lv, cap, seq![num_slot(2i32)]),
        Instruction::IConst3(_) => push_effect(st, lv, cap, seq![num_slot(3i32)]),
        Instruction::IConst4(_) => push_effect(st, lv, cap, seq![num_slot(4i32)]),
        Instruction::IConst5(_) => push_effect(st, lv, cap, seq![num_slot(5i32)]),
        Instruction::LConst0(_) => push_effect(st, lv, cap, seq![num_slot(low_word(0i64)), num_slot(high_word(0i64))]),
        Instruction::LConst1(_) => push_effect(st, lv, cap, seq![num_slot(low_word(1i64)), num_slot(high_word(1i64))]),
        Instruction::FConst0(_) => push_effect(st, lv, cap, seq![num_slot(0i32)]),
        Instruction::FConst1(_) => push_effect(st, lv, cap, seq![num_slot(FLOAT_ONE)]),
        Instruction::FConst2(_) => push_effect(st, lv, cap, seq![num_slot(FLOAT_TWO)]),
        Instruction::DConst0(_) => push_effect(st, lv, cap, seq![num_slot(low_word(0i64)), num_slot(high_word(0i64))]),
        Instruction::DConst1(_) => push_effect(st, lv, cap, seq![num_slot(low_word(DOUBLE_ONE)), num_slot(high_word(DOUBLE_ONE))]),
        Instruction::BIPush(i) => push_effect(st, lv, cap, seq![num_slot(i.value as i32)]),
        Instruction::SIPush(i) => push_effect(st, lv, cap, seq![num_slot(i.value as i32)]),
        Instruction::ILoad(i) => load_effect(st, lv, cap, i.index, 1),
        Instruction::LLoad(i) => load_effect(st, lv, cap, i.index, 2),
        Instruction::FLoad(i) => load_effect(st, lv, cap, i.index, 1),
        Instruction::DLoad(i) => load_effect(st, lv, cap, i.index, 2),
        Instruction::ALoad(i) => load_effect(st, lv, cap, i.index, 1),
        Instruction::ILoad0(_) => load_effect(st, lv, cap, 0, 1),
        Instruction::ILoad1(_) => load_effect(st, lv, cap, 1, 1),
        Instruction::ILoad2(_) => load_effect(st, lv, cap, 2, 1),
        Instruction::ILoad3(_) => load_effect(st, lv, cap, 3, 1),
        Instruction::LLoad0(_) => load_effect(st, lv, cap, 0, 2),
        Instruction::LLoad1(_) => load_effect(st, lv, cap, 1, 2),
        Instruction::LLoad2(_) => load_effect(st, lv, cap, 2, 2),
        Instruction::LLoad3(_) => load_effect(st, lv, cap, 3, 2),
        Instruction::FLoad0(_) => load_effect(st, lv, cap, 0, 1),
        Instruction::FLoad1(_) => load_effect(st, lv, cap, 1, 1),
        Instruction::FLoad2(_) => load_effect(st, lv, cap, 2, 1),
        Instruction::FLoad3(_) => load_effect(st, lv, cap, 3, 1),
        Instruction::DLoad0(_) => load_effect(st, lv, cap, 0, 2),
        Instruction::DLoad1(_) => load_effect(st, lv, cap, 1, 2),
        Instruction::DLoad2(_) => load_effect(st, lv, cap, 2, 2),
        Instruction::DLoad3(_) => load_effect(st, lv, cap, 3, 2),
        Instruction::ALoad0(_) => load_effect(st, lv, cap, 0, 1),
        Instruction::ALoad1(_) => load_effect(st, lv, cap, 1, 1),
        Instruction::ALoad2(_) => load_effect(st, lv, cap, 2, 1),
        Instruction::ALoad3(_) => load_effect(st, lv, cap, 3, 1),
        Instruction::IStore(i) => store_effect(st, lv, i.index, 1),
        Instruction::LStore(i) => store_effect(st, lv, i.index, 2),
        Instruction::FStore(i) => store_effect(st, lv, i.index, 1),
        Instruction::DStore(i) => store_effect(st, lv, i.index, 2),
        Instruction::AStore(i) => store_effect(st, lv, i.index, 1),
        Instruction::IStore0(_) => store_effect(st, lv, 0, 1),
        Instruction::IStore1(_) => store_effect(st, lv, 1, 1),
        Instruction::IStore2(_) => store_effect(st, lv, 2, 1),
        Instruction::IStore3(_) => store_effect(st, lv, 3, 1),
        Instruction::LStore0(_) => store_effect(st, lv, 0, 2),
        Instruction::LStore1(_) => store_effect(st, lv, 1, 2),
        Instruction::LStore2(_) => store_effect(st, lv, 2, 2),
        Instruction::LStore3(_) => store_effect(st, lv, 3, 2),
        Instruction::FStore0(_) => store_effect(st, lv, 0, 1),
        Instruction::FStore1(_) => store_effect(st, lv, 1, 1),
        Instruction::FStore2(_) => store_effect(st, lv, 2, 1),
        Instruction::FStore3(_) => store_effect(st, lv, 3, 1),
        Instruction::DStore0(_) => store_effect(st, lv, 0, 2),
        Instruction::DStore1(_) => store_effect(st, lv, 1, 2),
        Instruction::DStore2(_) => store_effect(st, lv, 2, 2),
        Instruction::DStore3(_) => store_effect(st, lv, 3, 2),
        Instruction::AStore0(_) => store_effect(st, lv, 0, 1),
        Instruction::AStore1(_) => store_effect(st, lv, 1, 1),
        Instruction::AStore2(_) => store_effect(st, lv, 2, 1),
        Instruction::AStore3(_) => store_effect(st, lv, 3, 1),
        Instruction::Pop(_) => stack_op_effect(st, lv, cap, StackOp::Pop),
        Instruction::Pop2(_) => stack_op_effect(st, lv, cap, StackOp::Pop2),
        Instruction::Dup(_) => stack_op_effect(st, lv, cap, StackOp::Dup),
        Instruction::DupX1(_) => stack_op_effect(st, lv, cap, StackOp::DupX1),
        Instruction::DupX2(_) => stack_op_effect(st, lv, cap, StackOp::DupX2),
        Instruction::Dup2(_) => stack_op_effect(st, lv, cap, StackOp::Dup2),
        Instruction::Dup2X1(_) => stack_op_effect(st, lv, cap, StackOp::Dup2X1),
        Instruction::Dup2X2(_) => stack_op_effect(st, lv, cap, StackOp::Dup2X2),
        Instruction::Swap(_) => stack_op_effect(st, lv, cap, StackOp::Swap),
        Instruction::IAdd(_) => int_binary_effect(st, lv, BinOp::Add),
        Instruction::LAdd(_) => long_binary_effect(st, lv, BinOp::Add),
        Instruction::FAdd(_) => host_effect(st, lv, FloatOp::FAdd),
        Instruction::DAdd(_) => host_effect(st, lv, FloatOp::DAdd),
        Instruction::ISub(_) => int_binary_effect(st, lv, BinOp::Sub),
        Instruction::LSub(_) => long_binary_effect(st, lv, BinOp::Sub),
        Instruction::FSub(_) => host_effect(st, lv, FloatOp::FSub),
        Instruction::DSub(_) => host_effect(st, lv, FloatOp::DSub),
        Instruction::IMul(_) => int_binary_effect(st, lv, BinOp::Mul),
        Instruction::LMul(_) => long_binary_effect(st, lv, BinOp::Mul),
        Instruction::FMul(_) => host_effect(st, lv, FloatOp::FMul),
        Instruction::DMul(_) => host_effect(st, lv, FloatOp::DMul),
        Instruction::IDiv(_) => int_binary_effect(st, lv, BinOp::Div),
        Instruction::LDiv(_) => long_binary_effect(st, lv, BinOp::Div),
        Instruction::FDiv(_) => host_effect(st, lv, FloatOp::FDiv),
        Instruction::DDiv(_) => host_effect(st, lv, FloatOp::DDiv),
        Instruction::IRem(_) => int_binary_effect(st, lv, BinOp::Rem),
        Instruction::LRem(_) => long_binary_effect(st, lv, BinOp::Rem),
        Instruction::FRem(_) => host_effect(st, lv, FloatOp::FRem),
        Instruction::DRem(_) => host_effect(st, lv, FloatOp::DRem),
        Instruction::INeg(_) => int_unary_effect(st, lv, UnaryOp::Neg),
        Instruction::LNeg(_) => long_unary_effect(st, lv, false),
        Instruction::FNeg(_) => int_unary_effect(st, lv, UnaryOp::FloatNeg),
        Instruction::DNeg(_) => long_unary_effect(st, lv, true),
        Instruction::ISHL(_) => int_shift_effect(st, lv, ShiftOp::Shl),
        Instruction::LSHL(_) => long_shift_effect(st, lv, ShiftOp::Shl),
        Instruction::ISHR(_) => int_shift_effect(st, lv, ShiftOp::Shr),
        Instruction::LSHR(_) => long_shift_effect(st, lv, ShiftOp::Shr),
        Instruction::IUSHR(_) => int_shift_effect(st, lv, ShiftOp::Ushr),
        Instruction::LUSHR(_) => long_shift_effect(st, lv, ShiftOp::Ushr),
        Instruction::IAnd(_) => int_binary_effect(st, lv, BinOp::And),
        Instruction::LAnd(_) => long_binary_effect(st, lv, BinOp::And),
        Instruction::IOR(_) => int_binary_effect(st, lv, BinOp::Or),
        Instruction::LOR(_) => long_binary_effect(st, lv, BinOp::Or),
        Instruction::IXOR(_) => int_binary_effect(st, lv, BinOp::Xor),
        Instruction::LXOR(_) => long_binary_effect(st, lv, BinOp::Xor),
        Instruction::IINC(i) => iinc_effect(st, lv, i.index, i.value),
        Instruction::I2L(_) => i2l_effect(st, lv, cap),
        Instruction::I2F(_) => host_effect(st, lv, FloatOp::I2F),
        Instruction::I2D(_) => host_effect(st, lv, FloatOp::I2D),
        Instruction::L2I(_) => l2i_effect(st, lv),
        Instruction::L2F(_) => host_effect(st, lv, FloatOp::L2F),
        Instruction::L2D(_) => host_effect(st, lv, FloatOp::L2D),
        Instruction::F2I(_) => host_effect(st, lv, FloatOp::F2I),
        Instruction::F2L(_) => host_effect(st, lv, FloatOp::F2L),
        Instruction::F2D(_) => host_effect(st, lv, FloatOp::F2D),
        Instruction::D2I(_) => host_effect(st, lv, FloatOp::D2I),
        Instruction::D2L(_) => host_effect(st, lv, FloatOp::D2L),
        Instruction::D2F(_) => host_effect(st, lv, FloatOp::D2F),
        Instruction::I2B(_) => int_unary_effect(st, lv, UnaryOp::ToByte),
        Instruction::I2C(_) => int_unary_effect(st, lv, UnaryOp::ToChar),
        Instruction::I2S(_) => int_unary_effect(st, lv, UnaryOp::ToShort),
        Instruction::LCMP(_) => lcmp_effect(st, lv),
        Instruction::FCMPL(_) => fcmp_effect(st, lv, -1i32),
        Instruction::FCMPG(_) => fcmp_effect(st, lv, 1i32),
        Instruction::DCMPL(_) => dcmp_effect(st, lv, -1i32),
        Instruction::DCMPG(_) => dcmp_effect(st, lv, 1i32),
        Instruction::IFEQ(i) => if_int_effect(st, lv, pc, Cond::Eq, i.offset),
        Instruction::IFNE(i) => if_int_effect(st, lv, pc, Cond::Ne, i.offset),
        Instruction::IFLT(i) => if_int_effect(st, lv, pc, Cond::Lt, i.offset),
        Instruction::IFGE(i) => if_int_effect(st, lv, pc, Cond::Ge, i.offset),
        Instruction::IFGT(i) => if_int_effect(st, lv, pc, Cond::Gt, i.offset),
        Instruction::IFLE(i) => if_int_effect(st, lv, pc, Cond::Le, i.offset),
        Instruction::IFICMPEQ(i) => if_icmp_effect(st, lv, pc, Cond::Eq, i.offset),
        Instruction::IFICMPNE(i) => if_icmp_effect(st, lv, pc, Cond::Ne, i.offset),
        Instruction::IFICMPLT(i) => if_icmp_effect(st, lv, pc, Cond::Lt, i.offset),
        Instruction::IFICMPGE(i) => if_icmp_effect(st, lv, pc, Cond::Ge, i.offset),
        Instruction::IFICMPGT(i) => if_icmp_effect(st, lv, pc, Cond::Gt, i.offset),
        Instruction::IFICMPLE(i) => if_icmp_effect(st, lv, pc, Cond::Le, i.offset),
        Instruction::IFACMPEQ(i) => if_acmp_effect(st, lv, pc, true, i.offset),
        Instruction::IFACMPNE(i) => if_acmp_effect(st, lv, pc, false, i.offset),
        Instruction::GOTO(i) => branch_if(st, lv, pc, i.offset, true),
        Instruction::TableSwitch(i) => table_switch_effect(st, lv, pc, i.default_offset, i.low, i.high, i.jump_offsets@),
        Instruction::LookUpSwitch(i) => lookup_switch_effect(st, lv, pc, i.default_offset, i.match_offsets@),
        Instruction::IReturn(_) => return_of(st, lv, ReturnKind::Int),
        Instruction::LReturn(_) => return_of(st, lv, ReturnKind::Long),
        Instruction::FReturn(_) => return_of(st, lv, ReturnKind::Float),
        Instruction::DReturn(_) => return_of(st, lv, ReturnKind::Double),
        Instruction::AReturn(_) => return_of(st, lv, ReturnKind::Reference),
        Instruction::Return(_) => return_of(st, lv, ReturnKind::Void),
        Instruction::WIDE(i) => effect(*i.modified_inst, st, lv, cap, pc),
        Instruction::IFNULL(i) => if_null_effect(st, lv, pc, true, i.offset),
        Instruction::IFNOTNULL(i) => if_null_effect(st, lv, pc, false, i.offset),
        Instruction::GOTO_W(i) => branch_if(st, lv, pc, i.offset, true),
    }
}

impl Instruction {
    /// Reads the instruction's operands from the cursor on.
    pub fn fetch_operands(&mut self, reader: &mut BytecodeReader) -> (r: Result<(), ExecError>)
        requires
            fresh(*old(self)),
        ensures
            final(reader).content@ == old(reader).content@,
            opcode_of(*final(self)) == opcode_of(*old(self)),
            r is Ok ==> operands_read(*final(self), old(reader).content@, old(reader).cursor as int, final(reader).cursor as int),
            r is Err ==> r->Err_0 == ExecError::TruncatedCode || (*old(self) is WIDE && r->Err_0 is UnknownOpcode),
            r is Ok <==> operands_fit(*old(self), old(reader).content@, old(reader).cursor as int),
    {
        match self {
            Instruction::BIPush(i) => {
                i.value = reader.read_i8()?;
            },
            Instruction::SIPush(i) => {
                i.value = reader.read_i16()?;
            },
            Instruction::ILoad(i) => {
                i.index = reader.read_u8()? as u16;
            },
            Instruction::LLoad(i) => {
                i.index = reader.read_u8()? as u16;
            },
            Instruction::FLoad(i) => {
                i.index = reader.read_u8()? as u16;
            },
            Instruction::DLoad(i) => {
                i.index = reader.read_u8()? as u16;
            },
            Instruction::ALoad(i) => {
                i.index = reader.read_u8()? as u16;
            },
            Instruction::IStore(i) => {
                i.index = reader.read_u8()? as u16;
            },
            Instruction::LStore(i) => {
                i.index = reader.read_u8()? as u16;
            },
            Instruction::FStore(i) => {
                i.index = reader.read_u8()? as u16;
            },
            Instruction::DStore(i) => {
                i.index = reader.read_u8()? as u16;
            },
            Instruction::AStore(i) => {
                i.index = reader.read_u8()? as u16;
            },
            Instruction::IINC(i) => {
                i.index = reader.read_u8()? as u16;
                i.value = reader.read_i8()? as i16;
            },
            Instruction::IFEQ(i) => {
                i.offset = reader.read_i16()? as i32;
            },
            Instruction::IFNE(i) => {
                i.offset = reader.read_i16()? as i32;
            },
            Instruction::IFLT(i) => {
                i.offset = reader.read_i16()? as i32;
            },
            Instruction::IFGE(i) => {
                i.offset = reader.read_i16()? as i32;
            },
            Instruction::IFGT(i) => {
                i.offset = reader.read_i16()? as i32;
            },
            Instruction::IFLE(i) => {
                i.offset = reader.read_i16()? as i32;
            },
            Instruction::IFICMPEQ(i) => {
                i.offset = reader.read_i16()? as i32;
            },
            Instruction::IFICMPNE(i) => {
                i.offset = reader.read_i16()? as i32;
            },
            Instruction::IFICMPLT(i) => {
                i.offset = reader.read_i16()? as i32;
            },
            Instruction::IFICMPGE(i) => {
                i.offset = reader.read_i16()? as i32;
            },
            Instruction::IFICMPGT(i) => {
                i.offset = reader.read_i16()? as i32;
            },
            Instruction::IFICMPLE(i) => {
                i.offset = reader.read_i16()? as i32;
            },
            Instruction::IFACMPEQ(i) => {
                i.offset = reader.read_i16()? as i32;
            },
            Instruction::IFACMPNE(i) => {
                i.offset = reader.read_i16()? as i32;
            },
            Instruction::GOTO(i) => {
                i.offset = reader.read_i16()? as i32;
            },
            Instruction::TableSwitch(i) => {
                read_table_switch(i, reader)?;
            },
            Instruction::LookUpSwitch(i) => {
                read_lookup_switch(i, reader)?;
            },
            Instruction::WIDE(i) => {
                i.modified_inst = Box::new(read_wide(reader)?);
            },
            Instruction::IFNULL(i) => {
                i.offset = reader.read_i16()? as i32;
            },
            Instruction::IFNOTNULL(i) => {
                i.offset = reader.read_i16()? as i32;
            },
            Instruction::GOTO_W(i) => {
                i.offset = reader.read_i32()?;
            },
            _ => {},
        }
        Ok(())
    }

    /// The instruction's opcode.
    pub fn opcode(&self) -> (r: u8)
        ensures
            r == opcode_of(*self),
    {
        match self {
            Instruction::NoOperandsInstruction(_) => 0x00,
            Instruction::AConstNull(_) => 0x01,
            Instruction::IConstM1(_) => 0x02,
            Instruction::IConst0(_) => 0x03,
            Instruction::IConst1(_) => 0x04,
            Instruction::IConst2(_) => 0x05,
            Instruction::IConst3(_) => 0x06,
            Instruction::IConst4(_) => 0x07,
            Instruction::IConst5(_) => 0x08,
            Instruction::LConst0(_) => 0x09,
            Instruction::LConst1(_) => 0x0a,
            Instruction::FConst0(_) => 0x0b,
            Instruction::FConst1(_) => 0x0c,
            Instruction::FConst2(_) => 0x0d,
            Instruction::DConst0(_) => 0x0e,
            Instruction::DConst1(_) => 0x0f,
            Instruction::BIPush(_) => 0x10,
            Instruction::SIPush(_) => 0x11,
            Instruction::ILoad(_) => 0x15,
            Instruction::LLoad(_) => 0x16,
            Instruction::FLoad(_) => 0x17,
            Instruction::DLoad(_) => 0x18,
            Instruction::ALoad(_) => 0x19,
            Instruction::ILoad0(_) => 0x1a,
            Instruction::ILoad1(_) => 0x1b,
            Instruction::ILoad2(_) => 0x1c,
            Instruction::ILoad3(_) => 0x1d,
            Instruction::LLoad0(_) => 0x1e,
            Instruction::LLoad1(_) => 0x1f,
            Instruction::LLoad2(_) => 0x20,
            Instruction::LLoad3(_) => 0x21,
            Instruction::FLoad0(_) => 0x22,
            Instruction::FLoad1(_) => 0x23,
            Instruction::FLoad2(_) => 0x24,
            Instruction::FLoad3(_) => 0x25,
            Instruction::DLoad0(_) => 0x26,
            Instruction::DLoad1(_) => 0x27,
            Instruction::DLoad2(_) => 0x28,
            Instruction::DLoad3(_) => 0x29,
            Instruction::ALoad0(_) => 0x2a,
            Instruction::ALoad1(_) => 0x2b,
            Instruction::ALoad2(_) => 0x2c,
            Instruction::ALoad3(_) => 0x2d,
            Instruction::IStore(_) => 0x36,
            Instruction::LStore(_) => 0x37,
            Instruction::FStore(_) => 0x38,
            Instruction::DStore(_) => 0x39,
            Instruction::AStore(_) => 0x3a,
            Instruction::IStore0(_) => 0x3b,
            Instruction::IStore1(_) => 0x3c,
            Instruction::IStore2(_) => 0x3d,
            Instruction::IStore3(_) => 0x3e,
            Instruction::LStore0(_) => 0x3f,
            Instruction::LStore1(_) => 0x40,
            Instruction::LStore2(_) => 0x41,
            Instruction::LStore3(_) => 0x42,
            Instruction::FStore0(_) => 0x43,
            Instruction::FStore1(_) => 0x44,
            Instruction::FStore2(_) => 0x45,
            Instruction::FStore3(_) => 0x46,
            Instruction::DStore0(_) => 0x47,
            Instruction::DStore1(_) => 0x48,
            Instruction::DStore2(_) => 0x49,
            Instruction::DStore3(_) => 0x4a,
            Instruction::AStore0(_) => 0x4b,
            Instruction::AStore1(_) => 0x4c,
            Instruction::AStore2(_) => 0x4d,
            Instruction::AStore3(_) => 0x4e,
            Instruction::Pop(_) => 0x57,
            Instruction::Pop2(_) => 0x58,
            Instruction::Dup(_) => 0x59,
            Instruction::DupX1(_) => 0x5a,
            Instruction::DupX2(_) => 0x5b,
            Instruction::Dup2(_) => 0x5c,
            Instruction::Dup2X1(_) => 0x5d,
            Instruction::Dup2X2(_) => 0x5e,
            Instruction::Swap(_) => 0x5f,
            Instruction::IAdd(_) => 0x60,
            Instruction::LAdd(_) => 0x61,
            Instruction::FAdd(_) => 0x62,
            Instruction::DAdd(_) => 0x63,
            Instruction::ISub(_) => 0x64,
            Instruction::LSub(_) => 0x65,
            Instruction::FSub(_) => 0x66,
            Instruction::DSub(_) => 0x67,
            Instruction::IMul(_) => 0x68,
            Instruction::LMul(_) => 0x69,
            Instruction::FMul(_) => 0x6a,
            Instruction::DMul(_) => 0x6b,
            Instruction::IDiv(_) => 0x6c,
            Instruction::LDiv(_) => 0x6d,
            Instruction::FDiv(_) => 0x6e,
            Instruction::DDiv(_) => 0x6f,
            Instruction::IRem(_) => 0x70,
            Instruction::LRem(_) => 0x71,
            Instruction::FRem(_) => 0x72,
            Instruction::DRem(_) => 0x73,
            Instruction::INeg(_) => 0x74,
            Instruction::LNeg(_) => 0x75,
            Instruction::FNeg(_) => 0x76,
            Instruction::DNeg(_) => 0x77,
            Instruction::ISHL(_) => 0x78,
            Instruction::LSHL(_) => 0x79,
            Instruction::ISHR(_) => 0x7a,
            Instruction::LSHR(_) => 0x7b,
            Instruction::IUSHR(_) => 0x7c,
            Instruction::LUSHR(_) => 0x7d,
            Instruction::IAnd(_) => 0x7e,
            Instruction::LAnd(_) => 0x7f,
            Instruction::IOR(_) => 0x80,
            Instruction::LOR(_) => 0x81,
            Instruction::IXOR(_) => 0x82,
            Instruction::LXOR(_) => 0x83,
            Instruction::IINC(_) => 0x84,
            Instruction::I2L(_) => 0x85,
            Instruction::I2F(_) => 0x86,
            Instruction::I2D(_) => 0x87,
            Instruction::L2I(_) => 0x88,
            Instruction::L2F(_) => 0x89,
            Instruction::L2D(_) => 0x8a,
            Instruction::F2I(_) => 0x8b,
            Instruction::F2L(_) => 0x8c,
            Instruction::F2D(_) => 0x8d,
            Instruction::D2I(_) => 0x8e,
            Instruction::D2L(_) => 0x8f,
            Instruction::D2F(_) => 0x90,
            Instruction::I2B(_) => 0x91,
            Instruction::I2C(_) => 0x92,
            Instruction::I2S(_) => 0x93,
            Instruction::LCMP(_) => 0x94,
            Instruction::FCMPL(_) => 0x95,
            Instruction::FCMPG(_) => 0x96,
            Instruction::DCMPL(_) => 0x97,
            Instruction::DCMPG(_) => 0x98,
            Instruction::IFEQ(_) => 0x99,
            Instruction::IFNE(_) => 0x9a,
            Instruction::IFLT(_) => 0x9b,
            Instruction::IFGE(_) => 0x9c,
            Instruction::IFGT(_) => 0x9d,
            Instruction::IFLE(_) => 0x9e,
            Instruction::IFICMPEQ(_) => 0x9f,
            Instruction::IFICMPNE(_) => 0xa0,
            Instruction::IFICMPLT(_) => 0xa1,
            Instruction::IFICMPGE(_) => 0xa2,
            Instruction::IFICMPGT(_) => 0xa3,
            Instruction::IFICMPLE(_) => 0xa4,
            Instruction::IFACMPEQ(_) => 0xa5,
            Instruction::IFACMPNE(_) => 0xa6,
            Instruction::GOTO(_) => 0xa7,
            Instruction::TableSwitch(_) => 0xaa,
            Instruction::LookUpSwitch(_) => 0xab,
            Instruction::IReturn(_) => 0xac,
            Instruction::LReturn(_) => 0xad,
            Instruction::FReturn(_) => 0xae,
            Instruction::DReturn(_) => 0xaf,
            Instruction::AReturn(_) => 0xb0,
            Instruction::Return(_) => 0xb1,
            Instruction::WIDE(_) => 0xc4,
            Instruction::IFNULL(_) => 0xc6,
            Instruction::IFNOTNULL(_) => 0xc7,
            Instruction::GOTO_W(_) => 0xc8,
        }
    }

    /// Executes the instruction, found at address `pc`, against `frame`.
    pub fn execute(&self, frame: &mut Frame, pc: i32) -> (r: Result<Outcome, ExecError>)
        requires
            old(frame).wf(),
        ensures
            applied(*old(frame), *final(frame), r, effect(*self, old(frame).operand_stack@, old(frame).local_vars@,
                old(frame).operand_stack.capacity(), pc)),
        decreases self, 1int,
    {
        let op = self.opcode();
        if op <= 0x56 {
            self.execute_in(frame, pc, 0x00, 0x56)
        } else if op <= 0xab {
            self.execute_in(frame, pc, 0x57, 0xab)
        } else {
            self.execute_in(frame, pc, 0xac, 0xc8)
        }
    }

    /// Executes an instruction whose opcode lies in `lo..=hi`, one of the
    /// three ranges that `execute` splits the opcodes into.
    fn execute_in(&self, frame: &mut Frame, pc: i32, lo: u8, hi: u8) -> (r: Result<Outcome, ExecError>)
        requires
            old(frame).wf(),
            lo <= opcode_of(*self) <= hi,
            (lo == 0x00 && hi == 0x56) || (lo == 0x57 && hi == 0xab) || (lo == 0xac && hi == 0xc8),
        ensures
            applied(*old(frame), *final(frame), r, effect(*self, old(frame).operand_stack@, old(frame).local_vars@,
                old(frame).operand_stack.capacity(), pc)),
        decreases self, 0int,
    {
        if hi == 0x56 {
            match self {
                Instruction::NoOperandsInstruction(_) => exec_nop(frame),
                Instruction::AConstNull(_) => exec_push(frame, Slot { num: 0, reference: None }),
                Instruction::IConstM1(_) => exec_push(frame, Slot { num: -1i32, reference: None }),
                Instruction::IConst0(_) => exec_push(frame, Slot { num: 0i32, reference: None }),
                Instruction::IConst1(_) => exec_push(frame, Slot { num: 1i32, reference: None }),
                Instruction::IConst2(_) => exec_push(frame, Slot { num: 2i32, reference: None }),
                Instruction::IConst3(_) => exec_push(frame, Slot { num: 3i32, reference: None }),
                Instruction::IConst4(_) => exec_push(frame, Slot { num: 4i32, reference: None }),
                Instruction::IConst5(_) => exec_push(frame, Slot { num: 5i32, reference: None }),
                Instruction::LConst0(_) => exec_push_long(frame, 0i64),
                Instruction::LConst1(_) => exec_push_long(frame, 1i64),
                Instruction::FConst0(_) => exec_push(frame, Slot { num: 0i32, reference: None }),
                Instruction::FConst1(_) => exec_push(frame, Slot { num: FLOAT_ONE, reference: None }),
                Instruction::FConst2(_) => exec_push(frame, Slot { num: FLOAT_TWO, reference: None }),
                Instruction::DConst0(_) => exec_push_long(frame, 0i64),
                Instruction::DConst1(_) => exec_push_long(frame, DOUBLE_ONE),
                Instruction::BIPush(i) => exec_push(frame, Slot { num: i.value as i32, reference: None }),
                Instruction::SIPush(i) => exec_push(frame, Slot { num: i.value as i32, reference: None }),
                Instruction::ILoad(i) => exec_load(frame, i.index, 1),
                Instruction::LLoad(i) => exec_load(frame, i.index, 2),
                Instruction::FLoad(i) => exec_load(frame, i.index, 1),
                Instruction::DLoad(i) => exec_load(frame, i.index, 2),
                Instruction::ALoad(i) => exec_load(frame, i.index, 1),
                Instruction::ILoad0(_) => exec_load(frame, 0, 1),
                Instruction::ILoad1(_) => exec_load(frame, 1, 1),
                Instruction::ILoad2(_) => exec_load(frame, 2, 1),
                Instruction::ILoad3(_) => exec_load(frame, 3, 1),
                Instruction::LLoad0(_) => exec_load(frame, 0, 2),
                Instruction::LLoad1(_) => exec_load(frame, 1, 2),
                Instruction::LLoad2(_) => exec_load(frame, 2, 2),
                Instruction::LLoad3(_) => exec_load(frame, 3, 2),
                Instruction::FLoad0(_) => exec_load(frame, 0, 1),
                Instruction::FLoad1(_) => exec_load(frame, 1, 1),
                Instruction::FLoad2(_) => exec_load(frame, 2, 1),
                Instruction::FLoad3(_) => exec_load(frame, 3, 1),
                Instruction::DLoad0(_) => exec_load(frame, 0, 2),
                Instruction::DLoad1(_) => exec_load(frame, 1, 2),
                Instruction::DLoad2(_) => exec_load(frame, 2, 2),
                Instruction::DLoad3(_) => exec_load(frame, 3, 2),
                Instruction::ALoad0(_) => exec_load(frame, 0, 1),
                Instruction::ALoad1(_) => exec_load(frame, 1, 1),
                Instruction::ALoad2(_) => exec_load(frame, 2, 1),
                Instruction::ALoad3(_) => exec_load(frame, 3, 1),
                Instruction::IStore(i) => exec_store(frame, i.index, 1),
                Instruction::LStore(i) => exec_store(frame, i.index, 2),
                Instruction::FStore(i) => exec_store(frame, i.index, 1),
                Instruction::DStore(i) => exec_store(frame, i.index, 2),
                Instruction::AStore(i) => exec_store(frame, i.index, 1),
                Instruction::IStore0(_) => exec_store(frame, 0, 1),
                Instruction::IStore1(_) => exec_store(frame, 1, 1),
                Instruction::IStore2(_) => exec_store(frame, 2, 1),
                Instruction::IStore3(_) => exec_store(frame, 3, 1),
                Instruction::LStore0(_) => exec_store(frame, 0, 2),
                Instruction::LStore1(_) => exec_store(frame, 1, 2),
                Instruction::LStore2(_) => exec_store(frame, 2, 2),
                Instruction::LStore3(_) => exec_store(frame, 3, 2),
                Instruction::FStore0(_) => exec_store(frame, 0, 1),
                Instruction::FStore1(_) => exec_store(frame, 1, 1),
                Instruction::FStore2(_) => exec_store(frame, 2, 1),
                Instruction::FStore3(_) => exec_store(frame, 3, 1),
                Instruction::DStore0(_) => exec_store(frame, 0, 2),
                Instruction::DStore1(_) => exec_store(frame, 1, 2),
                Instruction::DStore2(_) => exec_store(frame, 2, 2),
                Instruction::DStore3(_) => exec_store(frame, 3, 2),
                Instruction::AStore0(_) => exec_store(frame, 0, 1),
                Instruction::AStore1(_) => exec_store(frame, 1, 1),
                Instruction::AStore2(_) => exec_store(frame, 2, 1),
                Instruction::AStore3(_) => exec_store(frame, 3, 1),
                // not reached: the requires clause keeps the opcode in this range
                _ => exec_nop(frame),
            }
        } else if hi == 0xab {
            match self {
                Instruction::Pop(_) => exec_stack_op(frame, StackOp::Pop),
                Instruction::Pop2(_) => exec_stack_op(frame, StackOp::Pop2),
                Instruction::Dup(_) => exec_stack_op(frame, StackOp::Dup),
                Instruction::DupX1(_) => exec_stack_op(frame, StackOp::DupX1),
                Instruction::DupX2(_) => exec_stack_op(frame, StackOp::DupX2),
                Instruction::Dup2(_) => exec_stack_op(frame, StackOp::Dup2),
                Instruction::Dup2X1(_) => exec_stack_op(frame, StackOp::Dup2X1),
                Instruction::Dup2X2(_) => exec_stack_op(frame, StackOp::Dup2X2),
                Instruction::Swap(_) => exec_stack_op(frame, StackOp::Swap),
                Instruction::IAdd(_) => exec_int_binary(frame, BinOp::Add),
                Instruction::LAdd(_) => exec_long_binary(frame, BinOp::Add),
                Instruction::FAdd(_) => exec_host(frame, FloatOp::FAdd),
                Instruction::DAdd(_) => exec_host(frame, FloatOp::DAdd),
                Instruction::ISub(_) => exec_int_binary(frame, BinOp::Sub),
                Instruction::LSub(_) => exec_long_binary(frame, BinOp::Sub),
                Instruction::FSub(_) => exec_host(frame, FloatOp::FSub),
                Instruction::DSub(_) => exec_host(frame, FloatOp::DSub),
                Instruction::IMul(_) => exec_int_binary(frame, BinOp::Mul),
                Instruction::LMul(_) => exec_long_binary(frame, BinOp::Mul),
                Instruction::FMul(_) => exec_host(frame, FloatOp::FMul),
                Instruction::DMul(_) => exec_host(frame, FloatOp::DMul),
                Instruction::IDiv(_) => exec_int_binary(frame, BinOp::Div),
                Instruction::LDiv(_) => exec_long_binary(frame, BinOp::Div),
                Instruction::FDiv(_) => exec_host(frame, FloatOp::FDiv),
                Instruction::DDiv(_) => exec_host(frame, FloatOp::DDiv),
                Instruction::IRem(_) => exec_int_binary(frame, BinOp::Rem),
                Instruction::LRem(_) => exec_long_binary(frame, BinOp::Rem),
                Instruction::FRem(_) => exec_host(frame, FloatOp::FRem),
                Instruction::DRem(_) => exec_host(frame, FloatOp::DRem),
                Instruction::INeg(_) => exec_int_unary(frame, UnaryOp::Neg),
                Instruction::LNeg(_) => exec_long_unary(frame, false),
                Instruction::FNeg(_) => exec_int_unary(frame, UnaryOp::FloatNeg),
                Instruction::DNeg(_) => exec_long_unary(frame, true),
                Instruction::ISHL(_) => exec_int_shift(frame, ShiftOp::Shl),
                Instruction::LSHL(_) => exec_long_shift(frame, ShiftOp::Shl),
                Instruction::ISHR(_) => exec_int_shift(frame, ShiftOp::Shr),
                Instruction::LSHR(_) => exec_long_shift(frame, ShiftOp::Shr),
                Instruction::IUSHR(_) => exec_int_shift(frame, ShiftOp::Ushr),
                Instruction::LUSHR(_) => exec_long_shift(frame, ShiftOp::Ushr),
                Instruction::IAnd(_) => exec_int_binary(frame, BinOp::And),
                Instruction::LAnd(_) => exec_long_binary(frame, BinOp::And),
                Instruction::IOR(_) => exec_int_binary(frame, BinOp::Or),
                Instruction::LOR(_) => exec_long_binary(frame, BinOp::Or),
                Instruction::IXOR(_) => exec_int_binary(frame, BinOp::Xor),
                Instruction::LXOR(_) => exec_long_binary(frame, BinOp::Xor),
                Instruction::IINC(i) => exec_iinc(frame, i.index, i.value),
                Instruction::I2L(_) => exec_i2l(frame),
                Instruction::I2F(_) => exec_host(frame, FloatOp::I2F),
                Instruction::I2D(_) => exec_host(frame, FloatOp::I2D),
                Instruction::L2I(_) => exec_l2i(frame),
                Instruction::L2F(_) => exec_host(frame, FloatOp::L2F),
                Instruction::L2D(_) => exec_host(frame, FloatOp::L2D),
                Instruction::F2I(_) => exec_host(frame, FloatOp::F2I),
                Instruction::F2L(_) => exec_host(frame, FloatOp::F2L),
                Instruction::F2D(_) => exec_host(frame, FloatOp::F2D),
                Instruction::D2I(_) => exec_host(frame, FloatOp::D2I),
                Instruction::D2L(_) => exec_host(frame, FloatOp::D2L),
                Instruction::D2F(_) => exec_host(frame, FloatOp::D2F),
                Instruction::I2B(_) => exec_int_unary(frame, UnaryOp::ToByte),
                Instruction::I2C(_) => exec_int_unary(frame, UnaryOp::ToChar),
                Instruction::I2S(_) => exec_int_unary(frame, UnaryOp::ToShort),
                Instruction::LCMP(_) => exec_lcmp(frame),
                Instruction::FCMPL(_) => exec_fcmp(frame, -1),
                Instruction::FCMPG(_) => exec_fcmp(frame, 1),
                Instruction::DCMPL(_) => exec_dcmp(frame, -1),
                Instruction::DCMPG(_) => exec_dcmp(frame, 1),
                Instruction::IFEQ(i) => exec_if_int(frame, pc, Cond::Eq, i.offset),
                Instruction::IFNE(i) => exec_if_int(frame, pc, Cond::Ne, i.offset),
                Instruction::IFLT(i) => exec_if_int(frame, pc, Cond::Lt, i.offset),
                Instruction::IFGE(i) => exec_if_int(frame, pc, Cond::Ge, i.offset),
                Instruction::IFGT(i) => exec_if_int(frame, pc, Cond::Gt, i.offset),
                Instruction::IFLE(i) => exec_if_int(frame, pc, Cond::Le, i.offset),
                Instruction::IFICMPEQ(i) => exec_if_icmp(frame, pc, Cond::Eq, i.offset),
                Instruction::IFICMPNE(i) => exec_if_icmp(frame, pc, Cond::Ne, i.offset),
                Instruction::IFICMPLT(i) => exec_if_icmp(frame, pc, Cond::Lt, i.offset),
                Instruction::IFICMPGE(i) => exec_if_icmp(frame, pc, Cond::Ge, i.offset),
                Instruction::IFICMPGT(i) => exec_if_icmp(frame, pc, Cond::Gt, i.offset),
                Instruction::IFICMPLE(i) => exec_if_icmp(frame, pc, Cond::Le, i.offset),
                Instruction::IFACMPEQ(i) => exec_if_acmp(frame, pc, true, i.offset),
                Instruction::IFACMPNE(i) => exec_if_acmp(frame, pc, false, i.offset),
                Instruction::GOTO(i) => exec_goto(frame, pc, i.offset),
                Instruction::TableSwitch(i) => exec_table_switch(frame, pc, i.default_offset, i.low, i.high, &i.jump_offsets),
                Instruction::LookUpSwitch(i) => exec_lookup_switch(frame, pc, i.default_offset, &i.match_offsets),
                // not reached: the requires clause keeps the opcode in this range
                _ => exec_nop(frame),
            }
        } else {
            match self {
                Instruction::IReturn(_) => exec_return(frame, ReturnKind::Int),
                Instruction::LReturn(_) => exec_return(frame, ReturnKind::Long),
                Instruction::FReturn(_) => exec_return(frame, ReturnKind::Float),
                Instruction::DReturn(_) => exec_return(frame, ReturnKind::Double),
                Instruction::AReturn(_) => exec_return(frame, ReturnKind::Reference),
                Instruction::Return(_) => exec_return(frame, ReturnKind::Void),
                Instruction::WIDE(i) => i.modified_inst.execute(frame, pc),
                Instruction::IFNULL(i) => exec_if_null(frame, pc, true, i.offset),
                Instruction::IFNOTNULL(i) => exec_if_null(frame, pc, false, i.offset),
                Instruction::GOTO_W(i) => exec_goto(frame, pc, i.offset),
                // not reached: the requires clause keeps the opcode in this range
                _ => exec_nop(frame),
            }
        }
    }
}

fn read_table_switch(i: &mut TableSwitch, reader: &mut BytecodeReader) -> (r: Result<(), ExecError>)
    ensures
        final(reader).content@ == old(reader).content@,
        r is Ok ==> table_read(*final(i), old(reader).content@, old(reader).cursor as int, final(reader).cursor as int),
        r is Err ==> r->Err_0 == ExecError::TruncatedCode,
        r is Ok <==> operands_fit(Instruction::TableSwitch(*old(i)), old(reader).content@, old(reader).cursor as int),
{
    reader.skip_padding()?;
    i.default_offset = reader.read_i32()?;
    i.low = reader.read_i32()?;
    i.high = reader.read_i32()?;
    let count: i64 = if i.high < i.low { 0 } else { i.high as i64 - i.low as i64 + 1 };
    i.jump_offsets = reader.read_i32s(count)?;
    Ok(())
}

fn read_lookup_switch(i: &mut LookUpSwitch, reader: &mut BytecodeReader) -> (r: Result<(), ExecError>)
    ensures
        final(reader).content@ == old(reader).content@,
        r is Ok ==> lookup_read(*final(i), old(reader).content@, old(reader).cursor as int, final(reader).cursor as int),
        r is Err ==> r->Err_0 == ExecError::TruncatedCode,
        r is Ok <==> operands_fit(Instruction::LookUpSwitch(*old(i)), old(reader).content@, old(reader).cursor as int),
{
    reader.skip_padding()?;
    i.default_offset = reader.read_i32()?;
    i.n_pairs = reader.read_i32()?;
    let count: i64 = if i.n_pairs < 0 { 0 } else { 2 * i.n_pairs as i64 };
    i.match_offsets = reader.read_i32s(count)?;
    Ok(())
}

/// Reads the opcode that WIDE widens, and its 16-bit operands.
fn read_wide(reader: &mut BytecodeReader) -> (r: Result<Instruction, ExecError>)
    ensures
        final(reader).content@ == old(reader).content@,
        r matches Ok(ins) ==> wide_read(ins, old(reader).content@, old(reader).cursor as int, final(reader).cursor as int),
        r is Err ==> r->Err_0 == ExecError::TruncatedCode || r->Err_0 is UnknownOpcode,
        ({
            let code = old(reader).content@;
            let c = old(reader).cursor as int;
            in_code(code, c, 1) && widenable(code[c]) && in_code(code, c + 1, if code[c] == 0x84 { 4int } else { 2int })
        }) <==> r is Ok,
{
    let op = reader.read_u8()?;
    if op == 0x84 {
        let index = reader.read_u16()?;
        let value = reader.read_i16()?;
        return Ok(Instruction::IINC(IINC { index, value }));
    }
    if !((0x15 <= op && op <= 0x19) || (0x36 <= op && op <= 0x3a)) {
        return Err(ExecError::UnknownOpcode(op));
    }
    let index = reader.read_u16()?;
    let ins = match op {
        0x15 => Instruction::ILoad(ILoad { index }),
        0x16 => Instruction::LLoad(LLoad { index }),
        0x17 => Instruction::FLoad(FLoad { index }),
        0x18 => Instruction::DLoad(DLoad { index }),
        0x19 => Instruction::ALoad(ALoad { index }),
        0x36 => Instruction::IStore(IStore { index }),
        0x37 => Instruction::LStore(LStore { index }),
        0x38 => Instruction::FStore(FStore { index }),
        0x39 => Instruction::DStore(DStore { index }),
        _ => Instruction::AStore(AStore { index }),
    };
    Ok(ins)
}

/// With a NaN among the two compared values, FCMPG and DCMPG push 1, and
/// FCMPL and DCMPL push -1.
pub proof fn lemma_nan_comparisons(st: Seq<Slot>, lv: Seq<Slot>, cap: nat, pc: i32)
    ensures
        st.len() >= 2 && (float_is_nan(int_at(st, 0) as u32) || float_is_nan(int_at(st, 1) as u32)) ==> {
            &&& effect(Instruction::FCMPG(FCMPG), st, lv, cap, pc) == next(drop(st, 2).push(num_slot(1)), lv)
            &&& effect(Instruction::FCMPL(FCMPL), st, lv, cap, pc) == next(drop(st, 2).push(num_slot(-1i32)), lv)
        },
        st.len() >= 4 && (double_is_nan(long_at(st, 0) as u64) || double_is_nan(long_at(st, 2) as u64)) ==> {
            &&& effect(Instruction::DCMPG(DCMPG), st, lv, cap, pc) == next(drop(st, 4).push(num_slot(1)), lv)
            &&& effect(Instruction::DCMPL(DCMPL), st, lv, cap, pc) == next(drop(st, 4).push(num_slot(-1i32)), lv)
        },
{
}

} // verus!
