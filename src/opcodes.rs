//! Opcodes, types and the table that says how each opcode's operands are encoded.
use vstd::prelude::*;

verus! {

/// The operation of an instruction, numbered as in the opcode field.
#[derive(Debug, Clone, Copy, PartialEq, Eq, Structural)]
pub enum HSOpCode {
    GetField,
    Test,
    CallI,
    CallC,
    Eq,
    EqBk,
    GetGlobal,
    Move,
    SelfOp,
    Return,
    GetTableS,
    GetTableN,
    GetTable,
    LoadBool,
    TForLoop,
    SetField,
    SetTableS,
    SetTableSBk,
    SetTableN,
    SetTableNBk,
    SetTable,
    SetTableBk,
    TailCallI,
    TailCallC,
    TailCallM,
    LoadK,
    LoadNil,
    SetGlobal,
    Jmp,
    CallM,
    Call,
    IntrinsicIndex,
    IntrinsicNewIndex,
    IntrinsicSelf,
    IntrinsicLiteral,
    IntrinsicNewIndexLiteral,
    IntrinsicSelfLiteral,
    TailCall,
    GetUpval,
    SetUpval,
    Add,
    AddBk,
    Sub,
    SubBk,
    Mul,
    MulBk,
    Div,
    DivBk,
    Mod,
    ModBk,
    Pow,
    PowBk,
    NewTable,
    Unm,
    Not,
    Len,
    Lt,
    LtBk,
    Le,
    LeBk,
    Concat,
    TestSet,
    ForPrep,
    ForLoop,
    SetList,
    Close,
    Closure,
    Vararg,
    TailCallIR1,
    CallIR1,
    SetUpvalR1,
    TestR1,
    NotR1,
    GetFieldR1,
    SetFieldR1,
    NewStruct,
    Data,
    SetSlotN,
    SetSlotI,
    SetSlot,
    SetSlotS,
    SetSlotMt,
    CheckType,
    CheckTypes,
    GetSlot,
    GetSlotMt,
    SelfSlot,
    SelfSlotMt,
    GetFieldMm,
    CheckTypeD,
    GetSlotD,
    GetGlobalMem,
    NumOpcodes,
}

/// The value types of the format, numbered as their type bytes.
#[derive(Debug, Clone, Copy, PartialEq, Eq, Structural)]
pub enum HSType {
    TNIL,
    TBOOLEAN,
    TLIGHTUSERDATA,
    TNUMBER,
    TSTRING,
    TTABLE,
    TFUNCTION,
    TUSERDATA,
    TTHREAD,
    TIFUNCTION,
    TCFUNCTION,
    TUI64,
    TSTRUCT,
}

/// How a decoded operand is to be read.
#[derive(Debug, Clone, Copy, PartialEq, Eq, Structural)]
pub enum HSOpArgMode {
    NUMBER,
    REG,
    CONST,
}

/// Whether an opcode uses its A field as a register.
#[derive(Debug, Clone, Copy, PartialEq, Eq, Structural)]
pub enum HSOpArgModeA {
    UNUSED,
    REG,
}

/// The layout of the fields after A.
#[derive(Debug, Clone, Copy, PartialEq, Eq, Structural)]
pub enum HSOpMode {
    /// Two fields, B and C.
    ABC,
    /// One wide unsigned field.
    ABX,
    /// One wide field, biased to hold a signed offset.
    ASBX,
}

/// The meaning of a B or C field.
#[derive(Debug, Clone, Copy, PartialEq, Eq, Structural)]
pub enum HSOpArgModeBC {
    UNUSED,
    NUMBER,
    OFFSET,
    REG,
    /// A register below 256, else a constant index.
    REGCONST,
    CONST,
}

/// One entry of the opcode table.
#[derive(Debug, Clone, Copy, PartialEq, Eq, Structural)]
pub struct HSMode {
    pub op_code: HSOpCode,
    pub op_mode: HSOpMode,
    pub op_mode_a: HSOpArgModeA,
    pub op_mode_b: HSOpArgModeBC,
    pub op_mode_c: HSOpArgModeBC,
}

/// The number of entries in the opcode table.
pub const OP_TABLE_LEN: u8 = 92;

/// An entry of the opcode table, built from its five columns.
pub open spec fn entry(
    op_code: HSOpCode,
    op_mode: HSOpMode,
    op_mode_a: HSOpArgModeA,
    op_mode_b: HSOpArgModeBC,
    op_mode_c: HSOpArgModeBC,
) -> HSMode {
    HSMode { op_code, op_mode, op_mode_a, op_mode_b, op_mode_c }
}

/// The opcode table: how the operands of each opcode below [`OP_TABLE_LEN`] are encoded.
pub open spec fn op_table(op: u8) -> Option<HSMode> {
    match op {
        0u8 => Some(entry(HSOpCode::GetField, HSOpMode::ABC, HSOpArgModeA::REG, HSOpArgModeBC::REG, HSOpArgModeBC::CONST)),
        1u8 => Some(entry(HSOpCode::Test, HSOpMode::ABC, HSOpArgModeA::REG, HSOpArgModeBC::UNUSED, HSOpArgModeBC::NUMBER)),
        2u8 => Some(entry(HSOpCode::CallI, HSOpMode::ABC, HSOpArgModeA::REG, HSOpArgModeBC::NUMBER, HSOpArgModeBC::NUMBER)),
        3u8 => Some(entry(HSOpCode::CallC, HSOpMode::ABC, HSOpArgModeA::REG, HSOpArgModeBC::NUMBER, HSOpArgModeBC::NUMBER)),
        4u8 => Some(entry(HSOpCode::Eq, HSOpMode::ABC, HSOpArgModeA::UNUSED, HSOpArgModeBC::REGCONST, HSOpArgModeBC::REGCONST)),
        5u8 => Some(entry(HSOpCode::EqBk, HSOpMode::ABC, HSOpArgModeA::UNUSED, HSOpArgModeBC::REGCONST, HSOpArgModeBC::REGCONST)),
        6u8 => Some(entry(HSOpCode::GetGlobal, HSOpMode::ABX, HSOpArgModeA::REG, HSOpArgModeBC::CONST, HSOpArgModeBC::NUMBER)),
        7u8 => Some(entry(HSOpCode::Move, HSOpMode::ABC, HSOpArgModeA::REG, HSOpArgModeBC::REG, HSOpArgModeBC::UNUSED)),
        8u8 => Some(entry(HSOpCode::SelfOp, HSOpMode::ABC, HSOpArgModeA::REG, HSOpArgModeBC::REG, HSOpArgModeBC::REGCONST)),
        9u8 => Some(entry(HSOpCode::Return, HSOpMode::ABC, HSOpArgModeA::REG, HSOpArgModeBC::NUMBER, HSOpArgModeBC::UNUSED)),
        10u8 => Some(entry(HSOpCode::GetTableS, HSOpMode::ABC, HSOpArgModeA::REG, HSOpArgModeBC::REG, HSOpArgModeBC::REGCONST)),
        11u8 => Some(entry(HSOpCode::GetTableN, HSOpMode::ABC, HSOpArgModeA::REG, HSOpArgModeBC::REG, HSOpArgModeBC::REGCONST)),
        12u8 => Some(entry(HSOpCode::GetTable, HSOpMode::ABC, HSOpArgModeA::REG, HSOpArgModeBC::REG, HSOpArgModeBC::REGCONST)),
        13u8 => Some(entry(HSOpCode::LoadBool, HSOpMode::ABC, HSOpArgModeA::REG, HSOpArgModeBC::NUMBER, HSOpArgModeBC::NUMBER)),
        14u8 => Some(entry(HSOpCode::TForLoop, HSOpMode::ABC, HSOpArgModeA::REG, HSOpArgModeBC::UNUSED, HSOpArgModeBC::NUMBER)),
        15u8 => Some(entry(HSOpCode::SetField, HSOpMode::ABC, HSOpArgModeA::REG, HSOpArgModeBC::CONST, HSOpArgModeBC::REGCONST)),
        16u8 => Some(entry(HSOpCode::SetTableS, HSOpMode::ABC, HSOpArgModeA::REG, HSOpArgModeBC::REGCONST, HSOpArgModeBC::REGCONST)),
        17u8 => Some(entry(HSOpCode::SetTableSBk, HSOpMode::ABC, HSOpArgModeA::REG, HSOpArgModeBC::REGCONST, HSOpArgModeBC::REGCONST)),
        18u8 => Some(entry(HSOpCode::SetTableN, HSOpMode::ABC, HSOpArgModeA::REG, HSOpArgModeBC::REGCONST, HSOpArgModeBC::REGCONST)),
        19u8 => Some(entry(HSOpCode::SetTableNBk, HSOpMode::ABC, HSOpArgModeA::REG, HSOpArgModeBC::REGCONST, HSOpArgModeBC::REGCONST)),
        20u8 => Some(entry(HSOpCode::SetTable, HSOpMode::ABC, HSOpArgModeA::REG, HSOpArgModeBC::REGCONST, HSOpArgModeBC::REGCONST)),
        21u8 => Some(entry(HSOpCode::SetTableBk, HSOpMode::ABC, HSOpArgModeA::REG, HSOpArgModeBC::REGCONST, HSOpArgModeBC::REGCONST)),
        22u8 => Some(entry(HSOpCode::TailCallI, HSOpMode::ABC, HSOpArgModeA::REG, HSOpArgModeBC::NUMBER, HSOpArgModeBC::NUMBER)),
        23u8 => Some(entry(HSOpCode::TailCallC, HSOpMode::ABC, HSOpArgModeA::REG, HSOpArgModeBC::NUMBER, HSOpArgModeBC::NUMBER)),
        24u8 => Some(entry(HSOpCode::TailCallM, HSOpMode::ABC, HSOpArgModeA::REG, HSOpArgModeBC::NUMBER, HSOpArgModeBC::NUMBER)),
        25u8 => Some(entry(HSOpCode::LoadK, HSOpMode::ABX, HSOpArgModeA::REG, HSOpArgModeBC::CONST, HSOpArgModeBC::UNUSED)),
        26u8 => Some(entry(HSOpCode::LoadNil, HSOpMode::ABC, HSOpArgModeA::REG, HSOpArgModeBC::REG, HSOpArgModeBC::UNUSED)),
        27u8 => Some(entry(HSOpCode::SetGlobal, HSOpMode::ABX, HSOpArgModeA::REG, HSOpArgModeBC::CONST, HSOpArgModeBC::UNUSED)),
        28u8 => Some(entry(HSOpCode::Jmp, HSOpMode::ASBX, HSOpArgModeA::UNUSED, HSOpArgModeBC::OFFSET, HSOpArgModeBC::UNUSED)),
        29u8 => Some(entry(HSOpCode::CallM, HSOpMode::ABC, HSOpArgModeA::REG, HSOpArgModeBC::NUMBER, HSOpArgModeBC::NUMBER)),
        30u8 => Some(entry(HSOpCode::Call, HSOpMode::ABC, HSOpArgModeA::REG, HSOpArgModeBC::NUMBER, HSOpArgModeBC::NUMBER)),
        31u8 => Some(entry(HSOpCode::IntrinsicIndex, HSOpMode::ABC, HSOpArgModeA::REG, HSOpArgModeBC::NUMBER, HSOpArgModeBC::NUMBER)),
        32u8 => Some(entry(HSOpCode::IntrinsicNewIndex, HSOpMode::ABC, HSOpArgModeA::REG, HSOpArgModeBC::NUMBER, HSOpArgModeBC::NUMBER)),
        33u8 => Some(entry(HSOpCode::IntrinsicSelf, HSOpMode::ABC, HSOpArgModeA::REG, HSOpArgModeBC::NUMBER, HSOpArgModeBC::NUMBER)),
        34u8 => Some(entry(HSOpCode::IntrinsicLiteral, HSOpMode::ABC, HSOpArgModeA::REG, HSOpArgModeBC::NUMBER, HSOpArgModeBC::NUMBER)),
        35u8 => Some(entry(HSOpCode::IntrinsicNewIndexLiteral, HSOpMode::ABC, HSOpArgModeA::REG, HSOpArgModeBC::NUMBER, HSOpArgModeBC::NUMBER)),
        36u8 => Some(entry(HSOpCode::IntrinsicSelfLiteral, HSOpMode::ABC, HSOpArgModeA::REG, HSOpArgModeBC::NUMBER, HSOpArgModeBC::NUMBER)),
        37u8 => Some(entry(HSOpCode::TailCall, HSOpMode::ABC, HSOpArgModeA::REG, HSOpArgModeBC::NUMBER, HSOpArgModeBC::NUMBER)),
        38u8 => Some(entry(HSOpCode::GetUpval, HSOpMode::ABC, HSOpArgModeA::REG, HSOpArgModeBC::NUMBER, HSOpArgModeBC::UNUSED)),
        39u8 => Some(entry(HSOpCode::SetUpval, HSOpMode::ABC, HSOpArgModeA::REG, HSOpArgModeBC::NUMBER, HSOpArgModeBC::UNUSED)),
        40u8 => Some(entry(HSOpCode::Add, HSOpMode::ABC, HSOpArgModeA::REG, HSOpArgModeBC::REGCONST, HSOpArgModeBC::REGCONST)),
        41u8 => Some(entry(HSOpCode::AddBk, HSOpMode::ABC, HSOpArgModeA::REG, HSOpArgModeBC::REGCONST, HSOpArgModeBC::REGCONST)),
        42u8 => Some(entry(HSOpCode::Sub, HSOpMode::ABC, HSOpArgModeA::REG, HSOpArgModeBC::REGCONST, HSOpArgModeBC::REGCONST)),
        43u8 => Some(entry(HSOpCode::SubBk, HSOpMode::ABC, HSOpArgModeA::REG, HSOpArgModeBC::REGCONST, HSOpArgModeBC::REGCONST)),
        44u8 => Some(entry(HSOpCode::Mul, HSOpMode::ABC, HSOpArgModeA::REG, HSOpArgModeBC::REGCONST, HSOpArgModeBC::REGCONST)),
        45u8 => Some(entry(HSOpCode::MulBk, HSOpMode::ABC, HSOpArgModeA::REG, HSOpArgModeBC::REGCONST, HSOpArgModeBC::REGCONST)),
        46u8 => Some(entry(HSOpCode::Div, HSOpMode::ABC, HSOpArgModeA::REG, HSOpArgModeBC::REGCONST, HSOpArgModeBC::REGCONST)),
        47u8 => Some(entry(HSOpCode::DivBk, HSOpMode::ABC, HSOpArgModeA::REG, HSOpArgModeBC::REGCONST, HSOpArgModeBC::REGCONST)),
        48u8 => Some(entry(HSOpCode::Mod, HSOpMode::ABC, HSOpArgModeA::REG, HSOpArgModeBC::REGCONST, HSOpArgModeBC::REGCONST)),
        49u8 => Some(entry(HSOpCode::ModBk, HSOpMode::ABC, HSOpArgModeA::REG, HSOpArgModeBC::REGCONST, HSOpArgModeBC::REGCONST)),
        50u8 => Some(entry(HSOpCode::Pow, HSOpMode::ABC, HSOpArgModeA::REG, HSOpArgModeBC::REGCONST, HSOpArgModeBC::REGCONST)),
        51u8 => Some(entry(HSOpCode::PowBk, HSOpMode::ABC, HSOpArgModeA::REG, HSOpArgModeBC::REGCONST, HSOpArgModeBC::REGCONST)),
        52u8 => Some(entry(HSOpCode::NewTable, HSOpMode::ABC, HSOpArgModeA::REG, HSOpArgModeBC::NUMBER, HSOpArgModeBC::NUMBER)),
        53u8 => Some(entry(HSOpCode::Unm, HSOpMode::ABC, HSOpArgModeA::REG, HSOpArgModeBC::REG, HSOpArgModeBC::UNUSED)),
        54u8 => Some(entry(HSOpCode::Not, HSOpMode::ABC, HSOpArgModeA::REG, HSOpArgModeBC::REG, HSOpArgModeBC::UNUSED)),
        55u8 => Some(entry(HSOpCode::Len, HSOpMode::ABC, HSOpArgModeA::REG, HSOpArgModeBC::REG, HSOpArgModeBC::UNUSED)),
        56u8 => Some(entry(HSOpCode::Lt, HSOpMode::ABC, HSOpArgModeA::UNUSED, HSOpArgModeBC::REGCONST, HSOpArgModeBC::REGCONST)),
        57u8 => Some(entry(HSOpCode::LtBk, HSOpMode::ABC, HSOpArgModeA::UNUSED, HSOpArgModeBC::REGCONST, HSOpArgModeBC::REGCONST)),
        58u8 => Some(entry(HSOpCode::Le, HSOpMode::ABC, HSOpArgModeA::UNUSED, HSOpArgModeBC::REGCONST, HSOpArgModeBC::REGCONST)),
        59u8 => Some(entry(HSOpCode::LeBk, HSOpMode::ABC, HSOpArgModeA::UNUSED, HSOpArgModeBC::REGCONST, HSOpArgModeBC::REGCONST)),
        60u8 => Some(entry(HSOpCode::Concat, HSOpMode::ABC, HSOpArgModeA::REG, HSOpArgModeBC::NUMBER, HSOpArgModeBC::NUMBER)),
        61u8 => Some(entry(HSOpCode::TestSet, HSOpMode::ABC, HSOpArgModeA::REG, HSOpArgModeBC::REG, HSOpArgModeBC::NUMBER)),
        62u8 => Some(entry(HSOpCode::ForPrep, HSOpMode::ASBX, HSOpArgModeA::REG, HSOpArgModeBC::OFFSET, HSOpArgModeBC::UNUSED)),
        63u8 => Some(entry(HSOpCode::ForLoop, HSOpMode::ASBX, HSOpArgModeA::REG, HSOpArgModeBC::OFFSET, HSOpArgModeBC::UNUSED)),
        64u8 => Some(entry(HSOpCode::SetList, HSOpMode::ABC, HSOpArgModeA::REG, HSOpArgModeBC::NUMBER, HSOpArgModeBC::OFFSET)),
        65u8 => Some(entry(HSOpCode::Close, HSOpMode::ABC, HSOpArgModeA::REG, HSOpArgModeBC::UNUSED, HSOpArgModeBC::UNUSED)),
        66u8 => Some(entry(HSOpCode::Closure, HSOpMode::ABX, HSOpArgModeA::REG, HSOpArgModeBC::NUMBER, HSOpArgModeBC::UNUSED)),
        67u8 => Some(entry(HSOpCode::Vararg, HSOpMode::ABC, HSOpArgModeA::REG, HSOpArgModeBC::NUMBER, HSOpArgModeBC::UNUSED)),
        68u8 => Some(entry(HSOpCode::TailCallIR1, HSOpMode::ABC, HSOpArgModeA::UNUSED, HSOpArgModeBC::NUMBER, HSOpArgModeBC::NUMBER)),
        69u8 => Some(entry(HSOpCode::CallIR1, HSOpMode::ABC, HSOpArgModeA::UNUSED, HSOpArgModeBC::NUMBER, HSOpArgModeBC::NUMBER)),
        70u8 => Some(entry(HSOpCode::SetUpvalR1, HSOpMode::ABC, HSOpArgModeA::REG, HSOpArgModeBC::NUMBER, HSOpArgModeBC::UNUSED)),
        71u8 => Some(entry(HSOpCode::TestR1, HSOpMode::ABC, HSOpArgModeA::REG, HSOpArgModeBC::UNUSED, HSOpArgModeBC::NUMBER)),
        72u8 => Some(entry(HSOpCode::NotR1, HSOpMode::ABC, HSOpArgModeA::REG, HSOpArgModeBC::REG, HSOpArgModeBC::UNUSED)),
        73u8 => Some(entry(HSOpCode::GetFieldR1, HSOpMode::ABC, HSOpArgModeA::REG, HSOpArgModeBC::REG, HSOpArgModeBC::CONST)),
        74u8 => Some(entry(HSOpCode::SetFieldR1, HSOpMode::ABC, HSOpArgModeA::REG, HSOpArgModeBC::CONST, HSOpArgModeBC::REGCONST)),
        75u8 => Some(entry(HSOpCode::NewStruct, HSOpMode::ABC, HSOpArgModeA::REG, HSOpArgModeBC::NUMBER, HSOpArgModeBC::NUMBER)),
        76u8 => Some(entry(HSOpCode::Data, HSOpMode::ABX, HSOpArgModeA::UNUSED, HSOpArgModeBC::OFFSET, HSOpArgModeBC::UNUSED)),
        77u8 => Some(entry(HSOpCode::SetSlotN, HSOpMode::ABC, HSOpArgModeA::REG, HSOpArgModeBC::UNUSED, HSOpArgModeBC::NUMBER)),
        78u8 => Some(entry(HSOpCode::SetSlotI, HSOpMode::ABC, HSOpArgModeA::REG, HSOpArgModeBC::NUMBER, HSOpArgModeBC::REGCONST)),
        79u8 => Some(entry(HSOpCode::SetSlot, HSOpMode::ABC, HSOpArgModeA::REG, HSOpArgModeBC::NUMBER, HSOpArgModeBC::REGCONST)),
        80u8 => Some(entry(HSOpCode::SetSlotS, HSOpMode::ABC, HSOpArgModeA::REG, HSOpArgModeBC::NUMBER, HSOpArgModeBC::REG)),
        81u8 => Some(entry(HSOpCode::SetSlotMt, HSOpMode::ABC, HSOpArgModeA::REG, HSOpArgModeBC::NUMBER, HSOpArgModeBC::REGCONST)),
        82u8 => Some(entry(HSOpCode::CheckType, HSOpMode::ABX, HSOpArgModeA::REG, HSOpArgModeBC::NUMBER, HSOpArgModeBC::UNUSED)),
        83u8 => Some(entry(HSOpCode::CheckTypes, HSOpMode::ABX, HSOpArgModeA::REG, HSOpArgModeBC::NUMBER, HSOpArgModeBC::UNUSED)),
        84u8 => Some(entry(HSOpCode::GetSlot, HSOpMode::ABC, HSOpArgModeA::REG, HSOpArgModeBC::REG, HSOpArgModeBC::NUMBER)),
        85u8 => Some(entry(HSOpCode::GetSlotMt, HSOpMode::ABC, HSOpArgModeA::REG, HSOpArgModeBC::REG, HSOpArgModeBC::NUMBER)),
        86u8 => Some(entry(HSOpCode::SelfSlot, HSOpMode::ABC, HSOpArgModeA::REG, HSOpArgModeBC::REG, HSOpArgModeBC::NUMBER)),
        87u8 => Some(entry(HSOpCode::SelfSlotMt, HSOpMode::ABC, HSOpArgModeA::REG, HSOpArgModeBC::REG, HSOpArgModeBC::NUMBER)),
        88u8 => Some(entry(HSOpCode::GetFieldMm, HSOpMode::ABC, HSOpArgModeA::REG, HSOpArgModeBC::REG, HSOpArgModeBC::CONST)),
        89u8 => Some(entry(HSOpCode::CheckTypeD, HSOpMode::ABX, HSOpArgModeA::REG, HSOpArgModeBC::NUMBER, HSOpArgModeBC::UNUSED)),
        90u8 => Some(entry(HSOpCode::GetSlotD, HSOpMode::ABC, HSOpArgModeA::REG, HSOpArgModeBC::REG, HSOpArgModeBC::NUMBER)),
        91u8 => Some(entry(HSOpCode::GetGlobalMem, HSOpMode::ABX, HSOpArgModeA::REG, HSOpArgModeBC::CONST, HSOpArgModeBC::NUMBER)),
        _ => None,
    }
}

/// Looks up the table entry of an opcode.
pub fn op_entry(op: u8) -> (r: Option<HSMode>)
    ensures
        r == op_table(op),
{
    match op {
        0u8 => Some(HSMode { op_code: HSOpCode::GetField, op_mode: HSOpMode::ABC, op_mode_a: HSOpArgModeA::REG, op_mode_b: HSOpArgModeBC::REG, op_mode_c: HSOpArgModeBC::CONST }),
        1u8 => Some(HSMode { op_code: HSOpCode::Test, op_mode: HSOpMode::ABC, op_mode_a: HSOpArgModeA::REG, op_mode_b: HSOpArgModeBC::UNUSED, op_mode_c: HSOpArgModeBC::NUMBER }),
        2u8 => Some(HSMode { op_code: HSOpCode::CallI, op_mode: HSOpMode::ABC, op_mode_a: HSOpArgModeA::REG, op_mode_b: HSOpArgModeBC::NUMBER, op_mode_c: HSOpArgModeBC::NUMBER }),
        3u8 => Some(HSMode { op_code: HSOpCode::CallC, op_mode: HSOpMode::ABC, op_mode_a: HSOpArgModeA::REG, op_mode_b: HSOpArgModeBC::NUMBER, op_mode_c: HSOpArgModeBC::NUMBER }),
        4u8 => Some(HSMode { op_code: HSOpCode::Eq, op_mode: HSOpMode::ABC, op_mode_a: HSOpArgModeA::UNUSED, op_mode_b: HSOpArgModeBC::REGCONST, op_mode_c: HSOpArgModeBC::REGCONST }),
        5u8 => Some(HSMode { op_code: HSOpCode::EqBk, op_mode: HSOpMode::ABC, op_mode_a: HSOpArgModeA::UNUSED, op_mode_b: HSOpArgModeBC::REGCONST, op_mode_c: HSOpArgModeBC::REGCONST }),
        6u8 => Some(HSMode { op_code: HSOpCode::GetGlobal, op_mode: HSOpMode::ABX, op_mode_a: HSOpArgModeA::REG, op_mode_b: HSOpArgModeBC::CONST, op_mode_c: HSOpArgModeBC::NUMBER }),
        7u8 => Some(HSMode { op_code: HSOpCode::Move, op_mode: HSOpMode::ABC, op_mode_a: HSOpArgModeA::REG, op_mode_b: HSOpArgModeBC::REG, op_mode_c: HSOpArgModeBC::UNUSED }),
        8u8 => Some(HSMode { op_code: HSOpCode::SelfOp, op_mode: HSOpMode::ABC, op_mode_a: HSOpArgModeA::REG, op_mode_b: HSOpArgModeBC::REG, op_mode_c: HSOpArgModeBC::REGCONST }),
        9u8 => Some(HSMode { op_code: HSOpCode::Return, op_mode: HSOpMode::ABC, op_mode_a: HSOpArgModeA::REG, op_mode_b: HSOpArgModeBC::NUMBER, op_mode_c: HSOpArgModeBC::UNUSED }),
        10u8 => Some(HSMode { op_code: HSOpCode::GetTableS, op_mode: HSOpMode::ABC, op_mode_a: HSOpArgModeA::REG, op_mode_b: HSOpArgModeBC::REG, op_mode_c: HSOpArgModeBC::REGCONST }),
        11u8 => Some(HSMode { op_code: HSOpCode::GetTableN, op_mode: HSOpMode::ABC, op_mode_a: HSOpArgModeA::REG, op_mode_b: HSOpArgModeBC::REG, op_mode_c: HSOpArgModeBC::REGCONST }),
        12u8 => Some(HSMode { op_code: HSOpCode::GetTable, op_mode: HSOpMode::ABC, op_mode_a: HSOpArgModeA::REG, op_mode_b: HSOpArgModeBC::REG, op_mode_c: HSOpArgModeBC::REGCONST }),
        13u8 => Some(HSMode { op_code: HSOpCode::LoadBool, op_mode: HSOpMode::ABC, op_mode_a: HSOpArgModeA::REG, op_mode_b: HSOpArgModeBC::NUMBER, op_mode_c: HSOpArgModeBC::NUMBER }),
        14u8 => Some(HSMode { op_code: HSOpCode::TForLoop, op_mode: HSOpMode::ABC, op_mode_a: HSOpArgModeA::REG, op_mode_b: HSOpArgModeBC::UNUSED, op_mode_c: HSOpArgModeBC::NUMBER }),
        15u8 => Some(HSMode { op_code: HSOpCode::SetField, op_mode: HSOpMode::ABC, op_mode_a: HSOpArgModeA::REG, op_mode_b: HSOpArgModeBC::CONST, op_mode_c: HSOpArgModeBC::REGCONST }),
        16u8 => Some(HSMode { op_code: HSOpCode::SetTableS, op_mode: HSOpMode::ABC, op_mode_a: HSOpArgModeA::REG, op_mode_b: HSOpArgModeBC::REGCONST, op_mode_c: HSOpArgModeBC::REGCONST }),
        17u8 => Some(HSMode { op_code: HSOpCode::SetTableSBk, op_mode: HSOpMode::ABC, op_mode_a: HSOpArgModeA::REG, op_mode_b: HSOpArgModeBC::REGCONST, op_mode_c: HSOpArgModeBC::REGCONST }),
        18u8 => Some(HSMode { op_code: HSOpCode::SetTableN, op_mode: HSOpMode::ABC, op_mode_a: HSOpArgModeA::REG, op_mode_b: HSOpArgModeBC::REGCONST, op_mode_c: HSOpArgModeBC::REGCONST }),
        19u8 => Some(HSMode { op_code: HSOpCode::SetTableNBk, op_mode: HSOpMode::ABC, op_mode_a: HSOpArgModeA::REG, op_mode_b: HSOpArgModeBC::REGCONST, op_mode_c: HSOpArgModeBC::REGCONST }),
        20u8 => Some(HSMode { op_code: HSOpCode::SetTable, op_mode: HSOpMode::ABC, op_mode_a: HSOpArgModeA::REG, op_mode_b: HSOpArgModeBC::REGCONST, op_mode_c: HSOpArgModeBC::REGCONST }),
        21u8 => Some(HSMode { op_code: HSOpCode::SetTableBk, op_mode: HSOpMode::ABC, op_mode_a: HSOpArgModeA::REG, op_mode_b: HSOpArgModeBC::REGCONST, op_mode_c: HSOpArgModeBC::REGCONST }),
        22u8 => Some(HSMode { op_code: HSOpCode::TailCallI, op_mode: HSOpMode::ABC, op_mode_a: HSOpArgModeA::REG, op_mode_b: HSOpArgModeBC::NUMBER, op_mode_c: HSOpArgModeBC::NUMBER }),
        23u8 => Some(HSMode { op_code: HSOpCode::TailCallC, op_mode: HSOpMode::ABC, op_mode_a: HSOpArgModeA::REG, op_mode_b: HSOpArgModeBC::NUMBER, op_mode_c: HSOpArgModeBC::NUMBER }),
        24u8 => Some(HSMode { op_code: HSOpCode::TailCallM, op_mode: HSOpMode::ABC, op_mode_a: HSOpArgModeA::REG, op_mode_b: HSOpArgModeBC::NUMBER, op_mode_c: HSOpArgModeBC::NUMBER }),
        25u8 => Some(HSMode { op_code: HSOpCode::LoadK, op_mode: HSOpMode::ABX, op_mode_a: HSOpArgModeA::REG, op_mode_b: HSOpArgModeBC::CONST, op_mode_c: HSOpArgModeBC::UNUSED }),
        26u8 => Some(HSMode { op_code: HSOpCode::LoadNil, op_mode: HSOpMode::ABC, op_mode_a: HSOpArgModeA::REG, op_mode_b: HSOpArgModeBC::REG, op_mode_c: HSOpArgModeBC::UNUSED }),
        27u8 => Some(HSMode { op_code: HSOpCode::SetGlobal, op_mode: HSOpMode::ABX, op_mode_a: HSOpArgModeA::REG, op_mode_b: HSOpArgModeBC::CONST, op_mode_c: HSOpArgModeBC::UNUSED }),
        28u8 => Some(HSMode { op_code: HSOpCode::Jmp, op_mode: HSOpMode::ASBX, op_mode_a: HSOpArgModeA::UNUSED, op_mode_b: HSOpArgModeBC::OFFSET, op_mode_c: HSOpArgModeBC::UNUSED }),
        29u8 => Some(HSMode { op_code: HSOpCode::CallM, op_mode: HSOpMode::ABC, op_mode_a: HSOpArgModeA::REG, op_mode_b: HSOpArgModeBC::NUMBER, op_mode_c: HSOpArgModeBC::NUMBER }),
        30u8 => Some(HSMode { op_code: HSOpCode::Call, op_mode: HSOpMode::ABC, op_mode_a: HSOpArgModeA::REG, op_mode_b: HSOpArgModeBC::NUMBER, op_mode_c: HSOpArgModeBC::NUMBER }),
        31u8 => Some(HSMode { op_code: HSOpCode::IntrinsicIndex, op_mode: HSOpMode::ABC, op_mode_a: HSOpArgModeA::REG, op_mode_b: HSOpArgModeBC::NUMBER, op_mode_c: HSOpArgModeBC::NUMBER }),
        32u8 => Some(HSMode { op_code: HSOpCode::IntrinsicNewIndex, op_mode: HSOpMode::ABC, op_mode_a: HSOpArgModeA::REG, op_mode_b: HSOpArgModeBC::NUMBER, op_mode_c: HSOpArgModeBC::NUMBER }),
        33u8 => Some(HSMode { op_code: HSOpCode::IntrinsicSelf, op_mode: HSOpMode::ABC, op_mode_a: HSOpArgModeA::REG, op_mode_b: HSOpArgModeBC::NUMBER, op_mode_c: HSOpArgModeBC::NUMBER }),
        34u8 => Some(HSMode { op_code: HSOpCode::IntrinsicLiteral, op_mode: HSOpMode::ABC, op_mode_a: HSOpArgModeA::REG, op_mode_b: HSOpArgModeBC::NUMBER, op_mode_c: HSOpArgModeBC::NUMBER }),
        35u8 => Some(HSMode { op_code: HSOpCode::IntrinsicNewIndexLiteral, op_mode: HSOpMode::ABC, op_mode_a: HSOpArgModeA::REG, op_mode_b: HSOpArgModeBC::NUMBER, op_mode_c: HSOpArgModeBC::NUMBER }),
        36u8 => Some(HSMode { op_code: HSOpCode::IntrinsicSelfLiteral, op_mode: HSOpMode::ABC, op_mode_a: HSOpArgModeA::REG, op_mode_b: HSOpArgModeBC::NUMBER, op_mode_c: HSOpArgModeBC::NUMBER }),
        37u8 => Some(HSMode { op_code: HSOpCode::TailCall, op_mode: HSOpMode::ABC, op_mode_a: HSOpArgModeA::REG, op_mode_b: HSOpArgModeBC::NUMBER, op_mode_c: HSOpArgModeBC::NUMBER }),
        38u8 => Some(HSMode { op_code: HSOpCode::GetUpval, op_mode: HSOpMode::ABC, op_mode_a: HSOpArgModeA::REG, op_mode_b: HSOpArgModeBC::NUMBER, op_mode_c: HSOpArgModeBC::UNUSED }),
        39u8 => Some(HSMode { op_code: HSOpCode::SetUpval, op_mode: HSOpMode::ABC, op_mode_a: HSOpArgModeA::REG, op_mode_b: HSOpArgModeBC::NUMBER, op_mode_c: HSOpArgModeBC::UNUSED }),
        40u8 => Some(HSMode { op_code: HSOpCode::Add, op_mode: HSOpMode::ABC, op_mode_a: HSOpArgModeA::REG, op_mode_b: HSOpArgModeBC::REGCONST, op_mode_c: HSOpArgModeBC::REGCONST }),
        41u8 => Some(HSMode { op_code: HSOpCode::AddBk, op_mode: HSOpMode::ABC, op_mode_a: HSOpArgModeA::REG, op_mode_b: HSOpArgModeBC::REGCONST, op_mode_c: HSOpArgModeBC::REGCONST }),
        42u8 => Some(HSMode { op_code: HSOpCode::Sub, op_mode: HSOpMode::ABC, op_mode_a: HSOpArgModeA::REG, op_mode_b: HSOpArgModeBC::REGCONST, op_mode_c: HSOpArgModeBC::REGCONST }),
        43u8 => Some(HSMode { op_code: HSOpCode::SubBk, op_mode: HSOpMode::ABC, op_mode_a: HSOpArgModeA::REG, op_mode_b: HSOpArgModeBC::REGCONST, op_mode_c: HSOpArgModeBC::REGCONST }),
        44u8 => Some(HSMode { op_code: HSOpCode::Mul, op_mode: HSOpMode::ABC, op_mode_a: HSOpArgModeA::REG, op_mode_b: HSOpArgModeBC::REGCONST, op_mode_c: HSOpArgModeBC::REGCONST }),
        45u8 => Some(HSMode { op_code: HSOpCode::MulBk, op_mode: HSOpMode::ABC, op_mode_a: HSOpArgModeA::REG, op_mode_b: HSOpArgModeBC::REGCONST, op_mode_c: HSOpArgModeBC::REGCONST }),
        46u8 => Some(HSMode { op_code: HSOpCode::Div, op_mode: HSOpMode::ABC, op_mode_a: HSOpArgModeA::REG, op_mode_b: HSOpArgModeBC::REGCONST, op_mode_c: HSOpArgModeBC::REGCONST }),
        47u8 => Some(HSMode { op_code: HSOpCode::DivBk, op_mode: HSOpMode::ABC, op_mode_a: HSOpArgModeA::REG, op_mode_b: HSOpArgModeBC::REGCONST, op_mode_c: HSOpArgModeBC::REGCONST }),
        48u8 => Some(HSMode { op_code: HSOpCode::Mod, op_mode: HSOpMode::ABC, op_mode_a: HSOpArgModeA::REG, op_mode_b: HSOpArgModeBC::REGCONST, op_mode_c: HSOpArgModeBC::REGCONST }),
        49u8 => Some(HSMode { op_code: HSOpCode::ModBk, op_mode: HSOpMode::ABC, op_mode_a: HSOpArgModeA::REG, op_mode_b: HSOpArgModeBC::REGCONST, op_mode_c: HSOpArgModeBC::REGCONST }),
        50u8 => Some(HSMode { op_code: HSOpCode::Pow, op_mode: HSOpMode::ABC, op_mode_a: HSOpArgModeA::REG, op_mode_b: HSOpArgModeBC::REGCONST, op_mode_c: HSOpArgModeBC::REGCONST }),
        51u8 => Some(HSMode { op_code: HSOpCode::PowBk, op_mode: HSOpMode::ABC, op_mode_a: HSOpArgModeA::REG, op_mode_b: HSOpArgModeBC::REGCONST, op_mode_c: HSOpArgModeBC::REGCONST }),
        52u8 => Some(HSMode { op_code: HSOpCode::NewTable, op_mode: HSOpMode::ABC, op_mode_a: HSOpArgModeA::REG, op_mode_b: HSOpArgModeBC::NUMBER, op_mode_c: HSOpArgModeBC::NUMBER }),
        53u8 => Some(HSMode { op_code: HSOpCode::Unm, op_mode: HSOpMode::ABC, op_mode_a: HSOpArgModeA::REG, op_mode_b: HSOpArgModeBC::REG, op_mode_c: HSOpArgModeBC::UNUSED }),
        54u8 => Some(HSMode { op_code: HSOpCode::Not, op_mode: HSOpMode::ABC, op_mode_a: HSOpArgModeA::REG, op_mode_b: HSOpArgModeBC::REG, op_mode_c: HSOpArgModeBC::UNUSED }),
        55u8 => Some(HSMode { op_code: HSOpCode::Len, op_mode: HSOpMode::ABC, op_mode_a: HSOpArgModeA::REG, op_mode_b: HSOpArgModeBC::REG, op_mode_c: HSOpArgModeBC::UNUSED }),
        56u8 => Some(HSMode { op_code: HSOpCode::Lt, op_mode: HSOpMode::ABC, op_mode_a: HSOpArgModeA::UNUSED, op_mode_b: HSOpArgModeBC::REGCONST, op_mode_c: HSOpArgModeBC::REGCONST }),
        57u8 => Some(HSMode { op_code: HSOpCode::LtBk, op_mode: HSOpMode::ABC, op_mode_a: HSOpArgModeA::UNUSED, op_mode_b: HSOpArgModeBC::REGCONST, op_mode_c: HSOpArgModeBC::REGCONST }),
        58u8 => Some(HSMode { op_code: HSOpCode::Le, op_mode: HSOpMode::ABC, op_mode_a: HSOpArgModeA::UNUSED, op_mode_b: HSOpArgModeBC::REGCONST, op_mode_c: HSOpArgModeBC::REGCONST }),
        59u8 => Some(HSMode { op_code: HSOpCode::LeBk, op_mode: HSOpMode::ABC, op_mode_a: HSOpArgModeA::UNUSED, op_mode_b: HSOpArgModeBC::REGCONST, op_mode_c: HSOpArgModeBC::REGCONST }),
        60u8 => Some(HSMode { op_code: HSOpCode::Concat, op_mode: HSOpMode::ABC, op_mode_a: HSOpArgModeA::REG, op_mode_b: HSOpArgModeBC::NUMBER, op_mode_c: HSOpArgModeBC::NUMBER }),
        61u8 => Some(HSMode { op_code: HSOpCode::TestSet, op_mode: HSOpMode::ABC, op_mode_a: HSOpArgModeA::REG, op_mode_b: HSOpArgModeBC::REG, op_mode_c: HSOpArgModeBC::NUMBER }),
        62u8 => Some(HSMode { op_code: HSOpCode::ForPrep, op_mode: HSOpMode::ASBX, op_mode_a: HSOpArgModeA::REG, op_mode_b: HSOpArgModeBC::OFFSET, op_mode_c: HSOpArgModeBC::UNUSED }),
        63u8 => Some(HSMode { op_code: HSOpCode::ForLoop, op_mode: HSOpMode::ASBX, op_mode_a: HSOpArgModeA::REG, op_mode_b: HSOpArgModeBC::OFFSET, op_mode_c: HSOpArgModeBC::UNUSED }),
        64u8 => Some(HSMode { op_code: HSOpCode::SetList, op_mode: HSOpMode::ABC, op_mode_a: HSOpArgModeA::REG, op_mode_b: HSOpArgModeBC::NUMBER, op_mode_c: HSOpArgModeBC::OFFSET }),
        65u8 => Some(HSMode { op_code: HSOpCode::Close, op_mode: HSOpMode::ABC, op_mode_a: HSOpArgModeA::REG, op_mode_b: HSOpArgModeBC::UNUSED, op_mode_c: HSOpArgModeBC::UNUSED }),
        66u8 => Some(HSMode { op_code: HSOpCode::Closure, op_mode: HSOpMode::ABX, op_mode_a: HSOpArgModeA::REG, op_mode_b: HSOpArgModeBC::NUMBER, op_mode_c: HSOpArgModeBC::UNUSED }),
        67u8 => Some(HSMode { op_code: HSOpCode::Vararg, op_mode: HSOpMode::ABC, op_mode_a: HSOpArgModeA::REG, op_mode_b: HSOpArgModeBC::NUMBER, op_mode_c: HSOpArgModeBC::UNUSED }),
        68u8 => Some(HSMode { op_code: HSOpCode::TailCallIR1, op_mode: HSOpMode::ABC, op_mode_a: HSOpArgModeA::UNUSED, op_mode_b: HSOpArgModeBC::NUMBER, op_mode_c: HSOpArgModeBC::NUMBER }),
        69u8 => Some(HSMode { op_code: HSOpCode::CallIR1, op_mode: HSOpMode::ABC, op_mode_a: HSOpArgModeA::UNUSED, op_mode_b: HSOpArgModeBC::NUMBER, op_mode_c: HSOpArgModeBC::NUMBER }),
        70u8 => Some(HSMode { op_code: HSOpCode::SetUpvalR1, op_mode: HSOpMode::ABC, op_mode_a: HSOpArgModeA::REG, op_mode_b: HSOpArgModeBC::NUMBER, op_mode_c: HSOpArgModeBC::UNUSED }),
        71u8 => Some(HSMode { op_code: HSOpCode::TestR1, op_mode: HSOpMode::ABC, op_mode_a: HSOpArgModeA::REG, op_mode_b: HSOpArgModeBC::UNUSED, op_mode_c: HSOpArgModeBC::NUMBER }),
        72u8 => Some(HSMode { op_code: HSOpCode::NotR1, op_mode: HSOpMode::ABC, op_mode_a: HSOpArgModeA::REG, op_mode_b: HSOpArgModeBC::REG, op_mode_c: HSOpArgModeBC::UNUSED }),
        73u8 => Some(HSMode { op_code: HSOpCode::GetFieldR1, op_mode: HSOpMode::ABC, op_mode_a: HSOpArgModeA::REG, op_mode_b: HSOpArgModeBC::REG, op_mode_c: HSOpArgModeBC::CONST }),
        74u8 => Some(HSMode { op_code: HSOpCode::SetFieldR1, op_mode: HSOpMode::ABC, op_mode_a: HSOpArgModeA::REG, op_mode_b: HSOpArgModeBC::CONST, op_mode_c: HSOpArgModeBC::REGCONST }),
        75u8 => Some(HSMode { op_code: HSOpCode::NewStruct, op_mode: HSOpMode::ABC, op_mode_a: HSOpArgModeA::REG, op_mode_b: HSOpArgModeBC::NUMBER, op_mode_c: HSOpArgModeBC::NUMBER }),
        76u8 => Some(HSMode { op_code: HSOpCode::Data, op_mode: HSOpMode::ABX, op_mode_a: HSOpArgModeA::UNUSED, op_mode_b: HSOpArgModeBC::OFFSET, op_mode_c: HSOpArgModeBC::UNUSED }),
        77u8 => Some(HSMode { op_code: HSOpCode::SetSlotN, op_mode: HSOpMode::ABC, op_mode_a: HSOpArgModeA::REG, op_mode_b: HSOpArgModeBC::UNUSED, op_mode_c: HSOpArgModeBC::NUMBER }),
        78u8 => Some(HSMode { op_code: HSOpCode::SetSlotI, op_mode: HSOpMode::ABC, op_mode_a: HSOpArgModeA::REG, op_mode_b: HSOpArgModeBC::NUMBER, op_mode_c: HSOpArgModeBC::REGCONST }),
        79u8 => Some(HSMode { op_code: HSOpCode::SetSlot, op_mode: HSOpMode::ABC, op_mode_a: HSOpArgModeA::REG, op_mode_b: HSOpArgModeBC::NUMBER, op_mode_c: HSOpArgModeBC::REGCONST }),
        80u8 => Some(HSMode { op_code: HSOpCode::SetSlotS, op_mode: HSOpMode::ABC, op_mode_a: HSOpArgModeA::REG, op_mode_b: HSOpArgModeBC::NUMBER, op_mode_c: HSOpArgModeBC::REG }),
        81u8 => Some(HSMode { op_code: HSOpCode::SetSlotMt, op_mode: HSOpMode::ABC, op_mode_a: HSOpArgModeA::REG, op_mode_b: HSOpArgModeBC::NUMBER, op_mode_c: HSOpArgModeBC::REGCONST }),
        82u8 => Some(HSMode { op_code: HSOpCode::CheckType, op_mode: HSOpMode::ABX, op_mode_a: HSOpArgModeA::REG, op_mode_b: HSOpArgModeBC::NUMBER, op_mode_c: HSOpArgModeBC::UNUSED }),
        83u8 => Some(HSMode { op_code: HSOpCode::CheckTypes, op_mode: HSOpMode::ABX, op_mode_a: HSOpArgModeA::REG, op_mode_b: HSOpArgModeBC::NUMBER, op_mode_c: HSOpArgModeBC::UNUSED }),
        84u8 => Some(HSMode { op_code: HSOpCode::GetSlot, op_mode: HSOpMode::ABC, op_mode_a: HSOpArgModeA::REG, op_mode_b: HSOpArgModeBC::REG, op_mode_c: HSOpArgModeBC::NUMBER }),
        85u8 => Some(HSMode { op_code: HSOpCode::GetSlotMt, op_mode: HSOpMode::ABC, op_mode_a: HSOpArgModeA::REG, op_mode_b: HSOpArgModeBC::REG, op_mode_c: HSOpArgModeBC::NUMBER }),
        86u8 => Some(HSMode { op_code: HSOpCode::SelfSlot, op_mode: HSOpMode::ABC, op_mode_a: HSOpArgModeA::REG, op_mode_b: HSOpArgModeBC::REG, op_mode_c: HSOpArgModeBC::NUMBER }),
        87u8 => Some(HSMode { op_code: HSOpCode::SelfSlotMt, op_mode: HSOpMode::ABC, op_mode_a: HSOpArgModeA::REG, op_mode_b: HSOpArgModeBC::REG, op_mode_c: HSOpArgModeBC::NUMBER }),
        88u8 => Some(HSMode { op_code: HSOpCode::GetFieldMm, op_mode: HSOpMode::ABC, op_mode_a: HSOpArgModeA::REG, op_mode_b: HSOpArgModeBC::REG, op_mode_c: HSOpArgModeBC::CONST }),
        89u8 => Some(HSMode { op_code: HSOpCode::CheckTypeD, op_mode: HSOpMode::ABX, op_mode_a: HSOpArgModeA::REG, op_mode_b: HSOpArgModeBC::NUMBER, op_mode_c: HSOpArgModeBC::UNUSED }),
        90u8 => Some(HSMode { op_code: HSOpCode::GetSlotD, op_mode: HSOpMode::ABC, op_mode_a: HSOpArgModeA::REG, op_mode_b: HSOpArgModeBC::REG, op_mode_c: HSOpArgModeBC::NUMBER }),
        91u8 => Some(HSMode { op_code: HSOpCode::GetGlobalMem, op_mode: HSOpMode::ABX, op_mode_a: HSOpArgModeA::REG, op_mode_b: HSOpArgModeBC::CONST, op_mode_c: HSOpArgModeBC::NUMBER }),
        _ => None,
    }
}

/// The type that a type byte names.
pub open spec fn type_of(b: u8) -> Option<HSType> {
    match b {
        0u8 => Some(HSType::TNIL),
        1u8 => Some(HSType::TBOOLEAN),
        2u8 => Some(HSType::TLIGHTUSERDATA),
        3u8 => Some(HSType::TNUMBER),
        4u8 => Some(HSType::TSTRING),
        5u8 => Some(HSType::TTABLE),
        6u8 => Some(HSType::TFUNCTION),
        7u8 => Some(HSType::TUSERDATA),
        8u8 => Some(HSType::TTHREAD),
        9u8 => Some(HSType::TIFUNCTION),
        10u8 => Some(HSType::TCFUNCTION),
        11u8 => Some(HSType::TUI64),
        12u8 => Some(HSType::TSTRUCT),
        _ => None,
    }
}

impl HSType {
    /// The type that a type byte names, if any.
    pub fn from_u8(b: u8) -> (r: Option<HSType>)
        ensures
            r == type_of(b),
    {
        match b {
            0u8 => Some(HSType::TNIL),
            1u8 => Some(HSType::TBOOLEAN),
            2u8 => Some(HSType::TLIGHTUSERDATA),
            3u8 => Some(HSType::TNUMBER),
            4u8 => Some(HSType::TSTRING),
            5u8 => Some(HSType::TTABLE),
            6u8 => Some(HSType::TFUNCTION),
            7u8 => Some(HSType::TUSERDATA),
            8u8 => Some(HSType::TTHREAD),
            9u8 => Some(HSType::TIFUNCTION),
            10u8 => Some(HSType::TCFUNCTION),
            11u8 => Some(HSType::TUI64),
            12u8 => Some(HSType::TSTRUCT),
            _ => None,
        }
    }
}

} // verus!
