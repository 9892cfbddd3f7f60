//! Decoding of one 32-bit instruction word, driven by the opcode table.
use vstd::prelude::*;
use crate::byte_order::WireOrder;
use crate::errors::{decoded_view, viewed, HkscError};
use crate::opcodes::{
    op_entry, op_table, HSMode, HSOpArgMode, HSOpArgModeA, HSOpArgModeBC, HSOpCode, HSOpMode,
};
use crate::header::HSHeader;
use crate::readable::HeaderReadable;
use crate::reader::{parse_u32, read_u32};

verus! {

/// The bias subtracted from the wide field of a signed-offset instruction.
pub const ASBX_BIAS: i32 = 0xffff;

/// Wide B and C values from here on name constants rather than registers.
pub const REG_CONST_THRESHOLD: u32 = 0x100;

/// One operand of an instruction: how to read it and its value.
#[derive(Debug, Clone, Copy, PartialEq, Eq, Structural)]
pub struct HSInstructionArg {
    pub mode: HSOpArgMode,
    pub value: i32,
}

/// An instruction: its opcode and its operands in A, B, C order.
#[derive(Debug, Clone)]
pub struct HSInstruction {
    pub mode: HSOpCode,
    pub args: Vec<HSInstructionArg>,
}

/// What an instruction holds.
pub struct InstructionModel {
    pub mode: HSOpCode,
    pub args: Seq<HSInstructionArg>,
}

impl View for HSInstruction {
    type V = InstructionModel;

    open spec fn view(&self) -> InstructionModel {
        InstructionModel { mode: self.mode, args: self.args@ }
    }
}

/// The opcode field: the top seven bits.
pub open spec fn opcode_field(raw: u32) -> u8 {
    (raw >> 25u32) as u8
}

/// The A field: bits 0 to 7.
pub open spec fn a_field(raw: u32) -> u32 {
    raw & 0xff
}

/// The eight-bit B field, from bit 17.
pub open spec fn b_field(raw: u32) -> u32 {
    (raw >> 17u32) & 0xff
}

/// The nine-bit B field, from bit 17.
pub open spec fn b_wide_field(raw: u32) -> u32 {
    (raw >> 17u32) & 0x1ff
}

/// The eight-bit C field, from bit 8.
pub open spec fn c_field(raw: u32) -> u32 {
    (raw >> 8u32) & 0xff
}

/// The nine-bit C field, from bit 8.
pub open spec fn c_wide_field(raw: u32) -> u32 {
    (raw >> 8u32) & 0x1ff
}

/// The wide B field of the ABX and ASBX layouts: the eighteen bits 8 to 25.
pub open spec fn bx_field(raw: u32) -> u32 {
    (raw >> 8u32) & 0x3ffff
}

/// Each field fits its width.
proof fn lemma_field_bounds(raw: u32)
    ensures
        a_field(raw) <= 0xff,
        b_field(raw) <= 0xff,
        b_wide_field(raw) <= 0x1ff,
        c_field(raw) <= 0xff,
        c_wide_field(raw) <= 0x1ff,
        bx_field(raw) <= 0x3ffff,
{
    assert(raw & 0xff <= 0xff) by (bit_vector);
    assert((raw >> 17u32) & 0xff <= 0xff) by (bit_vector);
    assert((raw >> 17u32) & 0x1ff <= 0x1ff) by (bit_vector);
    assert((raw >> 8u32) & 0xff <= 0xff) by (bit_vector);
    assert((raw >> 8u32) & 0x1ff <= 0x1ff) by (bit_vector);
    assert((raw >> 8u32) & 0x3ffff <= 0x3ffff) by (bit_vector);
}

/// A register-or-constant value: a register below the threshold, else the constant with the
/// low eight bits as index.
pub open spec fn reg_const_arg(v: u32) -> HSInstructionArg {
    if v < REG_CONST_THRESHOLD {
        HSInstructionArg { mode: HSOpArgMode::REG, value: v as i32 }
    } else {
        HSInstructionArg { mode: HSOpArgMode::CONST, value: (v & 0xff) as i32 }
    }
}

/// The operand of a B or C field of the ABC layout, from its eight- and nine-bit slices.
pub open spec fn abc_arg(mode: HSOpArgModeBC, narrow: u32, wide: u32) -> HSInstructionArg {
    match mode {
        HSOpArgModeBC::NUMBER => HSInstructionArg { mode: HSOpArgMode::NUMBER, value: narrow as i32 },
        HSOpArgModeBC::OFFSET => HSInstructionArg { mode: HSOpArgMode::NUMBER, value: wide as i32 },
        HSOpArgModeBC::REG => HSInstructionArg { mode: HSOpArgMode::REG, value: narrow as i32 },
        HSOpArgModeBC::REGCONST => reg_const_arg(wide),
        HSOpArgModeBC::CONST => HSInstructionArg { mode: HSOpArgMode::CONST, value: narrow as i32 },
        HSOpArgModeBC::UNUSED => HSInstructionArg { mode: HSOpArgMode::CONST, value: 0 },
    }
}

/// The A operand: a register unless the table marks A unused.
pub open spec fn arg_a(raw: u32, m: HSMode) -> HSInstructionArg {
    HSInstructionArg {
        mode: if m.op_mode_a == HSOpArgModeA::UNUSED {
            HSOpArgMode::NUMBER
        } else {
            HSOpArgMode::REG
        },
        value: a_field(raw) as i32,
    }
}

/// The B operand of the ABC layout.
pub open spec fn arg_abc_b(raw: u32, m: HSMode) -> HSInstructionArg {
    abc_arg(m.op_mode_b, b_field(raw), b_wide_field(raw))
}

/// The C operand of the ABC layout.
pub open spec fn arg_abc_c(raw: u32, m: HSMode) -> HSInstructionArg {
    abc_arg(m.op_mode_c, c_field(raw), c_wide_field(raw))
}

/// The B operand of the ABX and ASBX layouts; under ASBX the bias is taken off.
pub open spec fn arg_non_abc_b(raw: u32, m: HSMode) -> HSInstructionArg {
    HSInstructionArg {
        mode: match m.op_mode_b {
            HSOpArgModeBC::CONST => HSOpArgMode::CONST,
            _ => HSOpArgMode::NUMBER,
        },
        value: if m.op_mode == HSOpMode::ASBX {
            (bx_field(raw) - ASBX_BIAS) as i32
        } else {
            bx_field(raw) as i32
        },
    }
}

/// The B and C operands that an entry asks for, in that order.
pub open spec fn args_bc(raw: u32, m: HSMode) -> Seq<HSInstructionArg> {
    let b: Seq<HSInstructionArg> = if m.op_mode_b == HSOpArgModeBC::UNUSED {
        seq![]
    } else if m.op_mode == HSOpMode::ABC {
        seq![arg_abc_b(raw, m)]
    } else {
        seq![arg_non_abc_b(raw, m)]
    };
    if m.op_mode == HSOpMode::ABC && m.op_mode_c != HSOpArgModeBC::UNUSED {
        b.push(arg_abc_c(raw, m))
    } else {
        b
    }
}

/// The instruction that a word encodes, if its opcode has a table entry.
pub open spec fn decode_word(raw: u32) -> Result<InstructionModel, HkscError> {
    match op_table(opcode_field(raw)) {
        None => Err(HkscError::UnknownOpCode(opcode_field(raw))),
        Some(m) => Ok(
            InstructionModel { mode: m.op_code, args: seq![arg_a(raw, m)] + args_bc(raw, m) },
        ),
    }
}

/// An instruction word in the order `O`.
pub open spec fn parse_instruction<O: WireOrder>(d: Seq<u8>, pos: int) -> Result<
    (InstructionModel, int),
    HkscError,
> {
    match parse_u32::<O>(d, pos) {
        Err(e) => Err(e),
        Ok((raw, p)) => match decode_word(raw) {
            Ok(i) => Ok((i, p)),
            Err(e) => Err(e),
        },
    }
}

impl HSInstruction {
    /// Decodes one instruction word.
    pub fn decode(raw: u32) -> (r: Result<HSInstruction, HkscError>)
        ensures
            decode_word(raw) == viewed(r),
    {
        let op = (raw >> 25) as u8;
        let modes = match op_entry(op) {
            Some(m) => m,
            None => return Err(HkscError::UnknownOpCode(op)),
        };
        let mut inst = HSInstruction { mode: modes.op_code, args: Vec::new() };
        inst.read_op_a(raw, &modes);
        inst.read_op_bc(raw, &modes);
        proof {
            assert(inst.args@ =~= seq![arg_a(raw, modes)] + args_bc(raw, modes));
        }
        Ok(inst)
    }

    /// Reads and decodes one instruction word in the order `O`.
    pub fn read<O: WireOrder>(data: &[u8], pos: &mut usize) -> (r: Result<HSInstruction, HkscError>)
        ensures
            parse_instruction::<O>(data@, *old(pos) as int) == decoded_view(r, *final(pos)),
    {
        let raw = match read_u32::<O>(data, pos) {
            Ok(v) => v,
            Err(e) => return Err(e),
        };
        HSInstruction::decode(raw)
    }

    /// Appends the A operand.
    pub fn read_op_a(&mut self, raw: u32, modes: &HSMode)
        ensures
            final(self).mode == old(self).mode,
            final(self).args@ == old(self).args@.push(arg_a(raw, *modes)),
    {
        proof {
            lemma_field_bounds(raw);
        }
        let mode = if modes.op_mode_a == HSOpArgModeA::UNUSED {
            HSOpArgMode::NUMBER
        } else {
            HSOpArgMode::REG
        };
        let value = (raw & 0xff) as i32;
        self.args.push(HSInstructionArg { mode, value });
    }

    /// Appends the B operand of the ABC layout.
    pub fn read_op_abc_b(&mut self, raw: u32, modes: &HSMode)
        ensures
            final(self).mode == old(self).mode,
            final(self).args@ == old(self).args@.push(arg_abc_b(raw, *modes)),
    {
        proof {
            lemma_field_bounds(raw);
        }
        let arg = abc_operand(modes.op_mode_b, (raw >> 17) & 0xff, (raw >> 17) & 0x1ff);
        self.args.push(arg);
    }

    /// Appends the C operand of the ABC layout.
    pub fn read_op_abc_c(&mut self, raw: u32, modes: &HSMode)
        ensures
            final(self).mode == old(self).mode,
            final(self).args@ == old(self).args@.push(arg_abc_c(raw, *modes)),
    {
        proof {
            lemma_field_bounds(raw);
        }
        let arg = abc_operand(modes.op_mode_c, (raw >> 8) & 0xff, (raw >> 8) & 0x1ff);
        self.args.push(arg);
    }

    /// Appends the single wide B operand of the ABX and ASBX layouts.
    pub fn read_op_non_abc_b(&mut self, raw: u32, modes: &HSMode)
        ensures
            final(self).mode == old(self).mode,
            final(self).args@ == old(self).args@.push(arg_non_abc_b(raw, *modes)),
    {
        proof {
            lemma_field_bounds(raw);
        }
        let field = ((raw >> 8) & 0x3ffff) as i32;
        let mode = match modes.op_mode_b {
            HSOpArgModeBC::CONST => HSOpArgMode::CONST,
            _ => HSOpArgMode::NUMBER,
        };
        let value = if modes.op_mode == HSOpMode::ASBX {
            field - ASBX_BIAS
        } else {
            field
        };
        self.args.push(HSInstructionArg { mode, value });
    }

    /// Appends the B and C operands that the table entry asks for.
    pub fn read_op_bc(&mut self, raw: u32, modes: &HSMode)
        ensures
            final(self).mode == old(self).mode,
            final(self).args@ == old(self).args@ + args_bc(raw, *modes),
    {
        let ghost before = self.args@;
        if modes.op_mode_b != HSOpArgModeBC::UNUSED {
            if modes.op_mode == HSOpMode::ABC {
                self.read_op_abc_b(raw, modes);
            } else {
                self.read_op_non_abc_b(raw, modes);
            }
        }
        if modes.op_mode == HSOpMode::ABC && modes.op_mode_c != HSOpArgModeBC::UNUSED {
            self.read_op_abc_c(raw, modes);
        }
        proof {
            assert(self.args@ =~= before + args_bc(raw, *modes));
        }
    }
}

/// The operand of a B or C field of the ABC layout.
fn abc_operand(mode: HSOpArgModeBC, narrow: u32, wide: u32) -> (r: HSInstructionArg)
    requires
        narrow <= 0xff,
        wide <= 0x1ff,
    ensures
        r == abc_arg(mode, narrow, wide),
{
    match mode {
        HSOpArgModeBC::NUMBER => HSInstructionArg { mode: HSOpArgMode::NUMBER, value: narrow as i32 },
        HSOpArgModeBC::OFFSET => HSInstructionArg { mode: HSOpArgMode::NUMBER, value: wide as i32 },
        HSOpArgModeBC::REG => HSInstructionArg { mode: HSOpArgMode::REG, value: narrow as i32 },
        HSOpArgModeBC::REGCONST => if wide < REG_CONST_THRESHOLD {
            HSInstructionArg { mode: HSOpArgMode::REG, value: wide as i32 }
        } else {
            HSInstructionArg { mode: HSOpArgMode::CONST, value: (wide & 0xff) as i32 }
        },
        HSOpArgModeBC::CONST => HSInstructionArg { mode: HSOpArgMode::CONST, value: narrow as i32 },
        HSOpArgModeBC::UNUSED => HSInstructionArg { mode: HSOpArgMode::CONST, value: 0 },
    }
}

/// A register-or-constant field reads as a register when its nine bits are below 256, and
/// otherwise as the constant whose index is the nine bits less 256.
pub proof fn lemma_reg_const_threshold(v: u32)
    requires
        v <= 0x1ff,
    ensures
        v < 256 ==> reg_const_arg(v) == (HSInstructionArg { mode: HSOpArgMode::REG, value: v as i32 }),
        v >= 256 ==> reg_const_arg(v) == (HSInstructionArg {
            mode: HSOpArgMode::CONST,
            value: (v - 256) as i32,
        }),
{
    if v >= 256 {
        assert(256 <= v <= 0x1ff ==> v & 0xff == v - 256) by (bit_vector);
    }
}

/// In a decoded ABC instruction whose B field is register-or-constant, the second operand is
/// that field read by the threshold rule; so is the third for a register-or-constant C field
/// after a used B field.
pub proof fn lemma_reg_const_operands(raw: u32)
    ensures
        match op_table(opcode_field(raw)) {
            Some(m) => m.op_mode == HSOpMode::ABC ==> {
                &&& decode_word(raw) is Ok
                &&& m.op_mode_b == HSOpArgModeBC::REGCONST ==> decode_word(raw)->Ok_0.args[1]
                    == reg_const_arg(b_wide_field(raw))
                &&& m.op_mode_b != HSOpArgModeBC::UNUSED && m.op_mode_c == HSOpArgModeBC::REGCONST
                    ==> decode_word(raw)->Ok_0.args[2] == reg_const_arg(c_wide_field(raw))
            },
            None => true,
        },
{
}

/// A decoded ASBX instruction has two operands, and the second is its wide field less the bias,
/// so that a field of 0xFFFF is the offset 0.
pub proof fn lemma_asbx_bias(raw: u32)
    ensures
        match op_table(opcode_field(raw)) {
            Some(m) => m.op_mode == HSOpMode::ASBX ==> {
                &&& decode_word(raw) is Ok
                &&& decode_word(raw)->Ok_0.args.len() == 2
                &&& decode_word(raw)->Ok_0.args[1] == (HSInstructionArg {
                    mode: HSOpArgMode::NUMBER,
                    value: (bx_field(raw) - 0xffff) as i32,
                })
                &&& -0xffff <= decode_word(raw)->Ok_0.args[1].value <= 0x30000
            },
            None => true,
        },
{
    lemma_field_bounds(raw);
}

impl<O: WireOrder> HeaderReadable<O> for HSInstruction {
    open spec fn parse_one(d: Seq<u8>, h: HSHeader, pos: int) -> Result<
        (InstructionModel, int),
        HkscError,
    > {
        parse_instruction::<O>(d, pos)
    }

    fn read_one(data: &[u8], pos: &mut usize, header: &HSHeader) -> (r: Result<
        HSInstruction,
        HkscError,
    >) {
        HSInstruction::read::<O>(data, pos)
    }
}

} // verus!
