use vstd::prelude::*;

use super::instructions::{spec_arity, spec_encoding, Format, Instruction, InstructionIndex};
use super::slices::{
    INSTRUCTION_EBREAK_VALUE,
    INSTRUCTION_ECALL_VALUE,
    INSTRUCTION_FENCE_TSO_VALUE,
    INSTRUCTION_PAUSE_VALUE,
    MASK_FUNCT12,
    MASK_FUNCT3,
    MASK_FUNCT7,
    MASK_OPCODE,
    MASK_RD,
    MASK_RS1,
    MASK_RS2,
    OFFSET_FUNCT12,
    OFFSET_FUNCT3,
    OFFSET_FUNCT7,
    OFFSET_OPCODE,
    OFFSET_RD,
    OFFSET_RS1,
    OFFSET_RS2,
    OPCODE_BRANCH,
    OPCODE_JAL,
    OPCODE_MISC_MEM,
    OPCODE_OP,
    OPCODE_STORE,
    set_B_imm_bits,
    set_I_imm_bits,
    set_J_imm_bits,
    set_S_imm_bits,
    set_U_imm_bits,
    set_funct12_bits,
    set_funct3_bits,
    set_funct7_bits,
    set_opcode_bits,
    set_rd_bits,
    set_rs1_bits,
    set_rs2_bits,
    spec_set_B_imm_bits,
    spec_set_I_imm_bits,
    spec_set_J_imm_bits,
    spec_set_S_imm_bits,
    spec_set_U_imm_bits,
    spec_set_slice,
};

verus! {

/// Why an instruction could not be assembled.
#[derive(Clone, Copy, Debug, PartialEq, Eq, Structural)]
pub enum AssembleError {
    /// the first token names no instruction
    UnknownMnemonic,
    /// the instruction got fewer (or, in text, other than the required number of) operands
    WrongOperandCount,
    /// a register operand is not `x0` .. `x31`
    BadRegister,
    /// a numeric operand is not a decimal number in range
    BadImmediate,
    /// the undefined sentinel has no encoding
    Undefined,
}

/// R format: opcode, funct3, funct7, then rd, rs1, rs2.
pub open spec fn r_word(funct3: u32, funct7: u32, rd: u32, rs1: u32, rs2: u32) -> u32 {
    let w = spec_set_slice(0, OPCODE_OP, MASK_OPCODE, OFFSET_OPCODE);
    let w = spec_set_slice(w, funct3, MASK_FUNCT3, OFFSET_FUNCT3);
    let w = spec_set_slice(w, funct7, MASK_FUNCT7, OFFSET_FUNCT7);
    let w = spec_set_slice(w, rd, MASK_RD, OFFSET_RD);
    let w = spec_set_slice(w, rs1, MASK_RS1, OFFSET_RS1);
    spec_set_slice(w, rs2, MASK_RS2, OFFSET_RS2)
}

/// I format: opcode, funct3, then rd, rs1, imm[11:0].
pub open spec fn i_word(opcode: u32, funct3: u32, rd: u32, rs1: u32, imm: u32) -> u32 {
    let w = spec_set_slice(0, opcode, MASK_OPCODE, OFFSET_OPCODE);
    let w = spec_set_slice(w, funct3, MASK_FUNCT3, OFFSET_FUNCT3);
    let w = spec_set_slice(w, rd, MASK_RD, OFFSET_RD);
    let w = spec_set_slice(w, rs1, MASK_RS1, OFFSET_RS1);
    spec_set_I_imm_bits(w, imm)
}

/// S format: the stored register `rs2` comes first, as in assembly text.
pub open spec fn s_word(funct3: u32, rs2: u32, rs1: u32, imm: u32) -> u32 {
    let w = spec_set_slice(0, OPCODE_STORE, MASK_OPCODE, OFFSET_OPCODE);
    let w = spec_set_slice(w, funct3, MASK_FUNCT3, OFFSET_FUNCT3);
    let w = spec_set_slice(w, rs1, MASK_RS1, OFFSET_RS1);
    let w = spec_set_slice(w, rs2, MASK_RS2, OFFSET_RS2);
    spec_set_S_imm_bits(w, imm)
}

/// B format: rs1, rs2, then the branch offset (its bit 0 is dropped).
pub open spec fn b_word(funct3: u32, rs1: u32, rs2: u32, imm: u32) -> u32 {
    let w = spec_set_slice(0, OPCODE_BRANCH, MASK_OPCODE, OFFSET_OPCODE);
    let w = spec_set_slice(w, funct3, MASK_FUNCT3, OFFSET_FUNCT3);
    let w = spec_set_slice(w, rs1, MASK_RS1, OFFSET_RS1);
    let w = spec_set_slice(w, rs2, MASK_RS2, OFFSET_RS2);
    spec_set_B_imm_bits(w, imm)
}

/// U format: rd, then the 20-bit upper immediate.
pub open spec fn u_word(opcode: u32, rd: u32, imm: u32) -> u32 {
    let w = spec_set_slice(0, opcode, MASK_OPCODE, OFFSET_OPCODE);
    let w = spec_set_slice(w, rd, MASK_RD, OFFSET_RD);
    spec_set_U_imm_bits(w, imm)
}

/// J format (JAL): rd, then the jump offset (its bit 0 is dropped).
pub open spec fn j_word(rd: u32, imm: u32) -> u32 {
    let w = spec_set_slice(0, OPCODE_JAL, MASK_OPCODE, OFFSET_OPCODE);
    let w = spec_set_slice(w, rd, MASK_RD, OFFSET_RD);
    spec_set_J_imm_bits(w, imm)
}

/// Shift by immediate: an I word whose top seven bits are then overwritten by funct7.
pub open spec fn shift_word(opcode: u32, funct3: u32, funct7: u32, rd: u32, rs1: u32, imm: u32) -> u32 {
    spec_set_slice(i_word(opcode, funct3, rd, rs1, imm), funct7, MASK_FUNCT7, OFFSET_FUNCT7)
}

/// FENCE: rd, rs1, and funct12 made of fm, pred and succ.
pub open spec fn fence_word(rd: u32, rs1: u32, fm: u32, pred: u32, succ: u32) -> u32 {
    let w = spec_set_slice(0, OPCODE_MISC_MEM, MASK_OPCODE, OFFSET_OPCODE);
    let w = spec_set_slice(w, rd, MASK_RD, OFFSET_RD);
    let w = spec_set_slice(w, rs1, MASK_RS1, OFFSET_RS1);
    spec_set_slice(w, (fm << 8u32) | (pred << 4u32) | succ, MASK_FUNCT12, OFFSET_FUNCT12)
}

/// The word of instruction `k` with the operands `ops`, in the order of its normalized text.
pub open spec fn spec_encode(k: InstructionIndex, ops: Seq<u32>) -> u32 {
    let (format, opcode, funct3, funct7) = spec_encoding(k);
    match format {
        Format::R => r_word(funct3, funct7, ops[0], ops[1], ops[2]),
        Format::I => i_word(opcode, funct3, ops[0], ops[1], ops[2]),
        Format::S => s_word(funct3, ops[0], ops[1], ops[2]),
        Format::B => b_word(funct3, ops[0], ops[1], ops[2]),
        Format::U => u_word(opcode, ops[0], ops[1]),
        Format::J => j_word(ops[0], ops[1]),
        Format::Shift => shift_word(opcode, funct3, funct7, ops[0], ops[1], ops[2]),
        Format::Fence => fence_word(ops[0], ops[1], ops[2], ops[3], ops[4]),
        Format::Fixed => opcode,
        Format::Undefined => 0,
    }
}

/// What assembling instruction `k` from already resolved operands gives: the sentinel has
/// no encoding, too few operands are an arity error, extra operands are ignored.
pub open spec fn spec_assemble(k: InstructionIndex, ops: Seq<u32>) -> Result<u32, AssembleError> {
    if k == InstructionIndex::UNDEF {
        Err(AssembleError::Undefined)
    } else if ops.len() < spec_arity(k) {
        Err(AssembleError::WrongOperandCount)
    } else {
        Ok(spec_encode(k, ops))
    }
}

pub fn R_TYPE_ASSEMBLER(funct3: u32, funct7: u32, operands: &[u32]) -> (r: Result<
    u32,
    AssembleError,
>)
    ensures
        operands@.len() >= 3 ==> r == Ok::<u32, AssembleError>(
            r_word(funct3, funct7, operands@[0], operands@[1], operands@[2]),
        ),
        operands@.len() < 3 ==> r == Err::<u32, AssembleError>(AssembleError::WrongOperandCount),
{
    if operands.len() >= 3 {
        let (rd, rs1, rs2) = (operands[0], operands[1], operands[2]);
        let mut instruction: u32 = 0;
        instruction = set_opcode_bits(instruction, OPCODE_OP);
        instruction = set_funct3_bits(instruction, funct3);
        instruction = set_funct7_bits(instruction, funct7);
        instruction = set_rd_bits(instruction, rd);
        instruction = set_rs1_bits(instruction, rs1);
        instruction = set_rs2_bits(instruction, rs2);
        Ok(instruction)
    } else {
        Err(AssembleError::WrongOperandCount)
    }
}

pub fn I_TYPE_ASSEMBLER(opcode: u32, funct3: u32, operands: &[u32]) -> (r: Result<
    u32,
    AssembleError,
>)
    ensures
        operands@.len() >= 3 ==> r == Ok::<u32, AssembleError>(
            i_word(opcode, funct3, operands@[0], operands@[1], operands@[2]),
        ),
        operands@.len() < 3 ==> r == Err::<u32, AssembleError>(AssembleError::WrongOperandCount),
{
    if operands.len() >= 3 {
        let (rd, rs1, imm) = (operands[0], operands[1], operands[2]);
        let mut instruction: u32 = 0;
        instruction = set_opcode_bits(instruction, opcode);
        instruction = set_funct3_bits(instruction, funct3);
        instruction = set_rd_bits(instruction, rd);
        instruction = set_rs1_bits(instruction, rs1);
        instruction = set_I_imm_bits(instruction, imm);
        Ok(instruction)
    } else {
        Err(AssembleError::WrongOperandCount)
    }
}

pub fn S_TYPE_ASSEMBLER(funct3: u32, operands: &[u32]) -> (r: Result<u32, AssembleError>)
    ensures
        operands@.len() >= 3 ==> r == Ok::<u32, AssembleError>(
            s_word(funct3, operands@[0], operands@[1], operands@[2]),
        ),
        operands@.len() < 3 ==> r == Err::<u32, AssembleError>(AssembleError::WrongOperandCount),
{
    // the order of rs2, rs1 is swapped in store instructions
    if operands.len() >= 3 {
        let (rs2, rs1, imm) = (operands[0], operands[1], operands[2]);
        let mut instruction: u32 = 0;
        instruction = set_opcode_bits(instruction, OPCODE_STORE);
        instruction = set_funct3_bits(instruction, funct3);
        instruction = set_rs1_bits(instruction, rs1);
        instruction = set_rs2_bits(instruction, rs2);
        instruction = set_S_imm_bits(instruction, imm);
        Ok(instruction)
    } else {
        Err(AssembleError::WrongOperandCount)
    }
}

pub fn B_TYPE_ASSEMBLER(funct3: u32, operands: &[u32]) -> (r: Result<u32, AssembleError>)
    ensures
        operands@.len() >= 3 ==> r == Ok::<u32, AssembleError>(
            b_word(funct3, operands@[0], operands@[1], operands@[2]),
        ),
        operands@.len() < 3 ==> r == Err::<u32, AssembleError>(AssembleError::WrongOperandCount),
{
    if operands.len() >= 3 {
        let (rs1, rs2, imm) = (operands[0], operands[1], operands[2]);
        let mut instruction: u32 = 0;
        instruction = set_opcode_bits(instruction, OPCODE_BRANCH);
        instruction = set_funct3_bits(instruction, funct3);
        instruction = set_rs1_bits(instruction, rs1);
        instruction = set_rs2_bits(instruction, rs2);
        instruction = set_B_imm_bits(instruction, imm);
        Ok(instruction)
    } else {
        Err(AssembleError::WrongOperandCount)
    }
}

pub fn U_TYPE_ASSEMBLER(opcode: u32, operands: &[u32]) -> (r: Result<u32, AssembleError>)
    ensures
        operands@.len() >= 2 ==> r == Ok::<u32, AssembleError>(
            u_word(opcode, operands@[0], operands@[1]),
        ),
        operands@.len() < 2 ==> r == Err::<u32, AssembleError>(AssembleError::WrongOperandCount),
{
    if operands.len() >= 2 {
        let (rd, imm) = (operands[0], operands[1]);
        let mut instruction: u32 = 0;
        instruction = set_opcode_bits(instruction, opcode);
        instruction = set_rd_bits(instruction, rd);
        instruction = set_U_imm_bits(instruction, imm);
        Ok(instruction)
    } else {
        Err(AssembleError::WrongOperandCount)
    }
}

pub fn SHIFT_IMM_ASSEMBLER(opcode: u32, funct3: u32, funct7: u32, operands: &[u32]) -> (r: Result<
    u32,
    AssembleError,
>)
    ensures
        operands@.len() >= 3 ==> r == Ok::<u32, AssembleError>(
            shift_word(opcode, funct3, funct7, operands@[0], operands@[1], operands@[2]),
        ),
        operands@.len() < 3 ==> r == Err::<u32, AssembleError>(AssembleError::WrongOperandCount),
{
    if operands.len() >= 3 {
        let (rd, rs1, imm) = (operands[0], operands[1], operands[2]);
        let mut instruction: u32 = 0;
        instruction = set_opcode_bits(instruction, opcode);
        instruction = set_funct3_bits(instruction, funct3);
        instruction = set_rd_bits(instruction, rd);
        instruction = set_rs1_bits(instruction, rs1);
        instruction = set_I_imm_bits(instruction, imm);
        // set the funct7 after the immediate to overwrite the upper bits of immediate
        instruction = set_funct7_bits(instruction, funct7);
        Ok(instruction)
    } else {
        Err(AssembleError::WrongOperandCount)
    }
}

pub fn JAL_ASSEMBLER(operands: &[u32]) -> (r: Result<u32, AssembleError>)
    ensures
        operands@.len() >= 2 ==> r == Ok::<u32, AssembleError>(
            j_word(operands@[0], operands@[1]),
        ),
        operands@.len() < 2 ==> r == Err::<u32, AssembleError>(AssembleError::WrongOperandCount),
{
    if operands.len() >= 2 {
        let (rd, imm) = (operands[0], operands[1]);
        let mut instruction: u32 = 0;
        instruction = set_opcode_bits(instruction, OPCODE_JAL);
        instruction = set_rd_bits(instruction, rd);
        instruction = set_J_imm_bits(instruction, imm);
        Ok(instruction)
    } else {
        Err(AssembleError::WrongOperandCount)
    }
}

pub fn FENCE_ASSEMBLER(operands: &[u32]) -> (r: Result<u32, AssembleError>)
    ensures
        operands@.len() >= 5 ==> r == Ok::<u32, AssembleError>(
            fence_word(operands@[0], operands@[1], operands@[2], operands@[3], operands@[4]),
        ),
        operands@.len() < 5 ==> r == Err::<u32, AssembleError>(AssembleError::WrongOperandCount),
{
    if operands.len() >= 5 {
        let (rd, rs1) = (operands[0], operands[1]);
        let (fm, pred, succ) = (operands[2], operands[3], operands[4]);
        let funct12 = (fm << 8u32) | (pred << 4u32) | succ;
        let mut instruction: u32 = 0;
        instruction = set_opcode_bits(instruction, OPCODE_MISC_MEM);
        instruction = set_rd_bits(instruction, rd);
        instruction = set_rs1_bits(instruction, rs1);
        instruction = set_funct12_bits(instruction, funct12);
        Ok(instruction)
    } else {
        Err(AssembleError::WrongOperandCount)
    }
}

pub fn FENCE_TSO_ASSEMBLER(_operands: &[u32]) -> (r: u32)
    ensures
        r == INSTRUCTION_FENCE_TSO_VALUE,
{
    INSTRUCTION_FENCE_TSO_VALUE
}

pub fn PAUSE_ASSEMBLER(_operands: &[u32]) -> (r: u32)
    ensures
        r == INSTRUCTION_PAUSE_VALUE,
{
    INSTRUCTION_PAUSE_VALUE
}

pub fn ECALL_ASSEMBLER(_operands: &[u32]) -> (r: u32)
    ensures
        r == INSTRUCTION_ECALL_VALUE,
{
    INSTRUCTION_ECALL_VALUE
}

pub fn EBREAK_ASSEMBLER(_operands: &[u32]) -> (r: u32)
    ensures
        r == INSTRUCTION_EBREAK_VALUE,
{
    INSTRUCTION_EBREAK_VALUE
}

/// The sentinel has no encoding.
pub fn UNDEF_ASSEMBLER(_operands: &[u32]) -> (r: Result<u32, AssembleError>)
    ensures
        r == Err::<u32, AssembleError>(AssembleError::Undefined),
{
    Err(AssembleError::Undefined)
}

impl Instruction {
    /// Encodes this instruction with operands already resolved to register indices and raw
    /// two's-complement immediates, in the order of the normalized text.
    pub fn assemble(&self, operands: &[u32]) -> (r: Result<u32, AssembleError>)
        ensures
            r == spec_assemble(self.index, operands@),
    {
        let (format, opcode, funct3, funct7) = self.index.encoding();
        match format {
            Format::R => R_TYPE_ASSEMBLER(funct3, funct7, operands),
            Format::I => I_TYPE_ASSEMBLER(opcode, funct3, operands),
            Format::S => S_TYPE_ASSEMBLER(funct3, operands),
            Format::B => B_TYPE_ASSEMBLER(funct3, operands),
            Format::U => U_TYPE_ASSEMBLER(opcode, operands),
            Format::J => JAL_ASSEMBLER(operands),
            Format::Shift => SHIFT_IMM_ASSEMBLER(opcode, funct3, funct7, operands),
            Format::Fence => FENCE_ASSEMBLER(operands),
            Format::Fixed => match self.index {
                InstructionIndex::FENCE_TSO => Ok(FENCE_TSO_ASSEMBLER(operands)),
                InstructionIndex::PAUSE => Ok(PAUSE_ASSEMBLER(operands)),
                InstructionIndex::ECALL => Ok(ECALL_ASSEMBLER(operands)),
                _ => Ok(EBREAK_ASSEMBLER(operands)),
            },
            Format::Undefined => UNDEF_ASSEMBLER(operands),
        }
    }
}

} // verus!
