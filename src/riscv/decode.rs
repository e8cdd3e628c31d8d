use vstd::prelude::*;

use super::assemblers::{
    b_word, fence_word, i_word, j_word, r_word, s_word, shift_word, spec_encode, u_word,
};
use super::instructions::{
    spec_arity, spec_encoding, spec_format, spec_name, Format, Instruction, InstructionIndex,
};
use super::slices::{
    FUNCT3_ADDI,
    FUNCT3_ADD_SUB_MUL,
    FUNCT3_ANDI,
    FUNCT3_AND_REMU,
    FUNCT3_BEQ,
    FUNCT3_BGE,
    FUNCT3_BGEU,
    FUNCT3_BLT,
    FUNCT3_BLTU,
    FUNCT3_BNE,
    FUNCT3_JALR,
    FUNCT3_LB,
    FUNCT3_LBU,
    FUNCT3_LH,
    FUNCT3_LHU,
    FUNCT3_LW,
    FUNCT3_ORI,
    FUNCT3_OR_REM,
    FUNCT3_SB,
    FUNCT3_SH,
    FUNCT3_SLLI,
    FUNCT3_SLL_MULH,
    FUNCT3_SLTI,
    FUNCT3_SLTIU,
    FUNCT3_SLTU_MULHU,
    FUNCT3_SLT_MULHSU,
    FUNCT3_SRLI_SRAI,
    FUNCT3_SRL_SRA_DIVU,
    FUNCT3_SW,
    FUNCT3_XORI,
    FUNCT3_XOR_DIV,
    FUNCT7_ADD,
    FUNCT7_AND,
    FUNCT7_DIV,
    FUNCT7_DIVU,
    FUNCT7_MUL,
    FUNCT7_MULH,
    FUNCT7_MULHSU,
    FUNCT7_MULHU,
    FUNCT7_OR,
    FUNCT7_REM,
    FUNCT7_REMU,
    FUNCT7_SLL,
    FUNCT7_SLT,
    FUNCT7_SLTU,
    FUNCT7_SRA,
    FUNCT7_SRAI,
    FUNCT7_SRL,
    FUNCT7_SRLI,
    FUNCT7_SUB,
    FUNCT7_XOR,
    INSTRUCTION_EBREAK_VALUE,
    INSTRUCTION_ECALL_VALUE,
    OPCODE_AUIPC,
    OPCODE_BRANCH,
    OPCODE_JAL,
    OPCODE_JALR,
    OPCODE_LOAD,
    OPCODE_LUI,
    OPCODE_OP,
    OPCODE_OP_IMM,
    OPCODE_STORE,
    OPCODE_SYSTEM,
    get_funct3_bits,
    get_funct7_bits,
    get_opcode_bits,
    spec_funct3,
    spec_funct7,
    spec_opcode,
    spec_rd,
    spec_rs1,
    spec_rs2,
    spec_funct12,
    spec_I_imm,
    spec_S_imm,
    spec_B_imm,
    spec_J_imm,
    spec_U_imm_bits,
};

verus! {

pub open spec fn spec_decode_branch(funct3: u32) -> InstructionIndex {
    if funct3 == FUNCT3_BEQ {
        InstructionIndex::BEQ
    } else if funct3 == FUNCT3_BNE {
        InstructionIndex::BNE
    } else if funct3 == FUNCT3_BLT {
        InstructionIndex::BLT
    } else if funct3 == FUNCT3_BGE {
        InstructionIndex::BGE
    } else if funct3 == FUNCT3_BLTU {
        InstructionIndex::BLTU
    } else if funct3 == FUNCT3_BGEU {
        InstructionIndex::BGEU
    } else {
        InstructionIndex::UNDEF
    }
}

pub open spec fn spec_decode_load(funct3: u32) -> InstructionIndex {
    if funct3 == FUNCT3_LB {
        InstructionIndex::LB
    } else if funct3 == FUNCT3_LH {
        InstructionIndex::LH
    } else if funct3 == FUNCT3_LW {
        InstructionIndex::LW
    } else if funct3 == FUNCT3_LBU {
        InstructionIndex::LBU
    } else if funct3 == FUNCT3_LHU {
        InstructionIndex::LHU
    } else {
        InstructionIndex::UNDEF
    }
}

pub open spec fn spec_decode_store(funct3: u32) -> InstructionIndex {
    if funct3 == FUNCT3_SB {
        InstructionIndex::SB
    } else if funct3 == FUNCT3_SH {
        InstructionIndex::SH
    } else if funct3 == FUNCT3_SW {
        InstructionIndex::SW
    } else {
        InstructionIndex::UNDEF
    }
}

pub open spec fn spec_decode_op_imm(funct3: u32, funct7: u32) -> InstructionIndex {
    if funct3 == FUNCT3_ADDI {
        InstructionIndex::ADDI
    } else if funct3 == FUNCT3_SLTI {
        InstructionIndex::SLTI
    } else if funct3 == FUNCT3_SLTIU {
        InstructionIndex::SLTIU
    } else if funct3 == FUNCT3_XORI {
        InstructionIndex::XORI
    } else if funct3 == FUNCT3_ORI {
        InstructionIndex::ORI
    } else if funct3 == FUNCT3_ANDI {
        InstructionIndex::ANDI
    } else if funct3 == FUNCT3_SLLI {
        InstructionIndex::SLLI
    } else if funct3 == FUNCT3_SRLI_SRAI {
        if funct7 == FUNCT7_SRLI {
            InstructionIndex::SRLI
        } else if funct7 == FUNCT7_SRAI {
            InstructionIndex::SRAI
        } else {
            InstructionIndex::UNDEF
        }
    } else {
        InstructionIndex::UNDEF
    }
}

/// Register-register operations: funct3 picks a bucket, funct7 the base integer operation
/// or its multiply/divide partner.
pub open spec fn spec_decode_op(funct3: u32, funct7: u32) -> InstructionIndex {
    if funct3 == FUNCT3_ADD_SUB_MUL {
        if funct7 == FUNCT7_ADD {
            InstructionIndex::ADD
        } else if funct7 == FUNCT7_SUB {
            InstructionIndex::SUB
        } else if funct7 == FUNCT7_MUL {
            InstructionIndex::MUL
        } else {
            InstructionIndex::UNDEF
        }
    } else if funct3 == FUNCT3_SLL_MULH {
        if funct7 == FUNCT7_SLL {
            InstructionIndex::SLL
        } else if funct7 == FUNCT7_MULH {
            InstructionIndex::MULH
        } else {
            InstructionIndex::UNDEF
        }
    } else if funct3 == FUNCT3_SLT_MULHSU {
        if funct7 == FUNCT7_SLT {
            InstructionIndex::SLT
        } else if funct7 == FUNCT7_MULHSU {
            InstructionIndex::MULHSU
        } else {
            InstructionIndex::UNDEF
        }
    } else if funct3 == FUNCT3_SLTU_MULHU {
        if funct7 == FUNCT7_SLTU {
            InstructionIndex::SLTU
        } else if funct7 == FUNCT7_MULHU {
            InstructionIndex::MULHU
        } else {
            InstructionIndex::UNDEF
        }
    } else if funct3 == FUNCT3_XOR_DIV {
        if funct7 == FUNCT7_XOR {
            InstructionIndex::XOR
        } else if funct7 == FUNCT7_DIV {
            InstructionIndex::DIV
        } else {
            InstructionIndex::UNDEF
        }
    } else if funct3 == FUNCT3_SRL_SRA_DIVU {
        if funct7 == FUNCT7_SRL {
            InstructionIndex::SRL
        } else if funct7 == FUNCT7_SRA {
            InstructionIndex::SRA
        } else if funct7 == FUNCT7_DIVU {
            InstructionIndex::DIVU
        } else {
            InstructionIndex::UNDEF
        }
    } else if funct3 == FUNCT3_OR_REM {
        if funct7 == FUNCT7_OR {
            InstructionIndex::OR
        } else if funct7 == FUNCT7_REM {
            InstructionIndex::REM
        } else {
            InstructionIndex::UNDEF
        }
    } else if funct3 == FUNCT3_AND_REMU {
        if funct7 == FUNCT7_AND {
            InstructionIndex::AND
        } else if funct7 == FUNCT7_REMU {
            InstructionIndex::REMU
        } else {
            InstructionIndex::UNDEF
        }
    } else {
        InstructionIndex::UNDEF
    }
}

/// SYSTEM words are matched whole: only ECALL and EBREAK are defined.
pub open spec fn spec_decode_system(w: u32) -> InstructionIndex {
    if w == INSTRUCTION_ECALL_VALUE {
        InstructionIndex::ECALL
    } else if w == INSTRUCTION_EBREAK_VALUE {
        InstructionIndex::EBREAK
    } else {
        InstructionIndex::UNDEF
    }
}

/// The instruction that a word encodes: the opcode picks a group, then funct3 and funct7
/// pick the instruction in it; every path that matches nothing gives the sentinel.
pub open spec fn spec_decode(w: u32) -> InstructionIndex {
    let opcode = spec_opcode(w);
    let funct3 = spec_funct3(w);
    let funct7 = spec_funct7(w);
    if opcode == OPCODE_LUI {
        InstructionIndex::LUI
    } else if opcode == OPCODE_AUIPC {
        InstructionIndex::AUIPC
    } else if opcode == OPCODE_JAL {
        InstructionIndex::JAL
    } else if opcode == OPCODE_JALR {
        if funct3 == FUNCT3_JALR {
            InstructionIndex::JALR
        } else {
            InstructionIndex::UNDEF
        }
    } else if opcode == OPCODE_BRANCH {
        spec_decode_branch(funct3)
    } else if opcode == OPCODE_LOAD {
        spec_decode_load(funct3)
    } else if opcode == OPCODE_STORE {
        spec_decode_store(funct3)
    } else if opcode == OPCODE_OP_IMM {
        spec_decode_op_imm(funct3, funct7)
    } else if opcode == OPCODE_OP {
        spec_decode_op(funct3, funct7)
    } else if opcode == OPCODE_SYSTEM {
        spec_decode_system(w)
    } else {
        InstructionIndex::UNDEF
    }
}

/// The registry entry of the instruction that a word encodes; never fails (an illegal word
/// gives the sentinel entry).
pub fn decode(instruction: u32) -> (r: Instruction)
    ensures
        r.index == spec_decode(instruction),
        r.name@ == spec_name(r.index),
{
    Instruction::of(decode_instruction(instruction))
}

/// The kind of the instruction that a word encodes; total, the sentinel for illegal words.
pub fn decode_instruction(instruction: u32) -> (r: InstructionIndex)
    ensures
        r == spec_decode(instruction),
{
    let opcode = get_opcode_bits(instruction);
    if opcode == OPCODE_LUI {
        InstructionIndex::LUI
    } else if opcode == OPCODE_AUIPC {
        InstructionIndex::AUIPC
    } else if opcode == OPCODE_JAL {
        InstructionIndex::JAL
    } else if opcode == OPCODE_JALR {
        decode_opcode_jalr(instruction)
    } else if opcode == OPCODE_BRANCH {
        decode_opcode_branch(instruction)
    } else if opcode == OPCODE_LOAD {
        decode_opcode_load(instruction)
    } else if opcode == OPCODE_STORE {
        decode_opcode_store(instruction)
    } else if opcode == OPCODE_OP_IMM {
        decode_opcode_op_imm(instruction)
    } else if opcode == OPCODE_OP {
        decode_opcode_op(instruction)
    } else if opcode == OPCODE_SYSTEM {
        decode_opcode_system(instruction)
    } else {
        InstructionIndex::UNDEF
    }
}

fn decode_opcode_jalr(instruction: u32) -> (r: InstructionIndex)
    ensures
        r == (if spec_funct3(instruction) == FUNCT3_JALR {
            InstructionIndex::JALR
        } else {
            InstructionIndex::UNDEF
        }),
{
    if get_funct3_bits(instruction) == FUNCT3_JALR {
        InstructionIndex::JALR
    } else {
        InstructionIndex::UNDEF
    }
}

fn decode_opcode_branch(instruction: u32) -> (r: InstructionIndex)
    ensures
        r == spec_decode_branch(spec_funct3(instruction)),
{
    let funct3 = get_funct3_bits(instruction);
    if funct3 == FUNCT3_BEQ {
        InstructionIndex::BEQ
    } else if funct3 == FUNCT3_BNE {
        InstructionIndex::BNE
    } else if funct3 == FUNCT3_BLT {
        InstructionIndex::BLT
    } else if funct3 == FUNCT3_BGE {
        InstructionIndex::BGE
    } else if funct3 == FUNCT3_BLTU {
        InstructionIndex::BLTU
    } else if funct3 == FUNCT3_BGEU {
        InstructionIndex::BGEU
    } else {
        InstructionIndex::UNDEF
    }
}

fn decode_opcode_load(instruction: u32) -> (r: InstructionIndex)
    ensures
        r == spec_decode_load(spec_funct3(instruction)),
{
    let funct3 = get_funct3_bits(instruction);
    if funct3 == FUNCT3_LB {
        InstructionIndex::LB
    } else if funct3 == FUNCT3_LH {
        InstructionIndex::LH
    } else if funct3 == FUNCT3_LW {
        InstructionIndex::LW
    } else if funct3 == FUNCT3_LBU {
        InstructionIndex::LBU
    } else if funct3 == FUNCT3_LHU {
        InstructionIndex::LHU
    } else {
        InstructionIndex::UNDEF
    }
}

fn decode_opcode_store(instruction: u32) -> (r: InstructionIndex)
    ensures
        r == spec_decode_store(spec_funct3(instruction)),
{
    let funct3 = get_funct3_bits(instruction);
    if funct3 == FUNCT3_SB {
        InstructionIndex::SB
    } else if funct3 == FUNCT3_SH {
        InstructionIndex::SH
    } else if funct3 == FUNCT3_SW {
        InstructionIndex::SW
    } else {
        InstructionIndex::UNDEF
    }
}

fn decode_opcode_op_imm(instruction: u32) -> (r: InstructionIndex)
    ensures
        r == spec_decode_op_imm(spec_funct3(instruction), spec_funct7(instruction)),
{
    let funct3 = get_funct3_bits(instruction);
    if funct3 == FUNCT3_ADDI {
        InstructionIndex::ADDI
    } else if funct3 == FUNCT3_SLTI {
        InstructionIndex::SLTI
    } else if funct3 == FUNCT3_SLTIU {
        InstructionIndex::SLTIU
    } else if funct3 == FUNCT3_XORI {
        InstructionIndex::XORI
    } else if funct3 == FUNCT3_ORI {
        InstructionIndex::ORI
    } else if funct3 == FUNCT3_ANDI {
        InstructionIndex::ANDI
    } else if funct3 == FUNCT3_SLLI {
        InstructionIndex::SLLI
    } else if funct3 == FUNCT3_SRLI_SRAI {
        decode_SRLI_SRAI(instruction)
    } else {
        InstructionIndex::UNDEF
    }
}

fn decode_opcode_op(instruction: u32) -> (r: InstructionIndex)
    ensures
        r == spec_decode_op(spec_funct3(instruction), spec_funct7(instruction)),
{
    let funct3 = get_funct3_bits(instruction);
    if funct3 == FUNCT3_ADD_SUB_MUL {
        decode_ADD_SUB_MUL(instruction)
    } else if funct3 == FUNCT3_SLL_MULH {
        decode_SLL_MULH(instruction)
    } else if funct3 == FUNCT3_SLT_MULHSU {
        decode_SLT_MULHSU(instruction)
    } else if funct3 == FUNCT3_SLTU_MULHU {
        decode_SLTU_MULHU(instruction)
    } else if funct3 == FUNCT3_XOR_DIV {
        decode_XOR_DIV(instruction)
    } else if funct3 == FUNCT3_SRL_SRA_DIVU {
        decode_SRL_SRA_DIVU(instruction)
    } else if funct3 == FUNCT3_OR_REM {
        decode_OR_REM(instruction)
    } else if funct3 == FUNCT3_AND_REMU {
        decode_AND_REMU(instruction)
    } else {
        InstructionIndex::UNDEF
    }
}

fn decode_opcode_system(instruction: u32) -> (r: InstructionIndex)
    ensures
        r == spec_decode_system(instruction),
{
    if instruction == INSTRUCTION_ECALL_VALUE {
        InstructionIndex::ECALL
    } else if instruction == INSTRUCTION_EBREAK_VALUE {
        InstructionIndex::EBREAK
    } else {
        InstructionIndex::UNDEF
    }
}

fn decode_SRLI_SRAI(instruction: u32) -> (r: InstructionIndex)
    ensures
        r == spec_decode_op_imm(FUNCT3_SRLI_SRAI, spec_funct7(instruction)),
{
    let funct7 = get_funct7_bits(instruction);
    if funct7 == FUNCT7_SRLI {
        InstructionIndex::SRLI
    } else if funct7 == FUNCT7_SRAI {
        InstructionIndex::SRAI
    } else {
        InstructionIndex::UNDEF
    }
}

fn decode_ADD_SUB_MUL(instruction: u32) -> (r: InstructionIndex)
    ensures
        r == spec_decode_op(FUNCT3_ADD_SUB_MUL, spec_funct7(instruction)),
{
    let funct7 = get_funct7_bits(instruction);
    if funct7 == FUNCT7_ADD {
        InstructionIndex::ADD
    } else if funct7 == FUNCT7_SUB {
        InstructionIndex::SUB
    } else if funct7 == FUNCT7_MUL {
        InstructionIndex::MUL
    } else {
        InstructionIndex::UNDEF
    }
}

fn decode_SLL_MULH(instruction: u32) -> (r: InstructionIndex)
    ensures
        r == spec_decode_op(FUNCT3_SLL_MULH, spec_funct7(instruction)),
{
    let funct7 = get_funct7_bits(instruction);
    if funct7 == FUNCT7_SLL {
        InstructionIndex::SLL
    } else if funct7 == FUNCT7_MULH {
        InstructionIndex::MULH
    } else {
        InstructionIndex::UNDEF
    }
}

fn decode_SLT_MULHSU(instruction: u32) -> (r: InstructionIndex)
    ensures
        r == spec_decode_op(FUNCT3_SLT_MULHSU, spec_funct7(instruction)),
{
    let funct7 = get_funct7_bits(instruction);
    if funct7 == FUNCT7_SLT {
        InstructionIndex::SLT
    } else if funct7 == FUNCT7_MULHSU {
        InstructionIndex::MULHSU
    } else {
        InstructionIndex::UNDEF
    }
}

fn decode_SLTU_MULHU(instruction: u32) -> (r: InstructionIndex)
    ensures
        r == spec_decode_op(FUNCT3_SLTU_MULHU, spec_funct7(instruction)),
{
    let funct7 = get_funct7_bits(instruction);
    if funct7 == FUNCT7_SLTU {
        InstructionIndex::SLTU
    } else if funct7 == FUNCT7_MULHU {
        InstructionIndex::MULHU
    } else {
        InstructionIndex::UNDEF
    }
}

fn decode_XOR_DIV(instruction: u32) -> (r: InstructionIndex)
    ensures
        r == spec_decode_op(FUNCT3_XOR_DIV, spec_funct7(instruction)),
{
    let funct7 = get_funct7_bits(instruction);
    if funct7 == FUNCT7_XOR {
        InstructionIndex::XOR
    } else if funct7 == FUNCT7_DIV {
        InstructionIndex::DIV
    } else {
        InstructionIndex::UNDEF
    }
}

fn decode_SRL_SRA_DIVU(instruction: u32) -> (r: InstructionIndex)
    ensures
        r == spec_decode_op(FUNCT3_SRL_SRA_DIVU, spec_funct7(instruction)),
{
    let funct7 = get_funct7_bits(instruction);
    if funct7 == FUNCT7_SRL {
        InstructionIndex::SRL
    } else if funct7 == FUNCT7_SRA {
        InstructionIndex::SRA
    } else if funct7 == FUNCT7_DIVU {
        InstructionIndex::DIVU
    } else {
        InstructionIndex::UNDEF
    }
}

fn decode_OR_REM(instruction: u32) -> (r: InstructionIndex)
    ensures
        r == spec_decode_op(FUNCT3_OR_REM, spec_funct7(instruction)),
{
    let funct7 = get_funct7_bits(instruction);
    if funct7 == FUNCT7_OR {
        InstructionIndex::OR
    } else if funct7 == FUNCT7_REM {
        InstructionIndex::REM
    } else {
        InstructionIndex::UNDEF
    }
}

fn decode_AND_REMU(instruction: u32) -> (r: InstructionIndex)
    ensures
        r == spec_decode_op(FUNCT3_AND_REMU, spec_funct7(instruction)),
{
    let funct7 = get_funct7_bits(instruction);
    if funct7 == FUNCT7_AND {
        InstructionIndex::AND
    } else if funct7 == FUNCT7_REMU {
        InstructionIndex::REMU
    } else {
        InstructionIndex::UNDEF
    }
}

/// The operands, in the order of the normalized text, that an instruction of kind `k`
/// carries in word `w`: register indices, and immediates as raw two's-complement values
/// (the U immediate as its 20 upper bits).
pub open spec fn spec_operands(k: InstructionIndex, w: u32) -> Seq<u32> {
    match spec_format(k) {
        Format::R => seq![spec_rd(w), spec_rs1(w), spec_rs2(w)],
        Format::I | Format::Shift => seq![spec_rd(w), spec_rs1(w), spec_I_imm(w)],
        Format::S => seq![spec_rs2(w), spec_rs1(w), spec_S_imm(w)],
        Format::B => seq![spec_rs1(w), spec_rs2(w), spec_B_imm(w)],
        Format::U => seq![spec_rd(w), spec_U_imm_bits(w) >> 12u32],
        Format::J => seq![spec_rd(w), spec_J_imm(w)],
        Format::Fence => seq![
            spec_rd(w),
            spec_rs1(w),
            spec_funct12(w) >> 8u32,
            (spec_funct12(w) >> 4u32) & 0xf,
            spec_funct12(w) & 0xf,
        ],
        Format::Fixed | Format::Undefined => seq![],
    }
}

/// The kinds whose words the decoder recognises: all but the sentinel and the MISC-MEM
/// group (FENCE, FENCE.TSO, PAUSE), which the dispatch tree sends to the sentinel.
pub open spec fn decodable(k: InstructionIndex) -> bool {
    match spec_format(k) {
        Format::Fence | Format::Undefined => false,
        Format::Fixed => k == InstructionIndex::ECALL || k == InstructionIndex::EBREAK,
        _ => true,
    }
}

proof fn lemma_r_word(funct3: u32, funct7: u32, rd: u32, rs1: u32, rs2: u32, w: u32)
    by (bit_vector)
    requires
        funct3 < 8,
        funct7 < 128,
        w == r_word(funct3, funct7, rd, rs1, rs2),
    ensures
        spec_opcode(w) == OPCODE_OP,
        spec_funct3(w) == funct3,
        spec_funct7(w) == funct7,
        r_word(funct3, funct7, spec_rd(w), spec_rs1(w), spec_rs2(w)) == w,
{
}

proof fn lemma_i_word(opcode: u32, funct3: u32, rd: u32, rs1: u32, imm: u32, w: u32)
    by (bit_vector)
    requires
        opcode < 128,
        funct3 < 8,
        w == i_word(opcode, funct3, rd, rs1, imm),
    ensures
        spec_opcode(w) == opcode,
        spec_funct3(w) == funct3,
        i_word(opcode, funct3, spec_rd(w), spec_rs1(w), spec_I_imm(w)) == w,
{
}

proof fn lemma_shift_word(
    opcode: u32,
    funct3: u32,
    funct7: u32,
    rd: u32,
    rs1: u32,
    imm: u32,
    w: u32,
)
    by (bit_vector)
    requires
        opcode < 128,
        funct3 < 8,
        funct7 < 128,
        w == shift_word(opcode, funct3, funct7, rd, rs1, imm),
    ensures
        spec_opcode(w) == opcode,
        spec_funct3(w) == funct3,
        spec_funct7(w) == funct7,
        shift_word(opcode, funct3, funct7, spec_rd(w), spec_rs1(w), spec_I_imm(w)) == w,
{
}

proof fn lemma_s_word(funct3: u32, rs2: u32, rs1: u32, imm: u32, w: u32)
    by (bit_vector)
    requires
        funct3 < 8,
        w == s_word(funct3, rs2, rs1, imm),
    ensures
        spec_opcode(w) == OPCODE_STORE,
        spec_funct3(w) == funct3,
        s_word(funct3, spec_rs2(w), spec_rs1(w), spec_S_imm(w)) == w,
{
}

proof fn lemma_b_word(funct3: u32, rs1: u32, rs2: u32, imm: u32, w: u32)
    by (bit_vector)
    requires
        funct3 < 8,
        w == b_word(funct3, rs1, rs2, imm),
    ensures
        spec_opcode(w) == OPCODE_BRANCH,
        spec_funct3(w) == funct3,
        b_word(funct3, spec_rs1(w), spec_rs2(w), spec_B_imm(w)) == w,
{
}

proof fn lemma_u_word(opcode: u32, rd: u32, imm: u32, w: u32)
    by (bit_vector)
    requires
        opcode < 128,
        w == u_word(opcode, rd, imm),
    ensures
        spec_opcode(w) == opcode,
        u_word(opcode, spec_rd(w), spec_U_imm_bits(w) >> 12u32) == w,
{
}

proof fn lemma_j_word(rd: u32, imm: u32, w: u32)
    by (bit_vector)
    requires
        w == j_word(rd, imm),
    ensures
        spec_opcode(w) == OPCODE_JAL,
        j_word(spec_rd(w), spec_J_imm(w)) == w,
{
}

proof fn lemma_fence_word(rd: u32, rs1: u32, fm: u32, pred: u32, succ: u32, w: u32)
    by (bit_vector)
    requires
        w == fence_word(rd, rs1, fm, pred, succ),
    ensures
        fence_word(
            spec_rd(w),
            spec_rs1(w),
            spec_funct12(w) >> 8u32,
            (spec_funct12(w) >> 4u32) & 0xf,
            spec_funct12(w) & 0xf,
        ) == w,
{
}

proof fn lemma_system_words()
    by (bit_vector)
    ensures
        spec_opcode(INSTRUCTION_ECALL_VALUE) == OPCODE_SYSTEM,
        spec_opcode(INSTRUCTION_EBREAK_VALUE) == OPCODE_SYSTEM,
{
}

/// Round trip of the codec: the word assembled for a decodable instruction decodes to that
/// instruction, and reading its operands back out of the word and assembling them again
/// gives the same word, bit for bit.
pub proof fn lemma_round_trip(k: InstructionIndex, ops: Seq<u32>)
    requires
        k != InstructionIndex::UNDEF,
        ops.len() >= spec_arity(k),
    ensures
        decodable(k) ==> spec_decode(spec_encode(k, ops)) == k,
        spec_operands(k, spec_encode(k, ops)).len() == spec_arity(k),
        spec_encode(k, spec_operands(k, spec_encode(k, ops))) == spec_encode(k, ops),
{
    let (format, opcode, funct3, funct7) = spec_encoding(k);
    let w = spec_encode(k, ops);
    match format {
        Format::R => lemma_r_word(funct3, funct7, ops[0], ops[1], ops[2], w),
        Format::I => lemma_i_word(opcode, funct3, ops[0], ops[1], ops[2], w),
        Format::S => lemma_s_word(funct3, ops[0], ops[1], ops[2], w),
        Format::B => lemma_b_word(funct3, ops[0], ops[1], ops[2], w),
        Format::U => lemma_u_word(opcode, ops[0], ops[1], w),
        Format::J => lemma_j_word(ops[0], ops[1], w),
        Format::Shift => lemma_shift_word(opcode, funct3, funct7, ops[0], ops[1], ops[2], w),
        Format::Fence => lemma_fence_word(ops[0], ops[1], ops[2], ops[3], ops[4], w),
        Format::Fixed => lemma_system_words(),
        Format::Undefined => {},
    }
}

} // verus!
