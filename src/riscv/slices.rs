use vstd::prelude::*;

verus! {

pub const OPCODE_LUI: u32 = 0x37;
pub const OPCODE_AUIPC: u32 = 0x17;
pub const OPCODE_JAL: u32 = 0x6f;
pub const OPCODE_JALR: u32 = 0x67;
pub const OPCODE_BRANCH: u32 = 0x63;
pub const OPCODE_LOAD: u32 = 0x03;
pub const OPCODE_STORE: u32 = 0x23;
pub const OPCODE_OP_IMM: u32 = 0x13;
pub const OPCODE_OP: u32 = 0x33;
pub const OPCODE_MISC_MEM: u32 = 0xf;
pub const OPCODE_SYSTEM: u32 = 0x73;

pub const FUNCT3_JALR: u32 = 0;
pub const FUNCT3_BEQ: u32 = 0;
pub const FUNCT3_BNE: u32 = 1;
pub const FUNCT3_BLT: u32 = 4;
pub const FUNCT3_BGE: u32 = 5;
pub const FUNCT3_BLTU: u32 = 6;
pub const FUNCT3_BGEU: u32 = 7;
pub const FUNCT3_LB: u32 = 0;
pub const FUNCT3_LH: u32 = 1;
pub const FUNCT3_LW: u32 = 2;
pub const FUNCT3_LBU: u32 = 4;
pub const FUNCT3_LHU: u32 = 5;
pub const FUNCT3_SB: u32 = 0;
pub const FUNCT3_SH: u32 = 1;
pub const FUNCT3_SW: u32 = 2;
pub const FUNCT3_ADDI: u32 = 0;
pub const FUNCT3_SLTI: u32 = 2;
pub const FUNCT3_SLTIU: u32 = 3;
pub const FUNCT3_XORI: u32 = 4;
pub const FUNCT3_ORI: u32 = 6;
pub const FUNCT3_ANDI: u32 = 7;
pub const FUNCT3_SLLI: u32 = 1;
pub const FUNCT3_SRLI: u32 = 5;
pub const FUNCT3_SRAI: u32 = FUNCT3_SRLI;
pub const FUNCT3_ADD: u32 = 0;
pub const FUNCT3_SUB: u32 = FUNCT3_ADD;
pub const FUNCT3_SLL: u32 = 1;
pub const FUNCT3_SLT: u32 = 2;
pub const FUNCT3_SLTU: u32 = 3;
pub const FUNCT3_XOR: u32 = 4;
pub const FUNCT3_SRL: u32 = 5;
pub const FUNCT3_SRA: u32 = FUNCT3_SRL;
pub const FUNCT3_OR: u32 = 6;
pub const FUNCT3_AND: u32 = 7;
pub const FUNCT3_MUL: u32 = FUNCT3_ADD;
pub const FUNCT3_MULH: u32 = FUNCT3_SLL;
pub const FUNCT3_MULHSU: u32 = FUNCT3_SLT;
pub const FUNCT3_MULHU: u32 = FUNCT3_SLTU;
pub const FUNCT3_DIV: u32 = FUNCT3_XOR;
pub const FUNCT3_DIVU: u32 = FUNCT3_SRL;
pub const FUNCT3_REM: u32 = FUNCT3_OR;
pub const FUNCT3_REMU: u32 = FUNCT3_AND;
// one name per decode bucket, shared by the instructions that the funct7 field tells apart
pub const FUNCT3_SRLI_SRAI: u32 = FUNCT3_SRLI;
pub const FUNCT3_ADD_SUB_MUL: u32 = FUNCT3_ADD;
pub const FUNCT3_SLL_MULH: u32 = FUNCT3_SLL;
pub const FUNCT3_SLT_MULHSU: u32 = FUNCT3_SLT;
pub const FUNCT3_SLTU_MULHU: u32 = FUNCT3_SLTU;
pub const FUNCT3_XOR_DIV: u32 = FUNCT3_XOR;
pub const FUNCT3_SRL_SRA_DIVU: u32 = FUNCT3_SRL;
pub const FUNCT3_OR_REM: u32 = FUNCT3_OR;
pub const FUNCT3_AND_REMU: u32 = FUNCT3_AND;

pub const FUNCT7_SLLI: u32 = 0;
pub const FUNCT7_SRLI: u32 = 0;
pub const FUNCT7_SRAI: u32 = 0x20;
pub const FUNCT7_ADD: u32 = 0;
pub const FUNCT7_SUB: u32 = 0x20;
pub const FUNCT7_SLL: u32 = 0;
pub const FUNCT7_SLT: u32 = 0;
pub const FUNCT7_SLTU: u32 = 0;
pub const FUNCT7_XOR: u32 = 0;
pub const FUNCT7_SRL: u32 = 0;
pub const FUNCT7_SRA: u32 = 0x20;
pub const FUNCT7_OR: u32 = 0;
pub const FUNCT7_AND: u32 = 0;
pub const FUNCT7_MUL: u32 = 1;
pub const FUNCT7_MULH: u32 = 1;
pub const FUNCT7_MULHSU: u32 = 1;
pub const FUNCT7_MULHU: u32 = 1;
pub const FUNCT7_DIV: u32 = 1;
pub const FUNCT7_DIVU: u32 = 1;
pub const FUNCT7_REM: u32 = 1;
pub const FUNCT7_REMU: u32 = 1;

pub const FUNCT12_FENCE_TSO: u32 = 0b1000_0011_0011;
pub const FUNCT12_PAUSE: u32 = 0b0000_0001_0000;
pub const FUNCT12_ECALL: u32 = 0;
pub const FUNCT12_EBREAK: u32 = 1;

pub const MASK_OPCODE: u32 = 0x0000_007f;
pub const MASK_RD: u32 = 0x0000_0f80;
pub const MASK_RS1: u32 = 0x000f_8000;
pub const MASK_RS2: u32 = 0x01f0_0000;
pub const MASK_FUNCT3: u32 = 0x0000_7000;
pub const MASK_FUNCT7: u32 = 0xfe00_0000;
pub const MASK_FUNCT12: u32 = 0xfff0_0000;
pub const MASK_I_IMM: u32 = 0xfff0_0000;
pub const MASK_S_IMM: u32 = 0xfe00_0f80;
pub const MASK_S_IMM_PART0: u32 = 0x0000_0f80;
pub const MASK_S_IMM_PART1: u32 = 0xfe00_0000;
pub const MASK_B_IMM: u32 = 0xfe00_0f80;
pub const MASK_B_IMM_PART0: u32 = 0x0000_0f00;
pub const MASK_B_IMM_PART1: u32 = 0x7e00_0000;
pub const MASK_B_IMM_PART2: u32 = 0x0000_0080;
pub const MASK_B_IMM_PART3: u32 = 0x8000_0000;
pub const MASK_U_IMM: u32 = 0xffff_f000;
pub const MASK_J_IMM: u32 = 0xffff_f000;
pub const MASK_J_IMM_PART0: u32 = 0x7fe0_0000;
pub const MASK_J_IMM_PART1: u32 = 0x0010_0000;
pub const MASK_J_IMM_PART2: u32 = 0x000f_f000;
pub const MASK_J_IMM_PART3: u32 = 0x8000_0000;

pub const OFFSET_OPCODE: u32 = 0;
pub const OFFSET_RD: u32 = 7;
pub const OFFSET_RS1: u32 = 15;
pub const OFFSET_RS2: u32 = 20;
pub const OFFSET_FUNCT3: u32 = 12;
pub const OFFSET_FUNCT7: u32 = 25;
pub const OFFSET_FUNCT12: u32 = 20;
pub const OFFSET_I_IMM: u32 = 20;
pub const OFFSET_S_IMM_PART0: u32 = 7;
pub const OFFSET_S_IMM_PART1: u32 = 25;
pub const OFFSET_B_IMM_PART0: u32 = 8;
pub const OFFSET_B_IMM_PART1: u32 = 25;
pub const OFFSET_B_IMM_PART2: u32 = 7;
pub const OFFSET_B_IMM_PART3: u32 = 31;
pub const OFFSET_U_IMM: u32 = 12;
pub const OFFSET_J_IMM_PART0: u32 = 21;
pub const OFFSET_J_IMM_PART1: u32 = 20;
pub const OFFSET_J_IMM_PART2: u32 = 12;
pub const OFFSET_J_IMM_PART3: u32 = 31;

// where each part of a split immediate lands in the immediate's value
pub const POSITION_S_IMM_PART1: u32 = 5;
pub const POSITION_B_IMM_PART0: u32 = 1;
pub const POSITION_B_IMM_PART1: u32 = 5;
pub const POSITION_B_IMM_PART2: u32 = 11;
pub const POSITION_B_IMM_PART3: u32 = 12;
pub const POSITION_U_IMM: u32 = 12;
pub const POSITION_J_IMM_PART0: u32 = 1;
pub const POSITION_J_IMM_PART1: u32 = 11;
pub const POSITION_J_IMM_PART2: u32 = 12;
pub const POSITION_J_IMM_PART3: u32 = 20;

// slices of an immediate's value, for writing it into the non-contiguous fields (S, B, J)
pub const MASK_S_IMM_PART0_SET: u32 = 0x0000_001f;
pub const MASK_S_IMM_PART1_SET: u32 = 0x0000_0fe0;
pub const MASK_B_IMM_PART0_SET: u32 = 0x0000_0800;
pub const MASK_B_IMM_PART1_SET: u32 = 0x0000_001e;
pub const MASK_B_IMM_PART2_SET: u32 = 0x0000_07e0;
pub const MASK_B_IMM_PART3_SET: u32 = 0x0000_1000;
pub const MASK_J_IMM_PART0_SET: u32 = 0x000f_f000;
pub const MASK_J_IMM_PART1_SET: u32 = 0x0000_0800;
pub const MASK_J_IMM_PART2_SET: u32 = 0x0000_07fe;
pub const MASK_J_IMM_PART3_SET: u32 = 0x0010_0000;
pub const OFFSET_S_IMM_PART0_SET: u32 = 0;
pub const OFFSET_S_IMM_PART1_SET: u32 = 5;
pub const OFFSET_B_IMM_PART0_SET: u32 = 11;
pub const OFFSET_B_IMM_PART1_SET: u32 = 1;
pub const OFFSET_B_IMM_PART2_SET: u32 = 5;
pub const OFFSET_B_IMM_PART3_SET: u32 = 12;
pub const OFFSET_J_IMM_PART0_SET: u32 = 12;
pub const OFFSET_J_IMM_PART1_SET: u32 = 11;
pub const OFFSET_J_IMM_PART2_SET: u32 = 1;
pub const OFFSET_J_IMM_PART3_SET: u32 = 20;
pub const POSITION_S_IMM_PART0_SET: u32 = 7;
pub const POSITION_S_IMM_PART1_SET: u32 = 25;
pub const POSITION_B_IMM_PART0_SET: u32 = 7;
pub const POSITION_B_IMM_PART1_SET: u32 = 8;
pub const POSITION_B_IMM_PART2_SET: u32 = 25;
pub const POSITION_B_IMM_PART3_SET: u32 = 31;
pub const POSITION_U_IMM_SET: u32 = 12;
pub const POSITION_J_IMM_PART0_SET: u32 = 12;
pub const POSITION_J_IMM_PART1_SET: u32 = 20;
pub const POSITION_J_IMM_PART2_SET: u32 = 21;
pub const POSITION_J_IMM_PART3_SET: u32 = 31;

// the bit of each immediate that carries its sign
pub const SXT_BIT_I_IMM: u32 = 11;
pub const SXT_BIT_S_IMM: u32 = 11;
pub const SXT_BIT_B_IMM: u32 = 12;
pub const SXT_BIT_U_IMM: u32 = 31;
pub const SXT_BIT_J_IMM: u32 = 20;

// the words of the instructions without operands: funct12 over the opcode
pub const INSTRUCTION_FENCE_TSO_VALUE: u32 = 0x8330_000f;
pub const INSTRUCTION_PAUSE_VALUE: u32 = 0x0100_000f;
pub const INSTRUCTION_ECALL_VALUE: u32 = 0x0000_0073;
pub const INSTRUCTION_EBREAK_VALUE: u32 = 0x0010_0073;

/// Whether bit `i` of `x` is set.
pub open spec fn bit_set(x: u32, i: u32) -> bool {
    (x >> i) & 1 == 1
}

/// `x` with bit `pos` copied into every bit above it; the bits up to `pos` are kept.
pub open spec fn spec_sign_extend(x: u32, pos: u32) -> u32 {
    let low = u32::MAX >> ((31 - pos) as u32);
    if x & (1u32 << pos) != 0 {
        x | !low
    } else {
        x & low
    }
}

/// The bits of `w` that `mask` selects, moved down by `offset`.
pub open spec fn spec_get_slice(w: u32, mask: u32, offset: u32) -> u32 {
    (w & mask) >> offset
}

/// `w` with the bits that `mask` selects replaced by `value` moved up by `offset`.
pub open spec fn spec_set_slice(w: u32, value: u32, mask: u32, offset: u32) -> u32 {
    (w & !mask) | ((value << offset) & mask)
}

pub open spec fn spec_opcode(w: u32) -> u32 {
    spec_get_slice(w, MASK_OPCODE, OFFSET_OPCODE)
}

pub open spec fn spec_funct3(w: u32) -> u32 {
    spec_get_slice(w, MASK_FUNCT3, OFFSET_FUNCT3)
}

pub open spec fn spec_funct7(w: u32) -> u32 {
    spec_get_slice(w, MASK_FUNCT7, OFFSET_FUNCT7)
}

pub open spec fn spec_funct12(w: u32) -> u32 {
    spec_get_slice(w, MASK_FUNCT12, OFFSET_FUNCT12)
}

pub open spec fn spec_rd(w: u32) -> u32 {
    spec_get_slice(w, MASK_RD, OFFSET_RD)
}

pub open spec fn spec_rs1(w: u32) -> u32 {
    spec_get_slice(w, MASK_RS1, OFFSET_RS1)
}

pub open spec fn spec_rs2(w: u32) -> u32 {
    spec_get_slice(w, MASK_RS2, OFFSET_RS2)
}

/// imm[11:0] = w[31:20]
pub open spec fn spec_I_imm_bits(w: u32) -> u32 {
    spec_get_slice(w, MASK_I_IMM, OFFSET_I_IMM)
}

/// imm[11:5] = w[31:25], imm[4:0] = w[11:7]
pub open spec fn spec_S_imm_bits(w: u32) -> u32 {
    (spec_get_slice(w, MASK_S_IMM_PART1, OFFSET_S_IMM_PART1) << POSITION_S_IMM_PART1)
        | spec_get_slice(w, MASK_S_IMM_PART0, OFFSET_S_IMM_PART0)
}

/// imm[12] = w[31], imm[11] = w[7], imm[10:5] = w[30:25], imm[4:1] = w[11:8], imm[0] = 0
pub open spec fn spec_B_imm_bits(w: u32) -> u32 {
    (spec_get_slice(w, MASK_B_IMM_PART3, OFFSET_B_IMM_PART3) << POSITION_B_IMM_PART3)
        | (spec_get_slice(w, MASK_B_IMM_PART2, OFFSET_B_IMM_PART2) << POSITION_B_IMM_PART2)
        | (spec_get_slice(w, MASK_B_IMM_PART1, OFFSET_B_IMM_PART1) << POSITION_B_IMM_PART1)
        | (spec_get_slice(w, MASK_B_IMM_PART0, OFFSET_B_IMM_PART0) << POSITION_B_IMM_PART0)
}

/// imm[31:12] = w[31:12], imm[11:0] = 0
pub open spec fn spec_U_imm_bits(w: u32) -> u32 {
    spec_get_slice(w, MASK_U_IMM, OFFSET_U_IMM) << POSITION_U_IMM
}

/// imm[20] = w[31], imm[19:12] = w[19:12], imm[11] = w[20], imm[10:1] = w[30:21], imm[0] = 0
pub open spec fn spec_J_imm_bits(w: u32) -> u32 {
    (spec_get_slice(w, MASK_J_IMM_PART3, OFFSET_J_IMM_PART3) << POSITION_J_IMM_PART3)
        | (spec_get_slice(w, MASK_J_IMM_PART2, OFFSET_J_IMM_PART2) << POSITION_J_IMM_PART2)
        | (spec_get_slice(w, MASK_J_IMM_PART1, OFFSET_J_IMM_PART1) << POSITION_J_IMM_PART1)
        | (spec_get_slice(w, MASK_J_IMM_PART0, OFFSET_J_IMM_PART0) << POSITION_J_IMM_PART0)
}

pub open spec fn spec_I_imm(w: u32) -> u32 {
    spec_sign_extend(spec_I_imm_bits(w), SXT_BIT_I_IMM)
}

pub open spec fn spec_S_imm(w: u32) -> u32 {
    spec_sign_extend(spec_S_imm_bits(w), SXT_BIT_S_IMM)
}

pub open spec fn spec_B_imm(w: u32) -> u32 {
    spec_sign_extend(spec_B_imm_bits(w), SXT_BIT_B_IMM)
}

pub open spec fn spec_U_imm(w: u32) -> u32 {
    spec_sign_extend(spec_U_imm_bits(w), SXT_BIT_U_IMM)
}

pub open spec fn spec_J_imm(w: u32) -> u32 {
    spec_sign_extend(spec_J_imm_bits(w), SXT_BIT_J_IMM)
}

pub open spec fn spec_set_I_imm_bits(w: u32, v: u32) -> u32 {
    spec_set_slice(w, v, MASK_I_IMM, OFFSET_I_IMM)
}

pub open spec fn spec_set_S_imm_bits(w: u32, v: u32) -> u32 {
    (w & !MASK_S_IMM)
        | (spec_get_slice(v, MASK_S_IMM_PART1_SET, OFFSET_S_IMM_PART1_SET) << POSITION_S_IMM_PART1_SET)
        | (spec_get_slice(v, MASK_S_IMM_PART0_SET, OFFSET_S_IMM_PART0_SET) << POSITION_S_IMM_PART0_SET)
}

pub open spec fn spec_set_B_imm_bits(w: u32, v: u32) -> u32 {
    (w & !MASK_B_IMM)
        | (spec_get_slice(v, MASK_B_IMM_PART3_SET, OFFSET_B_IMM_PART3_SET) << POSITION_B_IMM_PART3_SET)
        | (spec_get_slice(v, MASK_B_IMM_PART2_SET, OFFSET_B_IMM_PART2_SET) << POSITION_B_IMM_PART2_SET)
        | (spec_get_slice(v, MASK_B_IMM_PART1_SET, OFFSET_B_IMM_PART1_SET) << POSITION_B_IMM_PART1_SET)
        | (spec_get_slice(v, MASK_B_IMM_PART0_SET, OFFSET_B_IMM_PART0_SET) << POSITION_B_IMM_PART0_SET)
}

pub open spec fn spec_set_U_imm_bits(w: u32, v: u32) -> u32 {
    (w & !MASK_U_IMM) | (v << POSITION_U_IMM_SET)
}

pub open spec fn spec_set_J_imm_bits(w: u32, v: u32) -> u32 {
    (w & !MASK_J_IMM)
        | (spec_get_slice(v, MASK_J_IMM_PART3_SET, OFFSET_J_IMM_PART3_SET) << POSITION_J_IMM_PART3_SET)
        | (spec_get_slice(v, MASK_J_IMM_PART2_SET, OFFSET_J_IMM_PART2_SET) << POSITION_J_IMM_PART2_SET)
        | (spec_get_slice(v, MASK_J_IMM_PART1_SET, OFFSET_J_IMM_PART1_SET) << POSITION_J_IMM_PART1_SET)
        | (spec_get_slice(v, MASK_J_IMM_PART0_SET, OFFSET_J_IMM_PART0_SET) << POSITION_J_IMM_PART0_SET)
}

/// Opcodes whose instructions carry an immediate.
pub open spec fn has_immediate(opcode: u32) -> bool {
    opcode == OPCODE_LUI || opcode == OPCODE_AUIPC || opcode == OPCODE_JAL || opcode == OPCODE_JALR
        || opcode == OPCODE_BRANCH || opcode == OPCODE_LOAD || opcode == OPCODE_STORE
        || opcode == OPCODE_OP_IMM
}

/// The sign-extended immediate of `w`, in the format that its opcode uses.
pub open spec fn spec_imm(w: u32) -> u32 {
    let opcode = spec_opcode(w);
    if opcode == OPCODE_LUI || opcode == OPCODE_AUIPC {
        spec_U_imm(w)
    } else if opcode == OPCODE_JAL {
        spec_J_imm(w)
    } else if opcode == OPCODE_BRANCH {
        spec_B_imm(w)
    } else if opcode == OPCODE_STORE {
        spec_S_imm(w)
    } else {
        spec_I_imm(w)
    }
}

/// Writing a 12-bit signed immediate into the I field and reading it back gives it again.
pub proof fn lemma_I_imm_round_trip(w: u32, imm: u32)
    by (bit_vector)
    requires
        spec_sign_extend(imm, SXT_BIT_I_IMM) == imm,
    ensures
        spec_I_imm(spec_set_I_imm_bits(w, imm)) == imm,
{
}

/// Writing a 12-bit signed immediate into the split S field and reading it back gives it again.
pub proof fn lemma_S_imm_round_trip(w: u32, imm: u32)
    by (bit_vector)
    requires
        spec_sign_extend(imm, SXT_BIT_S_IMM) == imm,
    ensures
        spec_S_imm(spec_set_S_imm_bits(w, imm)) == imm,
{
}

/// Writing an even 13-bit signed offset into the split B field and reading it back gives it
/// again (bit 0 is not stored, so only even offsets come back unchanged).
pub proof fn lemma_B_imm_round_trip(w: u32, imm: u32)
    by (bit_vector)
    requires
        spec_sign_extend(imm, SXT_BIT_B_IMM) == imm,
        imm & 1 == 0,
    ensures
        spec_B_imm(spec_set_B_imm_bits(w, imm)) == imm,
{
}

/// Writing a 20-bit upper immediate into the U field and reading it back gives it again, in
/// bits 31..12 of the value read.
pub proof fn lemma_U_imm_round_trip(w: u32, imm: u32)
    by (bit_vector)
    requires
        imm < 0x10_0000,
    ensures
        spec_U_imm(spec_set_U_imm_bits(w, imm)) >> POSITION_U_IMM == imm,
        spec_U_imm(spec_set_U_imm_bits(w, imm)) == imm << POSITION_U_IMM,
{
}

/// Writing an even 21-bit signed offset into the split J field and reading it back gives it
/// again (bit 0 is not stored, so only even offsets come back unchanged).
pub proof fn lemma_J_imm_round_trip(w: u32, imm: u32)
    by (bit_vector)
    requires
        spec_sign_extend(imm, SXT_BIT_J_IMM) == imm,
        imm & 1 == 0,
    ensures
        spec_J_imm(spec_set_J_imm_bits(w, imm)) == imm,
{
}

/// Register fields are five bits wide.
pub proof fn lemma_register_fields(w: u32)
    by (bit_vector)
    ensures
        spec_rd(w) < 32,
        spec_rs1(w) < 32,
        spec_rs2(w) < 32,
{
}

proof fn lemma_slice_mask_bits(lo: u32, hi: u32)
    by (bit_vector)
    requires
        lo <= hi <= 31,
    ensures
        forall|i: u32|
            i < 32 ==> (#[trigger] bit_set((u32::MAX >> ((31 - hi) as u32)) & (u32::MAX << lo), i) <==> lo <= i
                <= hi),
{
}

/// The mask whose set bits are exactly `lo..=hi`.
pub fn slice_mask(lo: usize, hi: usize) -> (r: u32)
    requires
        lo <= hi <= 31,
    ensures
        forall|i: u32| i < 32 ==> (#[trigger] bit_set(r, i) <==> lo <= i <= hi),
{
    proof {
        lemma_slice_mask_bits(lo as u32, hi as u32);
    }
    (u32::MAX >> (31 - hi as u32)) & (u32::MAX << lo as u32)
}

/// copies the bit of `x` at position `pos` into higher bits
pub fn sign_extend(x: &mut u32, pos: u32)
    requires
        pos <= 31,
    ensures
        *final(x) == spec_sign_extend(*old(x), pos),
{
    let low = u32::MAX >> (31 - pos);
    if *x & (1u32 << pos) != 0 {
        *x = *x | !low;
    } else {
        *x = *x & low;
    }
}

/// The bits of `instruction` selected by the slice's mask, moved down by its offset.
pub fn get_slice_bits(instruction: u32, slice: (u32, u32)) -> (r: u32)
    requires
        slice.1 < 32,
    ensures
        r == spec_get_slice(instruction, slice.0, slice.1),
{
    let (mask, offset) = slice;
    (instruction & mask) >> offset
}

/// set bits selected by mask to the corresponding bits of value,
/// which is shifted into position
pub fn set_slice_bits(instruction: u32, value: u32, slice: (u32, u32)) -> (r: u32)
    requires
        slice.1 < 32,
    ensures
        r == spec_set_slice(instruction, value, slice.0, slice.1),
{
    let (mask, offset) = slice;
    (instruction & !mask) | ((value << offset) & mask)
}

pub fn get_opcode_bits(instruction: u32) -> (r: u32)
    ensures
        r == spec_opcode(instruction),
{
    get_slice_bits(instruction, (MASK_OPCODE, OFFSET_OPCODE))
}

pub fn get_funct3_bits(instruction: u32) -> (r: u32)
    ensures
        r == spec_funct3(instruction),
{
    get_slice_bits(instruction, (MASK_FUNCT3, OFFSET_FUNCT3))
}

pub fn get_funct7_bits(instruction: u32) -> (r: u32)
    ensures
        r == spec_funct7(instruction),
{
    get_slice_bits(instruction, (MASK_FUNCT7, OFFSET_FUNCT7))
}

pub fn _get_funct12_bits(instruction: u32) -> (r: u32)
    ensures
        r == spec_funct12(instruction),
{
    get_slice_bits(instruction, (MASK_FUNCT12, OFFSET_FUNCT12))
}

pub fn get_rd_bits(instruction: u32) -> (r: u32)
    ensures
        r == spec_rd(instruction),
        r < 32,
{
    proof {
        lemma_register_fields(instruction);
    }
    get_slice_bits(instruction, (MASK_RD, OFFSET_RD))
}

pub fn get_rs1_bits(instruction: u32) -> (r: u32)
    ensures
        r == spec_rs1(instruction),
        r < 32,
{
    proof {
        lemma_register_fields(instruction);
    }
    get_slice_bits(instruction, (MASK_RS1, OFFSET_RS1))
}

pub fn get_rs2_bits(instruction: u32) -> (r: u32)
    ensures
        r == spec_rs2(instruction),
        r < 32,
{
    proof {
        lemma_register_fields(instruction);
    }
    get_slice_bits(instruction, (MASK_RS2, OFFSET_RS2))
}

pub fn get_I_imm_bits(instruction: u32) -> (r: u32)
    ensures
        r == spec_I_imm_bits(instruction),
{
    get_slice_bits(instruction, (MASK_I_IMM, OFFSET_I_IMM))
}

pub fn get_S_imm_bits(instruction: u32) -> (r: u32)
    ensures
        r == spec_S_imm_bits(instruction),
{
    let part0 = get_slice_bits(instruction, (MASK_S_IMM_PART0, OFFSET_S_IMM_PART0));
    let part1 = get_slice_bits(instruction, (MASK_S_IMM_PART1, OFFSET_S_IMM_PART1))
        << POSITION_S_IMM_PART1;
    part1 | part0
}

pub fn get_B_imm_bits(instruction: u32) -> (r: u32)
    ensures
        r == spec_B_imm_bits(instruction),
{
    let part0 = get_slice_bits(instruction, (MASK_B_IMM_PART0, OFFSET_B_IMM_PART0))
        << POSITION_B_IMM_PART0;
    let part1 = get_slice_bits(instruction, (MASK_B_IMM_PART1, OFFSET_B_IMM_PART1))
        << POSITION_B_IMM_PART1;
    let part2 = get_slice_bits(instruction, (MASK_B_IMM_PART2, OFFSET_B_IMM_PART2))
        << POSITION_B_IMM_PART2;
    let part3 = get_slice_bits(instruction, (MASK_B_IMM_PART3, OFFSET_B_IMM_PART3))
        << POSITION_B_IMM_PART3;
    part3 | part2 | part1 | part0
}

pub fn get_U_imm_bits(instruction: u32) -> (r: u32)
    ensures
        r == spec_U_imm_bits(instruction),
{
    get_slice_bits(instruction, (MASK_U_IMM, OFFSET_U_IMM)) << POSITION_U_IMM
}

pub fn get_J_imm_bits(instruction: u32) -> (r: u32)
    ensures
        r == spec_J_imm_bits(instruction),
{
    let part0 = get_slice_bits(instruction, (MASK_J_IMM_PART0, OFFSET_J_IMM_PART0))
        << POSITION_J_IMM_PART0;
    let part1 = get_slice_bits(instruction, (MASK_J_IMM_PART1, OFFSET_J_IMM_PART1))
        << POSITION_J_IMM_PART1;
    let part2 = get_slice_bits(instruction, (MASK_J_IMM_PART2, OFFSET_J_IMM_PART2))
        << POSITION_J_IMM_PART2;
    let part3 = get_slice_bits(instruction, (MASK_J_IMM_PART3, OFFSET_J_IMM_PART3))
        << POSITION_J_IMM_PART3;
    part3 | part2 | part1 | part0
}

pub fn get_I_imm(instruction: u32) -> (r: u32)
    ensures
        r == spec_I_imm(instruction),
{
    let mut imm_bits = get_I_imm_bits(instruction);
    sign_extend(&mut imm_bits, SXT_BIT_I_IMM);
    imm_bits
}

pub fn get_S_imm(instruction: u32) -> (r: u32)
    ensures
        r == spec_S_imm(instruction),
{
    let mut imm_bits = get_S_imm_bits(instruction);
    sign_extend(&mut imm_bits, SXT_BIT_S_IMM);
    imm_bits
}

pub fn get_U_imm(instruction: u32) -> (r: u32)
    ensures
        r == spec_U_imm(instruction),
{
    let mut imm_bits = get_U_imm_bits(instruction);
    sign_extend(&mut imm_bits, SXT_BIT_U_IMM);
    imm_bits
}

pub fn get_B_imm(instruction: u32) -> (r: u32)
    ensures
        r == spec_B_imm(instruction),
{
    let mut imm_bits = get_B_imm_bits(instruction);
    sign_extend(&mut imm_bits, SXT_BIT_B_IMM);
    imm_bits
}

pub fn get_J_imm(instruction: u32) -> (r: u32)
    ensures
        r == spec_J_imm(instruction),
{
    let mut imm_bits = get_J_imm_bits(instruction);
    sign_extend(&mut imm_bits, SXT_BIT_J_IMM);
    imm_bits
}

pub fn set_opcode_bits(instruction: u32, value: u32) -> (r: u32)
    ensures
        r == spec_set_slice(instruction, value, MASK_OPCODE, OFFSET_OPCODE),
{
    set_slice_bits(instruction, value, (MASK_OPCODE, OFFSET_OPCODE))
}

pub fn set_funct3_bits(instruction: u32, value: u32) -> (r: u32)
    ensures
        r == spec_set_slice(instruction, value, MASK_FUNCT3, OFFSET_FUNCT3),
{
    set_slice_bits(instruction, value, (MASK_FUNCT3, OFFSET_FUNCT3))
}

pub fn set_funct7_bits(instruction: u32, value: u32) -> (r: u32)
    ensures
        r == spec_set_slice(instruction, value, MASK_FUNCT7, OFFSET_FUNCT7),
{
    set_slice_bits(instruction, value, (MASK_FUNCT7, OFFSET_FUNCT7))
}

pub fn set_funct12_bits(instruction: u32, value: u32) -> (r: u32)
    ensures
        r == spec_set_slice(instruction, value, MASK_FUNCT12, OFFSET_FUNCT12),
{
    set_slice_bits(instruction, value, (MASK_FUNCT12, OFFSET_FUNCT12))
}

pub fn set_rd_bits(instruction: u32, value: u32) -> (r: u32)
    ensures
        r == spec_set_slice(instruction, value, MASK_RD, OFFSET_RD),
{
    set_slice_bits(instruction, value, (MASK_RD, OFFSET_RD))
}

pub fn set_rs1_bits(instruction: u32, value: u32) -> (r: u32)
    ensures
        r == spec_set_slice(instruction, value, MASK_RS1, OFFSET_RS1),
{
    set_slice_bits(instruction, value, (MASK_RS1, OFFSET_RS1))
}

pub fn set_rs2_bits(instruction: u32, value: u32) -> (r: u32)
    ensures
        r == spec_set_slice(instruction, value, MASK_RS2, OFFSET_RS2),
{
    set_slice_bits(instruction, value, (MASK_RS2, OFFSET_RS2))
}

pub fn set_I_imm_bits(instruction: u32, value: u32) -> (r: u32)
    ensures
        r == spec_set_I_imm_bits(instruction, value),
{
    set_slice_bits(instruction, value, (MASK_I_IMM, OFFSET_I_IMM))
}

pub fn set_S_imm_bits(instruction: u32, value: u32) -> (r: u32)
    ensures
        r == spec_set_S_imm_bits(instruction, value),
{
    let instruction = instruction & !MASK_S_IMM;
    let part0 = get_slice_bits(value, (MASK_S_IMM_PART0_SET, OFFSET_S_IMM_PART0_SET))
        << POSITION_S_IMM_PART0_SET;
    let part1 = get_slice_bits(value, (MASK_S_IMM_PART1_SET, OFFSET_S_IMM_PART1_SET))
        << POSITION_S_IMM_PART1_SET;
    instruction | part1 | part0
}

pub fn set_B_imm_bits(instruction: u32, value: u32) -> (r: u32)
    ensures
        r == spec_set_B_imm_bits(instruction, value),
{
    let instruction = instruction & !MASK_B_IMM;
    let part0 = get_slice_bits(value, (MASK_B_IMM_PART0_SET, OFFSET_B_IMM_PART0_SET))
        << POSITION_B_IMM_PART0_SET;
    let part1 = get_slice_bits(value, (MASK_B_IMM_PART1_SET, OFFSET_B_IMM_PART1_SET))
        << POSITION_B_IMM_PART1_SET;
    let part2 = get_slice_bits(value, (MASK_B_IMM_PART2_SET, OFFSET_B_IMM_PART2_SET))
        << POSITION_B_IMM_PART2_SET;
    let part3 = get_slice_bits(value, (MASK_B_IMM_PART3_SET, OFFSET_B_IMM_PART3_SET))
        << POSITION_B_IMM_PART3_SET;
    instruction | part3 | part2 | part1 | part0
}

pub fn set_U_imm_bits(instruction: u32, value: u32) -> (r: u32)
    ensures
        r == spec_set_U_imm_bits(instruction, value),
{
    let instruction = instruction & !MASK_U_IMM;
    let part0 = value << POSITION_U_IMM_SET;
    instruction | part0
}

pub fn set_J_imm_bits(instruction: u32, value: u32) -> (r: u32)
    ensures
        r == spec_set_J_imm_bits(instruction, value),
{
    let instruction = instruction & !MASK_J_IMM;
    let part0 = get_slice_bits(value, (MASK_J_IMM_PART0_SET, OFFSET_J_IMM_PART0_SET))
        << POSITION_J_IMM_PART0_SET;
    let part1 = get_slice_bits(value, (MASK_J_IMM_PART1_SET, OFFSET_J_IMM_PART1_SET))
        << POSITION_J_IMM_PART1_SET;
    let part2 = get_slice_bits(value, (MASK_J_IMM_PART2_SET, OFFSET_J_IMM_PART2_SET))
        << POSITION_J_IMM_PART2_SET;
    let part3 = get_slice_bits(value, (MASK_J_IMM_PART3_SET, OFFSET_J_IMM_PART3_SET))
        << POSITION_J_IMM_PART3_SET;
    instruction | part3 | part2 | part1 | part0
}

/// The sign-extended immediate of an instruction, read in the format of its opcode.
pub fn get_imm(instruction: u32) -> (r: u32)
    requires
        has_immediate(spec_opcode(instruction)),
    ensures
        r == spec_imm(instruction),
{
    let opcode = get_opcode_bits(instruction);
    if opcode == OPCODE_LUI || opcode == OPCODE_AUIPC {
        get_U_imm(instruction)
    } else if opcode == OPCODE_JAL {
        get_J_imm(instruction)
    } else if opcode == OPCODE_BRANCH {
        get_B_imm(instruction)
    } else if opcode == OPCODE_STORE {
        get_S_imm(instruction)
    } else {
        get_I_imm(instruction)
    }
}

} // verus!
