use vstd::prelude::*;

use super::slices::{
    FUNCT3_ADD,
    FUNCT3_ADDI,
    FUNCT3_AND,
    FUNCT3_ANDI,
    FUNCT3_BEQ,
    FUNCT3_BGE,
    FUNCT3_BGEU,
    FUNCT3_BLT,
    FUNCT3_BLTU,
    FUNCT3_BNE,
    FUNCT3_DIV,
    FUNCT3_DIVU,
    FUNCT3_JALR,
    FUNCT3_LB,
    FUNCT3_LBU,
    FUNCT3_LH,
    FUNCT3_LHU,
    FUNCT3_LW,
    FUNCT3_MUL,
    FUNCT3_MULH,
    FUNCT3_MULHSU,
    FUNCT3_MULHU,
    FUNCT3_OR,
    FUNCT3_ORI,
    FUNCT3_REM,
    FUNCT3_REMU,
    FUNCT3_SB,
    FUNCT3_SH,
    FUNCT3_SLL,
    FUNCT3_SLLI,
    FUNCT3_SLT,
    FUNCT3_SLTI,
    FUNCT3_SLTIU,
    FUNCT3_SLTU,
    FUNCT3_SRA,
    FUNCT3_SRAI,
    FUNCT3_SRL,
    FUNCT3_SRLI,
    FUNCT3_SUB,
    FUNCT3_SW,
    FUNCT3_XOR,
    FUNCT3_XORI,
    FUNCT7_ADD,
    FUNCT7_AND,
    FUNCT7_DIV,
    FUNCT7_DIVU,
    FUNCT7_MUL,
    FUNCT7_MULH,
    FUNCT7_MULHSU,
    FUNCT7_MULHU,
    FUNCT7_OR,
    FUNCT7_REM,
    FUNCT7_REMU,
    FUNCT7_SLL,
    FUNCT7_SLLI,
    FUNCT7_SLT,
    FUNCT7_SLTU,
    FUNCT7_SRA,
    FUNCT7_SRAI,
    FUNCT7_SRL,
    FUNCT7_SRLI,
    FUNCT7_SUB,
    FUNCT7_XOR,
    INSTRUCTION_EBREAK_VALUE,
    INSTRUCTION_ECALL_VALUE,
    INSTRUCTION_FENCE_TSO_VALUE,
    INSTRUCTION_PAUSE_VALUE,
    OPCODE_AUIPC,
    OPCODE_BRANCH,
    OPCODE_JAL,
    OPCODE_JALR,
    OPCODE_LOAD,
    OPCODE_LUI,
    OPCODE_MISC_MEM,
    OPCODE_OP,
    OPCODE_OP_IMM,
    OPCODE_STORE,
};

verus! {

/// Every instruction that the registry knows, and one sentinel for illegal encodings.
#[derive(Clone, Copy, Debug, PartialEq, Eq, Structural)]
pub enum InstructionIndex {
    LUI,
    AUIPC,
    JAL,
    JALR,
    BEQ,
    BNE,
    BLT,
    BGE,
    BLTU,
    BGEU,
    LB,
    LH,
    LW,
    LBU,
    LHU,
    SB,
    SH,
    SW,
    ADDI,
    SLTI,
    SLTIU,
    XORI,
    ORI,
    ANDI,
    SLLI,
    SRLI,
    SRAI,
    ADD,
    SUB,
    SLL,
    SLT,
    SLTU,
    XOR,
    SRL,
    SRA,
    OR,
    AND,
    FENCE,
    FENCE_TSO,
    PAUSE,
    ECALL,
    EBREAK,
    MUL,
    MULH,
    MULHSU,
    MULHU,
    DIV,
    DIVU,
    REM,
    REMU,
    UNDEF,
}

/// The operand layout of an instruction word.
#[derive(Clone, Copy, Debug, PartialEq, Eq, Structural)]
pub enum Format {
    /// rd, rs1, rs2
    R,
    /// rd, rs1, imm[11:0]
    I,
    /// rs2, rs1, imm[11:0] split over two fields
    S,
    /// rs1, rs2, imm[12:1] split over four fields
    B,
    /// rd, imm[31:12]
    U,
    /// rd, imm[20:1] split over four fields
    J,
    /// rd, rs1, shift amount in the I immediate, with a fixed funct7 over its top bits
    Shift,
    /// rd, rs1, fm, pred, succ
    Fence,
    /// a whole word fixed by the mnemonic, without operands
    Fixed,
    /// the sentinel, which has no encoding
    Undefined,
}

/// How an instruction is encoded: its format and the fixed fields that the format uses
/// (opcode, funct3, funct7; for a fixed word, the word itself in the opcode slot).
pub open spec fn spec_encoding(k: InstructionIndex) -> (Format, u32, u32, u32) {
    match k {
        InstructionIndex::LUI => (Format::U, OPCODE_LUI, 0, 0),
        InstructionIndex::AUIPC => (Format::U, OPCODE_AUIPC, 0, 0),
        InstructionIndex::JAL => (Format::J, OPCODE_JAL, 0, 0),
        InstructionIndex::JALR => (Format::I, OPCODE_JALR, FUNCT3_JALR, 0),
        InstructionIndex::BEQ => (Format::B, OPCODE_BRANCH, FUNCT3_BEQ, 0),
        InstructionIndex::BNE => (Format::B, OPCODE_BRANCH, FUNCT3_BNE, 0),
        InstructionIndex::BLT => (Format::B, OPCODE_BRANCH, FUNCT3_BLT, 0),
        InstructionIndex::BGE => (Format::B, OPCODE_BRANCH, FUNCT3_BGE, 0),
        InstructionIndex::BLTU => (Format::B, OPCODE_BRANCH, FUNCT3_BLTU, 0),
        InstructionIndex::BGEU => (Format::B, OPCODE_BRANCH, FUNCT3_BGEU, 0),
        InstructionIndex::LB => (Format::I, OPCODE_LOAD, FUNCT3_LB, 0),
        InstructionIndex::LH => (Format::I, OPCODE_LOAD, FUNCT3_LH, 0),
        InstructionIndex::LW => (Format::I, OPCODE_LOAD, FUNCT3_LW, 0),
        InstructionIndex::LBU => (Format::I, OPCODE_LOAD, FUNCT3_LBU, 0),
        InstructionIndex::LHU => (Format::I, OPCODE_LOAD, FUNCT3_LHU, 0),
        InstructionIndex::SB => (Format::S, OPCODE_STORE, FUNCT3_SB, 0),
        InstructionIndex::SH => (Format::S, OPCODE_STORE, FUNCT3_SH, 0),
        InstructionIndex::SW => (Format::S, OPCODE_STORE, FUNCT3_SW, 0),
        InstructionIndex::ADDI => (Format::I, OPCODE_OP_IMM, FUNCT3_ADDI, 0),
        InstructionIndex::SLTI => (Format::I, OPCODE_OP_IMM, FUNCT3_SLTI, 0),
        InstructionIndex::SLTIU => (Format::I, OPCODE_OP_IMM, FUNCT3_SLTIU, 0),
        InstructionIndex::XORI => (Format::I, OPCODE_OP_IMM, FUNCT3_XORI, 0),
        InstructionIndex::ORI => (Format::I, OPCODE_OP_IMM, FUNCT3_ORI, 0),
        InstructionIndex::ANDI => (Format::I, OPCODE_OP_IMM, FUNCT3_ANDI, 0),
        InstructionIndex::SLLI => (Format::Shift, OPCODE_OP_IMM, FUNCT3_SLLI, FUNCT7_SLLI),
        InstructionIndex::SRLI => (Format::Shift, OPCODE_OP_IMM, FUNCT3_SRLI, FUNCT7_SRLI),
        InstructionIndex::SRAI => (Format::Shift, OPCODE_OP_IMM, FUNCT3_SRAI, FUNCT7_SRAI),
        InstructionIndex::ADD => (Format::R, OPCODE_OP, FUNCT3_ADD, FUNCT7_ADD),
        InstructionIndex::SUB => (Format::R, OPCODE_OP, FUNCT3_SUB, FUNCT7_SUB),
        InstructionIndex::SLL => (Format::R, OPCODE_OP, FUNCT3_SLL, FUNCT7_SLL),
        InstructionIndex::SLT => (Format::R, OPCODE_OP, FUNCT3_SLT, FUNCT7_SLT),
        InstructionIndex::SLTU => (Format::R, OPCODE_OP, FUNCT3_SLTU, FUNCT7_SLTU),
        InstructionIndex::XOR => (Format::R, OPCODE_OP, FUNCT3_XOR, FUNCT7_XOR),
        InstructionIndex::SRL => (Format::R, OPCODE_OP, FUNCT3_SRL, FUNCT7_SRL),
        InstructionIndex::SRA => (Format::R, OPCODE_OP, FUNCT3_SRA, FUNCT7_SRA),
        InstructionIndex::OR => (Format::R, OPCODE_OP, FUNCT3_OR, FUNCT7_OR),
        InstructionIndex::AND => (Format::R, OPCODE_OP, FUNCT3_AND, FUNCT7_AND),
        InstructionIndex::FENCE => (Format::Fence, OPCODE_MISC_MEM, 0, 0),
        InstructionIndex::FENCE_TSO => (Format::Fixed, INSTRUCTION_FENCE_TSO_VALUE, 0, 0),
        InstructionIndex::PAUSE => (Format::Fixed, INSTRUCTION_PAUSE_VALUE, 0, 0),
        InstructionIndex::ECALL => (Format::Fixed, INSTRUCTION_ECALL_VALUE, 0, 0),
        InstructionIndex::EBREAK => (Format::Fixed, INSTRUCTION_EBREAK_VALUE, 0, 0),
        InstructionIndex::MUL => (Format::R, OPCODE_OP, FUNCT3_MUL, FUNCT7_MUL),
        InstructionIndex::MULH => (Format::R, OPCODE_OP, FUNCT3_MULH, FUNCT7_MULH),
        InstructionIndex::MULHSU => (Format::R, OPCODE_OP, FUNCT3_MULHSU, FUNCT7_MULHSU),
        InstructionIndex::MULHU => (Format::R, OPCODE_OP, FUNCT3_MULHU, FUNCT7_MULHU),
        InstructionIndex::DIV => (Format::R, OPCODE_OP, FUNCT3_DIV, FUNCT7_DIV),
        InstructionIndex::DIVU => (Format::R, OPCODE_OP, FUNCT3_DIVU, FUNCT7_DIVU),
        InstructionIndex::REM => (Format::R, OPCODE_OP, FUNCT3_REM, FUNCT7_REM),
        InstructionIndex::REMU => (Format::R, OPCODE_OP, FUNCT3_REMU, FUNCT7_REMU),
        InstructionIndex::UNDEF => (Format::Undefined, 0, 0, 0),
    }
}

pub open spec fn spec_format(k: InstructionIndex) -> Format {
    spec_encoding(k).0
}

/// The number of operands that the normalized text of an instruction carries.
pub open spec fn spec_arity(k: InstructionIndex) -> nat {
    match spec_format(k) {
        Format::R | Format::I | Format::S | Format::B | Format::Shift => 3,
        Format::U | Format::J => 2,
        Format::Fence => 5,
        Format::Fixed | Format::Undefined => 0,
    }
}

/// The mnemonic of each instruction.
pub open spec fn spec_name(k: InstructionIndex) -> Seq<char> {
    match k {
        InstructionIndex::LUI => seq!['l', 'u', 'i'],
        InstructionIndex::AUIPC => seq!['a', 'u', 'i', 'p', 'c'],
        InstructionIndex::JAL => seq!['j', 'a', 'l'],
        InstructionIndex::JALR => seq!['j', 'a', 'l', 'r'],
        InstructionIndex::BEQ => seq!['b', 'e', 'q'],
        InstructionIndex::BNE => seq!['b', 'n', 'e'],
        InstructionIndex::BLT => seq!['b', 'l', 't'],
        InstructionIndex::BGE => seq!['b', 'g', 'e'],
        InstructionIndex::BLTU => seq!['b', 'l', 't', 'u'],
        InstructionIndex::BGEU => seq!['b', 'g', 'e', 'u'],
        InstructionIndex::LB => seq!['l', 'b'],
        InstructionIndex::LH => seq!['l', 'h'],
        InstructionIndex::LW => seq!['l', 'w'],
        InstructionIndex::LBU => seq!['l', 'b', 'u'],
        InstructionIndex::LHU => seq!['l', 'h', 'u'],
        InstructionIndex::SB => seq!['s', 'b'],
        InstructionIndex::SH => seq!['s', 'h'],
        InstructionIndex::SW => seq!['s', 'w'],
        InstructionIndex::ADDI => seq!['a', 'd', 'd', 'i'],
        InstructionIndex::SLTI => seq!['s', 'l', 't', 'i'],
        InstructionIndex::SLTIU => seq!['s', 'l', 't', 'i', 'u'],
        InstructionIndex::XORI => seq!['x', 'o', 'r', 'i'],
        InstructionIndex::ORI => seq!['o', 'r', 'i'],
        InstructionIndex::ANDI => seq!['a', 'n', 'd', 'i'],
        InstructionIndex::SLLI => seq!['s', 'l', 'l', 'i'],
        InstructionIndex::SRLI => seq!['s', 'r', 'l', 'i'],
        InstructionIndex::SRAI => seq!['s', 'r', 'a', 'i'],
        InstructionIndex::ADD => seq!['a', 'd', 'd'],
        InstructionIndex::SUB => seq!['s', 'u', 'b'],
        InstructionIndex::SLL => seq!['s', 'l', 'l'],
        InstructionIndex::SLT => seq!['s', 'l', 't'],
        InstructionIndex::SLTU => seq!['s', 'l', 't', 'u'],
        InstructionIndex::XOR => seq!['x', 'o', 'r'],
        InstructionIndex::SRL => seq!['s', 'r', 'l'],
        InstructionIndex::SRA => seq!['s', 'r', 'a'],
        InstructionIndex::OR => seq!['o', 'r'],
        InstructionIndex::AND => seq!['a', 'n', 'd'],
        InstructionIndex::FENCE => seq!['f', 'e', 'n', 'c', 'e'],
        InstructionIndex::FENCE_TSO => seq!['f', 'e', 'n', 'c', 'e', '.', 't', 's', 'o'],
        InstructionIndex::PAUSE => seq!['p', 'a', 'u', 's', 'e'],
        InstructionIndex::ECALL => seq!['e', 'c', 'a', 'l', 'l'],
        InstructionIndex::EBREAK => seq!['e', 'b', 'r', 'e', 'a', 'k'],
        InstructionIndex::MUL => seq!['m', 'u', 'l'],
        InstructionIndex::MULH => seq!['m', 'u', 'l', 'h'],
        InstructionIndex::MULHSU => seq!['m', 'u', 'l', 'h', 's', 'u'],
        InstructionIndex::MULHU => seq!['m', 'u', 'l', 'h', 'u'],
        InstructionIndex::DIV => seq!['d', 'i', 'v'],
        InstructionIndex::DIVU => seq!['d', 'i', 'v', 'u'],
        InstructionIndex::REM => seq!['r', 'e', 'm'],
        InstructionIndex::REMU => seq!['r', 'e', 'm', 'u'],
        InstructionIndex::UNDEF => seq!['u', 'n', 'd', 'e', 'f'],
    }
}

/// The instruction kinds in the order of the enumeration, so that a loop can visit them all.
pub open spec fn spec_kind_at(i: int) -> InstructionIndex {
    if i == 0 { InstructionIndex::LUI }
    else if i == 1 { InstructionIndex::AUIPC }
    else if i == 2 { InstructionIndex::JAL }
    else if i == 3 { InstructionIndex::JALR }
    else if i == 4 { InstructionIndex::BEQ }
    else if i == 5 { InstructionIndex::BNE }
    else if i == 6 { InstructionIndex::BLT }
    else if i == 7 { InstructionIndex::BGE }
    else if i == 8 { InstructionIndex::BLTU }
    else if i == 9 { InstructionIndex::BGEU }
    else if i == 10 { InstructionIndex::LB }
    else if i == 11 { InstructionIndex::LH }
    else if i == 12 { InstructionIndex::LW }
    else if i == 13 { InstructionIndex::LBU }
    else if i == 14 { InstructionIndex::LHU }
    else if i == 15 { InstructionIndex::SB }
    else if i == 16 { InstructionIndex::SH }
    else if i == 17 { InstructionIndex::SW }
    else if i == 18 { InstructionIndex::ADDI }
    else if i == 19 { InstructionIndex::SLTI }
    else if i == 20 { InstructionIndex::SLTIU }
    else if i == 21 { InstructionIndex::XORI }
    else if i == 22 { InstructionIndex::ORI }
    else if i == 23 { InstructionIndex::ANDI }
    else if i == 24 { InstructionIndex::SLLI }
    else if i == 25 { InstructionIndex::SRLI }
    else if i == 26 { InstructionIndex::SRAI }
    else if i == 27 { InstructionIndex::ADD }
    else if i == 28 { InstructionIndex::SUB }
    else if i == 29 { InstructionIndex::SLL }
    else if i == 30 { InstructionIndex::SLT }
    else if i == 31 { InstructionIndex::SLTU }
    else if i == 32 { InstructionIndex::XOR }
    else if i == 33 { InstructionIndex::SRL }
    else if i == 34 { InstructionIndex::SRA }
    else if i == 35 { InstructionIndex::OR }
    else if i == 36 { InstructionIndex::AND }
    else if i == 37 { InstructionIndex::FENCE }
    else if i == 38 { InstructionIndex::FENCE_TSO }
    else if i == 39 { InstructionIndex::PAUSE }
    else if i == 40 { InstructionIndex::ECALL }
    else if i == 41 { InstructionIndex::EBREAK }
    else if i == 42 { InstructionIndex::MUL }
    else if i == 43 { InstructionIndex::MULH }
    else if i == 44 { InstructionIndex::MULHSU }
    else if i == 45 { InstructionIndex::MULHU }
    else if i == 46 { InstructionIndex::DIV }
    else if i == 47 { InstructionIndex::DIVU }
    else if i == 48 { InstructionIndex::REM }
    else if i == 49 { InstructionIndex::REMU }
    else { InstructionIndex::UNDEF }
}

/// The number of real instructions; `spec_kind_at` visits them at `0..INSTRUCTION_COUNT`.
pub const INSTRUCTION_COUNT: usize = 50;

/// The length and first four characters of a mnemonic (a space past its end).
pub open spec fn spec_name_key(t: Seq<char>) -> (nat, char, char, char, char) {
    let at = |i: int| if i < t.len() { t[i] } else { ' ' };
    (t.len(), at(0), at(1), at(2), at(3))
}

/// The instruction whose mnemonic has key `key`; no two mnemonics share a key.
pub open spec fn spec_kind_of_name_key(key: (nat, char, char, char, char)) -> InstructionIndex {
    if key == (3nat, 'l', 'u', 'i', ' ') {
        InstructionIndex::LUI
    } else if key == (5nat, 'a', 'u', 'i', 'p') {
        InstructionIndex::AUIPC
    } else if key == (3nat, 'j', 'a', 'l', ' ') {
        InstructionIndex::JAL
    } else if key == (4nat, 'j', 'a', 'l', 'r') {
        InstructionIndex::JALR
    } else if key == (3nat, 'b', 'e', 'q', ' ') {
        InstructionIndex::BEQ
    } else if key == (3nat, 'b', 'n', 'e', ' ') {
        InstructionIndex::BNE
    } else if key == (3nat, 'b', 'l', 't', ' ') {
        InstructionIndex::BLT
    } else if key == (3nat, 'b', 'g', 'e', ' ') {
        InstructionIndex::BGE
    } else if key == (4nat, 'b', 'l', 't', 'u') {
        InstructionIndex::BLTU
    } else if key == (4nat, 'b', 'g', 'e', 'u') {
        InstructionIndex::BGEU
    } else if key == (2nat, 'l', 'b', ' ', ' ') {
        InstructionIndex::LB
    } else if key == (2nat, 'l', 'h', ' ', ' ') {
        InstructionIndex::LH
    } else if key == (2nat, 'l', 'w', ' ', ' ') {
        InstructionIndex::LW
    } else if key == (3nat, 'l', 'b', 'u', ' ') {
        InstructionIndex::LBU
    } else if key == (3nat, 'l', 'h', 'u', ' ') {
        InstructionIndex::LHU
    } else if key == (2nat, 's', 'b', ' ', ' ') {
        InstructionIndex::SB
    } else if key == (2nat, 's', 'h', ' ', ' ') {
        InstructionIndex::SH
    } else if key == (2nat, 's', 'w', ' ', ' ') {
        InstructionIndex::SW
    } else if key == (4nat, 'a', 'd', 'd', 'i') {
        InstructionIndex::ADDI
    } else if key == (4nat, 's', 'l', 't', 'i') {
        InstructionIndex::SLTI
    } else if key == (5nat, 's', 'l', 't', 'i') {
        InstructionIndex::SLTIU
    } else if key == (4nat, 'x', 'o', 'r', 'i') {
        InstructionIndex::XORI
    } else if key == (3nat, 'o', 'r', 'i', ' ') {
        InstructionIndex::ORI
    } else if key == (4nat, 'a', 'n', 'd', 'i') {
        InstructionIndex::ANDI
    } else if key == (4nat, 's', 'l', 'l', 'i') {
        InstructionIndex::SLLI
    } else if key == (4nat, 's', 'r', 'l', 'i') {
        InstructionIndex::SRLI
    } else if key == (4nat, 's', 'r', 'a', 'i') {
        InstructionIndex::SRAI
    } else if key == (3nat, 'a', 'd', 'd', ' ') {
        InstructionIndex::ADD
    } else if key == (3nat, 's', 'u', 'b', ' ') {
        InstructionIndex::SUB
    } else if key == (3nat, 's', 'l', 'l', ' ') {
        InstructionIndex::SLL
    } else if key == (3nat, 's', 'l', 't', ' ') {
        InstructionIndex::SLT
    } else if key == (4nat, 's', 'l', 't', 'u') {
        InstructionIndex::SLTU
    } else if key == (3nat, 'x', 'o', 'r', ' ') {
        InstructionIndex::XOR
    } else if key == (3nat, 's', 'r', 'l', ' ') {
        InstructionIndex::SRL
    } else if key == (3nat, 's', 'r', 'a', ' ') {
        InstructionIndex::SRA
    } else if key == (2nat, 'o', 'r', ' ', ' ') {
        InstructionIndex::OR
    } else if key == (3nat, 'a', 'n', 'd', ' ') {
        InstructionIndex::AND
    } else if key == (5nat, 'f', 'e', 'n', 'c') {
        InstructionIndex::FENCE
    } else if key == (9nat, 'f', 'e', 'n', 'c') {
        InstructionIndex::FENCE_TSO
    } else if key == (5nat, 'p', 'a', 'u', 's') {
        InstructionIndex::PAUSE
    } else if key == (5nat, 'e', 'c', 'a', 'l') {
        InstructionIndex::ECALL
    } else if key == (6nat, 'e', 'b', 'r', 'e') {
        InstructionIndex::EBREAK
    } else if key == (3nat, 'm', 'u', 'l', ' ') {
        InstructionIndex::MUL
    } else if key == (4nat, 'm', 'u', 'l', 'h') {
        InstructionIndex::MULH
    } else if key == (6nat, 'm', 'u', 'l', 'h') {
        InstructionIndex::MULHSU
    } else if key == (5nat, 'm', 'u', 'l', 'h') {
        InstructionIndex::MULHU
    } else if key == (3nat, 'd', 'i', 'v', ' ') {
        InstructionIndex::DIV
    } else if key == (4nat, 'd', 'i', 'v', 'u') {
        InstructionIndex::DIVU
    } else if key == (3nat, 'r', 'e', 'm', ' ') {
        InstructionIndex::REM
    } else if key == (4nat, 'r', 'e', 'm', 'u') {
        InstructionIndex::REMU
    } else {
        InstructionIndex::UNDEF
    }
}

/// The position of each kind in the enumeration.
pub open spec fn spec_index_of(k: InstructionIndex) -> int {
    match k {
        InstructionIndex::LUI => 0,
        InstructionIndex::AUIPC => 1,
        InstructionIndex::JAL => 2,
        InstructionIndex::JALR => 3,
        InstructionIndex::BEQ => 4,
        InstructionIndex::BNE => 5,
        InstructionIndex::BLT => 6,
        InstructionIndex::BGE => 7,
        InstructionIndex::BLTU => 8,
        InstructionIndex::BGEU => 9,
        InstructionIndex::LB => 10,
        InstructionIndex::LH => 11,
        InstructionIndex::LW => 12,
        InstructionIndex::LBU => 13,
        InstructionIndex::LHU => 14,
        InstructionIndex::SB => 15,
        InstructionIndex::SH => 16,
        InstructionIndex::SW => 17,
        InstructionIndex::ADDI => 18,
        InstructionIndex::SLTI => 19,
        InstructionIndex::SLTIU => 20,
        InstructionIndex::XORI => 21,
        InstructionIndex::ORI => 22,
        InstructionIndex::ANDI => 23,
        InstructionIndex::SLLI => 24,
        InstructionIndex::SRLI => 25,
        InstructionIndex::SRAI => 26,
        InstructionIndex::ADD => 27,
        InstructionIndex::SUB => 28,
        InstructionIndex::SLL => 29,
        InstructionIndex::SLT => 30,
        InstructionIndex::SLTU => 31,
        InstructionIndex::XOR => 32,
        InstructionIndex::SRL => 33,
        InstructionIndex::SRA => 34,
        InstructionIndex::OR => 35,
        InstructionIndex::AND => 36,
        InstructionIndex::FENCE => 37,
        InstructionIndex::FENCE_TSO => 38,
        InstructionIndex::PAUSE => 39,
        InstructionIndex::ECALL => 40,
        InstructionIndex::EBREAK => 41,
        InstructionIndex::MUL => 42,
        InstructionIndex::MULH => 43,
        InstructionIndex::MULHSU => 44,
        InstructionIndex::MULHU => 45,
        InstructionIndex::DIV => 46,
        InstructionIndex::DIVU => 47,
        InstructionIndex::REM => 48,
        InstructionIndex::REMU => 49,
        InstructionIndex::UNDEF => 50,
    }
}

/// Each real instruction sits at its position, and its mnemonic has a key of its own, so
/// no two instructions share a mnemonic.
pub proof fn lemma_names_distinct(k: InstructionIndex)
    requires
        k != InstructionIndex::UNDEF,
    ensures
        0 <= spec_index_of(k) < INSTRUCTION_COUNT,
        spec_kind_at(spec_index_of(k)) == k,
        spec_kind_of_name_key(spec_name_key(spec_name(k))) == k,
{
}

impl InstructionIndex {
    /// The kind at position `i` of the enumeration (the sentinel past the real ones).
    pub fn at(i: usize) -> (r: InstructionIndex)
        ensures
            r == spec_kind_at(i as int),
    {
        match i {
            0 => InstructionIndex::LUI,
            1 => InstructionIndex::AUIPC,
            2 => InstructionIndex::JAL,
            3 => InstructionIndex::JALR,
            4 => InstructionIndex::BEQ,
            5 => InstructionIndex::BNE,
            6 => InstructionIndex::BLT,
            7 => InstructionIndex::BGE,
            8 => InstructionIndex::BLTU,
            9 => InstructionIndex::BGEU,
            10 => InstructionIndex::LB,
            11 => InstructionIndex::LH,
            12 => InstructionIndex::LW,
            13 => InstructionIndex::LBU,
            14 => InstructionIndex::LHU,
            15 => InstructionIndex::SB,
            16 => InstructionIndex::SH,
            17 => InstructionIndex::SW,
            18 => InstructionIndex::ADDI,
            19 => InstructionIndex::SLTI,
            20 => InstructionIndex::SLTIU,
            21 => InstructionIndex::XORI,
            22 => InstructionIndex::ORI,
            23 => InstructionIndex::ANDI,
            24 => InstructionIndex::SLLI,
            25 => InstructionIndex::SRLI,
            26 => InstructionIndex::SRAI,
            27 => InstructionIndex::ADD,
            28 => InstructionIndex::SUB,
            29 => InstructionIndex::SLL,
            30 => InstructionIndex::SLT,
            31 => InstructionIndex::SLTU,
            32 => InstructionIndex::XOR,
            33 => InstructionIndex::SRL,
            34 => InstructionIndex::SRA,
            35 => InstructionIndex::OR,
            36 => InstructionIndex::AND,
            37 => InstructionIndex::FENCE,
            38 => InstructionIndex::FENCE_TSO,
            39 => InstructionIndex::PAUSE,
            40 => InstructionIndex::ECALL,
            41 => InstructionIndex::EBREAK,
            42 => InstructionIndex::MUL,
            43 => InstructionIndex::MULH,
            44 => InstructionIndex::MULHSU,
            45 => InstructionIndex::MULHU,
            46 => InstructionIndex::DIV,
            47 => InstructionIndex::DIVU,
            48 => InstructionIndex::REM,
            49 => InstructionIndex::REMU,
            _ => InstructionIndex::UNDEF,
        }
    }

    /// The format and fixed fields of this instruction.
    pub fn encoding(self) -> (r: (Format, u32, u32, u32))
        ensures
            r == spec_encoding(self),
    {
        match self {
            InstructionIndex::LUI => (Format::U, OPCODE_LUI, 0, 0),
            InstructionIndex::AUIPC => (Format::U, OPCODE_AUIPC, 0, 0),
            InstructionIndex::JAL => (Format::J, OPCODE_JAL, 0, 0),
            InstructionIndex::JALR => (Format::I, OPCODE_JALR, FUNCT3_JALR, 0),
            InstructionIndex::BEQ => (Format::B, OPCODE_BRANCH, FUNCT3_BEQ, 0),
            InstructionIndex::BNE => (Format::B, OPCODE_BRANCH, FUNCT3_BNE, 0),
            InstructionIndex::BLT => (Format::B, OPCODE_BRANCH, FUNCT3_BLT, 0),
            InstructionIndex::BGE => (Format::B, OPCODE_BRANCH, FUNCT3_BGE, 0),
            InstructionIndex::BLTU => (Format::B, OPCODE_BRANCH, FUNCT3_BLTU, 0),
            InstructionIndex::BGEU => (Format::B, OPCODE_BRANCH, FUNCT3_BGEU, 0),
            InstructionIndex::LB => (Format::I, OPCODE_LOAD, FUNCT3_LB, 0),
            InstructionIndex::LH => (Format::I, OPCODE_LOAD, FUNCT3_LH, 0),
            InstructionIndex::LW => (Format::I, OPCODE_LOAD, FUNCT3_LW, 0),
            InstructionIndex::LBU => (Format::I, OPCODE_LOAD, FUNCT3_LBU, 0),
            InstructionIndex::LHU => (Format::I, OPCODE_LOAD, FUNCT3_LHU, 0),
            InstructionIndex::SB => (Format::S, OPCODE_STORE, FUNCT3_SB, 0),
            InstructionIndex::SH => (Format::S, OPCODE_STORE, FUNCT3_SH, 0),
            InstructionIndex::SW => (Format::S, OPCODE_STORE, FUNCT3_SW, 0),
            InstructionIndex::ADDI => (Format::I, OPCODE_OP_IMM, FUNCT3_ADDI, 0),
            InstructionIndex::SLTI => (Format::I, OPCODE_OP_IMM, FUNCT3_SLTI, 0),
            InstructionIndex::SLTIU => (Format::I, OPCODE_OP_IMM, FUNCT3_SLTIU, 0),
            InstructionIndex::XORI => (Format::I, OPCODE_OP_IMM, FUNCT3_XORI, 0),
            InstructionIndex::ORI => (Format::I, OPCODE_OP_IMM, FUNCT3_ORI, 0),
            InstructionIndex::ANDI => (Format::I, OPCODE_OP_IMM, FUNCT3_ANDI, 0),
            InstructionIndex::SLLI => (Format::Shift, OPCODE_OP_IMM, FUNCT3_SLLI, FUNCT7_SLLI),
            InstructionIndex::SRLI => (Format::Shift, OPCODE_OP_IMM, FUNCT3_SRLI, FUNCT7_SRLI),
            InstructionIndex::SRAI => (Format::Shift, OPCODE_OP_IMM, FUNCT3_SRAI, FUNCT7_SRAI),
            InstructionIndex::ADD => (Format::R, OPCODE_OP, FUNCT3_ADD, FUNCT7_ADD),
            InstructionIndex::SUB => (Format::R, OPCODE_OP, FUNCT3_SUB, FUNCT7_SUB),
            InstructionIndex::SLL => (Format::R, OPCODE_OP, FUNCT3_SLL, FUNCT7_SLL),
            InstructionIndex::SLT => (Format::R, OPCODE_OP, FUNCT3_SLT, FUNCT7_SLT),
            InstructionIndex::SLTU => (Format::R, OPCODE_OP, FUNCT3_SLTU, FUNCT7_SLTU),
            InstructionIndex::XOR => (Format::R, OPCODE_OP, FUNCT3_XOR, FUNCT7_XOR),
            InstructionIndex::SRL => (Format::R, OPCODE_OP, FUNCT3_SRL, FUNCT7_SRL),
            InstructionIndex::SRA => (Format::R, OPCODE_OP, FUNCT3_SRA, FUNCT7_SRA),
            InstructionIndex::OR => (Format::R, OPCODE_OP, FUNCT3_OR, FUNCT7_OR),
            InstructionIndex::AND => (Format::R, OPCODE_OP, FUNCT3_AND, FUNCT7_AND),
            InstructionIndex::FENCE => (Format::Fence, OPCODE_MISC_MEM, 0, 0),
            InstructionIndex::FENCE_TSO => (Format::Fixed, INSTRUCTION_FENCE_TSO_VALUE, 0, 0),
            InstructionIndex::PAUSE => (Format::Fixed, INSTRUCTION_PAUSE_VALUE, 0, 0),
            InstructionIndex::ECALL => (Format::Fixed, INSTRUCTION_ECALL_VALUE, 0, 0),
            InstructionIndex::EBREAK => (Format::Fixed, INSTRUCTION_EBREAK_VALUE, 0, 0),
            InstructionIndex::MUL => (Format::R, OPCODE_OP, FUNCT3_MUL, FUNCT7_MUL),
            InstructionIndex::MULH => (Format::R, OPCODE_OP, FUNCT3_MULH, FUNCT7_MULH),
            InstructionIndex::MULHSU => (Format::R, OPCODE_OP, FUNCT3_MULHSU, FUNCT7_MULHSU),
            InstructionIndex::MULHU => (Format::R, OPCODE_OP, FUNCT3_MULHU, FUNCT7_MULHU),
            InstructionIndex::DIV => (Format::R, OPCODE_OP, FUNCT3_DIV, FUNCT7_DIV),
            InstructionIndex::DIVU => (Format::R, OPCODE_OP, FUNCT3_DIVU, FUNCT7_DIVU),
            InstructionIndex::REM => (Format::R, OPCODE_OP, FUNCT3_REM, FUNCT7_REM),
            InstructionIndex::REMU => (Format::R, OPCODE_OP, FUNCT3_REMU, FUNCT7_REMU),
            InstructionIndex::UNDEF => (Format::Undefined, 0, 0, 0),
        }
    }

    /// The mnemonic of this instruction.
    pub fn name(self) -> (r: &'static str)
        ensures
            r@ == spec_name(self),
    {
        let r = match self {
            InstructionIndex::LUI => {
                proof {
                    reveal_strlit("lui");
                }
                "lui"
            },
            InstructionIndex::AUIPC => {
                proof {
                    reveal_strlit("auipc");
                }
                "auipc"
            },
            InstructionIndex::JAL => {
                proof {
                    reveal_strlit("jal");
                }
                "jal"
            },
            InstructionIndex::JALR => {
                proof {
                    reveal_strlit("jalr");
                }
                "jalr"
            },
            InstructionIndex::BEQ => {
                proof {
                    reveal_strlit("beq");
                }
                "beq"
            },
            InstructionIndex::BNE => {
                proof {
                    reveal_strlit("bne");
                }
                "bne"
            },
            InstructionIndex::BLT => {
                proof {
                    reveal_strlit("blt");
                }
                "blt"
            },
            InstructionIndex::BGE => {
                proof {
                    reveal_strlit("bge");
                }
                "bge"
            },
            InstructionIndex::BLTU => {
                proof {
                    reveal_strlit("bltu");
                }
                "bltu"
            },
            InstructionIndex::BGEU => {
                proof {
                    reveal_strlit("bgeu");
                }
                "bgeu"
            },
            InstructionIndex::LB => {
                proof {
                    reveal_strlit("lb");
                }
                "lb"
            },
            InstructionIndex::LH => {
                proof {
                    reveal_strlit("lh");
                }
                "lh"
            },
            InstructionIndex::LW => {
                proof {
                    reveal_strlit("lw");
                }
                "lw"
            },
            InstructionIndex::LBU => {
                proof {
                    reveal_strlit("lbu");
                }
                "lbu"
            },
            InstructionIndex::LHU => {
                proof {
                    reveal_strlit("lhu");
                }
                "lhu"
            },
            InstructionIndex::SB => {
                proof {
                    reveal_strlit("sb");
                }
                "sb"
            },
            InstructionIndex::SH => {
                proof {
                    reveal_strlit("sh");
                }
                "sh"
            },
            InstructionIndex::SW => {
                proof {
                    reveal_strlit("sw");
                }
                "sw"
            },
            InstructionIndex::ADDI => {
                proof {
                    reveal_strlit("addi");
                }
                "addi"
            },
            InstructionIndex::SLTI => {
                proof {
                    reveal_strlit("slti");
                }
                "slti"
            },
            InstructionIndex::SLTIU => {
                proof {
                    reveal_strlit("sltiu");
                }
                "sltiu"
            },
            InstructionIndex::XORI => {
                proof {
                    reveal_strlit("xori");
                }
                "xori"
            },
            InstructionIndex::ORI => {
                proof {
                    reveal_strlit("ori");
                }
                "ori"
            },
            InstructionIndex::ANDI => {
                proof {
                    reveal_strlit("andi");
                }
                "andi"
            },
            InstructionIndex::SLLI => {
                proof {
                    reveal_strlit("slli");
                }
                "slli"
            },
            InstructionIndex::SRLI => {
                proof {
                    reveal_strlit("srli");
                }
                "srli"
            },
            InstructionIndex::SRAI => {
                proof {
                    reveal_strlit("srai");
                }
                "srai"
            },
            InstructionIndex::ADD => {
                proof {
                    reveal_strlit("add");
                }
                "add"
            },
            InstructionIndex::SUB => {
                proof {
                    reveal_strlit("sub");
                }
                "sub"
            },
            InstructionIndex::SLL => {
                proof {
                    reveal_strlit("sll");
                }
                "sll"
            },
            InstructionIndex::SLT => {
                proof {
                    reveal_strlit("slt");
                }
                "slt"
            },
            InstructionIndex::SLTU => {
                proof {
                    reveal_strlit("sltu");
                }
                "sltu"
            },
            InstructionIndex::XOR => {
                proof {
                    reveal_strlit("xor");
                }
                "xor"
            },
            InstructionIndex::SRL => {
                proof {
                    reveal_strlit("srl");
                }
                "srl"
            },
            InstructionIndex::SRA => {
                proof {
                    reveal_strlit("sra");
                }
                "sra"
            },
            InstructionIndex::OR => {
                proof {
                    reveal_strlit("or");
                }
                "or"
            },
            InstructionIndex::AND => {
                proof {
                    reveal_strlit("and");
                }
                "and"
            },
            InstructionIndex::FENCE => {
                proof {
                    reveal_strlit("fence");
                }
                "fence"
            },
            InstructionIndex::FENCE_TSO => {
                proof {
                    reveal_strlit("fence.tso");
                }
                "fence.tso"
            },
            InstructionIndex::PAUSE => {
                proof {
                    reveal_strlit("pause");
                }
                "pause"
            },
            InstructionIndex::ECALL => {
                proof {
                    reveal_strlit("ecall");
                }
                "ecall"
            },
            InstructionIndex::EBREAK => {
                proof {
                    reveal_strlit("ebreak");
                }
                "ebreak"
            },
            InstructionIndex::MUL => {
                proof {
                    reveal_strlit("mul");
                }
                "mul"
            },
            InstructionIndex::MULH => {
                proof {
                    reveal_strlit("mulh");
                }
                "mulh"
            },
            InstructionIndex::MULHSU => {
                proof {
                    reveal_strlit("mulhsu");
                }
                "mulhsu"
            },
            InstructionIndex::MULHU => {
                proof {
                    reveal_strlit("mulhu");
                }
                "mulhu"
            },
            InstructionIndex::DIV => {
                proof {
                    reveal_strlit("div");
                }
                "div"
            },
            InstructionIndex::DIVU => {
                proof {
                    reveal_strlit("divu");
                }
                "divu"
            },
            InstructionIndex::REM => {
                proof {
                    reveal_strlit("rem");
                }
                "rem"
            },
            InstructionIndex::REMU => {
                proof {
                    reveal_strlit("remu");
                }
                "remu"
            },
            InstructionIndex::UNDEF => {
                proof {
                    reveal_strlit("undef");
                }
                "undef"
            },
        };
        assert(r@ =~= spec_name(self));
        r
    }
}

/// An entry of the instruction registry: a mnemonic and the kind that selects its
/// assembler, disassembler and executor.
#[derive(Clone, Copy, Debug)]
pub struct Instruction {
    pub name: &'static str,
    pub index: InstructionIndex,
}

impl Instruction {
    /// The registry entry of an instruction kind.
    pub fn of(index: InstructionIndex) -> (r: Instruction)
        ensures
            r.index == index,
            r.name@ == spec_name(index),
    {
        Instruction { name: index.name(), index }
    }
}

} // verus!
