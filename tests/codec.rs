use xocolatl::riscv::assemble::{assemble_normalized, assemble_program};
use xocolatl::riscv::assemblers::{
    AssembleError, ECALL_ASSEMBLER, FENCE_ASSEMBLER, JAL_ASSEMBLER, R_TYPE_ASSEMBLER,
    UNDEF_ASSEMBLER,
};
use xocolatl::riscv::decode::{decode, decode_instruction};
use xocolatl::riscv::disassemble::{disassemble, disassemble_normalized};
use xocolatl::riscv::disassemblers::{get_register_name, JALR_DISASSEMBLER, UNDEF_DISASSEMBLER};
use xocolatl::riscv::instructions::{Instruction, InstructionIndex};
use xocolatl::riscv::machine::Fault;

#[test]
fn sb_disassembles_and_assembles_back() {
    assert_eq!(disassemble(0x00b604a3).unwrap(), "sb x11, 9(x12)");
    assert_eq!(assemble_normalized("sb x11 x12 9"), Ok(0x00b604a3));
}

#[test]
fn ecall_has_no_operands() {
    assert_eq!(disassemble(0x00000073).unwrap(), "ecall");
    assert_eq!(decode(0x00000073).index, InstructionIndex::ECALL);
    assert_eq!(decode(0x00100073).index, InstructionIndex::EBREAK);
    assert_eq!(disassemble(0x00100073).unwrap(), "ebreak");
}

#[test]
fn decode_never_fails() {
    for word in [0u32, 0xffff_ffff, 0x0000_0007, 0x0000_1067, 0x0200_0013 | (5 << 12) | (0x10 << 25), 0x0000_00f3] {
        assert_eq!(decode_instruction(word), InstructionIndex::UNDEF, "{word:#x}");
        assert_eq!(decode(word).index, InstructionIndex::UNDEF);
    }
}

#[test]
fn every_mnemonic_round_trips() {
    let lines = [
        ("lui x1 1048575", "lui x1, 1048575"),
        ("auipc x2 7", "auipc x2, 7"),
        ("jal x1 -8", "jal x1, -8"),
        ("jalr x0 x1 -4", "jalr x0, -4(x1)"),
        ("beq x1 x2 -8", "beq x1, x2, -0x8"),
        ("bne x1 x2 16", "bne x1, x2, 0x10"),
        ("blt x3 x4 4094", "blt x3, x4, 0xffe"),
        ("bge x3 x4 -4096", "bge x3, x4, -0x1000"),
        ("bltu x5 x6 2", "bltu x5, x6, 0x2"),
        ("bgeu x5 x6 0", "bgeu x5, x6, 0x0"),
        ("lb x1 x2 -1", "lb x1, -1(x2)"),
        ("lh x1 x2 2", "lh x1, 2(x2)"),
        ("lw x1 x2 2047", "lw x1, 2047(x2)"),
        ("lbu x1 x2 -2048", "lbu x1, -2048(x2)"),
        ("lhu x1 x2 6", "lhu x1, 6(x2)"),
        ("sb x1 x2 -3", "sb x1, -3(x2)"),
        ("sh x1 x2 4", "sh x1, 4(x2)"),
        ("sw x31 x30 100", "sw x31, 100(x30)"),
        ("addi x10 x0 -1", "addi x10, x0, -1"),
        ("slti x1 x2 5", "slti x1, x2, 5"),
        ("sltiu x1 x2 5", "sltiu x1, x2, 5"),
        ("xori x1 x2 -1", "xori x1, x2, -1"),
        ("ori x1 x2 255", "ori x1, x2, 255"),
        ("andi x1 x2 15", "andi x1, x2, 15"),
        ("slli x1 x2 3", "slli x1, x2, 3"),
        ("srli x1 x2 3", "srli x1, x2, 3"),
        ("srai x1 x2 3", "srai x1, x2, 1027"),
        ("add x1 x2 x3", "add x1, x2, x3"),
        ("sub x1 x2 x3", "sub x1, x2, x3"),
        ("sll x1 x2 x3", "sll x1, x2, x3"),
        ("slt x1 x2 x3", "slt x1, x2, x3"),
        ("sltu x1 x2 x3", "sltu x1, x2, x3"),
        ("xor x1 x2 x3", "xor x1, x2, x3"),
        ("srl x1 x2 x3", "srl x1, x2, x3"),
        ("sra x1 x2 x3", "sra x1, x2, x3"),
        ("or x1 x2 x3", "or x1, x2, x3"),
        ("and x1 x2 x3", "and x1, x2, x3"),
        ("ecall", "ecall"),
        ("ebreak", "ebreak"),
        ("mul x1 x2 x3", "mul x1, x2, x3"),
        ("mulh x1 x2 x3", "mulh x1, x2, x3"),
        ("mulhsu x1 x2 x3", "mulhsu x1, x2, x3"),
        ("mulhu x1 x2 x3", "mulhu x1, x2, x3"),
        ("div x1 x2 x3", "div x1, x2, x3"),
        ("divu x1 x2 x3", "divu x1, x2, x3"),
        ("rem x1 x2 x3", "rem x1, x2, x3"),
        ("remu x1 x2 x3", "remu x1, x2, x3"),
    ];
    for (line, text) in lines {
        let word = assemble_normalized(line).unwrap();
        let mnemonic = line.split(' ').next().unwrap();
        assert_eq!(decode(word).name, mnemonic, "{line}");
        assert_eq!(disassemble(word).unwrap(), text, "{line}");
    }
}

#[test]
fn srai_keeps_its_funct7() {
    assert_eq!(assemble_normalized("srai x1 x2 3"), Ok(0x4031_5093));
    assert_eq!(assemble_normalized("srai x1 x2 1027"), Ok(0x4031_5093));
    assert_eq!(decode(0x4031_5093).index, InstructionIndex::SRAI);
}

#[test]
fn fence_group_assembles_but_does_not_decode() {
    assert_eq!(assemble_normalized("fence x0 x0 0 3 3"), Ok(0x0330_000f));
    assert_eq!(assemble_normalized("fence.tso"), Ok(0x8330_000f));
    assert_eq!(assemble_normalized("pause"), Ok(0x0100_000f));
    assert_eq!(decode(0x0330_000f).index, InstructionIndex::UNDEF);
    let fence = Instruction::of(InstructionIndex::FENCE);
    assert_eq!(fence.disassemble(0x0330_000f, None).unwrap(), "fence");
    assert_eq!(Instruction::of(InstructionIndex::FENCE_TSO).name, "fence.tso");
}

#[test]
fn unknown_mnemonic() {
    assert_eq!(assemble_normalized("foo x1 x2 x3"), Err(AssembleError::UnknownMnemonic));
    assert_eq!(assemble_normalized(""), Err(AssembleError::UnknownMnemonic));
    assert_eq!(assemble_normalized("ADD x1 x2 x3"), Err(AssembleError::UnknownMnemonic));
    assert_eq!(assemble_normalized("undef"), Err(AssembleError::UnknownMnemonic));
}

#[test]
fn wrong_operand_count() {
    assert_eq!(assemble_normalized("add x1 x2"), Err(AssembleError::WrongOperandCount));
    assert_eq!(assemble_normalized("add x1 x2 x3 x4"), Err(AssembleError::WrongOperandCount));
    assert_eq!(assemble_normalized("add x1  x2 x3"), Err(AssembleError::WrongOperandCount));
    assert_eq!(assemble_normalized("lui x1"), Err(AssembleError::WrongOperandCount));
    assert_eq!(assemble_normalized("ecall x1"), Err(AssembleError::WrongOperandCount));
    assert_eq!(assemble_normalized("fence x0 x0 1 2"), Err(AssembleError::WrongOperandCount));
}

#[test]
fn bad_register() {
    assert_eq!(assemble_normalized("add x1 x2 x32"), Err(AssembleError::BadRegister));
    assert_eq!(assemble_normalized("add x1 x2 a0"), Err(AssembleError::BadRegister));
    assert_eq!(assemble_normalized("add x1 x2 x"), Err(AssembleError::BadRegister));
    assert_eq!(assemble_normalized("addi y1 x2 zz"), Err(AssembleError::BadRegister));
    assert_eq!(assemble_normalized("add x01 x2 x31"), Ok(0x01f1_00b3));
}

#[test]
fn bad_immediate() {
    assert_eq!(assemble_normalized("addi x1 x2 abc"), Err(AssembleError::BadImmediate));
    assert_eq!(assemble_normalized("addi x1 x2 2147483648"), Err(AssembleError::BadImmediate));
    assert_eq!(assemble_normalized("addi x1 x2 -2147483649"), Err(AssembleError::BadImmediate));
    assert_eq!(assemble_normalized("addi x1 x2 -"), Err(AssembleError::BadImmediate));
    assert_eq!(assemble_normalized("addi x1 x2 1x"), Err(AssembleError::BadImmediate));
    assert_eq!(assemble_normalized("fence x0 x0 -1 0 0"), Err(AssembleError::BadImmediate));
    assert_eq!(assemble_normalized("addi x1 x2 +5"), assemble_normalized("addi x1 x2 5"));
    assert_eq!(
        assemble_normalized("lui x1 -2147483648"),
        assemble_normalized("lui x1 0"),
    );
    assert_eq!(assemble_normalized("addi x1 x0 -2147483648"), Ok(0x0000_0093));
}

#[test]
fn undefined_has_no_encoding_or_text() {
    assert_eq!(UNDEF_ASSEMBLER(&[]), Err(AssembleError::Undefined));
    assert_eq!(
        Instruction::of(InstructionIndex::UNDEF).assemble(&[1, 2, 3]),
        Err(AssembleError::Undefined),
    );
    assert_eq!(UNDEF_DISASSEMBLER(7, None), Err(Fault::UndefinedInstruction(7)));
    assert_eq!(disassemble(0), Err(Fault::UndefinedInstruction(0)));
}

#[test]
fn format_assemblers_check_arity() {
    assert_eq!(R_TYPE_ASSEMBLER(0, 0, &[1, 2]), Err(AssembleError::WrongOperandCount));
    assert_eq!(R_TYPE_ASSEMBLER(0, 0, &[1, 2, 3, 4]), Ok(0x0031_00b3));
    assert_eq!(JAL_ASSEMBLER(&[30]), Err(AssembleError::WrongOperandCount));
    assert_eq!(JAL_ASSEMBLER(&[30, 164]), Ok(0x0a40_0f6f));
    assert_eq!(FENCE_ASSEMBLER(&[0, 0, 0, 3]), Err(AssembleError::WrongOperandCount));
    assert_eq!(ECALL_ASSEMBLER(&[9]), 0x0000_0073);
    let add = Instruction::of(InstructionIndex::ADD);
    assert_eq!(add.assemble(&[1, 2, 3]), assemble_normalized("add x1 x2 x3"));
}

#[test]
fn program_assembles_line_by_line() {
    assert_eq!(
        assemble_program(vec!["addi x5 x0 5", "ecall"]),
        Ok(vec![0x0050_0293, 0x0000_0073]),
    );
    assert_eq!(assemble_program(vec![]), Ok(vec![]));
    assert_eq!(
        assemble_program(vec!["addi x1 x0 1", "bogus", "add x1"]),
        Err(AssembleError::UnknownMnemonic),
    );
    assert_eq!(
        assemble_program(vec!["add x1", "bogus"]),
        Err(AssembleError::WrongOperandCount),
    );
}

#[test]
fn register_names() {
    assert_eq!(get_register_name(0), "x0");
    assert_eq!(get_register_name(31), "x31");
    assert_eq!(JALR_DISASSEMBLER(0x00c40267, None), "jalr x4, 12(x8)");
}

#[test]
fn normalized_text_assembles_to_the_same_word() {
    let lines = [
        "lui x1 1048575",
        "auipc x2 7",
        "jal x1 -8",
        "jalr x0 x1 -4",
        "beq x1 x2 -8",
        "bgeu x5 x6 4094",
        "lhu x1 x2 -2048",
        "sw x31 x30 100",
        "addi x10 x0 -1",
        "srai x1 x2 3",
        "slli x1 x2 31",
        "sub x1 x2 x3",
        "remu x1 x2 x3",
        "ecall",
        "ebreak",
    ];
    for line in lines {
        let word = assemble_normalized(line).unwrap();
        let text = disassemble_normalized(word).unwrap();
        assert_eq!(assemble_normalized(&text), Ok(word), "{line} -> {text}");
    }
}

#[test]
fn normalized_text_of_known_words() {
    assert_eq!(disassemble_normalized(0x00b604a3).unwrap(), "sb x11 x12 9");
    assert_eq!(disassemble_normalized(0x07b00513).unwrap(), "addi x10 x0 123");
    assert_eq!(disassemble_normalized(0x00c40267).unwrap(), "jalr x4 x8 12");
    assert_eq!(disassemble_normalized(0x0a400f6f).unwrap(), "jal x30 164");
    assert_eq!(disassemble_normalized(0x00000073).unwrap(), "ecall");
    assert_eq!(disassemble_normalized(0x4031_5093).unwrap(), "srai x1 x2 1027");
    assert_eq!(disassemble_normalized(0), Err(Fault::UndefinedInstruction(0)));
}
