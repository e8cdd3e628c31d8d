use xocolatl::riscv::assemble::assemble_program;
use xocolatl::riscv::decode::decode;
use xocolatl::riscv::machine::{Fault, Machine, Memory, Registers, MEM_SIZE};

fn machine_with(program: &[&str]) -> Machine {
    let words = assemble_program(program.to_vec()).unwrap();
    let mut machine = Machine::default();
    for (i, word) in words.iter().enumerate() {
        machine.memory.store_word(i * 4, *word);
    }
    machine
}

/// Runs one register-register instruction on x1 = a, x2 = b and returns x3.
fn alu(mnemonic: &str, a: u32, b: u32) -> u32 {
    let line = format!("{mnemonic} x3 x1 x2");
    let mut machine = machine_with(&[line.as_str()]);
    machine.registers.set(1, a);
    machine.registers.set(2, b);
    machine.cycle().unwrap();
    assert_eq!(machine.pc, 4);
    machine.registers.get(3)
}

#[test]
fn register_zero_ignores_writes() {
    let mut registers = Registers::new();
    registers.set(0, 0xdead_beef);
    assert_eq!(registers.get(0), 0);
    registers.set(5, 42);
    assert_eq!(registers.get(5), 42);
    assert_eq!(registers.get(0), 0);
}

#[test]
fn jal_links_and_jumps() {
    let mut machine = Machine::default();
    machine.memory.store_word(0, 0x0a400f6f); // jal x30 164
    machine.cycle().unwrap();
    assert_eq!(machine.registers.get(30), 4);
    assert_eq!(machine.pc, 164);
}

#[test]
fn addi_addi_add() {
    let mut machine = machine_with(&["addi x5 x0 5", "addi x6 x0 3", "add x7 x5 x6"]);
    machine.cycles(3).unwrap();
    assert_eq!(machine.registers.get(7), 8);
    assert_eq!(machine.pc, 12);
}

#[test]
fn store_then_load_word() {
    let mut machine = machine_with(&["sw x2 x1 0", "lw x3 x1 0"]);
    machine.registers.set(1, 0x1000);
    machine.registers.set(2, 0xdead_beef);
    machine.cycles(2).unwrap();
    assert_eq!(machine.registers.get(3), machine.registers.get(2));
    assert_eq!(machine.memory.load_byte(0x1000), 0xef);
    assert_eq!(machine.memory.load_byte(0x1003), 0xde);
}

#[test]
fn byte_and_halfword_loads_extend() {
    let mut machine = machine_with(&[
        "sw x2 x1 0",
        "lb x3 x1 0",
        "lbu x4 x1 0",
        "lh x5 x1 2",
        "lhu x6 x1 2",
        "sh x2 x1 8",
        "sb x2 x1 12",
    ]);
    machine.registers.set(1, 0x2000);
    machine.registers.set(2, 0x8081_f0f1);
    machine.cycles(7).unwrap();
    assert_eq!(machine.registers.get(3), 0xffff_fff1);
    assert_eq!(machine.registers.get(4), 0xf1);
    assert_eq!(machine.registers.get(5), 0xffff_8081);
    assert_eq!(machine.registers.get(6), 0x8081);
    assert_eq!(machine.memory.load_word(0x2008), 0xf0f1);
    assert_eq!(machine.memory.load_word(0x200c), 0xf1);
}

#[test]
fn negative_load_offset() {
    let mut machine = machine_with(&["sw x2 x1 -4", "lw x3 x1 -4"]);
    machine.registers.set(1, 0x3004);
    machine.registers.set(2, 77);
    machine.cycles(2).unwrap();
    assert_eq!(machine.memory.load_word(0x3000), 77);
    assert_eq!(machine.registers.get(3), 77);
}

#[test]
fn lui_and_auipc() {
    let mut machine = machine_with(&["lui x1 123", "auipc x2 1"]);
    machine.cycles(2).unwrap();
    assert_eq!(machine.registers.get(1), 123 << 12);
    assert_eq!(machine.registers.get(2), 4 + (1 << 12));
}

#[test]
fn jalr_jumps_to_register_plus_offset() {
    let mut machine = machine_with(&["jalr x1 x2 12"]);
    machine.registers.set(2, 0x100);
    machine.cycle().unwrap();
    assert_eq!(machine.registers.get(1), 4);
    assert_eq!(machine.pc, 0x10c);
}

#[test]
fn branches_follow_their_conditions() {
    // (mnemonic, x1, x2, taken)
    let cases: &[(&str, u32, u32, bool)] = &[
        ("beq", 5, 5, true),
        ("beq", 5, 6, false),
        ("bne", 5, 6, true),
        ("bne", 5, 5, false),
        ("blt", (-1i32) as u32, 1, true),
        ("blt", 1, (-1i32) as u32, false),
        ("bge", 1, (-1i32) as u32, true),
        ("bge", 3, 3, true),
        ("bge", (-1i32) as u32, 1, false),
        ("bltu", 1, (-1i32) as u32, true),
        ("bltu", (-1i32) as u32, 1, false),
        ("bgeu", (-1i32) as u32, 1, true),
        ("bgeu", 1, 2, false),
    ];
    for (mnemonic, a, b, taken) in cases {
        let line = format!("{mnemonic} x1 x2 16");
        let mut machine = machine_with(&[line.as_str()]);
        machine.registers.set(1, *a);
        machine.registers.set(2, *b);
        machine.cycle().unwrap();
        assert_eq!(machine.pc, if *taken { 16 } else { 4 }, "{line} {a} {b}");
    }
}

#[test]
fn backward_branch_wraps_into_the_program() {
    let mut machine = machine_with(&["addi x1 x1 1", "beq x0 x0 -4"]);
    machine.cycles(5).unwrap();
    assert_eq!(machine.registers.get(1), 3);
    assert_eq!(machine.pc, 4);
}

#[test]
fn base_arithmetic() {
    assert_eq!(alu("add", 0xffff_ffff, 2), 1);
    assert_eq!(alu("sub", 1, 2), 0xffff_ffff);
    assert_eq!(alu("sll", 1, 33), 2);
    assert_eq!(alu("slt", (-5i32) as u32, 3), 1);
    assert_eq!(alu("sltu", (-5i32) as u32, 3), 0);
    assert_eq!(alu("xor", 0b1100, 0b1010), 0b0110);
    assert_eq!(alu("srl", 0x8000_0000, 31), 1);
    assert_eq!(alu("sra", 0x8000_0000, 31), 0xffff_ffff);
    assert_eq!(alu("or", 0b1100, 0b1010), 0b1110);
    assert_eq!(alu("and", 0b1100, 0b1010), 0b1000);
}

#[test]
fn immediate_arithmetic() {
    let mut machine = machine_with(&[
        "addi x1 x0 -1",
        "slti x2 x1 0",
        "sltiu x3 x1 1",
        "xori x4 x1 255",
        "ori x5 x0 1024",
        "andi x6 x1 15",
        "slli x7 x5 2",
        "srli x8 x1 28",
        "srai x9 x1 28",
    ]);
    machine.cycles(9).unwrap();
    assert_eq!(machine.registers.get(1), 0xffff_ffff);
    assert_eq!(machine.registers.get(2), 1);
    assert_eq!(machine.registers.get(3), 0);
    assert_eq!(machine.registers.get(4), 0xffff_ff00);
    assert_eq!(machine.registers.get(5), 1024);
    assert_eq!(machine.registers.get(6), 15);
    assert_eq!(machine.registers.get(7), 4096);
    assert_eq!(machine.registers.get(8), 0xf);
    assert_eq!(machine.registers.get(9), 0xffff_ffff);
}

#[test]
fn multiply() {
    assert_eq!(alu("mul", 7, (-3i32) as u32), (-21i32) as u32);
    assert_eq!(alu("mul", 0x1_0001, 0x1_0001), 0x0002_0001);
    assert_eq!(alu("mulh", (-1i32) as u32, (-1i32) as u32), 0);
    assert_eq!(alu("mulh", 0x8000_0000, 0x8000_0000), 0x4000_0000);
    assert_eq!(alu("mulh", (-2i32) as u32, 0x4000_0000), 0xffff_ffff);
    assert_eq!(alu("mulh", (-1i32) as u32, 1), 0xffff_ffff);
    assert_eq!(alu("mulhsu", (-1i32) as u32, 0xffff_ffff), 0xffff_ffff);
    assert_eq!(alu("mulhsu", 2, 0x8000_0000), 1);
    assert_eq!(alu("mulhu", 0xffff_ffff, 0xffff_ffff), 0xffff_fffe);
    assert_eq!(alu("mulhu", 0x1_0000, 0x1_0000), 1);
}

#[test]
fn divide_and_remainder() {
    assert_eq!(alu("div", (-7i32) as u32, 2), (-3i32) as u32);
    assert_eq!(alu("rem", (-7i32) as u32, 2), (-1i32) as u32);
    assert_eq!(alu("div", 7, (-2i32) as u32), (-3i32) as u32);
    assert_eq!(alu("rem", 7, (-2i32) as u32), 1);
    assert_eq!(alu("divu", 7, 2), 3);
    assert_eq!(alu("remu", 7, 2), 1);
}

#[test]
fn divide_by_zero_and_overflow() {
    assert_eq!(alu("div", 5, 0), 0xffff_ffff);
    assert_eq!(alu("divu", 5, 0), 0xffff_ffff);
    assert_eq!(alu("rem", 5, 0), 5);
    assert_eq!(alu("remu", 5, 0), 5);
    assert_eq!(alu("div", 0x8000_0000, 0xffff_ffff), 0x8000_0000);
    assert_eq!(alu("rem", 0x8000_0000, 0xffff_ffff), 0);
}

#[test]
fn system_instructions_move_on() {
    let mut machine = machine_with(&["ecall", "ebreak", "addi x1 x0 9"]);
    machine.cycles(3).unwrap();
    assert_eq!(machine.pc, 12);
    assert_eq!(machine.registers.get(1), 9);
}

#[test]
fn undefined_word_faults_and_leaves_machine() {
    let mut machine = machine_with(&["addi x1 x0 1"]);
    machine.memory.store_word(4, 0xffff_ffff);
    assert_eq!(machine.cycles(3), Err(Fault::UndefinedInstruction(0xffff_ffff)));
    assert_eq!(machine.pc, 4);
    assert_eq!(machine.registers.get(1), 1);
}

#[test]
fn load_past_memory_faults() {
    let mut machine = machine_with(&["lw x3 x1 0"]);
    machine.registers.set(1, (MEM_SIZE - 2) as u32);
    assert_eq!(machine.cycle(), Err(Fault::MemoryOutOfRange((MEM_SIZE - 2) as u32)));
    assert_eq!(machine.pc, 0);
    assert_eq!(machine.registers.get(3), 0);
}

#[test]
fn store_past_memory_faults() {
    let mut machine = machine_with(&["sb x2 x1 0"]);
    machine.registers.set(1, MEM_SIZE as u32);
    assert_eq!(machine.cycle(), Err(Fault::MemoryOutOfRange(MEM_SIZE as u32)));
}

#[test]
fn fetch_past_memory_faults() {
    let mut machine = Machine::default();
    machine.pc = (MEM_SIZE - 2) as u32;
    assert_eq!(machine.cycle(), Err(Fault::MemoryOutOfRange((MEM_SIZE - 2) as u32)));
}

#[test]
fn memory_is_little_endian() {
    let mut memory = Memory::new(8);
    assert_eq!(memory.len(), 8);
    memory.store_word(0, 0x1234_5678);
    assert_eq!(memory.load_byte(0), 0x78);
    assert_eq!(memory.load_halfword(2), 0x1234);
    memory.store_halfword(4, 0xabcd);
    assert_eq!(memory.load_byte(4), 0xcd);
    assert_eq!(memory.load_byte(5), 0xab);
    memory.store_byte(7, 0x99);
    assert_eq!(memory.load_word(4), 0x9900_abcd);
}

#[test]
fn default_machine_is_zeroed() {
    let machine = Machine::default();
    assert_eq!(machine.pc, 0);
    assert_eq!(machine.memory.len(), MEM_SIZE);
    for i in 0..32 {
        assert_eq!(machine.registers.get(i), 0);
    }
}

#[test]
fn trace_annotates_register_values() {
    let mut machine = machine_with(&["add x3 x1 x2", "sw x2 x1 8"]);
    machine.registers.set(1, 5);
    machine.registers.set(2, 7);
    let word = machine.memory.load_word(0);
    let text = decode(word).disassemble(word, Some(&machine)).unwrap();
    assert_eq!(text, "add x3, x1=5, x2=7");
    let word = machine.memory.load_word(4);
    let text = decode(word).disassemble(word, Some(&machine)).unwrap();
    assert_eq!(text, "sw x2=7, 8(x1=5)");
}
