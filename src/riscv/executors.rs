use vstd::prelude::*;

use super::instructions::{Instruction, InstructionIndex};
use super::machine::{
    Fault,
    Machine,
    MachineState,
    lemma_registers_view,
    spec_halfword,
    spec_set_register,
    spec_store_halfword,
    spec_store_word,
    spec_word,
};
use super::slices::{
    get_B_imm,
    get_I_imm,
    get_J_imm,
    get_S_imm,
    get_U_imm_bits,
    get_rd_bits,
    get_rs1_bits,
    get_rs2_bits,
    sign_extend,
    spec_B_imm,
    spec_I_imm,
    spec_J_imm,
    spec_S_imm,
    spec_U_imm_bits,
    spec_rd,
    spec_rs1,
    spec_rs2,
    spec_sign_extend,
};

verus! {

broadcast use lemma_registers_view;

/// A two-operand integer operation.
#[derive(Clone, Copy, Debug, PartialEq, Eq, Structural)]
pub enum AluOp {
    Add,
    Sub,
    Sll,
    Slt,
    Sltu,
    Xor,
    Srl,
    Sra,
    Or,
    And,
    Mul,
    Mulh,
    Mulhsu,
    Mulhu,
    Div,
    Divu,
    Rem,
    Remu,
}

/// A branch condition.
#[derive(Clone, Copy, Debug, PartialEq, Eq, Structural)]
pub enum BranchOp {
    Eq,
    Ne,
    Lt,
    Ge,
    Ltu,
    Geu,
}

/// `x` taken modulo 2^32.
pub open spec fn to_u32(x: int) -> u32 {
    (x % 0x1_0000_0000) as u32
}

/// The two's-complement value of a register.
pub open spec fn signed(a: u32) -> int {
    if a < 0x8000_0000 {
        a as int
    } else {
        a - 0x1_0000_0000
    }
}

pub open spec fn abs(x: int) -> int {
    if x < 0 {
        -x
    } else {
        x
    }
}

/// Division rounding towards zero.
pub open spec fn trunc_div(x: int, y: int) -> int {
    if (x < 0) == (y < 0) {
        abs(x) / abs(y)
    } else {
        -(abs(x) / abs(y))
    }
}

/// The remainder of division rounding towards zero; it takes the sign of the dividend.
pub open spec fn trunc_rem(x: int, y: int) -> int {
    if x < 0 {
        -(abs(x) % abs(y))
    } else {
        abs(x) % abs(y)
    }
}

/// What each integer operation computes on two register values.
pub open spec fn spec_op(op: AluOp, a: u32, b: u32) -> u32 {
    match op {
        AluOp::Add => to_u32(a + b),
        AluOp::Sub => to_u32(a - b),
        AluOp::Sll => a << (b % 32),
        AluOp::Slt => if signed(a) < signed(b) { 1 } else { 0 },
        AluOp::Sltu => if a < b { 1 } else { 0 },
        AluOp::Xor => a ^ b,
        AluOp::Srl => a >> (b % 32),
        AluOp::Sra => ((a as i32) >> (b % 32)) as u32,
        AluOp::Or => a | b,
        AluOp::And => a & b,
        AluOp::Mul => to_u32(a * b),
        AluOp::Mulh => to_u32((signed(a) * signed(b)) / 0x1_0000_0000),
        AluOp::Mulhsu => to_u32((signed(a) * b) / 0x1_0000_0000),
        AluOp::Mulhu => to_u32((a * b) / 0x1_0000_0000),
        AluOp::Div => if b == 0 { u32::MAX } else { to_u32(trunc_div(signed(a), signed(b))) },
        AluOp::Divu => if b == 0 { u32::MAX } else { a / b },
        AluOp::Rem => if b == 0 { a } else { to_u32(trunc_rem(signed(a), signed(b))) },
        AluOp::Remu => if b == 0 { a } else { a % b },
    }
}

/// Whether a branch is taken on two register values.
pub open spec fn spec_branch_taken(op: BranchOp, a: u32, b: u32) -> bool {
    match op {
        BranchOp::Eq => a == b,
        BranchOp::Ne => a != b,
        BranchOp::Lt => signed(a) < signed(b),
        BranchOp::Ge => signed(a) >= signed(b),
        BranchOp::Ltu => a < b,
        BranchOp::Geu => a >= b,
    }
}

/// The operation of each arithmetic instruction (register and immediate forms).
pub open spec fn spec_alu_op(k: InstructionIndex) -> AluOp {
    match k {
        InstructionIndex::SUB => AluOp::Sub,
        InstructionIndex::SLL | InstructionIndex::SLLI => AluOp::Sll,
        InstructionIndex::SLT | InstructionIndex::SLTI => AluOp::Slt,
        InstructionIndex::SLTU | InstructionIndex::SLTIU => AluOp::Sltu,
        InstructionIndex::XOR | InstructionIndex::XORI => AluOp::Xor,
        InstructionIndex::SRL | InstructionIndex::SRLI => AluOp::Srl,
        InstructionIndex::SRA | InstructionIndex::SRAI => AluOp::Sra,
        InstructionIndex::OR | InstructionIndex::ORI => AluOp::Or,
        InstructionIndex::AND | InstructionIndex::ANDI => AluOp::And,
        InstructionIndex::MUL => AluOp::Mul,
        InstructionIndex::MULH => AluOp::Mulh,
        InstructionIndex::MULHSU => AluOp::Mulhsu,
        InstructionIndex::MULHU => AluOp::Mulhu,
        InstructionIndex::DIV => AluOp::Div,
        InstructionIndex::DIVU => AluOp::Divu,
        InstructionIndex::REM => AluOp::Rem,
        InstructionIndex::REMU => AluOp::Remu,
        _ => AluOp::Add,
    }
}

/// The condition of each branch instruction.
pub open spec fn spec_branch_op(k: InstructionIndex) -> BranchOp {
    match k {
        InstructionIndex::BNE => BranchOp::Ne,
        InstructionIndex::BLT => BranchOp::Lt,
        InstructionIndex::BGE => BranchOp::Ge,
        InstructionIndex::BLTU => BranchOp::Ltu,
        InstructionIndex::BGEU => BranchOp::Geu,
        _ => BranchOp::Eq,
    }
}

pub open spec fn wrap_add(a: u32, b: u32) -> u32 {
    to_u32(a + b)
}

pub open spec fn rs1_value(s: MachineState, w: u32) -> u32 {
    s.regs[spec_rs1(w) as int]
}

pub open spec fn rs2_value(s: MachineState, w: u32) -> u32 {
    s.regs[spec_rs2(w) as int]
}

/// `s` with `value` written to the destination register of `w` and the pc set to `pc`.
pub open spec fn write_rd(s: MachineState, w: u32, value: u32, pc: u32) -> MachineState {
    MachineState { pc, regs: spec_set_register(s.regs, spec_rd(w) as int, value), mem: s.mem }
}

/// `s` with the pc moved to the next instruction and nothing else changed.
pub open spec fn advance(s: MachineState) -> MachineState {
    MachineState { pc: wrap_add(s.pc, 4), regs: s.regs, mem: s.mem }
}

/// The number of bytes that a load or store of kind `k` moves.
pub open spec fn access_width(k: InstructionIndex) -> int {
    match k {
        InstructionIndex::LB | InstructionIndex::LBU | InstructionIndex::SB => 1,
        InstructionIndex::LH | InstructionIndex::LHU | InstructionIndex::SH => 2,
        _ => 4,
    }
}

/// The value that a load of kind `k` reads at `address`: byte and halfword loads
/// sign-extend (LB, LH) or zero-extend (LBU, LHU).
pub open spec fn loaded_value(k: InstructionIndex, mem: Seq<u8>, address: int) -> u32 {
    match k {
        InstructionIndex::LB => spec_sign_extend(mem[address] as u32, 7),
        InstructionIndex::LH => spec_sign_extend(spec_halfword(mem, address) as u32, 15),
        InstructionIndex::LBU => mem[address] as u32,
        InstructionIndex::LHU => spec_halfword(mem, address) as u32,
        _ => spec_word(mem, address),
    }
}

/// Memory after a store of kind `k` of `value` at `address`: the value is truncated to the
/// store's width and written little-endian.
pub open spec fn stored_memory(k: InstructionIndex, mem: Seq<u8>, address: int, value: u32) -> Seq<u8> {
    match k {
        InstructionIndex::SB => mem.update(address, (value % 0x100) as u8),
        InstructionIndex::SH => spec_store_halfword(mem, address, (value % 0x1_0000) as u16),
        _ => spec_store_word(mem, address, value),
    }
}

/// A load at `rs1 + imm`: a fault where the access would run past memory.
pub open spec fn spec_load(k: InstructionIndex, w: u32, s: MachineState) -> Result<MachineState, Fault> {
    let address = wrap_add(rs1_value(s, w), spec_I_imm(w));
    if address + access_width(k) <= s.mem.len() {
        Ok(write_rd(s, w, loaded_value(k, s.mem, address as int), wrap_add(s.pc, 4)))
    } else {
        Err(Fault::MemoryOutOfRange(address))
    }
}

/// A store of rs2 at `rs1 + imm`: a fault where the access would run past memory.
pub open spec fn spec_store(k: InstructionIndex, w: u32, s: MachineState) -> Result<MachineState, Fault> {
    let address = wrap_add(rs1_value(s, w), spec_S_imm(w));
    if address + access_width(k) <= s.mem.len() {
        Ok(
            MachineState {
                pc: wrap_add(s.pc, 4),
                regs: s.regs,
                mem: stored_memory(k, s.mem, address as int, rs2_value(s, w)),
            },
        )
    } else {
        Err(Fault::MemoryOutOfRange(address))
    }
}

/// What executing word `w` as instruction `k` does to machine `s`.
pub open spec fn spec_execute(k: InstructionIndex, w: u32, s: MachineState) -> Result<MachineState, Fault> {
    let next = wrap_add(s.pc, 4);
    match k {
        InstructionIndex::LUI => Ok(write_rd(s, w, spec_U_imm_bits(w), next)),
        InstructionIndex::AUIPC => Ok(write_rd(s, w, wrap_add(s.pc, spec_U_imm_bits(w)), next)),
        InstructionIndex::JAL => Ok(write_rd(s, w, next, wrap_add(s.pc, spec_J_imm(w)))),
        InstructionIndex::JALR => Ok(
            write_rd(s, w, next, wrap_add(rs1_value(s, w), spec_I_imm(w))),
        ),
        InstructionIndex::BEQ | InstructionIndex::BNE | InstructionIndex::BLT
        | InstructionIndex::BGE | InstructionIndex::BLTU | InstructionIndex::BGEU => Ok(
            MachineState {
                pc: if spec_branch_taken(spec_branch_op(k), rs1_value(s, w), rs2_value(s, w)) {
                    wrap_add(s.pc, spec_B_imm(w))
                } else {
                    next
                },
                regs: s.regs,
                mem: s.mem,
            },
        ),
        InstructionIndex::LB | InstructionIndex::LH | InstructionIndex::LW
        | InstructionIndex::LBU | InstructionIndex::LHU => spec_load(k, w, s),
        InstructionIndex::SB | InstructionIndex::SH | InstructionIndex::SW => spec_store(k, w, s),
        InstructionIndex::ADDI | InstructionIndex::SLTI | InstructionIndex::SLTIU
        | InstructionIndex::XORI | InstructionIndex::ORI | InstructionIndex::ANDI
        | InstructionIndex::SLLI | InstructionIndex::SRLI | InstructionIndex::SRAI => Ok(
            write_rd(s, w, spec_op(spec_alu_op(k), rs1_value(s, w), spec_I_imm(w)), next),
        ),
        InstructionIndex::FENCE | InstructionIndex::FENCE_TSO | InstructionIndex::PAUSE
        | InstructionIndex::ECALL | InstructionIndex::EBREAK => Ok(advance(s)),
        InstructionIndex::UNDEF => Err(Fault::UndefinedInstruction(w)),
        _ => Ok(
            write_rd(s, w, spec_op(spec_alu_op(k), rs1_value(s, w), rs2_value(s, w)), next),
        ),
    }
}

/// `r`, `before` and `after` are what running an instruction whose meaning is `expected`
/// gives: on success the new state, on a fault the fault and an unchanged machine.
pub open spec fn executed(
    expected: Result<MachineState, Fault>,
    r: Result<(), Fault>,
    before: MachineState,
    after: MachineState,
) -> bool {
    match expected {
        Ok(s) => r is Ok && after == s,
        Err(e) => r == Err::<(), Fault>(e) && after == before,
    }
}

fn op_eq(a: u32, b: u32) -> (r: u32)
    ensures
        r == (if spec_branch_taken(BranchOp::Eq, a, b) { 1u32 } else { 0u32 }),
{
    if a == b { 1 } else { 0 }
}

fn op_ne(a: u32, b: u32) -> (r: u32)
    ensures
        r == (if spec_branch_taken(BranchOp::Ne, a, b) { 1u32 } else { 0u32 }),
{
    1 - op_eq(a, b)
}

fn op_lt(a: u32, b: u32) -> (r: u32)
    ensures
        r == (if spec_branch_taken(BranchOp::Lt, a, b) { 1u32 } else { 0u32 }),
{
    let a_negative = a >= 0x8000_0000;
    let b_negative = b >= 0x8000_0000;
    if a_negative != b_negative {
        if a_negative { 1 } else { 0 }
    } else {
        op_ltu(a, b)
    }
}

fn op_ltu(a: u32, b: u32) -> (r: u32)
    ensures
        r == (if spec_branch_taken(BranchOp::Ltu, a, b) { 1u32 } else { 0u32 }),
{
    if a < b { 1 } else { 0 }
}

fn op_ge(a: u32, b: u32) -> (r: u32)
    ensures
        r == (if spec_branch_taken(BranchOp::Ge, a, b) { 1u32 } else { 0u32 }),
{
    1 - op_lt(a, b)
}

fn op_geu(a: u32, b: u32) -> (r: u32)
    ensures
        r == (if spec_branch_taken(BranchOp::Geu, a, b) { 1u32 } else { 0u32 }),
{
    1 - op_ltu(a, b)
}

fn op_add(a: u32, b: u32) -> (r: u32)
    ensures
        r == spec_op(AluOp::Add, a, b),
{
    a.wrapping_add(b)
}

fn op_sub(a: u32, b: u32) -> (r: u32)
    ensures
        r == spec_op(AluOp::Sub, a, b),
{
    a.wrapping_sub(b)
}

fn op_xor(a: u32, b: u32) -> (r: u32)
    ensures
        r == spec_op(AluOp::Xor, a, b),
{
    a ^ b
}

fn op_or(a: u32, b: u32) -> (r: u32)
    ensures
        r == spec_op(AluOp::Or, a, b),
{
    a | b
}

fn op_and(a: u32, b: u32) -> (r: u32)
    ensures
        r == spec_op(AluOp::And, a, b),
{
    a & b
}

fn op_sll(a: u32, b: u32) -> (r: u32)
    ensures
        r == spec_op(AluOp::Sll, a, b),
{
    a << (b % 32)
}

fn op_srl(a: u32, b: u32) -> (r: u32)
    ensures
        r == spec_op(AluOp::Srl, a, b),
{
    a >> (b % 32)
}

fn op_sra(a: u32, b: u32) -> (r: u32)
    ensures
        r == spec_op(AluOp::Sra, a, b),
{
    ((a as i32) >> (b % 32)) as u32
}

/// The magnitude of a register's two's-complement value.
fn magnitude(a: u32) -> (r: u64)
    ensures
        r == abs(signed(a)),
        r <= 0x8000_0000,
{
    if a < 0x8000_0000 {
        a as u64
    } else {
        0x1_0000_0000u64 - a as u64
    }
}

/// The high word of the 64-bit two's-complement product whose magnitude is `m`.
fn high_word(m: u64, negative: bool) -> (r: u32)
    requires
        m < 0x8000_0000_0000_0000,
    ensures
        r == to_u32((if negative { -(m as int) } else { m as int }) / 0x1_0000_0000),
{
    if !negative {
        (m / 0x1_0000_0000) as u32
    } else {
        let c = (m + 0xffff_ffff) / 0x1_0000_0000;
        assert(-(m as int) / 0x1_0000_0000 == -(c as int));
        if c == 0 {
            0
        } else {
            (0x1_0000_0000u64 - c) as u32
        }
    }
}

fn op_mul(a: u32, b: u32) -> (r: u32)
    ensures
        r == spec_op(AluOp::Mul, a, b),
{
    a.wrapping_mul(b)
}

fn op_mulh(a: u32, b: u32) -> (r: u32)
    ensures
        r == spec_op(AluOp::Mulh, a, b),
{
    let (ma, mb) = (magnitude(a), magnitude(b));
    assert(ma * mb <= 0x8000_0000 * 0x8000_0000) by (nonlinear_arith)
        requires
            ma <= 0x8000_0000,
            mb <= 0x8000_0000,
    ;
    let negative = (a >= 0x8000_0000) != (b >= 0x8000_0000);
    assert(signed(a) * signed(b) == if negative { -((ma * mb) as int) } else { (ma * mb) as int })
        by (nonlinear_arith)
        requires
            ma == abs(signed(a)),
            mb == abs(signed(b)),
            negative == ((signed(a) < 0) != (signed(b) < 0)),
    ;
    high_word(ma * mb, negative)
}

fn op_mulhsu(a: u32, b: u32) -> (r: u32)
    ensures
        r == spec_op(AluOp::Mulhsu, a, b),
{
    let ma = magnitude(a);
    assert(ma * (b as u64) <= 0x8000_0000 * 0xffff_ffff) by (nonlinear_arith)
        requires
            ma <= 0x8000_0000,
            b <= 0xffff_ffff,
    ;
    let negative = a >= 0x8000_0000;
    assert(signed(a) * b == if negative { -((ma * b) as int) } else { (ma * b) as int })
        by (nonlinear_arith)
        requires
            ma == abs(signed(a)),
            negative == (signed(a) < 0),
    ;
    high_word(ma * (b as u64), negative)
}

fn op_mulhu(a: u32, b: u32) -> (r: u32)
    ensures
        r == spec_op(AluOp::Mulhu, a, b),
{
    assert((a as u64) * (b as u64) <= 0xffff_ffff * 0xffff_ffff) by (nonlinear_arith)
        requires
            a <= 0xffff_ffff,
            b <= 0xffff_ffff,
    ;
    ((a as u64) * (b as u64) / 0x1_0000_0000) as u32
}

/// `q` or `-q`, modulo 2^32.
fn negate_if(q: u64, negative: bool) -> (r: u32)
    requires
        q <= 0x8000_0000,
    ensures
        r == to_u32(if negative { -(q as int) } else { q as int }),
{
    if negative && q != 0 {
        (0x1_0000_0000u64 - q) as u32
    } else {
        q as u32
    }
}

fn op_div(a: u32, b: u32) -> (r: u32)
    ensures
        r == spec_op(AluOp::Div, a, b),
{
    if b == 0 {
        u32::MAX
    } else {
        let (ma, mb) = (magnitude(a), magnitude(b));
        let q = ma / mb;
        negate_if(q, (a >= 0x8000_0000) != (b >= 0x8000_0000))
    }
}

fn op_divu(a: u32, b: u32) -> (r: u32)
    ensures
        r == spec_op(AluOp::Divu, a, b),
{
    if b == 0 {
        u32::MAX
    } else {
        a / b
    }
}

fn op_rem(a: u32, b: u32) -> (r: u32)
    ensures
        r == spec_op(AluOp::Rem, a, b),
{
    if b == 0 {
        a
    } else {
        let (ma, mb) = (magnitude(a), magnitude(b));
        negate_if(ma % mb, a >= 0x8000_0000)
    }
}

fn op_remu(a: u32, b: u32) -> (r: u32)
    ensures
        r == spec_op(AluOp::Remu, a, b),
{
    if b == 0 {
        a
    } else {
        a % b
    }
}

/// Applies an integer operation to two register values.
pub fn apply_op(op: AluOp, a: u32, b: u32) -> (r: u32)
    ensures
        r == spec_op(op, a, b),
{
    match op {
        AluOp::Add => op_add(a, b),
        AluOp::Sub => op_sub(a, b),
        AluOp::Sll => op_sll(a, b),
        AluOp::Slt => op_lt(a, b),
        AluOp::Sltu => op_ltu(a, b),
        AluOp::Xor => op_xor(a, b),
        AluOp::Srl => op_srl(a, b),
        AluOp::Sra => op_sra(a, b),
        AluOp::Or => op_or(a, b),
        AluOp::And => op_and(a, b),
        AluOp::Mul => op_mul(a, b),
        AluOp::Mulh => op_mulh(a, b),
        AluOp::Mulhsu => op_mulhsu(a, b),
        AluOp::Mulhu => op_mulhu(a, b),
        AluOp::Div => op_div(a, b),
        AluOp::Divu => op_divu(a, b),
        AluOp::Rem => op_rem(a, b),
        AluOp::Remu => op_remu(a, b),
    }
}

/// Whether a branch condition holds of two register values.
pub fn branch_taken(op: BranchOp, a: u32, b: u32) -> (r: bool)
    ensures
        r == spec_branch_taken(op, a, b),
{
    let holds = match op {
        BranchOp::Eq => op_eq(a, b),
        BranchOp::Ne => op_ne(a, b),
        BranchOp::Lt => op_lt(a, b),
        BranchOp::Ge => op_ge(a, b),
        BranchOp::Ltu => op_ltu(a, b),
        BranchOp::Geu => op_geu(a, b),
    };
    holds != 0
}

/// rd := op(rs1, rs2); pc := pc + 4
pub fn R_TYPE_ARITH_EXECUTOR(op: AluOp, machine: &mut Machine, instruction: u32)
    ensures
        final(machine)@ == write_rd(
            old(machine)@,
            instruction,
            spec_op(op, rs1_value(old(machine)@, instruction), rs2_value(old(machine)@, instruction)),
            wrap_add(old(machine)@.pc, 4),
        ),
{
    let rd = get_rd_bits(instruction) as usize;
    let rs1 = machine.registers.get(get_rs1_bits(instruction) as usize);
    let rs2 = machine.registers.get(get_rs2_bits(instruction) as usize);
    machine.registers.set(rd, apply_op(op, rs1, rs2));
    machine.pc = machine.pc.wrapping_add(4);
}

/// rd := op(rs1, sign-extended imm); pc := pc + 4
pub fn I_TYPE_ARITH_EXECUTOR(op: AluOp, machine: &mut Machine, instruction: u32)
    ensures
        final(machine)@ == write_rd(
            old(machine)@,
            instruction,
            spec_op(op, rs1_value(old(machine)@, instruction), spec_I_imm(instruction)),
            wrap_add(old(machine)@.pc, 4),
        ),
{
    let rd = get_rd_bits(instruction) as usize;
    let rs1 = machine.registers.get(get_rs1_bits(instruction) as usize);
    let imm = get_I_imm(instruction);
    machine.registers.set(rd, apply_op(op, rs1, imm));
    machine.pc = machine.pc.wrapping_add(4);
}

/// pc := pc + offset where the condition holds, else pc + 4
pub fn B_TYPE_EXECUTOR(comparison: BranchOp, machine: &mut Machine, instruction: u32)
    ensures
        final(machine)@ == (MachineState {
            pc: if spec_branch_taken(
                comparison,
                rs1_value(old(machine)@, instruction),
                rs2_value(old(machine)@, instruction),
            ) {
                wrap_add(old(machine)@.pc, spec_B_imm(instruction))
            } else {
                wrap_add(old(machine)@.pc, 4)
            },
            regs: old(machine)@.regs,
            mem: old(machine)@.mem,
        }),
{
    let rs1 = machine.registers.get(get_rs1_bits(instruction) as usize);
    let rs2 = machine.registers.get(get_rs2_bits(instruction) as usize);
    let offset = if branch_taken(comparison, rs1, rs2) {
        get_B_imm(instruction)
    } else {
        4
    };
    machine.pc = machine.pc.wrapping_add(offset);
}

pub fn LUI_EXECUTOR(machine: &mut Machine, instruction: u32)
    ensures
        spec_execute(InstructionIndex::LUI, instruction, old(machine)@) == Ok::<
            MachineState,
            Fault,
        >(final(machine)@),
{
    let rd = get_rd_bits(instruction) as usize;
    let imm = get_U_imm_bits(instruction);
    machine.registers.set(rd, imm);
    machine.pc = machine.pc.wrapping_add(4);
}

pub fn AUIPC_EXECUTOR(machine: &mut Machine, instruction: u32)
    ensures
        spec_execute(InstructionIndex::AUIPC, instruction, old(machine)@) == Ok::<
            MachineState,
            Fault,
        >(final(machine)@),
{
    let rd = get_rd_bits(instruction) as usize;
    let imm = get_U_imm_bits(instruction);
    machine.registers.set(rd, machine.pc.wrapping_add(imm));
    machine.pc = machine.pc.wrapping_add(4);
}

pub fn JAL_EXECUTOR(machine: &mut Machine, instruction: u32)
    ensures
        spec_execute(InstructionIndex::JAL, instruction, old(machine)@) == Ok::<
            MachineState,
            Fault,
        >(final(machine)@),
{
    let rd = get_rd_bits(instruction) as usize;
    let imm = get_J_imm(instruction);
    machine.registers.set(rd, machine.pc.wrapping_add(4));
    machine.pc = machine.pc.wrapping_add(imm);
}

/// rd := pc + 4; pc := rs1 + imm. The target keeps its bit 0: it is not cleared.
pub fn JALR_EXECUTOR(machine: &mut Machine, instruction: u32)
    ensures
        spec_execute(InstructionIndex::JALR, instruction, old(machine)@) == Ok::<
            MachineState,
            Fault,
        >(final(machine)@),
{
    let rd = get_rd_bits(instruction) as usize;
    let rs1 = machine.registers.get(get_rs1_bits(instruction) as usize);
    let imm = get_I_imm(instruction);
    machine.registers.set(rd, machine.pc.wrapping_add(4));
    machine.pc = rs1.wrapping_add(imm);
}

/// The effective address `rs1 + offset`, and whether `width` bytes fit in memory there.
fn effective_address(machine: &Machine, instruction: u32, offset: u32, width: usize) -> (r: (
    u32,
    bool,
))
    ensures
        r.0 == wrap_add(rs1_value(machine@, instruction), offset),
        r.1 == (r.0 + width <= machine@.mem.len()),
{
    let rs1 = machine.registers.get(get_rs1_bits(instruction) as usize);
    let address = rs1.wrapping_add(offset);
    let len = machine.memory.len();
    let fits = address as usize <= usize::MAX - width && address as usize + width <= len;
    (address, fits)
}

pub fn LB_EXECUTOR(machine: &mut Machine, instruction: u32) -> (r: Result<(), Fault>)
    ensures
        executed(
            spec_execute(InstructionIndex::LB, instruction, old(machine)@),
            r,
            old(machine)@,
            final(machine)@,
        ),
{
    let (address, fits) = effective_address(machine, instruction, get_I_imm(instruction), 1);
    if !fits {
        return Err(Fault::MemoryOutOfRange(address));
    }
    let rd = get_rd_bits(instruction) as usize;
    let mut value = machine.memory.load_byte(address as usize) as u32;
    sign_extend(&mut value, 7);
    machine.registers.set(rd, value);
    machine.pc = machine.pc.wrapping_add(4);
    Ok(())
}

pub fn LH_EXECUTOR(machine: &mut Machine, instruction: u32) -> (r: Result<(), Fault>)
    ensures
        executed(
            spec_execute(InstructionIndex::LH, instruction, old(machine)@),
            r,
            old(machine)@,
            final(machine)@,
        ),
{
    let (address, fits) = effective_address(machine, instruction, get_I_imm(instruction), 2);
    if !fits {
        return Err(Fault::MemoryOutOfRange(address));
    }
    let rd = get_rd_bits(instruction) as usize;
    let mut value = machine.memory.load_halfword(address as usize) as u32;
    sign_extend(&mut value, 15);
    machine.registers.set(rd, value);
    machine.pc = machine.pc.wrapping_add(4);
    Ok(())
}

pub fn LW_EXECUTOR(machine: &mut Machine, instruction: u32) -> (r: Result<(), Fault>)
    ensures
        executed(
            spec_execute(InstructionIndex::LW, instruction, old(machine)@),
            r,
            old(machine)@,
            final(machine)@,
        ),
{
    let (address, fits) = effective_address(machine, instruction, get_I_imm(instruction), 4);
    if !fits {
        return Err(Fault::MemoryOutOfRange(address));
    }
    let rd = get_rd_bits(instruction) as usize;
    let value = machine.memory.load_word(address as usize);
    machine.registers.set(rd, value);
    machine.pc = machine.pc.wrapping_add(4);
    Ok(())
}

pub fn LBU_EXECUTOR(machine: &mut Machine, instruction: u32) -> (r: Result<(), Fault>)
    ensures
        executed(
            spec_execute(InstructionIndex::LBU, instruction, old(machine)@),
            r,
            old(machine)@,
            final(machine)@,
        ),
{
    let (address, fits) = effective_address(machine, instruction, get_I_imm(instruction), 1);
    if !fits {
        return Err(Fault::MemoryOutOfRange(address));
    }
    let rd = get_rd_bits(instruction) as usize;
    let value = machine.memory.load_byte(address as usize) as u32;
    machine.registers.set(rd, value);
    machine.pc = machine.pc.wrapping_add(4);
    Ok(())
}

pub fn LHU_EXECUTOR(machine: &mut Machine, instruction: u32) -> (r: Result<(), Fault>)
    ensures
        executed(
            spec_execute(InstructionIndex::LHU, instruction, old(machine)@),
            r,
            old(machine)@,
            final(machine)@,
        ),
{
    let (address, fits) = effective_address(machine, instruction, get_I_imm(instruction), 2);
    if !fits {
        return Err(Fault::MemoryOutOfRange(address));
    }
    let rd = get_rd_bits(instruction) as usize;
    let value = machine.memory.load_halfword(address as usize) as u32;
    machine.registers.set(rd, value);
    machine.pc = machine.pc.wrapping_add(4);
    Ok(())
}

pub fn SB_EXECUTOR(machine: &mut Machine, instruction: u32) -> (r: Result<(), Fault>)
    ensures
        executed(
            spec_execute(InstructionIndex::SB, instruction, old(machine)@),
            r,
            old(machine)@,
            final(machine)@,
        ),
{
    let (address, fits) = effective_address(machine, instruction, get_S_imm(instruction), 1);
    if !fits {
        return Err(Fault::MemoryOutOfRange(address));
    }
    let rs2 = machine.registers.get(get_rs2_bits(instruction) as usize);
    machine.memory.store_byte(address as usize, (rs2 % 0x100) as u8);
    machine.pc = machine.pc.wrapping_add(4);
    Ok(())
}

pub fn SH_EXECUTOR(machine: &mut Machine, instruction: u32) -> (r: Result<(), Fault>)
    ensures
        executed(
            spec_execute(InstructionIndex::SH, instruction, old(machine)@),
            r,
            old(machine)@,
            final(machine)@,
        ),
{
    let (address, fits) = effective_address(machine, instruction, get_S_imm(instruction), 2);
    if !fits {
        return Err(Fault::MemoryOutOfRange(address));
    }
    let rs2 = machine.registers.get(get_rs2_bits(instruction) as usize);
    machine.memory.store_halfword(address as usize, (rs2 % 0x1_0000) as u16);
    machine.pc = machine.pc.wrapping_add(4);
    Ok(())
}

pub fn SW_EXECUTOR(machine: &mut Machine, instruction: u32) -> (r: Result<(), Fault>)
    ensures
        executed(
            spec_execute(InstructionIndex::SW, instruction, old(machine)@),
            r,
            old(machine)@,
            final(machine)@,
        ),
{
    let (address, fits) = effective_address(machine, instruction, get_S_imm(instruction), 4);
    if !fits {
        return Err(Fault::MemoryOutOfRange(address));
    }
    let rs2 = machine.registers.get(get_rs2_bits(instruction) as usize);
    machine.memory.store_word(address as usize, rs2);
    machine.pc = machine.pc.wrapping_add(4);
    Ok(())
}

/// FENCE, FENCE.TSO, PAUSE, ECALL and EBREAK: a single hart without privilege levels has
/// nothing to order or trap to, so they only move on to the next instruction.
pub fn SYSTEM_EXECUTOR(machine: &mut Machine, _instruction: u32)
    ensures
        final(machine)@ == advance(old(machine)@),
{
    machine.pc = machine.pc.wrapping_add(4);
}

/// The sentinel: the word is not an instruction.
pub fn UNDEF_EXECUTOR(_machine: &mut Machine, instruction: u32) -> (r: Result<(), Fault>)
    ensures
        r == Err::<(), Fault>(Fault::UndefinedInstruction(instruction)),
        final(_machine)@ == old(_machine)@,
{
    Err(Fault::UndefinedInstruction(instruction))
}

impl Instruction {
    /// Executes `instruction` as this instruction on `machine`.
    pub fn exec(&self, machine: &mut Machine, instruction: u32) -> (r: Result<(), Fault>)
        ensures
            executed(
                spec_execute(self.index, instruction, old(machine)@),
                r,
                old(machine)@,
                final(machine)@,
            ),
    {
        match self.index {
            InstructionIndex::LUI => {
                LUI_EXECUTOR(machine, instruction);
                Ok(())
            },
            InstructionIndex::AUIPC => {
                AUIPC_EXECUTOR(machine, instruction);
                Ok(())
            },
            InstructionIndex::JAL => {
                JAL_EXECUTOR(machine, instruction);
                Ok(())
            },
            InstructionIndex::JALR => {
                JALR_EXECUTOR(machine, instruction);
                Ok(())
            },
            InstructionIndex::BEQ => {
                B_TYPE_EXECUTOR(BranchOp::Eq, machine, instruction);
                Ok(())
            },
            InstructionIndex::BNE => {
                B_TYPE_EXECUTOR(BranchOp::Ne, machine, instruction);
                Ok(())
            },
            InstructionIndex::BLT => {
                B_TYPE_EXECUTOR(BranchOp::Lt, machine, instruction);
                Ok(())
            },
            InstructionIndex::BGE => {
                B_TYPE_EXECUTOR(BranchOp::Ge, machine, instruction);
                Ok(())
            },
            InstructionIndex::BLTU => {
                B_TYPE_EXECUTOR(BranchOp::Ltu, machine, instruction);
                Ok(())
            },
            InstructionIndex::BGEU => {
                B_TYPE_EXECUTOR(BranchOp::Geu, machine, instruction);
                Ok(())
            },
            InstructionIndex::LB => LB_EXECUTOR(machine, instruction),
            InstructionIndex::LH => LH_EXECUTOR(machine, instruction),
            InstructionIndex::LW => LW_EXECUTOR(machine, instruction),
            InstructionIndex::LBU => LBU_EXECUTOR(machine, instruction),
            InstructionIndex::LHU => LHU_EXECUTOR(machine, instruction),
            InstructionIndex::SB => SB_EXECUTOR(machine, instruction),
            InstructionIndex::SH => SH_EXECUTOR(machine, instruction),
            InstructionIndex::SW => SW_EXECUTOR(machine, instruction),
            InstructionIndex::ADDI | InstructionIndex::SLTI | InstructionIndex::SLTIU
            | InstructionIndex::XORI | InstructionIndex::ORI | InstructionIndex::ANDI
            | InstructionIndex::SLLI | InstructionIndex::SRLI | InstructionIndex::SRAI => {
                I_TYPE_ARITH_EXECUTOR(alu_op(self.index), machine, instruction);
                Ok(())
            },
            InstructionIndex::FENCE | InstructionIndex::FENCE_TSO | InstructionIndex::PAUSE
            | InstructionIndex::ECALL | InstructionIndex::EBREAK => {
                SYSTEM_EXECUTOR(machine, instruction);
                Ok(())
            },
            InstructionIndex::UNDEF => UNDEF_EXECUTOR(machine, instruction),
            _ => {
                R_TYPE_ARITH_EXECUTOR(alu_op(self.index), machine, instruction);
                Ok(())
            },
        }
    }
}

/// The operation of an arithmetic instruction.
fn alu_op(k: InstructionIndex) -> (r: AluOp)
    ensures
        r == spec_alu_op(k),
{
    match k {
        InstructionIndex::SUB => AluOp::Sub,
        InstructionIndex::SLL | InstructionIndex::SLLI => AluOp::Sll,
        InstructionIndex::SLT | InstructionIndex::SLTI => AluOp::Slt,
        InstructionIndex::SLTU | InstructionIndex::SLTIU => AluOp::Sltu,
        InstructionIndex::XOR | InstructionIndex::XORI => AluOp::Xor,
        InstructionIndex::SRL | InstructionIndex::SRLI => AluOp::Srl,
        InstructionIndex::SRA | InstructionIndex::SRAI => AluOp::Sra,
        InstructionIndex::OR | InstructionIndex::ORI => AluOp::Or,
        InstructionIndex::AND | InstructionIndex::ANDI => AluOp::And,
        InstructionIndex::MUL => AluOp::Mul,
        InstructionIndex::MULH => AluOp::Mulh,
        InstructionIndex::MULHSU => AluOp::Mulhsu,
        InstructionIndex::MULHU => AluOp::Mulhu,
        InstructionIndex::DIV => AluOp::Div,
        InstructionIndex::DIVU => AluOp::Divu,
        InstructionIndex::REM => AluOp::Rem,
        InstructionIndex::REMU => AluOp::Remu,
        _ => AluOp::Add,
    }
}

} // verus!
