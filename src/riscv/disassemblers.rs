use vstd::prelude::*;
use vstd::string::StringExecFns;

use super::executors::signed;
use super::instructions::{spec_format, spec_name, Format, Instruction, InstructionIndex};
use super::machine::{Fault, Machine};
use super::slices::{
    get_B_imm,
    get_I_imm,
    get_J_imm,
    get_S_imm,
    get_U_imm_bits,
    get_rd_bits,
    get_rs1_bits,
    get_rs2_bits,
    spec_B_imm,
    spec_I_imm,
    spec_J_imm,
    spec_S_imm,
    spec_U_imm_bits,
    spec_rd,
    spec_rs1,
    spec_rs2,
};

verus! {

/// The character of digit `d` (0 to 15).
pub open spec fn spec_digit(d: nat) -> char {
    if d == 0 { '0' }
    else if d == 1 { '1' }
    else if d == 2 { '2' }
    else if d == 3 { '3' }
    else if d == 4 { '4' }
    else if d == 5 { '5' }
    else if d == 6 { '6' }
    else if d == 7 { '7' }
    else if d == 8 { '8' }
    else if d == 9 { '9' }
    else if d == 10 { 'a' }
    else if d == 11 { 'b' }
    else if d == 12 { 'c' }
    else if d == 13 { 'd' }
    else if d == 14 { 'e' }
    else { 'f' }
}

/// `n` in base `base`, most significant digit first, without leading zeros.
pub open spec fn spec_digits(n: nat, base: nat) -> Seq<char>
    recommends
        2 <= base <= 16,
    decreases n,
{
    if n < base || base < 2 {
        seq![spec_digit(n)]
    } else {
        proof {
            assert(n / base < n) by (nonlinear_arith)
                requires
                    base >= 2,
                    n >= base,
            ;
        }
        spec_digits(n / base, base).push(spec_digit(n % base))
    }
}

/// A signed value in decimal: a minus sign before the magnitude of a negative value.
pub open spec fn spec_signed_decimal(v: int) -> Seq<char> {
    if v < 0 {
        seq!['-'] + spec_digits((-v) as nat, 10)
    } else {
        spec_digits(v as nat, 10)
    }
}

/// A signed value in hexadecimal, `0x` before the digits and a minus sign before that.
pub open spec fn spec_signed_hex(v: int) -> Seq<char> {
    if v < 0 {
        seq!['-', '0', 'x'] + spec_digits((-v) as nat, 16)
    } else {
        seq!['0', 'x'] + spec_digits(v as nat, 16)
    }
}

/// The name of register `i`: `x0` .. `x31`.
pub open spec fn spec_register_name(i: u32) -> Seq<char> {
    seq!['x'] + spec_digits(i as nat, 10)
}

/// A register operand, followed by `=<value>` when the registers are given.
pub open spec fn spec_annotated(i: u32, regs: Option<Seq<u32>>) -> Seq<char> {
    match regs {
        Some(r) => spec_register_name(i) + "="@ + spec_digits(r[i as int] as nat, 10),
        None => spec_register_name(i),
    }
}

/// The register values of a machine, where one is given.
pub open spec fn registers_of(machine: Option<&Machine>) -> Option<Seq<u32>> {
    match machine {
        Some(m) => Some(m.registers@),
        None => None,
    }
}

pub open spec fn spec_r_text(name: Seq<char>, w: u32, regs: Option<Seq<u32>>) -> Seq<char> {
    name + " "@ + spec_register_name(spec_rd(w)) + ", "@ + spec_annotated(spec_rs1(w), regs)
        + ", "@ + spec_annotated(spec_rs2(w), regs)
}

pub open spec fn spec_i_text(name: Seq<char>, w: u32, regs: Option<Seq<u32>>) -> Seq<char> {
    name + " "@ + spec_register_name(spec_rd(w)) + ", "@ + spec_annotated(spec_rs1(w), regs)
        + ", "@ + spec_signed_decimal(signed(spec_I_imm(w)))
}

/// Loads and JALR: `rd, offset(rs1)`.
pub open spec fn spec_offset_text(name: Seq<char>, w: u32, regs: Option<Seq<u32>>) -> Seq<char> {
    name + " "@ + spec_register_name(spec_rd(w)) + ", "@ + spec_signed_decimal(
        signed(spec_I_imm(w)),
    ) + "("@ + spec_annotated(spec_rs1(w), regs) + ")"@
}

/// Stores: `rs2, offset(rs1)`.
pub open spec fn spec_s_text(name: Seq<char>, w: u32, regs: Option<Seq<u32>>) -> Seq<char> {
    name + " "@ + spec_annotated(spec_rs2(w), regs) + ", "@ + spec_signed_decimal(
        signed(spec_S_imm(w)),
    ) + "("@ + spec_annotated(spec_rs1(w), regs) + ")"@
}

/// Branches: `rs1, rs2, offset` with the offset in signed hexadecimal.
pub open spec fn spec_b_text(name: Seq<char>, w: u32, regs: Option<Seq<u32>>) -> Seq<char> {
    name + " "@ + spec_annotated(spec_rs1(w), regs) + ", "@ + spec_annotated(spec_rs2(w), regs)
        + ", "@ + spec_signed_hex(signed(spec_B_imm(w)))
}

/// Upper immediates: `rd, imm[31:12]` in unsigned decimal.
pub open spec fn spec_u_text(name: Seq<char>, w: u32) -> Seq<char> {
    name + " "@ + spec_register_name(spec_rd(w)) + ", "@ + spec_digits(
        (spec_U_imm_bits(w) >> 12u32) as nat,
        10,
    )
}

/// JAL: `rd, offset` in signed decimal.
pub open spec fn spec_j_text(name: Seq<char>, w: u32) -> Seq<char> {
    name + " "@ + spec_register_name(spec_rd(w)) + ", "@ + spec_signed_decimal(
        signed(spec_J_imm(w)),
    )
}

/// The text of word `w` read as instruction `k`, with register values appended where
/// `regs` holds them; the sentinel has no text.
pub open spec fn spec_disassembly(k: InstructionIndex, w: u32, regs: Option<Seq<u32>>) -> Result<
    Seq<char>,
    Fault,
> {
    let name = spec_name(k);
    match k {
        InstructionIndex::JALR | InstructionIndex::LB | InstructionIndex::LH
        | InstructionIndex::LW | InstructionIndex::LBU | InstructionIndex::LHU => Ok(
            spec_offset_text(name, w, regs),
        ),
        InstructionIndex::UNDEF => Err(Fault::UndefinedInstruction(w)),
        _ => match spec_format(k) {
            Format::R => Ok(spec_r_text(name, w, regs)),
            Format::I | Format::Shift => Ok(spec_i_text(name, w, regs)),
            Format::S => Ok(spec_s_text(name, w, regs)),
            Format::B => Ok(spec_b_text(name, w, regs)),
            Format::U => Ok(spec_u_text(name, w)),
            Format::J => Ok(spec_j_text(name, w)),
            _ => Ok(name),
        },
    }
}

/// `r` holds the text `expected` describes, or the same fault.
pub open spec fn text_matches(r: Result<String, Fault>, expected: Result<Seq<char>, Fault>) -> bool {
    match expected {
        Ok(t) => r is Ok && r->Ok_0@ == t,
        Err(e) => r == Err::<String, Fault>(e),
    }
}

/// The text of digit `d`.
fn digit_text(d: u32) -> (r: &'static str)
    requires
        d < 16,
    ensures
        r@ == seq![spec_digit(d as nat)],
{
    let r = match d {
        0 => {
            proof {
                reveal_strlit("0");
            }
            "0"
        },
        1 => {
            proof {
                reveal_strlit("1");
            }
            "1"
        },
        2 => {
            proof {
                reveal_strlit("2");
            }
            "2"
        },
        3 => {
            proof {
                reveal_strlit("3");
            }
            "3"
        },
        4 => {
            proof {
                reveal_strlit("4");
            }
            "4"
        },
        5 => {
            proof {
                reveal_strlit("5");
            }
            "5"
        },
        6 => {
            proof {
                reveal_strlit("6");
            }
            "6"
        },
        7 => {
            proof {
                reveal_strlit("7");
            }
            "7"
        },
        8 => {
            proof {
                reveal_strlit("8");
            }
            "8"
        },
        9 => {
            proof {
                reveal_strlit("9");
            }
            "9"
        },
        10 => {
            proof {
                reveal_strlit("a");
            }
            "a"
        },
        11 => {
            proof {
                reveal_strlit("b");
            }
            "b"
        },
        12 => {
            proof {
                reveal_strlit("c");
            }
            "c"
        },
        13 => {
            proof {
                reveal_strlit("d");
            }
            "d"
        },
        14 => {
            proof {
                reveal_strlit("e");
            }
            "e"
        },
        _ => {
            proof {
                reveal_strlit("f");
            }
            "f"
        },
    };
    assert(r@ =~= seq![spec_digit(d as nat)]);
    r
}

/// Appends `n` in base `base`.
pub(crate) fn push_digits(out: &mut String, n: u32, base: u32)
    requires
        2 <= base <= 16,
    ensures
        final(out)@ == old(out)@ + spec_digits(n as nat, base as nat),
    decreases n,
{
    if n >= base {
        assert(n / base < n) by (nonlinear_arith)
            requires
                base >= 2,
                n >= base,
        ;
        push_digits(out, n / base, base);
    } else {
        assert(n % base == n) by (nonlinear_arith)
            requires
                n < base,
        ;
    }
    out.append(digit_text(n % base));
    assert(final(out)@ =~= old(out)@ + spec_digits(n as nat, base as nat));
}

/// Appends the two's-complement value of `v` in decimal.
pub(crate) fn push_signed_decimal(out: &mut String, v: u32)
    ensures
        final(out)@ == old(out)@ + spec_signed_decimal(signed(v)),
{
    if v >= 0x8000_0000 {
        proof {
            reveal_strlit("-");
        }
        out.append("-");
        push_digits(out, (0xffff_ffff - v) + 1, 10);
        assert(final(out)@ =~= old(out)@ + spec_signed_decimal(signed(v)));
    } else {
        push_digits(out, v, 10);
    }
}

/// Appends the two's-complement value of `v` in hexadecimal.
fn push_signed_hex(out: &mut String, v: u32)
    ensures
        final(out)@ == old(out)@ + spec_signed_hex(signed(v)),
{
    proof {
        reveal_strlit("-0x");
        reveal_strlit("0x");
    }
    if v >= 0x8000_0000 {
        out.append("-0x");
        push_digits(out, (0xffff_ffff - v) + 1, 16);
    } else {
        out.append("0x");
        push_digits(out, v, 16);
    }
    assert(final(out)@ =~= old(out)@ + spec_signed_hex(signed(v)));
}

pub(crate) fn push_register(out: &mut String, register: u32)
    ensures
        final(out)@ == old(out)@ + spec_register_name(register),
{
    proof {
        reveal_strlit("x");
    }
    out.append("x");
    push_digits(out, register, 10);
    assert(final(out)@ =~= old(out)@ + spec_register_name(register));
}

fn push_annotated(out: &mut String, register: u32, machine: Option<&Machine>)
    requires
        register < 32,
    ensures
        final(out)@ == old(out)@ + spec_annotated(register, registers_of(machine)),
{
    push_register(out, register);
    if let Some(machine) = machine {
        let value = machine.registers.get(register as usize);
        out.append("=");
        push_digits(out, value, 10);
    }
    assert(final(out)@ =~= old(out)@ + spec_annotated(register, registers_of(machine)));
}

/// The name of register `register`: `x0` .. `x31`.
pub fn get_register_name(register: usize) -> (r: String)
    requires
        register < 32,
    ensures
        r@ == spec_register_name(register as u32),
{
    let mut out = String::new();
    push_register(&mut out, register as u32);
    assert(out@ =~= spec_register_name(register as u32));
    out
}

pub fn R_TYPE_DISASSEMBLER(name: &str, instruction: u32, machine: Option<&Machine>) -> (r: String)
    ensures
        r@ == spec_r_text(name@, instruction, registers_of(machine)),
{
    let mut out = String::new();
    out.append(name);
    out.append(" ");
    push_register(&mut out, get_rd_bits(instruction));
    out.append(", ");
    push_annotated(&mut out, get_rs1_bits(instruction), machine);
    out.append(", ");
    push_annotated(&mut out, get_rs2_bits(instruction), machine);
    assert(out@ =~= spec_r_text(name@, instruction, registers_of(machine)));
    out
}

pub fn I_TYPE_DISASSEMBLER(name: &str, instruction: u32, machine: Option<&Machine>) -> (r: String)
    ensures
        r@ == spec_i_text(name@, instruction, registers_of(machine)),
{
    let mut out = String::new();
    out.append(name);
    out.append(" ");
    push_register(&mut out, get_rd_bits(instruction));
    out.append(", ");
    push_annotated(&mut out, get_rs1_bits(instruction), machine);
    out.append(", ");
    push_signed_decimal(&mut out, get_I_imm(instruction));
    assert(out@ =~= spec_i_text(name@, instruction, registers_of(machine)));
    out
}

pub fn S_TYPE_DISASSEMBLER(name: &str, instruction: u32, machine: Option<&Machine>) -> (r: String)
    ensures
        r@ == spec_s_text(name@, instruction, registers_of(machine)),
{
    let mut out = String::new();
    out.append(name);
    out.append(" ");
    push_annotated(&mut out, get_rs2_bits(instruction), machine);
    out.append(", ");
    push_signed_decimal(&mut out, get_S_imm(instruction));
    out.append("(");
    push_annotated(&mut out, get_rs1_bits(instruction), machine);
    out.append(")");
    assert(out@ =~= spec_s_text(name@, instruction, registers_of(machine)));
    out
}

pub fn B_TYPE_DISASSEMBLER(name: &str, instruction: u32, machine: Option<&Machine>) -> (r: String)
    ensures
        r@ == spec_b_text(name@, instruction, registers_of(machine)),
{
    let mut out = String::new();
    out.append(name);
    out.append(" ");
    push_annotated(&mut out, get_rs1_bits(instruction), machine);
    out.append(", ");
    push_annotated(&mut out, get_rs2_bits(instruction), machine);
    out.append(", ");
    push_signed_hex(&mut out, get_B_imm(instruction));
    assert(out@ =~= spec_b_text(name@, instruction, registers_of(machine)));
    out
}

pub fn U_TYPE_DISASSEMBLER(name: &str, instruction: u32) -> (r: String)
    ensures
        r@ == spec_u_text(name@, instruction),
{
    let mut out = String::new();
    out.append(name);
    out.append(" ");
    push_register(&mut out, get_rd_bits(instruction));
    out.append(", ");
    push_digits(&mut out, get_U_imm_bits(instruction) >> 12u32, 10);
    assert(out@ =~= spec_u_text(name@, instruction));
    out
}

pub fn J_TYPE_DISASSEMBLER(name: &str, instruction: u32) -> (r: String)
    ensures
        r@ == spec_j_text(name@, instruction),
{
    let mut out = String::new();
    out.append(name);
    out.append(" ");
    push_register(&mut out, get_rd_bits(instruction));
    out.append(", ");
    push_signed_decimal(&mut out, get_J_imm(instruction));
    assert(out@ =~= spec_j_text(name@, instruction));
    out
}

pub fn LOAD_DISASSEMBLER(name: &str, instruction: u32, machine: Option<&Machine>) -> (r: String)
    ensures
        r@ == spec_offset_text(name@, instruction, registers_of(machine)),
{
    let mut out = String::new();
    out.append(name);
    out.append(" ");
    push_register(&mut out, get_rd_bits(instruction));
    out.append(", ");
    push_signed_decimal(&mut out, get_I_imm(instruction));
    out.append("(");
    push_annotated(&mut out, get_rs1_bits(instruction), machine);
    out.append(")");
    assert(out@ =~= spec_offset_text(name@, instruction, registers_of(machine)));
    out
}

/// Instructions without operands print their bare mnemonic.
pub fn SYSTEM_DISASSEMBLER(name: &str) -> (r: String)
    ensures
        r@ == name@,
{
    String::from_str(name)
}

pub fn JALR_DISASSEMBLER(instruction: u32, machine: Option<&Machine>) -> (r: String)
    ensures
        r@ == spec_offset_text(spec_name(InstructionIndex::JALR), instruction, registers_of(machine)),
{
    LOAD_DISASSEMBLER(InstructionIndex::JALR.name(), instruction, machine)
}

/// The sentinel has no text: the word is reported back.
pub fn UNDEF_DISASSEMBLER(instruction: u32, _machine: Option<&Machine>) -> (r: Result<String, Fault>)
    ensures
        r == Err::<String, Fault>(Fault::UndefinedInstruction(instruction)),
{
    Err(Fault::UndefinedInstruction(instruction))
}

impl Instruction {
    /// The text of `instruction` read as this instruction; with a machine, each source
    /// register is followed by `=<value>`.
    pub fn disassemble(&self, instruction: u32, machine: Option<&Machine>) -> (r: Result<
        String,
        Fault,
    >)
        ensures
            text_matches(r, spec_disassembly(self.index, instruction, registers_of(machine))),
    {
        let name = self.index.name();
        match self.index {
            InstructionIndex::JALR => Ok(JALR_DISASSEMBLER(instruction, machine)),
            InstructionIndex::LB | InstructionIndex::LH | InstructionIndex::LW
            | InstructionIndex::LBU | InstructionIndex::LHU => Ok(
                LOAD_DISASSEMBLER(name, instruction, machine),
            ),
            InstructionIndex::UNDEF => UNDEF_DISASSEMBLER(instruction, machine),
            _ => {
                let (format, _, _, _) = self.index.encoding();
                match format {
                    Format::R => Ok(R_TYPE_DISASSEMBLER(name, instruction, machine)),
                    Format::I | Format::Shift => Ok(I_TYPE_DISASSEMBLER(name, instruction, machine)),
                    Format::S => Ok(S_TYPE_DISASSEMBLER(name, instruction, machine)),
                    Format::B => Ok(B_TYPE_DISASSEMBLER(name, instruction, machine)),
                    Format::U => Ok(U_TYPE_DISASSEMBLER(name, instruction)),
                    Format::J => Ok(J_TYPE_DISASSEMBLER(name, instruction)),
                    _ => Ok(SYSTEM_DISASSEMBLER(name)),
                }
            },
        }
    }
}

} // verus!
