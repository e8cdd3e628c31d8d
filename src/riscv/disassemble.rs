use vstd::prelude::*;
use vstd::string::StringExecFns;

use super::assemble::{
    all_digits, decimal_value, is_digit, kind_of_operand, lemma_lookup_name, operand_count,
    operand_kind, spec_assemble_normalized, spec_parse_operand, spec_parse_operands_from,
    spec_split, OperandKind,
};
use super::assemblers::{spec_encode, AssembleError};
use super::decode::{decodable, decode, lemma_round_trip, spec_decode, spec_operands};
use super::disassemblers::{
    push_digits, push_register, push_signed_decimal, spec_digit, spec_digits, spec_disassembly,
    spec_register_name, spec_signed_decimal, text_matches,
};
use super::executors::signed;
use super::instructions::{spec_arity, spec_format, spec_name, Format, InstructionIndex};
use super::machine::Fault;
use super::slices::{
    _get_funct12_bits, get_B_imm, get_I_imm, get_J_imm, get_S_imm, get_U_imm_bits, get_rd_bits,
    get_rs1_bits, get_rs2_bits, lemma_register_fields,
};

verus! {

/// The text of a machine word, such as `addi x10, x0, 123`; fails on a word that decodes to
/// the undefined sentinel.
pub fn disassemble(instruction: u32) -> (r: Result<String, Fault>)
    ensures
        text_matches(r, spec_disassembly(spec_decode(instruction), instruction, None)),
{
    decode(instruction).disassemble(instruction, None)
}

/// An operand value as normalized assembly writes it.
pub open spec fn spec_operand_text(kind: OperandKind, v: u32) -> Seq<char> {
    match kind {
        OperandKind::Register => spec_register_name(v),
        OperandKind::Immediate => spec_signed_decimal(signed(v)),
        OperandKind::Unsigned => spec_digits(v as nat, 10),
    }
}

/// The mnemonic of `k` followed by the first `n` operands that `w` carries, each after one
/// space.
pub open spec fn spec_normalized_from(k: InstructionIndex, w: u32, n: nat) -> Seq<char>
    decreases n,
{
    if n == 0 {
        spec_name(k)
    } else {
        spec_normalized_from(k, w, (n - 1) as nat) + seq![' '] + spec_operand_text(
            operand_kind(spec_format(k), n - 1),
            spec_operands(k, w)[n - 1],
        )
    }
}

/// The normalized assembly of word `w` read as instruction `k`.
pub open spec fn spec_normalized(k: InstructionIndex, w: u32) -> Seq<char> {
    spec_normalized_from(k, w, spec_arity(k))
}

/// Operand `j` of `instruction` read as instruction `k`, in the order of normalized text.
fn operand_value(k: InstructionIndex, instruction: u32, j: usize) -> (r: u32)
    requires
        j < spec_arity(k),
    ensures
        r == spec_operands(k, instruction)[j as int],
{
    let (format, _, _, _) = k.encoding();
    match format {
        Format::R => if j == 0 {
            get_rd_bits(instruction)
        } else if j == 1 {
            get_rs1_bits(instruction)
        } else {
            get_rs2_bits(instruction)
        },
        Format::I | Format::Shift => if j == 0 {
            get_rd_bits(instruction)
        } else if j == 1 {
            get_rs1_bits(instruction)
        } else {
            get_I_imm(instruction)
        },
        Format::S => if j == 0 {
            get_rs2_bits(instruction)
        } else if j == 1 {
            get_rs1_bits(instruction)
        } else {
            get_S_imm(instruction)
        },
        Format::B => if j == 0 {
            get_rs1_bits(instruction)
        } else if j == 1 {
            get_rs2_bits(instruction)
        } else {
            get_B_imm(instruction)
        },
        Format::U => if j == 0 {
            get_rd_bits(instruction)
        } else {
            get_U_imm_bits(instruction) >> 12u32
        },
        Format::J => if j == 0 {
            get_rd_bits(instruction)
        } else {
            get_J_imm(instruction)
        },
        _ => {
            let funct12 = _get_funct12_bits(instruction);
            if j == 0 {
                get_rd_bits(instruction)
            } else if j == 1 {
                get_rs1_bits(instruction)
            } else if j == 2 {
                funct12 >> 8u32
            } else if j == 3 {
                (funct12 >> 4u32) & 0xf
            } else {
                funct12 & 0xf
            }
        },
    }
}

fn push_operand(out: &mut String, kind: OperandKind, v: u32)
    ensures
        final(out)@ == old(out)@ + spec_operand_text(kind, v),
{
    match kind {
        OperandKind::Register => push_register(out, v),
        OperandKind::Immediate => push_signed_decimal(out, v),
        OperandKind::Unsigned => push_digits(out, v, 10),
    }
}

/// The normalized assembly of a machine word, such as `addi x10 x0 123`: the form that
/// `assemble_normalized` reads, which gives back the same word. Fails on a word that
/// decodes to the undefined sentinel.
pub fn disassemble_normalized(instruction: u32) -> (r: Result<String, Fault>)
    ensures
        spec_decode(instruction) == InstructionIndex::UNDEF ==> r == Err::<String, Fault>(
            Fault::UndefinedInstruction(instruction),
        ),
        spec_decode(instruction) != InstructionIndex::UNDEF ==> r is Ok && r->Ok_0@
            == spec_normalized(spec_decode(instruction), instruction),
{
    let entry = decode(instruction);
    let k = entry.index;
    if k == InstructionIndex::UNDEF {
        return Err(Fault::UndefinedInstruction(instruction));
    }
    let (format, _, _, _) = k.encoding();
    let n = operand_count(format);
    let mut out = String::from_str(entry.name);
    let mut j: usize = 0;
    while j < n
        invariant
            j <= n,
            n == spec_arity(k),
            format == spec_format(k),
            out@ == spec_normalized_from(k, instruction, j as nat),
        decreases n - j,
    {
        proof {
            reveal_strlit(" ");
        }
        out.append(" ");
        push_operand(&mut out, kind_of_operand(format, j), operand_value(k, instruction, j));
        j = j + 1;
    }
    Ok(out)
}

/// Whether `t` holds no space.
pub open spec fn no_space(t: Seq<char>) -> bool {
    forall|i: int| 0 <= i < t.len() ==> t[i] != ' '
}

proof fn lemma_split_append(a: Seq<char>, b: Seq<char>)
    requires
        no_space(b),
    ensures
        spec_split(a + seq![' '] + b) == spec_split(a).push(b),
    decreases b.len(),
{
    let s = a + seq![' '] + b;
    if b.len() == 0 {
        assert(s =~= a.push(' '));
        assert(s.drop_last() =~= a);
        assert(b =~= Seq::<char>::empty());
        assert(s.last() == ' ');
    } else {
        let front = b.drop_last();
        assert(no_space(front)) by {
            assert forall|i: int| 0 <= i < front.len() implies front[i] != ' ' by {
                assert(front[i] == b[i]);
            }
        }
        lemma_split_append(a, front);
        assert(s.drop_last() =~= a + seq![' '] + front);
        assert(s.last() == b[b.len() - 1]);
        assert(b[b.len() - 1] != ' ');
        assert(front.push(b.last()) =~= b);
        let pieces = spec_split(s.drop_last());
        assert(pieces == spec_split(a).push(front));
        assert(pieces.update(pieces.len() - 1, pieces.last().push(s.last())) =~= spec_split(
            a,
        ).push(b));
    }
}

proof fn lemma_split_single(b: Seq<char>)
    requires
        no_space(b),
    ensures
        spec_split(b) == seq![b],
    decreases b.len(),
{
    if b.len() == 0 {
        assert(b =~= Seq::<char>::empty());
    } else {
        let front = b.drop_last();
        lemma_split_single(front);
        assert(front.push(b.last()) =~= b);
        assert(spec_split(b) =~= seq![b]);
    }
}

proof fn lemma_digit_char(d: nat)
    requires
        d < 10,
    ensures
        is_digit(spec_digit(d)),
        spec_digit(d) as nat - '0' as nat == d,
{
}

proof fn lemma_decimal_digits(n: nat)
    ensures
        spec_digits(n, 10).len() > 0,
        all_digits(spec_digits(n, 10)),
        no_space(spec_digits(n, 10)),
        decimal_value(spec_digits(n, 10)) == n,
    decreases n,
{
    let d = spec_digits(n, 10);
    lemma_digit_char(n % 10);
    if n >= 10 {
        let front = spec_digits(n / 10, 10);
        lemma_decimal_digits(n / 10);
        assert(d == front.push(spec_digit(n % 10)));
        assert(d.drop_last() =~= front);
        assert(forall|i: int| 0 <= i < front.len() ==> d[i] == front[i]);
    } else {
        assert(d == seq![spec_digit(n)]);
        assert(d.drop_last() =~= Seq::<char>::empty());
        assert(decimal_value(Seq::<char>::empty()) == 0);
    }
}

proof fn lemma_operand_text(kind: OperandKind, v: u32)
    requires
        kind == OperandKind::Register ==> v < 32,
    ensures
        no_space(spec_operand_text(kind, v)),
        spec_parse_operand(kind, spec_operand_text(kind, v)) == Ok::<u32, AssembleError>(v),
{
    let t = spec_operand_text(kind, v);
    match kind {
        OperandKind::Register => {
            lemma_decimal_digits(v as nat);
            assert(t.drop_first() =~= spec_digits(v as nat, 10));
        },
        OperandKind::Immediate => {
            if v >= 0x8000_0000 {
                lemma_decimal_digits((0x1_0000_0000 - v) as nat);
                assert(t.drop_first() =~= spec_digits((0x1_0000_0000 - v) as nat, 10));
            } else {
                lemma_decimal_digits(v as nat);
            }
        },
        OperandKind::Unsigned => {
            lemma_decimal_digits(v as nat);
        },
    }
}

proof fn lemma_name_no_space(k: InstructionIndex)
    ensures
        no_space(spec_name(k)),
{
}

/// The tokens of the normalized text: the mnemonic, then each operand's text.
proof fn lemma_split_normalized(k: InstructionIndex, w: u32, n: nat)
    requires
        n <= spec_arity(k),
    ensures
        spec_split(spec_normalized_from(k, w, n)) == seq![spec_name(k)] + Seq::new(
            n,
            |j: int| spec_operand_text(operand_kind(spec_format(k), j), spec_operands(k, w)[j]),
        ),
    decreases n,
{
    let tokens = Seq::new(
        n,
        |j: int| spec_operand_text(operand_kind(spec_format(k), j), spec_operands(k, w)[j]),
    );
    if n == 0 {
        lemma_name_no_space(k);
        lemma_split_single(spec_name(k));
        assert(seq![spec_name(k)] + tokens =~= seq![spec_name(k)]);
    } else {
        let j = n - 1;
        let kind = operand_kind(spec_format(k), j);
        lemma_register_fields(w);
        lemma_operand_text(kind, spec_operands(k, w)[j]);
        lemma_split_normalized(k, w, (n - 1) as nat);
        lemma_split_append(spec_normalized_from(k, w, (n - 1) as nat), tokens[j]);
        assert(seq![spec_name(k)] + tokens =~= (seq![spec_name(k)] + Seq::new(
            (n - 1) as nat,
            |j: int| spec_operand_text(operand_kind(spec_format(k), j), spec_operands(k, w)[j]),
        )).push(tokens[j]));
    }
}

proof fn lemma_parse_normalized_operands(
    k: InstructionIndex,
    w: u32,
    ops: Seq<Seq<char>>,
    i: int,
)
    requires
        ops.len() == spec_arity(k),
        spec_operands(k, w).len() == spec_arity(k),
        0 <= i <= ops.len(),
        forall|j: int|
            0 <= j < ops.len() ==> ops[j] == spec_operand_text(
                operand_kind(spec_format(k), j),
                spec_operands(k, w)[j],
            ),
    ensures
        spec_parse_operands_from(spec_format(k), ops, i) == Ok::<Seq<u32>, AssembleError>(
            spec_operands(k, w).subrange(i, ops.len() as int),
        ),
    decreases ops.len() - i,
{
    let values = spec_operands(k, w);
    if i < ops.len() {
        lemma_register_fields(w);
        lemma_operand_text(operand_kind(spec_format(k), i), values[i]);
        lemma_parse_normalized_operands(k, w, ops, i + 1);
        assert(seq![values[i]] + values.subrange(i + 1, ops.len() as int) =~= values.subrange(
            i,
            ops.len() as int,
        ));
    } else {
        assert(values.subrange(i, ops.len() as int) =~= Seq::<u32>::empty());
    }
}

/// Round trip through text: the normalized text of an assembled word assembles to that
/// word again, bit for bit, and for every instruction that the decoder recognises the word
/// decodes to the instruction assembled.
pub proof fn lemma_normalized_round_trip(k: InstructionIndex, ops: Seq<u32>)
    requires
        k != InstructionIndex::UNDEF,
        ops.len() >= spec_arity(k),
    ensures
        decodable(k) ==> spec_decode(spec_encode(k, ops)) == k,
        spec_assemble_normalized(spec_normalized(k, spec_encode(k, ops))) == Ok::<
            u32,
            AssembleError,
        >(spec_encode(k, ops)),
{
    let w = spec_encode(k, ops);
    let n = spec_arity(k);
    lemma_round_trip(k, ops);
    lemma_split_normalized(k, w, n);
    lemma_lookup_name(k);
    let tokens = spec_split(spec_normalized(k, w));
    let operand_tokens = tokens.drop_first();
    lemma_parse_normalized_operands(k, w, operand_tokens, 0);
    assert(spec_operands(k, w).subrange(0, n as int) =~= spec_operands(k, w));
}

} // verus!
