use vstd::prelude::*;

use super::assemblers::{spec_assemble, AssembleError};
use super::decode::{decodable, lemma_round_trip, spec_decode};
use super::instructions::{
    lemma_names_distinct, spec_arity, spec_format, spec_index_of, spec_kind_at, spec_name, Format,
    Instruction, InstructionIndex, INSTRUCTION_COUNT,
};

verus! {

/// The texts of a list of tokens.
pub open spec fn views(tokens: Seq<Vec<char>>) -> Seq<Seq<char>> {
    tokens.map_values(|t: Vec<char>| t@)
}

/// `s` cut at every space; empty pieces are kept, so `n` spaces always give `n + 1` pieces.
pub open spec fn spec_split(s: Seq<char>) -> Seq<Seq<char>>
    decreases s.len(),
{
    if s.len() == 0 {
        seq![Seq::empty()]
    } else {
        let pieces = spec_split(s.drop_last());
        if s.last() == ' ' {
            pieces.push(Seq::empty())
        } else {
            pieces.update(pieces.len() - 1, pieces.last().push(s.last()))
        }
    }
}

/// The first instruction, in the order of the enumeration from position `i` on, whose
/// mnemonic is `t`.
pub open spec fn spec_lookup_from(t: Seq<char>, i: int) -> Option<InstructionIndex>
    decreases INSTRUCTION_COUNT - i,
{
    if i < 0 || i >= INSTRUCTION_COUNT {
        None
    } else if spec_name(spec_kind_at(i)) == t {
        Some(spec_kind_at(i))
    } else {
        spec_lookup_from(t, i + 1)
    }
}

/// The instruction whose mnemonic is `t`, if any.
pub open spec fn spec_lookup(t: Seq<char>) -> Option<InstructionIndex> {
    spec_lookup_from(t, 0)
}

pub open spec fn is_digit(c: char) -> bool {
    '0' <= c <= '9'
}

pub open spec fn all_digits(t: Seq<char>) -> bool {
    forall|i: int| 0 <= i < t.len() ==> is_digit(#[trigger] t[i])
}

/// The value of a string of decimal digits.
pub open spec fn decimal_value(t: Seq<char>) -> nat
    decreases t.len(),
{
    if t.len() == 0 {
        0
    } else {
        decimal_value(t.drop_last()) * 10 + (t.last() as nat - '0' as nat) as nat
    }
}

/// The value of `t` where it is one or more decimal digits whose value is at most `bound`.
pub open spec fn spec_parse_decimal(t: Seq<char>, bound: nat) -> Option<nat> {
    if t.len() > 0 && all_digits(t) && decimal_value(t) <= bound {
        Some(decimal_value(t))
    } else {
        None
    }
}

/// A register operand: `x` followed by the decimal index of one of the 32 registers.
pub open spec fn spec_parse_register(t: Seq<char>) -> Option<u32> {
    if t.len() > 0 && t[0] == 'x' {
        match spec_parse_decimal(t.drop_first(), 31) {
            Some(v) => Some(v as u32),
            None => None,
        }
    } else {
        None
    }
}

/// A signed 32-bit decimal immediate with an optional sign, as its two's-complement bits.
pub open spec fn spec_parse_immediate(t: Seq<char>) -> Option<u32> {
    if t.len() > 0 && t[0] == '-' {
        match spec_parse_decimal(t.drop_first(), 0x8000_0000) {
            Some(v) => Some(((0x1_0000_0000 - v) % 0x1_0000_0000) as u32),
            None => None,
        }
    } else {
        let digits = if t.len() > 0 && t[0] == '+' { t.drop_first() } else { t };
        match spec_parse_decimal(digits, 0x7fff_ffff) {
            Some(v) => Some(v as u32),
            None => None,
        }
    }
}

/// An unsigned 32-bit decimal number with an optional `+`.
pub open spec fn spec_parse_unsigned(t: Seq<char>) -> Option<u32> {
    let digits = if t.len() > 0 && t[0] == '+' { t.drop_first() } else { t };
    match spec_parse_decimal(digits, 0xffff_ffff) {
        Some(v) => Some(v as u32),
        None => None,
    }
}

/// The kinds of operand token.
#[derive(Clone, Copy, Debug, PartialEq, Eq, Structural)]
pub enum OperandKind {
    Register,
    Immediate,
    Unsigned,
}

/// Which kind of token operand `i` of an instruction in format `f` is.
pub open spec fn operand_kind(f: Format, i: int) -> OperandKind {
    match f {
        Format::R => OperandKind::Register,
        Format::U | Format::J => if i < 1 { OperandKind::Register } else { OperandKind::Immediate },
        Format::Fence => if i < 2 { OperandKind::Register } else { OperandKind::Unsigned },
        _ => if i < 2 { OperandKind::Register } else { OperandKind::Immediate },
    }
}

/// The value of one operand token, or the error that it gives.
pub open spec fn spec_parse_operand(kind: OperandKind, t: Seq<char>) -> Result<u32, AssembleError> {
    match kind {
        OperandKind::Register => match spec_parse_register(t) {
            Some(v) => Ok(v),
            None => Err(AssembleError::BadRegister),
        },
        OperandKind::Immediate => match spec_parse_immediate(t) {
            Some(v) => Ok(v),
            None => Err(AssembleError::BadImmediate),
        },
        OperandKind::Unsigned => match spec_parse_unsigned(t) {
            Some(v) => Ok(v),
            None => Err(AssembleError::BadImmediate),
        },
    }
}

/// The values of the operand tokens from position `i` on, or the error of the first one
/// that does not parse.
pub open spec fn spec_parse_operands_from(f: Format, ops: Seq<Seq<char>>, i: int) -> Result<
    Seq<u32>,
    AssembleError,
>
    decreases ops.len() - i,
{
    if i < 0 || i >= ops.len() {
        Ok(Seq::empty())
    } else {
        match spec_parse_operand(operand_kind(f, i), ops[i]) {
            Err(e) => Err(e),
            Ok(v) => match spec_parse_operands_from(f, ops, i + 1) {
                Err(e) => Err(e),
                Ok(rest) => Ok(seq![v] + rest),
            },
        }
    }
}

/// The word of one line of normalized assembly: a lowercase mnemonic and its operands,
/// separated by single spaces, registers written `x<N>` and immediates in decimal.
pub open spec fn spec_assemble_normalized(s: Seq<char>) -> Result<u32, AssembleError> {
    let tokens = spec_split(s);
    match spec_lookup(tokens[0]) {
        None => Err(AssembleError::UnknownMnemonic),
        Some(k) => {
            let ops = tokens.drop_first();
            if ops.len() != spec_arity(k) {
                Err(AssembleError::WrongOperandCount)
            } else {
                match spec_parse_operands_from(spec_format(k), ops, 0) {
                    Err(e) => Err(e),
                    Ok(values) => spec_assemble(k, values),
                }
            }
        },
    }
}

/// The words of a program, one line each, or the error of the first line that fails.
pub open spec fn spec_assemble_program(lines: Seq<Seq<char>>) -> Result<Seq<u32>, AssembleError>
    decreases lines.len(),
{
    if lines.len() == 0 {
        Ok(Seq::empty())
    } else {
        match spec_assemble_normalized(lines[0]) {
            Err(e) => Err(e),
            Ok(w) => match spec_assemble_program(lines.drop_first()) {
                Err(e) => Err(e),
                Ok(ws) => Ok(seq![w] + ws),
            },
        }
    }
}

/// Cuts `s` at every space.
fn split_spaces(s: &str) -> (r: Vec<Vec<char>>)
    ensures
        views(r@) == spec_split(s@),
        r@.len() >= 1,
{
    let n = s.unicode_len();
    let mut tokens: Vec<Vec<char>> = Vec::new();
    let mut current: Vec<char> = Vec::new();
    let mut i: usize = 0;
    assert(s@.subrange(0, 0) =~= Seq::<char>::empty());
    assert(views(tokens@).push(current@) =~= seq![Seq::<char>::empty()]);
    while i < n
        invariant
            i <= n,
            n == s@.len(),
            views(tokens@).push(current@) == spec_split(s@.subrange(0, i as int)),
        decreases n - i,
    {
        let c = s.get_char(i);
        let ghost before = views(tokens@).push(current@);
        assert(s@.subrange(0, i + 1).drop_last() =~= s@.subrange(0, i as int));
        if c == ' ' {
            tokens.push(current);
            current = Vec::new();
            assert(views(tokens@).push(current@) =~= before.push(Seq::empty()));
        } else {
            current.push(c);
            assert(views(tokens@).push(current@) =~= before.update(
                before.len() - 1,
                before.last().push(c),
            ));
        }
        i = i + 1;
    }
    assert(s@.subrange(0, n as int) =~= s@);
    tokens.push(current);
    assert(views(tokens@) =~= spec_split(s@));
    tokens
}

/// Whether `t` spells `s`.
fn spells(t: &Vec<char>, s: &str) -> (r: bool)
    ensures
        r == (t@ == s@),
{
    let n = s.unicode_len();
    if t.len() != n {
        return false;
    }
    let mut j: usize = 0;
    while j < n
        invariant
            j <= n,
            n == s@.len(),
            t@.len() == n,
            forall|k: int| 0 <= k < j ==> t@[k] == s@[k],
        decreases n - j,
    {
        if t[j] != s.get_char(j) {
            return false;
        }
        j = j + 1;
    }
    assert(t@ =~= s@);
    true
}

/// The instruction whose mnemonic `t` spells, if any.
fn lookup_mnemonic(t: &Vec<char>) -> (r: Option<InstructionIndex>)
    ensures
        r == spec_lookup(t@),
{
    let mut i: usize = 0;
    while i < INSTRUCTION_COUNT
        invariant
            i <= INSTRUCTION_COUNT,
            spec_lookup(t@) == spec_lookup_from(t@, i as int),
        decreases INSTRUCTION_COUNT - i,
    {
        let k = InstructionIndex::at(i);
        if spells(t, k.name()) {
            return Some(k);
        }
        i = i + 1;
    }
    None
}

proof fn lemma_decimal_prefix_monotone(t: Seq<char>, i: int)
    requires
        0 <= i <= t.len(),
    ensures
        decimal_value(t.subrange(0, i)) <= decimal_value(t),
    decreases t.len() - i,
{
    if i < t.len() {
        lemma_decimal_prefix_monotone(t, i + 1);
        assert(t.subrange(0, i + 1).drop_last() =~= t.subrange(0, i));
    } else {
        assert(t.subrange(0, i) =~= t);
    }
}

/// The value of the digits `t[start..]` where there is at least one, all are digits and
/// the value is at most `bound`.
fn parse_decimal(t: &Vec<char>, start: usize, bound: u64) -> (r: Option<u64>)
    requires
        start <= t@.len(),
        bound < 0x1_0000_0000_0000,
    ensures
        r == (match spec_parse_decimal(t@.subrange(start as int, t@.len() as int), bound as nat) {
            Some(v) => Some(v as u64),
            None => None::<u64>,
        }),
{
    let ghost digits = t@.subrange(start as int, t@.len() as int);
    let n = t.len();
    if start == n {
        return None;
    }
    let mut value: u64 = 0;
    let mut i: usize = start;
    assert(digits.subrange(0, 0) =~= Seq::<char>::empty());
    while i < n
        invariant
            start <= i <= n,
            n == t@.len(),
            digits == t@.subrange(start as int, n as int),
            bound < 0x1_0000_0000_0000,
            value <= bound,
            value == decimal_value(digits.subrange(0, i - start)),
            forall|k: int| 0 <= k < i - start ==> is_digit(#[trigger] digits[k]),
        decreases n - i,
    {
        let c = t[i];
        if !('0' <= c && c <= '9') {
            assert(!is_digit(digits[i - start]));
            return None;
        }
        assert(digits.subrange(0, i - start + 1).drop_last() =~= digits.subrange(0, i - start));
        let next = value * 10 + (c as u64 - '0' as u64);
        if next > bound {
            proof {
                lemma_decimal_prefix_monotone(digits, i - start + 1);
            }
            return None;
        }
        value = next;
        i = i + 1;
    }
    assert(digits.subrange(0, n - start) =~= digits);
    Some(value)
}

/// Reads a register operand `x0` .. `x31`.
fn parse_normalized_register(register: &Vec<char>) -> (r: Option<u32>)
    ensures
        r == spec_parse_register(register@),
{
    if register.len() == 0 || register[0] != 'x' {
        return None;
    }
    assert(register@.subrange(1, register@.len() as int) =~= register@.drop_first());
    match parse_decimal(register, 1, 31) {
        Some(v) => Some(v as u32),
        None => None,
    }
}

/// Reads a signed decimal immediate as its two's-complement bits.
fn parse_immediate(imm: &Vec<char>) -> (r: Option<u32>)
    ensures
        r == spec_parse_immediate(imm@),
{
    if imm.len() > 0 && imm[0] == '-' {
        assert(imm@.subrange(1, imm@.len() as int) =~= imm@.drop_first());
        match parse_decimal(imm, 1, 0x8000_0000) {
            Some(v) => Some(((0x1_0000_0000 - v) % 0x1_0000_0000) as u32),
            None => None,
        }
    } else {
        let start: usize = if imm.len() > 0 && imm[0] == '+' { 1 } else { 0 };
        assert(imm@.subrange(1, imm@.len() as int) =~= imm@.drop_first());
        assert(imm@.subrange(0, imm@.len() as int) =~= imm@);
        match parse_decimal(imm, start, 0x7fff_ffff) {
            Some(v) => Some(v as u32),
            None => None,
        }
    }
}

/// Reads an unsigned decimal number.
fn parse_unsigned(t: &Vec<char>) -> (r: Option<u32>)
    ensures
        r == spec_parse_unsigned(t@),
{
    let start: usize = if t.len() > 0 && t[0] == '+' { 1 } else { 0 };
    assert(t@.subrange(1, t@.len() as int) =~= t@.drop_first());
    assert(t@.subrange(0, t@.len() as int) =~= t@);
    match parse_decimal(t, start, 0xffff_ffff) {
        Some(v) => Some(v as u32),
        None => None,
    }
}

fn parse_operand(kind: OperandKind, t: &Vec<char>) -> (r: Result<u32, AssembleError>)
    ensures
        r == spec_parse_operand(kind, t@),
{
    match kind {
        OperandKind::Register => match parse_normalized_register(t) {
            Some(v) => Ok(v),
            None => Err(AssembleError::BadRegister),
        },
        OperandKind::Immediate => match parse_immediate(t) {
            Some(v) => Ok(v),
            None => Err(AssembleError::BadImmediate),
        },
        OperandKind::Unsigned => match parse_unsigned(t) {
            Some(v) => Ok(v),
            None => Err(AssembleError::BadImmediate),
        },
    }
}

pub(crate) fn kind_of_operand(f: Format, i: usize) -> (r: OperandKind)
    ensures
        r == operand_kind(f, i as int),
{
    match f {
        Format::R => OperandKind::Register,
        Format::U | Format::J => if i < 1 {
            OperandKind::Register
        } else {
            OperandKind::Immediate
        },
        Format::Fence => if i < 2 {
            OperandKind::Register
        } else {
            OperandKind::Unsigned
        },
        _ => if i < 2 {
            OperandKind::Register
        } else {
            OperandKind::Immediate
        },
    }
}

/// Parses the operand tokens `tokens[1..]` of an instruction in format `f`.
fn parse_operands(f: Format, tokens: &Vec<Vec<char>>) -> (r: Result<Vec<u32>, AssembleError>)
    requires
        tokens@.len() >= 1,
    ensures
        match spec_parse_operands_from(f, views(tokens@).drop_first(), 0) {
            Ok(values) => r is Ok && r->Ok_0@ == values,
            Err(e) => r == Err::<Vec<u32>, AssembleError>(e),
        },
{
    let ghost ops = views(tokens@).drop_first();
    let mut values: Vec<u32> = Vec::new();
    let mut i: usize = 1;
    while i < tokens.len()
        invariant
            1 <= i <= tokens@.len(),
            ops == views(tokens@).drop_first(),
            spec_parse_operands_from(f, ops, 0) == (match spec_parse_operands_from(
                f,
                ops,
                i - 1,
            ) {
                Err(e) => Err(e),
                Ok(rest) => Ok(values@ + rest),
            }),
        decreases tokens@.len() - i,
    {
        assert(ops[i - 1] == tokens@[i as int]@);
        match parse_operand(kind_of_operand(f, i - 1), &tokens[i]) {
            Err(e) => {
                return Err(e);
            },
            Ok(v) => {
                let ghost old_values = values@;
                values.push(v);
                assert(forall|rest: Seq<u32>|
                    old_values + (seq![v] + rest) =~= #[trigger] (values@ + rest));
            },
        }
        i = i + 1;
    }
    assert(values@ + Seq::<u32>::empty() =~= values@);
    Ok(values)
}

/// Assembles one instruction in normalized assembly form: a lowercase mnemonic and its
/// operands separated by single spaces, registers written `x<N>`, immediates in decimal, no
/// commas and no labels; for example `addi x1 x2 134`, but not `xor a3, a5, x8` nor
/// `add s0 t1   t2`. Stores name the stored register first (`sb x11 x12 9`).
pub fn assemble_normalized(instruction: &str) -> (r: Result<u32, AssembleError>)
    ensures
        r == spec_assemble_normalized(instruction@),
{
    let tokens = split_spaces(instruction);
    assert(views(tokens@)[0] == tokens@[0]@);
    let k = match lookup_mnemonic(&tokens[0]) {
        Some(k) => k,
        None => {
            return Err(AssembleError::UnknownMnemonic);
        },
    };
    let (format, _, _, _) = k.encoding();
    if tokens.len() - 1 != operand_count(format) {
        return Err(AssembleError::WrongOperandCount);
    }
    match parse_operands(format, &tokens) {
        Err(e) => Err(e),
        Ok(values) => Instruction::of(k).assemble(values.as_slice()),
    }
}

/// The number of operands of a format in normalized text.
pub(crate) fn operand_count(f: Format) -> (r: usize)
    ensures
        forall|k: InstructionIndex| spec_format(k) == f ==> r == spec_arity(k),
{
    match f {
        Format::R | Format::I | Format::S | Format::B | Format::Shift => 3,
        Format::U | Format::J => 2,
        Format::Fence => 5,
        Format::Fixed | Format::Undefined => 0,
    }
}

/// Assembles each line in order; the first line that fails aborts the whole program.
pub fn assemble_program(program: Vec<&str>) -> (r: Result<Vec<u32>, AssembleError>)
    ensures
        match spec_assemble_program(program@.map_values(|s: &str| s@)) {
            Ok(words) => r is Ok && r->Ok_0@ == words,
            Err(e) => r == Err::<Vec<u32>, AssembleError>(e),
        },
{
    let ghost lines = program@.map_values(|s: &str| s@);
    let mut words: Vec<u32> = Vec::new();
    let mut i: usize = 0;
    assert(lines.subrange(0, lines.len() as int) =~= lines);
    assert(forall|rest: Seq<u32>| #[trigger] (words@ + rest) =~= rest);
    while i < program.len()
        invariant
            i <= program@.len(),
            lines == program@.map_values(|s: &str| s@),
            spec_assemble_program(lines) == (match spec_assemble_program(
                lines.subrange(i as int, lines.len() as int),
            ) {
                Err(e) => Err(e),
                Ok(rest) => Ok(words@ + rest),
            }),
        decreases program@.len() - i,
    {
        let ghost tail = lines.subrange(i as int, lines.len() as int);
        assert(tail.drop_first() =~= lines.subrange(i + 1, lines.len() as int));
        assert(tail[0] == program@[i as int]@);
        match assemble_normalized(program[i]) {
            Err(e) => {
                return Err(e);
            },
            Ok(w) => {
                let ghost old_words = words@;
                words.push(w);
                assert(forall|rest: Seq<u32>|
                    old_words + (seq![w] + rest) =~= #[trigger] (words@ + rest));
            },
        }
        i = i + 1;
    }
    assert(lines.subrange(i as int, lines.len() as int) =~= Seq::<Seq<char>>::empty());
    assert(words@ + Seq::<u32>::empty() =~= words@);
    assert(lines =~= lines.subrange(0, lines.len() as int));
    Ok(words)
}

proof fn lemma_parse_operands_len(f: Format, ops: Seq<Seq<char>>, i: int)
    requires
        0 <= i <= ops.len(),
        spec_parse_operands_from(f, ops, i) is Ok,
    ensures
        spec_parse_operands_from(f, ops, i)->Ok_0.len() == ops.len() - i,
    decreases ops.len() - i,
{
    if i < ops.len() {
        lemma_parse_operands_len(f, ops, i + 1);
    }
}

/// A line of text that assembles gives a word that decodes to the instruction its mnemonic
/// names, for every instruction that the decoder recognises.
pub proof fn lemma_assembled_text_decodes(s: Seq<char>)
    requires
        spec_assemble_normalized(s) is Ok,
    ensures
        spec_lookup(spec_split(s)[0]) is Some,
        decodable(spec_lookup(spec_split(s)[0])->Some_0) ==> spec_decode(
            spec_assemble_normalized(s)->Ok_0,
        ) == spec_lookup(spec_split(s)[0])->Some_0,
{
    let tokens = spec_split(s);
    let k = spec_lookup(tokens[0])->Some_0;
    let ops = tokens.drop_first();
    lemma_parse_operands_len(spec_format(k), ops, 0);
    let values = spec_parse_operands_from(spec_format(k), ops, 0)->Ok_0;
    if k != InstructionIndex::UNDEF {
        lemma_round_trip(k, values);
    }
}

proof fn lemma_kind_at_index(i: int)
    requires
        0 <= i < INSTRUCTION_COUNT,
    ensures
        spec_kind_at(i) != InstructionIndex::UNDEF,
        spec_index_of(spec_kind_at(i)) == i,
{
}

proof fn lemma_lookup_from_name(k: InstructionIndex, i: int)
    requires
        k != InstructionIndex::UNDEF,
        0 <= i <= spec_index_of(k),
    ensures
        spec_lookup_from(spec_name(k), i) == Some(k),
    decreases spec_index_of(k) - i,
{
    lemma_names_distinct(k);
    if i < spec_index_of(k) {
        lemma_kind_at_index(i);
        let other = spec_kind_at(i);
        lemma_names_distinct(other);
        assert(spec_name(other) != spec_name(k));
        lemma_lookup_from_name(k, i + 1);
    }
}

/// The mnemonic of every instruction leads the lookup back to that instruction.
pub proof fn lemma_lookup_name(k: InstructionIndex)
    requires
        k != InstructionIndex::UNDEF,
    ensures
        spec_lookup(spec_name(k)) == Some(k),
{
    lemma_lookup_from_name(k, 0);
}

} // verus!
