//! Line parser of the assembler front end: one textual line becomes either
//! an `Instruction` descriptor or a typed parse error. The grammar is small:
//! a mnemonic, then comma-separated operands; a register token is a single
//! letter `x` or `t` followed by a decimal index, and an immediate is an
//! optional `-` followed by decimal digits.
//!
//! The grammar is ASCII: only ASCII whitespace is trimmed and only ASCII
//! letters and digits form tokens. A character of any other script is not
//! a letter to this grammar, so it ends the token it would otherwise join.

use vstd::prelude::*;

verus! {

/// A register operand of an assembled instruction.
#[derive(Clone, Copy, Debug)]
pub struct Register(pub u8);

/// An immediate operand of an assembled instruction.
#[derive(Clone, Copy, Debug)]
pub struct Immediate(pub i32);

/// Operation of an assembled instruction. The assembler is an early sketch:
/// it knows one mnemonic.
#[derive(Clone, Copy, Debug)]
pub enum AsmOpcode {
    LoadImmediate { destination: Register, value: Immediate },
}

/// What the assembler produces for one line.
#[derive(Clone, Copy, Debug)]
pub struct Instruction {
    pub energy_cost: u32,
    pub opcode: AsmOpcode,
}

/// Kind of operand a mnemonic expects at one position.
#[derive(Clone, Copy, Debug)]
pub enum Operand {
    Immediate,
    Register,
}

/// One parsed operand.
#[derive(Clone, Copy, Debug)]
pub enum ParsedValue {
    Immediate(Immediate),
    Register(Register),
}

/// A typed parse error. The payloads carry the offending text.
#[derive(Debug)]
pub enum AssemblerError {
    EmptyLine,
    UnknownOpcode(String),
    OperandMismatch { expected: usize, found: usize },
    InvalidRegister(String),
    InvalidImmediate(String),
    General(String),
}

/// The mathematical image of a parse error: the same kinds, with each text
/// payload abstracted to its character sequence. The parsing functions'
/// contracts speak of this image.
pub enum ErrorModel {
    EmptyLine,
    UnknownOpcode(Seq<char>),
    OperandMismatch { expected: int, found: int },
    InvalidRegister(Seq<char>),
    InvalidImmediate(Seq<char>),
    General(Seq<char>),
}

impl AssemblerError {
    /// The error's mathematical image.
    pub open spec fn model(&self) -> ErrorModel {
        match self {
            AssemblerError::EmptyLine => ErrorModel::EmptyLine,
            AssemblerError::UnknownOpcode(w) => ErrorModel::UnknownOpcode(w@),
            AssemblerError::OperandMismatch { expected, found } => ErrorModel::OperandMismatch {
                expected: *expected as int,
                found: *found as int,
            },
            AssemblerError::InvalidRegister(w) => ErrorModel::InvalidRegister(w@),
            AssemblerError::InvalidImmediate(w) => ErrorModel::InvalidImmediate(w@),
            AssemblerError::General(w) => ErrorModel::General(w@),
        }
    }
}

/// ASCII whitespace, as skipped at the start of a token.
pub open spec fn is_space_char(c: char) -> bool {
    c == ' ' || c == '\t' || c == '\n' || c == '\r'
}

/// An ASCII letter.
pub open spec fn is_alpha_char(c: char) -> bool {
    (97 <= c as u32 && c as u32 <= 122) || (65 <= c as u32 && c as u32 <= 90)
}

/// An ASCII decimal digit.
pub open spec fn is_digit_char(c: char) -> bool {
    48 <= c as u32 && c as u32 <= 57
}

/// A character an immediate token is collected from: a digit or a minus.
pub open spec fn is_imm_char(c: char) -> bool {
    is_digit_char(c) || c == '-'
}

/// First position at or after `i` holding no whitespace.
pub open spec fn space_end(s: Seq<char>, i: int) -> int
    decreases s.len() - i,
{
    if i < 0 || i >= s.len() {
        i
    } else if is_space_char(s[i]) {
        space_end(s, i + 1)
    } else {
        i
    }
}

/// First position at or after `i` holding no letter.
pub open spec fn alpha_end(s: Seq<char>, i: int) -> int
    decreases s.len() - i,
{
    if i < 0 || i >= s.len() {
        i
    } else if is_alpha_char(s[i]) {
        alpha_end(s, i + 1)
    } else {
        i
    }
}

/// First position at or after `i` holding no digit.
pub open spec fn digit_end(s: Seq<char>, i: int) -> int
    decreases s.len() - i,
{
    if i < 0 || i >= s.len() {
        i
    } else if is_digit_char(s[i]) {
        digit_end(s, i + 1)
    } else {
        i
    }
}

/// First position at or after `i` holding neither a digit nor a minus.
pub open spec fn imm_end(s: Seq<char>, i: int) -> int
    decreases s.len() - i,
{
    if i < 0 || i >= s.len() {
        i
    } else if is_imm_char(s[i]) {
        imm_end(s, i + 1)
    } else {
        i
    }
}

/// Numeric value of a digit character.
pub open spec fn digit_of(c: char) -> int {
    c as u32 - 48
}

/// Every character of `s[i..j]` is a decimal digit.
pub open spec fn all_digits(s: Seq<char>, i: int, j: int) -> bool {
    forall|k: int| i <= k < j ==> #[trigger] is_digit_char(s[k])
}

/// Value of the decimal digit string `s[i..j]`.
pub open spec fn digits_val(s: Seq<char>, i: int, j: int) -> int
    decreases j - i,
{
    if j <= i {
        0
    } else {
        digits_val(s, i, j - 1) * 10 + digit_of(s[j - 1])
    }
}

/// A digit string has a non-negative value.
proof fn lemma_digits_val_nonneg(s: Seq<char>, i: int, j: int)
    requires
        all_digits(s, i, j),
    ensures
        digits_val(s, i, j) >= 0,
    decreases j - i,
{
    if j > i {
        lemma_digits_val_nonneg(s, i, j - 1);
        assert(is_digit_char(s[j - 1]));
    }
}

/// Extending a digit string can only grow its value.
proof fn lemma_digits_val_mono(s: Seq<char>, i: int, k: int, j: int)
    requires
        i <= k <= j,
        all_digits(s, i, j),
    ensures
        digits_val(s, i, j) >= digits_val(s, i, k),
    decreases j - k,
{
    lemma_digits_val_nonneg(s, i, k);
    if j > k {
        lemma_digits_val_mono(s, i, k, j - 1);
        lemma_digits_val_nonneg(s, i, j - 1);
        assert(is_digit_char(s[j - 1]));
    }
}

/// What a signed 32-bit decimal token `s[i..j]` denotes: an optional
/// leading minus followed by at least one digit, with the value within the
/// 32-bit signed range; anything else denotes nothing.
pub open spec fn imm_value(s: Seq<char>, i: int, j: int) -> Option<i32> {
    if j <= i {
        None
    } else if s[i] == '-' {
        if j <= i + 1 {
            None
        } else if !all_digits(s, i + 1, j) {
            None
        } else if digits_val(s, i + 1, j) > 0x8000_0000 {
            None
        } else {
            Some((-digits_val(s, i + 1, j)) as i32)
        }
    } else {
        if !all_digits(s, i, j) {
            None
        } else if digits_val(s, i, j) > 0x7fff_ffff {
            None
        } else {
            Some(digits_val(s, i, j) as i32)
        }
    }
}

/// What `parse_immediate` returns for a line: the line is trimmed of
/// leading whitespace, the token of digits and minuses is collected, and
/// the token's value is taken. An empty token faults with the whole
/// trimmed remainder as payload; a malformed or out-of-range token faults
/// with the token.
pub open spec fn spec_parse_immediate(s: Seq<char>) -> Result<i32, ErrorModel> {
    let t = space_end(s, 0);
    let e = imm_end(s, t);
    if e == t {
        Err(ErrorModel::InvalidImmediate(s.subrange(t, s.len() as int)))
    } else {
        match imm_value(s, t, e) {
            Some(v) => Ok(v),
            None => Err(ErrorModel::InvalidImmediate(s.subrange(t, e))),
        }
    }
}

/// What `parse_register` returns for a line: after trimming, a single
/// letter must be followed by at least one digit; the digits must denote
/// at most 255 and the letter must be `x` or `t`. The error payload is the
/// trimmed remainder, except that a missing index faults with an empty
/// payload.
pub open spec fn spec_parse_register(s: Seq<char>) -> Result<u8, ErrorModel> {
    let t = space_end(s, 0);
    let a = alpha_end(s, t);
    if a != t + 1 {
        Err(ErrorModel::InvalidRegister(s.subrange(t, s.len() as int)))
    } else {
        let d = digit_end(s, t + 1);
        if d == t + 1 {
            Err(ErrorModel::InvalidRegister(Seq::empty()))
        } else if digits_val(s, t + 1, d) > 255 {
            Err(ErrorModel::InvalidRegister(s.subrange(t, s.len() as int)))
        } else if s[t] == 'x' || s[t] == 't' {
            Ok(digits_val(s, t + 1, d) as u8)
        } else {
            Err(ErrorModel::InvalidRegister(s.subrange(t, s.len() as int)))
        }
    }
}

/// Position of the first non-whitespace character at or after `from`.
fn scan_spaces(line: &str, n: usize, from: usize) -> (r: usize)
    requires
        n as nat == line@.len(),
        from <= n,
    ensures
        from <= r <= n,
        r == space_end(line@, from as int),
{
    let mut i = from;
    while i < n
        invariant
            from <= i <= n,
            n as nat == line@.len(),
            space_end(line@, from as int) == space_end(line@, i as int),
        decreases n - i,
    {
        let c = line.get_char(i);
        if !(c == ' ' || c == '\t' || c == '\n' || c == '\r') {
            return i;
        }
        i = i + 1;
    }
    i
}

/// Position of the first non-letter at or after `from`.
fn scan_alpha(line: &str, n: usize, from: usize) -> (r: usize)
    requires
        n as nat == line@.len(),
        from <= n,
    ensures
        from <= r <= n,
        r == alpha_end(line@, from as int),
{
    let mut i = from;
    while i < n
        invariant
            from <= i <= n,
            n as nat == line@.len(),
            alpha_end(line@, from as int) == alpha_end(line@, i as int),
        decreases n - i,
    {
        let c = line.get_char(i);
        let u = c as u32;
        if !((u >= 97 && u <= 122) || (u >= 65 && u <= 90)) {
            return i;
        }
        i = i + 1;
    }
    i
}

/// Position of the first non-digit at or after `from`.
fn scan_digits(line: &str, n: usize, from: usize) -> (r: usize)
    requires
        n as nat == line@.len(),
        from <= n,
    ensures
        from <= r <= n,
        r == digit_end(line@, from as int),
{
    let mut i = from;
    while i < n
        invariant
            from <= i <= n,
            n as nat == line@.len(),
            digit_end(line@, from as int) == digit_end(line@, i as int),
        decreases n - i,
    {
        let c = line.get_char(i);
        let u = c as u32;
        if !(u >= 48 && u <= 57) {
            return i;
        }
        i = i + 1;
    }
    i
}

/// Position of the first character at or after `from` that is neither a
/// digit nor a minus.
fn scan_imm_chars(line: &str, n: usize, from: usize) -> (r: usize)
    requires
        n as nat == line@.len(),
        from <= n,
    ensures
        from <= r <= n,
        r == imm_end(line@, from as int),
{
    let mut i = from;
    while i < n
        invariant
            from <= i <= n,
            n as nat == line@.len(),
            imm_end(line@, from as int) == imm_end(line@, i as int),
        decreases n - i,
    {
        let c = line.get_char(i);
        let u = c as u32;
        if !((u >= 48 && u <= 57) || c == '-') {
            return i;
        }
        i = i + 1;
    }
    i
}

/// Accumulate the value of the digit run `line[from..to]`, rejecting
/// non-digits and any value above `bound`. Returns the value, or `None`
/// for a malformed or too-large run; `None` is returned exactly when the
/// run is not all digits or its value exceeds `bound`.
fn accumulate_digits(line: &str, from: usize, to: usize, bound: i64) -> (r: Option<i64>)
    requires
        to as nat <= line@.len(),
        from <= to,
        0 < bound <= 0x8000_0000,
    ensures
        match r {
            Some(v) => all_digits(line@, from as int, to as int) && v == digits_val(
                line@,
                from as int,
                to as int,
            ) && 0 <= v <= bound,
            None => !(all_digits(line@, from as int, to as int) && digits_val(
                line@,
                from as int,
                to as int,
            ) <= bound),
        },
{
    let mut acc: i64 = 0;
    let mut k = from;
    while k < to
        invariant
            from <= k <= to,
            to as nat <= line@.len(),
            0 < bound <= 0x8000_0000,
            all_digits(line@, from as int, k as int),
            acc == digits_val(line@, from as int, k as int),
            0 <= acc <= bound,
        decreases to - k,
    {
        let c = line.get_char(k);
        let u = c as u32;
        if !(u >= 48 && u <= 57) {
            proof {
                assert(!is_digit_char(line@[k as int]));
            }
            return None;
        }
        acc = acc * 10 + ((u - 48) as i64);
        k = k + 1;
        if acc > bound {
            proof {
                if all_digits(line@, from as int, to as int) {
                    lemma_digits_val_mono(line@, from as int, k as int, to as int);
                }
            }
            return None;
        }
    }
    Some(acc)
}

/// Parse a decimal immediate: optional leading whitespace, then an
/// optional minus and decimal digits. Exactly the tokens whose value fits
/// a signed 32-bit integer parse; everything else is an
/// `InvalidImmediate` fault carrying the offending text.
pub fn parse_immediate(line: &str) -> (r: Result<Immediate, AssemblerError>)
    ensures
        match r {
            Ok(imm) => spec_parse_immediate(line@) == Ok::<i32, ErrorModel>(imm.0),
            Err(e) => spec_parse_immediate(line@) == Err::<i32, ErrorModel>(e.model()),
        },
{
    let n = line.unicode_len();
    let t = scan_spaces(line, n, 0);
    let e = scan_imm_chars(line, n, t);

    if e == t {
        return Err(AssemblerError::InvalidImmediate(line.substring_char(t, n).to_owned()));
    }
    let negative = line.get_char(t) == '-';
    let start = if negative {
        t + 1
    } else {
        t
    };
    if start == e {
        // the token is a lone minus
        return Err(AssemblerError::InvalidImmediate(line.substring_char(t, e).to_owned()));
    }
    let bound: i64 = if negative {
        0x8000_0000
    } else {
        0x7fff_ffff
    };
    match accumulate_digits(line, start, e, bound) {
        None => Err(AssemblerError::InvalidImmediate(line.substring_char(t, e).to_owned())),
        Some(v) => {
            let value = if negative {
                (-v) as i32
            } else {
                v as i32
            };
            Ok(Immediate(value))
        },
    }
}

/// Parse a register token: optional leading whitespace, one letter, then a
/// decimal index. Exactly the tokens whose letter is `x` or `t` and whose
/// index fits eight bits parse; everything else is an `InvalidRegister`
/// fault.
pub fn parse_register(line: &str) -> (r: Result<Register, AssemblerError>)
    ensures
        match r {
            Ok(reg) => spec_parse_register(line@) == Ok::<u8, ErrorModel>(reg.0),
            Err(e) => spec_parse_register(line@) == Err::<u8, ErrorModel>(e.model()),
        },
{
    let n = line.unicode_len();
    let t = scan_spaces(line, n, 0);
    let a = scan_alpha(line, n, t);

    if a - t != 1 {
        return Err(AssemblerError::InvalidRegister(line.substring_char(t, n).to_owned()));
    }
    let d = scan_digits(line, n, a);
    if d == a {
        proof {
            assert(line@.subrange(d as int, d as int) =~= Seq::<char>::empty());
        }
        return Err(AssemblerError::InvalidRegister(line.substring_char(d, d).to_owned()));
    }
    match accumulate_digits(line, a, d, 255) {
        None => {
            proof {
                lemma_digits_all_digits(line@, a as int, d as int);
            }
            Err(AssemblerError::InvalidRegister(line.substring_char(t, n).to_owned()))
        },
        Some(v) => {
            let c = line.get_char(t);
            if c == 'x' || c == 't' {
                Ok(Register(v as u8))
            } else {
                Err(AssemblerError::InvalidRegister(line.substring_char(t, n).to_owned()))
            }
        },
    }
}

/// Everything a digit scan ran over is a digit.
proof fn lemma_digits_all_digits(s: Seq<char>, i: int, j: int)
    requires
        0 <= i,
        j == digit_end(s, i),
    ensures
        all_digits(s, i, j),
    decreases s.len() - i,
{
    if i < s.len() && is_digit_char(s[i]) {
        lemma_digits_all_digits(s, i + 1, j);
    }
}

/// First position at or after `i` holding a comma, or the end.
pub open spec fn comma_end(s: Seq<char>, i: int) -> int
    decreases s.len() - i,
{
    if i < 0 || i >= s.len() {
        i
    } else if s[i] != ',' {
        comma_end(s, i + 1)
    } else {
        i
    }
}

/// A comma scan never moves backward.
proof fn lemma_comma_end_ge(s: Seq<char>, i: int)
    ensures
        comma_end(s, i) >= i,
    decreases s.len() - i,
{
    if 0 <= i < s.len() && s[i] != ',' {
        lemma_comma_end_ge(s, i + 1);
    }
}

/// The comma-separated pieces of `s[from..]`, commas removed: one piece
/// more than there are commas, so a remainder without commas is a single
/// piece and a trailing comma yields a trailing empty piece.
pub open spec fn split_commas(s: Seq<char>, from: int) -> Seq<Seq<char>>
    decreases s.len() - from,
    via split_commas_decreases
{
    let e = comma_end(s, from);
    if from < 0 || e >= s.len() {
        seq![s.subrange(from, e)]
    } else {
        seq![s.subrange(from, e)] + split_commas(s, e + 1)
    }
}

#[via_fn]
proof fn split_commas_decreases(s: Seq<char>, from: int) {
    lemma_comma_end_ge(s, from);
}

/// What one operand position yields: the part parsed as the kind the
/// pattern asks for.
pub open spec fn spec_parse_one(pattern: Operand, part: Seq<char>) -> Result<
    ParsedValue,
    ErrorModel,
> {
    match pattern {
        Operand::Immediate => match spec_parse_immediate(part) {
            Ok(v) => Ok(ParsedValue::Immediate(Immediate(v))),
            Err(e) => Err(e),
        },
        Operand::Register => match spec_parse_register(part) {
            Ok(r) => Ok(ParsedValue::Register(Register(r))),
            Err(e) => Err(e),
        },
    }
}

/// What the operand positions from `i` onward yield: the parsed values in
/// order, or the first error.
pub open spec fn spec_parse_operands_from(
    patterns: Seq<Operand>,
    parts: Seq<Seq<char>>,
    i: int,
) -> Result<Seq<ParsedValue>, ErrorModel>
    decreases patterns.len() - i,
{
    if i < 0 || i >= patterns.len() {
        Ok(Seq::empty())
    } else {
        match spec_parse_one(patterns[i], parts[i]) {
            Err(e) => Err(e),
            Ok(v) => match spec_parse_operands_from(patterns, parts, i + 1) {
                Err(e) => Err(e),
                Ok(rest) => Ok(seq![v] + rest),
            },
        }
    }
}

/// What `parse_operands` returns: a count mismatch faults at once, else
/// each part is parsed as its pattern asks, and the first error wins.
pub open spec fn spec_parse_operands(patterns: Seq<Operand>, parts: Seq<Seq<char>>) -> Result<
    Seq<ParsedValue>,
    ErrorModel,
> {
    if patterns.len() != parts.len() {
        Err(ErrorModel::OperandMismatch { expected: patterns.len() as int, found: parts.len() as int })
    } else {
        spec_parse_operands_from(patterns, parts, 0)
    }
}

/// Position of the first comma at or after `from`, or the end.
fn scan_comma(line: &str, n: usize, from: usize) -> (r: usize)
    requires
        n as nat == line@.len(),
        from <= n,
    ensures
        from <= r <= n,
        r == comma_end(line@, from as int),
{
    let mut i = from;
    while i < n
        invariant
            from <= i <= n,
            n as nat == line@.len(),
            comma_end(line@, from as int) == comma_end(line@, i as int),
        decreases n - i,
    {
        let c = line.get_char(i);
        if c == ',' {
            return i;
        }
        i = i + 1;
    }
    i
}

/// Split `line[from..]` at commas into borrowed pieces; realizes
/// `split_commas`.
fn split_commas_exec<'a>(line: &'a str, n: usize, from: usize) -> (parts: Vec<&'a str>)
    requires
        n as nat == line@.len(),
        from <= n,
    ensures
        parts.deep_view() == split_commas(line@, from as int),
{
    let mut parts: Vec<&str> = Vec::new();
    let mut cur = from;
    proof {
        assert(Seq::<Seq<char>>::empty() + split_commas(line@, from as int) =~= split_commas(
            line@,
            from as int,
        ));
    }
    loop
        invariant_except_break
            split_commas(line@, from as int) =~= parts.deep_view() + split_commas(
                line@,
                cur as int,
            ),
        invariant
            from <= cur <= n,
            n as nat == line@.len(),
        ensures
            parts.deep_view() =~= split_commas(line@, from as int),
        decreases n - cur,
    {
        let ghost old_dv = parts.deep_view();
        let e = scan_comma(line, n, cur);
        let piece = line.substring_char(cur, e);
        parts.push(piece);
        proof {
            assert(parts.deep_view() =~= old_dv + seq![piece@]);
        }
        if e >= n {
            proof {
                assert(split_commas(line@, cur as int) =~= seq![line@.subrange(cur as int, e as int)]);
                assert(parts.deep_view() + Seq::<Seq<char>>::empty() =~= parts.deep_view());
            }
            break;
        }
        proof {
            assert(split_commas(line@, cur as int) =~= seq![line@.subrange(cur as int, e as int)]
                + split_commas(line@, e + 1));
            assert(old_dv + split_commas(line@, cur as int) =~= (old_dv + seq![piece@])
                + split_commas(line@, e + 1));
        }
        cur = e + 1;
    }
    parts
}

/// Parse the operand parts of a line against the kinds a mnemonic
/// expects: a count mismatch faults at once, else each part is parsed in
/// order and the first error wins.
pub fn parse_operands(patterns: Vec<Operand>, parts: &Vec<&str>) -> (r: Result<
    Vec<ParsedValue>,
    AssemblerError,
>)
    ensures
        match r {
            Ok(vs) => spec_parse_operands(patterns@, parts.deep_view()) == Ok::<
                Seq<ParsedValue>,
                ErrorModel,
            >(vs@),
            Err(e) => spec_parse_operands(patterns@, parts.deep_view()) == Err::<
                Seq<ParsedValue>,
                ErrorModel,
            >(e.model()),
        },
{
    if patterns.len() != parts.len() {
        return Err(
            AssemblerError::OperandMismatch { expected: patterns.len(), found: parts.len() },
        );
    }
    let ghost parts_dv = parts.deep_view();

    let mut results: Vec<ParsedValue> = Vec::new();
    let mut i: usize = 0;
    while i < patterns.len()
        invariant
            i <= patterns@.len(),
            patterns@.len() == parts_dv.len(),
            parts_dv == parts.deep_view(),
            parts@.len() == parts_dv.len(),
            spec_parse_operands_from(patterns@, parts_dv, 0) == (match spec_parse_operands_from(
                patterns@,
                parts_dv,
                i as int,
            ) {
                Ok(rest) => Ok::<Seq<ParsedValue>, ErrorModel>(results@ + rest),
                Err(e) => Err::<Seq<ParsedValue>, ErrorModel>(e),
            }),
        decreases patterns@.len() - i,
    {
        let part: &str = parts[i];
        proof {
            assert(parts_dv[i as int] == part@);
        }
        let ghost old_results = results@;
        let parsed = match patterns[i] {
            Operand::Immediate => {
                match parse_immediate(part) {
                    Ok(v) => ParsedValue::Immediate(v),
                    Err(e) => {
                        return Err(e);
                    },
                }
            },
            Operand::Register => {
                match parse_register(part) {
                    Ok(v) => ParsedValue::Register(v),
                    Err(e) => {
                        return Err(e);
                    },
                }
            },
        };
        results.push(parsed);
        i = i + 1;
        proof {
            match spec_parse_operands_from(patterns@, parts_dv, i as int) {
                Ok(rest) => {
                    assert(old_results + (seq![parsed] + rest) =~= results@ + rest);
                },
                Err(_) => {},
            }
        }
    }
    proof {
        assert(results@ + Seq::<ParsedValue>::empty() =~= results@);
    }
    Ok(results)
}

/// What `parse_line` returns: after trimming, an empty mnemonic is an
/// `EmptyLine` fault; the mnemonic `li` takes a register and an immediate
/// from the comma-separated remainder and yields its instruction; any
/// other mnemonic is an `UnknownOpcode` fault carrying the mnemonic.
pub open spec fn spec_parse_line(s: Seq<char>) -> Result<Instruction, ErrorModel> {
    let t = space_end(s, 0);
    let a = alpha_end(s, t);
    if a == t {
        Err(ErrorModel::EmptyLine)
    } else if a - t == 2 && s[t] == 'l' && s[t + 1] == 'i' {
        let parts = split_commas(s, a);
        if parts.len() != 2 {
            Err(ErrorModel::OperandMismatch { expected: 2, found: parts.len() as int })
        } else {
            match spec_parse_register(parts[0]) {
                Err(e) => Err(e),
                Ok(r) => match spec_parse_immediate(parts[1]) {
                    Err(e) => Err(e),
                    Ok(v) => Ok(
                        Instruction {
                            energy_cost: 0,
                            opcode: AsmOpcode::LoadImmediate {
                                destination: Register(r),
                                value: Immediate(v),
                            },
                        },
                    ),
                },
            }
        }
    } else {
        Err(ErrorModel::UnknownOpcode(s.subrange(t, a)))
    }
}

/// Parse one assembler line into an instruction descriptor or a typed
/// error; realizes `spec_parse_line`.
pub fn parse_line(line: &str) -> (r: Result<Instruction, AssemblerError>)
    ensures
        match r {
            Ok(inst) => spec_parse_line(line@) == Ok::<Instruction, ErrorModel>(inst),
            Err(e) => spec_parse_line(line@) == Err::<Instruction, ErrorModel>(e.model()),
        },
{
    let n = line.unicode_len();
    let t = scan_spaces(line, n, 0);
    let a = scan_alpha(line, n, t);
    if a == t {
        return Err(AssemblerError::EmptyLine);
    }
    let is_li = a - t == 2 && line.get_char(t) == 'l' && line.get_char(t + 1) == 'i';
    if !is_li {
        return Err(AssemblerError::UnknownOpcode(line.substring_char(t, a).to_owned()));
    }

    let parts = split_commas_exec(line, n, a);
    let ghost parts_dv = parts.deep_view();

    let mut patterns: Vec<Operand> = Vec::new();
    patterns.push(Operand::Register);
    patterns.push(Operand::Immediate);
    let ghost pats = patterns@;
    proof {
        assert(pats =~= seq![Operand::Register, Operand::Immediate]);
        assert(pats.len() == 2 && pats[0] == Operand::Register && pats[1] == Operand::Immediate);
    }

    match parse_operands(patterns, &parts) {
        Err(e) => {
            proof {
                if parts_dv.len() == 2 {
                    assert(spec_parse_operands_from(pats, parts_dv, 0) == spec_parse_operands(
                        pats,
                        parts_dv,
                    ));
                }
            }
            Err(e)
        },
        Ok(results) => {
            proof {
                let r0 = spec_parse_one(pats[0], parts_dv[0]);
                let r1 = spec_parse_one(pats[1], parts_dv[1]);
                assert(spec_parse_operands_from(pats, parts_dv, 2) == Ok::<
                    Seq<ParsedValue>,
                    ErrorModel,
                >(Seq::empty()));
                if r1 is Err {
                    assert(spec_parse_operands_from(pats, parts_dv, 1) is Err);
                    assert(spec_parse_operands_from(pats, parts_dv, 0) is Err);
                }
                let v1 = r1->Ok_0;
                assert(spec_parse_operands_from(pats, parts_dv, 1) == Ok::<
                    Seq<ParsedValue>,
                    ErrorModel,
                >(seq![v1] + Seq::<ParsedValue>::empty()));
                if r0 is Err {
                    assert(spec_parse_operands_from(pats, parts_dv, 0) is Err);
                }
                let v0 = r0->Ok_0;
                assert(spec_parse_operands_from(pats, parts_dv, 0) == Ok::<
                    Seq<ParsedValue>,
                    ErrorModel,
                >(seq![v0] + (seq![v1] + Seq::<ParsedValue>::empty())));
                assert(results@ == seq![v0] + (seq![v1] + Seq::<ParsedValue>::empty()));
                assert(results@.len() == 2 && results@[0] == v0 && results@[1] == v1);
                assert(v0 is Register && v1 is Immediate);
            }
            let destination = match results[0] {
                ParsedValue::Register(r) => r,
                _ => unreached(),
            };
            let value = match results[1] {
                ParsedValue::Immediate(v) => v,
                _ => unreached(),
            };
            Ok(
                Instruction {
                    energy_cost: 0,
                    opcode: AsmOpcode::LoadImmediate { destination, value },
                },
            )
        },
    }
}

} // verus!
