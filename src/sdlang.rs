//! Position-aware parse errors and the scalar tokens they are reported for.
use crate::package_spec::{chars_of, digit, is_digit, is_letter, letter};
use vstd::prelude::*;

verus! {

/// The step of the grammar engine that failed.
#[derive(Debug, Clone, Copy, PartialEq, Eq, Structural)]
pub enum ErrorKind {
    /// A literal text was expected.
    Tag,
    /// At least one character of a class was expected.
    TakeWhile1,
    /// At least one digit was expected.
    Digit,
    /// None of several alternatives matched.
    Alt,
    /// At least one repetition was expected.
    Many1,
    /// A check on a recognised token failed.
    Verify,
}

/// Why a parse step failed.
#[derive(Debug, Clone, Copy, PartialEq, Eq, Structural)]
pub enum ParseCause {
    /// A failure of the grammar engine itself.
    Grammar(ErrorKind),
    /// A particular character was expected.
    Char(char),
    /// The token was well formed but could not be converted to its value.
    Conversion,
    /// An identifier was expected and the input ended.
    AbsentIdentifier,
    /// An identifier was expected and the character found cannot start one.
    IllegalIdentifier,
}

/// Every failed step of a parse, innermost first, each with the character position at
/// which it failed.
#[derive(Debug)]
pub struct SDLangParseError {
    pub errors: Vec<(usize, ParseCause)>,
}

impl SDLangParseError {
    /// An error for a failed check at `offset`.
    pub fn new(offset: usize) -> (r: SDLangParseError)
        ensures
            r.errors@ == seq![(offset, ParseCause::Grammar(ErrorKind::Verify))],
    {
        SDLangParseError { errors: vec![(offset, ParseCause::Grammar(ErrorKind::Verify))] }
    }

    /// The same error; a message is carried by the caller's own error type.
    pub fn with_message(self) -> (r: SDLangParseError)
        ensures
            r.errors@ == self.errors@,
    {
        self
    }

    /// An error whose first and only step is `kind` failing at `offset`.
    pub fn from_error_kind(offset: usize, kind: ErrorKind) -> (r: SDLangParseError)
        ensures
            r.errors@ == seq![(offset, ParseCause::Grammar(kind))],
    {
        SDLangParseError { errors: vec![(offset, ParseCause::Grammar(kind))] }
    }

    /// `other`, with the failure of an enclosing step `kind` at `offset` added last.
    pub fn append(offset: usize, kind: ErrorKind, other: SDLangParseError) -> (r: SDLangParseError)
        ensures
            r.errors@ == other.errors@.push((offset, ParseCause::Grammar(kind))),
    {
        let mut other = other;
        other.errors.push((offset, ParseCause::Grammar(kind)));
        other
    }

    /// An error whose only step expected the character `c` at `offset`.
    pub fn from_char(offset: usize, c: char) -> (r: SDLangParseError)
        ensures
            r.errors@ == seq![(offset, ParseCause::Char(c))],
    {
        SDLangParseError { errors: vec![(offset, ParseCause::Char(c))] }
    }

    /// An error whose only step is `cause` at `offset`.
    pub fn from_cause(offset: usize, cause: ParseCause) -> (r: SDLangParseError)
        ensures
            r.errors@ == seq![(offset, cause)],
    {
        SDLangParseError { errors: vec![(offset, cause)] }
    }
}

impl View for SDLangParseError {
    type V = Seq<(int, ParseCause)>;

    open spec fn view(&self) -> Seq<(int, ParseCause)> {
        self.errors@.map_values(|e: (usize, ParseCause)| (e.0 as int, e.1))
    }
}

/// A scalar value of the token grammar.
#[derive(Debug, PartialEq)]
pub enum Value {
    String(String),
    Integer(i32),
    /// A decimal literal as written; its binary value is left to the caller.
    Float(String),
    Boolean(bool),
    Null,
}

/// Whether `true` stands at `i`.
pub open spec fn has_true(s: Seq<char>, i: int) -> bool {
    0 <= i && i + 4 <= s.len() && s[i] == 't' && s[i + 1] == 'r' && s[i + 2] == 'u' && s[i + 3]
        == 'e'
}

/// Whether `false` stands at `i`.
pub open spec fn has_false(s: Seq<char>, i: int) -> bool {
    0 <= i && i + 5 <= s.len() && s[i] == 'f' && s[i + 1] == 'a' && s[i + 2] == 'l' && s[i + 3]
        == 's' && s[i + 4] == 'e'
}

/// Whether `null` stands at `i`.
pub open spec fn has_null(s: Seq<char>, i: int) -> bool {
    0 <= i && i + 4 <= s.len() && s[i] == 'n' && s[i + 1] == 'u' && s[i + 2] == 'l' && s[i + 3]
        == 'l'
}

/// A boolean literal at `i`: where it ends and its value, or the failed steps.
pub open spec fn boolean_at(s: Seq<char>, i: int) -> Result<(int, bool), Seq<(int, ParseCause)>> {
    if has_true(s, i) {
        Ok((i + 4, true))
    } else if has_false(s, i) {
        Ok((i + 5, false))
    } else {
        Err(seq![(i, ParseCause::Grammar(ErrorKind::Tag)), (i, ParseCause::Grammar(ErrorKind::Alt))])
    }
}

/// The first position at or after `i` that does not hold a space.
pub open spec fn spaces_end(s: Seq<char>, i: int) -> int
    decreases s.len() - i,
{
    if 0 <= i < s.len() && s[i] == ' ' {
        spaces_end(s, i + 1)
    } else {
        i
    }
}

/// One or more spaces at `i`: where they end, or the failed step.
pub open spec fn space_at(s: Seq<char>, i: int) -> Result<int, Seq<(int, ParseCause)>> {
    if 0 <= i < s.len() && s[i] == ' ' {
        Ok(spaces_end(s, i))
    } else {
        Err(seq![(i, ParseCause::Grammar(ErrorKind::TakeWhile1))])
    }
}

/// A boolean followed by spaces, at `i`.
pub open spec fn spaced_boolean_at(s: Seq<char>, i: int) -> Result<(int, bool), Seq<(int, ParseCause)>> {
    match boolean_at(s, i) {
        Ok((j, b)) => match space_at(s, j) {
            Ok(k) => Ok((k, b)),
            Err(e) => Err(e),
        },
        Err(e) => Err(e),
    }
}

/// The spaced booleans that follow one another from `i` on, and where they end.
pub open spec fn booleans_from(s: Seq<char>, i: int) -> (int, Seq<bool>)
    decreases s.len() - i,
{
    match spaced_boolean_at(s, i) {
        Ok((j, b)) => if i < j <= s.len() {
            let (e, rest) = booleans_from(s, j);
            (e, seq![b] + rest)
        } else {
            (i, Seq::<bool>::empty())
        },
        Err(_) => (i, Seq::<bool>::empty()),
    }
}

/// One or more spaced booleans at `i`.
pub open spec fn many_booleans_at(s: Seq<char>, i: int) -> Result<(int, Seq<bool>), Seq<(int, ParseCause)>> {
    match spaced_boolean_at(s, i) {
        Ok(_) => Ok(booleans_from(s, i)),
        Err(e) => Err(e.push((i, ParseCause::Grammar(ErrorKind::Many1)))),
    }
}

/// The first position at or after `i` that does not hold a digit.
pub open spec fn digits_end(s: Seq<char>, i: int) -> int
    decreases s.len() - i,
{
    if 0 <= i < s.len() && is_digit(s[i]) {
        digits_end(s, i + 1)
    } else {
        i
    }
}

/// The number that the digits from `a` to `b` write in decimal.
pub open spec fn digits_value(s: Seq<char>, a: int, b: int) -> int
    decreases b - a,
{
    if b <= a {
        0
    } else {
        10 * digits_value(s, a, b - 1) + ((s[b - 1] as u32) - ('0' as u32))
    }
}

/// Where an optional minus sign at `i` ends.
pub open spec fn after_sign(s: Seq<char>, i: int) -> int {
    if 0 <= i < s.len() && s[i] == '-' {
        i + 1
    } else {
        i
    }
}

/// A signed 32-bit integer literal at `i`: where it ends and its value, or the failed step.
pub open spec fn integer_at(s: Seq<char>, i: int) -> Result<(int, int), Seq<(int, ParseCause)>> {
    let st = after_sign(s, i);
    let e = digits_end(s, st);
    if e == st {
        Err(seq![(st, ParseCause::Grammar(ErrorKind::Digit))])
    } else {
        let v = if st > i { -digits_value(s, st, e) } else { digits_value(s, st, e) };
        if i32::MIN <= v <= i32::MAX {
            Ok((e, v))
        } else {
            Err(seq![(e, ParseCause::Conversion)])
        }
    }
}

/// A decimal literal at `i` (digits on both sides of the point): where it ends, or the
/// failed step.
pub open spec fn float_at(s: Seq<char>, i: int) -> Result<int, Seq<(int, ParseCause)>> {
    let st = after_sign(s, i);
    let e = digits_end(s, st);
    if e == st {
        Err(seq![(st, ParseCause::Grammar(ErrorKind::Digit))])
    } else if !(e < s.len() && s[e] == '.') {
        Err(seq![(e, ParseCause::Grammar(ErrorKind::Tag))])
    } else if digits_end(s, e + 1) == e + 1 {
        Err(seq![(e + 1, ParseCause::Grammar(ErrorKind::Digit))])
    } else {
        Ok(digits_end(s, e + 1))
    }
}

pub open spec fn is_ident_start(c: char) -> bool {
    is_letter(c) || c == '_'
}

pub open spec fn is_ident_char(c: char) -> bool {
    is_letter(c) || is_digit(c) || c == '$' || c == '-' || c == '_'
}

/// The first position at or after `i` that does not hold an identifier character.
pub open spec fn ident_end(s: Seq<char>, i: int) -> int
    decreases s.len() - i,
{
    if 0 <= i < s.len() && is_ident_char(s[i]) {
        ident_end(s, i + 1)
    } else {
        i
    }
}

/// An identifier at `i`: where it ends, or why there is none.
pub open spec fn identifier_at(s: Seq<char>, i: int) -> Result<int, Seq<(int, ParseCause)>> {
    if i >= s.len() {
        Err(seq![(i, ParseCause::AbsentIdentifier)])
    } else if !is_ident_start(s[i]) {
        Err(seq![(i, ParseCause::IllegalIdentifier)])
    } else {
        Ok(ident_end(s, i))
    }
}

/// The zero-based line and column of character position `offset` of `s`.
pub open spec fn line_col(s: Seq<char>, offset: int) -> (int, int)
    decreases offset,
{
    if offset <= 0 {
        (0, 0)
    } else {
        let (row, col) = line_col(s, offset - 1);
        if s[offset - 1] == '\n' {
            (row + 1, 0)
        } else {
            (row, col + 1)
        }
    }
}

/// An error of one step, as its view.
fn fail(offset: usize, cause: ParseCause) -> (r: SDLangParseError)
    ensures
        r@ == seq![(offset as int, cause)],
{
    let r = SDLangParseError::from_cause(offset, cause);
    assert(r@ =~= seq![(offset as int, cause)]);
    r
}

/// `e` with the failure of an enclosing step added, as its view.
fn enclose(offset: usize, kind: ErrorKind, e: SDLangParseError) -> (r: SDLangParseError)
    ensures
        r@ == e@.push((offset as int, ParseCause::Grammar(kind))),
{
    let r = SDLangParseError::append(offset, kind, e);
    assert(r@ =~= e@.push((offset as int, ParseCause::Grammar(kind))));
    r
}

fn boolean_exec(c: &Vec<char>, i: usize) -> (r: Result<(usize, bool), SDLangParseError>)
    requires
        i <= c@.len(),
    ensures
        match r {
            Ok((n, b)) => boolean_at(c@, i as int) == Ok::<(int, bool), Seq<(int, ParseCause)>>((n as int, b))
                && i < n <= c@.len(),
            Err(e) => boolean_at(c@, i as int) == Err::<(int, bool), Seq<(int, ParseCause)>>(e@),
        },
{
    let len = c.len();
    if len >= 4 && i <= len - 4 && c[i] == 't' && c[i + 1] == 'r' && c[i + 2] == 'u' && c[i + 3] == 'e' {
        Ok((i + 4, true))
    } else if len >= 5 && i <= len - 5 && c[i] == 'f' && c[i + 1] == 'a' && c[i + 2] == 'l' && c[i + 3] == 's'
        && c[i + 4] == 'e' {
        Ok((i + 5, false))
    } else {
        let e = enclose(i, ErrorKind::Alt, fail(i, ParseCause::Grammar(ErrorKind::Tag)));
        assert(e@ =~= seq![
            (i as int, ParseCause::Grammar(ErrorKind::Tag)),
            (i as int, ParseCause::Grammar(ErrorKind::Alt)),
        ]);
        Err(e)
    }
}

fn spaces_end_exec(c: &Vec<char>, i: usize) -> (r: usize)
    requires
        i <= c@.len(),
    ensures
        r == spaces_end(c@, i as int),
        i <= r <= c@.len(),
{
    let mut j = i;
    while j < c.len() && c[j] == ' '
        invariant
            i <= j <= c@.len(),
            spaces_end(c@, j as int) == spaces_end(c@, i as int),
        decreases c@.len() - j,
    {
        j += 1;
    }
    j
}

fn space_exec(c: &Vec<char>, i: usize) -> (r: Result<usize, SDLangParseError>)
    requires
        i <= c@.len(),
    ensures
        match r {
            Ok(n) => space_at(c@, i as int) == Ok::<int, Seq<(int, ParseCause)>>(n as int) && i < n <= c@.len(),
            Err(e) => space_at(c@, i as int) == Err::<int, Seq<(int, ParseCause)>>(e@),
        },
{
    if i < c.len() && c[i] == ' ' {
        Ok(spaces_end_exec(c, i + 1))
    } else {
        Err(fail(i, ParseCause::Grammar(ErrorKind::TakeWhile1)))
    }
}

fn spaced_boolean_exec(c: &Vec<char>, i: usize) -> (r: Result<(usize, bool), SDLangParseError>)
    requires
        i <= c@.len(),
    ensures
        match r {
            Ok((n, b)) => spaced_boolean_at(c@, i as int) == Ok::<(int, bool), Seq<(int, ParseCause)>>((n as int, b))
                && i < n <= c@.len(),
            Err(e) => spaced_boolean_at(c@, i as int) == Err::<(int, bool), Seq<(int, ParseCause)>>(e@),
        },
{
    match boolean_exec(c, i) {
        Ok((j, b)) => match space_exec(c, j) {
            Ok(k) => Ok((k, b)),
            Err(e) => Err(e),
        },
        Err(e) => Err(e),
    }
}

/// Reads a boolean literal at the start of `source`: the position after it and its value.
pub fn boolean(source: &str) -> (r: Result<(usize, Value), SDLangParseError>)
    ensures
        match r {
            Ok((n, v)) => exists|b: bool| {
                &&& boolean_at(source@, 0) == Ok::<(int, bool), Seq<(int, ParseCause)>>((n as int, b))
                &&& v == Value::Boolean(b)
            },
            Err(e) => boolean_at(source@, 0) == Err::<(int, bool), Seq<(int, ParseCause)>>(e@),
        },
{
    let c = chars_of(source);
    match boolean_exec(&c, 0) {
        Ok((n, b)) => Ok((n, Value::Boolean(b))),
        Err(e) => Err(e),
    }
}

/// Reads one or more spaces at the start of `source`: the position after them.
pub fn space(source: &str) -> (r: Result<usize, SDLangParseError>)
    ensures
        match r {
            Ok(n) => space_at(source@, 0) == Ok::<int, Seq<(int, ParseCause)>>(n as int),
            Err(e) => space_at(source@, 0) == Err::<int, Seq<(int, ParseCause)>>(e@),
        },
{
    let c = chars_of(source);
    space_exec(&c, 0)
}

/// Reads `null` at the start of `source`: the position after it.
pub fn null(source: &str) -> (r: Result<(usize, Value), SDLangParseError>)
    ensures
        match r {
            Ok((n, v)) => has_null(source@, 0) && n == 4 && v == Value::Null,
            Err(e) => !has_null(source@, 0) && e@ == seq![(0int, ParseCause::Grammar(ErrorKind::Tag))],
        },
{
    let c = chars_of(source);
    if c.len() >= 4 && c[0] == 'n' && c[1] == 'u' && c[2] == 'l' && c[3] == 'l' {
        Ok((4, Value::Null))
    } else {
        Err(fail(0, ParseCause::Grammar(ErrorKind::Tag)))
    }
}

/// Reads `;` at the start of `source`: the position after it.
pub fn semicolon(source: &str) -> (r: Result<usize, SDLangParseError>)
    ensures
        match r {
            Ok(n) => source@.len() > 0 && source@[0] == ';' && n == 1,
            Err(e) => !(source@.len() > 0 && source@[0] == ';') && e@ == seq![(0int, ParseCause::Grammar(ErrorKind::Tag))],
        },
{
    let c = chars_of(source);
    if c.len() >= 1 && c[0] == ';' {
        Ok(1)
    } else {
        Err(fail(0, ParseCause::Grammar(ErrorKind::Tag)))
    }
}

/// The values that hold the booleans `bs`, in order.
pub open spec fn boolean_values(bs: Seq<bool>) -> Seq<Value> {
    bs.map_values(|b: bool| Value::Boolean(b))
}

/// Reads one or more booleans at the start of `source`, each followed by spaces, as far as
/// they go: the position after the last and their values in order.
pub fn many_booleans(source: &str) -> (r: Result<(usize, Vec<Value>), SDLangParseError>)
    ensures
        match r {
            Ok((n, vs)) => many_booleans_at(source@, 0) matches Ok((m, bs)) && m == n && vs@
                == boolean_values(bs),
            Err(e) => many_booleans_at(source@, 0) == Err::<(int, Seq<bool>), Seq<(int, ParseCause)>>(e@),
        },
{
    let c = chars_of(source);
    match spaced_boolean_exec(&c, 0) {
        Err(e) => return Err(enclose(0, ErrorKind::Many1, e)),
        Ok(_) => {},
    }
    let mut out: Vec<Value> = Vec::new();
    let ghost mut bs: Seq<bool> = Seq::empty();
    assert(out@ =~= boolean_values(bs));
    let mut p: usize = 0;
    loop
        invariant
            p <= c@.len(),
            out@ == boolean_values(bs),
            booleans_from(c@, 0) == (booleans_from(c@, p as int).0, bs + booleans_from(c@, p as int).1),
            spaced_boolean_at(c@, 0) is Ok,
            c@ == source@,
        decreases c@.len() - p,
    {
        match spaced_boolean_exec(&c, p) {
            Ok((q, b)) => {
                proof {
                    let rest = booleans_from(c@, q as int).1;
                    assert(bs + (seq![b] + rest) =~= bs.push(b) + rest);
                    bs = bs.push(b);
                }
                out.push(Value::Boolean(b));
                assert(out@ =~= boolean_values(bs));
                p = q;
            },
            Err(_) => {
                proof {
                    assert(bs + Seq::<bool>::empty() =~= bs);
                    assert(many_booleans_at(source@, 0) == Ok::<(int, Seq<bool>), Seq<(int, ParseCause)>>((p as int, bs)));
                }
                return Ok((p, out));
            },
        }
    }
}

fn digits_end_exec(c: &Vec<char>, i: usize) -> (r: usize)
    requires
        i <= c@.len(),
    ensures
        r == digits_end(c@, i as int),
        i <= r <= c@.len(),
{
    let mut j = i;
    while j < c.len() && digit(c[j])
        invariant
            i <= j <= c@.len(),
            digits_end(c@, j as int) == digits_end(c@, i as int),
        decreases c@.len() - j,
    {
        j += 1;
    }
    j
}

proof fn lemma_digits_value_nonneg(s: Seq<char>, a: int, b: int)
    requires
        0 <= a,
        b <= s.len(),
        forall|k: int| a <= k < b ==> is_digit(#[trigger] s[k]),
    ensures
        digits_value(s, a, b) >= 0,
    decreases b - a,
{
    if b > a {
        lemma_digits_value_nonneg(s, a, b - 1);
    }
}

proof fn lemma_digits_end(s: Seq<char>, i: int)
    requires
        0 <= i <= s.len(),
    ensures
        i <= digits_end(s, i) <= s.len(),
        forall|k: int| i <= k < digits_end(s, i) ==> is_digit(#[trigger] s[k]),
    decreases s.len() - i,
{
    if i < s.len() && is_digit(s[i]) {
        lemma_digits_end(s, i + 1);
    }
}

/// The digits from `a` to `b` as a number, if it is at most `2^31`.
fn digits_value_exec(c: &Vec<char>, a: usize, b: usize) -> (r: Option<i64>)
    requires
        a <= b <= c@.len(),
        forall|k: int| a <= k < b ==> is_digit(#[trigger] c@[k]),
    ensures
        r matches Some(v) ==> v == digits_value(c@, a as int, b as int) && v <= 0x8000_0000,
        r is None ==> digits_value(c@, a as int, b as int) > 0x8000_0000,
{
    let mut v: i64 = 0;
    let mut over = false;
    let mut j = a;
    while j < b
        invariant
            a <= j <= b <= c@.len(),
            forall|k: int| a <= k < b ==> is_digit(#[trigger] c@[k]),
            !over ==> v == digits_value(c@, a as int, j as int) && 0 <= v <= 0x8000_0000,
            over ==> digits_value(c@, a as int, j as int) > 0x8000_0000,
        decreases b - j,
    {
        let d = (c[j] as u32 - '0' as u32) as i64;
        proof {
            assert(is_digit(c@[j as int]));
            lemma_digits_value_nonneg(c@, a as int, j as int);
        }
        if !over {
            if v > (0x8000_0000 - d) / 10 {
                over = true;
            } else {
                v = 10 * v + d;
            }
        }
        j += 1;
    }
    if over {
        None
    } else {
        Some(v)
    }
}

fn integer_exec(c: &Vec<char>, i: usize) -> (r: Result<(usize, i32), SDLangParseError>)
    requires
        i <= c@.len(),
    ensures
        match r {
            Ok((n, v)) => integer_at(c@, i as int) == Ok::<(int, int), Seq<(int, ParseCause)>>((n as int, v as int)),
            Err(e) => integer_at(c@, i as int) == Err::<(int, int), Seq<(int, ParseCause)>>(e@),
        },
{
    let neg = i < c.len() && c[i] == '-';
    let st = if neg { i + 1 } else { i };
    let e = digits_end_exec(c, st);
    if e == st {
        return Err(fail(st, ParseCause::Grammar(ErrorKind::Digit)));
    }
    proof {
        lemma_digits_end(c@, st as int);
        lemma_digits_value_nonneg(c@, st as int, e as int);
    }
    match digits_value_exec(c, st, e) {
        Some(v) => {
            if neg {
                Ok((e, (-v) as i32))
            } else if v <= 0x7fff_ffff {
                Ok((e, v as i32))
            } else {
                Err(fail(e, ParseCause::Conversion))
            }
        },
        None => Err(fail(e, ParseCause::Conversion)),
    }
}

/// Reads a signed 32-bit integer at the start of `source`: the position after it and its
/// value. A literal outside the range of `i32` fails as a conversion.
pub fn integer(source: &str) -> (r: Result<(usize, Value), SDLangParseError>)
    ensures
        match r {
            Ok((n, v)) => integer_at(source@, 0) matches Ok((m, x)) && m == n && v
                == Value::Integer(x as i32),
            Err(e) => integer_at(source@, 0) == Err::<(int, int), Seq<(int, ParseCause)>>(e@),
        },
{
    let c = chars_of(source);
    match integer_exec(&c, 0) {
        Ok((n, v)) => Ok((n, Value::Integer(v))),
        Err(e) => Err(e),
    }
}

/// Reads a decimal literal at the start of `source`: the position after it and the literal.
pub fn float(source: &str) -> (r: Result<(usize, Value), SDLangParseError>)
    ensures
        match r {
            Ok((n, v)) => {
                &&& float_at(source@, 0) == Ok::<int, Seq<(int, ParseCause)>>(n as int)
                &&& v matches Value::Float(t) && t@ == source@.subrange(0, n as int)
            },
            Err(e) => float_at(source@, 0) == Err::<int, Seq<(int, ParseCause)>>(e@),
        },
{
    let c = chars_of(source);
    let st: usize = if c.len() > 0 && c[0] == '-' { 1 } else { 0 };
    let e = digits_end_exec(&c, st);
    if e == st {
        return Err(fail(st, ParseCause::Grammar(ErrorKind::Digit)));
    }
    if !(e < c.len() && c[e] == '.') {
        return Err(fail(e, ParseCause::Grammar(ErrorKind::Tag)));
    }
    let f = digits_end_exec(&c, e + 1);
    if f == e + 1 {
        return Err(fail(e + 1, ParseCause::Grammar(ErrorKind::Digit)));
    }
    Ok((f, Value::Float(source.substring_char(0, f).to_owned())))
}

fn ident_start(c: char) -> (r: bool)
    ensures
        r == is_ident_start(c),
{
    letter(c) || c == '_'
}

fn ident_char(c: char) -> (r: bool)
    ensures
        r == is_ident_char(c),
{
    letter(c) || digit(c) || c == '$' || c == '-' || c == '_'
}

/// Reads an identifier at the start of `source`: the position after it and its text. An
/// empty input gives an absent identifier; a first character other than a letter or `_`
/// gives an illegal one.
pub fn identifier(source: &str) -> (r: Result<(usize, Value), SDLangParseError>)
    ensures
        match r {
            Ok((n, v)) => {
                &&& identifier_at(source@, 0) == Ok::<int, Seq<(int, ParseCause)>>(n as int)
                &&& v matches Value::String(t) && t@ == source@.subrange(0, n as int)
            },
            Err(e) => identifier_at(source@, 0) == Err::<int, Seq<(int, ParseCause)>>(e@),
        },
{
    let c = chars_of(source);
    if c.len() == 0 {
        return Err(fail(0, ParseCause::AbsentIdentifier));
    }
    if !ident_start(c[0]) {
        return Err(fail(0, ParseCause::IllegalIdentifier));
    }
    let mut j: usize = 0;
    while j < c.len() && ident_char(c[j])
        invariant
            j <= c@.len(),
            ident_end(c@, j as int) == ident_end(c@, 0),
        decreases c@.len() - j,
    {
        j += 1;
    }
    Ok((j, Value::String(source.substring_char(0, j).to_owned())))
}

/// The zero-based line and column of character position `offset` of `s`.
pub fn location(s: &Vec<char>, offset: usize) -> (r: (usize, usize))
    requires
        offset <= s@.len(),
    ensures
        r.0 as int == line_col(s@, offset as int).0,
        r.1 as int == line_col(s@, offset as int).1,
{
    let mut row: usize = 0;
    let mut col: usize = 0;
    let mut i: usize = 0;
    while i < offset
        invariant
            i <= offset <= s@.len(),
            row as int == line_col(s@, i as int).0,
            col as int == line_col(s@, i as int).1,
            row <= i,
            col <= i,
        decreases offset - i,
    {
        if s[i] == '\n' {
            row += 1;
            col = 0;
        } else {
            col += 1;
        }
        i += 1;
    }
    (row, col)
}

/// The line and column of `offset` in `s`, the offset kept within `s`.
pub open spec fn located(s: Seq<char>, offset: usize) -> (usize, usize) {
    let at = if offset <= s.len() { offset as int } else { s.len() as int };
    (line_col(s, at).0 as usize, line_col(s, at).1 as usize)
}

impl SDLangParseError {
    /// Every failed step, innermost first, with the line and column in `input` at which it
    /// failed.
    pub fn locate(&self, input: &Vec<char>) -> (r: Vec<(usize, usize, ParseCause)>)
        ensures
            r@.len() == self.errors@.len(),
            forall|k: int|
                0 <= k < r@.len() ==> {
                    let (row, col) = located(input@, self.errors@[k].0);
                    #[trigger] r@[k] == (row, col, self.errors@[k].1)
                },
    {
        let mut out: Vec<(usize, usize, ParseCause)> = Vec::new();
        let mut i: usize = 0;
        while i < self.errors.len()
            invariant
                i <= self.errors@.len(),
                out@.len() == i,
                forall|k: int|
                    0 <= k < i ==> {
                        let (row, col) = located(input@, self.errors@[k].0);
                        #[trigger] out@[k] == (row, col, self.errors@[k].1)
                    },
            decreases self.errors@.len() - i,
        {
            let (offset, cause) = self.errors[i];
            let at = if offset <= input.len() { offset } else { input.len() };
            let (row, col) = location(input, at);
            out.push((row, col, cause));
            i += 1;
        }
        out
    }
}

} // verus!
