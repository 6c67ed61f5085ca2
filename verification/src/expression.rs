//! The character-level scanner of the arithmetic expression language:
//! whitespace, identifiers (`$freq`, `patch_l`) and the text of numeric
//! literals with their unit suffix (`2.4GHz`, `1e-3`); values with units;
//! and the functions an expression can call.
use vstd::prelude::*;
use vstd::string::*;

use crate::text::{is_whitespace, spec_decimal, spec_is_whitespace, spec_trim, str_eq, to_decimal, trim};

verus! {

/// Why an expression could not be read or evaluated.
#[derive(Debug)]
pub enum ExprError {
    UnexpectedChar(char, usize),
    UnexpectedEnd,
    UndefinedVariable(String),
    UnknownFunction(String),
    CircularDependency(String),
    ParseError(String),
}

/// Whether `char::is_alphabetic` holds of `c` (the Unicode `Alphabetic`
/// property).
pub uninterp spec fn spec_is_alphabetic(c: char) -> bool;

/// Whether `char::is_alphanumeric` holds of `c` (Unicode `Alphabetic` or
/// `Numeric`).
pub uninterp spec fn spec_is_alphanumeric(c: char) -> bool;

/// Calls `char::is_alphabetic`; its result is the name above applied to `c`.
#[verifier::external_body]
pub(crate) fn is_alphabetic(c: char) -> (r: bool)
    ensures
        r == spec_is_alphabetic(c),
{
    c.is_alphabetic()
}

/// Calls `char::is_alphanumeric`; its result is the name above applied to
/// `c`. As its documentation states, it holds of every character that
/// `is_alphabetic` holds of.
#[verifier::external_body]
pub(crate) fn is_alphanumeric(c: char) -> (r: bool)
    ensures
        r == spec_is_alphanumeric(c),
        spec_is_alphabetic(c) ==> r,
{
    c.is_alphanumeric()
}

/// Calls `String::push`, which appends `c` to the string.
#[verifier::external_body]
fn push_char(s: &mut String, c: char)
    ensures
        final(s)@ == old(s)@.push(c),
{
    s.push(c);
}

/// A cursor over the characters of an expression.
pub struct Tokenizer {
    pub chars: Vec<char>,
    pub pos: usize,
}

/// The first position at or after `p` whose character is not whitespace.
pub open spec fn spec_skip_whitespace(s: Seq<char>, p: int) -> int
    decreases s.len() - p,
{
    if 0 <= p < s.len() && spec_is_whitespace(s[p]) {
        spec_skip_whitespace(s, p + 1)
    } else {
        p
    }
}

/// A character that continues an identifier.
pub open spec fn spec_ident_char(c: char) -> bool {
    spec_is_alphanumeric(c) || c == '_'
}

/// The end of the run of identifier characters that starts at `p`.
pub open spec fn spec_ident_run(s: Seq<char>, p: int) -> int
    decreases s.len() - p,
{
    if 0 <= p < s.len() && spec_ident_char(s[p]) {
        spec_ident_run(s, p + 1)
    } else {
        p
    }
}

/// The end of an identifier that starts at `p`: an optional `$`, then
/// identifier characters.
pub open spec fn spec_ident_end(s: Seq<char>, p: int) -> int {
    if 0 <= p < s.len() && s[p] == '$' {
        spec_ident_run(s, p + 1)
    } else {
        spec_ident_run(s, p)
    }
}

/// A character of the numeric part of a literal.
pub open spec fn spec_number_char(c: char) -> bool {
    ('0' <= c <= '9') || c == '.' || c == 'e' || c == 'E'
}

/// The end of the numeric part of a literal that continues at `p`; a sign
/// right after an exponent letter belongs to it.
pub open spec fn spec_number_end(s: Seq<char>, p: int) -> int
    decreases s.len() - p,
{
    if 0 <= p < s.len() && spec_number_char(s[p]) {
        let q = p + 1;
        if (s[p] == 'e' || s[p] == 'E') && q < s.len() && (s[q] == '+' || s[q] == '-') {
            spec_number_end(s, q + 1)
        } else {
            spec_number_end(s, q)
        }
    } else {
        p
    }
}

/// A character of a unit suffix.
pub open spec fn spec_unit_char(c: char) -> bool {
    spec_is_alphabetic(c) || c == 'µ'
}

/// The end of the unit suffix that starts at `p`.
pub open spec fn spec_unit_end(s: Seq<char>, p: int) -> int
    decreases s.len() - p,
{
    if 0 <= p < s.len() && spec_unit_char(s[p]) {
        spec_unit_end(s, p + 1)
    } else {
        p
    }
}

impl Tokenizer {
    /// The character under the cursor, if any.
    pub open spec fn spec_peek(&self) -> Option<char> {
        if self.pos < self.chars@.len() {
            Some(self.chars@[self.pos as int])
        } else {
            None
        }
    }

    /// A cursor at the start of `input`.
    pub fn new(input: &str) -> (r: Self)
        ensures
            r.chars@ == input@,
            r.pos == 0,
    {
        let n = input.unicode_len();
        let mut chars: Vec<char> = Vec::new();
        let mut i: usize = 0;
        while i < n
            invariant
                n == input@.len(),
                i <= n,
                chars@ =~= input@.take(i as int),
            decreases n - i,
        {
            chars.push(input.get_char(i));
            i = i + 1;
        }
        assert(input@.take(n as int) =~= input@);
        Tokenizer { chars, pos: 0 }
    }

    /// The character under the cursor, if any.
    pub fn peek_char(&self) -> (r: Option<char>)
        ensures
            r == self.spec_peek(),
    {
        if self.pos < self.chars.len() {
            Some(self.chars[self.pos])
        } else {
            None
        }
    }

    /// The character under the cursor, if any; the cursor moves past it.
    pub fn advance(&mut self) -> (r: Option<char>)
        ensures
            r == old(self).spec_peek(),
            final(self).chars@ == old(self).chars@,
            final(self).pos == (if old(self).pos < old(self).chars@.len() {
                old(self).pos + 1
            } else {
                old(self).pos as int
            }),
    {
        let c = self.peek_char();
        if self.pos < self.chars.len() {
            self.pos = self.pos + 1;
        }
        c
    }

    /// Move the cursor past whitespace.
    pub fn skip_whitespace(&mut self)
        ensures
            final(self).chars@ == old(self).chars@,
            final(self).pos == spec_skip_whitespace(old(self).chars@, old(self).pos as int),
    {
        while self.pos < self.chars.len() && is_whitespace(self.chars[self.pos])
            invariant
                self.chars@ == old(self).chars@,
                old(self).pos <= self.pos,
                spec_skip_whitespace(self.chars@, self.pos as int) == spec_skip_whitespace(
                    old(self).chars@,
                    old(self).pos as int,
                ),
            decreases self.chars@.len() - self.pos,
        {
            self.pos = self.pos + 1;
        }
    }

    /// Read an identifier (an optional `$`, then letters, digits and `_`)
    /// starting at the cursor, and move past it.
    pub fn read_ident(&mut self) -> (r: String)
        requires
            old(self).pos <= old(self).chars@.len(),
        ensures
            final(self).chars@ == old(self).chars@,
            final(self).pos == spec_ident_end(old(self).chars@, old(self).pos as int),
            r@ == old(self).chars@.subrange(old(self).pos as int, final(self).pos as int),
    {
        let start = self.pos;
        if self.pos < self.chars.len() && self.chars[self.pos] == '$' {
            self.pos = self.pos + 1;
        }
        let ghost p1 = self.pos as int;
        while self.pos < self.chars.len() && (is_alphanumeric(self.chars[self.pos]) || self.chars[self.pos] == '_')
            invariant
                self.chars@ == old(self).chars@,
                start <= p1 <= self.pos <= self.chars@.len(),
                spec_ident_run(self.chars@, self.pos as int) == spec_ident_run(self.chars@, p1),
                spec_ident_end(self.chars@, start as int) == spec_ident_run(self.chars@, p1),
            decreases self.chars@.len() - self.pos,
        {
            self.pos = self.pos + 1;
        }
        collect(&self.chars, start, self.pos)
    }

    /// Read the text of a numeric literal starting at the cursor: its
    /// numeric part (digits, `.`, an exponent with its sign) and its unit
    /// suffix (letters and `µ`), and move past both.
    pub fn read_number_text(&mut self) -> (r: (String, String))
        requires
            old(self).pos <= old(self).chars@.len(),
        ensures
            final(self).chars@ == old(self).chars@,
            final(self).pos == spec_unit_end(
                old(self).chars@,
                spec_number_end(old(self).chars@, old(self).pos as int),
            ),
            r.0@ == old(self).chars@.subrange(
                old(self).pos as int,
                spec_number_end(old(self).chars@, old(self).pos as int),
            ),
            r.1@ == old(self).chars@.subrange(
                spec_number_end(old(self).chars@, old(self).pos as int),
                final(self).pos as int,
            ),
    {
        let start = self.pos;
        while self.pos < self.chars.len() && ((self.chars[self.pos] >= '0' && self.chars[self.pos] <= '9')
            || self.chars[self.pos] == '.' || self.chars[self.pos] == 'e' || self.chars[self.pos] == 'E')
            invariant
                self.chars@ == old(self).chars@,
                start <= self.pos <= self.chars@.len(),
                spec_number_end(self.chars@, self.pos as int) == spec_number_end(self.chars@, start as int),
            decreases self.chars@.len() - self.pos,
        {
            let c = self.chars[self.pos];
            self.pos = self.pos + 1;
            if (c == 'e' || c == 'E') && self.pos < self.chars.len() && (self.chars[self.pos] == '+'
                || self.chars[self.pos] == '-') {
                self.pos = self.pos + 1;
            }
        }
        let num_end = self.pos;
        while self.pos < self.chars.len() && (is_alphabetic(self.chars[self.pos]) || self.chars[self.pos] == 'µ')
            invariant
                self.chars@ == old(self).chars@,
                num_end <= self.pos <= self.chars@.len(),
                spec_unit_end(self.chars@, self.pos as int) == spec_unit_end(self.chars@, num_end as int),
            decreases self.chars@.len() - self.pos,
        {
            self.pos = self.pos + 1;
        }
        (collect(&self.chars, start, num_end), collect(&self.chars, num_end, self.pos))
    }
}

/// The characters `chars[from..to]` as a string.
fn collect(chars: &Vec<char>, from: usize, to: usize) -> (r: String)
    requires
        from <= to <= chars@.len(),
    ensures
        r@ == chars@.subrange(from as int, to as int),
{
    let mut s = String::new();
    let mut i = from;
    while i < to
        invariant
            from <= i <= to,
            to <= chars@.len(),
            s@ =~= chars@.subrange(from as int, i as int),
        decreases to - i,
    {
        push_char(&mut s, chars[i]);
        i = i + 1;
    }
    s
}


// ---------------------------------------------------------------------------
// Values with units
// ---------------------------------------------------------------------------

/// Whether `c` is an ASCII digit.
pub open spec fn spec_ascii_digit(c: char) -> bool {
    '0' <= c <= '9'
}

/// Whether the character at `p` marks the exponent of a number written
/// like `1e-3` or `2.5E6`: an `e` or `E` right after a digit, followed by
/// a digit, or by a sign and a digit.
pub open spec fn spec_exponent_at(s: Seq<char>, p: int) -> bool {
    &&& 0 < p
    &&& p + 1 < s.len()
    &&& (s[p] == 'e' || s[p] == 'E')
    &&& spec_ascii_digit(s[p - 1])
    &&& (spec_ascii_digit(s[p + 1]) || ((s[p + 1] == '+' || s[p + 1] == '-') && p + 2 < s.len()
        && spec_ascii_digit(s[p + 2])))
}

/// Whether a unit suffix starts at `p`: a letter or `µ` that is not the
/// exponent of the number before it.
pub open spec fn spec_unit_start(s: Seq<char>, p: int) -> bool {
    spec_unit_char(s[p]) && !spec_exponent_at(s, p)
}

/// The position at or after `p` where the unit suffix of `s` starts, or the
/// length of `s` when there is none.
pub open spec fn spec_first_unit_char(s: Seq<char>, p: int) -> int
    decreases s.len() - p,
{
    if p >= s.len() {
        s.len() as int
    } else if spec_unit_start(s, p) {
        p
    } else {
        spec_first_unit_char(s, p + 1)
    }
}

fn is_ascii_digit(c: char) -> (r: bool)
    ensures
        r == spec_ascii_digit(c),
{
    '0' <= c && c <= '9'
}

/// Whether the character at `p` of `t` marks an exponent.
fn exponent_at(t: &str, p: usize) -> (r: bool)
    requires
        p < t@.len(),
    ensures
        r == spec_exponent_at(t@, p as int),
{
    let n = t.unicode_len();
    if p == 0 || p + 1 >= n {
        return false;
    }
    let c = t.get_char(p);
    if !(c == 'e' || c == 'E') || !is_ascii_digit(t.get_char(p - 1)) {
        return false;
    }
    let next = t.get_char(p + 1);
    if is_ascii_digit(next) {
        return true;
    }
    (next == '+' || next == '-') && p + 2 < n && is_ascii_digit(t.get_char(p + 2))
}

proof fn lemma_first_unit_char_bounds(s: Seq<char>, p: int)
    requires
        0 <= p <= s.len(),
    ensures
        p <= spec_first_unit_char(s, p) <= s.len(),
    decreases s.len() - p,
{
    if p < s.len() && !spec_unit_start(s, p) {
        lemma_first_unit_char_bounds(s, p + 1);
    }
}

/// A value such as `2.4GHz` split into the text of its number and its unit
/// suffix: surrounding whitespace removed, the unit starts at the first
/// letter or `µ` that is not an exponent marker, so `1e-3` is all number
/// and `2.5e3mm` splits after `2.5e3`. A blank value is an error.
pub fn split_value_unit(s: &str) -> (r: Result<(String, String), ExprError>)
    ensures
        spec_trim(s@).len() == 0 ==> (r matches Err(ExprError::ParseError(m)) && m@ == "empty value"@),
        spec_trim(s@).len() > 0 ==> (r matches Ok((number, unit)) && {
            let t = spec_trim(s@);
            let k = spec_first_unit_char(t, 0);
            &&& number@ == t.take(k)
            &&& unit@ == t.skip(k)
        }),
{
    let t = trim(s);
    let n = t.unicode_len();
    if n == 0 {
        return Err(ExprError::ParseError(String::from_str("empty value")));
    }
    let mut i: usize = 0;
    while i < n && !((is_alphabetic(t.get_char(i)) || t.get_char(i) == 'µ') && !exponent_at(t, i))
        invariant
            n == t@.len(),
            i <= n,
            spec_first_unit_char(t@, 0) == spec_first_unit_char(t@, i as int),
        decreases n - i,
    {
        i = i + 1;
    }
    proof {
        lemma_first_unit_char_bounds(t@, i as int);
    }
    let number = String::from_str(t.substring_char(0, i));
    let unit = String::from_str(t.substring_char(i, n));
    assert(number@ =~= t@.take(i as int));
    assert(unit@ =~= t@.skip(i as int));
    Ok((number, unit))
}


// ---------------------------------------------------------------------------
// Functions
// ---------------------------------------------------------------------------

/// The functions an expression can call.
#[derive(Debug, Clone, Copy, PartialEq, Eq, Structural)]
pub enum MathFunction {
    Sqrt,
    Sin,
    Cos,
    Tan,
    Exp,
    /// Natural logarithm, called `log` or `ln`.
    Ln,
    Log10,
    Abs,
    /// The least of two or more arguments.
    Min,
    /// The greatest of two or more arguments.
    Max,
    /// The first argument raised to the second.
    Pow,
}

/// The function a name calls, if any.
pub open spec fn spec_math_function(name: Seq<char>) -> Option<MathFunction> {
    if name == "sqrt"@ {
        Some(MathFunction::Sqrt)
    } else if name == "sin"@ {
        Some(MathFunction::Sin)
    } else if name == "cos"@ {
        Some(MathFunction::Cos)
    } else if name == "tan"@ {
        Some(MathFunction::Tan)
    } else if name == "exp"@ {
        Some(MathFunction::Exp)
    } else if name == "log"@ || name == "ln"@ {
        Some(MathFunction::Ln)
    } else if name == "log10"@ {
        Some(MathFunction::Log10)
    } else if name == "abs"@ {
        Some(MathFunction::Abs)
    } else if name == "min"@ {
        Some(MathFunction::Min)
    } else if name == "max"@ {
        Some(MathFunction::Max)
    } else if name == "pow"@ {
        Some(MathFunction::Pow)
    } else {
        None
    }
}

/// The error of a call with the wrong number of arguments, if it has one:
/// `min` and `max` take at least two, `pow` exactly two, the others one.
pub open spec fn spec_arity_error(f: MathFunction, name: Seq<char>, count: nat) -> Option<Seq<char>> {
    match f {
        MathFunction::Min | MathFunction::Max => if count < 2 {
            Some(name + " requires at least 2 arguments, got "@ + spec_decimal(count))
        } else {
            None
        },
        MathFunction::Pow => if count != 2 {
            Some(name + " expects 2 argument(s), got "@ + spec_decimal(count))
        } else {
            None
        },
        _ => if count != 1 {
            Some(name + " expects 1 argument(s), got "@ + spec_decimal(count))
        } else {
            None
        },
    }
}

/// The function a call names, checked against its number of arguments.
pub fn math_function(name: &str, arg_count: usize) -> (r: Result<MathFunction, ExprError>)
    ensures
        match spec_math_function(name@) {
            None => r matches Err(ExprError::UnknownFunction(n)) && n@ == name@,
            Some(f) => match spec_arity_error(f, name@, arg_count as nat) {
                None => r == Ok::<MathFunction, ExprError>(f),
                Some(m) => r matches Err(ExprError::ParseError(e)) && e@ == m,
            },
        },
{
    let f = if str_eq(name, "sqrt") {
        MathFunction::Sqrt
    } else if str_eq(name, "sin") {
        MathFunction::Sin
    } else if str_eq(name, "cos") {
        MathFunction::Cos
    } else if str_eq(name, "tan") {
        MathFunction::Tan
    } else if str_eq(name, "exp") {
        MathFunction::Exp
    } else if str_eq(name, "log") || str_eq(name, "ln") {
        MathFunction::Ln
    } else if str_eq(name, "log10") {
        MathFunction::Log10
    } else if str_eq(name, "abs") {
        MathFunction::Abs
    } else if str_eq(name, "min") {
        MathFunction::Min
    } else if str_eq(name, "max") {
        MathFunction::Max
    } else if str_eq(name, "pow") {
        MathFunction::Pow
    } else {
        return Err(ExprError::UnknownFunction(String::from_str(name)));
    };
    let (bad, text): (bool, &str) = match f {
        MathFunction::Min | MathFunction::Max => (arg_count < 2, " requires at least 2 arguments, got "),
        MathFunction::Pow => (arg_count != 2, " expects 2 argument(s), got "),
        _ => (arg_count != 1, " expects 1 argument(s), got "),
    };
    if bad {
        let mut m = String::from_str(name);
        m.append(text);
        let digits = to_decimal(arg_count as u128);
        m.append(digits.as_str());
        Err(ExprError::ParseError(m))
    } else {
        Ok(f)
    }
}

} // verus!
