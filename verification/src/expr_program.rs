//! The grammar of arithmetic expressions: their tokens, and the order in
//! which an evaluator meets numbers, variables, operators and function
//! calls while it reads an expression from left to right.
//!
//! ```text
//! expr    := term (('+' | '-') term)*
//! term    := unary (('*' | '/') unary)*
//! unary   := '-' unary | primary
//! primary := number unit? | ident | ident '(' expr (',' expr)* ')' | '(' expr ')'
//! ```
//!
//! An expression compiles to a postfix program, followed by how reading
//! ended: completely, at an unexpected token, or with tokens left over.
//! Running the program and stopping at the first instruction that fails
//! reports the errors in the order a reader that evaluates as it goes
//! meets them; the values themselves are floating-point and computed by the
//! caller.
use vstd::prelude::*;
use vstd::string::*;

use crate::expression::{
    is_alphabetic, is_alphanumeric, spec_ident_end, spec_ident_run, spec_is_alphabetic, spec_is_alphanumeric,
    spec_number_end, spec_skip_whitespace, spec_unit_end, ExprError, Tokenizer,
};
use crate::text::spec_is_whitespace;

verus! {

// ---------------------------------------------------------------------------
// Tokens
// ---------------------------------------------------------------------------

/// A token of an expression.
#[derive(Debug, Clone)]
pub enum ExprToken {
    /// A numeric literal: the text of the number and its unit suffix.
    Number { text: String, unit: String },
    Ident(String),
    Plus,
    Minus,
    Star,
    Slash,
    LParen,
    RParen,
    Comma,
    Eof,
}

/// The mathematical value of an `ExprToken`.
pub enum TokenModel {
    Number(Seq<char>, Seq<char>),
    Ident(Seq<char>),
    Plus,
    Minus,
    Star,
    Slash,
    LParen,
    RParen,
    Comma,
    Eof,
}

impl View for ExprToken {
    type V = TokenModel;

    open spec fn view(&self) -> TokenModel {
        match self {
            ExprToken::Number { text, unit } => TokenModel::Number(text@, unit@),
            ExprToken::Ident(n) => TokenModel::Ident(n@),
            ExprToken::Plus => TokenModel::Plus,
            ExprToken::Minus => TokenModel::Minus,
            ExprToken::Star => TokenModel::Star,
            ExprToken::Slash => TokenModel::Slash,
            ExprToken::LParen => TokenModel::LParen,
            ExprToken::RParen => TokenModel::RParen,
            ExprToken::Comma => TokenModel::Comma,
            ExprToken::Eof => TokenModel::Eof,
        }
    }
}

/// Why the characters of an expression do not form tokens.
pub enum LexError {
    /// A character no token starts with, and its position.
    UnexpectedChar(char, int),
    /// The text of a numeric literal that is no number.
    InvalidNumber(Seq<char>),
}

/// A decimal digit.
pub open spec fn spec_is_digit(c: char) -> bool {
    '0' <= c <= '9'
}

/// Every character is a decimal digit.
pub open spec fn spec_all_digits(s: Seq<char>) -> bool {
    forall|i: int| 0 <= i < s.len() ==> spec_is_digit(#[trigger] s[i])
}

/// The position of the first exponent letter (`e` or `E`), or the length.
pub open spec fn spec_exponent_at(s: Seq<char>, p: int) -> int
    decreases s.len() - p,
{
    if p >= s.len() {
        s.len() as int
    } else if s[p] == 'e' || s[p] == 'E' {
        p
    } else {
        spec_exponent_at(s, p + 1)
    }
}

/// The number of `.` characters.
pub open spec fn spec_dots(s: Seq<char>) -> nat
    decreases s.len(),
{
    if s.len() == 0 {
        0
    } else {
        spec_dots(s.drop_last()) + if s.last() == '.' { 1nat } else { 0nat }
    }
}

/// Digits with at most one decimal point, and at least one digit.
pub open spec fn spec_valid_mantissa(m: Seq<char>) -> bool {
    &&& forall|i: int| 0 <= i < m.len() ==> spec_is_digit(#[trigger] m[i]) || m[i] == '.'
    &&& spec_dots(m) <= 1
    &&& exists|i: int| 0 <= i < m.len() && spec_is_digit(#[trigger] m[i])
}

/// An optional sign, then at least one digit.
pub open spec fn spec_valid_exponent(x: Seq<char>) -> bool {
    let digits = if x.len() > 0 && (x[0] == '+' || x[0] == '-') {
        x.drop_first()
    } else {
        x
    };
    digits.len() > 0 && spec_all_digits(digits)
}

/// A numeric literal's text that reads as a number, by the grammar of
/// decimal floating-point numbers (`1`, `2.`, `.5`, `1.5e-3`): a mantissa
/// of digits with at most one point, then optionally `e` or `E` and an
/// exponent.
pub open spec fn spec_valid_number_text(t: Seq<char>) -> bool {
    let e = spec_exponent_at(t, 0);
    &&& spec_valid_mantissa(t.take(e))
    &&& e < t.len() ==> spec_valid_exponent(t.skip(e + 1))
}

/// The token that starts at or after position `p`, and the position after
/// it.
pub open spec fn spec_next_token(s: Seq<char>, p: int) -> Result<(TokenModel, int), LexError> {
    let q = spec_skip_whitespace(s, p);
    if q >= s.len() {
        Ok((TokenModel::Eof, q))
    } else {
        let c = s[q];
        if c == '+' {
            Ok((TokenModel::Plus, q + 1))
        } else if c == '-' {
            Ok((TokenModel::Minus, q + 1))
        } else if c == '*' {
            Ok((TokenModel::Star, q + 1))
        } else if c == '/' {
            Ok((TokenModel::Slash, q + 1))
        } else if c == '(' {
            Ok((TokenModel::LParen, q + 1))
        } else if c == ')' {
            Ok((TokenModel::RParen, q + 1))
        } else if c == ',' {
            Ok((TokenModel::Comma, q + 1))
        } else if c == '$' || c == '_' {
            let e = spec_ident_end(s, q);
            Ok((TokenModel::Ident(s.subrange(q, e)), e))
        } else if spec_is_digit(c) || c == '.' {
            let e = spec_number_end(s, q);
            let u = spec_unit_end(s, e);
            let text = s.subrange(q, e);
            if spec_valid_number_text(text) {
                Ok((TokenModel::Number(text, s.subrange(e, u)), u))
            } else {
                Err(LexError::InvalidNumber(text))
            }
        } else if spec_is_alphabetic(c) {
            let e = spec_ident_end(s, q);
            Ok((TokenModel::Ident(s.subrange(q, e)), e))
        } else {
            Err(LexError::UnexpectedChar(c, q))
        }
    }
}

/// The tokens from position `p` on, ending with `Eof`. Every token but the
/// last takes at least one character, so the list ends.
pub open spec fn spec_tokens_from(s: Seq<char>, p: int) -> Result<Seq<TokenModel>, LexError>
    decreases s.len() - p,
{
    match spec_next_token(s, p) {
        Err(e) => Err(e),
        Ok((t, p2)) => if t is Eof {
            Ok(seq![TokenModel::Eof])
        } else if p < p2 <= s.len() {
            match spec_tokens_from(s, p2) {
                Ok(rest) => Ok(seq![t] + rest),
                Err(e) => Err(e),
            }
        } else {
            Ok(seq![t, TokenModel::Eof])
        },
    }
}

/// The tokens of an expression.
pub open spec fn spec_tokens(s: Seq<char>) -> Result<Seq<TokenModel>, LexError> {
    spec_tokens_from(s, 0)
}

proof fn lemma_skip_whitespace_bounds(s: Seq<char>, p: int)
    requires
        0 <= p <= s.len(),
    ensures
        p <= spec_skip_whitespace(s, p) <= s.len(),
    decreases s.len() - p,
{
    if p < s.len() && crate::text::spec_is_whitespace(s[p]) {
        lemma_skip_whitespace_bounds(s, p + 1);
    }
}

proof fn lemma_ident_run_bounds(s: Seq<char>, p: int)
    requires
        0 <= p <= s.len(),
    ensures
        p <= spec_ident_run(s, p) <= s.len(),
    decreases s.len() - p,
{
    if p < s.len() && crate::expression::spec_ident_char(s[p]) {
        lemma_ident_run_bounds(s, p + 1);
    }
}

proof fn lemma_number_end_bounds(s: Seq<char>, p: int)
    requires
        0 <= p <= s.len(),
    ensures
        p <= spec_number_end(s, p) <= s.len(),
    decreases s.len() - p,
{
    if 0 <= p < s.len() && crate::expression::spec_number_char(s[p]) {
        let q = p + 1;
        if (s[p] == 'e' || s[p] == 'E') && q < s.len() && (s[q] == '+' || s[q] == '-') {
            lemma_number_end_bounds(s, q + 1);
        } else {
            lemma_number_end_bounds(s, q);
        }
    }
}

proof fn lemma_unit_end_bounds(s: Seq<char>, p: int)
    requires
        0 <= p <= s.len(),
    ensures
        p <= spec_unit_end(s, p) <= s.len(),
    decreases s.len() - p,
{
    if 0 <= p < s.len() && crate::expression::spec_unit_char(s[p]) {
        lemma_unit_end_bounds(s, p + 1);
    }
}

/// Whether the text of a numeric literal reads as a number.
pub fn valid_number_text(t: &str) -> (r: bool)
    ensures
        r == spec_valid_number_text(t@),
{
    let n = t.unicode_len();
    // Find the exponent letter.
    let mut e: usize = 0;
    while e < n && !(t.get_char(e) == 'e' || t.get_char(e) == 'E')
        invariant
            n == t@.len(),
            e <= n,
            spec_exponent_at(t@, 0) == spec_exponent_at(t@, e as int),
        decreases n - e,
    {
        e = e + 1;
    }
    assert(spec_exponent_at(t@, e as int) == e) by {
        if e < n {
        }
    }
    let ghost m = t@.take(e as int);
    // The mantissa.
    let mut dots: usize = 0;
    let mut digit = false;
    let mut i: usize = 0;
    while i < e
        invariant
            n == t@.len(),
            e <= n,
            spec_exponent_at(t@, 0) == e as int,
            m == t@.take(e as int),
            i <= e,
            forall|k: int| 0 <= k < i ==> spec_is_digit(#[trigger] m[k]) || m[k] == '.',
            dots as nat == spec_dots(m.take(i as int)),
            dots <= 1,
            digit == exists|k: int| 0 <= k < i && spec_is_digit(#[trigger] m[k]),
        decreases e - i,
    {
        let c = t.get_char(i);
        assert(m[i as int] == c);
        assert(m.take(i + 1).drop_last() =~= m.take(i as int));
        if c == '.' {
            if dots == 1 {
                proof {
                    assert(m.take(i + 1).last() == '.');
                    assert(spec_dots(m.take(i + 1)) == spec_dots(m.take(i as int)) + 1);
                    lemma_dots_prefix(m, i + 1, e as int);
                    assert(m.take(e as int) =~= m);
                }
                return false;
            }
            dots = dots + 1;
        } else if '0' <= c && c <= '9' {
            digit = true;
        } else {
            assert(!(spec_is_digit(m[i as int]) || m[i as int] == '.'));
            return false;
        }
        i = i + 1;
    }
    assert(m.take(e as int) =~= m);
    if !digit {
        return false;
    }
    if e == n {
        return true;
    }
    // The exponent.
    let ghost x = t@.skip(e + 1);
    let mut j: usize = e + 1;
    if j < n && (t.get_char(j) == '+' || t.get_char(j) == '-') {
        j = j + 1;
    }
    let ghost digits = t@.subrange(j as int, n as int);
    proof {
        if x.len() > 0 && (x[0] == '+' || x[0] == '-') {
            assert(j == e + 2);
            assert(digits =~= x.drop_first());
        } else {
            assert(j == e + 1);
            assert(digits =~= x);
        }
    }
    if j == n {
        return false;
    }
    let mut k = j;
    while k < n
        invariant
            n == t@.len(),
            e < n,
            spec_exponent_at(t@, 0) == e as int,
            x == t@.skip(e + 1),
            digits == (if x.len() > 0 && (x[0] == '+' || x[0] == '-') {
                x.drop_first()
            } else {
                x
            }),
            j <= k <= n,
            digits == t@.subrange(j as int, n as int),
            forall|a: int| 0 <= a < k - j ==> spec_is_digit(#[trigger] digits[a]),
        decreases n - k,
    {
        let c = t.get_char(k);
        assert(digits[k - j] == c);
        if !('0' <= c && c <= '9') {
            assert(!spec_is_digit(digits[k - j]));
            return false;
        }
        k = k + 1;
    }
    true
}

proof fn lemma_dots_prefix(m: Seq<char>, i: int, n: int)
    requires
        0 <= i <= n <= m.len(),
        spec_dots(m.take(i)) >= 2,
    ensures
        spec_dots(m.take(n)) >= 2,
    decreases n - i,
{
    if i < n {
        assert(m.take(i + 1).drop_last() =~= m.take(i));
        lemma_dots_prefix(m, i + 1, n);
    }
}

fn next_token(t: &mut Tokenizer) -> (r: Result<ExprToken, ExprError>)
    requires
        old(t).pos <= old(t).chars@.len(),
    ensures
        final(t).chars@ == old(t).chars@,
        final(t).pos <= final(t).chars@.len(),
        match spec_next_token(old(t).chars@, old(t).pos as int) {
            Ok((tok, p2)) => r matches Ok(x) && x@ == tok && final(t).pos == p2 && (!(tok is Eof)
                ==> old(t).pos < p2),
            Err(LexError::UnexpectedChar(c, q)) => r matches Err(ExprError::UnexpectedChar(c2, q2)) && c2 == c
                && q2 == q,
            Err(LexError::InvalidNumber(text)) => r matches Err(ExprError::ParseError(m)) && m@ == "invalid number: "@
                + text,
        },
{
    let ghost s = t.chars@;
    let ghost p = t.pos as int;
    t.skip_whitespace();
    proof {
        lemma_skip_whitespace_bounds(s, p);
    }
    let q = t.pos;
    match t.peek_char() {
        None => Ok(ExprToken::Eof),
        Some(c) => {
            if c == '+' {
                t.advance();
                Ok(ExprToken::Plus)
            } else if c == '-' {
                t.advance();
                Ok(ExprToken::Minus)
            } else if c == '*' {
                t.advance();
                Ok(ExprToken::Star)
            } else if c == '/' {
                t.advance();
                Ok(ExprToken::Slash)
            } else if c == '(' {
                t.advance();
                Ok(ExprToken::LParen)
            } else if c == ')' {
                t.advance();
                Ok(ExprToken::RParen)
            } else if c == ',' {
                t.advance();
                Ok(ExprToken::Comma)
            } else if c == '$' || c == '_' {
                proof {
                    lemma_ident_run_bounds(s, q + 1);
                    lemma_ident_run_bounds(s, q as int);
                }
                let name = t.read_ident();
                Ok(ExprToken::Ident(name))
            } else if ('0' <= c && c <= '9') || c == '.' {
                proof {
                    lemma_number_end_bounds(s, q as int);
                    lemma_unit_end_bounds(s, spec_number_end(s, q as int));
                }
                let (text, unit) = t.read_number_text();
                if valid_number_text(text.as_str()) {
                    Ok(ExprToken::Number { text, unit })
                } else {
                    let mut m = String::from_str("invalid number: ");
                    m.append(text.as_str());
                    Err(ExprError::ParseError(m))
                }
            } else if is_alphabetic(c) {
                let alnum = is_alphanumeric(c);
                assert(alnum && spec_is_alphanumeric(c));
                proof {
                    lemma_ident_run_bounds(s, q as int);
                    lemma_ident_run_bounds(s, q + 1);
                }
                let name = t.read_ident();
                Ok(ExprToken::Ident(name))
            } else {
                Err(ExprError::UnexpectedChar(c, q))
            }
        },
    }
}

/// The tokens of an expression, ending with `Eof`; a character no token
/// starts with, or a numeric literal that is no number, is an error.
pub fn tokenize(input: &str) -> (r: Result<Vec<ExprToken>, ExprError>)
    ensures
        match spec_tokens(input@) {
            Ok(ts) => r matches Ok(v) && v@.map_values(|x: ExprToken| x@) == ts,
            Err(LexError::UnexpectedChar(c, q)) => r matches Err(ExprError::UnexpectedChar(c2, q2)) && c2 == c
                && q2 == q,
            Err(LexError::InvalidNumber(text)) => r matches Err(ExprError::ParseError(m)) && m@ == "invalid number: "@
                + text,
        },
{
    let mut t = Tokenizer::new(input);
    let ghost s = input@;
    let mut out: Vec<ExprToken> = Vec::new();
    loop
        invariant
            t.chars@ == s,
            s == input@,
            t.pos <= s.len(),
            spec_tokens(s) == match spec_tokens_from(s, t.pos as int) {
                Ok(rest) => Ok(out@.map_values(|x: ExprToken| x@) + rest),
                Err(e) => Err(e),
            },
        decreases s.len() - t.pos,
    {
        let ghost p = t.pos as int;
        let ghost before = out@.map_values(|x: ExprToken| x@);
        let tok = next_token(&mut t);
        match tok {
            Err(e) => {
                return Err(e);
            },
            Ok(x) => {
                let is_eof = match x {
                    ExprToken::Eof => true,
                    _ => false,
                };
                out.push(x);
                assert(out@.map_values(|x: ExprToken| x@) =~= before.push(x@));
                if is_eof {
                    assert(before.push(x@) =~= before + seq![TokenModel::Eof]);
                    return Ok(out);
                }
                proof {
                    match spec_tokens_from(s, t.pos as int) {
                        Ok(rest) => {
                            assert(before + (seq![x@] + rest) =~= before.push(x@) + rest);
                        },
                        Err(_) => {},
                    }
                }
            },
        }
    }
}


/// The tokens of an expression are at most one more than its characters.
proof fn lemma_tokens_len(s: Seq<char>, p: int)
    requires
        0 <= p <= s.len(),
    ensures
        spec_tokens_from(s, p) matches Ok(ts) ==> ts.len() <= s.len() - p + 1,
    decreases s.len() - p,
{
    match spec_next_token(s, p) {
        Err(_) => {},
        Ok((t, p2)) => {
            if !(t is Eof) && p < p2 <= s.len() {
                lemma_tokens_len(s, p2);
            }
        },
    }
}

/// Every token list ends with `Eof`.
proof fn lemma_tokens_end(s: Seq<char>, p: int)
    ensures
        spec_tokens_from(s, p) matches Ok(ts) ==> ts.len() > 0 && ts.last() is Eof,
    decreases s.len() - p,
{
    match spec_next_token(s, p) {
        Err(_) => {},
        Ok((t, p2)) => {
            if !(t is Eof) && p < p2 <= s.len() {
                lemma_tokens_end(s, p2);
                match spec_tokens_from(s, p2) {
                    Ok(rest) => {
                        assert((seq![t] + rest).last() == rest.last());
                    },
                    Err(_) => {},
                }
            }
        },
    }
}

// ---------------------------------------------------------------------------
// Programs
// ---------------------------------------------------------------------------

/// An instruction of an expression program: push a number or a variable's
/// value, or apply an operator or a function to the values on top.
#[derive(Debug, Clone)]
pub enum Instr {
    Number { text: String, unit: String },
    Var(String),
    Neg,
    Add,
    Sub,
    Mul,
    Div,
    Call { name: String, argc: usize },
}

/// The mathematical value of an `Instr`.
pub enum InstrModel {
    Number(Seq<char>, Seq<char>),
    Var(Seq<char>),
    Neg,
    Add,
    Sub,
    Mul,
    Div,
    Call(Seq<char>, nat),
}

impl View for Instr {
    type V = InstrModel;

    open spec fn view(&self) -> InstrModel {
        match self {
            Instr::Number { text, unit } => InstrModel::Number(text@, unit@),
            Instr::Var(n) => InstrModel::Var(n@),
            Instr::Neg => InstrModel::Neg,
            Instr::Add => InstrModel::Add,
            Instr::Sub => InstrModel::Sub,
            Instr::Mul => InstrModel::Mul,
            Instr::Div => InstrModel::Div,
            Instr::Call { name, argc } => InstrModel::Call(name@, *argc as nat),
        }
    }
}

/// Where reading stopped short: a `)` was expected, or a token cannot start
/// an operand; each with the position of the token found.
#[derive(Debug, Clone, Copy, PartialEq, Eq, Structural)]
pub enum ParseFailure {
    ExpectedRParen(usize),
    UnexpectedToken(usize),
}

/// What reading from a position gives: the instructions met, the position
/// after them, and how reading failed, if it did.
pub struct Parsed {
    pub instrs: Seq<InstrModel>,
    pub pos: int,
    pub fail: Option<ParseFailure>,
}

/// The token at a position; past the end, `Eof`.
pub open spec fn tok(ts: Seq<TokenModel>, i: int) -> TokenModel {
    if 0 <= i < ts.len() {
        ts[i]
    } else {
        TokenModel::Eof
    }
}

/// A sum or difference of terms from `p`. A read that succeeds always
/// moves past at least one token, so the repetitions end.
pub open spec fn spec_expr(ts: Seq<TokenModel>, p: int) -> Parsed
    decreases ts.len() - p, 3int,
{
    let t = spec_term(ts, p);
    if t.fail is None && p < t.pos <= ts.len() {
        spec_expr_tail(ts, t.instrs, t.pos)
    } else {
        t
    }
}

/// The `+ term` and `- term` parts that follow, after the instructions `acc`.
pub open spec fn spec_expr_tail(ts: Seq<TokenModel>, acc: Seq<InstrModel>, pos: int) -> Parsed
    decreases ts.len() - pos, 0int,
{
    if tok(ts, pos) is Plus || tok(ts, pos) is Minus {
        let op = if tok(ts, pos) is Plus { InstrModel::Add } else { InstrModel::Sub };
        let r = spec_term(ts, pos + 1);
        if r.fail is Some {
            Parsed { instrs: acc + r.instrs, pos: r.pos, fail: r.fail }
        } else if pos < r.pos <= ts.len() {
            spec_expr_tail(ts, acc + r.instrs + seq![op], r.pos)
        } else {
            Parsed { instrs: acc + r.instrs, pos: r.pos, fail: Some(ParseFailure::UnexpectedToken(pos as usize)) }
        }
    } else {
        Parsed { instrs: acc, pos, fail: None }
    }
}

/// A product or quotient of unary operands from `p`.
pub open spec fn spec_term(ts: Seq<TokenModel>, p: int) -> Parsed
    decreases ts.len() - p, 2int,
{
    let u = spec_unary(ts, p);
    if u.fail is None && p < u.pos <= ts.len() {
        spec_term_tail(ts, u.instrs, u.pos)
    } else {
        u
    }
}

/// The `* unary` and `/ unary` parts that follow, after the instructions
/// `acc`.
pub open spec fn spec_term_tail(ts: Seq<TokenModel>, acc: Seq<InstrModel>, pos: int) -> Parsed
    decreases ts.len() - pos, 0int,
{
    if tok(ts, pos) is Star || tok(ts, pos) is Slash {
        let op = if tok(ts, pos) is Star { InstrModel::Mul } else { InstrModel::Div };
        let r = spec_unary(ts, pos + 1);
        if r.fail is Some {
            Parsed { instrs: acc + r.instrs, pos: r.pos, fail: r.fail }
        } else if pos < r.pos <= ts.len() {
            spec_term_tail(ts, acc + r.instrs + seq![op], r.pos)
        } else {
            Parsed { instrs: acc + r.instrs, pos: r.pos, fail: Some(ParseFailure::UnexpectedToken(pos as usize)) }
        }
    } else {
        Parsed { instrs: acc, pos, fail: None }
    }
}

/// An operand with any number of leading minus signs.
pub open spec fn spec_unary(ts: Seq<TokenModel>, p: int) -> Parsed
    decreases ts.len() - p, 1int,
{
    if tok(ts, p) is Minus {
        let u = spec_unary(ts, p + 1);
        if u.fail is Some {
            u
        } else {
            Parsed { instrs: u.instrs.push(InstrModel::Neg), pos: u.pos, fail: None }
        }
    } else {
        spec_primary(ts, p)
    }
}

/// A number, a variable, a function call or a parenthesized expression.
pub open spec fn spec_primary(ts: Seq<TokenModel>, p: int) -> Parsed
    decreases ts.len() - p, 0int,
{
    match tok(ts, p) {
        TokenModel::Number(text, unit) => Parsed {
            instrs: seq![InstrModel::Number(text, unit)],
            pos: p + 1,
            fail: None,
        },
        TokenModel::Ident(name) => if tok(ts, p + 1) is LParen {
            let a = spec_expr(ts, p + 2);
            if a.fail is None && p + 2 < a.pos <= ts.len() {
                spec_call_args(ts, name, a.instrs, 1, a.pos)
            } else {
                a
            }
        } else {
            Parsed { instrs: seq![InstrModel::Var(name)], pos: p + 1, fail: None }
        },
        TokenModel::LParen => {
            let e = spec_expr(ts, p + 1);
            if e.fail is Some {
                e
            } else if tok(ts, e.pos) is RParen {
                Parsed { instrs: e.instrs, pos: e.pos + 1, fail: None }
            } else {
                Parsed { instrs: e.instrs, pos: e.pos + 1, fail: Some(ParseFailure::ExpectedRParen(e.pos as usize)) }
            }
        },
        _ => Parsed { instrs: Seq::empty(), pos: p + 1, fail: Some(ParseFailure::UnexpectedToken(p as usize)) },
    }
}

/// The further `, expr` arguments of a call and its closing `)`, after the
/// instructions `acc` of `count` arguments.
pub open spec fn spec_call_args(ts: Seq<TokenModel>, name: Seq<char>, acc: Seq<InstrModel>, count: nat, pos: int) -> Parsed
    decreases ts.len() - pos, 0int,
{
    if tok(ts, pos) is Comma {
        let b = spec_expr(ts, pos + 1);
        if b.fail is Some {
            Parsed { instrs: acc + b.instrs, pos: b.pos, fail: b.fail }
        } else if pos < b.pos <= ts.len() {
            spec_call_args(ts, name, acc + b.instrs, count + 1, b.pos)
        } else {
            Parsed { instrs: acc + b.instrs, pos: b.pos, fail: Some(ParseFailure::UnexpectedToken(pos as usize)) }
        }
    } else if tok(ts, pos) is RParen {
        Parsed { instrs: acc.push(InstrModel::Call(name, count)), pos: pos + 1, fail: None }
    } else {
        Parsed { instrs: acc, pos: pos + 1, fail: Some(ParseFailure::ExpectedRParen(pos as usize)) }
    }
}


/// The tokens as values.
pub open spec fn spec_token_values(ts: Seq<ExprToken>) -> Seq<TokenModel> {
    ts.map_values(|x: ExprToken| x@)
}

/// The instructions as values.
pub open spec fn spec_instr_values(v: Seq<Instr>) -> Seq<InstrModel> {
    v.map_values(|x: Instr| x@)
}

fn copy_string(s: &String) -> (r: String)
    ensures
        r@ == s@,
{
    String::from_str(s.as_str())
}

/// The token at a position, `Eof` past the end.
fn token_at(ts: &Vec<ExprToken>, i: usize) -> (r: ExprToken)
    ensures
        r@ == tok(spec_token_values(ts@), i as int),
{
    if i < ts.len() {
        match &ts[i] {
            ExprToken::Number { text, unit } => ExprToken::Number { text: copy_string(text), unit: copy_string(unit) },
            ExprToken::Ident(n) => ExprToken::Ident(copy_string(n)),
            ExprToken::Plus => ExprToken::Plus,
            ExprToken::Minus => ExprToken::Minus,
            ExprToken::Star => ExprToken::Star,
            ExprToken::Slash => ExprToken::Slash,
            ExprToken::LParen => ExprToken::LParen,
            ExprToken::RParen => ExprToken::RParen,
            ExprToken::Comma => ExprToken::Comma,
            ExprToken::Eof => ExprToken::Eof,
        }
    } else {
        ExprToken::Eof
    }
}

fn parse_expr(ts: &Vec<ExprToken>, p: usize, out: &mut Vec<Instr>) -> (r: (usize, Option<ParseFailure>))
    requires
        p <= ts@.len(),
        ts@.len() < usize::MAX,
    ensures
        ({
            let sp = spec_expr(spec_token_values(ts@), p as int);
            &&& spec_instr_values(final(out)@) == spec_instr_values(old(out)@) + sp.instrs
            &&& r.0 == sp.pos
            &&& r.1 == sp.fail
            &&& sp.fail is None ==> p < sp.pos <= ts@.len()
            &&& r.0 <= ts@.len() + 1
        }),
    decreases ts@.len() - p, 3int,
{
    let ghost tv = spec_token_values(ts@);
    let ghost base = spec_instr_values(old(out)@);
    let (tpos, tfail) = parse_term(ts, p, out);
    if tfail.is_some() {
        return (tpos, tfail);
    }
    let mut pos = tpos;
    let ghost mut acc = spec_term(tv, p as int).instrs;
    loop
        invariant
            tv == spec_token_values(ts@),
            base == spec_instr_values(old(out)@),
            ts@.len() < usize::MAX,
            p < pos <= ts@.len(),
            spec_instr_values(out@) == base + acc,
            spec_expr(tv, p as int) == spec_expr_tail(tv, acc, pos as int),
        decreases ts@.len() - pos,
    {
        let t = token_at(ts, pos);
        let op = match t {
            ExprToken::Plus => Instr::Add,
            ExprToken::Minus => Instr::Sub,
            _ => {
                return (pos, None);
            },
        };
        let ghost before = spec_instr_values(out@);
        let (rpos, rfail) = parse_term(ts, pos + 1, out);
        if rfail.is_some() {
            assert(spec_instr_values(out@) == base + (acc + spec_term(tv, pos + 1).instrs));
            return (rpos, rfail);
        }
        let ghost mid = spec_instr_values(out@);
        out.push(op);
        proof {
            assert(spec_instr_values(out@) =~= mid.push(op@));
            acc = acc + spec_term(tv, pos + 1).instrs + seq![op@];
            assert(spec_instr_values(out@) =~= base + acc);
        }
        pos = rpos;
    }
}

fn parse_term(ts: &Vec<ExprToken>, p: usize, out: &mut Vec<Instr>) -> (r: (usize, Option<ParseFailure>))
    requires
        p <= ts@.len(),
        ts@.len() < usize::MAX,
    ensures
        ({
            let sp = spec_term(spec_token_values(ts@), p as int);
            &&& spec_instr_values(final(out)@) == spec_instr_values(old(out)@) + sp.instrs
            &&& r.0 == sp.pos
            &&& r.1 == sp.fail
            &&& sp.fail is None ==> p < sp.pos <= ts@.len()
            &&& r.0 <= ts@.len() + 1
        }),
    decreases ts@.len() - p, 2int,
{
    let ghost tv = spec_token_values(ts@);
    let ghost base = spec_instr_values(old(out)@);
    let (upos, ufail) = parse_unary(ts, p, out);
    if ufail.is_some() {
        return (upos, ufail);
    }
    let mut pos = upos;
    let ghost mut acc = spec_unary(tv, p as int).instrs;
    loop
        invariant
            tv == spec_token_values(ts@),
            base == spec_instr_values(old(out)@),
            ts@.len() < usize::MAX,
            p < pos <= ts@.len(),
            spec_instr_values(out@) == base + acc,
            spec_term(tv, p as int) == spec_term_tail(tv, acc, pos as int),
        decreases ts@.len() - pos,
    {
        let t = token_at(ts, pos);
        let op = match t {
            ExprToken::Star => Instr::Mul,
            ExprToken::Slash => Instr::Div,
            _ => {
                return (pos, None);
            },
        };
        let (rpos, rfail) = parse_unary(ts, pos + 1, out);
        if rfail.is_some() {
            assert(spec_instr_values(out@) == base + (acc + spec_unary(tv, pos + 1).instrs));
            return (rpos, rfail);
        }
        let ghost mid = spec_instr_values(out@);
        out.push(op);
        proof {
            assert(spec_instr_values(out@) =~= mid.push(op@));
            acc = acc + spec_unary(tv, pos + 1).instrs + seq![op@];
            assert(spec_instr_values(out@) =~= base + acc);
        }
        pos = rpos;
    }
}

fn parse_unary(ts: &Vec<ExprToken>, p: usize, out: &mut Vec<Instr>) -> (r: (usize, Option<ParseFailure>))
    requires
        p <= ts@.len(),
        ts@.len() < usize::MAX,
    ensures
        ({
            let sp = spec_unary(spec_token_values(ts@), p as int);
            &&& spec_instr_values(final(out)@) == spec_instr_values(old(out)@) + sp.instrs
            &&& r.0 == sp.pos
            &&& r.1 == sp.fail
            &&& sp.fail is None ==> p < sp.pos <= ts@.len()
            &&& r.0 <= ts@.len() + 1
        }),
    decreases ts@.len() - p, 1int,
{
    let t = token_at(ts, p);
    match t {
        ExprToken::Minus => {
            let (upos, ufail) = parse_unary(ts, p + 1, out);
            if ufail.is_some() {
                return (upos, ufail);
            }
            let ghost mid = spec_instr_values(out@);
            out.push(Instr::Neg);
            assert(spec_instr_values(out@) =~= mid.push(InstrModel::Neg));
            (upos, None)
        },
        _ => parse_primary(ts, p, out),
    }
}

fn parse_primary(ts: &Vec<ExprToken>, p: usize, out: &mut Vec<Instr>) -> (r: (usize, Option<ParseFailure>))
    requires
        p <= ts@.len(),
        ts@.len() < usize::MAX,
    ensures
        ({
            let sp = spec_primary(spec_token_values(ts@), p as int);
            &&& spec_instr_values(final(out)@) == spec_instr_values(old(out)@) + sp.instrs
            &&& r.0 == sp.pos
            &&& r.1 == sp.fail
            &&& sp.fail is None ==> p < sp.pos <= ts@.len()
            &&& r.0 <= ts@.len() + 1
        }),
    decreases ts@.len() - p, 0int,
{
    let ghost tv = spec_token_values(ts@);
    let ghost base = spec_instr_values(old(out)@);
    let t = token_at(ts, p);
    match t {
        ExprToken::Number { text, unit } => {
            let ins = Instr::Number { text, unit };
            out.push(ins);
            assert(spec_instr_values(out@) =~= base + seq![ins@]);
            (p + 1, None)
        },
        ExprToken::Ident(name) => {
            let next = token_at(ts, p + 1);
            match next {
                ExprToken::LParen => {
                    let (apos, afail) = parse_expr(ts, p + 2, out);
                    if afail.is_some() {
                        return (apos, afail);
                    }
                    let mut pos = apos;
                    let mut count: usize = 1;
                    let ghost mut acc = spec_expr(tv, p + 2).instrs;
                    loop
                        invariant
                            tv == spec_token_values(ts@),
                            base == spec_instr_values(old(out)@),
                            ts@.len() < usize::MAX,
                            p < pos <= ts@.len(),
                            1 <= count <= pos,
                            spec_instr_values(out@) == base + acc,
                            spec_primary(tv, p as int) == spec_call_args(tv, name@, acc, count as nat, pos as int),
                        decreases ts@.len() - pos,
                    {
                        let t2 = token_at(ts, pos);
                        match t2 {
                            ExprToken::Comma => {
                                let (bpos, bfail) = parse_expr(ts, pos + 1, out);
                                if bfail.is_some() {
                                    assert(spec_instr_values(out@) == base + (acc + spec_expr(tv, pos + 1).instrs));
                                    return (bpos, bfail);
                                }
                                proof {
                                    acc = acc + spec_expr(tv, pos + 1).instrs;
                                }
                                count = count + 1;
                                pos = bpos;
                            },
                            ExprToken::RParen => {
                                let ins = Instr::Call { name: copy_string(&name), argc: count };
                                let ghost mid = spec_instr_values(out@);
                                out.push(ins);
                                assert(spec_instr_values(out@) =~= mid.push(ins@));
                                return (pos + 1, None);
                            },
                            _ => {
                                return (pos + 1, Some(ParseFailure::ExpectedRParen(pos)));
                            },
                        }
                    }
                },
                _ => {
                    let ins = Instr::Var(name);
                    out.push(ins);
                    assert(spec_instr_values(out@) =~= base + seq![ins@]);
                    (p + 1, None)
                },
            }
        },
        ExprToken::LParen => {
            let (epos, efail) = parse_expr(ts, p + 1, out);
            if efail.is_some() {
                return (epos, efail);
            }
            let close = token_at(ts, epos);
            match close {
                ExprToken::RParen => (epos + 1, None),
                _ => (epos + 1, Some(ParseFailure::ExpectedRParen(epos))),
            }
        },
        _ => {
            assert(spec_instr_values(out@) =~= base + Seq::<InstrModel>::empty());
            (p + 1, Some(ParseFailure::UnexpectedToken(p)))
        },
    }
}

/// How reading an expression ended.
#[derive(Debug, Clone, Copy, PartialEq, Eq, Structural)]
pub enum ProgramEnd {
    /// Every token was read.
    Complete,
    /// Reading stopped short.
    Failed(ParseFailure),
    /// A whole expression was read, with tokens left after it.
    TrailingTokens,
}

/// How reading the tokens ends.
pub open spec fn spec_program_end(ts: Seq<TokenModel>) -> ProgramEnd {
    let e = spec_expr(ts, 0);
    match e.fail {
        Some(f) => ProgramEnd::Failed(f),
        None => if tok(ts, e.pos) is Eof {
            ProgramEnd::Complete
        } else {
            ProgramEnd::TrailingTokens
        },
    }
}

/// A compiled expression: its tokens, its instructions, and how reading it
/// ended.
#[derive(Debug, Clone)]
pub struct Program {
    pub tokens: Vec<ExprToken>,
    pub instrs: Vec<Instr>,
    pub end: ProgramEnd,
}

/// The program of a list of tokens.
pub fn parse_tokens(tokens: Vec<ExprToken>) -> (r: Program)
    requires
        tokens@.len() < usize::MAX,
    ensures
        r.tokens@ == tokens@,
        spec_instr_values(r.instrs@) == spec_expr(spec_token_values(tokens@), 0).instrs,
        r.end == spec_program_end(spec_token_values(tokens@)),
{
    let mut instrs: Vec<Instr> = Vec::new();
    let (pos, fail) = parse_expr(&tokens, 0, &mut instrs);
    assert(spec_instr_values(instrs@) =~= spec_expr(spec_token_values(tokens@), 0).instrs);
    let end = match fail {
        Some(f) => ProgramEnd::Failed(f),
        None => {
            let t = token_at(&tokens, pos);
            match t {
                ExprToken::Eof => ProgramEnd::Complete,
                _ => ProgramEnd::TrailingTokens,
            }
        },
    };
    Program { tokens, instrs, end }
}

/// Compile an expression: its tokens, then its program. A character no
/// token starts with, or a numeric literal that is no number, is an error.
pub fn compile(input: &str) -> (r: Result<Program, ExprError>)
    requires
        input@.len() + 1 < usize::MAX,
    ensures
        match spec_tokens(input@) {
            Ok(ts) => r matches Ok(prog) && spec_token_values(prog.tokens@) == ts && spec_instr_values(prog.instrs@)
                == spec_expr(ts, 0).instrs && prog.end == spec_program_end(ts),
            Err(LexError::UnexpectedChar(c, q)) => r matches Err(ExprError::UnexpectedChar(c2, q2)) && c2 == c
                && q2 == q,
            Err(LexError::InvalidNumber(text)) => r matches Err(ExprError::ParseError(m)) && m@ == "invalid number: "@
                + text,
        },
{
    let tokens = tokenize(input)?;
    proof {
        lemma_tokens_len(input@, 0);
    }
    Ok(parse_tokens(tokens))
}


// ---------------------------------------------------------------------------
// Stack discipline
// ---------------------------------------------------------------------------

/// The number of values on the stack after one instruction, from `k`
/// values; none when the instruction lacks operands.
pub open spec fn spec_step_depth(i: InstrModel, k: int) -> Option<int> {
    match i {
        InstrModel::Number(_, _) | InstrModel::Var(_) => Some(k + 1),
        InstrModel::Neg => if k >= 1 { Some(k) } else { None },
        InstrModel::Add | InstrModel::Sub | InstrModel::Mul | InstrModel::Div => if k >= 2 {
            Some(k - 1)
        } else {
            None
        },
        InstrModel::Call(_, n) => if n >= 1 && k >= n { Some(k - n + 1) } else { None },
    }
}

/// The number of values on the stack after running the instructions from
/// `d` values; none when an instruction lacks operands.
pub open spec fn spec_run_depth(instrs: Seq<InstrModel>, d: int) -> Option<int>
    decreases instrs.len(),
{
    if instrs.len() == 0 {
        Some(d)
    } else {
        match spec_run_depth(instrs.drop_last(), d) {
            Some(k) => spec_step_depth(instrs.last(), k),
            None => None,
        }
    }
}

proof fn lemma_run_depth_append(a: Seq<InstrModel>, b: Seq<InstrModel>, d: int)
    ensures
        spec_run_depth(a + b, d) == match spec_run_depth(a, d) {
            Some(k) => spec_run_depth(b, k),
            None => None,
        },
    decreases b.len(),
{
    if b.len() == 0 {
        assert(a + b =~= a);
    } else {
        lemma_run_depth_append(a, b.drop_last(), d);
        assert((a + b).drop_last() =~= a + b.drop_last());
        assert((a + b).last() == b.last());
        match spec_run_depth(a, d) {
            Some(k) => {},
            None => {},
        }
    }
}

proof fn lemma_run_push(s: Seq<InstrModel>, i: InstrModel, d: int)
    ensures
        spec_run_depth(s.push(i), d) == match spec_run_depth(s, d) {
            Some(k) => spec_step_depth(i, k),
            None => None,
        },
{
    assert(s.push(i).drop_last() =~= s);
    assert(s.push(i).last() == i);
}

proof fn lemma_run_single(i: InstrModel, d: int)
    ensures
        spec_run_depth(seq![i], d) == spec_step_depth(i, d),
{
    lemma_run_push(Seq::empty(), i, d);
    assert(Seq::<InstrModel>::empty().push(i) =~= seq![i]);
}

/// Lemma for the tails: operands joined by binary operators add one value.
proof fn lemma_run_binary(acc: Seq<InstrModel>, r: Seq<InstrModel>, op: InstrModel, d: int)
    requires
        spec_run_depth(acc, d) == Some(d + 1),
        forall|e: int| e >= 0 ==> spec_run_depth(r, e) == Some(e + 1),
        op is Add || op is Sub || op is Mul || op is Div,
        d >= 0,
    ensures
        spec_run_depth(acc + r + seq![op], d) == Some(d + 1),
{
    lemma_run_depth_append(acc, r, d);
    lemma_run_depth_append(acc + r, seq![op], d);
    assert(spec_run_depth(r, d + 1) == Some(d + 2));
    lemma_run_single(op, d + 2);
}

/// What every read that succeeds gives: instructions that, run from any
/// number of values, leave exactly one more, and never lack an operand.
pub open spec fn spec_one_value(instrs: Seq<InstrModel>) -> bool {
    forall|d: int| d >= 0 ==> #[trigger] spec_run_depth(instrs, d) == Some(d + 1)
}

proof fn lemma_expr_one_value(ts: Seq<TokenModel>, p: int)
    ensures
        spec_expr(ts, p).fail is None ==> spec_one_value(spec_expr(ts, p).instrs),
    decreases ts.len() - p, 3int,
{
    lemma_term_one_value(ts, p);
    let t = spec_term(ts, p);
    if t.fail is None && p < t.pos <= ts.len() {
        lemma_expr_tail_one_value(ts, t.instrs, t.pos);
    }
}

proof fn lemma_expr_tail_one_value(ts: Seq<TokenModel>, acc: Seq<InstrModel>, pos: int)
    requires
        spec_one_value(acc),
    ensures
        spec_expr_tail(ts, acc, pos).fail is None ==> spec_one_value(spec_expr_tail(ts, acc, pos).instrs),
    decreases ts.len() - pos, 0int,
{
    if tok(ts, pos) is Plus || tok(ts, pos) is Minus {
        let op = if tok(ts, pos) is Plus { InstrModel::Add } else { InstrModel::Sub };
        lemma_term_one_value(ts, pos + 1);
        let r = spec_term(ts, pos + 1);
        if r.fail is None && pos < r.pos <= ts.len() {
            assert forall|d: int| d >= 0 implies #[trigger] spec_run_depth(acc + r.instrs + seq![op], d) == Some(d + 1) by {
                lemma_run_binary(acc, r.instrs, op, d);
            }
            lemma_expr_tail_one_value(ts, acc + r.instrs + seq![op], r.pos);
        }
    }
}

proof fn lemma_term_one_value(ts: Seq<TokenModel>, p: int)
    ensures
        spec_term(ts, p).fail is None ==> spec_one_value(spec_term(ts, p).instrs),
    decreases ts.len() - p, 2int,
{
    lemma_unary_one_value(ts, p);
    let u = spec_unary(ts, p);
    if u.fail is None && p < u.pos <= ts.len() {
        lemma_term_tail_one_value(ts, u.instrs, u.pos);
    }
}

proof fn lemma_term_tail_one_value(ts: Seq<TokenModel>, acc: Seq<InstrModel>, pos: int)
    requires
        spec_one_value(acc),
    ensures
        spec_term_tail(ts, acc, pos).fail is None ==> spec_one_value(spec_term_tail(ts, acc, pos).instrs),
    decreases ts.len() - pos, 0int,
{
    if tok(ts, pos) is Star || tok(ts, pos) is Slash {
        let op = if tok(ts, pos) is Star { InstrModel::Mul } else { InstrModel::Div };
        lemma_unary_one_value(ts, pos + 1);
        let r = spec_unary(ts, pos + 1);
        if r.fail is None && pos < r.pos <= ts.len() {
            assert forall|d: int| d >= 0 implies #[trigger] spec_run_depth(acc + r.instrs + seq![op], d) == Some(d + 1) by {
                lemma_run_binary(acc, r.instrs, op, d);
            }
            lemma_term_tail_one_value(ts, acc + r.instrs + seq![op], r.pos);
        }
    }
}

proof fn lemma_unary_one_value(ts: Seq<TokenModel>, p: int)
    ensures
        spec_unary(ts, p).fail is None ==> spec_one_value(spec_unary(ts, p).instrs),
    decreases ts.len() - p, 1int,
{
    if tok(ts, p) is Minus {
        lemma_unary_one_value(ts, p + 1);
        let u = spec_unary(ts, p + 1);
        if u.fail is None {
            assert forall|d: int| d >= 0 implies #[trigger] spec_run_depth(u.instrs.push(InstrModel::Neg), d) == Some(d + 1) by {
                lemma_run_push(u.instrs, InstrModel::Neg, d);
                assert(spec_run_depth(u.instrs, d) == Some(d + 1));
            }
        }
    } else {
        lemma_primary_one_value(ts, p);
    }
}

proof fn lemma_primary_one_value(ts: Seq<TokenModel>, p: int)
    ensures
        spec_primary(ts, p).fail is None ==> spec_one_value(spec_primary(ts, p).instrs),
    decreases ts.len() - p, 0int,
{
    match tok(ts, p) {
        TokenModel::Number(text, unit) => {
            assert forall|d: int| d >= 0 implies #[trigger] spec_run_depth(seq![InstrModel::Number(text, unit)], d) == Some(d + 1) by {
                lemma_run_single(InstrModel::Number(text, unit), d);
            }
        },
        TokenModel::Ident(name) => {
            if tok(ts, p + 1) is LParen {
                lemma_expr_one_value(ts, p + 2);
                let a = spec_expr(ts, p + 2);
                if a.fail is None && p + 2 < a.pos <= ts.len() {
                    lemma_call_args_one_value(ts, name, a.instrs, 1, a.pos);
                }
            } else {
                assert forall|d: int| d >= 0 implies #[trigger] spec_run_depth(seq![InstrModel::Var(name)], d) == Some(d + 1) by {
                    lemma_run_single(InstrModel::Var(name), d);
                }
            }
        },
        TokenModel::LParen => {
            lemma_expr_one_value(ts, p + 1);
        },
        _ => {},
    }
}

proof fn lemma_call_args_one_value(ts: Seq<TokenModel>, name: Seq<char>, acc: Seq<InstrModel>, count: nat, pos: int)
    requires
        count >= 1,
        forall|d: int| d >= 0 ==> #[trigger] spec_run_depth(acc, d) == Some(d + count),
    ensures
        spec_call_args(ts, name, acc, count, pos).fail is None ==> spec_one_value(
            spec_call_args(ts, name, acc, count, pos).instrs,
        ),
    decreases ts.len() - pos, 0int,
{
    if tok(ts, pos) is Comma {
        lemma_expr_one_value(ts, pos + 1);
        let b = spec_expr(ts, pos + 1);
        if b.fail is None && pos < b.pos <= ts.len() {
            assert forall|d: int| d >= 0 implies #[trigger] spec_run_depth(acc + b.instrs, d) == Some(d + count + 1) by {
                lemma_run_depth_append(acc, b.instrs, d);
                assert(spec_run_depth(b.instrs, d + count) == Some(d + count + 1));
            }
            lemma_call_args_one_value(ts, name, acc + b.instrs, count + 1, b.pos);
        }
    } else if tok(ts, pos) is RParen {
        assert forall|d: int| d >= 0 implies #[trigger] spec_run_depth(acc.push(InstrModel::Call(name, count)), d) == Some(d + 1) by {
            lemma_run_push(acc, InstrModel::Call(name, count), d);
            assert(spec_run_depth(acc, d) == Some(d + count));
        }
    }
}

/// Every operator of a compiled program finds its operands, and a program
/// read completely leaves exactly one value: its result.
pub proof fn lemma_program_leaves_one_value(ts: Seq<TokenModel>)
    ensures
        spec_expr(ts, 0).fail is None ==> spec_run_depth(spec_expr(ts, 0).instrs, 0) == Some(1int),
        spec_program_end(ts) == ProgramEnd::Complete ==> spec_run_depth(spec_expr(ts, 0).instrs, 0) == Some(1int),
{
    lemma_expr_one_value(ts, 0);
    if spec_expr(ts, 0).fail is None {
        assert(spec_run_depth(spec_expr(ts, 0).instrs, 0) == Some(0int + 1));
    }
}


// ---------------------------------------------------------------------------
// Numbers in general
// ---------------------------------------------------------------------------

// ---------------------------------------------------------------------------
// Associativity
// ---------------------------------------------------------------------------

/// The instruction of an additive operator token: `+` adds, `-` subtracts.
pub open spec fn spec_additive_instr(t: TokenModel) -> InstrModel {
    if t is Plus {
        InstrModel::Add
    } else {
        InstrModel::Sub
    }
}

/// The instruction of a multiplicative operator token: `*` multiplies, `/`
/// divides.
pub open spec fn spec_multiplicative_instr(t: TokenModel) -> InstrModel {
    if t is Star {
        InstrModel::Mul
    } else {
        InstrModel::Div
    }
}

/// `+` and `-` associate to the left: when the tokens from `p` are three
/// terms `a`, `b`, `c` (ending at `q1`, `q2`, `q3`) joined by two additive
/// operators, the expression read from `p` is the program of `a`, then of
/// `b` and the first operator, then of `c` and the second operator; that
/// is, `a - b - c` is read as `(a - b) - c`.
pub proof fn lemma_sum_is_left_associative(ts: Seq<TokenModel>, p: int, q1: int, q2: int, q3: int)
    requires
        0 <= p < q1 < q2 < q3 <= ts.len(),
        spec_term(ts, p).fail is None && spec_term(ts, p).pos == q1,
        tok(ts, q1) is Plus || tok(ts, q1) is Minus,
        spec_term(ts, q1 + 1).fail is None && spec_term(ts, q1 + 1).pos == q2,
        tok(ts, q2) is Plus || tok(ts, q2) is Minus,
        spec_term(ts, q2 + 1).fail is None && spec_term(ts, q2 + 1).pos == q3,
        !(tok(ts, q3) is Plus || tok(ts, q3) is Minus),
    ensures
        spec_expr(ts, p) == (Parsed {
            instrs: spec_term(ts, p).instrs + spec_term(ts, q1 + 1).instrs + seq![spec_additive_instr(tok(ts, q1))]
                + spec_term(ts, q2 + 1).instrs + seq![spec_additive_instr(tok(ts, q2))],
            pos: q3,
            fail: None,
        }),
{
    let a = spec_term(ts, p).instrs;
    let b = spec_term(ts, q1 + 1).instrs;
    let c = spec_term(ts, q2 + 1).instrs;
    let o1 = spec_additive_instr(tok(ts, q1));
    let o2 = spec_additive_instr(tok(ts, q2));
    assert(spec_expr_tail(ts, a + b + seq![o1] + c + seq![o2], q3) == (Parsed {
        instrs: a + b + seq![o1] + c + seq![o2],
        pos: q3,
        fail: None,
    }));
    assert(spec_expr_tail(ts, a + b + seq![o1], q2) == spec_expr_tail(ts, a + b + seq![o1] + c + seq![o2], q3));
    assert(spec_expr_tail(ts, a, q1) == spec_expr_tail(ts, a + b + seq![o1], q2));
    assert(spec_expr(ts, p) == spec_expr_tail(ts, a, q1));
}

/// Operands: a number is pushed as written, a name not followed by `(` is
/// a variable, and a minus sign negates the operand after it, once that
/// operand is computed.
pub proof fn lemma_operands(ts: Seq<TokenModel>, p: int)
    requires
        0 <= p < ts.len(),
    ensures
        ts[p] matches TokenModel::Number(text, unit) ==> spec_unary(ts, p) == (Parsed {
            instrs: seq![InstrModel::Number(text, unit)],
            pos: p + 1,
            fail: None,
        }),
        ts[p] matches TokenModel::Ident(name) ==> (!(tok(ts, p + 1) is LParen) ==> spec_unary(ts, p) == (Parsed {
            instrs: seq![InstrModel::Var(name)],
            pos: p + 1,
            fail: None,
        })),
        (ts[p] is Minus && spec_unary(ts, p + 1).fail is None) ==> spec_unary(ts, p) == (Parsed {
            instrs: spec_unary(ts, p + 1).instrs.push(InstrModel::Neg),
            pos: spec_unary(ts, p + 1).pos,
            fail: None,
        }),
{
    assert(tok(ts, p) == ts[p]);
    if !(ts[p] is Minus) {
        assert(spec_unary(ts, p) == spec_primary(ts, p));
    }
}

/// A parenthesized expression is read as the expression inside, and the
/// reading goes on after the `)`.
pub proof fn lemma_parentheses_group(ts: Seq<TokenModel>, p: int, q: int)
    requires
        0 <= p < q < ts.len(),
        ts[p] is LParen,
        spec_expr(ts, p + 1).fail is None && spec_expr(ts, p + 1).pos == q,
        ts[q] is RParen,
    ensures
        spec_primary(ts, p) == (Parsed { instrs: spec_expr(ts, p + 1).instrs, pos: q + 1, fail: None }),
{
}

/// A call of `name` on two arguments, `name(a, b)`, computes `a`, then `b`,
/// then calls `name` with two values; the reading goes on after the `)`.
pub proof fn lemma_call_with_two_arguments(ts: Seq<TokenModel>, p: int, q1: int, q2: int)
    requires
        0 <= p,
        p + 2 < q1 < q2 < ts.len(),
        ts[p] is Ident,
        ts[p + 1] is LParen,
        spec_expr(ts, p + 2).fail is None && spec_expr(ts, p + 2).pos == q1,
        ts[q1] is Comma,
        spec_expr(ts, q1 + 1).fail is None && spec_expr(ts, q1 + 1).pos == q2,
        ts[q2] is RParen,
    ensures
        spec_primary(ts, p) == (Parsed {
            instrs: spec_expr(ts, p + 2).instrs + spec_expr(ts, q1 + 1).instrs + seq![
                InstrModel::Call(ts[p]->Ident_0, 2),
            ],
            pos: q2 + 1,
            fail: None,
        }),
{
    let name = ts[p]->Ident_0;
    let a = spec_expr(ts, p + 2).instrs;
    let b = spec_expr(ts, q1 + 1).instrs;
    assert(spec_call_args(ts, name, a + b, 2, q2) == (Parsed {
        instrs: (a + b).push(InstrModel::Call(name, 2)),
        pos: q2 + 1,
        fail: None,
    }));
    assert(spec_call_args(ts, name, a, 1, q1) == spec_call_args(ts, name, a + b, 2, q2));
    assert((a + b).push(InstrModel::Call(name, 2)) =~= a + b + seq![InstrModel::Call(name, 2)]);
}

/// The token a punctuation character stands for: `+ - * / ( ) ,`.
pub open spec fn spec_punctuation_token(c: char) -> Option<TokenModel> {
    if c == '+' {
        Some(TokenModel::Plus)
    } else if c == '-' {
        Some(TokenModel::Minus)
    } else if c == '*' {
        Some(TokenModel::Star)
    } else if c == '/' {
        Some(TokenModel::Slash)
    } else if c == '(' {
        Some(TokenModel::LParen)
    } else if c == ')' {
        Some(TokenModel::RParen)
    } else if c == ',' {
        Some(TokenModel::Comma)
    } else {
        None
    }
}

/// Each punctuation character is a token of its own, one character long,
/// wherever it stands; and whitespace before a token is skipped, so a
/// whitespace character changes nothing about the token that follows.
pub proof fn lemma_punctuation_and_whitespace(s: Seq<char>, p: int)
    requires
        0 <= p < s.len(),
    ensures
        spec_punctuation_token(s[p]) matches Some(t) ==> spec_next_token(s, p) == Ok::<(TokenModel, int), LexError>(
            (t, p + 1),
        ),
        spec_is_whitespace(s[p]) ==> spec_next_token(s, p) == spec_next_token(s, p + 1),
{
    if spec_punctuation_token(s[p]) is Some {
        assert(!spec_is_whitespace(s[p]));
        assert(spec_skip_whitespace(s, p) == p);
    }
}

/// A call of `name` on one argument, `name(a)`, computes `a`, then calls
/// `name` with one value.
pub proof fn lemma_call_with_one_argument(ts: Seq<TokenModel>, p: int, q: int)
    requires
        0 <= p,
        p + 2 < q < ts.len(),
        ts[p] is Ident,
        ts[p + 1] is LParen,
        spec_expr(ts, p + 2).fail is None && spec_expr(ts, p + 2).pos == q,
        ts[q] is RParen,
    ensures
        spec_primary(ts, p) == (Parsed {
            instrs: spec_expr(ts, p + 2).instrs.push(InstrModel::Call(ts[p]->Ident_0, 1)),
            pos: q + 1,
            fail: None,
        }),
{
}

/// Where reading an operand fails: a token that cannot start one (an
/// operator other than `-`, a `)`, a `,`, or the end) is unexpected at its
/// own position, and a parenthesized expression not closed by `)` expects
/// one where it stopped.
pub proof fn lemma_operand_failures(ts: Seq<TokenModel>, p: int)
    requires
        0 <= p,
    ensures
        (tok(ts, p) is Plus || tok(ts, p) is Star || tok(ts, p) is Slash || tok(ts, p) is RParen || tok(ts, p) is Comma
            || tok(ts, p) is Eof) ==> spec_unary(ts, p).fail == Some(ParseFailure::UnexpectedToken(p as usize)),
        (tok(ts, p) is LParen && spec_expr(ts, p + 1).fail is None && !(tok(ts, spec_expr(ts, p + 1).pos) is RParen))
            ==> spec_primary(ts, p).fail == Some(ParseFailure::ExpectedRParen(spec_expr(ts, p + 1).pos as usize)),
{
}

/// `*` and `/` associate to the left: when the tokens from `p` are three
/// unary operands `a`, `b`, `c` (ending at `q1`, `q2`, `q3`) joined by two
/// multiplicative operators, the term read from `p` is the program of `a`,
/// then of `b` and the first operator, then of `c` and the second
/// operator; that is, `a / b / c` is read as `(a / b) / c`.
pub proof fn lemma_product_is_left_associative(ts: Seq<TokenModel>, p: int, q1: int, q2: int, q3: int)
    requires
        0 <= p < q1 < q2 < q3 <= ts.len(),
        spec_unary(ts, p).fail is None && spec_unary(ts, p).pos == q1,
        tok(ts, q1) is Star || tok(ts, q1) is Slash,
        spec_unary(ts, q1 + 1).fail is None && spec_unary(ts, q1 + 1).pos == q2,
        tok(ts, q2) is Star || tok(ts, q2) is Slash,
        spec_unary(ts, q2 + 1).fail is None && spec_unary(ts, q2 + 1).pos == q3,
        !(tok(ts, q3) is Star || tok(ts, q3) is Slash),
    ensures
        spec_term(ts, p) == (Parsed {
            instrs: spec_unary(ts, p).instrs + spec_unary(ts, q1 + 1).instrs + seq![
                spec_multiplicative_instr(tok(ts, q1)),
            ] + spec_unary(ts, q2 + 1).instrs + seq![spec_multiplicative_instr(tok(ts, q2))],
            pos: q3,
            fail: None,
        }),
{
    let a = spec_unary(ts, p).instrs;
    let b = spec_unary(ts, q1 + 1).instrs;
    let c = spec_unary(ts, q2 + 1).instrs;
    let o1 = spec_multiplicative_instr(tok(ts, q1));
    let o2 = spec_multiplicative_instr(tok(ts, q2));
    assert(spec_term_tail(ts, a + b + seq![o1] + c + seq![o2], q3) == (Parsed {
        instrs: a + b + seq![o1] + c + seq![o2],
        pos: q3,
        fail: None,
    }));
    assert(spec_term_tail(ts, a + b + seq![o1], q2) == spec_term_tail(ts, a + b + seq![o1] + c + seq![o2], q3));
    assert(spec_term_tail(ts, a, q1) == spec_term_tail(ts, a + b + seq![o1], q2));
    assert(spec_term(ts, p) == spec_term_tail(ts, a, q1));
}

/// The code of `c` with ASCII capitals made small.
pub open spec fn spec_lower_code(c: char) -> u32 {
    if 'A' <= c <= 'Z' {
        ((c as u32) + 32) as u32
    } else {
        c as u32
    }
}

/// `s` equals `word` (written in small letters) up to ASCII case.
pub open spec fn spec_eq_ignore_case(s: Seq<char>, word: Seq<char>) -> bool {
    s.len() == word.len() && forall|i: int| 0 <= i < s.len() ==> spec_lower_code(#[trigger] s[i]) == word[i] as u32
}

/// Text that reads as a floating-point number: an optional sign, then
/// `inf`, `infinity` or `nan` in any case, or a decimal number.
pub open spec fn spec_float_text(s: Seq<char>) -> bool {
    let body = if s.len() > 0 && (s[0] == '+' || s[0] == '-') {
        s.drop_first()
    } else {
        s
    };
    spec_eq_ignore_case(body, "inf"@) || spec_eq_ignore_case(body, "infinity"@) || spec_eq_ignore_case(body, "nan"@)
        || spec_valid_number_text(body)
}

fn lower_code(c: char) -> (r: u32)
    ensures
        r == spec_lower_code(c),
{
    if 'A' <= c && c <= 'Z' {
        (c as u32) + 32
    } else {
        c as u32
    }
}

fn eq_ignore_case(s: &str, word: &str) -> (r: bool)
    ensures
        r == spec_eq_ignore_case(s@, word@),
{
    let n = s.unicode_len();
    if n != word.unicode_len() {
        return false;
    }
    let mut i: usize = 0;
    while i < n
        invariant
            n == s@.len() == word@.len(),
            i <= n,
            forall|k: int| 0 <= k < i ==> spec_lower_code(#[trigger] s@[k]) == word@[k] as u32,
        decreases n - i,
    {
        if lower_code(s.get_char(i)) != (word.get_char(i) as u32) {
            return false;
        }
        i = i + 1;
    }
    true
}

/// Whether a text reads as a floating-point number.
pub fn float_text(s: &str) -> (r: bool)
    ensures
        r == spec_float_text(s@),
{
    let n = s.unicode_len();
    let body = if n > 0 && (s.get_char(0) == '+' || s.get_char(0) == '-') {
        s.substring_char(1, n)
    } else {
        s
    };
    proof {
        if n > 0 && (s@[0] == '+' || s@[0] == '-') {
            assert(body@ =~= s@.drop_first());
        }
    }
    proof {
        reveal_strlit("inf");
        reveal_strlit("infinity");
        reveal_strlit("nan");
    }
    eq_ignore_case(body, "inf") || eq_ignore_case(body, "infinity") || eq_ignore_case(body, "nan")
        || valid_number_text(body)
}

} // verus!
