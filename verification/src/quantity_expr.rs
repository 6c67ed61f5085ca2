//! Report trace expressions such as `dB(S(1,1))`, `ang_deg(S(2,1))`,
//! `VSWR(S(1,1))`, `GainTotal`, `DeltaS` or `R(1,2)`: their syntax and
//! the structured quantity they denote.
use vstd::prelude::*;
use vstd::string::*;

use crate::text::{
    count_char, find_char, parse_usize, spec_count_char, spec_decimal, spec_find_char,
    spec_parse_bounded, spec_trim, str_eq, to_decimal, trim, lemma_trim_start_shape,
    lemma_trim_end_shape, spec_trim_start, lemma_find_char_facts, lemma_count_char_occurs, lemma_trim_idempotent, lemma_trim_noop, spec_is_whitespace, lemma_find_char_first,
    spec_all_digits, spec_parse_unsigned, spec_unsigned_digits,
};
use crate::sweep::lemma_decimal_value;

verus! {

// ---------------------------------------------------------------------------
// Types
// ---------------------------------------------------------------------------

/// The underlying data series an expression refers to.
#[derive(Debug, Clone, PartialEq)]
pub enum BaseQuantity {
    /// S-parameter S(row, col), 1-based as written in expressions.
    SParameter { row: usize, col: usize },
    /// Z-parameter Z(row, col), 1-based.
    ZParameter { row: usize, col: usize },
    /// Far-field quantity by name (e.g. "GainTotal").
    FarFieldQuantity(String),
    /// Convergence: maximum delta S per pass.
    ConvergenceDeltaS,
    /// Convergence: maximum delta energy per pass.
    ConvergenceDeltaEnergy,
    /// Convergence: number of tetrahedra per pass.
    ConvergenceTetrahedra,
    /// RLCG matrix element: matrix type ('R', 'L', 'C', 'G'), 0-based row and column.
    RlcgElement { matrix_type: char, row: usize, col: usize },
}

/// A transform applied to a complex data point.
#[derive(Debug, Clone, Copy, PartialEq, Eq, Structural)]
pub enum Transform {
    /// Linear magnitude |z|.
    Magnitude,
    /// Magnitude in dB: 20*log10(|z|).
    MagnitudeDB,
    /// Phase in degrees.
    AngleDeg,
    /// Phase in radians.
    AngleRad,
    /// Real part.
    Real,
    /// Imaginary part.
    Imaginary,
    /// Voltage standing wave ratio (1+|G|)/(1-|G|).
    VSWR,
}

/// A parsed trace expression: a base quantity and the transforms applied to
/// it, innermost first.
#[derive(Debug, Clone, PartialEq)]
pub struct QuantityExpression {
    pub base: BaseQuantity,
    pub transforms: Vec<Transform>,
}

/// Errors from parsing or evaluating a trace expression.
#[derive(Debug)]
pub enum ExprError {
    Parse(String),
    Eval(String),
    DataNotAvailable(String),
}

/// The mathematical value of a `BaseQuantity`.
pub enum BaseQuantityModel {
    SParameter { row: usize, col: usize },
    ZParameter { row: usize, col: usize },
    FarFieldQuantity(Seq<char>),
    ConvergenceDeltaS,
    ConvergenceDeltaEnergy,
    ConvergenceTetrahedra,
    RlcgElement { matrix_type: char, row: usize, col: usize },
}

/// The mathematical value of a `QuantityExpression`.
pub struct QuantityExpressionModel {
    pub base: BaseQuantityModel,
    pub transforms: Seq<Transform>,
}

impl View for BaseQuantity {
    type V = BaseQuantityModel;

    open spec fn view(&self) -> BaseQuantityModel {
        match self {
            BaseQuantity::SParameter { row, col } => BaseQuantityModel::SParameter {
                row: *row,
                col: *col,
            },
            BaseQuantity::ZParameter { row, col } => BaseQuantityModel::ZParameter {
                row: *row,
                col: *col,
            },
            BaseQuantity::FarFieldQuantity(n) => BaseQuantityModel::FarFieldQuantity(n@),
            BaseQuantity::ConvergenceDeltaS => BaseQuantityModel::ConvergenceDeltaS,
            BaseQuantity::ConvergenceDeltaEnergy => BaseQuantityModel::ConvergenceDeltaEnergy,
            BaseQuantity::ConvergenceTetrahedra => BaseQuantityModel::ConvergenceTetrahedra,
            BaseQuantity::RlcgElement { matrix_type, row, col } => BaseQuantityModel::RlcgElement {
                matrix_type: *matrix_type,
                row: *row,
                col: *col,
            },
        }
    }
}

impl View for QuantityExpression {
    type V = QuantityExpressionModel;

    open spec fn view(&self) -> QuantityExpressionModel {
        QuantityExpressionModel { base: self.base@, transforms: self.transforms@ }
    }
}

// ---------------------------------------------------------------------------
// Specification of the syntax
// ---------------------------------------------------------------------------

/// What parsing a string yields: a quantity, a parse error with its message,
/// or an RLCG element written with a 0 index, whose conversion to a 0-based
/// index underflows.
pub enum ParseOutcome {
    Parsed(QuantityExpressionModel),
    Failed(Seq<char>),
    IndexUnderflow,
}

/// The transform named by a function name, if it names one.
pub open spec fn spec_transform_named(name: Seq<char>) -> Option<Transform> {
    if name == "dB"@ {
        Some(Transform::MagnitudeDB)
    } else if name == "mag"@ {
        Some(Transform::Magnitude)
    } else if name == "ang_deg"@ {
        Some(Transform::AngleDeg)
    } else if name == "ang_rad"@ {
        Some(Transform::AngleRad)
    } else if name == "re"@ {
        Some(Transform::Real)
    } else if name == "im"@ {
        Some(Transform::Imaginary)
    } else if name == "VSWR"@ {
        Some(Transform::VSWR)
    } else {
        None
    }
}

/// The names of far-field quantities, written without parentheses.
pub open spec fn spec_is_far_field_name(t: Seq<char>) -> bool {
    t == "GainTotal"@ || t == "GainTheta"@ || t == "GainPhi"@ || t == "DirectivityTotal"@ || t
        == "AxialRatio"@
}

/// `name(args)`: the name before the first `(`, and what lies between it and
/// a final `)`.
pub open spec fn spec_function_call(t: Seq<char>) -> Option<(Seq<char>, Seq<char>)> {
    match spec_find_char(t, '(') {
        Some(open) => if t.len() > 0 && t.last() == ')' {
            Some((t.take(open), t.subrange(open + 1, t.len() - 1)))
        } else {
            None
        },
        None => None,
    }
}

/// A function call whose name is a transform.
pub open spec fn spec_outer_function(t: Seq<char>) -> Option<(Seq<char>, Seq<char>)> {
    match spec_function_call(t) {
        Some((name, inner)) => if spec_transform_named(name) is Some {
            Some((name, inner))
        } else {
            None
        },
        None => None,
    }
}

/// `row,col`: two comma-separated unsigned integers, each trimmed; or the
/// message of the error.
pub open spec fn spec_two_args(args: Seq<char>) -> Result<(nat, nat), Seq<char>> {
    let n = spec_count_char(args, ',');
    if n != 1 {
        Err("Expected 2 arguments, got "@ + spec_decimal(n + 1))
    } else {
        let comma = spec_find_char(args, ',')->0;
        let p0 = spec_trim(args.take(comma));
        let p1 = spec_trim(args.skip(comma + 1));
        match spec_parse_bounded(p0, usize::MAX as nat) {
            None => Err("Invalid row: '"@ + p0 + "'"@),
            Some(row) => match spec_parse_bounded(p1, usize::MAX as nat) {
                None => Err("Invalid col: '"@ + p1 + "'"@),
                Some(col) => Ok((row, col)),
            },
        }
    }
}

/// A parsed base quantity with no transforms.
pub open spec fn spec_bare(base: BaseQuantityModel) -> ParseOutcome {
    ParseOutcome::Parsed(QuantityExpressionModel { base, transforms: Seq::empty() })
}

/// The outcome of applying the transform `t` around an inner outcome.
pub open spec fn spec_wrap(inner: ParseOutcome, t: Transform) -> ParseOutcome {
    match inner {
        ParseOutcome::Parsed(q) => ParseOutcome::Parsed(
            QuantityExpressionModel { base: q.base, transforms: q.transforms.push(t) },
        ),
        other => other,
    }
}

/// Parsing a base function call `name(args)` (not a transform).
pub open spec fn spec_parse_base_call(name: Seq<char>, args: Seq<char>) -> ParseOutcome {
    if name == "S"@ || name == "Z"@ || name == "R"@ || name == "L"@ || name == "C"@ || name
        == "G"@ {
        match spec_two_args(args) {
            Err(m) => ParseOutcome::Failed(m),
            Ok((row, col)) => if name == "S"@ {
                spec_bare(BaseQuantityModel::SParameter { row: row as usize, col: col as usize })
            } else if name == "Z"@ {
                spec_bare(BaseQuantityModel::ZParameter { row: row as usize, col: col as usize })
            } else if row == 0 || col == 0 {
                ParseOutcome::IndexUnderflow
            } else {
                let mt = if name == "R"@ {
                    'R'
                } else if name == "L"@ {
                    'L'
                } else if name == "C"@ {
                    'C'
                } else {
                    'G'
                };
                spec_bare(
                    BaseQuantityModel::RlcgElement {
                        matrix_type: mt,
                        row: (row - 1) as usize,
                        col: (col - 1) as usize,
                    },
                )
            },
        }
    } else {
        ParseOutcome::Failed("Unknown function: '"@ + name + "'"@)
    }
}

/// The meaning of a trace expression. Surrounding whitespace is ignored;
/// the convergence names come first, then the far-field names, then a
/// transform wrapped around an inner expression (the outermost transform is
/// the last in the list), then the base functions `S`, `Z`, `R`, `L`, `C`,
/// `G`. RLCG indices are written 1-based and stored 0-based.
pub open spec fn spec_parse(s: Seq<char>) -> ParseOutcome
    decreases s.len(),
{
    let t = spec_trim(s);
    if t == "DeltaS"@ {
        spec_bare(BaseQuantityModel::ConvergenceDeltaS)
    } else if t == "DeltaEnergy"@ {
        spec_bare(BaseQuantityModel::ConvergenceDeltaEnergy)
    } else if t == "Tetrahedra"@ {
        spec_bare(BaseQuantityModel::ConvergenceTetrahedra)
    } else if spec_is_far_field_name(t) {
        spec_bare(BaseQuantityModel::FarFieldQuantity(t))
    } else {
        match spec_outer_function(t) {
            Some((name, inner)) => {
                proof {
                    lemma_call_shorter(s);
                }
                spec_wrap(spec_parse(inner), spec_transform_named(name)->0)
            },
            None => match spec_function_call(t) {
                Some((name, args)) => spec_parse_base_call(name, args),
                None => ParseOutcome::Failed("Cannot parse expression: '"@ + t + "'"@),
            },
        }
    }
}

/// The argument part of a call is shorter than the text it came from.
pub proof fn lemma_call_shorter(s: Seq<char>)
    ensures
        spec_function_call(spec_trim(s)) matches Some((name, inner)) ==> inner.len() < s.len(),
{
    let t = spec_trim(s);
    lemma_trim_start_shape(s);
    lemma_trim_end_shape(spec_trim_start(s));
    lemma_find_char_facts(t, '(');
}

/// Whitespace around an expression does not change its meaning.
pub proof fn lemma_parse_ignores_surrounding_whitespace(s: Seq<char>)
    ensures
        spec_parse(s) == spec_parse(spec_trim(s)),
{
    lemma_trim_idempotent(s);
}

/// Wrapping an expression in a transform, `name(x)`, yields the meaning of
/// `x` with that transform applied last (outermost).
pub proof fn lemma_parse_transform_wrapper(name: Seq<char>, x: Seq<char>)
    requires
        spec_transform_named(name) is Some,
    ensures
        spec_parse(name + "("@ + x + ")"@) == spec_wrap(
            spec_parse(x),
            spec_transform_named(name)->0,
        ),
{
    reveal_strlit("dB");
    reveal_strlit("mag");
    reveal_strlit("ang_deg");
    reveal_strlit("ang_rad");
    reveal_strlit("re");
    reveal_strlit("im");
    reveal_strlit("VSWR");
    reveal_strlit("(");
    reveal_strlit(")");
    reveal_strlit("DeltaS");
    reveal_strlit("DeltaEnergy");
    reveal_strlit("Tetrahedra");
    reveal_strlit("GainTotal");
    reveal_strlit("GainTheta");
    reveal_strlit("GainPhi");
    reveal_strlit("DirectivityTotal");
    reveal_strlit("AxialRatio");
    let t = name + "("@ + x + ")"@;
    assert(name.len() > 0);
    assert(t[0] == name[0]);
    assert(t.last() == ')');
    assert(!spec_is_whitespace(name[0]));
    lemma_trim_noop(t);
    assert(spec_trim(t) == t);
    assert(forall|k: int| 0 <= k < name.len() ==> name[k] != '(');
    assert(forall|k: int| 0 <= k < name.len() ==> t[k] == name[k]);
    assert(t[name.len() as int] == '(');
    lemma_find_char_first(t, '(', name.len() as int);
    assert(t.take(name.len() as int) =~= name);
    assert(t.subrange(name.len() as int + 1, t.len() - 1) =~= x);
    assert(t.last() != "DeltaS"@.last());
    assert(t.last() != "DeltaEnergy"@.last());
    assert(t.last() != "Tetrahedra"@.last());
    assert(t.last() != "GainTotal"@.last());
    assert(t.last() != "GainTheta"@.last());
    assert(t.last() != "GainPhi"@.last());
    assert(t.last() != "DirectivityTotal"@.last());
    assert(t.last() != "AxialRatio"@.last());
    assert(spec_outer_function(t) == Some((name, x)));
}

// ---------------------------------------------------------------------------
// Parsing
// ---------------------------------------------------------------------------

/// A string made of three parts.
fn concat3(a: &str, b: &str, c: &str) -> (r: String)
    ensures
        r@ == a@ + b@ + c@,
{
    let mut s = String::from_str(a);
    s.append(b);
    s.append(c);
    s
}

/// The transform named `name`, if it names one.
fn transform_named(name: &str) -> (r: Option<Transform>)
    ensures
        r == spec_transform_named(name@),
{
    if str_eq(name, "dB") {
        Some(Transform::MagnitudeDB)
    } else if str_eq(name, "mag") {
        Some(Transform::Magnitude)
    } else if str_eq(name, "ang_deg") {
        Some(Transform::AngleDeg)
    } else if str_eq(name, "ang_rad") {
        Some(Transform::AngleRad)
    } else if str_eq(name, "re") {
        Some(Transform::Real)
    } else if str_eq(name, "im") {
        Some(Transform::Imaginary)
    } else if str_eq(name, "VSWR") {
        Some(Transform::VSWR)
    } else {
        None
    }
}

/// Split `name(args)` into its name and arguments.
fn parse_function_call(expr: &str) -> (r: Option<(&str, &str)>)
    ensures
        match r {
            Some((name, args)) => spec_function_call(expr@) == Some((name@, args@)),
            None => spec_function_call(expr@) is None,
        },
{
    let open = match find_char(expr, '(') {
        Some(i) => i,
        None => return None,
    };
    let n = expr.unicode_len();
    if !(n > 0 && expr.get_char(n - 1) == ')') {
        return None;
    }
    let name = expr.substring_char(0, open);
    let args = expr.substring_char(open + 1, n - 1);
    assert(name@ =~= expr@.take(open as int));
    Some((name, args))
}

/// Split `transform(inner)` into the transform's name and the inner text;
/// only the transform names are matched, so base calls such as `S(1,1)`
/// are left alone.
fn parse_outer_function(expr: &str) -> (r: Option<(&str, &str)>)
    ensures
        match r {
            Some((name, inner)) => spec_outer_function(expr@) == Some((name@, inner@)),
            None => spec_outer_function(expr@) is None,
        },
{
    match parse_function_call(expr) {
        Some((name, inner)) => {
            if transform_named(name).is_some() {
                Some((name, inner))
            } else {
                None
            }
        },
        None => None,
    }
}

/// Parse `row,col` into two unsigned integers.
fn parse_two_args(args: &str) -> (r: Result<(usize, usize), ExprError>)
    ensures
        match spec_two_args(args@) {
            Ok((row, col)) => r matches Ok((a, b)) && a == row && b == col,
            Err(m) => r matches Err(ExprError::Parse(e)) && e@ == m,
        },
{
    let n = count_char(args, ',');
    if n != 1 {
        let count = to_decimal(n as u128 + 1);
        let mut m = String::from_str("Expected 2 arguments, got ");
        m.append(count.as_str());
        return Err(ExprError::Parse(m));
    }
    proof {
        lemma_count_char_occurs(args@, ',');
    }
    let comma = match find_char(args, ',') {
        Some(i) => i,
        None => return Err(ExprError::Parse(String::new())),
    };
    let len = args.unicode_len();
    let first = args.substring_char(0, comma);
    let second = args.substring_char(comma + 1, len);
    assert(first@ =~= args@.take(comma as int));
    assert(second@ =~= args@.skip(comma + 1));
    let p0 = trim(first);
    let p1 = trim(second);
    let row = match parse_usize(p0) {
        Some(v) => v,
        None => return Err(ExprError::Parse(concat3("Invalid row: '", p0, "'"))),
    };
    let col = match parse_usize(p1) {
        Some(v) => v,
        None => return Err(ExprError::Parse(concat3("Invalid col: '", p1, "'"))),
    };
    Ok((row, col))
}

/// A quantity with no transforms.
fn bare(base: BaseQuantity) -> (r: QuantityExpression)
    ensures
        r@.base == base@,
        r@.transforms == Seq::<Transform>::empty(),
{
    QuantityExpression { base, transforms: Vec::new() }
}

/// A decimal representation is one or more ASCII digits.
proof fn lemma_decimal_is_digits(n: nat)
    ensures
        spec_decimal(n).len() > 0,
        forall|k: int| 0 <= k < spec_decimal(n).len() ==> '0' <= #[trigger] spec_decimal(n)[k] <= '9',
    decreases n,
{
    if n >= 10 {
        lemma_decimal_is_digits(n / 10);
        let d = spec_decimal(n);
        assert forall|k: int| 0 <= k < d.len() implies '0' <= #[trigger] d[k] <= '9' by {
            if k < d.len() - 1 {
                assert(d[k] == spec_decimal(n / 10)[k]);
            }
        }
    }
}

proof fn lemma_count_char_add(a: Seq<char>, b: Seq<char>, c: char)
    ensures
        spec_count_char(a + b, c) == spec_count_char(a, c) + spec_count_char(b, c),
    decreases b.len(),
{
    if b.len() == 0 {
        assert(a + b =~= a);
    } else {
        lemma_count_char_add(a, b.drop_last(), c);
        assert((a + b).drop_last() =~= a + b.drop_last());
        assert((a + b).last() == b.last());
    }
}

proof fn lemma_count_char_absent(s: Seq<char>, c: char)
    requires
        forall|k: int| 0 <= k < s.len() ==> s[k] != c,
    ensures
        spec_count_char(s, c) == 0,
    decreases s.len(),
{
    if s.len() > 0 {
        assert(s.last() == s[s.len() - 1]);
        lemma_count_char_absent(s.drop_last(), c);
    }
}

/// The decimal representation of `n` reads back as `n`, when `n` does not
/// exceed `max`.
proof fn lemma_decimal_parses(n: nat, max: nat)
    requires
        n <= max,
    ensures
        spec_parse_bounded(spec_decimal(n), max) == Some(n),
        spec_trim(spec_decimal(n)) == spec_decimal(n),
{
    let d = spec_decimal(n);
    lemma_decimal_is_digits(n);
    lemma_decimal_value(n);
    assert(d[0] != '+');
    assert(spec_unsigned_digits(d) == d);
    assert(spec_all_digits(d));
    assert(d.last() == d[d.len() - 1]);
    lemma_trim_noop(d);
}

/// `d(i),d(j)` reads as the two arguments `i` and `j`.
proof fn lemma_two_decimal_args(i: nat, j: nat)
    requires
        i <= usize::MAX,
        j <= usize::MAX,
    ensures
        spec_two_args(spec_decimal(i) + ","@ + spec_decimal(j)) == Ok::<(nat, nat), Seq<char>>((i, j)),
{
    reveal_strlit(",");
    let di = spec_decimal(i);
    let dj = spec_decimal(j);
    let args = di + ","@ + dj;
    lemma_decimal_is_digits(i);
    lemma_decimal_is_digits(j);
    lemma_decimal_parses(i, usize::MAX as nat);
    lemma_decimal_parses(j, usize::MAX as nat);
    lemma_count_char_absent(di, ',');
    lemma_count_char_absent(dj, ',');
    lemma_count_char_add(di, ","@, ',');
    lemma_count_char_add(di + ","@, dj, ',');
    assert(","@.drop_last() =~= Seq::<char>::empty());
    assert(spec_count_char(Seq::<char>::empty(), ',') == 0);
    assert(","@.last() == ',');
    assert(spec_count_char(","@, ',') == 1);
    assert(spec_count_char(args, ',') == 1);
    assert(forall|k: int| 0 <= k < di.len() ==> args[k] == di[k]);
    assert(args[di.len() as int] == ',');
    lemma_find_char_first(args, ',', di.len() as int);
    assert(args.take(di.len() as int) =~= di);
    assert(args.skip(di.len() as int + 1) =~= dj);
}

/// `X(args)`, for a letter `X` other than `(`, is already trimmed, is none
/// of the names written without parentheses nor a transform, and is the
/// call of `X` on `args`.
proof fn lemma_letter_call_shape(c: char, args: Seq<char>)
    requires
        c == 'R' || c == 'L' || c == 'C' || c == 'G' || c == 'S' || c == 'Z',
    ensures
        ({
            let s = seq![c] + "("@ + args + ")"@;
            &&& spec_trim(s) == s
            &&& s != "DeltaS"@ && s != "DeltaEnergy"@ && s != "Tetrahedra"@
            &&& !spec_is_far_field_name(s)
            &&& spec_outer_function(s) is None
            &&& spec_function_call(s) == Some((seq![c], args))
        }),
{
    reveal_strlit("(");
    reveal_strlit(")");
    let s = seq![c] + "("@ + args + ")"@;
    assert(s =~= seq![c, '('] + args + seq![')']);
    assert(s[0] == c);
    assert(s.last() == ')');
    lemma_trim_noop(s);
    reveal_strlit("DeltaS");
    reveal_strlit("DeltaEnergy");
    reveal_strlit("Tetrahedra");
    reveal_strlit("GainTotal");
    reveal_strlit("GainTheta");
    reveal_strlit("GainPhi");
    reveal_strlit("DirectivityTotal");
    reveal_strlit("AxialRatio");
    assert(s[1] == '(');
    assert(s[1] != "DeltaS"@[1]);
    assert(s[1] != "DeltaEnergy"@[1]);
    assert(s[1] != "Tetrahedra"@[1]);
    assert(s[1] != "GainTotal"@[1]);
    assert(s[1] != "GainTheta"@[1]);
    assert(s[1] != "GainPhi"@[1]);
    assert(s[1] != "DirectivityTotal"@[1]);
    assert(s[1] != "AxialRatio"@[1]);
    lemma_find_char_first(s, '(', 1);
    assert(s.take(1) =~= seq![c]);
    assert(s.subrange(2, s.len() - 1) =~= args);
    reveal_strlit("dB");
    reveal_strlit("mag");
    reveal_strlit("ang_deg");
    reveal_strlit("ang_rad");
    reveal_strlit("re");
    reveal_strlit("im");
    reveal_strlit("VSWR");
    assert(spec_transform_named(seq![c]) is None) by {
        assert(seq![c].len() == 1);
    }
}

/// The base call of one of the letters `R`, `L`, `C`, `G` on two positive
/// indices is the element of that letter's matrix, 0-based.
proof fn lemma_rlcg_letter_call(c: char, args: Seq<char>, i: nat, j: nat)
    requires
        c == 'R' || c == 'L' || c == 'C' || c == 'G',
        1 <= i <= usize::MAX,
        1 <= j <= usize::MAX,
        spec_two_args(args) == Ok::<(nat, nat), Seq<char>>((i, j)),
    ensures
        spec_parse_base_call(seq![c], args) == spec_bare(
            BaseQuantityModel::RlcgElement { matrix_type: c, row: (i - 1) as usize, col: (j - 1) as usize },
        ),
{
    reveal_strlit("S");
    reveal_strlit("Z");
    reveal_strlit("R");
    reveal_strlit("L");
    reveal_strlit("C");
    reveal_strlit("G");
    assert(seq![c][0] == c);
    assert(seq![c] != "S"@) by {
        assert(seq![c][0] != "S"@[0]);
    }
    assert(seq![c] != "Z"@) by {
        assert(seq![c][0] != "Z"@[0]);
    }
    if c == 'R' {
        assert(seq![c] =~= "R"@);
    } else {
        assert(seq![c] != "R"@) by {
            assert(seq![c][0] != "R"@[0]);
        }
        if c == 'L' {
            assert(seq![c] =~= "L"@);
        } else {
            assert(seq![c] != "L"@) by {
                assert(seq![c][0] != "L"@[0]);
            }
            if c == 'C' {
                assert(seq![c] =~= "C"@);
            } else {
                assert(seq![c] != "C"@) by {
                    assert(seq![c][0] != "C"@[0]);
                }
                assert(seq![c] =~= "G"@);
            }
        }
    }
}

/// An RLCG element written `X(i,j)`, with `X` one of `R`, `L`, `C`, `G` and
/// `i`, `j` positive decimal indices, is the element of the `X` matrix at
/// row `i - 1` and column `j - 1`: the matrix is named by the letter
/// written, and the indices are stored 0-based.
pub proof fn lemma_rlcg_call_names_matrix_and_indices(c: char, i: nat, j: nat)
    requires
        c == 'R' || c == 'L' || c == 'C' || c == 'G',
        1 <= i <= usize::MAX,
        1 <= j <= usize::MAX,
    ensures
        spec_parse(seq![c] + "("@ + spec_decimal(i) + ","@ + spec_decimal(j) + ")"@) == spec_bare(
            BaseQuantityModel::RlcgElement { matrix_type: c, row: (i - 1) as usize, col: (j - 1) as usize },
        ),
{
    let args = spec_decimal(i) + ","@ + spec_decimal(j);
    let s = seq![c] + "("@ + args + ")"@;
    assert(seq![c] + "("@ + spec_decimal(i) + ","@ + spec_decimal(j) + ")"@ =~= s);
    lemma_two_decimal_args(i, j);
    lemma_letter_call_shape(c, args);
    lemma_rlcg_letter_call(c, args, i, j);
}

/// An S or Z parameter written `S(i,j)` or `Z(i,j)`, with `i`, `j` decimal
/// indices, is that parameter at row `i` and column `j`, as written.
pub proof fn lemma_network_parameter_call_keeps_indices(c: char, i: nat, j: nat)
    requires
        c == 'S' || c == 'Z',
        i <= usize::MAX,
        j <= usize::MAX,
    ensures
        spec_parse(seq![c] + "("@ + spec_decimal(i) + ","@ + spec_decimal(j) + ")"@) == spec_bare(
            if c == 'S' {
                BaseQuantityModel::SParameter { row: i as usize, col: j as usize }
            } else {
                BaseQuantityModel::ZParameter { row: i as usize, col: j as usize }
            },
        ),
{
    let args = spec_decimal(i) + ","@ + spec_decimal(j);
    let s = seq![c] + "("@ + args + ")"@;
    assert(seq![c] + "("@ + spec_decimal(i) + ","@ + spec_decimal(j) + ")"@ =~= s);
    lemma_two_decimal_args(i, j);
    lemma_letter_call_shape(c, args);
    reveal_strlit("S");
    reveal_strlit("Z");
    if c == 'S' {
        assert(seq![c] =~= "S"@);
    } else {
        assert(seq![c] != "S"@) by {
            assert(seq![c][0] != "S"@[0]);
        }
        assert(seq![c] =~= "Z"@);
    }
}

/// The names written without parentheses denote their own quantities:
/// `DeltaS`, `DeltaEnergy` and `Tetrahedra` the convergence series, and
/// each far-field name the far-field quantity of that name.
pub proof fn lemma_named_quantities()
    ensures
        spec_parse("DeltaS"@) == spec_bare(BaseQuantityModel::ConvergenceDeltaS),
        spec_parse("DeltaEnergy"@) == spec_bare(BaseQuantityModel::ConvergenceDeltaEnergy),
        spec_parse("Tetrahedra"@) == spec_bare(BaseQuantityModel::ConvergenceTetrahedra),
        spec_parse("GainTotal"@) == spec_bare(BaseQuantityModel::FarFieldQuantity("GainTotal"@)),
        spec_parse("GainTheta"@) == spec_bare(BaseQuantityModel::FarFieldQuantity("GainTheta"@)),
        spec_parse("GainPhi"@) == spec_bare(BaseQuantityModel::FarFieldQuantity("GainPhi"@)),
        spec_parse("DirectivityTotal"@) == spec_bare(BaseQuantityModel::FarFieldQuantity("DirectivityTotal"@)),
        spec_parse("AxialRatio"@) == spec_bare(BaseQuantityModel::FarFieldQuantity("AxialRatio"@)),
{
    reveal_strlit("DeltaS");
    reveal_strlit("DeltaEnergy");
    reveal_strlit("Tetrahedra");
    reveal_strlit("GainTotal");
    reveal_strlit("GainTheta");
    reveal_strlit("GainPhi");
    reveal_strlit("DirectivityTotal");
    reveal_strlit("AxialRatio");
    let names = seq![
        "DeltaS"@,
        "DeltaEnergy"@,
        "Tetrahedra"@,
        "GainTotal"@,
        "GainTheta"@,
        "GainPhi"@,
        "DirectivityTotal"@,
        "AxialRatio"@,
    ];
    assert forall|k: int| 0 <= k < names.len() implies spec_trim(#[trigger] names[k]) == names[k] by {
        let t = names[k];
        assert(t.last() == t[t.len() - 1]);
        lemma_trim_noop(t);
    }
    assert(spec_trim(names[0]) == names[0]);
    assert(spec_trim(names[1]) == names[1]);
    assert(spec_trim(names[2]) == names[2]);
    assert(spec_trim(names[3]) == names[3]);
    assert(spec_trim(names[4]) == names[4]);
    assert(spec_trim(names[5]) == names[5]);
    assert(spec_trim(names[6]) == names[6]);
    assert(spec_trim(names[7]) == names[7]);
    assert("DeltaEnergy"@ != "DeltaS"@) by {
        assert("DeltaEnergy"@.len() != "DeltaS"@.len());
    }
    assert("Tetrahedra"@ != "DeltaS"@ && "Tetrahedra"@ != "DeltaEnergy"@) by {
        assert("Tetrahedra"@[0] != "DeltaS"@[0]);
    }
    assert(forall|k: int| 3 <= k < 8 ==> #[trigger] names[k] != "DeltaS"@ && names[k] != "DeltaEnergy"@
        && names[k] != "Tetrahedra"@) by {
        assert("GainTotal"@[0] != "DeltaS"@[0] && "GainTotal"@[0] != "Tetrahedra"@[0]);
        assert("GainTheta"@[0] != "DeltaS"@[0] && "GainTheta"@[0] != "Tetrahedra"@[0]);
        assert("GainPhi"@[0] != "DeltaS"@[0] && "GainPhi"@[0] != "Tetrahedra"@[0]);
        assert("DirectivityTotal"@.len() != "DeltaS"@.len() && "DirectivityTotal"@.len() != "DeltaEnergy"@.len());
        assert("DirectivityTotal"@[0] != "Tetrahedra"@[0]);
        assert("AxialRatio"@[0] != "DeltaS"@[0] && "AxialRatio"@[0] != "Tetrahedra"@[0]);
    }
    assert(names[3] != "DeltaS"@);
    assert(names[4] != "DeltaS"@);
    assert(names[5] != "DeltaS"@);
    assert(names[6] != "DeltaS"@);
    assert(names[7] != "DeltaS"@);
}

impl QuantityExpression {
    /// Parse a trace expression string into a `QuantityExpression`.
    ///
    /// An RLCG element written with a 0 index (`R(0,1)`) cannot be converted
    /// to a 0-based index; such input is excluded.
    pub fn parse(expr: &str) -> (r: Result<QuantityExpression, ExprError>)
        requires
            !(spec_parse(expr@) is IndexUnderflow),
        ensures
            match spec_parse(expr@) {
                ParseOutcome::Parsed(q) => r matches Ok(e) && e@ == q,
                ParseOutcome::Failed(m) => r matches Err(ExprError::Parse(e)) && e@ == m,
                ParseOutcome::IndexUnderflow => false,
            },
        decreases expr@.len(),
    {
        let t = trim(expr);
        if str_eq(t, "DeltaS") {
            return Ok(bare(BaseQuantity::ConvergenceDeltaS));
        }
        if str_eq(t, "DeltaEnergy") {
            return Ok(bare(BaseQuantity::ConvergenceDeltaEnergy));
        }
        if str_eq(t, "Tetrahedra") {
            return Ok(bare(BaseQuantity::ConvergenceTetrahedra));
        }
        if str_eq(t, "GainTotal") || str_eq(t, "GainTheta") || str_eq(t, "GainPhi") || str_eq(
            t,
            "DirectivityTotal",
        ) || str_eq(t, "AxialRatio") {
            return Ok(bare(BaseQuantity::FarFieldQuantity(String::from_str(t))));
        }
        if let Some((name, inner)) = parse_outer_function(t) {
            proof {
                lemma_call_shorter(expr@);
            }
            let tr = match transform_named(name) {
                Some(tr) => tr,
                None => return Err(ExprError::Parse(concat3("Unknown transform: '", name, "'"))),
            };
            let mut inner_expr = match Self::parse(inner) {
                Ok(q) => q,
                Err(e) => return Err(e),
            };
            inner_expr.transforms.push(tr);
            return Ok(inner_expr);
        }
        if let Some((name, args)) = parse_function_call(t) {
            let is_s = str_eq(name, "S");
            let is_z = str_eq(name, "Z");
            let is_r = str_eq(name, "R");
            let is_l = str_eq(name, "L");
            let is_c = str_eq(name, "C");
            let is_g = str_eq(name, "G");
            if is_s || is_z || is_r || is_l || is_c || is_g {
                let (row, col) = match parse_two_args(args) {
                    Ok(rc) => rc,
                    Err(e) => return Err(e),
                };
                if is_s {
                    return Ok(bare(BaseQuantity::SParameter { row, col }));
                }
                if is_z {
                    return Ok(bare(BaseQuantity::ZParameter { row, col }));
                }
                let matrix_type = if is_r {
                    'R'
                } else if is_l {
                    'L'
                } else if is_c {
                    'C'
                } else {
                    'G'
                };
                return Ok(
                    bare(
                        BaseQuantity::RlcgElement { matrix_type, row: row - 1, col: col - 1 },
                    ),
                );
            }
            return Err(ExprError::Parse(concat3("Unknown function: '", name, "'")));
        }
        Err(ExprError::Parse(concat3("Cannot parse expression: '", t, "'")))
    }
}

/// The key of an S-parameter in result data: `S`, then the row, then the
/// column, both 1-based (`S11`, `S21`).
pub fn s_key(row: usize, col: usize) -> (r: String)
    ensures
        r@ == "S"@ + spec_decimal(row as nat) + spec_decimal(col as nat),
{
    let mut s = String::from_str("S");
    let a = to_decimal(row as u128);
    let b = to_decimal(col as u128);
    s.append(a.as_str());
    s.append(b.as_str());
    s
}

} // verus!
