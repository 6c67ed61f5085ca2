//! Parametric sweeps: naming of variation result directories and the
//! enumeration of every combination of swept values.
use vstd::prelude::*;
use vstd::string::*;

use vstd::arithmetic::div_mod::lemma_fundamental_div_mod_converse;
use vstd::arithmetic::mul::{lemma_mul_inequality, lemma_mul_is_distributive_add_other_way};

use crate::text::{
    spec_decimal, spec_digit_char, spec_digit_value, spec_digits_value, spec_pad_zeros, str_eq, to_decimal_padded,
};

verus! {

/// Why a sweep definition could not be expanded.
#[derive(Debug)]
pub enum SweepError {
    /// The sweep type is none of the known ones.
    UnknownType(String),
    /// A parameter is missing or out of range.
    InvalidParam(String),
    /// There is nothing to sweep.
    Empty,
}

/// The directory name of a variation: `variation_` and the index with at
/// least three digits.
pub open spec fn spec_variation_dir_name(index: nat) -> Seq<char> {
    "variation_"@ + spec_pad_zeros(spec_decimal(index), 3)
}

/// The directory name of variation `index`: `"variation_001"`,
/// `"variation_042"`, `"variation_100"`, `"variation_1234"`.
pub fn variation_dir_name(index: usize) -> (r: String)
    ensures
        r@ == spec_variation_dir_name(index as nat),
{
    let digits = to_decimal_padded(index as u128, 3);
    let mut s = String::from_str("variation_");
    s.append(digits.as_str());
    s
}

/// The value of a decimal representation is the number it represents.
pub proof fn lemma_decimal_value(n: nat)
    ensures
        spec_digits_value(spec_decimal(n)) == n,
    decreases n,
{
    if n >= 10 {
        lemma_decimal_value(n / 10);
        let d = spec_decimal(n);
        assert(d.drop_last() =~= spec_decimal(n / 10));
        assert(d.last() == spec_digit_char(n % 10));
        assert(spec_digit_value(spec_digit_char(n % 10)) == n % 10);
        assert(spec_digits_value(d) == spec_digits_value(spec_decimal(n / 10)) * 10 + n % 10);
        assert((n / 10) * 10 + n % 10 == n);
    } else {
        let d = spec_decimal(n);
        assert(d.drop_last() =~= Seq::<char>::empty());
        assert(spec_digits_value(d.drop_last()) == 0);
        assert(d.last() == spec_digit_char(n));
        assert(spec_digit_value(spec_digit_char(n)) == n);
    }
}

/// Leading zeros do not change the value of a digit string.
pub proof fn lemma_leading_zeros_value(k: nat, s: Seq<char>)
    ensures
        spec_digits_value(Seq::new(k, |i: int| '0') + s) == spec_digits_value(s),
    decreases s.len(), k,
{
    let z = Seq::new(k, |i: int| '0');
    if s.len() > 0 {
        lemma_leading_zeros_value(k, s.drop_last());
        assert((z + s).drop_last() =~= z + s.drop_last());
    } else if k > 0 {
        lemma_leading_zeros_value((k - 1) as nat, s);
        assert((z + s).drop_last() =~= Seq::new((k - 1) as nat, |i: int| '0') + s);
        assert(spec_digit_value('0') == 0);
        assert(z + s =~= z);
    } else {
        assert(z + s =~= s);
    }
}

/// The value of a zero-padded decimal representation is the number.
pub proof fn lemma_padded_decimal_value(n: nat, width: nat)
    ensures
        spec_digits_value(spec_pad_zeros(spec_decimal(n), width)) == n,
{
    lemma_decimal_value(n);
    let d = spec_decimal(n);
    if d.len() < width {
        lemma_leading_zeros_value((width - d.len()) as nat, d);
    }
}

/// Distinct variations get distinct directories.
pub proof fn lemma_variation_dir_name_injective(a: nat, b: nat)
    requires
        a != b,
    ensures
        spec_variation_dir_name(a) != spec_variation_dir_name(b),
{
    let pa = spec_pad_zeros(spec_decimal(a), 3);
    let pb = spec_pad_zeros(spec_decimal(b), 3);
    if spec_variation_dir_name(a) == spec_variation_dir_name(b) {
        let p = "variation_"@;
        assert(pa =~= spec_variation_dir_name(a).subrange(p.len() as int, spec_variation_dir_name(a).len() as int));
        assert(pb =~= spec_variation_dir_name(b).subrange(p.len() as int, spec_variation_dir_name(b).len() as int));
        lemma_padded_decimal_value(a, 3);
        lemma_padded_decimal_value(b, 3);
    }
}

// ---------------------------------------------------------------------------
// Combinations
// ---------------------------------------------------------------------------

/// The number of combinations of one value from each of the first `m`
/// lists.
pub open spec fn spec_count<T>(lists: Seq<Seq<T>>, m: int) -> nat
    decreases m,
{
    if m <= 0 {
        1
    } else {
        spec_count(lists, m - 1) * lists[m - 1].len()
    }
}

/// The `k`-th combination of one value from each of the first `m` lists,
/// counting in odometer order: the last list varies fastest.
pub open spec fn spec_combination<T>(lists: Seq<Seq<T>>, k: nat, m: int) -> Seq<T>
    decreases m,
{
    if m <= 0 {
        Seq::empty()
    } else {
        let n = lists[m - 1].len();
        spec_combination(lists, k / n, m - 1).push(lists[m - 1][(k % n) as int])
    }
}

/// All combinations of one value from each list, in odometer order; none
/// when there are no lists.
pub open spec fn spec_cartesian_product<T>(lists: Seq<Seq<T>>) -> Seq<Seq<T>> {
    if lists.len() == 0 {
        Seq::empty()
    } else {
        Seq::new(spec_count(lists, lists.len() as int), |k: int| spec_combination(lists, k as nat, lists.len() as int))
    }
}

/// The lists of values, as sequences.
pub open spec fn spec_lists<T>(v: Seq<Vec<T>>) -> Seq<Seq<T>> {
    v.map_values(|l: Vec<T>| l@)
}

/// Each of the first `m` positions indexes into its list.
pub open spec fn spec_digits_valid<T>(idx: Seq<usize>, lists: Seq<Seq<T>>, m: int) -> bool {
    forall|j: int| 0 <= j < m ==> #[trigger] idx[j] < lists[j].len()
}

/// The number whose mixed-radix digits are the first `m` positions of
/// `idx`, position `j` counting in base `lists[j].len()`.
pub open spec fn spec_position<T>(idx: Seq<usize>, lists: Seq<Seq<T>>, m: int) -> nat
    decreases m,
{
    if m <= 0 {
        0
    } else {
        spec_position(idx, lists, m - 1) * lists[m - 1].len() + idx[m - 1] as nat
    }
}

proof fn lemma_position_frame<T>(a: Seq<usize>, b: Seq<usize>, lists: Seq<Seq<T>>, m: int)
    requires
        0 <= m,
        forall|j: int| 0 <= j < m ==> a[j] == b[j],
    ensures
        spec_position(a, lists, m) == spec_position(b, lists, m),
    decreases m,
{
    if m > 0 {
        lemma_position_frame(a, b, lists, m - 1);
    }
}

proof fn lemma_position_bound<T>(idx: Seq<usize>, lists: Seq<Seq<T>>, m: int)
    requires
        0 <= m,
        spec_digits_valid(idx, lists, m),
    ensures
        spec_position(idx, lists, m) < spec_count(lists, m),
    decreases m,
{
    if m > 0 {
        lemma_position_bound(idx, lists, m - 1);
        let p = spec_position(idx, lists, m - 1) as int;
        let c = spec_count(lists, m - 1) as int;
        let n = lists[m - 1].len() as int;
        assert(idx[m - 1] < n);
        lemma_mul_inequality(p + 1, c, n);
        lemma_mul_is_distributive_add_other_way(n, p, 1);
    }
}

proof fn lemma_combination_of_position<T>(idx: Seq<usize>, lists: Seq<Seq<T>>, m: int)
    requires
        0 <= m,
        spec_digits_valid(idx, lists, m),
    ensures
        spec_combination(lists, spec_position(idx, lists, m), m) =~= Seq::new(m as nat, |j: int| lists[j][idx[j] as int]),
    decreases m,
{
    if m > 0 {
        lemma_combination_of_position(idx, lists, m - 1);
        let n = lists[m - 1].len() as int;
        let p = spec_position(idx, lists, m - 1) as int;
        let k = spec_position(idx, lists, m) as int;
        assert(idx[m - 1] < n);
        lemma_fundamental_div_mod_converse(k, n, p, idx[m - 1] as int);
    }
}

/// The number of combinations of the first `m` lists.
fn count_combinations<T>(value_lists: &[Vec<T>], m: usize) -> (r: usize)
    requires
        m <= value_lists@.len(),
        forall|j: int| 0 <= j <= m ==> #[trigger] spec_count(spec_lists(value_lists@), j) <= usize::MAX,
    ensures
        r == spec_count(spec_lists(value_lists@), m as int),
{
    let ghost lists = spec_lists(value_lists@);
    let mut total: usize = 1;
    let mut i: usize = 0;
    while i < m
        invariant
            i <= m,
            m <= value_lists@.len(),
            lists == spec_lists(value_lists@),
            forall|j: int| 0 <= j <= m ==> #[trigger] spec_count(lists, j) <= usize::MAX,
            total == spec_count(lists, i as int),
        decreases m - i,
    {
        assert(spec_count(lists, i as int + 1) <= usize::MAX);
        assert(lists[i as int].len() == value_lists[i as int].len());
        total = total * value_lists[i].len();
        i = i + 1;
    }
    total
}

/// Move the first `m` positions on to the next combination, the last of
/// them fastest. Returns `true` when they wrap around to all zeros.
fn advance<T>(indices: &mut Vec<usize>, value_lists: &[Vec<T>], m: usize) -> (carry: bool)
    requires
        m <= old(indices)@.len(),
        old(indices)@.len() == value_lists@.len(),
        spec_digits_valid(old(indices)@, spec_lists(value_lists@), m as int),
    ensures
        final(indices)@.len() == old(indices)@.len(),
        forall|j: int| m <= j < old(indices)@.len() ==> final(indices)@[j] == old(indices)@[j],
        spec_digits_valid(final(indices)@, spec_lists(value_lists@), m as int),
        !carry ==> spec_position(final(indices)@, spec_lists(value_lists@), m as int) == spec_position(
            old(indices)@,
            spec_lists(value_lists@),
            m as int,
        ) + 1,
        carry ==> spec_position(old(indices)@, spec_lists(value_lists@), m as int) + 1 == spec_count(
            spec_lists(value_lists@),
            m as int,
        ),
    decreases m,
{
    let ghost lists = spec_lists(value_lists@);
    let ghost before = indices@;
    if m == 0 {
        return true;
    }
    let i = m - 1;
    assert(lists[i as int].len() == value_lists[i as int].len());
    assert(indices@[i as int] < lists[i as int].len());
    let next = indices[i] + 1;
    if next < value_lists[i].len() {
        indices.set(i, next);
        proof {
            lemma_position_frame(indices@, before, lists, i as int);
        }
        false
    } else {
        indices.set(i, 0);
        let ghost mid = indices@;
        proof {
            lemma_position_frame(mid, before, lists, i as int);
        }
        let carry = advance(indices, value_lists, i);
        proof {
            let n = lists[i as int].len() as int;
            assert(indices@[i as int] == 0);
            let pb = spec_position(before, lists, i as int) as int;
            let pa = spec_position(indices@, lists, i as int) as int;
            assert(before[i as int] == n - 1);
            if !carry {
                assert(pa == pb + 1);
                lemma_mul_is_distributive_add_other_way(n, pb, 1);
            } else {
                assert(pb + 1 == spec_count(lists, i as int));
                lemma_mul_is_distributive_add_other_way(n, pb, 1);
            }
        }
        carry
    }
}

/// Every combination of one value from each list, in odometer order (the
/// last list varies fastest); position `i` of each combination belongs to
/// `names[i]`. There are none when there are no names.
pub fn cartesian_product<T: Copy>(names: &[String], value_lists: &[Vec<T>]) -> (r: Vec<Vec<T>>)
    requires
        names@.len() == value_lists@.len(),
        forall|j: int| 0 <= j <= value_lists@.len() ==> #[trigger] spec_count(spec_lists(value_lists@), j) <= usize::MAX,
    ensures
        spec_lists(r@) == spec_cartesian_product(spec_lists(value_lists@)),
{
    let ghost lists = spec_lists(value_lists@);
    if names.len() == 0 || value_lists.len() == 0 {
        let r: Vec<Vec<T>> = Vec::new();
        assert(spec_lists(r@) =~= Seq::<Seq<T>>::empty());
        return r;
    }
    let n = names.len();
    let total = count_combinations(value_lists, n);
    let mut indices: Vec<usize> = Vec::new();
    let mut j: usize = 0;
    while j < n
        invariant
            j <= n,
            indices@.len() == j,
            forall|q: int| 0 <= q < j ==> indices@[q] == 0,
        decreases n - j,
    {
        indices.push(0);
        j = j + 1;
    }
    proof {
        assert forall|q: int| 0 <= q <= n implies spec_position(indices@, lists, q) == 0 by {
            lemma_position_zero(indices@, lists, q);
        }
        if 0 < total {
            assert forall|q: int| 0 <= q < n implies #[trigger] indices@[q] < lists[q].len() by {
                lemma_count_positive(lists, n as int, q);
            }
        }
    }
    let mut result: Vec<Vec<T>> = Vec::new();
    let mut k: usize = 0;
    while k < total
        invariant
            n == value_lists@.len(),
            n > 0,
            lists == spec_lists(value_lists@),
            total == spec_count(lists, n as int),
            k <= total,
            indices@.len() == n,
            k < total ==> spec_digits_valid(indices@, lists, n as int),
            k < total ==> spec_position(indices@, lists, n as int) == k,
            spec_lists(result@) =~= Seq::new(k as nat, |q: int| spec_combination(lists, q as nat, n as int)),
        decreases total - k,
    {
        let mut combo: Vec<T> = Vec::new();
        let mut i: usize = 0;
        while i < n
            invariant
                i <= n,
                n == value_lists@.len(),
                n == indices@.len(),
                lists == spec_lists(value_lists@),
                spec_digits_valid(indices@, lists, n as int),
                combo@ =~= Seq::new(i as nat, |q: int| lists[q][indices@[q] as int]),
            decreases n - i,
        {
            assert(lists[i as int] == value_lists@[i as int]@);
            let v: T = value_lists[i][indices[i]];
            combo.push(v);
            i = i + 1;
        }
        proof {
            lemma_combination_of_position(indices@, lists, n as int);
        }
        let ghost prev = spec_lists(result@);
        let ghost cv = combo@;
        result.push(combo);
        assert(spec_lists(result@) =~= prev.push(cv));
        let _ = advance(&mut indices, value_lists, n);
        k = k + 1;
    }
    result
}

proof fn lemma_position_zero<T>(idx: Seq<usize>, lists: Seq<Seq<T>>, m: int)
    requires
        0 <= m <= idx.len(),
        forall|q: int| 0 <= q < idx.len() ==> idx[q] == 0,
    ensures
        spec_position(idx, lists, m) == 0,
    decreases m,
{
    if m > 0 {
        lemma_position_zero(idx, lists, m - 1);
        assert(spec_position(idx, lists, m - 1) * lists[m - 1].len() == 0);
    }
}

proof fn lemma_count_positive<T>(lists: Seq<Seq<T>>, m: int, j: int)
    requires
        0 <= j < m,
        spec_count(lists, m) > 0,
    ensures
        lists[j].len() > 0,
    decreases m,
{
    let c = spec_count(lists, m - 1);
    let n = lists[m - 1].len();
    if c == 0 {
        assert(c * n == 0) by (nonlinear_arith)
            requires
                c == 0,
        ;
        assert(spec_count(lists, m) == 0);
    } else if j < m - 1 {
        lemma_count_positive(lists, m - 1, j);
    } else {
        assert(lists[m - 1].len() != 0);
    }
}

/// There are as many combinations as the product of the lists' lengths,
/// and every combination takes, at each position `j`, one of the values of
/// list `j`.
pub proof fn lemma_combinations_take_one_value_per_list<T>(lists: Seq<Seq<T>>, k: nat, j: int)
    requires
        lists.len() > 0,
        k < spec_count(lists, lists.len() as int),
        0 <= j < lists.len(),
    ensures
        spec_cartesian_product(lists).len() == spec_count(lists, lists.len() as int),
        spec_cartesian_product(lists)[k as int].len() == lists.len(),
        exists|i: int| 0 <= i < lists[j].len() && #[trigger] lists[j][i] == spec_cartesian_product(lists)[k as int][j],
{
    lemma_combination_shape(lists, k, lists.len() as int, j);
}

proof fn lemma_combination_shape<T>(lists: Seq<Seq<T>>, k: nat, m: int, j: int)
    requires
        0 <= j < m <= lists.len(),
        k < spec_count(lists, m),
    ensures
        spec_combination(lists, k, m).len() == m,
        exists|i: int| 0 <= i < lists[j].len() && #[trigger] lists[j][i] == spec_combination(lists, k, m)[j],
    decreases m,
{
    let n = lists[m - 1].len() as int;
    let c = spec_count(lists, m - 1) as int;
    if n == 0 {
        assert(c * n == 0) by (nonlinear_arith)
            requires
                n == 0,
        ;
    }
    assert(n > 0);
    let q = (k as int) / n;
    let r = (k as int) % n;
    assert(0 <= r < n) by (nonlinear_arith)
        requires
            n > 0,
            r == (k as int) % n,
    ;
    assert(q < c) by (nonlinear_arith)
        requires
            n > 0,
            0 <= k < c * n,
            q == (k as int) / n,
    ;
    let nn = lists[m - 1].len();
    assert(q == k / nn && r == k % nn);
    let prefix = spec_combination(lists, k / nn, m - 1);
    assert(spec_combination(lists, k, m) == prefix.push(lists[m - 1][(k % nn) as int]));
    assert(c > 0) by (nonlinear_arith)
        requires
            c * n > 0,
            n > 0,
    ;
    lemma_combination_shape_len(lists, k / nn, m - 1);
    if j < m - 1 {
        lemma_combination_shape(lists, k / nn, m - 1, j);
        let i = choose|i: int| 0 <= i < lists[j].len() && #[trigger] lists[j][i] == prefix[j];
        assert(lists[j][i] == spec_combination(lists, k, m)[j]);
    } else {
        assert(lists[j][r] == spec_combination(lists, k, m)[j]);
    }
}

proof fn lemma_combination_shape_len<T>(lists: Seq<Seq<T>>, k: nat, m: int)
    requires
        0 <= m <= lists.len(),
        spec_count(lists, m) > 0,
    ensures
        spec_combination(lists, k, m).len() == m,
    decreases m,
{
    if m > 0 {
        let n = lists[m - 1].len();
        let c = spec_count(lists, m - 1);
        lemma_count_positive(lists, m, m - 1);
        assert(c > 0) by (nonlinear_arith)
            requires
                c * n > 0,
                n > 0,
        ;
        lemma_combination_shape_len(lists, k / n, m - 1);
    }
}


/// How a swept variable's values are given.
#[derive(Debug, Clone, Copy, PartialEq, Eq, Structural)]
pub enum SweepKind {
    /// From a start to a stop in steps of a given size.
    LinearStep,
    /// A given number of evenly spaced values from a start to a stop.
    LinearCount,
    /// A given number of values evenly spaced on a logarithmic scale.
    LogScale,
    /// The values listed.
    DiscreteList,
}

/// The kind a sweep type name selects, if any.
pub open spec fn spec_sweep_kind(name: Seq<char>) -> Option<SweepKind> {
    if name == "LinearStep"@ {
        Some(SweepKind::LinearStep)
    } else if name == "LinearCount"@ {
        Some(SweepKind::LinearCount)
    } else if name == "LogScale"@ {
        Some(SweepKind::LogScale)
    } else if name == "DiscreteList"@ {
        Some(SweepKind::DiscreteList)
    } else {
        None
    }
}

impl SweepKind {
    /// The kind a sweep type name selects; any other name is an unknown
    /// type, reported with the name.
    pub fn from_name(name: &str) -> (r: Result<SweepKind, SweepError>)
        ensures
            match spec_sweep_kind(name@) {
                Some(k) => r == Ok::<SweepKind, SweepError>(k),
                None => r matches Err(SweepError::UnknownType(n)) && n@ == name@,
            },
    {
        if str_eq(name, "LinearStep") {
            Ok(SweepKind::LinearStep)
        } else if str_eq(name, "LinearCount") {
            Ok(SweepKind::LinearCount)
        } else if str_eq(name, "LogScale") {
            Ok(SweepKind::LogScale)
        } else if str_eq(name, "DiscreteList") {
            Ok(SweepKind::DiscreteList)
        } else {
            Err(SweepError::UnknownType(String::from_str(name)))
        }
    }
}

} // verus!
