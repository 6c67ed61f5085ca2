//! Character-level text helpers shared by the parsers: whitespace, trimming,
//! searching, splitting and decimal numbers, all specified over `Seq<char>`.
use vstd::prelude::*;
use vstd::string::*;

verus! {

// ---------------------------------------------------------------------------
// Whitespace and trimming
// ---------------------------------------------------------------------------

/// The Unicode `White_Space` property, which `char::is_whitespace` follows.
pub open spec fn spec_is_whitespace(c: char) -> bool {
    let u = c as u32;
    ||| 0x09 <= u <= 0x0D
    ||| u == 0x20
    ||| u == 0x85
    ||| u == 0xA0
    ||| u == 0x1680
    ||| 0x2000 <= u <= 0x200A
    ||| u == 0x2028
    ||| u == 0x2029
    ||| u == 0x202F
    ||| u == 0x205F
    ||| u == 0x3000
}

/// Whether `c` is a whitespace character.
pub fn is_whitespace(c: char) -> (r: bool)
    ensures
        r == spec_is_whitespace(c),
{
    let u = c as u32;
    (0x09 <= u && u <= 0x0D) || u == 0x20 || u == 0x85 || u == 0xA0 || u == 0x1680 || (0x2000
        <= u && u <= 0x200A) || u == 0x2028 || u == 0x2029 || u == 0x202F || u == 0x205F || u
        == 0x3000
}

/// `s` without its leading whitespace.
pub open spec fn spec_trim_start(s: Seq<char>) -> Seq<char>
    decreases s.len(),
{
    if s.len() > 0 && spec_is_whitespace(s[0]) {
        spec_trim_start(s.drop_first())
    } else {
        s
    }
}

/// `s` without its trailing whitespace.
pub open spec fn spec_trim_end(s: Seq<char>) -> Seq<char>
    decreases s.len(),
{
    if s.len() > 0 && spec_is_whitespace(s.last()) {
        spec_trim_end(s.drop_last())
    } else {
        s
    }
}

/// `s` without leading and trailing whitespace.
pub open spec fn spec_trim(s: Seq<char>) -> Seq<char> {
    spec_trim_end(spec_trim_start(s))
}

/// Trimming never yields a string that starts or ends with whitespace.
pub proof fn lemma_trim_start_shape(s: Seq<char>)
    ensures
        spec_trim_start(s).len() <= s.len(),
        spec_trim_start(s) =~= s.skip(s.len() - spec_trim_start(s).len()),
        spec_trim_start(s).len() > 0 ==> !spec_is_whitespace(spec_trim_start(s)[0]),
    decreases s.len(),
{
    if s.len() > 0 && spec_is_whitespace(s[0]) {
        lemma_trim_start_shape(s.drop_first());
    }
}

/// Trimming the end keeps a prefix that does not end with whitespace.
pub proof fn lemma_trim_end_shape(s: Seq<char>)
    ensures
        spec_trim_end(s).len() <= s.len(),
        spec_trim_end(s) =~= s.take(spec_trim_end(s).len() as int),
        spec_trim_end(s).len() > 0 ==> !spec_is_whitespace(spec_trim_end(s).last()),
    decreases s.len(),
{
    if s.len() > 0 && spec_is_whitespace(s.last()) {
        lemma_trim_end_shape(s.drop_last());
    }
}

/// A string that neither starts nor ends with whitespace is its own trim.
pub proof fn lemma_trim_noop(s: Seq<char>)
    requires
        s.len() > 0,
        !spec_is_whitespace(s[0]),
        !spec_is_whitespace(s.last()),
    ensures
        spec_trim(s) == s,
{
}

/// Trimming twice is the same as trimming once.
pub proof fn lemma_trim_idempotent(s: Seq<char>)
    ensures
        spec_trim(spec_trim(s)) == spec_trim(s),
{
    let t = spec_trim(s);
    lemma_trim_start_shape(s);
    lemma_trim_end_shape(spec_trim_start(s));
    if t.len() > 0 {
        assert(t[0] == spec_trim_start(s)[0]);
    }
    assert(spec_trim_start(t) == t);
    assert(spec_trim_end(t) == t);
}

/// The bounds `(i, j)` such that `s@.subrange(i, j)` is `s` trimmed.
pub fn trim_bounds(s: &str) -> (r: (usize, usize))
    ensures
        r.0 <= r.1 <= s@.len(),
        s@.subrange(r.0 as int, r.1 as int) == spec_trim(s@),
{
    let n = s.unicode_len();
    let mut i: usize = 0;
    assert(s@.skip(0) =~= s@);
    while i < n && is_whitespace(s.get_char(i))
        invariant
            n == s@.len(),
            i <= n,
            spec_trim_start(s@) == spec_trim_start(s@.skip(i as int)),
        decreases n - i,
    {
        assert(s@.skip(i as int).drop_first() =~= s@.skip(i + 1));
        i = i + 1;
    }
    assert(s@.skip(i as int) =~= s@.subrange(i as int, n as int));
    assert(spec_trim_start(s@) =~= s@.subrange(i as int, n as int));
    let mut j: usize = n;
    while j > i && is_whitespace(s.get_char(j - 1))
        invariant
            n == s@.len(),
            i <= j <= n,
            spec_trim(s@) == spec_trim_end(s@.subrange(i as int, j as int)),
        decreases j,
    {
        assert(s@.subrange(i as int, j as int).drop_last() =~= s@.subrange(i as int, j - 1));
        j = j - 1;
    }
    (i, j)
}

/// `s` with leading and trailing whitespace removed.
pub fn trim(s: &str) -> (r: &str)
    ensures
        r@ == spec_trim(s@),
{
    let (i, j) = trim_bounds(s);
    s.substring_char(i, j)
}

// ---------------------------------------------------------------------------
// Comparing and searching
// ---------------------------------------------------------------------------

/// Whether two strings hold the same characters.
pub fn str_eq(a: &str, b: &str) -> (r: bool)
    ensures
        r == (a@ == b@),
{
    let n = a.unicode_len();
    if n != b.unicode_len() {
        return false;
    }
    let mut i: usize = 0;
    while i < n
        invariant
            n == a@.len() == b@.len(),
            i <= n,
            forall|k: int| 0 <= k < i ==> a@[k] == b@[k],
        decreases n - i,
    {
        if a.get_char(i) != b.get_char(i) {
            return false;
        }
        i = i + 1;
    }
    assert(a@ =~= b@);
    true
}

/// `p` is a prefix of `s`.
pub open spec fn spec_starts_with(s: Seq<char>, p: Seq<char>) -> bool {
    p.len() <= s.len() && s.take(p.len() as int) == p
}

/// Whether `s` starts with `p`.
pub fn starts_with(s: &str, p: &str) -> (r: bool)
    ensures
        r == spec_starts_with(s@, p@),
{
    let n = s.unicode_len();
    let m = p.unicode_len();
    if m > n {
        return false;
    }
    let mut i: usize = 0;
    while i < m
        invariant
            n == s@.len(),
            m == p@.len(),
            m <= n,
            i <= m,
            forall|k: int| 0 <= k < i ==> s@[k] == p@[k],
        decreases m - i,
    {
        if s.get_char(i) != p.get_char(i) {
            assert(s@.take(m as int)[i as int] != p@[i as int]);
            return false;
        }
        i = i + 1;
    }
    assert(s@.take(m as int) =~= p@);
    true
}

/// The index of the first occurrence of `c` in `s`.
pub open spec fn spec_find_char(s: Seq<char>, c: char) -> Option<int> {
    if exists|i: int| 0 <= i < s.len() && s[i] == c {
        Some(choose|i: int| 0 <= i < s.len() && s[i] == c && forall|k: int| 0 <= k < i ==> s[k] != c)
    } else {
        None
    }
}

/// `i` is the first occurrence of `c` in `s`; then `spec_find_char` names it.
pub proof fn lemma_find_char_first(s: Seq<char>, c: char, i: int)
    requires
        0 <= i < s.len(),
        s[i] == c,
        forall|k: int| 0 <= k < i ==> s[k] != c,
    ensures
        spec_find_char(s, c) == Some(i),
{
    let p = |j: int| 0 <= j < s.len() && s[j] == c && forall|k: int| 0 <= k < j ==> s[k] != c;
    assert(p(i));
    let j = choose|j: int| 0 <= j < s.len() && s[j] == c && forall|k: int| 0 <= k < j ==> s[k] != c;
    assert(p(j));
    if j < i {
        assert(s[j] != c);
    }
    if i < j {
        assert(s[i] != c);
    }
}

/// An occurrence at `i` means there is a first occurrence at or before `i`.
proof fn lemma_first_occurrence_exists(s: Seq<char>, c: char, i: int)
    requires
        0 <= i < s.len(),
        s[i] == c,
    ensures
        exists|j: int|
            0 <= j <= i && s[j] == c && forall|k: int| 0 <= k < j ==> s[k] != c,
    decreases i,
{
    if exists|k: int| 0 <= k < i && s[k] == c {
        let k = choose|k: int| 0 <= k < i && s[k] == c;
        lemma_first_occurrence_exists(s, c, k);
    } else {
        assert(forall|k: int| 0 <= k < i ==> s[k] != c);
    }
}

/// What `spec_find_char` names: the first occurrence, or none at all.
pub proof fn lemma_find_char_facts(s: Seq<char>, c: char)
    ensures
        match spec_find_char(s, c) {
            Some(i) => 0 <= i < s.len() && s[i] == c && forall|k: int| 0 <= k < i ==> s[k] != c,
            None => forall|k: int| 0 <= k < s.len() ==> s[k] != c,
        },
{
    if exists|i: int| 0 <= i < s.len() && s[i] == c {
        let i = choose|i: int| 0 <= i < s.len() && s[i] == c;
        lemma_first_occurrence_exists(s, c, i);
    }
}

/// A character that is counted occurs somewhere.
pub proof fn lemma_count_char_occurs(s: Seq<char>, c: char)
    requires
        spec_count_char(s, c) > 0,
    ensures
        spec_find_char(s, c) is Some,
    decreases s.len(),
{
    if s.last() == c {
        lemma_find_char_facts(s, c);
        assert(s[s.len() - 1] == c);
    } else {
        lemma_count_char_occurs(s.drop_last(), c);
        lemma_find_char_facts(s.drop_last(), c);
        lemma_find_char_facts(s, c);
        let i = spec_find_char(s.drop_last(), c)->0;
        assert(s[i] == c);
    }
}

/// The index of the first occurrence of `c` in `s`, if any.
pub fn find_char(s: &str, c: char) -> (r: Option<usize>)
    ensures
        match r {
            Some(i) => spec_find_char(s@, c) == Some(i as int),
            None => spec_find_char(s@, c) is None,
        },
        r matches Some(i) ==> i < s@.len() && s@[i as int] == c,
{
    let n = s.unicode_len();
    let mut i: usize = 0;
    while i < n
        invariant
            n == s@.len(),
            i <= n,
            forall|k: int| 0 <= k < i ==> s@[k] != c,
        decreases n - i,
    {
        if s.get_char(i) == c {
            proof {
                lemma_find_char_first(s@, c, i as int);
            }
            return Some(i);
        }
        i = i + 1;
    }
    None
}

/// How many times `c` occurs in `s`.
pub open spec fn spec_count_char(s: Seq<char>, c: char) -> nat
    decreases s.len(),
{
    if s.len() == 0 {
        0
    } else {
        spec_count_char(s.drop_last(), c) + if s.last() == c {
            1nat
        } else {
            0nat
        }
    }
}

/// How many times `c` occurs in `s`.
pub fn count_char(s: &str, c: char) -> (r: usize)
    ensures
        r == spec_count_char(s@, c),
{
    let n = s.unicode_len();
    let mut i: usize = 0;
    let mut k: usize = 0;
    assert(s@.take(0) =~= Seq::<char>::empty());
    while i < n
        invariant
            n == s@.len(),
            i <= n,
            k <= i,
            k == spec_count_char(s@.take(i as int), c),
        decreases n - i,
    {
        assert(s@.take(i + 1).drop_last() =~= s@.take(i as int));
        if s.get_char(i) == c {
            k = k + 1;
        }
        i = i + 1;
    }
    assert(s@.take(n as int) =~= s@);
    k
}

// ---------------------------------------------------------------------------
// Decimal numbers
// ---------------------------------------------------------------------------

/// An ASCII decimal digit.
pub open spec fn spec_is_digit(c: char) -> bool {
    '0' <= c <= '9'
}

/// Every character of `s` is an ASCII decimal digit.
pub open spec fn spec_all_digits(s: Seq<char>) -> bool {
    forall|i: int| 0 <= i < s.len() ==> spec_is_digit(#[trigger] s[i])
}

/// The value of an ASCII digit.
pub open spec fn spec_digit_value(c: char) -> nat {
    (c as u32 - '0' as u32) as nat
}

/// The value of a string of decimal digits, most significant first.
pub open spec fn spec_digits_value(s: Seq<char>) -> nat
    decreases s.len(),
{
    if s.len() == 0 {
        0
    } else {
        spec_digits_value(s.drop_last()) * 10 + spec_digit_value(s.last())
    }
}

/// Adding digits never makes the value smaller.
pub proof fn lemma_digits_value_prefix(s: Seq<char>, k: int)
    requires
        0 <= k <= s.len(),
        spec_all_digits(s),
    ensures
        spec_digits_value(s.take(k)) <= spec_digits_value(s),
    decreases s.len() - k,
{
    if k < s.len() {
        lemma_digits_value_prefix(s, k + 1);
        assert(s.take(k + 1).drop_last() =~= s.take(k));
    } else {
        assert(s.take(k) =~= s);
    }
}

/// The digits (after an optional `+`) of an unsigned number, as
/// `str::parse` for unsigned integer types reads them.
pub open spec fn spec_unsigned_digits(s: Seq<char>) -> Seq<char> {
    if s.len() > 0 && s[0] == '+' {
        s.drop_first()
    } else {
        s
    }
}

/// The value of an unsigned decimal number as `str::parse` reads it: an
/// optional `+`, then one or more ASCII digits and nothing else. The bound
/// of the target type is checked by the caller.
pub open spec fn spec_parse_unsigned(s: Seq<char>) -> Option<nat> {
    let d = spec_unsigned_digits(s);
    if d.len() > 0 && spec_all_digits(d) {
        Some(spec_digits_value(d))
    } else {
        None
    }
}

/// `s` read as an unsigned number that must not exceed `max`.
pub open spec fn spec_parse_bounded(s: Seq<char>, max: nat) -> Option<nat> {
    match spec_parse_unsigned(s) {
        Some(v) => if v <= max {
            Some(v)
        } else {
            None
        },
        None => None,
    }
}

/// The value of the digits `s@[from..]`, when they are all digits, there is
/// at least one, and the value fits in a `u64`.
fn parse_digits_from(s: &str, from: usize) -> (r: Option<u64>)
    requires
        from <= s@.len(),
    ensures
        ({
            let d = s@.skip(from as int);
            match r {
                Some(v) => d.len() > 0 && spec_all_digits(d) && v == spec_digits_value(d),
                None => !(d.len() > 0 && spec_all_digits(d) && spec_digits_value(d) <= u64::MAX),
            }
        }),
{
    let n = s.unicode_len();
    let ghost d = s@.skip(from as int);
    if from == n {
        return None;
    }
    let mut i: usize = from;
    let mut acc: u64 = 0;
    assert(d.take(0) =~= Seq::<char>::empty());
    while i < n
        invariant
            n == s@.len(),
            from <= i <= n,
            from < n,
            d == s@.skip(from as int),
            forall|k: int| 0 <= k < i - from ==> spec_is_digit(#[trigger] d[k]),
            acc == spec_digits_value(d.take(i - from)),
        decreases n - i,
    {
        let c = s.get_char(i);
        if !('0' <= c && c <= '9') {
            assert(!spec_is_digit(d[i - from]));
            return None;
        }
        let dv = (c as u32 - '0' as u32) as u64;
        assert(d.take(i - from + 1).drop_last() =~= d.take(i - from));
        assert(d.take(i - from + 1).last() == c);
        if acc > (u64::MAX - dv) / 10 {
            proof {
                assert(acc * 10 + dv > u64::MAX) by (nonlinear_arith)
                    requires
                        acc > (u64::MAX - dv) / 10,
                        dv <= 9,
                ;
                if spec_all_digits(d) {
                    lemma_digits_value_prefix(d, i - from + 1);
                }
            }
            return None;
        }
        assert(acc * 10 + dv <= u64::MAX) by (nonlinear_arith)
            requires
                acc <= (u64::MAX - dv) / 10,
                dv <= 9,
        ;
        acc = acc * 10 + dv;
        i = i + 1;
    }
    assert(d.take(n - from) =~= d);
    Some(acc)
}

/// `s` parsed as a `u64`, as `str::parse::<u64>` does.
pub fn parse_u64(s: &str) -> (r: Option<u64>)
    ensures
        r == (match spec_parse_bounded(s@, u64::MAX as nat) {
            Some(v) => Some(v as u64),
            None => None::<u64>,
        }),
{
    let n = s.unicode_len();
    let from: usize = if n > 0 && s.get_char(0) == '+' {
        1
    } else {
        0
    };
    assert(spec_unsigned_digits(s@) =~= s@.skip(from as int));
    parse_digits_from(s, from)
}

/// `s` parsed as a `usize`, as `str::parse::<usize>` does.
pub fn parse_usize(s: &str) -> (r: Option<usize>)
    ensures
        r == (match spec_parse_bounded(s@, usize::MAX as nat) {
            Some(v) => Some(v as usize),
            None => None::<usize>,
        }),
{
    match parse_u64(s) {
        Some(v) => {
            if v <= usize::MAX as u64 {
                Some(v as usize)
            } else {
                None
            }
        },
        None => {
            proof {
                if spec_parse_unsigned(s@) is Some {
                    assert(usize::MAX <= u64::MAX);
                }
            }
            None
        },
    }
}

/// `s` parsed as a `u32`, as `str::parse::<u32>` does.
pub fn parse_u32(s: &str) -> (r: Option<u32>)
    ensures
        r == (match spec_parse_bounded(s@, u32::MAX as nat) {
            Some(v) => Some(v as u32),
            None => None::<u32>,
        }),
{
    match parse_u64(s) {
        Some(v) => {
            if v <= u32::MAX as u64 {
                Some(v as u32)
            } else {
                None
            }
        },
        None => None,
    }
}

/// The value of a signed decimal number as `str::parse` reads it: an
/// optional sign, then one or more ASCII digits and nothing else.
pub open spec fn spec_parse_signed(s: Seq<char>) -> Option<int> {
    if s.len() > 0 && s[0] == '-' {
        let d = s.drop_first();
        if d.len() > 0 && spec_all_digits(d) {
            Some(-(spec_digits_value(d) as int))
        } else {
            None
        }
    } else {
        match spec_parse_unsigned(s) {
            Some(v) => Some(v as int),
            None => None,
        }
    }
}

/// `s` parsed as an `i32`, as `str::parse::<i32>` does.
pub fn parse_i32(s: &str) -> (r: Option<i32>)
    ensures
        r == (match spec_parse_signed(s@) {
            Some(v) => if i32::MIN <= v <= i32::MAX {
                Some(v as i32)
            } else {
                None::<i32>
            },
            None => None::<i32>,
        }),
{
    let n = s.unicode_len();
    if n > 0 && s.get_char(0) == '-' {
        assert(s@.drop_first() =~= s@.skip(1));
        match parse_digits_from(s, 1) {
            Some(v) => {
                if v <= 2147483648 {
                    let m = v as i64;
                    Some((-m) as i32)
                } else {
                    None
                }
            },
            None => None,
        }
    } else {
        match parse_u64(s) {
            Some(v) => {
                if v <= 2147483647 {
                    Some(v as i32)
                } else {
                    None
                }
            },
            None => None,
        }
    }
}

/// The ASCII character of a decimal digit.
pub open spec fn spec_digit_char(d: nat) -> char {
    (48 + d) as char
}

/// The decimal representation of `n`, without leading zeros.
pub open spec fn spec_decimal(n: nat) -> Seq<char>
    decreases n,
{
    if n < 10 {
        seq![spec_digit_char(n)]
    } else {
        spec_decimal(n / 10).push(spec_digit_char(n % 10))
    }
}

/// `s` left-padded with `'0'` to at least `width` characters.
pub open spec fn spec_pad_zeros(s: Seq<char>, width: nat) -> Seq<char> {
    if s.len() >= width {
        s
    } else {
        Seq::new((width - s.len()) as nat, |i: int| '0') + s
    }
}

/// The one-character string of a decimal digit.
fn digit_str(d: u128) -> (r: &'static str)
    requires
        d < 10,
    ensures
        r@ == seq![spec_digit_char(d as nat)],
{
    let digits = "0123456789";
    proof {
        reveal_strlit("0123456789");
    }
    let r = digits.substring_char(d as usize, (d + 1) as usize);
    assert(r@ =~= seq![spec_digit_char(d as nat)]);
    r
}

/// The decimal representation of `n`, as `format!("{}", n)` writes it.
pub fn to_decimal(n: u128) -> (r: String)
    ensures
        r@ == spec_decimal(n as nat),
    decreases n,
{
    if n < 10 {
        String::from_str(digit_str(n))
    } else {
        let mut s = to_decimal(n / 10);
        s.append(digit_str(n % 10));
        s
    }
}

/// The decimal representation of `n`, left-padded with zeros to at least
/// `width` characters, as `format!("{:0width$}", n)` writes it.
pub fn to_decimal_padded(n: u128, width: usize) -> (r: String)
    ensures
        r@ == spec_pad_zeros(spec_decimal(n as nat), width as nat),
{
    let digits = to_decimal(n);
    let len = digits.as_str().unicode_len();
    if len >= width {
        return digits;
    }
    let mut out = String::new();
    let mut k: usize = 0;
    while k < width - len
        invariant
            len < width,
            k <= width - len,
            out@ =~= Seq::new(k as nat, |i: int| '0'),
        decreases width - len - k,
    {
        out.append(digit_str(0));
        k = k + 1;
    }
    out.append(digits.as_str());
    out
}

// ---------------------------------------------------------------------------
// Splitting
// ---------------------------------------------------------------------------

/// The position of the first whitespace character of `s`, or its length.
pub open spec fn spec_word_end(s: Seq<char>) -> int
    decreases s.len(),
{
    if s.len() == 0 || spec_is_whitespace(s[0]) {
        0
    } else {
        1 + spec_word_end(s.drop_first())
    }
}

/// A word is never longer than the text it starts.
pub proof fn lemma_word_end_bounds(s: Seq<char>)
    ensures
        0 <= spec_word_end(s) <= s.len(),
        s.len() > 0 && !spec_is_whitespace(s[0]) ==> spec_word_end(s) > 0,
        forall|i: int| 0 <= i < spec_word_end(s) ==> !spec_is_whitespace(#[trigger] s[i]),
        spec_word_end(s) < s.len() ==> spec_is_whitespace(s[spec_word_end(s)]),
    decreases s.len(),
{
    if s.len() > 0 && !spec_is_whitespace(s[0]) {
        lemma_word_end_bounds(s.drop_first());
        assert forall|i: int| 0 <= i < spec_word_end(s) implies !spec_is_whitespace(
            #[trigger] s[i],
        ) by {
            if i > 0 {
                assert(s[i] == s.drop_first()[i - 1]);
            }
        }
    }
}

/// The maximal runs of non-whitespace characters of `s`, in order, as
/// `str::split_whitespace` yields them.
pub open spec fn spec_split_whitespace(s: Seq<char>) -> Seq<Seq<char>>
    decreases s.len(),
{
    let t = spec_trim_start(s);
    if t.len() == 0 {
        Seq::empty()
    } else {
        let k = spec_word_end(t);
        proof {
            lemma_trim_start_shape(s);
            lemma_word_end_bounds(t);
        }
        seq![t.take(k)] + spec_split_whitespace(t.skip(k))
    }
}

/// Skipping a run of whitespace that ends at a non-whitespace character
/// (or at the end) is what `spec_trim_start` does.
pub proof fn lemma_trim_start_skip(s: Seq<char>, pos: int, i: int)
    requires
        0 <= pos <= i <= s.len(),
        forall|k: int| pos <= k < i ==> spec_is_whitespace(#[trigger] s[k]),
        i < s.len() ==> !spec_is_whitespace(s[i]),
    ensures
        spec_trim_start(s.skip(pos)) == s.skip(i),
    decreases i - pos,
{
    if pos < i {
        assert(s.skip(pos).drop_first() =~= s.skip(pos + 1));
        lemma_trim_start_skip(s, pos + 1, i);
    } else {
        if i < s.len() {
            assert(s.skip(i)[0] == s[i]);
        }
    }
}

/// A run of non-whitespace that ends at whitespace (or at the end) is a word.
pub proof fn lemma_word_end_skip(s: Seq<char>, i: int, j: int)
    requires
        0 <= i <= j <= s.len(),
        forall|k: int| i <= k < j ==> !spec_is_whitespace(#[trigger] s[k]),
        j < s.len() ==> spec_is_whitespace(s[j]),
    ensures
        spec_word_end(s.skip(i)) == j - i,
    decreases j - i,
{
    if i < j {
        assert(s.skip(i).drop_first() =~= s.skip(i + 1));
        assert(s.skip(i)[0] == s[i]);
        lemma_word_end_skip(s, i + 1, j);
    } else {
        if j < s.len() {
            assert(s.skip(j)[0] == s[j]);
        }
    }
}

/// `s` split at its first two spaces into at most three parts, as
/// `str::splitn(3, ' ')` splits it; the third part keeps any later spaces.
pub open spec fn spec_splitn3_space(s: Seq<char>) -> Seq<Seq<char>> {
    match spec_find_char(s, ' ') {
        None => seq![s],
        Some(a) => {
            let rest = s.skip(a + 1);
            match spec_find_char(rest, ' ') {
                None => seq![s.take(a), rest],
                Some(b) => seq![s.take(a), rest.take(b), rest.skip(b + 1)],
            }
        },
    }
}

/// `s` split at its first two spaces, as `str::splitn(3, ' ')` splits it.
pub fn splitn3_space(s: &str) -> (r: Vec<&str>)
    ensures
        r@.map_values(|w: &str| w@) == spec_splitn3_space(s@),
{
    let n = s.unicode_len();
    let mut out: Vec<&str> = Vec::new();
    match find_char(s, ' ') {
        None => {
            out.push(s);
            assert(out@.map_values(|w: &str| w@) =~= seq![s@]);
        },
        Some(a) => {
            proof {
                lemma_find_char_facts(s@, ' ');
            }
            let first = s.substring_char(0, a);
            let rest = s.substring_char(a + 1, n);
            assert(rest@ =~= s@.skip(a + 1));
            assert(first@ =~= s@.take(a as int));
            out.push(first);
            match find_char(rest, ' ') {
                None => {
                    out.push(rest);
                    assert(out@.map_values(|w: &str| w@) =~= seq![first@, rest@]);
                },
                Some(b) => {
                    proof {
                        lemma_find_char_facts(rest@, ' ');
                    }
                    let m = rest.unicode_len();
                    let second = rest.substring_char(0, b);
                    let third = rest.substring_char(b + 1, m);
                    assert(second@ =~= rest@.take(b as int));
                    assert(third@ =~= rest@.skip(b + 1));
                    out.push(second);
                    out.push(third);
                    assert(out@.map_values(|w: &str| w@) =~= seq![first@, second@, third@]);
                },
            }
        },
    }
    out
}

/// `s` without its leading and trailing `c` characters, as
/// `str::trim_matches(c)` returns it.
pub open spec fn spec_trim_char(s: Seq<char>, c: char) -> Seq<char>
    decreases s.len(),
{
    if s.len() > 0 && s[0] == c {
        spec_trim_char(s.drop_first(), c)
    } else if s.len() > 0 && s.last() == c {
        spec_trim_char(s.drop_last(), c)
    } else {
        s
    }
}

/// `s` without leading and trailing `c` characters.
pub fn trim_char(s: &str, c: char) -> (r: &str)
    ensures
        r@ == spec_trim_char(s@, c),
{
    let n = s.unicode_len();
    let mut i: usize = 0;
    assert(s@.subrange(0, n as int) =~= s@);
    while i < n && s.get_char(i) == c
        invariant
            n == s@.len(),
            i <= n,
            spec_trim_char(s@, c) == spec_trim_char(s@.subrange(i as int, n as int), c),
        decreases n - i,
    {
        assert(s@.subrange(i as int, n as int).drop_first() =~= s@.subrange(i + 1, n as int));
        i = i + 1;
    }
    let mut j: usize = n;
    while j > i && s.get_char(j - 1) == c
        invariant
            n == s@.len(),
            i <= j <= n,
            i < n ==> s@[i as int] != c,
            spec_trim_char(s@, c) == spec_trim_char(s@.subrange(i as int, j as int), c),
        decreases j,
    {
        let ghost t = s@.subrange(i as int, j as int);
        assert(t.drop_last() =~= s@.subrange(i as int, j - 1));
        if j - 1 > i {
            assert(t[0] == s@[i as int]);
        }
        j = j - 1;
    }
    proof {
        let t = s@.subrange(i as int, j as int);
        if t.len() > 0 {
            assert(t[0] == s@[i as int]);
        }
    }
    s.substring_char(i, j)
}

/// The whitespace-separated words of `s`, as `str::split_whitespace` yields them.
pub fn split_whitespace(s: &str) -> (r: Vec<&str>)
    ensures
        r@.map_values(|w: &str| w@) == spec_split_whitespace(s@),
{
    let n = s.unicode_len();
    let mut out: Vec<&str> = Vec::new();
    let mut pos: usize = 0;
    assert(s@.skip(0) =~= s@);
    while pos < n
        invariant
            n == s@.len(),
            pos <= n,
            out@.map_values(|w: &str| w@) + spec_split_whitespace(s@.skip(pos as int))
                == spec_split_whitespace(s@),
        decreases n - pos,
    {
        let mut i = pos;
        while i < n && is_whitespace(s.get_char(i))
            invariant
                n == s@.len(),
                pos <= i <= n,
                forall|k: int| pos <= k < i ==> spec_is_whitespace(#[trigger] s@[k]),
            decreases n - i,
        {
            i = i + 1;
        }
        proof {
            lemma_trim_start_skip(s@, pos as int, i as int);
        }
        if i == n {
            assert(s@.skip(n as int).len() == 0);
            assert(spec_split_whitespace(s@.skip(pos as int)) =~= Seq::<Seq<char>>::empty());
            pos = n;
        } else {
            let mut j = i;
            while j < n && !is_whitespace(s.get_char(j))
                invariant
                    n == s@.len(),
                    i <= j <= n,
                    forall|k: int| i <= k < j ==> !spec_is_whitespace(#[trigger] s@[k]),
                decreases n - j,
            {
                j = j + 1;
            }
            proof {
                lemma_word_end_skip(s@, i as int, j as int);
            }
            let w = s.substring_char(i, j);
            let ghost old_out = out@.map_values(|w: &str| w@);
            out.push(w);
            proof {
                let t = s@.skip(i as int);
                assert(t.take(j - i) =~= s@.subrange(i as int, j as int));
                assert(t.skip(j - i) =~= s@.skip(j as int));
                assert(out@.map_values(|w: &str| w@) =~= old_out.push(w@));
                assert(spec_split_whitespace(s@.skip(pos as int)) == seq![w@]
                    + spec_split_whitespace(s@.skip(j as int)));
                assert(old_out.push(w@) + spec_split_whitespace(s@.skip(j as int)) =~= old_out + (
                seq![w@] + spec_split_whitespace(s@.skip(j as int))));
            }
            pos = j;
        }
    }
    assert(spec_split_whitespace(s@.skip(n as int)) =~= Seq::<Seq<char>>::empty());
    assert(out@.map_values(|w: &str| w@) + Seq::<Seq<char>>::empty() =~= out@.map_values(
        |w: &str| w@,
    ));
    out
}

} // verus!
