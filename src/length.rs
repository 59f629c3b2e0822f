//! The length unit codec: `"<n>%"`, `"<n>px"` and `"auto"`.
//!
//! A number is kept as decimal digits, so decoding is exact. A numeral is an
//! optional sign, digits, an optional fraction after a `.`, and an optional
//! exponent (`e` or `E`, an optional sign, digits); the exponent moves the
//! point, so `1e3` is kept as `1000`. Negative values are accepted.
//!
//! No length holds a non-finite value: `NaN` and infinities are rejected, and
//! so is a value of `10^309` or more in magnitude, which exceeds every finite
//! double. A non-zero value below `10^-331` in magnitude, which a double parse
//! turns into zero, decodes as zero. Every other value is kept exactly, a
//! zero mantissa whatever its exponent.
use vstd::prelude::*;
use vstd::string::*;
use crate::text::same_text;
use crate::json::JsonField;
use vstd::arithmetic::power::{pow, lemma_pow_positive};

verus! {

/// A decimal number: its sign, the digits before the point and those after it.
#[derive(Debug, Clone, PartialEq, Eq)]
pub struct Decimal {
    pub negative: bool,
    pub whole: Vec<char>,
    pub frac: Vec<char>,
}

/// The mathematical model of a [`Decimal`].
pub ghost struct DecimalModel {
    pub negative: bool,
    pub whole: Seq<char>,
    pub frac: Seq<char>,
}

impl View for Decimal {
    type V = DecimalModel;

    open spec fn view(&self) -> DecimalModel {
        DecimalModel { negative: self.negative, whole: self.whole@, frac: self.frac@ }
    }
}

/// A box-model length.
#[derive(Debug, Clone, PartialEq, Eq)]
pub enum Length {
    /// A percentage of a reference dimension.
    Percent(Decimal),
    /// An absolute length in device-independent pixels.
    Point(Decimal),
    /// The layout engine computes the value.
    Auto,
    /// The property is unset.
    Undefined,
}

pub ghost enum LengthModel {
    Percent(DecimalModel),
    Point(DecimalModel),
    Auto,
    Undefined,
}

impl View for Length {
    type V = LengthModel;

    open spec fn view(&self) -> LengthModel {
        match self {
            Length::Percent(n) => LengthModel::Percent(n@),
            Length::Point(n) => LengthModel::Point(n@),
            Length::Auto => LengthModel::Auto,
            Length::Undefined => LengthModel::Undefined,
        }
    }
}

/// Why a string that should hold a length does not.
#[derive(Debug, Clone, Copy, PartialEq, Eq)]
pub enum UnitError {
    /// The string is neither `auto` nor ends in `%` or `px`.
    UnknownUnit,
    /// The text before the unit is not a numeral.
    BadNumber,
}

pub open spec fn is_digit(c: char) -> bool {
    '0' <= c && c <= '9'
}

pub open spec fn all_digits(s: Seq<char>) -> bool {
    forall|i: int| 0 <= i < s.len() ==> is_digit(#[trigger] s[i])
}

impl DecimalModel {
    /// Every digit is a decimal digit and there is at least one of them.
    pub open spec fn wf(self) -> bool {
        &&& all_digits(self.whole)
        &&& all_digits(self.frac)
        &&& self.whole.len() + self.frac.len() >= 1
    }
}

impl Length {
    /// Whether a percentage or point length holds a well-formed number.
    pub fn is_wf(&self) -> (r: bool)
        ensures
            r == self@.wf(),
    {
        match self {
            Length::Percent(n) => n.is_wf(),
            Length::Point(n) => n.is_wf(),
            _ => true,
        }
    }
}

impl LengthModel {
    pub open spec fn wf(self) -> bool {
        match self {
            LengthModel::Percent(n) => n.wf(),
            LengthModel::Point(n) => n.wf(),
            _ => true,
        }
    }
}

/// The length of a leading sign, if any.
pub open spec fn sign_len(s: Seq<char>) -> int {
    if s.len() > 0 && (s[0] == '-' || s[0] == '+') {
        1
    } else {
        0
    }
}

/// The index of the first `.` at or after `i`, or the length if there is none.
pub open spec fn first_dot(b: Seq<char>, i: int) -> int
    decreases b.len() - i,
{
    if i < 0 || i >= b.len() {
        b.len() as int
    } else if b[i] == '.' {
        i
    } else {
        first_dot(b, i + 1)
    }
}

/// The number that a numeral without exponent denotes, if it is one.
pub open spec fn plain_numeral(s: Seq<char>) -> Option<DecimalModel> {
    let b = s.subrange(sign_len(s), s.len() as int);
    let d = first_dot(b, 0);
    let whole = b.subrange(0, d);
    let frac = if d < b.len() { b.subrange(d + 1, b.len() as int) } else { Seq::empty() };
    if whole.len() + frac.len() >= 1 && all_digits(whole) && all_digits(frac) {
        Some(DecimalModel { negative: sign_len(s) == 1 && s[0] == '-', whole, frac })
    } else {
        None
    }
}

/// A decimal order of magnitude that every finite double lies below.
pub const TOO_LARGE_PLACES: u128 = 309;

/// A decimal order of magnitude below which a double parse gives zero.
pub const TOO_SMALL_PLACES: u128 = 330;

/// Beyond this, an exponent decides the outcome whatever the digits are.
pub const EXPONENT_CAP: u128 = 1180591620717411303424;

pub open spec fn is_exp_mark(c: char) -> bool {
    c == 'e' || c == 'E'
}

/// The index of the first exponent mark at or after `i`, or the length.
pub open spec fn first_exp(t: Seq<char>, i: int) -> int
    decreases t.len() - i,
{
    if i < 0 || i >= t.len() {
        t.len() as int
    } else if is_exp_mark(t[i]) {
        i
    } else {
        first_exp(t, i + 1)
    }
}

/// The value of exponent digits, read from the left.
pub open spec fn exponent_value(s: Seq<char>) -> nat
    decreases s.len(),
{
    if s.len() == 0 {
        0
    } else {
        (exponent_value(s.drop_last()) * 10 + (s.last() as nat - '0' as nat)) as nat
    }
}

/// The number of leading zeros among the digits `d`.
pub open spec fn leading_zeros(d: Seq<char>) -> int {
    d.len() - strip_zeros(d).len()
}

/// A number that decodes as it is written: zero, or of magnitude below
/// `10^309` and not below `10^-331`.
pub open spec fn in_range(n: DecimalModel) -> bool {
    let d = n.whole + n.frac;
    let z = leading_zeros(d);
    z == d.len() || (-TOO_SMALL_PLACES <= n.whole.len() - z && n.whole.len() - z <= TOO_LARGE_PLACES)
}

/// The number with its point moved `k` places, right when `up`: refused
/// where its magnitude is `10^309` or more, zero where it is below `10^-331`,
/// exact otherwise. A zero stays as it is.
pub open spec fn scaled(n: DecimalModel, up: bool, k: nat) -> Option<DecimalModel> {
    let d = n.whole + n.frac;
    let z = leading_zeros(d);
    let p: int = if up { n.whole.len() + k as int } else { n.whole.len() - k as int };
    if z == d.len() {
        Some(n)
    } else if p - z > TOO_LARGE_PLACES {
        None
    } else if p - z < -TOO_SMALL_PLACES {
        Some(DecimalModel { negative: n.negative, whole: seq!['0'], frac: Seq::empty() })
    } else if k == 0 {
        Some(n)
    } else {
        Some(shifted(n, up, k))
    }
}

/// The first `k` characters of `d`, continued with zeros where `d` ends.
pub open spec fn padded(d: Seq<char>, k: nat) -> Seq<char> {
    Seq::new(k, |i: int| if i < d.len() { d[i] } else { '0' })
}

pub open spec fn zeros(k: nat) -> Seq<char> {
    Seq::new(k, |i: int| '0')
}

/// The number with its point moved `k` places right (`up`) or left.
pub open spec fn shifted(n: DecimalModel, up: bool, k: nat) -> DecimalModel {
    let w = n.whole.len();
    if up {
        DecimalModel {
            negative: n.negative,
            whole: n.whole + padded(n.frac, k),
            frac: if k < n.frac.len() { n.frac.subrange(k as int, n.frac.len() as int) } else { Seq::empty() },
        }
    } else if k <= w {
        DecimalModel {
            negative: n.negative,
            whole: n.whole.subrange(0, w - k),
            frac: n.whole.subrange(w - k, w as int) + n.frac,
        }
    } else {
        DecimalModel { negative: n.negative, whole: Seq::empty(), frac: zeros((k - w) as nat) + n.whole + n.frac }
    }
}

/// The number that a numeral denotes, if it is one.
pub open spec fn numeral(s: Seq<char>) -> Option<DecimalModel> {
    let x = first_exp(s, 0);
    let m = plain_numeral(s.subrange(0, x));
    if x == s.len() {
        match m {
            Some(n) => scaled(n, true, 0),
            None => None,
        }
    } else {
        let e = s.subrange(x + 1, s.len() as int);
        let d = e.subrange(sign_len(e), e.len() as int);
        if m is Some && d.len() >= 1 && all_digits(d) {
            scaled(m->0, !(sign_len(e) == 1 && e[0] == '-'), exponent_value(d))
        } else {
            None
        }
    }
}

/// What a string decodes to as a length. The number is kept exactly, but a
/// value of `10^309` or more in magnitude is refused as non-finite and a
/// non-zero value below `10^-331` decodes as zero (see `scaled`).
pub open spec fn decode_text(s: Seq<char>) -> Result<LengthModel, UnitError> {
    if s == "auto"@ {
        Ok(LengthModel::Auto)
    } else if s.len() >= 1 && s.last() == '%' {
        match numeral(s.drop_last()) {
            Some(n) => Ok(LengthModel::Percent(n)),
            None => Err(UnitError::BadNumber),
        }
    } else if s.len() >= 2 && s[s.len() - 2] == 'p' && s[s.len() - 1] == 'x' {
        match numeral(s.subrange(0, s.len() - 2)) {
            Some(n) => Ok(LengthModel::Point(n)),
            None => Err(UnitError::BadNumber),
        }
    } else {
        Err(UnitError::UnknownUnit)
    }
}

/// Parses the numeral without exponent held in the first `end` characters
/// of `s`.
fn parse_plain(s: &str, end: usize) -> (r: Option<Decimal>)
    requires
        end <= s@.len(),
    ensures
        match r {
            Some(n) => plain_numeral(s@.subrange(0, end as int)) == Some(n@),
            None => plain_numeral(s@.subrange(0, end as int)) is None,
        },
{
    let ghost t = s@.subrange(0, end as int);
    let mut start: usize = 0;
    let mut negative = false;
    if end > 0 {
        let c = s.get_char(0);
        if c == '-' || c == '+' {
            start = 1;
            negative = c == '-';
        }
    }
    assert(start == sign_len(t));
    let ghost b = t.subrange(start as int, end as int);
    let mut whole: Vec<char> = Vec::new();
    let mut i: usize = start;
    while i < end && s.get_char(i) != '.'
        invariant
            start <= i <= end,
            end <= s@.len(),
            t == s@.subrange(0, end as int),
            b == t.subrange(start as int, end as int),
            start == sign_len(t),
            negative == (sign_len(t) == 1 && t[0] == '-'),
            first_dot(b, 0) == first_dot(b, i - start),
            whole@ == b.subrange(0, i - start),
            all_digits(whole@),
        decreases end - i,
    {
        let c = s.get_char(i);
        if !('0' <= c && c <= '9') {
            assert(b[i - start] == c);
            proof {
                lemma_first_dot_at_least(b, i - start + 1);
                lemma_first_dot_at_least(b, 0);
            }
            assert(first_dot(b, i - start) == first_dot(b, i - start + 1));
            let ghost w = b.subrange(0, first_dot(b, 0));
            assert(w[i - start] == c);
            assert(!all_digits(w)) by {
                assert(!is_digit(w[i - start]));
            }
            return None;
        }
        whole.push(c);
        assert(whole@ == b.subrange(0, i + 1 - start));
        i = i + 1;
    }
    assert(first_dot(b, 0) == i - start) by {
        if i < end {
            assert(b[i - start] == '.');
        }
    }
    let mut frac: Vec<char> = Vec::new();
    if i < end {
        let mut j: usize = i + 1;
        while j < end
            invariant
                start <= i < j <= end,
                first_dot(b, 0) == i - start,
                end <= s@.len(),
                t == s@.subrange(0, end as int),
                b == t.subrange(start as int, end as int),
                start == sign_len(t),
                negative == (sign_len(t) == 1 && t[0] == '-'),
                frac@ == b.subrange(i + 1 - start, j - start),
                all_digits(frac@),
            decreases end - j,
        {
            let c = s.get_char(j);
            if !('0' <= c && c <= '9') {
                let ghost f = b.subrange(i + 1 - start, end - start);
                assert(f[j - i - 1] == c);
                assert(!all_digits(f)) by {
                    assert(!is_digit(f[j - i - 1]));
                }
                return None;
            }
            frac.push(c);
            assert(frac@ == b.subrange(i + 1 - start, j + 1 - start));
            j = j + 1;
        }
    }
    if whole.len() == 0 && frac.len() == 0 {
        return None;
    }
    Some(Decimal { negative, whole, frac })
}

fn push_range(out: &mut Vec<char>, v: &Vec<char>, from: usize, to: usize)
    requires
        from <= to <= v@.len(),
    ensures
        final(out)@ == old(out)@ + v@.subrange(from as int, to as int),
{
    let ghost head = out@;
    let mut i: usize = from;
    while i < to
        invariant
            from <= i <= to,
            to <= v@.len(),
            out@ == head + v@.subrange(from as int, i as int),
        decreases to - i,
    {
        out.push(v[i]);
        assert(v@.subrange(from as int, i + 1) == v@.subrange(from as int, i as int).push(v@[i as int]));
        i = i + 1;
    }
}

fn push_padded(out: &mut Vec<char>, v: &Vec<char>, k: u128)
    ensures
        final(out)@ == old(out)@ + padded(v@, k as nat),
{
    let ghost head = out@;
    let mut i: u128 = 0;
    while i < k
        invariant
            i <= k,
            out@ == head + padded(v@, i as nat),
        decreases k - i,
    {
        if i < v.len() as u128 {
            out.push(v[i as usize]);
        } else {
            out.push('0');
        }
        assert(padded(v@, (i + 1) as nat) =~= padded(v@, i as nat).push(out@.last()));
        i = i + 1;
    }
}

fn push_zeros(out: &mut Vec<char>, k: u128)
    ensures
        final(out)@ == old(out)@ + zeros(k as nat),
{
    let ghost head = out@;
    let mut i: u128 = 0;
    while i < k
        invariant
            i <= k,
            out@ == head + zeros(i as nat),
        decreases k - i,
    {
        out.push('0');
        assert(zeros((i + 1) as nat) =~= zeros(i as nat).push('0'));
        i = i + 1;
    }
}

/// Moves the point of `n` by `k` places, right when `up`.
fn shift(n: &Decimal, up: bool, k: u128) -> (r: Decimal)
    ensures
        r@ == shifted(n@, up, k as nat),
{
    let w = n.whole.len();
    let f = n.frac.len();
    let mut whole: Vec<char> = Vec::new();
    let mut frac: Vec<char> = Vec::new();
    if up {
        push_range(&mut whole, &n.whole, 0, w);
        push_padded(&mut whole, &n.frac, k);
        if k < f as u128 {
            push_range(&mut frac, &n.frac, k as usize, f);
        }
    } else if k <= w as u128 {
        let k = k as usize;
        push_range(&mut whole, &n.whole, 0, w - k);
        push_range(&mut frac, &n.whole, w - k, w);
        push_range(&mut frac, &n.frac, 0, f);
    } else {
        push_zeros(&mut frac, k - w as u128);
        push_range(&mut frac, &n.whole, 0, w);
        push_range(&mut frac, &n.frac, 0, f);
    }
    assert(n.whole@.subrange(0, w as int) == n.whole@);
    assert(n.frac@.subrange(0, f as int) == n.frac@);
    let r = Decimal { negative: n.negative, whole, frac };
    assert(r@.whole =~= shifted(n@, up, k as nat).whole);
    assert(r@.frac =~= shifted(n@, up, k as nat).frac);
    r
}

proof fn lemma_first_exp_at_least(t: Seq<char>, i: int)
    requires
        0 <= i <= t.len(),
    ensures
        i <= first_exp(t, i) <= t.len(),
    decreases t.len() - i,
{
    if i < t.len() && !is_exp_mark(t[i]) {
        lemma_first_exp_at_least(t, i + 1);
    }
}

/// Parses the numeral held in the first `end` characters of `s`.
pub fn parse_numeral(s: &str, end: usize) -> (r: Option<Decimal>)
    requires
        end <= s@.len(),
    ensures
        match r {
            Some(n) => numeral(s@.subrange(0, end as int)) == Some(n@),
            None => numeral(s@.subrange(0, end as int)) is None,
        },
{
    let ghost t = s@.subrange(0, end as int);
    let mut x: usize = 0;
    while x < end && !(s.get_char(x) == 'e' || s.get_char(x) == 'E')
        invariant
            x <= end,
            end <= s@.len(),
            t == s@.subrange(0, end as int),
            first_exp(t, 0) == first_exp(t, x as int),
        decreases end - x,
    {
        x = x + 1;
    }
    assert(first_exp(t, 0) == x);
    assert(t.subrange(0, x as int) == s@.subrange(0, x as int));
    let m = parse_plain(s, x);
    if x == end {
        return match m {
            Some(m) => scale(&m, true, 0, Ghost(0)),
            None => None,
        };
    }
    let m = match m {
        Some(m) => m,
        None => return None,
    };
    let ghost e = t.subrange(x + 1, end as int);
    let mut j: usize = x + 1;
    let mut up = true;
    if j < end {
        let c = s.get_char(j);
        if c == '-' || c == '+' {
            up = c != '-';
            j = j + 1;
        }
    }
    assert(j - (x + 1) == sign_len(e));
    assert(up == !(sign_len(e) == 1 && e[0] == '-'));
    let ghost d = e.subrange(sign_len(e), e.len() as int);
    assert(d == s@.subrange(j as int, end as int));
    if j == end {
        return None;
    }
    let mut k: u128 = 0;
    let mut p: usize = j;
    while p < end
        invariant
            j <= p <= end,
            end <= s@.len(),
            d == s@.subrange(j as int, end as int),
            t == s@.subrange(0, end as int),
            x < end,
            first_exp(t, 0) == x,
            e == t.subrange(x + 1, end as int),
            d == e.subrange(sign_len(e), e.len() as int),
            k <= EXPONENT_CAP ==> k == exponent_value(d.subrange(0, p - j)),
            k > EXPONENT_CAP ==> exponent_value(d.subrange(0, p - j)) > EXPONENT_CAP,
            k <= EXPONENT_CAP * 10 + 9,
            all_digits(d.subrange(0, p - j)),
        decreases end - p,
    {
        let c = s.get_char(p);
        if !('0' <= c && c <= '9') {
            assert(d[p - j] == c);
            assert(!is_digit(d[p - j]));
            return None;
        }
        assert(d.subrange(0, p + 1 - j).drop_last() == d.subrange(0, p - j));
        assert(d.subrange(0, p + 1 - j).last() == c);
        if k <= EXPONENT_CAP {
            k = k * 10 + (c as u32 - '0' as u32) as u128;
        }
        p = p + 1;
    }
    assert(d.subrange(0, d.len() as int) == d);
    scale(&m, up, k, Ghost(exponent_value(d)))
}

/// Moves the point of `m` by the exponent `e`, which `k` holds exactly up to
/// `EXPONENT_CAP` and only as "larger" beyond it.
fn scale(m: &Decimal, up: bool, k: u128, e: Ghost<nat>) -> (r: Option<Decimal>)
    requires
        k <= EXPONENT_CAP ==> k == e@,
        k > EXPONENT_CAP ==> e@ > EXPONENT_CAP,
    ensures
        match r {
            Some(x) => scaled(m@, up, e@) == Some(x@),
            None => scaled(m@, up, e@) is None,
        },
{
    let mut digits: Vec<char> = Vec::new();
    push_range(&mut digits, &m.whole, 0, m.whole.len());
    push_range(&mut digits, &m.frac, 0, m.frac.len());
    assert(m.whole@.subrange(0, m.whole@.len() as int) == m.whole@);
    assert(m.frac@.subrange(0, m.frac@.len() as int) == m.frac@);
    let n = digits.len();
    let mut z: usize = 0;
    while z < n && digits[z] == '0'
        invariant
            z <= n,
            n == digits@.len(),
            forall|i: int| 0 <= i < z ==> digits@[i] == '0',
        decreases n - z,
    {
        z = z + 1;
    }
    proof {
        lemma_strip_zeros_suffix(digits@, z as int);
    }
    assert(leading_zeros(digits@) == z);
    if z == n {
        return Some(copy_decimal(m));
    }
    let w = m.whole.len() as u128;
    let zz = z as u128;
    if k > EXPONENT_CAP {
        if up {
            return None;
        } else {
            return Some(zero_like(m));
        }
    }
    let hi: u128 = if up { w + k } else { w };
    let lo: u128 = if up { 0 } else { k };
    if hi > lo + zz + TOO_LARGE_PLACES {
        return None;
    }
    if hi + TOO_SMALL_PLACES < lo + zz {
        return Some(zero_like(m));
    }
    if k == 0 {
        return Some(copy_decimal(m));
    }
    Some(shift(m, up, k))
}

fn copy_decimal(m: &Decimal) -> (r: Decimal)
    ensures
        r@ == m@,
{
    let mut whole: Vec<char> = Vec::new();
    let mut frac: Vec<char> = Vec::new();
    push_range(&mut whole, &m.whole, 0, m.whole.len());
    push_range(&mut frac, &m.frac, 0, m.frac.len());
    assert(m.whole@.subrange(0, m.whole@.len() as int) == m.whole@);
    assert(m.frac@.subrange(0, m.frac@.len() as int) == m.frac@);
    Decimal { negative: m.negative, whole, frac }
}

/// Zero, with the sign of `m`.
fn zero_like(m: &Decimal) -> (r: Decimal)
    ensures
        r@ == (DecimalModel { negative: m.negative, whole: seq!['0'], frac: Seq::empty() }),
{
    let mut whole: Vec<char> = Vec::new();
    whole.push('0');
    let r = Decimal { negative: m.negative, whole, frac: Vec::new() };
    assert(r@.whole =~= seq!['0']);
    assert(r@.frac =~= Seq::<char>::empty());
    r
}

proof fn lemma_first_dot_at_least(b: Seq<char>, i: int)
    requires
        0 <= i <= b.len(),
    ensures
        i <= first_dot(b, i) <= b.len(),
    decreases b.len() - i,
{
    if i < b.len() && b[i] != '.' {
        lemma_first_dot_at_least(b, i + 1);
    }
}

/// Decodes a length from its text: `"auto"`, `"<numeral>%"` or
/// `"<numeral>px"`.
pub fn decode_unit(s: &str) -> (r: Result<Length, UnitError>)
    ensures
        match r {
            Ok(u) => decode_text(s@) == Ok::<LengthModel, UnitError>(u@),
            Err(e) => decode_text(s@) == Err::<LengthModel, UnitError>(e),
        },
{
    let n = s.unicode_len();
    if same_text(s, "auto") {
        return Ok(Length::Auto);
    }
    if n >= 1 && s.get_char(n - 1) == '%' {
        assert(s@.drop_last() == s@.subrange(0, n - 1));
        return match parse_numeral(s, n - 1) {
            Some(v) => Ok(Length::Percent(v)),
            None => Err(UnitError::BadNumber),
        };
    }
    if n >= 2 && s.get_char(n - 2) == 'p' && s.get_char(n - 1) == 'x' {
        return match parse_numeral(s, n - 2) {
            Some(v) => Ok(Length::Point(v)),
            None => Err(UnitError::BadNumber),
        };
    }
    Err(UnitError::UnknownUnit)
}

/// The digits of `w` with its leading zeros removed.
pub open spec fn strip_zeros(w: Seq<char>) -> Seq<char>
    decreases w.len(),
{
    if w.len() > 0 && w[0] == '0' {
        strip_zeros(w.drop_first())
    } else {
        w
    }
}

/// The value of a sequence of decimal digits.
pub open spec fn digits_value(s: Seq<char>) -> nat
    decreases s.len(),
{
    if s.len() == 0 {
        0
    } else {
        ((s[0] as nat - '0' as nat) * pow(10, (s.len() - 1) as nat) + digits_value(s.drop_first())) as nat
    }
}

/// The integer that a number is truncated to, written in decimal: no leading
/// zeros, `0` for zero, and a `-` only before a non-zero value.
pub open spec fn int_text(n: DecimalModel) -> Seq<char> {
    let d = strip_zeros(n.whole);
    if d.len() == 0 {
        seq!['0']
    } else if n.negative {
        seq!['-'] + d
    } else {
        d
    }
}

/// A number truncated toward zero: the integer part, with the sign kept only
/// where it is non-zero.
pub open spec fn truncated(n: DecimalModel) -> DecimalModel {
    let d = strip_zeros(n.whole);
    DecimalModel {
        negative: n.negative && d.len() > 0,
        whole: if d.len() == 0 { seq!['0'] } else { d },
        frac: Seq::empty(),
    }
}

/// The text that a length, or its absence, is encoded to.
pub open spec fn encode_text(u: Option<LengthModel>) -> Option<Seq<char>> {
    match u {
        None => None,
        Some(LengthModel::Percent(n)) => Some(int_text(n) + seq!['%']),
        Some(LengthModel::Point(n)) => Some(int_text(n) + seq!['p', 'x']),
        Some(_) => Some("auto"@),
    }
}

pub open spec fn option_view(u: Option<Length>) -> Option<LengthModel> {
    match u {
        Some(l) => Some(l@),
        None => None,
    }
}

fn digit_text(c: char) -> (r: &'static str)
    requires
        is_digit(c),
    ensures
        r@ == seq![c],
{
    proof {
        reveal_strlit("0");
        reveal_strlit("1");
        reveal_strlit("2");
        reveal_strlit("3");
        reveal_strlit("4");
        reveal_strlit("5");
        reveal_strlit("6");
        reveal_strlit("7");
        reveal_strlit("8");
        reveal_strlit("9");
    }
    if c == '0' {
        "0"
    } else if c == '1' {
        "1"
    } else if c == '2' {
        "2"
    } else if c == '3' {
        "3"
    } else if c == '4' {
        "4"
    } else if c == '5' {
        "5"
    } else if c == '6' {
        "6"
    } else if c == '7' {
        "7"
    } else if c == '8' {
        "8"
    } else {
        "9"
    }
}

proof fn lemma_strip_zeros_suffix(w: Seq<char>, k: int)
    requires
        0 <= k <= w.len(),
        forall|j: int| 0 <= j < k ==> w[j] == '0',
    ensures
        strip_zeros(w) == strip_zeros(w.subrange(k, w.len() as int)),
    decreases k,
{
    if k > 0 {
        assert(w.drop_first().subrange(k - 1, w.len() - 1) == w.subrange(k, w.len() as int));
        lemma_strip_zeros_suffix(w.drop_first(), k - 1);
    } else {
        assert(w.subrange(0, w.len() as int) == w);
    }
}

impl Decimal {
    /// Whether every digit is a decimal digit and there is at least one.
    pub fn is_wf(&self) -> (r: bool)
        ensures
            r == self@.wf(),
    {
        if self.whole.len() == 0 && self.frac.len() == 0 {
            return false;
        }
        let mut i: usize = 0;
        while i < self.whole.len()
            invariant
                i <= self.whole@.len(),
                forall|j: int| 0 <= j < i ==> is_digit(#[trigger] self.whole@[j]),
            decreases self.whole@.len() - i,
        {
            let c = self.whole[i];
            if !('0' <= c && c <= '9') {
                return false;
            }
            i = i + 1;
        }
        let mut i: usize = 0;
        while i < self.frac.len()
            invariant
                i <= self.frac@.len(),
                forall|j: int| 0 <= j < i ==> is_digit(#[trigger] self.frac@[j]),
            decreases self.frac@.len() - i,
        {
            let c = self.frac[i];
            if !('0' <= c && c <= '9') {
                return false;
            }
            i = i + 1;
        }
        true
    }

    /// The integer this number truncates to, in decimal.
    pub fn int_text(&self) -> (r: String)
        requires
            self@.wf(),
        ensures
            r@ == int_text(self@),
    {
        let n = self.whole.len();
        let mut k: usize = 0;
        while k < n && self.whole[k] == '0'
            invariant
                k <= n,
                n == self.whole@.len(),
                forall|j: int| 0 <= j < k ==> self.whole@[j] == '0',
            decreases n - k,
        {
            k = k + 1;
        }
        let ghost d = self.whole@.subrange(k as int, n as int);
        proof {
            lemma_strip_zeros_suffix(self.whole@, k as int);
        }
        assert(strip_zeros(d) == d);
        let mut out = String::new();
        if k == n {
            proof {
                reveal_strlit("0");
            }
            out.append("0");
            return out;
        }
        if self.negative {
            proof {
                reveal_strlit("-");
            }
            out.append("-");
        }
        let ghost head = out@;
        let mut j: usize = k;
        while j < n
            invariant
                k <= j <= n,
                n == self.whole@.len(),
                all_digits(self.whole@),
                out@ == head + self.whole@.subrange(k as int, j as int),
            decreases n - j,
        {
            out.append(digit_text(self.whole[j]));
            assert(self.whole@.subrange(k as int, j + 1) == self.whole@.subrange(k as int, j as int).push(self.whole@[j as int]));
            j = j + 1;
        }
        out
    }
}

/// Encodes a length: `"<n>%"` and `"<n>px"` with the number truncated toward
/// zero, and `"auto"` for both `Auto` and `Undefined`; no length gives no text.
pub fn serialize(u: &Option<Length>) -> (r: Option<String>)
    requires
        u matches Some(l) ==> l@.wf(),
    ensures
        match r {
            Some(t) => encode_text(option_view(*u)) == Some(t@),
            None => encode_text(option_view(*u)) is None,
        },
{
    match u {
        None => None,
        Some(Length::Percent(n)) => {
            proof {
                reveal_strlit("%");
            }
            Some(n.int_text().concat("%"))
        },
        Some(Length::Point(n)) => {
            proof {
                reveal_strlit("px");
            }
            Some(n.int_text().concat("px"))
        },
        Some(_) => Some(String::from_str("auto")),
    }
}

/// What a present JSON value decodes to as a length: a string is decoded,
/// any other value gives nothing.
pub open spec fn decode_value(v: JsonField) -> Result<Option<LengthModel>, UnitError> {
    match v {
        JsonField::Text(s) => match decode_text(s@) {
            Ok(u) => Ok(Some(u)),
            Err(e) => Err(e),
        },
        _ => Ok(None),
    }
}

/// Decodes a length from a JSON value: a string by its unit, and nothing
/// for a value of any other shape.
pub fn deserialize(v: &JsonField) -> (r: Result<Option<Length>, UnitError>)
    ensures
        match r {
            Ok(u) => decode_value(*v) == Ok::<Option<LengthModel>, UnitError>(option_view(u)),
            Err(e) => decode_value(*v) == Err::<Option<LengthModel>, UnitError>(e),
        },
{
    match v {
        JsonField::Text(s) => match decode_unit(s.as_str()) {
            Ok(u) => Ok(Some(u)),
            Err(e) => Err(e),
        },
        _ => Ok(None),
    }
}

/// A number written as a numeral: its sign, its whole digits, and a `.` with
/// the fraction digits where there are any.
pub open spec fn numeral_text(n: DecimalModel) -> Seq<char> {
    (if n.negative { seq!['-'] } else { Seq::empty() }) + n.whole + (if n.frac.len() > 0 {
        seq!['.'] + n.frac
    } else {
        Seq::empty()
    })
}

proof fn lemma_first_dot_is(b: Seq<char>, i: int, k: int)
    requires
        0 <= i <= k <= b.len(),
        forall|j: int| i <= j < k ==> b[j] != '.',
        k == b.len() || b[k] == '.',
    ensures
        first_dot(b, i) == k,
    decreases k - i,
{
    if i < k {
        lemma_first_dot_is(b, i + 1, k);
    }
}

proof fn lemma_numeral_of_text(n: DecimalModel)
    requires
        n.wf(),
        in_range(n),
    ensures
        numeral(numeral_text(n)) == Some(n),
{
    let t = numeral_text(n);
    lemma_plain_numeral_of_text(n);
    assert forall|j: int| 0 <= j < t.len() implies !is_exp_mark(#[trigger] t[j]) by {
        let tail = if n.frac.len() > 0 { seq!['.'] + n.frac } else { Seq::<char>::empty() };
        let sign = if n.negative { seq!['-'] } else { Seq::<char>::empty() };
        assert(t == sign + n.whole + tail);
        if j >= sign.len() && j < sign.len() + n.whole.len() {
            assert(t[j] == n.whole[j - sign.len()]);
            assert(is_digit(n.whole[j - sign.len()]));
        } else if j >= sign.len() + n.whole.len() + 1 {
            assert(t[j] == n.frac[j - sign.len() - n.whole.len() - 1]);
            assert(is_digit(n.frac[j - sign.len() - n.whole.len() - 1]));
        }
    }
    lemma_first_exp_none(t, 0);
    assert(t.subrange(0, t.len() as int) == t);
}

proof fn lemma_first_exp_none(t: Seq<char>, i: int)
    requires
        0 <= i <= t.len(),
        forall|j: int| 0 <= j < t.len() ==> !is_exp_mark(#[trigger] t[j]),
    ensures
        first_exp(t, i) == t.len(),
    decreases t.len() - i,
{
    if i < t.len() {
        lemma_first_exp_none(t, i + 1);
    }
}

proof fn lemma_plain_numeral_of_text(n: DecimalModel)
    requires
        n.wf(),
    ensures
        plain_numeral(numeral_text(n)) == Some(n),
{
    let t = numeral_text(n);
    let tail = if n.frac.len() > 0 { seq!['.'] + n.frac } else { Seq::<char>::empty() };
    let sign = if n.negative { seq!['-'] } else { Seq::<char>::empty() };
    assert(t == sign + n.whole + tail);
    let sl: int = if n.negative { 1 } else { 0 };
    if n.negative {
        assert(t[0] == '-');
    } else if n.whole.len() > 0 {
        assert(t[0] == n.whole[0]);
        assert(is_digit(n.whole[0]));
    } else {
        assert(t[0] == '.');
    }
    assert(sign_len(t) == sl);
    let b = t.subrange(sl, t.len() as int);
    assert(b == n.whole + tail);
    let w = n.whole.len() as int;
    assert forall|j: int| 0 <= j < w implies b[j] != '.' by {
        assert(b[j] == n.whole[j]);
        assert(is_digit(n.whole[j]));
    }
    lemma_first_dot_is(b, 0, w);
    assert(b.subrange(0, w) == n.whole);
    let frac = if w < b.len() { b.subrange(w + 1, b.len() as int) } else { Seq::empty() };
    if n.frac.len() > 0 {
        assert(b.subrange(w + 1, b.len() as int) == n.frac);
    } else {
        assert(b.len() == w);
    }
    assert(frac == n.frac);
    assert(n.negative == (sign_len(t) == 1 && t[0] == '-'));
}

/// Decoding a number written as `"<numeral>%"` gives that percentage, and
/// as `"<numeral>px"` that point length, exactly, for every number that is
/// zero or lies in the range that decodes as written.
pub proof fn law_decode_written_number(n: DecimalModel)
    requires
        n.wf(),
        in_range(n),
    ensures
        decode_text(numeral_text(n) + seq!['%']) == Ok::<LengthModel, UnitError>(LengthModel::Percent(n)),
        decode_text(numeral_text(n) + seq!['p', 'x']) == Ok::<LengthModel, UnitError>(LengthModel::Point(n)),
{
    reveal_strlit("auto");
    lemma_numeral_of_text(n);
    let t = numeral_text(n);
    let sp = t + seq!['%'];
    assert(sp.last() == '%');
    assert(sp != "auto"@) by {
        assert("auto"@.last() == 'o');
    }
    assert(sp.drop_last() == t);
    let sx = t + seq!['p', 'x'];
    assert(sx.last() == 'x');
    assert(sx[sx.len() - 2] == 'p');
    assert(sx != "auto"@) by {
        assert("auto"@.last() == 'o');
    }
    assert(sx.subrange(0, sx.len() - 2) == t);
}

proof fn lemma_strip_zeros_append(w: Seq<char>, f: Seq<char>)
    requires
        strip_zeros(w).len() > 0,
    ensures
        strip_zeros(w + f) == strip_zeros(w) + f,
    decreases w.len(),
{
    if w.len() > 0 && w[0] == '0' {
        assert((w + f).drop_first() == w.drop_first() + f);
        lemma_strip_zeros_append(w.drop_first(), f);
    } else {
        assert((w + f)[0] == w[0]);
    }
}

proof fn lemma_strip_zeros(w: Seq<char>)
    requires
        all_digits(w),
    ensures
        all_digits(strip_zeros(w)),
        strip_zeros(w).len() > 0 ==> strip_zeros(w)[0] != '0',
        digits_value(strip_zeros(w)) == digits_value(w),
        strip_zeros(w).len() == 0 <==> digits_value(w) == 0,
    decreases w.len(),
{
    if w.len() > 0 && w[0] == '0' {
        assert(all_digits(w.drop_first())) by {
            assert forall|i: int| 0 <= i < w.drop_first().len() implies is_digit(#[trigger] w.drop_first()[i]) by {
                assert(w.drop_first()[i] == w[i + 1]);
            }
        }
        lemma_strip_zeros(w.drop_first());
    } else if w.len() > 0 {
        let e = (w.len() - 1) as nat;
        let d = w[0] as nat - '0' as nat;
        assert(is_digit(w[0]));
        assert(d >= 1);
        lemma_pow_positive(10, e);
        let p = pow(10, e);
        assert(d * p >= p) by (nonlinear_arith)
            requires
                d >= 1,
                p > 0,
        ;
    }
}

/// Encoding a percentage or point length and decoding the text gives the same
/// kind of length holding the number truncated toward zero: the value of its
/// integer part, with the sign kept only where that is non-zero. Encoding the
/// result again gives the same text, so truncation is stable after one pass.
pub proof fn law_encode_then_decode(n: DecimalModel)
    requires
        n.wf(),
        in_range(n),
    ensures
        decode_text(int_text(n) + seq!['%']) == Ok::<LengthModel, UnitError>(LengthModel::Percent(truncated(n))),
        decode_text(int_text(n) + seq!['p', 'x']) == Ok::<LengthModel, UnitError>(LengthModel::Point(truncated(n))),
        truncated(n).wf(),
        truncated(n).frac.len() == 0,
        digits_value(truncated(n).whole) == digits_value(n.whole),
        truncated(n).negative == (n.negative && digits_value(n.whole) != 0),
        int_text(truncated(n)) == int_text(n),
{
    lemma_strip_zeros(n.whole);
    let d = strip_zeros(n.whole);
    let m = truncated(n);
    if d.len() == 0 {
        assert(strip_zeros(seq!['0']) == strip_zeros(seq!['0'].drop_first()));
        assert(seq!['0'].drop_first().len() == 0);
        let z = seq!['0'];
        assert(z[0] == '0' && z.len() == 1);
        assert(digits_value(z.drop_first()) == 0);
        assert((z[0] as nat - '0' as nat) == 0);
        assert(digits_value(z) == 0);
        assert(all_digits(m.whole)) by {
            assert(is_digit(m.whole[0]));
        }
    }
    assert(numeral_text(m) == int_text(n));
    let mw = m.whole + m.frac;
    assert(mw == m.whole);
    if d.len() == 0 {
        assert(strip_zeros(mw) == strip_zeros(mw.drop_first()));
        assert(mw.drop_first().len() == 0);
    } else {
        assert(strip_zeros(d) == d);
        lemma_strip_zeros_append(n.whole, n.frac);
    }
    law_decode_written_number(m);
}

} // verus!
