use vstd::prelude::*;

use regex::Regex;

use crate::artifact::{stat_name_from_zh_cn, ArtifactStatName};
use crate::digits::{all_digits, digits_value};
use crate::text::{ascii_digit, chars_of, is_digit, string_from_chars};

verus! {

/// A decimal number: `(-1)^negative * mantissa / 10^scale`.
#[derive(Debug, Clone, Copy, PartialEq, Eq, Structural)]
pub struct StatValue {
    pub negative: bool,
    pub mantissa: u64,
    pub scale: u32,
}

/// A stat of an artifact: its kind and its value; a percentage is held as
/// a fraction (`3.9%` is `0.039`). Two stats are equal when their kinds are
/// and their values agree in thousandths (see `milli_value`).
#[derive(Debug, Clone, Copy, Eq)]
pub struct ArtifactStat {
    pub name: ArtifactStatName,
    pub value: StatValue,
}

/// The most decimal digits a stat value is read with.
pub const MAX_VALUE_DIGITS: usize = 18;

/// `10^n`.
pub open spec fn pow10(n: nat) -> nat
    decreases n,
{
    if n == 0 {
        1
    } else {
        10 * pow10((n - 1) as nat)
    }
}

/// The characters of `s` other than `%` and `,`.
pub open spec fn without_percent_and_comma(s: Seq<char>) -> Seq<char>
    decreases s.len(),
{
    if s.len() == 0 {
        Seq::empty()
    } else if s.last() == '%' || s.last() == ',' {
        without_percent_and_comma(s.drop_last())
    } else {
        without_percent_and_comma(s.drop_last()).push(s.last())
    }
}

/// The position of the first `c` in `s`, if any.
pub open spec fn first_index_of(s: Seq<char>, c: char) -> Option<int>
    decreases s.len(),
{
    if s.len() == 0 {
        None
    } else {
        match first_index_of(s.drop_last(), c) {
            Some(i) => Some(i),
            None => if s.last() == c {
                Some(s.len() - 1)
            } else {
                None
            },
        }
    }
}

/// The decimal that `s` writes: an optional `-`, digits, and optionally a
/// point followed by more digits, with at least one and at most
/// `MAX_VALUE_DIGITS` digits in all. Values are held exactly, so the forms
/// that only a binary floating-point reading gives a value to are refused:
/// an exponent (`1e3`), `inf`, `infinity`, `nan` (in any case), and more
/// than `MAX_VALUE_DIGITS` digits.
pub open spec fn decimal_of(s: Seq<char>) -> Option<StatValue> {
    let negative = s.len() > 0 && s[0] == '-';
    let body = if negative {
        s.skip(1)
    } else {
        s
    };
    let (int_part, frac_part) = match first_index_of(body, '.') {
        Some(p) => (body.take(p), body.skip(p + 1)),
        None => (body, Seq::<char>::empty()),
    };
    let digits = int_part + frac_part;
    if all_digits(int_part) && all_digits(frac_part) && 0 < digits.len() <= MAX_VALUE_DIGITS {
        Some(StatValue { negative, mantissa: digits_value(digits) as u64, scale: frac_part.len() as u32 })
    } else {
        None
    }
}

/// The stat that a text such as `生命值+4,780` or `暴击率+3.9%` describes:
/// a Chinese label, one `+`, and a value; a value with `%` is a percentage
/// and is divided by 100; `,` and `%` are dropped from the value.
pub open spec fn stat_from_text(text: Seq<char>) -> Option<ArtifactStat> {
    match first_index_of(text, '+') {
        None => None,
        Some(plus) => {
            let label = text.take(plus);
            let raw = text.skip(plus + 1);
            if raw.contains('+') {
                None
            } else {
                let is_percentage = raw.contains('%');
                match stat_name_from_zh_cn(label, is_percentage) {
                    None => None,
                    Some(name) => match decimal_of(without_percent_and_comma(raw)) {
                        None => None,
                        Some(v) => Some(
                            ArtifactStat {
                                name,
                                value: if is_percentage {
                                    StatValue { scale: (v.scale + 2) as u32, ..v }
                                } else {
                                    v
                                },
                            },
                        ),
                    },
                }
            }
        },
    }
}

/// Removes `%` and `,` from `value` with the pattern `[%,]` of the regex
/// crate: every match of that one-character class is replaced by nothing.
#[verifier::external_body]
fn strip_percent_and_comma(value: &str) -> (r: String)
    ensures
        r@ == without_percent_and_comma(value@),
{
    Regex::new("[%,]").unwrap().replace_all(value, "").into_owned()
}

/// The first position of `c` in `s`.
pub fn find_char(s: &[char], c: char) -> (r: Option<usize>)
    ensures
        r matches Some(i) ==> first_index_of(s@, c) == Some(i as int) && i < s@.len() && s@[i as int] == c,
        r is None ==> first_index_of(s@, c) is None,
{
    let mut i: usize = 0;
    while i < s.len()
        invariant
            i <= s@.len(),
            first_index_of(s@.take(i as int), c) is None,
        decreases s@.len() - i,
    {
        proof {
            assert(s@.take(i + 1).drop_last() =~= s@.take(i as int));
        }
        if s[i] == c {
            proof {
                lemma_first_index_prefix(s@, i + 1, c);
            }
            return Some(i);
        }
        i = i + 1;
    }
    assert(s@.take(s@.len() as int) =~= s@);
    None
}

proof fn lemma_first_index_prefix(s: Seq<char>, n: int, c: char)
    requires
        0 <= n <= s.len(),
        first_index_of(s.take(n), c) is Some,
    ensures
        first_index_of(s, c) == first_index_of(s.take(n), c),
    decreases s.len(),
{
    if n == s.len() {
        assert(s.take(n) =~= s);
    } else {
        assert(s.drop_last().take(n) =~= s.take(n));
        lemma_first_index_prefix(s.drop_last(), n, c);
    }
}

/// Whether every character of `s` is a digit.
fn only_digits(s: &[char]) -> (r: bool)
    ensures
        r == all_digits(s@),
{
    let mut i: usize = 0;
    while i < s.len()
        invariant
            i <= s@.len(),
            forall|k: int| 0 <= k < i ==> is_digit(#[trigger] s@[k]),
        decreases s@.len() - i,
    {
        if !ascii_digit(s[i]) {
            return false;
        }
        i = i + 1;
    }
    true
}

fn sub_chars(s: &[char], from: usize, to: usize) -> (r: Vec<char>)
    requires
        from <= to <= s@.len(),
    ensures
        r@ == s@.subrange(from as int, to as int),
{
    crate::executor::copy_range(s, from, to)
}

proof fn lemma_digits_value_bound(d: Seq<char>)
    requires
        all_digits(d),
    ensures
        digits_value(d) < pow10(d.len()),
    decreases d.len(),
{
    if d.len() > 0 {
        lemma_digits_value_bound(d.drop_last());
        assert(crate::text::digit_value(d.last()) < 10) by {
            assert(is_digit(d[d.len() - 1]));
        }
    }
}

proof fn lemma_pow10_mono(a: nat, b: nat)
    requires
        a <= b,
    ensures
        pow10(a) <= pow10(b),
    decreases b,
{
    if a < b {
        lemma_pow10_mono(a, (b - 1) as nat);
    }
}

/// Reads a decimal written with an optional `-` and an optional point.
pub fn parse_decimal(s: &[char]) -> (r: Option<StatValue>)
    ensures
        r == decimal_of(s@),
{
    let negative = s.len() > 0 && s[0] == '-';
    let start: usize = if negative { 1 } else { 0 };
    let body = sub_chars(s, start, s.len());
    assert(body@ =~= if negative { s@.skip(1) } else { s@ });
    let (int_part, frac_part) = match find_char(body.as_slice(), '.') {
        Some(p) => (sub_chars(body.as_slice(), 0, p), sub_chars(body.as_slice(), p + 1, body.len())),
        None => (sub_chars(body.as_slice(), 0, body.len()), Vec::new()),
    };
    proof {
        assert(body@.subrange(0, body@.len() as int) =~= body@);
        if let Some(p) = first_index_of(body@, '.') {
            assert(body@.subrange(0, p) =~= body@.take(p));
            assert(body@.subrange(p + 1, body@.len() as int) =~= body@.skip(p + 1));
        }
    }
    if !only_digits(int_part.as_slice()) || !only_digits(frac_part.as_slice()) {
        return None;
    }
    let total = int_part.len() + frac_part.len();
    if total == 0 || total > MAX_VALUE_DIGITS {
        return None;
    }
    let digits = crate::text::concat_chars(int_part.as_slice(), frac_part.as_slice());
    proof {
        assert(all_digits(digits@));
        lemma_digits_value_bound(digits@);
        lemma_pow10_mono(digits@.len(), 18);
        assert(pow10(18) == 1000000000000000000) by {
            reveal_with_fuel(pow10, 19);
        }
    }
    let ghost spec_body = if negative { s@.skip(1) } else { s@ };
    let ghost parts = match first_index_of(spec_body, '.') {
        Some(p) => (spec_body.take(p), spec_body.skip(p + 1)),
        None => (spec_body, Seq::<char>::empty()),
    };
    assert(parts.0 == int_part@);
    assert(parts.1 == frac_part@);
    let m = crate::digits::digits_to_u64(digits.as_slice());
    Some(StatValue { negative, mantissa: m, scale: frac_part.len() as u32 })
}

impl ArtifactStat {
    /// Reads a stat such as `生命值+4,123` or `暴击率+10%`. The value is read
    /// as an exact decimal (see `decimal_of`): an exponent, `inf`, `nan` or
    /// more than `MAX_VALUE_DIGITS` digits give `None`.
    pub fn from_zh_cn_raw(value: &str) -> (r: Option<ArtifactStat>)
        ensures
            r == stat_from_text(value@),
    {
        let chars = chars_of(value);
        let n = chars.len();
        let plus = match find_char(chars.as_slice(), '+') {
            None => {
                return None;
            },
            Some(p) => p,
        };
        let label = sub_chars(chars.as_slice(), 0, plus);
        let raw = sub_chars(chars.as_slice(), plus + 1, n);
        proof {
            assert(label@ =~= chars@.take(plus as int));
            assert(raw@ =~= chars@.skip(plus + 1));
        }
        if crate::text::contains_char(raw.as_slice(), '+') {
            return None;
        }
        let is_percentage = crate::text::contains_char(raw.as_slice(), '%');
        let label_text = string_from_chars(label.as_slice());
        let name = match ArtifactStatName::from_zh_cn(label_text.as_str(), is_percentage) {
            None => {
                return None;
            },
            Some(n) => n,
        };
        let raw_text = string_from_chars(raw.as_slice());
        let stripped = strip_percent_and_comma(raw_text.as_str());
        let stripped_chars = chars_of(stripped.as_str());
        let value = match parse_decimal(stripped_chars.as_slice()) {
            None => {
                return None;
            },
            Some(v) => v,
        };
        if is_percentage {
            Some(ArtifactStat { name, value: StatValue { scale: value.scale + 2, ..value } })
        } else {
            Some(ArtifactStat { name, value })
        }
    }
}

} // verus!

verus! {

/// The signed numerator of a stat value over `10^scale`.
pub open spec fn value_num(v: StatValue) -> int {
    if v.negative {
        -(v.mantissa as int)
    } else {
        v.mantissa as int
    }
}

/// `v <= m / 10^s`.
pub open spec fn at_most(v: StatValue, m: nat, s: nat) -> bool {
    value_num(v) * pow10(s) <= m * pow10(v.scale as nat)
}

/// `v >= m / 10^s`.
pub open spec fn at_least(v: StatValue, m: nat, s: nat) -> bool {
    value_num(v) * pow10(s) >= m * pow10(v.scale as nat)
}

/// What the values this library reads are bounded by: at most
/// `MAX_VALUE_DIGITS` digits, and a scale of at most that plus two.
pub open spec fn bounded_value(v: StatValue) -> bool {
    v.mantissa < pow10(MAX_VALUE_DIGITS as nat) && v.scale <= MAX_VALUE_DIGITS + 2
}

pub proof fn lemma_stat_from_text_bounded(text: Seq<char>)
    requires
        stat_from_text(text) is Some,
    ensures
        bounded_value(stat_from_text(text)->0.value),
{
    let plus = first_index_of(text, '+')->0;
    let raw = text.skip(plus + 1);
    let s = without_percent_and_comma(raw);
    let negative = s.len() > 0 && s[0] == '-';
    let body = if negative {
        s.skip(1)
    } else {
        s
    };
    let (int_part, frac_part) = match first_index_of(body, '.') {
        Some(p) => (body.take(p), body.skip(p + 1)),
        None => (body, Seq::<char>::empty()),
    };
    let digits = int_part + frac_part;
    lemma_digits_value_bound(digits);
    lemma_pow10_mono(digits.len(), MAX_VALUE_DIGITS as nat);
    assert(pow10(18) == 1000000000000000000) by {
        reveal_with_fuel(pow10, 19);
    }
}

/// `10^n` as a `u128`.
fn pow10_u128(n: u32) -> (r: u128)
    requires
        n <= 22,
    ensures
        r == pow10(n as nat),
{
    assert(pow10(22) == 10000000000000000000000) by {
        reveal_with_fuel(pow10, 23);
    }
    let mut r: u128 = 1;
    let mut i: u32 = 0;
    while i < n
        invariant
            i <= n <= 22,
            r == pow10(i as nat),
            pow10(22) == 10000000000000000000000,
        decreases n - i,
    {
        proof {
            lemma_pow10_mono((i + 1) as nat, 22);
        }
        r = r * 10;
        i = i + 1;
    }
    r
}

/// A stat value in thousandths, truncated toward zero and held to the range
/// of `i32`: the precision at which stats are compared.
pub open spec fn milli_value(v: StatValue) -> int {
    let q = (v.mantissa * 1000) as int / (pow10(v.scale as nat) as int);
    let s = if v.negative {
        -q
    } else {
        q
    };
    if s > i32::MAX {
        i32::MAX as int
    } else if s < i32::MIN {
        i32::MIN as int
    } else {
        s
    }
}

/// A stat value in thousandths (see `milli_value`).
pub fn milli(v: StatValue) -> (r: i32)
    ensures
        r == milli_value(v),
{
    let scaled = (v.mantissa as u128) * 1000;
    proof {
        lemma_pow10_positive(v.scale as nat);
    }
    let q: u128 = if v.scale <= 22 {
        scaled / pow10_u128(v.scale)
    } else {
        proof {
            lemma_pow10_mono(23, v.scale as nat);
            assert(pow10(23) == 100000000000000000000000) by {
                reveal_with_fuel(pow10, 24);
            }
            assert(scaled < pow10(v.scale as nat));
            vstd::arithmetic::div_mod::lemma_basic_div(scaled as int, pow10(v.scale as nat) as int);
        }
        0
    };
    assert(q == (v.mantissa * 1000) as int / (pow10(v.scale as nat) as int));
    if v.negative {
        if q > 2147483648 {
            i32::MIN
        } else {
            (0 - (q as i128)) as i32
        }
    } else {
        if q > 2147483647 {
            i32::MAX
        } else {
            q as i32
        }
    }
}

impl PartialEq for ArtifactStat {
    fn eq(&self, other: &Self) -> (r: bool) {
        self.name == other.name && milli(self.value) == milli(other.value)
    }
}

impl vstd::std_specs::cmp::PartialEqSpecImpl for ArtifactStat {
    open spec fn obeys_eq_spec() -> bool {
        true
    }

    open spec fn eq_spec(&self, other: &Self) -> bool {
        self.name == other.name && milli_value(self.value) == milli_value(other.value)
    }
}

/// Whether `v <= m / 10^s`.
pub fn value_at_most(v: StatValue, m: u64, s: u32) -> (r: bool)
    requires
        bounded_value(v),
        m <= 100000,
        s <= 3,
    ensures
        r == at_most(v, m as nat, s as nat),
{
    let p = pow10_u128(s);
    let q = pow10_u128(v.scale);
    proof {
        lemma_pow10_mono(s as nat, 3);
        lemma_pow10_mono(v.scale as nat, 20);
        assert(pow10(3) == 1000) by {
            reveal_with_fuel(pow10, 4);
        }
        assert(pow10(18) == 1000000000000000000) by {
            reveal_with_fuel(pow10, 19);
        }
        assert(pow10(20) == 100000000000000000000) by {
            reveal_with_fuel(pow10, 21);
        }
        assert((v.mantissa as int) * p <= 1000000000000000000 * 1000) by (nonlinear_arith)
            requires
                v.mantissa < 1000000000000000000,
                p <= 1000,
        ;
        assert((m as int) * q <= 100000 * 100000000000000000000) by (nonlinear_arith)
            requires
                m <= 100000,
                q <= 100000000000000000000,
        ;
        assert(0 <= (v.mantissa as int) * p) by (nonlinear_arith);
        assert(0 <= (m as int) * q) by (nonlinear_arith);
    }
    if v.negative {
        proof {
            assert(value_num(v) * p <= 0) by (nonlinear_arith)
                requires
                    value_num(v) <= 0,
                    p >= 0,
            ;
        }
        return true;
    }
    let lhs: u128 = (v.mantissa as u128) * p;
    let rhs: u128 = (m as u128) * q;
    lhs <= rhs
}

/// Whether `v >= m / 10^s`.
pub fn value_at_least(v: StatValue, m: u64, s: u32) -> (r: bool)
    requires
        bounded_value(v),
        m <= 100000,
        s <= 3,
    ensures
        r == at_least(v, m as nat, s as nat),
{
    let p = pow10_u128(s);
    let q = pow10_u128(v.scale);
    proof {
        lemma_pow10_mono(s as nat, 3);
        lemma_pow10_mono(v.scale as nat, 20);
        assert(pow10(3) == 1000) by {
            reveal_with_fuel(pow10, 4);
        }
        assert(pow10(18) == 1000000000000000000) by {
            reveal_with_fuel(pow10, 19);
        }
        assert(pow10(20) == 100000000000000000000) by {
            reveal_with_fuel(pow10, 21);
        }
        assert((v.mantissa as int) * p <= 1000000000000000000 * 1000) by (nonlinear_arith)
            requires
                v.mantissa < 1000000000000000000,
                p <= 1000,
        ;
        assert((m as int) * q <= 100000 * 100000000000000000000) by (nonlinear_arith)
            requires
                m <= 100000,
                q <= 100000000000000000000,
        ;
        assert(0 <= (v.mantissa as int) * p) by (nonlinear_arith);
        assert(0 <= (m as int) * q) by (nonlinear_arith);
        assert(p >= 1) by {
            lemma_pow10_positive(s as nat);
        }
        assert(q >= 1) by {
            lemma_pow10_positive(v.scale as nat);
        }
    }
    if v.negative {
        proof {
            assert(value_num(v) * p == -((v.mantissa as int) * p)) by (nonlinear_arith)
                requires
                    value_num(v) == -(v.mantissa as int),
            ;
            if v.mantissa == 0 && m == 0 {
                assert(value_num(v) * p == 0) by (nonlinear_arith)
                    requires
                        value_num(v) == 0,
                ;
                assert((m as int) * q == 0) by (nonlinear_arith)
                    requires
                        m == 0,
                ;
            } else if v.mantissa == 0 {
                assert((m as int) * q >= 1) by (nonlinear_arith)
                    requires
                        m >= 1,
                        q >= 1,
                ;
            } else {
                assert((v.mantissa as int) * p >= 1) by (nonlinear_arith)
                    requires
                        v.mantissa >= 1,
                        p >= 1,
                ;
            }
        }
        return v.mantissa == 0 && m == 0;
    }
    let lhs: u128 = (v.mantissa as u128) * p;
    let rhs: u128 = (m as u128) * q;
    lhs >= rhs
}

pub proof fn lemma_pow10_positive(n: nat)
    ensures
        pow10(n) >= 1,
    decreases n,
{
    if n > 0 {
        lemma_pow10_positive((n - 1) as nat);
    }
}

} // verus!
