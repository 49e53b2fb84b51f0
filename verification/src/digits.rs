use vstd::prelude::*;

use crate::text::{ascii_digit, digit_value, is_digit};

verus! {

/// The number that a run of decimal digits denotes.
pub open spec fn digits_value(d: Seq<char>) -> nat
    decreases d.len(),
{
    if d.len() == 0 {
        0
    } else {
        digits_value(d.drop_last()) * 10 + digit_value(d.last())
    }
}

pub open spec fn all_digits(d: Seq<char>) -> bool {
    forall|i: int| 0 <= i < d.len() ==> is_digit(#[trigger] d[i])
}

/// The maximal runs of ASCII digits in `s`, in order.
pub open spec fn digit_runs(s: Seq<char>) -> Seq<Seq<char>>
    decreases s.len(),
{
    if s.len() == 0 {
        Seq::empty()
    } else {
        let runs = digit_runs(s.drop_last());
        let c = s.last();
        if !is_digit(c) {
            runs
        } else if s.len() >= 2 && is_digit(s[s.len() - 2]) {
            runs.drop_last().push(runs.last().push(c))
        } else {
            runs.push(seq![c])
        }
    }
}

/// The ASCII digits of `s`, in order.
pub open spec fn digits_only(s: Seq<char>) -> Seq<char>
    decreases s.len(),
{
    if s.len() == 0 {
        Seq::empty()
    } else if is_digit(s.last()) {
        digits_only(s.drop_last()).push(s.last())
    } else {
        digits_only(s.drop_last())
    }
}

pub proof fn lemma_digits_value_prefix(d: Seq<char>, i: int)
    requires
        0 <= i <= d.len(),
    ensures
        digits_value(d.take(i)) <= digits_value(d),
    decreases d.len(),
{
    if i < d.len() {
        assert(d.drop_last().take(i) =~= d.take(i));
        lemma_digits_value_prefix(d.drop_last(), i);
    } else {
        assert(d.take(i) =~= d);
    }
}

/// Reads a non-empty run of decimal digits as a `usize`, as `str::parse`
/// does: `None` when the number does not fit.
pub fn parse_digits(d: &[char]) -> (r: Option<usize>)
    requires
        all_digits(d@),
    ensures
        r == (if digits_value(d@) <= usize::MAX {
            Some(digits_value(d@) as usize)
        } else {
            None::<usize>
        }),
{
    let mut acc: usize = 0;
    let mut i: usize = 0;
    while i < d.len()
        invariant
            i <= d@.len(),
            all_digits(d@),
            acc == digits_value(d@.take(i as int)),
        decreases d@.len() - i,
    {
        proof {
            assert(d@.take(i + 1).drop_last() =~= d@.take(i as int));
            assert(is_digit(d@[i as int]));
        }
        let code: u32 = d[i] as u32;
        let digit: usize = (code - 48) as usize;
        match acc.checked_mul(10) {
            None => {
                proof {
                    lemma_digits_value_prefix(d@, i + 1);
                }
                return None;
            },
            Some(scaled) => match scaled.checked_add(digit) {
                None => {
                    proof {
                        lemma_digits_value_prefix(d@, i + 1);
                    }
                    return None;
                },
                Some(next) => {
                    acc = next;
                },
            },
        }
        i = i + 1;
    }
    assert(d@.take(d@.len() as int) =~= d@);
    Some(acc)
}

/// Splits `s` into its maximal runs of ASCII digits.
pub fn split_digit_runs(s: &[char]) -> (r: Vec<Vec<char>>)
    ensures
        r@.map_values(|v: Vec<char>| v@) == digit_runs(s@),
        forall|i: int| 0 <= i < r@.len() ==> (#[trigger] r@[i])@.len() > 0 && all_digits(r@[i]@),
{
    let mut runs: Vec<Vec<char>> = Vec::new();
    let mut i: usize = 0;
    while i < s.len()
        invariant
            i <= s@.len(),
            runs@.map_values(|v: Vec<char>| v@) == digit_runs(s@.take(i as int)),
            forall|k: int| 0 <= k < runs@.len() ==> (#[trigger] runs@[k])@.len() > 0 && all_digits(runs@[k]@),
            i > 0 && is_digit(s@[i - 1]) ==> runs@.len() > 0,
        decreases s@.len() - i,
    {
        let c = s[i];
        let ghost pre = s@.take(i as int);
        let ghost before = runs@;
        proof {
            assert(s@.take(i + 1).drop_last() =~= pre);
            assert(s@.take(i + 1).last() == c);
            if i >= 1 {
                assert(s@.take(i + 1)[i - 1] == s@[i - 1]);
            }
        }
        if ascii_digit(c) {
            if i > 0 && ascii_digit(s[i - 1]) {
                let last_index = runs.len() - 1;
                let mut run = runs.remove(last_index);
                let ghost old_run = run@;
                run.push(c);
                runs.push(run);
                proof {
                    assert(runs@.map_values(|v: Vec<char>| v@) =~= before.map_values(|v: Vec<char>| v@).drop_last().push(
                        before.map_values(|v: Vec<char>| v@).last().push(c),
                    ));
                    assert forall|k: int| 0 <= k < runs@.len() implies (#[trigger] runs@[k])@.len() > 0 && all_digits(runs@[k]@) by {
                        if k < runs@.len() - 1 {
                            assert(runs@[k] == before[k]);
                        } else {
                            assert(runs@[k]@ == old_run.push(c));
                            assert(old_run == before[last_index as int]@);
                        }
                    }
                }
            } else {
                let mut run: Vec<char> = Vec::new();
                run.push(c);
                runs.push(run);
                proof {
                    assert(runs@.map_values(|v: Vec<char>| v@) =~= before.map_values(|v: Vec<char>| v@).push(seq![c]));
                }
            }
        }
        i = i + 1;
    }
    assert(s@.take(s@.len() as int) =~= s@);
    runs
}

/// The ASCII digits of `s`.
pub fn keep_digits(s: &[char]) -> (r: Vec<char>)
    ensures
        r@ == digits_only(s@),
        all_digits(r@),
{
    let mut out: Vec<char> = Vec::new();
    let mut i: usize = 0;
    while i < s.len()
        invariant
            i <= s@.len(),
            out@ == digits_only(s@.take(i as int)),
            all_digits(out@),
        decreases s@.len() - i,
    {
        proof {
            assert(s@.take(i + 1).drop_last() =~= s@.take(i as int));
        }
        if ascii_digit(s[i]) {
            out.push(s[i]);
        }
        i = i + 1;
    }
    assert(s@.take(s@.len() as int) =~= s@);
    out
}

} // verus!

verus! {

pub proof fn lemma_decimal_digits_are_digits(n: nat)
    ensures
        all_digits(crate::text::decimal_digits(n)),
        crate::text::decimal_digits(n).len() > 0,
    decreases n,
{
    if n >= 10 {
        lemma_decimal_digits_are_digits(n / 10);
    }
}

} // verus!

verus! {

/// Reads a run of at most 18 decimal digits as a `u64`.
pub fn digits_to_u64(d: &[char]) -> (r: u64)
    requires
        all_digits(d@),
        digits_value(d@) <= u64::MAX,
    ensures
        r == digits_value(d@),
{
    let mut acc: u64 = 0;
    let mut i: usize = 0;
    while i < d.len()
        invariant
            i <= d@.len(),
            all_digits(d@),
            digits_value(d@) <= u64::MAX,
            acc == digits_value(d@.take(i as int)),
        decreases d@.len() - i,
    {
        proof {
            assert(d@.take(i + 1).drop_last() =~= d@.take(i as int));
            assert(is_digit(d@[i as int]));
            lemma_digits_value_prefix(d@, i + 1);
        }
        let code: u32 = d[i] as u32;
        let digit: u64 = (code - 48) as u64;
        acc = acc * 10 + digit;
        i = i + 1;
    }
    assert(d@.take(d@.len() as int) =~= d@);
    acc
}

} // verus!
