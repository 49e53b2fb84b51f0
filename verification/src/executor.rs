use vstd::prelude::*;

use crate::digits::{
    all_digits, digit_runs, digits_only, digits_value, keep_digits, parse_digits, split_digit_runs,
};
use crate::lock_plan::{LockChange, LockPlanEntry};
use crate::text::{
    bool_text, chars_of, decimal_digits, decimal_string, push_bool, push_decimal, push_str,
};

verus! {

/// The artifact count and capacity read from the inventory header.
#[derive(Clone, Copy, Debug, Eq, PartialEq, Structural)]
pub struct ArtifactInventoryCount {
    pub current: usize,
    pub capacity: usize,
}

/// Why the inventory header could not be read.
#[derive(Clone, Copy, Debug, Eq, PartialEq, Structural)]
pub enum InventoryCountError {
    /// The text does not hold the artifact label.
    LabelNotRecognized,
    /// A number in the text does not fit in a `usize`.
    NumberOutOfRange,
    /// One number was read and no capacity text helps to split it.
    MissingCapacityHint,
    /// The capacity text does not split the number that was read.
    HintDoesNotSplit,
    /// Neither one nor two numbers were read.
    CountNotRecognized,
    /// The capacity read is zero.
    ZeroCapacity,
    /// The count read is above the capacity read.
    CountExceedsCapacity { current: usize, capacity: usize },
}

/// Why the lock executor stopped.
#[derive(Clone, Copy, Debug, Eq, PartialEq, Structural)]
pub enum LockError {
    /// The configured item count is above the inventory capacity.
    ConfiguredCountExceedsCapacity { count: usize, capacity: usize },
    /// The configured item count is above the number of artifacts held.
    ConfiguredCountExceedsCurrent { count: usize, current: usize },
    /// An index was not found in the lock state the plan expected.
    ValidationFailed { index: usize, expected: bool, found: bool },
    /// A plan target lies beyond the artifacts held.
    TargetOutsideInventory { target: usize, item_count: usize },
}

/// The number of artifacts to go through: the configured count, which may not
/// exceed the capacity or the count held, or else the count held.
pub fn resolve_artifact_item_count(inventory: ArtifactInventoryCount, configured: Option<usize>) -> (r: Result<usize, LockError>)
    ensures
        r == (match configured {
            None => Ok::<usize, LockError>(inventory.current),
            Some(count) => if count > inventory.capacity {
                Err(LockError::ConfiguredCountExceedsCapacity { count, capacity: inventory.capacity })
            } else if count > inventory.current {
                Err(LockError::ConfiguredCountExceedsCurrent { count, current: inventory.current })
            } else {
                Ok(count)
            },
        }),
{
    match configured {
        None => Ok(inventory.current),
        Some(count) => {
            if count > inventory.capacity {
                Err(LockError::ConfiguredCountExceedsCapacity { count, capacity: inventory.capacity })
            } else if count > inventory.current {
                Err(LockError::ConfiguredCountExceedsCurrent { count, current: inventory.current })
            } else {
                Ok(count)
            }
        },
    }
}

/// The lock state an entry wants, given the state found: `None` when nothing
/// is to change; an error when the entry expects another state than found.
pub open spec fn desired_state(entry: LockPlanEntry, current: bool) -> Result<Option<bool>, LockError> {
    if entry.expected is Some && entry.expected->0 != current {
        Err(LockError::ValidationFailed { index: entry.target, expected: entry.expected->0, found: current })
    } else {
        Ok(
            match entry.change {
                Some(LockChange::Flip) => Some(!current),
                Some(LockChange::SetTo(d)) => if d != current {
                    Some(d)
                } else {
                    None
                },
                None => None,
            },
        )
    }
}

pub fn desired_lock_state(entry: LockPlanEntry, current: bool) -> (r: Result<Option<bool>, LockError>)
    ensures
        r == desired_state(entry, current),
{
    if let Some(expected) = entry.expected {
        if expected != current {
            return Err(LockError::ValidationFailed { index: entry.target, expected, found: current });
        }
    }
    Ok(
        match entry.change {
            Some(LockChange::Flip) => Some(!current),
            Some(LockChange::SetTo(desired)) => if desired != current {
                Some(desired)
            } else {
                None
            },
            None => None,
        },
    )
}

/// Whether `needle` occurs in `hay` as a contiguous run.
pub open spec fn occurs_in(hay: Seq<char>, needle: Seq<char>) -> bool {
    exists|i: int| 0 <= i && i + needle.len() <= hay.len() && #[trigger] hay.subrange(i, i + needle.len()) == needle
}

/// The split of an OCR'd number whose separator was lost, with the capacity
/// taken from position `start` of the separately read capacity digits: the
/// capacity may not start with `0`, must be a proper suffix of the number, and
/// the count before it may not exceed it.
pub open spec fn hint_split_at(hint: Seq<char>, joined: Seq<char>, start: int) -> Option<(nat, nat)> {
    if hint[start] == '0' {
        None
    } else {
        let cap = hint.subrange(start, hint.len() as int);
        if cap.len() < joined.len() && joined.subrange(joined.len() - cap.len(), joined.len() as int) == cap {
            let cur = joined.subrange(0, joined.len() - cap.len());
            let c = digits_value(cur);
            let p = digits_value(cap);
            if c <= usize::MAX && p <= usize::MAX && c <= p {
                Some((c, p))
            } else {
                None
            }
        } else {
            None
        }
    }
}

/// The first split that the capacity digits allow, trying the longest
/// capacity first.
pub open spec fn first_hint_split(hint: Seq<char>, joined: Seq<char>, from: int) -> Option<(nat, nat)>
    decreases hint.len() - from,
{
    if from < 0 || from >= hint.len() {
        None
    } else {
        match hint_split_at(hint, joined, from) {
            Some(x) => Some(x),
            None => first_hint_split(hint, joined, from + 1),
        }
    }
}

/// What the artifact inventory header `text` says: a count and a capacity,
/// read as two numbers, or as one number split by the capacity digits of
/// `hint` when the separator was lost.
pub open spec fn inventory_count(text: Seq<char>, hint: Option<Seq<char>>) -> Result<(nat, nat), InventoryCountError> {
    if !occurs_in(text, "圣遗物"@) {
        Err(InventoryCountError::LabelNotRecognized)
    } else {
        let runs = digit_runs(text);
        if exists|i: int| 0 <= i < runs.len() && digits_value(#[trigger] runs[i]) > usize::MAX {
            Err(InventoryCountError::NumberOutOfRange)
        } else {
            let pair: Result<(nat, nat), InventoryCountError> = if runs.len() == 2 {
                Ok((digits_value(runs[0]), digits_value(runs[1])))
            } else if runs.len() == 1 {
                match hint {
                    None => Err(InventoryCountError::MissingCapacityHint),
                    Some(h) => {
                        let hd = digits_only(h);
                        if hd.len() == 0 {
                            Err(InventoryCountError::MissingCapacityHint)
                        } else {
                            match first_hint_split(hd, decimal_digits(digits_value(runs[0])), 0) {
                                Some(p) => Ok(p),
                                None => Err(InventoryCountError::HintDoesNotSplit),
                            }
                        }
                    },
                }
            } else {
                Err(InventoryCountError::CountNotRecognized)
            };
            match pair {
                Err(e) => Err(e),
                Ok((c, p)) => if p == 0 {
                    Err(InventoryCountError::ZeroCapacity)
                } else if c > p {
                    Err(InventoryCountError::CountExceedsCapacity { current: c as usize, capacity: p as usize })
                } else {
                    Ok((c, p))
                },
            }
        }
    }
}

/// Whether `needle` occurs in `hay`.
pub fn contains_run(hay: &[char], needle: &[char]) -> (r: bool)
    ensures
        r == occurs_in(hay@, needle@),
{
    if needle.len() > hay.len() {
        return false;
    }
    let last = hay.len() - needle.len();
    let hl = hay.len();
    let mut i: usize = 0;
    while i <= last
        invariant
            i <= last,
            hl == hay@.len(),
            last == hay@.len() - needle@.len(),
            needle@.len() <= hay@.len(),
            forall|k: int| 0 <= k < i ==> #[trigger] hay@.subrange(k, k + needle@.len()) != needle@,
        decreases last + 1 - i,
    {
        let mut j: usize = 0;
        let mut same = true;
        while j < needle.len()
            invariant
                i <= last,
                hl == hay@.len(),
                needle@.len() <= hay@.len(),
                last == hay@.len() - needle@.len(),
                j <= needle@.len(),
                same == (forall|t: int| 0 <= t < j ==> hay@[i + t] == needle@[t]),
            decreases needle@.len() - j,
        {
            if hay[i + j] != needle[j] {
                same = false;
            }
            j = j + 1;
        }
        if same {
            assert(hay@.subrange(i as int, i + needle@.len()) =~= needle@);
            return true;
        }
        assert(hay@.subrange(i as int, i + needle@.len()) != needle@) by {
            let t = choose|t: int| 0 <= t < needle@.len() && hay@[i + t] != needle@[t];
            assert(hay@.subrange(i as int, i + needle@.len())[t] == hay@[i + t]);
        }
        if i == last {
            assert forall|k: int| 0 <= k && k + needle@.len() <= hay@.len() implies #[trigger] hay@.subrange(k, k + needle@.len()) != needle@ by {
                assert(k <= last);
            }
            return false;
        }
        i = i + 1;
    }
    false
}

/// The characters `s[from..to]`.
pub fn copy_range(s: &[char], from: usize, to: usize) -> (r: Vec<char>)
    requires
        from <= to <= s@.len(),
    ensures
        r@ == s@.subrange(from as int, to as int),
{
    let mut out: Vec<char> = Vec::new();
    let mut i: usize = from;
    while i < to
        invariant
            from <= i <= to,
            to <= s@.len(),
            out@ == s@.subrange(from as int, i as int),
        decreases to - i,
    {
        out.push(s[i]);
        assert(s@.subrange(from as int, i + 1) =~= s@.subrange(from as int, i as int).push(s@[i as int]));
        i = i + 1;
    }
    out
}

} // verus!

verus! {

/// Tries the split with the capacity taken from position `start` of `hint`.
fn split_at(hint: &[char], joined: &[char], start: usize) -> (r: Option<(usize, usize)>)
    requires
        start < hint@.len(),
        all_digits(hint@),
        all_digits(joined@),
    ensures
        r matches Some((c, p)) ==> hint_split_at(hint@, joined@, start as int) == Some((c as nat, p as nat)),
        r is None ==> hint_split_at(hint@, joined@, start as int) is None,
{
    if hint[start] == '0' {
        return None;
    }
    let cap_len = hint.len() - start;
    if cap_len >= joined.len() {
        return None;
    }
    let offset = joined.len() - cap_len;
    let ghost js = joined@.subrange(offset as int, joined@.len() as int);
    let ghost hs = hint@.subrange(start as int, hint@.len() as int);
    let jl = joined.len();
    let hl = hint.len();
    let mut t: usize = 0;
    while t < cap_len
        invariant
            start < hint@.len(),
            cap_len == hint@.len() - start,
            offset == joined@.len() - cap_len,
            t <= cap_len,
            jl == joined@.len(),
            hl == hint@.len(),
            js == joined@.subrange(offset as int, joined@.len() as int),
            hs == hint@.subrange(start as int, hint@.len() as int),
            forall|k: int| 0 <= k < t ==> #[trigger] js[k] == hs[k],
        decreases cap_len - t,
    {
        if joined[offset + t] != hint[start + t] {
            proof {
                assert(js[t as int] != hs[t as int]);
            }
            return None;
        }
        t = t + 1;
    }
    assert(js =~= hs);
    let current_digits = copy_range(joined, 0, offset);
    let capacity_digits = copy_range(hint, start, hint.len());
    proof {
        assert(all_digits(current_digits@));
        assert(all_digits(capacity_digits@));
    }
    match (parse_digits(current_digits.as_slice()), parse_digits(capacity_digits.as_slice())) {
        (Some(c), Some(p)) => if c <= p {
            Some((c, p))
        } else {
            None
        },
        _ => None,
    }
}

/// The first split of `joined` that the capacity digits `hint` allow.
fn split_with_hint(hint: &[char], joined: &[char]) -> (r: Option<(usize, usize)>)
    requires
        all_digits(hint@),
        all_digits(joined@),
    ensures
        r matches Some((c, p)) ==> first_hint_split(hint@, joined@, 0) == Some((c as nat, p as nat)),
        r is None ==> first_hint_split(hint@, joined@, 0) is None,
{
    let mut start: usize = 0;
    while start < hint.len()
        invariant
            start <= hint@.len(),
            all_digits(hint@),
            all_digits(joined@),
            first_hint_split(hint@, joined@, 0) == first_hint_split(hint@, joined@, start as int),
        decreases hint@.len() - start,
    {
        match split_at(hint, joined, start) {
            Some(p) => {
                return Some(p);
            },
            None => {},
        }
        start = start + 1;
    }
    None
}

pub open spec fn hint_view(hint: Option<&str>) -> Option<Seq<char>> {
    match hint {
        Some(h) => Some(h@),
        None => None,
    }
}

/// Reads the artifact count and capacity from the OCR'd inventory header,
/// using the separately OCR'd capacity text when the separator was lost.
pub fn parse_artifact_inventory_count(text: &str, capacity_hint: Option<&str>) -> (r: Result<
    ArtifactInventoryCount,
    InventoryCountError,
>)
    ensures
        match r {
            Ok(count) => inventory_count(text@, hint_view(capacity_hint)) == Ok::<(nat, nat), InventoryCountError>(
                (count.current as nat, count.capacity as nat),
            ),
            Err(e) => inventory_count(text@, hint_view(capacity_hint)) == Err::<(nat, nat), InventoryCountError>(e),
        },
{
    let chars = chars_of(text);
    let label = chars_of("圣遗物");
    if !contains_run(chars.as_slice(), label.as_slice()) {
        return Err(InventoryCountError::LabelNotRecognized);
    }
    let runs = split_digit_runs(chars.as_slice());
    let ghost run_views = runs@.map_values(|v: Vec<char>| v@);
    let mut numbers: Vec<usize> = Vec::new();
    let mut i: usize = 0;
    while i < runs.len()
        invariant
            i <= runs@.len(),
            run_views == runs@.map_values(|v: Vec<char>| v@),
            run_views == digit_runs(text@),
            occurs_in(text@, "圣遗物"@),
            forall|k: int| 0 <= k < runs@.len() ==> (#[trigger] runs@[k])@.len() > 0 && all_digits(runs@[k]@),
            numbers@.len() == i,
            forall|k: int| 0 <= k < i ==> digits_value(#[trigger] run_views[k]) <= usize::MAX && numbers@[k] == digits_value(run_views[k]),
        decreases runs@.len() - i,
    {
        match parse_digits(runs[i].as_slice()) {
            None => {
                assert(digits_value(run_views[i as int]) > usize::MAX);
                return Err(InventoryCountError::NumberOutOfRange);
            },
            Some(v) => {
                numbers.push(v);
            },
        }
        i = i + 1;
    }
    let ghost rv = digit_runs(text@);
    assert(rv == run_views);
    assert(!exists|k: int| 0 <= k < rv.len() && digits_value(#[trigger] rv[k]) > usize::MAX);
    let current: usize;
    let capacity: usize;
    if numbers.len() == 2 {
        current = numbers[0];
        capacity = numbers[1];
    } else if numbers.len() == 1 {
        let hint = match capacity_hint {
            None => {
                return Err(InventoryCountError::MissingCapacityHint);
            },
            Some(h) => h,
        };
        let hint_chars = chars_of(hint);
        let hinted = keep_digits(hint_chars.as_slice());
        if hinted.len() == 0 {
            return Err(InventoryCountError::MissingCapacityHint);
        }
        let joined = decimal_string(numbers[0]);
        let joined_digits = chars_of(joined.as_str());
        proof {
            crate::digits::lemma_decimal_digits_are_digits(numbers@[0] as nat);
        }
        match split_with_hint(hinted.as_slice(), joined_digits.as_slice()) {
            None => {
                return Err(InventoryCountError::HintDoesNotSplit);
            },
            Some((c, p)) => {
                current = c;
                capacity = p;
            },
        }
    } else {
        return Err(InventoryCountError::CountNotRecognized);
    }
    if capacity == 0 {
        return Err(InventoryCountError::ZeroCapacity);
    }
    if current > capacity {
        return Err(InventoryCountError::CountExceedsCapacity { current, capacity });
    }
    Ok(ArtifactInventoryCount { current, capacity })
}

} // verus!

verus! {

/// The text that describes a lock error.
pub open spec fn lock_error_text(e: LockError) -> Seq<char> {
    match e {
        LockError::ConfiguredCountExceedsCapacity { count, capacity } => "configured artifact count "@
            + decimal_digits(count as nat) + " exceeds the OCR-detected inventory capacity "@
            + decimal_digits(capacity as nat),
        LockError::ConfiguredCountExceedsCurrent { count, current } => "configured artifact count "@
            + decimal_digits(count as nat) + " exceeds the OCR-detected current artifact count "@
            + decimal_digits(current as nat),
        LockError::ValidationFailed { index, expected, found } => "lock validation failed for index "@
            + decimal_digits(index as nat) + ": expected "@ + bool_text(expected) + ", found "@
            + bool_text(found),
        LockError::TargetOutsideInventory { target, item_count } => "artifact lock target "@
            + decimal_digits(target as nat) + " is outside the inventory count "@ + decimal_digits(
            item_count as nat,
        ),
    }
}

impl LockError {
    /// Describes the error.
    pub fn message(&self) -> (r: String)
        ensures
            r@ == lock_error_text(*self),
    {
        let mut s = String::new();
        match *self {
            LockError::ConfiguredCountExceedsCapacity { count, capacity } => {
                push_str(&mut s, "configured artifact count ");
                push_decimal(&mut s, count);
                push_str(&mut s, " exceeds the OCR-detected inventory capacity ");
                push_decimal(&mut s, capacity);
            },
            LockError::ConfiguredCountExceedsCurrent { count, current } => {
                push_str(&mut s, "configured artifact count ");
                push_decimal(&mut s, count);
                push_str(&mut s, " exceeds the OCR-detected current artifact count ");
                push_decimal(&mut s, current);
            },
            LockError::ValidationFailed { index, expected, found } => {
                push_str(&mut s, "lock validation failed for index ");
                push_decimal(&mut s, index);
                push_str(&mut s, ": expected ");
                push_bool(&mut s, expected);
                push_str(&mut s, ", found ");
                push_bool(&mut s, found);
            },
            LockError::TargetOutsideInventory { target, item_count } => {
                push_str(&mut s, "artifact lock target ");
                push_decimal(&mut s, target);
                push_str(&mut s, " is outside the inventory count ");
                push_decimal(&mut s, item_count);
            },
        }
        s
    }
}

} // verus!
