use std::collections::BTreeMap;
use vstd::prelude::*;

use crate::text::{decimal_digits, push_decimal, push_str};

verus! {

/// What a plan asks to do with an artifact's lock.
#[derive(Clone, Copy, Debug, PartialEq, Eq, Structural)]
pub enum LockChange {
    SetTo(bool),
    Flip,
}

/// What a plan says about one inventory index: the lock state it must be
/// found in, and the change to make.
#[derive(Clone, Copy, Debug, PartialEq, Eq, Structural)]
pub struct LockPlanEntry {
    pub target: usize,
    pub expected: Option<bool>,
    pub change: Option<LockChange>,
}

/// One instruction read from a lock file, before instructions for the same
/// index are merged.
#[derive(Clone, Copy, Debug, PartialEq, Eq, Structural)]
pub struct LockRecord {
    pub target: usize,
    pub expected: Option<bool>,
    pub change: Option<LockChange>,
}

/// A validated lock plan: one entry per index, in increasing index order.
#[derive(Debug)]
pub struct LockPlan {
    entries: Vec<LockPlanEntry>,
}

/// Why a lock file was refused.
#[derive(Clone, Copy, Debug, PartialEq, Eq, Structural)]
pub enum LockPlanError {
    ConflictingValidations(usize),
    ConflictingChanges(usize),
    UnsupportedVersion(u32),
}

/// The v2 lock file: lists of indices to flip, lock and unlock, and the lock
/// states that indices must be found in.
#[derive(Clone, Debug)]
pub struct LockFormatV2 {
    pub version: u32,
    pub flip_indices: Vec<usize>,
    pub lock_indices: Vec<usize>,
    pub unlock_indices: Vec<usize>,
    pub validation: Vec<LockValidationRecord>,
}

/// A lock state that an index must be found in.
#[derive(Clone, Copy, Debug, PartialEq, Eq, Structural)]
pub struct LockValidationRecord {
    pub index: usize,
    pub locked: bool,
}

/// What is planned for an index so far: its expected state and its change.
pub type PlannedState = (Option<bool>, Option<LockChange>);

/// Merges one record into the plan: an index may get at most one expected
/// state and at most one change.
pub open spec fn merge_record(m: Map<usize, PlannedState>, r: LockRecord) -> Result<Map<usize, PlannedState>, LockPlanError> {
    let current: PlannedState = if m.contains_key(r.target) {
        m[r.target]
    } else {
        (None, None)
    };
    if r.expected is Some && current.0 is Some {
        Err(LockPlanError::ConflictingValidations(r.target))
    } else if r.change is Some && current.1 is Some {
        Err(LockPlanError::ConflictingChanges(r.target))
    } else {
        let expected = if r.expected is Some {
            r.expected
        } else {
            current.0
        };
        let change = if r.change is Some {
            r.change
        } else {
            current.1
        };
        Ok(m.insert(r.target, (expected, change)))
    }
}

/// The plan that a list of records describes, merged in order, or the first
/// conflict.
pub open spec fn merged_plan(records: Seq<LockRecord>) -> Result<Map<usize, PlannedState>, LockPlanError>
    decreases records.len(),
{
    if records.len() == 0 {
        Ok(Map::empty())
    } else {
        match merged_plan(records.drop_last()) {
            Err(e) => Err(e),
            Ok(m) => merge_record(m, records.last()),
        }
    }
}

/// Entries in strictly increasing index order.
pub open spec fn strictly_sorted(e: Seq<LockPlanEntry>) -> bool {
    forall|i: int, j: int| 0 <= i < j < e.len() ==> (#[trigger] e[i]).target < (#[trigger] e[j]).target
}

/// The entries list exactly the indices of `m`, each with its planned state.
pub open spec fn entries_describe(e: Seq<LockPlanEntry>, m: Map<usize, PlannedState>) -> bool {
    &&& forall|i: int| 0 <= i < e.len() ==> m.contains_key((#[trigger] e[i]).target) && m[e[i].target] == (e[i].expected, e[i].change)
    &&& forall|k: usize| m.contains_key(k) ==> exists|i: int| 0 <= i < e.len() && (#[trigger] e[i]).target == k
}

/// `r` is what merging `records` gives: the merged plan, listed in index
/// order, or the first conflict.
pub open spec fn plan_outcome(records: Seq<LockRecord>, r: Result<LockPlan, LockPlanError>) -> bool {
    match r {
        Ok(plan) => merged_plan(records) matches Ok(m) && strictly_sorted(plan@) && entries_describe(plan@, m),
        Err(e) => merged_plan(records) == Err::<Map<usize, PlannedState>, LockPlanError>(e),
    }
}

pub open spec fn flip_record(target: usize) -> LockRecord {
    LockRecord { target, expected: None, change: Some(LockChange::Flip) }
}

pub open spec fn set_record(target: usize, locked: bool) -> LockRecord {
    LockRecord { target, expected: None, change: Some(LockChange::SetTo(locked)) }
}

pub open spec fn validation_record(v: LockValidationRecord) -> LockRecord {
    LockRecord { target: v.index, expected: Some(v.locked), change: None }
}

/// The records of a v1 lock file: every listed index is flipped.
pub open spec fn v1_records(indices: Seq<usize>) -> Seq<LockRecord> {
    indices.map_values(|t: usize| flip_record(t))
}

/// The records of a v2 lock file: validations, then flips, then locks, then
/// unlocks.
pub open spec fn v2_records(format: LockFormatV2) -> Seq<LockRecord> {
    format.validation@.map_values(|v: LockValidationRecord| validation_record(v))
        + v1_records(format.flip_indices@)
        + format.lock_indices@.map_values(|t: usize| set_record(t, true))
        + format.unlock_indices@.map_values(|t: usize| set_record(t, false))
}

/// Appends one record per index, each setting or flipping the lock.
fn push_change_records(out: &mut Vec<LockRecord>, indices: &[usize], change: LockChange)
    ensures
        final(out)@ == old(out)@ + indices@.map_values(
            |t: usize| LockRecord { target: t, expected: None, change: Some(change) },
        ),
{
    let ghost start = out@;
    let mut i: usize = 0;
    while i < indices.len()
        invariant
            i <= indices@.len(),
            out@ == start + indices@.take(i as int).map_values(
                |t: usize| LockRecord { target: t, expected: None, change: Some(change) },
            ),
        decreases indices@.len() - i,
    {
        out.push(LockRecord { target: indices[i], expected: None, change: Some(change) });
        proof {
            assert(indices@.take(i + 1).map_values(|t: usize| LockRecord { target: t, expected: None, change: Some(change) })
                =~= indices@.take(i as int).map_values(|t: usize| LockRecord { target: t, expected: None, change: Some(change) }).push(
                LockRecord { target: indices@[i as int], expected: None, change: Some(change) }));
        }
        i = i + 1;
    }
    assert(indices@.take(indices@.len() as int) =~= indices@);
}

impl View for LockPlan {
    type V = Seq<LockPlanEntry>;

    closed spec fn view(&self) -> Seq<LockPlanEntry> {
        self.entries@
    }
}


/// Indices are ordered keys of a `BTreeMap`.
proof fn lemma_index_keys_ordered()
    ensures
        vstd::std_specs::btree::key_obeys_cmp_spec::<usize>(),
        vstd::laws_cmp::obeys_cmp::<usize>(),
{
    broadcast use vstd::std_specs::btree::group_btree_axioms;
}

/// The keys a `BTreeMap` of indices lists in increasing order increase.
proof fn lemma_index_keys_increase(s: Seq<usize>)
    requires
        vstd::std_specs::btree::increasing_seq(s),
    ensures
        forall|i: int, j: int| 0 <= i < j < s.len() ==> s[i] < s[j],
{
    broadcast use vstd::std_specs::btree::group_btree_axioms;
    broadcast use vstd::laws_cmp::group_laws_cmp;
    assert(vstd::laws_cmp::obeys_cmp::<usize>());
    vstd::std_specs::btree::axiom_increasing_seq_meaning::<usize>(s);
    assert forall|i: int, j: int| 0 <= i < j < s.len() implies s[i] < s[j] by {
        assert(vstd::std_specs::cmp::OrdSpec::cmp_spec(&s[i], &s[j]) is Less);
    }
}

/// The entries of a merged plan, in increasing index order.
fn plan_entries(plan: &BTreeMap<usize, PlannedState>) -> (r: Vec<LockPlanEntry>)
    ensures
        strictly_sorted(r@),
        entries_describe(r@, plan@),
{
    broadcast use vstd::std_specs::btree::group_btree_axioms;

    proof {
        lemma_index_keys_ordered();
    }
    let iter = plan.iter();
    let ghost rem = vstd::std_specs::iter::IteratorSpec::remaining(&iter);
    let mut out: Vec<LockPlanEntry> = Vec::new();
    for kv in it: iter
        invariant
            it.seq() == rem,
            out@ == it.seq().take(it.index() as int).map_values(
                |kv: (&usize, &PlannedState)| LockPlanEntry { target: *kv.0, expected: kv.1.0, change: kv.1.1 },
            ),
    {
        out.push(LockPlanEntry { target: *kv.0, expected: kv.1.0, change: kv.1.1 });
    }
    proof {
        let keys = rem.map_values(|kv: (&usize, &PlannedState)| *kv.0);
        assert(out@ =~= rem.map_values(
            |kv: (&usize, &PlannedState)| LockPlanEntry { target: *kv.0, expected: kv.1.0, change: kv.1.1 },
        ));
        lemma_index_keys_increase(keys);
        assert(rem == vstd::std_specs::iter::IteratorSpec::remaining(
            &vstd::std_specs::btree::spec_btree_map_iter(plan),
        ));
        assert forall|a: int, b: int| 0 <= a < b < out@.len() implies (#[trigger] out@[a]).target
            < (#[trigger] out@[b]).target by {
            assert(keys[a] < keys[b]);
        }
        assert forall|t: int| 0 <= t < out@.len() implies plan@.contains_key((#[trigger] out@[t]).target)
            && plan@[out@[t].target] == (out@[t].expected, out@[t].change) by {
            assert(plan@.contains_key(*rem[t].0) && plan@[*rem[t].0] == *rem[t].1);
        }
        assert forall|k: usize| plan@.contains_key(k) implies exists|t: int|
            0 <= t < out@.len() && (#[trigger] out@[t]).target == k by {
            assert(rem.contains((&k, &plan@[k])));
            let t = choose|t: int| 0 <= t < rem.len() && rem[t] == (&k, &plan@[k]);
            assert(out@[t].target == k);
        }
    }
    out
}

proof fn lemma_merged_prefix_error(records: Seq<LockRecord>, n: int)
    requires
        0 <= n <= records.len(),
        merged_plan(records.take(n)) is Err,
    ensures
        merged_plan(records) == merged_plan(records.take(n)),
    decreases records.len(),
{
    if n == records.len() {
        assert(records.take(n) =~= records);
    } else {
        assert(records.drop_last().take(n) =~= records.take(n));
        lemma_merged_prefix_error(records.drop_last(), n);
    }
}

impl LockPlan {
    /// A plan's entries are in strictly increasing index order.
    #[verifier::type_invariant]
    spec fn entries_sorted(self) -> bool {
        strictly_sorted(self.entries@)
    }

    /// The plan's entries, in increasing index order.
    pub fn entries(&self) -> (r: &[LockPlanEntry])
        ensures
            r@ == self@,
            strictly_sorted(r@),
    {
        proof {
            use_type_invariant(self);
        }
        self.entries.as_slice()
    }

    /// The plan of a v1 lock file, which lists indices to flip.
    pub fn from_flip_indices(indices: &[usize]) -> (r: Result<LockPlan, LockPlanError>)
        ensures
            plan_outcome(v1_records(indices@), r),
    {
        let mut records: Vec<LockRecord> = Vec::new();
        push_change_records(&mut records, indices, LockChange::Flip);
        assert(records@ =~= v1_records(indices@));
        Self::normalize(records.as_slice())
    }

    /// The plan of a v2 lock file; only version 2 is read.
    pub fn from_v2(format: &LockFormatV2) -> (r: Result<LockPlan, LockPlanError>)
        ensures
            format.version != 2 ==> r == Err::<LockPlan, LockPlanError>(LockPlanError::UnsupportedVersion(format.version)),
            format.version == 2 ==> plan_outcome(v2_records(*format), r),
    {
        if format.version != 2 {
            return Err(LockPlanError::UnsupportedVersion(format.version));
        }
        let mut records: Vec<LockRecord> = Vec::new();
        let validation = &format.validation;
        let mut i: usize = 0;
        while i < validation.len()
            invariant
                i <= validation@.len(),
                records@ == validation@.take(i as int).map_values(|v: LockValidationRecord| validation_record(v)),
            decreases validation@.len() - i,
        {
            let v = validation[i];
            records.push(LockRecord { target: v.index, expected: Some(v.locked), change: None });
            proof {
                assert(validation@.take(i + 1).map_values(|v: LockValidationRecord| validation_record(v))
                    =~= validation@.take(i as int).map_values(|v: LockValidationRecord| validation_record(v)).push(validation_record(v)));
            }
            i = i + 1;
        }
        assert(validation@.take(validation@.len() as int) =~= validation@);
        push_change_records(&mut records, format.flip_indices.as_slice(), LockChange::Flip);
        push_change_records(&mut records, format.lock_indices.as_slice(), LockChange::SetTo(true));
        push_change_records(&mut records, format.unlock_indices.as_slice(), LockChange::SetTo(false));
        proof {
            assert(format.flip_indices@.map_values(|t: usize| LockRecord { target: t, expected: None, change: Some(LockChange::Flip) }) =~= v1_records(format.flip_indices@));
            assert(format.lock_indices@.map_values(|t: usize| LockRecord { target: t, expected: None, change: Some(LockChange::SetTo(true)) }) =~= format.lock_indices@.map_values(|t: usize| set_record(t, true)));
            assert(format.unlock_indices@.map_values(|t: usize| LockRecord { target: t, expected: None, change: Some(LockChange::SetTo(false)) }) =~= format.unlock_indices@.map_values(|t: usize| set_record(t, false)));
            assert(records@ =~= v2_records(*format));
        }
        Self::normalize(records.as_slice())
    }

    /// Merges lock records into a plan, refusing an index that gets two
    /// expected states or two changes.
    pub fn normalize(records: &[LockRecord]) -> (r: Result<LockPlan, LockPlanError>)
        ensures
            plan_outcome(records@, r),
    {
        broadcast use vstd::std_specs::btree::group_btree_axioms;

        proof {
            lemma_index_keys_ordered();
        }
        let mut plan: BTreeMap<usize, PlannedState> = BTreeMap::new();
        let mut i: usize = 0;
        while i < records.len()
            invariant
                i <= records@.len(),
                merged_plan(records@.take(i as int)) == Ok::<Map<usize, PlannedState>, LockPlanError>(plan@),
            decreases records@.len() - i,
        {
            let r = records[i];
            proof {
                lemma_index_keys_ordered();
                assert(records@.take(i + 1).drop_last() =~= records@.take(i as int));
                assert(records@.take(i + 1).last() == r);
            }
            let current: PlannedState = match plan.get(&r.target) {
                Some(planned) => *planned,
                None => (None, None),
            };
            if r.expected.is_some() && current.0.is_some() {
                proof {
                    lemma_merged_prefix_error(records@, i + 1);
                }
                return Err(LockPlanError::ConflictingValidations(r.target));
            }
            if r.change.is_some() && current.1.is_some() {
                proof {
                    lemma_merged_prefix_error(records@, i + 1);
                }
                return Err(LockPlanError::ConflictingChanges(r.target));
            }
            let expected = if r.expected.is_some() {
                r.expected
            } else {
                current.0
            };
            let change = if r.change.is_some() {
                r.change
            } else {
                current.1
            };
            plan.insert(r.target, (expected, change));
            i = i + 1;
        }
        proof {
            assert(records@.take(records@.len() as int) =~= records@);
        }
        let entries = plan_entries(&plan);
        Ok(LockPlan { entries })
    }
}

} // verus!

verus! {

/// The text that describes a lock plan error.
pub open spec fn lock_plan_error_text(e: LockPlanError) -> Seq<char> {
    match e {
        LockPlanError::ConflictingValidations(t) => "conflicting validations for index "@ + decimal_digits(t as nat),
        LockPlanError::ConflictingChanges(t) => "conflicting changes for index "@ + decimal_digits(t as nat),
        LockPlanError::UnsupportedVersion(v) => "unsupported lock plan version "@ + decimal_digits(v as nat),
    }
}

impl LockPlanError {
    /// Describes the error.
    pub fn message(&self) -> (r: String)
        ensures
            r@ == lock_plan_error_text(*self),
    {
        let mut s = String::new();
        match *self {
            LockPlanError::ConflictingValidations(t) => {
                push_str(&mut s, "conflicting validations for index ");
                push_decimal(&mut s, t);
            },
            LockPlanError::ConflictingChanges(t) => {
                push_str(&mut s, "conflicting changes for index ");
                push_decimal(&mut s, t);
            },
            LockPlanError::UnsupportedVersion(v) => {
                push_str(&mut s, "unsupported lock plan version ");
                push_decimal(&mut s, v as usize);
            },
        }
        s
    }
}

} // verus!

