use vstd::prelude::*;

use crate::executor::{desired_lock_state, desired_state, LockError};
use crate::lock_plan::{strictly_sorted, LockPlan, LockPlanEntry};
use crate::text::{decimal_digits, push_decimal, push_str};

verus! {

broadcast use vstd::string::group_string_axioms;

/// What a lock run did: entries processed, lock states changed, entries
/// already in the wanted state, entries whose state was validated, and
/// whether the user interrupted it.
#[derive(Clone, Copy, Debug, PartialEq, Eq, Structural)]
pub struct GenshinArtifactLockReport {
    pub processed: usize,
    pub changed: usize,
    pub already_desired: usize,
    pub validated: usize,
    pub interrupted: bool,
}

impl Default for GenshinArtifactLockReport {
    fn default() -> (r: Self)
        ensures
            r == (GenshinArtifactLockReport {
                processed: 0,
                changed: 0,
                already_desired: 0,
                validated: 0,
                interrupted: false,
            }),
    {
        GenshinArtifactLockReport {
            processed: 0,
            changed: 0,
            already_desired: 0,
            validated: 0,
            interrupted: false,
        }
    }
}

/// The options of a lock run: the plan file, the pause after clicking the
/// lock button, and the longest wait for a verified change (milliseconds).
#[derive(Clone, Debug)]
pub struct GenshinArtifactLockerConfig {
    pub lock_file: Option<String>,
    pub lock_stop: u32,
    pub max_wait_lock: u32,
}

/// Checks a plan against the number of artifacts held: its last (highest)
/// target must lie below it.
pub fn check_plan_targets(plan: &LockPlan, item_count: usize) -> (r: Result<(), LockError>)
    ensures
        r is Ok <==> (plan@.len() == 0 || plan@.last().target < item_count),
        r matches Err(e) ==> e == (LockError::TargetOutsideInventory {
            target: plan@.last().target,
            item_count,
        }),
        r is Ok ==> forall|i: int| 0 <= i < plan@.len() ==> (#[trigger] plan@[i]).target < item_count,
{
    let entries = plan.entries();
    let n = entries.len();
    if n == 0 {
        return Ok(());
    }
    let last_target = entries[n - 1].target;
    if last_target >= item_count {
        return Err(LockError::TargetOutsideInventory { target: last_target, item_count });
    }
    assert forall|i: int| 0 <= i < plan@.len() implies (#[trigger] plan@[i]).target < item_count by {
        if i < n - 1 {
            assert(strictly_sorted(entries@));
        }
    }
    Ok(())
}

/// The entries of a plan that validate a lock state, in plan order.
pub fn validation_entries(plan: &LockPlan) -> (r: Vec<LockPlanEntry>)
    ensures
        r@ == plan@.filter(|e: LockPlanEntry| e.expected is Some),
{
    let entries = plan.entries();
    let mut out: Vec<LockPlanEntry> = Vec::new();
    let mut i: usize = 0;
    while i < entries.len()
        invariant
            i <= entries@.len(),
            entries@ == plan@,
            out@ == entries@.take(i as int).filter(|e: LockPlanEntry| e.expected is Some),
        decreases entries@.len() - i,
    {
        let e = entries[i];
        proof {
            assert(entries@.take(i + 1).drop_last() =~= entries@.take(i as int));
            entries@.take(i as int).lemma_filter_push(e, |e: LockPlanEntry| e.expected is Some);
            assert(entries@.take(i + 1) =~= entries@.take(i as int).push(e));
        }
        if e.expected.is_some() {
            out.push(e);
        }
        i = i + 1;
    }
    assert(entries@.take(entries@.len() as int) =~= entries@);
    out
}

/// What to do about one plan entry once its current lock state is known.
#[derive(Clone, Copy, Debug, PartialEq, Eq, Structural)]
pub enum EntryDecision {
    /// Nothing to change.
    Keep,
    /// Click the lock button to reach this state.
    Change(bool),
}

/// The bookkeeping of a lock run: the report, and each target touched with
/// its lock state before the touch, in the order touched (what a rollback
/// restores).
pub struct LockRun {
    report: GenshinArtifactLockReport,
    changed_states: Vec<(usize, bool)>,
    pending: Option<(usize, bool)>,
}

/// What a lock run holds.
pub struct LockRunView {
    pub report: GenshinArtifactLockReport,
    pub changed_states: Seq<(usize, bool)>,
    pub pending: Option<(usize, bool)>,
}

impl View for LockRun {
    type V = LockRunView;

    closed spec fn view(&self) -> LockRunView {
        LockRunView {
            report: self.report,
            changed_states: self.changed_states@,
            pending: self.pending,
        }
    }
}

impl LockRun {
    /// A run that has done nothing yet.
    pub fn new() -> (r: Self)
        ensures
            r@.report == (GenshinArtifactLockReport {
                processed: 0,
                changed: 0,
                already_desired: 0,
                validated: 0,
                interrupted: false,
            }),
            r@.changed_states == Seq::<(usize, bool)>::empty(),
            r@.pending is None,
    {
        LockRun { report: GenshinArtifactLockReport::default(), changed_states: Vec::new(), pending: None }
    }

    /// The report so far.
    pub fn report(&self) -> (r: GenshinArtifactLockReport)
        ensures
            r == self@.report,
    {
        self.report
    }

    /// The targets touched so far, each with its state before the touch.
    pub fn changed_states(&self) -> (r: &[(usize, bool)])
        ensures
            r@ == self@.changed_states,
    {
        self.changed_states.as_slice()
    }

    /// Decides about `entry`, found in lock state `current`: a validation is
    /// counted when the entry carries one; a mismatch is an error; an entry
    /// already in the wanted state is processed (and counted as already
    /// desired when it asked for a change); otherwise the state to click to.
    pub fn begin_entry(&mut self, entry: LockPlanEntry, current: bool) -> (r: Result<EntryDecision, LockError>)
        requires
            old(self)@.pending is None,
            old(self)@.report.validated < usize::MAX,
            old(self)@.report.processed < usize::MAX,
            old(self)@.report.already_desired < usize::MAX,
        ensures
            final(self)@.changed_states == old(self)@.changed_states,
            final(self)@.report.validated == old(self)@.report.validated + (if entry.expected is Some {
                1int
            } else {
                0
            }),
            final(self)@.report.changed == old(self)@.report.changed,
            final(self)@.report.interrupted == old(self)@.report.interrupted,
            match desired_state(entry, current) {
                Err(e) => r == Err::<EntryDecision, LockError>(e) && final(self)@.report.processed
                    == old(self)@.report.processed && final(self)@.report.already_desired
                    == old(self)@.report.already_desired && final(self)@.pending is None,
                Ok(Some(d)) => r == Ok::<EntryDecision, LockError>(EntryDecision::Change(d))
                    && final(self)@.report.processed == old(self)@.report.processed
                    && final(self)@.report.already_desired == old(self)@.report.already_desired
                    && final(self)@.pending == Some((entry.target, current)),
                Ok(None) => r == Ok::<EntryDecision, LockError>(EntryDecision::Keep)
                    && final(self)@.report.processed == old(self)@.report.processed + 1
                    && final(self)@.report.already_desired == old(self)@.report.already_desired + (
                    if entry.change is Some {
                        1int
                    } else {
                        0
                    }) && final(self)@.pending is None,
            },
    {
        if entry.expected.is_some() {
            self.report.validated = self.report.validated + 1;
        }
        match desired_lock_state(entry, current) {
            Err(e) => Err(e),
            Ok(Some(d)) => {
                self.pending = Some((entry.target, current));
                Ok(EntryDecision::Change(d))
            },
            Ok(None) => {
                if entry.change.is_some() {
                    self.report.already_desired = self.report.already_desired + 1;
                }
                self.report.processed = self.report.processed + 1;
                Ok(EntryDecision::Keep)
            },
        }
    }

    /// The user interrupted before the decided change was clicked: nothing
    /// is touched and the run is marked interrupted.
    pub fn interrupt(&mut self)
        ensures
            final(self)@.report == (GenshinArtifactLockReport { interrupted: true, ..old(self)@.report }),
            final(self)@.changed_states == old(self)@.changed_states,
            final(self)@.pending is None,
    {
        self.report.interrupted = true;
        self.pending = None;
    }

    /// The decided change is about to be clicked: the target is recorded
    /// with its state before the click, so that a rollback restores it even
    /// when the click's verification fails.
    pub fn start_change(&mut self)
        requires
            old(self)@.pending is Some,
        ensures
            final(self)@.report == old(self)@.report,
            final(self)@.changed_states == old(self)@.changed_states.push(old(self)@.pending->0),
            final(self)@.pending == old(self)@.pending,
    {
        if let Some(p) = self.pending {
            self.changed_states.push(p);
        }
    }

    /// The clicked change was verified.
    pub fn finish_change(&mut self)
        requires
            old(self)@.pending is Some,
            old(self)@.report.changed < usize::MAX,
            old(self)@.report.processed < usize::MAX,
        ensures
            final(self)@.report == (GenshinArtifactLockReport {
                changed: (old(self)@.report.changed + 1) as usize,
                processed: (old(self)@.report.processed + 1) as usize,
                ..old(self)@.report
            }),
            final(self)@.changed_states == old(self)@.changed_states,
            final(self)@.pending is None,
    {
        self.report.changed = self.report.changed + 1;
        self.report.processed = self.report.processed + 1;
        self.pending = None;
    }
}

/// The targets to revisit when rolling back, in the order they were touched.
pub fn rollback_targets(changed_states: &[(usize, bool)]) -> (r: Vec<usize>)
    ensures
        r@ == changed_states@.map_values(|c: (usize, bool)| c.0),
{
    let mut out: Vec<usize> = Vec::new();
    let mut i: usize = 0;
    while i < changed_states.len()
        invariant
            i <= changed_states@.len(),
            out@ == changed_states@.take(i as int).map_values(|c: (usize, bool)| c.0),
        decreases changed_states@.len() - i,
    {
        out.push(changed_states[i].0);
        assert(changed_states@.take(i + 1).map_values(|c: (usize, bool)| c.0) =~= changed_states@.take(
            i as int,
        ).map_values(|c: (usize, bool)| c.0).push(changed_states@[i as int].0));
        i = i + 1;
    }
    assert(changed_states@.take(changed_states@.len() as int) =~= changed_states@);
    out
}

/// The note a failed plan carries about its rollback.
pub open spec fn rollback_note(touched: nat, rollback_error: Option<Seq<char>>) -> Seq<char> {
    match rollback_error {
        None => "artifact lock plan failed with "@ + decimal_digits(touched)
            + " touched targets; all touched targets were restored to their original states"@,
        Some(e) => "artifact lock plan failed with "@ + decimal_digits(touched)
            + " touched targets; rollback also failed: "@ + e,
    }
}

/// Describes how the rollback after a failed plan went (see `rollback_note`).
pub fn rollback_message(touched: usize, rollback_error: Option<&str>) -> (r: String)
    ensures
        r@ == rollback_note(
            touched as nat,
            match rollback_error {
                Some(e) => Some(e@),
                None => None,
            },
        ),
{
    let mut s = "artifact lock plan failed with ".to_owned();
    push_decimal(&mut s, touched);
    match rollback_error {
        None => push_str(&mut s, " touched targets; all touched targets were restored to their original states"),
        Some(e) => {
            push_str(&mut s, " touched targets; rollback also failed: ");
            push_str(&mut s, e);
        },
    }
    s
}

} // verus!
