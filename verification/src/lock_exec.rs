use vstd::prelude::*;

use crate::executor::{
    desired_lock_state, desired_state, inventory_count, parse_artifact_inventory_count,
    resolve_artifact_item_count, InventoryCountError, LockError,
};
use crate::lock_plan::{LockPlan, LockPlanEntry};
use crate::locker::{
    check_plan_targets, validation_entries, EntryDecision, GenshinArtifactLockReport, LockRun,
};

verus! {

/// The stage a lock execution is in.
#[derive(Clone, Copy, Debug, PartialEq, Eq, Structural)]
pub enum LockPhase {
    /// Not started.
    Start,
    /// Waiting for the inventory header.
    Counting,
    /// Walking the entries that validate a lock state, before any change.
    Preflight,
    /// Walking every entry of the plan.
    Applying,
    /// A change was decided; waiting to hear whether the user interrupts.
    AwaitInterrupt,
    /// The lock button was asked to be clicked; waiting for its outcome.
    AwaitClick,
    /// Waiting for the rollback of every touched target.
    RollingBack,
    /// Over.
    Finished,
}

/// How a walk of the grid to a list of targets ended before the execution
/// stopped it.
#[derive(Clone, Debug)]
pub enum WalkEnd {
    /// The walk ran out of items.
    Finished,
    /// The user interrupted the walk.
    Interrupted,
    /// The walk failed, with this message.
    Failed(String),
}

/// What the outside world reports to a lock execution.
#[derive(Debug)]
pub enum LockEvent {
    /// The inventory header was read: its text and its capacity segment.
    Counted { text: String, capacity: String },
    /// The walk reached grid index `index`; its lock marker read `locked`,
    /// or could not be read, with this message.
    Visited { index: usize, locked: Result<bool, String> },
    /// Whether the user asked to interrupt.
    InterruptChecked(bool),
    /// The outcome of clicking the lock button (and waiting for the change).
    Clicked(Result<(), String>),
    /// The walk ended on its own.
    WalkEnded(WalkEnd),
    /// The outcome of restoring every touched target.
    RolledBack(Result<(), String>),
}

/// Why one step of a walk failed.
#[derive(Clone, Debug)]
pub enum StepFailure {
    /// The walk reached another index than the one expected next.
    WrongIndex { index: usize, expected: usize },
    /// The walk ended before reaching this target.
    EndedBefore(usize),
    /// The walk was interrupted.
    Interrupted,
    /// The walk failed, with this message.
    Navigation(String),
    /// The lock marker of `target` could not be read; `changed` changes
    /// were confirmed by then.
    Capture { target: usize, changed: usize, message: String },
    /// The entry for `target` was refused; `changed` changes were confirmed
    /// by then.
    Entry { target: usize, changed: usize, error: LockError },
    /// Clicking the lock button of `target` did not bring the wanted state;
    /// `changed` changes were confirmed by then.
    Click { target: usize, changed: usize, message: String },
}

/// Why a lock execution failed.
#[derive(Clone, Debug)]
pub enum LockFailure {
    /// The inventory header could not be read.
    Count { error: InventoryCountError, text: String, capacity: String },
    /// The configured item count or a plan target does not fit the
    /// inventory.
    Limit(LockError),
    /// The validation walk failed, before any change.
    Preflight(StepFailure),
    /// Applying the plan failed; `touched` targets were then rolled back,
    /// with the rollback's own error if it failed too.
    Applied { cause: StepFailure, touched: usize, rollback_error: Option<String> },
}

/// What a lock execution asks the outside world to do.
#[derive(Debug)]
pub enum LockAction {
    /// Read the inventory header.
    ReadCount,
    /// Walk the grid of `item_count` items to each of `targets` in turn,
    /// reporting each arrival.
    Walk { targets: Vec<usize>, item_count: usize },
    /// Go on to the next target of the walk.
    Next,
    /// Tell whether the user asks to interrupt.
    CheckInterrupt,
    /// Click the lock button of `target` until it shows `desired`.
    Click { target: usize, desired: bool },
    /// Restore each target to the state it is paired with, in this order.
    Rollback { changed_states: Vec<(usize, bool)>, item_count: usize },
    /// The execution is over.
    Done(Result<GenshinArtifactLockReport, LockFailure>),
}

/// The entries of `plan` that validate a lock state.
pub open spec fn checks_of(plan: Seq<LockPlanEntry>) -> Seq<LockPlanEntry> {
    plan.filter(|e: LockPlanEntry| e.expected is Some)
}

/// The targets of `entries`, in order.
pub open spec fn targets_of(entries: Seq<LockPlanEntry>) -> Seq<usize> {
    entries.map_values(|e: LockPlanEntry| e.target)
}

/// The number of items to go through, from the inventory header `text`
/// and its capacity segment: the configured count when it fits both the
/// capacity and the count held, or else the count held; `None` when the
/// header cannot be read or the configured count does not fit.
pub open spec fn counted_items(text: Seq<char>, capacity: Seq<char>, configured: Option<usize>) -> Option<nat> {
    match inventory_count(text, Some(capacity)) {
        Err(_) => None,
        Ok((current, cap)) => match configured {
            None => Some(current),
            Some(c) => if c > cap || c > current {
                None
            } else {
                Some(c as nat)
            },
        },
    }
}

/// The item count an execution of `plan` goes on with once the header is
/// read: the counted items, when every target lies below them.
pub open spec fn count_outcome(
    plan: Seq<LockPlanEntry>,
    text: Seq<char>,
    capacity: Seq<char>,
    configured: Option<usize>,
) -> Option<nat> {
    match counted_items(text, capacity, configured) {
        Some(n) => if forall|i: int| 0 <= i < plan.len() ==> (#[trigger] plan[i]).target < n {
            Some(n)
        } else {
            None
        },
        None => None,
    }
}

/// The report after an entry with `expected` and `change` was found in the
/// state it wants: processed, validated when it carries a validation, and
/// counted as already wanted when it asked for a change.
pub open spec fn kept_report(r: GenshinArtifactLockReport, e: LockPlanEntry) -> GenshinArtifactLockReport {
    GenshinArtifactLockReport {
        processed: (r.processed + 1) as usize,
        validated: (r.validated + if e.expected is Some { 1int } else { 0 }) as usize,
        already_desired: (r.already_desired + if e.change is Some { 1int } else { 0 }) as usize,
        ..r
    }
}

/// The report after a change was decided for an entry with `expected`.
pub open spec fn deciding_report(r: GenshinArtifactLockReport, e: LockPlanEntry) -> GenshinArtifactLockReport {
    GenshinArtifactLockReport {
        validated: (r.validated + if e.expected is Some { 1int } else { 0 }) as usize,
        ..r
    }
}

/// How arriving at grid index `index` for entry `e`, with its lock marker
/// read as `locked`, fails, if it does: at another index than the entry's;
/// with an unreadable marker; or with an entry refused in the state found.
/// `changed` is the number of confirmed changes so far.
pub open spec fn visit_failure(e: LockPlanEntry, changed: usize, index: usize, locked: Result<bool, String>) -> Option<
    StepFailure,
> {
    if index != e.target {
        Some(StepFailure::WrongIndex { index, expected: e.target })
    } else {
        match locked {
            Err(message) => Some(StepFailure::Capture { target: e.target, changed, message }),
            Ok(c) => match desired_state(e, c) {
                Err(error) => Some(StepFailure::Entry { target: e.target, changed, error }),
                Ok(_) => None,
            },
        }
    }
}

/// The failure a walk that ended on its own stands for, when it still had
/// `target` to reach.
pub open spec fn end_failure(end: WalkEnd, target: usize) -> StepFailure {
    match end {
        WalkEnd::Interrupted => StepFailure::Interrupted,
        WalkEnd::Finished => StepFailure::EndedBefore(target),
        WalkEnd::Failed(message) => StepFailure::Navigation(message),
    }
}

/// Every target of `plan` lies below `item_count`.
pub open spec fn targets_below(plan: Seq<LockPlanEntry>, item_count: usize) -> bool {
    forall|i: int| 0 <= i < plan.len() ==> (#[trigger] plan[i]).target < item_count
}

fn targets(entries: &[LockPlanEntry]) -> (r: Vec<usize>)
    ensures
        r@ == targets_of(entries@),
{
    let mut out: Vec<usize> = Vec::new();
    let mut i: usize = 0;
    while i < entries.len()
        invariant
            i <= entries@.len(),
            out@ == targets_of(entries@.take(i as int)),
        decreases entries@.len() - i,
    {
        out.push(entries[i].target);
        assert(targets_of(entries@.take(i + 1)) =~= targets_of(entries@.take(i as int)).push(
            entries@[i as int].target,
        ));
        i = i + 1;
    }
    assert(entries@.take(entries@.len() as int) =~= entries@);
    out
}

fn copy_states(states: &[(usize, bool)]) -> (r: Vec<(usize, bool)>)
    ensures
        r@ == states@,
{
    let mut out: Vec<(usize, bool)> = Vec::new();
    let mut i: usize = 0;
    while i < states.len()
        invariant
            i <= states@.len(),
            out@ == states@.take(i as int),
        decreases states@.len() - i,
    {
        out.push(states[i]);
        assert(states@.take(i + 1) =~= states@.take(i as int).push(states@[i as int]));
        i = i + 1;
    }
    assert(states@.take(states@.len() as int) =~= states@);
    out
}

/// The execution of a lock plan: it reads the inventory count, checks every
/// target against it, walks the validating entries before any change, then
/// walks every entry, deciding each change; a failure once changes may have
/// begun first rolls back every touched target.
pub struct LockExecution<'a> {
    plan: &'a LockPlan,
    configured: Option<usize>,
    phase: LockPhase,
    item_count: usize,
    checks: Vec<LockPlanEntry>,
    next: usize,
    run: LockRun,
    desired: bool,
    checked: bool,
    cause: Option<StepFailure>,
}

/// What a lock execution holds: the plan's entries, the configured item
/// count, its stage, the position of the next entry of the current walk,
/// the state of the pending click, the item count it works with, whether
/// every check before changes passed, the report so far, each target
/// touched with its state before the touch, and the failure that a pending
/// rollback follows.
pub struct LockExecutionView {
    pub plan: Seq<LockPlanEntry>,
    pub configured: Option<usize>,
    pub phase: LockPhase,
    pub position: usize,
    pub desired: bool,
    pub item_count: usize,
    pub checked: bool,
    pub report: GenshinArtifactLockReport,
    pub changed_states: Seq<(usize, bool)>,
    pub cause: Option<StepFailure>,
}

impl<'a> View for LockExecution<'a> {
    type V = LockExecutionView;

    closed spec fn view(&self) -> LockExecutionView {
        LockExecutionView {
            plan: self.plan@,
            configured: self.configured,
            phase: self.phase,
            position: self.next,
            desired: self.desired,
            item_count: self.item_count,
            checked: self.checked,
            report: self.run@.report,
            changed_states: self.run@.changed_states,
            cause: self.cause,
        }
    }
}

impl<'a> LockExecution<'a> {
    spec fn counts_ok(&self) -> bool {
        let r = self.run@.report;
        let plan = self.plan@;
        &&& plan.len() <= usize::MAX
        &&& r.changed + r.already_desired <= r.processed
        &&& r.processed <= plan.len()
        &&& !self.checked ==> {
            &&& self.run@.changed_states.len() == 0
            &&& self.run@.pending is None
            &&& r.processed == 0
            &&& r.validated == 0
        }
        &&& self.checked ==> targets_below(plan, self.item_count)
    }

    /// The execution's internal invariant.
    pub closed spec fn wf(&self) -> bool {
        let r = self.run@.report;
        let plan = self.plan@;
        &&& self.counts_ok()
        &&& match self.phase {
            LockPhase::Start => !self.checked,
            LockPhase::Counting => !self.checked && plan.len() > 0,
            LockPhase::Preflight => {
                &&& !self.checked
                &&& plan.len() > 0
                &&& targets_below(plan, self.item_count)
                &&& self.checks@ == checks_of(plan)
                &&& self.next < self.checks@.len()
            },
            LockPhase::Applying => {
                &&& self.checked
                &&& self.next < plan.len()
                &&& r.processed <= self.next
                &&& r.validated <= self.next
                &&& self.run@.pending is None
            },
            LockPhase::AwaitInterrupt => {
                &&& self.checked
                &&& 0 < self.next <= plan.len()
                &&& r.processed < self.next
                &&& r.validated <= self.next
                &&& self.run@.pending == Some((plan[self.next - 1].target, !self.desired))
            },
            LockPhase::AwaitClick => {
                &&& self.checked
                &&& 0 < self.next <= plan.len()
                &&& r.processed < self.next
                &&& r.validated <= self.next
                &&& self.run@.pending == Some((plan[self.next - 1].target, !self.desired))
                &&& self.run@.changed_states.len() > 0
                &&& self.run@.changed_states.last() == (plan[self.next - 1].target, !self.desired)
            },
            LockPhase::RollingBack => self.checked && self.cause is Some,
            LockPhase::Finished => true,
        }
    }

    /// An execution of `plan`; `configured` is the item count set by the
    /// user, if any.
    pub fn new(plan: &'a LockPlan, configured: Option<usize>) -> (r: Self)
        ensures
            r.wf(),
            r@.plan == plan@,
            r@.configured == configured,
            r@.phase == LockPhase::Start,
            !r@.checked,
            r@.report == (GenshinArtifactLockReport {
                processed: 0,
                changed: 0,
                already_desired: 0,
                validated: 0,
                interrupted: false,
            }),
            r@.changed_states.len() == 0,
            r@.cause is None,
    {
        let count: usize = plan.entries().len();
        assert(plan@.len() == count);
        LockExecution {
            plan,
            configured,
            phase: LockPhase::Start,
            item_count: 0,
            checks: Vec::new(),
            next: 0,
            run: LockRun::new(),
            desired: false,
            checked: false,
            cause: None,
        }
    }

    fn finish(&mut self, result: Result<GenshinArtifactLockReport, LockFailure>) -> (a: LockAction)
        requires
            old(self).counts_ok(),
        ensures
            final(self).wf(),
            final(self)@ == (LockExecutionView { phase: LockPhase::Finished, ..old(self)@ }),
            a == LockAction::Done(result),
    {
        self.phase = LockPhase::Finished;
        LockAction::Done(result)
    }


    fn fail_applied(&mut self, cause: StepFailure) -> (a: LockAction)
        requires
            old(self).counts_ok(),
            old(self).checked,
        ensures
            final(self).wf(),
            final(self)@ == (LockExecutionView {
                phase: LockPhase::RollingBack,
                cause: Some(cause),
                ..old(self)@
            }),
            a matches LockAction::Rollback { changed_states, item_count } && changed_states@
                == old(self)@.changed_states && item_count == old(self)@.item_count,
    {
        self.cause = Some(cause);
        self.phase = LockPhase::RollingBack;
        let changed_states = copy_states(self.run.changed_states());
        LockAction::Rollback { changed_states, item_count: self.item_count }
    }

    fn start_apply(&mut self) -> (a: LockAction)
        requires
            old(self).counts_ok(),
            !old(self).checked,
            old(self)@.plan.len() > 0,
            targets_below(old(self)@.plan, old(self)@.item_count),
        ensures
            final(self).wf(),
            final(self)@ == (LockExecutionView {
                phase: LockPhase::Applying,
                checked: true,
                position: 0,
                ..old(self)@
            }),
            a matches LockAction::Walk { targets, item_count } && targets@ == targets_of(
                old(self)@.plan,
            ) && item_count == old(self)@.item_count,
    {
        self.checked = true;
        self.next = 0;
        self.phase = LockPhase::Applying;
        let targets = targets(self.plan.entries());
        LockAction::Walk { targets, item_count: self.item_count }
    }

    fn after_entry(&mut self) -> (a: LockAction)
        requires
            old(self).counts_ok(),
            old(self).checked,
            old(self).next <= old(self)@.plan.len(),
            old(self)@.report.processed <= old(self).next,
            old(self)@.report.validated <= old(self).next,
            old(self).run@.pending is None,
        ensures
            final(self).wf(),
            final(self)@ == (LockExecutionView { phase: final(self)@.phase, ..old(self)@ }),
            a is Next ==> final(self)@.phase == LockPhase::Applying,
            a is Done ==> final(self)@.phase == LockPhase::Finished && a == LockAction::Done(
                Ok(old(self)@.report),
            ),
            a is Next || a is Done,
            a is Done <==> old(self).next == old(self)@.plan.len(),
    {
        if self.next == self.plan.entries().len() {
            let report = self.run.report();
            self.finish(Ok(report))
        } else {
            self.phase = LockPhase::Applying;
            LockAction::Next
        }
    }

    fn on_count(&mut self, text: String, capacity: String) -> (a: LockAction)
        requires
            old(self).wf(),
            old(self)@.phase == LockPhase::Counting,
        ensures
            final(self).wf(),
            final(self)@.plan == old(self)@.plan,
            final(self)@.report == old(self)@.report,
            final(self)@.changed_states == old(self)@.changed_states,
            a is Done ==> final(self)@.phase == LockPhase::Finished,
            a is Done ==> (a matches LockAction::Done(Err(f)) && (f is Count || f is Limit)),
            a is Walk ==> (final(self)@.phase == LockPhase::Preflight || final(self)@.phase
                == LockPhase::Applying) && targets_below(final(self)@.plan, final(self)@.item_count),
            a matches LockAction::Walk { targets, item_count } ==> item_count == final(self)@.item_count
                && (final(self)@.phase == LockPhase::Preflight && targets@ == targets_of(
                checks_of(final(self)@.plan),
            ) || final(self)@.phase == LockPhase::Applying && targets@ == targets_of(
                final(self)@.plan,
            )),
            a is Done || a is Walk,
            a is Walk <==> count_outcome(old(self)@.plan, text@, capacity@, old(self)@.configured) is Some,
            a is Walk ==> final(self)@.item_count == count_outcome(
                old(self)@.plan,
                text@,
                capacity@,
                old(self)@.configured,
            )->0,
    {
        match parse_artifact_inventory_count(text.as_str(), Some(capacity.as_str())) {
            Err(error) => self.finish(Err(LockFailure::Count { error, text, capacity })),
            Ok(inventory) => match resolve_artifact_item_count(inventory, self.configured) {
                Err(e) => self.finish(Err(LockFailure::Limit(e))),
                Ok(count) => match check_plan_targets(self.plan, count) {
                    Err(e) => {
                        proof {
                            let plan = self.plan@;
                            assert(plan[plan.len() - 1].target >= count);
                        }
                        self.finish(Err(LockFailure::Limit(e)))
                    },
                    Ok(()) => {
                        self.item_count = count;
                        let checks = validation_entries(self.plan);
                        if checks.len() == 0 {
                            self.start_apply()
                        } else {
                            let targets = targets(checks.as_slice());
                            self.checks = checks;
                            self.next = 0;
                            self.phase = LockPhase::Preflight;
                            LockAction::Walk { targets, item_count: count }
                        }
                    },
                },
            },
        }
    }

    fn on_preflight_visit(&mut self, index: usize, locked: Result<bool, String>) -> (a: LockAction)
        requires
            old(self).wf(),
            old(self)@.phase == LockPhase::Preflight,
        ensures
            final(self).wf(),
            final(self)@.plan == old(self)@.plan,
            final(self)@.report == old(self)@.report,
            final(self)@.changed_states == old(self)@.changed_states,
            final(self)@.item_count == old(self)@.item_count,
            a is Done ==> final(self)@.phase == LockPhase::Finished,
            a is Done ==> (a matches LockAction::Done(Err(f)) && f is Preflight),
            a is Next ==> final(self)@.phase == LockPhase::Preflight,
            a matches LockAction::Walk { targets, item_count } ==> final(self)@.phase
                == LockPhase::Applying && item_count == final(self)@.item_count && targets@
                == targets_of(final(self)@.plan),
            a is Done || a is Next || a is Walk,
            index != old(self).checks@[old(self).next as int].target ==> a is Done,
            locked is Err ==> a is Done,
            locked matches Ok(c) ==> (index == old(self).checks@[old(self).next as int].target ==> (
            old(self).checks@[old(self).next as int].expected == Some(c) <==> !(a is Done))),
            !(a is Done) ==> (a is Walk <==> old(self).next + 1 == old(self).checks@.len()),
            a is Next ==> final(self)@.position == old(self)@.position + 1,
            a is Done <==> visit_failure(
                LockPlanEntry { change: None, ..old(self).checks@[old(self).next as int] },
                0,
                index,
                locked,
            ) is Some,
            a is Done ==> (a matches LockAction::Done(Err(LockFailure::Preflight(f))) && Some(f)
                == visit_failure(
                LockPlanEntry { change: None, ..old(self).checks@[old(self).next as int] },
                0,
                index,
                locked,
            )),
    {
        let entry = self.checks[self.next];
        if index != entry.target {
            return self.finish(
                Err(LockFailure::Preflight(StepFailure::WrongIndex { index, expected: entry.target })),
            );
        }
        match locked {
            Err(message) => self.finish(
                Err(
                    LockFailure::Preflight(
                        StepFailure::Capture { target: entry.target, changed: 0, message },
                    ),
                ),
            ),
            Ok(current) => match desired_lock_state(LockPlanEntry { change: None, ..entry }, current) {
                Err(error) => self.finish(
                    Err(
                        LockFailure::Preflight(
                            StepFailure::Entry { target: entry.target, changed: 0, error },
                        ),
                    ),
                ),
                Ok(_) => {
                    self.next = self.next + 1;
                    if self.next == self.checks.len() {
                        self.start_apply()
                    } else {
                        LockAction::Next
                    }
                },
            },
        }
    }

    fn on_preflight_end(&mut self, end: WalkEnd) -> (a: LockAction)
        requires
            old(self).wf(),
            old(self)@.phase == LockPhase::Preflight,
        ensures
            final(self).wf(),
            final(self)@ == (LockExecutionView { phase: LockPhase::Finished, ..old(self)@ }),
            a matches LockAction::Done(Err(LockFailure::Preflight(f))) && f == end_failure(
                end,
                old(self).checks@[old(self).next as int].target,
            ),
    {
        let failure = match end {
            WalkEnd::Interrupted => StepFailure::Interrupted,
            WalkEnd::Finished => StepFailure::EndedBefore(self.checks[self.next].target),
            WalkEnd::Failed(message) => StepFailure::Navigation(message),
        };
        self.finish(Err(LockFailure::Preflight(failure)))
    }

    fn on_apply_visit(&mut self, index: usize, locked: Result<bool, String>) -> (a: LockAction)
        requires
            old(self).wf(),
            old(self)@.phase == LockPhase::Applying,
        ensures
            final(self).wf(),
            final(self)@.plan == old(self)@.plan,
            final(self)@.item_count == old(self)@.item_count,
            final(self)@.checked,
            final(self)@.changed_states == old(self)@.changed_states,
            a is Done ==> final(self)@.phase == LockPhase::Finished && a == LockAction::Done(
                Ok(final(self)@.report),
            ),
            a is Next ==> final(self)@.phase == LockPhase::Applying,
            a is CheckInterrupt ==> final(self)@.phase == LockPhase::AwaitInterrupt,
            a matches LockAction::Rollback { changed_states, item_count } ==> final(self)@.phase
                == LockPhase::RollingBack && changed_states@ == final(self)@.changed_states
                && item_count == final(self)@.item_count,
            a is Done || a is Next || a is CheckInterrupt || a is Rollback,
            index != old(self)@.plan[old(self).next as int].target ==> a is Rollback,
            locked is Err ==> a is Rollback,
            locked matches Ok(c) ==> (index == old(self)@.plan[old(self).next as int].target ==> match desired_state(
                old(self)@.plan[old(self).next as int],
                c,
            ) {
                Err(_) => a is Rollback,
                Ok(Some(d)) => a is CheckInterrupt && final(self).desired == d && final(self)@.report
                    == deciding_report(old(self)@.report, old(self)@.plan[old(self).next as int]),
                Ok(None) => (a is Done <==> old(self).next + 1 == old(self)@.plan.len())
                    && final(self)@.report == kept_report(
                    old(self)@.report,
                    old(self)@.plan[old(self).next as int],
                ),
            }),
            a is Next ==> final(self)@.position == old(self)@.position + 1,
            a is Rollback <==> visit_failure(
                old(self)@.plan[old(self).next as int],
                old(self)@.report.changed,
                index,
                locked,
            ) is Some,
            a is Rollback ==> final(self)@.cause == visit_failure(
                old(self)@.plan[old(self).next as int],
                old(self)@.report.changed,
                index,
                locked,
            ),
    {
        let entries = self.plan.entries();
        let entry = entries[self.next];
        if index != entry.target {
            return self.fail_applied(StepFailure::WrongIndex { index, expected: entry.target });
        }
        let changed = self.run.report().changed;
        match locked {
            Err(message) => self.fail_applied(
                StepFailure::Capture { target: entry.target, changed, message },
            ),
            Ok(current) => {
                self.next = self.next + 1;
                match self.run.begin_entry(entry, current) {
                    Err(error) => self.fail_applied(
                        StepFailure::Entry { target: entry.target, changed, error },
                    ),
                    Ok(EntryDecision::Keep) => self.after_entry(),
                    Ok(EntryDecision::Change(d)) => {
                        self.desired = d;
                        self.phase = LockPhase::AwaitInterrupt;
                        LockAction::CheckInterrupt
                    },
                }
            },
        }
    }

    fn on_apply_end(&mut self, end: WalkEnd) -> (a: LockAction)
        requires
            old(self).wf(),
            old(self)@.phase == LockPhase::Applying,
        ensures
            final(self).wf(),
            final(self)@.plan == old(self)@.plan,
            final(self)@.item_count == old(self)@.item_count,
            final(self)@.checked,
            final(self)@.changed_states == old(self)@.changed_states,
            a is Done ==> final(self)@.phase == LockPhase::Finished && a == LockAction::Done(
                Ok(final(self)@.report),
            ) && final(self)@.report.interrupted,
            a matches LockAction::Rollback { changed_states, item_count } ==> final(self)@.phase
                == LockPhase::RollingBack && changed_states@ == final(self)@.changed_states
                && item_count == final(self)@.item_count,
            a is Done || a is Rollback,
            end is Interrupted <==> a is Done,
            end is Interrupted ==> final(self)@.report == (GenshinArtifactLockReport {
                interrupted: true,
                ..old(self)@.report
            }),
            a is Rollback ==> final(self)@.cause == Some(
                end_failure(end, old(self)@.plan[old(self).next as int].target),
            ),
    {
        match end {
            WalkEnd::Interrupted => {
                self.run.interrupt();
                let report = self.run.report();
                self.finish(Ok(report))
            },
            WalkEnd::Finished => {
                let target = self.plan.entries()[self.next].target;
                self.fail_applied(StepFailure::EndedBefore(target))
            },
            WalkEnd::Failed(message) => self.fail_applied(StepFailure::Navigation(message)),
        }
    }

    fn on_interrupt(&mut self, interrupt: bool) -> (a: LockAction)
        requires
            old(self).wf(),
            old(self)@.phase == LockPhase::AwaitInterrupt,
        ensures
            final(self).wf(),
            final(self)@.plan == old(self)@.plan,
            final(self)@.item_count == old(self)@.item_count,
            final(self)@.checked,
            interrupt ==> final(self)@.phase == LockPhase::Finished && final(self)@.changed_states
                == old(self)@.changed_states && final(self)@.report.interrupted && a
                == LockAction::Done(Ok(final(self)@.report)),
            !interrupt ==> final(self)@.phase == LockPhase::AwaitClick && final(self)@.report
                == old(self)@.report && a is Click,
            a matches LockAction::Click { target, desired } ==> final(self)@.changed_states
                == old(self)@.changed_states.push((target, !desired)),
            a is Done || a is Click,
            interrupt ==> final(self)@.report == (GenshinArtifactLockReport {
                interrupted: true,
                ..old(self)@.report
            }),
            a matches LockAction::Click { target, desired } ==> target == old(self)@.plan[old(self).next
                - 1].target && desired == old(self).desired,
    {
        if interrupt {
            self.run.interrupt();
            let report = self.run.report();
            self.finish(Ok(report))
        } else {
            self.run.start_change();
            self.phase = LockPhase::AwaitClick;
            let target = self.plan.entries()[self.next - 1].target;
            LockAction::Click { target, desired: self.desired }
        }
    }

    fn on_click(&mut self, outcome: Result<(), String>) -> (a: LockAction)
        requires
            old(self).wf(),
            old(self)@.phase == LockPhase::AwaitClick,
        ensures
            final(self).wf(),
            final(self)@.plan == old(self)@.plan,
            final(self)@.item_count == old(self)@.item_count,
            final(self)@.checked,
            final(self)@.changed_states == old(self)@.changed_states,
            a is Done ==> final(self)@.phase == LockPhase::Finished && a == LockAction::Done(
                Ok(final(self)@.report),
            ),
            a is Next ==> final(self)@.phase == LockPhase::Applying,
            a matches LockAction::Rollback { changed_states, item_count } ==> final(self)@.phase
                == LockPhase::RollingBack && changed_states@ == final(self)@.changed_states
                && item_count == final(self)@.item_count,
            a is Done || a is Next || a is Rollback,
            outcome is Err <==> a is Rollback,
            outcome matches Err(message) ==> final(self)@.cause == Some(
                StepFailure::Click {
                    target: old(self)@.plan[old(self).next - 1].target,
                    changed: old(self)@.report.changed,
                    message,
                },
            ),
            outcome is Ok ==> final(self)@.report == (GenshinArtifactLockReport {
                changed: (old(self)@.report.changed + 1) as usize,
                processed: (old(self)@.report.processed + 1) as usize,
                ..old(self)@.report
            }) && (a is Done <==> old(self).next == old(self)@.plan.len()),
    {
        match outcome {
            Ok(()) => {
                self.run.finish_change();
                self.after_entry()
            },
            Err(message) => {
                let target = self.plan.entries()[self.next - 1].target;
                let changed = self.run.report().changed;
                self.fail_applied(StepFailure::Click { target, changed, message })
            },
        }
    }

    fn on_rolled_back(&mut self, outcome: Result<(), String>) -> (a: LockAction)
        requires
            old(self).wf(),
            old(self)@.phase == LockPhase::RollingBack,
        ensures
            final(self).wf(),
            final(self)@ == (LockExecutionView { phase: LockPhase::Finished, cause: None, ..old(self)@ }),
            a matches LockAction::Done(Err(LockFailure::Applied { cause, touched, rollback_error }))
                && old(self)@.cause == Some(cause) && touched == old(self)@.changed_states.len() && rollback_error == match outcome {
                Ok(()) => None,
                Err(m) => Some(m),
            },
    {
        let touched = self.run.changed_states().len();
        let cause = match self.cause.take() {
            Some(cause) => cause,
            None => StepFailure::Interrupted,
        };
        let rollback_error = match outcome {
            Ok(()) => None,
            Err(message) => Some(message),
        };
        self.finish(Err(LockFailure::Applied { cause, touched, rollback_error }))
    }

    /// Takes what the outside world reports and says what to do next. An
    /// event that the current stage does not wait for repeats the pending
    /// request. Every report keeps changed plus already-wanted entries within
    /// the processed ones, and those within the plan. No target is touched
    /// before the item count is read, every target is checked against it
    /// and every validating entry is found in its expected state; a failure
    /// up to then ends the execution at once. A failure after that first
    /// asks for the rollback of every touched target, and ends with their
    /// number and that failure once the rollback is reported.
    pub fn step(&mut self, event: LockEvent) -> (a: LockAction)
        requires
            old(self).wf(),
            old(self)@.phase != LockPhase::Start,
            old(self)@.phase != LockPhase::Finished,
        ensures
            final(self).wf(),
            final(self)@.plan == old(self)@.plan,
            final(self)@.report.changed + final(self)@.report.already_desired
                <= final(self)@.report.processed,
            final(self)@.report.processed <= final(self)@.plan.len(),
            final(self)@.phase == LockPhase::Finished <==> a is Done,
            old(self)@.checked ==> final(self)@.checked,
            !final(self)@.checked ==> final(self)@.changed_states.len() == 0,
            final(self)@.checked ==> targets_below(final(self)@.plan, final(self)@.item_count),
            a is Click || final(self)@.changed_states == old(self)@.changed_states,
            a matches LockAction::Click { target, desired } ==> final(self)@.checked
                && final(self)@.changed_states.len() > 0 && final(self)@.changed_states.last() == (
            target,
            !desired,
            ) && (final(self)@.changed_states == old(self)@.changed_states
                || final(self)@.changed_states == old(self)@.changed_states.push((target, !desired))),
            a matches LockAction::Rollback { changed_states, item_count } ==> final(self)@.checked
                && changed_states@ == final(self)@.changed_states && item_count
                == final(self)@.item_count,
            a matches LockAction::Done(Err(f)) ==> (f is Applied <==> old(self)@.checked),
            a matches LockAction::Done(Err(LockFailure::Applied { touched, .. })) ==> old(self)@.phase
                == LockPhase::RollingBack && touched == final(self)@.changed_states.len(),
            a matches LockAction::Done(Ok(r)) ==> r == final(self)@.report,
            a matches LockAction::Walk { targets, item_count } ==> item_count
                == final(self)@.item_count && targets_below(final(self)@.plan, item_count) && (
            final(self)@.phase == LockPhase::Preflight && targets@ == targets_of(
                checks_of(final(self)@.plan),
            ) || final(self)@.phase == LockPhase::Applying && targets@ == targets_of(
                final(self)@.plan,
            )),
            event matches LockEvent::Counted { text, capacity } ==> (old(self)@.phase
                == LockPhase::Counting ==> (a is Walk <==> count_outcome(
                old(self)@.plan,
                text@,
                capacity@,
                old(self)@.configured,
            ) is Some) && (a is Walk ==> final(self)@.item_count == count_outcome(
                old(self)@.plan,
                text@,
                capacity@,
                old(self)@.configured,
            )->0) && (a is Done ==> (a matches LockAction::Done(Err(f)) && (f is Count || f is Limit)))),
            event matches LockEvent::Visited { index, locked } ==> (old(self)@.phase
                == LockPhase::Preflight ==> (a is Done ==> (a matches LockAction::Done(Err(f))
                && f is Preflight)) && (index != checks_of(old(self)@.plan)[old(self)@.position as int].target
                || locked is Err ==> a is Done) && (!(a is Done) ==> (a is Walk <==> old(self)@.position
                + 1 == checks_of(old(self)@.plan).len()))),
            event matches LockEvent::Visited { index, locked: Ok(c) } ==> (old(self)@.phase
                == LockPhase::Preflight && index == checks_of(old(self)@.plan)[old(self)@.position as int].target
                ==> (checks_of(old(self)@.plan)[old(self)@.position as int].expected == Some(c) <==> !(a is Done))),
            event matches LockEvent::WalkEnded(_) ==> (old(self)@.phase == LockPhase::Preflight ==> (
            a matches LockAction::Done(Err(f)) && f is Preflight)),
            event matches LockEvent::Visited { index, locked } ==> (old(self)@.phase
                == LockPhase::Applying ==> (index != old(self)@.plan[old(self)@.position as int].target
                || locked is Err ==> a is Rollback)),
            event matches LockEvent::Visited { index, locked: Ok(c) } ==> (old(self)@.phase
                == LockPhase::Applying && index == old(self)@.plan[old(self)@.position as int].target
                ==> match desired_state(old(self)@.plan[old(self)@.position as int], c) {
                Err(_) => a is Rollback,
                Ok(Some(d)) => a is CheckInterrupt && final(self)@.desired == d && final(self)@.report
                    == deciding_report(old(self)@.report, old(self)@.plan[old(self)@.position as int]),
                Ok(None) => (a is Done <==> old(self)@.position + 1 == old(self)@.plan.len())
                    && final(self)@.report == kept_report(
                    old(self)@.report,
                    old(self)@.plan[old(self)@.position as int],
                ),
            }),
            event matches LockEvent::WalkEnded(end) ==> (old(self)@.phase == LockPhase::Applying ==> (
            end is Interrupted <==> a is Done) && (end is Interrupted ==> final(self)@.report == (
            GenshinArtifactLockReport { interrupted: true, ..old(self)@.report }))),
            event matches LockEvent::InterruptChecked(interrupt) ==> (old(self)@.phase
                == LockPhase::AwaitInterrupt ==> (interrupt <==> a is Done) && (interrupt
                ==> final(self)@.report == (GenshinArtifactLockReport {
                interrupted: true,
                ..old(self)@.report
            })) && (a matches LockAction::Click { target, desired } ==> target
                == old(self)@.plan[old(self)@.position - 1].target && desired == old(self)@.desired)),
            event matches LockEvent::Clicked(outcome) ==> (old(self)@.phase == LockPhase::AwaitClick ==> (
            outcome is Err <==> a is Rollback) && (outcome is Ok ==> final(self)@.report == (
            GenshinArtifactLockReport {
                changed: (old(self)@.report.changed + 1) as usize,
                processed: (old(self)@.report.processed + 1) as usize,
                ..old(self)@.report
            }) && (a is Done <==> old(self)@.position == old(self)@.plan.len()))),
            event matches LockEvent::Visited { index, locked } ==> (old(self)@.phase
                == LockPhase::Preflight ==> (a is Done ==> (a matches LockAction::Done(
                Err(LockFailure::Preflight(f)),
            ) && Some(f) == visit_failure(
                LockPlanEntry {
                    change: None,
                    ..checks_of(old(self)@.plan)[old(self)@.position as int]
                },
                0,
                index,
                locked,
            )))),
            event matches LockEvent::WalkEnded(end) ==> (old(self)@.phase == LockPhase::Preflight ==> (
            a matches LockAction::Done(Err(LockFailure::Preflight(f))) && f == end_failure(
                end,
                checks_of(old(self)@.plan)[old(self)@.position as int].target,
            ))),
            event matches LockEvent::Visited { index, locked } ==> (old(self)@.phase
                == LockPhase::Applying ==> (a is Rollback <==> visit_failure(
                old(self)@.plan[old(self)@.position as int],
                old(self)@.report.changed,
                index,
                locked,
            ) is Some) && (a is Rollback ==> final(self)@.cause == visit_failure(
                old(self)@.plan[old(self)@.position as int],
                old(self)@.report.changed,
                index,
                locked,
            ))),
            event matches LockEvent::WalkEnded(end) ==> (old(self)@.phase == LockPhase::Applying ==> (
            a is Rollback ==> final(self)@.cause == Some(
                end_failure(end, old(self)@.plan[old(self)@.position as int].target),
            ))),
            event matches LockEvent::Clicked(Err(message)) ==> (old(self)@.phase == LockPhase::AwaitClick
                ==> final(self)@.cause == Some(
                StepFailure::Click {
                    target: old(self)@.plan[old(self)@.position - 1].target,
                    changed: old(self)@.report.changed,
                    message,
                },
            )),
            a is Rollback ==> final(self)@.cause is Some,
            event matches LockEvent::RolledBack(outcome) ==> (old(self)@.phase == LockPhase::RollingBack
                ==> (a matches LockAction::Done(Err(LockFailure::Applied { cause, rollback_error, .. }))
                && old(self)@.cause == Some(cause) && rollback_error == match outcome {
                Ok(()) => None,
                Err(m) => Some(m),
            })),
    {
        match self.phase {
            LockPhase::Counting => match event {
                LockEvent::Counted { text, capacity } => self.on_count(text, capacity),
                _ => LockAction::ReadCount,
            },
            LockPhase::Preflight => match event {
                LockEvent::Visited { index, locked } => self.on_preflight_visit(index, locked),
                LockEvent::WalkEnded(end) => self.on_preflight_end(end),
                _ => LockAction::Next,
            },
            LockPhase::Applying => match event {
                LockEvent::Visited { index, locked } => self.on_apply_visit(index, locked),
                LockEvent::WalkEnded(end) => self.on_apply_end(end),
                _ => LockAction::Next,
            },
            LockPhase::AwaitInterrupt => match event {
                LockEvent::InterruptChecked(interrupt) => self.on_interrupt(interrupt),
                _ => LockAction::CheckInterrupt,
            },
            LockPhase::AwaitClick => match event {
                LockEvent::Clicked(outcome) => self.on_click(outcome),
                _ => {
                    let target = self.plan.entries()[self.next - 1].target;
                    LockAction::Click { target, desired: self.desired }
                },
            },
            LockPhase::RollingBack => match event {
                LockEvent::RolledBack(outcome) => self.on_rolled_back(outcome),
                _ => {
                    let changed_states = copy_states(self.run.changed_states());
                    LockAction::Rollback { changed_states, item_count: self.item_count }
                },
            },
            _ => LockAction::Next,
        }
    }

    /// The first request: an empty plan is done at once, with nothing
    /// read; otherwise the inventory header is to be read.
    pub fn start(&mut self) -> (a: LockAction)
        requires
            old(self).wf(),
            old(self)@.phase == LockPhase::Start,
        ensures
            final(self).wf(),
            final(self)@ == (LockExecutionView { phase: final(self)@.phase, ..old(self)@ }),
            old(self)@.plan.len() == 0 ==> final(self)@.phase == LockPhase::Finished && a
                == LockAction::Done(Ok(old(self)@.report)),
            old(self)@.plan.len() > 0 ==> final(self)@.phase == LockPhase::Counting && a
                == LockAction::ReadCount,
    {
        if self.plan.entries().len() == 0 {
            let report = self.run.report();
            self.finish(Ok(report))
        } else {
            self.phase = LockPhase::Counting;
            LockAction::ReadCount
        }
    }
}

} // verus!
