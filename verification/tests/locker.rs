use yas_scanner_genshin::executor::LockError;
use yas_scanner_genshin::lock_plan::{LockChange, LockPlan, LockPlanEntry};
use yas_scanner_genshin::locker::{
    check_plan_targets, rollback_message, rollback_targets, validation_entries, EntryDecision,
    GenshinArtifactLockReport, LockRun,
};

fn entry(target: usize, expected: Option<bool>, change: Option<LockChange>) -> LockPlanEntry {
    LockPlanEntry { target, expected, change }
}

#[test]
fn plan_targets_must_lie_inside_the_inventory() {
    let plan = LockPlan::from_flip_indices(&[8, 2, 5]).unwrap();
    assert!(check_plan_targets(&plan, 9).is_ok());
    let error = check_plan_targets(&plan, 8).unwrap_err();
    assert_eq!(error, LockError::TargetOutsideInventory { target: 8, item_count: 8 });
    assert_eq!(
        error.message(),
        "artifact lock target 8 is outside the inventory count 8"
    );
    let empty = LockPlan::from_flip_indices(&[]).unwrap();
    assert!(check_plan_targets(&empty, 0).is_ok());
}

#[test]
fn preflight_keeps_only_validating_entries_in_order() {
    let plan = LockPlan::normalize(&[
        yas_scanner_genshin::lock_plan::LockRecord { target: 7, expected: Some(true), change: None },
        yas_scanner_genshin::lock_plan::LockRecord { target: 3, expected: None, change: Some(LockChange::Flip) },
        yas_scanner_genshin::lock_plan::LockRecord { target: 1, expected: Some(false), change: None },
    ])
    .unwrap();
    let validations = validation_entries(&plan);
    assert_eq!(
        validations,
        vec![entry(1, Some(false), None), entry(7, Some(true), None)]
    );
}

#[test]
fn lock_run_counts_changes_validations_and_skips() {
    let mut run = LockRun::new();
    assert_eq!(run.report(), GenshinArtifactLockReport::default());

    // A flip of an unlocked artifact is clicked to locked.
    assert_eq!(
        run.begin_entry(entry(2, Some(false), Some(LockChange::Flip)), false),
        Ok(EntryDecision::Change(true))
    );
    run.start_change();
    assert_eq!(run.changed_states(), &[(2, false)]);
    run.finish_change();

    // Setting a state already held is counted as already desired.
    assert_eq!(
        run.begin_entry(entry(5, None, Some(LockChange::SetTo(true))), true),
        Ok(EntryDecision::Keep)
    );

    // A pure validation is processed without a change.
    assert_eq!(run.begin_entry(entry(6, Some(true), None), true), Ok(EntryDecision::Keep));

    // A mismatch is an error, counted as validated but not processed.
    assert_eq!(
        run.begin_entry(entry(9, Some(true), Some(LockChange::Flip)), false),
        Err(LockError::ValidationFailed { index: 9, expected: true, found: false })
    );

    assert_eq!(
        run.report(),
        GenshinArtifactLockReport {
            processed: 3,
            changed: 1,
            already_desired: 1,
            validated: 3,
            interrupted: false,
        }
    );
}

#[test]
fn an_interrupt_before_the_click_touches_nothing() {
    let mut run = LockRun::new();
    assert_eq!(
        run.begin_entry(entry(4, None, Some(LockChange::SetTo(false))), true),
        Ok(EntryDecision::Change(false))
    );
    run.interrupt();
    assert!(run.report().interrupted);
    assert_eq!(run.report().processed, 0);
    assert!(run.changed_states().is_empty());
}

#[test]
fn rollback_revisits_touched_targets_in_order() {
    assert_eq!(rollback_targets(&[(3, true), (1, false), (8, true)]), vec![3, 1, 8]);
    assert_eq!(
        rollback_message(2, None),
        "artifact lock plan failed with 2 touched targets; all touched targets were restored to their original states"
    );
    assert_eq!(
        rollback_message(1, Some("timed out")),
        "artifact lock plan failed with 1 touched targets; rollback also failed: timed out"
    );
}
