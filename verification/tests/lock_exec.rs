use yas_scanner_genshin::executor::LockError;
use yas_scanner_genshin::lock_exec::{
    LockAction, LockEvent, LockExecution, LockFailure, StepFailure, WalkEnd,
};
use yas_scanner_genshin::lock_plan::{LockChange, LockPlan, LockRecord};
use yas_scanner_genshin::locker::GenshinArtifactLockReport;

fn counted(text: &str) -> LockEvent {
    LockEvent::Counted { text: text.to_string(), capacity: "1500".to_string() }
}

fn visited(index: usize, locked: bool) -> LockEvent {
    LockEvent::Visited { index, locked: Ok(locked) }
}

fn walk_targets(action: &LockAction) -> Option<(Vec<usize>, usize)> {
    match action {
        LockAction::Walk { targets, item_count } => Some((targets.clone(), *item_count)),
        _ => None,
    }
}

#[test]
fn an_empty_plan_is_done_before_anything_is_read() {
    let plan = LockPlan::from_flip_indices(&[]).unwrap();
    let mut execution = LockExecution::new(&plan, None);
    match execution.start() {
        LockAction::Done(Ok(report)) => assert_eq!(report, GenshinArtifactLockReport::default()),
        other => panic!("unexpected action {other:?}"),
    }
}

#[test]
fn a_target_beyond_the_count_fails_before_any_walk() {
    let plan = LockPlan::from_flip_indices(&[1, 5]).unwrap();
    let mut execution = LockExecution::new(&plan, None);
    assert!(matches!(execution.start(), LockAction::ReadCount));
    match execution.step(counted("圣遗物 3/1500")) {
        LockAction::Done(Err(LockFailure::Limit(error))) => assert_eq!(
            error,
            LockError::TargetOutsideInventory { target: 5, item_count: 3 }
        ),
        other => panic!("unexpected action {other:?}"),
    }
}

#[test]
fn an_unreadable_count_fails_with_the_texts_read() {
    let plan = LockPlan::from_flip_indices(&[1]).unwrap();
    let mut execution = LockExecution::new(&plan, None);
    execution.start();
    match execution.step(counted("背包")) {
        LockAction::Done(Err(LockFailure::Count { text, capacity, .. })) => {
            assert_eq!(text, "背包");
            assert_eq!(capacity, "1500");
        },
        other => panic!("unexpected action {other:?}"),
    }
}

#[test]
fn a_failed_validation_stops_before_any_change() {
    let plan = LockPlan::normalize(&[
        LockRecord { target: 1, expected: Some(true), change: None },
        LockRecord { target: 2, expected: None, change: Some(LockChange::Flip) },
    ])
    .unwrap();
    let mut execution = LockExecution::new(&plan, None);
    execution.start();
    let walk = execution.step(counted("圣遗物 10/1500"));
    assert_eq!(walk_targets(&walk), Some((vec![1], 10)));
    match execution.step(visited(1, false)) {
        LockAction::Done(Err(LockFailure::Preflight(StepFailure::Entry { target, changed, error }))) => {
            assert_eq!(target, 1);
            assert_eq!(changed, 0);
            assert_eq!(
                error,
                LockError::ValidationFailed { index: 1, expected: true, found: false }
            );
        },
        other => panic!("unexpected action {other:?}"),
    }
}

#[test]
fn a_passed_validation_walks_the_whole_plan() {
    let plan = LockPlan::normalize(&[
        LockRecord { target: 1, expected: Some(true), change: None },
        LockRecord { target: 4, expected: None, change: Some(LockChange::SetTo(false)) },
    ])
    .unwrap();
    let mut execution = LockExecution::new(&plan, Some(6));
    execution.start();
    let preflight = execution.step(counted("圣遗物 10/1500"));
    assert_eq!(walk_targets(&preflight), Some((vec![1], 6)));
    let apply = execution.step(visited(1, true));
    assert_eq!(walk_targets(&apply), Some((vec![1, 4], 6)));
    assert!(matches!(execution.step(visited(1, true)), LockAction::Next));
    match execution.step(visited(4, false)) {
        LockAction::Done(Ok(report)) => assert_eq!(
            report,
            GenshinArtifactLockReport {
                processed: 2,
                changed: 0,
                already_desired: 1,
                validated: 1,
                interrupted: false,
            }
        ),
        other => panic!("unexpected action {other:?}"),
    }
}

#[test]
fn a_failed_click_rolls_back_every_touched_target_first() {
    let plan = LockPlan::from_flip_indices(&[0, 2]).unwrap();
    let mut execution = LockExecution::new(&plan, None);
    execution.start();
    let walk = execution.step(counted("圣遗物 10/1500"));
    assert_eq!(walk_targets(&walk), Some((vec![0, 2], 10)));
    assert!(matches!(execution.step(visited(0, false)), LockAction::CheckInterrupt));
    assert!(matches!(
        execution.step(LockEvent::InterruptChecked(false)),
        LockAction::Click { target: 0, desired: true }
    ));
    assert!(matches!(execution.step(LockEvent::Clicked(Ok(()))), LockAction::Next));
    assert!(matches!(execution.step(visited(2, true)), LockAction::CheckInterrupt));
    assert!(matches!(
        execution.step(LockEvent::InterruptChecked(false)),
        LockAction::Click { target: 2, desired: false }
    ));
    match execution.step(LockEvent::Clicked(Err("timed out".to_string()))) {
        LockAction::Rollback { changed_states, item_count } => {
            assert_eq!(changed_states, vec![(0, false), (2, true)]);
            assert_eq!(item_count, 10);
        },
        other => panic!("unexpected action {other:?}"),
    }
    match execution.step(LockEvent::RolledBack(Ok(()))) {
        LockAction::Done(Err(LockFailure::Applied { cause, touched, rollback_error })) => {
            assert_eq!(touched, 2);
            assert_eq!(rollback_error, None);
            match cause {
                StepFailure::Click { target, changed, message } => {
                    assert_eq!((target, changed), (2, 1));
                    assert_eq!(message, "timed out");
                },
                other => panic!("unexpected cause {other:?}"),
            }
        },
        other => panic!("unexpected action {other:?}"),
    }
}

#[test]
fn an_interrupt_before_a_click_ends_the_run_with_its_report() {
    let plan = LockPlan::normalize(&[
        LockRecord { target: 0, expected: None, change: Some(LockChange::SetTo(true)) },
        LockRecord { target: 1, expected: None, change: Some(LockChange::Flip) },
    ])
    .unwrap();
    let mut execution = LockExecution::new(&plan, None);
    execution.start();
    execution.step(counted("圣遗物 5/1500"));
    assert!(matches!(execution.step(visited(0, true)), LockAction::Next));
    assert!(matches!(execution.step(visited(1, false)), LockAction::CheckInterrupt));
    match execution.step(LockEvent::InterruptChecked(true)) {
        LockAction::Done(Ok(report)) => assert_eq!(
            report,
            GenshinArtifactLockReport {
                processed: 1,
                changed: 0,
                already_desired: 1,
                validated: 0,
                interrupted: true,
            }
        ),
        other => panic!("unexpected action {other:?}"),
    }
}

#[test]
fn a_walk_that_ends_early_is_rolled_back() {
    let plan = LockPlan::from_flip_indices(&[3, 7]).unwrap();
    let mut execution = LockExecution::new(&plan, None);
    execution.start();
    execution.step(counted("圣遗物 9/1500"));
    assert!(matches!(execution.step(visited(3, true)), LockAction::CheckInterrupt));
    execution.step(LockEvent::InterruptChecked(false));
    assert!(matches!(execution.step(LockEvent::Clicked(Ok(()))), LockAction::Next));
    match execution.step(LockEvent::WalkEnded(WalkEnd::Finished)) {
        LockAction::Rollback { changed_states, .. } => assert_eq!(changed_states, vec![(3, true)]),
        other => panic!("unexpected action {other:?}"),
    }
    match execution.step(LockEvent::RolledBack(Err("stuck".to_string()))) {
        LockAction::Done(Err(LockFailure::Applied { cause, touched, rollback_error })) => {
            assert!(matches!(cause, StepFailure::EndedBefore(7)));
            assert_eq!(touched, 1);
            assert_eq!(rollback_error, Some("stuck".to_string()));
        },
        other => panic!("unexpected action {other:?}"),
    }
}
