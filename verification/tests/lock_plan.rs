use yas_scanner_genshin::lock_plan::{
    LockChange, LockFormatV2, LockPlan, LockPlanEntry, LockPlanError, LockValidationRecord,
};

#[test]
fn parses_and_sorts_v1_flip_indices() {
    let plan = LockPlan::from_flip_indices(&[8, 2, 5]).unwrap();

    assert_eq!(
        plan.entries(),
        &[
            LockPlanEntry {
                target: 2,
                expected: None,
                change: Some(LockChange::Flip),
            },
            LockPlanEntry {
                target: 5,
                expected: None,
                change: Some(LockChange::Flip),
            },
            LockPlanEntry {
                target: 8,
                expected: None,
                change: Some(LockChange::Flip),
            },
        ]
    );
}

#[test]
fn parses_v2_absolute_changes_and_validation() {
    let plan = LockPlan::from_v2(&LockFormatV2 {
        version: 2,
        flip_indices: vec![9],
        lock_indices: vec![5],
        unlock_indices: vec![2],
        validation: vec![
            LockValidationRecord {
                index: 5,
                locked: false,
            },
            LockValidationRecord {
                index: 7,
                locked: true,
            },
        ],
    })
    .unwrap();

    assert_eq!(
        plan.entries(),
        &[
            LockPlanEntry {
                target: 2,
                expected: None,
                change: Some(LockChange::SetTo(false)),
            },
            LockPlanEntry {
                target: 5,
                expected: Some(false),
                change: Some(LockChange::SetTo(true)),
            },
            LockPlanEntry {
                target: 7,
                expected: Some(true),
                change: None,
            },
            LockPlanEntry {
                target: 9,
                expected: None,
                change: Some(LockChange::Flip),
            },
        ]
    );
}

#[test]
fn rejects_conflicting_changes_for_one_index() {
    let error = LockPlan::from_v2(&LockFormatV2 {
        version: 2,
        flip_indices: vec![],
        lock_indices: vec![3],
        unlock_indices: vec![3],
        validation: vec![],
    })
    .unwrap_err();

    assert!(error
        .message()
        .contains("conflicting changes for index 3"));
}

#[test]
fn rejects_duplicate_v1_flip_indices() {
    let error = LockPlan::from_flip_indices(&[4, 4]).unwrap_err();

    assert!(error
        .message()
        .contains("conflicting changes for index 4"));
}

#[test]
fn rejects_conflicting_validations_and_other_versions() {
    let error = LockPlan::from_v2(&LockFormatV2 {
        version: 2,
        flip_indices: vec![],
        lock_indices: vec![],
        unlock_indices: vec![],
        validation: vec![
            LockValidationRecord {
                index: 1,
                locked: true,
            },
            LockValidationRecord {
                index: 1,
                locked: true,
            },
        ],
    })
    .unwrap_err();
    assert_eq!(error, LockPlanError::ConflictingValidations(1));
    assert_eq!(error.message(), "conflicting validations for index 1");

    let error = LockPlan::from_v2(&LockFormatV2 {
        version: 3,
        flip_indices: vec![1],
        lock_indices: vec![],
        unlock_indices: vec![],
        validation: vec![],
    })
    .unwrap_err();
    assert_eq!(error, LockPlanError::UnsupportedVersion(3));
    assert_eq!(error.message(), "unsupported lock plan version 3");
}

#[test]
fn empty_plan_has_no_entries() {
    let plan = LockPlan::from_flip_indices(&[]).unwrap();
    assert!(plan.entries().is_empty());
}

#[test]
fn v1_lists_flip_each_distinct_index_and_refuse_repeats() {
    let indices = [40, 3, 17, 0, 9];
    let plan = LockPlan::from_flip_indices(&indices).unwrap();
    let mut sorted = indices.to_vec();
    sorted.sort();
    assert_eq!(
        plan.entries().iter().map(|entry| entry.target).collect::<Vec<_>>(),
        sorted
    );
    assert!(plan
        .entries()
        .iter()
        .all(|entry| entry.expected.is_none() && entry.change == Some(LockChange::Flip)));
    assert!(matches!(
        LockPlan::from_flip_indices(&[4, 1, 4]),
        Err(LockPlanError::ConflictingChanges(4))
    ));
    assert!(LockPlan::from_flip_indices(&[]).unwrap().entries().is_empty());
}
