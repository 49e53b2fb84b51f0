use yas_scanner_genshin::executor::{
    desired_lock_state, parse_artifact_inventory_count, resolve_artifact_item_count,
    ArtifactInventoryCount, InventoryCountError, LockError,
};
use yas_scanner_genshin::lock_plan::{LockChange, LockPlanEntry};

#[test]
fn resolves_flip_and_absolute_changes() {
    let flip = LockPlanEntry {
        target: 2,
        expected: None,
        change: Some(LockChange::Flip),
    };
    assert_eq!(desired_lock_state(flip, false).unwrap(), Some(true));

    let already_locked = LockPlanEntry {
        target: 3,
        expected: None,
        change: Some(LockChange::SetTo(true)),
    };
    assert_eq!(desired_lock_state(already_locked, true).unwrap(), None);
}

#[test]
fn rejects_a_validation_mismatch_before_changing_state() {
    let entry = LockPlanEntry {
        target: 5,
        expected: Some(false),
        change: Some(LockChange::SetTo(true)),
    };

    let error = desired_lock_state(entry, true).unwrap_err();
    assert!(error.message().contains("index 5"));
}

#[test]
fn parses_inventory_count_and_dynamic_capacity() {
    assert_eq!(
        parse_artifact_inventory_count("圣遗物 2400/2400", None).unwrap(),
        ArtifactInventoryCount {
            current: 2400,
            capacity: 2400,
        }
    );
    assert_eq!(
        parse_artifact_inventory_count("圣遗物 123 / 2500", None).unwrap(),
        ArtifactInventoryCount {
            current: 123,
            capacity: 2500,
        }
    );
}

#[test]
fn uses_a_separately_ocrd_capacity_when_the_slash_is_dropped() {
    assert_eq!(
        parse_artifact_inventory_count("圣遗物 24002400", Some("2400")).unwrap(),
        ArtifactInventoryCount {
            current: 2400,
            capacity: 2400,
        }
    );
    assert_eq!(
        parse_artifact_inventory_count("圣遗物 1232400", Some("/2400")).unwrap(),
        ArtifactInventoryCount {
            current: 123,
            capacity: 2400,
        }
    );
    assert_eq!(
        parse_artifact_inventory_count("圣遗物 24002400", Some("12400")).unwrap(),
        ArtifactInventoryCount {
            current: 2400,
            capacity: 2400,
        }
    );
}

#[test]
fn rejects_ambiguous_or_impossible_inventory_counts() {
    assert!(parse_artifact_inventory_count("圣遗物 ???", None).is_err());
    assert!(parse_artifact_inventory_count("圣遗物 2400", None).is_err());
    assert!(parse_artifact_inventory_count("圣遗物 2401/2400", None).is_err());
    assert!(parse_artifact_inventory_count("圣遗物 1232400", Some("2500")).is_err());
    assert!(parse_artifact_inventory_count("武器 1000/2000", None).is_err());
}

#[test]
fn configured_count_cannot_exceed_observed_inventory() {
    let inventory = ArtifactInventoryCount {
        current: 123,
        capacity: 2500,
    };
    assert_eq!(resolve_artifact_item_count(inventory, None).unwrap(), 123);
    assert_eq!(
        resolve_artifact_item_count(inventory, Some(100)).unwrap(),
        100
    );
    assert!(resolve_artifact_item_count(inventory, Some(124)).is_err());
    assert!(resolve_artifact_item_count(inventory, Some(2501)).is_err());
}

#[test]
fn inventory_count_errors_name_their_cause() {
    assert_eq!(
        parse_artifact_inventory_count("武器 1000/2000", None),
        Err(InventoryCountError::LabelNotRecognized)
    );
    assert_eq!(
        parse_artifact_inventory_count("圣遗物 2400", None),
        Err(InventoryCountError::MissingCapacityHint)
    );
    assert_eq!(
        parse_artifact_inventory_count("圣遗物 2400", Some("/")),
        Err(InventoryCountError::MissingCapacityHint)
    );
    assert_eq!(
        parse_artifact_inventory_count("圣遗物 1232400", Some("2500")),
        Err(InventoryCountError::HintDoesNotSplit)
    );
    assert_eq!(
        parse_artifact_inventory_count("圣遗物 ???", None),
        Err(InventoryCountError::CountNotRecognized)
    );
    assert_eq!(
        parse_artifact_inventory_count("圣遗物 1 2 3", None),
        Err(InventoryCountError::CountNotRecognized)
    );
    assert_eq!(
        parse_artifact_inventory_count("圣遗物 0/0", None),
        Err(InventoryCountError::ZeroCapacity)
    );
    assert_eq!(
        parse_artifact_inventory_count("圣遗物 2401/2400", None),
        Err(InventoryCountError::CountExceedsCapacity {
            current: 2401,
            capacity: 2400
        })
    );
    assert_eq!(
        parse_artifact_inventory_count("圣遗物 99999999999999999999999/1", None),
        Err(InventoryCountError::NumberOutOfRange)
    );
}

#[test]
fn capacity_hint_skips_leading_zero_splits() {
    // "1002400" with hint "02400": the split at "02400" starts with 0 and is
    // skipped; "2400" then leaves 100 as the count.
    assert_eq!(
        parse_artifact_inventory_count("圣遗物 1002400", Some("02400")).unwrap(),
        ArtifactInventoryCount {
            current: 100,
            capacity: 2400,
        }
    );
}

#[test]
fn lock_error_messages_state_the_numbers() {
    assert_eq!(
        LockError::ConfiguredCountExceedsCapacity {
            count: 2501,
            capacity: 2500
        }
        .message(),
        "configured artifact count 2501 exceeds the OCR-detected inventory capacity 2500"
    );
    assert_eq!(
        LockError::ValidationFailed {
            index: 5,
            expected: false,
            found: true
        }
        .message(),
        "lock validation failed for index 5: expected false, found true"
    );
    let inventory = ArtifactInventoryCount {
        current: 123,
        capacity: 2500,
    };
    assert_eq!(
        resolve_artifact_item_count(inventory, Some(124)),
        Err(LockError::ConfiguredCountExceedsCurrent {
            count: 124,
            current: 123
        })
    );
}
