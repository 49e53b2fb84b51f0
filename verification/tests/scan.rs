use yas_scanner_genshin::scan::{
    contains_pending_marker, extract_stat_prefix, infer_max_level_from_main_stat,
    is_plausible_substat, is_semantically_blank, next_consecutive_duplicate_count,
    parse_artifact_level, parse_level, LevelError,
};

#[test]
fn rejects_levels_above_the_rarity_cap() {
    assert_eq!(parse_artifact_level("+20", 5).unwrap(), 20);
    assert_eq!(parse_artifact_level("12", 3).unwrap(), 12);
    assert!(parse_artifact_level("87", 5).is_err());
    assert!(parse_artifact_level("+20", 4).is_err());
}

#[test]
fn infers_five_star_max_level_from_known_main_stat_caps() {
    assert_eq!(infer_max_level_from_main_stat(5, "4,780"), Some(20));
    assert_eq!(infer_max_level_from_main_stat(5, "46.6%"), Some(20));
    assert_eq!(infer_max_level_from_main_stat(5, "62.2%"), Some(20));
    assert_eq!(infer_max_level_from_main_stat(4, "46.6%"), None);
    assert_eq!(infer_max_level_from_main_stat(5, "44.6%"), None);
}

#[test]
fn duplicate_streak_only_counts_adjacent_identical_results() {
    assert_eq!(next_consecutive_duplicate_count(Some(&1), &1, 0), 1);
    assert_eq!(next_consecutive_duplicate_count(Some(&1), &1, 7), 8);
    assert_eq!(next_consecutive_duplicate_count(Some(&1), &2, 7), 0);
    assert_eq!(next_consecutive_duplicate_count::<i32>(None, &1, 7), 0);
}

#[test]
fn detects_exact_and_slightly_misread_pending_markers() {
    assert!(contains_pending_marker("暴击伤害+7.8% 待激活"));
    assert!(contains_pending_marker("暴击伤害+7.8%待激话"));
    assert!(contains_pending_marker("暴击伤害+7.8%激活"));
    assert!(!contains_pending_marker("暴击伤害+7.8%"));
}

#[test]
fn punctuation_only_ocr_is_treated_as_blank() {
    assert!(is_semantically_blank("..........................."));
    assert!(is_semantically_blank(" · … "));
    assert!(!is_semantically_blank("桑多涅已装备"));
}

#[test]
fn extracts_pending_stat_without_activation_label() {
    assert_eq!(
        extract_stat_prefix("· 防御力+6.6%（待激活）").as_deref(),
        Some("防御力+6.6%")
    );
    assert_eq!(
        extract_stat_prefix("攻击力+19待激活").as_deref(),
        Some("攻击力+19")
    );
}

#[test]
fn rejects_impossible_substat_values() {
    assert!(is_plausible_substat("防御力+6.6%", true));
    assert!(is_plausible_substat("暴击率+10.1%", false));
    assert!(!is_plausible_substat("防御力+668", true));
    assert!(!is_plausible_substat("暴击率+278", false));
    assert!(!is_plausible_substat("攻击1+5388", false));
}

#[test]
fn level_text_reads_from_the_plus_sign() {
    assert_eq!(parse_level("Lv+7"), Some(7));
    assert_eq!(parse_level("-3"), Some(-3));
    assert_eq!(parse_level("abc"), None);
    assert_eq!(parse_level("+"), None);
    assert_eq!(parse_level("99999999999"), None);
    assert_eq!(
        parse_artifact_level("+5", 6),
        Err(LevelError::InvalidRarity(6))
    );
    assert_eq!(
        parse_artifact_level("+13", 3),
        Err(LevelError::OutOfRange {
            level: 13,
            max_level: 12
        })
    );
    assert_eq!(parse_artifact_level("x", 5), Err(LevelError::NotANumber));
    assert_eq!(parse_artifact_level("+4", 1), Ok(4));
}

#[test]
fn stat_prefix_needs_a_value_after_the_plus() {
    assert_eq!(extract_stat_prefix("暴击率+"), None);
    assert_eq!(extract_stat_prefix("暴击率"), None);
    assert_eq!(
        extract_stat_prefix("- 生命值+4,780 更多").as_deref(),
        Some("生命值+4,780")
    );
}

#[test]
fn plausible_ranges_have_inclusive_bounds() {
    assert!(is_plausible_substat("生命值+200", true));
    assert!(is_plausible_substat("生命值+310", true));
    assert!(!is_plausible_substat("生命值+311", true));
    assert!(is_plausible_substat("防御力+7.5%", true));
    assert!(!is_plausible_substat("防御力+7.6%", true));
    assert!(is_plausible_substat("暴击伤害+47%", false));
    assert!(!is_plausible_substat("暴击伤害+47.1%", false));
    assert!(!is_plausible_substat("火元素伤害加成+5%", false));
}

#[test]
fn blank_and_marker_edge_cases() {
    assert!(is_semantically_blank(""));
    assert!(!contains_pending_marker(""));
    assert!(contains_pending_marker("待 激 活"));
}
