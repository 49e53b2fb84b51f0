use yas_scanner_genshin::artifact::ArtifactSlot;
use yas_scanner_genshin::catalog::{
    ArtifactCatalog, ArtifactPieceRecord, ArtifactSetRecord, CatalogSource, CharacterRecord,
};
use yas_scanner_genshin::scan::GenshinArtifactScanResult;
use yas_scanner_genshin::worker::{
    correct_substat, exact_equip, exact_title, level_after_second_reading, matched_equip,
    matched_title, needs_pending_check, raw_title, read_pending_row, scans_equal, slot_from_label,
    slot_title, substat_needs_second_reading, CollectStep, ScanCollector, ScanItem,
};

fn scan(name: &str, level: i32) -> GenshinArtifactScanResult {
    GenshinArtifactScanResult {
        name: name.to_string(),
        main_stat_name: "生命值".to_string(),
        main_stat_value: "4,780".to_string(),
        sub_stat: [
            "暴击率+3.9%".to_string(),
            String::new(),
            String::new(),
            String::new(),
        ],
        sub_stat_active: [true; 4],
        equip: String::new(),
        level,
        star: 5,
        lock: false,
    }
}

fn recognized(result: GenshinArtifactScanResult) -> ScanItem {
    let description = format!("{}", result.name);
    ScanItem::Recognized { result, description }
}

#[test]
fn second_level_reading_falls_back_to_the_main_stat() {
    assert_eq!(level_after_second_reading("+12", 5, "4,780"), Some(12));
    assert_eq!(level_after_second_reading("???", 5, "4,780"), Some(20));
    assert_eq!(level_after_second_reading("???", 4, "4,780"), None);
    assert_eq!(level_after_second_reading("+21", 5, "311"), Some(20));
    assert_eq!(level_after_second_reading("+21", 5, "300"), None);
}

#[test]
fn only_low_level_five_star_fourth_rows_are_checked_for_pending() {
    assert!(needs_pending_check(5, 0, "暴击伤害+7.8%"));
    assert!(!needs_pending_check(5, 4, "暴击伤害+7.8%"));
    assert!(!needs_pending_check(4, 0, "暴击伤害+7.8%"));
    assert!(!needs_pending_check(5, 0, ""));
}

#[test]
fn pending_rows_take_the_stat_prefix_of_the_second_reading() {
    assert_eq!(
        read_pending_row("· 防御力+6.6%（待激活）", "防御力+6.6"),
        (false, "防御力+6.6%".to_string())
    );
    assert_eq!(
        read_pending_row("待激活", "防御力+6.6"),
        (false, "防御力+6.6".to_string())
    );
    assert_eq!(
        read_pending_row("防御力+6.6%", "防御力+6.6"),
        (true, "防御力+6.6".to_string())
    );
}

#[test]
fn implausible_rows_are_read_again_and_cleared_when_still_wrong() {
    assert!(!substat_needs_second_reading("防御力+6.6%", false));
    assert!(!substat_needs_second_reading(" · … ", false));
    assert!(substat_needs_second_reading("防御力+668", false));
    assert_eq!(correct_substat("· 防御力+6.6%（待激活）", true), "防御力+6.6%");
    assert_eq!(correct_substat("防御力+668", false), "");
    assert_eq!(correct_substat("nothing", false), "");
}

#[test]
fn collector_keeps_results_in_order_and_reports_errors() {
    let mut collector = ScanCollector::new(0, 8, false);
    assert_eq!(collector.accept(0, recognized(scan("a", 20))), CollectStep::Continue);
    assert_eq!(
        collector.accept(1, ScanItem::Failed { message: "ocr failed".to_string() }),
        CollectStep::Continue
    );
    assert_eq!(collector.accept(2, recognized(scan("b", 16))), CollectStep::Continue);
    let output = collector.finish();
    assert_eq!(output.results.len(), 2);
    assert_eq!(output.results[0].name, "a");
    assert_eq!(output.results[1].name, "b");
    assert_eq!(output.errors, vec!["item 2: ocr failed".to_string()]);
}

#[test]
fn collector_stops_below_the_minimum_level() {
    let mut collector = ScanCollector::new(10, 8, false);
    assert_eq!(collector.accept(0, recognized(scan("a", 20))), CollectStep::Continue);
    assert_eq!(collector.accept(1, recognized(scan("b", 9))), CollectStep::BelowMinLevel);
    assert!(collector.is_stopped());
    let output = collector.finish();
    assert_eq!(output.results.len(), 1);
    assert!(output.errors.is_empty());
}

#[test]
fn collector_stops_at_a_row_of_identical_results() {
    let mut collector = ScanCollector::new(0, 3, false);
    assert_eq!(collector.accept(0, recognized(scan("a", 20))), CollectStep::Continue);
    assert_eq!(collector.accept(1, recognized(scan("a", 20))), CollectStep::Continue);
    assert_eq!(collector.consecutive_dup_count(), 1);
    assert_eq!(collector.accept(2, recognized(scan("a", 20))), CollectStep::Continue);
    assert_eq!(collector.accept(3, recognized(scan("a", 20))), CollectStep::StaleSelection);
    let output = collector.finish();
    assert_eq!(output.results.len(), 4);
    assert_eq!(
        output.errors,
        vec!["item 4: detected 3 consecutive duplicate artifacts; page selection may be stale; repeated result: a".to_string()]
    );

    let mut ignoring = ScanCollector::new(0, 1, true);
    for index in 0..5 {
        assert_eq!(ignoring.accept(index, recognized(scan("a", 20))), CollectStep::Continue);
    }
    assert_eq!(ignoring.finish().results.len(), 5);
}

#[test]
fn a_different_result_resets_the_streak() {
    let mut collector = ScanCollector::new(0, 2, false);
    collector.accept(0, recognized(scan("a", 20)));
    collector.accept(1, recognized(scan("a", 20)));
    assert_eq!(collector.consecutive_dup_count(), 1);
    collector.accept(2, recognized(scan("b", 20)));
    assert_eq!(collector.consecutive_dup_count(), 0);
    let mut locked = scan("b", 20);
    locked.lock = true;
    assert!(!scans_equal(&scan("b", 20), &locked));
    assert!(scans_equal(&scan("b", 20), &scan("b", 20)));
}

fn catalog() -> ArtifactCatalog {
    let piece = |name: &str, slot| ArtifactPieceRecord { name_zh_cn: name.to_string(), slot };
    ArtifactCatalog {
        schema_version: 1,
        source: CatalogSource {
            repository: "local".to_string(),
            commit: "main".to_string(),
            game_version: "latest".to_string(),
        },
        artifact_sets: vec![ArtifactSetRecord {
            id: 15020,
            name_zh_cn: "追忆之注连".to_string(),
            name_en: "Shimenawa's Reminiscence".to_string(),
            good_key: "ShimenawasReminiscence".to_string(),
            pieces: vec![
                piece("天授之殁", ArtifactSlot::Feather),
                piece("天授之冠", ArtifactSlot::Head),
                piece("风花的箴铭", ArtifactSlot::Flower),
            ],
        }],
        characters: vec![CharacterRecord {
            id: 10000123,
            name_zh_cn: "杜林".to_string(),
            name_en: "Durin".to_string(),
            good_key: "Durin".to_string(),
            aliases_zh_cn: vec![],
        }],
    }
}

#[test]
fn slot_labels_name_the_five_slots() {
    assert_eq!(slot_from_label("生之花"), Some(ArtifactSlot::Flower));
    assert_eq!(slot_from_label("· 死之羽 ·"), Some(ArtifactSlot::Feather));
    assert_eq!(slot_from_label("时之沙"), Some(ArtifactSlot::Sand));
    assert_eq!(slot_from_label("空之杯"), Some(ArtifactSlot::Goblet));
    assert_eq!(slot_from_label("理之冠"), Some(ArtifactSlot::Head));
    assert_eq!(slot_from_label("之冠"), None);
}

#[test]
fn titles_are_settled_by_the_catalog_when_they_can_be() {
    let catalog = catalog();
    assert_eq!(exact_title(&catalog, "风花的箴铭"), Some("风花的箴铭".to_string()));
    assert_eq!(exact_title(&catalog, "风花的箴"), None);
    assert_eq!(matched_title(&catalog, "风花的箴", "乱码"), Some("风花的箴铭".to_string()));
    assert_eq!(matched_title(&catalog, "天授之", ""), None);
    assert_eq!(
        slot_title(&catalog, "天授之", "", ArtifactSlot::Feather),
        Some("天授之殁".to_string())
    );
    assert_eq!(raw_title("甲", ""), "甲");
    assert_eq!(raw_title("甲", "乙"), "乙");
}

#[test]
fn equip_labels_name_catalog_characters() {
    let catalog = catalog();
    assert_eq!(exact_equip(&catalog, " · "), Some(String::new()));
    assert_eq!(exact_equip(&catalog, "杜林已装备"), Some("杜林已装备".to_string()));
    assert_eq!(exact_equip(&catalog, "杜已装备"), None);
    assert_eq!(matched_equip(&catalog, "杜已装备", "乱"), "杜林已装备");
    assert_eq!(matched_equip(&catalog, "完全不同的文字", "也不同的"), "");
}

use yas_scanner_genshin::panel::{PanelAction, PanelField, PanelRead};

/// Runs a panel reading, answering each request from `fast` and `general`.
fn read_with(
    star: usize,
    lock: bool,
    fast: &dyn Fn(PanelField) -> String,
    general: &dyn Fn(PanelField) -> String,
) -> (Vec<(bool, PanelField)>, PanelAction) {
    let catalog = catalog();
    let mut reading = PanelRead::new(star, lock);
    let mut action = reading.start();
    let mut requests = Vec::new();
    loop {
        action = match action {
            PanelAction::ReadFast(field) => {
                requests.push((true, field));
                reading.step(&catalog, fast(field))
            },
            PanelAction::ReadGeneral(field) => {
                requests.push((false, field));
                reading.step(&catalog, general(field))
            },
            done => return (requests, done),
        };
    }
}

#[test]
fn a_clean_panel_is_read_with_fast_readings_only() {
    let fast = |field: PanelField| match field {
        PanelField::Title => "天授之殁".to_string(),
        PanelField::MainStatName => "攻击力".to_string(),
        PanelField::MainStatValue => "311".to_string(),
        PanelField::Level => "+20".to_string(),
        PanelField::SubStat(0) => "暴击率+3.9%".to_string(),
        PanelField::SubStat(1) => "暴击伤害+7.8%".to_string(),
        PanelField::SubStat(2) => "元素精通+23".to_string(),
        PanelField::SubStat(3) => "攻击力+5.8%".to_string(),
        _ => String::new(),
    };
    let general = |_field: PanelField| String::new();
    let (requests, done) = read_with(5, true, &fast, &general);
    assert!(requests.iter().all(|(is_fast, _)| *is_fast));
    match done {
        PanelAction::Done(Ok(r)) => {
            assert_eq!(r.name, "天授之殁");
            assert_eq!(r.level, 20);
            assert_eq!(r.star, 5);
            assert!(r.lock);
            assert_eq!(r.sub_stat_active, [true; 4]);
            assert_eq!(r.sub_stat[1], "暴击伤害+7.8%");
            assert_eq!(r.equip, "");
        },
        _ => panic!("the panel should be read"),
    }
}

#[test]
fn unreadable_levels_end_the_reading_with_both_texts() {
    let fast = |field: PanelField| match field {
        PanelField::Title => "天授之殁".to_string(),
        PanelField::MainStatValue => "4,000".to_string(),
        PanelField::Level => "+2O".to_string(),
        _ => String::new(),
    };
    let general = |field: PanelField| match field {
        PanelField::Level => "+25".to_string(),
        _ => String::new(),
    };
    let (_, done) = read_with(5, false, &fast, &general);
    match done {
        PanelAction::Done(Err(failure)) => {
            assert_eq!(failure.fast_text, "+2O");
            assert_eq!(failure.general_text, "+25");
        },
        _ => panic!("the level cannot be read"),
    }
}

#[test]
fn a_hard_panel_falls_back_on_the_slot_the_main_stat_and_the_general_readings() {
    let fast = |field: PanelField| match field {
        PanelField::Title => "天授之".to_string(),
        PanelField::MainStatName => "攻击力".to_string(),
        PanelField::MainStatValue => "311".to_string(),
        PanelField::Level => "+2O".to_string(),
        PanelField::SubStat(0) => "暴击率+3.9%".to_string(),
        PanelField::SubStat(1) => "暴击伤害+99%".to_string(),
        PanelField::SubStat(2) => "元素精通+23".to_string(),
        PanelField::SubStat(3) => "攻击力+5.8%".to_string(),
        PanelField::Equip => "杜已装备".to_string(),
        _ => String::new(),
    };
    let general = |field: PanelField| match field {
        PanelField::Title => "天授之".to_string(),
        PanelField::SlotLabel => "死之羽".to_string(),
        PanelField::Level => "+2O".to_string(),
        PanelField::SubStat(1) => "暴击伤害+7.8%".to_string(),
        PanelField::Equip => "乱".to_string(),
        _ => String::new(),
    };
    let (requests, done) = read_with(5, false, &fast, &general);
    assert_eq!(
        requests,
        vec![
            (true, PanelField::Title),
            (false, PanelField::Title),
            (false, PanelField::SlotLabel),
            (true, PanelField::MainStatName),
            (true, PanelField::MainStatValue),
            (true, PanelField::Level),
            (false, PanelField::Level),
            (true, PanelField::SubStat(0)),
            (true, PanelField::SubStat(1)),
            (true, PanelField::SubStat(2)),
            (true, PanelField::SubStat(3)),
            (false, PanelField::SubStat(1)),
            (true, PanelField::Equip),
            (false, PanelField::Equip),
        ]
    );
    match done {
        PanelAction::Done(Ok(r)) => {
            assert_eq!(r.name, "天授之殁");
            assert_eq!(r.main_stat_name, "攻击力");
            assert_eq!(r.main_stat_value, "311");
            assert_eq!(r.level, 20);
            assert_eq!(r.sub_stat[1], "暴击伤害+7.8%");
            assert_eq!(r.sub_stat[3], "攻击力+5.8%");
            assert_eq!(r.equip, "杜林已装备");
            assert!(!r.lock);
        },
        _ => panic!("the panel should be read"),
    }
}
