use yas_scanner_genshin::artifact::{ArtifactSlot, ArtifactStatName, GenshinArtifact};
use yas_scanner_genshin::catalog::{
    ArtifactCatalog, ArtifactPieceRecord, ArtifactSetRecord, CatalogSource, CharacterRecord,
};
use yas_scanner_genshin::scan::GenshinArtifactScanResult;
use yas_scanner_genshin::stat::{ArtifactStat, StatValue};

fn catalog() -> ArtifactCatalog {
    ArtifactCatalog {
        schema_version: 1,
        source: CatalogSource {
            repository: "local".to_string(),
            commit: "main".to_string(),
            game_version: "latest".to_string(),
        },
        artifact_sets: vec![ArtifactSetRecord {
            id: 15040,
            name_zh_cn: "风花之颂".to_string(),
            name_en: "A Day Carved From Rising Winds".to_string(),
            good_key: "ADayCarvedFromRisingWinds".to_string(),
            pieces: vec![ArtifactPieceRecord {
                name_zh_cn: "风花的箴铭".to_string(),
                slot: ArtifactSlot::Flower,
            }],
        }],
        characters: vec![CharacterRecord {
            id: 10000123,
            name_zh_cn: "杜林".to_string(),
            name_en: "Durin".to_string(),
            good_key: "Durin".to_string(),
            aliases_zh_cn: vec![],
        }],
    }
}

fn stat(name: ArtifactStatName, mantissa: u64, scale: u32) -> ArtifactStat {
    ArtifactStat { name, value: StatValue { negative: false, mantissa, scale } }
}

#[test]
fn parses_artifact_with_data_driven_set_and_character() {
    let catalog = catalog();
    let scan = GenshinArtifactScanResult {
        name: "风花的箴铭".to_string(),
        main_stat_name: "生命值".to_string(),
        main_stat_value: "4,780".to_string(),
        sub_stat: [
            "暴击率+3.9%".to_string(),
            "".to_string(),
            "".to_string(),
            "".to_string(),
        ],
        sub_stat_active: [true; 4],
        equip: "杜林已装备".to_string(),
        level: 20,
        star: 5,
        lock: true,
    };

    let artifact = GenshinArtifact::from_scan_result(&scan, &catalog).unwrap();
    assert_eq!(artifact.set_name.good_key(), "ADayCarvedFromRisingWinds");
    assert_eq!(artifact.slot, ArtifactSlot::Flower);
    assert_eq!(artifact.equip.unwrap().good_key(), "Durin");
    assert_eq!(artifact.main_stat, stat(ArtifactStatName::Hp, 4780, 0));
    assert_eq!(artifact.sub_stat_1, Some(stat(ArtifactStatName::Critical, 39, 3)));
    assert!(artifact.sub_stat_2.is_none());
    assert!(artifact.pending_sub_stat.is_none());
    assert!(artifact.lock);
    assert_eq!(artifact.level, 20);
}

#[test]
fn preserves_but_does_not_activate_previewed_fourth_substat() {
    let catalog = catalog();
    let scan = GenshinArtifactScanResult {
        name: "风花的箴铭".to_string(),
        main_stat_name: "生命值".to_string(),
        main_stat_value: "4,780".to_string(),
        sub_stat: [
            "暴击率+3.9%".to_string(),
            "攻击力+18".to_string(),
            "防御力+21".to_string(),
            "暴击伤害+7.8%".to_string(),
        ],
        sub_stat_active: [true, true, true, false],
        equip: String::new(),
        level: 0,
        star: 5,
        lock: false,
    };

    let artifact = GenshinArtifact::from_scan_result(&scan, &catalog).unwrap();
    assert!(artifact.sub_stat_4.is_none());
    assert_eq!(
        artifact.pending_sub_stat.unwrap().name,
        ArtifactStatName::CriticalDamage
    );
    assert_eq!(artifact.sub_stat_2, Some(stat(ArtifactStatName::Atk, 18, 0)));
    assert!(artifact.equip.is_none());
}

#[test]
fn unknown_names_and_unreadable_main_stats_are_refused() {
    let catalog = catalog();
    let mut scan = GenshinArtifactScanResult {
        name: "完全不同的名字".to_string(),
        main_stat_name: "生命值".to_string(),
        main_stat_value: "4,780".to_string(),
        sub_stat: [String::new(), String::new(), String::new(), String::new()],
        sub_stat_active: [true; 4],
        equip: String::new(),
        level: 0,
        star: 5,
        lock: false,
    };
    assert!(GenshinArtifact::from_scan_result(&scan, &catalog).is_err());
    scan.name = "风花的箴铭".to_string();
    scan.main_stat_value = "abc".to_string();
    assert!(GenshinArtifact::from_scan_result(&scan, &catalog).is_err());
    scan.main_stat_name = "未知".to_string();
    scan.main_stat_value = "10".to_string();
    assert!(GenshinArtifact::from_scan_result(&scan, &catalog).is_err());
}

#[test]
fn only_the_first_inactive_row_becomes_pending() {
    let catalog = catalog();
    let scan = GenshinArtifactScanResult {
        name: "风花的箴铭".to_string(),
        main_stat_name: "攻击力".to_string(),
        main_stat_value: "46.6%".to_string(),
        sub_stat: [
            "暴击率+3.9%".to_string(),
            "攻击力+18".to_string(),
            "防御力+21".to_string(),
            "暴击伤害+7.8%".to_string(),
        ],
        sub_stat_active: [true, false, true, false],
        equip: String::new(),
        level: 0,
        star: 5,
        lock: false,
    };
    let artifact = GenshinArtifact::from_scan_result(&scan, &catalog).unwrap();
    assert_eq!(artifact.main_stat, stat(ArtifactStatName::AtkPercentage, 466, 3));
    assert_eq!(artifact.pending_sub_stat, Some(stat(ArtifactStatName::Atk, 18, 0)));
    assert!(artifact.sub_stat_2.is_none());
    assert_eq!(artifact.sub_stat_4, Some(stat(ArtifactStatName::CriticalDamage, 78, 3)));
}

#[test]
fn stats_compare_in_thousandths() {
    assert_eq!(stat(ArtifactStatName::Critical, 39, 3), stat(ArtifactStatName::Critical, 390, 4));
    assert_eq!(stat(ArtifactStatName::Critical, 39, 3), stat(ArtifactStatName::Critical, 3905, 5));
    assert_ne!(stat(ArtifactStatName::Critical, 39, 3), stat(ArtifactStatName::Critical, 40, 3));
    assert_ne!(stat(ArtifactStatName::Critical, 39, 3), stat(ArtifactStatName::CriticalDamage, 39, 3));
}
