use yas_scanner_genshin::artifact::{ArtifactSlot, GenshinArtifact};
use yas_scanner_genshin::audit::audit_scans;
use yas_scanner_genshin::catalog::{
    ArtifactCatalog, ArtifactPieceRecord, ArtifactSetRecord, CatalogSource, CharacterRecord,
};
use yas_scanner_genshin::formats::{ExportValue, GOODFormat, MingyuLabFormat, MonaFormat};
use yas_scanner_genshin::scan::GenshinArtifactScanResult;

fn set(id: u32, name: &str, key: &str, pieces: &[(&str, ArtifactSlot)]) -> ArtifactSetRecord {
    ArtifactSetRecord {
        id,
        name_zh_cn: name.to_string(),
        name_en: key.to_string(),
        good_key: key.to_string(),
        pieces: pieces
            .iter()
            .map(|(name, slot)| ArtifactPieceRecord { name_zh_cn: name.to_string(), slot: *slot })
            .collect(),
    }
}

fn catalog() -> ArtifactCatalog {
    ArtifactCatalog {
        schema_version: 1,
        source: CatalogSource {
            repository: "local".to_string(),
            commit: "main".to_string(),
            game_version: "latest".to_string(),
        },
        artifact_sets: vec![
            set(15040, "风花之颂", "ADayCarvedFromRisingWinds", &[("风花的箴铭", ArtifactSlot::Flower)]),
            set(10001, "冒险家", "Adventurer", &[("冒险家之花", ArtifactSlot::Flower)]),
            set(15006, "炽烈的炎之魔女", "CrimsonWitchOfFlames", &[("魔女的心之火", ArtifactSlot::Goblet)]),
        ],
        characters: vec![CharacterRecord {
            id: 10000123,
            name_zh_cn: "杜林".to_string(),
            name_en: "Durin".to_string(),
            good_key: "Durin".to_string(),
            aliases_zh_cn: vec![],
        }],
    }
}

fn scan(name: &str, main: &str, value: &str, subs: [&str; 4], equip: &str) -> GenshinArtifactScanResult {
    GenshinArtifactScanResult {
        name: name.to_string(),
        main_stat_name: main.to_string(),
        main_stat_value: value.to_string(),
        sub_stat: subs.map(|s| s.to_string()),
        sub_stat_active: [true; 4],
        equip: equip.to_string(),
        level: 20,
        star: 5,
        lock: false,
    }
}

fn artifact(s: &GenshinArtifactScanResult) -> GenshinArtifact {
    GenshinArtifact::from_scan_result(s, &catalog()).unwrap()
}

#[test]
fn exports_new_sets_and_characters_without_static_tables() {
    let scan = GenshinArtifactScanResult {
        name: "风花的箴铭".to_string(),
        main_stat_name: "生命值".to_string(),
        main_stat_value: "4,780".to_string(),
        sub_stat: [String::new(), String::new(), String::new(), String::new()],
        sub_stat_active: [true; 4],
        equip: "杜林已装备".to_string(),
        level: 20,
        star: 5,
        lock: false,
    };
    let artifact = GenshinArtifact::from_scan_result(&scan, &catalog()).unwrap();
    let output = GOODFormat::new(&[artifact]);
    assert_eq!(output.artifacts[0].set_key, "ADayCarvedFromRisingWinds");
    assert_eq!(output.artifacts[0].location, "Durin");
}

#[test]
fn good_records_write_fractions_in_percent_points() {
    let a = artifact(&scan("风花的箴铭", "攻击力", "46.6%", ["暴击率+3.9%", "攻击力+18", "", "元素充能效率+5.2%"], ""));
    let good = GOODFormat::new(&[a]);
    assert_eq!(good.format, "GOOD");
    assert_eq!(good.version, 1);
    assert_eq!(good.source, "yas");
    let record = &good.artifacts[0];
    assert_eq!(record.slot_key, "flower");
    assert_eq!(record.main_stat_key, "atk_");
    assert_eq!(record.location, "");
    assert_eq!(record.rarity, 5);
    assert_eq!(record.substats.len(), 3);
    assert_eq!(record.substats[0].key, "critRate_");
    assert_eq!(record.substats[0].value, ExportValue { negative: false, mantissa: 39, scale: 1 });
    assert_eq!(record.substats[1].key, "atk");
    assert_eq!(record.substats[1].value, ExportValue { negative: false, mantissa: 18, scale: 0 });
    assert_eq!(record.substats[2].key, "enerRech_");
    assert_eq!(record.substats[2].value, ExportValue { negative: false, mantissa: 52, scale: 1 });
}

#[test]
fn mingyu_lab_skips_starter_sets_and_fills_empty_rows() {
    let kept = artifact(&scan("风花的箴铭", "生命值", "4,780", ["暴击率+3.9%", "", "", ""], ""));
    let skipped = artifact(&scan("冒险家之花", "生命值", "4,780", ["", "", "", ""], ""));
    let mingyu = MingyuLabFormat::new(&[skipped, kept]);
    assert_eq!(mingyu.artifacts.len(), 1);
    let record = &mingyu.artifacts[0];
    assert_eq!(record.as_key, "a_day_carved_from_rising_winds");
    assert_eq!(record.slot, "flower");
    assert_eq!(record.main_stat, "flatHP");
    assert_eq!(record.sub_stats.len(), 4);
    assert_eq!(record.sub_stats[0].key, "critRate");
    assert_eq!(record.sub_stats[0].value, ExportValue { negative: false, mantissa: 39, scale: 1 });
    assert_eq!(record.sub_stats[1].key, "flatATK");
    assert_eq!(record.sub_stats[1].value, ExportValue { negative: false, mantissa: 0, scale: 0 });
}

#[test]
fn mona_groups_artifacts_by_slot() {
    let flower = artifact(&scan("风花的箴铭", "生命值", "4,780", ["暴击率+3.9%", "", "", ""], "杜林已装备"));
    let cup = artifact(&scan("魔女的心之火", "火元素伤害加成", "46.6%", ["", "", "", ""], ""));
    let mona = MonaFormat::new(&[cup, flower]);
    assert_eq!(mona.version, "1");
    assert_eq!(mona.flower.len(), 1);
    assert_eq!(mona.cup.len(), 1);
    assert!(mona.feather.is_empty() && mona.sand.is_empty() && mona.head.is_empty());
    assert_eq!(mona.flower[0].set_name, "ADayCarvedFromRisingWinds");
    assert_eq!(mona.flower[0].position, "flower");
    assert_eq!(mona.flower[0].main_tag.name, "lifeStatic");
    assert_eq!(mona.flower[0].normal_tags.len(), 1);
    assert_eq!(mona.flower[0].normal_tags[0].name, "critical");
    assert_eq!(mona.flower[0].equip.as_deref(), Some("杜林"));
    assert_eq!(mona.cup[0].set_name, "crimsonWitch");
    assert_eq!(mona.cup[0].position, "cup");
    assert_eq!(mona.cup[0].main_tag.name, "fireBonus");
    assert!(!mona.cup[0].omit);
}

#[test]
fn audit_counts_duplicates_pending_rows_and_unresolved_scans() {
    let mut first = scan("风花的箴铭", "生命值", "4,780", ["暴击率+3.9%", "乱码", "", ""], "");
    first.sub_stat_active = [true, true, true, false];
    let mut again = first.clone();
    again.lock = true;
    let unknown = scan("未知之物", "生命值", "4,780", ["", "", "", ""], "");
    let audit = audit_scans(&[first, again, unknown], &catalog());
    assert_eq!(audit.duplicate_panel_indices, vec![2]);
    assert_eq!(audit.pending_count, 2);
    assert_eq!(
        audit.malformed_substats,
        vec![
            "item 1 substat 2: `乱码`".to_string(),
            "item 2 substat 2: `乱码`".to_string()
        ]
    );
    assert_eq!(audit.artifacts.len(), 2);
    assert_eq!(audit.unresolved, vec![3]);
}
