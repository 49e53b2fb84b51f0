use yas_scanner_genshin::artifact::ArtifactSlot;
use yas_scanner_genshin::catalog_build::{
    build_artifact_sets, build_characters, catalog_from_genshin_db, CatalogBuildError,
    CatalogImportError, DbEntry,
};

fn entry(key: &str, id: Option<u64>, name: Option<&str>) -> DbEntry {
    DbEntry {
        key: key.to_string(),
        id,
        name: name.map(|n| n.to_string()),
        pieces: [None, None, None, None, None],
    }
}

fn set_entry(key: &str, id: u64, name: &str, flower: &str, circlet: &str) -> DbEntry {
    let mut e = entry(key, Some(id), Some(name));
    e.pieces[0] = Some(Some(flower.to_string()));
    e.pieces[4] = Some(Some(circlet.to_string()));
    e
}

#[test]
fn artifact_sets_are_built_in_id_order_with_good_keys() {
    let zh = vec![
        set_entry("gladiatorsfinale", 15001, "角斗士的终幕礼", "角斗士的留恋", "角斗士的凯旋"),
        set_entry("adaycarved", 15040, "风花之颂", "风花的箴铭", "风花的冠冕"),
        set_entry("adventurer", 10001, "冒险家", "冒险家之花", "冒险家头带"),
    ];
    let en = vec![
        entry("adventurer", None, Some("Adventurer")),
        entry("gladiatorsfinale", None, Some("Gladiator's Finale")),
        entry("adaycarved", None, Some("A Day Carved From Rising Winds")),
    ];
    let sets = build_artifact_sets(&zh, &en).unwrap();
    let ids: Vec<u32> = sets.iter().map(|s| s.id).collect();
    assert_eq!(ids, vec![10001, 15001, 15040]);
    assert_eq!(sets[1].good_key, "GladiatorsFinale");
    assert_eq!(sets[1].name_en, "Gladiator's Finale");
    assert_eq!(sets[2].good_key, "ADayCarvedFromRisingWinds");
    assert_eq!(sets[0].pieces.len(), 2);
    assert_eq!(sets[0].pieces[0].name_zh_cn, "冒险家之花");
    assert_eq!(sets[0].pieces[0].slot, ArtifactSlot::Flower);
    assert_eq!(sets[0].pieces[1].slot, ArtifactSlot::Head);
}

#[test]
fn artifact_set_errors_name_what_is_missing() {
    let zh = vec![set_entry("lost", 15001, "失落", "花", "冠")];
    assert!(matches!(
        build_artifact_sets(&zh, &[]),
        Err(CatalogBuildError::MissingEnglishArtifact(ref key)) if key == "lost"
    ));
    let en = vec![entry("lost", None, Some("Lost"))];
    let mut no_id = set_entry("lost", 15001, "失落", "花", "冠");
    no_id.id = None;
    assert!(matches!(
        build_artifact_sets(&[no_id], &en),
        Err(CatalogBuildError::MissingIntegerField("id"))
    ));
    let too_big = set_entry("lost", 1 << 40, "失落", "花", "冠");
    assert!(matches!(
        build_artifact_sets(&[too_big], &en),
        Err(CatalogBuildError::MissingIntegerField("id"))
    ));
    let mut nameless_piece = set_entry("lost", 15001, "失落", "花", "冠");
    nameless_piece.pieces[2] = Some(None);
    assert!(matches!(
        build_artifact_sets(&[nameless_piece], &en),
        Err(CatalogBuildError::MissingStringField("name"))
    ));
}

#[test]
fn characters_start_with_the_traveler_and_skip_the_twins() {
    let zh = vec![
        entry("durin", Some(10000123), Some("杜林")),
        entry("aether", Some(10000005), Some("空")),
        entry("amber", Some(10000021), Some("安柏")),
        entry("lumine", Some(10000007), Some("荧")),
    ];
    let en = vec![
        entry("amber", None, Some("Amber")),
        entry("durin", None, Some("Durin")),
    ];
    let characters = build_characters(&zh, &en).unwrap();
    let keys: Vec<&str> = characters.iter().map(|c| c.good_key.as_str()).collect();
    assert_eq!(keys, vec!["Traveler", "Amber", "Durin"]);
    assert_eq!(characters[0].aliases_zh_cn, vec!["空".to_string(), "荧".to_string()]);
    assert!(characters[1].aliases_zh_cn.is_empty());
    assert!(matches!(
        build_characters(&[entry("nobody", Some(1), Some("无名"))], &en),
        Err(CatalogBuildError::MissingEnglishCharacter(ref key)) if key == "nobody"
    ));
}

#[test]
fn a_catalog_is_assembled_and_checked() {
    let zh = vec![set_entry("adaycarved", 15040, "风花之颂", "风花的箴铭", "风花的冠冕")];
    let en = vec![entry("adaycarved", None, Some("A Day Carved From Rising Winds"))];
    let czh = vec![entry("durin", Some(10000123), Some("杜林"))];
    let cen = vec![entry("durin", None, Some("Durin"))];
    let catalog = catalog_from_genshin_db(&zh, &en, &czh, &cen, "https://example.invalid/gzips").unwrap();
    assert_eq!(catalog.schema_version, 1);
    assert_eq!(catalog.source.commit, "main");
    assert_eq!(catalog.source.game_version, "latest");
    assert_eq!(catalog.artifact_sets.len(), 1);
    assert_eq!(catalog.characters.len(), 2);
    assert_eq!(catalog.find_piece(&["风花的箴铭"]).unwrap().set_name.good_key(), "ADayCarvedFromRisingWinds");

    let twice = vec![
        set_entry("a", 1, "甲", "同名之花", "甲冠"),
        set_entry("b", 2, "乙", "同名之花", "乙冠"),
    ];
    let twice_en = vec![entry("a", None, Some("A")), entry("b", None, Some("B"))];
    assert!(matches!(
        catalog_from_genshin_db(&twice, &twice_en, &czh, &cen, "x"),
        Err(CatalogImportError::Invalid(_))
    ));
}
