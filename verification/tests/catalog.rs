use yas_scanner_genshin::artifact::ArtifactSlot;
use yas_scanner_genshin::catalog::{
    pascal_key, ArtifactCatalog, ArtifactPieceRecord, ArtifactSetRecord, CatalogError,
    CatalogSource, CharacterRecord,
};
use yas_scanner_genshin::edit::char_edit_distance;

#[test]
fn pascal_key_matches_good_conventions() {
    assert_eq!(pascal_key("Gladiator's Finale"), "GladiatorsFinale");
    assert_eq!(
        pascal_key("Night of the Sky's Unveiling"),
        "NightOfTheSkysUnveiling"
    );
}

fn piece(name: &str, slot: ArtifactSlot) -> ArtifactPieceRecord {
    ArtifactPieceRecord {
        name_zh_cn: name.to_string(),
        slot,
    }
}

fn set(id: u32, name: &str, key: &str, pieces: Vec<ArtifactPieceRecord>) -> ArtifactSetRecord {
    ArtifactSetRecord {
        id,
        name_zh_cn: name.to_string(),
        name_en: key.to_string(),
        good_key: key.to_string(),
        pieces,
    }
}

fn character(id: u32, name: &str, key: &str, aliases: &[&str]) -> CharacterRecord {
    CharacterRecord {
        id,
        name_zh_cn: name.to_string(),
        name_en: key.to_string(),
        good_key: key.to_string(),
        aliases_zh_cn: aliases.iter().map(|a| a.to_string()).collect(),
    }
}

fn small_catalog() -> ArtifactCatalog {
    ArtifactCatalog {
        schema_version: 1,
        source: CatalogSource {
            repository: "local".to_string(),
            commit: "main".to_string(),
            game_version: "latest".to_string(),
        },
        artifact_sets: vec![
            set(
                15001,
                "风花之颂",
                "ADayCarvedFromRisingWinds",
                vec![
                    piece("风花的箴铭", ArtifactSlot::Flower),
                    piece("天授之殁", ArtifactSlot::Feather),
                ],
            ),
            set(
                15002,
                "月色",
                "MoonlitSet",
                vec![
                    piece("献与月的酹祭", ArtifactSlot::Goblet),
                    piece("天授之冠", ArtifactSlot::Head),
                ],
            ),
        ],
        characters: vec![
            character(0, "旅行者", "Traveler", &["空", "荧"]),
            character(10000123, "杜林", "Durin", &[]),
        ],
    }
}

#[test]
fn edit_distance_counts_single_character_edits() {
    let a: Vec<char> = "kitten".chars().collect();
    let b: Vec<char> = "sitting".chars().collect();
    assert_eq!(char_edit_distance(&a, &b), 3);
    assert_eq!(char_edit_distance(&[], &b), 7);
    assert_eq!(char_edit_distance(&a, &[]), 6);
    assert_eq!(char_edit_distance(&a, &a), 0);
}

#[test]
fn piece_lookup_tolerates_one_missing_character() {
    let catalog = small_catalog();
    let matched = catalog.find_piece(&["献与月的祭"]).unwrap();
    assert_eq!(matched.piece_name_zh_cn, "献与月的酹祭");
    assert_eq!(matched.distance, 1);
    assert_eq!(matched.set_name.good_key(), "MoonlitSet");
    assert_eq!(matched.slot, ArtifactSlot::Goblet);
}

#[test]
fn piece_lookup_refuses_ambiguous_prefixes_without_a_slot() {
    let catalog = small_catalog();
    assert!(catalog.find_piece(&["天授之"]).is_none());
    let matched = catalog
        .find_piece_in_slot(&["天授之"], &ArtifactSlot::Feather)
        .unwrap();
    assert_eq!(matched.piece_name_zh_cn, "天授之殁");
}

#[test]
fn piece_lookup_ignores_punctuation_and_blank_candidates() {
    let catalog = small_catalog();
    let matched = catalog.find_piece(&["", "· 风花的箴铭 ·"]).unwrap();
    assert_eq!(matched.distance, 0);
    assert_eq!(matched.set_name.id(), 15001);
    assert!(catalog.find_piece(&[]).is_none());
    assert!(catalog.find_piece(&["???"]).is_none());
}

#[test]
fn character_lookup_matches_equip_labels_and_aliases() {
    let catalog = small_catalog();
    let matched = catalog.find_character(&["杜林已装备"]).unwrap();
    assert_eq!(matched.character.good_key(), "Durin");
    assert_eq!(matched.distance, 0);
    let traveler = catalog.find_character(&["荧已装备"]).unwrap();
    assert_eq!(traveler.character.good_key(), "Traveler");
    assert!(catalog.find_character(&["完全不同的文字"]).is_none());
}

#[test]
fn validation_reports_the_first_fault() {
    let mut catalog = small_catalog();
    assert!(catalog.validate().is_ok());
    catalog.schema_version = 2;
    assert!(matches!(
        catalog.validate(),
        Err(CatalogError::UnsupportedSchema(2))
    ));
    let mut catalog = small_catalog();
    catalog.characters.clear();
    assert!(matches!(catalog.validate(), Err(CatalogError::Empty)));
    let mut catalog = small_catalog();
    catalog.artifact_sets[1].id = 15001;
    assert!(matches!(
        catalog.validate(),
        Err(CatalogError::DuplicateSetId(15001))
    ));
    let mut catalog = small_catalog();
    catalog.artifact_sets[1].good_key = "Bad Key".to_string();
    assert!(matches!(
        catalog.validate(),
        Err(CatalogError::InvalidGoodKey(ref key)) if key == "Bad Key"
    ));
    let mut catalog = small_catalog();
    catalog.artifact_sets[1].pieces[1].name_zh_cn = "天授之殁".to_string();
    assert!(matches!(
        catalog.validate(),
        Err(CatalogError::DuplicatePiece(ref name)) if name == "天授之殁"
    ));
}

#[test]
fn catalog_recovers_one_missing_rare_character() {
    let catalog = small_catalog();
    let matched = catalog.find_piece(&["献与月的祭"]).unwrap();
    assert_eq!(matched.piece_name_zh_cn, "献与月的酹祭");
    assert_eq!(matched.distance, 1);
}

#[test]
fn slot_constraint_disambiguates_shared_piece_prefix() {
    let catalog = small_catalog();
    let matched = catalog
        .find_piece_in_slot(&["天授之"], &ArtifactSlot::Feather)
        .unwrap();
    assert_eq!(matched.piece_name_zh_cn, "天授之殁");
}

#[test]
fn catalog_matches_equipped_character_text() {
    let catalog = small_catalog();
    let matched = catalog.find_character(&["杜林已装备"]).unwrap();
    assert_eq!(matched.character.good_key(), "Durin");
}

#[test]
fn every_exact_piece_name_finds_its_own_piece() {
    let catalog = small_catalog();
    for set in &catalog.artifact_sets {
        for piece in &set.pieces {
            let matched = catalog.find_piece(&[piece.name_zh_cn.as_str()]).unwrap();
            assert_eq!(matched.distance, 0);
            assert_eq!(matched.piece_name_zh_cn, piece.name_zh_cn);
            assert_eq!(matched.slot, piece.slot);
            assert_eq!(matched.set_name.id(), set.id);
        }
    }
}

#[test]
fn built_good_keys_hold_only_ascii_letters_and_digits() {
    for name in ["Gladiator's Finale", "Night of the Sky’s Unveiling", "Vourukasha's Glow", "A-1 b.2"] {
        let key = pascal_key(name);
        assert!(!key.is_empty());
        assert!(key.chars().all(|c| c.is_ascii_alphanumeric()));
    }
    assert_eq!(pascal_key("A-1 b.2"), "A1B2");
    assert_eq!(pascal_key("—·—"), "");
}

#[test]
fn piece_lookup_ignores_candidate_order_repeats_and_blanks() {
    let catalog = small_catalog();
    let lists: [&[&str]; 3] = [&["天授之殁", "献与月的祭"], &["献与月的祭", "天授之殁"], &["", "天授之殁", "...", "献与月的祭", "天授之殁"]];
    let found: Vec<_> = lists
        .iter()
        .map(|list| {
            catalog
                .find_piece(list)
                .map(|m| (m.set_name.id(), m.slot, m.piece_name_zh_cn, m.distance))
        })
        .collect();
    assert!(found[0].is_some());
    assert_eq!(found[0], found[1]);
    assert_eq!(found[0], found[2]);
    assert!(catalog.find_piece(&["", " ", "·"]).is_none());
}

#[test]
fn a_whole_catalog_match_is_found_again_in_its_own_slot() {
    let catalog = small_catalog();
    for list in [&["献与月的祭"][..], &["风花的箴铭"][..], &["天授之冠"][..]] {
        let whole = catalog.find_piece(list).unwrap();
        let in_slot = catalog.find_piece_in_slot(list, &whole.slot).unwrap();
        assert_eq!(in_slot.slot, whole.slot);
        assert_eq!(in_slot.set_name.id(), whole.set_name.id());
        assert_eq!(in_slot.piece_name_zh_cn, whole.piece_name_zh_cn);
        assert_eq!(in_slot.distance, whole.distance);
    }
    let feather = catalog.find_piece_in_slot(&["天授之"], &ArtifactSlot::Feather).unwrap();
    assert_eq!(feather.slot, ArtifactSlot::Feather);
}

#[test]
fn a_good_key_is_its_own_key() {
    for name in ["Gladiator's Finale", "night of the sky’s unveiling", "A-1 b.2", "—·—", "x"] {
        let key = pascal_key(name);
        assert_eq!(pascal_key(&key), key);
        assert!(key.chars().all(|c| c.is_ascii_alphanumeric()));
    }
    assert_eq!(pascal_key("—·— ' ’"), "");
    assert_eq!(pascal_key("A-1 b.2"), "A1B2");
}

#[test]
fn edit_distance_is_the_same_either_way() {
    let pairs: [(&str, &str); 4] = [("kitten", "sitting"), ("角斗士", "角斗士的终幕礼"), ("", "abc"), ("流放者", "流放者")];
    for (left, right) in pairs {
        let a: Vec<char> = left.chars().collect();
        let b: Vec<char> = right.chars().collect();
        let d = char_edit_distance(&a, &b);
        assert_eq!(d, char_edit_distance(&b, &a));
        assert_eq!(d == 0, left == right);
        assert!(d <= a.len().max(b.len()));
    }
    assert_eq!(char_edit_distance(&['k', 'i', 't'], &['s', 'i', 't', 's']), 2);
}

#[test]
fn lookups_agree_on_a_catalog_that_repeats_a_piece_name() {
    let mut catalog = small_catalog();
    catalog.artifact_sets[0].pieces.push(piece("天授之殁", ArtifactSlot::Sand));
    let lists: [&[&str]; 3] = [&["天授之殁x", "天授殁"], &["天授殁", "天授之殁x"], &["·", "天授殁", "天授之殁x", ""]];
    let found: Vec<_> = lists
        .iter()
        .map(|list| {
            catalog
                .find_piece(list)
                .map(|m| (m.set_name.id(), m.slot, m.piece_name_zh_cn, m.distance))
        })
        .collect();
    assert_eq!(found[0], Some((15001, ArtifactSlot::Feather, "天授之殁".to_string(), 1)));
    assert_eq!(found[0], found[1]);
    assert_eq!(found[0], found[2]);
    let in_slot = catalog.find_piece_in_slot(lists[0], &ArtifactSlot::Feather).unwrap();
    assert_eq!(in_slot.piece_name_zh_cn, "天授之殁");
    assert_eq!(in_slot.distance, 1);
    let sand = catalog.find_piece_in_slot(lists[0], &ArtifactSlot::Sand).unwrap();
    assert_eq!(sand.slot, ArtifactSlot::Sand);
}
