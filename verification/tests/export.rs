use yas_scanner_genshin::artifact::{ArtifactSetName, ArtifactSlot, ArtifactStatName};
use yas_scanner_genshin::catalog::{
    ArtifactCatalog, ArtifactPieceRecord, ArtifactSetRecord, CatalogSource,
};
use yas_scanner_genshin::export::camel_to_snake;

fn set(id: u32, key: &str, pieces: &[(&str, ArtifactSlot)]) -> ArtifactSetRecord {
    ArtifactSetRecord {
        id,
        name_zh_cn: format!("set {id}"),
        name_en: key.to_string(),
        good_key: key.to_string(),
        pieces: pieces
            .iter()
            .map(|(name, slot)| ArtifactPieceRecord {
                name_zh_cn: name.to_string(),
                slot: *slot,
            })
            .collect(),
    }
}

fn legacy_catalog() -> ArtifactCatalog {
    ArtifactCatalog {
        schema_version: 1,
        source: CatalogSource {
            repository: "local".to_string(),
            commit: "main".to_string(),
            game_version: "latest".to_string(),
        },
        artifact_sets: vec![
            set(15006, "CrimsonWitchOfFlames", &[("魔女的炎之花", ArtifactSlot::Flower)]),
            set(15005, "Thundersoother", &[("平雷之心", ArtifactSlot::Flower)]),
            set(15009, "PrayersForDestiny", &[("祭水礼冠", ArtifactSlot::Head)]),
            set(15026, "FlowerOfParadiseLost", &[("月女的华彩", ArtifactSlot::Flower)]),
            set(15001, "GladiatorsFinale", &[("角斗士的留恋", ArtifactSlot::Flower)]),
            set(15003, "BloodstainedChivalry", &[("染血的铁之心", ArtifactSlot::Flower)]),
            set(15040, "ADayCarvedFromRisingWinds", &[("风花的箴铭", ArtifactSlot::Flower)]),
        ],
        characters: vec![],
    }
}

fn set_name(catalog: &ArtifactCatalog, piece: &str) -> ArtifactSetName {
    catalog.find_piece(&[piece]).unwrap().set_name
}

#[test]
fn preserves_legacy_mingyu_set_aliases() {
    let catalog = legacy_catalog();
    assert_eq!(
        catalog
            .find_piece(&["祭水礼冠"])
            .unwrap()
            .set_name
            .to_mingyu_lab(),
        "prayers_of_destiny"
    );
    assert_eq!(
        catalog
            .find_piece(&["月女的华彩"])
            .unwrap()
            .set_name
            .to_mingyu_lab(),
        "flower_of_paradise_list"
    );
}

#[test]
fn preserves_legacy_mona_set_aliases() {
    let catalog = legacy_catalog();
    assert_eq!(
        catalog
            .find_piece(&["魔女的炎之花"])
            .unwrap()
            .set_name
            .to_mona(),
        "crimsonWitch"
    );
    assert_eq!(
        catalog
            .find_piece(&["平雷之心"])
            .unwrap()
            .set_name
            .to_mona(),
        "thunderSmoother"
    );
}

#[test]
fn other_sets_derive_their_keys_from_the_good_key() {
    let catalog = legacy_catalog();
    let chivalry = set_name(&catalog, "染血的铁之心");
    assert_eq!(chivalry.to_mingyu_lab(), "bloodstained_chivalry");
    assert_eq!(chivalry.to_mona(), "bloodstainedChivalry");
    let winds = set_name(&catalog, "风花的箴铭");
    assert_eq!(winds.to_mingyu_lab(), "a_day_carved_from_rising_winds");
    assert_eq!(winds.to_mona(), "ADayCarvedFromRisingWinds");
    let gladiator = set_name(&catalog, "角斗士的留恋");
    assert_eq!(gladiator.to_mona(), "gladiatorFinale");
    assert_eq!(gladiator.to_mingyu_lab(), "gladiators_finale");
}

#[test]
fn camel_to_snake_splits_before_capitals() {
    assert_eq!(camel_to_snake("EmblemOfSeveredFate"), "emblem_of_severed_fate");
    assert_eq!(camel_to_snake("ABC"), "a_b_c");
    assert_eq!(camel_to_snake(""), "");
    assert_eq!(camel_to_snake("lower"), "lower");
}

#[test]
fn stat_and_slot_keys_per_format() {
    assert_eq!(ArtifactStatName::CriticalDamage.to_good(), "critDMG_");
    assert_eq!(ArtifactStatName::Atk.to_good(), "atk");
    assert_eq!(ArtifactStatName::AtkPercentage.to_good(), "atk_");
    assert_eq!(ArtifactStatName::DendroBonus.to_mingyu_lab(), "dendroDamage");
    assert_eq!(ArtifactStatName::Hp.to_mingyu_lab(), "flatHP");
    assert_eq!(ArtifactStatName::ElectroBonus.to_mona(), "thunderBonus");
    assert_eq!(ArtifactStatName::HealingBonus.to_mona(), "cureEffect");
    assert_eq!(ArtifactSlot::Sand.to_good(), "sands");
    assert_eq!(ArtifactSlot::Sand.to_mingyu_lab(), "eon");
    assert_eq!(ArtifactSlot::Goblet.to_mona(), "cup");
    assert_eq!(ArtifactSlot::Feather.to_good(), "plume");
    assert_eq!(ArtifactSlot::Feather.to_mona(), "feather");
    assert_eq!(ArtifactSlot::Head.to_good(), "circlet");
}
