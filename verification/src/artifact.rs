use vstd::prelude::*;

use crate::catalog::{
    character_lookup, piece_lookup, str_views, ArtifactCatalog, ArtifactSetRecord,
    CharacterRecord,
};
use crate::scan::GenshinArtifactScanResult;
use crate::stat::{stat_from_text, ArtifactStat};
use crate::text::{owned, push_str, str_equal};

verus! {

/// The kind of an artifact stat.
#[derive(Debug, Hash, Clone, Copy, PartialEq, Eq, Structural)]
pub enum ArtifactStatName {
    HealingBonus,
    CriticalDamage,
    Critical,
    Atk,
    AtkPercentage,
    ElementalMastery,
    Recharge,
    HpPercentage,
    Hp,
    DefPercentage,
    Def,
    ElectroBonus,
    PyroBonus,
    HydroBonus,
    CryoBonus,
    AnemoBonus,
    GeoBonus,
    PhysicalBonus,
    DendroBonus,
}

/// The slot an artifact piece is worn in.
#[derive(Debug, Hash, Clone, Copy, PartialEq, Eq, Structural)]
pub enum ArtifactSlot {
    Flower,
    Feather,
    Sand,
    Goblet,
    Head,
}

/// An artifact set, as the catalog names it.
#[derive(Debug, Clone)]
pub struct ArtifactSetName {
    id: u32,
    name_zh_cn: String,
    name_en: String,
    good_key: String,
}

/// What an `ArtifactSetName` holds.
pub struct ArtifactSetNameView {
    pub id: u32,
    pub name_zh_cn: Seq<char>,
    pub name_en: Seq<char>,
    pub good_key: Seq<char>,
}

impl View for ArtifactSetName {
    type V = ArtifactSetNameView;

    closed spec fn view(&self) -> ArtifactSetNameView {
        ArtifactSetNameView {
            id: self.id,
            name_zh_cn: self.name_zh_cn@,
            name_en: self.name_en@,
            good_key: self.good_key@,
        }
    }
}

impl ArtifactSetName {
    /// The set name that a catalog record describes.
    pub fn from_record(record: &ArtifactSetRecord) -> (r: Self)
        ensures
            r@ == (ArtifactSetNameView {
                id: record.id,
                name_zh_cn: record.name_zh_cn@,
                name_en: record.name_en@,
                good_key: record.good_key@,
            }),
    {
        Self {
            id: record.id,
            name_zh_cn: owned(record.name_zh_cn.as_str()),
            name_en: owned(record.name_en.as_str()),
            good_key: owned(record.good_key.as_str()),
        }
    }

    pub fn id(&self) -> (r: u32)
        ensures
            r == self@.id,
    {
        self.id
    }

    pub fn name_zh_cn(&self) -> (r: &str)
        ensures
            r@ == self@.name_zh_cn,
    {
        self.name_zh_cn.as_str()
    }

    pub fn name_en(&self) -> (r: &str)
        ensures
            r@ == self@.name_en,
    {
        self.name_en.as_str()
    }

    pub fn good_key(&self) -> (r: &str)
        ensures
            r@ == self@.good_key,
    {
        self.good_key.as_str()
    }
}

/// The character an artifact is equipped on.
#[derive(Debug, Clone)]
pub struct EquippedCharacter {
    id: u32,
    name_zh_cn: String,
    good_key: String,
}

/// What an `EquippedCharacter` holds.
pub struct EquippedCharacterView {
    pub id: u32,
    pub name_zh_cn: Seq<char>,
    pub good_key: Seq<char>,
}

impl View for EquippedCharacter {
    type V = EquippedCharacterView;

    closed spec fn view(&self) -> EquippedCharacterView {
        EquippedCharacterView { id: self.id, name_zh_cn: self.name_zh_cn@, good_key: self.good_key@ }
    }
}

impl EquippedCharacter {
    /// The character that a catalog record describes.
    pub fn from_record(record: &CharacterRecord) -> (r: Self)
        ensures
            r@ == (EquippedCharacterView {
                id: record.id,
                name_zh_cn: record.name_zh_cn@,
                good_key: record.good_key@,
            }),
    {
        Self {
            id: record.id,
            name_zh_cn: owned(record.name_zh_cn.as_str()),
            good_key: owned(record.good_key.as_str()),
        }
    }

    pub fn id(&self) -> (r: u32)
        ensures
            r == self@.id,
    {
        self.id
    }

    pub fn name_zh_cn(&self) -> (r: &str)
        ensures
            r@ == self@.name_zh_cn,
    {
        self.name_zh_cn.as_str()
    }

    pub fn good_key(&self) -> (r: &str)
        ensures
            r@ == self@.good_key,
    {
        self.good_key.as_str()
    }
}

/// The stat kind that a Chinese stat label names; flat and percentage
/// variants of attack, HP and defence are told apart by `is_percentage`.
pub open spec fn stat_name_from_zh_cn(name: Seq<char>, is_percentage: bool) -> Option<ArtifactStatName> {
    if name == "治疗加成"@ {
        Some(ArtifactStatName::HealingBonus)
    } else if name == "暴击伤害"@ {
        Some(ArtifactStatName::CriticalDamage)
    } else if name == "暴击率"@ {
        Some(ArtifactStatName::Critical)
    } else if name == "攻击力"@ {
        Some(if is_percentage { ArtifactStatName::AtkPercentage } else { ArtifactStatName::Atk })
    } else if name == "元素精通"@ {
        Some(ArtifactStatName::ElementalMastery)
    } else if name == "元素充能效率"@ {
        Some(ArtifactStatName::Recharge)
    } else if name == "生命值"@ {
        Some(if is_percentage { ArtifactStatName::HpPercentage } else { ArtifactStatName::Hp })
    } else if name == "防御力"@ {
        Some(if is_percentage { ArtifactStatName::DefPercentage } else { ArtifactStatName::Def })
    } else if name == "雷元素伤害加成"@ {
        Some(ArtifactStatName::ElectroBonus)
    } else if name == "火元素伤害加成"@ {
        Some(ArtifactStatName::PyroBonus)
    } else if name == "水元素伤害加成"@ {
        Some(ArtifactStatName::HydroBonus)
    } else if name == "冰元素伤害加成"@ {
        Some(ArtifactStatName::CryoBonus)
    } else if name == "风元素伤害加成"@ {
        Some(ArtifactStatName::AnemoBonus)
    } else if name == "岩元素伤害加成"@ {
        Some(ArtifactStatName::GeoBonus)
    } else if name == "草元素伤害加成"@ {
        Some(ArtifactStatName::DendroBonus)
    } else if name == "物理伤害加成"@ {
        Some(ArtifactStatName::PhysicalBonus)
    } else {
        None
    }
}

impl ArtifactStatName {
    /// Reads a Chinese stat label.
    pub fn from_zh_cn(name: &str, is_percentage: bool) -> (r: Option<ArtifactStatName>)
        ensures
            r == stat_name_from_zh_cn(name@, is_percentage),
    {
        if str_equal(name, "治疗加成") {
            Some(ArtifactStatName::HealingBonus)
        } else if str_equal(name, "暴击伤害") {
            Some(ArtifactStatName::CriticalDamage)
        } else if str_equal(name, "暴击率") {
            Some(ArtifactStatName::Critical)
        } else if str_equal(name, "攻击力") {
            Some(if is_percentage { ArtifactStatName::AtkPercentage } else { ArtifactStatName::Atk })
        } else if str_equal(name, "元素精通") {
            Some(ArtifactStatName::ElementalMastery)
        } else if str_equal(name, "元素充能效率") {
            Some(ArtifactStatName::Recharge)
        } else if str_equal(name, "生命值") {
            Some(if is_percentage { ArtifactStatName::HpPercentage } else { ArtifactStatName::Hp })
        } else if str_equal(name, "防御力") {
            Some(if is_percentage { ArtifactStatName::DefPercentage } else { ArtifactStatName::Def })
        } else if str_equal(name, "雷元素伤害加成") {
            Some(ArtifactStatName::ElectroBonus)
        } else if str_equal(name, "火元素伤害加成") {
            Some(ArtifactStatName::PyroBonus)
        } else if str_equal(name, "水元素伤害加成") {
            Some(ArtifactStatName::HydroBonus)
        } else if str_equal(name, "冰元素伤害加成") {
            Some(ArtifactStatName::CryoBonus)
        } else if str_equal(name, "风元素伤害加成") {
            Some(ArtifactStatName::AnemoBonus)
        } else if str_equal(name, "岩元素伤害加成") {
            Some(ArtifactStatName::GeoBonus)
        } else if str_equal(name, "草元素伤害加成") {
            Some(ArtifactStatName::DendroBonus)
        } else if str_equal(name, "物理伤害加成") {
            Some(ArtifactStatName::PhysicalBonus)
        } else {
            None
        }
    }
}

/// An artifact read from the game: its set and slot, rarity, lock, level,
/// main stat, the four sub-stat rows, a sub-stat shown but not yet active,
/// and the character wearing it.
#[derive(Debug, Clone)]
pub struct GenshinArtifact {
    pub set_name: ArtifactSetName,
    pub slot: ArtifactSlot,
    pub star: i32,
    pub lock: bool,
    pub level: i32,
    pub main_stat: ArtifactStat,
    pub sub_stat_1: Option<ArtifactStat>,
    pub sub_stat_2: Option<ArtifactStat>,
    pub sub_stat_3: Option<ArtifactStat>,
    pub sub_stat_4: Option<ArtifactStat>,
    pub pending_sub_stat: Option<ArtifactStat>,
    pub equip: Option<EquippedCharacter>,
}

/// What a `GenshinArtifact` holds; the sub-stat rows in order.
pub struct GenshinArtifactView {
    pub set_name: ArtifactSetNameView,
    pub slot: ArtifactSlot,
    pub star: i32,
    pub lock: bool,
    pub level: i32,
    pub main_stat: ArtifactStat,
    pub sub_stats: Seq<Option<ArtifactStat>>,
    pub pending_sub_stat: Option<ArtifactStat>,
    pub equip: Option<EquippedCharacterView>,
}

impl View for GenshinArtifact {
    type V = GenshinArtifactView;

    open spec fn view(&self) -> GenshinArtifactView {
        GenshinArtifactView {
            set_name: self.set_name@,
            slot: self.slot,
            star: self.star,
            lock: self.lock,
            level: self.level,
            main_stat: self.main_stat,
            sub_stats: seq![self.sub_stat_1, self.sub_stat_2, self.sub_stat_3, self.sub_stat_4],
            pending_sub_stat: self.pending_sub_stat,
            equip: match self.equip {
                Some(c) => Some(c@),
                None => None,
            },
        }
    }
}

/// The first sub-stat row shown as not yet active.
pub open spec fn first_inactive(active: Seq<bool>) -> Option<int>
    decreases active.len(),
{
    if active.len() == 0 {
        None
    } else {
        match first_inactive(active.drop_last()) {
            Some(i) => Some(i),
            None => if !active.last() {
                Some(active.len() - 1)
            } else {
                None
            },
        }
    }
}

/// The artifact that a scan describes: the set and slot of the catalog
/// piece its name matches, the main stat read from `name+value`, each
/// sub-stat row read as a stat, the first inactive row moved aside as the
/// pending sub-stat, and the catalog character its equip label names.
/// Refused when the name matches no piece or the main stat cannot be read.
pub open spec fn artifact_from_scan(
    scan: GenshinArtifactScanResult,
    catalog: ArtifactCatalog,
) -> Result<GenshinArtifactView, ()> {
    match piece_lookup(catalog, seq![scan.name@], None) {
        None => Err(()),
        Some(piece) => match stat_from_text(scan.main_stat_name@ + "+"@ + scan.main_stat_value@) {
            None => Err(()),
            Some(main) => {
                let subs = Seq::new(4, |i: int| stat_from_text(scan.sub_stat@[i]@));
                let pending = first_inactive(scan.sub_stat_active@);
                Ok(
                    GenshinArtifactView {
                        set_name: piece.set_name,
                        slot: piece.slot,
                        star: scan.star,
                        lock: scan.lock,
                        level: scan.level,
                        main_stat: main,
                        sub_stats: match pending {
                            Some(k) => subs.update(k, None),
                            None => subs,
                        },
                        pending_sub_stat: match pending {
                            Some(k) => subs[k],
                            None => None,
                        },
                        equip: match character_lookup(catalog, seq![scan.equip@]) {
                            Some(m) => Some(m.character),
                            None => None,
                        },
                    },
                )
            },
        },
    }
}

impl GenshinArtifact {
    /// Builds an artifact from what OCR read (see `artifact_from_scan`).
    pub fn from_scan_result(value: &GenshinArtifactScanResult, catalog: &ArtifactCatalog) -> (r:
        Result<Self, ()>)
        ensures
            match r {
                Ok(a) => artifact_from_scan(*value, *catalog) == Ok::<GenshinArtifactView, ()>(a@),
                Err(_) => artifact_from_scan(*value, *catalog) is Err,
            },
    {
        let names: [&str; 1] = [value.name.as_str()];
        assert(str_views(names@) =~= seq![value.name@]);
        let piece = match catalog.find_piece(&names) {
            Some(p) => p,
            None => return Err(()),
        };
        let mut main_text = value.main_stat_name.clone();
        push_str(&mut main_text, "+");
        push_str(&mut main_text, value.main_stat_value.as_str());
        let main_stat = match ArtifactStat::from_zh_cn_raw(main_text.as_str()) {
            Some(s) => s,
            None => return Err(()),
        };
        let mut s1 = ArtifactStat::from_zh_cn_raw(value.sub_stat[0].as_str());
        let mut s2 = ArtifactStat::from_zh_cn_raw(value.sub_stat[1].as_str());
        let mut s3 = ArtifactStat::from_zh_cn_raw(value.sub_stat[2].as_str());
        let mut s4 = ArtifactStat::from_zh_cn_raw(value.sub_stat[3].as_str());
        let ghost subs = Seq::new(4, |i: int| stat_from_text(value.sub_stat@[i]@));
        assert(subs =~= seq![s1, s2, s3, s4]);
        let active = value.sub_stat_active;
        let ghost act = value.sub_stat_active@;
        proof {
            reveal_with_fuel(first_inactive, 5);
            assert(act.drop_last().drop_last().drop_last().drop_last() =~= Seq::<bool>::empty());
        }
        let pending_sub_stat = if !active[0] {
            let taken = s1;
            s1 = None;
            taken
        } else if !active[1] {
            let taken = s2;
            s2 = None;
            taken
        } else if !active[2] {
            let taken = s3;
            s3 = None;
            taken
        } else if !active[3] {
            let taken = s4;
            s4 = None;
            taken
        } else {
            None
        };
        let equips: [&str; 1] = [value.equip.as_str()];
        assert(str_views(equips@) =~= seq![value.equip@]);
        let equip = match catalog.find_character(&equips) {
            Some(m) => Some(m.character),
            None => None,
        };
        let artifact = GenshinArtifact {
            set_name: piece.set_name,
            slot: piece.slot,
            star: value.star,
            lock: value.lock,
            level: value.level,
            main_stat,
            sub_stat_1: s1,
            sub_stat_2: s2,
            sub_stat_3: s3,
            sub_stat_4: s4,
            pending_sub_stat,
            equip,
        };
        proof {
            let pend = first_inactive(act);
            let want = match pend {
                Some(k) => subs.update(k, None),
                None => subs,
            };
            assert(artifact@.sub_stats =~= want);
        }
        Ok(artifact)
    }
}

} // verus!
