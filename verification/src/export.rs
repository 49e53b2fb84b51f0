use vstd::prelude::*;

use crate::artifact::{ArtifactSetName, ArtifactSetNameView, ArtifactSlot, ArtifactStatName};
use crate::text::{
    ascii_upper, chars_of, is_ascii_upper, lowercase, push_char, str_equal, string_from_chars,
    unicode_lowercase,
};

verus! {

broadcast use vstd::string::group_string_axioms;

/// The GOOD key of a stat kind.
pub open spec fn stat_good_key(name: ArtifactStatName) -> Seq<char> {
    match name {
        ArtifactStatName::HealingBonus => "heal_"@,
        ArtifactStatName::CriticalDamage => "critDMG_"@,
        ArtifactStatName::Critical => "critRate_"@,
        ArtifactStatName::Atk => "atk"@,
        ArtifactStatName::AtkPercentage => "atk_"@,
        ArtifactStatName::ElementalMastery => "eleMas"@,
        ArtifactStatName::Recharge => "enerRech_"@,
        ArtifactStatName::HpPercentage => "hp_"@,
        ArtifactStatName::Hp => "hp"@,
        ArtifactStatName::DefPercentage => "def_"@,
        ArtifactStatName::Def => "def"@,
        ArtifactStatName::ElectroBonus => "electro_dmg_"@,
        ArtifactStatName::PyroBonus => "pyro_dmg_"@,
        ArtifactStatName::HydroBonus => "hydro_dmg_"@,
        ArtifactStatName::CryoBonus => "cryo_dmg_"@,
        ArtifactStatName::AnemoBonus => "anemo_dmg_"@,
        ArtifactStatName::GeoBonus => "geo_dmg_"@,
        ArtifactStatName::PhysicalBonus => "physical_dmg_"@,
        ArtifactStatName::DendroBonus => "dendro_dmg_"@,
    }
}

/// The GOOD key of a slot.
pub open spec fn slot_good_key(slot: ArtifactSlot) -> Seq<char> {
    match slot {
        ArtifactSlot::Flower => "flower"@,
        ArtifactSlot::Feather => "plume"@,
        ArtifactSlot::Sand => "sands"@,
        ArtifactSlot::Goblet => "goblet"@,
        ArtifactSlot::Head => "circlet"@,
    }
}

/// The Mingyu Lab key of a stat kind.
pub open spec fn stat_mingyu_key(name: ArtifactStatName) -> Seq<char> {
    match name {
        ArtifactStatName::HealingBonus => "healing"@,
        ArtifactStatName::CriticalDamage => "critDamage"@,
        ArtifactStatName::Critical => "critRate"@,
        ArtifactStatName::Atk => "flatATK"@,
        ArtifactStatName::AtkPercentage => "percentATK"@,
        ArtifactStatName::ElementalMastery => "elementalMastery"@,
        ArtifactStatName::Recharge => "energyRecharge"@,
        ArtifactStatName::HpPercentage => "percentHP"@,
        ArtifactStatName::Hp => "flatHP"@,
        ArtifactStatName::DefPercentage => "percentDEF"@,
        ArtifactStatName::Def => "flatDEF"@,
        ArtifactStatName::ElectroBonus => "electroDamage"@,
        ArtifactStatName::PyroBonus => "pyroDamage"@,
        ArtifactStatName::HydroBonus => "hydroDamage"@,
        ArtifactStatName::CryoBonus => "cryoDamage"@,
        ArtifactStatName::AnemoBonus => "anemoDamage"@,
        ArtifactStatName::GeoBonus => "geoDamage"@,
        ArtifactStatName::PhysicalBonus => "physicalDamage"@,
        ArtifactStatName::DendroBonus => "dendroDamage"@,
    }
}

/// The Mingyu Lab key of a slot.
pub open spec fn slot_mingyu_key(slot: ArtifactSlot) -> Seq<char> {
    match slot {
        ArtifactSlot::Flower => "flower"@,
        ArtifactSlot::Feather => "plume"@,
        ArtifactSlot::Sand => "eon"@,
        ArtifactSlot::Goblet => "goblet"@,
        ArtifactSlot::Head => "circlet"@,
    }
}

/// The Mona key of a stat kind.
pub open spec fn stat_mona_key(name: ArtifactStatName) -> Seq<char> {
    match name {
        ArtifactStatName::HealingBonus => "cureEffect"@,
        ArtifactStatName::CriticalDamage => "criticalDamage"@,
        ArtifactStatName::Critical => "critical"@,
        ArtifactStatName::Atk => "attackStatic"@,
        ArtifactStatName::AtkPercentage => "attackPercentage"@,
        ArtifactStatName::ElementalMastery => "elementalMastery"@,
        ArtifactStatName::Recharge => "recharge"@,
        ArtifactStatName::HpPercentage => "lifePercentage"@,
        ArtifactStatName::Hp => "lifeStatic"@,
        ArtifactStatName::DefPercentage => "defendPercentage"@,
        ArtifactStatName::Def => "defendStatic"@,
        ArtifactStatName::ElectroBonus => "thunderBonus"@,
        ArtifactStatName::PyroBonus => "fireBonus"@,
        ArtifactStatName::HydroBonus => "waterBonus"@,
        ArtifactStatName::CryoBonus => "iceBonus"@,
        ArtifactStatName::AnemoBonus => "windBonus"@,
        ArtifactStatName::GeoBonus => "rockBonus"@,
        ArtifactStatName::PhysicalBonus => "physicalBonus"@,
        ArtifactStatName::DendroBonus => "dendroBonus"@,
    }
}

/// The Mona key of a slot.
pub open spec fn slot_mona_key(slot: ArtifactSlot) -> Seq<char> {
    match slot {
        ArtifactSlot::Flower => "flower"@,
        ArtifactSlot::Feather => "feather"@,
        ArtifactSlot::Sand => "sand"@,
        ArtifactSlot::Goblet => "cup"@,
        ArtifactSlot::Head => "head"@,
    }
}

/// A PascalCase key in snake case: an underscore before every ASCII capital
/// but the first character, and every character lower-cased.
pub open spec fn snake_case(s: Seq<char>) -> Seq<char>
    decreases s.len(),
{
    if s.len() == 0 {
        seq![]
    } else {
        let c = s.last();
        let sep: Seq<char> = if s.len() > 1 && is_ascii_upper(c) { seq!['_'] } else { seq![] };
        snake_case(s.drop_last()) + sep + unicode_lowercase(c)
    }
}

/// The Mingyu Lab key of a set: a few legacy names, else the GOOD key in
/// snake case.
pub open spec fn set_mingyu_key(good_key: Seq<char>) -> Seq<char> {
    if good_key == "BlizzardStrayer"@ {
        "blizzard_walker"@
    } else if good_key == "EmblemOfSeveredFate"@ {
        "seal_of_insulation"@
    } else if good_key == "ShimenawasReminiscence"@ {
        "reminiscence_of_shime"@
    } else if good_key == "OceanHuedClam"@ {
        "divine_chorus"@
    } else if good_key == "MarechausseeHunter"@ {
        "hunter"@
    } else if good_key == "FlowerOfParadiseLost"@ {
        "flower_of_paradise_list"@
    } else if good_key == "PrayersForDestiny"@ {
        "prayers_of_destiny"@
    } else if good_key == "PrayersForIllumination"@ {
        "prayers_of_illumination"@
    } else if good_key == "PrayersForWisdom"@ {
        "prayers_of_wisdom"@
    } else if good_key == "PrayersToSpringtime"@ {
        "prayers_of_springtime"@
    } else {
        snake_case(good_key)
    }
}

/// The highest set id whose Mona key is its GOOD key with a lower-case head.
pub const MONA_CAMEL_CASE_LAST_ID: u32 = 15022;

/// The GOOD key with its first character lower-cased.
pub open spec fn lower_head(key: Seq<char>) -> Seq<char> {
    if key.len() == 0 {
        seq![]
    } else {
        unicode_lowercase(key[0]) + key.drop_first()
    }
}

/// The Mona key of a set: a few legacy names; for sets up to
/// `MONA_CAMEL_CASE_LAST_ID` the GOOD key with a lower-case head; for later
/// sets the GOOD key itself.
pub open spec fn set_mona_key(set: ArtifactSetNameView) -> Seq<char> {
    let key = set.good_key;
    if key == "GladiatorsFinale"@ {
        "gladiatorFinale"@
    } else if key == "Lavawalker"@ {
        "lavaWalker"@
    } else if key == "WanderersTroupe"@ {
        "wandererTroupe"@
    } else if key == "DefendersWill"@ {
        "defenderWill"@
    } else if key == "TheExile"@ {
        "exile"@
    } else if key == "ShimenawasReminiscence"@ {
        "shimenawaReminiscence"@
    } else if key == "CrimsonWitchOfFlames"@ {
        "crimsonWitch"@
    } else if key == "Thundersoother"@ {
        "thunderSmoother"@
    } else if set.id <= MONA_CAMEL_CASE_LAST_ID {
        lower_head(key)
    } else {
        key
    }
}

impl ArtifactStatName {
    /// The stat's key in the GOOD format.
    pub fn to_good(&self) -> (r: &'static str)
        ensures
            r@ == stat_good_key(*self),
    {
        match self {
            ArtifactStatName::HealingBonus => "heal_",
            ArtifactStatName::CriticalDamage => "critDMG_",
            ArtifactStatName::Critical => "critRate_",
            ArtifactStatName::Atk => "atk",
            ArtifactStatName::AtkPercentage => "atk_",
            ArtifactStatName::ElementalMastery => "eleMas",
            ArtifactStatName::Recharge => "enerRech_",
            ArtifactStatName::HpPercentage => "hp_",
            ArtifactStatName::Hp => "hp",
            ArtifactStatName::DefPercentage => "def_",
            ArtifactStatName::Def => "def",
            ArtifactStatName::ElectroBonus => "electro_dmg_",
            ArtifactStatName::PyroBonus => "pyro_dmg_",
            ArtifactStatName::HydroBonus => "hydro_dmg_",
            ArtifactStatName::CryoBonus => "cryo_dmg_",
            ArtifactStatName::AnemoBonus => "anemo_dmg_",
            ArtifactStatName::GeoBonus => "geo_dmg_",
            ArtifactStatName::PhysicalBonus => "physical_dmg_",
            ArtifactStatName::DendroBonus => "dendro_dmg_",
        }
    }

    /// The stat's key in the Mingyu Lab format.
    pub fn to_mingyu_lab(&self) -> (r: &'static str)
        ensures
            r@ == stat_mingyu_key(*self),
    {
        match self {
            ArtifactStatName::HealingBonus => "healing",
            ArtifactStatName::CriticalDamage => "critDamage",
            ArtifactStatName::Critical => "critRate",
            ArtifactStatName::Atk => "flatATK",
            ArtifactStatName::AtkPercentage => "percentATK",
            ArtifactStatName::ElementalMastery => "elementalMastery",
            ArtifactStatName::Recharge => "energyRecharge",
            ArtifactStatName::HpPercentage => "percentHP",
            ArtifactStatName::Hp => "flatHP",
            ArtifactStatName::DefPercentage => "percentDEF",
            ArtifactStatName::Def => "flatDEF",
            ArtifactStatName::ElectroBonus => "electroDamage",
            ArtifactStatName::PyroBonus => "pyroDamage",
            ArtifactStatName::HydroBonus => "hydroDamage",
            ArtifactStatName::CryoBonus => "cryoDamage",
            ArtifactStatName::AnemoBonus => "anemoDamage",
            ArtifactStatName::GeoBonus => "geoDamage",
            ArtifactStatName::PhysicalBonus => "physicalDamage",
            ArtifactStatName::DendroBonus => "dendroDamage",
        }
    }

    /// The stat's key in the Mona format.
    pub fn to_mona(&self) -> (r: String)
        ensures
            r@ == stat_mona_key(*self),
    {
        let key = match self {
            ArtifactStatName::HealingBonus => "cureEffect",
            ArtifactStatName::CriticalDamage => "criticalDamage",
            ArtifactStatName::Critical => "critical",
            ArtifactStatName::Atk => "attackStatic",
            ArtifactStatName::AtkPercentage => "attackPercentage",
            ArtifactStatName::ElementalMastery => "elementalMastery",
            ArtifactStatName::Recharge => "recharge",
            ArtifactStatName::HpPercentage => "lifePercentage",
            ArtifactStatName::Hp => "lifeStatic",
            ArtifactStatName::DefPercentage => "defendPercentage",
            ArtifactStatName::Def => "defendStatic",
            ArtifactStatName::ElectroBonus => "thunderBonus",
            ArtifactStatName::PyroBonus => "fireBonus",
            ArtifactStatName::HydroBonus => "waterBonus",
            ArtifactStatName::CryoBonus => "iceBonus",
            ArtifactStatName::AnemoBonus => "windBonus",
            ArtifactStatName::GeoBonus => "rockBonus",
            ArtifactStatName::PhysicalBonus => "physicalBonus",
            ArtifactStatName::DendroBonus => "dendroBonus",
        };
        key.to_owned()
    }
}

impl ArtifactSlot {
    /// The slot's key in the GOOD format.
    pub fn to_good(&self) -> (r: &'static str)
        ensures
            r@ == slot_good_key(*self),
    {
        match self {
            ArtifactSlot::Flower => "flower",
            ArtifactSlot::Feather => "plume",
            ArtifactSlot::Sand => "sands",
            ArtifactSlot::Goblet => "goblet",
            ArtifactSlot::Head => "circlet",
        }
    }

    /// The slot's key in the Mingyu Lab format.
    pub fn to_mingyu_lab(&self) -> (r: &'static str)
        ensures
            r@ == slot_mingyu_key(*self),
    {
        match self {
            ArtifactSlot::Flower => "flower",
            ArtifactSlot::Feather => "plume",
            ArtifactSlot::Sand => "eon",
            ArtifactSlot::Goblet => "goblet",
            ArtifactSlot::Head => "circlet",
        }
    }

    /// The slot's key in the Mona format.
    pub fn to_mona(&self) -> (r: String)
        ensures
            r@ == slot_mona_key(*self),
    {
        let key = match self {
            ArtifactSlot::Flower => "flower",
            ArtifactSlot::Feather => "feather",
            ArtifactSlot::Sand => "sand",
            ArtifactSlot::Goblet => "cup",
            ArtifactSlot::Head => "head",
        };
        key.to_owned()
    }
}

/// Writes a PascalCase key in snake case.
pub fn camel_to_snake(value: &str) -> (r: String)
    ensures
        r@ == snake_case(value@),
{
    let chars = chars_of(value);
    let mut result = String::new();
    let mut index: usize = 0;
    while index < chars.len()
        invariant
            chars@ == value@,
            index <= chars@.len(),
            result@ == snake_case(chars@.take(index as int)),
        decreases chars@.len() - index,
    {
        let ch = chars[index];
        let ghost before = result@;
        if index > 0 && ascii_upper(ch) {
            push_char(&mut result, '_');
        }
        let lower = lowercase(ch);
        let mut k: usize = 0;
        let ghost middle = result@;
        while k < lower.len()
            invariant
                k <= lower@.len(),
                result@ == middle + lower@.take(k as int),
            decreases lower@.len() - k,
        {
            push_char(&mut result, lower[k]);
            assert(lower@.take(k + 1) =~= lower@.take(k as int).push(lower@[k as int]));
            k = k + 1;
        }
        proof {
            let next = chars@.take(index + 1);
            assert(next.drop_last() =~= chars@.take(index as int));
            assert(next.last() == ch);
            assert(lower@.take(k as int) =~= lower@);
        }
        index = index + 1;
    }
    assert(chars@.take(chars@.len() as int) =~= chars@);
    result
}

impl ArtifactSetName {
    /// The set's key in the Mingyu Lab format.
    pub fn to_mingyu_lab(&self) -> (r: String)
        ensures
            r@ == set_mingyu_key(self@.good_key),
    {
        let key = self.good_key();
        if str_equal(key, "BlizzardStrayer") {
            "blizzard_walker".to_owned()
        } else if str_equal(key, "EmblemOfSeveredFate") {
            "seal_of_insulation".to_owned()
        } else if str_equal(key, "ShimenawasReminiscence") {
            "reminiscence_of_shime".to_owned()
        } else if str_equal(key, "OceanHuedClam") {
            "divine_chorus".to_owned()
        } else if str_equal(key, "MarechausseeHunter") {
            "hunter".to_owned()
        } else if str_equal(key, "FlowerOfParadiseLost") {
            "flower_of_paradise_list".to_owned()
        } else if str_equal(key, "PrayersForDestiny") {
            "prayers_of_destiny".to_owned()
        } else if str_equal(key, "PrayersForIllumination") {
            "prayers_of_illumination".to_owned()
        } else if str_equal(key, "PrayersForWisdom") {
            "prayers_of_wisdom".to_owned()
        } else if str_equal(key, "PrayersToSpringtime") {
            "prayers_of_springtime".to_owned()
        } else {
            camel_to_snake(key)
        }
    }

    /// The set's key in the Mona format.
    pub fn to_mona(&self) -> (r: String)
        ensures
            r@ == set_mona_key(self@),
    {
        let key = self.good_key();
        if str_equal(key, "GladiatorsFinale") {
            "gladiatorFinale".to_owned()
        } else if str_equal(key, "Lavawalker") {
            "lavaWalker".to_owned()
        } else if str_equal(key, "WanderersTroupe") {
            "wandererTroupe".to_owned()
        } else if str_equal(key, "DefendersWill") {
            "defenderWill".to_owned()
        } else if str_equal(key, "TheExile") {
            "exile".to_owned()
        } else if str_equal(key, "ShimenawasReminiscence") {
            "shimenawaReminiscence".to_owned()
        } else if str_equal(key, "CrimsonWitchOfFlames") {
            "crimsonWitch".to_owned()
        } else if str_equal(key, "Thundersoother") {
            "thunderSmoother".to_owned()
        } else if self.id() <= MONA_CAMEL_CASE_LAST_ID {
            let chars = chars_of(key);
            if chars.len() == 0 {
                String::new()
            } else {
                let mut joined = lowercase(chars[0]);
                let ghost head = joined@;
                let mut i: usize = 1;
                while i < chars.len()
                    invariant
                        1 <= i <= chars@.len(),
                        joined@ == head + chars@.subrange(1, i as int),
                    decreases chars@.len() - i,
                {
                    joined.push(chars[i]);
                    assert(chars@.subrange(1, i + 1) =~= chars@.subrange(1, i as int).push(chars@[i as int]));
                    i = i + 1;
                }
                assert(chars@.subrange(1, chars@.len() as int) =~= key@.drop_first());
                string_from_chars(joined.as_slice())
            }
        } else {
            key.to_owned()
        }
    }
}

} // verus!
