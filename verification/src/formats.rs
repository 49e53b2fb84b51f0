use vstd::prelude::*;

use crate::artifact::{ArtifactSlot, ArtifactStatName, GenshinArtifact};
use crate::export::{
    set_mingyu_key, set_mona_key, slot_good_key, slot_mingyu_key, slot_mona_key, stat_good_key,
    stat_mingyu_key, stat_mona_key,
};
use crate::stat::{ArtifactStat, StatValue};
use crate::text::str_equal;

verus! {

broadcast use vstd::string::group_string_axioms;

/// A stat value as an export format writes it: `(-1)^negative * mantissa /
/// 10^scale`.
#[derive(Clone, Copy, Debug, PartialEq, Eq, Structural)]
pub struct ExportValue {
    pub negative: bool,
    pub mantissa: u128,
    pub scale: u32,
}

/// Whether a stat kind is a flat amount (written as is) rather than a
/// fraction (written in percent points).
pub open spec fn flat_stat(name: ArtifactStatName) -> bool {
    name == ArtifactStatName::Atk || name == ArtifactStatName::ElementalMastery || name
        == ArtifactStatName::Hp || name == ArtifactStatName::Def
}

/// A stat value as GOOD and Mingyu Lab write it: flat amounts as they are,
/// fractions times one hundred.
pub open spec fn export_value_of(stat: ArtifactStat) -> ExportValue {
    let v = stat.value;
    if flat_stat(stat.name) {
        ExportValue { negative: v.negative, mantissa: v.mantissa as u128, scale: v.scale }
    } else if v.scale >= 2 {
        ExportValue { negative: v.negative, mantissa: v.mantissa as u128, scale: (v.scale - 2) as u32 }
    } else if v.scale == 1 {
        ExportValue { negative: v.negative, mantissa: (v.mantissa * 10) as u128, scale: 0 }
    } else {
        ExportValue { negative: v.negative, mantissa: (v.mantissa * 100) as u128, scale: 0 }
    }
}

/// The value of a stat as GOOD and Mingyu Lab write it (see
/// `export_value_of`).
pub fn export_value(stat: &ArtifactStat) -> (r: ExportValue)
    ensures
        r == export_value_of(*stat),
{
    let v = stat.value;
    let flat = match stat.name {
        ArtifactStatName::Atk | ArtifactStatName::ElementalMastery | ArtifactStatName::Hp
        | ArtifactStatName::Def => true,
        _ => false,
    };
    if flat {
        ExportValue { negative: v.negative, mantissa: v.mantissa as u128, scale: v.scale }
    } else if v.scale >= 2 {
        ExportValue { negative: v.negative, mantissa: v.mantissa as u128, scale: v.scale - 2 }
    } else if v.scale == 1 {
        ExportValue { negative: v.negative, mantissa: (v.mantissa as u128) * 10, scale: 0 }
    } else {
        ExportValue { negative: v.negative, mantissa: (v.mantissa as u128) * 100, scale: 0 }
    }
}

/// The sub-stats an artifact shows, in row order, without the empty rows.
pub open spec fn present_stats(rows: Seq<Option<ArtifactStat>>) -> Seq<ArtifactStat>
    decreases rows.len(),
{
    if rows.len() == 0 {
        seq![]
    } else {
        let rest = present_stats(rows.drop_last());
        match rows.last() {
            Some(s) => rest.push(s),
            None => rest,
        }
    }
}

/// A stat in the GOOD format.
pub struct GoodStat {
    pub key: &'static str,
    pub value: ExportValue,
}

/// An artifact in the GOOD format.
pub struct GoodArtifact {
    pub set_key: String,
    pub slot_key: &'static str,
    pub level: i32,
    pub rarity: i32,
    pub main_stat_key: &'static str,
    pub location: String,
    pub lock: bool,
    pub substats: Vec<GoodStat>,
}

/// The GOOD export of a scan.
pub struct GOODFormat {
    pub format: &'static str,
    pub version: u32,
    pub source: &'static str,
    pub artifacts: Vec<GoodArtifact>,
}

pub open spec fn good_stat_describes(g: GoodStat, stat: ArtifactStat) -> bool {
    g.key@ == stat_good_key(stat.name) && g.value == export_value_of(stat)
}

/// Whether a GOOD record describes an artifact: set, slot and main stat
/// keys, level, rarity, lock, the wearer's key (empty for none), and the
/// shown sub-stats in order; a pending sub-stat is not written.
pub open spec fn good_describes(r: GoodArtifact, a: GenshinArtifact) -> bool {
    let stats = present_stats(a@.sub_stats);
    &&& r.set_key@ == a@.set_name.good_key
    &&& r.slot_key@ == slot_good_key(a.slot)
    &&& r.level == a.level
    &&& r.rarity == a.star
    &&& r.main_stat_key@ == stat_good_key(a.main_stat.name)
    &&& r.location@ == (match a@.equip {
        Some(c) => c.good_key,
        None => seq![],
    })
    &&& r.lock == a.lock
    &&& r.substats@.len() == stats.len()
    &&& forall|i: int| 0 <= i < stats.len() ==> good_stat_describes(#[trigger] r.substats@[i], stats[i])
}

fn push_good_stat(out: &mut Vec<GoodStat>, row: &Option<ArtifactStat>)
    ensures
        final(out)@.len() == old(out)@.len() + (if row is Some { 1int } else { 0 }),
        forall|i: int| 0 <= i < old(out)@.len() ==> #[trigger] final(out)@[i] == old(out)@[i],
        (*row) matches Some(s) ==> good_stat_describes(final(out)@[old(out)@.len() as int], s),
{
    if let Some(s) = row {
        out.push(GoodStat { key: s.name.to_good(), value: export_value(s) });
    }
}

/// The GOOD record of an artifact (see `good_describes`).
pub fn good_artifact(a: &GenshinArtifact) -> (r: GoodArtifact)
    ensures
        good_describes(r, *a),
{
    let mut substats: Vec<GoodStat> = Vec::new();
    let ghost rows = a@.sub_stats;
    push_good_stat(&mut substats, &a.sub_stat_1);
    push_good_stat(&mut substats, &a.sub_stat_2);
    push_good_stat(&mut substats, &a.sub_stat_3);
    push_good_stat(&mut substats, &a.sub_stat_4);
    proof {
        assert(rows.drop_last().drop_last().drop_last().drop_last() =~= Seq::<Option<ArtifactStat>>::empty());
        assert(rows.drop_last().drop_last().drop_last() =~= seq![a.sub_stat_1]);
        assert(rows.drop_last().drop_last() =~= seq![a.sub_stat_1, a.sub_stat_2]);
        assert(rows.drop_last() =~= seq![a.sub_stat_1, a.sub_stat_2, a.sub_stat_3]);
        reveal_with_fuel(present_stats, 5);
    }
    let location = match &a.equip {
        Some(c) => c.good_key().to_owned(),
        None => String::new(),
    };
    GoodArtifact {
        set_key: a.set_name.good_key().to_owned(),
        slot_key: a.slot.to_good(),
        level: a.level,
        rarity: a.star,
        main_stat_key: a.main_stat.name.to_good(),
        location,
        lock: a.lock,
        substats,
    }
}

impl GOODFormat {
    /// The GOOD export of `results`, one record per artifact in order.
    pub fn new(results: &[GenshinArtifact]) -> (r: GOODFormat)
        ensures
            r.format@ == "GOOD"@,
            r.version == 1,
            r.source@ == "yas"@,
            r.artifacts@.len() == results@.len(),
            forall|i: int| 0 <= i < results@.len() ==> good_describes(#[trigger] r.artifacts@[i], results@[i]),
    {
        let mut artifacts: Vec<GoodArtifact> = Vec::new();
        let mut i: usize = 0;
        while i < results.len()
            invariant
                i <= results@.len(),
                artifacts@.len() == i,
                forall|k: int| 0 <= k < i ==> good_describes(#[trigger] artifacts@[k], results@[k]),
            decreases results@.len() - i,
        {
            artifacts.push(good_artifact(&results[i]));
            i = i + 1;
        }
        GOODFormat { format: "GOOD", version: 1, source: "yas", artifacts }
    }
}

/// A sub-stat column of a Mingyu Lab record; an empty row is written as
/// a flat attack of zero.
pub struct MingyuLabStat {
    pub key: &'static str,
    pub value: ExportValue,
}

/// An artifact in the Mingyu Lab format.
pub struct MingyuLabArtifact {
    pub as_key: String,
    pub rarity: i32,
    pub slot: &'static str,
    pub level: i32,
    pub main_stat: &'static str,
    pub sub_stats: Vec<MingyuLabStat>,
}

/// The Mingyu Lab export of a scan.
pub struct MingyuLabFormat {
    pub artifacts: Vec<MingyuLabArtifact>,
}

pub open spec fn mingyu_stat_describes(m: MingyuLabStat, row: Option<ArtifactStat>) -> bool {
    match row {
        None => m.key@ == "flatATK"@ && m.value == (ExportValue { negative: false, mantissa: 0, scale: 0 }),
        Some(s) => m.key@ == stat_mingyu_key(s.name) && m.value == export_value_of(s),
    }
}

/// Whether a Mingyu Lab record describes an artifact.
pub open spec fn mingyu_describes(r: MingyuLabArtifact, a: GenshinArtifact) -> bool {
    &&& r.as_key@ == set_mingyu_key(a@.set_name.good_key)
    &&& r.rarity == a.star
    &&& r.slot@ == slot_mingyu_key(a.slot)
    &&& r.level == a.level
    &&& r.main_stat@ == stat_mingyu_key(a.main_stat.name)
    &&& r.sub_stats@.len() == 4
    &&& forall|i: int| 0 <= i < 4 ==> mingyu_stat_describes(#[trigger] r.sub_stats@[i], a@.sub_stats[i])
}

/// The sets Mingyu Lab does not take.
pub open spec fn mingyu_excluded(good_key: Seq<char>) -> bool {
    good_key == "Adventurer"@ || good_key == "LuckyDog"@ || good_key == "TravelingDoctor"@
}

fn mingyu_stat(row: &Option<ArtifactStat>) -> (r: MingyuLabStat)
    ensures
        mingyu_stat_describes(r, *row),
{
    match row {
        None => MingyuLabStat { key: "flatATK", value: ExportValue { negative: false, mantissa: 0, scale: 0 } },
        Some(s) => MingyuLabStat { key: s.name.to_mingyu_lab(), value: export_value(s) },
    }
}

/// The Mingyu Lab record of an artifact (see `mingyu_describes`).
pub fn mingyu_lab_artifact(a: &GenshinArtifact) -> (r: MingyuLabArtifact)
    ensures
        mingyu_describes(r, *a),
{
    let mut sub_stats: Vec<MingyuLabStat> = Vec::new();
    sub_stats.push(mingyu_stat(&a.sub_stat_1));
    sub_stats.push(mingyu_stat(&a.sub_stat_2));
    sub_stats.push(mingyu_stat(&a.sub_stat_3));
    sub_stats.push(mingyu_stat(&a.sub_stat_4));
    MingyuLabArtifact {
        as_key: a.set_name.to_mingyu_lab(),
        rarity: a.star,
        slot: a.slot.to_mingyu_lab(),
        level: a.level,
        main_stat: a.main_stat.name.to_mingyu_lab(),
        sub_stats,
    }
}

impl MingyuLabFormat {
    /// The Mingyu Lab export of `results`: every artifact whose set Mingyu
    /// Lab takes, in order.
    pub fn new(results: &[GenshinArtifact]) -> (r: MingyuLabFormat)
        ensures
            ({
                let kept = results@.filter(|a: GenshinArtifact| !mingyu_excluded(a@.set_name.good_key));
                &&& r.artifacts@.len() == kept.len()
                &&& forall|i: int| 0 <= i < kept.len() ==> mingyu_describes(#[trigger] r.artifacts@[i], kept[i])
            }),
    {
        let mut artifacts: Vec<MingyuLabArtifact> = Vec::new();
        let ghost pred = |a: GenshinArtifact| !mingyu_excluded(a@.set_name.good_key);
        let mut i: usize = 0;
        while i < results.len()
            invariant
                i <= results@.len(),
                pred == (|a: GenshinArtifact| !mingyu_excluded(a@.set_name.good_key)),
                artifacts@.len() == results@.take(i as int).filter(pred).len(),
                forall|k: int|
                    0 <= k < artifacts@.len() ==> mingyu_describes(
                        #[trigger] artifacts@[k],
                        results@.take(i as int).filter(pred)[k],
                    ),
            decreases results@.len() - i,
        {
            let a = &results[i];
            let key = a.set_name.good_key();
            let excluded = str_equal(key, "Adventurer") || str_equal(key, "LuckyDog") || str_equal(
                key,
                "TravelingDoctor",
            );
            proof {
                assert(results@.take(i + 1) =~= results@.take(i as int).push(results@[i as int]));
                results@.take(i as int).lemma_filter_push(results@[i as int], pred);
            }
            if !excluded {
                artifacts.push(mingyu_lab_artifact(a));
            }
            i = i + 1;
        }
        assert(results@.take(results@.len() as int) =~= results@);
        MingyuLabFormat { artifacts }
    }
}

/// A stat in the Mona format: its key and its value as read.
pub struct MonaStat {
    pub name: String,
    pub value: StatValue,
}

/// An artifact in the Mona format.
pub struct MonaArtifact {
    pub set_name: String,
    pub position: String,
    pub main_tag: MonaStat,
    pub normal_tags: Vec<MonaStat>,
    pub omit: bool,
    pub level: i32,
    pub star: i32,
    pub equip: Option<String>,
}

/// The Mona export of a scan: the artifacts by slot.
pub struct MonaFormat {
    pub version: String,
    pub flower: Vec<MonaArtifact>,
    pub feather: Vec<MonaArtifact>,
    pub sand: Vec<MonaArtifact>,
    pub cup: Vec<MonaArtifact>,
    pub head: Vec<MonaArtifact>,
}

pub open spec fn mona_stat_describes(m: MonaStat, stat: ArtifactStat) -> bool {
    m.name@ == stat_mona_key(stat.name) && m.value == stat.value
}

/// Whether a Mona record describes an artifact.
pub open spec fn mona_describes(r: MonaArtifact, a: GenshinArtifact) -> bool {
    let stats = present_stats(a@.sub_stats);
    &&& r.set_name@ == set_mona_key(a@.set_name)
    &&& r.position@ == slot_mona_key(a.slot)
    &&& mona_stat_describes(r.main_tag, a.main_stat)
    &&& r.normal_tags@.len() == stats.len()
    &&& forall|i: int| 0 <= i < stats.len() ==> mona_stat_describes(#[trigger] r.normal_tags@[i], stats[i])
    &&& !r.omit
    &&& r.level == a.level
    &&& r.star == a.star
    &&& match a@.equip {
        Some(c) => r.equip matches Some(e) && e@ == c.name_zh_cn,
        None => r.equip is None,
    }
}

fn mona_stat(stat: &ArtifactStat) -> (r: MonaStat)
    ensures
        mona_stat_describes(r, *stat),
{
    MonaStat { name: stat.name.to_mona(), value: stat.value }
}

fn push_mona_stat(out: &mut Vec<MonaStat>, row: &Option<ArtifactStat>)
    ensures
        final(out)@.len() == old(out)@.len() + (if row is Some { 1int } else { 0 }),
        forall|i: int| 0 <= i < old(out)@.len() ==> #[trigger] final(out)@[i] == old(out)@[i],
        (*row) matches Some(s) ==> mona_stat_describes(final(out)@[old(out)@.len() as int], s),
{
    if let Some(s) = row {
        out.push(mona_stat(s));
    }
}

/// The Mona record of an artifact (see `mona_describes`).
pub fn mona_artifact(a: &GenshinArtifact) -> (r: MonaArtifact)
    ensures
        mona_describes(r, *a),
{
    let mut normal_tags: Vec<MonaStat> = Vec::new();
    let ghost rows = a@.sub_stats;
    push_mona_stat(&mut normal_tags, &a.sub_stat_1);
    push_mona_stat(&mut normal_tags, &a.sub_stat_2);
    push_mona_stat(&mut normal_tags, &a.sub_stat_3);
    push_mona_stat(&mut normal_tags, &a.sub_stat_4);
    proof {
        assert(rows.drop_last().drop_last().drop_last().drop_last() =~= Seq::<Option<ArtifactStat>>::empty());
        assert(rows.drop_last().drop_last().drop_last() =~= seq![a.sub_stat_1]);
        assert(rows.drop_last().drop_last() =~= seq![a.sub_stat_1, a.sub_stat_2]);
        assert(rows.drop_last() =~= seq![a.sub_stat_1, a.sub_stat_2, a.sub_stat_3]);
        reveal_with_fuel(present_stats, 5);
    }
    let equip = match &a.equip {
        Some(c) => Some(c.name_zh_cn().to_owned()),
        None => None,
    };
    MonaArtifact {
        set_name: a.set_name.to_mona(),
        position: a.slot.to_mona(),
        main_tag: mona_stat(&a.main_stat),
        normal_tags,
        omit: false,
        level: a.level,
        star: a.star,
        equip,
    }
}

/// The artifacts of one slot, in order.
pub open spec fn of_slot(results: Seq<GenshinArtifact>, slot: ArtifactSlot) -> Seq<GenshinArtifact> {
    results.filter(|a: GenshinArtifact| a.slot == slot)
}

pub open spec fn mona_bucket(out: Seq<MonaArtifact>, results: Seq<GenshinArtifact>, slot: ArtifactSlot) -> bool {
    let kept = of_slot(results, slot);
    &&& out.len() == kept.len()
    &&& forall|i: int| 0 <= i < kept.len() ==> mona_describes(#[trigger] out[i], kept[i])
}

impl MonaFormat {
    /// The Mona export of `results`: version `1`, and the artifacts of each
    /// slot in order.
    pub fn new(results: &[GenshinArtifact]) -> (r: MonaFormat)
        ensures
            r.version@ == "1"@,
            mona_bucket(r.flower@, results@, ArtifactSlot::Flower),
            mona_bucket(r.feather@, results@, ArtifactSlot::Feather),
            mona_bucket(r.sand@, results@, ArtifactSlot::Sand),
            mona_bucket(r.cup@, results@, ArtifactSlot::Goblet),
            mona_bucket(r.head@, results@, ArtifactSlot::Head),
    {
        let mut flower: Vec<MonaArtifact> = Vec::new();
        let mut feather: Vec<MonaArtifact> = Vec::new();
        let mut sand: Vec<MonaArtifact> = Vec::new();
        let mut cup: Vec<MonaArtifact> = Vec::new();
        let mut head: Vec<MonaArtifact> = Vec::new();
        let mut i: usize = 0;
        while i < results.len()
            invariant
                i <= results@.len(),
                mona_bucket(flower@, results@.take(i as int), ArtifactSlot::Flower),
                mona_bucket(feather@, results@.take(i as int), ArtifactSlot::Feather),
                mona_bucket(sand@, results@.take(i as int), ArtifactSlot::Sand),
                mona_bucket(cup@, results@.take(i as int), ArtifactSlot::Goblet),
                mona_bucket(head@, results@.take(i as int), ArtifactSlot::Head),
            decreases results@.len() - i,
        {
            let a = &results[i];
            proof {
                let prefix = results@.take(i as int);
                assert(results@.take(i + 1) =~= prefix.push(results@[i as int]));
                prefix.lemma_filter_push(results@[i as int], |x: GenshinArtifact| x.slot == ArtifactSlot::Flower);
                prefix.lemma_filter_push(results@[i as int], |x: GenshinArtifact| x.slot == ArtifactSlot::Feather);
                prefix.lemma_filter_push(results@[i as int], |x: GenshinArtifact| x.slot == ArtifactSlot::Sand);
                prefix.lemma_filter_push(results@[i as int], |x: GenshinArtifact| x.slot == ArtifactSlot::Goblet);
                prefix.lemma_filter_push(results@[i as int], |x: GenshinArtifact| x.slot == ArtifactSlot::Head);
            }
            let record = mona_artifact(a);
            match a.slot {
                ArtifactSlot::Flower => flower.push(record),
                ArtifactSlot::Feather => feather.push(record),
                ArtifactSlot::Sand => sand.push(record),
                ArtifactSlot::Goblet => cup.push(record),
                ArtifactSlot::Head => head.push(record),
            }
            i = i + 1;
        }
        assert(results@.take(results@.len() as int) =~= results@);
        MonaFormat { version: "1".to_owned(), flower, feather, sand, cup, head }
    }
}

} // verus!
