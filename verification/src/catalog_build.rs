use vstd::prelude::*;

use crate::artifact::ArtifactSlot;
use crate::catalog::{
    catalog_check, pascal_key, pascal_key_of, result_view, ArtifactCatalog, ArtifactPieceRecord,
    ArtifactSetRecord, CatalogError, CatalogSource, CharacterRecord, SCHEMA_VERSION,
};
use crate::text::str_equal;

verus! {

broadcast use vstd::string::group_string_axioms;

/// An entry of a genshin-db data folder: its key and the fields the catalog
/// reads, each `None` where the entry lacks the field or holds another type
/// there. For an artifact set, `pieces` holds its flower, plume, sands,
/// goblet and circlet fields in that order: `None` for an absent field, else
/// the piece's `name`.
pub struct DbEntry {
    pub key: String,
    pub id: Option<u64>,
    pub name: Option<String>,
    pub pieces: [Option<Option<String>>; 5],
}

/// Why genshin-db data could not be made into a catalog.
#[derive(Debug, Clone)]
pub enum CatalogBuildError {
    /// The English folder lacks an artifact set of the Chinese one.
    MissingEnglishArtifact(String),
    /// The English folder lacks a character of the Chinese one.
    MissingEnglishCharacter(String),
    /// An entry lacks a text field.
    MissingStringField(&'static str),
    /// An entry lacks a whole-number field that fits in a `u32`.
    MissingIntegerField(&'static str),
}

/// What a build error holds.
pub enum BuildErrorView {
    MissingEnglishArtifact(Seq<char>),
    MissingEnglishCharacter(Seq<char>),
    MissingStringField(Seq<char>),
    MissingIntegerField(Seq<char>),
}

impl View for CatalogBuildError {
    type V = BuildErrorView;

    open spec fn view(&self) -> BuildErrorView {
        match self {
            CatalogBuildError::MissingEnglishArtifact(k) => BuildErrorView::MissingEnglishArtifact(k@),
            CatalogBuildError::MissingEnglishCharacter(k) => BuildErrorView::MissingEnglishCharacter(k@),
            CatalogBuildError::MissingStringField(f) => BuildErrorView::MissingStringField(f@),
            CatalogBuildError::MissingIntegerField(f) => BuildErrorView::MissingIntegerField(f@),
        }
    }
}

/// What an artifact set record holds.
pub struct SetView {
    pub id: u32,
    pub name_zh_cn: Seq<char>,
    pub name_en: Seq<char>,
    pub good_key: Seq<char>,
    pub pieces: Seq<(Seq<char>, ArtifactSlot)>,
}

/// What a character record holds.
pub struct CharacterView {
    pub id: u32,
    pub name_zh_cn: Seq<char>,
    pub name_en: Seq<char>,
    pub good_key: Seq<char>,
    pub aliases_zh_cn: Seq<Seq<char>>,
}

pub open spec fn set_view(r: ArtifactSetRecord) -> SetView {
    SetView {
        id: r.id,
        name_zh_cn: r.name_zh_cn@,
        name_en: r.name_en@,
        good_key: r.good_key@,
        pieces: r.pieces@.map_values(|p: ArtifactPieceRecord| (p.name_zh_cn@, p.slot)),
    }
}

pub open spec fn character_view(r: CharacterRecord) -> CharacterView {
    CharacterView {
        id: r.id,
        name_zh_cn: r.name_zh_cn@,
        name_en: r.name_en@,
        good_key: r.good_key@,
        aliases_zh_cn: r.aliases_zh_cn@.map_values(|a: String| a@),
    }
}

/// The slot of the `i`-th piece field: flower, plume, sands, goblet, circlet.
pub open spec fn piece_slot(i: int) -> ArtifactSlot {
    if i == 0 {
        ArtifactSlot::Flower
    } else if i == 1 {
        ArtifactSlot::Feather
    } else if i == 2 {
        ArtifactSlot::Sand
    } else if i == 3 {
        ArtifactSlot::Goblet
    } else {
        ArtifactSlot::Head
    }
}

/// The name of the first entry with this key, as found (`Some(None)` when
/// that entry has no name); `None` when no entry has the key.
pub open spec fn english_name(en: Seq<DbEntry>, key: Seq<char>) -> Option<Option<Seq<char>>>
    decreases en.len(),
{
    if en.len() == 0 {
        None
    } else if en[0].key@ == key {
        Some(
            match en[0].name {
                Some(n) => Some(n@),
                None => None,
            },
        )
    } else {
        english_name(en.drop_first(), key)
    }
}

/// The pieces named by the first `n` piece fields.
pub open spec fn pieces_of(fields: Seq<Option<Option<String>>>, n: nat) -> Result<Seq<(Seq<char>, ArtifactSlot)>, BuildErrorView>
    decreases n,
{
    if n == 0 {
        Ok(seq![])
    } else {
        match pieces_of(fields, (n - 1) as nat) {
            Err(e) => Err(e),
            Ok(ps) => match fields[n - 1] {
                None => Ok(ps),
                Some(None) => Err(BuildErrorView::MissingStringField("name"@)),
                Some(Some(name)) => Ok(ps.push((name@, piece_slot(n - 1)))),
            },
        }
    }
}

/// The id of an entry, if it has one that fits in a `u32`.
pub open spec fn entry_id(e: DbEntry) -> Option<u32> {
    match e.id {
        Some(id) => if id <= u32::MAX {
            Some(id as u32)
        } else {
            None
        },
        None => None,
    }
}

/// The set record of a Chinese entry, checked in the order: the English
/// entry, the id, the Chinese name, the English name, the pieces.
pub open spec fn set_of(zh: DbEntry, en: Seq<DbEntry>) -> Result<SetView, BuildErrorView> {
    match english_name(en, zh.key@) {
        None => Err(BuildErrorView::MissingEnglishArtifact(zh.key@)),
        Some(name_en) => match entry_id(zh) {
            None => Err(BuildErrorView::MissingIntegerField("id"@)),
            Some(id) => match zh.name {
                None => Err(BuildErrorView::MissingStringField("name"@)),
                Some(name_zh) => match name_en {
                    None => Err(BuildErrorView::MissingStringField("name"@)),
                    Some(name_en) => match pieces_of(zh.pieces@, 5) {
                        Err(e) => Err(e),
                        Ok(pieces) => Ok(
                            SetView {
                                id,
                                name_zh_cn: name_zh@,
                                name_en,
                                good_key: pascal_key_of(name_en),
                                pieces,
                            },
                        ),
                    },
                },
            },
        },
    }
}

/// The set records of the first `n` Chinese entries, in entry order; the
/// first failure stops.
pub open spec fn sets_of(zh: Seq<DbEntry>, en: Seq<DbEntry>, n: nat) -> Result<Seq<SetView>, BuildErrorView>
    decreases n,
{
    if n == 0 {
        Ok(seq![])
    } else {
        match sets_of(zh, en, (n - 1) as nat) {
            Err(e) => Err(e),
            Ok(s) => match set_of(zh[n - 1], en) {
                Err(e) => Err(e),
                Ok(v) => Ok(s.push(v)),
            },
        }
    }
}

/// The first position in `s` whose id is above `id`.
pub open spec fn first_above(ids: Seq<u32>, id: u32) -> nat
    decreases ids.len(),
{
    if ids.len() == 0 {
        0
    } else if ids[0] > id {
        0
    } else {
        1 + first_above(ids.drop_first(), id)
    }
}

/// `s` ordered by id, entries of equal id in their order in `s`: each entry
/// in turn goes after every earlier one whose id is not above its own.
pub open spec fn ordered_by_id<A>(s: Seq<A>, id_of: spec_fn(A) -> u32) -> Seq<A>
    decreases s.len(),
{
    if s.len() == 0 {
        s
    } else {
        let done = ordered_by_id(s.drop_last(), id_of);
        done.insert(first_above(done.map_values(id_of), id_of(s.last())) as int, s.last())
    }
}

proof fn lemma_first_above_bound(ids: Seq<u32>, id: u32)
    ensures
        first_above(ids, id) <= ids.len(),
        forall|i: int| 0 <= i < first_above(ids, id) ==> ids[i] <= id,
    decreases ids.len(),
{
    if ids.len() > 0 && ids[0] <= id {
        lemma_first_above_bound(ids.drop_first(), id);
        assert forall|i: int| 0 <= i < first_above(ids, id) implies ids[i] <= id by {
            if i > 0 {
                assert(ids[i] == ids.drop_first()[i - 1]);
            }
        }
    }
}

proof fn lemma_ordered_len<A>(s: Seq<A>, id_of: spec_fn(A) -> u32)
    ensures
        ordered_by_id(s, id_of).len() == s.len(),
    decreases s.len(),
{
    if s.len() > 0 {
        lemma_ordered_len(s.drop_last(), id_of);
        let done = ordered_by_id(s.drop_last(), id_of);
        lemma_first_above_bound(done.map_values(id_of), id_of(s.last()));
    }
}

/// The first position in `ids` whose id is above `id`.
fn position_after(ids: &Vec<u32>, id: u32) -> (r: usize)
    ensures
        r == first_above(ids@, id),
{
    let mut i: usize = 0;
    assert(ids@.skip(0) =~= ids@);
    while i < ids.len()
        invariant
            i <= ids@.len(),
            forall|k: int| 0 <= k < i ==> ids@[k] <= id,
            first_above(ids@, id) == i + first_above(ids@.skip(i as int), id),
        decreases ids@.len() - i,
    {
        proof {
            let rest = ids@.skip(i as int);
            assert(rest.drop_first() =~= ids@.skip(i + 1));
        }
        if ids[i] > id {
            return i;
        }
        i = i + 1;
    }
    assert(ids@.skip(i as int) =~= Seq::<u32>::empty());
    i
}

pub open spec fn set_id(v: SetView) -> u32 {
    v.id
}

pub open spec fn character_id(v: CharacterView) -> u32 {
    v.id
}

fn piece_records(fields: &[Option<Option<String>>; 5]) -> (r: Result<Vec<ArtifactPieceRecord>, CatalogBuildError>)
    ensures
        match pieces_of(fields@, 5) {
            Ok(ps) => r matches Ok(v) && v@.map_values(|p: ArtifactPieceRecord| (p.name_zh_cn@, p.slot)) == ps,
            Err(e) => r matches Err(x) && x@ == e,
        },
{
    let mut pieces: Vec<ArtifactPieceRecord> = Vec::new();
    let mut i: usize = 0;
    while i < 5
        invariant
            i <= 5,
            pieces_of(fields@, i as nat) matches Ok(ps) && pieces@.map_values(
                |p: ArtifactPieceRecord| (p.name_zh_cn@, p.slot),
            ) == ps,
        decreases 5 - i,
    {
        let slot = if i == 0 {
            ArtifactSlot::Flower
        } else if i == 1 {
            ArtifactSlot::Feather
        } else if i == 2 {
            ArtifactSlot::Sand
        } else if i == 3 {
            ArtifactSlot::Goblet
        } else {
            ArtifactSlot::Head
        };
        match &fields[i] {
            None => {},
            Some(None) => {
                proof {
                    lemma_pieces_error_stays(fields@, (i + 1) as nat, 5);
                }
                return Err(CatalogBuildError::MissingStringField("name"));
            },
            Some(Some(name)) => {
                let ghost before = pieces@;
                pieces.push(ArtifactPieceRecord { name_zh_cn: name.clone(), slot });
                assert(pieces@.map_values(|p: ArtifactPieceRecord| (p.name_zh_cn@, p.slot)) =~= before.map_values(
                    |p: ArtifactPieceRecord| (p.name_zh_cn@, p.slot),
                ).push((name@, piece_slot(i as int))));
            },
        }
        i = i + 1;
    }
    Ok(pieces)
}

proof fn lemma_pieces_error_stays(fields: Seq<Option<Option<String>>>, n: nat, m: nat)
    requires
        n <= m,
        pieces_of(fields, n) is Err,
    ensures
        pieces_of(fields, m) == pieces_of(fields, n),
    decreases m,
{
    if m > n {
        lemma_pieces_error_stays(fields, n, (m - 1) as nat);
    }
}

proof fn lemma_sets_error_stays(zh: Seq<DbEntry>, en: Seq<DbEntry>, n: nat, m: nat)
    requires
        n <= m,
        sets_of(zh, en, n) is Err,
    ensures
        sets_of(zh, en, m) == sets_of(zh, en, n),
    decreases m,
{
    if m > n {
        lemma_sets_error_stays(zh, en, n, (m - 1) as nat);
    }
}

fn find_english<'a>(en: &'a [DbEntry], key: &str) -> (r: Option<&'a DbEntry>)
    ensures
        match english_name(en@, key@) {
            None => r is None,
            Some(name) => r matches Some(e) && match e.name {
                Some(n) => name == Some(n@),
                None => name is None,
            },
        },
{
    let mut i: usize = 0;
    assert(en@.skip(0) =~= en@);
    while i < en.len()
        invariant
            i <= en@.len(),
            english_name(en@, key@) == english_name(en@.skip(i as int), key@),
        decreases en@.len() - i,
    {
        proof {
            assert(en@.skip(i as int).drop_first() =~= en@.skip(i + 1));
        }
        if str_equal(en[i].key.as_str(), key) {
            return Some(&en[i]);
        }
        i = i + 1;
    }
    None
}

/// The record of one Chinese set entry (see `set_of`).
fn set_record(zh: &DbEntry, en: &[DbEntry]) -> (r: Result<ArtifactSetRecord, CatalogBuildError>)
    ensures
        match set_of(*zh, en@) {
            Ok(v) => r matches Ok(x) && set_view(x) == v,
            Err(e) => r matches Err(x) && x@ == e,
        },
{
    let english = match find_english(en, zh.key.as_str()) {
        Some(e) => e,
        None => return Err(CatalogBuildError::MissingEnglishArtifact(zh.key.clone())),
    };
    let id: u32 = match zh.id {
        Some(id) => if id <= 4294967295 {
            id as u32
        } else {
            return Err(CatalogBuildError::MissingIntegerField("id"));
        },
        None => return Err(CatalogBuildError::MissingIntegerField("id")),
    };
    let name_zh_cn = match &zh.name {
        Some(n) => n.clone(),
        None => return Err(CatalogBuildError::MissingStringField("name")),
    };
    let name_en = match &english.name {
        Some(n) => n.clone(),
        None => return Err(CatalogBuildError::MissingStringField("name")),
    };
    let pieces = match piece_records(&zh.pieces) {
        Ok(p) => p,
        Err(e) => return Err(e),
    };
    let good_key = pascal_key(name_en.as_str());
    Ok(ArtifactSetRecord { id, name_zh_cn, name_en, good_key, pieces })
}

/// The artifact sets of genshin-db's Chinese and English artifact folders:
/// one record per Chinese entry, in entry order and then ordered by id
/// (stable), the GOOD key made from the English name (see `sets_of`).
pub fn build_artifact_sets(zh: &[DbEntry], en: &[DbEntry]) -> (r: Result<Vec<ArtifactSetRecord>, CatalogBuildError>)
    ensures
        match sets_of(zh@, en@, zh@.len()) {
            Ok(s) => r matches Ok(v) && v@.map_values(|x: ArtifactSetRecord| set_view(x)) == ordered_by_id(
                s,
                |x: SetView| set_id(x),
            ),
            Err(e) => r matches Err(x) && x@ == e,
        },
{
    let mut result: Vec<ArtifactSetRecord> = Vec::new();
    let mut ids: Vec<u32> = Vec::new();
    let mut i: usize = 0;
    while i < zh.len()
        invariant
            i <= zh@.len(),
            sets_of(zh@, en@, i as nat) matches Ok(s) && result@.map_values(|x: ArtifactSetRecord| set_view(x))
                == ordered_by_id(s, |x: SetView| set_id(x)),
            ids@ == result@.map_values(|x: ArtifactSetRecord| x.id),
        decreases zh@.len() - i,
    {
        let record = match set_record(&zh[i], en) {
            Ok(r) => r,
            Err(e) => {
                proof {
                    lemma_sets_error_stays(zh@, en@, (i + 1) as nat, zh@.len());
                }
                return Err(e);
            },
        };
        let p = position_after(&ids, record.id);
        proof {
            let s = sets_of(zh@, en@, i as nat)->Ok_0;
            let done = ordered_by_id(s, |x: SetView| set_id(x));
            assert(done.map_values(|x: SetView| set_id(x)) =~= ids@);
            lemma_ordered_len(s, |x: SetView| set_id(x));
            lemma_first_above_bound(ids@, record.id);
            let s2 = s.push(set_view(record));
            assert(s2.drop_last() =~= s);
        }
        let ghost before = result@;
        let id = record.id;
        result.insert(p, record);
        ids.insert(p, id);
        proof {
            assert(result@.map_values(|x: ArtifactSetRecord| set_view(x)) =~= before.map_values(
                |x: ArtifactSetRecord| set_view(x),
            ).insert(p as int, set_view(result@[p as int])));
            assert(ids@ =~= result@.map_values(|x: ArtifactSetRecord| x.id));
        }
        i = i + 1;
    }
    Ok(result)
}

/// The record every character catalog starts with: the traveler, under
/// both of the names the game gives the twins.
pub open spec fn traveler_view() -> CharacterView {
    CharacterView {
        id: 0,
        name_zh_cn: "旅行者"@,
        name_en: "Traveler"@,
        good_key: "Traveler"@,
        aliases_zh_cn: seq!["空"@, "荧"@],
    }
}

/// Whether a genshin-db character key is one of the twin travelers, whom
/// the traveler record stands for.
pub open spec fn twin_key(key: Seq<char>) -> bool {
    key == "aether"@ || key == "lumine"@
}

/// The character record of a Chinese entry, checked in the order: the
/// English entry, the English name, the id, the Chinese name.
pub open spec fn character_of(zh: DbEntry, en: Seq<DbEntry>) -> Result<CharacterView, BuildErrorView> {
    match english_name(en, zh.key@) {
        None => Err(BuildErrorView::MissingEnglishCharacter(zh.key@)),
        Some(None) => Err(BuildErrorView::MissingStringField("name"@)),
        Some(Some(name_en)) => match entry_id(zh) {
            None => Err(BuildErrorView::MissingIntegerField("id"@)),
            Some(id) => match zh.name {
                None => Err(BuildErrorView::MissingStringField("name"@)),
                Some(name_zh) => Ok(
                    CharacterView {
                        id,
                        name_zh_cn: name_zh@,
                        name_en,
                        good_key: pascal_key_of(name_en),
                        aliases_zh_cn: seq![],
                    },
                ),
            },
        },
    }
}

/// The records of the first `n` Chinese character entries after the
/// traveler's, the twins skipped; the first failure stops.
pub open spec fn characters_of(zh: Seq<DbEntry>, en: Seq<DbEntry>, n: nat) -> Result<Seq<CharacterView>, BuildErrorView>
    decreases n,
{
    if n == 0 {
        Ok(seq![traveler_view()])
    } else {
        match characters_of(zh, en, (n - 1) as nat) {
            Err(e) => Err(e),
            Ok(s) => if twin_key(zh[n - 1].key@) {
                Ok(s)
            } else {
                match character_of(zh[n - 1], en) {
                    Err(e) => Err(e),
                    Ok(v) => Ok(s.push(v)),
                }
            },
        }
    }
}

proof fn lemma_characters_error_stays(zh: Seq<DbEntry>, en: Seq<DbEntry>, n: nat, m: nat)
    requires
        n <= m,
        characters_of(zh, en, n) is Err,
    ensures
        characters_of(zh, en, m) == characters_of(zh, en, n),
    decreases m,
{
    if m > n {
        lemma_characters_error_stays(zh, en, n, (m - 1) as nat);
    }
}

fn character_record(zh: &DbEntry, en: &[DbEntry]) -> (r: Result<CharacterRecord, CatalogBuildError>)
    ensures
        match character_of(*zh, en@) {
            Ok(v) => r matches Ok(x) && character_view(x) == v,
            Err(e) => r matches Err(x) && x@ == e,
        },
{
    let english = match find_english(en, zh.key.as_str()) {
        Some(e) => e,
        None => return Err(CatalogBuildError::MissingEnglishCharacter(zh.key.clone())),
    };
    let name_en = match &english.name {
        Some(n) => n.clone(),
        None => return Err(CatalogBuildError::MissingStringField("name")),
    };
    let id: u32 = match zh.id {
        Some(id) => if id <= 4294967295 {
            id as u32
        } else {
            return Err(CatalogBuildError::MissingIntegerField("id"));
        },
        None => return Err(CatalogBuildError::MissingIntegerField("id")),
    };
    let name_zh_cn = match &zh.name {
        Some(n) => n.clone(),
        None => return Err(CatalogBuildError::MissingStringField("name")),
    };
    let good_key = pascal_key(name_en.as_str());
    let aliases_zh_cn: Vec<String> = Vec::new();
    let r = CharacterRecord { id, name_zh_cn, name_en, good_key, aliases_zh_cn };
    assert(character_view(r).aliases_zh_cn =~= Seq::<Seq<char>>::empty());
    Ok(r)
}

fn traveler() -> (r: CharacterRecord)
    ensures
        character_view(r) == traveler_view(),
{
    let mut aliases_zh_cn: Vec<String> = Vec::new();
    aliases_zh_cn.push("空".to_owned());
    aliases_zh_cn.push("荧".to_owned());
    let r = CharacterRecord {
        id: 0,
        name_zh_cn: "旅行者".to_owned(),
        name_en: "Traveler".to_owned(),
        good_key: "Traveler".to_owned(),
        aliases_zh_cn,
    };
    assert(character_view(r).aliases_zh_cn =~= seq!["空"@, "荧"@]);
    r
}

/// The characters of genshin-db's Chinese and English character folders:
/// the traveler, then one record per other Chinese entry, ordered by id
/// (stable), the GOOD key made from the English name (see `characters_of`).
pub fn build_characters(zh: &[DbEntry], en: &[DbEntry]) -> (r: Result<Vec<CharacterRecord>, CatalogBuildError>)
    ensures
        match characters_of(zh@, en@, zh@.len()) {
            Ok(s) => r matches Ok(v) && v@.map_values(|x: CharacterRecord| character_view(x)) == ordered_by_id(
                s,
                |x: CharacterView| character_id(x),
            ),
            Err(e) => r matches Err(x) && x@ == e,
        },
{
    let mut result: Vec<CharacterRecord> = Vec::new();
    let mut ids: Vec<u32> = Vec::new();
    result.push(traveler());
    ids.push(0);
    proof {
        let s = seq![traveler_view()];
        assert(s.drop_last() =~= Seq::<CharacterView>::empty());
        assert(ordered_by_id(Seq::<CharacterView>::empty(), |x: CharacterView| character_id(x)) =~= Seq::<
            CharacterView,
        >::empty());
        assert(result@.map_values(|x: CharacterRecord| character_view(x)) =~= ordered_by_id(
            s,
            |x: CharacterView| character_id(x),
        ));
        assert(ids@ =~= result@.map_values(|x: CharacterRecord| x.id));
    }
    let mut i: usize = 0;
    while i < zh.len()
        invariant
            i <= zh@.len(),
            characters_of(zh@, en@, i as nat) matches Ok(s) && result@.map_values(
                |x: CharacterRecord| character_view(x),
            ) == ordered_by_id(s, |x: CharacterView| character_id(x)),
            ids@ == result@.map_values(|x: CharacterRecord| x.id),
        decreases zh@.len() - i,
    {
        let key = zh[i].key.as_str();
        if str_equal(key, "aether") || str_equal(key, "lumine") {
            i = i + 1;
            continue;
        }
        let record = match character_record(&zh[i], en) {
            Ok(r) => r,
            Err(e) => {
                proof {
                    lemma_characters_error_stays(zh@, en@, (i + 1) as nat, zh@.len());
                }
                return Err(e);
            },
        };
        let p = position_after(&ids, record.id);
        proof {
            let s = characters_of(zh@, en@, i as nat)->Ok_0;
            let done = ordered_by_id(s, |x: CharacterView| character_id(x));
            assert(done.map_values(|x: CharacterView| character_id(x)) =~= ids@);
            lemma_ordered_len(s, |x: CharacterView| character_id(x));
            lemma_first_above_bound(ids@, record.id);
            let s2 = s.push(character_view(record));
            assert(s2.drop_last() =~= s);
        }
        let ghost before = result@;
        let id = record.id;
        result.insert(p, record);
        ids.insert(p, id);
        proof {
            assert(result@.map_values(|x: CharacterRecord| character_view(x)) =~= before.map_values(
                |x: CharacterRecord| character_view(x),
            ).insert(p as int, character_view(result@[p as int])));
            assert(ids@ =~= result@.map_values(|x: CharacterRecord| x.id));
        }
        i = i + 1;
    }
    Ok(result)
}

/// Why genshin-db data did not give a sound catalog.
#[derive(Debug, Clone)]
pub enum CatalogImportError {
    /// The data lacks what a record needs.
    Build(CatalogBuildError),
    /// The records do not make a sound catalog.
    Invalid(CatalogError),
}

/// Whether a catalog is the one assembled from `repository` with these sets
/// and characters, each ordered by id.
pub open spec fn assembled(
    c: ArtifactCatalog,
    repository: Seq<char>,
    sets: Seq<SetView>,
    chars: Seq<CharacterView>,
) -> bool {
    &&& c.schema_version == SCHEMA_VERSION
    &&& c.source.repository@ == repository
    &&& c.source.commit@ == "main"@
    &&& c.source.game_version@ == "latest"@
    &&& c.artifact_sets@.map_values(|x: ArtifactSetRecord| set_view(x)) == ordered_by_id(
        sets,
        |x: SetView| set_id(x),
    )
    &&& c.characters@.map_values(|x: CharacterRecord| character_view(x)) == ordered_by_id(
        chars,
        |x: CharacterView| character_id(x),
    )
}

/// The catalog of genshin-db's artifact and character folders, taken from
/// `repository`: the sets and characters built from them (the sets first),
/// checked as every catalog is.
pub fn catalog_from_genshin_db(
    artifacts_zh: &[DbEntry],
    artifacts_en: &[DbEntry],
    characters_zh: &[DbEntry],
    characters_en: &[DbEntry],
    repository: &str,
) -> (r: Result<ArtifactCatalog, CatalogImportError>)
    ensures
        match sets_of(artifacts_zh@, artifacts_en@, artifacts_zh@.len()) {
            Err(e) => r matches Err(CatalogImportError::Build(x)) && x@ == e,
            Ok(sets) => match characters_of(characters_zh@, characters_en@, characters_zh@.len()) {
                Err(e) => r matches Err(CatalogImportError::Build(x)) && x@ == e,
                Ok(chars) => match r {
                    Ok(c) => assembled(c, repository@, sets, chars) && catalog_check(c) is Ok,
                    Err(CatalogImportError::Invalid(e)) => exists|c: ArtifactCatalog|
                        #[trigger] assembled(c, repository@, sets, chars) && catalog_check(c)
                            == result_view(Err(e)),
                    Err(CatalogImportError::Build(_)) => false,
                },
            },
        },
{
    let artifact_sets = match build_artifact_sets(artifacts_zh, artifacts_en) {
        Ok(s) => s,
        Err(e) => return Err(CatalogImportError::Build(e)),
    };
    let characters = match build_characters(characters_zh, characters_en) {
        Ok(c) => c,
        Err(e) => return Err(CatalogImportError::Build(e)),
    };
    let catalog = ArtifactCatalog {
        schema_version: SCHEMA_VERSION,
        source: CatalogSource {
            repository: repository.to_owned(),
            commit: "main".to_owned(),
            game_version: "latest".to_owned(),
        },
        artifact_sets,
        characters,
    };
    let checked = catalog.validate();
    match checked {
        Ok(()) => Ok(catalog),
        Err(e) => {
            let ghost sets = sets_of(artifacts_zh@, artifacts_en@, artifacts_zh@.len())->Ok_0;
            let ghost chars = characters_of(characters_zh@, characters_en@, characters_zh@.len())->Ok_0;
            assert(assembled(catalog, repository@, sets, chars));
            Err(CatalogImportError::Invalid(e))
        },
    }
}

} // verus!
