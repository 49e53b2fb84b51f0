use vstd::prelude::*;

use crate::artifact::{
    ArtifactSetName, ArtifactSetNameView, ArtifactSlot, EquippedCharacter, EquippedCharacterView,
};
use crate::edit::{char_edit_distance, levenshtein};
use crate::text::{
    ascii_alnum, ascii_to_upper, chars_equal, concat_chars, chars_of, is_alphanumeric, str_equal, is_ascii_alnum, is_ascii_lower, push_char, to_upper_spec,
    unicode_alphanumeric,
};

verus! {

/// Where a catalog's data was taken from.
#[derive(Debug, Clone)]
pub struct CatalogSource {
    pub repository: String,
    pub commit: String,
    pub game_version: String,
}

/// One piece of an artifact set.
#[derive(Debug, Clone)]
pub struct ArtifactPieceRecord {
    pub name_zh_cn: String,
    pub slot: ArtifactSlot,
}

/// An artifact set with its pieces.
#[derive(Debug, Clone)]
pub struct ArtifactSetRecord {
    pub id: u32,
    pub name_zh_cn: String,
    pub name_en: String,
    pub good_key: String,
    pub pieces: Vec<ArtifactPieceRecord>,
}

/// A character, with the Chinese names it may be shown under.
#[derive(Debug, Clone)]
pub struct CharacterRecord {
    pub id: u32,
    pub name_zh_cn: String,
    pub name_en: String,
    pub good_key: String,
    pub aliases_zh_cn: Vec<String>,
}

} // verus!

verus! {

/// The characters of `s` that are letters or digits, in order: the form in
/// which OCR text and catalog names are compared.
pub open spec fn normalized(s: Seq<char>) -> Seq<char>
    decreases s.len(),
{
    if s.len() == 0 {
        Seq::empty()
    } else if unicode_alphanumeric(s.last()) {
        normalized(s.drop_last()).push(s.last())
    } else {
        normalized(s.drop_last())
    }
}

/// Keeps only the letters and digits of `value`.
pub fn normalize(value: &[char]) -> (r: Vec<char>)
    ensures
        r@ == normalized(value@),
{
    let mut out: Vec<char> = Vec::new();
    let mut i: usize = 0;
    while i < value.len()
        invariant
            i <= value@.len(),
            out@ == normalized(value@.take(i as int)),
        decreases value@.len() - i,
    {
        let c = value[i];
        proof {
            assert(value@.take(i + 1).drop_last() =~= value@.take(i as int));
        }
        if is_alphanumeric(c) {
            out.push(c);
        }
        i = i + 1;
    }
    assert(value@.take(value@.len() as int) =~= value@);
    out
}

/// How many edits an OCR'd piece name may be away from a catalog name of
/// `length` characters.
pub open spec fn piece_tolerance(length: nat) -> nat {
    if length <= 3 {
        0
    } else if length <= 7 {
        1
    } else {
        2
    }
}

/// How many edits an OCR'd character label may be away from a catalog label
/// of `length` characters.
pub open spec fn character_tolerance(length: nat) -> nat {
    if length <= 2 {
        0
    } else if length <= 6 {
        1
    } else {
        2
    }
}

pub fn allowed_piece_distance(length: usize) -> (r: usize)
    ensures
        r == piece_tolerance(length as nat),
{
    if length <= 3 {
        0
    } else if length <= 7 {
        1
    } else {
        2
    }
}

pub fn allowed_character_distance(length: usize) -> (r: usize)
    ensures
        r == character_tolerance(length as nat),
{
    if length <= 2 {
        0
    } else if length <= 6 {
        1
    } else {
        2
    }
}

/// The state of the PascalCase scan after reading `s`: the output so far and
/// whether the next letter or digit starts a new word.
pub open spec fn pascal_scan(s: Seq<char>) -> (Seq<char>, bool)
    decreases s.len(),
{
    if s.len() == 0 {
        (Seq::empty(), true)
    } else {
        let (out, upper_next) = pascal_scan(s.drop_last());
        let ch = s.last();
        if is_ascii_alnum(ch) {
            if upper_next {
                (out.push(to_upper_spec(ch)), false)
            } else {
                (out.push(ch), false)
            }
        } else if ch != '\'' && ch != '’' {
            (out, true)
        } else {
            (out, upper_next)
        }
    }
}

/// The GOOD key of an English name: its ASCII letters and digits, each word
/// started with a capital letter; apostrophes do not break a word, any other
/// character does.
pub open spec fn pascal_key_of(s: Seq<char>) -> Seq<char> {
    pascal_scan(s).0
}

/// A text with no ASCII letter or digit has an empty PascalCase key.
pub proof fn lemma_pascal_scan_empty(s: Seq<char>)
    requires
        forall|i: int| 0 <= i < s.len() ==> !is_ascii_alnum(#[trigger] s[i]),
    ensures
        pascal_scan(s).0.len() == 0,
    decreases s.len(),
{
    if s.len() > 0 {
        let front = s.drop_last();
        assert forall|i: int| 0 <= i < front.len() implies !is_ascii_alnum(#[trigger] front[i]) by {
            assert(front[i] == s[i]);
        }
        lemma_pascal_scan_empty(front);
        assert(!is_ascii_alnum(s[s.len() - 1]));
    }
}

/// The PascalCase scan keeps only ASCII letters and digits, and keeps at
/// least one when the text has one.
pub proof fn lemma_pascal_scan_alnum(s: Seq<char>)
    ensures
        forall|i: int| 0 <= i < pascal_scan(s).0.len() ==> is_ascii_alnum(#[trigger] pascal_scan(s).0[i]),
        (exists|i: int| 0 <= i < s.len() && is_ascii_alnum(#[trigger] s[i])) ==> pascal_scan(s).0.len() > 0,
    decreases s.len(),
{
    if s.len() > 0 {
        let front = s.drop_last();
        lemma_pascal_scan_alnum(front);
        let ch = s.last();
        if is_ascii_alnum(ch) {
            let up = to_upper_spec(ch);
            assert(is_ascii_alnum(up)) by {
                if is_ascii_lower(ch) {
                    assert('A' <= up && up <= 'Z');
                }
            }
        } else {
            assert forall|i: int| 0 <= i < s.len() && is_ascii_alnum(#[trigger] s[i]) implies 0 <= i < front.len()
                && is_ascii_alnum(front[i]) by {
                if i == s.len() - 1 {
                    assert(s[i] == ch);
                }
            }
        }
    }
}

/// The scan's output starts a word while it is empty, so its first
/// character is never a lowercase letter.
pub proof fn lemma_pascal_scan_head(s: Seq<char>)
    ensures
        pascal_scan(s).0.len() == 0 ==> pascal_scan(s).1,
        pascal_scan(s).0.len() > 0 ==> !is_ascii_lower(pascal_scan(s).0[0]),
    decreases s.len(),
{
    if s.len() > 0 {
        lemma_pascal_scan_head(s.drop_last());
        let ch = s.last();
        let (out, upper_next) = pascal_scan(s.drop_last());
        if is_ascii_alnum(ch) && out.len() == 0 {
            let up = to_upper_spec(ch);
            assert(!is_ascii_lower(up)) by {
                if is_ascii_lower(ch) {
                    assert('A' <= up && up <= 'Z');
                }
            }
            assert(pascal_scan(s).0 =~= seq![up]);
        } else if is_ascii_alnum(ch) {
            assert(pascal_scan(s).0[0] == out[0]);
        }
    }
}

/// Scanning a non-empty run of ASCII letters and digits capitalizes its
/// first character and keeps the rest.
pub proof fn lemma_pascal_scan_run(t: Seq<char>)
    requires
        t.len() > 0,
        forall|i: int| 0 <= i < t.len() ==> is_ascii_alnum(#[trigger] t[i]),
    ensures
        pascal_scan(t).0 =~= seq![to_upper_spec(t[0])] + t.skip(1),
        !pascal_scan(t).1,
    decreases t.len(),
{
    if t.len() > 1 {
        let front = t.drop_last();
        assert forall|i: int| 0 <= i < front.len() implies is_ascii_alnum(#[trigger] front[i]) by {
            assert(front[i] == t[i]);
        }
        lemma_pascal_scan_run(front);
        assert(t.last() == t[t.len() - 1]);
        assert(pascal_scan(t).0 == pascal_scan(front).0.push(t.last()));
        assert(seq![to_upper_spec(t[0])] + t.skip(1) =~= (seq![to_upper_spec(front[0])] + front.skip(1)).push(
            t.last(),
        ));
    } else {
        assert(t.drop_last() =~= Seq::<char>::empty());
        assert(pascal_scan(t.drop_last()) == (Seq::<char>::empty(), true));
        assert(t.last() == t[0]);
        assert(t.skip(1) =~= Seq::<char>::empty());
        assert(pascal_scan(t).0 == Seq::<char>::empty().push(to_upper_spec(t[0])));
    }
}

/// Builds the GOOD-style PascalCase key of an English name.
pub fn pascal_key(value: &str) -> (r: String)
    ensures
        r@ == pascal_key_of(value@),
{
    let chars = chars_of(value);
    let mut result = String::new();
    let mut uppercase_next = true;
    let mut i: usize = 0;
    while i < chars.len()
        invariant
            i <= chars@.len(),
            chars@ == value@,
            (result@, uppercase_next) == pascal_scan(chars@.take(i as int)),
        decreases chars@.len() - i,
    {
        let ch = chars[i];
        proof {
            assert(chars@.take(i + 1).drop_last() =~= chars@.take(i as int));
        }
        if ascii_alnum(ch) {
            if uppercase_next {
                push_char(&mut result, ascii_to_upper(ch));
                uppercase_next = false;
            } else {
                push_char(&mut result, ch);
            }
        } else if ch != '\'' && ch != '’' {
            uppercase_next = true;
        }
        i = i + 1;
    }
    assert(chars@.take(chars@.len() as int) =~= chars@);
    result
}

} // verus!

verus! {

/// The artifact sets and characters that scanned text is matched against.
#[derive(Debug, Clone)]
pub struct ArtifactCatalog {
    pub schema_version: u32,
    pub source: CatalogSource,
    pub artifact_sets: Vec<ArtifactSetRecord>,
    pub characters: Vec<CharacterRecord>,
}

/// The catalog piece that a piece name was matched to.
#[derive(Debug, Clone)]
pub struct ArtifactPieceMatch {
    pub set_name: ArtifactSetName,
    pub slot: ArtifactSlot,
    pub piece_name_zh_cn: String,
    pub distance: usize,
}

/// The catalog character that an equip label was matched to.
#[derive(Debug, Clone)]
pub struct CharacterMatch {
    pub character: EquippedCharacter,
    pub distance: usize,
}

/// One comparison of a candidate text with a catalog name: the edit distance,
/// the length that decides the tolerance, the set (or character) the name
/// belongs to and which of its names it is.
#[derive(Debug, Clone, Copy, PartialEq, Eq, Structural)]
pub struct MatchEntry {
    pub distance: usize,
    pub length: usize,
    pub group: usize,
    pub item: usize,
}

/// Why a catalog was refused.
#[derive(Debug, Clone)]
pub enum CatalogError {
    UnsupportedSchema(u32),
    Empty,
    DuplicateSetId(u32),
    InvalidGoodKey(String),
    DuplicatePiece(String),
}

/// What a `CatalogError` says, with its names as character sequences.
pub enum CatalogErrorView {
    UnsupportedSchema(u32),
    Empty,
    DuplicateSetId(u32),
    InvalidGoodKey(Seq<char>),
    DuplicatePiece(Seq<char>),
}

impl View for CatalogError {
    type V = CatalogErrorView;

    open spec fn view(&self) -> CatalogErrorView {
        match self {
            CatalogError::UnsupportedSchema(v) => CatalogErrorView::UnsupportedSchema(*v),
            CatalogError::Empty => CatalogErrorView::Empty,
            CatalogError::DuplicateSetId(id) => CatalogErrorView::DuplicateSetId(*id),
            CatalogError::InvalidGoodKey(k) => CatalogErrorView::InvalidGoodKey(k@),
            CatalogError::DuplicatePiece(n) => CatalogErrorView::DuplicatePiece(n@),
        }
    }
}

/// The schema version this library reads.
pub const SCHEMA_VERSION: u32 = 1;

pub open spec fn piece_name_list(pieces: Seq<ArtifactPieceRecord>) -> Seq<Seq<char>> {
    pieces.map_values(|p: ArtifactPieceRecord| p.name_zh_cn@)
}

/// The Chinese piece names of all `sets`, set by set.
pub open spec fn all_piece_names(sets: Seq<ArtifactSetRecord>) -> Seq<Seq<char>>
    decreases sets.len(),
{
    if sets.len() == 0 {
        Seq::empty()
    } else {
        all_piece_names(sets.drop_last()) + piece_name_list(sets.last().pieces@)
    }
}

/// A GOOD key is a non-empty run of ASCII letters and digits.
pub open spec fn valid_good_key(key: Seq<char>) -> bool {
    key.len() > 0 && forall|i: int| 0 <= i < key.len() ==> is_ascii_alnum(#[trigger] key[i])
}

/// The first of `names` that already occurs before it, in `prior` or earlier
/// in `names`.
pub open spec fn first_repeat(prior: Seq<Seq<char>>, names: Seq<Seq<char>>) -> Option<Seq<char>>
    decreases names.len(),
{
    if names.len() == 0 {
        None
    } else {
        match first_repeat(prior, names.drop_last()) {
            Some(n) => Some(n),
            None => if (prior + names.drop_last()).contains(names.last()) {
                Some(names.last())
            } else {
                None
            },
        }
    }
}

/// The first fault of a list of sets, in the order they are checked: set by
/// set, a repeated id, then an invalid GOOD key, then a repeated piece name.
pub open spec fn first_set_fault(sets: Seq<ArtifactSetRecord>) -> Option<CatalogErrorView>
    decreases sets.len(),
{
    if sets.len() == 0 {
        None
    } else {
        match first_set_fault(sets.drop_last()) {
            Some(e) => Some(e),
            None => {
                let s = sets.last();
                let prior = sets.drop_last();
                if exists|k: int| 0 <= k < prior.len() && (#[trigger] prior[k]).id == s.id {
                    Some(CatalogErrorView::DuplicateSetId(s.id))
                } else if !valid_good_key(s.good_key@) {
                    Some(CatalogErrorView::InvalidGoodKey(s.good_key@))
                } else {
                    match first_repeat(all_piece_names(prior), piece_name_list(s.pieces@)) {
                        Some(n) => Some(CatalogErrorView::DuplicatePiece(n)),
                        None => None,
                    }
                }
            },
        }
    }
}

/// What checking a catalog gives.
pub open spec fn catalog_check(catalog: ArtifactCatalog) -> Result<(), CatalogErrorView> {
    if catalog.schema_version != SCHEMA_VERSION {
        Err(CatalogErrorView::UnsupportedSchema(catalog.schema_version))
    } else if catalog.artifact_sets@.len() == 0 || catalog.characters@.len() == 0 {
        Err(CatalogErrorView::Empty)
    } else {
        match first_set_fault(catalog.artifact_sets@) {
            Some(e) => Err(e),
            None => Ok(()),
        }
    }
}

pub open spec fn result_view(r: Result<(), CatalogError>) -> Result<(), CatalogErrorView> {
    match r {
        Ok(()) => Ok(()),
        Err(e) => Err(e@),
    }
}

fn contains_name(names: &Vec<Vec<char>>, name: &[char]) -> (r: bool)
    ensures
        r == names@.map_values(|n: Vec<char>| n@).contains(name@),
{
    let ghost views = names@.map_values(|n: Vec<char>| n@);
    let mut i: usize = 0;
    while i < names.len()
        invariant
            i <= names@.len(),
            views == names@.map_values(|n: Vec<char>| n@),
            forall|j: int| 0 <= j < i ==> views[j] != name@,
        decreases names@.len() - i,
    {
        if chars_equal(names[i].as_slice(), name) {
            assert(views[i as int] == name@);
            return true;
        }
        i = i + 1;
    }
    false
}

fn contains_id(ids: &Vec<u32>, id: u32) -> (r: bool)
    ensures
        r == ids@.contains(id),
{
    let mut i: usize = 0;
    while i < ids.len()
        invariant
            i <= ids@.len(),
            forall|j: int| 0 <= j < i ==> ids@[j] != id,
        decreases ids@.len() - i,
    {
        if ids[i] == id {
            assert(ids@[i as int] == id);
            return true;
        }
        i = i + 1;
    }
    false
}

fn is_valid_good_key(key: &str) -> (r: bool)
    ensures
        r == valid_good_key(key@),
{
    let chars = chars_of(key);
    if chars.len() == 0 {
        return false;
    }
    let mut i: usize = 0;
    while i < chars.len()
        invariant
            chars@ == key@,
            i <= chars@.len(),
            forall|j: int| 0 <= j < i ==> is_ascii_alnum(#[trigger] chars@[j]),
        decreases chars@.len() - i,
    {
        if !ascii_alnum(chars[i]) {
            return false;
        }
        i = i + 1;
    }
    true
}

} // verus!

verus! {

proof fn lemma_set_fault_prefix(s: Seq<ArtifactSetRecord>, n: int)
    requires
        0 <= n <= s.len(),
        first_set_fault(s.take(n)) is Some,
    ensures
        first_set_fault(s) == first_set_fault(s.take(n)),
    decreases s.len(),
{
    if n == s.len() {
        assert(s.take(n) =~= s);
    } else {
        assert(s.drop_last().take(n) =~= s.take(n));
        lemma_set_fault_prefix(s.drop_last(), n);
    }
}

proof fn lemma_repeat_prefix(prior: Seq<Seq<char>>, names: Seq<Seq<char>>, n: int)
    requires
        0 <= n <= names.len(),
        first_repeat(prior, names.take(n)) is Some,
    ensures
        first_repeat(prior, names) == first_repeat(prior, names.take(n)),
    decreases names.len(),
{
    if n == names.len() {
        assert(names.take(n) =~= names);
    } else {
        assert(names.drop_last().take(n) =~= names.take(n));
        lemma_repeat_prefix(prior, names.drop_last(), n);
    }
}

impl ArtifactCatalog {
    /// Checks the schema version, that there are sets and characters, and
    /// that set ids, GOOD keys and piece names are sound.
    pub fn validate(&self) -> (r: Result<(), CatalogError>)
        ensures
            result_view(r) == catalog_check(*self),
    {
        if self.schema_version != SCHEMA_VERSION {
            return Err(CatalogError::UnsupportedSchema(self.schema_version));
        }
        if self.artifact_sets.len() == 0 || self.characters.len() == 0 {
            return Err(CatalogError::Empty);
        }
        let sets = &self.artifact_sets;
        let mut ids: Vec<u32> = Vec::new();
        let mut names: Vec<Vec<char>> = Vec::new();
        let mut i: usize = 0;
        while i < sets.len()
            invariant
                self.schema_version == SCHEMA_VERSION,
                self.artifact_sets@.len() > 0,
                self.characters@.len() > 0,
                sets == &self.artifact_sets,
                i <= sets@.len(),
                ids@ == sets@.take(i as int).map_values(|s: ArtifactSetRecord| s.id),
                names@.map_values(|n: Vec<char>| n@) == all_piece_names(sets@.take(i as int)),
                first_set_fault(sets@.take(i as int)) is None,
            decreases sets@.len() - i,
        {
            let set = &sets[i];
            let ghost prior = sets@.take(i as int);
            proof {
                assert(sets@.take(i + 1).drop_last() =~= prior);
                assert(sets@.take(i + 1).last() == *set);
            }
            if contains_id(&ids, set.id) {
                proof {
                    let k = choose|k: int| 0 <= k < ids@.len() && ids@[k] == set.id;
                    assert(prior[k].id == set.id);
                    assert(first_set_fault(sets@.take(i + 1)) == Some(
                        CatalogErrorView::DuplicateSetId(set.id),
                    ));
                    lemma_set_fault_prefix(sets@, i + 1);
                    assert(first_set_fault(sets@) == Some(CatalogErrorView::DuplicateSetId(set.id)));
                }
                return Err(CatalogError::DuplicateSetId(set.id));
            }
            assert(!exists|k: int| 0 <= k < prior.len() && (#[trigger] prior[k]).id == set.id) by {
                if exists|k: int| 0 <= k < prior.len() && (#[trigger] prior[k]).id == set.id {
                    let k = choose|k: int| 0 <= k < prior.len() && (#[trigger] prior[k]).id == set.id;
                    assert(ids@[k] == set.id);
                }
            }
            if !is_valid_good_key(set.good_key.as_str()) {
                proof {
                    lemma_set_fault_prefix(sets@, i + 1);
                }
                return Err(CatalogError::InvalidGoodKey(set.good_key.clone()));
            }
            let pieces = &set.pieces;
            let ghost prior_names = all_piece_names(prior);
            let ghost list = piece_name_list(pieces@);
            let mut j: usize = 0;
            while j < pieces.len()
                invariant
                    self.schema_version == SCHEMA_VERSION,
                    self.artifact_sets@.len() > 0,
                    self.characters@.len() > 0,
                    sets == &self.artifact_sets,
                    i < sets@.len(),
                    prior == sets@.take(i as int),
                    *set == sets@[i as int],
                    sets@.take(i + 1).drop_last() == prior,
                    sets@.take(i + 1).last() == *set,
                    first_set_fault(prior) is None,
                    !exists|k: int| 0 <= k < prior.len() && (#[trigger] prior[k]).id == set.id,
                    valid_good_key(set.good_key@),
                    prior_names == all_piece_names(prior),
                    pieces == &set.pieces,
                    j <= pieces@.len(),
                    list == piece_name_list(pieces@),
                    names@.map_values(|n: Vec<char>| n@) == prior_names + list.take(j as int),
                    first_repeat(prior_names, list.take(j as int)) is None,
                decreases pieces@.len() - j,
            {
                let name = chars_of(pieces[j].name_zh_cn.as_str());
                proof {
                    assert(list.take(j + 1).drop_last() =~= list.take(j as int));
                    assert(list.take(j + 1).last() == name@);
                }
                if contains_name(&names, name.as_slice()) {
                    proof {
                        lemma_repeat_prefix(prior_names, list, j + 1);
                        lemma_set_fault_prefix(sets@, i + 1);
                    }
                    return Err(CatalogError::DuplicatePiece(pieces[j].name_zh_cn.clone()));
                }
                let ghost before = names@;
                names.push(name);
                proof {
                    assert(names@.map_values(|n: Vec<char>| n@) =~= before.map_values(
                        |n: Vec<char>| n@,
                    ).push(name@));
                    assert(prior_names + list.take(j + 1) =~= (prior_names + list.take(
                        j as int,
                    )).push(name@));
                }
                j = j + 1;
            }
            proof {
                assert(list.take(pieces@.len() as int) =~= list);
            }
            let ghost before_ids = ids@;
            ids.push(set.id);
            proof {
                assert(ids@ =~= sets@.take(i + 1).map_values(|s: ArtifactSetRecord| s.id));
            }
            i = i + 1;
        }
        proof {
            assert(sets@.take(sets@.len() as int) =~= sets@);
        }
        Ok(())
    }
}

} // verus!

verus! {

/// The comparisons of one (normalized) candidate with the pieces of one set,
/// in catalog order, skipping pieces of another slot when a slot is given.
pub open spec fn piece_entries_in_set(
    candidate: Seq<char>,
    set_index: int,
    pieces: Seq<ArtifactPieceRecord>,
    slot: Option<ArtifactSlot>,
) -> Seq<MatchEntry>
    decreases pieces.len(),
{
    if pieces.len() == 0 {
        Seq::empty()
    } else {
        let earlier = piece_entries_in_set(candidate, set_index, pieces.drop_last(), slot);
        let piece = pieces.last();
        if slot is Some && piece.slot != slot->0 {
            earlier
        } else {
            let target = normalized(piece.name_zh_cn@);
            earlier.push(
                MatchEntry {
                    distance: levenshtein(candidate, target) as usize,
                    length: target.len() as usize,
                    group: set_index as usize,
                    item: (pieces.len() - 1) as usize,
                },
            )
        }
    }
}

/// The comparisons of one candidate with every piece, set by set.
pub open spec fn piece_entries_in_sets(
    candidate: Seq<char>,
    sets: Seq<ArtifactSetRecord>,
    slot: Option<ArtifactSlot>,
) -> Seq<MatchEntry>
    decreases sets.len(),
{
    if sets.len() == 0 {
        Seq::empty()
    } else {
        piece_entries_in_sets(candidate, sets.drop_last(), slot) + piece_entries_in_set(
            candidate,
            sets.len() - 1,
            sets.last().pieces@,
            slot,
        )
    }
}

/// All comparisons made for a list of candidate texts; candidates with no
/// letter or digit are skipped.
pub open spec fn piece_entries(
    candidates: Seq<Seq<char>>,
    sets: Seq<ArtifactSetRecord>,
    slot: Option<ArtifactSlot>,
) -> Seq<MatchEntry>
    decreases candidates.len(),
{
    if candidates.len() == 0 {
        Seq::empty()
    } else {
        let c = normalized(candidates.last());
        piece_entries(candidates.drop_last(), sets, slot) + if c.len() == 0 {
            Seq::empty()
        } else {
            piece_entries_in_sets(c, sets, slot)
        }
    }
}

/// The first of the entries with the least distance.
pub open spec fn first_min_index(e: Seq<MatchEntry>) -> int
    decreases e.len(),
{
    if e.len() <= 1 {
        0
    } else {
        let k = first_min_index(e.drop_last());
        if e.last().distance < e[k].distance {
            e.len() - 1
        } else {
            k
        }
    }
}

/// Whether two piece comparisons are about different catalog pieces.
pub open spec fn other_piece(sets: Seq<ArtifactSetRecord>, x: MatchEntry, y: MatchEntry) -> bool {
    sets[x.group as int].id != sets[y.group as int].id || sets[x.group as int].pieces@[x.item as int].name_zh_cn@
        != sets[y.group as int].pieces@[y.item as int].name_zh_cn@
}

/// The best comparison is refused when it is further than the tolerance for
/// its length, or when a comparison with another piece is as close.
pub open spec fn piece_rejected(sets: Seq<ArtifactSetRecord>, e: Seq<MatchEntry>, best: MatchEntry) -> bool {
    best.distance > piece_tolerance(best.length as nat) || exists|t: int|
        0 <= t < e.len() && other_piece(sets, #[trigger] e[t], best) && e[t].distance <= best.distance
}

/// What a piece match holds.
pub struct PieceMatchView {
    pub set_name: ArtifactSetNameView,
    pub slot: ArtifactSlot,
    pub piece_name_zh_cn: Seq<char>,
    pub distance: usize,
}

impl View for ArtifactPieceMatch {
    type V = PieceMatchView;

    open spec fn view(&self) -> PieceMatchView {
        PieceMatchView {
            set_name: self.set_name@,
            slot: self.slot,
            piece_name_zh_cn: self.piece_name_zh_cn@,
            distance: self.distance,
        }
    }
}

pub open spec fn set_name_view(r: ArtifactSetRecord) -> ArtifactSetNameView {
    ArtifactSetNameView { id: r.id, name_zh_cn: r.name_zh_cn@, name_en: r.name_en@, good_key: r.good_key@ }
}

pub open spec fn str_views(candidates: Seq<&str>) -> Seq<Seq<char>> {
    candidates.map_values(|s: &str| s@)
}

/// The piece that the candidate texts name: the closest catalog piece (the
/// earliest one on a tie), unless it is beyond tolerance or another piece is
/// as close.
pub open spec fn piece_lookup(
    catalog: ArtifactCatalog,
    candidates: Seq<Seq<char>>,
    slot: Option<ArtifactSlot>,
) -> Option<PieceMatchView> {
    let sets = catalog.artifact_sets@;
    let e = piece_entries(candidates, sets, slot);
    if e.len() == 0 {
        None
    } else {
        let best = e[first_min_index(e)];
        if piece_rejected(sets, e, best) {
            None
        } else {
            let set = sets[best.group as int];
            let piece = set.pieces@[best.item as int];
            Some(
                PieceMatchView {
                    set_name: set_name_view(set),
                    slot: piece.slot,
                    piece_name_zh_cn: piece.name_zh_cn@,
                    distance: best.distance,
                },
            )
        }
    }
}

pub open spec fn piece_entry_valid(sets: Seq<ArtifactSetRecord>, x: MatchEntry) -> bool {
    &&& x.group < sets.len()
    &&& x.item < sets[x.group as int].pieces@.len()
}

/// The index of the first entry with the least distance.
fn first_min(entries: &Vec<MatchEntry>) -> (r: usize)
    requires
        entries@.len() > 0,
    ensures
        r == first_min_index(entries@),
        r < entries@.len(),
{
    let mut best: usize = 0;
    let mut i: usize = 1;
    while i < entries.len()
        invariant
            1 <= i <= entries@.len(),
            best < i,
            best == first_min_index(entries@.take(i as int)),
        decreases entries@.len() - i,
    {
        proof {
            assert(entries@.take(i + 1).drop_last() =~= entries@.take(i as int));
        }
        if entries[i].distance < entries[best].distance {
            best = i;
        }
        i = i + 1;
    }
    assert(entries@.take(entries@.len() as int) =~= entries@);
    best
}

impl ArtifactCatalog {
    /// Compares one normalized candidate with the pieces of the set at
    /// `set_index`, appending to `entries`.
    fn push_set_entries(
        &self,
        candidate: &[char],
        set_index: usize,
        slot: Option<ArtifactSlot>,
        entries: &mut Vec<MatchEntry>,
    )
        requires
            set_index < self.artifact_sets@.len(),
            forall|t: int| 0 <= t < old(entries)@.len() ==> piece_entry_valid(self.artifact_sets@, #[trigger] old(entries)@[t]),
        ensures
            final(entries)@ == old(entries)@ + piece_entries_in_set(
                candidate@,
                set_index as int,
                self.artifact_sets@[set_index as int].pieces@,
                slot,
            ),
            forall|t: int| 0 <= t < final(entries)@.len() ==> piece_entry_valid(self.artifact_sets@, #[trigger] final(entries)@[t]),
    {
        let pieces = &self.artifact_sets[set_index].pieces;
        let ghost start = entries@;
        let mut j: usize = 0;
        while j < pieces.len()
            invariant
                set_index < self.artifact_sets@.len(),
                pieces == &self.artifact_sets@[set_index as int].pieces,
                j <= pieces@.len(),
                entries@ == start + piece_entries_in_set(candidate@, set_index as int, pieces@.take(j as int), slot),
                forall|t: int| 0 <= t < entries@.len() ==> piece_entry_valid(self.artifact_sets@, #[trigger] entries@[t]),
            decreases pieces@.len() - j,
        {
            let piece = &pieces[j];
            proof {
                assert(pieces@.take(j + 1).drop_last() =~= pieces@.take(j as int));
            }
            let skip = match slot {
                Some(s) => piece.slot != s,
                None => false,
            };
            if !skip {
                let name = chars_of(piece.name_zh_cn.as_str());
                let target = normalize(name.as_slice());
                let distance = char_edit_distance(candidate, target.as_slice());
                let entry = MatchEntry { distance, length: target.len(), group: set_index, item: j };
                entries.push(entry);
                proof {
                    assert(start + piece_entries_in_set(candidate@, set_index as int, pieces@.take(j + 1), slot)
                        =~= (start + piece_entries_in_set(candidate@, set_index as int, pieces@.take(j as int), slot)).push(entry));
                }
            }
            j = j + 1;
        }
        proof {
            assert(pieces@.take(pieces@.len() as int) =~= pieces@);
        }
    }

    /// Every comparison that matching `candidates` makes, in order.
    fn piece_match_entries(&self, candidates: &[&str], slot: Option<ArtifactSlot>) -> (r: Vec<MatchEntry>)
        ensures
            r@ == piece_entries(str_views(candidates@), self.artifact_sets@, slot),
            forall|t: int| 0 <= t < r@.len() ==> piece_entry_valid(self.artifact_sets@, #[trigger] r@[t]),
    {
        let ghost cands = str_views(candidates@);
        let ghost sets = self.artifact_sets@;
        let mut entries: Vec<MatchEntry> = Vec::new();
        let mut ci: usize = 0;
        while ci < candidates.len()
            invariant
                ci <= candidates@.len(),
                cands == str_views(candidates@),
                sets == self.artifact_sets@,
                entries@ == piece_entries(cands.take(ci as int), sets, slot),
                forall|t: int| 0 <= t < entries@.len() ==> piece_entry_valid(sets, #[trigger] entries@[t]),
            decreases candidates@.len() - ci,
        {
            let raw = chars_of(candidates[ci]);
            let candidate = normalize(raw.as_slice());
            proof {
                assert(cands.take(ci + 1).drop_last() =~= cands.take(ci as int));
                assert(cands.take(ci + 1).last() == raw@);
            }
            let ghost before = entries@;
            if candidate.len() != 0 {
                let mut si: usize = 0;
                while si < self.artifact_sets.len()
                    invariant
                        sets == self.artifact_sets@,
                        si <= sets.len(),
                        entries@ == before + piece_entries_in_sets(candidate@, sets.take(si as int), slot),
                        forall|t: int| 0 <= t < entries@.len() ==> piece_entry_valid(sets, #[trigger] entries@[t]),
                    decreases sets.len() - si,
                {
                    proof {
                        assert(sets.take(si + 1).drop_last() =~= sets.take(si as int));
                    }
                    let ghost mid = entries@;
                    self.push_set_entries(candidate.as_slice(), si, slot, &mut entries);
                    proof {
                        assert(before + piece_entries_in_sets(candidate@, sets.take(si + 1), slot)
                            =~= mid + piece_entries_in_set(candidate@, si as int, sets[si as int].pieces@, slot));
                    }
                    si = si + 1;
                }
                proof {
                    assert(sets.take(sets.len() as int) =~= sets);
                }
            } else {
                assert(before =~= before + Seq::<MatchEntry>::empty());
            }
            ci = ci + 1;
        }
        proof {
            assert(cands.take(candidates@.len() as int) =~= cands);
        }
        entries
    }

    /// Whether two piece comparisons concern different catalog pieces.
    fn entries_differ(&self, x: MatchEntry, y: MatchEntry) -> (r: bool)
        requires
            piece_entry_valid(self.artifact_sets@, x),
            piece_entry_valid(self.artifact_sets@, y),
        ensures
            r == other_piece(self.artifact_sets@, x, y),
    {
        let sx = &self.artifact_sets[x.group];
        let sy = &self.artifact_sets[y.group];
        sx.id != sy.id || !str_equal(
            sx.pieces[x.item].name_zh_cn.as_str(),
            sy.pieces[y.item].name_zh_cn.as_str(),
        )
    }

    fn find_piece_for_slot(&self, candidates: &[&str], slot: Option<ArtifactSlot>) -> (r: Option<
        ArtifactPieceMatch,
    >)
        ensures
            r matches Some(m) ==> piece_lookup(*self, str_views(candidates@), slot) == Some(m@),
            r is None ==> piece_lookup(*self, str_views(candidates@), slot) is None,
    {
        let entries = self.piece_match_entries(candidates, slot);
        if entries.len() == 0 {
            return None;
        }
        let best_index = first_min(&entries);
        let best = entries[best_index];
        proof {
            assert(piece_entry_valid(self.artifact_sets@, entries@[best_index as int]));
        }
        if best.distance > allowed_piece_distance(best.length) {
            return None;
        }
        let mut i: usize = 0;
        while i < entries.len()
            invariant
                i <= entries@.len(),
                entries@ == piece_entries(str_views(candidates@), self.artifact_sets@, slot),
                entries@.len() > 0,
                best == entries@[first_min_index(entries@)],
                piece_entry_valid(self.artifact_sets@, best),
                forall|t: int| 0 <= t < entries@.len() ==> piece_entry_valid(self.artifact_sets@, #[trigger] entries@[t]),
                forall|t: int| 0 <= t < i ==> !(other_piece(self.artifact_sets@, #[trigger] entries@[t], best) && entries@[t].distance <= best.distance),
            decreases entries@.len() - i,
        {
            let e = entries[i];
            if e.distance <= best.distance && self.entries_differ(e, best) {
                assert(other_piece(self.artifact_sets@, entries@[i as int], best));
                assert(entries@[i as int].distance <= best.distance);
                assert(piece_rejected(self.artifact_sets@, entries@, best));
                return None;
            }
            i = i + 1;
        }
        let set = &self.artifact_sets[best.group];
        let piece = &set.pieces[best.item];
        Some(
            ArtifactPieceMatch {
                set_name: ArtifactSetName::from_record(set),
                slot: piece.slot,
                piece_name_zh_cn: piece.name_zh_cn.clone(),
                distance: best.distance,
            },
        )
    }

    /// Matches OCR'd piece names against the catalog.
    pub fn find_piece(&self, candidates: &[&str]) -> (r: Option<ArtifactPieceMatch>)
        ensures
            r matches Some(m) ==> piece_lookup(*self, str_views(candidates@), None) == Some(m@),
            r is None ==> piece_lookup(*self, str_views(candidates@), None) is None,
    {
        self.find_piece_for_slot(candidates, None)
    }

    /// Matches OCR'd piece names against the catalog pieces of one slot.
    pub fn find_piece_in_slot(&self, candidates: &[&str], slot: &ArtifactSlot) -> (r: Option<
        ArtifactPieceMatch,
    >)
        ensures
            r matches Some(m) ==> piece_lookup(*self, str_views(candidates@), Some(*slot)) == Some(m@),
            r is None ==> piece_lookup(*self, str_views(candidates@), Some(*slot)) is None,
    {
        self.find_piece_for_slot(candidates, Some(*slot))
    }
}

/// Keeping only letters and digits never lengthens a name.
pub proof fn lemma_normalized_shorter(s: Seq<char>)
    ensures
        normalized(s).len() <= s.len(),
    decreases s.len(),
{
    if s.len() > 0 {
        lemma_normalized_shorter(s.drop_last());
    }
}

/// The name of a catalog piece in the form in which it is compared.
pub open spec fn piece_target(sets: Seq<ArtifactSetRecord>, group: int, item: int) -> Seq<char> {
    normalized(sets[group].pieces@[item].name_zh_cn@)
}

/// No two catalog pieces have the same letters and digits in their names.
pub open spec fn piece_targets_distinct(sets: Seq<ArtifactSetRecord>) -> bool {
    forall|g1: int, k1: int, g2: int, k2: int|
        0 <= g1 < sets.len() && 0 <= k1 < sets[g1].pieces@.len() && 0 <= g2 < sets.len() && 0 <= k2
            < sets[g2].pieces@.len() && (g1 != g2 || k1 != k2) ==> #[trigger] piece_target(sets, g1, k1)
            != #[trigger] piece_target(sets, g2, k2)
}

/// Every piece name has fewer characters than a `usize` can count.
pub open spec fn piece_names_fit(sets: Seq<ArtifactSetRecord>) -> bool {
    forall|g: int, k: int|
        0 <= g < sets.len() && 0 <= k < sets[g].pieces@.len() ==> #[trigger] sets[g].pieces@[k].name_zh_cn@.len()
            <= usize::MAX
}

/// With no slot given, a set yields one comparison per piece, in order.
proof fn lemma_set_entries_all(candidate: Seq<char>, set_index: int, pieces: Seq<ArtifactPieceRecord>)
    requires
        0 <= set_index <= usize::MAX,
        pieces.len() <= usize::MAX,
    ensures
        piece_entries_in_set(candidate, set_index, pieces, None).len() == pieces.len(),
        forall|t: int|
            0 <= t < pieces.len() ==> #[trigger] piece_entries_in_set(candidate, set_index, pieces, None)[t]
                == (MatchEntry {
                distance: levenshtein(candidate, normalized(pieces[t].name_zh_cn@)) as usize,
                length: normalized(pieces[t].name_zh_cn@).len() as usize,
                group: set_index as usize,
                item: t as usize,
            }),
    decreases pieces.len(),
{
    if pieces.len() > 0 {
        lemma_set_entries_all(candidate, set_index, pieces.drop_last());
    }
}

/// Every comparison made with one candidate names a catalog piece and holds
/// the distance from the candidate to that piece's name.
pub proof fn lemma_sets_entries_all(candidate: Seq<char>, sets: Seq<ArtifactSetRecord>)
    requires
        sets.len() <= usize::MAX,
    ensures
        forall|u: int|
            0 <= u < piece_entries_in_sets(candidate, sets, None).len() ==> {
                let x = #[trigger] piece_entries_in_sets(candidate, sets, None)[u];
                &&& piece_entry_valid(sets, x)
                &&& x.distance == levenshtein(candidate, piece_target(sets, x.group as int, x.item as int)) as usize
            },
    decreases sets.len(),
{
    if sets.len() > 0 {
        let front = sets.drop_last();
        lemma_sets_entries_all(candidate, front);
        let last = sets.last();
        assert(last.pieces@.len() == last.pieces.len());
        lemma_set_entries_all(candidate, sets.len() - 1, last.pieces@);
        let a = piece_entries_in_sets(candidate, front, None);
        let b = piece_entries_in_set(candidate, sets.len() - 1, last.pieces@, None);
        assert forall|u: int| 0 <= u < piece_entries_in_sets(candidate, sets, None).len() implies {
            let x = #[trigger] piece_entries_in_sets(candidate, sets, None)[u];
            &&& piece_entry_valid(sets, x)
            &&& x.distance == levenshtein(candidate, piece_target(sets, x.group as int, x.item as int)) as usize
        } by {
            if u < a.len() {
                let x = a[u];
                assert(piece_entry_valid(front, x));
                assert(front[x.group as int] == sets[x.group as int]);
            } else {
                assert(b[u - a.len()].group == sets.len() - 1);
            }
        }
    }
}

/// Each piece of the catalog is compared with the candidate somewhere in the
/// list of comparisons.
pub proof fn lemma_sets_entry_of(candidate: Seq<char>, sets: Seq<ArtifactSetRecord>, g: int, k: int) -> (t: int)
    requires
        sets.len() <= usize::MAX,
        0 <= g < sets.len(),
        0 <= k < sets[g].pieces@.len(),
    ensures
        0 <= t < piece_entries_in_sets(candidate, sets, None).len(),
        piece_entries_in_sets(candidate, sets, None)[t].group == g,
        piece_entries_in_sets(candidate, sets, None)[t].item == k,
    decreases sets.len(),
{
    let front = sets.drop_last();
    let a = piece_entries_in_sets(candidate, front, None);
    if g == sets.len() - 1 {
        let last = sets.last();
        assert(last.pieces@.len() == last.pieces.len());
        lemma_set_entries_all(candidate, sets.len() - 1, last.pieces@);
        let b = piece_entries_in_set(candidate, sets.len() - 1, last.pieces@, None);
        assert(b[k].group == g);
        a.len() + k
    } else {
        let t = lemma_sets_entry_of(candidate, front, g, k);
        assert(a[t].group == g);
        t
    }
}

/// The first least entry is no further than any other.
pub proof fn lemma_first_min_index(e: Seq<MatchEntry>)
    requires
        e.len() > 0,
    ensures
        0 <= first_min_index(e) < e.len(),
        forall|t: int| 0 <= t < e.len() ==> e[first_min_index(e)].distance <= #[trigger] e[t].distance,
    decreases e.len(),
{
    if e.len() > 1 {
        lemma_first_min_index(e.drop_last());
        assert forall|t: int| 0 <= t < e.len() implies e[first_min_index(e)].distance <= #[trigger] e[t].distance by {
            if t < e.len() - 1 {
                assert(e.drop_last()[t] == e[t]);
            }
        }
    }
}

} // verus!

verus! {

/// The Chinese names a character may be shown under: its name, then its
/// aliases.
pub open spec fn character_names(ch: CharacterRecord) -> Seq<Seq<char>> {
    seq![ch.name_zh_cn@] + ch.aliases_zh_cn@.map_values(|a: String| a@)
}

/// The equip label the game shows for a character name.
pub open spec fn equipped_label(name: Seq<char>) -> Seq<char> {
    name + "已装备"@
}

pub open spec fn label_entry(candidate: Seq<char>, group: int, item: int, label: Seq<char>) -> MatchEntry {
    MatchEntry {
        distance: levenshtein(candidate, normalized(label)) as usize,
        length: label.len() as usize,
        group: group as usize,
        item: item as usize,
    }
}

/// The comparisons of a candidate with the names of one character: each
/// name, then its equip label.
pub open spec fn name_entries(candidate: Seq<char>, group: int, names: Seq<Seq<char>>) -> Seq<MatchEntry>
    decreases names.len(),
{
    if names.len() == 0 {
        Seq::empty()
    } else {
        let n = names.last();
        let item = names.len() - 1;
        name_entries(candidate, group, names.drop_last()).push(label_entry(candidate, group, item, n)).push(
            label_entry(candidate, group, item, equipped_label(n)),
        )
    }
}

pub open spec fn character_entries_in(candidate: Seq<char>, chars: Seq<CharacterRecord>) -> Seq<MatchEntry>
    decreases chars.len(),
{
    if chars.len() == 0 {
        Seq::empty()
    } else {
        character_entries_in(candidate, chars.drop_last()) + name_entries(
            candidate,
            chars.len() - 1,
            character_names(chars.last()),
        )
    }
}

/// All comparisons made for a list of candidate equip texts.
pub open spec fn character_entries(candidates: Seq<Seq<char>>, chars: Seq<CharacterRecord>) -> Seq<MatchEntry>
    decreases candidates.len(),
{
    if candidates.len() == 0 {
        Seq::empty()
    } else {
        let c = normalized(candidates.last());
        character_entries(candidates.drop_last(), chars) + if c.len() == 0 {
            Seq::empty()
        } else {
            character_entries_in(c, chars)
        }
    }
}

/// The best comparison is refused when it is further than the tolerance for
/// its label length, or when a comparison with another character is as close.
pub open spec fn character_rejected(chars: Seq<CharacterRecord>, e: Seq<MatchEntry>, best: MatchEntry) -> bool {
    best.distance > character_tolerance(best.length as nat) || exists|t: int|
        0 <= t < e.len() && chars[(#[trigger] e[t]).group as int].id != chars[best.group as int].id
            && e[t].distance <= best.distance
}

/// What a character match holds.
pub struct CharacterMatchView {
    pub character: EquippedCharacterView,
    pub distance: usize,
}

impl View for CharacterMatch {
    type V = CharacterMatchView;

    open spec fn view(&self) -> CharacterMatchView {
        CharacterMatchView { character: self.character@, distance: self.distance }
    }
}

pub open spec fn character_view(r: CharacterRecord) -> EquippedCharacterView {
    EquippedCharacterView { id: r.id, name_zh_cn: r.name_zh_cn@, good_key: r.good_key@ }
}

/// The character that candidate equip texts name.
pub open spec fn character_lookup(catalog: ArtifactCatalog, candidates: Seq<Seq<char>>) -> Option<CharacterMatchView> {
    let chars = catalog.characters@;
    let e = character_entries(candidates, chars);
    if e.len() == 0 {
        None
    } else {
        let best = e[first_min_index(e)];
        if character_rejected(chars, e, best) {
            None
        } else {
            Some(CharacterMatchView { character: character_view(chars[best.group as int]), distance: best.distance })
        }
    }
}

impl ArtifactCatalog {
    fn push_label_entry(
        candidate: &[char],
        group: usize,
        item: usize,
        label: &[char],
        entries: &mut Vec<MatchEntry>,
    )
        ensures
            final(entries)@ == old(entries)@.push(label_entry(candidate@, group as int, item as int, label@)),
    {
        let target = normalize(label);
        let distance = char_edit_distance(candidate, target.as_slice());
        entries.push(MatchEntry { distance, length: label.len(), group, item });
    }

    fn push_character_entries(&self, candidate: &[char], group: usize, entries: &mut Vec<MatchEntry>)
        requires
            group < self.characters@.len(),
            forall|t: int| 0 <= t < old(entries)@.len() ==> (#[trigger] old(entries)@[t]).group < self.characters@.len(),
        ensures
            final(entries)@ == old(entries)@ + name_entries(
                candidate@,
                group as int,
                character_names(self.characters@[group as int]),
            ),
            forall|t: int| 0 <= t < final(entries)@.len() ==> (#[trigger] final(entries)@[t]).group < self.characters@.len(),
    {
        let ch = &self.characters[group];
        let ghost names = character_names(*ch);
        let ghost start = entries@;
        let suffix = chars_of("已装备");
        let count = ch.aliases_zh_cn.len();
        let main = chars_of(ch.name_zh_cn.as_str());
        proof {
            assert(names.take(1).drop_last() =~= names.take(0));
            assert(names.take(1).last() == main@);
            assert(names.take(0) =~= Seq::<Seq<char>>::empty());
        }
        Self::push_label_entry(candidate, group, 0, main.as_slice(), entries);
        let main_label = concat_chars(main.as_slice(), suffix.as_slice());
        Self::push_label_entry(candidate, group, 0, main_label.as_slice(), entries);
        proof {
            assert(name_entries(candidate@, group as int, names.take(0)) =~= Seq::<MatchEntry>::empty());
            assert(name_entries(candidate@, group as int, names.take(1)) =~= seq![
                label_entry(candidate@, group as int, 0, main@),
                label_entry(candidate@, group as int, 0, equipped_label(main@)),
            ]);
            assert(start + name_entries(candidate@, group as int, names.take(1)) =~= entries@);
        }
        let mut n: usize = 0;
        while n < count
            invariant
                group < self.characters@.len(),
                ch == &self.characters@[group as int],
                names == character_names(*ch),
                names.len() == count + 1,
                count == ch.aliases_zh_cn@.len(),
                suffix@ == "已装备"@,
                n <= count,
                entries@ == start + name_entries(candidate@, group as int, names.take(n + 1)),
                forall|t: int| 0 <= t < entries@.len() ==> (#[trigger] entries@[t]).group < self.characters@.len(),
            decreases count - n,
        {
            let name = chars_of(ch.aliases_zh_cn[n].as_str());
            proof {
                assert(names.take(n + 2).drop_last() =~= names.take(n + 1));
                assert(names.take(n + 2).last() == name@);
            }
            Self::push_label_entry(candidate, group, n + 1, name.as_slice(), entries);
            let label = concat_chars(name.as_slice(), suffix.as_slice());
            Self::push_label_entry(candidate, group, n + 1, label.as_slice(), entries);
            proof {
                assert(start + name_entries(candidate@, group as int, names.take(n + 2)) =~= entries@);
            }
            n = n + 1;
        }
        proof {
            assert(names.take(count + 1) =~= names);
        }
    }

    fn character_match_entries(&self, candidates: &[&str]) -> (r: Vec<MatchEntry>)
        ensures
            r@ == character_entries(str_views(candidates@), self.characters@),
            forall|t: int| 0 <= t < r@.len() ==> (#[trigger] r@[t]).group < self.characters@.len(),
    {
        let ghost cands = str_views(candidates@);
        let ghost chars = self.characters@;
        let mut entries: Vec<MatchEntry> = Vec::new();
        let mut ci: usize = 0;
        while ci < candidates.len()
            invariant
                ci <= candidates@.len(),
                cands == str_views(candidates@),
                chars == self.characters@,
                entries@ == character_entries(cands.take(ci as int), chars),
                forall|t: int| 0 <= t < entries@.len() ==> (#[trigger] entries@[t]).group < chars.len(),
            decreases candidates@.len() - ci,
        {
            let raw = chars_of(candidates[ci]);
            let candidate = normalize(raw.as_slice());
            proof {
                assert(cands.take(ci + 1).drop_last() =~= cands.take(ci as int));
                assert(cands.take(ci + 1).last() == raw@);
            }
            let ghost before = entries@;
            if candidate.len() != 0 {
                let mut k: usize = 0;
                while k < self.characters.len()
                    invariant
                        chars == self.characters@,
                        k <= chars.len(),
                        entries@ == before + character_entries_in(candidate@, chars.take(k as int)),
                        forall|t: int| 0 <= t < entries@.len() ==> (#[trigger] entries@[t]).group < chars.len(),
                    decreases chars.len() - k,
                {
                    proof {
                        assert(chars.take(k + 1).drop_last() =~= chars.take(k as int));
                    }
                    let ghost mid = entries@;
                    self.push_character_entries(candidate.as_slice(), k, &mut entries);
                    proof {
                        assert(before + character_entries_in(candidate@, chars.take(k + 1)) =~= mid
                            + name_entries(candidate@, k as int, character_names(chars[k as int])));
                    }
                    k = k + 1;
                }
                proof {
                    assert(chars.take(chars.len() as int) =~= chars);
                }
            } else {
                assert(before =~= before + Seq::<MatchEntry>::empty());
            }
            ci = ci + 1;
        }
        proof {
            assert(cands.take(candidates@.len() as int) =~= cands);
        }
        entries
    }

    /// Matches OCR'd equip labels against the catalog characters.
    pub fn find_character(&self, candidates: &[&str]) -> (r: Option<CharacterMatch>)
        ensures
            r matches Some(m) ==> character_lookup(*self, str_views(candidates@)) == Some(m@),
            r is None ==> character_lookup(*self, str_views(candidates@)) is None,
    {
        let entries = self.character_match_entries(candidates);
        if entries.len() == 0 {
            return None;
        }
        let best_index = first_min(&entries);
        let best = entries[best_index];
        if best.distance > allowed_character_distance(best.length) {
            return None;
        }
        let best_id = self.characters[best.group].id;
        let mut i: usize = 0;
        while i < entries.len()
            invariant
                i <= entries@.len(),
                entries@ == character_entries(str_views(candidates@), self.characters@),
                entries@.len() > 0,
                best == entries@[first_min_index(entries@)],
                best.group < self.characters@.len(),
                best_id == self.characters@[best.group as int].id,
                forall|t: int| 0 <= t < entries@.len() ==> (#[trigger] entries@[t]).group < self.characters@.len(),
                forall|t: int|
                    0 <= t < i ==> !(self.characters@[(#[trigger] entries@[t]).group as int].id != best_id
                        && entries@[t].distance <= best.distance),
            decreases entries@.len() - i,
        {
            let e = entries[i];
            if e.distance <= best.distance && self.characters[e.group].id != best_id {
                assert(character_rejected(self.characters@, entries@, best));
                return None;
            }
            i = i + 1;
        }
        Some(
            CharacterMatch {
                character: EquippedCharacter::from_record(&self.characters[best.group]),
                distance: best.distance,
            },
        )
    }
}

} // verus!

verus! {

/// Whether a slot filter lets a piece through.
pub open spec fn slot_allows(slot: Option<ArtifactSlot>, piece: ArtifactPieceRecord) -> bool {
    slot is None || piece.slot == slot->0
}

/// The comparison of a (normalized) candidate with the piece at `item` of
/// the set at `set_index`.
pub open spec fn entry_for(candidate: Seq<char>, set_index: int, item: int, piece: ArtifactPieceRecord) -> MatchEntry {
    let target = normalized(piece.name_zh_cn@);
    MatchEntry {
        distance: levenshtein(candidate, target) as usize,
        length: target.len() as usize,
        group: set_index as usize,
        item: item as usize,
    }
}

/// A set's comparisons are those of its pieces that the slot filter lets
/// through.
pub proof fn lemma_set_entry_members(
    candidate: Seq<char>,
    set_index: int,
    pieces: Seq<ArtifactPieceRecord>,
    slot: Option<ArtifactSlot>,
)
    ensures
        forall|x: MatchEntry| #[trigger]
            piece_entries_in_set(candidate, set_index, pieces, slot).contains(x) <==> exists|k: int|
                0 <= k < pieces.len() && slot_allows(slot, pieces[k]) && x == #[trigger] entry_for(
                    candidate,
                    set_index,
                    k,
                    pieces[k],
                ),
    decreases pieces.len(),
{
    if pieces.len() > 0 {
        let front = pieces.drop_last();
        lemma_set_entry_members(candidate, set_index, front, slot);
        let earlier = piece_entries_in_set(candidate, set_index, front, slot);
        let last = pieces.len() - 1;
        assert(pieces[last] == pieces.last());
        assert forall|x: MatchEntry| #[trigger]
            piece_entries_in_set(candidate, set_index, pieces, slot).contains(x) <==> exists|k: int|
                0 <= k < pieces.len() && slot_allows(slot, pieces[k]) && x == #[trigger] entry_for(
                    candidate,
                    set_index,
                    k,
                    pieces[k],
                ) by {
            let all = piece_entries_in_set(candidate, set_index, pieces, slot);
            if all.contains(x) {
                if earlier.contains(x) {
                    let k = choose|k: int|
                        0 <= k < front.len() && slot_allows(slot, front[k]) && x == #[trigger] entry_for(
                            candidate,
                            set_index,
                            k,
                            front[k],
                        );
                    assert(front[k] == pieces[k]);
                } else {
                    if slot_allows(slot, pieces.last()) {
                        let t = choose|t: int| 0 <= t < all.len() && all[t] == x;
                        assert(all == earlier.push(entry_for(candidate, set_index, last, pieces[last])));
                        if t < earlier.len() {
                            assert(earlier[t] == x);
                        }
                        assert(x == entry_for(candidate, set_index, last, pieces[last]));
                    } else {
                        assert(all == earlier);
                    }
                }
            }
            if exists|k: int|
                0 <= k < pieces.len() && slot_allows(slot, pieces[k]) && x == #[trigger] entry_for(
                    candidate,
                    set_index,
                    k,
                    pieces[k],
                ) {
                let k = choose|k: int|
                    0 <= k < pieces.len() && slot_allows(slot, pieces[k]) && x == #[trigger] entry_for(
                        candidate,
                        set_index,
                        k,
                        pieces[k],
                    );
                if k < last {
                    assert(front[k] == pieces[k]);
                    assert(earlier.contains(x));
                    if slot_allows(slot, pieces.last()) {
                        let j = choose|j: int| 0 <= j < earlier.len() && earlier[j] == x;
                        assert(all == earlier.push(entry_for(candidate, set_index, last, pieces[last])));
                        assert(all[j] == x);
                    } else {
                        assert(all == earlier);
                    }
                } else {
                    assert(all == earlier.push(entry_for(candidate, set_index, last, pieces[last])));
                    assert(all[all.len() - 1] == x);
                }
            }
        }
    }
}

/// What two sequences joined hold is what either holds.
pub proof fn lemma_concat_contains<A>(a: Seq<A>, b: Seq<A>)
    ensures
        forall|x: A| #[trigger] (a + b).contains(x) <==> a.contains(x) || b.contains(x),
{
    assert forall|x: A| #[trigger] (a + b).contains(x) <==> a.contains(x) || b.contains(x) by {
        if (a + b).contains(x) {
            let t = choose|t: int| 0 <= t < (a + b).len() && (a + b)[t] == x;
            if t < a.len() {
                assert(a[t] == x);
            } else {
                assert(b[t - a.len()] == x);
            }
        }
        if a.contains(x) {
            let t = choose|t: int| 0 <= t < a.len() && a[t] == x;
            assert((a + b)[t] == x);
        }
        if b.contains(x) {
            let t = choose|t: int| 0 <= t < b.len() && b[t] == x;
            assert((a + b)[t + a.len()] == x);
        }
    }
}

/// The comparisons of one candidate with the catalog are those with the
/// pieces that the slot filter lets through.
pub proof fn lemma_sets_entry_members(candidate: Seq<char>, sets: Seq<ArtifactSetRecord>, slot: Option<ArtifactSlot>)
    ensures
        forall|x: MatchEntry| #[trigger]
            piece_entries_in_sets(candidate, sets, slot).contains(x) <==> exists|g: int, k: int|
                0 <= g < sets.len() && 0 <= k < sets[g].pieces@.len() && slot_allows(slot, sets[g].pieces@[k])
                    && x == #[trigger] entry_for(candidate, g, k, sets[g].pieces@[k]),
    decreases sets.len(),
{
    if sets.len() > 0 {
        let front = sets.drop_last();
        let g0 = sets.len() - 1;
        lemma_sets_entry_members(candidate, front, slot);
        lemma_set_entry_members(candidate, g0, sets.last().pieces@, slot);
        let a = piece_entries_in_sets(candidate, front, slot);
        let b = piece_entries_in_set(candidate, g0, sets.last().pieces@, slot);
        lemma_concat_contains(a, b);
        assert(sets[g0] == sets.last());
        assert forall|x: MatchEntry| #[trigger]
            piece_entries_in_sets(candidate, sets, slot).contains(x) <==> exists|g: int, k: int|
                0 <= g < sets.len() && 0 <= k < sets[g].pieces@.len() && slot_allows(slot, sets[g].pieces@[k])
                    && x == #[trigger] entry_for(candidate, g, k, sets[g].pieces@[k]) by {
            if a.contains(x) {
                let (g, k) = choose|g: int, k: int|
                    0 <= g < front.len() && 0 <= k < front[g].pieces@.len() && slot_allows(slot, front[g].pieces@[k])
                        && x == #[trigger] entry_for(candidate, g, k, front[g].pieces@[k]);
                assert(front[g] == sets[g]);
            }
            if b.contains(x) {
                let k = choose|k: int|
                    0 <= k < sets.last().pieces@.len() && slot_allows(slot, sets.last().pieces@[k]) && x
                        == #[trigger] entry_for(candidate, g0, k, sets.last().pieces@[k]);
                assert(x == entry_for(candidate, g0, k, sets[g0].pieces@[k]));
            }
            if exists|g: int, k: int|
                0 <= g < sets.len() && 0 <= k < sets[g].pieces@.len() && slot_allows(slot, sets[g].pieces@[k])
                    && x == #[trigger] entry_for(candidate, g, k, sets[g].pieces@[k]) {
                let (g, k) = choose|g: int, k: int|
                    0 <= g < sets.len() && 0 <= k < sets[g].pieces@.len() && slot_allows(slot, sets[g].pieces@[k])
                        && x == #[trigger] entry_for(candidate, g, k, sets[g].pieces@[k]);
                if g < g0 {
                    assert(front[g] == sets[g]);
                    assert(x == entry_for(candidate, g, k, front[g].pieces@[k]));
                    assert(a.contains(x));
                } else {
                    assert(x == entry_for(candidate, g0, k, sets.last().pieces@[k]));
                    assert(b.contains(x));
                }
            }
        }
    }
}

/// The comparisons made for a list of candidates are those made for each
/// candidate that has a letter or digit.
pub proof fn lemma_entry_members(cands: Seq<Seq<char>>, sets: Seq<ArtifactSetRecord>, slot: Option<ArtifactSlot>)
    ensures
        forall|x: MatchEntry| #[trigger]
            piece_entries(cands, sets, slot).contains(x) <==> exists|i: int|
                0 <= i < cands.len() && normalized(cands[i]).len() > 0 && #[trigger] piece_entries_in_sets(
                    normalized(cands[i]),
                    sets,
                    slot,
                ).contains(x),
    decreases cands.len(),
{
    if cands.len() > 0 {
        let front = cands.drop_last();
        let i0 = cands.len() - 1;
        lemma_entry_members(front, sets, slot);
        let c = normalized(cands.last());
        let a = piece_entries(front, sets, slot);
        let b = if c.len() == 0 {
            Seq::<MatchEntry>::empty()
        } else {
            piece_entries_in_sets(c, sets, slot)
        };
        lemma_concat_contains(a, b);
        assert(cands[i0] == cands.last());
        assert forall|x: MatchEntry| #[trigger]
            piece_entries(cands, sets, slot).contains(x) <==> exists|i: int|
                0 <= i < cands.len() && normalized(cands[i]).len() > 0 && #[trigger] piece_entries_in_sets(
                    normalized(cands[i]),
                    sets,
                    slot,
                ).contains(x) by {
            if a.contains(x) {
                let i = choose|i: int|
                    0 <= i < front.len() && normalized(front[i]).len() > 0 && #[trigger] piece_entries_in_sets(
                        normalized(front[i]),
                        sets,
                        slot,
                    ).contains(x);
                assert(front[i] == cands[i]);
            }
            if b.contains(x) {
                assert(c.len() > 0);
                assert(piece_entries_in_sets(normalized(cands[i0]), sets, slot).contains(x));
            }
            if exists|i: int|
                0 <= i < cands.len() && normalized(cands[i]).len() > 0 && #[trigger] piece_entries_in_sets(
                    normalized(cands[i]),
                    sets,
                    slot,
                ).contains(x) {
                let i = choose|i: int|
                    0 <= i < cands.len() && normalized(cands[i]).len() > 0 && #[trigger] piece_entries_in_sets(
                        normalized(cands[i]),
                        sets,
                        slot,
                    ).contains(x);
                if i < i0 {
                    assert(front[i] == cands[i]);
                    assert(piece_entries_in_sets(normalized(front[i]), sets, slot).contains(x));
                    assert(a.contains(x));
                } else {
                    assert(b.contains(x));
                }
            }
        }
    } else {
        assert(piece_entries(cands, sets, slot) =~= Seq::<MatchEntry>::empty());
    }
}

/// A comparison made for a list of candidates names a catalog piece that
/// the slot filter lets through, with that piece's name length.
pub proof fn lemma_member_facts(
    cands: Seq<Seq<char>>,
    sets: Seq<ArtifactSetRecord>,
    slot: Option<ArtifactSlot>,
    x: MatchEntry,
) -> (gk: (int, int))
    requires
        sets.len() <= usize::MAX,
        piece_entries(cands, sets, slot).contains(x),
    ensures
        0 <= gk.0 < sets.len(),
        0 <= gk.1 < sets[gk.0].pieces@.len(),
        slot_allows(slot, sets[gk.0].pieces@[gk.1]),
        x.group == gk.0,
        x.item == gk.1,
        x.length == normalized(sets[gk.0].pieces@[gk.1].name_zh_cn@).len() as usize,
{
    lemma_entry_members(cands, sets, slot);
    let i = choose|i: int|
        0 <= i < cands.len() && normalized(cands[i]).len() > 0 && #[trigger] piece_entries_in_sets(
            normalized(cands[i]),
            sets,
            slot,
        ).contains(x);
    let c = normalized(cands[i]);
    lemma_sets_entry_members(c, sets, slot);
    let (g, k) = choose|g: int, k: int|
        0 <= g < sets.len() && 0 <= k < sets[g].pieces@.len() && slot_allows(slot, sets[g].pieces@[k]) && x
            == #[trigger] entry_for(c, g, k, sets[g].pieces@[k]);
    assert(sets[g].pieces@.len() == sets[g].pieces.len());
    (g, k)
}

/// A catalog's sets, and each set's pieces, are numbered by `usize`.
pub proof fn lemma_catalog_bounds(catalog: ArtifactCatalog)
    ensures
        catalog.artifact_sets@.len() <= usize::MAX,
        forall|h: int|
            0 <= h < catalog.artifact_sets@.len() ==> (#[trigger] catalog.artifact_sets@[h]).pieces@.len()
                <= usize::MAX,
{
    assert(catalog.artifact_sets@.len() == catalog.artifact_sets.len());
    assert forall|h: int| 0 <= h < catalog.artifact_sets@.len() implies (
    #[trigger] catalog.artifact_sets@[h]).pieces@.len() <= usize::MAX by {
        assert(catalog.artifact_sets@[h].pieces@.len() == catalog.artifact_sets@[h].pieces.len());
    }
}

/// Whether `(g1, k1)` comes before `(g2, k2)` in catalog order.
pub open spec fn catalog_before(g1: int, k1: int, g2: int, k2: int) -> bool {
    g1 < g2 || (g1 == g2 && k1 < k2)
}

/// Every entry before the first one with the least distance is further.
pub proof fn lemma_first_min_is_first(e: Seq<MatchEntry>)
    requires
        e.len() > 0,
    ensures
        forall|t: int| 0 <= t < first_min_index(e) ==> #[trigger] e[t].distance > e[first_min_index(e)].distance,
    decreases e.len(),
{
    if e.len() > 1 {
        let front = e.drop_last();
        lemma_first_min_is_first(front);
        lemma_first_min_index(front);
        let k = first_min_index(front);
        assert forall|t: int| 0 <= t < first_min_index(e) implies #[trigger] e[t].distance > e[first_min_index(
            e,
        )].distance by {
            assert(front[t] == e[t]);
            if e.last().distance < e[k].distance {
                assert(front[t].distance >= front[k].distance);
            }
        }
    }
}

/// Within one set's comparisons for a candidate, a piece of the same name
/// as a compared piece, earlier in the set and let through by the slot
/// filter, was compared before it, at the same distance.
proof fn lemma_set_twins_earlier(c: Seq<char>, gi: int, pieces: Seq<ArtifactPieceRecord>, slot: Option<ArtifactSlot>)
    requires
        0 <= gi <= usize::MAX,
        pieces.len() <= usize::MAX,
    ensures
        forall|t: int, k: int|
            #![trigger piece_entries_in_set(c, gi, pieces, slot)[t], pieces[k]]
            0 <= t < piece_entries_in_set(c, gi, pieces, slot).len() && 0 <= k < pieces.len() && slot_allows(
                slot,
                pieces[k],
            ) && k < piece_entries_in_set(c, gi, pieces, slot)[t].item && pieces[k].name_zh_cn@
                == pieces[piece_entries_in_set(c, gi, pieces, slot)[t].item as int].name_zh_cn@
                ==> exists|u: int|
                0 <= u < t && #[trigger] piece_entries_in_set(c, gi, pieces, slot)[u] == entry_for(
                    c,
                    gi,
                    k,
                    pieces[k],
                ),
    decreases pieces.len(),
{
    let e = piece_entries_in_set(c, gi, pieces, slot);
    if pieces.len() > 0 {
        let front = pieces.drop_last();
        let earlier = piece_entries_in_set(c, gi, front, slot);
        lemma_set_twins_earlier(c, gi, front, slot);
        lemma_set_entry_members(c, gi, front, slot);
        lemma_set_entry_members(c, gi, pieces, slot);
        assert forall|t: int, k: int|
            0 <= t < e.len() && 0 <= k < pieces.len() && slot_allows(slot, pieces[k]) && k < e[t].item
                && pieces[k].name_zh_cn@ == pieces[e[t].item as int].name_zh_cn@ implies exists|u: int|
            0 <= u < t && #[trigger] e[u] == entry_for(c, gi, k, pieces[k]) by {
            assert(e.contains(e[t]));
            let k0 = choose|k0: int|
                0 <= k0 < pieces.len() && slot_allows(slot, pieces[k0]) && e[t] == #[trigger] entry_for(
                    c,
                    gi,
                    k0,
                    pieces[k0],
                );
            assert(e[t].item == k0);
            assert(k < k0);
            assert(front[k] == pieces[k]);
            if t < earlier.len() {
                assert(e[t] == earlier[t]);
                assert(earlier.contains(earlier[t]));
                let k1 = choose|k1: int|
                    0 <= k1 < front.len() && slot_allows(slot, front[k1]) && earlier[t] == #[trigger] entry_for(
                        c,
                        gi,
                        k1,
                        front[k1],
                    );
                assert(k1 == k0);
                assert(front[k0] == pieces[k0]);
                let u = choose|u: int| 0 <= u < t && #[trigger] earlier[u] == entry_for(c, gi, k, front[k]);
                assert(e[u] == earlier[u]);
            } else {
                assert(earlier.contains(entry_for(c, gi, k, front[k])));
                let u = choose|u: int| 0 <= u < earlier.len() && earlier[u] == entry_for(c, gi, k, front[k]);
                assert(e[u] == earlier[u]);
            }
        }
    }
}

/// Within one candidate's comparisons, a piece of the same name as a
/// compared piece, earlier in the catalog and let through by the slot
/// filter, was compared before it, at the same distance.
proof fn lemma_sets_twins_earlier(c: Seq<char>, sets: Seq<ArtifactSetRecord>, slot: Option<ArtifactSlot>)
    requires
        sets.len() <= usize::MAX,
        forall|g: int| 0 <= g < sets.len() ==> (#[trigger] sets[g]).pieces@.len() <= usize::MAX,
    ensures
        forall|t: int, g: int, k: int|
            #![trigger piece_entries_in_sets(c, sets, slot)[t], sets[g].pieces@[k]]
            0 <= t < piece_entries_in_sets(c, sets, slot).len() && 0 <= g < sets.len() && 0 <= k
                < sets[g].pieces@.len() && slot_allows(slot, sets[g].pieces@[k]) && catalog_before(
                g,
                k,
                piece_entries_in_sets(c, sets, slot)[t].group as int,
                piece_entries_in_sets(c, sets, slot)[t].item as int,
            ) && sets[g].pieces@[k].name_zh_cn@ == sets[piece_entries_in_sets(
                c,
                sets,
                slot,
            )[t].group as int].pieces@[piece_entries_in_sets(c, sets, slot)[t].item as int].name_zh_cn@
                ==> exists|u: int|
                0 <= u < t && (#[trigger] piece_entries_in_sets(c, sets, slot)[u]).group == g
                    && piece_entries_in_sets(c, sets, slot)[u].item == k && piece_entries_in_sets(
                    c,
                    sets,
                    slot,
                )[u].distance == piece_entries_in_sets(c, sets, slot)[t].distance,
    decreases sets.len(),
{
    let e = piece_entries_in_sets(c, sets, slot);
    if sets.len() > 0 {
        let front = sets.drop_last();
        let gi = sets.len() - 1;
        let pieces = sets.last().pieces@;
        assert(sets[gi] == sets.last());
        assert forall|g: int| 0 <= g < front.len() implies (#[trigger] front[g]).pieces@.len() <= usize::MAX by {
            assert(front[g] == sets[g]);
        }
        lemma_sets_twins_earlier(c, front, slot);
        lemma_set_twins_earlier(c, gi, pieces, slot);
        lemma_sets_entry_members(c, front, slot);
        lemma_sets_entry_members(c, sets, slot);
        lemma_set_entry_members(c, gi, pieces, slot);
        let l = piece_entries_in_sets(c, front, slot);
        let r = piece_entries_in_set(c, gi, pieces, slot);
        assert(e == l + r);
        assert forall|t: int, g: int, k: int|
            0 <= t < e.len() && 0 <= g < sets.len() && 0 <= k < sets[g].pieces@.len() && slot_allows(
                slot,
                sets[g].pieces@[k],
            ) && catalog_before(g, k, e[t].group as int, e[t].item as int) && sets[g].pieces@[k].name_zh_cn@
                == sets[e[t].group as int].pieces@[e[t].item as int].name_zh_cn@ implies exists|u: int|
            0 <= u < t && (#[trigger] e[u]).group == g && e[u].item == k && e[u].distance == e[t].distance by {
            assert(e.contains(e[t]));
            let (g0, k0) = choose|g0: int, k0: int|
                0 <= g0 < sets.len() && 0 <= k0 < sets[g0].pieces@.len() && slot_allows(slot, sets[g0].pieces@[k0])
                    && e[t] == #[trigger] entry_for(c, g0, k0, sets[g0].pieces@[k0]);
            assert(e[t].group == g0 && e[t].item == k0);
            let target = entry_for(c, g, k, sets[g].pieces@[k]);
            assert(target.distance == e[t].distance);
            if t < l.len() {
                assert(e[t] == l[t]);
                assert(l.contains(l[t]));
                let (g1, k1) = choose|g1: int, k1: int|
                    0 <= g1 < front.len() && 0 <= k1 < front[g1].pieces@.len() && slot_allows(
                        slot,
                        front[g1].pieces@[k1],
                    ) && l[t] == #[trigger] entry_for(c, g1, k1, front[g1].pieces@[k1]);
                assert(g1 == g0 && k1 == k0);
                assert(front[g0] == sets[g0]);
                assert(g < front.len());
                assert(front[g] == sets[g]);
                assert(front[g].pieces@[k] == sets[g].pieces@[k]);
                let u = choose|u: int|
                    0 <= u < t && (#[trigger] l[u]).group == g && l[u].item == k && l[u].distance
                        == l[t].distance;
                assert(e[u] == l[u]);
            } else {
                let tr = t - l.len();
                assert(e[t] == r[tr]);
                assert(r.contains(r[tr]));
                let kk = choose|kk: int|
                    0 <= kk < pieces.len() && slot_allows(slot, pieces[kk]) && r[tr] == #[trigger] entry_for(
                        c,
                        gi,
                        kk,
                        pieces[kk],
                    );
                assert(r[tr].group == gi);
                assert(g0 == gi);
                if g == gi {
                    assert(r.contains(r[tr]));
                    assert(pieces[k] == sets[g].pieces@[k]);
                    assert(pieces[k0] == sets[g0].pieces@[k0]);
                    assert(r[tr].item == k0);
                    let u = choose|u: int| 0 <= u < tr && #[trigger] r[u] == entry_for(c, gi, k, pieces[k]);
                    assert(e[l.len() + u] == r[u]);
                } else {
                    assert(g < front.len());
                    assert(front[g] == sets[g]);
                    assert(l.contains(entry_for(c, g, k, front[g].pieces@[k])));
                    let u = choose|u: int| 0 <= u < l.len() && l[u] == entry_for(c, g, k, front[g].pieces@[k]);
                    assert(e[u] == l[u]);
                }
            }
        }
    }
}

/// Across a list of candidates, a piece of the same name as a compared
/// piece, earlier in the catalog and let through by the slot filter, was
/// compared before it for the same candidate, at the same distance.
proof fn lemma_entries_twins_earlier(cands: Seq<Seq<char>>, sets: Seq<ArtifactSetRecord>, slot: Option<ArtifactSlot>)
    requires
        sets.len() <= usize::MAX,
        forall|g: int| 0 <= g < sets.len() ==> (#[trigger] sets[g]).pieces@.len() <= usize::MAX,
    ensures
        forall|t: int, g: int, k: int|
            #![trigger piece_entries(cands, sets, slot)[t], sets[g].pieces@[k]]
            0 <= t < piece_entries(cands, sets, slot).len() && 0 <= g < sets.len() && 0 <= k
                < sets[g].pieces@.len() && slot_allows(slot, sets[g].pieces@[k]) && catalog_before(
                g,
                k,
                piece_entries(cands, sets, slot)[t].group as int,
                piece_entries(cands, sets, slot)[t].item as int,
            ) && sets[g].pieces@[k].name_zh_cn@ == sets[piece_entries(
                cands,
                sets,
                slot,
            )[t].group as int].pieces@[piece_entries(cands, sets, slot)[t].item as int].name_zh_cn@
                ==> exists|u: int|
                0 <= u < t && (#[trigger] piece_entries(cands, sets, slot)[u]).group == g && piece_entries(
                    cands,
                    sets,
                    slot,
                )[u].item == k && piece_entries(cands, sets, slot)[u].distance == piece_entries(
                    cands,
                    sets,
                    slot,
                )[t].distance,
    decreases cands.len(),
{
    let e = piece_entries(cands, sets, slot);
    if cands.len() > 0 {
        let front = cands.drop_last();
        lemma_entries_twins_earlier(front, sets, slot);
        let l = piece_entries(front, sets, slot);
        let c = normalized(cands.last());
        let r = if c.len() == 0 {
            Seq::<MatchEntry>::empty()
        } else {
            piece_entries_in_sets(c, sets, slot)
        };
        assert(e == l + r);
        if c.len() > 0 {
            lemma_sets_twins_earlier(c, sets, slot);
        }
        assert forall|t: int, g: int, k: int|
            0 <= t < e.len() && 0 <= g < sets.len() && 0 <= k < sets[g].pieces@.len() && slot_allows(
                slot,
                sets[g].pieces@[k],
            ) && catalog_before(g, k, e[t].group as int, e[t].item as int) && sets[g].pieces@[k].name_zh_cn@
                == sets[e[t].group as int].pieces@[e[t].item as int].name_zh_cn@ implies exists|u: int|
            0 <= u < t && (#[trigger] e[u]).group == g && e[u].item == k && e[u].distance == e[t].distance by {
            if t < l.len() {
                assert(e[t] == l[t]);
                let u = choose|u: int|
                    0 <= u < t && (#[trigger] l[u]).group == g && l[u].item == k && l[u].distance
                        == l[t].distance;
                assert(e[u] == l[u]);
            } else {
                let tr = t - l.len();
                assert(e[t] == r[tr]);
                let u = choose|u: int|
                    0 <= u < tr && (#[trigger] r[u]).group == g && r[u].item == k && r[u].distance
                        == r[tr].distance;
                assert(e[l.len() + u] == r[u]);
            }
        }
    }
}

/// The best comparison names the earliest catalog piece of its name that
/// the slot filter lets through.
pub proof fn lemma_best_is_earliest_of_its_name(cands: Seq<Seq<char>>, sets: Seq<ArtifactSetRecord>, slot: Option<ArtifactSlot>, g: int, k: int)
    requires
        sets.len() <= usize::MAX,
        forall|h: int| 0 <= h < sets.len() ==> (#[trigger] sets[h]).pieces@.len() <= usize::MAX,
        piece_entries(cands, sets, slot).len() > 0,
        0 <= g < sets.len(),
        0 <= k < sets[g].pieces@.len(),
        slot_allows(slot, sets[g].pieces@[k]),
        sets[g].pieces@[k].name_zh_cn@ == sets[piece_entries(cands, sets, slot)[first_min_index(
            piece_entries(cands, sets, slot),
        )].group as int].pieces@[piece_entries(cands, sets, slot)[first_min_index(
            piece_entries(cands, sets, slot),
        )].item as int].name_zh_cn@,
    ensures
        !catalog_before(
            g,
            k,
            piece_entries(cands, sets, slot)[first_min_index(piece_entries(cands, sets, slot))].group as int,
            piece_entries(cands, sets, slot)[first_min_index(piece_entries(cands, sets, slot))].item as int,
        ),
{
    let e = piece_entries(cands, sets, slot);
    lemma_first_min_index(e);
    lemma_first_min_is_first(e);
    lemma_entries_twins_earlier(cands, sets, slot);
    let t = first_min_index(e);
    if catalog_before(g, k, e[t].group as int, e[t].item as int) {
        assert(sets[g].pieces@[k] == sets[g].pieces@[k]);
        let u = choose|u: int|
            0 <= u < t && (#[trigger] e[u]).group == g && e[u].item == k && e[u].distance == e[t].distance;
        assert(e[u].distance > e[t].distance);
    }
}

/// Two lists of candidates whose comparisons hold the same entries are
/// matched alike.
pub proof fn lemma_same_members_same_lookup(
    catalog: ArtifactCatalog,
    c1: Seq<Seq<char>>,
    c2: Seq<Seq<char>>,
    slot: Option<ArtifactSlot>,
)
    requires
        forall|x: MatchEntry|
            #![trigger piece_entries(c1, catalog.artifact_sets@, slot).contains(x)]
            #![trigger piece_entries(c2, catalog.artifact_sets@, slot).contains(x)]
            piece_entries(c1, catalog.artifact_sets@, slot).contains(x) <==> piece_entries(
                c2,
                catalog.artifact_sets@,
                slot,
            ).contains(x),
    ensures
        piece_lookup(catalog, c1, slot) == piece_lookup(catalog, c2, slot),
{
    let sets = catalog.artifact_sets@;
    assert(sets.len() == catalog.artifact_sets.len());
    let e1 = piece_entries(c1, sets, slot);
    let e2 = piece_entries(c2, sets, slot);
    if e1.len() == 0 || e2.len() == 0 {
        if e1.len() > 0 {
            assert(e1.contains(e1[0]));
        }
        if e2.len() > 0 {
            assert(e2.contains(e2[0]));
        }
    } else {
        lemma_first_min_index(e1);
        lemma_first_min_index(e2);
        let b1 = e1[first_min_index(e1)];
        let b2 = e2[first_min_index(e2)];
        assert(e1.contains(b1));
        assert(e2.contains(b2));
        let t2 = choose|t: int| 0 <= t < e2.len() && e2[t] == b1;
        let t1 = choose|t: int| 0 <= t < e1.len() && e1[t] == b2;
        assert(b1.distance == b2.distance);
        if other_piece(sets, b2, b1) {
            assert(other_piece(sets, e1[t1], b1) && e1[t1].distance <= b1.distance);
            assert(other_piece(sets, e2[t2], b2) && e2[t2].distance <= b2.distance);
        } else {
            let (g1, k1) = lemma_member_facts(c1, sets, slot, b1);
            let (g2, k2) = lemma_member_facts(c2, sets, slot, b2);
            lemma_catalog_bounds(catalog);
            lemma_best_is_earliest_of_its_name(c1, sets, slot, g2, k2);
            lemma_best_is_earliest_of_its_name(c2, sets, slot, g1, k1);
            assert(g1 == g2 && k1 == k2);
            assert(b1 == b2);
            assert(piece_rejected(sets, e1, b1) == piece_rejected(sets, e2, b2)) by {
                if piece_rejected(sets, e1, b1) && b1.distance <= piece_tolerance(b1.length as nat) {
                    let t = choose|t: int|
                        0 <= t < e1.len() && other_piece(sets, #[trigger] e1[t], b1) && e1[t].distance
                            <= b1.distance;
                    assert(e1.contains(e1[t]));
                    let u = choose|u: int| 0 <= u < e2.len() && e2[u] == e1[t];
                    assert(other_piece(sets, e2[u], b2) && e2[u].distance <= b2.distance);
                }
                if piece_rejected(sets, e2, b2) && b2.distance <= piece_tolerance(b2.length as nat) {
                    let t = choose|t: int|
                        0 <= t < e2.len() && other_piece(sets, #[trigger] e2[t], b2) && e2[t].distance
                            <= b2.distance;
                    assert(e2.contains(e2[t]));
                    let u = choose|u: int| 0 <= u < e1.len() && e1[u] == e2[t];
                    assert(other_piece(sets, e1[u], b1) && e1[u].distance <= b1.distance);
                }
            }
        }
    }
}

} // verus!
