use vstd::prelude::*;

use crate::catalog::{character_lookup, piece_lookup, ArtifactCatalog};
use crate::scan::{
    artifact_level, compact_number, five_star_max_main_value, infer_max_level_from_main_stat,
    is_semantically_blank, max_level_for, parse_artifact_level, plausible_substat_text,
    GenshinArtifactScanResult, LevelError,
};
use crate::worker::{
    corrected_row, correct_substat, equip_label, exact_equip, exact_title, matched_equip,
    matched_title, needs_pending_check, pending_row, raw_title, read_pending_row,
    semantically_blank, slot_from_label, slot_from_label_spec, slot_title,
    substat_needs_second_reading,
};

verus! {

broadcast use vstd::string::group_string_axioms;

/// A field of an artifact's detail panel.
#[derive(Clone, Copy, Debug, PartialEq, Eq, Structural)]
pub enum PanelField {
    Title,
    SlotLabel,
    MainStatName,
    MainStatValue,
    Level,
    SubStat(usize),
    Equip,
}

/// Why a panel could not be read: neither reading of the level text gave a
/// level, and the main stat shows no value that only the highest level has.
#[derive(Clone, Debug)]
pub struct LevelFailure {
    pub fast_text: String,
    pub fast_error: LevelError,
    pub general_text: String,
    pub general_error: LevelError,
}

/// What the reader of a panel is to do next.
pub enum PanelAction {
    /// Read this field with the fast OCR model and hand back the text.
    ReadFast(PanelField),
    /// Read this field with the general OCR model and hand back the text.
    ReadGeneral(PanelField),
    /// The panel is read.
    Done(Result<GenshinArtifactScanResult, LevelFailure>),
}

/// The reading a panel reader waits for.
#[derive(Clone, Copy, Debug, PartialEq, Eq, Structural)]
pub enum PanelStage {
    TitleFast,
    TitleGeneral,
    SlotLabel,
    MainName,
    MainValue,
    LevelFast,
    LevelGeneral,
    SubFast(usize),
    PendingGeneral,
    Correct(usize),
    EquipFast,
    EquipGeneral,
    /// The panel was read.
    Finished,
    /// No level could be read.
    Failed,
}

/// Whether a reading is over.
pub open spec fn over(stage: PanelStage) -> bool {
    stage is Finished || stage is Failed
}

/// The field a stage reads, and whether with the fast model.
pub open spec fn requested(stage: PanelStage) -> Option<(PanelField, bool)> {
    match stage {
        PanelStage::TitleFast => Some((PanelField::Title, true)),
        PanelStage::TitleGeneral => Some((PanelField::Title, false)),
        PanelStage::SlotLabel => Some((PanelField::SlotLabel, false)),
        PanelStage::MainName => Some((PanelField::MainStatName, true)),
        PanelStage::MainValue => Some((PanelField::MainStatValue, true)),
        PanelStage::LevelFast => Some((PanelField::Level, true)),
        PanelStage::LevelGeneral => Some((PanelField::Level, false)),
        PanelStage::SubFast(i) => Some((PanelField::SubStat(i), true)),
        PanelStage::PendingGeneral => Some((PanelField::SubStat(3), false)),
        PanelStage::Correct(i) => Some((PanelField::SubStat(i), false)),
        PanelStage::EquipFast => Some((PanelField::Equip, true)),
        PanelStage::EquipGeneral => Some((PanelField::Equip, false)),
        PanelStage::Finished | PanelStage::Failed => None,
    }
}

/// The piece name that a fast title reading names exactly, if any.
pub open spec fn exact_title_of(c: ArtifactCatalog, fast: Seq<char>) -> Option<Seq<char>> {
    match piece_lookup(c, seq![fast], None) {
        Some(m) => if m.distance == 0 {
            Some(m.piece_name_zh_cn)
        } else {
            None
        },
        None => None,
    }
}

/// The piece name that the general and the fast title readings match best.
pub open spec fn matched_title_of(c: ArtifactCatalog, fast: Seq<char>, general: Seq<char>) -> Option<Seq<char>> {
    match piece_lookup(c, seq![general, fast], None) {
        Some(m) => Some(m.piece_name_zh_cn),
        None => None,
    }
}

/// The piece name that the title readings match best among the pieces of
/// the slot that the slot label names.
pub open spec fn slot_title_of(c: ArtifactCatalog, fast: Seq<char>, general: Seq<char>, label: Seq<char>) -> Option<
    Seq<char>,
> {
    match slot_from_label_spec(label) {
        Some(slot) => match piece_lookup(c, seq![general, fast], Some(slot)) {
            Some(m) => Some(m.piece_name_zh_cn),
            None => None,
        },
        None => None,
    }
}

/// The title as read: the general reading, or the fast one when that is empty.
pub open spec fn raw_title_of(fast: Seq<char>, general: Seq<char>) -> Seq<char> {
    if general.len() == 0 {
        fast
    } else {
        general
    }
}

/// The equip label that a fast reading names exactly, if any.
pub open spec fn exact_equip_of(c: ArtifactCatalog, fast: Seq<char>) -> Option<Seq<char>> {
    match character_lookup(c, seq![fast]) {
        Some(m) => if m.distance == 0 {
            Some(equip_label(m.character.name_zh_cn))
        } else {
            None
        },
        None => None,
    }
}

/// The equip label that the general and the fast readings match best, or
/// nothing.
pub open spec fn matched_equip_of(c: ArtifactCatalog, fast: Seq<char>, general: Seq<char>) -> Seq<char> {
    match character_lookup(c, seq![general, fast]) {
        Some(m) => equip_label(m.character.name_zh_cn),
        None => Seq::empty(),
    }
}

/// The level that a main stat value shows on a highest-level artifact.
pub open spec fn inferred_level(star: usize, value: Seq<char>) -> Option<i32> {
    if star == 5 && five_star_max_main_value(compact_number(value)) {
        Some(20i32)
    } else {
        None
    }
}

/// What a panel reading holds: the rarity and lock it reads with, the stage
/// it is in, the title and equip readings kept for a second reading, the
/// name, main stat, level text and its error, level, the four sub-stat
/// rows, whether the fourth is active, and the equip label.
pub struct PanelReadView {
    pub star: usize,
    pub lock: bool,
    pub stage: PanelStage,
    pub fast: Seq<char>,
    pub general: Seq<char>,
    pub name: Seq<char>,
    pub main_name: Seq<char>,
    pub main_value: Seq<char>,
    pub level_text: Seq<char>,
    pub fast_error: LevelError,
    pub level: i32,
    pub sub0: Seq<char>,
    pub sub1: Seq<char>,
    pub sub2: Seq<char>,
    pub sub3: Seq<char>,
    pub active3: bool,
    pub equip: Seq<char>,
}

/// The reading before any text: waiting for the fast title reading.
pub open spec fn initial_reading(star: usize, lock: bool) -> PanelReadView {
    PanelReadView {
        star,
        lock,
        stage: PanelStage::TitleFast,
        fast: Seq::empty(),
        general: Seq::empty(),
        name: Seq::empty(),
        main_name: Seq::empty(),
        main_value: Seq::empty(),
        level_text: Seq::empty(),
        fast_error: LevelError::NotANumber,
        level: 0,
        sub0: Seq::empty(),
        sub1: Seq::empty(),
        sub2: Seq::empty(),
        sub3: Seq::empty(),
        active3: true,
        equip: Seq::empty(),
    }
}

/// Sub-stat row `j` of a reading.
pub open spec fn row(v: PanelReadView, j: int) -> Seq<char> {
    if j == 0 {
        v.sub0
    } else if j == 1 {
        v.sub1
    } else if j == 2 {
        v.sub2
    } else {
        v.sub3
    }
}

/// A reading with sub-stat row `j` set to `text`.
pub open spec fn with_row(v: PanelReadView, j: int, text: Seq<char>) -> PanelReadView {
    if j == 0 {
        PanelReadView { sub0: text, ..v }
    } else if j == 1 {
        PanelReadView { sub1: text, ..v }
    } else if j == 2 {
        PanelReadView { sub2: text, ..v }
    } else {
        PanelReadView { sub3: text, ..v }
    }
}

/// Whether row `j` needs no second reading: it is blank or a plausible
/// stat (as a pending roll for an inactive fourth row).
pub open spec fn row_fine(v: PanelReadView, j: int) -> bool {
    semantically_blank(row(v, j)) || plausible_substat_text(row(v, j), !(j < 3 || v.active3))
}

/// The first row from `from` on that needs a second reading.
pub open spec fn first_to_correct(v: PanelReadView, from: int) -> Option<int>
    decreases 4 - from,
{
    if from >= 4 || from < 0 {
        None
    } else if !row_fine(v, from) {
        Some(from)
    } else {
        first_to_correct(v, from + 1)
    }
}

/// The stage after the rows before `from` were checked: the second reading
/// of the next row that needs one, or else the equip label.
pub open spec fn correction_stage(v: PanelReadView, from: int) -> PanelStage {
    match first_to_correct(v, from) {
        Some(j) => PanelStage::Correct(j as usize),
        None => PanelStage::EquipFast,
    }
}

/// The reading after `text` was read for the field that `v` waits for.
pub open spec fn next_reading(c: ArtifactCatalog, v: PanelReadView, text: Seq<char>) -> PanelReadView {
    match v.stage {
        PanelStage::TitleFast => match exact_title_of(c, text) {
            Some(n) => PanelReadView { name: n, stage: PanelStage::MainName, ..v },
            None => PanelReadView { fast: text, stage: PanelStage::TitleGeneral, ..v },
        },
        PanelStage::TitleGeneral => match matched_title_of(c, v.fast, text) {
            Some(n) => PanelReadView { name: n, stage: PanelStage::MainName, ..v },
            None => PanelReadView { general: text, stage: PanelStage::SlotLabel, ..v },
        },
        PanelStage::SlotLabel => PanelReadView {
            name: match slot_title_of(c, v.fast, v.general, text) {
                Some(n) => n,
                None => raw_title_of(v.fast, v.general),
            },
            stage: PanelStage::MainName,
            ..v
        },
        PanelStage::MainName => PanelReadView { main_name: text, stage: PanelStage::MainValue, ..v },
        PanelStage::MainValue => PanelReadView { main_value: text, stage: PanelStage::LevelFast, ..v },
        PanelStage::LevelFast => match artifact_level(text, v.star) {
            Ok(l) => PanelReadView { level: l, stage: PanelStage::SubFast(0), ..v },
            Err(e) => PanelReadView {
                level_text: text,
                fast_error: e,
                stage: PanelStage::LevelGeneral,
                ..v
            },
        },
        PanelStage::LevelGeneral => match artifact_level(text, v.star) {
            Ok(l) => PanelReadView { level: l, stage: PanelStage::SubFast(0), ..v },
            Err(_) => match inferred_level(v.star, v.main_value) {
                Some(l) => PanelReadView { level: l, stage: PanelStage::SubFast(0), ..v },
                None => PanelReadView { stage: PanelStage::Failed, ..v },
            },
        },
        PanelStage::SubFast(i) => {
            let w = with_row(v, i as int, text);
            if i < 3 {
                PanelReadView { stage: PanelStage::SubFast((i + 1) as usize), ..w }
            } else if v.star == 5 && v.level < 4 && text.len() > 0 {
                PanelReadView { stage: PanelStage::PendingGeneral, ..w }
            } else {
                PanelReadView { stage: correction_stage(w, 0), ..w }
            }
        },
        PanelStage::PendingGeneral => {
            let w = PanelReadView {
                active3: pending_row(text, v.sub3).0,
                sub3: pending_row(text, v.sub3).1,
                ..v
            };
            PanelReadView { stage: correction_stage(w, 0), ..w }
        },
        PanelStage::Correct(i) => {
            let w = with_row(v, i as int, corrected_row(text, !(i < 3 || v.active3)));
            PanelReadView { stage: correction_stage(w, i + 1), ..w }
        },
        PanelStage::EquipFast => if semantically_blank(text) {
            PanelReadView { equip: Seq::empty(), stage: PanelStage::Finished, ..v }
        } else {
            match exact_equip_of(c, text) {
                Some(l) => PanelReadView { equip: l, stage: PanelStage::Finished, ..v },
                None => PanelReadView { fast: text, stage: PanelStage::EquipGeneral, ..v },
            }
        },
        PanelStage::EquipGeneral => PanelReadView {
            equip: matched_equip_of(c, v.fast, text),
            stage: PanelStage::Finished,
            ..v
        },
        PanelStage::Finished | PanelStage::Failed => v,
    }
}

/// The scan result that a finished reading `v` gives.
pub open spec fn result_of(r: GenshinArtifactScanResult, v: PanelReadView) -> bool {
    &&& r.name@ == v.name
    &&& r.main_stat_name@ == v.main_name
    &&& r.main_stat_value@ == v.main_value
    &&& r.sub_stat@[0]@ == v.sub0
    &&& r.sub_stat@[1]@ == v.sub1
    &&& r.sub_stat@[2]@ == v.sub2
    &&& r.sub_stat@[3]@ == v.sub3
    &&& r.sub_stat_active@ == seq![true, true, true, v.active3]
    &&& r.equip@ == v.equip
    &&& r.level == v.level
    &&& r.star == v.star
    &&& r.lock == v.lock
}

/// Whether `a` is what reading `v` asks for or gives, after `text` was the
/// last reading: the field its stage reads; the scan result once finished;
/// and, once failed, both level texts with why each was refused.
pub open spec fn action_fits(a: PanelAction, v: PanelReadView, text: Seq<char>) -> bool {
    match a {
        PanelAction::ReadFast(f) => requested(v.stage) == Some((f, true)),
        PanelAction::ReadGeneral(f) => requested(v.stage) == Some((f, false)),
        PanelAction::Done(Ok(r)) => v.stage is Finished && result_of(r, v),
        PanelAction::Done(Err(e)) => {
            &&& v.stage is Failed
            &&& e.fast_text@ == v.level_text
            &&& e.fast_error == v.fast_error
            &&& e.general_text@ == text
            &&& artifact_level(text, v.star) == Err::<i32, LevelError>(e.general_error)
        },
    }
}

/// Whether a reading of a panel is sound: it keeps the rarity and lock it
/// was read with, its level lies within what that rarity allows, the first
/// three sub-stats are active and an inactive fourth one is only possible
/// on a five-star artifact below level 4, and each sub-stat row is blank or
/// a plausible stat.
pub open spec fn sound_reading(r: GenshinArtifactScanResult, star: usize, lock: bool) -> bool {
    &&& r.star == star
    &&& r.lock == lock
    &&& max_level_for(star) matches Some(m) && 0 <= r.level <= m
    &&& r.sub_stat_active@[0] && r.sub_stat_active@[1] && r.sub_stat_active@[2]
    &&& !r.sub_stat_active@[3] ==> star == 5 && r.level < 4
    &&& forall|j: int|
        0 <= j < 4 ==> semantically_blank(#[trigger] r.sub_stat@[j]@) || plausible_substat_text(
            r.sub_stat@[j]@,
            !r.sub_stat_active@[j],
        )
}

/// Whether a reading's level lies within what its rarity allows, and an
/// inactive fourth row is only possible on a five-star artifact below
/// level 4.
pub open spec fn level_fits(v: PanelReadView) -> bool {
    &&& max_level_for(v.star) matches Some(m) && 0 <= v.level <= m
    &&& !v.active3 ==> v.star == 5 && v.level < 4
}

proof fn lemma_first_to_correct_skips(v: PanelReadView, from: int, j: int)
    requires
        0 <= from <= j <= 4,
        forall|k: int| from <= k < j ==> row_fine(v, k),
    ensures
        first_to_correct(v, from) == first_to_correct(v, j),
    decreases j - from,
{
    if from < j {
        lemma_first_to_correct_skips(v, from + 1, j);
    }
}

/// The reading of one artifact's detail panel, as a sequence of OCR
/// requests: the title (matched against the catalog, read again and by
/// slot when needed), the main stat, the level (read again, or taken from a
/// main stat only the highest level shows, when the first reading fails),
/// the four sub-stat rows (the fourth checked for a pending roll, each
/// implausible row read again), and the equip label. Each step is
/// `next_reading`.
pub struct PanelRead {
    star: usize,
    lock: bool,
    stage: PanelStage,
    fast: String,
    general: String,
    name: String,
    main_name: String,
    main_value: String,
    level_text: String,
    fast_error: LevelError,
    level: i32,
    sub0: String,
    sub1: String,
    sub2: String,
    sub3: String,
    active3: bool,
    equip: String,
}

impl View for PanelRead {
    type V = PanelReadView;

    closed spec fn view(&self) -> PanelReadView {
        PanelReadView {
            star: self.star,
            lock: self.lock,
            stage: self.stage,
            fast: self.fast@,
            general: self.general@,
            name: self.name@,
            main_name: self.main_name@,
            main_value: self.main_value@,
            level_text: self.level_text@,
            fast_error: self.fast_error,
            level: self.level,
            sub0: self.sub0@,
            sub1: self.sub1@,
            sub2: self.sub2@,
            sub3: self.sub3@,
            active3: self.active3,
            equip: self.equip@,
        }
    }
}

impl PanelRead {
    /// The reading's internal invariant.
    pub closed spec fn wf(&self) -> bool {
        let v = self@;
        match v.stage {
            PanelStage::SubFast(i) => i < 4 && level_fits(v) && v.active3,
            PanelStage::PendingGeneral => level_fits(v) && v.active3 && v.star == 5 && v.level < 4,
            PanelStage::Correct(i) => i < 4 && level_fits(v) && forall|j: int| 0 <= j < i ==> row_fine(v, j),
            PanelStage::EquipFast | PanelStage::EquipGeneral => level_fits(v) && forall|j: int|
                0 <= j < 4 ==> row_fine(v, j),
            PanelStage::Finished | PanelStage::Failed => true,
            _ => v.active3,
        }
    }

    /// A reading of a panel of a `star`-star artifact whose lock marker
    /// showed `lock`.
    pub fn new(star: usize, lock: bool) -> (r: Self)
        ensures
            r.wf(),
            r@ == initial_reading(star, lock),
    {
        PanelRead {
            star,
            lock,
            stage: PanelStage::TitleFast,
            fast: String::new(),
            general: String::new(),
            name: String::new(),
            main_name: String::new(),
            main_value: String::new(),
            level_text: String::new(),
            fast_error: LevelError::NotANumber,
            level: 0,
            sub0: String::new(),
            sub1: String::new(),
            sub2: String::new(),
            sub3: String::new(),
            active3: true,
            equip: String::new(),
        }
    }

    /// The first request: the fast reading of the title.
    pub fn start(&self) -> (a: PanelAction)
        ensures
            a == PanelAction::ReadFast(PanelField::Title),
    {
        PanelAction::ReadFast(PanelField::Title)
    }

    fn sub_text(&self, j: usize) -> (r: &String)
        requires
            j < 4,
        ensures
            r@ == row(self@, j as int),
    {
        if j == 0 {
            &self.sub0
        } else if j == 1 {
            &self.sub1
        } else if j == 2 {
            &self.sub2
        } else {
            &self.sub3
        }
    }

    fn set_sub(&mut self, j: usize, text: String)
        requires
            j < 4,
        ensures
            final(self)@ == with_row(old(self)@, j as int, text@),
    {
        if j == 0 {
            self.sub0 = text;
        } else if j == 1 {
            self.sub1 = text;
        } else if j == 2 {
            self.sub2 = text;
        } else {
            self.sub3 = text;
        }
    }

    /// Asks for the second reading of the first row from `from` on that
    /// needs one, or, when none does, for the equip label.
    fn next_correction(&mut self, from: usize) -> (a: PanelAction)
        requires
            from <= 4,
            level_fits(old(self)@),
            forall|j: int| 0 <= j < from ==> row_fine(old(self)@, j),
        ensures
            final(self).wf(),
            final(self)@ == (PanelReadView { stage: correction_stage(old(self)@, from as int), ..old(self)@ }),
            action_fits(a, final(self)@, Seq::empty()),
            !over(final(self)@.stage),
    {
        let mut j = from;
        while j < 4
            invariant
                from <= j <= 4,
                self@ == old(self)@,
                level_fits(old(self)@),
                forall|k: int| 0 <= k < j ==> row_fine(old(self)@, k),
            decreases 4 - j,
        {
            let pending = !(j < 3 || self.active3);
            if substat_needs_second_reading(self.sub_text(j).as_str(), pending) {
                proof {
                    lemma_first_to_correct_skips(old(self)@, from as int, j as int);
                }
                self.stage = PanelStage::Correct(j);
                proof {
                    assert forall|k: int| 0 <= k < j implies row_fine(self@, k) by {
                        assert(row_fine(old(self)@, k));
                    }
                }
                return PanelAction::ReadGeneral(PanelField::SubStat(j));
            }
            j = j + 1;
        }
        proof {
            lemma_first_to_correct_skips(old(self)@, from as int, 4);
        }
        self.stage = PanelStage::EquipFast;
        proof {
            assert forall|k: int| 0 <= k < 4 implies row_fine(self@, k) by {
                assert(row_fine(old(self)@, k));
            }
        }
        PanelAction::ReadFast(PanelField::Equip)
    }

    fn finish(&mut self) -> (a: PanelAction)
        requires
            level_fits(old(self)@),
            forall|j: int| 0 <= j < 4 ==> row_fine(old(self)@, j),
        ensures
            final(self).wf(),
            final(self)@ == (PanelReadView { stage: PanelStage::Finished, ..old(self)@ }),
            a matches PanelAction::Done(Ok(r)) && result_of(r, final(self)@) && sound_reading(
                r,
                old(self)@.star,
                old(self)@.lock,
            ),
    {
        self.stage = PanelStage::Finished;
        let r = GenshinArtifactScanResult {
            name: self.name.clone(),
            main_stat_name: self.main_name.clone(),
            main_stat_value: self.main_value.clone(),
            sub_stat: [self.sub0.clone(), self.sub1.clone(), self.sub2.clone(), self.sub3.clone()],
            sub_stat_active: [true, true, true, self.active3],
            equip: self.equip.clone(),
            level: self.level,
            star: self.star as i32,
            lock: self.lock,
        };
        proof {
            assert(r.sub_stat_active@ =~= seq![true, true, true, self.active3]);
            assert forall|j: int| 0 <= j < 4 implies semantically_blank(#[trigger] r.sub_stat@[j]@)
                || plausible_substat_text(r.sub_stat@[j]@, !r.sub_stat_active@[j]) by {
                assert(row_fine(old(self)@, j));
                assert(r.sub_stat@[j]@ == row(old(self)@, j));
            }
        }
        PanelAction::Done(Ok(r))
    }

    fn read_title(&mut self, catalog: &ArtifactCatalog, text: String) -> (a: PanelAction)
        requires
            old(self).wf(),
            old(self)@.stage is TitleFast || old(self)@.stage is TitleGeneral || old(self)@.stage is SlotLabel,
        ensures
            final(self).wf(),
            final(self)@ == next_reading(*catalog, old(self)@, text@),
            action_fits(a, final(self)@, text@),
            a matches PanelAction::Done(Ok(r)) ==> sound_reading(r, old(self)@.star, old(self)@.lock),
    {
        match self.stage {
            PanelStage::TitleFast => {
                match exact_title(catalog, text.as_str()) {
                    Some(name) => {
                        self.name = name;
                        self.stage = PanelStage::MainName;
                        PanelAction::ReadFast(PanelField::MainStatName)
                    },
                    None => {
                        self.fast = text;
                        self.stage = PanelStage::TitleGeneral;
                        PanelAction::ReadGeneral(PanelField::Title)
                    },
                }
            },
            PanelStage::TitleGeneral => {
                match matched_title(catalog, self.fast.as_str(), text.as_str()) {
                    Some(name) => {
                        self.name = name;
                        self.stage = PanelStage::MainName;
                        PanelAction::ReadFast(PanelField::MainStatName)
                    },
                    None => {
                        self.general = text;
                        self.stage = PanelStage::SlotLabel;
                        PanelAction::ReadGeneral(PanelField::SlotLabel)
                    },
                }
            },
            PanelStage::SlotLabel => {
                let by_slot = match slot_from_label(text.as_str()) {
                    Some(slot) => slot_title(catalog, self.fast.as_str(), self.general.as_str(), slot),
                    None => None,
                };
                self.name = match by_slot {
                    Some(name) => name,
                    None => raw_title(self.fast.as_str(), self.general.as_str()),
                };
                self.stage = PanelStage::MainName;
                PanelAction::ReadFast(PanelField::MainStatName)
            },
            _ => PanelAction::ReadFast(PanelField::Title),
        }
    }

    fn read_main_and_level(&mut self, catalog: &ArtifactCatalog, text: String) -> (a: PanelAction)
        requires
            old(self).wf(),
            old(self)@.stage is MainName || old(self)@.stage is MainValue || old(self)@.stage is LevelFast || old(self)@.stage is LevelGeneral,
        ensures
            final(self).wf(),
            final(self)@ == next_reading(*catalog, old(self)@, text@),
            action_fits(a, final(self)@, text@),
            a matches PanelAction::Done(Ok(r)) ==> sound_reading(r, old(self)@.star, old(self)@.lock),
    {
        match self.stage {
            PanelStage::MainName => {
                self.main_name = text;
                self.stage = PanelStage::MainValue;
                PanelAction::ReadFast(PanelField::MainStatValue)
            },
            PanelStage::MainValue => {
                self.main_value = text;
                self.stage = PanelStage::LevelFast;
                PanelAction::ReadFast(PanelField::Level)
            },
            PanelStage::LevelFast => {
                match parse_artifact_level(text.as_str(), self.star) {
                    Ok(level) => {
                        self.level = level;
                        self.stage = PanelStage::SubFast(0);
                        PanelAction::ReadFast(PanelField::SubStat(0))
                    },
                    Err(e) => {
                        self.level_text = text;
                        self.fast_error = e;
                        self.stage = PanelStage::LevelGeneral;
                        PanelAction::ReadGeneral(PanelField::Level)
                    },
                }
            },
            PanelStage::LevelGeneral => {
                match parse_artifact_level(text.as_str(), self.star) {
                    Ok(level) => {
                        self.level = level;
                        self.stage = PanelStage::SubFast(0);
                        PanelAction::ReadFast(PanelField::SubStat(0))
                    },
                    Err(general_error) => {
                        match infer_max_level_from_main_stat(self.star, self.main_value.as_str()) {
                            Some(level) => {
                                self.level = level;
                                self.stage = PanelStage::SubFast(0);
                                PanelAction::ReadFast(PanelField::SubStat(0))
                            },
                            None => {
                                self.stage = PanelStage::Failed;
                                PanelAction::Done(
                                    Err(
                                        LevelFailure {
                                            fast_text: self.level_text.clone(),
                                            fast_error: self.fast_error,
                                            general_text: text,
                                            general_error,
                                        },
                                    ),
                                )
                            },
                        }
                    },
                }
            },
            _ => PanelAction::ReadFast(PanelField::Title),
        }
    }

    fn read_row(&mut self, catalog: &ArtifactCatalog, text: String) -> (a: PanelAction)
        requires
            old(self).wf(),
            old(self)@.stage is SubFast || old(self)@.stage is PendingGeneral || old(self)@.stage is Correct,
        ensures
            final(self).wf(),
            final(self)@ == next_reading(*catalog, old(self)@, text@),
            action_fits(a, final(self)@, text@),
            a matches PanelAction::Done(Ok(r)) ==> sound_reading(r, old(self)@.star, old(self)@.lock),
    {
        match self.stage {
            PanelStage::SubFast(i) => {
                self.set_sub(i, text);
                if i < 3 {
                    self.stage = PanelStage::SubFast(i + 1);
                    PanelAction::ReadFast(PanelField::SubStat(i + 1))
                } else if needs_pending_check(self.star, self.level, self.sub3.as_str()) {
                    self.stage = PanelStage::PendingGeneral;
                    PanelAction::ReadGeneral(PanelField::SubStat(3))
                } else {
                    self.next_correction(0)
                }
            },
            PanelStage::PendingGeneral => {
                let (active, row_text) = read_pending_row(text.as_str(), self.sub3.as_str());
                self.active3 = active;
                self.sub3 = row_text;
                self.next_correction(0)
            },
            PanelStage::Correct(i) => {
                let pending = !(i < 3 || self.active3);
                let corrected = correct_substat(text.as_str(), pending);
                proof {
                    assert(semantically_blank(Seq::<char>::empty()));
                }
                self.set_sub(i, corrected);
                proof {
                    assert forall|k: int| 0 <= k < i + 1 implies row_fine(self@, k) by {
                        if k < i {
                            assert(row_fine(old(self)@, k));
                        }
                    }
                }
                self.next_correction(i + 1)
            },
            _ => PanelAction::ReadFast(PanelField::Title),
        }
    }

    fn read_equip(&mut self, catalog: &ArtifactCatalog, text: String) -> (a: PanelAction)
        requires
            old(self).wf(),
            old(self)@.stage is EquipFast || old(self)@.stage is EquipGeneral,
        ensures
            final(self).wf(),
            final(self)@ == next_reading(*catalog, old(self)@, text@),
            action_fits(a, final(self)@, text@),
            a matches PanelAction::Done(Ok(r)) ==> sound_reading(r, old(self)@.star, old(self)@.lock),
    {
        match self.stage {
            PanelStage::EquipFast => {
                if is_semantically_blank(text.as_str()) {
                    self.equip = String::new();
                    proof {
                        assert forall|k: int| 0 <= k < 4 implies row_fine(self@, k) by {
                            assert(row_fine(old(self)@, k));
                        }
                    }
                    self.finish()
                } else {
                    match exact_equip(catalog, text.as_str()) {
                        Some(label) => {
                            self.equip = label;
                            proof {
                                assert forall|k: int| 0 <= k < 4 implies row_fine(self@, k) by {
                                    assert(row_fine(old(self)@, k));
                                }
                            }
                            self.finish()
                        },
                        None => {
                            self.fast = text;
                            self.stage = PanelStage::EquipGeneral;
                            proof {
                                assert forall|k: int| 0 <= k < 4 implies row_fine(self@, k) by {
                                    assert(row_fine(old(self)@, k));
                                }
                            }
                            PanelAction::ReadGeneral(PanelField::Equip)
                        },
                    }
                }
            },
            PanelStage::EquipGeneral => {
                let label = matched_equip(catalog, self.fast.as_str(), text.as_str());
                proof {
                    if label@.len() == 0 {
                        assert(label@ =~= Seq::<char>::empty());
                    }
                }
                self.equip = label;
                proof {
                    assert forall|k: int| 0 <= k < 4 implies row_fine(self@, k) by {
                        assert(row_fine(old(self)@, k));
                    }
                }
                self.finish()
            },
            _ => PanelAction::ReadFast(PanelField::Title),
        }
    }

    /// Takes the text read for the last request and says what to do next:
    /// the reading moves on as `next_reading` says, and the action is the
    /// field its new stage reads, the scan result once it is finished, or
    /// both level texts with why each was refused once it failed. A
    /// finished reading is sound (see `sound_reading`); a reading fails
    /// exactly when neither level text gives a level and the main stat
    /// shows no value that only the highest level has.
    pub fn step(&mut self, catalog: &ArtifactCatalog, text: String) -> (a: PanelAction)
        requires
            old(self).wf(),
            !over(old(self)@.stage),
        ensures
            final(self).wf(),
            final(self)@ == next_reading(*catalog, old(self)@, text@),
            action_fits(a, final(self)@, text@),
            a matches PanelAction::Done(Ok(r)) ==> sound_reading(r, old(self)@.star, old(self)@.lock),
            (a matches PanelAction::Done(Err(_))) <==> (old(self)@.stage is LevelGeneral && artifact_level(
                text@,
                old(self)@.star,
            ) is Err && inferred_level(old(self)@.star, old(self)@.main_value) is None),
    {
        match self.stage {
            PanelStage::TitleFast | PanelStage::TitleGeneral | PanelStage::SlotLabel => self.read_title(
                catalog,
                text,
            ),
            PanelStage::MainName | PanelStage::MainValue | PanelStage::LevelFast
            | PanelStage::LevelGeneral => self.read_main_and_level(catalog, text),
            PanelStage::SubFast(_) | PanelStage::PendingGeneral | PanelStage::Correct(_) => self.read_row(
                catalog,
                text,
            ),
            PanelStage::EquipFast | PanelStage::EquipGeneral => self.read_equip(catalog, text),
            PanelStage::Finished | PanelStage::Failed => PanelAction::ReadFast(PanelField::Title),
        }
    }
}

} // verus!
