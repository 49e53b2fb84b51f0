use vstd::prelude::*;

use crate::scan::{
    artifact_level, compact_number, contains_pending_marker, extract_stat_prefix,
    five_star_max_main_value, has_pending_marker, infer_max_level_from_main_stat,
    is_plausible_substat, is_semantically_blank, parse_artifact_level, plausible_substat_text,
    stat_prefix, ArtifactScannerWorkerOutput, GenshinArtifactScanResult,
};
use crate::artifact::ArtifactSlot;
use crate::catalog::{character_lookup, piece_lookup, ArtifactCatalog};
use crate::executor::{contains_run, occurs_in};
use crate::text::{
    chars_of, decimal_digits, push_decimal, push_str, str_equal, unicode_alphanumeric,
};

verus! {

broadcast use vstd::string::group_string_axioms;

/// The level when the first reading of the level text failed: the second
/// reading's level or, for a five-star artifact whose main stat shows a
/// value only level 20 reaches, level 20.
pub open spec fn fallback_level(general: Seq<char>, star: usize, main_value: Seq<char>) -> Option<i32> {
    match artifact_level(general, star) {
        Ok(level) => Some(level),
        Err(_) => if star == 5 && five_star_max_main_value(compact_number(main_value)) {
            Some(20i32)
        } else {
            None
        },
    }
}

/// The level from a second reading of the level text (see `fallback_level`).
pub fn level_after_second_reading(general: &str, star: usize, main_value: &str) -> (r: Option<i32>)
    ensures
        r == fallback_level(general@, star, main_value@),
{
    match parse_artifact_level(general, star) {
        Ok(level) => Some(level),
        Err(_) => infer_max_level_from_main_stat(star, main_value),
    }
}

/// Whether the fourth sub-stat row may be a pending one that needs a second
/// reading: only a five-star artifact below level 4 with text in that row.
pub fn needs_pending_check(star: usize, level: i32, fourth: &str) -> (r: bool)
    ensures
        r == (star == 5 && level < 4 && fourth@.len() > 0),
{
    star == 5 && level < 4 && !fourth.is_empty()
}

/// The fourth row after a second reading: pending when that reading shows
/// the pending marker, and then its stat prefix where it has one.
pub open spec fn pending_row(general: Seq<char>, fast: Seq<char>) -> (bool, Seq<char>) {
    if has_pending_marker(general) {
        (
            false,
            match stat_prefix(general) {
                Some(p) => p,
                None => fast,
            },
        )
    } else {
        (true, fast)
    }
}

/// Whether the fourth row is active, and its text (see `pending_row`).
pub fn read_pending_row(general: &str, fast: &str) -> (r: (bool, String))
    ensures
        r.0 == pending_row(general@, fast@).0,
        r.1@ == pending_row(general@, fast@).1,
{
    if contains_pending_marker(general) {
        match extract_stat_prefix(general) {
            Some(p) => (false, p),
            None => (false, fast.to_owned()),
        }
    } else {
        (true, fast.to_owned())
    }
}

/// Whether OCR text holds no letter or digit.
pub open spec fn semantically_blank(text: Seq<char>) -> bool {
    !exists|i: int| 0 <= i < text.len() && unicode_alphanumeric(#[trigger] text[i])
}

/// Whether a sub-stat row needs a second reading: it is neither blank nor a
/// plausible stat.
pub fn substat_needs_second_reading(text: &str, pending: bool) -> (r: bool)
    ensures
        r == !(semantically_blank(text@) || plausible_substat_text(text@, pending)),
{
    !(is_semantically_blank(text) || is_plausible_substat(text, pending))
}

/// A row after its second reading: the reading's stat prefix when that is
/// plausible, else nothing.
pub open spec fn corrected_row(general: Seq<char>, pending: bool) -> Seq<char> {
    match stat_prefix(general) {
        Some(p) => if plausible_substat_text(p, pending) {
            p
        } else {
            seq![]
        },
        None => seq![],
    }
}

/// The text of a sub-stat row after a second reading (see `corrected_row`).
pub fn correct_substat(general: &str, pending: bool) -> (r: String)
    ensures
        r@ == corrected_row(general@, pending),
{
    match extract_stat_prefix(general) {
        Some(p) => if is_plausible_substat(p.as_str(), pending) {
            p
        } else {
            String::new()
        },
        None => String::new(),
    }
}

/// Whether two scan results read the same.
pub open spec fn same_scan(a: GenshinArtifactScanResult, b: GenshinArtifactScanResult) -> bool {
    &&& a.name@ == b.name@
    &&& a.main_stat_name@ == b.main_stat_name@
    &&& a.main_stat_value@ == b.main_stat_value@
    &&& forall|i: int| 0 <= i < 4 ==> #[trigger] a.sub_stat@[i]@ == b.sub_stat@[i]@
    &&& a.sub_stat_active@ == b.sub_stat_active@
    &&& a.equip@ == b.equip@
    &&& a.level == b.level
    &&& a.star == b.star
    &&& a.lock == b.lock
}

/// Whether two scan results read the same.
pub fn scans_equal(a: &GenshinArtifactScanResult, b: &GenshinArtifactScanResult) -> (r: bool)
    ensures
        r == same_scan(*a, *b),
{
    let mut rows_equal = true;
    let mut i: usize = 0;
    while i < 4
        invariant
            i <= 4,
            rows_equal == forall|k: int| 0 <= k < i ==> #[trigger] a.sub_stat@[k]@ == b.sub_stat@[k]@,
        decreases 4 - i,
    {
        if !str_equal(a.sub_stat[i].as_str(), b.sub_stat[i].as_str()) {
            rows_equal = false;
        }
        i = i + 1;
    }
    let active_equal = a.sub_stat_active[0] == b.sub_stat_active[0] && a.sub_stat_active[1]
        == b.sub_stat_active[1] && a.sub_stat_active[2] == b.sub_stat_active[2] && a.sub_stat_active[3]
        == b.sub_stat_active[3];
    assert(active_equal == (a.sub_stat_active@ =~= b.sub_stat_active@));
    str_equal(a.name.as_str(), b.name.as_str()) && str_equal(
        a.main_stat_name.as_str(),
        b.main_stat_name.as_str(),
    ) && str_equal(a.main_stat_value.as_str(), b.main_stat_value.as_str()) && rows_equal
        && active_equal && str_equal(a.equip.as_str(), b.equip.as_str()) && a.level == b.level
        && a.star == b.star && a.lock == b.lock
}

/// What recognising one item gave: a result with its printed form, or an
/// error message.
pub enum ScanItem {
    Recognized { result: GenshinArtifactScanResult, description: String },
    Failed { message: String },
}

/// What taking one more item made of the run.
#[derive(Clone, Copy, Debug, PartialEq, Eq, Structural)]
pub enum CollectStep {
    /// Go on with the next item.
    Continue,
    /// The item is below the minimum level: the run ends without it.
    BelowMinLevel,
    /// As many identical results in a row as the grid has columns: the page
    /// selection is stale and the run ends.
    StaleSelection,
}

/// The results of a scanning run as the items come, in item order.
pub struct ScanCollector {
    min_level: i32,
    col: i32,
    ignore_dup: bool,
    results: Vec<GenshinArtifactScanResult>,
    errors: Vec<String>,
    consecutive_dup_count: i32,
    stopped: bool,
}

/// What a collector holds.
pub struct ScanCollectorView {
    pub min_level: i32,
    pub col: i32,
    pub ignore_dup: bool,
    pub results: Seq<GenshinArtifactScanResult>,
    pub errors: Seq<Seq<char>>,
    pub consecutive_dup_count: int,
    pub stopped: bool,
}

impl View for ScanCollector {
    type V = ScanCollectorView;

    closed spec fn view(&self) -> ScanCollectorView {
        ScanCollectorView {
            min_level: self.min_level,
            col: self.col,
            ignore_dup: self.ignore_dup,
            results: self.results@,
            errors: self.errors@.map_values(|e: String| e@),
            consecutive_dup_count: self.consecutive_dup_count as int,
            stopped: self.stopped,
        }
    }
}

/// `item <n>: <message>`, with `n` counted from one.
pub open spec fn item_error(index: nat, message: Seq<char>) -> Seq<char> {
    "item "@ + decimal_digits(index + 1) + ": "@ + message
}

/// The message a stale page selection ends the run with.
pub open spec fn stale_error(index: nat, count: nat, description: Seq<char>) -> Seq<char> {
    "item "@ + decimal_digits(index + 1) + ": detected "@ + decimal_digits(count)
        + " consecutive duplicate artifacts; page selection may be stale; repeated result: "@
        + description
}

/// The length of the streak of identical results that `result` extends:
/// one more when it reads as the last result, else none.
pub open spec fn next_streak(results: Seq<GenshinArtifactScanResult>, count: int, result: GenshinArtifactScanResult) -> int {
    if results.len() > 0 && same_scan(results.last(), result) {
        count + 1
    } else {
        0
    }
}

impl ScanCollector {
    /// A collector that ends at the first item below `min_level`, and at
    /// `col` identical results in a row unless `ignore_dup`.
    pub fn new(min_level: i32, col: i32, ignore_dup: bool) -> (r: Self)
        ensures
            r@ == (ScanCollectorView {
                min_level,
                col,
                ignore_dup,
                results: Seq::empty(),
                errors: Seq::empty(),
                consecutive_dup_count: 0,
                stopped: false,
            }),
    {
        let r = ScanCollector {
            min_level,
            col,
            ignore_dup,
            results: Vec::new(),
            errors: Vec::new(),
            consecutive_dup_count: 0,
            stopped: false,
        };
        assert(r@.errors =~= Seq::<Seq<char>>::empty());
        r
    }

    /// Whether the run has ended.
    pub fn is_stopped(&self) -> (r: bool)
        ensures
            r == self@.stopped,
    {
        self.stopped
    }

    /// The length of the current streak of identical results.
    pub fn consecutive_dup_count(&self) -> (r: i32)
        ensures
            r == self@.consecutive_dup_count,
    {
        self.consecutive_dup_count
    }

    /// Takes the item at `index`: an error is recorded and the run goes on;
    /// a result below the minimum level ends the run; any other result is
    /// kept, and ends the run when it makes `col` identical results in a row
    /// and duplicates are not ignored.
    pub fn accept(&mut self, index: usize, item: ScanItem) -> (step: CollectStep)
        requires
            !old(self)@.stopped,
            index < usize::MAX,
            0 <= old(self)@.consecutive_dup_count < i32::MAX,
        ensures
            final(self)@.min_level == old(self)@.min_level,
            final(self)@.col == old(self)@.col,
            final(self)@.ignore_dup == old(self)@.ignore_dup,
            match item {
                ScanItem::Failed { message } => {
                    &&& step == CollectStep::Continue
                    &&& final(self)@ == (ScanCollectorView {
                        errors: old(self)@.errors.push(item_error(index as nat, message@)),
                        ..old(self)@
                    })
                },
                ScanItem::Recognized { result, description } => if result.level < old(self)@.min_level {
                    &&& step == CollectStep::BelowMinLevel
                    &&& final(self)@ == (ScanCollectorView { stopped: true, ..old(self)@ })
                } else {
                    let count = next_streak(old(self)@.results, old(self)@.consecutive_dup_count, result);
                    let stale = count >= old(self)@.col && !old(self)@.ignore_dup;
                    &&& final(self)@.results == old(self)@.results.push(result)
                    &&& final(self)@.consecutive_dup_count == count
                    &&& final(self)@.stopped == stale
                    &&& step == (if stale {
                        CollectStep::StaleSelection
                    } else {
                        CollectStep::Continue
                    })
                    &&& final(self)@.errors == (if stale {
                        old(self)@.errors.push(stale_error(index as nat, count as nat, description@))
                    } else {
                        old(self)@.errors
                    })
                },
            },
    {
        match item {
            ScanItem::Failed { message } => {
                let mut text = "item ".to_owned();
                push_decimal(&mut text, index + 1);
                push_str(&mut text, ": ");
                push_str(&mut text, message.as_str());
                let ghost before = self.errors@;
                self.errors.push(text);
                assert(self.errors@.map_values(|e: String| e@) =~= before.map_values(|e: String| e@).push(
                    item_error(index as nat, message@),
                ));
                CollectStep::Continue
            },
            ScanItem::Recognized { result, description } => {
                if result.level < self.min_level {
                    self.stopped = true;
                    return CollectStep::BelowMinLevel;
                }
                let n = self.results.len();
                let count = if n > 0 && scans_equal(&self.results[n - 1], &result) {
                    self.consecutive_dup_count + 1
                } else {
                    0
                };
                self.consecutive_dup_count = count;
                self.results.push(result);
                if count >= self.col && !self.ignore_dup {
                    let mut text = "item ".to_owned();
                    push_decimal(&mut text, index + 1);
                    push_str(&mut text, ": detected ");
                    push_decimal(&mut text, count as usize);
                    push_str(
                        &mut text,
                        " consecutive duplicate artifacts; page selection may be stale; repeated result: ",
                    );
                    push_str(&mut text, description.as_str());
                    let ghost before = self.errors@;
                    self.errors.push(text);
                    assert(self.errors@.map_values(|e: String| e@) =~= before.map_values(|e: String| e@).push(
                        stale_error(index as nat, count as nat, description@),
                    ));
                    self.stopped = true;
                    return CollectStep::StaleSelection;
                }
                CollectStep::Continue
            },
        }
    }

    /// The results and error messages of the run.
    pub fn finish(self) -> (r: ArtifactScannerWorkerOutput)
        ensures
            r.results@ == self@.results,
            r.errors@.map_values(|e: String| e@) == self@.errors,
    {
        ArtifactScannerWorkerOutput { results: self.results, errors: self.errors }
    }
}

/// The slot a slot label names: the first of the five slot names it holds.
pub open spec fn slot_from_label_spec(text: Seq<char>) -> Option<ArtifactSlot> {
    if occurs_in(text, "生之花"@) {
        Some(ArtifactSlot::Flower)
    } else if occurs_in(text, "死之羽"@) {
        Some(ArtifactSlot::Feather)
    } else if occurs_in(text, "时之沙"@) {
        Some(ArtifactSlot::Sand)
    } else if occurs_in(text, "空之杯"@) {
        Some(ArtifactSlot::Goblet)
    } else if occurs_in(text, "理之冠"@) {
        Some(ArtifactSlot::Head)
    } else {
        None
    }
}

fn holds(text: &[char], name: &str) -> (r: bool)
    ensures
        r == occurs_in(text@, name@),
{
    let pattern = chars_of(name);
    contains_run(text, pattern.as_slice())
}

/// The slot an OCR'd slot label names (see `slot_from_label_spec`).
pub fn slot_from_label(text: &str) -> (r: Option<ArtifactSlot>)
    ensures
        r == slot_from_label_spec(text@),
{
    let chars = chars_of(text);
    let t = chars.as_slice();
    if holds(t, "生之花") {
        Some(ArtifactSlot::Flower)
    } else if holds(t, "死之羽") {
        Some(ArtifactSlot::Feather)
    } else if holds(t, "时之沙") {
        Some(ArtifactSlot::Sand)
    } else if holds(t, "空之杯") {
        Some(ArtifactSlot::Goblet)
    } else if holds(t, "理之冠") {
        Some(ArtifactSlot::Head)
    } else {
        None
    }
}

/// The piece name when the first reading of the title names a catalog piece
/// exactly; otherwise nothing, and the title is read again.
pub fn exact_title(catalog: &ArtifactCatalog, fast: &str) -> (r: Option<String>)
    ensures
        match piece_lookup(*catalog, seq![fast@], None) {
            Some(m) => if m.distance == 0 {
                r matches Some(t) && t@ == m.piece_name_zh_cn
            } else {
                r is None
            },
            None => r is None,
        },
{
    let names: [&str; 1] = [fast];
    assert(crate::catalog::str_views(names@) =~= seq![fast@]);
    match catalog.find_piece(&names) {
        Some(m) => if m.distance == 0 {
            Some(m.piece_name_zh_cn)
        } else {
            None
        },
        None => None,
    }
}

/// The piece name that the second and first readings of the title name
/// together, at any distance within tolerance.
pub fn matched_title(catalog: &ArtifactCatalog, fast: &str, general: &str) -> (r: Option<String>)
    ensures
        match piece_lookup(*catalog, seq![general@, fast@], None) {
            Some(m) => r matches Some(t) && t@ == m.piece_name_zh_cn,
            None => r is None,
        },
{
    let names: [&str; 2] = [general, fast];
    assert(crate::catalog::str_views(names@) =~= seq![general@, fast@]);
    match catalog.find_piece(&names) {
        Some(m) => Some(m.piece_name_zh_cn),
        None => None,
    }
}

/// The piece name that the readings name among the pieces of the slot the
/// panel shows.
pub fn slot_title(catalog: &ArtifactCatalog, fast: &str, general: &str, slot: ArtifactSlot) -> (r: Option<String>)
    ensures
        match piece_lookup(*catalog, seq![general@, fast@], Some(slot)) {
            Some(m) => r matches Some(t) && t@ == m.piece_name_zh_cn,
            None => r is None,
        },
{
    let names: [&str; 2] = [general, fast];
    assert(crate::catalog::str_views(names@) =~= seq![general@, fast@]);
    match catalog.find_piece_in_slot(&names, &slot) {
        Some(m) => Some(m.piece_name_zh_cn),
        None => None,
    }
}

/// The title kept when no catalog piece matches: the second reading, or the
/// first when the second is empty.
pub fn raw_title(fast: &str, general: &str) -> (r: String)
    ensures
        r@ == (if general@.len() == 0 {
            fast@
        } else {
            general@
        }),
{
    if general.is_empty() {
        fast.to_owned()
    } else {
        general.to_owned()
    }
}

/// `<name>已装备`: the label the game shows on an equipped artifact.
pub open spec fn equip_label(name: Seq<char>) -> Seq<char> {
    name + "已装备"@
}

fn label_of(name: &str) -> (r: String)
    ensures
        r@ == equip_label(name@),
{
    let mut s = name.to_owned();
    push_str(&mut s, "已装备");
    s
}

/// The equip label when the first reading settles it: empty for a blank
/// reading, the label of a character it names exactly; otherwise nothing,
/// and the label is read again.
pub fn exact_equip(catalog: &ArtifactCatalog, fast: &str) -> (r: Option<String>)
    ensures
        if semantically_blank(fast@) {
            r matches Some(t) && t@.len() == 0
        } else {
            match character_lookup(*catalog, seq![fast@]) {
                Some(m) => if m.distance == 0 {
                    r matches Some(t) && t@ == equip_label(m.character.name_zh_cn)
                } else {
                    r is None
                },
                None => r is None,
            }
        },
{
    if is_semantically_blank(fast) {
        return Some(String::new());
    }
    let names: [&str; 1] = [fast];
    assert(crate::catalog::str_views(names@) =~= seq![fast@]);
    match catalog.find_character(&names) {
        Some(m) => if m.distance == 0 {
            Some(label_of(m.character.name_zh_cn()))
        } else {
            None
        },
        None => None,
    }
}

/// The equip label from both readings: the label of the character they name
/// together, else empty.
pub fn matched_equip(catalog: &ArtifactCatalog, fast: &str, general: &str) -> (r: String)
    ensures
        match character_lookup(*catalog, seq![general@, fast@]) {
            Some(m) => r@ == equip_label(m.character.name_zh_cn),
            None => r@.len() == 0,
        },
{
    let names: [&str; 2] = [general, fast];
    assert(crate::catalog::str_views(names@) =~= seq![general@, fast@]);
    match catalog.find_character(&names) {
        Some(m) => label_of(m.character.name_zh_cn()),
        None => String::new(),
    }
}

} // verus!
