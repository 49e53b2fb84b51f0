use vstd::prelude::*;

use vstd::std_specs::cmp::PartialEqSpec;

use crate::artifact::ArtifactStatName;
use crate::digits::{all_digits, digits_value, parse_digits};
use crate::edit::levenshtein;
use crate::executor::{contains_run, copy_range, occurs_in};
use crate::stat::{
    at_least, at_most, bounded_value, find_char, first_index_of, lemma_stat_from_text_bounded,
    stat_from_text, value_at_least, value_at_most, ArtifactStat, StatValue,
};
use crate::text::{
    ascii_digit, chars_equal, chars_of, is_alphanumeric, is_whitespace, string_from_chars,
    unicode_alphanumeric, unicode_whitespace,
};

verus! {

/// What OCR read from one artifact's detail panel.
#[derive(Debug, Clone)]
pub struct GenshinArtifactScanResult {
    pub name: String,
    pub main_stat_name: String,
    pub main_stat_value: String,
    pub sub_stat: [String; 4],
    pub sub_stat_active: [bool; 4],
    pub equip: String,
    pub level: i32,
    pub star: i32,
    pub lock: bool,
}

/// What a scanning run produced: the results and the error messages.
pub struct ArtifactScannerWorkerOutput {
    pub results: Vec<GenshinArtifactScanResult>,
    pub errors: Vec<String>,
}

/// Why a level text was refused.
#[derive(Debug, Clone, Copy, PartialEq, Eq, Structural)]
pub enum LevelError {
    /// The text is not an `i32`.
    NotANumber,
    /// The rarity is not 1 to 5.
    InvalidRarity(usize),
    /// The level is outside what the rarity allows.
    OutOfRange { level: i32, max_level: i32 },
}

/// The value of `s` read as an `i32` the way `str::parse` reads it: an
/// optional sign, then one or more ASCII digits, within the range of `i32`.
pub open spec fn i32_value(s: Seq<char>) -> Option<int> {
    let signed = s.len() > 0 && (s[0] == '+' || s[0] == '-');
    let negative = s.len() > 0 && s[0] == '-';
    let body = if signed {
        s.skip(1)
    } else {
        s
    };
    if body.len() == 0 || !all_digits(body) {
        None
    } else {
        let v: int = if negative {
            -digits_value(body)
        } else {
            digits_value(body) as int
        };
        if i32::MIN <= v <= i32::MAX {
            Some(v)
        } else {
            None
        }
    }
}

/// The level a level text shows: the text from its first `+` on (or the
/// whole text when it has none), read as an `i32`.
pub open spec fn level_value(s: Seq<char>) -> Option<int> {
    match first_index_of(s, '+') {
        Some(p) => i32_value(s.skip(p)),
        None => i32_value(s),
    }
}

/// The highest level an artifact of `star` stars can have.
pub open spec fn max_level_for(star: usize) -> Option<i32> {
    if star == 1 || star == 2 {
        Some(4)
    } else if star == 3 {
        Some(12)
    } else if star == 4 {
        Some(16)
    } else if star == 5 {
        Some(20)
    } else {
        None
    }
}

pub open spec fn artifact_level(s: Seq<char>, star: usize) -> Result<i32, LevelError> {
    match level_value(s) {
        None => Err(LevelError::NotANumber),
        Some(level) => match max_level_for(star) {
            None => Err(LevelError::InvalidRarity(star)),
            Some(max_level) => if 0 <= level <= max_level {
                Ok(level as i32)
            } else {
                Err(LevelError::OutOfRange { level: level as i32, max_level })
            },
        },
    }
}

/// Reads a text as an `i32`.
fn parse_i32(s: &[char]) -> (r: Option<i32>)
    ensures
        r matches Some(v) ==> i32_value(s@) == Some(v as int),
        r is None ==> i32_value(s@) is None,
{
    let signed = s.len() > 0 && (s[0] == '+' || s[0] == '-');
    let negative = s.len() > 0 && s[0] == '-';
    let start: usize = if signed { 1 } else { 0 };
    let body = copy_range(s, start, s.len());
    assert(body@ =~= if signed { s@.skip(1) } else { s@ });
    if body.len() == 0 {
        return None;
    }
    let mut i: usize = 0;
    while i < body.len()
        invariant
            i <= body@.len(),
            signed == (s@.len() > 0 && (s@[0] == '+' || s@[0] == '-')),
            body@ == if signed { s@.skip(1) } else { s@ },
            body@.len() > 0,
            forall|k: int| 0 <= k < i ==> crate::text::is_digit(#[trigger] body@[k]),
        decreases body@.len() - i,
    {
        if !ascii_digit(body[i]) {
            assert(!all_digits(body@));
            return None;
        }
        i = i + 1;
    }
    match parse_digits(body.as_slice()) {
        None => {
            assert(digits_value(body@) > usize::MAX);
            None
        },
        Some(v) => {
            if negative {
                if v <= 2147483648 {
                    let w: i64 = -(v as i64);
                    Some(w as i32)
                } else {
                    None
                }
            } else {
                if v <= 2147483647 {
                    Some(v as i32)
                } else {
                    None
                }
            }
        },
    }
}

/// Reads the level shown on an artifact panel, such as `+20`.
pub fn parse_level(s: &str) -> (r: Option<i32>)
    ensures
        r matches Some(v) ==> level_value(s@) == Some(v as int),
        r is None ==> level_value(s@) is None,
{
    let chars = chars_of(s);
    let n = chars.len();
    match find_char(chars.as_slice(), '+') {
        Some(p) => {
            let tail = copy_range(chars.as_slice(), p, n);
            assert(tail@ =~= chars@.skip(p as int));
            parse_i32(tail.as_slice())
        },
        None => parse_i32(chars.as_slice()),
    }
}

/// Reads an artifact level and checks it against the rarity's cap.
pub fn parse_artifact_level(s: &str, star: usize) -> (r: Result<i32, LevelError>)
    ensures
        r == artifact_level(s@, star),
{
    let level = match parse_level(s) {
        None => {
            return Err(LevelError::NotANumber);
        },
        Some(l) => l,
    };
    let max_level: i32 = if star == 1 || star == 2 {
        4
    } else if star == 3 {
        12
    } else if star == 4 {
        16
    } else if star == 5 {
        20
    } else {
        return Err(LevelError::InvalidRarity(star));
    };
    if !(0 <= level && level <= max_level) {
        return Err(LevelError::OutOfRange { level, max_level });
    }
    Ok(level)
}

/// `s` without `,` and ASCII space.
pub open spec fn compact_number(s: Seq<char>) -> Seq<char>
    decreases s.len(),
{
    if s.len() == 0 {
        Seq::empty()
    } else if s.last() == ',' || s.last() == ' ' {
        compact_number(s.drop_last())
    } else {
        compact_number(s.drop_last()).push(s.last())
    }
}

/// The main stat values that only a level 20 five-star artifact shows.
pub open spec fn five_star_max_main_value(v: Seq<char>) -> bool {
    v == "4780"@ || v == "311"@ || v == "46.6%"@ || v == "58.3%"@ || v == "187"@ || v == "51.8%"@
        || v == "31.1%"@ || v == "62.2%"@ || v == "35.9%"@
}

/// A five-star artifact whose main stat shows a maximal value is at level 20.
pub fn infer_max_level_from_main_stat(star: usize, value: &str) -> (r: Option<i32>)
    ensures
        r == (if star == 5 && five_star_max_main_value(compact_number(value@)) {
            Some(20i32)
        } else {
            None::<i32>
        }),
{
    if star != 5 {
        return None;
    }
    let chars = chars_of(value);
    let mut compact: Vec<char> = Vec::new();
    let mut i: usize = 0;
    while i < chars.len()
        invariant
            i <= chars@.len(),
            compact@ == compact_number(chars@.take(i as int)),
        decreases chars@.len() - i,
    {
        proof {
            assert(chars@.take(i + 1).drop_last() =~= chars@.take(i as int));
        }
        if chars[i] != ',' && chars[i] != ' ' {
            compact.push(chars[i]);
        }
        i = i + 1;
    }
    assert(chars@.take(chars@.len() as int) =~= chars@);
    let c = compact.as_slice();
    let known = chars_equal(c, chars_of("4780").as_slice()) || chars_equal(c, chars_of("311").as_slice())
        || chars_equal(c, chars_of("46.6%").as_slice()) || chars_equal(c, chars_of("58.3%").as_slice())
        || chars_equal(c, chars_of("187").as_slice()) || chars_equal(c, chars_of("51.8%").as_slice())
        || chars_equal(c, chars_of("31.1%").as_slice()) || chars_equal(c, chars_of("62.2%").as_slice())
        || chars_equal(c, chars_of("35.9%").as_slice());
    if known {
        Some(20)
    } else {
        None
    }
}

/// Whether OCR text holds no letter or digit.
pub fn is_semantically_blank(text: &str) -> (r: bool)
    ensures
        r == !exists|i: int| 0 <= i < text@.len() && unicode_alphanumeric(#[trigger] text@[i]),
{
    let chars = chars_of(text);
    let mut i: usize = 0;
    while i < chars.len()
        invariant
            i <= chars@.len(),
            chars@ == text@,
            forall|k: int| 0 <= k < i ==> !unicode_alphanumeric(#[trigger] chars@[k]),
        decreases chars@.len() - i,
    {
        if is_alphanumeric(chars[i]) {
            return false;
        }
        i = i + 1;
    }
    true
}

/// The length of a streak of identical results after `current`: one more
/// than before when `current` equals the previous result, else zero.
pub fn next_consecutive_duplicate_count<T: PartialEq>(previous: Option<&T>, current: &T, current_count: i32) -> (r: i32)
    requires
        current_count < i32::MAX,
    ensures
        T::obeys_eq_spec() ==> r == (if previous matches Some(p) && p.eq_spec(current) {
            current_count + 1
        } else {
            0
        }),
{
    match previous {
        Some(p) => if p == current {
            current_count + 1
        } else {
            0
        },
        None => 0,
    }
}

} // verus!

verus! {

/// Whether a leading character of a sub-stat line is decoration to skip.
pub open spec fn leading_decoration(c: char) -> bool {
    unicode_whitespace(c) || c == '·' || c == '•' || c == '-'
}

/// How many leading characters of `s` are decoration.
pub open spec fn decoration_len(s: Seq<char>) -> nat
    decreases s.len(),
{
    if s.len() > 0 && leading_decoration(s[0]) {
        1 + decoration_len(s.skip(1))
    } else {
        0
    }
}

/// Whether `c` may occur in a stat value.
pub open spec fn value_char(c: char) -> bool {
    crate::text::is_digit(c) || c == '.' || c == ',' || c == '%'
}

/// How many leading characters of `s` may belong to a stat value.
pub open spec fn value_len(s: Seq<char>) -> nat
    decreases s.len(),
{
    if s.len() > 0 && value_char(s[0]) {
        1 + value_len(s.skip(1))
    } else {
        0
    }
}

/// The `label+value` prefix of a sub-stat line: leading decoration is
/// skipped, and the value after the first `+` runs while it has digits,
/// points, commas and percent signs; there must be at least one.
pub open spec fn stat_prefix(text: Seq<char>) -> Option<Seq<char>> {
    let t = text.skip(decoration_len(text) as int);
    match first_index_of(t, '+') {
        None => None,
        Some(p) => {
            let n = value_len(t.skip(p + 1));
            if n > 0 {
                Some(t.take(p + 1 + n))
            } else {
                None
            }
        },
    }
}

proof fn lemma_decoration_step(s: Seq<char>, i: int)
    requires
        0 <= i <= s.len(),
        forall|k: int| 0 <= k < i ==> leading_decoration(#[trigger] s[k]),
    ensures
        decoration_len(s) == i + decoration_len(s.skip(i)),
    decreases i,
{
    if i > 0 {
        assert(leading_decoration(s[0]));
        assert(s.skip(1).skip(i - 1) =~= s.skip(i));
        assert forall|k: int| 0 <= k < i - 1 implies leading_decoration(#[trigger] s.skip(1)[k]) by {
            assert(s.skip(1)[k] == s[k + 1]);
        }
        lemma_decoration_step(s.skip(1), i - 1);
    } else {
        assert(s.skip(0) =~= s);
    }
}

/// Skips the leading decoration of `s`.
fn decoration_end(s: &[char]) -> (r: usize)
    ensures
        r == decoration_len(s@),
        r <= s@.len(),
{
    let mut i: usize = 0;
    while i < s.len()
        invariant
            i <= s@.len(),
            forall|k: int| 0 <= k < i ==> leading_decoration(#[trigger] s@[k]),
        decreases s@.len() - i,
    {
        let c = s[i];
        if !(is_whitespace(c) || c == '·' || c == '•' || c == '-') {
            proof {
                lemma_decoration_step(s@, i as int);
                assert(!leading_decoration(s@.skip(i as int)[0]));
            }
            return i;
        }
        i = i + 1;
    }
    proof {
        lemma_decoration_step(s@, s@.len() as int);
    }
    i
}

proof fn lemma_value_step(s: Seq<char>, i: int)
    requires
        0 <= i <= s.len(),
        forall|k: int| 0 <= k < i ==> value_char(#[trigger] s[k]),
    ensures
        value_len(s) == i + value_len(s.skip(i)),
    decreases i,
{
    if i > 0 {
        assert(value_char(s[0]));
        assert(s.skip(1).skip(i - 1) =~= s.skip(i));
        assert forall|k: int| 0 <= k < i - 1 implies value_char(#[trigger] s.skip(1)[k]) by {
            assert(s.skip(1)[k] == s[k + 1]);
        }
        lemma_value_step(s.skip(1), i - 1);
    } else {
        assert(s.skip(0) =~= s);
    }
}

/// The `label+value` prefix of an OCR'd sub-stat line, such as `防御力+6.6%`
/// from `· 防御力+6.6%（待激活）`.
pub fn extract_stat_prefix(text: &str) -> (r: Option<String>)
    ensures
        r matches Some(s) ==> stat_prefix(text@) == Some(s@),
        r is None ==> stat_prefix(text@) is None,
{
    let chars = chars_of(text);
    let n = chars.len();
    let start = decoration_end(chars.as_slice());
    let t = copy_range(chars.as_slice(), start, n);
    assert(t@ =~= text@.skip(decoration_len(text@) as int));
    let tn = t.len();
    let plus = match find_char(t.as_slice(), '+') {
        None => {
            return None;
        },
        Some(p) => p,
    };
    let mut end: usize = plus + 1;
    while end < tn
        invariant
            plus < tn,
            tn == t@.len(),
            plus + 1 <= end <= tn,
            forall|k: int| plus + 1 <= k < end ==> value_char(#[trigger] t@[k]),
        ensures
            plus + 1 <= end <= tn,
            forall|k: int| plus + 1 <= k < end ==> value_char(#[trigger] t@[k]),
            end < tn ==> !value_char(t@[end as int]),
        decreases tn - end,
    {
        let c = t[end];
        if !(ascii_digit(c) || c == '.' || c == ',' || c == '%') {
            break;
        }
        end = end + 1;
    }
    proof {
        let rest = t@.skip(plus + 1);
        assert forall|k: int| 0 <= k < end - (plus + 1) implies value_char(#[trigger] rest[k]) by {
            assert(rest[k] == t@[plus + 1 + k]);
        }
        lemma_value_step(rest, end - (plus + 1));
        if end < tn {
            assert(rest.skip(end - (plus + 1))[0] == t@[end as int]);
        } else {
            assert(rest.skip(end - (plus + 1)).len() == 0);
        }
    }
    if end > plus + 1 {
        let prefix = copy_range(t.as_slice(), 0, end);
        assert(prefix@ =~= t@.take(end as int));
        Some(string_from_chars(prefix.as_slice()))
    } else {
        None
    }
}

} // verus!

verus! {

/// Whether a value lies in `[lo_m / 10^s, hi_m / 10^s]`.
pub open spec fn within(v: StatValue, lo_m: nat, hi_m: nat, s: nat) -> bool {
    at_least(v, lo_m, s) && at_most(v, hi_m, s)
}

/// Whether a stat is one a sub-stat line can show: a pending (not yet
/// active) sub-stat must lie in the range of one roll, an active one below
/// the most that five rolls can reach; other stat kinds are never sub-stats.
pub open spec fn plausible_substat(stat: ArtifactStat, pending: bool) -> bool {
    let v = stat.value;
    if pending {
        match stat.name {
            ArtifactStatName::Hp => within(v, 200, 310, 0),
            ArtifactStatName::Atk => within(v, 13, 20, 0),
            ArtifactStatName::Def => within(v, 15, 24, 0),
            ArtifactStatName::HpPercentage | ArtifactStatName::AtkPercentage => within(v, 40, 60, 3),
            ArtifactStatName::DefPercentage => within(v, 50, 75, 3),
            ArtifactStatName::ElementalMastery => within(v, 15, 24, 0),
            ArtifactStatName::Recharge => within(v, 44, 66, 3),
            ArtifactStatName::Critical => within(v, 26, 40, 3),
            ArtifactStatName::CriticalDamage => within(v, 53, 79, 3),
            _ => false,
        }
    } else {
        match stat.name {
            ArtifactStatName::Hp => at_most(v, 1800, 0),
            ArtifactStatName::Atk => at_most(v, 120, 0),
            ArtifactStatName::Def => at_most(v, 140, 0),
            ArtifactStatName::HpPercentage | ArtifactStatName::AtkPercentage => at_most(v, 36, 2),
            ArtifactStatName::DefPercentage => at_most(v, 44, 2),
            ArtifactStatName::ElementalMastery => at_most(v, 140, 0),
            ArtifactStatName::Recharge => at_most(v, 39, 2),
            ArtifactStatName::Critical => at_most(v, 24, 2),
            ArtifactStatName::CriticalDamage => at_most(v, 47, 2),
            _ => false,
        }
    }
}

pub open spec fn plausible_substat_text(text: Seq<char>, pending: bool) -> bool {
    match stat_from_text(text) {
        None => false,
        Some(stat) => plausible_substat(stat, pending),
    }
}

fn value_within(v: StatValue, lo: u64, hi: u64, s: u32) -> (r: bool)
    requires
        bounded_value(v),
        lo <= 100000,
        hi <= 100000,
        s <= 3,
    ensures
        r == within(v, lo as nat, hi as nat, s as nat),
{
    value_at_least(v, lo, s) && value_at_most(v, hi, s)
}

/// Whether an OCR'd sub-stat line reads as a stat it could really show.
pub fn is_plausible_substat(text: &str, pending: bool) -> (r: bool)
    ensures
        r == plausible_substat_text(text@, pending),
{
    let stat = match ArtifactStat::from_zh_cn_raw(text) {
        None => {
            return false;
        },
        Some(s) => s,
    };
    proof {
        lemma_stat_from_text_bounded(text@);
    }
    let v = stat.value;
    if pending {
        match stat.name {
            ArtifactStatName::Hp => value_within(v, 200, 310, 0),
            ArtifactStatName::Atk => value_within(v, 13, 20, 0),
            ArtifactStatName::Def => value_within(v, 15, 24, 0),
            ArtifactStatName::HpPercentage | ArtifactStatName::AtkPercentage => value_within(v, 40, 60, 3),
            ArtifactStatName::DefPercentage => value_within(v, 50, 75, 3),
            ArtifactStatName::ElementalMastery => value_within(v, 15, 24, 0),
            ArtifactStatName::Recharge => value_within(v, 44, 66, 3),
            ArtifactStatName::Critical => value_within(v, 26, 40, 3),
            ArtifactStatName::CriticalDamage => value_within(v, 53, 79, 3),
            _ => false,
        }
    } else {
        match stat.name {
            ArtifactStatName::Hp => value_at_most(v, 1800, 0),
            ArtifactStatName::Atk => value_at_most(v, 120, 0),
            ArtifactStatName::Def => value_at_most(v, 140, 0),
            ArtifactStatName::HpPercentage | ArtifactStatName::AtkPercentage => value_at_most(v, 36, 2),
            ArtifactStatName::DefPercentage => value_at_most(v, 44, 2),
            ArtifactStatName::ElementalMastery => value_at_most(v, 140, 0),
            ArtifactStatName::Recharge => value_at_most(v, 39, 2),
            ArtifactStatName::Critical => value_at_most(v, 24, 2),
            ArtifactStatName::CriticalDamage => value_at_most(v, 47, 2),
            _ => false,
        }
    }
}

/// The marker the game shows after a pending sub-stat.
pub open spec fn pending_marker() -> Seq<char> {
    "待激活"@
}

/// `s` without white space.
pub open spec fn without_whitespace(s: Seq<char>) -> Seq<char>
    decreases s.len(),
{
    if s.len() == 0 {
        Seq::empty()
    } else if unicode_whitespace(s.last()) {
        without_whitespace(s.drop_last())
    } else {
        without_whitespace(s.drop_last()).push(s.last())
    }
}

/// A run of 2 to 4 characters at most one edit away from the marker.
pub open spec fn near_marker(window: Seq<char>) -> bool {
    levenshtein(window, pending_marker()) <= 1
}

/// Whether OCR text shows the pending marker, exactly or misread by one edit
/// in a run of 2 to 4 characters; white space is ignored.
pub open spec fn has_pending_marker(text: Seq<char>) -> bool {
    let c = without_whitespace(text);
    occurs_in(c, pending_marker()) || exists|len: int, i: int|
        2 <= len <= 4 && 0 <= i && i + len <= c.len() && near_marker(#[trigger] c.subrange(i, i + len))
}

/// `edit_distance::edit_distance`. The crate documents and computes the
/// Levenshtein distance between the characters of the two strings.
#[verifier::external_body]
fn crate_edit_distance(a: &str, b: &str) -> (r: usize)
    ensures
        r == levenshtein(a@, b@),
{
    edit_distance::edit_distance(a, b)
}

/// Whether OCR text holds the pending-substat marker.
pub fn contains_pending_marker(text: &str) -> (r: bool)
    ensures
        r == has_pending_marker(text@),
{
    let chars = chars_of(text);
    let mut compact: Vec<char> = Vec::new();
    let mut i: usize = 0;
    while i < chars.len()
        invariant
            i <= chars@.len(),
            compact@ == without_whitespace(chars@.take(i as int)),
        decreases chars@.len() - i,
    {
        proof {
            assert(chars@.take(i + 1).drop_last() =~= chars@.take(i as int));
        }
        if !is_whitespace(chars[i]) {
            compact.push(chars[i]);
        }
        i = i + 1;
    }
    assert(chars@.take(chars@.len() as int) =~= chars@);
    let marker = chars_of("待激活");
    if contains_run(compact.as_slice(), marker.as_slice()) {
        return true;
    }
    let n = compact.len();
    let mut len: usize = 2;
    while len <= 4
        invariant
            2 <= len <= 5,
            n == compact@.len(),
            compact@ == without_whitespace(text@),
            !occurs_in(compact@, pending_marker()),
            forall|l: int, k: int| 2 <= l < len && 0 <= k && k + l <= n ==> !near_marker(#[trigger] compact@.subrange(k, k + l)),
        decreases 5 - len,
    {
        if len <= n {
            let last = n - len;
            let mut k: usize = 0;
            while k <= last
                invariant
                    2 <= len <= 4,
                    len <= n,
                    last == n - len,
                    k <= last + 1,
                    n == compact@.len(),
                    compact@ == without_whitespace(text@),
                    forall|l: int, j: int| 2 <= l < len && 0 <= j && j + l <= n ==> !near_marker(#[trigger] compact@.subrange(j, j + l)),
                    forall|j: int| 0 <= j < k && j + len <= n ==> !near_marker(#[trigger] compact@.subrange(j, j + len)),
                decreases n - k,
            {
                let window = copy_range(compact.as_slice(), k, k + len);
                let candidate = string_from_chars(window.as_slice());
                if crate_edit_distance(candidate.as_str(), "待激活") <= 1 {
                    assert(near_marker(compact@.subrange(k as int, k + len)));
                    return true;
                }
                k = k + 1;
            }
        }
        len = len + 1;
    }
    false
}

} // verus!
