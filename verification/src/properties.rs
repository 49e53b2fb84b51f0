use vstd::prelude::*;

use crate::artifact::{stat_name_from_zh_cn, ArtifactSetNameView, ArtifactSlot, ArtifactStatName};
use crate::export::{
    set_mingyu_key, set_mona_key, slot_good_key, slot_mingyu_key, slot_mona_key, stat_good_key,
    stat_mingyu_key, stat_mona_key,
};
use crate::formats::export_value_of;
use crate::catalog::{
    piece_rejected, piece_tolerance,
    ArtifactSetRecord,
    lemma_entry_members, lemma_member_facts, lemma_same_members_same_lookup, lemma_catalog_bounds, lemma_best_is_earliest_of_its_name,
    slot_allows, entry_for, lemma_sets_entry_members,
    first_min_index, lemma_first_min_index, lemma_normalized_shorter, lemma_pascal_scan_alnum, lemma_pascal_scan_empty, lemma_pascal_scan_head, lemma_pascal_scan_run,
    lemma_sets_entries_all, pascal_key_of, pascal_scan, valid_good_key,
    lemma_sets_entry_of, normalized, other_piece, piece_entries, piece_entries_in_sets, piece_lookup,
    piece_names_fit, piece_target, piece_targets_distinct, set_name_view, ArtifactCatalog, MatchEntry,
    PieceMatchView,
};
use crate::edit::{levenshtein, lemma_levenshtein_bounded, lemma_levenshtein_symmetric, lemma_levenshtein_zero};
use crate::executor::{desired_state, inventory_count, LockError};
use crate::game_info::{
    aspect_gap, family_ratio, nearer_family, nearest_family, resolution_family, within_tolerance,
    ResolutionFamily, Size, UI, Platform,
};
use crate::lock_plan::{merged_plan, v1_records, LockChange, LockPlanEntry, LockPlanError, PlannedState};
use crate::scan::{artifact_level, five_star_max_main_value, level_value, plausible_substat};
use crate::stat::{pow10, value_num, ArtifactStat};
use crate::text::{is_ascii_alnum, to_upper_spec};
use crate::traversal::{bottom_row, total_rows};
use crate::window_info::{auto_scale_outcome, exact_lookup, ProfileKey, ProfileMatch};

verus! {

/// A value recorded with `add` is what `get_exact` then reads for that
/// name and layout, and what `get_auto_scale` answers for that layout;
/// other names and layouts read as before.
pub proof fn law_read_after_add<T>(
    before: Map<(Seq<char>, ProfileKey), T>,
    name: Seq<char>,
    size: Size,
    ui: UI,
    platform: Platform,
    value: T,
    other_name: Seq<char>,
    other_size: Size,
    other_ui: UI,
    other_platform: Platform,
)
    ensures
        ({
            let after = before.insert((name, ProfileKey { size, ui, platform }), value);
            &&& exact_lookup(after, name, size, ui, platform) == Some(value)
            &&& auto_scale_outcome(after, name, size, ui, platform, Some(ProfileMatch { value, source_size: size }))
            &&& (other_name, ProfileKey { size: other_size, ui: other_ui, platform: other_platform }) != (
                name,
                ProfileKey { size, ui, platform },
            ) ==> exact_lookup(after, other_name, other_size, other_ui, other_platform)
                == exact_lookup(before, other_name, other_size, other_ui, other_platform)
        }),
{
}

/// After a merge, a layout value comes from the other repository where it
/// records one, and from this one otherwise.
pub proof fn law_merge_prefers_other<T>(
    mine: Map<(Seq<char>, ProfileKey), T>,
    other: Map<(Seq<char>, ProfileKey), T>,
    name: Seq<char>,
    size: Size,
    ui: UI,
    platform: Platform,
)
    ensures
        exact_lookup(mine.union_prefer_right(other), name, size, ui, platform) == (match exact_lookup(
            other,
            name,
            size,
            ui,
            platform,
        ) {
            Some(v) => Some(v),
            None => exact_lookup(mine, name, size, ui, platform),
        }),
{
}

pub open spec fn desktop_family(f: ResolutionFamily) -> bool {
    f != ResolutionFamily::MacOS8x5
}

/// A window whose aspect ratio is exactly that of a calibrated desktop
/// family belongs to that family.
pub proof fn law_exact_ratio_is_recognized(family: ResolutionFamily, k: nat)
    requires
        desktop_family(family),
        k >= 1,
        k * family_ratio(family).0 <= usize::MAX,
        k * family_ratio(family).1 <= usize::MAX,
    ensures
        resolution_family(
            Size {
                width: (k * family_ratio(family).0) as usize,
                height: (k * family_ratio(family).1) as usize,
            },
        ) == Some(family),
{
    let (p, q) = family_ratio(family);
    let w = k * p;
    let h = k * q;
    assert(w * q == h * p) by (nonlinear_arith)
        requires
            w == k * p,
            h == k * q,
    ;
    assert(aspect_gap(w, h, family) == 0);
    assert(w >= 1 && h >= 1) by (nonlinear_arith)
        requires
            w == k * p,
            h == k * q,
            k >= 1,
            p >= 1,
            q >= 1,
    ;
    // Every other family is strictly further off, so the first-nearest
    // family is `family` itself.
    assert forall|g: ResolutionFamily| #[trigger] family_ratio(g) != family_ratio(family) implies aspect_gap(
        w,
        h,
        g,
    ) > 0 by {
        let (a, b) = family_ratio(g);
        assert(w * b != h * a) by (nonlinear_arith)
            requires
                w == k * p,
                h == k * q,
                k >= 1,
                (a, b) != (p, q),
                (a == 43 && b == 18) || (a == 7 && b == 3) || (a == 16 && b == 9) || (a == 8 && b == 5)
                    || (a == 4 && b == 3),
                (p == 43 && q == 18) || (p == 7 && q == 3) || (p == 16 && q == 9) || (p == 8 && q == 5)
                    || (p == 4 && q == 3),
        ;
    }
    assert(nearest_family(w, h) == family) by {
        let f0 = ResolutionFamily::Windows43x18;
        assert(family_ratio(ResolutionFamily::Windows7x3) != family_ratio(f0));
        assert(family_ratio(ResolutionFamily::Windows16x9) != family_ratio(f0));
        assert(family_ratio(ResolutionFamily::Windows8x5) != family_ratio(f0));
        assert(family_ratio(ResolutionFamily::Windows4x3) != family_ratio(f0));
        assert(family_ratio(ResolutionFamily::Windows16x9) != family_ratio(ResolutionFamily::Windows7x3));
        assert(family_ratio(ResolutionFamily::Windows8x5) != family_ratio(ResolutionFamily::Windows7x3));
        assert(family_ratio(ResolutionFamily::Windows4x3) != family_ratio(ResolutionFamily::Windows7x3));
        assert(family_ratio(ResolutionFamily::Windows8x5) != family_ratio(ResolutionFamily::Windows16x9));
        assert(family_ratio(ResolutionFamily::Windows4x3) != family_ratio(ResolutionFamily::Windows16x9));
        assert(family_ratio(ResolutionFamily::Windows4x3) != family_ratio(ResolutionFamily::Windows8x5));
        let g1 = ResolutionFamily::Windows7x3;
        let g2 = ResolutionFamily::Windows16x9;
        let g3 = ResolutionFamily::Windows8x5;
        let g4 = ResolutionFamily::Windows4x3;
        if family != f0 {
            assert(aspect_gap(w, h, f0) > 0);
        }
        if family != g1 {
            assert(aspect_gap(w, h, g1) > 0);
        }
        if family != g2 {
            assert(aspect_gap(w, h, g2) > 0);
        }
        if family != g3 {
            assert(aspect_gap(w, h, g3) > 0);
        }
        if family != g4 {
            assert(aspect_gap(w, h, g4) > 0);
        }
        assert(aspect_gap(w, h, f0) * 1 >= 0);
        assert forall|a: ResolutionFamily, b: ResolutionFamily|
            aspect_gap(w, h, a) > 0 && aspect_gap(w, h, b) == 0 implies !#[trigger] nearer_family(
            w,
            h,
            a,
            b,
        ) by {
            let qa = family_ratio(a).1;
            assert(aspect_gap(w, h, a) * family_ratio(b).1 >= 0) by (nonlinear_arith);
            assert(aspect_gap(w, h, b) * qa == 0) by (nonlinear_arith)
                requires
                    aspect_gap(w, h, b) == 0,
            ;
        }
        assert forall|a: ResolutionFamily, b: ResolutionFamily|
            aspect_gap(w, h, a) == 0 && aspect_gap(w, h, b) > 0 implies #[trigger] nearer_family(
            w,
            h,
            a,
            b,
        ) by {
            let qa = family_ratio(a).1;
            let qb = family_ratio(b).1;
            assert(qa >= 1 && qb >= 1);
            assert(aspect_gap(w, h, a) * qb == 0) by (nonlinear_arith)
                requires
                    aspect_gap(w, h, a) == 0,
            ;
            assert(aspect_gap(w, h, b) * qa > 0) by (nonlinear_arith)
                requires
                    aspect_gap(w, h, b) > 0,
                    qa >= 1,
            ;
        }
    }
    assert(within_tolerance(w, h, family)) by (nonlinear_arith)
        requires
            aspect_gap(w, h, family) == 0,
            h >= 1,
            family_ratio(family).0 >= 1,
    ;
}

proof fn lemma_gap_scales(w: nat, h: nat, k: nat, f: ResolutionFamily)
    ensures
        aspect_gap(k * w, k * h, f) == k * aspect_gap(w, h, f),
{
    let (p, q) = family_ratio(f);
    assert((k * w) * q == k * (w * q) && (k * h) * p == k * (h * p)) by (nonlinear_arith);
    if w * q >= h * p {
        assert(k * (w * q) - k * (h * p) == k * (w * q - h * p)) by (nonlinear_arith);
        assert(k * (w * q) >= k * (h * p)) by (nonlinear_arith)
            requires
                w * q >= h * p,
        ;
    } else {
        assert(k * (h * p) - k * (w * q) == k * (h * p - w * q)) by (nonlinear_arith);
        assert(k * (w * q) <= k * (h * p)) by (nonlinear_arith)
            requires
                w * q < h * p,
        ;
    }
}

proof fn lemma_nearer_scales(w: nat, h: nat, k: nat, a: ResolutionFamily, b: ResolutionFamily)
    requires
        k >= 1,
    ensures
        nearer_family(k * w, k * h, a, b) == nearer_family(w, h, a, b),
{
    lemma_gap_scales(w, h, k, a);
    lemma_gap_scales(w, h, k, b);
    let ga = aspect_gap(w, h, a);
    let gb = aspect_gap(w, h, b);
    let qa = family_ratio(a).1;
    let qb = family_ratio(b).1;
    assert((k * ga) * qb == k * (ga * qb) && (k * gb) * qa == k * (gb * qa)) by (nonlinear_arith);
    assert((k * (ga * qb) < k * (gb * qa)) == (ga * qb < gb * qa)) by (nonlinear_arith)
        requires
            k >= 1,
    ;
}

/// The family of a window depends on its aspect ratio alone: scaling both
/// sides by the same factor keeps it.
pub proof fn law_family_depends_on_aspect_ratio(size: Size, k: nat)
    requires
        k >= 1,
        k * size.width <= usize::MAX,
        k * size.height <= usize::MAX,
    ensures
        resolution_family(
            Size { width: (k * size.width) as usize, height: (k * size.height) as usize },
        ) == resolution_family(size),
{
    let w = size.width as nat;
    let h = size.height as nat;
    let scaled = Size { width: (k * w) as usize, height: (k * h) as usize };
    assert((k * w == 0) == (w == 0) && (k * h == 0) == (h == 0)) by (nonlinear_arith)
        requires
            k >= 1,
    ;
    let f0 = ResolutionFamily::Windows43x18;
    let f1 = ResolutionFamily::Windows7x3;
    let f2 = ResolutionFamily::Windows16x9;
    let f3 = ResolutionFamily::Windows8x5;
    let f4 = ResolutionFamily::Windows4x3;
    assert forall|a: ResolutionFamily, b: ResolutionFamily|
        #[trigger] nearer_family(k * w, k * h, a, b) == nearer_family(w, h, a, b) by {
        lemma_nearer_scales(w, h, k, a, b);
    }
    assert(nearest_family(k * w, k * h) == nearest_family(w, h));
    let f = nearest_family(w, h);
    lemma_gap_scales(w, h, k, f);
    let g = aspect_gap(w, h, f);
    let p = family_ratio(f).0;
    assert((k * g * 1000 <= 15 * (k * h) * p) == (g * 1000 <= 15 * h * p)) by (nonlinear_arith)
        requires
            k >= 1,
    ;
}

proof fn lemma_flat_cap(n: int, t: int, m: int, cap: int)
    requires
        n * pow10(0) <= m * t,
        pow10(0) == 1,
        t >= 0,
        m <= cap,
    ensures
        n * pow10(0) <= cap * t,
{
    assert(m * t <= cap * t) by (nonlinear_arith)
        requires
            t >= 0,
            m <= cap,
    ;
}

proof fn lemma_fraction_cap(n: int, t: int, m: int, cap: int)
    requires
        n * pow10(3) <= m * t,
        pow10(3) == 1000,
        pow10(2) == 100,
        t >= 0,
        m <= 10 * cap,
    ensures
        n * pow10(2) <= cap * t,
{
    assert(n * 100 <= cap * t) by (nonlinear_arith)
        requires
            n * 1000 <= m * t,
            t >= 0,
            m <= 10 * cap,
    ;
}

/// A sub-stat plausible as a pending roll is plausible as an active one: a
/// single roll never exceeds what active sub-stats may reach.
pub proof fn law_pending_roll_is_plausible_when_active(stat: ArtifactStat)
    requires
        plausible_substat(stat, true),
    ensures
        plausible_substat(stat, false),
{
    let v = stat.value;
    let n = value_num(v);
    let t = pow10(v.scale as nat) as int;
    assert(pow10(0) == 1 && pow10(2) == 100 && pow10(3) == 1000) by {
        reveal_with_fuel(pow10, 4);
    }
    match stat.name {
        ArtifactStatName::Hp => lemma_flat_cap(n, t, 310, 1800),
        ArtifactStatName::Atk => lemma_flat_cap(n, t, 20, 120),
        ArtifactStatName::Def => lemma_flat_cap(n, t, 24, 140),
        ArtifactStatName::ElementalMastery => lemma_flat_cap(n, t, 24, 140),
        ArtifactStatName::HpPercentage | ArtifactStatName::AtkPercentage => lemma_fraction_cap(n, t, 60, 36),
        ArtifactStatName::DefPercentage => lemma_fraction_cap(n, t, 75, 44),
        ArtifactStatName::Recharge => lemma_fraction_cap(n, t, 66, 39),
        ArtifactStatName::Critical => lemma_fraction_cap(n, t, 40, 24),
        ArtifactStatName::CriticalDamage => lemma_fraction_cap(n, t, 79, 47),
        _ => {},
    }
}

/// A change is only asked for when it changes the state; and an entry that
/// sets a state asks for nothing once that state is reached.
pub proof fn law_lock_changes_are_needed(entry: LockPlanEntry, current: bool)
    ensures
        desired_state(entry, current) matches Ok(Some(d)) ==> d != current,
        entry.change matches Some(LockChange::SetTo(d)) ==> ((entry.expected is None
            || entry.expected == Some(d)) ==> desired_state(entry, d) == Ok::<Option<bool>, LockError>(
            None,
        )),
        (entry.change == Some(LockChange::Flip) && entry.expected is None) ==> desired_state(entry, current)
            == Ok::<Option<bool>, LockError>(Some(!current)),
        (desired_state(entry, current) is Err) <==> (entry.expected is Some && entry.expected
            != Some(current)),
{
}

/// An inventory count read from the header never exceeds a positive
/// capacity.
pub proof fn law_inventory_count_fits_capacity(text: Seq<char>, hint: Option<Seq<char>>)
    ensures
        inventory_count(text, hint) matches Ok((current, capacity)) ==> 0 < capacity && current
            <= capacity,
{
}

/// At the end of the grid the rows shown reach the last item, and for a
/// grid of several pages the bottom page starts on a row before the last.
pub proof fn law_bottom_page_reaches_the_end(item_count: nat, columns: nat, visible_rows: nat)
    requires
        columns >= 1,
        visible_rows >= 1,
    ensures
        (bottom_row(item_count, columns, visible_rows) + visible_rows - 1) * columns >= item_count,
        (item_count > 0 && visible_rows >= 2) ==> (bottom_row(item_count, columns, visible_rows) + 1)
            * columns <= total_rows(item_count, columns) * columns,
{
    let c = columns as int;
    let n = item_count as int;
    let t = (n + c - 1) / c;
    vstd::arithmetic::div_mod::lemma_fundamental_div_mod(n + c - 1, c);
    vstd::arithmetic::div_mod::lemma_mod_pos_bound(n + c - 1, c);
    assert(t * c >= n) by (nonlinear_arith)
        requires
            n + c - 1 == c * t + (n + c - 1) % c,
            (n + c - 1) % c < c,
    ;
    let b = bottom_row(item_count, columns, visible_rows) as int;
    let shown = visible_rows - 1;
    if t >= shown {
        assert((b + shown) * c == t * c);
    } else {
        assert((b + shown) * c >= t * c) by (nonlinear_arith)
            requires
                b + shown >= t,
                c >= 1,
        ;
    }
    if item_count > 0 && visible_rows >= 2 {
        assert(t >= 1) by (nonlinear_arith)
            requires
                t * c >= n,
                n > 0,
                c >= 1,
        ;
        assert(b + 1 <= t);
        assert((b + 1) * c <= t * c) by (nonlinear_arith)
            requires
                b + 1 <= t,
                c >= 1,
        ;
    }
}

/// A piece name read without a fault is recognized: when no two catalog
/// pieces have the same letters and digits in their names, looking up the
/// name of a piece (one that has a letter or digit) finds that very piece,
/// at distance 0.
pub proof fn law_exact_piece_name_is_found(catalog: ArtifactCatalog, g: int, k: int)
    requires
        0 <= g < catalog.artifact_sets@.len(),
        0 <= k < catalog.artifact_sets@[g].pieces@.len(),
        piece_target(catalog.artifact_sets@, g, k).len() > 0,
        piece_targets_distinct(catalog.artifact_sets@),
        piece_names_fit(catalog.artifact_sets@),
    ensures
        piece_lookup(catalog, seq![catalog.artifact_sets@[g].pieces@[k].name_zh_cn@], None) == Some(
            PieceMatchView {
                set_name: set_name_view(catalog.artifact_sets@[g]),
                slot: catalog.artifact_sets@[g].pieces@[k].slot,
                piece_name_zh_cn: catalog.artifact_sets@[g].pieces@[k].name_zh_cn@,
                distance: 0,
            },
        ),
{
    let sets = catalog.artifact_sets@;
    assert(sets.len() == catalog.artifact_sets.len());
    let name = sets[g].pieces@[k].name_zh_cn@;
    let cands = seq![name];
    let c = normalized(name);
    assert(cands.drop_last() =~= Seq::<Seq<char>>::empty());
    assert(cands.last() == name);
    assert(piece_entries(Seq::<Seq<char>>::empty(), sets, None) == Seq::<MatchEntry>::empty());
    let e = piece_entries(cands, sets, None);
    assert(e == piece_entries(cands.drop_last(), sets, None) + piece_entries_in_sets(c, sets, None));
    assert(e =~= piece_entries_in_sets(c, sets, None));
    lemma_sets_entries_all(c, sets);
    let t0 = lemma_sets_entry_of(c, sets, g, k);
    lemma_levenshtein_zero(c, c);
    assert(e[t0].distance == 0);
    lemma_first_min_index(e);
    let best = e[first_min_index(e)];
    assert(best.distance <= e[t0].distance);
    lemma_normalized_shorter(name);
    assert(sets[g].pieces@[k].name_zh_cn@.len() <= usize::MAX);
    assert forall|t: int| 0 <= t < e.len() && #[trigger] e[t].distance == 0 implies e[t].group == g
        && e[t].item == k by {
        let x = e[t];
        let target = piece_target(sets, x.group as int, x.item as int);
        assert(sets[x.group as int].pieces@[x.item as int].name_zh_cn@.len() <= usize::MAX);
        lemma_normalized_shorter(sets[x.group as int].pieces@[x.item as int].name_zh_cn@);
        lemma_levenshtein_bounded(c, target);
        lemma_levenshtein_zero(c, target);
        assert(piece_target(sets, g, k) == c);
    }
    assert(best.group == g && best.item == k);
    assert forall|t: int| 0 <= t < e.len() implies !(other_piece(sets, #[trigger] e[t], best) && e[t].distance
        <= best.distance) by {
        if e[t].distance <= best.distance {
            assert(e[t].distance == 0);
        }
    }
}

/// The GOOD key built from an English name is a valid GOOD key (a
/// non-empty run of ASCII letters and digits) whenever the name holds an
/// ASCII letter or digit; a catalog built from genshin-db can only be
/// refused for a set's key when its English name holds none.
pub proof fn law_built_good_keys_are_valid(name: Seq<char>)
    requires
        exists|i: int| 0 <= i < name.len() && is_ascii_alnum(#[trigger] name[i]),
    ensures
        valid_good_key(pascal_key_of(name)),
{
    lemma_pascal_scan_alnum(name);
}

/// A v1 lock list is accepted exactly when no index occurs twice in it, and
/// then the plan flips each listed index and nothing else; a repeated
/// index is refused as conflicting changes.
pub proof fn law_v1_list_flips_each_listed_index(indices: Seq<usize>)
    ensures
        merged_plan(v1_records(indices)) is Ok <==> indices.no_duplicates(),
        merged_plan(v1_records(indices)) matches Ok(m) ==> (forall|t: usize| #[trigger] m.contains_key(t)
            <==> indices.contains(t)) && (forall|t: usize| #[trigger] m.contains_key(t) ==> m[t] == (
            None::<bool>,
            Some(LockChange::Flip),
        )),
        merged_plan(v1_records(indices)) matches Err(e) ==> e is ConflictingChanges,
    decreases indices.len(),
{
    if indices.len() > 0 {
        let front = indices.drop_last();
        let t = indices.last();
        law_v1_list_flips_each_listed_index(front);
        assert(v1_records(indices).drop_last() =~= v1_records(front));
        assert(v1_records(indices).last() == crate::lock_plan::flip_record(t));
        assert(indices =~= front.push(t));
        if front.no_duplicates() && !front.contains(t) {
            assert forall|i: int, j: int| 0 <= i < indices.len() && 0 <= j < indices.len() && i != j implies indices[i]
                != indices[j] by {
                if i == indices.len() - 1 {
                    assert(front[j] == indices[j]);
                } else if j == indices.len() - 1 {
                    assert(front[i] == indices[i]);
                } else {
                    assert(front[i] == indices[i] && front[j] == indices[j]);
                }
            }
        }
        if indices.no_duplicates() {
            assert forall|i: int, j: int| 0 <= i < front.len() && 0 <= j < front.len() && i != j implies front[i]
                != front[j] by {
                assert(front[i] == indices[i] && front[j] == indices[j]);
            }
            if front.contains(t) {
                let k = choose|k: int| 0 <= k < front.len() && front[k] == t;
                assert(indices[k] == indices[indices.len() - 1]);
            }
        }
        if let Ok(m) = merged_plan(v1_records(front)) {
            if !front.contains(t) {
                let m2 = m.insert(t, (None::<bool>, Some(LockChange::Flip)));
                assert forall|u: usize| #[trigger] m2.contains_key(u) <==> indices.contains(u) by {
                    if indices.contains(u) && u != t {
                        let k = choose|k: int| 0 <= k < indices.len() && indices[k] == u;
                        assert(front[k] == u);
                    }
                    if front.contains(u) {
                        let k = choose|k: int| 0 <= k < front.len() && front[k] == u;
                        assert(indices[k] == u);
                    }
                    assert(indices[indices.len() - 1] == t);
                }
            }
        }
    } else {
        assert(indices.no_duplicates());
        assert(merged_plan(v1_records(indices)) == Ok::<Map<usize, PlannedState>, LockPlanError>(Map::empty()));
    }
}

/// The edit distance of two texts does not depend on their order; it is
/// zero exactly between equal texts, and never more than the longer
/// text's length.
pub proof fn law_edit_distance_is_symmetric(a: Seq<char>, b: Seq<char>)
    ensures
        levenshtein(a, b) == levenshtein(b, a),
        levenshtein(a, b) == 0 <==> a == b,
        levenshtein(a, b) <= if a.len() >= b.len() {
            a.len()
        } else {
            b.len()
        },
{
    lemma_levenshtein_symmetric(a, b);
    lemma_levenshtein_zero(a, b);
    lemma_levenshtein_bounded(a, b);
}

/// A GOOD key is its own key: building the key of a built key gives it
/// back unchanged. A key holds ASCII letters and digits only, and is empty
/// exactly when the name holds none.
pub proof fn law_pascal_key_is_idempotent(name: Seq<char>)
    ensures
        pascal_key_of(pascal_key_of(name)) == pascal_key_of(name),
        forall|i: int|
            0 <= i < pascal_key_of(name).len() ==> is_ascii_alnum(#[trigger] pascal_key_of(name)[i]),
        pascal_key_of(name).len() == 0 <==> forall|i: int|
            0 <= i < name.len() ==> !is_ascii_alnum(#[trigger] name[i]),
{
    if forall|i: int| 0 <= i < name.len() ==> !is_ascii_alnum(#[trigger] name[i]) {
        lemma_pascal_scan_empty(name);
    }
    let key = pascal_key_of(name);
    lemma_pascal_scan_alnum(name);
    lemma_pascal_scan_head(name);
    if key.len() > 0 {
        lemma_pascal_scan_run(key);
        assert(to_upper_spec(key[0]) == key[0]);
        assert(seq![key[0]] + key.skip(1) =~= key);
    } else {
        assert(key =~= Seq::<char>::empty());
        assert(pascal_scan(key) == (Seq::<char>::empty(), true));
    }
}

/// A piece lookup depends on which candidate texts are given, not on their
/// order, on repeats, or on blank ones (with no letter or digit) among them;
/// with no candidate nothing matches.
pub proof fn law_piece_lookup_ignores_candidate_order(
    catalog: ArtifactCatalog,
    c1: Seq<Seq<char>>,
    c2: Seq<Seq<char>>,
    slot: Option<ArtifactSlot>,
)
    requires
        forall|c: Seq<char>|
            #![trigger c1.contains(c)]
            #![trigger c2.contains(c)]
            (c1.contains(c) && normalized(c).len() > 0) <==> (c2.contains(c) && normalized(c).len() > 0),
    ensures
        piece_lookup(catalog, c1, slot) == piece_lookup(catalog, c2, slot),
        piece_lookup(catalog, Seq::<Seq<char>>::empty(), slot) is None,
{
    let sets = catalog.artifact_sets@;
    lemma_entry_members(c1, sets, slot);
    lemma_entry_members(c2, sets, slot);
    assert forall|x: MatchEntry|
        #![trigger piece_entries(c1, sets, slot).contains(x)]
        #![trigger piece_entries(c2, sets, slot).contains(x)]
        piece_entries(c1, sets, slot).contains(x) <==> piece_entries(c2, sets, slot).contains(x) by {
        if piece_entries(c1, sets, slot).contains(x) {
            let i = choose|i: int|
                0 <= i < c1.len() && normalized(c1[i]).len() > 0 && #[trigger] piece_entries_in_sets(
                    normalized(c1[i]),
                    sets,
                    slot,
                ).contains(x);
            assert(c1.contains(c1[i]));
            let j = choose|j: int| 0 <= j < c2.len() && c2[j] == c1[i];
            assert(piece_entries_in_sets(normalized(c2[j]), sets, slot).contains(x));
        }
        if piece_entries(c2, sets, slot).contains(x) {
            let i = choose|i: int|
                0 <= i < c2.len() && normalized(c2[i]).len() > 0 && #[trigger] piece_entries_in_sets(
                    normalized(c2[i]),
                    sets,
                    slot,
                ).contains(x);
            assert(c2.contains(c2[i]));
            let j = choose|j: int| 0 <= j < c1.len() && c1[j] == c2[i];
            assert(piece_entries_in_sets(normalized(c1[j]), sets, slot).contains(x));
        }
    }
    lemma_same_members_same_lookup(catalog, c1, c2, slot);
}

/// Every comparison made with a slot filter is also made without one.
proof fn lemma_slot_entries_within_all(cands: Seq<Seq<char>>, sets: Seq<ArtifactSetRecord>, slot: ArtifactSlot, x: MatchEntry)
    requires
        piece_entries(cands, sets, Some(slot)).contains(x),
    ensures
        piece_entries(cands, sets, None).contains(x),
{
    lemma_entry_members(cands, sets, Some(slot));
    lemma_entry_members(cands, sets, None);
    let i = choose|i: int|
        0 <= i < cands.len() && normalized(cands[i]).len() > 0 && #[trigger] piece_entries_in_sets(
            normalized(cands[i]),
            sets,
            Some(slot),
        ).contains(x);
    let c = normalized(cands[i]);
    lemma_sets_entry_members(c, sets, Some(slot));
    lemma_sets_entry_members(c, sets, None);
    let (g, k) = choose|g: int, k: int|
        0 <= g < sets.len() && 0 <= k < sets[g].pieces@.len() && slot_allows(Some(slot), sets[g].pieces@[k]) && x
            == #[trigger] entry_for(c, g, k, sets[g].pieces@[k]);
    assert(slot_allows(None, sets[g].pieces@[k]));
    assert(piece_entries_in_sets(c, sets, None).contains(x));
}

/// A lookup restricted to one slot only ever finds a piece of that slot;
/// and the piece that a lookup in the whole catalog finds is found again,
/// with the same set, name and distance, when its own slot is given.
pub proof fn law_slot_lookup_finds_the_whole_catalog_match(
    catalog: ArtifactCatalog,
    cands: Seq<Seq<char>>,
    slot: ArtifactSlot,
)
    ensures
        piece_lookup(catalog, cands, Some(slot)) matches Some(m) ==> m.slot == slot,
        piece_lookup(catalog, cands, None) matches Some(m) ==> piece_lookup(catalog, cands, Some(m.slot))
            == Some(m),
{
    let sets = catalog.artifact_sets@;
    assert(sets.len() == catalog.artifact_sets.len());
    let es = piece_entries(cands, sets, Some(slot));
    if es.len() > 0 {
        lemma_first_min_index(es);
        let b = es[first_min_index(es)];
        assert(es.contains(b));
        let (_g, _k) = lemma_member_facts(cands, sets, Some(slot), b);
    }
    if let Some(m) = piece_lookup(catalog, cands, None) {
        let s = m.slot;
        let e = piece_entries(cands, sets, None);
        let e2 = piece_entries(cands, sets, Some(s));
        lemma_first_min_index(e);
        let b = e[first_min_index(e)];
        assert(e.contains(b));
        // The whole-catalog best is among the comparisons of its own slot.
        lemma_entry_members(cands, sets, None);
        lemma_entry_members(cands, sets, Some(s));
        let i = choose|i: int|
            0 <= i < cands.len() && normalized(cands[i]).len() > 0 && #[trigger] piece_entries_in_sets(
                normalized(cands[i]),
                sets,
                None,
            ).contains(b);
        let c = normalized(cands[i]);
        lemma_sets_entry_members(c, sets, None);
        lemma_sets_entry_members(c, sets, Some(s));
        let (g, k) = choose|g: int, k: int|
            0 <= g < sets.len() && 0 <= k < sets[g].pieces@.len() && slot_allows(None, sets[g].pieces@[k]) && b
                == #[trigger] entry_for(c, g, k, sets[g].pieces@[k]);
        assert(sets[g].pieces@.len() == sets[g].pieces.len());
        assert(b.group == g && b.item == k);
        assert(slot_allows(Some(s), sets[g].pieces@[k]));
        assert(piece_entries_in_sets(c, sets, Some(s)).contains(b));
        assert(e2.contains(b));
        lemma_first_min_index(e2);
        let b2 = e2[first_min_index(e2)];
        assert(e2.contains(b2));
        lemma_slot_entries_within_all(cands, sets, s, b2);
        let t = choose|t: int| 0 <= t < e.len() && e[t] == b2;
        let t2 = choose|t: int| 0 <= t < e2.len() && e2[t] == b;
        assert(b.distance == b2.distance);
        if other_piece(sets, b2, b) {
            assert(other_piece(sets, e[t], b) && e[t].distance <= b.distance);
            assert(false);
        }
        let (g1, k1) = lemma_member_facts(cands, sets, None, b);
        let (g2, k2) = lemma_member_facts(cands, sets, Some(s), b2);
        lemma_catalog_bounds(catalog);
        lemma_best_is_earliest_of_its_name(cands, sets, None, g2, k2);
        lemma_best_is_earliest_of_its_name(cands, sets, Some(s), g1, k1);
        assert(g1 == g2 && k1 == k2);
        assert(b == b2);
        assert(!piece_rejected(sets, e2, b2)) by {
            if piece_rejected(sets, e2, b2) && b2.distance <= piece_tolerance(b2.length as nat) {
                let u = choose|u: int|
                    0 <= u < e2.len() && other_piece(sets, #[trigger] e2[u], b2) && e2[u].distance <= b2.distance;
                assert(e2.contains(e2[u]));
                lemma_slot_entries_within_all(cands, sets, s, e2[u]);
                let v = choose|v: int| 0 <= v < e.len() && e[v] == e2[u];
                assert(other_piece(sets, e[v], b) && e[v].distance <= b.distance);
            }
        }
    }
}


/// The Mona key of each set Mona names on its own is that name: GladiatorsFinale is gladiatorFinale, Lavawalker is lavaWalker, WanderersTroupe is wandererTroupe, and so on for each set below.
pub proof fn law_mona_keys_of_renamed_sets(set: ArtifactSetNameView)
    ensures
        set.good_key == "GladiatorsFinale"@ ==> set_mona_key(set) == "gladiatorFinale"@,
        set.good_key == "Lavawalker"@ ==> set_mona_key(set) == "lavaWalker"@,
        set.good_key == "WanderersTroupe"@ ==> set_mona_key(set) == "wandererTroupe"@,
        set.good_key == "DefendersWill"@ ==> set_mona_key(set) == "defenderWill"@,
        set.good_key == "TheExile"@ ==> set_mona_key(set) == "exile"@,
        set.good_key == "ShimenawasReminiscence"@ ==> set_mona_key(set) == "shimenawaReminiscence"@,
        set.good_key == "CrimsonWitchOfFlames"@ ==> set_mona_key(set) == "crimsonWitch"@,
        set.good_key == "Thundersoother"@ ==> set_mona_key(set) == "thunderSmoother"@,
{
    if set.good_key == "GladiatorsFinale"@ {
        reveal_strlit("GladiatorsFinale");
    }
    if set.good_key == "Lavawalker"@ {
        reveal_strlit("Lavawalker");
        reveal_strlit("GladiatorsFinale");
        assert("Lavawalker"@.len() != "GladiatorsFinale"@.len());
    }
    if set.good_key == "WanderersTroupe"@ {
        reveal_strlit("WanderersTroupe");
        reveal_strlit("GladiatorsFinale");
        assert("WanderersTroupe"@.len() != "GladiatorsFinale"@.len());
        reveal_strlit("Lavawalker");
        assert("WanderersTroupe"@.len() != "Lavawalker"@.len());
    }
    if set.good_key == "DefendersWill"@ {
        reveal_strlit("DefendersWill");
        reveal_strlit("GladiatorsFinale");
        assert("DefendersWill"@.len() != "GladiatorsFinale"@.len());
        reveal_strlit("Lavawalker");
        assert("DefendersWill"@.len() != "Lavawalker"@.len());
        reveal_strlit("WanderersTroupe");
        assert("DefendersWill"@.len() != "WanderersTroupe"@.len());
    }
    if set.good_key == "TheExile"@ {
        reveal_strlit("TheExile");
        reveal_strlit("GladiatorsFinale");
        assert("TheExile"@.len() != "GladiatorsFinale"@.len());
        reveal_strlit("Lavawalker");
        assert("TheExile"@.len() != "Lavawalker"@.len());
        reveal_strlit("WanderersTroupe");
        assert("TheExile"@.len() != "WanderersTroupe"@.len());
        reveal_strlit("DefendersWill");
        assert("TheExile"@.len() != "DefendersWill"@.len());
    }
    if set.good_key == "ShimenawasReminiscence"@ {
        reveal_strlit("ShimenawasReminiscence");
        reveal_strlit("GladiatorsFinale");
        assert("ShimenawasReminiscence"@.len() != "GladiatorsFinale"@.len());
        reveal_strlit("Lavawalker");
        assert("ShimenawasReminiscence"@.len() != "Lavawalker"@.len());
        reveal_strlit("WanderersTroupe");
        assert("ShimenawasReminiscence"@.len() != "WanderersTroupe"@.len());
        reveal_strlit("DefendersWill");
        assert("ShimenawasReminiscence"@.len() != "DefendersWill"@.len());
        reveal_strlit("TheExile");
        assert("ShimenawasReminiscence"@.len() != "TheExile"@.len());
    }
    if set.good_key == "CrimsonWitchOfFlames"@ {
        reveal_strlit("CrimsonWitchOfFlames");
        reveal_strlit("GladiatorsFinale");
        assert("CrimsonWitchOfFlames"@.len() != "GladiatorsFinale"@.len());
        reveal_strlit("Lavawalker");
        assert("CrimsonWitchOfFlames"@.len() != "Lavawalker"@.len());
        reveal_strlit("WanderersTroupe");
        assert("CrimsonWitchOfFlames"@.len() != "WanderersTroupe"@.len());
        reveal_strlit("DefendersWill");
        assert("CrimsonWitchOfFlames"@.len() != "DefendersWill"@.len());
        reveal_strlit("TheExile");
        assert("CrimsonWitchOfFlames"@.len() != "TheExile"@.len());
        reveal_strlit("ShimenawasReminiscence");
        assert("CrimsonWitchOfFlames"@.len() != "ShimenawasReminiscence"@.len());
    }
    if set.good_key == "Thundersoother"@ {
        reveal_strlit("Thundersoother");
        reveal_strlit("GladiatorsFinale");
        assert("Thundersoother"@.len() != "GladiatorsFinale"@.len());
        reveal_strlit("Lavawalker");
        assert("Thundersoother"@.len() != "Lavawalker"@.len());
        reveal_strlit("WanderersTroupe");
        assert("Thundersoother"@.len() != "WanderersTroupe"@.len());
        reveal_strlit("DefendersWill");
        assert("Thundersoother"@.len() != "DefendersWill"@.len());
        reveal_strlit("TheExile");
        assert("Thundersoother"@.len() != "TheExile"@.len());
        reveal_strlit("ShimenawasReminiscence");
        assert("Thundersoother"@.len() != "ShimenawasReminiscence"@.len());
        reveal_strlit("CrimsonWitchOfFlames");
        assert("Thundersoother"@.len() != "CrimsonWitchOfFlames"@.len());
    }
}

/// The Mingyu Lab key of each set Mingyu Lab names on its own is that
/// name: BlizzardStrayer is blizzard_walker, EmblemOfSeveredFate is seal_of_insulation, and so on for each set below.
pub proof fn law_mingyu_keys_of_renamed_sets(good_key: Seq<char>)
    ensures
        good_key == "BlizzardStrayer"@ ==> set_mingyu_key(good_key) == "blizzard_walker"@,
        good_key == "EmblemOfSeveredFate"@ ==> set_mingyu_key(good_key) == "seal_of_insulation"@,
        good_key == "ShimenawasReminiscence"@ ==> set_mingyu_key(good_key) == "reminiscence_of_shime"@,
        good_key == "OceanHuedClam"@ ==> set_mingyu_key(good_key) == "divine_chorus"@,
        good_key == "MarechausseeHunter"@ ==> set_mingyu_key(good_key) == "hunter"@,
        good_key == "FlowerOfParadiseLost"@ ==> set_mingyu_key(good_key) == "flower_of_paradise_list"@,
        good_key == "PrayersForDestiny"@ ==> set_mingyu_key(good_key) == "prayers_of_destiny"@,
        good_key == "PrayersForIllumination"@ ==> set_mingyu_key(good_key) == "prayers_of_illumination"@,
        good_key == "PrayersForWisdom"@ ==> set_mingyu_key(good_key) == "prayers_of_wisdom"@,
        good_key == "PrayersToSpringtime"@ ==> set_mingyu_key(good_key) == "prayers_of_springtime"@,
{
    if good_key == "BlizzardStrayer"@ {
        reveal_strlit("BlizzardStrayer");
    }
    if good_key == "EmblemOfSeveredFate"@ {
        reveal_strlit("EmblemOfSeveredFate");
        reveal_strlit("BlizzardStrayer");
        assert("EmblemOfSeveredFate"@.len() != "BlizzardStrayer"@.len());
    }
    if good_key == "ShimenawasReminiscence"@ {
        reveal_strlit("ShimenawasReminiscence");
        reveal_strlit("BlizzardStrayer");
        assert("ShimenawasReminiscence"@.len() != "BlizzardStrayer"@.len());
        reveal_strlit("EmblemOfSeveredFate");
        assert("ShimenawasReminiscence"@.len() != "EmblemOfSeveredFate"@.len());
    }
    if good_key == "OceanHuedClam"@ {
        reveal_strlit("OceanHuedClam");
        reveal_strlit("BlizzardStrayer");
        assert("OceanHuedClam"@.len() != "BlizzardStrayer"@.len());
        reveal_strlit("EmblemOfSeveredFate");
        assert("OceanHuedClam"@.len() != "EmblemOfSeveredFate"@.len());
        reveal_strlit("ShimenawasReminiscence");
        assert("OceanHuedClam"@.len() != "ShimenawasReminiscence"@.len());
    }
    if good_key == "MarechausseeHunter"@ {
        reveal_strlit("MarechausseeHunter");
        reveal_strlit("BlizzardStrayer");
        assert("MarechausseeHunter"@.len() != "BlizzardStrayer"@.len());
        reveal_strlit("EmblemOfSeveredFate");
        assert("MarechausseeHunter"@.len() != "EmblemOfSeveredFate"@.len());
        reveal_strlit("ShimenawasReminiscence");
        assert("MarechausseeHunter"@.len() != "ShimenawasReminiscence"@.len());
        reveal_strlit("OceanHuedClam");
        assert("MarechausseeHunter"@.len() != "OceanHuedClam"@.len());
    }
    if good_key == "FlowerOfParadiseLost"@ {
        reveal_strlit("FlowerOfParadiseLost");
        reveal_strlit("BlizzardStrayer");
        assert("FlowerOfParadiseLost"@.len() != "BlizzardStrayer"@.len());
        reveal_strlit("EmblemOfSeveredFate");
        assert("FlowerOfParadiseLost"@.len() != "EmblemOfSeveredFate"@.len());
        reveal_strlit("ShimenawasReminiscence");
        assert("FlowerOfParadiseLost"@.len() != "ShimenawasReminiscence"@.len());
        reveal_strlit("OceanHuedClam");
        assert("FlowerOfParadiseLost"@.len() != "OceanHuedClam"@.len());
        reveal_strlit("MarechausseeHunter");
        assert("FlowerOfParadiseLost"@.len() != "MarechausseeHunter"@.len());
    }
    if good_key == "PrayersForDestiny"@ {
        reveal_strlit("PrayersForDestiny");
        reveal_strlit("BlizzardStrayer");
        assert("PrayersForDestiny"@.len() != "BlizzardStrayer"@.len());
        reveal_strlit("EmblemOfSeveredFate");
        assert("PrayersForDestiny"@.len() != "EmblemOfSeveredFate"@.len());
        reveal_strlit("ShimenawasReminiscence");
        assert("PrayersForDestiny"@.len() != "ShimenawasReminiscence"@.len());
        reveal_strlit("OceanHuedClam");
        assert("PrayersForDestiny"@.len() != "OceanHuedClam"@.len());
        reveal_strlit("MarechausseeHunter");
        assert("PrayersForDestiny"@.len() != "MarechausseeHunter"@.len());
        reveal_strlit("FlowerOfParadiseLost");
        assert("PrayersForDestiny"@.len() != "FlowerOfParadiseLost"@.len());
    }
    if good_key == "PrayersForIllumination"@ {
        reveal_strlit("PrayersForIllumination");
        reveal_strlit("BlizzardStrayer");
        assert("PrayersForIllumination"@.len() != "BlizzardStrayer"@.len());
        reveal_strlit("EmblemOfSeveredFate");
        assert("PrayersForIllumination"@.len() != "EmblemOfSeveredFate"@.len());
        reveal_strlit("ShimenawasReminiscence");
        assert("PrayersForIllumination"@[0] != "ShimenawasReminiscence"@[0]);
        reveal_strlit("OceanHuedClam");
        assert("PrayersForIllumination"@.len() != "OceanHuedClam"@.len());
        reveal_strlit("MarechausseeHunter");
        assert("PrayersForIllumination"@.len() != "MarechausseeHunter"@.len());
        reveal_strlit("FlowerOfParadiseLost");
        assert("PrayersForIllumination"@.len() != "FlowerOfParadiseLost"@.len());
        reveal_strlit("PrayersForDestiny");
        assert("PrayersForIllumination"@.len() != "PrayersForDestiny"@.len());
    }
    if good_key == "PrayersForWisdom"@ {
        reveal_strlit("PrayersForWisdom");
        reveal_strlit("BlizzardStrayer");
        assert("PrayersForWisdom"@.len() != "BlizzardStrayer"@.len());
        reveal_strlit("EmblemOfSeveredFate");
        assert("PrayersForWisdom"@.len() != "EmblemOfSeveredFate"@.len());
        reveal_strlit("ShimenawasReminiscence");
        assert("PrayersForWisdom"@.len() != "ShimenawasReminiscence"@.len());
        reveal_strlit("OceanHuedClam");
        assert("PrayersForWisdom"@.len() != "OceanHuedClam"@.len());
        reveal_strlit("MarechausseeHunter");
        assert("PrayersForWisdom"@.len() != "MarechausseeHunter"@.len());
        reveal_strlit("FlowerOfParadiseLost");
        assert("PrayersForWisdom"@.len() != "FlowerOfParadiseLost"@.len());
        reveal_strlit("PrayersForDestiny");
        assert("PrayersForWisdom"@.len() != "PrayersForDestiny"@.len());
        reveal_strlit("PrayersForIllumination");
        assert("PrayersForWisdom"@.len() != "PrayersForIllumination"@.len());
    }
    if good_key == "PrayersToSpringtime"@ {
        reveal_strlit("PrayersToSpringtime");
        reveal_strlit("BlizzardStrayer");
        assert("PrayersToSpringtime"@.len() != "BlizzardStrayer"@.len());
        reveal_strlit("EmblemOfSeveredFate");
        assert("PrayersToSpringtime"@[0] != "EmblemOfSeveredFate"@[0]);
        reveal_strlit("ShimenawasReminiscence");
        assert("PrayersToSpringtime"@.len() != "ShimenawasReminiscence"@.len());
        reveal_strlit("OceanHuedClam");
        assert("PrayersToSpringtime"@.len() != "OceanHuedClam"@.len());
        reveal_strlit("MarechausseeHunter");
        assert("PrayersToSpringtime"@.len() != "MarechausseeHunter"@.len());
        reveal_strlit("FlowerOfParadiseLost");
        assert("PrayersToSpringtime"@.len() != "FlowerOfParadiseLost"@.len());
        reveal_strlit("PrayersForDestiny");
        assert("PrayersToSpringtime"@.len() != "PrayersForDestiny"@.len());
        reveal_strlit("PrayersForIllumination");
        assert("PrayersToSpringtime"@.len() != "PrayersForIllumination"@.len());
        reveal_strlit("PrayersForWisdom");
        assert("PrayersToSpringtime"@.len() != "PrayersForWisdom"@.len());
    }
}

/// The Chinese label of a stat kind, as the game's panel writes it.
pub open spec fn stat_label_zh_cn(k: ArtifactStatName) -> Seq<char> {
    match k {
        ArtifactStatName::HealingBonus => "治疗加成"@,
        ArtifactStatName::CriticalDamage => "暴击伤害"@,
        ArtifactStatName::Critical => "暴击率"@,
        ArtifactStatName::Atk => "攻击力"@,
        ArtifactStatName::AtkPercentage => "攻击力"@,
        ArtifactStatName::ElementalMastery => "元素精通"@,
        ArtifactStatName::Recharge => "元素充能效率"@,
        ArtifactStatName::HpPercentage => "生命值"@,
        ArtifactStatName::Hp => "生命值"@,
        ArtifactStatName::DefPercentage => "防御力"@,
        ArtifactStatName::Def => "防御力"@,
        ArtifactStatName::ElectroBonus => "雷元素伤害加成"@,
        ArtifactStatName::PyroBonus => "火元素伤害加成"@,
        ArtifactStatName::HydroBonus => "水元素伤害加成"@,
        ArtifactStatName::CryoBonus => "冰元素伤害加成"@,
        ArtifactStatName::AnemoBonus => "风元素伤害加成"@,
        ArtifactStatName::GeoBonus => "岩元素伤害加成"@,
        ArtifactStatName::PhysicalBonus => "物理伤害加成"@,
        ArtifactStatName::DendroBonus => "草元素伤害加成"@,
    }
}

/// Whether the game writes a stat kind's value with a `%`: every kind but
/// flat attack, HP, defence and Elemental Mastery.
pub open spec fn shown_in_percent(k: ArtifactStatName) -> bool {
    !(k == ArtifactStatName::Atk || k == ArtifactStatName::Hp || k == ArtifactStatName::Def || k
        == ArtifactStatName::ElementalMastery)
}

/// Reading a stat label gives back the kind it labels: for every kind,
/// its Chinese label, read with or without a `%` as the game shows it,
/// is that kind; so different kinds are never read alike.
pub proof fn law_stat_labels_read_back(k: ArtifactStatName)
    ensures
        stat_name_from_zh_cn(stat_label_zh_cn(k), shown_in_percent(k)) == Some(k),
{
    let label = stat_label_zh_cn(k);
    if label == "治疗加成"@ {
        reveal_strlit("治疗加成");
    }
    if label == "暴击伤害"@ {
        reveal_strlit("暴击伤害");
        reveal_strlit("治疗加成");
        assert("暴击伤害"@[0] != "治疗加成"@[0]);
    }
    if label == "暴击率"@ {
        reveal_strlit("暴击率");
        reveal_strlit("治疗加成");
        assert("暴击率"@.len() != "治疗加成"@.len());
        reveal_strlit("暴击伤害");
        assert("暴击率"@.len() != "暴击伤害"@.len());
    }
    if label == "攻击力"@ {
        reveal_strlit("攻击力");
        reveal_strlit("治疗加成");
        assert("攻击力"@.len() != "治疗加成"@.len());
        reveal_strlit("暴击伤害");
        assert("攻击力"@.len() != "暴击伤害"@.len());
        reveal_strlit("暴击率");
        assert("攻击力"@[0] != "暴击率"@[0]);
    }
    if label == "元素精通"@ {
        reveal_strlit("元素精通");
        reveal_strlit("治疗加成");
        assert("元素精通"@[0] != "治疗加成"@[0]);
        reveal_strlit("暴击伤害");
        assert("元素精通"@[0] != "暴击伤害"@[0]);
        reveal_strlit("暴击率");
        assert("元素精通"@.len() != "暴击率"@.len());
        reveal_strlit("攻击力");
        assert("元素精通"@.len() != "攻击力"@.len());
    }
    if label == "元素充能效率"@ {
        reveal_strlit("元素充能效率");
        reveal_strlit("治疗加成");
        assert("元素充能效率"@.len() != "治疗加成"@.len());
        reveal_strlit("暴击伤害");
        assert("元素充能效率"@.len() != "暴击伤害"@.len());
        reveal_strlit("暴击率");
        assert("元素充能效率"@.len() != "暴击率"@.len());
        reveal_strlit("攻击力");
        assert("元素充能效率"@.len() != "攻击力"@.len());
        reveal_strlit("元素精通");
        assert("元素充能效率"@.len() != "元素精通"@.len());
    }
    if label == "生命值"@ {
        reveal_strlit("生命值");
        reveal_strlit("治疗加成");
        assert("生命值"@.len() != "治疗加成"@.len());
        reveal_strlit("暴击伤害");
        assert("生命值"@.len() != "暴击伤害"@.len());
        reveal_strlit("暴击率");
        assert("生命值"@[0] != "暴击率"@[0]);
        reveal_strlit("攻击力");
        assert("生命值"@[0] != "攻击力"@[0]);
        reveal_strlit("元素精通");
        assert("生命值"@.len() != "元素精通"@.len());
        reveal_strlit("元素充能效率");
        assert("生命值"@.len() != "元素充能效率"@.len());
    }
    if label == "防御力"@ {
        reveal_strlit("防御力");
        reveal_strlit("治疗加成");
        assert("防御力"@.len() != "治疗加成"@.len());
        reveal_strlit("暴击伤害");
        assert("防御力"@.len() != "暴击伤害"@.len());
        reveal_strlit("暴击率");
        assert("防御力"@[0] != "暴击率"@[0]);
        reveal_strlit("攻击力");
        assert("防御力"@[0] != "攻击力"@[0]);
        reveal_strlit("元素精通");
        assert("防御力"@.len() != "元素精通"@.len());
        reveal_strlit("元素充能效率");
        assert("防御力"@.len() != "元素充能效率"@.len());
        reveal_strlit("生命值");
        assert("防御力"@[0] != "生命值"@[0]);
    }
    if label == "雷元素伤害加成"@ {
        reveal_strlit("雷元素伤害加成");
        reveal_strlit("治疗加成");
        assert("雷元素伤害加成"@.len() != "治疗加成"@.len());
        reveal_strlit("暴击伤害");
        assert("雷元素伤害加成"@.len() != "暴击伤害"@.len());
        reveal_strlit("暴击率");
        assert("雷元素伤害加成"@.len() != "暴击率"@.len());
        reveal_strlit("攻击力");
        assert("雷元素伤害加成"@.len() != "攻击力"@.len());
        reveal_strlit("元素精通");
        assert("雷元素伤害加成"@.len() != "元素精通"@.len());
        reveal_strlit("元素充能效率");
        assert("雷元素伤害加成"@.len() != "元素充能效率"@.len());
        reveal_strlit("生命值");
        assert("雷元素伤害加成"@.len() != "生命值"@.len());
        reveal_strlit("防御力");
        assert("雷元素伤害加成"@.len() != "防御力"@.len());
    }
    if label == "火元素伤害加成"@ {
        reveal_strlit("火元素伤害加成");
        reveal_strlit("治疗加成");
        assert("火元素伤害加成"@.len() != "治疗加成"@.len());
        reveal_strlit("暴击伤害");
        assert("火元素伤害加成"@.len() != "暴击伤害"@.len());
        reveal_strlit("暴击率");
        assert("火元素伤害加成"@.len() != "暴击率"@.len());
        reveal_strlit("攻击力");
        assert("火元素伤害加成"@.len() != "攻击力"@.len());
        reveal_strlit("元素精通");
        assert("火元素伤害加成"@.len() != "元素精通"@.len());
        reveal_strlit("元素充能效率");
        assert("火元素伤害加成"@.len() != "元素充能效率"@.len());
        reveal_strlit("生命值");
        assert("火元素伤害加成"@.len() != "生命值"@.len());
        reveal_strlit("防御力");
        assert("火元素伤害加成"@.len() != "防御力"@.len());
        reveal_strlit("雷元素伤害加成");
        assert("火元素伤害加成"@[0] != "雷元素伤害加成"@[0]);
    }
    if label == "水元素伤害加成"@ {
        reveal_strlit("水元素伤害加成");
        reveal_strlit("治疗加成");
        assert("水元素伤害加成"@.len() != "治疗加成"@.len());
        reveal_strlit("暴击伤害");
        assert("水元素伤害加成"@.len() != "暴击伤害"@.len());
        reveal_strlit("暴击率");
        assert("水元素伤害加成"@.len() != "暴击率"@.len());
        reveal_strlit("攻击力");
        assert("水元素伤害加成"@.len() != "攻击力"@.len());
        reveal_strlit("元素精通");
        assert("水元素伤害加成"@.len() != "元素精通"@.len());
        reveal_strlit("元素充能效率");
        assert("水元素伤害加成"@.len() != "元素充能效率"@.len());
        reveal_strlit("生命值");
        assert("水元素伤害加成"@.len() != "生命值"@.len());
        reveal_strlit("防御力");
        assert("水元素伤害加成"@.len() != "防御力"@.len());
        reveal_strlit("雷元素伤害加成");
        assert("水元素伤害加成"@[0] != "雷元素伤害加成"@[0]);
        reveal_strlit("火元素伤害加成");
        assert("水元素伤害加成"@[0] != "火元素伤害加成"@[0]);
    }
    if label == "冰元素伤害加成"@ {
        reveal_strlit("冰元素伤害加成");
        reveal_strlit("治疗加成");
        assert("冰元素伤害加成"@.len() != "治疗加成"@.len());
        reveal_strlit("暴击伤害");
        assert("冰元素伤害加成"@.len() != "暴击伤害"@.len());
        reveal_strlit("暴击率");
        assert("冰元素伤害加成"@.len() != "暴击率"@.len());
        reveal_strlit("攻击力");
        assert("冰元素伤害加成"@.len() != "攻击力"@.len());
        reveal_strlit("元素精通");
        assert("冰元素伤害加成"@.len() != "元素精通"@.len());
        reveal_strlit("元素充能效率");
        assert("冰元素伤害加成"@.len() != "元素充能效率"@.len());
        reveal_strlit("生命值");
        assert("冰元素伤害加成"@.len() != "生命值"@.len());
        reveal_strlit("防御力");
        assert("冰元素伤害加成"@.len() != "防御力"@.len());
        reveal_strlit("雷元素伤害加成");
        assert("冰元素伤害加成"@[0] != "雷元素伤害加成"@[0]);
        reveal_strlit("火元素伤害加成");
        assert("冰元素伤害加成"@[0] != "火元素伤害加成"@[0]);
        reveal_strlit("水元素伤害加成");
        assert("冰元素伤害加成"@[0] != "水元素伤害加成"@[0]);
    }
    if label == "风元素伤害加成"@ {
        reveal_strlit("风元素伤害加成");
        reveal_strlit("治疗加成");
        assert("风元素伤害加成"@.len() != "治疗加成"@.len());
        reveal_strlit("暴击伤害");
        assert("风元素伤害加成"@.len() != "暴击伤害"@.len());
        reveal_strlit("暴击率");
        assert("风元素伤害加成"@.len() != "暴击率"@.len());
        reveal_strlit("攻击力");
        assert("风元素伤害加成"@.len() != "攻击力"@.len());
        reveal_strlit("元素精通");
        assert("风元素伤害加成"@.len() != "元素精通"@.len());
        reveal_strlit("元素充能效率");
        assert("风元素伤害加成"@.len() != "元素充能效率"@.len());
        reveal_strlit("生命值");
        assert("风元素伤害加成"@.len() != "生命值"@.len());
        reveal_strlit("防御力");
        assert("风元素伤害加成"@.len() != "防御力"@.len());
        reveal_strlit("雷元素伤害加成");
        assert("风元素伤害加成"@[0] != "雷元素伤害加成"@[0]);
        reveal_strlit("火元素伤害加成");
        assert("风元素伤害加成"@[0] != "火元素伤害加成"@[0]);
        reveal_strlit("水元素伤害加成");
        assert("风元素伤害加成"@[0] != "水元素伤害加成"@[0]);
        reveal_strlit("冰元素伤害加成");
        assert("风元素伤害加成"@[0] != "冰元素伤害加成"@[0]);
    }
    if label == "岩元素伤害加成"@ {
        reveal_strlit("岩元素伤害加成");
        reveal_strlit("治疗加成");
        assert("岩元素伤害加成"@.len() != "治疗加成"@.len());
        reveal_strlit("暴击伤害");
        assert("岩元素伤害加成"@.len() != "暴击伤害"@.len());
        reveal_strlit("暴击率");
        assert("岩元素伤害加成"@.len() != "暴击率"@.len());
        reveal_strlit("攻击力");
        assert("岩元素伤害加成"@.len() != "攻击力"@.len());
        reveal_strlit("元素精通");
        assert("岩元素伤害加成"@.len() != "元素精通"@.len());
        reveal_strlit("元素充能效率");
        assert("岩元素伤害加成"@.len() != "元素充能效率"@.len());
        reveal_strlit("生命值");
        assert("岩元素伤害加成"@.len() != "生命值"@.len());
        reveal_strlit("防御力");
        assert("岩元素伤害加成"@.len() != "防御力"@.len());
        reveal_strlit("雷元素伤害加成");
        assert("岩元素伤害加成"@[0] != "雷元素伤害加成"@[0]);
        reveal_strlit("火元素伤害加成");
        assert("岩元素伤害加成"@[0] != "火元素伤害加成"@[0]);
        reveal_strlit("水元素伤害加成");
        assert("岩元素伤害加成"@[0] != "水元素伤害加成"@[0]);
        reveal_strlit("冰元素伤害加成");
        assert("岩元素伤害加成"@[0] != "冰元素伤害加成"@[0]);
        reveal_strlit("风元素伤害加成");
        assert("岩元素伤害加成"@[0] != "风元素伤害加成"@[0]);
    }
    if label == "草元素伤害加成"@ {
        reveal_strlit("草元素伤害加成");
        reveal_strlit("治疗加成");
        assert("草元素伤害加成"@.len() != "治疗加成"@.len());
        reveal_strlit("暴击伤害");
        assert("草元素伤害加成"@.len() != "暴击伤害"@.len());
        reveal_strlit("暴击率");
        assert("草元素伤害加成"@.len() != "暴击率"@.len());
        reveal_strlit("攻击力");
        assert("草元素伤害加成"@.len() != "攻击力"@.len());
        reveal_strlit("元素精通");
        assert("草元素伤害加成"@.len() != "元素精通"@.len());
        reveal_strlit("元素充能效率");
        assert("草元素伤害加成"@.len() != "元素充能效率"@.len());
        reveal_strlit("生命值");
        assert("草元素伤害加成"@.len() != "生命值"@.len());
        reveal_strlit("防御力");
        assert("草元素伤害加成"@.len() != "防御力"@.len());
        reveal_strlit("雷元素伤害加成");
        assert("草元素伤害加成"@[0] != "雷元素伤害加成"@[0]);
        reveal_strlit("火元素伤害加成");
        assert("草元素伤害加成"@[0] != "火元素伤害加成"@[0]);
        reveal_strlit("水元素伤害加成");
        assert("草元素伤害加成"@[0] != "水元素伤害加成"@[0]);
        reveal_strlit("冰元素伤害加成");
        assert("草元素伤害加成"@[0] != "冰元素伤害加成"@[0]);
        reveal_strlit("风元素伤害加成");
        assert("草元素伤害加成"@[0] != "风元素伤害加成"@[0]);
        reveal_strlit("岩元素伤害加成");
        assert("草元素伤害加成"@[0] != "岩元素伤害加成"@[0]);
    }
    if label == "物理伤害加成"@ {
        reveal_strlit("物理伤害加成");
        reveal_strlit("治疗加成");
        assert("物理伤害加成"@.len() != "治疗加成"@.len());
        reveal_strlit("暴击伤害");
        assert("物理伤害加成"@.len() != "暴击伤害"@.len());
        reveal_strlit("暴击率");
        assert("物理伤害加成"@.len() != "暴击率"@.len());
        reveal_strlit("攻击力");
        assert("物理伤害加成"@.len() != "攻击力"@.len());
        reveal_strlit("元素精通");
        assert("物理伤害加成"@.len() != "元素精通"@.len());
        reveal_strlit("元素充能效率");
        assert("物理伤害加成"@[0] != "元素充能效率"@[0]);
        reveal_strlit("生命值");
        assert("物理伤害加成"@.len() != "生命值"@.len());
        reveal_strlit("防御力");
        assert("物理伤害加成"@.len() != "防御力"@.len());
        reveal_strlit("雷元素伤害加成");
        assert("物理伤害加成"@.len() != "雷元素伤害加成"@.len());
        reveal_strlit("火元素伤害加成");
        assert("物理伤害加成"@.len() != "火元素伤害加成"@.len());
        reveal_strlit("水元素伤害加成");
        assert("物理伤害加成"@.len() != "水元素伤害加成"@.len());
        reveal_strlit("冰元素伤害加成");
        assert("物理伤害加成"@.len() != "冰元素伤害加成"@.len());
        reveal_strlit("风元素伤害加成");
        assert("物理伤害加成"@.len() != "风元素伤害加成"@.len());
        reveal_strlit("岩元素伤害加成");
        assert("物理伤害加成"@.len() != "岩元素伤害加成"@.len());
        reveal_strlit("草元素伤害加成");
        assert("物理伤害加成"@.len() != "草元素伤害加成"@.len());
    }
}

/// A stat value is exported as it reads for the flat kinds (attack, HP,
/// defence, Elemental Mastery) and in percent points (one hundred times
/// the fraction read) for every other kind; the sign is kept.
pub proof fn law_export_value_scales_percent_kinds(stat: ArtifactStat)
    ensures
        export_value_of(stat).negative == stat.value.negative,
        export_value_of(stat).mantissa * pow10(stat.value.scale as nat) == (if stat.name
            == ArtifactStatName::Atk || stat.name == ArtifactStatName::Hp || stat.name
            == ArtifactStatName::Def || stat.name == ArtifactStatName::ElementalMastery {
            1int
        } else {
            100int
        }) * stat.value.mantissa * pow10(export_value_of(stat).scale as nat),
{
    let v = stat.value;
    let e = export_value_of(stat);
    let m = v.mantissa as int;
    assert(0 <= m < 0x1_0000_0000_0000_0000);
    if stat.name == ArtifactStatName::Atk || stat.name == ArtifactStatName::Hp || stat.name
        == ArtifactStatName::Def || stat.name == ArtifactStatName::ElementalMastery {
        assert(e.mantissa == m && e.scale == v.scale);
        let x = pow10(v.scale as nat) as int;
        assert(m * x == 1int * m * x) by (nonlinear_arith);
    } else if v.scale >= 2 {
        let s2 = (v.scale - 2) as nat;
        assert(pow10(v.scale as nat) == 100 * pow10(s2)) by {
            reveal_with_fuel(pow10, 3);
        }
        assert(e.mantissa == m && e.scale == s2);
        let x = pow10(s2) as int;
        assert(m * (100 * x) == 100 * m * x) by (nonlinear_arith);
    } else if v.scale == 1 {
        assert(pow10(1) == 10) by {
            reveal_with_fuel(pow10, 2);
        }
        assert(pow10(0) == 1);
        assert(e.mantissa == m * 10 && e.scale == 0);
        assert((m * 10) * 10 == 100 * m * 1) by (nonlinear_arith);
    } else {
        assert(pow10(0) == 1);
        assert(e.mantissa == m * 100 && e.scale == 0);
        assert((m * 100) * 1 == 100 * m * 1) by (nonlinear_arith);
    }
}

/// A level reads as it is written exactly when it lies between 0 and the
/// cap of the rarity: 4 for one and two stars, 12 for three, 16 for four
/// and 20 for five; other rarities read no level.
pub proof fn law_level_caps_by_rarity(s: Seq<char>, star: usize)
    ensures
        artifact_level(s, star) is Ok <==> (1 <= star <= 5 && level_value(s) is Some && 0
            <= level_value(s)->0 && level_value(s)->0 <= (if star <= 2 {
            4int
        } else if star == 3 {
            12int
        } else if star == 4 {
            16int
        } else {
            20int
        })),
        artifact_level(s, star) matches Ok(l) ==> l == level_value(s)->0,
{
}


/// The stat kind that a GOOD key names, as the GOOD format defines its keys.
pub open spec fn good_stat_of_key(key: Seq<char>) -> Option<ArtifactStatName> {
    if key == "heal_"@ {
        Some(ArtifactStatName::HealingBonus)
    } else if key == "critDMG_"@ {
        Some(ArtifactStatName::CriticalDamage)
    } else if key == "critRate_"@ {
        Some(ArtifactStatName::Critical)
    } else if key == "atk"@ {
        Some(ArtifactStatName::Atk)
    } else if key == "atk_"@ {
        Some(ArtifactStatName::AtkPercentage)
    } else if key == "eleMas"@ {
        Some(ArtifactStatName::ElementalMastery)
    } else if key == "enerRech_"@ {
        Some(ArtifactStatName::Recharge)
    } else if key == "hp_"@ {
        Some(ArtifactStatName::HpPercentage)
    } else if key == "hp"@ {
        Some(ArtifactStatName::Hp)
    } else if key == "def_"@ {
        Some(ArtifactStatName::DefPercentage)
    } else if key == "def"@ {
        Some(ArtifactStatName::Def)
    } else if key == "electro_dmg_"@ {
        Some(ArtifactStatName::ElectroBonus)
    } else if key == "pyro_dmg_"@ {
        Some(ArtifactStatName::PyroBonus)
    } else if key == "hydro_dmg_"@ {
        Some(ArtifactStatName::HydroBonus)
    } else if key == "cryo_dmg_"@ {
        Some(ArtifactStatName::CryoBonus)
    } else if key == "anemo_dmg_"@ {
        Some(ArtifactStatName::AnemoBonus)
    } else if key == "geo_dmg_"@ {
        Some(ArtifactStatName::GeoBonus)
    } else if key == "physical_dmg_"@ {
        Some(ArtifactStatName::PhysicalBonus)
    } else if key == "dendro_dmg_"@ {
        Some(ArtifactStatName::DendroBonus)
    } else {
        None
    }
}

/// Each stat kind has its own GOOD key, the one the format knows it by:
/// reading the key back gives the stat kind.
pub proof fn law_good_stat_keys_read_back(k: ArtifactStatName)
    ensures
        good_stat_of_key(stat_good_key(k)) == Some(k),
{
    match k {
        ArtifactStatName::HealingBonus => {
            reveal_strlit("heal_");
        },
        ArtifactStatName::CriticalDamage => {
            reveal_strlit("critDMG_");
            reveal_strlit("heal_");
            assert("critDMG_"@.len() != "heal_"@.len());
        },
        ArtifactStatName::Critical => {
            reveal_strlit("critRate_");
            reveal_strlit("heal_");
            assert("critRate_"@.len() != "heal_"@.len());
            reveal_strlit("critDMG_");
            assert("critRate_"@.len() != "critDMG_"@.len());
        },
        ArtifactStatName::Atk => {
            reveal_strlit("atk");
            reveal_strlit("heal_");
            assert("atk"@.len() != "heal_"@.len());
            reveal_strlit("critDMG_");
            assert("atk"@.len() != "critDMG_"@.len());
            reveal_strlit("critRate_");
            assert("atk"@.len() != "critRate_"@.len());
        },
        ArtifactStatName::AtkPercentage => {
            reveal_strlit("atk_");
            reveal_strlit("heal_");
            assert("atk_"@.len() != "heal_"@.len());
            reveal_strlit("critDMG_");
            assert("atk_"@.len() != "critDMG_"@.len());
            reveal_strlit("critRate_");
            assert("atk_"@.len() != "critRate_"@.len());
            reveal_strlit("atk");
            assert("atk_"@.len() != "atk"@.len());
        },
        ArtifactStatName::ElementalMastery => {
            reveal_strlit("eleMas");
            reveal_strlit("heal_");
            assert("eleMas"@.len() != "heal_"@.len());
            reveal_strlit("critDMG_");
            assert("eleMas"@.len() != "critDMG_"@.len());
            reveal_strlit("critRate_");
            assert("eleMas"@.len() != "critRate_"@.len());
            reveal_strlit("atk");
            assert("eleMas"@.len() != "atk"@.len());
            reveal_strlit("atk_");
            assert("eleMas"@.len() != "atk_"@.len());
        },
        ArtifactStatName::Recharge => {
            reveal_strlit("enerRech_");
            reveal_strlit("heal_");
            assert("enerRech_"@.len() != "heal_"@.len());
            reveal_strlit("critDMG_");
            assert("enerRech_"@.len() != "critDMG_"@.len());
            reveal_strlit("critRate_");
            assert("enerRech_"@[0] != "critRate_"@[0]);
            reveal_strlit("atk");
            assert("enerRech_"@.len() != "atk"@.len());
            reveal_strlit("atk_");
            assert("enerRech_"@.len() != "atk_"@.len());
            reveal_strlit("eleMas");
            assert("enerRech_"@.len() != "eleMas"@.len());
        },
        ArtifactStatName::HpPercentage => {
            reveal_strlit("hp_");
            reveal_strlit("heal_");
            assert("hp_"@.len() != "heal_"@.len());
            reveal_strlit("critDMG_");
            assert("hp_"@.len() != "critDMG_"@.len());
            reveal_strlit("critRate_");
            assert("hp_"@.len() != "critRate_"@.len());
            reveal_strlit("atk");
            assert("hp_"@[0] != "atk"@[0]);
            reveal_strlit("atk_");
            assert("hp_"@.len() != "atk_"@.len());
            reveal_strlit("eleMas");
            assert("hp_"@.len() != "eleMas"@.len());
            reveal_strlit("enerRech_");
            assert("hp_"@.len() != "enerRech_"@.len());
        },
        ArtifactStatName::Hp => {
            reveal_strlit("hp");
            reveal_strlit("heal_");
            assert("hp"@.len() != "heal_"@.len());
            reveal_strlit("critDMG_");
            assert("hp"@.len() != "critDMG_"@.len());
            reveal_strlit("critRate_");
            assert("hp"@.len() != "critRate_"@.len());
            reveal_strlit("atk");
            assert("hp"@.len() != "atk"@.len());
            reveal_strlit("atk_");
            assert("hp"@.len() != "atk_"@.len());
            reveal_strlit("eleMas");
            assert("hp"@.len() != "eleMas"@.len());
            reveal_strlit("enerRech_");
            assert("hp"@.len() != "enerRech_"@.len());
            reveal_strlit("hp_");
            assert("hp"@.len() != "hp_"@.len());
        },
        ArtifactStatName::DefPercentage => {
            reveal_strlit("def_");
            reveal_strlit("heal_");
            assert("def_"@.len() != "heal_"@.len());
            reveal_strlit("critDMG_");
            assert("def_"@.len() != "critDMG_"@.len());
            reveal_strlit("critRate_");
            assert("def_"@.len() != "critRate_"@.len());
            reveal_strlit("atk");
            assert("def_"@.len() != "atk"@.len());
            reveal_strlit("atk_");
            assert("def_"@[0] != "atk_"@[0]);
            reveal_strlit("eleMas");
            assert("def_"@.len() != "eleMas"@.len());
            reveal_strlit("enerRech_");
            assert("def_"@.len() != "enerRech_"@.len());
            reveal_strlit("hp_");
            assert("def_"@.len() != "hp_"@.len());
            reveal_strlit("hp");
            assert("def_"@.len() != "hp"@.len());
        },
        ArtifactStatName::Def => {
            reveal_strlit("def");
            reveal_strlit("heal_");
            assert("def"@.len() != "heal_"@.len());
            reveal_strlit("critDMG_");
            assert("def"@.len() != "critDMG_"@.len());
            reveal_strlit("critRate_");
            assert("def"@.len() != "critRate_"@.len());
            reveal_strlit("atk");
            assert("def"@[0] != "atk"@[0]);
            reveal_strlit("atk_");
            assert("def"@.len() != "atk_"@.len());
            reveal_strlit("eleMas");
            assert("def"@.len() != "eleMas"@.len());
            reveal_strlit("enerRech_");
            assert("def"@.len() != "enerRech_"@.len());
            reveal_strlit("hp_");
            assert("def"@[0] != "hp_"@[0]);
            reveal_strlit("hp");
            assert("def"@.len() != "hp"@.len());
            reveal_strlit("def_");
            assert("def"@.len() != "def_"@.len());
        },
        ArtifactStatName::ElectroBonus => {
            reveal_strlit("electro_dmg_");
            reveal_strlit("heal_");
            assert("electro_dmg_"@.len() != "heal_"@.len());
            reveal_strlit("critDMG_");
            assert("electro_dmg_"@.len() != "critDMG_"@.len());
            reveal_strlit("critRate_");
            assert("electro_dmg_"@.len() != "critRate_"@.len());
            reveal_strlit("atk");
            assert("electro_dmg_"@.len() != "atk"@.len());
            reveal_strlit("atk_");
            assert("electro_dmg_"@.len() != "atk_"@.len());
            reveal_strlit("eleMas");
            assert("electro_dmg_"@.len() != "eleMas"@.len());
            reveal_strlit("enerRech_");
            assert("electro_dmg_"@.len() != "enerRech_"@.len());
            reveal_strlit("hp_");
            assert("electro_dmg_"@.len() != "hp_"@.len());
            reveal_strlit("hp");
            assert("electro_dmg_"@.len() != "hp"@.len());
            reveal_strlit("def_");
            assert("electro_dmg_"@.len() != "def_"@.len());
            reveal_strlit("def");
            assert("electro_dmg_"@.len() != "def"@.len());
        },
        ArtifactStatName::PyroBonus => {
            reveal_strlit("pyro_dmg_");
            reveal_strlit("heal_");
            assert("pyro_dmg_"@.len() != "heal_"@.len());
            reveal_strlit("critDMG_");
            assert("pyro_dmg_"@.len() != "critDMG_"@.len());
            reveal_strlit("critRate_");
            assert("pyro_dmg_"@[0] != "critRate_"@[0]);
            reveal_strlit("atk");
            assert("pyro_dmg_"@.len() != "atk"@.len());
            reveal_strlit("atk_");
            assert("pyro_dmg_"@.len() != "atk_"@.len());
            reveal_strlit("eleMas");
            assert("pyro_dmg_"@.len() != "eleMas"@.len());
            reveal_strlit("enerRech_");
            assert("pyro_dmg_"@[0] != "enerRech_"@[0]);
            reveal_strlit("hp_");
            assert("pyro_dmg_"@.len() != "hp_"@.len());
            reveal_strlit("hp");
            assert("pyro_dmg_"@.len() != "hp"@.len());
            reveal_strlit("def_");
            assert("pyro_dmg_"@.len() != "def_"@.len());
            reveal_strlit("def");
            assert("pyro_dmg_"@.len() != "def"@.len());
            reveal_strlit("electro_dmg_");
            assert("pyro_dmg_"@.len() != "electro_dmg_"@.len());
        },
        ArtifactStatName::HydroBonus => {
            reveal_strlit("hydro_dmg_");
            reveal_strlit("heal_");
            assert("hydro_dmg_"@.len() != "heal_"@.len());
            reveal_strlit("critDMG_");
            assert("hydro_dmg_"@.len() != "critDMG_"@.len());
            reveal_strlit("critRate_");
            assert("hydro_dmg_"@.len() != "critRate_"@.len());
            reveal_strlit("atk");
            assert("hydro_dmg_"@.len() != "atk"@.len());
            reveal_strlit("atk_");
            assert("hydro_dmg_"@.len() != "atk_"@.len());
            reveal_strlit("eleMas");
            assert("hydro_dmg_"@.len() != "eleMas"@.len());
            reveal_strlit("enerRech_");
            assert("hydro_dmg_"@.len() != "enerRech_"@.len());
            reveal_strlit("hp_");
            assert("hydro_dmg_"@.len() != "hp_"@.len());
            reveal_strlit("hp");
            assert("hydro_dmg_"@.len() != "hp"@.len());
            reveal_strlit("def_");
            assert("hydro_dmg_"@.len() != "def_"@.len());
            reveal_strlit("def");
            assert("hydro_dmg_"@.len() != "def"@.len());
            reveal_strlit("electro_dmg_");
            assert("hydro_dmg_"@.len() != "electro_dmg_"@.len());
            reveal_strlit("pyro_dmg_");
            assert("hydro_dmg_"@.len() != "pyro_dmg_"@.len());
        },
        ArtifactStatName::CryoBonus => {
            reveal_strlit("cryo_dmg_");
            reveal_strlit("heal_");
            assert("cryo_dmg_"@.len() != "heal_"@.len());
            reveal_strlit("critDMG_");
            assert("cryo_dmg_"@.len() != "critDMG_"@.len());
            reveal_strlit("critRate_");
            assert("cryo_dmg_"@[2] != "critRate_"@[2]);
            reveal_strlit("atk");
            assert("cryo_dmg_"@.len() != "atk"@.len());
            reveal_strlit("atk_");
            assert("cryo_dmg_"@.len() != "atk_"@.len());
            reveal_strlit("eleMas");
            assert("cryo_dmg_"@.len() != "eleMas"@.len());
            reveal_strlit("enerRech_");
            assert("cryo_dmg_"@[0] != "enerRech_"@[0]);
            reveal_strlit("hp_");
            assert("cryo_dmg_"@.len() != "hp_"@.len());
            reveal_strlit("hp");
            assert("cryo_dmg_"@.len() != "hp"@.len());
            reveal_strlit("def_");
            assert("cryo_dmg_"@.len() != "def_"@.len());
            reveal_strlit("def");
            assert("cryo_dmg_"@.len() != "def"@.len());
            reveal_strlit("electro_dmg_");
            assert("cryo_dmg_"@.len() != "electro_dmg_"@.len());
            reveal_strlit("pyro_dmg_");
            assert("cryo_dmg_"@[0] != "pyro_dmg_"@[0]);
            reveal_strlit("hydro_dmg_");
            assert("cryo_dmg_"@.len() != "hydro_dmg_"@.len());
        },
        ArtifactStatName::AnemoBonus => {
            reveal_strlit("anemo_dmg_");
            reveal_strlit("heal_");
            assert("anemo_dmg_"@.len() != "heal_"@.len());
            reveal_strlit("critDMG_");
            assert("anemo_dmg_"@.len() != "critDMG_"@.len());
            reveal_strlit("critRate_");
            assert("anemo_dmg_"@.len() != "critRate_"@.len());
            reveal_strlit("atk");
            assert("anemo_dmg_"@.len() != "atk"@.len());
            reveal_strlit("atk_");
            assert("anemo_dmg_"@.len() != "atk_"@.len());
            reveal_strlit("eleMas");
            assert("anemo_dmg_"@.len() != "eleMas"@.len());
            reveal_strlit("enerRech_");
            assert("anemo_dmg_"@.len() != "enerRech_"@.len());
            reveal_strlit("hp_");
            assert("anemo_dmg_"@.len() != "hp_"@.len());
            reveal_strlit("hp");
            assert("anemo_dmg_"@.len() != "hp"@.len());
            reveal_strlit("def_");
            assert("anemo_dmg_"@.len() != "def_"@.len());
            reveal_strlit("def");
            assert("anemo_dmg_"@.len() != "def"@.len());
            reveal_strlit("electro_dmg_");
            assert("anemo_dmg_"@.len() != "electro_dmg_"@.len());
            reveal_strlit("pyro_dmg_");
            assert("anemo_dmg_"@.len() != "pyro_dmg_"@.len());
            reveal_strlit("hydro_dmg_");
            assert("anemo_dmg_"@[0] != "hydro_dmg_"@[0]);
            reveal_strlit("cryo_dmg_");
            assert("anemo_dmg_"@.len() != "cryo_dmg_"@.len());
        },
        ArtifactStatName::GeoBonus => {
            reveal_strlit("geo_dmg_");
            reveal_strlit("heal_");
            assert("geo_dmg_"@.len() != "heal_"@.len());
            reveal_strlit("critDMG_");
            assert("geo_dmg_"@[0] != "critDMG_"@[0]);
            reveal_strlit("critRate_");
            assert("geo_dmg_"@.len() != "critRate_"@.len());
            reveal_strlit("atk");
            assert("geo_dmg_"@.len() != "atk"@.len());
            reveal_strlit("atk_");
            assert("geo_dmg_"@.len() != "atk_"@.len());
            reveal_strlit("eleMas");
            assert("geo_dmg_"@.len() != "eleMas"@.len());
            reveal_strlit("enerRech_");
            assert("geo_dmg_"@.len() != "enerRech_"@.len());
            reveal_strlit("hp_");
            assert("geo_dmg_"@.len() != "hp_"@.len());
            reveal_strlit("hp");
            assert("geo_dmg_"@.len() != "hp"@.len());
            reveal_strlit("def_");
            assert("geo_dmg_"@.len() != "def_"@.len());
            reveal_strlit("def");
            assert("geo_dmg_"@.len() != "def"@.len());
            reveal_strlit("electro_dmg_");
            assert("geo_dmg_"@.len() != "electro_dmg_"@.len());
            reveal_strlit("pyro_dmg_");
            assert("geo_dmg_"@.len() != "pyro_dmg_"@.len());
            reveal_strlit("hydro_dmg_");
            assert("geo_dmg_"@.len() != "hydro_dmg_"@.len());
            reveal_strlit("cryo_dmg_");
            assert("geo_dmg_"@.len() != "cryo_dmg_"@.len());
            reveal_strlit("anemo_dmg_");
            assert("geo_dmg_"@.len() != "anemo_dmg_"@.len());
        },
        ArtifactStatName::PhysicalBonus => {
            reveal_strlit("physical_dmg_");
            reveal_strlit("heal_");
            assert("physical_dmg_"@.len() != "heal_"@.len());
            reveal_strlit("critDMG_");
            assert("physical_dmg_"@.len() != "critDMG_"@.len());
            reveal_strlit("critRate_");
            assert("physical_dmg_"@.len() != "critRate_"@.len());
            reveal_strlit("atk");
            assert("physical_dmg_"@.len() != "atk"@.len());
            reveal_strlit("atk_");
            assert("physical_dmg_"@.len() != "atk_"@.len());
            reveal_strlit("eleMas");
            assert("physical_dmg_"@.len() != "eleMas"@.len());
            reveal_strlit("enerRech_");
            assert("physical_dmg_"@.len() != "enerRech_"@.len());
            reveal_strlit("hp_");
            assert("physical_dmg_"@.len() != "hp_"@.len());
            reveal_strlit("hp");
            assert("physical_dmg_"@.len() != "hp"@.len());
            reveal_strlit("def_");
            assert("physical_dmg_"@.len() != "def_"@.len());
            reveal_strlit("def");
            assert("physical_dmg_"@.len() != "def"@.len());
            reveal_strlit("electro_dmg_");
            assert("physical_dmg_"@.len() != "electro_dmg_"@.len());
            reveal_strlit("pyro_dmg_");
            assert("physical_dmg_"@.len() != "pyro_dmg_"@.len());
            reveal_strlit("hydro_dmg_");
            assert("physical_dmg_"@.len() != "hydro_dmg_"@.len());
            reveal_strlit("cryo_dmg_");
            assert("physical_dmg_"@.len() != "cryo_dmg_"@.len());
            reveal_strlit("anemo_dmg_");
            assert("physical_dmg_"@.len() != "anemo_dmg_"@.len());
            reveal_strlit("geo_dmg_");
            assert("physical_dmg_"@.len() != "geo_dmg_"@.len());
        },
        ArtifactStatName::DendroBonus => {
            reveal_strlit("dendro_dmg_");
            reveal_strlit("heal_");
            assert("dendro_dmg_"@.len() != "heal_"@.len());
            reveal_strlit("critDMG_");
            assert("dendro_dmg_"@.len() != "critDMG_"@.len());
            reveal_strlit("critRate_");
            assert("dendro_dmg_"@.len() != "critRate_"@.len());
            reveal_strlit("atk");
            assert("dendro_dmg_"@.len() != "atk"@.len());
            reveal_strlit("atk_");
            assert("dendro_dmg_"@.len() != "atk_"@.len());
            reveal_strlit("eleMas");
            assert("dendro_dmg_"@.len() != "eleMas"@.len());
            reveal_strlit("enerRech_");
            assert("dendro_dmg_"@.len() != "enerRech_"@.len());
            reveal_strlit("hp_");
            assert("dendro_dmg_"@.len() != "hp_"@.len());
            reveal_strlit("hp");
            assert("dendro_dmg_"@.len() != "hp"@.len());
            reveal_strlit("def_");
            assert("dendro_dmg_"@.len() != "def_"@.len());
            reveal_strlit("def");
            assert("dendro_dmg_"@.len() != "def"@.len());
            reveal_strlit("electro_dmg_");
            assert("dendro_dmg_"@.len() != "electro_dmg_"@.len());
            reveal_strlit("pyro_dmg_");
            assert("dendro_dmg_"@.len() != "pyro_dmg_"@.len());
            reveal_strlit("hydro_dmg_");
            assert("dendro_dmg_"@.len() != "hydro_dmg_"@.len());
            reveal_strlit("cryo_dmg_");
            assert("dendro_dmg_"@.len() != "cryo_dmg_"@.len());
            reveal_strlit("anemo_dmg_");
            assert("dendro_dmg_"@.len() != "anemo_dmg_"@.len());
            reveal_strlit("geo_dmg_");
            assert("dendro_dmg_"@.len() != "geo_dmg_"@.len());
            reveal_strlit("physical_dmg_");
            assert("dendro_dmg_"@.len() != "physical_dmg_"@.len());
        },
    }
}

/// The slot that a GOOD key names, as the GOOD format defines its keys.
pub open spec fn good_slot_of_key(key: Seq<char>) -> Option<ArtifactSlot> {
    if key == "flower"@ {
        Some(ArtifactSlot::Flower)
    } else if key == "plume"@ {
        Some(ArtifactSlot::Feather)
    } else if key == "sands"@ {
        Some(ArtifactSlot::Sand)
    } else if key == "goblet"@ {
        Some(ArtifactSlot::Goblet)
    } else if key == "circlet"@ {
        Some(ArtifactSlot::Head)
    } else {
        None
    }
}

/// Each slot has its own GOOD key, the one the format knows it by:
/// reading the key back gives the slot.
pub proof fn law_good_slot_keys_read_back(k: ArtifactSlot)
    ensures
        good_slot_of_key(slot_good_key(k)) == Some(k),
{
    match k {
        ArtifactSlot::Flower => {
            reveal_strlit("flower");
        },
        ArtifactSlot::Feather => {
            reveal_strlit("plume");
            reveal_strlit("flower");
            assert("plume"@.len() != "flower"@.len());
        },
        ArtifactSlot::Sand => {
            reveal_strlit("sands");
            reveal_strlit("flower");
            assert("sands"@.len() != "flower"@.len());
            reveal_strlit("plume");
            assert("sands"@[0] != "plume"@[0]);
        },
        ArtifactSlot::Goblet => {
            reveal_strlit("goblet");
            reveal_strlit("flower");
            assert("goblet"@[0] != "flower"@[0]);
            reveal_strlit("plume");
            assert("goblet"@.len() != "plume"@.len());
            reveal_strlit("sands");
            assert("goblet"@.len() != "sands"@.len());
        },
        ArtifactSlot::Head => {
            reveal_strlit("circlet");
            reveal_strlit("flower");
            assert("circlet"@.len() != "flower"@.len());
            reveal_strlit("plume");
            assert("circlet"@.len() != "plume"@.len());
            reveal_strlit("sands");
            assert("circlet"@.len() != "sands"@.len());
            reveal_strlit("goblet");
            assert("circlet"@.len() != "goblet"@.len());
        },
    }
}

/// The stat kind that a Mingyu Lab key names, as the Mingyu Lab format defines its keys.
pub open spec fn mingyu_stat_of_key(key: Seq<char>) -> Option<ArtifactStatName> {
    if key == "healing"@ {
        Some(ArtifactStatName::HealingBonus)
    } else if key == "critDamage"@ {
        Some(ArtifactStatName::CriticalDamage)
    } else if key == "critRate"@ {
        Some(ArtifactStatName::Critical)
    } else if key == "flatATK"@ {
        Some(ArtifactStatName::Atk)
    } else if key == "percentATK"@ {
        Some(ArtifactStatName::AtkPercentage)
    } else if key == "elementalMastery"@ {
        Some(ArtifactStatName::ElementalMastery)
    } else if key == "energyRecharge"@ {
        Some(ArtifactStatName::Recharge)
    } else if key == "percentHP"@ {
        Some(ArtifactStatName::HpPercentage)
    } else if key == "flatHP"@ {
        Some(ArtifactStatName::Hp)
    } else if key == "percentDEF"@ {
        Some(ArtifactStatName::DefPercentage)
    } else if key == "flatDEF"@ {
        Some(ArtifactStatName::Def)
    } else if key == "electroDamage"@ {
        Some(ArtifactStatName::ElectroBonus)
    } else if key == "pyroDamage"@ {
        Some(ArtifactStatName::PyroBonus)
    } else if key == "hydroDamage"@ {
        Some(ArtifactStatName::HydroBonus)
    } else if key == "cryoDamage"@ {
        Some(ArtifactStatName::CryoBonus)
    } else if key == "anemoDamage"@ {
        Some(ArtifactStatName::AnemoBonus)
    } else if key == "geoDamage"@ {
        Some(ArtifactStatName::GeoBonus)
    } else if key == "physicalDamage"@ {
        Some(ArtifactStatName::PhysicalBonus)
    } else if key == "dendroDamage"@ {
        Some(ArtifactStatName::DendroBonus)
    } else {
        None
    }
}

/// Each stat kind has its own Mingyu Lab key, the one the format knows it by:
/// reading the key back gives the stat kind.
pub proof fn law_mingyu_stat_keys_read_back(k: ArtifactStatName)
    ensures
        mingyu_stat_of_key(stat_mingyu_key(k)) == Some(k),
{
    match k {
        ArtifactStatName::HealingBonus => {
            reveal_strlit("healing");
        },
        ArtifactStatName::CriticalDamage => {
            reveal_strlit("critDamage");
            reveal_strlit("healing");
            assert("critDamage"@.len() != "healing"@.len());
        },
        ArtifactStatName::Critical => {
            reveal_strlit("critRate");
            reveal_strlit("healing");
            assert("critRate"@.len() != "healing"@.len());
            reveal_strlit("critDamage");
            assert("critRate"@.len() != "critDamage"@.len());
        },
        ArtifactStatName::Atk => {
            reveal_strlit("flatATK");
            reveal_strlit("healing");
            assert("flatATK"@[0] != "healing"@[0]);
            reveal_strlit("critDamage");
            assert("flatATK"@.len() != "critDamage"@.len());
            reveal_strlit("critRate");
            assert("flatATK"@.len() != "critRate"@.len());
        },
        ArtifactStatName::AtkPercentage => {
            reveal_strlit("percentATK");
            reveal_strlit("healing");
            assert("percentATK"@.len() != "healing"@.len());
            reveal_strlit("critDamage");
            assert("percentATK"@[0] != "critDamage"@[0]);
            reveal_strlit("critRate");
            assert("percentATK"@.len() != "critRate"@.len());
            reveal_strlit("flatATK");
            assert("percentATK"@.len() != "flatATK"@.len());
        },
        ArtifactStatName::ElementalMastery => {
            reveal_strlit("elementalMastery");
            reveal_strlit("healing");
            assert("elementalMastery"@.len() != "healing"@.len());
            reveal_strlit("critDamage");
            assert("elementalMastery"@.len() != "critDamage"@.len());
            reveal_strlit("critRate");
            assert("elementalMastery"@.len() != "critRate"@.len());
            reveal_strlit("flatATK");
            assert("elementalMastery"@.len() != "flatATK"@.len());
            reveal_strlit("percentATK");
            assert("elementalMastery"@.len() != "percentATK"@.len());
        },
        ArtifactStatName::Recharge => {
            reveal_strlit("energyRecharge");
            reveal_strlit("healing");
            assert("energyRecharge"@.len() != "healing"@.len());
            reveal_strlit("critDamage");
            assert("energyRecharge"@.len() != "critDamage"@.len());
            reveal_strlit("critRate");
            assert("energyRecharge"@.len() != "critRate"@.len());
            reveal_strlit("flatATK");
            assert("energyRecharge"@.len() != "flatATK"@.len());
            reveal_strlit("percentATK");
            assert("energyRecharge"@.len() != "percentATK"@.len());
            reveal_strlit("elementalMastery");
            assert("energyRecharge"@.len() != "elementalMastery"@.len());
        },
        ArtifactStatName::HpPercentage => {
            reveal_strlit("percentHP");
            reveal_strlit("healing");
            assert("percentHP"@.len() != "healing"@.len());
            reveal_strlit("critDamage");
            assert("percentHP"@.len() != "critDamage"@.len());
            reveal_strlit("critRate");
            assert("percentHP"@.len() != "critRate"@.len());
            reveal_strlit("flatATK");
            assert("percentHP"@.len() != "flatATK"@.len());
            reveal_strlit("percentATK");
            assert("percentHP"@.len() != "percentATK"@.len());
            reveal_strlit("elementalMastery");
            assert("percentHP"@.len() != "elementalMastery"@.len());
            reveal_strlit("energyRecharge");
            assert("percentHP"@.len() != "energyRecharge"@.len());
        },
        ArtifactStatName::Hp => {
            reveal_strlit("flatHP");
            reveal_strlit("healing");
            assert("flatHP"@.len() != "healing"@.len());
            reveal_strlit("critDamage");
            assert("flatHP"@.len() != "critDamage"@.len());
            reveal_strlit("critRate");
            assert("flatHP"@.len() != "critRate"@.len());
            reveal_strlit("flatATK");
            assert("flatHP"@.len() != "flatATK"@.len());
            reveal_strlit("percentATK");
            assert("flatHP"@.len() != "percentATK"@.len());
            reveal_strlit("elementalMastery");
            assert("flatHP"@.len() != "elementalMastery"@.len());
            reveal_strlit("energyRecharge");
            assert("flatHP"@.len() != "energyRecharge"@.len());
            reveal_strlit("percentHP");
            assert("flatHP"@.len() != "percentHP"@.len());
        },
        ArtifactStatName::DefPercentage => {
            reveal_strlit("percentDEF");
            reveal_strlit("healing");
            assert("percentDEF"@.len() != "healing"@.len());
            reveal_strlit("critDamage");
            assert("percentDEF"@[0] != "critDamage"@[0]);
            reveal_strlit("critRate");
            assert("percentDEF"@.len() != "critRate"@.len());
            reveal_strlit("flatATK");
            assert("percentDEF"@.len() != "flatATK"@.len());
            reveal_strlit("percentATK");
            assert("percentDEF"@[7] != "percentATK"@[7]);
            reveal_strlit("elementalMastery");
            assert("percentDEF"@.len() != "elementalMastery"@.len());
            reveal_strlit("energyRecharge");
            assert("percentDEF"@.len() != "energyRecharge"@.len());
            reveal_strlit("percentHP");
            assert("percentDEF"@.len() != "percentHP"@.len());
            reveal_strlit("flatHP");
            assert("percentDEF"@.len() != "flatHP"@.len());
        },
        ArtifactStatName::Def => {
            reveal_strlit("flatDEF");
            reveal_strlit("healing");
            assert("flatDEF"@[0] != "healing"@[0]);
            reveal_strlit("critDamage");
            assert("flatDEF"@.len() != "critDamage"@.len());
            reveal_strlit("critRate");
            assert("flatDEF"@.len() != "critRate"@.len());
            reveal_strlit("flatATK");
            assert("flatDEF"@[4] != "flatATK"@[4]);
            reveal_strlit("percentATK");
            assert("flatDEF"@.len() != "percentATK"@.len());
            reveal_strlit("elementalMastery");
            assert("flatDEF"@.len() != "elementalMastery"@.len());
            reveal_strlit("energyRecharge");
            assert("flatDEF"@.len() != "energyRecharge"@.len());
            reveal_strlit("percentHP");
            assert("flatDEF"@.len() != "percentHP"@.len());
            reveal_strlit("flatHP");
            assert("flatDEF"@.len() != "flatHP"@.len());
            reveal_strlit("percentDEF");
            assert("flatDEF"@.len() != "percentDEF"@.len());
        },
        ArtifactStatName::ElectroBonus => {
            reveal_strlit("electroDamage");
            reveal_strlit("healing");
            assert("electroDamage"@.len() != "healing"@.len());
            reveal_strlit("critDamage");
            assert("electroDamage"@.len() != "critDamage"@.len());
            reveal_strlit("critRate");
            assert("electroDamage"@.len() != "critRate"@.len());
            reveal_strlit("flatATK");
            assert("electroDamage"@.len() != "flatATK"@.len());
            reveal_strlit("percentATK");
            assert("electroDamage"@.len() != "percentATK"@.len());
            reveal_strlit("elementalMastery");
            assert("electroDamage"@.len() != "elementalMastery"@.len());
            reveal_strlit("energyRecharge");
            assert("electroDamage"@.len() != "energyRecharge"@.len());
            reveal_strlit("percentHP");
            assert("electroDamage"@.len() != "percentHP"@.len());
            reveal_strlit("flatHP");
            assert("electroDamage"@.len() != "flatHP"@.len());
            reveal_strlit("percentDEF");
            assert("electroDamage"@.len() != "percentDEF"@.len());
            reveal_strlit("flatDEF");
            assert("electroDamage"@.len() != "flatDEF"@.len());
        },
        ArtifactStatName::PyroBonus => {
            reveal_strlit("pyroDamage");
            reveal_strlit("healing");
            assert("pyroDamage"@.len() != "healing"@.len());
            reveal_strlit("critDamage");
            assert("pyroDamage"@[0] != "critDamage"@[0]);
            reveal_strlit("critRate");
            assert("pyroDamage"@.len() != "critRate"@.len());
            reveal_strlit("flatATK");
            assert("pyroDamage"@.len() != "flatATK"@.len());
            reveal_strlit("percentATK");
            assert("pyroDamage"@[1] != "percentATK"@[1]);
            reveal_strlit("elementalMastery");
            assert("pyroDamage"@.len() != "elementalMastery"@.len());
            reveal_strlit("energyRecharge");
            assert("pyroDamage"@.len() != "energyRecharge"@.len());
            reveal_strlit("percentHP");
            assert("pyroDamage"@.len() != "percentHP"@.len());
            reveal_strlit("flatHP");
            assert("pyroDamage"@.len() != "flatHP"@.len());
            reveal_strlit("percentDEF");
            assert("pyroDamage"@[1] != "percentDEF"@[1]);
            reveal_strlit("flatDEF");
            assert("pyroDamage"@.len() != "flatDEF"@.len());
            reveal_strlit("electroDamage");
            assert("pyroDamage"@.len() != "electroDamage"@.len());
        },
        ArtifactStatName::HydroBonus => {
            reveal_strlit("hydroDamage");
            reveal_strlit("healing");
            assert("hydroDamage"@.len() != "healing"@.len());
            reveal_strlit("critDamage");
            assert("hydroDamage"@.len() != "critDamage"@.len());
            reveal_strlit("critRate");
            assert("hydroDamage"@.len() != "critRate"@.len());
            reveal_strlit("flatATK");
            assert("hydroDamage"@.len() != "flatATK"@.len());
            reveal_strlit("percentATK");
            assert("hydroDamage"@.len() != "percentATK"@.len());
            reveal_strlit("elementalMastery");
            assert("hydroDamage"@.len() != "elementalMastery"@.len());
            reveal_strlit("energyRecharge");
            assert("hydroDamage"@.len() != "energyRecharge"@.len());
            reveal_strlit("percentHP");
            assert("hydroDamage"@.len() != "percentHP"@.len());
            reveal_strlit("flatHP");
            assert("hydroDamage"@.len() != "flatHP"@.len());
            reveal_strlit("percentDEF");
            assert("hydroDamage"@.len() != "percentDEF"@.len());
            reveal_strlit("flatDEF");
            assert("hydroDamage"@.len() != "flatDEF"@.len());
            reveal_strlit("electroDamage");
            assert("hydroDamage"@.len() != "electroDamage"@.len());
            reveal_strlit("pyroDamage");
            assert("hydroDamage"@.len() != "pyroDamage"@.len());
        },
        ArtifactStatName::CryoBonus => {
            reveal_strlit("cryoDamage");
            reveal_strlit("healing");
            assert("cryoDamage"@.len() != "healing"@.len());
            reveal_strlit("critDamage");
            assert("cryoDamage"@[2] != "critDamage"@[2]);
            reveal_strlit("critRate");
            assert("cryoDamage"@.len() != "critRate"@.len());
            reveal_strlit("flatATK");
            assert("cryoDamage"@.len() != "flatATK"@.len());
            reveal_strlit("percentATK");
            assert("cryoDamage"@[0] != "percentATK"@[0]);
            reveal_strlit("elementalMastery");
            assert("cryoDamage"@.len() != "elementalMastery"@.len());
            reveal_strlit("energyRecharge");
            assert("cryoDamage"@.len() != "energyRecharge"@.len());
            reveal_strlit("percentHP");
            assert("cryoDamage"@.len() != "percentHP"@.len());
            reveal_strlit("flatHP");
            assert("cryoDamage"@.len() != "flatHP"@.len());
            reveal_strlit("percentDEF");
            assert("cryoDamage"@[0] != "percentDEF"@[0]);
            reveal_strlit("flatDEF");
            assert("cryoDamage"@.len() != "flatDEF"@.len());
            reveal_strlit("electroDamage");
            assert("cryoDamage"@.len() != "electroDamage"@.len());
            reveal_strlit("pyroDamage");
            assert("cryoDamage"@[0] != "pyroDamage"@[0]);
            reveal_strlit("hydroDamage");
            assert("cryoDamage"@.len() != "hydroDamage"@.len());
        },
        ArtifactStatName::AnemoBonus => {
            reveal_strlit("anemoDamage");
            reveal_strlit("healing");
            assert("anemoDamage"@.len() != "healing"@.len());
            reveal_strlit("critDamage");
            assert("anemoDamage"@.len() != "critDamage"@.len());
            reveal_strlit("critRate");
            assert("anemoDamage"@.len() != "critRate"@.len());
            reveal_strlit("flatATK");
            assert("anemoDamage"@.len() != "flatATK"@.len());
            reveal_strlit("percentATK");
            assert("anemoDamage"@.len() != "percentATK"@.len());
            reveal_strlit("elementalMastery");
            assert("anemoDamage"@.len() != "elementalMastery"@.len());
            reveal_strlit("energyRecharge");
            assert("anemoDamage"@.len() != "energyRecharge"@.len());
            reveal_strlit("percentHP");
            assert("anemoDamage"@.len() != "percentHP"@.len());
            reveal_strlit("flatHP");
            assert("anemoDamage"@.len() != "flatHP"@.len());
            reveal_strlit("percentDEF");
            assert("anemoDamage"@.len() != "percentDEF"@.len());
            reveal_strlit("flatDEF");
            assert("anemoDamage"@.len() != "flatDEF"@.len());
            reveal_strlit("electroDamage");
            assert("anemoDamage"@.len() != "electroDamage"@.len());
            reveal_strlit("pyroDamage");
            assert("anemoDamage"@.len() != "pyroDamage"@.len());
            reveal_strlit("hydroDamage");
            assert("anemoDamage"@[0] != "hydroDamage"@[0]);
            reveal_strlit("cryoDamage");
            assert("anemoDamage"@.len() != "cryoDamage"@.len());
        },
        ArtifactStatName::GeoBonus => {
            reveal_strlit("geoDamage");
            reveal_strlit("healing");
            assert("geoDamage"@.len() != "healing"@.len());
            reveal_strlit("critDamage");
            assert("geoDamage"@.len() != "critDamage"@.len());
            reveal_strlit("critRate");
            assert("geoDamage"@.len() != "critRate"@.len());
            reveal_strlit("flatATK");
            assert("geoDamage"@.len() != "flatATK"@.len());
            reveal_strlit("percentATK");
            assert("geoDamage"@.len() != "percentATK"@.len());
            reveal_strlit("elementalMastery");
            assert("geoDamage"@.len() != "elementalMastery"@.len());
            reveal_strlit("energyRecharge");
            assert("geoDamage"@.len() != "energyRecharge"@.len());
            reveal_strlit("percentHP");
            assert("geoDamage"@[0] != "percentHP"@[0]);
            reveal_strlit("flatHP");
            assert("geoDamage"@.len() != "flatHP"@.len());
            reveal_strlit("percentDEF");
            assert("geoDamage"@.len() != "percentDEF"@.len());
            reveal_strlit("flatDEF");
            assert("geoDamage"@.len() != "flatDEF"@.len());
            reveal_strlit("electroDamage");
            assert("geoDamage"@.len() != "electroDamage"@.len());
            reveal_strlit("pyroDamage");
            assert("geoDamage"@.len() != "pyroDamage"@.len());
            reveal_strlit("hydroDamage");
            assert("geoDamage"@.len() != "hydroDamage"@.len());
            reveal_strlit("cryoDamage");
            assert("geoDamage"@.len() != "cryoDamage"@.len());
            reveal_strlit("anemoDamage");
            assert("geoDamage"@.len() != "anemoDamage"@.len());
        },
        ArtifactStatName::PhysicalBonus => {
            reveal_strlit("physicalDamage");
            reveal_strlit("healing");
            assert("physicalDamage"@.len() != "healing"@.len());
            reveal_strlit("critDamage");
            assert("physicalDamage"@.len() != "critDamage"@.len());
            reveal_strlit("critRate");
            assert("physicalDamage"@.len() != "critRate"@.len());
            reveal_strlit("flatATK");
            assert("physicalDamage"@.len() != "flatATK"@.len());
            reveal_strlit("percentATK");
            assert("physicalDamage"@.len() != "percentATK"@.len());
            reveal_strlit("elementalMastery");
            assert("physicalDamage"@.len() != "elementalMastery"@.len());
            reveal_strlit("energyRecharge");
            assert("physicalDamage"@[0] != "energyRecharge"@[0]);
            reveal_strlit("percentHP");
            assert("physicalDamage"@.len() != "percentHP"@.len());
            reveal_strlit("flatHP");
            assert("physicalDamage"@.len() != "flatHP"@.len());
            reveal_strlit("percentDEF");
            assert("physicalDamage"@.len() != "percentDEF"@.len());
            reveal_strlit("flatDEF");
            assert("physicalDamage"@.len() != "flatDEF"@.len());
            reveal_strlit("electroDamage");
            assert("physicalDamage"@.len() != "electroDamage"@.len());
            reveal_strlit("pyroDamage");
            assert("physicalDamage"@.len() != "pyroDamage"@.len());
            reveal_strlit("hydroDamage");
            assert("physicalDamage"@.len() != "hydroDamage"@.len());
            reveal_strlit("cryoDamage");
            assert("physicalDamage"@.len() != "cryoDamage"@.len());
            reveal_strlit("anemoDamage");
            assert("physicalDamage"@.len() != "anemoDamage"@.len());
            reveal_strlit("geoDamage");
            assert("physicalDamage"@.len() != "geoDamage"@.len());
        },
        ArtifactStatName::DendroBonus => {
            reveal_strlit("dendroDamage");
            reveal_strlit("healing");
            assert("dendroDamage"@.len() != "healing"@.len());
            reveal_strlit("critDamage");
            assert("dendroDamage"@.len() != "critDamage"@.len());
            reveal_strlit("critRate");
            assert("dendroDamage"@.len() != "critRate"@.len());
            reveal_strlit("flatATK");
            assert("dendroDamage"@.len() != "flatATK"@.len());
            reveal_strlit("percentATK");
            assert("dendroDamage"@.len() != "percentATK"@.len());
            reveal_strlit("elementalMastery");
            assert("dendroDamage"@.len() != "elementalMastery"@.len());
            reveal_strlit("energyRecharge");
            assert("dendroDamage"@.len() != "energyRecharge"@.len());
            reveal_strlit("percentHP");
            assert("dendroDamage"@.len() != "percentHP"@.len());
            reveal_strlit("flatHP");
            assert("dendroDamage"@.len() != "flatHP"@.len());
            reveal_strlit("percentDEF");
            assert("dendroDamage"@.len() != "percentDEF"@.len());
            reveal_strlit("flatDEF");
            assert("dendroDamage"@.len() != "flatDEF"@.len());
            reveal_strlit("electroDamage");
            assert("dendroDamage"@.len() != "electroDamage"@.len());
            reveal_strlit("pyroDamage");
            assert("dendroDamage"@.len() != "pyroDamage"@.len());
            reveal_strlit("hydroDamage");
            assert("dendroDamage"@.len() != "hydroDamage"@.len());
            reveal_strlit("cryoDamage");
            assert("dendroDamage"@.len() != "cryoDamage"@.len());
            reveal_strlit("anemoDamage");
            assert("dendroDamage"@.len() != "anemoDamage"@.len());
            reveal_strlit("geoDamage");
            assert("dendroDamage"@.len() != "geoDamage"@.len());
            reveal_strlit("physicalDamage");
            assert("dendroDamage"@.len() != "physicalDamage"@.len());
        },
    }
}

/// The slot that a Mingyu Lab key names, as the Mingyu Lab format defines its keys.
pub open spec fn mingyu_slot_of_key(key: Seq<char>) -> Option<ArtifactSlot> {
    if key == "flower"@ {
        Some(ArtifactSlot::Flower)
    } else if key == "plume"@ {
        Some(ArtifactSlot::Feather)
    } else if key == "eon"@ {
        Some(ArtifactSlot::Sand)
    } else if key == "goblet"@ {
        Some(ArtifactSlot::Goblet)
    } else if key == "circlet"@ {
        Some(ArtifactSlot::Head)
    } else {
        None
    }
}

/// Each slot has its own Mingyu Lab key, the one the format knows it by:
/// reading the key back gives the slot.
pub proof fn law_mingyu_slot_keys_read_back(k: ArtifactSlot)
    ensures
        mingyu_slot_of_key(slot_mingyu_key(k)) == Some(k),
{
    match k {
        ArtifactSlot::Flower => {
            reveal_strlit("flower");
        },
        ArtifactSlot::Feather => {
            reveal_strlit("plume");
            reveal_strlit("flower");
            assert("plume"@.len() != "flower"@.len());
        },
        ArtifactSlot::Sand => {
            reveal_strlit("eon");
            reveal_strlit("flower");
            assert("eon"@.len() != "flower"@.len());
            reveal_strlit("plume");
            assert("eon"@.len() != "plume"@.len());
        },
        ArtifactSlot::Goblet => {
            reveal_strlit("goblet");
            reveal_strlit("flower");
            assert("goblet"@[0] != "flower"@[0]);
            reveal_strlit("plume");
            assert("goblet"@.len() != "plume"@.len());
            reveal_strlit("eon");
            assert("goblet"@.len() != "eon"@.len());
        },
        ArtifactSlot::Head => {
            reveal_strlit("circlet");
            reveal_strlit("flower");
            assert("circlet"@.len() != "flower"@.len());
            reveal_strlit("plume");
            assert("circlet"@.len() != "plume"@.len());
            reveal_strlit("eon");
            assert("circlet"@.len() != "eon"@.len());
            reveal_strlit("goblet");
            assert("circlet"@.len() != "goblet"@.len());
        },
    }
}

/// The stat kind that a Mona key names, as the Mona format defines its keys.
pub open spec fn mona_stat_of_key(key: Seq<char>) -> Option<ArtifactStatName> {
    if key == "cureEffect"@ {
        Some(ArtifactStatName::HealingBonus)
    } else if key == "criticalDamage"@ {
        Some(ArtifactStatName::CriticalDamage)
    } else if key == "critical"@ {
        Some(ArtifactStatName::Critical)
    } else if key == "attackStatic"@ {
        Some(ArtifactStatName::Atk)
    } else if key == "attackPercentage"@ {
        Some(ArtifactStatName::AtkPercentage)
    } else if key == "elementalMastery"@ {
        Some(ArtifactStatName::ElementalMastery)
    } else if key == "recharge"@ {
        Some(ArtifactStatName::Recharge)
    } else if key == "lifePercentage"@ {
        Some(ArtifactStatName::HpPercentage)
    } else if key == "lifeStatic"@ {
        Some(ArtifactStatName::Hp)
    } else if key == "defendPercentage"@ {
        Some(ArtifactStatName::DefPercentage)
    } else if key == "defendStatic"@ {
        Some(ArtifactStatName::Def)
    } else if key == "thunderBonus"@ {
        Some(ArtifactStatName::ElectroBonus)
    } else if key == "fireBonus"@ {
        Some(ArtifactStatName::PyroBonus)
    } else if key == "waterBonus"@ {
        Some(ArtifactStatName::HydroBonus)
    } else if key == "iceBonus"@ {
        Some(ArtifactStatName::CryoBonus)
    } else if key == "windBonus"@ {
        Some(ArtifactStatName::AnemoBonus)
    } else if key == "rockBonus"@ {
        Some(ArtifactStatName::GeoBonus)
    } else if key == "physicalBonus"@ {
        Some(ArtifactStatName::PhysicalBonus)
    } else if key == "dendroBonus"@ {
        Some(ArtifactStatName::DendroBonus)
    } else {
        None
    }
}

/// Each stat kind has its own Mona key, the one the format knows it by:
/// reading the key back gives the stat kind.
pub proof fn law_mona_stat_keys_read_back(k: ArtifactStatName)
    ensures
        mona_stat_of_key(stat_mona_key(k)) == Some(k),
{
    match k {
        ArtifactStatName::HealingBonus => {
            reveal_strlit("cureEffect");
        },
        ArtifactStatName::CriticalDamage => {
            reveal_strlit("criticalDamage");
            reveal_strlit("cureEffect");
            assert("criticalDamage"@.len() != "cureEffect"@.len());
        },
        ArtifactStatName::Critical => {
            reveal_strlit("critical");
            reveal_strlit("cureEffect");
            assert("critical"@.len() != "cureEffect"@.len());
            reveal_strlit("criticalDamage");
            assert("critical"@.len() != "criticalDamage"@.len());
        },
        ArtifactStatName::Atk => {
            reveal_strlit("attackStatic");
            reveal_strlit("cureEffect");
            assert("attackStatic"@.len() != "cureEffect"@.len());
            reveal_strlit("criticalDamage");
            assert("attackStatic"@.len() != "criticalDamage"@.len());
            reveal_strlit("critical");
            assert("attackStatic"@.len() != "critical"@.len());
        },
        ArtifactStatName::AtkPercentage => {
            reveal_strlit("attackPercentage");
            reveal_strlit("cureEffect");
            assert("attackPercentage"@.len() != "cureEffect"@.len());
            reveal_strlit("criticalDamage");
            assert("attackPercentage"@.len() != "criticalDamage"@.len());
            reveal_strlit("critical");
            assert("attackPercentage"@.len() != "critical"@.len());
            reveal_strlit("attackStatic");
            assert("attackPercentage"@.len() != "attackStatic"@.len());
        },
        ArtifactStatName::ElementalMastery => {
            reveal_strlit("elementalMastery");
            reveal_strlit("cureEffect");
            assert("elementalMastery"@.len() != "cureEffect"@.len());
            reveal_strlit("criticalDamage");
            assert("elementalMastery"@.len() != "criticalDamage"@.len());
            reveal_strlit("critical");
            assert("elementalMastery"@.len() != "critical"@.len());
            reveal_strlit("attackStatic");
            assert("elementalMastery"@.len() != "attackStatic"@.len());
            reveal_strlit("attackPercentage");
            assert("elementalMastery"@[0] != "attackPercentage"@[0]);
        },
        ArtifactStatName::Recharge => {
            reveal_strlit("recharge");
            reveal_strlit("cureEffect");
            assert("recharge"@.len() != "cureEffect"@.len());
            reveal_strlit("criticalDamage");
            assert("recharge"@.len() != "criticalDamage"@.len());
            reveal_strlit("critical");
            assert("recharge"@[0] != "critical"@[0]);
            reveal_strlit("attackStatic");
            assert("recharge"@.len() != "attackStatic"@.len());
            reveal_strlit("attackPercentage");
            assert("recharge"@.len() != "attackPercentage"@.len());
            reveal_strlit("elementalMastery");
            assert("recharge"@.len() != "elementalMastery"@.len());
        },
        ArtifactStatName::HpPercentage => {
            reveal_strlit("lifePercentage");
            reveal_strlit("cureEffect");
            assert("lifePercentage"@.len() != "cureEffect"@.len());
            reveal_strlit("criticalDamage");
            assert("lifePercentage"@[0] != "criticalDamage"@[0]);
            reveal_strlit("critical");
            assert("lifePercentage"@.len() != "critical"@.len());
            reveal_strlit("attackStatic");
            assert("lifePercentage"@.len() != "attackStatic"@.len());
            reveal_strlit("attackPercentage");
            assert("lifePercentage"@.len() != "attackPercentage"@.len());
            reveal_strlit("elementalMastery");
            assert("lifePercentage"@.len() != "elementalMastery"@.len());
            reveal_strlit("recharge");
            assert("lifePercentage"@.len() != "recharge"@.len());
        },
        ArtifactStatName::Hp => {
            reveal_strlit("lifeStatic");
            reveal_strlit("cureEffect");
            assert("lifeStatic"@[0] != "cureEffect"@[0]);
            reveal_strlit("criticalDamage");
            assert("lifeStatic"@.len() != "criticalDamage"@.len());
            reveal_strlit("critical");
            assert("lifeStatic"@.len() != "critical"@.len());
            reveal_strlit("attackStatic");
            assert("lifeStatic"@.len() != "attackStatic"@.len());
            reveal_strlit("attackPercentage");
            assert("lifeStatic"@.len() != "attackPercentage"@.len());
            reveal_strlit("elementalMastery");
            assert("lifeStatic"@.len() != "elementalMastery"@.len());
            reveal_strlit("recharge");
            assert("lifeStatic"@.len() != "recharge"@.len());
            reveal_strlit("lifePercentage");
            assert("lifeStatic"@.len() != "lifePercentage"@.len());
        },
        ArtifactStatName::DefPercentage => {
            reveal_strlit("defendPercentage");
            reveal_strlit("cureEffect");
            assert("defendPercentage"@.len() != "cureEffect"@.len());
            reveal_strlit("criticalDamage");
            assert("defendPercentage"@.len() != "criticalDamage"@.len());
            reveal_strlit("critical");
            assert("defendPercentage"@.len() != "critical"@.len());
            reveal_strlit("attackStatic");
            assert("defendPercentage"@.len() != "attackStatic"@.len());
            reveal_strlit("attackPercentage");
            assert("defendPercentage"@[0] != "attackPercentage"@[0]);
            reveal_strlit("elementalMastery");
            assert("defendPercentage"@[0] != "elementalMastery"@[0]);
            reveal_strlit("recharge");
            assert("defendPercentage"@.len() != "recharge"@.len());
            reveal_strlit("lifePercentage");
            assert("defendPercentage"@.len() != "lifePercentage"@.len());
            reveal_strlit("lifeStatic");
            assert("defendPercentage"@.len() != "lifeStatic"@.len());
        },
        ArtifactStatName::Def => {
            reveal_strlit("defendStatic");
            reveal_strlit("cureEffect");
            assert("defendStatic"@.len() != "cureEffect"@.len());
            reveal_strlit("criticalDamage");
            assert("defendStatic"@.len() != "criticalDamage"@.len());
            reveal_strlit("critical");
            assert("defendStatic"@.len() != "critical"@.len());
            reveal_strlit("attackStatic");
            assert("defendStatic"@[0] != "attackStatic"@[0]);
            reveal_strlit("attackPercentage");
            assert("defendStatic"@.len() != "attackPercentage"@.len());
            reveal_strlit("elementalMastery");
            assert("defendStatic"@.len() != "elementalMastery"@.len());
            reveal_strlit("recharge");
            assert("defendStatic"@.len() != "recharge"@.len());
            reveal_strlit("lifePercentage");
            assert("defendStatic"@.len() != "lifePercentage"@.len());
            reveal_strlit("lifeStatic");
            assert("defendStatic"@.len() != "lifeStatic"@.len());
            reveal_strlit("defendPercentage");
            assert("defendStatic"@.len() != "defendPercentage"@.len());
        },
        ArtifactStatName::ElectroBonus => {
            reveal_strlit("thunderBonus");
            reveal_strlit("cureEffect");
            assert("thunderBonus"@.len() != "cureEffect"@.len());
            reveal_strlit("criticalDamage");
            assert("thunderBonus"@.len() != "criticalDamage"@.len());
            reveal_strlit("critical");
            assert("thunderBonus"@.len() != "critical"@.len());
            reveal_strlit("attackStatic");
            assert("thunderBonus"@[0] != "attackStatic"@[0]);
            reveal_strlit("attackPercentage");
            assert("thunderBonus"@.len() != "attackPercentage"@.len());
            reveal_strlit("elementalMastery");
            assert("thunderBonus"@.len() != "elementalMastery"@.len());
            reveal_strlit("recharge");
            assert("thunderBonus"@.len() != "recharge"@.len());
            reveal_strlit("lifePercentage");
            assert("thunderBonus"@.len() != "lifePercentage"@.len());
            reveal_strlit("lifeStatic");
            assert("thunderBonus"@.len() != "lifeStatic"@.len());
            reveal_strlit("defendPercentage");
            assert("thunderBonus"@.len() != "defendPercentage"@.len());
            reveal_strlit("defendStatic");
            assert("thunderBonus"@[0] != "defendStatic"@[0]);
        },
        ArtifactStatName::PyroBonus => {
            reveal_strlit("fireBonus");
            reveal_strlit("cureEffect");
            assert("fireBonus"@.len() != "cureEffect"@.len());
            reveal_strlit("criticalDamage");
            assert("fireBonus"@.len() != "criticalDamage"@.len());
            reveal_strlit("critical");
            assert("fireBonus"@.len() != "critical"@.len());
            reveal_strlit("attackStatic");
            assert("fireBonus"@.len() != "attackStatic"@.len());
            reveal_strlit("attackPercentage");
            assert("fireBonus"@.len() != "attackPercentage"@.len());
            reveal_strlit("elementalMastery");
            assert("fireBonus"@.len() != "elementalMastery"@.len());
            reveal_strlit("recharge");
            assert("fireBonus"@.len() != "recharge"@.len());
            reveal_strlit("lifePercentage");
            assert("fireBonus"@.len() != "lifePercentage"@.len());
            reveal_strlit("lifeStatic");
            assert("fireBonus"@.len() != "lifeStatic"@.len());
            reveal_strlit("defendPercentage");
            assert("fireBonus"@.len() != "defendPercentage"@.len());
            reveal_strlit("defendStatic");
            assert("fireBonus"@.len() != "defendStatic"@.len());
            reveal_strlit("thunderBonus");
            assert("fireBonus"@.len() != "thunderBonus"@.len());
        },
        ArtifactStatName::HydroBonus => {
            reveal_strlit("waterBonus");
            reveal_strlit("cureEffect");
            assert("waterBonus"@[0] != "cureEffect"@[0]);
            reveal_strlit("criticalDamage");
            assert("waterBonus"@.len() != "criticalDamage"@.len());
            reveal_strlit("critical");
            assert("waterBonus"@.len() != "critical"@.len());
            reveal_strlit("attackStatic");
            assert("waterBonus"@.len() != "attackStatic"@.len());
            reveal_strlit("attackPercentage");
            assert("waterBonus"@.len() != "attackPercentage"@.len());
            reveal_strlit("elementalMastery");
            assert("waterBonus"@.len() != "elementalMastery"@.len());
            reveal_strlit("recharge");
            assert("waterBonus"@.len() != "recharge"@.len());
            reveal_strlit("lifePercentage");
            assert("waterBonus"@.len() != "lifePercentage"@.len());
            reveal_strlit("lifeStatic");
            assert("waterBonus"@[0] != "lifeStatic"@[0]);
            reveal_strlit("defendPercentage");
            assert("waterBonus"@.len() != "defendPercentage"@.len());
            reveal_strlit("defendStatic");
            assert("waterBonus"@.len() != "defendStatic"@.len());
            reveal_strlit("thunderBonus");
            assert("waterBonus"@.len() != "thunderBonus"@.len());
            reveal_strlit("fireBonus");
            assert("waterBonus"@.len() != "fireBonus"@.len());
        },
        ArtifactStatName::CryoBonus => {
            reveal_strlit("iceBonus");
            reveal_strlit("cureEffect");
            assert("iceBonus"@.len() != "cureEffect"@.len());
            reveal_strlit("criticalDamage");
            assert("iceBonus"@.len() != "criticalDamage"@.len());
            reveal_strlit("critical");
            assert("iceBonus"@[0] != "critical"@[0]);
            reveal_strlit("attackStatic");
            assert("iceBonus"@.len() != "attackStatic"@.len());
            reveal_strlit("attackPercentage");
            assert("iceBonus"@.len() != "attackPercentage"@.len());
            reveal_strlit("elementalMastery");
            assert("iceBonus"@.len() != "elementalMastery"@.len());
            reveal_strlit("recharge");
            assert("iceBonus"@[0] != "recharge"@[0]);
            reveal_strlit("lifePercentage");
            assert("iceBonus"@.len() != "lifePercentage"@.len());
            reveal_strlit("lifeStatic");
            assert("iceBonus"@.len() != "lifeStatic"@.len());
            reveal_strlit("defendPercentage");
            assert("iceBonus"@.len() != "defendPercentage"@.len());
            reveal_strlit("defendStatic");
            assert("iceBonus"@.len() != "defendStatic"@.len());
            reveal_strlit("thunderBonus");
            assert("iceBonus"@.len() != "thunderBonus"@.len());
            reveal_strlit("fireBonus");
            assert("iceBonus"@.len() != "fireBonus"@.len());
            reveal_strlit("waterBonus");
            assert("iceBonus"@.len() != "waterBonus"@.len());
        },
        ArtifactStatName::AnemoBonus => {
            reveal_strlit("windBonus");
            reveal_strlit("cureEffect");
            assert("windBonus"@.len() != "cureEffect"@.len());
            reveal_strlit("criticalDamage");
            assert("windBonus"@.len() != "criticalDamage"@.len());
            reveal_strlit("critical");
            assert("windBonus"@.len() != "critical"@.len());
            reveal_strlit("attackStatic");
            assert("windBonus"@.len() != "attackStatic"@.len());
            reveal_strlit("attackPercentage");
            assert("windBonus"@.len() != "attackPercentage"@.len());
            reveal_strlit("elementalMastery");
            assert("windBonus"@.len() != "elementalMastery"@.len());
            reveal_strlit("recharge");
            assert("windBonus"@.len() != "recharge"@.len());
            reveal_strlit("lifePercentage");
            assert("windBonus"@.len() != "lifePercentage"@.len());
            reveal_strlit("lifeStatic");
            assert("windBonus"@.len() != "lifeStatic"@.len());
            reveal_strlit("defendPercentage");
            assert("windBonus"@.len() != "defendPercentage"@.len());
            reveal_strlit("defendStatic");
            assert("windBonus"@.len() != "defendStatic"@.len());
            reveal_strlit("thunderBonus");
            assert("windBonus"@.len() != "thunderBonus"@.len());
            reveal_strlit("fireBonus");
            assert("windBonus"@[0] != "fireBonus"@[0]);
            reveal_strlit("waterBonus");
            assert("windBonus"@.len() != "waterBonus"@.len());
            reveal_strlit("iceBonus");
            assert("windBonus"@.len() != "iceBonus"@.len());
        },
        ArtifactStatName::GeoBonus => {
            reveal_strlit("rockBonus");
            reveal_strlit("cureEffect");
            assert("rockBonus"@.len() != "cureEffect"@.len());
            reveal_strlit("criticalDamage");
            assert("rockBonus"@.len() != "criticalDamage"@.len());
            reveal_strlit("critical");
            assert("rockBonus"@.len() != "critical"@.len());
            reveal_strlit("attackStatic");
            assert("rockBonus"@.len() != "attackStatic"@.len());
            reveal_strlit("attackPercentage");
            assert("rockBonus"@.len() != "attackPercentage"@.len());
            reveal_strlit("elementalMastery");
            assert("rockBonus"@.len() != "elementalMastery"@.len());
            reveal_strlit("recharge");
            assert("rockBonus"@.len() != "recharge"@.len());
            reveal_strlit("lifePercentage");
            assert("rockBonus"@.len() != "lifePercentage"@.len());
            reveal_strlit("lifeStatic");
            assert("rockBonus"@.len() != "lifeStatic"@.len());
            reveal_strlit("defendPercentage");
            assert("rockBonus"@.len() != "defendPercentage"@.len());
            reveal_strlit("defendStatic");
            assert("rockBonus"@.len() != "defendStatic"@.len());
            reveal_strlit("thunderBonus");
            assert("rockBonus"@.len() != "thunderBonus"@.len());
            reveal_strlit("fireBonus");
            assert("rockBonus"@[0] != "fireBonus"@[0]);
            reveal_strlit("waterBonus");
            assert("rockBonus"@.len() != "waterBonus"@.len());
            reveal_strlit("iceBonus");
            assert("rockBonus"@.len() != "iceBonus"@.len());
            reveal_strlit("windBonus");
            assert("rockBonus"@[0] != "windBonus"@[0]);
        },
        ArtifactStatName::PhysicalBonus => {
            reveal_strlit("physicalBonus");
            reveal_strlit("cureEffect");
            assert("physicalBonus"@.len() != "cureEffect"@.len());
            reveal_strlit("criticalDamage");
            assert("physicalBonus"@.len() != "criticalDamage"@.len());
            reveal_strlit("critical");
            assert("physicalBonus"@.len() != "critical"@.len());
            reveal_strlit("attackStatic");
            assert("physicalBonus"@.len() != "attackStatic"@.len());
            reveal_strlit("attackPercentage");
            assert("physicalBonus"@.len() != "attackPercentage"@.len());
            reveal_strlit("elementalMastery");
            assert("physicalBonus"@.len() != "elementalMastery"@.len());
            reveal_strlit("recharge");
            assert("physicalBonus"@.len() != "recharge"@.len());
            reveal_strlit("lifePercentage");
            assert("physicalBonus"@.len() != "lifePercentage"@.len());
            reveal_strlit("lifeStatic");
            assert("physicalBonus"@.len() != "lifeStatic"@.len());
            reveal_strlit("defendPercentage");
            assert("physicalBonus"@.len() != "defendPercentage"@.len());
            reveal_strlit("defendStatic");
            assert("physicalBonus"@.len() != "defendStatic"@.len());
            reveal_strlit("thunderBonus");
            assert("physicalBonus"@.len() != "thunderBonus"@.len());
            reveal_strlit("fireBonus");
            assert("physicalBonus"@.len() != "fireBonus"@.len());
            reveal_strlit("waterBonus");
            assert("physicalBonus"@.len() != "waterBonus"@.len());
            reveal_strlit("iceBonus");
            assert("physicalBonus"@.len() != "iceBonus"@.len());
            reveal_strlit("windBonus");
            assert("physicalBonus"@.len() != "windBonus"@.len());
            reveal_strlit("rockBonus");
            assert("physicalBonus"@.len() != "rockBonus"@.len());
        },
        ArtifactStatName::DendroBonus => {
            reveal_strlit("dendroBonus");
            reveal_strlit("cureEffect");
            assert("dendroBonus"@.len() != "cureEffect"@.len());
            reveal_strlit("criticalDamage");
            assert("dendroBonus"@.len() != "criticalDamage"@.len());
            reveal_strlit("critical");
            assert("dendroBonus"@.len() != "critical"@.len());
            reveal_strlit("attackStatic");
            assert("dendroBonus"@.len() != "attackStatic"@.len());
            reveal_strlit("attackPercentage");
            assert("dendroBonus"@.len() != "attackPercentage"@.len());
            reveal_strlit("elementalMastery");
            assert("dendroBonus"@.len() != "elementalMastery"@.len());
            reveal_strlit("recharge");
            assert("dendroBonus"@.len() != "recharge"@.len());
            reveal_strlit("lifePercentage");
            assert("dendroBonus"@.len() != "lifePercentage"@.len());
            reveal_strlit("lifeStatic");
            assert("dendroBonus"@.len() != "lifeStatic"@.len());
            reveal_strlit("defendPercentage");
            assert("dendroBonus"@.len() != "defendPercentage"@.len());
            reveal_strlit("defendStatic");
            assert("dendroBonus"@.len() != "defendStatic"@.len());
            reveal_strlit("thunderBonus");
            assert("dendroBonus"@.len() != "thunderBonus"@.len());
            reveal_strlit("fireBonus");
            assert("dendroBonus"@.len() != "fireBonus"@.len());
            reveal_strlit("waterBonus");
            assert("dendroBonus"@.len() != "waterBonus"@.len());
            reveal_strlit("iceBonus");
            assert("dendroBonus"@.len() != "iceBonus"@.len());
            reveal_strlit("windBonus");
            assert("dendroBonus"@.len() != "windBonus"@.len());
            reveal_strlit("rockBonus");
            assert("dendroBonus"@.len() != "rockBonus"@.len());
            reveal_strlit("physicalBonus");
            assert("dendroBonus"@.len() != "physicalBonus"@.len());
        },
    }
}

/// The slot that a Mona key names, as the Mona format defines its keys.
pub open spec fn mona_slot_of_key(key: Seq<char>) -> Option<ArtifactSlot> {
    if key == "flower"@ {
        Some(ArtifactSlot::Flower)
    } else if key == "feather"@ {
        Some(ArtifactSlot::Feather)
    } else if key == "sand"@ {
        Some(ArtifactSlot::Sand)
    } else if key == "cup"@ {
        Some(ArtifactSlot::Goblet)
    } else if key == "head"@ {
        Some(ArtifactSlot::Head)
    } else {
        None
    }
}

/// Each slot has its own Mona key, the one the format knows it by:
/// reading the key back gives the slot.
pub proof fn law_mona_slot_keys_read_back(k: ArtifactSlot)
    ensures
        mona_slot_of_key(slot_mona_key(k)) == Some(k),
{
    match k {
        ArtifactSlot::Flower => {
            reveal_strlit("flower");
        },
        ArtifactSlot::Feather => {
            reveal_strlit("feather");
            reveal_strlit("flower");
            assert("feather"@.len() != "flower"@.len());
        },
        ArtifactSlot::Sand => {
            reveal_strlit("sand");
            reveal_strlit("flower");
            assert("sand"@.len() != "flower"@.len());
            reveal_strlit("feather");
            assert("sand"@.len() != "feather"@.len());
        },
        ArtifactSlot::Goblet => {
            reveal_strlit("cup");
            reveal_strlit("flower");
            assert("cup"@.len() != "flower"@.len());
            reveal_strlit("feather");
            assert("cup"@.len() != "feather"@.len());
            reveal_strlit("sand");
            assert("cup"@.len() != "sand"@.len());
        },
        ArtifactSlot::Head => {
            reveal_strlit("head");
            reveal_strlit("flower");
            assert("head"@.len() != "flower"@.len());
            reveal_strlit("feather");
            assert("head"@.len() != "feather"@.len());
            reveal_strlit("sand");
            assert("head"@[0] != "sand"@[0]);
            reveal_strlit("cup");
            assert("head"@.len() != "cup"@.len());
        },
    }
}


/// A sub-stat line is plausible, in thousandths of the value shown, when
/// an active stat is at most what five rolls reach (1800 HP, 120 attack,
/// 140 defence or Elemental Mastery, 36% HP or attack, 44% defence, 39%
/// Energy Recharge, 24% CRIT Rate, 47% CRIT DMG) and a pending one lies in
/// the range of one roll; other kinds are never sub-stats.
pub proof fn law_substat_plausibility_bounds(stat: ArtifactStat)
    ensures
        plausible_substat(stat, false) <==> ({
            let n = value_num(stat.value);
            let t = pow10(stat.value.scale as nat) as int;
            match stat.name {
                ArtifactStatName::Hp => n * 1000 <= 1800000 * t,
                ArtifactStatName::Atk => n * 1000 <= 120000 * t,
                ArtifactStatName::Def => n * 1000 <= 140000 * t,
                ArtifactStatName::HpPercentage | ArtifactStatName::AtkPercentage => n * 1000 <= 360 * t,
                ArtifactStatName::DefPercentage => n * 1000 <= 440 * t,
                ArtifactStatName::ElementalMastery => n * 1000 <= 140000 * t,
                ArtifactStatName::Recharge => n * 1000 <= 390 * t,
                ArtifactStatName::Critical => n * 1000 <= 240 * t,
                ArtifactStatName::CriticalDamage => n * 1000 <= 470 * t,
                _ => false,
            }
        }),
        plausible_substat(stat, true) <==> ({
            let n = value_num(stat.value);
            let t = pow10(stat.value.scale as nat) as int;
            match stat.name {
                ArtifactStatName::Hp => 200000 * t <= n * 1000 && n * 1000 <= 310000 * t,
                ArtifactStatName::Atk => 13000 * t <= n * 1000 && n * 1000 <= 20000 * t,
                ArtifactStatName::Def => 15000 * t <= n * 1000 && n * 1000 <= 24000 * t,
                ArtifactStatName::HpPercentage | ArtifactStatName::AtkPercentage => 40 * t <= n * 1000 && n * 1000 <= 60 * t,
                ArtifactStatName::DefPercentage => 50 * t <= n * 1000 && n * 1000 <= 75 * t,
                ArtifactStatName::ElementalMastery => 15000 * t <= n * 1000 && n * 1000 <= 24000 * t,
                ArtifactStatName::Recharge => 44 * t <= n * 1000 && n * 1000 <= 66 * t,
                ArtifactStatName::Critical => 26 * t <= n * 1000 && n * 1000 <= 40 * t,
                ArtifactStatName::CriticalDamage => 53 * t <= n * 1000 && n * 1000 <= 79 * t,
                _ => false,
            }
        }),
{
    assert(pow10(0) == 1 && pow10(2) == 100 && pow10(3) == 1000) by {
        reveal_with_fuel(pow10, 4);
    }
}

/// The main stat values that only a five-star artifact at its highest
/// level shows, as the panel writes them: exactly these nine.
pub proof fn law_highest_level_main_values(v: Seq<char>)
    ensures
        five_star_max_main_value(v) <==> (v == "4780"@ || v == "311"@ || v == "46.6%"@ || v == "58.3%"@
            || v == "187"@ || v == "51.8%"@ || v == "31.1%"@ || v == "62.2%"@ || v == "35.9%"@),
{
}

} // verus!
