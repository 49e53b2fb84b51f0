use vstd::prelude::*;

use crate::artifact::{artifact_from_scan, GenshinArtifact, GenshinArtifactView};
use crate::catalog::ArtifactCatalog;
use crate::scan::GenshinArtifactScanResult;
use crate::stat::{stat_from_text, ArtifactStat};
use crate::text::{decimal_digits, push_decimal, push_str, str_equal};

verus! {

broadcast use vstd::string::group_string_axioms;

/// Whether two scans show the same panel, whatever their lock state.
pub open spec fn same_panel(a: GenshinArtifactScanResult, b: GenshinArtifactScanResult) -> bool {
    &&& a.name@ == b.name@
    &&& a.main_stat_name@ == b.main_stat_name@
    &&& a.main_stat_value@ == b.main_stat_value@
    &&& forall|i: int| 0 <= i < 4 ==> #[trigger] a.sub_stat@[i]@ == b.sub_stat@[i]@
    &&& a.sub_stat_active@ == b.sub_stat_active@
    &&& a.equip@ == b.equip@
    &&& a.level == b.level
    &&& a.star == b.star
}

/// Whether scan `i` shows a panel an earlier scan showed.
pub open spec fn seen_before(scans: Seq<GenshinArtifactScanResult>, i: int) -> bool {
    exists|j: int| 0 <= j < i && same_panel(#[trigger] scans[j], scans[i])
}

/// Whether a scan shows a sub-stat row that is not yet active.
pub open spec fn shows_pending(scan: GenshinArtifactScanResult) -> bool {
    exists|k: int| 0 <= k < 4 && !(#[trigger] scan.sub_stat_active@[k])
}

/// Whether row `k` of a scan is active, shows text, and does not read as a
/// stat.
pub open spec fn malformed_row(scan: GenshinArtifactScanResult, k: int) -> bool {
    scan.sub_stat_active@[k] && scan.sub_stat@[k]@.len() > 0 && stat_from_text(scan.sub_stat@[k]@) is None
}

/// `item <i+1> substat <k+1>: `<text>``.
pub open spec fn malformed_note(i: nat, k: nat, text: Seq<char>) -> Seq<char> {
    "item "@ + decimal_digits(i + 1) + " substat "@ + decimal_digits(k + 1) + ": `"@ + text + "`"@
}

/// The audit of the first `n` scans: numbers (from one) of the scans whose
/// panel was seen before, how many scans show a pending row, notes on the
/// malformed active rows, the artifacts built, and the numbers of the scans
/// that could not be built.
pub struct AuditView {
    pub duplicates: Seq<usize>,
    pub pending: nat,
    pub malformed: Seq<Seq<char>>,
    pub artifacts: Seq<GenshinArtifactView>,
    pub unresolved: Seq<usize>,
}

pub open spec fn malformed_notes(scan: GenshinArtifactScanResult, i: nat, rows: nat) -> Seq<Seq<char>>
    decreases rows,
{
    if rows == 0 {
        seq![]
    } else {
        let k = (rows - 1) as nat;
        let before = malformed_notes(scan, i, k);
        if malformed_row(scan, k as int) {
            before.push(malformed_note(i, k, scan.sub_stat@[k as int]@))
        } else {
            before
        }
    }
}

pub open spec fn audit_upto(scans: Seq<GenshinArtifactScanResult>, catalog: ArtifactCatalog, n: nat) -> AuditView
    decreases n,
{
    if n == 0 {
        AuditView { duplicates: seq![], pending: 0, malformed: seq![], artifacts: seq![], unresolved: seq![] }
    } else {
        let i = (n - 1) as nat;
        let a = audit_upto(scans, catalog, i);
        let s = scans[i as int];
        AuditView {
            duplicates: if seen_before(scans, i as int) {
                a.duplicates.push((i + 1) as usize)
            } else {
                a.duplicates
            },
            pending: if shows_pending(s) {
                a.pending + 1
            } else {
                a.pending
            },
            malformed: a.malformed + malformed_notes(s, i, 4),
            artifacts: match artifact_from_scan(s, catalog) {
                Ok(v) => a.artifacts.push(v),
                Err(_) => a.artifacts,
            },
            unresolved: match artifact_from_scan(s, catalog) {
                Ok(_) => a.unresolved,
                Err(_) => a.unresolved.push((i + 1) as usize),
            },
        }
    }
}

/// What an audit of scans found.
pub struct ScanAudit {
    pub duplicate_panel_indices: Vec<usize>,
    pub pending_count: usize,
    pub malformed_substats: Vec<String>,
    pub artifacts: Vec<GenshinArtifact>,
    pub unresolved: Vec<usize>,
}

pub open spec fn strings_view(v: Seq<String>) -> Seq<Seq<char>> {
    v.map_values(|s: String| s@)
}

pub open spec fn artifacts_view(v: Seq<GenshinArtifact>) -> Seq<GenshinArtifactView> {
    v.map_values(|a: GenshinArtifact| a@)
}

/// Whether two scans show the same panel, whatever their lock state.
pub fn panels_equal(a: &GenshinArtifactScanResult, b: &GenshinArtifactScanResult) -> (r: bool)
    ensures
        r == same_panel(*a, *b),
{
    let mut rows_equal = true;
    let mut i: usize = 0;
    while i < 4
        invariant
            i <= 4,
            rows_equal == forall|k: int| 0 <= k < i ==> #[trigger] a.sub_stat@[k]@ == b.sub_stat@[k]@,
        decreases 4 - i,
    {
        if !str_equal(a.sub_stat[i].as_str(), b.sub_stat[i].as_str()) {
            rows_equal = false;
        }
        i = i + 1;
    }
    let active_equal = a.sub_stat_active[0] == b.sub_stat_active[0] && a.sub_stat_active[1]
        == b.sub_stat_active[1] && a.sub_stat_active[2] == b.sub_stat_active[2] && a.sub_stat_active[3]
        == b.sub_stat_active[3];
    assert(active_equal == (a.sub_stat_active@ =~= b.sub_stat_active@));
    str_equal(a.name.as_str(), b.name.as_str()) && str_equal(
        a.main_stat_name.as_str(),
        b.main_stat_name.as_str(),
    ) && str_equal(a.main_stat_value.as_str(), b.main_stat_value.as_str()) && rows_equal
        && active_equal && str_equal(a.equip.as_str(), b.equip.as_str()) && a.level == b.level
        && a.star == b.star
}

fn seen_earlier(scans: &[GenshinArtifactScanResult], i: usize) -> (r: bool)
    requires
        i < scans@.len(),
    ensures
        r == seen_before(scans@, i as int),
{
    let mut j: usize = 0;
    while j < i
        invariant
            j <= i,
            i < scans@.len(),
            forall|k: int| 0 <= k < j ==> !same_panel(#[trigger] scans@[k], scans@[i as int]),
        decreases i - j,
    {
        if panels_equal(&scans[j], &scans[i]) {
            return true;
        }
        j = j + 1;
    }
    false
}

fn push_malformed_notes(out: &mut Vec<String>, scan: &GenshinArtifactScanResult, i: usize)
    requires
        i < usize::MAX,
    ensures
        strings_view(final(out)@) == strings_view(old(out)@) + malformed_notes(*scan, i as nat, 4),
{
    let ghost start = strings_view(out@);
    let mut k: usize = 0;
    while k < 4
        invariant
            k <= 4,
            i < usize::MAX,
            strings_view(out@) == start + malformed_notes(*scan, i as nat, k as nat),
        decreases 4 - k,
    {
        let raw = scan.sub_stat[k].as_str();
        let ghost before = out@;
        if scan.sub_stat_active[k] && !raw.is_empty() && ArtifactStat::from_zh_cn_raw(raw).is_none() {
            let mut note = "item ".to_owned();
            push_decimal(&mut note, i + 1);
            push_str(&mut note, " substat ");
            push_decimal(&mut note, k + 1);
            push_str(&mut note, ": `");
            push_str(&mut note, raw);
            push_str(&mut note, "`");
            out.push(note);
            assert(strings_view(out@) =~= strings_view(before).push(
                malformed_note(i as nat, k as nat, scan.sub_stat@[k as int]@),
            ));
        }
        k = k + 1;
    }
}

/// Audits a scanning run (see `audit_upto`): duplicate panels, pending
/// rows, malformed active rows, and which scans build artifacts.
pub fn audit_scans(scans: &[GenshinArtifactScanResult], catalog: &ArtifactCatalog) -> (r: ScanAudit)
    requires
        scans@.len() < usize::MAX,
    ensures
        ({
            let a = audit_upto(scans@, *catalog, scans@.len());
            &&& r.duplicate_panel_indices@ == a.duplicates
            &&& r.pending_count == a.pending
            &&& strings_view(r.malformed_substats@) == a.malformed
            &&& artifacts_view(r.artifacts@) == a.artifacts
            &&& r.unresolved@ == a.unresolved
        }),
{
    let mut duplicates: Vec<usize> = Vec::new();
    let mut pending: usize = 0;
    let mut malformed: Vec<String> = Vec::new();
    let mut artifacts: Vec<GenshinArtifact> = Vec::new();
    let mut unresolved: Vec<usize> = Vec::new();
    let mut i: usize = 0;
    while i < scans.len()
        invariant
            i <= scans@.len(),
            scans@.len() < usize::MAX,
            pending <= i,
            ({
                let a = audit_upto(scans@, *catalog, i as nat);
                &&& duplicates@ == a.duplicates
                &&& pending == a.pending
                &&& strings_view(malformed@) == a.malformed
                &&& artifacts_view(artifacts@) == a.artifacts
                &&& unresolved@ == a.unresolved
            }),
        decreases scans@.len() - i,
    {
        let scan = &scans[i];
        if seen_earlier(scans, i) {
            duplicates.push(i + 1);
        }
        let any_pending = !scan.sub_stat_active[0] || !scan.sub_stat_active[1] || !scan.sub_stat_active[2]
            || !scan.sub_stat_active[3];
        proof {
            if any_pending {
                if !scan.sub_stat_active@[0] {
                    assert(!scan.sub_stat_active@[0]);
                } else if !scan.sub_stat_active@[1] {
                    assert(!scan.sub_stat_active@[1]);
                } else if !scan.sub_stat_active@[2] {
                    assert(!scan.sub_stat_active@[2]);
                } else {
                    assert(!scan.sub_stat_active@[3]);
                }
            }
            assert(any_pending == shows_pending(*scan));
        }
        if any_pending {
            pending = pending + 1;
        }
        push_malformed_notes(&mut malformed, scan, i);
        let ghost before = artifacts@;
        match GenshinArtifact::from_scan_result(scan, catalog) {
            Ok(a) => {
                artifacts.push(a);
                assert(artifacts_view(artifacts@) =~= artifacts_view(before).push(a@));
            },
            Err(()) => {
                unresolved.push(i + 1);
            },
        }
        i = i + 1;
    }
    ScanAudit {
        duplicate_panel_indices: duplicates,
        pending_count: pending,
        malformed_substats: malformed,
        artifacts,
        unresolved,
    }
}

} // verus!
