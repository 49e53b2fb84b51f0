use vstd::prelude::*;

use crate::traversal::ScrollOutcome;

verus! {

/// How many changed frames a switch needs at the fastest speed setting.
pub const SWITCH_FRAMES_AT_SPEED_ZERO: u32 = 6;

/// Whether enough changed frames were seen: at switch speed `speed`, a
/// switch counts once `consecutive_frames + speed` reaches six.
pub fn switch_frame_ready(consecutive_frames: u32, speed: u32) -> (r: bool)
    requires
        consecutive_frames + speed <= u32::MAX,
    ensures
        r == (consecutive_frames + speed >= SWITCH_FRAMES_AT_SPEED_ZERO),
{
    consecutive_frames + speed >= SWITCH_FRAMES_AT_SPEED_ZERO
}

/// How long to wait for an item switch: the configured time, never negative.
/// The speed setting decides how many changed frames are needed, not how
/// long a slow switch may take.
pub fn effective_switch_timeout(max_wait_ms: i32) -> (r: u128)
    ensures
        r == (if max_wait_ms >= 0 { max_wait_ms as int } else { 0 }),
{
    if max_wait_ms >= 0 {
        max_wait_ms as u128
    } else {
        0
    }
}

/// Where a walk along `mask` from `index` in steps of `direction` ends: the
/// last set position met before more than `max_missed` unset positions in
/// a row, or before the edge (`last` is what was met so far, `missed` the
/// unset positions since).
pub open spec fn track_end(
    mask: Seq<bool>,
    index: int,
    direction: int,
    max_missed: nat,
    missed: nat,
    last: Option<nat>,
) -> Option<nat>
    decreases (if direction > 0 { mask.len() - index } else { index + 1 }),
{
    if index < 0 || index >= mask.len() || (direction != 1 && direction != -1) {
        last
    } else if mask[index] {
        track_end(mask, index + direction, direction, max_missed, 0, Some(index as nat))
    } else if missed + 1 > max_missed {
        last
    } else {
        track_end(mask, index + direction, direction, max_missed, missed + 1, last)
    }
}

/// Follows the scrollbar rail from `start` in `direction` (one row up or
/// down), across gaps of at most `max_missed` rows where the rail cannot be
/// seen, and answers the last row where it was seen.
pub fn extend_scrollbar_track(mask: &[bool], start: i32, direction: i32, max_missed: usize) -> (r:
    Option<u32>)
    requires
        direction == 1 || direction == -1,
        mask@.len() <= i32::MAX,
    ensures
        r matches Some(v) ==> track_end(mask@, start as int, direction as int, max_missed as nat, 0, None)
            == Some(v as nat),
        r is None ==> track_end(mask@, start as int, direction as int, max_missed as nat, 0, None)
            is None,
{
    let mut index = start;
    let mut missed: usize = 0;
    let mut last_match: Option<u32> = None;
    while index >= 0 && (index as usize) < mask.len()
        invariant
            direction == 1 || direction == -1,
            mask@.len() <= i32::MAX,
            missed <= max_missed,
            last_match matches Some(v) ==> v < mask@.len(),
            track_end(mask@, start as int, direction as int, max_missed as nat, 0, None) == track_end(
                mask@,
                index as int,
                direction as int,
                max_missed as nat,
                missed as nat,
                match last_match {
                    Some(v) => Some(v as nat),
                    None => None,
                },
            ),
        ensures
            track_end(mask@, start as int, direction as int, max_missed as nat, 0, None) == match last_match {
                Some(v) => Some(v as nat),
                None => None,
            },
        decreases (if direction > 0 { mask@.len() - index } else { index + 1 }),
    {
        if mask[index as usize] {
            last_match = Some(index as u32);
            missed = 0;
        } else {
            if missed >= max_missed {
                break;
            }
            missed = missed + 1;
        }
        index = index + direction;
    }
    last_match
}

/// The rows a calibration scroll moves before fast scrolling may be used.
pub const FAST_SCROLL_CALIBRATION_ROWS: u32 = 3;

/// The least pixel tolerance when matching a scrolled row.
pub const FAST_SCROLL_ROW_PITCH_TOLERANCE: u32 = 8;

/// Whether a page scroll may use the fast method: only on the artifact
/// page, for at least three rows, once calibration has measured rows, and
/// for a full page or when more than two pages remain.
pub open spec fn fast_scroll_allowed(
    is_artifact: bool,
    rows: nat,
    columns: nat,
    scrolled_rows: nat,
    calibrated: bool,
    remaining_items: nat,
    scroll_rows: nat,
) -> bool {
    let page_size = rows * columns;
    let is_full_page = scroll_rows >= rows && remaining_items >= page_size;
    is_artifact && scroll_rows >= 3 && scrolled_rows >= FAST_SCROLL_CALIBRATION_ROWS && calibrated && (
    is_full_page || remaining_items > page_size * 2)
}

/// Whether a page scroll may use the fast method (see
/// `fast_scroll_allowed`); `calibrated` tells whether a per-row scroll
/// amount has been measured.
pub fn can_fast_scroll(
    is_artifact: bool,
    rows: usize,
    columns: usize,
    scrolled_rows: u32,
    calibrated: bool,
    remaining_items: usize,
    scroll_rows: usize,
) -> (r: bool)
    requires
        rows * columns * 2 <= usize::MAX,
    ensures
        r == fast_scroll_allowed(
            is_artifact,
            rows as nat,
            columns as nat,
            scrolled_rows as nat,
            calibrated,
            remaining_items as nat,
            scroll_rows as nat,
        ),
{
    assert(rows * columns <= rows * columns * 2) by (nonlinear_arith)
        requires
            rows * columns >= 0,
    ;
    let page_size = rows * columns;
    let is_full_page = scroll_rows >= rows && remaining_items >= page_size;
    is_artifact && scroll_rows >= 3 && scrolled_rows >= FAST_SCROLL_CALIBRATION_ROWS && calibrated && (
    is_full_page || remaining_items > page_size * 2)
}

/// How far a matched row may lie from the expected row pitch: an eighth of
/// the pitch, and never under eight pixels.
pub fn row_pitch_tolerance(row_pitch: u32) -> (r: u32)
    ensures
        r == (if row_pitch / 8 >= FAST_SCROLL_ROW_PITCH_TOLERANCE {
            row_pitch / 8
        } else {
            FAST_SCROLL_ROW_PITCH_TOLERANCE
        }),
{
    if row_pitch / 8 >= FAST_SCROLL_ROW_PITCH_TOLERANCE {
        row_pitch / 8
    } else {
        FAST_SCROLL_ROW_PITCH_TOLERANCE
    }
}

/// How often a row scrolled up may report the end of the grid before the
/// scroll counts as failed.
pub const END_RETRIES_PER_ROW: u32 = 2;

/// What a scroll of several rows, one row at a time, does next.
#[derive(Clone, Copy, Debug, PartialEq, Eq, Structural)]
pub enum RowScrollStep {
    /// Scroll one more row.
    ScrollOne,
    /// Wait a moment, then scroll the same row again.
    WaitAndRetry,
    /// The scroll is over, as the outcome says.
    Done(ScrollOutcome),
}

/// A scroll of several rows, one row at a time: down, where any row that
/// does not move ends it; or up, where a row may first report the end of
/// the grid a few times (the game still settling) before that ends it.
pub struct RowScroller {
    remaining: usize,
    up: bool,
    retries: u32,
}

/// What a row scroller holds: the rows left, the direction, and the end
/// reports of the current row.
pub struct RowScrollerView {
    pub remaining: nat,
    pub up: bool,
    pub retries: nat,
}

impl View for RowScroller {
    type V = RowScrollerView;

    closed spec fn view(&self) -> RowScrollerView {
        RowScrollerView { remaining: self.remaining as nat, up: self.up, retries: self.retries as nat }
    }
}

impl RowScroller {
    /// A scroll of `count` rows (none when `count` is not positive).
    pub fn new(count: i32, up: bool) -> (r: Self)
        ensures
            r@ == (RowScrollerView {
                remaining: if count > 0 { count as nat } else { 0 },
                up,
                retries: 0,
            }),
    {
        RowScroller { remaining: if count > 0 { count as usize } else { 0 }, up, retries: 0 }
    }

    /// The first step.
    pub fn start(&self) -> (r: RowScrollStep)
        ensures
            r == (if self@.remaining == 0 {
                RowScrollStep::Done(ScrollOutcome::Success)
            } else {
                RowScrollStep::ScrollOne
            }),
    {
        if self.remaining == 0 {
            RowScrollStep::Done(ScrollOutcome::Success)
        } else {
            RowScrollStep::ScrollOne
        }
    }

    /// The step after the current row scrolled with `outcome`: a moved row
    /// counts and the next one follows (or the scroll succeeds); scrolling up,
    /// a report of the end is retried up to `END_RETRIES_PER_ROW` times;
    /// anything else ends the scroll with that outcome.
    pub fn next(&mut self, outcome: ScrollOutcome) -> (r: RowScrollStep)
        requires
            old(self)@.remaining > 0,
        ensures
            final(self)@.up == old(self)@.up,
            (outcome == ScrollOutcome::Success || outcome == ScrollOutcome::Skip) ==> {
                &&& final(self)@.remaining == old(self)@.remaining - 1
                &&& final(self)@.retries == 0
                &&& r == (if final(self)@.remaining == 0 {
                    RowScrollStep::Done(ScrollOutcome::Success)
                } else {
                    RowScrollStep::ScrollOne
                })
            },
            (outcome == ScrollOutcome::EndReached && old(self)@.up && old(self)@.retries
                < END_RETRIES_PER_ROW) ==> {
                &&& final(self)@.remaining == old(self)@.remaining
                &&& final(self)@.retries == old(self)@.retries + 1
                &&& r == RowScrollStep::WaitAndRetry
            },
            !(outcome == ScrollOutcome::Success || outcome == ScrollOutcome::Skip || (outcome
                == ScrollOutcome::EndReached && old(self)@.up && old(self)@.retries < END_RETRIES_PER_ROW))
                ==> r == RowScrollStep::Done(outcome),
    {
        match outcome {
            ScrollOutcome::Success | ScrollOutcome::Skip => {
                self.remaining = self.remaining - 1;
                self.retries = 0;
                if self.remaining == 0 {
                    RowScrollStep::Done(ScrollOutcome::Success)
                } else {
                    RowScrollStep::ScrollOne
                }
            },
            ScrollOutcome::EndReached => {
                if self.up && self.retries < END_RETRIES_PER_ROW {
                    self.retries = self.retries + 1;
                    RowScrollStep::WaitAndRetry
                } else {
                    RowScrollStep::Done(outcome)
                }
            },
            _ => RowScrollStep::Done(outcome),
        }
    }
}

} // verus!
