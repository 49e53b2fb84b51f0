use vstd::prelude::*;

use vstd::arithmetic::div_mod::lemma_fundamental_div_mod;

verus! {

/// How a repository traversal ended without an error.
#[derive(Clone, Copy, Debug, PartialEq, Eq, Structural)]
pub enum ReturnResult {
    Interrupted,
    Finished,
}

/// How a requested scroll went, as the scrolling code reports it.
#[derive(Clone, Copy, Debug, PartialEq, Eq, Structural)]
pub enum ScrollOutcome {
    Success,
    Skip,
    EndReached,
    Interrupt,
    TimeLimitExceeded,
    FocusLost,
    Failed,
}

/// Why a traversal stopped with an error.
#[derive(Clone, Copy, Debug, PartialEq, Eq, Structural)]
pub enum TraversalError {
    /// A page scroll did not line up in time.
    ScrollTimedOut,
    /// The game lost the foreground while scrolling.
    FocusLost,
    /// A page scroll failed.
    ScrollFailed,
    /// The bottom page does not start a whole number of rows after what was
    /// already scanned.
    UnalignedFinalPage { scanned: usize, bottom_start: usize },
    /// Scrolling back to the rows above the bottom page did not succeed.
    RecoveryFailed(ScrollOutcome),
    /// Advancing through the bottom rows did not succeed.
    AdvanceFailed { viewport_start: usize, outcome: ScrollOutcome },
}

/// What the caller reports back to the traversal.
#[derive(Clone, Copy, Debug, PartialEq, Eq, Structural)]
pub enum TraversalEvent {
    /// The traversal is about to begin (the grid shows its first row).
    Start,
    /// The requested item was selected and read.
    Selected,
    /// The requested scroll ended so.
    Scrolled(ScrollOutcome),
}

/// What the caller is to do next.
#[derive(Clone, Copy, Debug, PartialEq, Eq, Structural)]
pub enum TraversalAction {
    /// Select the item at this row and column of the visible grid.
    Select { row: usize, col: usize },
    /// Scroll the grid down by `rows` rows; `remaining` items are left.
    Scroll { rows: usize, remaining: usize },
    /// Scroll the grid up by `rows` rows.
    ScrollUp { rows: usize },
    /// Scroll the grid down by one row.
    ScrollOneRow,
    /// The traversal is over.
    Done(ReturnResult),
    /// The traversal stopped with an error.
    Fail(TraversalError),
}

/// What the traversal waits for.
#[derive(Clone, Copy, Debug, PartialEq, Eq, Structural)]
pub enum Pending {
    Start,
    Selection,
    PageScroll(usize),
    ScrollUp(usize),
    ScrollOne,
    Nothing,
}

#[derive(Clone, Copy, Debug, PartialEq, Eq, Structural)]
enum Phase {
    Ready,
    Page,
    Scrolling,
    ScrollingUp,
    Recovering,
    Advancing,
    Stopped,
}

/// The order in which a repository grid of `item_count` items, `columns`
/// wide, is visited when `visible_rows` rows can be clicked at a time: row
/// by row, page by page, and at the bottom of the grid, where the game
/// shows one row fewer, by the rows it then shows.
pub struct RepositoryTraversal {
    item_count: usize,
    columns: usize,
    visible_rows: usize,
    max_row: usize,
    total_row: usize,
    last_row_col: usize,
    loop_rows: usize,
    scanned_count: usize,
    scanned_row: usize,
    start_row: usize,
    row: usize,
    col: usize,
    scroll_rows: usize,
    top_row: usize,
    viewport_start: usize,
    bottom_start: usize,
    target_end: usize,
    page_first_scanned_count: usize,
    scan_start_row: usize,
    phase: Phase,
}

/// What a traversal stands for: the grid, how far it has come, the grid row
/// shown at the top of the visible rows, and what it waits for.
pub struct TraversalView {
    pub item_count: nat,
    pub columns: nat,
    pub visible_rows: nat,
    pub max_row: nat,
    pub scanned_count: nat,
    pub scanned_rows: nat,
    pub top_row: nat,
    pub pending: Pending,
    /// How many items had been selected when the current page (or the run
    /// of bottom rows now being selected) began.
    pub page_first: nat,
    /// The visible row of the first item selected on the current page.
    pub page_start_row: nat,
}

/// The page marks stay as they were.
pub open spec fn marks_kept(old: TraversalView, new: TraversalView) -> bool {
    new.page_first == old.page_first && new.page_start_row == old.page_start_row
}

/// How the page marks follow a step: a selection that opens a page
/// (`opens`) marks it, as beginning with the item now selected at that
/// selection's row; any other action keeps them.
pub open spec fn page_marks(old: TraversalView, new: TraversalView, a: TraversalAction, opens: bool) -> bool {
    match a {
        TraversalAction::Select { row, .. } => if opens {
            new.page_first == new.scanned_count && new.page_start_row == row
        } else {
            marks_kept(old, new)
        },
        _ => marks_kept(old, new),
    }
}

/// The number of grid rows, `ceil(item_count / columns)`.
pub open spec fn total_rows(item_count: nat, columns: nat) -> nat {
    ((item_count + columns - 1) / (columns as int)) as nat
}

/// The grid row shown at the top when the grid is scrolled to its end: the
/// game then shows `visible_rows - 1` whole rows.
pub open spec fn bottom_row(item_count: nat, columns: nat, visible_rows: nat) -> nat {
    let total = total_rows(item_count, columns);
    let shown = if visible_rows >= 1 { (visible_rows - 1) as nat } else { 0 };
    if total >= shown { (total - shown) as nat } else { 0 }
}

/// The item shown at `row`, `col` of the visible grid.
pub open spec fn shown_item(top_row: nat, columns: nat, row: nat, col: nat) -> nat {
    (top_row + row) * columns + col
}

/// Whether a scroll outcome counts as having moved as asked.
pub open spec fn scroll_ok(o: ScrollOutcome) -> bool {
    o == ScrollOutcome::Success || o == ScrollOutcome::Skip
}

/// The error a failed page scroll stops with, if it is one.
pub open spec fn page_scroll_error(o: ScrollOutcome) -> Option<TraversalError> {
    match o {
        ScrollOutcome::TimeLimitExceeded => Some(TraversalError::ScrollTimedOut),
        ScrollOutcome::FocusLost => Some(TraversalError::FocusLost),
        ScrollOutcome::Failed => Some(TraversalError::ScrollFailed),
        _ => None,
    }
}

/// The outcome a scroll event reports.
pub open spec fn outcome_of(e: TraversalEvent) -> ScrollOutcome {
    match e {
        TraversalEvent::Scrolled(o) => o,
        _ => ScrollOutcome::Failed,
    }
}

/// Whether the event reports a scroll that moved as asked.
pub open spec fn scrolled_ok(e: TraversalEvent) -> bool {
    e is Scrolled && scroll_ok(outcome_of(e))
}

/// Whether the event reports a one-row scroll that moved, or that reached
/// the end of the grid.
pub open spec fn advances(e: TraversalEvent) -> bool {
    e is Scrolled && (scroll_ok(outcome_of(e)) || outcome_of(e) == ScrollOutcome::EndReached)
}

/// The error a failed page scroll event stops with, if it is one.
pub open spec fn page_failure(e: TraversalEvent) -> Option<TraversalError> {
    if e is Scrolled {
        page_scroll_error(outcome_of(e))
    } else {
        None
    }
}

/// The rows a pending scroll asked for.
pub open spec fn pending_rows(p: Pending) -> nat {
    match p {
        Pending::PageScroll(rows) => rows as nat,
        Pending::ScrollUp(rows) => rows as nat,
        _ => 0,
    }
}

/// What holds of every action the traversal asks for, in the state it is
/// then in: a selection names, in the visible grid counted from the grid
/// row shown on top, exactly the next unselected item; a page scroll asks
/// for the rows still to come, at most a page; a scroll back up returns to
/// the first unselected item; finishing means every item was selected or
/// the row limit was reached.
pub open spec fn action_law(v: TraversalView, a: TraversalAction) -> bool {
    &&& v.pending == pending_of(a)
    &&& a matches TraversalAction::Select { row, col } ==> row < v.visible_rows && col < v.columns
        && shown_item(v.top_row, v.columns, row as nat, col as nat) == v.scanned_count
        && v.scanned_count < v.item_count
    &&& a matches TraversalAction::Scroll { rows, remaining } ==> remaining == v.item_count
        - v.scanned_count && remaining > 0 && 1 <= rows <= v.visible_rows && rows == (if total_rows(
        remaining as nat,
        v.columns,
    ) <= v.visible_rows {
        total_rows(remaining as nat, v.columns)
    } else {
        v.visible_rows
    })
    &&& a matches TraversalAction::ScrollUp { rows } ==> rows >= 1 && v.scanned_count + rows
        * v.columns == v.top_row * v.columns
    &&& a == TraversalAction::Done(ReturnResult::Finished) ==> v.scanned_count == v.item_count
        || v.scanned_rows >= v.max_row
}

/// Whether the traversal waits for this event.
pub open spec fn accepts(p: Pending, e: TraversalEvent) -> bool {
    match p {
        Pending::Start => e == TraversalEvent::Start,
        Pending::Selection => e == TraversalEvent::Selected,
        Pending::PageScroll(_) | Pending::ScrollUp(_) | Pending::ScrollOne => e is Scrolled,
        Pending::Nothing => false,
    }
}

/// What an action leaves the traversal waiting for.
pub open spec fn pending_of(a: TraversalAction) -> Pending {
    match a {
        TraversalAction::Select { .. } => Pending::Selection,
        TraversalAction::Scroll { rows, .. } => Pending::PageScroll(rows),
        TraversalAction::ScrollUp { rows } => Pending::ScrollUp(rows),
        TraversalAction::ScrollOneRow => Pending::ScrollOne,
        TraversalAction::Done(_) | TraversalAction::Fail(_) => Pending::Nothing,
    }
}

proof fn lemma_rows(n: int, c: int)
    requires
        n >= 0,
        c >= 1,
    ensures
        ({
            let t = (n + c - 1) / c;
            let last = if n % c == 0 { c } else { n % c };
            &&& t >= 0
            &&& t * c >= n
            &&& t * c <= n + c - 1
            &&& n == 0 ==> t == 0
            &&& n > 0 ==> t >= 1 && (t - 1) * c < n && (t - 1) * c + last == n
            &&& 1 <= last <= c
        }),
{
    let t = (n + c - 1) / c;
    lemma_fundamental_div_mod(n + c - 1, c);
    lemma_fundamental_div_mod(n, c);
    let q = n / c;
    let r = n % c;
    assert(0 <= r < c);
    assert(0 <= (n + c - 1) % c < c);
    // n + c - 1 == c*q + (r + c - 1): the quotient is q when r == 0, else q + 1.
    if r == 0 {
        assert(n + c - 1 == c * q + (c - 1));
        assert(t == q) by {
            vstd::arithmetic::div_mod::lemma_fundamental_div_mod_converse(n + c - 1, c, q, c - 1);
        }
    } else {
        assert(n + c - 1 == c * (q + 1) + (r - 1)) by (nonlinear_arith)
            requires
                n == c * q + r,
        ;
        assert(t == q + 1) by {
            vstd::arithmetic::div_mod::lemma_fundamental_div_mod_converse(n + c - 1, c, q + 1, r - 1);
        }
    }
    assert(q >= 0) by (nonlinear_arith)
        requires
            n == c * q + r,
            0 <= r < c,
            n >= 0,
            c >= 1,
    ;
    assert(t * c == c * t) by (nonlinear_arith);
    assert((t - 1) * c == c * t - c) by (nonlinear_arith);
    assert(c * (q + 1) == c * q + c) by (nonlinear_arith);
}

proof fn lemma_remaining_rows(n: int, c: int, k: int)
    requires
        n >= 0,
        c >= 1,
        k >= 0,
        k * c < n,
    ensures
        (n - k * c + c - 1) / c == (n + c - 1) / c - k,
{
    let m = n + c - 1;
    lemma_fundamental_div_mod(m, c);
    vstd::arithmetic::div_mod::lemma_mod_pos_bound(m, c);
    let q = m / c;
    let r = m % c;
    assert(m - k * c == (q - k) * c + r) by (nonlinear_arith)
        requires
            m == c * q + r,
    ;
    vstd::arithmetic::div_mod::lemma_fundamental_div_mod_converse(m - k * c, c, q - k, r);
}

proof fn lemma_position(top: int, c: int, off: int)
    requires
        top >= 0,
        c >= 1,
        off >= 0,
    ensures
        (top + off / c) * c + off % c == top * c + off,
        off / c >= 0,
        0 <= off % c < c,
{
    lemma_fundamental_div_mod(off, c);
    assert((top + off / c) * c == top * c + c * (off / c)) by (nonlinear_arith);
    assert(off / c >= 0) by (nonlinear_arith)
        requires
            off >= 0,
            c >= 1,
    ;
}

proof fn lemma_row_bound(off: int, c: int, b: int)
    requires
        c >= 1,
        off >= 0,
        off < b * c,
    ensures
        off / c < b,
{
    lemma_fundamental_div_mod(off, c);
    assert(off / c < b) by (nonlinear_arith)
        requires
            off == c * (off / c) + off % c,
            off % c >= 0,
            off < b * c,
            c >= 1,
    ;
}

proof fn lemma_mul_mono(a: int, b: int, c: int)
    requires
        c >= 0,
        a <= b,
    ensures
        a * c <= b * c,
{
    assert(a * c <= b * c) by (nonlinear_arith)
        requires
            c >= 0,
            a <= b,
    ;
}

impl View for RepositoryTraversal {
    type V = TraversalView;

    closed spec fn view(&self) -> TraversalView {
        TraversalView {
            item_count: self.item_count as nat,
            columns: self.columns as nat,
            visible_rows: self.visible_rows as nat,
            max_row: self.max_row as nat,
            scanned_count: self.scanned_count as nat,
            scanned_rows: self.scanned_row as nat,
            top_row: self.top_row as nat,
            page_first: self.page_first_scanned_count as nat,
            page_start_row: self.scan_start_row as nat,
            pending: match self.phase {
                Phase::Ready => Pending::Start,
                Phase::Page | Phase::Recovering => Pending::Selection,
                Phase::Scrolling => Pending::PageScroll(self.scroll_rows),
                Phase::ScrollingUp => Pending::ScrollUp(self.scroll_rows),
                Phase::Advancing => Pending::ScrollOne,
                Phase::Stopped => Pending::Nothing,
            },
        }
    }
}

impl RepositoryTraversal {
    spec fn bottom_rows(&self) -> int {
        self.visible_rows - 1
    }

    /// The grid row shown on top at the end of the grid.
    spec fn bottom_top(&self) -> int {
        bottom_row(self.item_count as nat, self.columns as nat, self.visible_rows as nat) as int
    }

    /// A bound on the steps left for the items not yet selected.
    spec fn work(&self) -> int {
        (5 + self.total_row) * (self.item_count - self.scanned_count)
    }

    proof fn lemma_measure_nonneg(&self)
        requires
            self.wf(),
        ensures
            self.measure() >= 0,
    {
        self.lemma_work_nonneg();
        if self.phase == Phase::Advancing {
            self.lemma_base();
            assert(self.top_row < self.bottom_top()) by (nonlinear_arith)
                requires
                    self.top_row * self.columns == self.viewport_start,
                    self.viewport_start < self.bottom_start,
                    self.bottom_start == self.bottom_top() * self.columns,
                    self.columns >= 1,
            ;
        }
    }

    /// How many more steps the traversal can take at most: every step
    /// lowers it, so a traversal ends, whatever the events.
    pub closed spec fn steps_left(&self) -> nat {
        if self.measure() >= 0 {
            self.measure() as nat
        } else {
            0
        }
    }

    proof fn lemma_work_nonneg(&self)
        requires
            self.base_inv(),
        ensures
            self.work() >= 0,
    {
        assert((5 + self.total_row) * (self.item_count - self.scanned_count) >= 0) by (nonlinear_arith)
            requires
                self.item_count >= self.scanned_count,
                self.total_row >= 0,
        ;
    }

    /// Selecting one more item lowers the work by one item's share.
    proof fn lemma_work_step(&self, before: int)
        requires
            self.scanned_count == before + 1,
        ensures
            self.work() == (5 + self.total_row) * (self.item_count - before) - (5 + self.total_row),
    {
        assert((5 + self.total_row) * (self.item_count - before) == (5 + self.total_row) * (
        self.item_count - before - 1) + (5 + self.total_row)) by (nonlinear_arith);
    }

    proof fn lemma_bottom_top_bound(&self)
        requires
            self.base_inv(),
        ensures
            0 <= self.bottom_top() <= self.total_row,
    {
    }

    proof fn lemma_top_within_bottom(&self)
        requires
            self.base_inv(),
            self.recover_inv(),
        ensures
            self.top_row <= self.bottom_top(),
    {
        assert(self.top_row <= self.bottom_top()) by (nonlinear_arith)
            requires
                self.top_row * self.columns == self.viewport_start,
                self.viewport_start <= self.bottom_start,
                self.bottom_start == self.bottom_top() * self.columns,
                self.columns >= 1,
        ;
    }

    /// A bound on the steps left: each step lowers it (see `step`).
    spec fn measure(&self) -> int {
        match self.phase {
            Phase::Stopped => 0,
            Phase::Ready => self.work() + 5 + self.total_row,
            Phase::Page => self.work() + 1,
            Phase::Scrolling => self.work() + 4 + self.total_row,
            Phase::ScrollingUp => self.work() + 3 + self.total_row,
            Phase::Recovering => self.work() + 1,
            Phase::Advancing => self.work() + 2 + (self.bottom_top() - self.top_row),
        }
    }

    spec fn row_len(&self) -> int {
        if self.scanned_row + 1 == self.total_row {
            self.last_row_col as int
        } else {
            self.columns as int
        }
    }

    spec fn base_inv(&self) -> bool {
        &&& self.phase != Phase::Stopped ==> self.scanned_row == 0 || self.scanned_row < self.max_row
        &&& self.columns >= 1
        &&& self.visible_rows >= 1
        &&& self.item_count + (self.visible_rows + 2) * self.columns <= usize::MAX
        &&& self.total_row == total_rows(self.item_count as nat, self.columns as nat)
        &&& self.last_row_col == (if self.item_count % self.columns == 0 {
            self.columns as int
        } else {
            (self.item_count % self.columns) as int
        })
        &&& self.loop_rows == (if self.visible_rows <= self.total_row {
            self.visible_rows
        } else {
            self.total_row
        })
        &&& self.scanned_count <= self.item_count
        &&& self.top_row <= self.total_row
        &&& self.scanned_row <= self.total_row
        &&& self.page_first_scanned_count <= self.scanned_count
        &&& self.scan_start_row < self.visible_rows
    }

    proof fn lemma_base(&self)
        requires
            self.base_inv(),
        ensures
            self.item_count + self.visible_rows * self.columns + 2 * self.columns <= usize::MAX,
            self.total_row * self.columns >= self.item_count,
            self.total_row * self.columns <= self.item_count + self.columns - 1,
            self.item_count == 0 ==> self.total_row == 0,
            self.item_count > 0 ==> self.total_row >= 1 && (self.total_row - 1) * self.columns
                < self.item_count && (self.total_row - 1) * self.columns + self.last_row_col
                == self.item_count,
            1 <= self.last_row_col <= self.columns,
            self.bottom_rows() * self.columns <= self.visible_rows * self.columns,
            self.bottom_rows() * self.columns >= 0,
    {
        lemma_rows(self.item_count as int, self.columns as int);
        assert((self.visible_rows + 2) * self.columns == self.visible_rows * self.columns + 2
            * self.columns) by (nonlinear_arith);
        lemma_mul_mono(self.bottom_rows(), self.visible_rows as int, self.columns as int);
        lemma_mul_mono(0, self.bottom_rows(), self.columns as int);
    }

    /// Before a row of a page is entered.
    spec fn row_inv(&self) -> bool {
        &&& self.row <= self.loop_rows
        &&& self.top_row + self.row == self.scanned_row
        &&& self.loop_rows - self.row <= self.total_row - self.scanned_row
        &&& (self.scanned_count == self.scanned_row * self.columns || (self.scanned_count
            == self.item_count && self.scanned_row == self.total_row))
    }

    spec fn page_inv(&self) -> bool {
        &&& self.row < self.loop_rows
        &&& self.top_row + self.row == self.scanned_row
        &&& self.loop_rows - self.row <= self.total_row - self.scanned_row
        &&& self.scanned_count == self.scanned_row * self.columns + self.col
        &&& self.col < self.row_len()
        &&& self.scanned_count < self.item_count
    }

    spec fn scroll_inv(&self) -> bool {
        &&& self.scanned_count == self.scanned_row * self.columns
        &&& self.scanned_count < self.item_count
        &&& self.loop_rows == self.visible_rows
        &&& self.top_row + self.visible_rows == self.scanned_row
        &&& 1 <= self.scroll_rows <= self.visible_rows
        &&& self.scroll_rows <= self.total_row - self.scanned_row
        &&& self.start_row == self.visible_rows - self.scroll_rows
    }

    spec fn bottom_inv(&self) -> bool {
        &&& self.bottom_start == bottom_row(
            self.item_count as nat,
            self.columns as nat,
            self.visible_rows as nat,
        ) * self.columns
        &&& self.scanned_count < self.item_count
    }

    spec fn up_inv(&self) -> bool {
        &&& self.bottom_inv()
        &&& self.top_row * self.columns == self.bottom_start
        &&& self.scroll_rows >= 1
        &&& self.scanned_count + self.scroll_rows * self.columns == self.bottom_start
    }

    /// Entering or inside the rows selected at the bottom of the grid.
    spec fn recover_inv(&self) -> bool {
        &&& self.bottom_start == bottom_row(
            self.item_count as nat,
            self.columns as nat,
            self.visible_rows as nat,
        ) * self.columns
        &&& self.top_row * self.columns == self.viewport_start
        &&& self.viewport_start <= self.bottom_start
        &&& self.viewport_start <= self.scanned_count
        &&& self.scanned_count <= self.target_end
        &&& self.target_end == (if self.viewport_start + self.bottom_rows() * self.columns
            <= self.item_count {
            self.viewport_start + self.bottom_rows() * self.columns
        } else {
            self.item_count as int
        })
    }

    spec fn advance_inv(&self) -> bool {
        &&& self.bottom_start == bottom_row(
            self.item_count as nat,
            self.columns as nat,
            self.visible_rows as nat,
        ) * self.columns
        &&& self.top_row * self.columns == self.viewport_start
        &&& self.viewport_start < self.bottom_start
        &&& self.scanned_count == (if self.viewport_start + self.bottom_rows() * self.columns
            <= self.item_count {
            self.viewport_start + self.bottom_rows() * self.columns
        } else {
            self.item_count as int
        })
    }

    /// The traversal's internal invariant.
    pub closed spec fn wf(&self) -> bool {
        &&& self.base_inv()
        &&& match self.phase {
            Phase::Ready => self.scanned_count == 0 && self.scanned_row == 0 && self.start_row == 0
                && self.top_row == 0,
            Phase::Page => self.page_inv(),
            Phase::Scrolling => self.scroll_inv(),
            Phase::ScrollingUp => self.up_inv(),
            Phase::Recovering => self.recover_inv() && self.scanned_count < self.target_end,
            Phase::Advancing => self.advance_inv(),
            Phase::Stopped => true,
        }
    }

    /// A traversal of `item_count` items in `columns` columns, with
    /// `visible_rows` rows clickable at a time, that stops after `max_row`
    /// rows.
    pub fn new(item_count: usize, columns: usize, visible_rows: usize, max_row: usize) -> (r: Self)
        requires
            columns >= 1,
            visible_rows >= 1,
            item_count + (visible_rows + 2) * columns <= usize::MAX,
        ensures
            r.wf(),
            r@ == (TraversalView {
                item_count: item_count as nat,
                columns: columns as nat,
                visible_rows: visible_rows as nat,
                max_row: max_row as nat,
                scanned_count: 0,
                scanned_rows: 0,
                top_row: 0,
                pending: Pending::Start,
                page_first: 0,
                page_start_row: 0,
            }),
            r.steps_left() == (5 + total_rows(item_count as nat, columns as nat)) * item_count + 5
                + total_rows(item_count as nat, columns as nat),
    {
        proof {
            lemma_rows(item_count as int, columns as int);
            lemma_mul_mono(1, (visible_rows + 2) as int, columns as int);
        }
        let total_row = (item_count + columns - 1) / columns;
        let last_row_col = if item_count % columns == 0 {
            columns
        } else {
            item_count % columns
        };
        let loop_rows = if visible_rows <= total_row {
            visible_rows
        } else {
            total_row
        };
        let r = RepositoryTraversal {
            item_count,
            columns,
            visible_rows,
            max_row,
            total_row,
            last_row_col,
            loop_rows,
            scanned_count: 0,
            scanned_row: 0,
            start_row: 0,
            row: 0,
            col: 0,
            scroll_rows: 0,
            top_row: 0,
            viewport_start: 0,
            bottom_start: 0,
            target_end: 0,
            page_first_scanned_count: 0,
            scan_start_row: 0,
            phase: Phase::Ready,
        };
        proof {
            r.lemma_work_nonneg();
        }
        r
    }

    /// How many items have been selected.
    pub fn scanned_count(&self) -> (r: usize)
        ensures
            r == self@.scanned_count,
    {
        self.scanned_count
    }

    /// How many items had been selected when the current page began (see
    /// `page_marks`): never more than have been selected now.
    pub fn page_first_scanned_count(&self) -> (r: usize)
        requires
            self.wf(),
        ensures
            r == self@.page_first,
            r <= self@.scanned_count,
    {
        self.page_first_scanned_count
    }

    /// The visible row the current page began at (see `page_marks`): one of
    /// the visible rows.
    pub fn scan_start_row(&self) -> (r: usize)
        requires
            self.wf(),
        ensures
            r == self@.page_start_row,
            r < self@.visible_rows,
    {
        self.scan_start_row
    }

    fn select_here(&mut self) -> (a: TraversalAction)
        requires
            old(self).base_inv(),
            old(self).phase != Phase::Stopped,
            old(self).page_inv(),
        ensures
            final(self).wf(),
            final(self)@ == (TraversalView { pending: Pending::Selection, ..old(self)@ }),
            a == (TraversalAction::Select { row: old(self).row, col: old(self).col }),
            action_law(final(self)@, a),
            final(self).measure() == old(self).work() + 1,
    {
        proof {
            self.lemma_base();
        }
        self.phase = Phase::Page;
        TraversalAction::Select { row: self.row, col: self.col }
    }

    fn enter_row(&mut self) -> (a: TraversalAction)
        requires
            old(self).base_inv(),
            old(self).row_inv(),
            old(self).phase != Phase::Stopped,
        ensures
            final(self).wf(),
            final(self)@ == (TraversalView { pending: pending_of(a), ..old(self)@ }),
            action_law(final(self)@, a),
            a is Select || a is Scroll || a == TraversalAction::Done(ReturnResult::Finished),
            final(self).measure() <= old(self).work() + 4 + old(self).total_row,
            old(self).row < old(self).loop_rows ==> final(self).measure() == old(self).work() + 1,
            old(self).row < old(self).loop_rows ==> a == (TraversalAction::Select { row: old(self).row, col: 0 }),
    {
        proof {
            self.lemma_base();
        }
        if self.row < self.loop_rows {
            self.col = 0;
            proof {
                assert(self.scanned_row < self.total_row);
                assert(self.scanned_count == self.scanned_row * self.columns);
                lemma_mul_mono(self.scanned_row as int, self.total_row - 1, self.columns as int);
            }
            self.select_here()
        } else {
            self.end_of_page()
        }
    }

    fn end_of_page(&mut self) -> (a: TraversalAction)
        requires
            old(self).base_inv(),
            old(self).row_inv(),
            old(self).row == old(self).loop_rows,
            old(self).phase != Phase::Stopped,
        ensures
            final(self).wf(),
            final(self)@ == (TraversalView { pending: pending_of(a), ..old(self)@ }),
            action_law(final(self)@, a),
            a is Scroll || a == TraversalAction::Done(ReturnResult::Finished),
            final(self).measure() <= old(self).work() + 4 + old(self).total_row,
    {
        if self.scanned_count >= self.item_count {
            self.phase = Phase::Stopped;
            return TraversalAction::Done(ReturnResult::Finished);
        }
        proof {
            self.lemma_base();
            let k = self.scanned_row as int;
            let c = self.columns as int;
            assert(self.scanned_count == k * c);
            if k >= self.total_row {
                lemma_mul_mono(self.total_row as int, k, c);
            }
            assert(k < self.total_row);
            lemma_remaining_rows(self.item_count as int, c, k);
            lemma_rows((self.item_count - self.scanned_count) as int, c);
        }
        let remain = self.item_count - self.scanned_count;
        let remain_row = (remain + self.columns - 1) / self.columns;
        let scroll_row = if remain_row <= self.visible_rows {
            remain_row
        } else {
            self.visible_rows
        };
        self.scroll_rows = scroll_row;
        self.start_row = self.visible_rows - scroll_row;
        self.phase = Phase::Scrolling;
        TraversalAction::Scroll { rows: scroll_row, remaining: remain }
    }

    fn begin_page(&mut self) -> (a: TraversalAction)
        requires
            old(self).base_inv(),
            old(self).phase != Phase::Stopped,
            old(self).start_row <= old(self).loop_rows,
            old(self).start_row < old(self).visible_rows,
            old(self).top_row + old(self).start_row == old(self).scanned_row,
            old(self).loop_rows - old(self).start_row <= old(self).total_row - old(self).scanned_row,
            old(self).scanned_count == old(self).scanned_row * old(self).columns,
            old(self).scanned_count < old(self).item_count ==> old(self).start_row < old(self).loop_rows,
        ensures
            final(self)@.scanned_rows == old(self)@.scanned_rows,
            final(self).wf(),
            final(self)@ == (TraversalView {
                pending: pending_of(a),
                page_first: final(self)@.page_first,
                page_start_row: final(self)@.page_start_row,
                ..old(self)@
            }),
            page_marks(old(self)@, final(self)@, a, true),
            action_law(final(self)@, a),
            a is Select || a is Scroll || a == TraversalAction::Done(ReturnResult::Finished),
            final(self).measure() <= old(self).work() + 4 + old(self).total_row,
            old(self).start_row < old(self).loop_rows ==> final(self).measure() <= old(self).work() + 1,
    {
        if self.scanned_count >= self.item_count {
            self.phase = Phase::Stopped;
            return TraversalAction::Done(ReturnResult::Finished);
        }
        self.page_first_scanned_count = self.scanned_count;
        self.scan_start_row = self.start_row;
        self.row = self.start_row;
        self.enter_row()
    }

    fn recover(&mut self) -> (a: TraversalAction)
        requires
            old(self).base_inv(),
            old(self).recover_inv(),
            old(self).phase != Phase::Stopped,
        ensures
            final(self).wf(),
            final(self)@ == (TraversalView {
                pending: pending_of(a),
                page_first: final(self)@.page_first,
                page_start_row: final(self)@.page_start_row,
                ..old(self)@
            }),
            page_marks(old(self)@, final(self)@, a, true),
            action_law(final(self)@, a),
            a is Select || a is ScrollOneRow || a == TraversalAction::Done(ReturnResult::Finished),
            final(self).measure() <= old(self).work() + 2 + (old(self).bottom_top() - old(self).top_row),
    {
        proof {
            self.lemma_top_within_bottom();
        }
        if self.scanned_count < self.target_end {
            let offset = self.scanned_count - self.viewport_start;
            proof {
                self.lemma_base();
                lemma_position(self.top_row as int, self.columns as int, offset as int);
                lemma_row_bound(offset as int, self.columns as int, self.bottom_rows());
            }
            self.page_first_scanned_count = self.scanned_count;
            self.scan_start_row = offset / self.columns;
            self.phase = Phase::Recovering;
            return TraversalAction::Select { row: offset / self.columns, col: offset % self.columns };
        }
        self.advance()
    }

    fn advance(&mut self) -> (a: TraversalAction)
        requires
            old(self).base_inv(),
            old(self).recover_inv(),
            old(self).scanned_count == old(self).target_end,
            old(self).phase != Phase::Stopped,
        ensures
            final(self).wf(),
            final(self)@ == (TraversalView { pending: pending_of(a), ..old(self)@ }),
            action_law(final(self)@, a),
            a is ScrollOneRow || a == TraversalAction::Done(ReturnResult::Finished),
            final(self).measure() <= old(self).work() + 2 + (old(self).bottom_top() - old(self).top_row),
    {
        proof {
            self.lemma_top_within_bottom();
        }
        if self.viewport_start < self.bottom_start {
            self.phase = Phase::Advancing;
            TraversalAction::ScrollOneRow
        } else {
            self.phase = Phase::Stopped;
            proof {
                self.lemma_base();
                let c = self.columns as int;
                let b = self.bottom_rows();
                let br = bottom_row(self.item_count as nat, c as nat, self.visible_rows as nat) as int;
                // The rows shown at the bottom reach the end of the grid.
                if self.total_row >= b {
                    assert(br * c + b * c == self.total_row * c) by (nonlinear_arith)
                        requires
                            br == self.total_row - b,
                    ;
                } else {
                    lemma_mul_mono(self.total_row as int, b, c);
                }
            }
            TraversalAction::Done(ReturnResult::Finished)
        }
    }

    fn end_reached(&mut self) -> (a: TraversalAction)
        requires
            old(self).base_inv(),
            old(self).scroll_inv(),
            old(self).phase == Phase::Scrolling,
        ensures
            final(self).wf(),
            final(self)@ == (TraversalView {
                pending: pending_of(a),
                top_row: bottom_row(old(self)@.item_count, old(self)@.columns, old(self)@.visible_rows),
                page_first: final(self)@.page_first,
                page_start_row: final(self)@.page_start_row,
                ..old(self)@
            }),
            page_marks(old(self)@, final(self)@, a, true),
            action_law(final(self)@, a),
            a is ScrollUp || a is Select || a is ScrollOneRow || a == TraversalAction::Done(
                ReturnResult::Finished,
            ),
            final(self).measure() <= old(self).work() + 3 + old(self).total_row,
    {
        proof {
            self.lemma_base();
        }
        let bottom_visible_rows = self.visible_rows - 1;
        let bottom_start_row = if self.total_row >= bottom_visible_rows {
            self.total_row - bottom_visible_rows
        } else {
            0
        };
        proof {
            lemma_mul_mono(bottom_start_row as int, self.total_row as int, self.columns as int);
        }
        let bottom_start = bottom_start_row * self.columns;
        let gap = if bottom_start >= self.scanned_count {
            bottom_start - self.scanned_count
        } else {
            0
        };
        proof {
            // What was scanned ends on a whole row, and so does the bottom
            // page's start: the gap between them is whole rows.
            if bottom_start >= self.scanned_count {
                let k = bottom_start_row - self.scanned_row;
                assert(gap == k * self.columns) by (nonlinear_arith)
                    requires
                        bottom_start == bottom_start_row * self.columns,
                        self.scanned_count == self.scanned_row * self.columns,
                        gap == bottom_start - self.scanned_count,
                        k == bottom_start_row - self.scanned_row,
                ;
                vstd::arithmetic::div_mod::lemma_mod_multiples_basic(k, self.columns as int);
            }
        }
        self.top_row = bottom_start_row;
        self.bottom_start = bottom_start;
        if gap % self.columns != 0 {
            self.phase = Phase::Stopped;
            return TraversalAction::Fail(
                TraversalError::UnalignedFinalPage { scanned: self.scanned_count, bottom_start },
            );
        }
        let rows_up = gap / self.columns;
        proof {
            lemma_fundamental_div_mod(gap as int, self.columns as int);
            assert(rows_up * self.columns == gap) by (nonlinear_arith)
                requires
                    gap == self.columns * rows_up + gap % self.columns,
                    gap % self.columns == 0,
            ;
        }
        if rows_up > 0 {
            self.scroll_rows = rows_up;
            self.phase = Phase::ScrollingUp;
            return TraversalAction::ScrollUp { rows: rows_up };
        }
        self.viewport_start = bottom_start;
        proof {
            assert(gap == 0) by (nonlinear_arith)
                requires
                    rows_up * self.columns == gap,
                    rows_up == 0,
            ;
            assert(bottom_start <= self.scanned_count);
            let c = self.columns as int;
            let b = self.bottom_rows();
            if self.total_row >= b {
                assert(bottom_start + b * c == self.total_row * c) by (nonlinear_arith)
                    requires
                        bottom_start == (self.total_row - b) * c,
                ;
            } else {
                lemma_mul_mono(self.total_row as int, b, c);
            }
        }
        self.target_end = if bottom_start + bottom_visible_rows * self.columns <= self.item_count {
            bottom_start + bottom_visible_rows * self.columns
        } else {
            self.item_count
        };
        self.recover()
    }

    fn on_page_selected(&mut self) -> (a: TraversalAction)
        requires
            old(self).wf(),
            old(self).phase == Phase::Page,
        ensures
            final(self)@.scanned_rows == old(self)@.scanned_rows || final(self)@.scanned_rows
                == old(self)@.scanned_rows + 1,
            (final(self)@.scanned_rows > old(self)@.scanned_rows && final(self)@.scanned_rows
                >= final(self)@.max_row) ==> a == TraversalAction::Done(ReturnResult::Finished),
            final(self).wf(),
            final(self)@.item_count == old(self)@.item_count,
            final(self)@.columns == old(self)@.columns,
            final(self)@.visible_rows == old(self)@.visible_rows,
            final(self)@.max_row == old(self)@.max_row,
            final(self)@.scanned_count == old(self)@.scanned_count + 1,
            final(self)@.top_row == old(self)@.top_row,
            action_law(final(self)@, a),
            a != TraversalAction::Done(ReturnResult::Interrupted),
            final(self).measure() < old(self).measure(),
            marks_kept(old(self)@, final(self)@),
            !(a is Fail),
    {
        proof {
            self.lemma_base();
        }
        self.scanned_count = self.scanned_count + 1;
        proof {
            self.lemma_work_step(old(self).scanned_count as int);
        }
        let row_len = if self.scanned_row + 1 == self.total_row {
            self.last_row_col
        } else {
            self.columns
        };
        if self.col + 1 < row_len {
            proof {
                if self.scanned_row + 1 < self.total_row {
                    lemma_mul_mono(self.scanned_row + 1, self.total_row - 1, self.columns as int);
                    assert((self.scanned_row + 1) * self.columns == self.scanned_row * self.columns
                        + self.columns) by (nonlinear_arith);
                }
            }
            self.col = self.col + 1;
            return self.select_here();
        }
        proof {
            if self.scanned_row + 1 == self.total_row {
                assert(self.scanned_count == self.item_count);
            } else {
                assert(self.scanned_count == (self.scanned_row + 1) * self.columns) by (nonlinear_arith)
                    requires
                        self.scanned_count == self.scanned_row * self.columns + self.col + 1,
                        self.col + 1 == self.columns,
                ;
            }
        }
        self.scanned_row = self.scanned_row + 1;
        if self.scanned_row >= self.max_row {
            self.phase = Phase::Stopped;
            return TraversalAction::Done(ReturnResult::Finished);
        }
        self.row = self.row + 1;
        self.enter_row()
    }

    fn on_recover_selected(&mut self) -> (a: TraversalAction)
        requires
            old(self).wf(),
            old(self).phase == Phase::Recovering,
        ensures
            final(self)@.scanned_rows == old(self)@.scanned_rows,
            final(self).wf(),
            final(self)@.item_count == old(self)@.item_count,
            final(self)@.columns == old(self)@.columns,
            final(self)@.visible_rows == old(self)@.visible_rows,
            final(self)@.max_row == old(self)@.max_row,
            final(self)@.scanned_count == old(self)@.scanned_count + 1,
            final(self)@.top_row == old(self)@.top_row,
            action_law(final(self)@, a),
            a != TraversalAction::Done(ReturnResult::Interrupted),
            final(self).measure() < old(self).measure(),
            marks_kept(old(self)@, final(self)@),
            !(a is Fail),
    {
        self.scanned_count = self.scanned_count + 1;
        proof {
            self.lemma_work_step(old(self).scanned_count as int);
            self.lemma_bottom_top_bound();
        }
        if self.scanned_count < self.target_end {
            let offset = self.scanned_count - self.viewport_start;
            proof {
                self.lemma_base();
                lemma_position(self.top_row as int, self.columns as int, offset as int);
                lemma_row_bound(offset as int, self.columns as int, self.bottom_rows());
            }
            return TraversalAction::Select { row: offset / self.columns, col: offset % self.columns };
        }
        self.advance()
    }

    fn on_page_scrolled(&mut self, outcome: ScrollOutcome) -> (a: TraversalAction)
        requires
            old(self).wf(),
            old(self).phase == Phase::Scrolling,
        ensures
            final(self)@.scanned_rows == old(self)@.scanned_rows,
            final(self).wf(),
            final(self)@.item_count == old(self)@.item_count,
            final(self)@.columns == old(self)@.columns,
            final(self)@.visible_rows == old(self)@.visible_rows,
            final(self)@.max_row == old(self)@.max_row,
            final(self)@.scanned_count == old(self)@.scanned_count,
            action_law(final(self)@, a),
            scroll_ok(outcome) ==> final(self)@.top_row == old(self)@.top_row + old(self).scroll_rows,
            outcome == ScrollOutcome::EndReached ==> final(self)@.top_row == bottom_row(
                old(self)@.item_count,
                old(self)@.columns,
                old(self)@.visible_rows,
            ),
            a == TraversalAction::Done(ReturnResult::Interrupted) <==> outcome
                == ScrollOutcome::Interrupt,
            page_scroll_error(outcome) is Some ==> a == TraversalAction::Fail(
                page_scroll_error(outcome)->0,
            ),
            final(self).measure() < old(self).measure(),
            page_marks(old(self)@, final(self)@, a, true),
            a is Fail ==> !scroll_ok(outcome),
    {
        proof {
            self.lemma_work_nonneg();
        }
        match outcome {
            ScrollOutcome::Success | ScrollOutcome::Skip => {
                self.top_row = self.top_row + self.scroll_rows;
                self.begin_page()
            },
            ScrollOutcome::TimeLimitExceeded => {
                self.phase = Phase::Stopped;
                TraversalAction::Fail(TraversalError::ScrollTimedOut)
            },
            ScrollOutcome::Interrupt => {
                self.phase = Phase::Stopped;
                TraversalAction::Done(ReturnResult::Interrupted)
            },
            ScrollOutcome::FocusLost => {
                self.phase = Phase::Stopped;
                TraversalAction::Fail(TraversalError::FocusLost)
            },
            ScrollOutcome::Failed => {
                self.phase = Phase::Stopped;
                TraversalAction::Fail(TraversalError::ScrollFailed)
            },
            ScrollOutcome::EndReached => self.end_reached(),
        }
    }

    fn on_scrolled_up(&mut self, outcome: ScrollOutcome) -> (a: TraversalAction)
        requires
            old(self).wf(),
            old(self).phase == Phase::ScrollingUp,
        ensures
            final(self)@.scanned_rows == old(self)@.scanned_rows,
            final(self).wf(),
            final(self)@.item_count == old(self)@.item_count,
            final(self)@.columns == old(self)@.columns,
            final(self)@.visible_rows == old(self)@.visible_rows,
            final(self)@.max_row == old(self)@.max_row,
            final(self)@.scanned_count == old(self)@.scanned_count,
            action_law(final(self)@, a),
            scroll_ok(outcome) ==> final(self)@.top_row + old(self).scroll_rows == old(self)@.top_row,
            !scroll_ok(outcome) ==> a == TraversalAction::Fail(TraversalError::RecoveryFailed(outcome)),
            a != TraversalAction::Done(ReturnResult::Interrupted),
            final(self).measure() < old(self).measure(),
            page_marks(old(self)@, final(self)@, a, true),
            a is Fail ==> !scroll_ok(outcome),
    {
        proof {
            self.lemma_work_nonneg();
            self.lemma_bottom_top_bound();
        }
        match outcome {
            ScrollOutcome::Success | ScrollOutcome::Skip => {
                proof {
                    self.lemma_base();
                    assert(self.scroll_rows <= self.top_row) by (nonlinear_arith)
                        requires
                            self.top_row * self.columns == self.bottom_start,
                            self.scanned_count + self.scroll_rows * self.columns == self.bottom_start,
                            self.columns >= 1,
                    ;
                    assert((self.top_row - self.scroll_rows) * self.columns == self.scanned_count)
                        by (nonlinear_arith)
                        requires
                            self.top_row * self.columns == self.bottom_start,
                            self.scanned_count + self.scroll_rows * self.columns == self.bottom_start,
                    ;
                }
                self.top_row = self.top_row - self.scroll_rows;
                self.viewport_start = self.scanned_count;
                let bottom_visible_rows = self.visible_rows - 1;
                self.target_end = if self.viewport_start + bottom_visible_rows * self.columns
                    <= self.item_count {
                    self.viewport_start + bottom_visible_rows * self.columns
                } else {
                    self.item_count
                };
                self.recover()
            },
            _ => {
                self.phase = Phase::Stopped;
                TraversalAction::Fail(TraversalError::RecoveryFailed(outcome))
            },
        }
    }

    fn on_advanced(&mut self, outcome: ScrollOutcome) -> (a: TraversalAction)
        requires
            old(self).wf(),
            old(self).phase == Phase::Advancing,
            (scroll_ok(outcome) || outcome == ScrollOutcome::EndReached) ==> old(self).visible_rows
                >= 2,
        ensures
            final(self)@.scanned_rows == old(self)@.scanned_rows,
            final(self).wf(),
            final(self)@.item_count == old(self)@.item_count,
            final(self)@.columns == old(self)@.columns,
            final(self)@.visible_rows == old(self)@.visible_rows,
            final(self)@.max_row == old(self)@.max_row,
            final(self)@.scanned_count == old(self)@.scanned_count,
            action_law(final(self)@, a),
            !(a is Fail) ==> final(self)@.top_row == old(self)@.top_row + 1,
            !(scroll_ok(outcome) || outcome == ScrollOutcome::EndReached) ==> a is Fail,
            a != TraversalAction::Done(ReturnResult::Interrupted),
            final(self).measure() < old(self).measure(),
            page_marks(old(self)@, final(self)@, a, true),
            a is Fail ==> !scroll_ok(outcome),
    {
        proof {
            self.lemma_base();
            self.lemma_work_nonneg();
            assert(self.top_row < self.bottom_top()) by (nonlinear_arith)
                requires
                    self.top_row * self.columns == self.viewport_start,
                    self.viewport_start < self.bottom_start,
                    self.bottom_start == self.bottom_top() * self.columns,
                    self.columns >= 1,
            ;
            lemma_mul_mono(
                bottom_row(self.item_count as nat, self.columns as nat, self.visible_rows as nat) as int,
                self.total_row as int,
                self.columns as int,
            );
        }
        let next = self.viewport_start + self.columns;
        let ok = match outcome {
            ScrollOutcome::Success | ScrollOutcome::Skip => true,
            ScrollOutcome::EndReached => next == self.bottom_start,
            _ => false,
        };
        if !ok {
            self.phase = Phase::Stopped;
            return TraversalAction::Fail(
                TraversalError::AdvanceFailed { viewport_start: self.viewport_start, outcome },
            );
        }
        proof {
            let c = self.columns as int;
            let b = self.bottom_rows();
            let br = bottom_row(self.item_count as nat, c as nat, self.visible_rows as nat) as int;
            // Rows are whole: the next viewport still lies within the bottom page.
            assert(self.top_row < br) by (nonlinear_arith)
                requires
                    self.top_row * c == self.viewport_start,
                    self.viewport_start < self.bottom_start,
                    self.bottom_start == br * c,
                    c >= 1,
            ;
            lemma_mul_mono(self.top_row + 1, br, c);
            assert((self.top_row + 1) * c == self.viewport_start + c) by (nonlinear_arith)
                requires
                    self.top_row * c == self.viewport_start,
            ;
            // The bottom page starts before the last item.
            assert(br <= self.total_row - 1);
            lemma_mul_mono(br, self.total_row - 1, c);
            lemma_mul_mono(1, b, c);
            assert((b - 1) * c + c == b * c) by (nonlinear_arith);
        }
        self.viewport_start = next;
        self.top_row = self.top_row + 1;
        let bottom_visible_rows = self.visible_rows - 1;
        let new_row_start = self.viewport_start + (bottom_visible_rows - 1) * self.columns;
        self.target_end = if new_row_start + self.columns <= self.item_count {
            new_row_start + self.columns
        } else {
            self.item_count
        };
        self.recover()
    }

    /// Takes the next step: given what happened to the last action, what to
    /// do next. Every item selected is the next unselected one: the item at
    /// the requested row and column of the visible grid, counted from the
    /// grid row shown on top, is item `scanned_count`, and each selection
    /// counts one more (see `action_law`). Every step lowers `steps_left`,
    /// so a traversal ends within the bound that `new` gives; it fails only
    /// on a scroll that did not succeed, and it finishes only once every
    /// item is selected or the row limit is reached.
    pub fn step(&mut self, event: TraversalEvent) -> (a: TraversalAction)
        requires
            old(self).wf(),
            accepts(old(self)@.pending, event),
            (old(self)@.pending == Pending::ScrollOne && advances(event)) ==> old(self)@.visible_rows
                >= 2,
        ensures
            final(self).wf(),
            final(self)@.item_count == old(self)@.item_count,
            final(self)@.columns == old(self)@.columns,
            final(self)@.visible_rows == old(self)@.visible_rows,
            final(self)@.max_row == old(self)@.max_row,
            action_law(final(self)@, a),
            event == TraversalEvent::Selected ==> final(self)@.scanned_count == old(self)@.scanned_count
                + 1,
            event != TraversalEvent::Selected ==> final(self)@.scanned_count
                == old(self)@.scanned_count,
            event == TraversalEvent::Start ==> final(self)@.top_row == 0,
            event == TraversalEvent::Selected ==> final(self)@.top_row == old(self)@.top_row,
            (old(self)@.pending is PageScroll && scrolled_ok(event)) ==> final(self)@.top_row
                == old(self)@.top_row + pending_rows(old(self)@.pending),
            (old(self)@.pending is PageScroll && event == TraversalEvent::Scrolled(ScrollOutcome::EndReached))
                ==> final(self)@.top_row == bottom_row(
                old(self)@.item_count,
                old(self)@.columns,
                old(self)@.visible_rows,
            ),
            (old(self)@.pending is ScrollUp && scrolled_ok(event)) ==> final(self)@.top_row
                + pending_rows(old(self)@.pending) == old(self)@.top_row,
            (old(self)@.pending == Pending::ScrollOne && !(a is Fail)) ==> final(self)@.top_row
                == old(self)@.top_row + 1,
            a == TraversalAction::Done(ReturnResult::Interrupted) <==> (event == TraversalEvent::Scrolled(
                ScrollOutcome::Interrupt,
            ) && old(self)@.pending is PageScroll),
            (old(self)@.pending is PageScroll && page_failure(event) is Some) ==> a
                == TraversalAction::Fail(page_failure(event)->0),
            (old(self)@.pending is ScrollUp && !scrolled_ok(event)) ==> a == TraversalAction::Fail(
                TraversalError::RecoveryFailed(outcome_of(event)),
            ),
            (old(self)@.pending == Pending::ScrollOne && !advances(event)) ==> a is Fail,
            final(self).steps_left() < old(self).steps_left(),
            page_marks(old(self)@, final(self)@, a, event != TraversalEvent::Selected),
            a is Fail ==> event is Scrolled && !scroll_ok(outcome_of(event)),
            a is Select ==> final(self)@.scanned_rows == 0 || final(self)@.scanned_rows
                < final(self)@.max_row,
            final(self)@.scanned_rows == old(self)@.scanned_rows || (event == TraversalEvent::Selected
                && final(self)@.scanned_rows == old(self)@.scanned_rows + 1),
            (final(self)@.scanned_rows > old(self)@.scanned_rows && final(self)@.scanned_rows
                >= final(self)@.max_row) ==> a == TraversalAction::Done(ReturnResult::Finished),
    {
        proof {
            self.lemma_measure_nonneg();
            self.lemma_work_nonneg();
        }
        let a = match event {
            TraversalEvent::Start => {
                proof {
                    self.lemma_base();
                }
                self.row = 0;
                self.begin_page()
            },
            TraversalEvent::Selected => {
                if self.phase == Phase::Page {
                    self.on_page_selected()
                } else {
                    self.on_recover_selected()
                }
            },
            TraversalEvent::Scrolled(outcome) => {
                if self.phase == Phase::Scrolling {
                    self.on_page_scrolled(outcome)
                } else if self.phase == Phase::ScrollingUp {
                    self.on_scrolled_up(outcome)
                } else {
                    self.on_advanced(outcome)
                }
            },
        };
        proof {
            self.lemma_measure_nonneg();
        }
        a
    }
}

/// The index of the first item on the bottom page, where the game shows
/// `visible_rows - 1` whole rows ending with the last row of the grid.
pub fn bottom_start_index(item_count: usize, columns: usize, visible_rows: usize) -> (r: usize)
    requires
        columns >= 1,
        visible_rows >= 1,
        item_count + columns <= usize::MAX,
    ensures
        r == bottom_row(item_count as nat, columns as nat, visible_rows as nat) * columns,
{
    proof {
        lemma_rows(item_count as int, columns as int);
    }
    let total_row = (item_count + columns - 1) / columns;
    let bottom_visible_rows = visible_rows - 1;
    let bottom_start_row = if total_row >= bottom_visible_rows {
        total_row - bottom_visible_rows
    } else {
        0
    };
    proof {
        lemma_mul_mono(bottom_start_row as int, total_row as int, columns as int);
    }
    bottom_start_row * columns
}

} // verus!
