use yas_scanner_genshin::scroll::{
    can_fast_scroll, effective_switch_timeout, extend_scrollbar_track, row_pitch_tolerance,
    switch_frame_ready, RowScrollStep, RowScroller,
};
use yas_scanner_genshin::traversal::{
    bottom_start_index, RepositoryTraversal, ReturnResult, ScrollOutcome, TraversalAction,
    TraversalError, TraversalEvent,
};

#[test]
fn bottom_layout_places_partial_last_row_in_fourth_clickable_row() {
    let item_count = 2364usize;
    let columns = 8usize;
    let configured_rows = 5usize;
    let bottom_start = bottom_start_index(item_count, columns, configured_rows);
    let final_row_offset = 2360 - bottom_start;

    assert_eq!(bottom_start, 2336);
    assert_eq!(final_row_offset / columns, 3);
    assert_eq!(final_row_offset % columns, 0);
}

#[test]
fn switch_speed_five_accepts_the_first_changed_frame() {
    assert!(switch_frame_ready(1, 5));
    assert!(!switch_frame_ready(1, 4));
    assert!(switch_frame_ready(2, 4));
    assert_eq!(effective_switch_timeout(800), 800);
    assert_eq!(effective_switch_timeout(-1), 0);
}

#[test]
fn scrollbar_track_follows_short_gaps_only() {
    let mask = [false, true, true, false, false, true, false, false, false, true];
    assert_eq!(extend_scrollbar_track(&mask, 1, 1, 2), Some(5));
    assert_eq!(extend_scrollbar_track(&mask, 1, 1, 3), Some(9));
    assert_eq!(extend_scrollbar_track(&mask, 5, -1, 1), Some(5));
    assert_eq!(extend_scrollbar_track(&mask, 5, -1, 2), Some(1));
    assert_eq!(extend_scrollbar_track(&mask, 0, 1, 0), None);
    assert_eq!(extend_scrollbar_track(&mask, -1, -1, 5), None);
    assert_eq!(extend_scrollbar_track(&mask, 10, 1, 5), None);
}

/// A repository grid that scrolls like the game: at the bottom it shows one
/// row fewer than the page, ending with the last row. A page scroll that
/// comes within `overshoot` rows of the bottom runs into it.
struct Grid {
    items: usize,
    columns: usize,
    visible: usize,
    overshoot: usize,
    top: usize,
}

impl Grid {
    fn max_top(&self) -> usize {
        let total = (self.items + self.columns - 1) / self.columns;
        total.saturating_sub(self.visible - 1)
    }

    fn scroll(&mut self, rows: usize) -> ScrollOutcome {
        if self.top + rows + self.overshoot < self.max_top() {
            self.top += rows;
            ScrollOutcome::Success
        } else {
            self.top = self.max_top();
            ScrollOutcome::EndReached
        }
    }

    fn scroll_one(&mut self) -> ScrollOutcome {
        if self.top < self.max_top() {
            self.top += 1;
        }
        if self.top == self.max_top() {
            ScrollOutcome::EndReached
        } else {
            ScrollOutcome::Success
        }
    }
}

fn run_grid(items: usize, columns: usize, visible: usize, overshoot: usize) -> (Vec<usize>, TraversalAction) {
    let mut grid = Grid { items, columns, visible, overshoot, top: 0 };
    let mut traversal = RepositoryTraversal::new(items, columns, visible, usize::MAX);
    let mut selected = Vec::new();
    let mut action = traversal.step(TraversalEvent::Start);
    loop {
        let event = match action {
            TraversalAction::Select { row, col } => {
                assert!(row < visible && col < columns);
                selected.push((grid.top + row) * columns + col);
                TraversalEvent::Selected
            },
            TraversalAction::Scroll { rows, .. } => TraversalEvent::Scrolled(grid.scroll(rows)),
            TraversalAction::ScrollUp { rows } => {
                grid.top -= rows;
                TraversalEvent::Scrolled(ScrollOutcome::Success)
            },
            TraversalAction::ScrollOneRow => TraversalEvent::Scrolled(grid.scroll_one()),
            done => return (selected, done),
        };
        action = traversal.step(event);
    }
}

#[test]
fn traversal_selects_every_item_once_in_order() {
    for overshoot in [0, 1, 2, 3, 7] {
        for (items, columns, visible) in [
            (0, 8, 5),
            (1, 8, 5),
            (8, 8, 5),
            (40, 8, 5),
            (41, 8, 5),
            (2364, 8, 5),
            (2360, 8, 5),
            (97, 8, 5),
            (55, 8, 4),
            (123, 7, 6),
            (45, 8, 5),
            (50, 8, 5),
        ] {
            let (selected, done) = run_grid(items, columns, visible, overshoot);
            assert_eq!(
                done,
                TraversalAction::Done(ReturnResult::Finished),
                "{items} items, overshoot {overshoot}"
            );
            assert_eq!(
                selected,
                (0..items).collect::<Vec<_>>(),
                "{items} items, overshoot {overshoot}"
            );
        }
    }
}

#[test]
fn traversal_recovers_the_rows_above_the_bottom_page() {
    let mut t = RepositoryTraversal::new(2364, 8, 5, usize::MAX);
    let mut action = t.step(TraversalEvent::Start);
    let mut selected = 0usize;
    // Scan until 2320 items are done and the next page scroll is asked for.
    loop {
        match action {
            TraversalAction::Select { .. } => {
                selected += 1;
                action = t.step(TraversalEvent::Selected);
            },
            TraversalAction::Scroll { .. } if selected == 2320 => break,
            TraversalAction::Scroll { .. } => {
                action = t.step(TraversalEvent::Scrolled(ScrollOutcome::Success));
            },
            other => panic!("unexpected {other:?}"),
        }
    }
    assert_eq!(
        t.step(TraversalEvent::Scrolled(ScrollOutcome::EndReached)),
        TraversalAction::ScrollUp { rows: 2 }
    );
    assert_eq!(
        t.step(TraversalEvent::Scrolled(ScrollOutcome::Success)),
        TraversalAction::Select { row: 0, col: 0 }
    );
    assert_eq!(t.page_first_scanned_count(), 2320);
    assert_eq!(t.scanned_count(), 2320);
}
#[test]
fn traversal_scrolls_by_the_remaining_rows_and_counts_selections() {
    let mut t = RepositoryTraversal::new(20, 8, 2, usize::MAX);
    assert_eq!(t.step(TraversalEvent::Start), TraversalAction::Select { row: 0, col: 0 });
    let mut action = TraversalAction::Select { row: 0, col: 0 };
    for _ in 0..16 {
        assert!(matches!(action, TraversalAction::Select { .. }));
        action = t.step(TraversalEvent::Selected);
    }
    assert_eq!(t.scanned_count(), 16);
    assert_eq!(action, TraversalAction::Scroll { rows: 1, remaining: 4 });
    assert_eq!(
        t.step(TraversalEvent::Scrolled(ScrollOutcome::Success)),
        TraversalAction::Select { row: 1, col: 0 }
    );
    assert_eq!(t.page_first_scanned_count(), 16);
    assert_eq!(t.scan_start_row(), 1);
}

#[test]
fn traversal_stops_at_the_row_limit_and_on_scroll_failures() {
    let mut t = RepositoryTraversal::new(40, 4, 3, 1);
    t.step(TraversalEvent::Start);
    for _ in 0..3 {
        t.step(TraversalEvent::Selected);
    }
    assert_eq!(
        t.step(TraversalEvent::Selected),
        TraversalAction::Done(ReturnResult::Finished)
    );

    for (outcome, expected) in [
        (ScrollOutcome::Interrupt, TraversalAction::Done(ReturnResult::Interrupted)),
        (ScrollOutcome::FocusLost, TraversalAction::Fail(TraversalError::FocusLost)),
        (ScrollOutcome::Failed, TraversalAction::Fail(TraversalError::ScrollFailed)),
        (
            ScrollOutcome::TimeLimitExceeded,
            TraversalAction::Fail(TraversalError::ScrollTimedOut),
        ),
    ] {
        let mut t = RepositoryTraversal::new(10, 2, 2, usize::MAX);
        let mut action = t.step(TraversalEvent::Start);
        while matches!(action, TraversalAction::Select { .. }) {
            action = t.step(TraversalEvent::Selected);
        }
        assert_eq!(action, TraversalAction::Scroll { rows: 2, remaining: 6 });
        assert_eq!(t.step(TraversalEvent::Scrolled(outcome)), expected);
    }
}

#[test]
fn a_failed_recovery_scroll_stops_the_traversal() {
    let mut t = RepositoryTraversal::new(2364, 8, 5, usize::MAX);
    let mut action = t.step(TraversalEvent::Start);
    let mut selected = 0usize;
    loop {
        match action {
            TraversalAction::Select { .. } => {
                selected += 1;
                action = t.step(TraversalEvent::Selected);
            },
            TraversalAction::Scroll { .. } if selected == 2320 => break,
            TraversalAction::Scroll { .. } => {
                action = t.step(TraversalEvent::Scrolled(ScrollOutcome::Success));
            },
            other => panic!("unexpected {other:?}"),
        }
    }
    assert_eq!(
        t.step(TraversalEvent::Scrolled(ScrollOutcome::EndReached)),
        TraversalAction::ScrollUp { rows: 2 }
    );
    assert_eq!(
        t.step(TraversalEvent::Scrolled(ScrollOutcome::Failed)),
        TraversalAction::Fail(TraversalError::RecoveryFailed(ScrollOutcome::Failed))
    );
}

#[test]
fn fast_scrolling_needs_calibration_and_a_long_way_to_go() {
    // A full page of five rows of eight, calibrated.
    assert!(can_fast_scroll(true, 5, 8, 3, true, 40, 5));
    assert!(!can_fast_scroll(false, 5, 8, 3, true, 40, 5));
    assert!(!can_fast_scroll(true, 5, 8, 2, true, 40, 5));
    assert!(!can_fast_scroll(true, 5, 8, 3, false, 40, 5));
    assert!(!can_fast_scroll(true, 5, 8, 3, true, 40, 2));
    // Not a full page, but more than two pages left.
    assert!(can_fast_scroll(true, 5, 8, 3, true, 81, 4));
    assert!(!can_fast_scroll(true, 5, 8, 3, true, 80, 4));
    assert_eq!(row_pitch_tolerance(146), 18);
    assert_eq!(row_pitch_tolerance(40), 8);
}

#[test]
fn row_scrolls_stop_at_the_first_row_that_does_not_move() {
    use_row_scroller();
}

fn use_row_scroller() {
    let mut down = RowScroller::new(3, false);
    assert_eq!(down.start(), RowScrollStep::ScrollOne);
    assert_eq!(down.next(ScrollOutcome::Success), RowScrollStep::ScrollOne);
    assert_eq!(down.next(ScrollOutcome::EndReached), RowScrollStep::Done(ScrollOutcome::EndReached));

    let mut up = RowScroller::new(2, true);
    assert_eq!(up.next(ScrollOutcome::EndReached), RowScrollStep::WaitAndRetry);
    assert_eq!(up.next(ScrollOutcome::EndReached), RowScrollStep::WaitAndRetry);
    assert_eq!(up.next(ScrollOutcome::Success), RowScrollStep::ScrollOne);
    assert_eq!(up.next(ScrollOutcome::EndReached), RowScrollStep::WaitAndRetry);
    assert_eq!(up.next(ScrollOutcome::EndReached), RowScrollStep::WaitAndRetry);
    assert_eq!(up.next(ScrollOutcome::EndReached), RowScrollStep::Done(ScrollOutcome::EndReached));

    let none = RowScroller::new(0, false);
    assert_eq!(none.start(), RowScrollStep::Done(ScrollOutcome::Success));
    let mut interrupted = RowScroller::new(5, true);
    assert_eq!(interrupted.next(ScrollOutcome::Interrupt), RowScrollStep::Done(ScrollOutcome::Interrupt));
}

#[test]
fn successful_walks_end_within_the_step_bound_with_every_item_selected() {
    for &(item_count, columns, rows) in &[(37usize, 8usize, 5usize), (8, 8, 5), (0, 8, 5), (100, 7, 4)] {
        let total_rows = (item_count + columns - 1) / columns;
        let bound = (5 + total_rows) * item_count + 5 + total_rows;
        let mut traversal = RepositoryTraversal::new(item_count, columns, rows, usize::MAX);
        let mut action = traversal.step(TraversalEvent::Start);
        let mut steps = 1;
        let mut selected = Vec::new();
        loop {
            let event = match action {
                TraversalAction::Select { .. } => {
                    selected.push(traversal.scanned_count());
                    TraversalEvent::Selected
                },
                TraversalAction::Scroll { .. }
                | TraversalAction::ScrollUp { .. }
                | TraversalAction::ScrollOneRow => TraversalEvent::Scrolled(ScrollOutcome::Success),
                TraversalAction::Done(result) => {
                    assert_eq!(result, ReturnResult::Finished);
                    break;
                },
                TraversalAction::Fail(error) => panic!("unexpected failure {error:?}"),
            };
            action = traversal.step(event);
            steps += 1;
        }
        assert!(steps <= bound);
        assert_eq!(selected, (0..item_count).collect::<Vec<_>>());
        assert_eq!(traversal.scanned_count(), item_count);
    }
}

#[test]
fn page_marks_record_where_each_page_began() {
    let mut traversal = RepositoryTraversal::new(37, 8, 3, usize::MAX);
    let mut action = traversal.step(TraversalEvent::Start);
    let mut previous_event_selected = false;
    let mut pages = Vec::new();
    loop {
        let event = match action {
            TraversalAction::Select { row, .. } => {
                if !previous_event_selected {
                    assert_eq!(traversal.page_first_scanned_count(), traversal.scanned_count());
                    assert_eq!(traversal.scan_start_row(), row);
                    pages.push((traversal.page_first_scanned_count(), row));
                }
                previous_event_selected = true;
                TraversalEvent::Selected
            },
            TraversalAction::Done(_) => break,
            TraversalAction::Fail(error) => panic!("unexpected failure {error:?}"),
            _ => {
                previous_event_selected = false;
                TraversalEvent::Scrolled(ScrollOutcome::Success)
            },
        };
        action = traversal.step(event);
    }
    assert_eq!(pages[0], (0, 0));
    // 13 items are left after the first page: two rows scroll in, and the
    // page resumes on the second visible row.
    assert_eq!(pages[1], (24, 1));
}

#[test]
fn the_row_limit_is_checked_after_each_row() {
    for (limit, rows) in [(0usize, 1usize), (1, 1), (2, 2)] {
        let mut t = RepositoryTraversal::new(40, 4, 3, limit);
        let mut action = t.step(TraversalEvent::Start);
        let mut selected = 0;
        while matches!(action, TraversalAction::Select { .. }) {
            selected += 1;
            action = t.step(TraversalEvent::Selected);
        }
        assert_eq!(action, TraversalAction::Done(ReturnResult::Finished));
        assert_eq!(selected, rows * 4);
    }
}
