use file_revlog::selection::{next_selection, ScrollType};

#[test]
fn step_down_saturates_at_max() {
    // Repeated downward steps never pass the largest index.
    let mut idx = 0usize;
    for _ in 0..10 {
        idx = next_selection(ScrollType::Down, idx, 2, 5);
        assert!(idx <= 2);
    }
    assert_eq!(idx, 2);
}

#[test]
fn step_up_saturates_at_zero() {
    let mut idx = 1usize;
    for _ in 0..10 {
        idx = next_selection(ScrollType::Up, idx, 2, 5);
    }
    assert_eq!(idx, 0);
}

#[test]
fn single_steps_move_by_one() {
    assert_eq!(next_selection(ScrollType::Down, 0, 9, 5), 1);
    assert_eq!(next_selection(ScrollType::Up, 5, 9, 5), 4);
}

#[test]
fn home_and_end_jump_to_bounds() {
    assert_eq!(next_selection(ScrollType::Home, 7, 9, 5), 0);
    assert_eq!(next_selection(ScrollType::End, 0, 9, 5), 9);
}

#[test]
fn page_moves_jump_by_height_less_borders() {
    // Height 7 leaves 5 usable rows.
    assert_eq!(next_selection(ScrollType::PageDown, 0, 100, 7), 5);
    assert_eq!(next_selection(ScrollType::PageUp, 20, 100, 7), 15);
}

#[test]
fn page_moves_clamp_at_bounds() {
    assert_eq!(next_selection(ScrollType::PageDown, 98, 100, 7), 100);
    assert_eq!(next_selection(ScrollType::PageUp, 3, 100, 7), 0);
}

#[test]
fn short_viewport_pages_do_not_move() {
    assert_eq!(next_selection(ScrollType::PageDown, 4, 100, 1), 4);
    assert_eq!(next_selection(ScrollType::PageUp, 4, 100, 2), 4);
}

#[test]
fn down_from_above_max_clamps_back() {
    // A total that shrank leaves the index above the new maximum; the
    // next downward step clamps it back.
    assert_eq!(next_selection(ScrollType::Down, 9, 2, 5), 2);
}

#[test]
fn saturates_at_the_largest_representable_index() {
    let max = usize::MAX - 1;
    assert_eq!(next_selection(ScrollType::Down, max, max, 5), max);
    assert_eq!(next_selection(ScrollType::End, 0, max, 5), max);
    assert_eq!(next_selection(ScrollType::PageDown, max - 1, max, usize::MAX), max);
}
