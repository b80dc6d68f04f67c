//! Navigation math for the selection index.
//!
//! Every movement command is a pure function of the current index, the
//! largest legal index and the viewport height; the result is always
//! clamped into `[0, max_idx]` for the downward commands and floored at 0
//! for the upward ones.

use vstd::prelude::*;

use crate::input::KeyAction;

verus! {

/// A discrete navigation command over the revision list.
#[derive(Clone, Copy, PartialEq, Eq, Structural, Debug)]
pub enum ScrollType {
    Up,
    Down,
    Home,
    End,
    PageUp,
    PageDown,
}

/// How far a page movement jumps: the viewport height less the two rows
/// reserved for the borders, and nothing when the viewport is shorter.
pub open spec fn page_step(height: int) -> int {
    if height >= 2 {
        height - 2
    } else {
        0
    }
}

/// The index a single navigation command moves to, starting from
/// `old_idx`, with `max_idx` the largest legal index.
pub open spec fn spec_next_selection(
    scroll: ScrollType,
    old_idx: int,
    max_idx: int,
    height: int,
) -> int {
    match scroll {
        ScrollType::Up => if old_idx >= 1 {
            old_idx - 1
        } else {
            0
        },
        ScrollType::Down => if old_idx < max_idx {
            old_idx + 1
        } else {
            max_idx
        },
        ScrollType::Home => 0,
        ScrollType::End => max_idx,
        ScrollType::PageUp => if old_idx >= page_step(height) {
            old_idx - page_step(height)
        } else {
            0
        },
        ScrollType::PageDown => if old_idx + page_step(height) < max_idx {
            old_idx + page_step(height)
        } else {
            max_idx
        },
    }
}

/// Executable counterpart of [`spec_next_selection`]; never overflows and
/// never panics.
pub fn next_selection(scroll: ScrollType, old_idx: usize, max_idx: usize, height: usize) -> (r:
    usize)
    ensures
        r == spec_next_selection(scroll, old_idx as int, max_idx as int, height as int),
{
    let step: usize = if height >= 2 {
        height - 2
    } else {
        0
    };
    match scroll {
        ScrollType::Up => if old_idx >= 1 {
            old_idx - 1
        } else {
            0
        },
        ScrollType::Down => if old_idx < max_idx {
            old_idx + 1
        } else {
            max_idx
        },
        ScrollType::Home => 0,
        ScrollType::End => max_idx,
        ScrollType::PageUp => if old_idx >= step {
            old_idx - step
        } else {
            0
        },
        ScrollType::PageDown => if old_idx >= max_idx {
            max_idx
        } else {
            if max_idx - old_idx <= step {
                max_idx
            } else {
                old_idx + step
            }
        },
    }
}

/// The navigation command a key action stands for, if any.
pub open spec fn spec_scroll_of_key(action: KeyAction) -> Option<ScrollType> {
    match action {
        KeyAction::MoveUp => Some(ScrollType::Up),
        KeyAction::MoveDown => Some(ScrollType::Down),
        KeyAction::Home => Some(ScrollType::Home),
        KeyAction::End => Some(ScrollType::End),
        KeyAction::PageUp => Some(ScrollType::PageUp),
        KeyAction::PageDown => Some(ScrollType::PageDown),
        _ => None,
    }
}

/// Executable counterpart of [`spec_scroll_of_key`].
pub fn scroll_of_key(action: KeyAction) -> (r: Option<ScrollType>)
    ensures
        r == spec_scroll_of_key(action),
{
    match action {
        KeyAction::MoveUp => Some(ScrollType::Up),
        KeyAction::MoveDown => Some(ScrollType::Down),
        KeyAction::Home => Some(ScrollType::Home),
        KeyAction::End => Some(ScrollType::End),
        KeyAction::PageUp => Some(ScrollType::PageUp),
        KeyAction::PageDown => Some(ScrollType::PageDown),
        _ => None,
    }
}

/// The index reached by running a sequence of navigation commands in order.
pub open spec fn apply_scrolls(ops: Seq<ScrollType>, start: int, max_idx: int, height: int) -> int
    decreases ops.len(),
{
    if ops.len() == 0 {
        start
    } else {
        apply_scrolls(
            ops.drop_first(),
            spec_next_selection(ops[0], start, max_idx, height),
            max_idx,
            height,
        )
    }
}

/// A single command never moves the index above `max_idx` unless it was
/// already there, and the strictly downward commands always land at or
/// below `max_idx`.
pub proof fn lemma_next_selection_clamped(scroll: ScrollType, old_idx: int, max_idx: int,
    height: int)
    requires
        0 <= old_idx,
        0 <= max_idx,
    ensures
        0 <= spec_next_selection(scroll, old_idx, max_idx, height),
        old_idx <= max_idx ==> spec_next_selection(scroll, old_idx, max_idx, height) <= max_idx,
        scroll is Down || scroll is End || scroll is PageDown ==> spec_next_selection(
            scroll,
            old_idx,
            max_idx,
            height,
        ) <= max_idx,
{
}

/// A run of downward steps never moves the selection past the largest
/// legal index: after at least one `Down`, the index is at most `max_idx`,
/// wherever it started.
pub proof fn law_step_down_bounded(ops: Seq<ScrollType>, start: int, max_idx: int, height: int)
    requires
        ops.len() > 0,
        forall|i: int| 0 <= i < ops.len() ==> ops[i] is Down,
        0 <= start,
        0 <= max_idx,
    ensures
        apply_scrolls(ops, start, max_idx, height) <= max_idx,
    decreases ops.len(),
{
    let next = spec_next_selection(ops[0], start, max_idx, height);
    lemma_next_selection_clamped(ops[0], start, max_idx, height);
    assert(apply_scrolls(ops, start, max_idx, height) == apply_scrolls(
        ops.drop_first(),
        next,
        max_idx,
        height,
    ));
    if ops.len() > 1 {
        assert(forall|i: int|
            0 <= i < ops.drop_first().len() ==> ops.drop_first()[i] == ops[i + 1]);
        law_step_down_bounded(ops.drop_first(), next, max_idx, height);
    } else {
        assert(apply_scrolls(ops.drop_first(), next, max_idx, height) == next);
    }
}

/// A run of upward steps never moves the selection below 0 and never
/// raises it: the index stays within `[0, start]`.
pub proof fn law_step_up_bounded(ops: Seq<ScrollType>, start: int, max_idx: int, height: int)
    requires
        forall|i: int| 0 <= i < ops.len() ==> ops[i] is Up,
        0 <= start,
    ensures
        0 <= apply_scrolls(ops, start, max_idx, height) <= start,
    decreases ops.len(),
{
    if ops.len() > 0 {
        let next = spec_next_selection(ops[0], start, max_idx, height);
        law_step_up_bounded(ops.drop_first(), next, max_idx, height);
    }
}

} // verus!
