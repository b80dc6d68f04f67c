use file_revlog::detail::{DetailOptions, DetailRequest, DetailResult};
use file_revlog::input::{EventState, KeyAction};
use file_revlog::pane::{
    FetchStatus, FileRevlogComponent, LogPoll, NotificationKind, OutboundEvent, UpdateKind,
    SLICE_SIZE,
};
use file_revlog::window::{RevisionId, RevisionSummary};

fn rev(id: u64) -> RevisionSummary {
    RevisionSummary {
        id: RevisionId { value: id },
        hash_short: format!("{id:07x}"),
        author: String::from("ada"),
        timestamp: 1_600_000_000 + id,
        message: format!("change {id}"),
    }
}

fn result_lines(n: usize) -> DetailResult {
    DetailResult { lines: (0..n).map(|i| format!("line {i}")).collect() }
}

/// An open pane with identifiers `ids` fetched at total `ids.len()`.
fn opened(path: &str, ids: &[u64]) -> FileRevlogComponent {
    let mut c = FileRevlogComponent::new();
    c.open(String::from(path));
    let items: Vec<RevisionSummary> = ids.iter().map(|&i| rev(i)).collect();
    let total = items.len();
    c.apply_slice(0, items, total);
    c
}

#[test]
fn new_pane_is_closed_and_blank() {
    let c = FileRevlogComponent::new();
    assert!(!c.is_visible());
    assert_eq!(c.selection, 0);
    assert!(c.file_path.is_none());
    assert_eq!(c.items.len(), 0);
}

#[test]
fn open_selects_zero_with_empty_window() {
    let mut c = FileRevlogComponent::new();
    c.open(String::from("src/a.rs"));
    assert!(c.is_visible());
    assert_eq!(c.selection, 0);
    assert_eq!(c.items.len(), 0);
    assert_eq!(c.count_total, 0);
    // Until the first refresh pass nothing is cached; the first poll
    // asks for a slice at the selection.
    let spec = c
        .update(LogPoll { fetch_status: FetchStatus::NoChange, count: 0 })
        .expect("empty window must be fetched");
    assert_eq!(spec.start, 0);
    assert_eq!(spec.max_len, SLICE_SIZE);
}

#[test]
fn reopen_discards_previous_session() {
    let mut c = opened("src/a.rs", &[1, 2, 3]);
    c.event(KeyAction::MoveDown);
    assert_eq!(c.selection, 1);
    c.open(String::from("src/b.rs"));
    assert_eq!(c.selection, 0);
    assert_eq!(c.items.len(), 0);
    assert_eq!(c.count_total, 0);
    assert_eq!(c.file_path.as_deref(), Some("src/b.rs"));
}

#[test]
fn update_is_quiet_while_window_is_fresh() {
    let c = opened("src/a.rs", &[1, 2, 3]);
    let r = c.update(LogPoll { fetch_status: FetchStatus::NoChange, count: 3 });
    assert!(r.is_none());
}

#[test]
fn update_refetches_when_total_moves() {
    let c = opened("src/a.rs", &[1, 2, 3]);
    let r = c.update(LogPoll { fetch_status: FetchStatus::NoChange, count: 4 });
    assert!(r.is_some());
}

#[test]
fn update_refetches_when_stream_restarts() {
    let c = opened("src/a.rs", &[1, 2, 3]);
    let r = c.update(LogPoll { fetch_status: FetchStatus::Started, count: 3 });
    assert!(r.is_some());
}

#[test]
fn update_before_open_does_nothing() {
    let c = FileRevlogComponent::new();
    let r = c.update(LogPoll { fetch_status: FetchStatus::Started, count: 9 });
    assert!(r.is_none());
}

#[test]
fn notification_dispatch() {
    let mut c = opened("src/a.rs", &[1]);
    assert_eq!(c.update_git(NotificationKind::Log), UpdateKind::Full);
    assert_eq!(c.update_git(NotificationKind::CommitFiles), UpdateKind::Full);
    assert_eq!(c.update_git(NotificationKind::Diff), UpdateKind::DetailOnly);
    assert_eq!(c.update_git(NotificationKind::Other), UpdateKind::Ignore);
    c.close();
    assert_eq!(c.update_git(NotificationKind::Log), UpdateKind::Ignore);
}

#[test]
fn detail_request_carries_selection_and_path() {
    let mut c = opened("src/a.rs", &[7, 8]);
    let req = c.update_diff(None).expect("first pass must issue a request");
    assert_eq!(req.path, "src/a.rs");
    assert_eq!(req.revision.value, 7);
    // While the request is out, the view shows the empty/loading state.
    assert!(c.diff.pending);
    assert!(c.diff.content.is_none());
}

#[test]
fn equal_request_is_not_reissued() {
    let mut c = opened("src/a.rs", &[7, 8]);
    let req = c.update_diff(None).expect("first pass must issue a request");
    // The engine completes; the next pass reuses the pair and issues nothing.
    let r = c.update_diff(Some((req, result_lines(4))));
    assert!(r.is_none());
    assert!(!c.diff.pending);
    let content = c.diff.content.as_ref().expect("completed result is displayed");
    assert_eq!(content.result.lines.len(), 4);
    assert_eq!(content.path, "src/a.rs");
}

#[test]
fn changed_selection_supersedes_and_clears() {
    let mut c = opened("src/a.rs", &[7, 8]);
    let first = c.update_diff(None).unwrap();
    let done = (first, result_lines(4));
    assert!(c.update_diff(Some(done)).is_none());
    // Move to a revision with a different identifier.
    c.event(KeyAction::MoveDown);
    let stale = DetailRequest {
        path: String::from("src/a.rs"),
        revision: RevisionId { value: 7 },
        options: DetailOptions::standard(),
    };
    let second = c
        .update_diff(Some((stale, result_lines(4))))
        .expect("a stale pair must be superseded");
    assert_eq!(second.revision.value, 8);
    // No stale diff stays on screen while the new result is computed.
    assert!(c.diff.pending);
    assert!(c.diff.content.is_none());
}

#[test]
fn no_selection_clears_idle() {
    let mut c = FileRevlogComponent::new();
    c.open(String::from("src/a.rs"));
    // Window still empty: no candidate exists.
    let r = c.update_diff(None);
    assert!(r.is_none());
    assert!(!c.diff.pending);
    assert!(c.diff.content.is_none());
}

#[test]
fn hidden_pane_skips_detail_pass() {
    let mut c = opened("src/a.rs", &[7]);
    c.close();
    let r = c.update_diff(None);
    assert!(r.is_none());
    assert!(!c.diff.pending);
}

#[test]
fn scenario_three_revisions() {
    // A stream of three identifiers; paging with viewport height 5 moves
    // by 3 and clamps at index 2; detail for the end then for the start
    // issues two distinct requests.
    let mut c = opened("src/a.rs", &[0xa, 0xb, 0xc]);
    c.set_viewport_height(5);
    assert_eq!(c.selection, 0);
    c.event(KeyAction::PageDown);
    assert_eq!(c.selection, 2);
    let first = c.update_diff(None).expect("detail for the new selection");
    assert_eq!(first.revision.value, 0xc);
    c.event(KeyAction::Home);
    assert_eq!(c.selection, 0);
    let second = c
        .update_diff(Some((first, result_lines(2))))
        .expect("a different selection needs a new request");
    assert_eq!(second.revision.value, 0xa);
}

#[test]
fn focus_handshake_and_close() {
    let mut c = opened("src/a.rs", &[1]);
    assert_eq!(c.event(KeyAction::FocusRight), EventState::Consumed);
    assert!(c.diff.focused);
    // First "back to list" unfocuses the detail view, pane stays open.
    assert_eq!(c.event(KeyAction::FocusLeft), EventState::Consumed);
    assert!(!c.diff.focused);
    assert!(c.is_visible());
    // Second one closes the pane.
    assert_eq!(c.event(KeyAction::FocusLeft), EventState::Consumed);
    assert!(!c.is_visible());
}

#[test]
fn focus_right_needs_a_selection() {
    let mut c = FileRevlogComponent::new();
    c.open(String::from("src/a.rs"));
    assert_eq!(c.event(KeyAction::FocusRight), EventState::Consumed);
    assert!(!c.diff.focused);
}

#[test]
fn focused_detail_consumes_navigation() {
    let mut c = opened("src/a.rs", &[7, 8]);
    let req = c.update_diff(None).unwrap();
    c.update_diff(Some((req, result_lines(10))));
    c.set_viewport_height(5);
    c.event(KeyAction::FocusRight);
    c.event(KeyAction::MoveDown);
    // The detail view scrolled; the list selection did not move.
    assert_eq!(c.diff.scroll, 1);
    assert_eq!(c.selection, 0);
    c.event(KeyAction::PageDown);
    assert_eq!(c.diff.scroll, 4);
    c.event(KeyAction::Home);
    assert_eq!(c.diff.scroll, 0);
}

#[test]
fn selection_change_queues_refresh_signal() {
    let mut c = opened("src/a.rs", &[1, 2]);
    c.event(KeyAction::MoveDown);
    assert_eq!(c.take_events(), vec![OutboundEvent::RefreshDetail]);
    // Drained; a move that hits the bound queues nothing.
    c.event(KeyAction::MoveDown);
    assert!(c.take_events().is_empty());
}

#[test]
fn enter_inspects_selected_revision() {
    let mut c = opened("src/a.rs", &[5, 6]);
    c.event(KeyAction::MoveDown);
    c.take_events();
    assert_eq!(c.event(KeyAction::Enter), EventState::Consumed);
    assert!(!c.is_visible());
    assert_eq!(
        c.take_events(),
        vec![OutboundEvent::InspectRevision(RevisionId { value: 6 })]
    );
}

#[test]
fn enter_without_selection_closes_and_swallows() {
    let mut c = FileRevlogComponent::new();
    c.open(String::from("src/a.rs"));
    // No identifier resolves, so nothing is inspected — but the pane is
    // modal, so the key is still consumed while it closes.
    assert_eq!(c.event(KeyAction::Enter), EventState::Consumed);
    assert!(!c.is_visible());
    assert!(c.take_events().is_empty());
}

#[test]
fn visible_pane_is_modal() {
    let mut c = opened("src/a.rs", &[1]);
    assert_eq!(c.event(KeyAction::Other), EventState::Consumed);
    c.close();
    assert_eq!(c.event(KeyAction::Other), EventState::NotConsumed);
    assert_eq!(c.event(KeyAction::MoveDown), EventState::NotConsumed);
}

#[test]
fn exit_key_closes_and_keeps_state() {
    let mut c = opened("src/a.rs", &[1, 2, 3]);
    c.event(KeyAction::MoveDown);
    assert_eq!(c.event(KeyAction::ExitPopup), EventState::Consumed);
    assert!(!c.is_visible());
    // Closing retains the session state.
    assert_eq!(c.selection, 1);
    assert_eq!(c.items.len(), 3);
}

#[test]
fn selected_commit_follows_the_window() {
    let mut c = opened("src/a.rs", &[9, 10]);
    assert_eq!(c.selected_commit(), Some(RevisionId { value: 9 }));
    assert!(c.can_focus_diff());
    c.event(KeyAction::End);
    assert_eq!(c.selected_commit(), Some(RevisionId { value: 10 }));
    // A window that no longer covers the selection yields no identifier.
    c.apply_slice(5, vec![rev(1)], 20);
    assert_eq!(c.selected_commit(), None);
    assert!(!c.can_focus_diff());
}

#[test]
fn max_selection_saturates() {
    let mut c = opened("src/a.rs", &[1, 2, 3]);
    assert_eq!(c.get_max_selection(), 2);
    c.apply_slice(0, vec![], 0);
    assert_eq!(c.get_max_selection(), 0);
}

#[test]
fn request_equality_is_structural() {
    let a = DetailRequest {
        path: String::from("p"),
        revision: RevisionId { value: 1 },
        options: DetailOptions::standard(),
    };
    let b = DetailRequest {
        path: String::from("p"),
        revision: RevisionId { value: 1 },
        options: DetailOptions::standard(),
    };
    let c = DetailRequest {
        path: String::from("q"),
        revision: RevisionId { value: 1 },
        options: DetailOptions::standard(),
    };
    assert!(a.same_as(&b));
    assert!(!a.same_as(&c));
    let mut d = DetailRequest {
        path: String::from("p"),
        revision: RevisionId { value: 2 },
        options: DetailOptions::standard(),
    };
    assert!(!a.same_as(&d));
    d.revision.value = 1;
    d.options.ignore_whitespace = true;
    assert!(!a.same_as(&d));
}

#[test]
fn show_after_close_retains_session() {
    let mut c = opened("src/a.rs", &[1, 2]);
    c.event(KeyAction::MoveDown);
    c.close();
    assert!(!c.is_visible());
    c.show();
    assert!(c.is_visible());
    assert_eq!(c.selection, 1);
    assert_eq!(c.items.len(), 2);
    assert_eq!(c.file_path.as_deref(), Some("src/a.rs"));
}
