//! The revision-history pane: lifecycle, data refresh and input routing.
//!
//! The pane owns the window cache, the selection, the embedded detail
//! view and the focus handshake between itself and that view. The
//! long-running collaborators — the filtered revision stream and the diff
//! engine — run outside; the host polls them and hands their answers in,
//! and every decision taken on those answers is made, and verified, here.

use vstd::prelude::*;

use crate::detail::{DetailOptions, DetailRequest, DetailResult, DetailView};
use crate::input::{EventState, KeyAction};
use crate::selection::{next_selection, spec_next_selection, spec_scroll_of_key, ScrollType};
use crate::window::{RevisionId, RevisionSummary, WindowCache};

pub use crate::window::SLICE_SIZE;

verus! {

/// What a poll of the revision stream reported about its own life:
/// whether the filtered stream was (re)started since the last poll — which
/// invalidates every position-based cache — or merely kept growing.
#[derive(Clone, Copy, PartialEq, Eq, Structural, Debug)]
pub enum FetchStatus {
    Started,
    NoChange,
}

/// One poll of the revision stream: its fetch status and the total number
/// of matching revisions known so far.
#[derive(Clone, Copy, PartialEq, Eq, Structural, Debug)]
pub struct LogPoll {
    pub fetch_status: FetchStatus,
    pub count: usize,
}

/// The kind of a background-completion notification.
#[derive(Clone, Copy, PartialEq, Eq, Structural, Debug)]
pub enum NotificationKind {
    /// New revision-list progress.
    Log,
    /// The per-revision file lists changed.
    CommitFiles,
    /// A diff computation completed.
    Diff,
    /// Anything the pane does not react to.
    Other,
}

/// Which refresh a notification calls for.
#[derive(Clone, Copy, PartialEq, Eq, Structural, Debug)]
pub enum UpdateKind {
    /// Poll the stream, refetch the window if stale, then refresh the detail.
    Full,
    /// Refresh only the detail view.
    DetailOnly,
    /// Do nothing.
    Ignore,
}

/// A slice the host should fetch from the revision stream.
#[derive(Clone, Copy, PartialEq, Eq, Structural, Debug)]
pub struct SliceSpec {
    pub start: usize,
    pub max_len: usize,
}

/// A signal the pane hands outward for the host to act on.
#[derive(Clone, Copy, PartialEq, Eq, Structural, Debug)]
pub enum OutboundEvent {
    /// The selection changed; the detail view needs a refresh pass.
    RefreshDetail,
    /// The user asked to inspect this revision in full.
    InspectRevision(RevisionId),
}

/// Which sub-region of the pane receives keyboard input.
#[derive(Clone, Copy, PartialEq, Eq, Structural, Debug)]
pub enum FocusKind {
    List,
    Detail,
}

/// The file-scoped revision-history pane.
pub struct FileRevlogComponent {
    pub visible: bool,
    /// The path whose history is open, once `open` ran.
    pub file_path: Option<String>,
    /// The logical selection index into the virtual revision list.
    pub selection: usize,
    pub items: WindowCache,
    /// The total reported by the stream when the window was last fetched.
    pub count_total: usize,
    /// Viewport height, as last reported by the host; page movements jump
    /// by this less the two border rows.
    pub current_height: usize,
    /// The pane's half of the focus handshake with the detail view.
    pub focus: FocusKind,
    pub diff: DetailView,
    /// Signals awaiting the host, oldest first.
    pub out_events: Vec<OutboundEvent>,
}

impl FileRevlogComponent {
    /// Well-formedness: the two halves of the focus handshake agree, the
    /// detail view is itself well-formed, and the cached window never
    /// holds more than the one slice a fetch asks for.
    pub open spec fn wf(&self) -> bool {
        &&& (self.focus is Detail) <==> self.diff.focused
        &&& self.diff.wf()
        &&& self.items.items@.len() <= SLICE_SIZE
    }

    /// The largest legal selection index: one below the known total,
    /// saturating at 0 for an empty list.
    pub open spec fn spec_max_selection(&self) -> int {
        if self.count_total >= 1 {
            self.count_total - 1
        } else {
            0
        }
    }

    /// The identifier under the selection, if the cached window covers it.
    pub open spec fn spec_selected_id(&self) -> Option<RevisionId> {
        if self.items.covers(self.selection as int) {
            Some(self.items.spec_at(self.selection as int).id)
        } else {
            None
        }
    }

    /// Whether a detail candidate exists: a path is open and the
    /// selection resolves to an identifier.
    pub open spec fn spec_has_request(&self) -> bool {
        self.file_path is Some && self.spec_selected_id() is Some
    }

    /// Whether `req` is exactly the request the pane's current state
    /// calls for: the open path, the selected revision, standard options.
    pub open spec fn matches_current(&self, req: &DetailRequest) -> bool {
        &&& self.file_path matches Some(p) && req.path@ == p@
        &&& self.spec_selected_id() matches Some(id) && req.revision == id
        &&& req.options == (DetailOptions {
            ignore_whitespace: false,
            context: 3u32,
            interhunk_lines: 0u32,
        })
    }

    /// Whether the last completed (request, result) pair answers the
    /// current candidate, so no new request is needed.
    pub open spec fn spec_reuses(&self, last: &Option<(DetailRequest, DetailResult)>) -> bool {
        match last {
            Some(pair) => self.matches_current(&pair.0),
            None => false,
        }
    }

    /// Whether a detail-refresh pass must issue a new request: the pane
    /// is visible, a candidate exists, and the last completed pair does
    /// not answer it.
    pub open spec fn spec_issues_request(
        &self,
        last: &Option<(DetailRequest, DetailResult)>,
    ) -> bool {
        self.visible && self.spec_has_request() && !self.spec_reuses(last)
    }

    /// The slice fetch a data-refresh pass calls for, if any: the pane is
    /// open and the window is stale for the polled total, or the stream
    /// itself restarted.
    pub open spec fn spec_update_decision(&self, poll: LogPoll) -> Option<SliceSpec> {
        if self.file_path is Some && (self.items.spec_needs_data(
            self.selection as int,
            poll.count as int,
        ) || poll.fetch_status is Started) {
            Some(SliceSpec { start: self.selection, max_len: SLICE_SIZE })
        } else {
            None
        }
    }

    /// The refresh a notification of `kind` calls for.
    pub open spec fn spec_refresh_kind(&self, kind: NotificationKind) -> UpdateKind {
        if self.visible {
            match kind {
                NotificationKind::Log | NotificationKind::CommitFiles => UpdateKind::Full,
                NotificationKind::Diff => UpdateKind::DetailOnly,
                NotificationKind::Other => UpdateKind::Ignore,
            }
        } else {
            UpdateKind::Ignore
        }
    }

    /// A closed pane: invisible, nothing open, nothing cached, nothing
    /// selected, list focused, detail view blank.
    pub fn new() -> (r: Self)
        ensures
            r.wf(),
            !r.visible,
            r.file_path is None,
            r.selection == 0,
            r.items.items@.len() == 0,
            r.count_total == 0,
            r.current_height == 0,
            r.focus is List,
            !r.diff.focused,
            !r.diff.pending,
            r.diff.content is None,
            r.out_events@ == Seq::<OutboundEvent>::empty(),
    {
        FileRevlogComponent {
            visible: false,
            file_path: None,
            selection: 0,
            items: WindowCache::new(),
            count_total: 0,
            current_height: 0,
            focus: FocusKind::List,
            diff: DetailView::new(),
            out_events: Vec::new(),
        }
    }

    /// Open the history of `file_path`: the pane becomes visible with the
    /// selection at 0, and whatever an earlier session cached — window,
    /// total, detail, focus — is discarded unconditionally, whether or
    /// not the path is the same. The window stays empty until the first
    /// data-refresh pass.
    pub fn open(&mut self, file_path: String)
        requires
            old(self).wf(),
        ensures
            final(self).wf(),
            final(self).visible,
            final(self).file_path matches Some(p) && p@ == file_path@,
            final(self).selection == 0,
            final(self).items.items@.len() == 0,
            final(self).items.start == 0,
            final(self).items.last_total == 0,
            final(self).count_total == 0,
            final(self).focus is List,
            !final(self).diff.focused,
            !final(self).diff.pending,
            final(self).diff.content is None,
            final(self).diff.scroll == 0,
            final(self).current_height == old(self).current_height,
            final(self).out_events@ == old(self).out_events@,
    {
        self.file_path = Some(file_path);
        self.selection = 0;
        self.items.clear();
        self.count_total = 0;
        self.diff.clear(false);
        self.diff.focus(false);
        self.focus = FocusKind::List;
        self.visible = true;
    }

    /// Whether the pane is on screen and accepting input.
    pub fn is_visible(&self) -> (r: bool)
        ensures
            r == self.visible,
    {
        self.visible
    }

    /// Take the pane off screen; all state is retained.
    pub fn close(&mut self)
        ensures
            !final(self).visible,
            final(self).file_path == old(self).file_path,
            final(self).selection == old(self).selection,
            final(self).items == old(self).items,
            final(self).count_total == old(self).count_total,
            final(self).current_height == old(self).current_height,
            final(self).focus == old(self).focus,
            final(self).diff == old(self).diff,
            final(self).out_events@ == old(self).out_events@,
    {
        self.visible = false;
    }

    /// Put the pane back on screen.
    pub fn show(&mut self)
        ensures
            final(self).visible,
            final(self).file_path == old(self).file_path,
            final(self).selection == old(self).selection,
            final(self).items == old(self).items,
            final(self).count_total == old(self).count_total,
            final(self).current_height == old(self).current_height,
            final(self).focus == old(self).focus,
            final(self).diff == old(self).diff,
            final(self).out_events@ == old(self).out_events@,
    {
        self.visible = true;
    }

    /// Record the viewport height the host is rendering the two regions
    /// into.
    pub fn set_viewport_height(&mut self, height: usize)
        requires
            old(self).wf(),
        ensures
            final(self).wf(),
            final(self).current_height == height,
            final(self).diff.height == height,
            final(self).visible == old(self).visible,
            final(self).file_path == old(self).file_path,
            final(self).selection == old(self).selection,
            final(self).items == old(self).items,
            final(self).count_total == old(self).count_total,
            final(self).focus == old(self).focus,
            final(self).diff.focused == old(self).diff.focused,
            final(self).diff.pending == old(self).diff.pending,
            final(self).diff.content == old(self).diff.content,
            final(self).diff.scroll == old(self).diff.scroll,
            final(self).out_events@ == old(self).out_events@,
    {
        self.current_height = height;
        self.diff.set_height(height);
    }

    /// The identifier under the selection, if the window covers it.
    pub fn selected_commit(&self) -> (r: Option<RevisionId>)
        ensures
            r == self.spec_selected_id(),
    {
        match self.items.get_at(self.selection) {
            Some(s) => Some(s.id),
            None => None,
        }
    }

    /// Focus may move to the detail view only while a selection exists.
    pub fn can_focus_diff(&self) -> (r: bool)
        ensures
            r == (self.spec_selected_id() is Some),
    {
        self.selected_commit().is_some()
    }

    /// The largest legal selection index for the known total.
    pub fn get_max_selection(&self) -> (r: usize)
        ensures
            r == self.spec_max_selection(),
    {
        if self.count_total >= 1 {
            self.count_total - 1
        } else {
            0
        }
    }

    /// Hand out the signals collected for the host, oldest first.
    pub fn take_events(&mut self) -> (r: Vec<OutboundEvent>)
        ensures
            r@ == old(self).out_events@,
            final(self).out_events@ == Seq::<OutboundEvent>::empty(),
            final(self).visible == old(self).visible,
            final(self).file_path == old(self).file_path,
            final(self).selection == old(self).selection,
            final(self).items == old(self).items,
            final(self).count_total == old(self).count_total,
            final(self).current_height == old(self).current_height,
            final(self).focus == old(self).focus,
            final(self).diff == old(self).diff,
    {
        let mut taken: Vec<OutboundEvent> = Vec::new();
        core::mem::swap(&mut taken, &mut self.out_events);
        taken
    }

    /// Apply one navigation command: the selection moves to the clamped
    /// target index, and whenever it actually moved, a `RefreshDetail`
    /// signal is queued — a selection change is the sole input-side
    /// trigger for detail recomputation.
    pub fn move_selection(&mut self, scroll: ScrollType) -> (changed: bool)
        requires
            old(self).wf(),
        ensures
            final(self).wf(),
            final(self).selection == spec_next_selection(
                scroll,
                old(self).selection as int,
                old(self).spec_max_selection(),
                old(self).current_height as int,
            ),
            changed == (final(self).selection != old(self).selection),
            changed ==> final(self).out_events@ == old(self).out_events@.push(
                OutboundEvent::RefreshDetail,
            ),
            !changed ==> final(self).out_events@ == old(self).out_events@,
            final(self).visible == old(self).visible,
            final(self).file_path == old(self).file_path,
            final(self).items == old(self).items,
            final(self).count_total == old(self).count_total,
            final(self).current_height == old(self).current_height,
            final(self).focus == old(self).focus,
            final(self).diff == old(self).diff,
    {
        let max_selection = self.get_max_selection();
        let new_selection = next_selection(
            scroll,
            self.selection,
            max_selection,
            self.current_height,
        );
        let changed = new_selection != self.selection;
        if changed {
            self.out_events.push(OutboundEvent::RefreshDetail);
        }
        self.selection = new_selection;
        changed
    }

    /// Decide a data-refresh pass: given one poll of the revision stream,
    /// the slice the host must fetch, or nothing when the cached window
    /// still serves the selection at the polled total and the stream did
    /// not restart.
    pub fn update(&self, poll: LogPoll) -> (r: Option<SliceSpec>)
        ensures
            r == self.spec_update_decision(poll),
    {
        if self.file_path.is_some() {
            let log_changed = matches!(poll.fetch_status, FetchStatus::Started);
            if self.items.needs_data(self.selection, poll.count) || log_changed {
                Some(SliceSpec { start: self.selection, max_len: SLICE_SIZE })
            } else {
                None
            }
        } else {
            None
        }
    }

    /// Install a fetched slice: the window is replaced wholesale and the
    /// total the stream reported alongside it is recorded. At most one
    /// slice is ever retained, so the list's memory stays bounded.
    pub fn apply_slice(&mut self, start: usize, items: Vec<RevisionSummary>, total: usize)
        requires
            old(self).wf(),
            items@.len() <= SLICE_SIZE,
        ensures
            final(self).wf(),
            final(self).items.start == start,
            final(self).items.items@ == items@,
            final(self).items.last_total == total,
            final(self).count_total == total,
            final(self).visible == old(self).visible,
            final(self).file_path == old(self).file_path,
            final(self).selection == old(self).selection,
            final(self).current_height == old(self).current_height,
            final(self).focus == old(self).focus,
            final(self).diff == old(self).diff,
            final(self).out_events@ == old(self).out_events@,
    {
        self.items.set_items(start, items, total);
        self.count_total = total;
    }

    /// Decide which refresh a background notification calls for: a
    /// list-class notification asks for the full pass, a diff completion
    /// only for the cheaper detail pass, and a hidden pane ignores all.
    pub fn update_git(&self, kind: NotificationKind) -> (r: UpdateKind)
        ensures
            r == self.spec_refresh_kind(kind),
    {
        if self.visible {
            match kind {
                NotificationKind::Log | NotificationKind::CommitFiles => UpdateKind::Full,
                NotificationKind::Diff => UpdateKind::DetailOnly,
                NotificationKind::Other => UpdateKind::Ignore,
            }
        } else {
            UpdateKind::Ignore
        }
    }

    /// One detail-refresh pass. `last` is the diff engine's most recently
    /// completed (request, result) pair. If it answers the current
    /// candidate structurally, the result is displayed and nothing is
    /// issued; otherwise the view drops to the empty/loading state at
    /// once — a stale diff is never left on screen for a new selection —
    /// and the candidate is returned for the host to enqueue. With no
    /// candidate the view is cleared idle; a hidden pane does nothing.
    pub fn update_diff(&mut self, last: Option<(DetailRequest, DetailResult)>) -> (r: Option<
        DetailRequest,
    >)
        requires
            old(self).wf(),
        ensures
            final(self).wf(),
            r is Some <==> old(self).spec_issues_request(&last),
            r matches Some(q) ==> old(self).matches_current(&q),
            old(self).spec_issues_request(&last) ==> final(self).diff.pending
                && final(self).diff.content is None && final(self).diff.scroll == 0,
            old(self).visible && old(self).spec_reuses(&last) ==> (match last {
                Some(pair) => final(self).diff.content matches Some(c) && c.result == pair.1
                    && c.path@ == pair.0.path@ && !final(self).diff.pending,
                None => false,
            }),
            old(self).visible && !old(self).spec_has_request() ==> final(self).diff.content is None
                && !final(self).diff.pending && final(self).diff.scroll == 0,
            !old(self).visible ==> final(self).diff == old(self).diff,
            final(self).diff.focused == old(self).diff.focused,
            final(self).diff.height == old(self).diff.height,
            final(self).visible == old(self).visible,
            final(self).file_path == old(self).file_path,
            final(self).selection == old(self).selection,
            final(self).items == old(self).items,
            final(self).count_total == old(self).count_total,
            final(self).current_height == old(self).current_height,
            final(self).focus == old(self).focus,
            final(self).out_events@ == old(self).out_events@,
    {
        if !self.visible {
            return None;
        }
        let selected = self.selected_commit();
        let path_owned: Option<String> = match &self.file_path {
            Some(p) => Some(p.clone()),
            None => None,
        };
        match (selected, path_owned) {
            (Some(revision), Some(path)) => {
                let candidate = DetailRequest {
                    path,
                    revision,
                    options: DetailOptions::standard(),
                };
                match last {
                    Some(pair) => {
                        if pair.0.same_as(&candidate) {
                            self.diff.update(candidate.path, pair.1);
                            None
                        } else {
                            self.diff.clear(true);
                            Some(candidate)
                        }
                    },
                    None => {
                        self.diff.clear(true);
                        Some(candidate)
                    },
                }
            },
            _ => {
                self.diff.clear(false);
                None
            },
        }
    }

    /// Route one resolved key action. A hidden pane takes nothing. While
    /// visible the action is first offered to the detail view if that
    /// view holds focus; otherwise the pane interprets it: close, focus
    /// handovers, inspect, or a selection move — and any key it has no
    /// use for is still swallowed, since the pane is modal while open.
    pub fn event(&mut self, action: KeyAction) -> (r: EventState)
        requires
            old(self).wf(),
        ensures
            final(self).wf(),
            !old(self).visible ==> r is NotConsumed && *final(self) == *old(self),
            // The pane is modal while open: every action on a visible
            // pane is consumed, never handed to what sits behind it.
            old(self).visible ==> r is Consumed,
            // While the detail view holds focus it consumes the
            // navigation keys, scrolling itself; the pane is untouched.
            old(self).visible && old(self).diff.focused && spec_scroll_of_key(action) is Some ==> {
                &&& final(self).diff.scroll == spec_next_selection(
                    spec_scroll_of_key(action).unwrap(),
                    old(self).diff.scroll as int,
                    old(self).diff.spec_max_scroll(),
                    old(self).diff.height as int,
                )
                &&& final(self).diff.content == old(self).diff.content
                &&& final(self).diff.pending == old(self).diff.pending
                &&& final(self).diff.focused == old(self).diff.focused
                &&& final(self).visible == old(self).visible
                &&& final(self).selection == old(self).selection
                &&& final(self).focus == old(self).focus
                &&& final(self).out_events@ == old(self).out_events@
                &&& final(self).items == old(self).items
                &&& final(self).file_path == old(self).file_path
            },
            old(self).visible && !(old(self).diff.focused && spec_scroll_of_key(action) is Some)
                ==> match action {
                KeyAction::ExitPopup => !final(self).visible
                    && final(self).selection == old(self).selection
                    && final(self).focus == old(self).focus
                    && final(self).diff == old(self).diff
                    && final(self).out_events@ == old(self).out_events@,
                KeyAction::FocusRight => {
                    &&& final(self).visible
                    &&& old(self).spec_selected_id() is Some ==> final(self).focus is Detail
                        && final(self).diff.focused
                    &&& old(self).spec_selected_id() is None ==> *final(self) == *old(self)
                    &&& final(self).selection == old(self).selection
                    &&& final(self).out_events@ == old(self).out_events@
                },
                KeyAction::FocusLeft => {
                    &&& old(self).diff.focused ==> final(self).visible
                        && final(self).focus is List && !final(self).diff.focused
                    &&& !old(self).diff.focused ==> !final(self).visible && final(self).focus
                        == old(self).focus && final(self).diff == old(self).diff
                    &&& final(self).selection == old(self).selection
                    &&& final(self).out_events@ == old(self).out_events@
                },
                KeyAction::Enter => {
                    &&& !final(self).visible
                    &&& final(self).selection == old(self).selection
                    &&& final(self).diff == old(self).diff
                    &&& match old(self).spec_selected_id() {
                        Some(id) => final(self).out_events@ == old(self).out_events@.push(
                            OutboundEvent::InspectRevision(id),
                        ),
                        None => final(self).out_events@ == old(self).out_events@,
                    }
                },
                KeyAction::Other => *final(self) == *old(self),
                _ => {
                    // A navigation key while the list holds focus.
                    &&& spec_scroll_of_key(action) matches Some(sc) && final(self).selection
                        == spec_next_selection(
                        sc,
                        old(self).selection as int,
                        old(self).spec_max_selection(),
                        old(self).current_height as int,
                    )
                    &&& final(self).selection != old(self).selection ==> final(self).out_events@
                        == old(self).out_events@.push(OutboundEvent::RefreshDetail)
                    &&& final(self).selection == old(self).selection ==> final(self).out_events@
                        == old(self).out_events@
                    &&& final(self).visible
                    &&& final(self).focus == old(self).focus
                    &&& final(self).diff == old(self).diff
                },
            },
            final(self).file_path == old(self).file_path,
            final(self).items == old(self).items,
            final(self).count_total == old(self).count_total,
            final(self).current_height == old(self).current_height,
    {
        if !self.is_visible() {
            return EventState::NotConsumed;
        }
        if self.diff.focused() {
            let state = self.diff.event(action);
            if state.is_consumed() {
                return EventState::Consumed;
            }
        }
        match action {
            KeyAction::ExitPopup => {
                self.close();
                EventState::Consumed
            },
            KeyAction::FocusRight => {
                if self.can_focus_diff() {
                    self.diff.focus(true);
                    self.focus = FocusKind::Detail;
                }
                EventState::Consumed
            },
            KeyAction::FocusLeft => {
                if self.diff.focused() {
                    self.diff.focus(false);
                    self.focus = FocusKind::List;
                } else {
                    self.close();
                }
                EventState::Consumed
            },
            KeyAction::Enter => {
                self.close();
                if let Some(id) = self.selected_commit() {
                    self.out_events.push(OutboundEvent::InspectRevision(id));
                }
                EventState::Consumed
            },
            KeyAction::MoveUp => {
                self.move_selection(ScrollType::Up);
                EventState::Consumed
            },
            KeyAction::MoveDown => {
                self.move_selection(ScrollType::Down);
                EventState::Consumed
            },
            KeyAction::Home => {
                self.move_selection(ScrollType::Home);
                EventState::Consumed
            },
            KeyAction::End => {
                self.move_selection(ScrollType::End);
                EventState::Consumed
            },
            KeyAction::PageUp => {
                self.move_selection(ScrollType::PageUp);
                EventState::Consumed
            },
            KeyAction::PageDown => {
                self.move_selection(ScrollType::PageDown);
                EventState::Consumed
            },
            KeyAction::Other => EventState::Consumed,
        }
    }
}

/// Law: a candidate identical to the last completed request is never
/// reissued — no state in which the last pair answers the current
/// candidate issues a new request.
pub proof fn law_detail_dedup(s: FileRevlogComponent, pair: (DetailRequest, DetailResult))
    requires
        s.matches_current(&pair.0),
    ensures
        !s.spec_issues_request(&Some(pair)),
{
}

/// Law: a completed pair that no longer answers the current candidate is
/// superseded — a visible pane with a candidate always issues a new
/// request over it, and `update_diff`'s contract then puts the view in
/// the empty/loading state.
pub proof fn law_detail_supersede(s: FileRevlogComponent, pair: (DetailRequest, DetailResult))
    requires
        s.visible,
        s.spec_has_request(),
        !s.matches_current(&pair.0),
    ensures
        s.spec_issues_request(&Some(pair)),
{
}

} // verus!
