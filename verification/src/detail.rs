//! The detail (diff) sub-view and the request records that drive it.
//!
//! A `DetailRequest` identifies one unit of diff work by structural
//! equality; the view shows at most the one most recently completed
//! result and owns its own focus flag and scroll position.

use vstd::prelude::*;

use crate::input::{EventState, KeyAction};
use crate::selection::{
    lemma_next_selection_clamped, next_selection, scroll_of_key, spec_next_selection,
    spec_scroll_of_key,
};
use crate::window::RevisionId;

verus! {

/// Options a diff is computed under.
#[derive(Clone, Copy, PartialEq, Eq, Structural, Debug)]
pub struct DetailOptions {
    pub ignore_whitespace: bool,
    /// Context lines around each hunk.
    pub context: u32,
    /// Maximum lines between two hunks before they are split.
    pub interhunk_lines: u32,
}

impl DetailOptions {
    /// The options every request is issued under unless a caller chooses
    /// otherwise.
    pub fn standard() -> (r: Self)
        ensures
            r == (DetailOptions { ignore_whitespace: false, context: 3u32, interhunk_lines: 0u32 }),
    {
        DetailOptions { ignore_whitespace: false, context: 3, interhunk_lines: 0 }
    }
}

/// One unit of diff work: which revision of which path, under which
/// options. A value type compared structurally.
pub struct DetailRequest {
    pub path: String,
    pub revision: RevisionId,
    pub options: DetailOptions,
}

/// Structural equality of two requests.
pub open spec fn req_matches(a: &DetailRequest, b: &DetailRequest) -> bool {
    a.path@ == b.path@ && a.revision == b.revision && a.options == b.options
}

impl DetailRequest {
    /// Structural comparison; the sole basis of detail de-duplication.
    pub fn same_as(&self, other: &DetailRequest) -> (r: bool)
        ensures
            r == req_matches(self, other),
    {
        self.path == other.path && self.revision == other.revision && self.options
            == other.options
    }
}

/// A completed diff body, line by line.
pub struct DetailResult {
    pub lines: Vec<String>,
}

/// What the detail view currently displays.
pub struct DetailContent {
    pub path: String,
    pub result: DetailResult,
}

/// The embeddable diff view: at most one displayed result, an
/// empty/loading state while a request is out, and its own focus flag.
pub struct DetailView {
    pub focused: bool,
    /// Whether an issued request has not completed yet; only ever true
    /// while nothing is displayed.
    pub pending: bool,
    pub content: Option<DetailContent>,
    /// First displayed line of the content.
    pub scroll: usize,
    /// Viewport height, as last reported by the host.
    pub height: usize,
}

impl DetailView {
    /// The largest legal scroll position for the current content.
    pub open spec fn spec_max_scroll(&self) -> int {
        match self.content {
            Some(c) => if c.result.lines@.len() >= 1 {
                c.result.lines@.len() - 1
            } else {
                0
            },
            None => 0,
        }
    }

    /// Well-formedness: the loading state displays nothing, and the
    /// scroll position never leaves the content.
    pub open spec fn wf(&self) -> bool {
        &&& self.pending ==> self.content is None
        &&& self.scroll <= self.spec_max_scroll()
    }

    /// A fresh, blank, unfocused view.
    pub fn new() -> (r: Self)
        ensures
            r.wf(),
            !r.focused,
            !r.pending,
            r.content is None,
            r.scroll == 0,
            r.height == 0,
    {
        DetailView { focused: false, pending: false, content: None, scroll: 0, height: 0 }
    }

    /// Drop the displayed result; `pending` says whether a replacement is
    /// on its way (loading) or nothing is selected (idle).
    pub fn clear(&mut self, pending: bool)
        ensures
            final(self).wf(),
            final(self).content is None,
            final(self).pending == pending,
            final(self).scroll == 0,
            final(self).focused == old(self).focused,
            final(self).height == old(self).height,
    {
        self.content = None;
        self.pending = pending;
        self.scroll = 0;
    }

    /// Display a completed result; the scroll position is kept where the
    /// new content still covers it and clamped otherwise.
    pub fn update(&mut self, path: String, result: DetailResult)
        ensures
            final(self).wf(),
            !final(self).pending,
            final(self).content matches Some(c) && c.path@ == path@ && c.result == result,
            final(self).scroll == if old(self).scroll <= final(self).spec_max_scroll() {
                old(self).scroll as int
            } else {
                final(self).spec_max_scroll()
            },
            final(self).focused == old(self).focused,
            final(self).height == old(self).height,
    {
        let max_scroll: usize = if result.lines.len() >= 1 {
            result.lines.len() - 1
        } else {
            0
        };
        if self.scroll > max_scroll {
            self.scroll = max_scroll;
        }
        self.content = Some(DetailContent { path, result });
        self.pending = false;
    }

    /// Grant or take the view's own focus flag.
    pub fn focus(&mut self, focus: bool)
        ensures
            final(self).focused == focus,
            final(self).pending == old(self).pending,
            final(self).content == old(self).content,
            final(self).scroll == old(self).scroll,
            final(self).height == old(self).height,
    {
        self.focused = focus;
    }

    /// Whether the view currently holds focus.
    pub fn focused(&self) -> (r: bool)
        ensures
            r == self.focused,
    {
        self.focused
    }

    /// Whether an issued request has not completed yet.
    pub fn is_pending(&self) -> (r: bool)
        ensures
            r == self.pending,
    {
        self.pending
    }

    /// Record the viewport height the host is rendering into.
    pub fn set_height(&mut self, height: usize)
        requires
            old(self).wf(),
        ensures
            final(self).wf(),
            final(self).height == height,
            final(self).focused == old(self).focused,
            final(self).pending == old(self).pending,
            final(self).content == old(self).content,
            final(self).scroll == old(self).scroll,
    {
        self.height = height;
    }

    /// Offer the view a key: while focused it consumes the navigation
    /// keys, scrolling its content; everything else passes through.
    pub fn event(&mut self, action: KeyAction) -> (r: EventState)
        requires
            old(self).wf(),
        ensures
            final(self).wf(),
            final(self).focused == old(self).focused,
            final(self).pending == old(self).pending,
            final(self).content == old(self).content,
            final(self).height == old(self).height,
            r.spec_is_consumed() == (old(self).focused && spec_scroll_of_key(action) is Some),
            final(self).scroll == match spec_scroll_of_key(action) {
                Some(sc) => if old(self).focused {
                    spec_next_selection(
                        sc,
                        old(self).scroll as int,
                        old(self).spec_max_scroll(),
                        old(self).height as int,
                    )
                } else {
                    old(self).scroll as int
                },
                None => old(self).scroll as int,
            },
    {
        if !self.focused {
            return EventState::NotConsumed;
        }
        match scroll_of_key(action) {
            Some(sc) => {
                let max_scroll: usize = match &self.content {
                    Some(c) => if c.result.lines.len() >= 1 {
                        c.result.lines.len() - 1
                    } else {
                        0
                    },
                    None => 0,
                };
                proof {
                    lemma_next_selection_clamped(
                        sc,
                        self.scroll as int,
                        max_scroll as int,
                        self.height as int,
                    );
                }
                self.scroll = next_selection(sc, self.scroll, max_scroll, self.height);
                EventState::Consumed
            },
            None => EventState::NotConsumed,
        }
    }
}

} // verus!
