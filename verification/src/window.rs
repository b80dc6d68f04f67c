//! The sliding window of revision summaries backing the visible list.
//!
//! The logical revision list can be huge and still growing; only one
//! contiguous slice of it is ever held. `needs_data` answers whether the
//! viewport has left that slice or the remote total has moved since the
//! slice was taken, and `set_items` replaces the slice wholesale.

use vstd::prelude::*;

verus! {

/// How many summaries one slice fetch asks for — and so the most the
/// cache ever holds: with wholesale replacement, list memory stays
/// bounded however far the logical revision count grows.
pub const SLICE_SIZE: usize = 1200;

/// An opaque revision identifier.
#[derive(Clone, Copy, PartialEq, Eq, Structural, Debug)]
pub struct RevisionId {
    pub value: u64,
}

/// One revision as shown in the list: immutable once produced, replaced
/// wholesale when its slice is refetched.
#[derive(Clone)]
pub struct RevisionSummary {
    pub id: RevisionId,
    pub hash_short: String,
    pub author: String,
    /// Seconds since the epoch.
    pub timestamp: u64,
    pub message: String,
}

/// The cached contiguous slice: `items[i]` holds the revision at logical
/// position `start + i`, and `last_total` is the remote total observed
/// when the slice was taken.
pub struct WindowCache {
    pub start: usize,
    pub items: Vec<RevisionSummary>,
    pub last_total: usize,
}

impl WindowCache {
    /// Whether logical position `pos` lies inside the cached slice.
    pub open spec fn covers(&self, pos: int) -> bool {
        self.start <= pos < self.start + self.items@.len()
    }

    /// Whether a refetch is needed for viewport position `pos` when the
    /// remote reports `total` items: the position has left the cached
    /// slice, or the total moved since the slice was taken.
    pub open spec fn spec_needs_data(&self, pos: int, total: int) -> bool {
        !self.covers(pos) || total != self.last_total
    }

    /// The summary cached for logical position `pos`.
    pub open spec fn spec_at(&self, pos: int) -> RevisionSummary
        recommends
            self.covers(pos),
    {
        self.items@[pos - self.start]
    }

    /// An empty cache, covering nothing.
    pub fn new() -> (r: Self)
        ensures
            r.start == 0,
            r.items@.len() == 0,
            r.last_total == 0,
    {
        WindowCache { start: 0, items: Vec::new(), last_total: 0 }
    }

    /// Drop the cached slice; afterwards every position needs a fetch.
    pub fn clear(&mut self)
        ensures
            final(self).start == 0,
            final(self).items@.len() == 0,
            final(self).last_total == 0,
    {
        self.start = 0;
        self.items = Vec::new();
        self.last_total = 0;
    }

    /// Whether viewport position `viewport_start` requires a refetch given
    /// a remote total of `remote_total`.
    pub fn needs_data(&self, viewport_start: usize, remote_total: usize) -> (r: bool)
        ensures
            r == self.spec_needs_data(viewport_start as int, remote_total as int),
    {
        let inside = viewport_start >= self.start && viewport_start - self.start
            < self.items.len();
        !inside || remote_total != self.last_total
    }

    /// Replace the cache wholesale with the slice beginning at `start`,
    /// taken while the remote reported `total` items. A slice is never
    /// longer than [`SLICE_SIZE`].
    pub fn set_items(&mut self, start: usize, items: Vec<RevisionSummary>, total: usize)
        requires
            items@.len() <= SLICE_SIZE,
        ensures
            final(self).start == start,
            final(self).items@ == items@,
            final(self).last_total == total,
    {
        self.start = start;
        self.items = items;
        self.last_total = total;
    }

    /// The number of cached summaries.
    pub fn len(&self) -> (r: usize)
        ensures
            r == self.items@.len(),
    {
        self.items.len()
    }

    /// The logical position of the first cached summary.
    pub fn start_index(&self) -> (r: usize)
        ensures
            r == self.start,
    {
        self.start
    }

    /// The summary cached for logical position `pos`, if the window
    /// covers it. Restartable position-indexed access replaces an
    /// iterator: callers walk `start..start + len`.
    pub fn get_at(&self, pos: usize) -> (r: Option<&RevisionSummary>)
        ensures
            match r {
                Some(s) => self.covers(pos as int) && *s == self.spec_at(pos as int),
                None => !self.covers(pos as int),
            },
    {
        if pos >= self.start && pos - self.start < self.items.len() {
            Some(&self.items[pos - self.start])
        } else {
            None
        }
    }
}

/// Any position outside the cached slice needs a fetch, whatever total
/// the remote reports.
pub proof fn law_window_stale(cache: WindowCache, pos: int, total: int)
    requires
        !cache.covers(pos),
    ensures
        cache.spec_needs_data(pos, total),
{
}

/// Immediately after a slice is taken, no position inside it needs a
/// fetch at the total it was taken at.
pub proof fn law_window_fresh(cache: WindowCache, pos: int)
    requires
        cache.covers(pos),
    ensures
        !cache.spec_needs_data(pos, cache.last_total as int),
{
}

} // verus!
