//! Windowed, selection-driven revision-history pane.
//!
//! The crate models the interactive file-history view of a terminal
//! version-control UI: a scrollable list of revisions backed by a sliding
//! window cache, a memoized diff ("detail") view for the selected revision,
//! and the focus/event state machine that composes the two. The expensive
//! collaborators (the revision stream, the diff engine, the terminal) live
//! outside; this crate holds every decision they are driven by.

pub mod detail;
pub mod input;
pub mod pane;
pub mod selection;
pub mod window;
