//! Filesystem change events, as the library sees them: a kind tag and the
//! affected paths as plain strings.

use vstd::prelude::*;

verus! {

/// The kind of a filesystem change notification. Only `Modify` events can
/// qualify for dispatch.
#[derive(Clone, Copy, PartialEq, Eq, Structural, Debug)]
pub enum EventKind {
    Create,
    Modify,
    Remove,
    Other,
}

/// One filesystem change notification: its kind and the ordered sequence of
/// affected paths.
pub struct ChangeEvent {
    pub kind: EventKind,
    pub paths: Vec<String>,
}

/// The mathematical view of a path list: each path as its character sequence.
pub open spec fn paths_view(paths: Seq<String>) -> Seq<Seq<char>> {
    paths.map_values(|p: String| p@)
}

} // verus!
