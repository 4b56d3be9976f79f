//! The unit of data carried by the pipeline.

use vstd::prelude::*;

verus! {

/// An immutable record of one completed traced scope.
///
/// The pipeline never looks inside a tree: it only moves trees from
/// producers to a processor, whole and unchanged.  How a scope and its
/// nested events are assembled into a tree, and how a tree is rendered,
/// are the business of outside collaborators.  A tree therefore carries
/// just an identifier by which those collaborators (and tests) can tell
/// trees apart.
#[derive(Clone, Copy, PartialEq, Eq, Structural, Debug, Hash)]
pub struct Tree {
    /// Identifies the completed scope this tree records.
    pub id: u64,
}

impl Tree {
    /// A tree standing for the completed scope with the given identifier.
    pub fn new(id: u64) -> (t: Tree)
        ensures
            t.id == id,
    {
        Tree { id }
    }
}

} // verus!
