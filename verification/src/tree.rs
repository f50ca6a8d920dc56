//! The tree summaries that the tool prints after scaffolding.
//!
//! A summary is an ordered tree of labels naming what was created. It is a
//! report only: the filesystem, not the summary, is authoritative. Rendering
//! the tree with guide lines and colours is left to the binary around the
//! library.

use vstd::prelude::*;

verus! {

/// One node of a scaffold summary: a label, and the nodes beneath it in the
/// order they are shown.
pub struct TreeNode {
    pub text: String,
    pub children: Vec<TreeNode>,
}

impl TreeNode {
    /// A node with the given label and nothing beneath it.
    pub fn leaf(text: String) -> (r: TreeNode)
        ensures
            r.text == text,
            r.children@.len() == 0,
    {
        TreeNode { text, children: Vec::new() }
    }
}

} // verus!
