//! The target document: the file being annotated, loaded once and exposed
//! as an ordered line sequence whose count every producer must match.

use vstd::prelude::*;

use crate::text::{split_lines, split_lines_spec};

verus! {

/// The document to annotate. `path` is the resolved path handed to
/// producers; `lines` is the ordered line sequence of its text. Immutable
/// for the run.
#[derive(Debug, Clone, PartialEq, Eq)]
pub struct TargetDocument {
    pub path: String,
    pub lines: Vec<String>,
}

impl TargetDocument {
    /// Builds the document from its resolved path and its full text.
    pub fn new(path: String, text: &str) -> (d: TargetDocument)
        ensures
            d.path == path,
            d.lines.deep_view() == split_lines_spec(text@),
    {
        let lines = split_lines(text);
        TargetDocument { path, lines }
    }

    /// The number of physical lines, the count every producer's output
    /// must match.
    pub fn line_count(&self) -> (n: usize)
        ensures
            n == self.lines@.len(),
    {
        self.lines.len()
    }
}

} // verus!
