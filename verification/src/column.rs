//! Annotation columns: one producer's captured output, validated against
//! the target's line count and measured once for its display width, plus
//! the peek/consume cursor the renderer walks it with.

use vstd::prelude::*;

use crate::errors::AnnoError;
use crate::producer::{ProducerSpec, ProducerSpecV};
use crate::text::{max_width, max_width_spec, split_lines, split_lines_spec};

verus! {

/// The validated, width-measured annotation stream belonging to one
/// producer for one run. Read-only after construction.
#[derive(Debug, Clone, PartialEq, Eq)]
pub struct AnnotationColumn {
    pub producer: ProducerSpec,
    pub lines: Vec<String>,
    pub width: usize,
}

pub struct ColumnV {
    pub producer: ProducerSpecV,
    pub lines: Seq<Seq<char>>,
    pub width: nat,
}

impl View for AnnotationColumn {
    type V = ColumnV;

    open spec fn view(&self) -> ColumnV {
        ColumnV { producer: self.producer@, lines: self.lines.deep_view(), width: self.width as nat }
    }
}

impl DeepView for AnnotationColumn {
    type V = ColumnV;

    open spec fn deep_view(&self) -> ColumnV {
        self.view()
    }
}

impl AnnotationColumn {
    /// The width is the precomputed maximum over the stream's lines.
    pub open spec fn wf(self) -> bool {
        self.width == max_width_spec(self.lines.deep_view())
    }

    /// Splits one producer's captured output into its annotation stream
    /// and validates it against the target's line count: a mismatch is
    /// `AnnotationCountMismatch`, fatal before any rendering.
    pub fn build(producer: ProducerSpec, captured: &str, expected: usize) -> (r: Result<
        AnnotationColumn,
        AnnoError,
    >)
        ensures
            r is Ok <==> split_lines_spec(captured@).len() == expected,
            r matches Ok(c) ==> c.producer == producer && c.lines.deep_view() == split_lines_spec(
                captured@,
            ) && c.wf(),
            r matches Err(e) ==> e matches AnnoError::AnnotationCountMismatch {
                producer: p,
                expected: want,
                actual: got,
            } && p@ == producer.name@ && want == expected && got == split_lines_spec(
                captured@,
            ).len(),
    {
        let lines = split_lines(captured);
        if lines.len() != expected {
            let actual = lines.len();
            return Err(
                AnnoError::AnnotationCountMismatch {
                    producer: producer.name,
                    expected,
                    actual,
                },
            );
        }
        let width = max_width(&lines);
        Ok(AnnotationColumn { producer, lines, width })
    }

    /// How many annotation lines the column holds.
    pub fn line_count(&self) -> (n: usize)
        ensures
            n == self.lines@.len(),
    {
        self.lines.len()
    }
}

/// A sequential position in one column. The renderer holds one cursor per
/// column; a cursor only ever advances, and peeking never moves it, so the
/// value inspected for a diff decision is the value later consumed for the
/// same line.
#[derive(Debug, Clone, Copy, PartialEq, Eq)]
pub struct ColumnCursor {
    pub pos: usize,
}

impl ColumnCursor {
    /// A fresh cursor at the first line.
    pub fn new() -> (c: ColumnCursor)
        ensures
            c.pos == 0,
    {
        ColumnCursor { pos: 0 }
    }

    /// Reads the next value without advancing.
    pub fn peek<'a>(&self, col: &'a AnnotationColumn) -> (r: &'a String)
        requires
            self.pos < col.lines@.len(),
        ensures
            r@ == col@.lines[self.pos as int],
    {
        &col.lines[self.pos]
    }

    /// Pulls the next value and advances the cursor by one; what is
    /// returned is exactly what `peek` showed before the call.
    pub fn consume(&mut self, col: &AnnotationColumn) -> (r: String)
        requires
            old(self).pos < col.lines@.len(),
        ensures
            final(self).pos == old(self).pos + 1,
            r@ == col@.lines[old(self).pos as int],
    {
        let _n = col.lines.len();
        let r = col.lines[self.pos].clone();
        self.pos = self.pos + 1;
        r
    }

    /// Advances without reading, for lines the diff-only filter skips.
    pub fn advance(&mut self, col: &AnnotationColumn)
        requires
            old(self).pos < col.lines@.len(),
        ensures
            final(self).pos == old(self).pos + 1,
    {
        let _n = col.lines.len();
        self.pos = self.pos + 1;
    }
}

} // verus!
