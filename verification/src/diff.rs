//! The diff engine: per-line decisions over the first two columns, made by
//! peeking values before any cursor advances. Pure comparisons decide a
//! style tag; encoding a tag as terminal escapes belongs to the caller.
//! Both decisions are active only when at least two columns exist; extra
//! columns always render unstyled.

use vstd::prelude::*;

use crate::column::{AnnotationColumn, ColumnV};

verus! {

/// The style tag of one rendered cell.
#[derive(Clone, Copy, Debug, PartialEq, Eq, Structural)]
pub enum Style {
    Normal,
    EmphasisA,
    EmphasisB,
}

/// Whether diff-only filtering drops target line `i`: it does exactly when
/// filtering is requested, two columns exist, and their values for line
/// `i` agree.
pub open spec fn skip_at(cols: Seq<ColumnV>, diff_only: bool, i: int) -> bool {
    diff_only && cols.len() >= 2 && cols[0].lines[i] == cols[1].lines[i]
}

/// The style of column `k`'s cell on target line `i`: with highlighting on
/// and two columns present, a disagreeing value is Emphasis-A in column 0
/// and Emphasis-B in column 1; every other cell is Normal.
pub open spec fn style_at(cols: Seq<ColumnV>, diff: bool, k: int, i: int) -> Style {
    if diff && cols.len() >= 2 && k == 0 && cols[0].lines[i] != cols[1].lines[i] {
        Style::EmphasisA
    } else if diff && cols.len() >= 2 && k == 1 && cols[1].lines[i] != cols[0].lines[i] {
        Style::EmphasisB
    } else {
        Style::Normal
    }
}

/// The diff-only filter decision for target line `i`, from peeked values.
pub fn line_skipped(cols: &Vec<AnnotationColumn>, diff_only: bool, i: usize) -> (r: bool)
    requires
        forall|k: int| 0 <= k < cols@.len() ==> i < (#[trigger] cols@[k])@.lines.len(),
    ensures
        r == skip_at(cols.deep_view(), diff_only, i as int),
{
    if diff_only && cols.len() >= 2 {
        let first: &String = &cols[0].lines[i];
        let second: &String = &cols[1].lines[i];
        let agree = first.eq(second);
        proof {
            assert(cols.deep_view()[0] == cols@[0]@);
            assert(cols.deep_view()[1] == cols@[1]@);
        }
        agree
    } else {
        false
    }
}

/// The style decision for column `k`'s cell on target line `i`, from
/// peeked values.
pub fn cell_style(cols: &Vec<AnnotationColumn>, diff: bool, k: usize, i: usize) -> (r: Style)
    requires
        k < cols@.len(),
        forall|j: int| 0 <= j < cols@.len() ==> i < (#[trigger] cols@[j])@.lines.len(),
    ensures
        r == style_at(cols.deep_view(), diff, k as int, i as int),
{
    proof {
        assert(cols.deep_view()[k as int] == cols@[k as int]@);
    }
    if diff && cols.len() >= 2 && k <= 1 {
        proof {
            assert(cols.deep_view()[0] == cols@[0]@);
            assert(cols.deep_view()[1] == cols@[1]@);
        }
        let first: &String = &cols[0].lines[i];
        let second: &String = &cols[1].lines[i];
        let agree = first.eq(second);
        if agree {
            Style::Normal
        } else if k == 0 {
            Style::EmphasisA
        } else {
            Style::EmphasisB
        }
    } else {
        Style::Normal
    }
}

} // verus!
