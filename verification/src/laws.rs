//! What holds of every run: the row-count, width, filtering, highlighting
//! and determinism guarantees of the rendering engine, stated over the
//! same specification functions its contracts use.

use vstd::prelude::*;

use crate::column::ColumnV;
use crate::diff::{skip_at, style_at, Style};
use crate::render::{
    columns_ok, header_spec, row_at, rows_upto, table_spec, table_text_spec, TableV,
};
use crate::text::{fit_spec, lemma_max_width_ge, lemma_spaces_len, pad_spec};

verus! {

/// A fitted label is exactly as wide as its column.
pub proof fn lemma_fit_len(s: Seq<char>, w: nat)
    ensures
        fit_spec(s, w).len() == w,
{
    lemma_spaces_len((w - s.len()) as nat);
}

/// A padded cell whose value fits its column is exactly as wide as the
/// column.
pub proof fn lemma_pad_len(s: Seq<char>, w: nat)
    requires
        s.len() <= w,
    ensures
        pad_spec(s, w).len() == w,
{
    lemma_spaces_len((w - s.len()) as nat);
}

/// When no line is filtered, the body holds the rows of all first `n`
/// target lines, in order.
pub proof fn lemma_rows_upto_no_skip(
    cols: Seq<ColumnV>,
    target: Seq<Seq<char>>,
    diff: bool,
    diff_only: bool,
    n: int,
)
    requires
        0 <= n,
        forall|i: int| 0 <= i < n ==> !skip_at(cols, diff_only, i),
    ensures
        rows_upto(cols, target, diff, diff_only, n).len() == n,
        forall|j: int|
            0 <= j < n ==> rows_upto(cols, target, diff, diff_only, n)[j] == row_at(
                cols,
                target,
                diff,
                j,
            ),
    decreases n,
{
    if n > 0 {
        lemma_rows_upto_no_skip(cols, target, diff, diff_only, n - 1);
    }
}

/// Every body row is the row of some unfiltered target line.
pub proof fn lemma_rows_upto_members(
    cols: Seq<ColumnV>,
    target: Seq<Seq<char>>,
    diff: bool,
    diff_only: bool,
    n: int,
    j: int,
)
    requires
        0 <= j < rows_upto(cols, target, diff, diff_only, n).len(),
    ensures
        exists|i: int|
            #![auto]
            0 <= i < n && !skip_at(cols, diff_only, i) && rows_upto(
                cols,
                target,
                diff,
                diff_only,
                n,
            )[j] == row_at(cols, target, diff, i),
    decreases n,
{
    if n <= 0 {
    } else if skip_at(cols, diff_only, n - 1) {
        lemma_rows_upto_members(cols, target, diff, diff_only, n - 1, j);
    } else {
        if j < rows_upto(cols, target, diff, diff_only, n - 1).len() {
            lemma_rows_upto_members(cols, target, diff, diff_only, n - 1, j);
        } else {
            assert(rows_upto(cols, target, diff, diff_only, n)[j] == row_at(
                cols,
                target,
                diff,
                n - 1,
            ));
        }
    }
}

/// Without diff-only filtering the renderer emits one header label per
/// column and exactly one body row per target line.
pub proof fn lemma_unfiltered_row_count(cols: Seq<ColumnV>, target: Seq<Seq<char>>, diff: bool)
    ensures
        table_spec(cols, target, diff, false).rows.len() == target.len(),
        table_spec(cols, target, diff, false).header.len() == cols.len(),
{
    lemma_rows_upto_no_skip(cols, target, diff, false, target.len() as int);
}

/// Every rendered cell of a column — its header label and every body
/// cell — is exactly as wide as the column's precomputed width, the
/// maximum line length of its full stream.
pub proof fn lemma_cell_widths(
    cols: Seq<ColumnV>,
    target: Seq<Seq<char>>,
    diff: bool,
    diff_only: bool,
)
    requires
        columns_ok(cols, target.len() as nat),
    ensures
        forall|k: int|
            0 <= k < cols.len() ==> (#[trigger] table_spec(
                cols,
                target,
                diff,
                diff_only,
            ).header[k]).len() == cols[k].width,
        forall|j: int|
            0 <= j < table_spec(cols, target, diff, diff_only).rows.len() ==> (
            #[trigger] table_spec(cols, target, diff, diff_only).rows[j]).cells.len()
                == cols.len(),
        forall|j: int, k: int|
            0 <= j < table_spec(cols, target, diff, diff_only).rows.len() && 0 <= k < cols.len()
                ==> (#[trigger] table_spec(cols, target, diff, diff_only).rows[j].cells[k]).text.len()
                == cols[k].width,
{
    let t = table_spec(cols, target, diff, diff_only);
    let n = target.len() as int;
    assert forall|k: int| 0 <= k < cols.len() implies (#[trigger] t.header[k]).len()
        == cols[k].width by {
        assert(t.header[k] == fit_spec(cols[k].producer.name, cols[k].width));
        lemma_fit_len(cols[k].producer.name, cols[k].width);
    }
    assert forall|j: int| 0 <= j < t.rows.len() implies (#[trigger] t.rows[j]).cells.len()
        == cols.len() by {
        lemma_rows_upto_members(cols, target, diff, diff_only, n, j);
    }
    assert forall|j: int, k: int|
        0 <= j < t.rows.len() && 0 <= k < cols.len() implies (#[trigger] t.rows[j].cells[k]).text.len()
        == cols[k].width by {
        lemma_rows_upto_members(cols, target, diff, diff_only, n, j);
        let i = choose|i: int|
            #![auto]
            0 <= i < n && !skip_at(cols, diff_only, i) && rows_upto(
                cols,
                target,
                diff,
                diff_only,
                n,
            )[j] == row_at(cols, target, diff, i);
        assert(t.rows[j].cells[k].text == pad_spec(cols[k].lines[i], cols[k].width));
        lemma_max_width_ge(cols[k].lines, i);
        lemma_pad_len(cols[k].lines[i], cols[k].width);
    }
}

/// The target line indices whose rows the table holds, in order.
pub open spec fn emitted_indices(cols: Seq<ColumnV>, diff_only: bool, n: int) -> Seq<int>
    decreases n,
{
    if n <= 0 {
        Seq::empty()
    } else if skip_at(cols, diff_only, n - 1) {
        emitted_indices(cols, diff_only, n - 1)
    } else {
        emitted_indices(cols, diff_only, n - 1).push(n - 1)
    }
}

/// An index is emitted exactly when it is in range and not filtered.
pub proof fn lemma_emitted_index(cols: Seq<ColumnV>, diff_only: bool, n: int, i: int)
    ensures
        emitted_indices(cols, diff_only, n).contains(i) <==> (0 <= i < n && !skip_at(
            cols,
            diff_only,
            i,
        )),
    decreases n,
{
    if n > 0 {
        lemma_emitted_index(cols, diff_only, n - 1, i);
        if !skip_at(cols, diff_only, n - 1) {
            let pre = emitted_indices(cols, diff_only, n - 1);
            assert(pre.push(n - 1)[pre.len() as int] == n - 1);
            if i != n - 1 && pre.push(n - 1).contains(i) {
                let w = choose|w: int|
                    0 <= w < pre.push(n - 1).len() && #[trigger] pre.push(n - 1)[w] == i;
                assert(pre[w] == i);
            }
            if i != n - 1 && pre.contains(i) {
                let v = choose|v: int| 0 <= v < pre.len() && #[trigger] pre[v] == i;
                assert(pre.push(n - 1)[v] == i);
            }
        }
    }
}

/// The body rows are exactly the rows of the emitted indices, in order.
pub proof fn lemma_rows_are_emitted_rows(
    cols: Seq<ColumnV>,
    target: Seq<Seq<char>>,
    diff: bool,
    diff_only: bool,
    n: int,
)
    ensures
        rows_upto(cols, target, diff, diff_only, n) =~= emitted_indices(cols, diff_only, n).map(
            |j: int, i: int| row_at(cols, target, diff, i),
        ),
    decreases n,
{
    if n > 0 {
        lemma_rows_are_emitted_rows(cols, target, diff, diff_only, n - 1);
    }
}

/// Diff-only filtering law: with two or more columns, a target line is
/// emitted exactly when the first two columns' values for it differ.
pub proof fn lemma_diff_only_filter(cols: Seq<ColumnV>, n: int, i: int)
    requires
        cols.len() >= 2,
        0 <= i < n,
    ensures
        emitted_indices(cols, true, n).contains(i) <==> cols[0].lines[i] != cols[1].lines[i],
{
    lemma_emitted_index(cols, true, n, i);
}

/// Without filtering every target line is emitted.
pub proof fn lemma_no_filter_emits_all(cols: Seq<ColumnV>, n: int, i: int)
    requires
        0 <= i < n,
    ensures
        emitted_indices(cols, false, n).contains(i),
{
    lemma_emitted_index(cols, false, n, i);
}

/// Diff-highlight law: in an emitted row, with two or more columns and
/// highlighting on, the cell of column 0 is Emphasis-A exactly when the
/// first two columns disagree on the line, the cell of column 1 is
/// Emphasis-B exactly then too, and every other cell is Normal; with
/// highlighting off every cell is Normal.
pub proof fn lemma_diff_highlight(cols: Seq<ColumnV>, target: Seq<Seq<char>>, i: int)
    requires
        cols.len() >= 2,
    ensures
        row_at(cols, target, true, i).cells[0].style == Style::EmphasisA <==> cols[0].lines[i]
            != cols[1].lines[i],
        row_at(cols, target, true, i).cells[1].style == Style::EmphasisB <==> cols[0].lines[i]
            != cols[1].lines[i],
        cols[0].lines[i] == cols[1].lines[i] ==> row_at(cols, target, true, i).cells[0].style
            == Style::Normal && row_at(cols, target, true, i).cells[1].style == Style::Normal,
        forall|k: int|
            2 <= k < cols.len() ==> (#[trigger] row_at(cols, target, true, i).cells[k]).style
                == Style::Normal,
        forall|k: int|
            0 <= k < cols.len() ==> (#[trigger] row_at(cols, target, false, i).cells[k]).style
                == Style::Normal,
{
    assert(row_at(cols, target, true, i).cells[0].style == style_at(cols, true, 0, i));
    assert(row_at(cols, target, true, i).cells[1].style == style_at(cols, true, 1, i));
}

/// Filtering and highlighting compose: filtering happens first, and
/// styling applies only to emitted lines — so with two or more columns,
/// every row of a filtered, highlighted table carries the emphasis pair
/// in its first two cells.
pub proof fn lemma_filter_and_highlight_compose(cols: Seq<ColumnV>, target: Seq<Seq<char>>)
    requires
        cols.len() >= 2,
    ensures
        forall|j: int|
            0 <= j < table_spec(cols, target, true, true).rows.len() ==> (#[trigger] table_spec(
                cols,
                target,
                true,
                true,
            ).rows[j]).cells[0].style == Style::EmphasisA && table_spec(
                cols,
                target,
                true,
                true,
            ).rows[j].cells[1].style == Style::EmphasisB,
{
    let t = table_spec(cols, target, true, true);
    let n = target.len() as int;
    assert forall|j: int| 0 <= j < t.rows.len() implies (#[trigger] t.rows[j]).cells[0].style
        == Style::EmphasisA && t.rows[j].cells[1].style == Style::EmphasisB by {
        lemma_rows_upto_members(cols, target, true, true, n, j);
        let i = choose|i: int|
            #![auto]
            0 <= i < n && !skip_at(cols, true, i) && rows_upto(cols, target, true, true, n)[j]
                == row_at(cols, target, true, i);
        assert(cols[0].lines[i] != cols[1].lines[i]);
        assert(t.rows[j].cells[0].style == style_at(cols, true, 0, i));
        assert(t.rows[j].cells[1].style == style_at(cols, true, 1, i));
    }
}

/// With no producers the table degenerates to the bare document: no
/// header, one cell-less row per target line, each carrying the line's
/// raw text unchanged.
pub proof fn lemma_no_producers(
    cols: Seq<ColumnV>,
    target: Seq<Seq<char>>,
    diff: bool,
    diff_only: bool,
)
    requires
        cols.len() == 0,
    ensures
        table_spec(cols, target, diff, diff_only).header.len() == 0,
        table_spec(cols, target, diff, diff_only).rows.len() == target.len(),
        forall|j: int|
            0 <= j < target.len() ==> (#[trigger] table_spec(
                cols,
                target,
                diff,
                diff_only,
            ).rows[j]).cells.len() == 0 && table_spec(cols, target, diff, diff_only).rows[j].source
                == target[j],
{
    lemma_rows_upto_no_skip(cols, target, diff, diff_only, target.len() as int);
    assert forall|j: int| 0 <= j < target.len() implies (#[trigger] table_spec(
        cols,
        target,
        diff,
        diff_only,
    ).rows[j]).cells.len() == 0 && table_spec(cols, target, diff, diff_only).rows[j].source
        == target[j] by {
        assert(table_spec(cols, target, diff, diff_only).rows[j] == row_at(cols, target, diff, j));
    }
}

/// Idempotence: the rendered table is a pure function of the target
/// lines, the columns and the two mode flags, so two runs over identical
/// inputs yield the same table and byte-identical text.
pub proof fn lemma_render_deterministic(
    t1: TableV,
    t2: TableV,
    cols: Seq<ColumnV>,
    target: Seq<Seq<char>>,
    diff: bool,
    diff_only: bool,
)
    requires
        t1 == table_spec(cols, target, diff, diff_only),
        t2 == table_spec(cols, target, diff, diff_only),
    ensures
        t1 == t2,
        table_text_spec(t1) == table_text_spec(t2),
{
}

} // verus!
