//! The table renderer: a header row of producer names fitted to their
//! column widths, then one body row per target line — each annotation cell
//! padded to its column's width and tagged with a style — unless diff-only
//! filtering drops the line. With no producers the table degenerates to
//! the bare document.

use vstd::prelude::*;

use crate::column::{AnnotationColumn, ColumnCursor, ColumnV};
use crate::diff::{cell_style, line_skipped, skip_at, style_at, Style};
use crate::text::{fit_spec, fit_to_width, max_width_spec, pad_spec, pad_to_width};

verus! {

/// One rendered annotation cell: its padded text and its style tag.
#[derive(Debug, Clone, PartialEq, Eq)]
pub struct Cell {
    pub text: String,
    pub style: Style,
}

pub struct CellV {
    pub text: Seq<char>,
    pub style: Style,
}

impl View for Cell {
    type V = CellV;

    open spec fn view(&self) -> CellV {
        CellV { text: self.text@, style: self.style }
    }
}

impl DeepView for Cell {
    type V = CellV;

    open spec fn deep_view(&self) -> CellV {
        self.view()
    }
}

/// One rendered body row: the annotation cells in producer order, then the
/// target line's raw text.
#[derive(Debug, Clone, PartialEq, Eq)]
pub struct RenderRow {
    pub cells: Vec<Cell>,
    pub source: String,
}

pub struct RowV {
    pub cells: Seq<CellV>,
    pub source: Seq<char>,
}

impl View for RenderRow {
    type V = RowV;

    open spec fn view(&self) -> RowV {
        RowV { cells: self.cells.deep_view(), source: self.source@ }
    }
}

impl DeepView for RenderRow {
    type V = RowV;

    open spec fn deep_view(&self) -> RowV {
        self.view()
    }
}

/// The rendered table: the fitted header labels (empty when no producers
/// were supplied, in which case no header row is printed) and the body
/// rows.
#[derive(Debug, Clone, PartialEq, Eq)]
pub struct RenderedTable {
    pub header: Vec<String>,
    pub rows: Vec<RenderRow>,
}

pub struct TableV {
    pub header: Seq<Seq<char>>,
    pub rows: Seq<RowV>,
}

impl View for RenderedTable {
    type V = TableV;

    open spec fn view(&self) -> TableV {
        TableV { header: self.header.deep_view(), rows: self.rows.deep_view() }
    }
}

/// What the renderer assumes of its columns: every stream has exactly one
/// line per target line, and every width is the precomputed maximum.
pub open spec fn columns_ok(cols: Seq<ColumnV>, n: nat) -> bool {
    forall|k: int|
        0 <= k < cols.len() ==> (#[trigger] cols[k]).lines.len() == n && cols[k].width
            == max_width_spec(cols[k].lines)
}

/// The body row for target line `i`: one cell per column, padded to the
/// column's width and styled by the diff engine, then the source line.
pub open spec fn row_at(cols: Seq<ColumnV>, target: Seq<Seq<char>>, diff: bool, i: int) -> RowV {
    RowV {
        cells: Seq::new(
            cols.len(),
            |k: int|
                CellV {
                    text: pad_spec(cols[k].lines[i], cols[k].width),
                    style: style_at(cols, diff, k, i),
                },
        ),
        source: target[i],
    }
}

/// The body rows for the first `n` target lines, in order, with the lines
/// the diff-only filter drops left out.
pub open spec fn rows_upto(
    cols: Seq<ColumnV>,
    target: Seq<Seq<char>>,
    diff: bool,
    diff_only: bool,
    n: int,
) -> Seq<RowV>
    decreases n,
{
    if n <= 0 {
        Seq::empty()
    } else if skip_at(cols, diff_only, n - 1) {
        rows_upto(cols, target, diff, diff_only, n - 1)
    } else {
        rows_upto(cols, target, diff, diff_only, n - 1).push(row_at(cols, target, diff, n - 1))
    }
}

/// The header labels: each producer's name fitted to its column's width.
pub open spec fn header_spec(cols: Seq<ColumnV>) -> Seq<Seq<char>> {
    Seq::new(cols.len(), |k: int| fit_spec(cols[k].producer.name, cols[k].width))
}

/// The whole rendered table for one run.
pub open spec fn table_spec(
    cols: Seq<ColumnV>,
    target: Seq<Seq<char>>,
    diff: bool,
    diff_only: bool,
) -> TableV {
    TableV {
        header: header_spec(cols),
        rows: rows_upto(cols, target, diff, diff_only, target.len() as int),
    }
}

/// Renders the synchronized table: the header, then for each target line
/// in order either nothing (diff-only filter) or one row whose cells are
/// pulled from the column cursors in lockstep.
pub fn render(
    target: &Vec<String>,
    cols: &Vec<AnnotationColumn>,
    diff: bool,
    diff_only: bool,
) -> (t: RenderedTable)
    requires
        columns_ok(cols.deep_view(), target@.len() as nat),
    ensures
        t@ == table_spec(cols.deep_view(), target.deep_view(), diff, diff_only),
{
    let ghost colsv = cols.deep_view();
    let ghost targetv = target.deep_view();
    let n = target.len();
    let ncols = cols.len();

    let mut header: Vec<String> = Vec::new();
    let mut k: usize = 0;
    while k < ncols
        invariant
            k <= ncols,
            ncols == cols@.len(),
            colsv == cols.deep_view(),
            header@.len() == k,
            header.deep_view() =~= header_spec(colsv).take(k as int),
        decreases ncols - k,
    {
        proof {
            assert(colsv[k as int] == cols@[k as int]@);
        }
        let label = fit_to_width(cols[k].producer.name.as_str(), cols[k].width);
        let ghost before = header.deep_view();
        let ghost labelv = label@;
        header.push(label);
        proof {
            assert(header.deep_view().len() == k + 1);
            assert forall|j: int| 0 <= j <= k implies header.deep_view()[j] == header_spec(
                colsv,
            ).take(k + 1)[j] by {
                if j < k {
                    assert(header.deep_view()[j] == before[j]);
                } else {
                    assert(header.deep_view()[j] == labelv);
                }
            }
            assert(header.deep_view() =~= header_spec(colsv).take(k + 1));
        }
        k = k + 1;
    }
    proof {
        assert(header_spec(colsv).take(ncols as int) =~= header_spec(colsv));
    }

    let mut cursors: Vec<ColumnCursor> = Vec::new();
    let mut k: usize = 0;
    while k < ncols
        invariant
            k <= ncols,
            cursors@.len() == k,
            forall|j: int| 0 <= j < k ==> (#[trigger] cursors@[j]).pos == 0,
        decreases ncols - k,
    {
        cursors.push(ColumnCursor::new());
        k = k + 1;
    }

    let mut rows: Vec<RenderRow> = Vec::new();
    let mut i: usize = 0;
    while i < n
        invariant
            i <= n,
            n == target@.len(),
            ncols == cols@.len(),
            colsv == cols.deep_view(),
            targetv == target.deep_view(),
            columns_ok(colsv, n as nat),
            cursors@.len() == ncols,
            forall|j: int| 0 <= j < ncols ==> (#[trigger] cursors@[j]).pos == i,
            rows.deep_view() =~= rows_upto(colsv, targetv, diff, diff_only, i as int),
        decreases n - i,
    {
        proof {
            assert forall|j: int| 0 <= j < cols@.len() implies i < (#[trigger] cols@[j])@.lines.len() by {
                assert(colsv[j] == cols@[j]@);
            }
        }
        let skip = line_skipped(cols, diff_only, i);
        if skip {
            let mut k: usize = 0;
            while k < ncols
                invariant
                    k <= ncols,
                    ncols == cols@.len(),
                    i < n == target@.len(),
                    colsv == cols.deep_view(),
                    columns_ok(colsv, n as nat),
                    cursors@.len() == ncols,
                    forall|j: int| 0 <= j < k ==> (#[trigger] cursors@[j]).pos == i + 1,
                    forall|j: int| k <= j < ncols ==> (#[trigger] cursors@[j]).pos == i,
                decreases ncols - k,
            {
                proof {
                    assert(colsv[k as int] == cols@[k as int]@);
                }
                let mut cur = cursors[k];
                cur.advance(&cols[k]);
                cursors.set(k, cur);
                k = k + 1;
            }
        } else {
            let ghost rowv = row_at(colsv, targetv, diff, i as int);
            let mut cells: Vec<Cell> = Vec::new();
            let mut k: usize = 0;
            while k < ncols
                invariant
                    k <= ncols,
                    ncols == cols@.len(),
                    i < n == target@.len(),
                    colsv == cols.deep_view(),
                    targetv == target.deep_view(),
                    columns_ok(colsv, n as nat),
                    rowv == row_at(colsv, targetv, diff, i as int),
                    cursors@.len() == ncols,
                    forall|j: int| 0 <= j < k ==> (#[trigger] cursors@[j]).pos == i + 1,
                    forall|j: int| k <= j < ncols ==> (#[trigger] cursors@[j]).pos == i,
                    cells@.len() == k,
                    cells.deep_view() =~= rowv.cells.take(k as int),
                decreases ncols - k,
            {
                proof {
                    assert(colsv[k as int] == cols@[k as int]@);
                    assert forall|j: int| 0 <= j < cols@.len() implies i < (
                    #[trigger] cols@[j])@.lines.len() by {
                        assert(colsv[j] == cols@[j]@);
                    }
                }
                let mut cur = cursors[k];
                let value = cur.consume(&cols[k]);
                cursors.set(k, cur);
                let text = pad_to_width(value.as_str(), cols[k].width);
                let style = cell_style(cols, diff, k, i);
                let cell = Cell { text, style };
                let ghost before = cells.deep_view();
                let ghost cellv = cell@;
                cells.push(cell);
                proof {
                    assert(cells.deep_view().len() == k + 1);
                    assert forall|j: int| 0 <= j <= k implies cells.deep_view()[j] == rowv.cells.take(
                        k + 1,
                    )[j] by {
                        if j < k {
                            assert(cells.deep_view()[j] == before[j]);
                        } else {
                            assert(cells.deep_view()[j] == cellv);
                            assert(rowv.cells[k as int] == CellV {
                                text: pad_spec(colsv[k as int].lines[i as int], colsv[k as int].width),
                                style: style_at(colsv, diff, k as int, i as int),
                            });
                        }
                    }
                    assert(cells.deep_view() =~= rowv.cells.take(k + 1));
                }
                k = k + 1;
            }
            let source = target[i].clone();
            let row = RenderRow { cells, source };
            proof {
                assert(rowv.cells.take(ncols as int) =~= rowv.cells);
                assert(row@ == rowv);
            }
            let ghost before = rows.deep_view();
            rows.push(row);
            proof {
                assert(rows.deep_view() =~= before.push(rowv));
            }
        }
        i = i + 1;
    }
    let t = RenderedTable { header, rows };
    proof {
        assert(t@.header =~= table_spec(colsv, targetv, diff, diff_only).header);
        assert(t@.rows =~= table_spec(colsv, targetv, diff, diff_only).rows);
        assert(t@ == table_spec(colsv, targetv, diff, diff_only));
    }
    t
}

/// The text of a row's cells: each cell followed by the separator token.
pub open spec fn cells_text(cells: Seq<CellV>) -> Seq<char>
    decreases cells.len(),
{
    if cells.len() == 0 {
        Seq::empty()
    } else {
        cells_text(cells.drop_last()) + cells.last().text + " | "@
    }
}

/// The text of the header labels: each label followed by the separator
/// token.
pub open spec fn labels_text(labels: Seq<Seq<char>>) -> Seq<char>
    decreases labels.len(),
{
    if labels.len() == 0 {
        Seq::empty()
    } else {
        labels_text(labels.drop_last()) + labels.last() + " | "@
    }
}

/// The text of one body row: its cells, the source line, a line break.
pub open spec fn row_text(row: RowV) -> Seq<char> {
    cells_text(row.cells) + row.source + "\n"@
}

/// The text of all body rows, in order.
pub open spec fn rows_text(rows: Seq<RowV>) -> Seq<char>
    decreases rows.len(),
{
    if rows.len() == 0 {
        Seq::empty()
    } else {
        rows_text(rows.drop_last()) + row_text(rows.last())
    }
}

/// The plain text of a whole table: the header row (absent when there are
/// no columns) followed by the body rows. Styling is not part of this
/// text; encoding style tags as terminal escapes belongs to the caller's
/// output boundary.
pub open spec fn table_text_spec(t: TableV) -> Seq<char> {
    if t.header.len() == 0 {
        rows_text(t.rows)
    } else {
        labels_text(t.header) + "\n"@ + rows_text(t.rows)
    }
}

/// Writes a rendered table as plain text. Identical tables give
/// byte-identical text.
pub fn table_to_text(t: &RenderedTable) -> (r: String)
    ensures
        r@ == table_text_spec(t@),
{
    let mut out = String::new();
    let nh = t.header.len();
    if nh > 0 {
        let ghost hv = t.header.deep_view();
        let mut k: usize = 0;
        proof {
            assert(hv.take(0) =~= Seq::<Seq<char>>::empty());
        }
        while k < nh
            invariant
                k <= nh,
                nh == t.header@.len(),
                hv == t.header.deep_view(),
                out@ == labels_text(hv.take(k as int)),
            decreases nh - k,
        {
            proof {
                assert(hv[k as int] == t.header@[k as int]@);
            }
            out.append(t.header[k].as_str());
            out.append(" | ");
            proof {
                assert(hv.take(k + 1).drop_last() =~= hv.take(k as int));
                assert(hv.take(k + 1).last() == hv[k as int]);
                assert(out@ =~= labels_text(hv.take(k + 1)));
            }
            k = k + 1;
        }
        proof {
            assert(hv.take(nh as int) =~= hv);
        }
        out.append("\n");
    }
    let ghost head = out@;
    let ghost rv = t.rows.deep_view();
    let nr = t.rows.len();
    let mut j: usize = 0;
    proof {
        assert(rv.take(0) =~= Seq::<RowV>::empty());
        assert(out@ =~= head + rows_text(rv.take(0)));
    }
    while j < nr
        invariant
            j <= nr,
            nr == t.rows@.len(),
            rv == t.rows.deep_view(),
            head == (if t@.header.len() == 0 {
                Seq::<char>::empty()
            } else {
                labels_text(t@.header) + "\n"@
            }),
            out@ == head + rows_text(rv.take(j as int)),
        decreases nr - j,
    {
        let ghost rowv = rv[j as int];
        proof {
            assert(rowv == t.rows@[j as int]@);
        }
        let ghost prefix = out@;
        let nc = t.rows[j].cells.len();
        let ghost cv = rowv.cells;
        let mut c: usize = 0;
        proof {
            assert(cv.take(0) =~= Seq::<CellV>::empty());
            assert(out@ =~= prefix + cells_text(cv.take(0)));
        }
        while c < nc
            invariant
                c <= nc,
                j < nr == t.rows@.len(),
                nc == t.rows@[j as int].cells@.len(),
                rowv == t.rows@[j as int]@,
                cv == rowv.cells,
                out@ == prefix + cells_text(cv.take(c as int)),
            decreases nc - c,
        {
            proof {
                assert(cv[c as int] == t.rows@[j as int].cells@[c as int]@);
            }
            out.append(t.rows[j].cells[c].text.as_str());
            out.append(" | ");
            proof {
                assert(cv.take(c + 1).drop_last() =~= cv.take(c as int));
                assert(cv.take(c + 1).last() == cv[c as int]);
                assert(out@ =~= prefix + cells_text(cv.take(c + 1)));
            }
            c = c + 1;
        }
        proof {
            assert(cv.take(nc as int) =~= cv);
        }
        out.append(t.rows[j].source.as_str());
        out.append("\n");
        proof {
            assert(out@ =~= prefix + row_text(rowv));
            assert(rv.take(j + 1).drop_last() =~= rv.take(j as int));
            assert(rv.take(j + 1).last() == rv[j as int]);
            assert(out@ =~= head + rows_text(rv.take(j + 1)));
        }
        j = j + 1;
    }
    proof {
        assert(rv.take(nr as int) =~= rv);
        if t@.header.len() == 0 {
            assert(out@ =~= table_text_spec(t@));
        } else {
            assert(out@ =~= table_text_spec(t@));
        }
    }
    out
}

} // verus!
