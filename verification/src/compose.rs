//! Composing one run: every producer's captured output is validated into a
//! column against the target's line count, in the order the producers were
//! supplied, and the synchronized table is rendered. The first count
//! mismatch aborts the run before anything is rendered.

use vstd::prelude::*;

use crate::column::{AnnotationColumn, ColumnV};
use crate::document::TargetDocument;
use crate::errors::AnnoError;
use crate::producer::ProducerSpecV;
use crate::render::{render, table_spec, RenderedTable};
use crate::text::{max_width_spec, split_lines_spec};

verus! {

/// The column one producer's captured output yields.
pub open spec fn column_of(producer: ProducerSpecV, captured: Seq<char>) -> ColumnV {
    ColumnV {
        producer: producer,
        lines: split_lines_spec(captured),
        width: max_width_spec(split_lines_spec(captured)),
    }
}

/// The columns of a whole run, in supplied order.
pub open spec fn columns_of(captured: Seq<(ProducerSpecV, Seq<char>)>) -> Seq<ColumnV> {
    Seq::new(captured.len(), |j: int| column_of(captured[j].0, captured[j].1))
}

/// Every captured output has exactly one line per target line.
pub open spec fn counts_ok(captured: Seq<(ProducerSpecV, Seq<char>)>, n: nat) -> bool {
    forall|j: int|
        0 <= j < captured.len() ==> split_lines_spec(#[trigger] captured[j].1).len() == n
}

/// Output `j` is the first whose line count disagrees with the target's.
pub open spec fn first_mismatch(
    captured: Seq<(ProducerSpecV, Seq<char>)>,
    n: nat,
    j: int,
) -> bool {
    &&& 0 <= j < captured.len()
    &&& split_lines_spec(captured[j].1).len() != n
    &&& forall|h: int| 0 <= h < j ==> split_lines_spec(#[trigger] captured[h].1).len() == n
}

/// Builds the validated columns for every producer's captured output, in
/// order, and renders the table. Succeeds exactly when every output
/// matches the target's line count; otherwise the error names the first
/// producer whose count disagrees, and nothing is rendered.
#[verifier::loop_isolation(false)]
pub fn compose(
    doc: &TargetDocument,
    captured: Vec<(crate::producer::ProducerSpec, String)>,
    diff: bool,
    diff_only: bool,
) -> (r: Result<RenderedTable, AnnoError>)
    ensures
        r is Ok <==> counts_ok(captured.deep_view(), doc.lines@.len() as nat),
        r matches Ok(t) ==> t@ == table_spec(
            columns_of(captured.deep_view()),
            doc.lines.deep_view(),
            diff,
            diff_only,
        ),
        r matches Err(e) ==> exists|j: int|
            {
                &&& #[trigger] first_mismatch(captured.deep_view(), doc.lines@.len() as nat, j)
                &&& e matches AnnoError::AnnotationCountMismatch { producer, expected, actual }
                &&& producer@ == captured.deep_view()[j].0.name
                &&& expected == doc.lines@.len()
                &&& actual == split_lines_spec(captured.deep_view()[j].1).len()
            },
{
    let ghost capv = captured.deep_view();
    let ghost targetn = doc.lines@.len() as nat;
    let n = doc.lines.len();
    let mut rest = captured;
    let mut cols: Vec<AnnotationColumn> = Vec::new();
    let ghost mut done: int = 0;
    proof {
        assert(rest.deep_view() =~= capv.skip(0));
    }
    while rest.len() > 0
        invariant
            0 <= done,
            done + rest@.len() == capv.len(),
            n == targetn,
            rest.deep_view() =~= capv.skip(done),
            cols@.len() == done,
            forall|h: int|
                0 <= h < done ==> split_lines_spec(#[trigger] capv[h].1).len() == targetn,
            forall|h: int|
                0 <= h < done ==> (#[trigger] cols.deep_view()[h]) == column_of(
                    capv[h].0,
                    capv[h].1,
                ),
        decreases rest@.len(),
    {
        let ghost restv = rest.deep_view();
        let ghost oldseq = rest@;
        let (producer, output) = rest.remove(0);
        proof {
            assert(restv[0] == capv.skip(done)[0]);
            assert(capv.skip(done)[0] == capv[done]);
            assert(restv[0] == (producer@, output@));
            assert(oldseq.remove(0) =~= oldseq.skip(1));
            assert forall|h: int| 0 <= h < rest@.len() implies rest.deep_view()[h] == capv.skip(
                done + 1,
            )[h] by {
                assert(rest@[h] == oldseq[h + 1]);
                assert(rest.deep_view()[h] == restv[h + 1]);
                assert(restv[h + 1] == capv.skip(done)[h + 1]);
                assert(capv.skip(done)[h + 1] == capv[done + 1 + h]);
            }
            assert(rest.deep_view() =~= capv.skip(done + 1));
        }
        let col = match AnnotationColumn::build(producer, output.as_str(), n) {
            Ok(col) => col,
            Err(e) => {
                proof {
                    assert(split_lines_spec(capv[done].1).len() != targetn);
                    assert(first_mismatch(capv, targetn, done));
                    assert(!counts_ok(capv, targetn));
                }
                return Err(e);
            },
        };
        let ghost before = cols.deep_view();
        cols.push(col);
        proof {
            assert(cols.deep_view() =~= before.push(col@));
            assert(col@ == column_of(capv[done].0, capv[done].1));
            done = done + 1;
        }
    }
    proof {
        assert(counts_ok(capv, targetn));
        assert(cols.deep_view() =~= columns_of(capv));
        assert(crate::render::columns_ok(cols.deep_view(), doc.lines@.len() as nat));
    }
    let table = render(&doc.lines, &cols, diff, diff_only);
    Ok(table)
}

} // verus!
