//! Plain-text primitives the engine is built on: splitting captured output
//! and target documents into lines, measuring column widths, padding and
//! truncating cells, and printing decimal numbers.

use vstd::prelude::*;

verus! {

/// A segment that was ended by a newline loses one trailing carriage
/// return, as physical line endings may be either `\n` or `\r\n`.
pub open spec fn strip_cr(s: Seq<char>) -> Seq<char> {
    if s.len() > 0 && s.last() == '\r' {
        s.drop_last()
    } else {
        s
    }
}

/// One step per character: a newline closes the current segment (with its
/// carriage return stripped), any other character extends it; at the end of
/// the text a non-empty open segment still counts, so a final line ending
/// is optional and text ending in a newline gains no empty last line.
pub open spec fn split_acc(s: Seq<char>, cur: Seq<char>, acc: Seq<Seq<char>>) -> Seq<Seq<char>>
    decreases s.len(),
{
    if s.len() == 0 {
        if cur.len() == 0 {
            acc
        } else {
            acc.push(cur)
        }
    } else if s[0] == '\n' {
        split_acc(s.skip(1), Seq::empty(), acc.push(strip_cr(cur)))
    } else {
        split_acc(s.skip(1), cur.push(s[0]), acc)
    }
}

/// The ordered line sequence of a text.
pub open spec fn split_lines_spec(s: Seq<char>) -> Seq<Seq<char>> {
    split_acc(s, Seq::empty(), Seq::empty())
}

/// Splits a text into its lines.
pub fn split_lines(s: &str) -> (r: Vec<String>)
    ensures
        r.deep_view() == split_lines_spec(s@),
{
    let n = s.unicode_len();
    let mut out: Vec<String> = Vec::new();
    let mut start: usize = 0;
    let mut i: usize = 0;
    proof {
        assert(s@.skip(0) =~= s@);
        assert(s@.subrange(0, 0) =~= Seq::<char>::empty());
        assert(out.deep_view() =~= Seq::<Seq<char>>::empty());
    }
    while i < n
        invariant
            start <= i <= n,
            n == s@.len(),
            split_acc(
                s@.skip(i as int),
                s@.subrange(start as int, i as int),
                out.deep_view(),
            ) == split_lines_spec(s@),
        decreases n - i,
    {
        let c = s.get_char(i);
        if c == '\n' {
            let ghost cur = s@.subrange(start as int, i as int);
            let ghost acc = out.deep_view();
            let mut end = i;
            if end > start && s.get_char(end - 1) == '\r' {
                end = end - 1;
            }
            proof {
                if i > start && s@[i - 1] == '\r' {
                    assert(cur.last() == s@[i - 1]);
                    assert(cur.drop_last() =~= s@.subrange(start as int, i - 1));
                    assert(strip_cr(cur) == s@.subrange(start as int, end as int));
                } else {
                    assert(strip_cr(cur) == s@.subrange(start as int, end as int));
                }
            }
            let seg = s.substring_char(start, end);
            out.push(seg.to_owned());
            proof {
                assert(out.deep_view() =~= acc.push(s@.subrange(start as int, end as int)));
                assert(s@.skip(i as int)[0] == s@[i as int]);
                assert(s@.skip(i as int).skip(1) =~= s@.skip(i + 1));
                assert(split_acc(s@.skip(i as int), cur, acc) == split_acc(
                    s@.skip(i + 1),
                    Seq::empty(),
                    acc.push(strip_cr(cur)),
                ));
                assert(s@.subrange(i + 1, i + 1) =~= Seq::<char>::empty());
            }
            start = i + 1;
        } else {
            proof {
                let cur = s@.subrange(start as int, i as int);
                let acc = out.deep_view();
                assert(s@.skip(i as int)[0] == s@[i as int]);
                assert(s@.skip(i as int).skip(1) =~= s@.skip(i + 1));
                assert(split_acc(s@.skip(i as int), cur, acc) == split_acc(
                    s@.skip(i + 1),
                    cur.push(s@[i as int]),
                    acc,
                ));
                assert(s@.subrange(start as int, i + 1) =~= cur.push(s@[i as int]));
            }
        }
        i = i + 1;
    }
    proof {
        assert(s@.skip(n as int) =~= Seq::<char>::empty());
    }
    if start < n {
        let ghost acc = out.deep_view();
        let seg = s.substring_char(start, n);
        out.push(seg.to_owned());
        proof {
            assert(out.deep_view() =~= acc.push(s@.subrange(start as int, n as int)));
        }
    }
    out
}

/// The display width of a column: the length of its longest line, zero for
/// an empty stream.
pub open spec fn max_width_spec(lines: Seq<Seq<char>>) -> nat
    decreases lines.len(),
{
    if lines.len() == 0 {
        0
    } else {
        let rest = max_width_spec(lines.drop_last());
        if lines.last().len() > rest {
            lines.last().len()
        } else {
            rest
        }
    }
}

/// No line is wider than the stream's width.
pub proof fn lemma_max_width_ge(lines: Seq<Seq<char>>, i: int)
    requires
        0 <= i < lines.len(),
    ensures
        lines[i].len() <= max_width_spec(lines),
    decreases lines.len(),
{
    if i == lines.len() - 1 {
    } else {
        lemma_max_width_ge(lines.drop_last(), i);
    }
}

/// Measures the width of a column: the length of its longest line.
pub fn max_width(lines: &Vec<String>) -> (w: usize)
    ensures
        w == max_width_spec(lines.deep_view()),
{
    let mut w: usize = 0;
    let mut i: usize = 0;
    while i < lines.len()
        invariant
            i <= lines.len(),
            w == max_width_spec(lines.deep_view().take(i as int)),
        decreases lines.len() - i,
    {
        let len = lines[i].as_str().unicode_len();
        proof {
            let dv = lines.deep_view();
            assert(dv.take(i + 1).drop_last() =~= dv.take(i as int));
            assert(dv.take(i + 1).last() == dv[i as int]);
        }
        if len > w {
            w = len;
        }
        i = i + 1;
    }
    proof {
        assert(lines.deep_view().take(lines@.len() as int) =~= lines.deep_view());
    }
    w
}

/// A run of `n` spaces.
pub open spec fn spaces(n: nat) -> Seq<char>
    decreases n,
{
    if n == 0 {
        Seq::empty()
    } else {
        spaces((n - 1) as nat).push(' ')
    }
}

pub proof fn lemma_spaces_len(n: nat)
    ensures
        spaces(n).len() == n,
    decreases n,
{
    if n > 0 {
        lemma_spaces_len((n - 1) as nat);
    }
}

/// A value padded on the right with spaces up to the column width; a value
/// already at least that wide is left as it is.
pub open spec fn pad_spec(s: Seq<char>, w: nat) -> Seq<char> {
    if s.len() >= w {
        s
    } else {
        s + spaces((w - s.len()) as nat)
    }
}

/// Pads a cell value on the right with spaces up to the column width.
pub fn pad_to_width(s: &str, w: usize) -> (r: String)
    ensures
        r@ == pad_spec(s@, w as nat),
{
    let mut r = s.to_owned();
    let mut k = s.unicode_len();
    proof {
        assert(spaces(0) =~= Seq::<char>::empty());
        assert(r@ =~= s@ + spaces(0));
    }
    while k < w
        invariant
            k >= s@.len(),
            k == s@.len() || k <= w,
            r@ == s@ + spaces((k - s@.len()) as nat),
        decreases w - k,
    {
        let ghost old_pad = (k - s@.len()) as nat;
        r.append(" ");
        proof {
            reveal_strlit(" ");
            assert(" "@ =~= seq![' ']);
            assert(spaces(old_pad + 1) == spaces(old_pad).push(' '));
            assert((s@ + spaces(old_pad)) + " "@ =~= s@ + spaces(old_pad + 1));
        }
        k = k + 1;
    }
    proof {
        if s@.len() >= w {
            assert(k == s@.len());
            assert(spaces((k - s@.len()) as nat) =~= Seq::<char>::empty());
            assert(s@ + spaces((k - s@.len()) as nat) =~= s@);
        } else {
            assert(k == w);
        }
    }
    r
}

/// A header label fitted to the column width: truncated when it is wider,
/// padded with spaces when it is narrower.
pub open spec fn fit_spec(s: Seq<char>, w: nat) -> Seq<char> {
    if s.len() > w {
        s.take(w as int)
    } else {
        pad_spec(s, w)
    }
}

/// Fits a header label to the column width by truncating or padding.
pub fn fit_to_width(s: &str, w: usize) -> (r: String)
    ensures
        r@ == fit_spec(s@, w as nat),
{
    let n = s.unicode_len();
    if n > w {
        let head = s.substring_char(0, w);
        proof {
            assert(s@.subrange(0, w as int) =~= s@.take(w as int));
        }
        head.to_owned()
    } else {
        pad_to_width(s, w)
    }
}

/// The decimal digit character for a value below ten.
pub open spec fn dec_digit(d: nat) -> char {
    if d == 0 {
        '0'
    } else if d == 1 {
        '1'
    } else if d == 2 {
        '2'
    } else if d == 3 {
        '3'
    } else if d == 4 {
        '4'
    } else if d == 5 {
        '5'
    } else if d == 6 {
        '6'
    } else if d == 7 {
        '7'
    } else if d == 8 {
        '8'
    } else {
        '9'
    }
}

/// The decimal digit string of a number, most significant digit first,
/// without sign or leading zeroes.
pub open spec fn dec_str(n: nat) -> Seq<char>
    decreases n,
{
    if n < 10 {
        seq![dec_digit(n)]
    } else {
        dec_str(n / 10).push(dec_digit(n % 10))
    }
}

/// Writes a number in decimal.
pub fn usize_to_decimal(n: usize) -> (r: String)
    ensures
        r@ == dec_str(n as nat),
    decreases n,
{
    let digits = "0123456789";
    proof {
        reveal_strlit("0123456789");
    }
    if n < 10 {
        let d = digits.substring_char(n, n + 1);
        proof {
            assert(digits@.subrange(n as int, n + 1) =~= seq![digits@[n as int]]);
            assert(digits@[n as int] == dec_digit(n as nat));
        }
        d.to_owned()
    } else {
        proof {
            assert(n / 10 < n) by (nonlinear_arith)
                requires
                    n >= 10,
            ;
        }
        let mut r = usize_to_decimal(n / 10);
        let low = n % 10;
        let d = digits.substring_char(low, low + 1);
        proof {
            assert(digits@.subrange(low as int, low as int + 1) =~= seq![digits@[low as int]]);
            assert(digits@[low as int] == dec_digit((n % 10) as nat));
            assert((n / 10) as nat == (n as nat) / 10);
            assert((n % 10) as nat == (n as nat) % 10);
        }
        let ghost before = r@;
        r.append(d);
        proof {
            assert(before + seq![dec_digit((n as nat) % 10)] =~= dec_str((n as nat) / 10).push(
                dec_digit((n as nat) % 10),
            ));
        }
        r
    }
}

} // verus!
