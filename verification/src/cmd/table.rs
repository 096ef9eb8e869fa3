//! Columns of a listing.

use vstd::prelude::*;
use vstd::string::*;

verus! {

/// `n` blanks.
pub open spec fn blanks(n: int) -> Seq<char> {
    Seq::new(
        if n > 0 {
            n as nat
        } else {
            0
        },
        |i: int| ' ',
    )
}

/// A text filled with blanks up to a width, counted in characters; a longer one stays as it is.
pub open spec fn padded(s: Seq<char>, width: int) -> Seq<char> {
    s + blanks(width - s.len())
}

/// Appends a text filled with blanks up to a width.
pub fn pad(out: &mut String, s: &str, width: usize)
    ensures
        final(out)@ == old(out)@ + padded(s@, width as int),
{
    out.append(s);
    let n: usize = s.unicode_len();
    let ghost was = out@;
    let mut k: usize = n;
    assert(was + blanks(0) =~= was);
    while k < width
        invariant
            n <= k,
            k == n || k <= width,
            out@ == was + blanks(k - n),
        decreases width - k,
    {
        out.append(" ");
        k += 1;
        proof {
            reveal_strlit(" ");
        }
        assert(out@ =~= was + blanks(k - n));
    }
    assert(k - n == (if width > n { width - n } else { 0 }));
    assert(out@ =~= old(out)@ + padded(s@, width as int));
}

/// Whether `w` is the largest of the widths, or 0 when there is none.
pub open spec fn is_widest(w: int, widths: Seq<usize>) -> bool {
    &&& forall|i: int| 0 <= i < widths.len() ==> #[trigger] widths[i] <= w
    &&& (widths.len() == 0 && w == 0) || exists|i: int|
        0 <= i < widths.len() && #[trigger] widths[i] == w
}

/// The largest of the widths, or 0 when there is none.
pub open spec fn widest(widths: Seq<usize>) -> int {
    choose|w: int| is_widest(w, widths)
}

/// There is one largest width.
pub proof fn widest_is(w: int, widths: Seq<usize>)
    requires
        is_widest(w, widths),
    ensures
        widest(widths) == w,
{
    let v = widest(widths);
    assert(is_widest(v, widths));
    if widths.len() > 0 {
        let i = choose|i: int| 0 <= i < widths.len() && #[trigger] widths[i] == w;
        let j = choose|j: int| 0 <= j < widths.len() && #[trigger] widths[j] == v;
        assert(widths[i] <= v && widths[j] <= w);
    }
}

/// The width of a column: the longest entry, so that the next column lines up.
pub fn column_width(widths: &Vec<usize>) -> (w: usize)
    ensures
        is_widest(w as int, widths@),
{
    let mut w: usize = 0;
    for i in 0..widths.len()
        invariant
            forall|k: int| 0 <= k < i ==> #[trigger] widths@[k] <= w,
            (i == 0 && w == 0) || exists|k: int| 0 <= k < i && #[trigger] widths@[k] == w,
    {
        if i == 0 || widths[i] > w {
            w = widths[i];
            assert(widths@[i as int] == w);
        }
    }
    w
}

} // verus!
