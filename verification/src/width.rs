//! The width of text on a terminal, counted in columns.
//!
//! Text is cut into grapheme clusters, the units a reader takes for one
//! character. A cluster is as wide as the widest of its code points, and a
//! text as wide as its clusters together.

use vstd::prelude::*;
use unicode_segmentation::UnicodeSegmentation;
use unicode_width::UnicodeWidthChar;

verus! {

/// The extended grapheme clusters of `text`, in order, as
/// `unicode_segmentation` cuts them.
pub uninterp spec fn grapheme_clusters(text: Seq<char>) -> Seq<Seq<char>>;

/// The number of columns that `unicode_width` gives the code point `c`, or
/// `None` where it has none to give (a control character).
pub uninterp spec fn char_columns(c: char) -> Option<usize>;

/// The largest of the widths, a code point without a width counting as 0;
/// and 0 where there is no code point at all.
pub open spec fn widest(columns: Seq<Option<usize>>) -> usize
    decreases columns.len(),
{
    if columns.len() == 0 {
        0
    } else {
        let rest = widest(columns.drop_last());
        match columns.last() {
            Some(n) => if n > rest {
                n
            } else {
                rest
            },
            None => rest,
        }
    }
}

/// The widths added up.
pub open spec fn total(widths: Seq<usize>) -> nat
    decreases widths.len(),
{
    if widths.len() == 0 {
        0
    } else {
        total(widths.drop_last()) + widths.last() as nat
    }
}

/// The width of one cluster: that of the widest of its code points.
pub open spec fn cluster_width(cluster: Seq<char>) -> usize {
    widest(cluster.map_values(|c: char| char_columns(c)))
}

/// The number of columns that `text` takes on a terminal.
pub open spec fn display_width(text: Seq<char>) -> nat {
    total(grapheme_clusters(text).map_values(|cluster: Seq<char>| cluster_width(cluster)))
}

/// `n` as a `usize`, and `usize::MAX` where it does not fit.
pub open spec fn saturated(n: nat) -> usize {
    if n > usize::MAX {
        usize::MAX
    } else {
        n as usize
    }
}

/// `UnicodeSegmentation::graphemes` with extended clusters, collected. The
/// clusters are a function of the text alone.
#[verifier::external_body]
fn split_graphemes<'a>(text: &'a str) -> (clusters: Vec<&'a str>)
    ensures
        clusters@.map_values(|s: &str| s@) == grapheme_clusters(text@),
{
    text.graphemes(true).collect()
}

/// `UnicodeWidthChar::width`. The width is a function of the code point
/// alone.
#[verifier::external_body]
fn char_width(c: char) -> (columns: Option<usize>)
    ensures
        columns == char_columns(c),
{
    c.width()
}

/// The largest of the widths, a code point without a width counting as 0.
pub fn widest_columns(columns: &Vec<Option<usize>>) -> (width: usize)
    ensures
        width == widest(columns@),
{
    let mut width: usize = 0;
    let mut i: usize = 0;
    while i < columns.len()
        invariant
            i <= columns.len(),
            width == widest(columns@.take(i as int)),
        decreases columns.len() - i,
    {
        proof {
            let upto = columns@.take(i + 1);
            assert(upto.drop_last() == columns@.take(i as int));
        }
        match columns[i] {
            Some(n) => {
                if n > width {
                    width = n;
                }
            },
            None => {},
        }
        i += 1;
    }
    proof {
        assert(columns@.take(columns.len() as int) == columns@);
    }
    width
}

/// The widths added up, held at `usize::MAX` where the sum is larger.
pub fn total_width(widths: &Vec<usize>) -> (width: usize)
    ensures
        width == saturated(total(widths@)),
{
    let mut width: usize = 0;
    let mut i: usize = 0;
    while i < widths.len()
        invariant
            i <= widths.len(),
            width == saturated(total(widths@.take(i as int))),
        decreases widths.len() - i,
    {
        proof {
            let upto = widths@.take(i + 1);
            assert(upto.drop_last() == widths@.take(i as int));
        }
        width = width.saturating_add(widths[i]);
        i += 1;
    }
    proof {
        assert(widths@.take(widths.len() as int) == widths@);
    }
    width
}

/// The width of each code point of a cluster.
fn columns_of(cluster: &str) -> (columns: Vec<Option<usize>>)
    ensures
        columns@ == cluster@.map_values(|c: char| char_columns(c)),
{
    let mut columns: Vec<Option<usize>> = Vec::new();
    for c in it: cluster.chars()
        invariant
            it.seq() == cluster@,
            columns@ == cluster@.take(it.index()).map_values(|c: char| char_columns(c)),
    {
        columns.push(char_width(c));
    }
    columns
}

/// The number of columns that `text` takes on a terminal, held at
/// `usize::MAX` where the true width is larger.
pub fn width_graphemes(text: &str) -> (width: usize)
    ensures
        width == saturated(display_width(text@)),
{
    let clusters = split_graphemes(text);
    let ghost views = grapheme_clusters(text@);
    let mut widths: Vec<usize> = Vec::new();
    let mut i: usize = 0;
    while i < clusters.len()
        invariant
            i <= clusters.len(),
            views == clusters@.map_values(|s: &str| s@),
            widths@ == views.take(i as int).map_values(|cluster: Seq<char>| cluster_width(cluster)),
        decreases clusters.len() - i,
    {
        let columns = columns_of(clusters[i]);
        widths.push(widest_columns(&columns));
        i += 1;
    }
    proof {
        assert(views.take(clusters.len() as int) == views);
    }
    total_width(&widths)
}

} // verus!
