//! Composition of display lines: segments are grouped into lines, and the
//! fills of a line share the space that its text leaves free.

use vstd::prelude::*;
use crate::segment::{Segment, SegmentView, repeated, segment_views};
use crate::style::{StyledString, StyledText, styled_texts};
use crate::width::saturated;

verus! {

/// Where the line that starts at `start` ends: behind the first line
/// terminator at or after `start`, or at the end of the segments.
pub open spec fn line_end(segments: Seq<SegmentView>, start: int) -> int
    decreases segments.len() - start,
{
    if start < 0 || start >= segments.len() {
        segments.len() as int
    } else if segments[start] is LineTerminator {
        start + 1
    } else {
        line_end(segments, start + 1)
    }
}

/// The columns that the text of a line takes: the widths of its segments
/// added up, where a fill and a line terminator count for nothing.
pub open spec fn used_width(line: Seq<SegmentView>) -> nat
    decreases line.len(),
{
    if line.len() == 0 {
        0
    } else {
        used_width(line.drop_last()) + line.last().display_width()
    }
}

/// The number of fills in a line.
pub open spec fn fill_count(line: Seq<SegmentView>) -> nat
    decreases line.len(),
{
    if line.len() == 0 {
        0
    } else {
        fill_count(line.drop_last()) + if line.last() is Fill {
            1nat
        } else {
            0nat
        }
    }
}

/// The length of each of `fills` fills in a line whose text uses `used`
/// columns.
///
/// With a target width that is larger than what the text uses, the space
/// left over is divided evenly among the fills and the remainder is
/// dropped. Without a target width, without room, and without fills, it is
/// 0.
pub open spec fn fill_share(width: Option<usize>, used: nat, fills: nat) -> nat {
    match width {
        Some(w) => if fills > 0 && w > used {
            ((w - used) / (fills as int)) as nat
        } else {
            0
        },
        None => 0,
    }
}

/// The length that every fill of a line resolves to.
pub open spec fn fill_size(line: Seq<SegmentView>, width: Option<usize>) -> nat {
    fill_share(width, used_width(line), fill_count(line))
}

/// The finished strings of one line: one for each segment, in order, each
/// fill at the length that the line gives it.
pub open spec fn rendered_line(line: Seq<SegmentView>, width: Option<usize>) -> Seq<StyledText> {
    line.map_values(|s: SegmentView| s.rendered(fill_size(line, width)))
}

/// The finished strings of all lines from `start` on, line after line.
pub open spec fn rendered_lines(segments: Seq<SegmentView>, start: int, width: Option<usize>) -> Seq<
    StyledText,
>
    decreases segments.len() - start,
{
    let end = line_end(segments, start);
    if start < 0 || start >= segments.len() || end <= start || end > segments.len() {
        Seq::empty()
    } else {
        rendered_line(segments.subrange(start, end), width) + rendered_lines(segments, end, width)
    }
}

/// The characters that the fills of a rendered line hold, all together.
pub open spec fn fill_output_len(line: Seq<SegmentView>, width: Option<usize>) -> nat {
    fill_output_len_upto(line, width, line.len() as int)
}

/// The characters that the fills among the first `n` segments of a rendered
/// line hold.
pub open spec fn fill_output_len_upto(line: Seq<SegmentView>, width: Option<usize>, n: int) -> nat
    decreases n,
{
    if n <= 0 || n > line.len() {
        0
    } else {
        fill_output_len_upto(line, width, n - 1) + if line[n - 1] is Fill {
            rendered_line(line, width)[n - 1].text.len()
        } else {
            0nat
        }
    }
}

/// A line ends behind its start, within the segments, and holds no line
/// terminator before its last segment.
pub proof fn lemma_line_end(segments: Seq<SegmentView>, start: int)
    requires
        0 <= start < segments.len(),
    ensures
        start < line_end(segments, start) <= segments.len(),
        forall|i: int|
            start <= i < line_end(segments, start) - 1 ==> !(#[trigger] segments[i] is LineTerminator),
        line_end(segments, start) < segments.len() ==> segments[line_end(segments, start) - 1] is LineTerminator,
    decreases segments.len() - start,
{
    if !(segments[start] is LineTerminator) {
        if start + 1 < segments.len() {
            lemma_line_end(segments, start + 1);
        } else {
            assert(line_end(segments, start + 1) == segments.len());
        }
    }
}

/// Every segment gives exactly one finished string.
pub proof fn lemma_one_string_per_segment(segments: Seq<SegmentView>, start: int, width: Option<usize>)
    requires
        0 <= start <= segments.len(),
    ensures
        rendered_lines(segments, start, width).len() == segments.len() - start,
    decreases segments.len() - start,
{
    if start < segments.len() {
        lemma_line_end(segments, start);
        lemma_one_string_per_segment(segments, line_end(segments, start), width);
    }
}

/// The strings come out in the order of the segments, and text and line
/// terminators come out as they went in: whatever the target width, a
/// segment that is no fill gives the string it gives on its own. A fill
/// keeps its style and gives its character, some number of times.
pub proof fn lemma_segments_in_order(segments: Seq<SegmentView>, start: int, width: Option<usize>, i: int)
    requires
        0 <= start <= i < segments.len(),
    ensures
        rendered_lines(segments, start, width).len() == segments.len() - start,
        !(segments[i] is Fill) ==> rendered_lines(segments, start, width)[i - start] == segments[i].rendered(0),
        segments[i] matches SegmentView::Fill(c, style) ==> exists|n: nat|
            rendered_lines(segments, start, width)[i - start] == #[trigger] segments[i].rendered(n),
    decreases segments.len() - start,
{
    lemma_one_string_per_segment(segments, start, width);
    let end = line_end(segments, start);
    if i >= end {
        lemma_segments_in_order(segments, end, width, i);
    }
}

/// The strings that the segments give on their own, a fill being empty.
pub open spec fn unfilled(segments: Seq<SegmentView>) -> Seq<StyledText> {
    segments.map_values(|s: SegmentView| s.rendered(0))
}

/// Without a target width the lines are the strings that the segments give
/// on their own, in order: text and line terminators as they are, and
/// every fill empty.
pub proof fn lemma_without_width(segments: Seq<SegmentView>, start: int)
    requires
        0 <= start <= segments.len(),
    ensures
        rendered_lines(segments, start, None) == unfilled(segments.skip(start)),
    decreases segments.len() - start,
{
    lemma_one_string_per_segment(segments, start, None);
    if start < segments.len() {
        lemma_without_width(segments, line_end(segments, start));
    }
    assert(rendered_lines(segments, start, None) =~= unfilled(segments.skip(start)));
}

/// Without a fill in the line, the target width changes nothing.
pub proof fn lemma_width_matters_to_fills_only(line: Seq<SegmentView>, width: Option<usize>)
    requires
        fill_count(line) == 0,
    ensures
        rendered_line(line, width) == rendered_line(line, None),
{
}

/// Among the first `n` segments of a rendered line, the fills hold as many
/// characters as there are fills, times the length of one.
proof fn lemma_fill_output_len_upto(line: Seq<SegmentView>, width: Option<usize>, n: int)
    requires
        0 <= n <= line.len(),
    ensures
        fill_output_len_upto(line, width, n) == fill_count(line.take(n)) * fill_size(line, width),
    decreases n,
{
    let size = fill_size(line, width);
    if n > 0 {
        lemma_fill_output_len_upto(line, width, n - 1);
        assert(line.take(n).drop_last() == line.take(n - 1));
        let before = fill_count(line.take(n - 1));
        assert((before + 1) * size == before * size + size) by (nonlinear_arith);
    } else {
        assert(0 * size == 0) by (nonlinear_arith);
    }
}

/// In a rendered line every fill has the same length, the fills together
/// hold that length times their number, and with room to spare they never
/// take more than the room: what is left over after the even division is
/// dropped, and it is less than one character for each fill.
pub proof fn lemma_fills_share_evenly(line: Seq<SegmentView>, width: usize)
    requires
        fill_count(line) > 0,
        width > used_width(line),
    ensures
        fill_size(line, Some(width)) == (width - used_width(line)) / (fill_count(line) as int),
        fill_output_len(line, Some(width)) == fill_count(line) * fill_size(line, Some(width)),
        fill_output_len(line, Some(width)) <= width - used_width(line),
        width - used_width(line) < fill_output_len(line, Some(width)) + fill_count(line),
        forall|i: int|
            0 <= i < line.len() && (#[trigger] line[i]) is Fill ==> rendered_line(line, Some(width))[i].text.len()
                == fill_size(line, Some(width)),
{
    let room = width - used_width(line);
    let count = fill_count(line) as int;
    lemma_fill_output_len_upto(line, Some(width), line.len() as int);
    assert(line.take(line.len() as int) == line);
    assert(count * (room / count) <= room && room < count * (room / count) + count) by (nonlinear_arith)
        requires
            count > 0,
            room >= 0,
    ;
}

/// Without a target width, or with one that the text already reaches, every
/// fill of a line comes out empty.
pub proof fn lemma_fills_collapse(line: Seq<SegmentView>, width: Option<usize>)
    requires
        width matches Some(w) ==> w <= used_width(line),
    ensures
        fill_size(line, width) == 0,
        fill_output_len(line, width) == 0,
        forall|i: int|
            0 <= i < line.len() && (#[trigger] line[i]) is Fill ==> rendered_line(line, width)[i].text.len()
                == 0,
{
    lemma_fill_output_len_upto(line, width, line.len() as int);
    assert(fill_count(line.take(line.len() as int)) * 0 == 0) by (nonlinear_arith);
}

/// Two fills in a line whose text uses `K` columns: at a target width of
/// `K + 10` each fill is exactly 5 characters long, and at a target width
/// of `K` or less both are empty.
pub proof fn lemma_two_fills(line: Seq<SegmentView>, width: usize)
    requires
        fill_count(line) == 2,
    ensures
        width == used_width(line) + 10 ==> forall|i: int|
            0 <= i < line.len() && (#[trigger] line[i]) is Fill ==> rendered_line(line, Some(width))[i].text
                == repeated(line[i]->Fill_0, 5),
        width <= used_width(line) ==> forall|i: int|
            0 <= i < line.len() && (#[trigger] line[i]) is Fill ==> rendered_line(line, Some(width))[i].text
                == repeated(line[i]->Fill_0, 0),
{
}

/// Three fills and ten columns to spare: each fill is 3 characters long,
/// and the fills together hold 9 characters, not 10. The column that the
/// division leaves over goes to no fill.
pub proof fn lemma_three_fills(line: Seq<SegmentView>, width: usize)
    requires
        fill_count(line) == 3,
        width - used_width(line) == 10,
    ensures
        fill_size(line, Some(width)) == 3,
        forall|i: int|
            0 <= i < line.len() && (#[trigger] line[i]) is Fill ==> rendered_line(line, Some(width))[i].text
                == repeated(line[i]->Fill_0, 3),
        fill_output_len(line, Some(width)) == 9,
{
    lemma_fills_share_evenly(line, width);
}

/// The length of each of `fills` fills in a line whose text uses `used`
/// columns: the space that `term_width` leaves over, divided evenly, the
/// remainder dropped; and 0 without a width, without room, without fills.
pub fn fill_width(term_width: Option<usize>, used: usize, fills: usize) -> (size: usize)
    ensures
        size == fill_share(term_width, used as nat, fills as nat),
{
    match term_width {
        Some(w) => if fills > 0 && w > used {
            (w - used) / fills
        } else {
            0
        },
        None => 0,
    }
}

/// Composes the line that starts at `start`: its finished strings, and the
/// place where the next line starts.
///
/// The line runs up to and including the first line terminator at or
/// after `start`, or to the end of the segments. Each of its segments gives
/// one string, in order, and each fill is as long as [`fill_size`] says. At
/// or behind the end of the segments there is no line: no string comes
/// back, and the end of the segments as the next start.
pub fn ansi_line(segments: &Vec<Segment>, start: usize, term_width: Option<usize>) -> (result: (
    Vec<StyledString>,
    usize,
))
    ensures
        result.1 == line_end(segment_views(segments@), start as int),
        start < segments.len() ==> start < result.1 <= segments.len() && styled_texts(result.0@)
            == rendered_line(
            segment_views(segments@).subrange(start as int, result.1 as int),
            term_width,
        ),
        start >= segments.len() ==> result.0@.len() == 0,
{
    if start >= segments.len() {
        return (Vec::new(), segments.len());
    }
    let ghost views = segment_views(segments@);
    let mut end: usize = start;
    let mut used: usize = 0;
    let mut fills: usize = 0;
    let mut done = false;
    while end < segments.len() && !done
        invariant
            views == segment_views(segments@),
            start <= end <= segments.len(),
            end == start ==> !done,
            !done ==> line_end(views, start as int) == line_end(views, end as int),
            done ==> line_end(views, start as int) == end,
            used == saturated(used_width(views.subrange(start as int, end as int))),
            fills == fill_count(views.subrange(start as int, end as int)),
            fills <= end - start,
        decreases segments.len() - end + if done { 0int } else { 1int },
    {
        let segment = &segments[end];
        proof {
            let longer = views.subrange(start as int, end + 1);
            assert(longer.drop_last() == views.subrange(start as int, end as int));
        }
        match segment {
            Segment::Fill(_, _) => {
                fills += 1;
            },
            Segment::LineTerminator => {
                done = true;
            },
            Segment::Styled(_, _) => {
                used = used.saturating_add(segment.display_width());
            },
        }
        end += 1;
    }
    let ghost line = views.subrange(start as int, end as int);
    let size = fill_width(term_width, used, fills);
    let mut strings: Vec<StyledString> = Vec::new();
    let mut i: usize = start;
    while i < end
        invariant
            views == segment_views(segments@),
            line == views.subrange(start as int, end as int),
            start <= i <= end <= segments.len(),
            strings.len() == i - start,
            forall|j: int| 0 <= j < strings.len() ==> (#[trigger] strings[j])@ == line[j].rendered(size as nat),
        decreases end - i,
    {
        strings.push(segments[i].render(Some(size)));
        i += 1;
    }
    (strings, end)
}

} // verus!
