//! Segments: the typed units that a module's output is made of.

use vstd::prelude::*;
use crate::style::{StyledString, StyledText, TextStyle};
use crate::width::{display_width, saturated, width_graphemes};

verus! {

/// One unit of prompt output.
#[derive(Clone, Debug, PartialEq, Eq)]
pub enum Segment {
    /// A run of text with the style it is shown in. Without a style the
    /// text is shown plain.
    Styled(String, Option<TextStyle>),
    /// A request to repeat a character over the space that is left in the
    /// line.
    Fill(char, Option<TextStyle>),
    /// The end of a display line.
    LineTerminator,
}

/// The mathematical value of a [`Segment`].
pub ghost enum SegmentView {
    Styled(Seq<char>, Option<TextStyle>),
    Fill(char, Option<TextStyle>),
    LineTerminator,
}

impl View for Segment {
    type V = SegmentView;

    open spec fn view(&self) -> SegmentView {
        match self {
            Segment::Styled(text, style) => SegmentView::Styled(text@, *style),
            Segment::Fill(fill_char, style) => SegmentView::Fill(*fill_char, *style),
            Segment::LineTerminator => SegmentView::LineTerminator,
        }
    }
}

/// The views of a sequence of segments, in order.
pub open spec fn segment_views(segments: Seq<Segment>) -> Seq<SegmentView> {
    segments.map_values(|s: Segment| s@)
}

/// The style a segment is drawn in when it names none.
pub open spec fn style_or_plain(style: Option<TextStyle>) -> TextStyle {
    match style {
        Some(s) => s,
        None => TextStyle::plain(),
    }
}

/// `count` copies of `c`.
pub open spec fn repeated(c: char, count: nat) -> Seq<char> {
    Seq::new(count, |i: int| c)
}

impl SegmentView {
    /// The text the segment carries: that of a styled segment, and nothing
    /// for a fill or a line terminator.
    pub open spec fn raw_text(self) -> Seq<char> {
        match self {
            SegmentView::Styled(text, _) => text,
            _ => Seq::empty(),
        }
    }

    /// Whether the segment adds nothing to the output: a styled segment
    /// without text. A line terminator adds a line, and a fill stands for
    /// the character it repeats, so neither is blank.
    pub open spec fn is_blank(self) -> bool {
        self matches SegmentView::Styled(text, _) && text.len() == 0
    }

    /// The columns the segment takes before fills are resolved: the width
    /// of a styled segment's text, and 0 for a fill or a line terminator.
    pub open spec fn display_width(self) -> nat {
        match self {
            SegmentView::Styled(text, _) => display_width(text),
            _ => 0,
        }
    }

    /// The finished string of the segment, a fill being `fill_width`
    /// characters long.
    pub open spec fn rendered(self, fill_width: nat) -> StyledText {
        match self {
            SegmentView::Styled(text, style) => StyledText {
                style: style_or_plain(style),
                text: text,
            },
            SegmentView::Fill(fill_char, style) => StyledText {
                style: style_or_plain(style),
                text: repeated(fill_char, fill_width),
            },
            SegmentView::LineTerminator => StyledText {
                style: TextStyle::plain(),
                text: seq!['\n'],
            },
        }
    }
}

/// The number of characters of `text` before its first line break, and the
/// whole length where it has none.
pub open spec fn first_line_len(text: Seq<char>) -> nat
    decreases text.len(),
{
    if text.len() == 0 || text[0] == '\n' {
        0
    } else {
        1 + first_line_len(text.skip(1))
    }
}

/// The segment for one run of text between line breaks: none for an empty
/// run.
pub open spec fn run_segment(style: Option<TextStyle>, run: Seq<char>) -> Seq<SegmentView> {
    if run.len() == 0 {
        Seq::empty()
    } else {
        seq![SegmentView::Styled(run, style)]
    }
}

/// The segments of a text: each non-empty run between line breaks is a
/// styled segment, and each line break a line terminator, in the order of
/// the text.
pub open spec fn text_segments(style: Option<TextStyle>, text: Seq<char>) -> Seq<SegmentView>
    decreases text.len(),
{
    let n = first_line_len(text);
    if n >= text.len() {
        run_segment(style, text)
    } else {
        run_segment(style, text.take(n as int)) + seq![SegmentView::LineTerminator]
            + text_segments(style, text.skip((n + 1) as int))
    }
}

/// The first line of a text ends where the text does, or before a line
/// break.
proof fn lemma_first_line_len(text: Seq<char>)
    ensures
        first_line_len(text) <= text.len(),
        first_line_len(text) < text.len() ==> text[first_line_len(text) as int] == '\n',
    decreases text.len(),
{
    if text.len() == 0 || text[0] == '\n' {
    } else {
        lemma_first_line_len(text.skip(1));
    }
}

/// Reading one more character that is no line break lengthens the first
/// line by one.
proof fn lemma_first_line_len_step(text: Seq<char>, start: int, k: int)
    requires
        0 <= start <= k < text.len(),
        text[k] != '\n',
        first_line_len(text.skip(start)) == (k - start) + first_line_len(text.skip(k)),
    ensures
        first_line_len(text.skip(start)) == (k + 1 - start) + first_line_len(text.skip(k + 1)),
{
    assert(text.skip(k).skip(1) == text.skip(k + 1));
}

/// The characters that the segments show when no fill is given any width:
/// their texts and line breaks, one after the other.
pub open spec fn joined_text(segments: Seq<SegmentView>) -> Seq<char>
    decreases segments.len(),
{
    if segments.len() == 0 {
        Seq::empty()
    } else {
        joined_text(segments.drop_last()) + segments.last().rendered(0).text
    }
}

/// What two runs of segments show together is what the first shows, then
/// what the second shows.
pub proof fn lemma_joined_text_concat(first: Seq<SegmentView>, second: Seq<SegmentView>)
    ensures
        joined_text(first + second) == joined_text(first) + joined_text(second),
    decreases second.len(),
{
    if second.len() > 0 {
        lemma_joined_text_concat(first, second.drop_last());
        assert((first + second).drop_last() == first + second.drop_last());
    }
}

/// The segments of a text show the text, character for character: nothing
/// is lost or added when a text is cut into segments.
pub proof fn lemma_text_segments_keep_the_text(style: Option<TextStyle>, text: Seq<char>)
    ensures
        joined_text(text_segments(style, text)) == text,
    decreases text.len(),
{
    lemma_first_line_len(text);
    let n = first_line_len(text);
    let run = if n >= text.len() {
        text
    } else {
        text.take(n as int)
    };
    let head = run_segment(style, run);
    assert(joined_text(head) == run) by {
        if run.len() > 0 {
            assert(joined_text(head.drop_last()) == Seq::<char>::empty());
        }
    }
    if n < text.len() {
        let rest = text.skip((n + 1) as int);
        let terminator = seq![SegmentView::LineTerminator];
        lemma_text_segments_keep_the_text(style, rest);
        assert(joined_text(terminator) == seq!['\n']) by {
            assert(joined_text(terminator.drop_last()) == Seq::<char>::empty());
        }
        lemma_joined_text_concat(head, terminator);
        lemma_joined_text_concat(head + terminator, text_segments(style, rest));
    }
}

/// Among the segments of a text there is no fill, and every styled segment
/// has the style that was asked for and a text that is neither empty nor
/// broken by a line break.
pub proof fn lemma_text_segments_are_runs(style: Option<TextStyle>, text: Seq<char>, i: int)
    requires
        0 <= i < text_segments(style, text).len(),
    ensures
        !(text_segments(style, text)[i] is Fill),
        text_segments(style, text)[i] matches SegmentView::Styled(run, run_style) ==> {
            &&& run_style == style
            &&& run.len() > 0
            &&& !run.contains('\n')
        },
    decreases text.len(),
{
    lemma_first_line_len(text);
    lemma_first_line_has_no_break(text);
    let n = first_line_len(text);
    if n < text.len() {
        let head = run_segment(style, text.take(n as int)) + seq![SegmentView::LineTerminator];
        if i >= head.len() {
            lemma_text_segments_are_runs(style, text.skip((n + 1) as int), i - head.len());
        }
    } else {
        assert(text.take(n as int) == text);
    }
}

/// There is no line break in the first line of a text.
proof fn lemma_first_line_has_no_break(text: Seq<char>)
    ensures
        !text.take(first_line_len(text) as int).contains('\n'),
    decreases text.len(),
{
    lemma_first_line_len(text);
    let n = first_line_len(text);
    if text.len() > 0 && text[0] != '\n' {
        let rest = text.skip(1);
        let m = first_line_len(rest);
        lemma_first_line_has_no_break(rest);
        assert forall|j: int| 0 <= j < n implies text.take(n as int)[j] != '\n' by {
            if j > 0 {
                assert(rest.take(m as int)[j - 1] == text[j]);
            }
        }
    }
}

/// The width that a fill is given: the one supplied, and 0 without one.
pub open spec fn width_or_zero(fill_width: Option<usize>) -> nat {
    match fill_width {
        Some(w) => w as nat,
        None => 0,
    }
}

/// `count` copies of `c` as a string.
fn repeat_char(c: char, count: usize) -> (out: String)
    ensures
        out@ == repeated(c, count as nat),
{
    let mut out = String::new();
    let mut i: usize = 0;
    while i < count
        invariant
            i <= count,
            out@ == repeated(c, i as nat),
        decreases count - i,
    {
        out.push(c);
        i += 1;
    }
    out
}

impl Segment {
    /// The segments of `value` in `style`: line breaks become line
    /// terminators, and the text between them styled segments.
    pub fn from_text(style: Option<TextStyle>, value: &str) -> (segments: Vec<Segment>)
        ensures
            segment_views(segments@) == text_segments(style, value@),
    {
        let mut segments: Vec<Segment> = Vec::new();
        let mut run = String::new();
        let ghost text = value@;
        let ghost mut start: int = 0;
        proof {
            assert(text.skip(0) == text);
        }
        for c in it: value.chars()
            invariant
                it.seq() == text,
                text == value@,
                0 <= start <= it.index(),
                run@ == text.subrange(start, it.index()),
                first_line_len(text.skip(start)) == (it.index() - start) + first_line_len(
                    text.skip(it.index()),
                ),
                text_segments(style, text) == segment_views(segments@) + text_segments(
                    style,
                    text.skip(start),
                ),
        {
            let ghost k = it.index();
            if c == '\n' {
                proof {
                    let tail = text.skip(start);
                    assert(tail.take(k - start) == run@);
                    assert(tail.skip(k - start + 1) == text.skip(k + 1));
                }
                if !run.as_str().is_empty() {
                    let finished = run;
                    run = String::new();
                    segments.push(Segment::Styled(finished, style));
                }
                segments.push(Segment::LineTerminator);
                proof {
                    start = k + 1;
                }
            } else {
                run.push(c);
                proof {
                    lemma_first_line_len_step(text, start, k);
                }
            }
        }
        if !run.as_str().is_empty() {
            segments.push(Segment::Styled(run, style));
        }
        segments
    }

    /// A fill segment that repeats `fill_char`.
    pub fn fill(style: Option<TextStyle>, fill_char: char) -> (segment: Segment)
        ensures
            segment@ == SegmentView::Fill(fill_char, style),
    {
        Segment::Fill(fill_char, style)
    }

    /// The text the segment carries.
    pub fn raw_text(&self) -> (text: &str)
        ensures
            text@ == self@.raw_text(),
    {
        match self {
            Segment::Styled(text, _) => text.as_str(),
            _ => {
                proof {
                    reveal_strlit("");
                }
                ""
            },
        }
    }

    /// Whether the segment is a styled segment without text.
    pub fn is_blank(&self) -> (blank: bool)
        ensures
            blank == self@.is_blank(),
    {
        match self {
            Segment::Styled(text, _) => text.as_str().is_empty(),
            _ => false,
        }
    }

    /// The columns the segment takes before fills are resolved, held at
    /// `usize::MAX` where the true width is larger.
    pub fn display_width(&self) -> (width: usize)
        ensures
            width == saturated(self@.display_width()),
    {
        match self {
            Segment::Styled(text, _) => width_graphemes(text.as_str()),
            _ => 0,
        }
    }

    /// The finished string of the segment. A fill is `fill_width`
    /// characters long, and empty where no width is given.
    pub fn render(&self, fill_width: Option<usize>) -> (out: StyledString)
        ensures
            out@ == self@.rendered(width_or_zero(fill_width)),
    {
        match self {
            Segment::Styled(text, style) => StyledString {
                style: plain_if_none(*style),
                text: text.clone(),
            },
            Segment::Fill(fill_char, style) => {
                let count = match fill_width {
                    Some(w) => w,
                    None => 0,
                };
                StyledString { style: plain_if_none(*style), text: repeat_char(*fill_char, count) }
            },
            Segment::LineTerminator => {
                proof {
                    reveal_strlit("\n");
                }
                let text = String::from_str("\n");
                assert(text@ == seq!['\n']);
                StyledString { style: TextStyle::new(), text }
            },
        }
    }
}

/// The style itself, or the plain style for `None`.
fn plain_if_none(style: Option<TextStyle>) -> (out: TextStyle)
    ensures
        out == style_or_plain(style),
{
    match style {
        Some(s) => s,
        None => TextStyle::new(),
    }
}

} // verus!
