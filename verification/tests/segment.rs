use promptline::segment::Segment;
use promptline::style::{Color, StyledString, TextStyle};

fn red() -> TextStyle {
    TextStyle {
        foreground: Some(Color::Red),
        ..TextStyle::new()
    }
}

fn styled(text: &str, style: Option<TextStyle>) -> Segment {
    Segment::Styled(text.to_string(), style)
}

#[test]
fn from_text_without_line_break_is_one_segment() {
    assert_eq!(
        Segment::from_text(Some(red()), "branch"),
        vec![styled("branch", Some(red()))]
    );
}

#[test]
fn from_text_of_nothing_is_no_segment() {
    assert_eq!(Segment::from_text(None, ""), vec![]);
}

#[test]
fn from_text_of_a_line_break_is_a_terminator() {
    assert_eq!(Segment::from_text(None, "\n"), vec![Segment::LineTerminator]);
}

#[test]
fn from_text_splits_at_line_breaks() {
    assert_eq!(
        Segment::from_text(None, "one\ntwo"),
        vec![
            styled("one", None),
            Segment::LineTerminator,
            styled("two", None)
        ]
    );
}

#[test]
fn from_text_keeps_every_line_break() {
    assert_eq!(
        Segment::from_text(Some(red()), "\n\na\n"),
        vec![
            Segment::LineTerminator,
            Segment::LineTerminator,
            styled("a", Some(red())),
            Segment::LineTerminator,
        ]
    );
}

#[test]
fn from_text_does_not_trim() {
    assert_eq!(
        Segment::from_text(None, " a \n "),
        vec![
            styled(" a ", None),
            Segment::LineTerminator,
            styled(" ", None)
        ]
    );
}

#[test]
fn fill_holds_its_character_and_style() {
    assert_eq!(
        Segment::fill(Some(red()), '.'),
        Segment::Fill('.', Some(red()))
    );
    assert_eq!(Segment::fill(None, '-'), Segment::Fill('-', None));
}

#[test]
fn raw_text_is_the_text_of_a_styled_segment() {
    assert_eq!(styled("main", None).raw_text(), "main");
    assert_eq!(styled("", Some(red())).raw_text(), "");
}

#[test]
fn raw_text_of_fill_and_terminator_is_empty() {
    assert_eq!(Segment::Fill('.', None).raw_text(), "");
    assert_eq!(Segment::LineTerminator.raw_text(), "");
}

#[test]
fn display_width_counts_columns() {
    assert_eq!(styled("branch", None).display_width(), 6);
    assert_eq!(styled("", None).display_width(), 0);
    assert_eq!(styled("日本", None).display_width(), 4);
}

#[test]
fn display_width_of_fill_and_terminator_is_zero() {
    assert_eq!(Segment::Fill('.', None).display_width(), 0);
    assert_eq!(Segment::Fill('日', None).display_width(), 0);
    assert_eq!(Segment::LineTerminator.display_width(), 0);
}

#[test]
fn only_a_styled_segment_without_text_is_blank() {
    assert!(styled("", None).is_blank());
    assert!(styled("", Some(red())).is_blank());
    assert!(!styled(" ", None).is_blank());
    assert!(!styled("a", None).is_blank());
    assert!(!Segment::Fill(' ', None).is_blank());
    assert!(!Segment::LineTerminator.is_blank());
}

#[test]
fn render_of_a_styled_segment_is_its_text_and_style() {
    let expected = StyledString {
        style: red(),
        text: "main".to_string(),
    };
    assert_eq!(styled("main", Some(red())).render(None), expected);
    assert_eq!(styled("main", Some(red())).render(Some(7)), expected);
}

#[test]
fn render_without_a_style_is_plain() {
    assert_eq!(
        styled("main", None).render(None),
        StyledString {
            style: TextStyle::new(),
            text: "main".to_string()
        }
    );
}

#[test]
fn render_of_a_fill_repeats_its_character() {
    assert_eq!(
        Segment::Fill('-', Some(red())).render(Some(4)),
        StyledString {
            style: red(),
            text: "----".to_string()
        }
    );
    assert_eq!(
        Segment::Fill('·', None).render(Some(2)),
        StyledString {
            style: TextStyle::new(),
            text: "··".to_string()
        }
    );
}

#[test]
fn render_of_a_fill_without_width_is_empty() {
    assert_eq!(
        Segment::Fill('-', Some(red())).render(None),
        StyledString {
            style: red(),
            text: String::new()
        }
    );
    assert_eq!(
        Segment::Fill('-', None).render(Some(0)),
        StyledString {
            style: TextStyle::new(),
            text: String::new()
        }
    );
}

#[test]
fn render_of_a_terminator_is_a_line_break() {
    let expected = StyledString {
        style: TextStyle::new(),
        text: "\n".to_string(),
    };
    assert_eq!(Segment::LineTerminator.render(None), expected);
    assert_eq!(Segment::LineTerminator.render(Some(3)), expected);
}

#[test]
fn segments_of_a_text_show_the_text() {
    let texts = ["", "\n", "one", "one\ntwo", "\n\na\n", " a \n ", "a\n\nb\n\n"];
    for text in texts {
        let shown: String = Segment::from_text(Some(red()), text)
            .iter()
            .map(|segment| segment.render(None).text)
            .collect();
        assert_eq!(shown, text);
    }
}

#[test]
fn segments_of_a_text_are_runs_without_line_break() {
    for segment in Segment::from_text(None, "a\n\nbc\n d\n") {
        match segment {
            Segment::Styled(run, style) => {
                assert!(!run.is_empty());
                assert!(!run.contains('\n'));
                assert_eq!(style, None);
            }
            Segment::LineTerminator => {}
            Segment::Fill(_, _) => panic!("a text has no fill"),
        }
    }
}
