use promptline::style::{Color, StyledString, TextStyle};

fn plain(text: &str) -> StyledString {
    StyledString {
        style: TextStyle::new(),
        text: text.to_string(),
    }
}

#[test]
fn new_style_has_nothing_set() {
    let style = TextStyle::new();
    assert_eq!(style.foreground, None);
    assert_eq!(style.background, None);
    assert!(!style.is_bold);
    assert!(!style.is_dimmed);
    assert!(!style.is_italic);
    assert!(!style.is_underline);
    assert!(!style.is_blink);
    assert!(!style.is_reverse);
    assert!(!style.is_hidden);
    assert!(!style.is_strikethrough);
}

#[test]
fn plain_string_is_written_as_it_is() {
    assert_eq!(plain("txt").to_string(), "txt");
    assert_eq!(plain("").to_string(), "");
}

#[test]
fn styled_string_is_written_between_escape_sequences() {
    let string = StyledString {
        style: TextStyle {
            foreground: Some(Color::Cyan),
            is_bold: true,
            ..TextStyle::new()
        },
        text: "hi".to_string(),
    };
    assert_eq!(string.to_string(), "\u{1b}[1;36mhi\u{1b}[0m");
}

#[test]
fn every_attribute_reaches_the_terminal() {
    let string = StyledString {
        style: TextStyle {
            foreground: Some(Color::Fixed(200)),
            background: Some(Color::RGB(1, 2, 3)),
            is_bold: true,
            is_dimmed: true,
            is_italic: true,
            is_underline: true,
            is_blink: true,
            is_reverse: true,
            is_hidden: true,
            is_strikethrough: true,
        },
        text: "x".to_string(),
    };
    assert_eq!(
        string.to_string(),
        "\u{1b}[1;2;3;4;5;7;8;9;48;2;1;2;3;38;5;200mx\u{1b}[0m"
    );
}

#[test]
fn every_colour_has_its_own_code() {
    let colours = [
        (Color::Black, "30"),
        (Color::Red, "31"),
        (Color::Green, "32"),
        (Color::Yellow, "33"),
        (Color::Blue, "34"),
        (Color::Purple, "35"),
        (Color::Cyan, "36"),
        (Color::White, "37"),
    ];
    for (colour, code) in colours {
        let string = StyledString {
            style: TextStyle {
                foreground: Some(colour),
                ..TextStyle::new()
            },
            text: "x".to_string(),
        };
        assert_eq!(string.to_string(), format!("\u{1b}[{}mx\u{1b}[0m", code));
    }
}

#[test]
fn to_string_agrees_with_ansi_term() {
    let string = StyledString {
        style: TextStyle {
            foreground: Some(Color::Purple),
            background: Some(Color::White),
            is_underline: true,
            ..TextStyle::new()
        },
        text: "both".to_string(),
    };
    let expected = ansi_term::Colour::Purple
        .on(ansi_term::Colour::White)
        .underline()
        .paint("both")
        .to_string();
    assert_eq!(string.to_string(), expected);
}
