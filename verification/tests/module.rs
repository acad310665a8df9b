use promptline::module::{Module, ALL_MODULES};
use promptline::segment::Segment;

#[test]
fn test_all_modules_is_in_alphabetical_order() {
    let mut sorted_modules: Vec<&str> = ALL_MODULES.iter().copied().collect();
    sorted_modules.sort_unstable();
    assert_eq!(sorted_modules.as_slice(), ALL_MODULES);
}

#[test]
fn test_module_is_empty_with_no_segments() {
    let name = "unit_test";
    let desc = "This is a unit test";
    let module = Module {
        config: None,
        name: name.to_string(),
        description: desc.to_string(),
        segments: Vec::new(),
        duration_nanos: 0,
    };

    assert!(module.is_empty());
}

#[test]
fn test_module_is_empty_with_all_empty_segments() {
    let name = "unit_test";
    let desc = "This is a unit test";
    let module = Module {
        config: None,
        name: name.to_string(),
        description: desc.to_string(),
        segments: Segment::from_text(None, ""),
        duration_nanos: 0,
    };

    assert!(module.is_empty());
}

#[test]
fn test_module_is_not_empty_with_linebreak_only() {
    let name = "unit_test";
    let desc = "This is a unit test";
    let module = Module {
        config: None,
        name: name.to_string(),
        description: desc.to_string(),
        segments: Segment::from_text(None, "\n"),
        duration_nanos: 0,
    };

    assert!(!module.is_empty());
}

#[test]
fn test_module_is_not_empty_with_space_only() {
    let name = "unit_test";
    let desc = "This is a unit test";
    let module = Module {
        config: None,
        name: name.to_string(),
        description: desc.to_string(),
        segments: Segment::from_text(None, " "),
        duration_nanos: 0,
    };

    assert!(!module.is_empty());
}

fn module_of(segments: Vec<Segment>) -> Module<'static> {
    let mut module = Module::new("unit_test", "This is a unit test", None);
    module.set_segments(segments);
    module
}

#[test]
fn new_module_has_its_name_and_no_segments() {
    let module = Module::new("unit_test", "This is a unit test", None);
    assert_eq!(module.get_name(), "unit_test");
    assert_eq!(module.get_description(), "This is a unit test");
    assert!(module.config.is_none());
    assert!(module.segments.is_empty());
    assert_eq!(module.duration_nanos, 0);
}

#[test]
fn new_module_keeps_its_configuration() {
    let config = toml::Value::Boolean(true);
    let module = Module::new("unit_test", "This is a unit test", Some(&config));
    assert_eq!(module.config, Some(&config));
}

#[test]
fn set_segments_replaces_the_segments() {
    let mut module = module_of(vec![Segment::LineTerminator]);
    module.duration_nanos = 5;
    module.set_segments(vec![Segment::Styled("a".to_string(), None)]);
    assert_eq!(module.segments, vec![Segment::Styled("a".to_string(), None)]);
    assert_eq!(module.get_name(), "unit_test");
    assert_eq!(module.get_description(), "This is a unit test");
    assert_eq!(module.duration_nanos, 5);
}

#[test]
fn module_of_text_is_not_empty() {
    let module = module_of(vec![
        Segment::Styled("a".to_string(), None),
        Segment::Styled("b".to_string(), None),
    ]);
    assert!(!module.is_empty());
}

#[test]
fn module_of_empty_text_is_empty() {
    let module = module_of(vec![
        Segment::Styled(String::new(), None),
        Segment::Styled(String::new(), None),
    ]);
    assert!(module.is_empty());
}

#[test]
fn module_with_one_text_among_empty_ones_is_not_empty() {
    let module = module_of(vec![
        Segment::Styled(String::new(), None),
        Segment::Styled("x".to_string(), None),
        Segment::Styled(String::new(), None),
    ]);
    assert!(!module.is_empty());
}

#[test]
fn module_of_a_single_line_terminator_is_not_empty() {
    assert!(!module_of(vec![Segment::LineTerminator]).is_empty());
}

#[test]
fn module_of_a_single_space_is_not_empty() {
    assert!(!module_of(vec![Segment::Styled(" ".to_string(), None)]).is_empty());
}

#[test]
fn module_with_a_fill_is_not_empty() {
    assert!(!module_of(vec![Segment::Fill('.', None)]).is_empty());
    assert!(!module_of(vec![
        Segment::Styled(String::new(), None),
        Segment::Fill(' ', None)
    ])
    .is_empty());
}

#[test]
fn get_segments_gives_the_text_of_each_segment() {
    let module = module_of(vec![
        Segment::Styled("git".to_string(), None),
        Segment::Fill('-', None),
        Segment::Styled(String::new(), None),
        Segment::LineTerminator,
        Segment::Styled("branch".to_string(), None),
    ]);
    assert_eq!(module.get_segments(), vec!["git", "", "", "", "branch"]);
}

#[test]
fn get_segments_of_no_segments_is_empty() {
    assert!(module_of(vec![]).get_segments().is_empty());
}
