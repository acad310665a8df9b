use promptline::yaml::YamlNode;

fn text(value: &str) -> YamlNode {
    YamlNode::String(value.to_string())
}

fn mapping() -> YamlNode {
    YamlNode::Hash(vec![
        (text("name"), text("ctx")),
        (YamlNode::Integer(1), text("by number")),
        (text("list"), YamlNode::Array(vec![text("a"), YamlNode::Null])),
        (text("name"), text("later")),
    ])
}

#[test]
fn get_finds_the_value_under_a_string_key() {
    assert_eq!(mapping().get("name"), Some(&text("ctx")));
    assert_eq!(
        mapping().get("list"),
        Some(&YamlNode::Array(vec![text("a"), YamlNode::Null]))
    );
}

#[test]
fn get_is_none_for_a_missing_key() {
    assert_eq!(mapping().get("missing"), None);
    assert_eq!(mapping().get("1"), None);
    assert_eq!(mapping().get(""), None);
}

#[test]
fn get_is_none_for_what_is_no_mapping() {
    assert_eq!(text("name").get("name"), None);
    assert_eq!(YamlNode::Array(vec![text("name")]).get("name"), None);
    assert_eq!(YamlNode::Null.get("name"), None);
    assert_eq!(YamlNode::BadValue.get("name"), None);
}

#[test]
fn as_str_is_the_text_of_a_string() {
    assert_eq!(text("ctx").as_str(), Some("ctx"));
    assert_eq!(text("").as_str(), Some(""));
}

#[test]
fn as_str_is_none_for_other_nodes() {
    assert_eq!(YamlNode::Integer(3).as_str(), None);
    assert_eq!(YamlNode::Real("1.5".to_string()).as_str(), None);
    assert_eq!(YamlNode::Boolean(true).as_str(), None);
    assert_eq!(YamlNode::Alias(0).as_str(), None);
    assert_eq!(YamlNode::Null.as_str(), None);
    assert_eq!(mapping().as_str(), None);
}

#[test]
fn as_vec_is_the_items_of_an_array() {
    let items = vec![text("a"), YamlNode::Integer(2)];
    assert_eq!(
        YamlNode::Array(vec![text("a"), YamlNode::Integer(2)]).as_vec(),
        Some(&items)
    );
    assert_eq!(YamlNode::Array(vec![]).as_vec(), Some(&vec![]));
}

#[test]
fn as_vec_is_none_for_other_nodes() {
    assert_eq!(text("a").as_vec(), None);
    assert_eq!(mapping().as_vec(), None);
    assert_eq!(YamlNode::BadValue.as_vec(), None);
}
