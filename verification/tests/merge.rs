use preview_engine::merge::{merge_fragment, speculate};
use serde_json::Value;

fn parse(text: &str) -> Value {
    serde_json::from_str(text).unwrap()
}

#[test]
fn merge_overrides_named_fields_and_keeps_the_rest() {
    let mut config = parse(r#"{"class":"author_date","has_bibliography":true,"author_format":"long"}"#);
    let fragment = parse(r#"{"class":"footnote","has_bibliography":false}"#);
    merge_fragment(&mut config, &fragment);
    assert_eq!(
        config,
        parse(r#"{"class":"footnote","has_bibliography":false,"author_format":"long"}"#)
    );
}

#[test]
fn merge_adds_fields_that_the_configuration_lacks() {
    let mut config = parse(r#"{"class":"numeric"}"#);
    let fragment = parse(r#"{"has_bibliography":true,"extra":{"nested":[1,2]}}"#);
    merge_fragment(&mut config, &fragment);
    assert_eq!(
        config,
        parse(r#"{"class":"numeric","has_bibliography":true,"extra":{"nested":[1,2]}}"#)
    );
}

#[test]
fn merge_is_shallow() {
    let mut config = parse(r#"{"options":{"a":1,"b":2}}"#);
    let fragment = parse(r#"{"options":{"b":3}}"#);
    merge_fragment(&mut config, &fragment);
    assert_eq!(config, parse(r#"{"options":{"b":3}}"#));
}

#[test]
fn merge_of_an_empty_fragment_changes_nothing() {
    let mut config = parse(r#"{"class":"numeric","n":null}"#);
    merge_fragment(&mut config, &parse("{}"));
    assert_eq!(config, parse(r#"{"class":"numeric","n":null}"#));
}

#[test]
fn merge_into_an_empty_configuration_gives_the_fragment() {
    let mut config = parse("{}");
    merge_fragment(&mut config, &parse(r#"{"a":1,"b":"two"}"#));
    assert_eq!(config, parse(r#"{"a":1,"b":"two"}"#));
}

#[test]
fn merge_with_a_fragment_that_is_no_object_changes_nothing() {
    for fragment in ["null", "true", "3", "\"class\"", "[{\"class\":\"numeric\"}]"] {
        let mut config = parse(r#"{"class":"author_date"}"#);
        merge_fragment(&mut config, &parse(fragment));
        assert_eq!(config, parse(r#"{"class":"author_date"}"#));
    }
}

#[test]
fn merge_into_a_value_that_is_no_object_changes_nothing() {
    for config_text in ["null", "false", "12", "\"text\"", "[1,2]"] {
        let mut config = parse(config_text);
        merge_fragment(&mut config, &parse(r#"{"class":"numeric"}"#));
        assert_eq!(config, parse(config_text));
    }
}

#[test]
fn speculate_leaves_the_configuration_as_it_was() {
    let config = parse(r#"{"class":"author_date","has_bibliography":true}"#);
    let before = serde_json::to_string(&config).unwrap();
    let fragment = parse(r#"{"class":"endnote","has_bibliography":null}"#);
    let fragment_before = serde_json::to_string(&fragment).unwrap();
    let merged = speculate(&config, &fragment);
    assert_eq!(serde_json::to_string(&config).unwrap(), before);
    assert_eq!(serde_json::to_string(&fragment).unwrap(), fragment_before);
    assert_eq!(merged, parse(r#"{"class":"endnote","has_bibliography":null}"#));
}

#[test]
fn speculate_gives_each_named_field_the_value_of_the_fragment() {
    let config = parse(r#"{"a":1,"b":2,"c":3}"#);
    let fragment = parse(r#"{"b":20,"d":40}"#);
    let merged = speculate(&config, &fragment);
    let fields = merged.as_object().unwrap();
    assert_eq!(fields.len(), 4);
    assert_eq!(fields.get("a"), Some(&parse("1")));
    assert_eq!(fields.get("b"), Some(&parse("20")));
    assert_eq!(fields.get("c"), Some(&parse("3")));
    assert_eq!(fields.get("d"), Some(&parse("40")));
}

#[test]
fn speculate_twice_gives_the_same_result() {
    let config = parse(r#"{"class":"numeric","x":[1,2,3]}"#);
    let fragment = parse(r#"{"x":"y"}"#);
    assert_eq!(speculate(&config, &fragment), speculate(&config, &fragment));
}
