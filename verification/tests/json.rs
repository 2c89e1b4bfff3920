use quran_segmentation::json::{
    copy_strings, read_json, read_string_list, read_string_member, read_strings, read_text_value,
    JsonNode,
};

#[test]
fn a_document_is_read_as_its_compact_text_and_top_level() {
    let doc = read_json(" { \"b\" : [1, 2.5, \"x\"], \"a\": null } ").unwrap();
    assert_eq!(doc.compact, "{\"a\":null,\"b\":[1,2.5,\"x\"]}");
    match &doc.node {
        JsonNode::Object(members) => {
            assert_eq!(
                members,
                &vec![
                    ("a".to_string(), "null".to_string()),
                    ("b".to_string(), "[1,2.5,\"x\"]".to_string()),
                ]
            );
        }
        other => panic!("expected an object, got {:?}", other),
    }
    assert_eq!(doc.node.member("b").map(|s| s.as_str()), Some("[1,2.5,\"x\"]"));
    assert_eq!(doc.node.member("c"), None);
    assert!(!doc.node.is_null());
}

#[test]
fn scalars_are_read_by_value() {
    assert!(matches!(read_json("null").unwrap().node, JsonNode::Null));
    assert!(read_json(" null ").unwrap().node.is_null());
    assert!(matches!(read_json("true").unwrap().node, JsonNode::Bool(true)));
    assert!(matches!(read_json("false").unwrap().node, JsonNode::Bool(false)));
    match read_json("310").unwrap().node {
        JsonNode::Number(n) => assert_eq!(n, "310"),
        other => panic!("expected a number, got {:?}", other),
    }
    match read_json("-0.5e1").unwrap().node {
        JsonNode::Number(n) => assert_eq!(n, "-5.0"),
        other => panic!("expected a number, got {:?}", other),
    }
    match read_json("\"a\\nb\\u00e9\"").unwrap().node {
        JsonNode::Text(s) => assert_eq!(s, "a\nbé"),
        other => panic!("expected a string, got {:?}", other),
    }
}

#[test]
fn arrays_hold_their_elements_as_compact_text() {
    match read_json("[ {\"k\": [ ] }, \"s\", 7 ]").unwrap().node {
        JsonNode::Array(items) => assert_eq!(items, vec!["{\"k\":[]}", "\"s\"", "7"]),
        other => panic!("expected an array, got {:?}", other),
    }
}

#[test]
fn what_is_not_json_is_an_error_with_the_parsers_message() {
    let e = read_json("{\"a\":").unwrap_err();
    assert!(e.contains("EOF"), "{}", e);
    assert!(read_json("").is_err());
    assert!(read_json("{} x").is_err());
    assert!(read_json("[DONE]").is_err());
}

#[test]
fn member_lookup_and_string_values() {
    let doc = read_json("{\"error\":\"boom\",\"n\":3,\"o\":{\"error\":\"inner\"}}").unwrap();
    assert_eq!(read_string_member(&doc.node, "error"), Some("boom".to_string()));
    assert_eq!(read_string_member(&doc.node, "n"), None);
    assert_eq!(read_string_member(&doc.node, "missing"), None);
    let arr = read_json("[\"error\"]").unwrap();
    assert_eq!(read_string_member(&arr.node, "error"), None);
    assert_eq!(read_text_value("\"x\""), Some("x".to_string()));
    assert_eq!(read_text_value("x"), None);
    assert_eq!(read_text_value("1"), None);
}

#[test]
fn string_lists() {
    assert_eq!(read_string_list("[\"a\", \"b\"]"), Some(vec!["a".to_string(), "b".to_string()]));
    assert_eq!(read_string_list("[]"), Some(Vec::new()));
    assert_eq!(read_string_list("[\"a\", 1]"), None);
    assert_eq!(read_string_list("{\"a\":1}"), None);
    assert_eq!(read_string_list("nope"), None);
    assert_eq!(read_strings(&vec!["\"x\"".to_string()]), Some(vec!["x".to_string()]));
    assert_eq!(read_strings(&vec!["x".to_string()]), None);
}

#[test]
fn copies_are_equal() {
    let doc = read_json("{\"a\":[1,2],\"b\":\"c\"}").unwrap();
    let copy = doc.duplicate();
    assert_eq!(copy.compact, doc.compact);
    assert_eq!(format!("{:?}", copy.node), format!("{:?}", doc.node));
    let arr = read_json("[1,\"two\"]").unwrap();
    assert_eq!(format!("{:?}", arr.node.duplicate()), format!("{:?}", arr.node));
    let items = vec!["a".to_string(), "b".to_string()];
    assert_eq!(copy_strings(&items), items);
}
