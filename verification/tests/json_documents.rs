use onebot11::json::{parse_document, Json};

#[test]
fn parse_reads_scalars_and_members() {
    let doc =
        parse_document("{\"b\":true,\"a\":12,\"s\":\"x\",\"n\":null,\"l\":[1.5,-2]}").unwrap();
    assert_eq!(doc.member("a"), Some(&Json::Number("12".to_string())));
    assert_eq!(doc.member("b"), Some(&Json::Bool(true)));
    assert_eq!(doc.member("s"), Some(&Json::Text("x".to_string())));
    assert_eq!(doc.member("n"), Some(&Json::Null));
    assert_eq!(
        doc.member("l"),
        Some(&Json::Array(vec![
            Json::Number("1.5".to_string()),
            Json::Number("-2".to_string())
        ]))
    );
    assert_eq!(doc.member("missing"), None);
}

#[test]
fn parse_reads_nested_objects() {
    let doc = parse_document("{\"outer\":{\"inner\":{\"deep\":\"x\"}}}").unwrap();
    let inner = doc.member("outer").unwrap().member("inner").unwrap();
    assert_eq!(inner.member("deep"), Some(&Json::Text("x".to_string())));
    assert!(inner.is_object());
}

#[test]
fn parse_undoes_escapes_in_texts() {
    let doc = parse_document("{\"s\":\"a\\\"b\\n\\u00e9\"}").unwrap();
    assert_eq!(doc.member("s"), Some(&Json::Text("a\"b\né".to_string())));
}

#[test]
fn parse_reads_values_that_are_no_objects() {
    assert_eq!(parse_document("null"), Some(Json::Null));
    assert_eq!(parse_document("false"), Some(Json::Bool(false)));
    assert_eq!(parse_document("17"), Some(Json::Number("17".to_string())));
    assert_eq!(parse_document("\"t\""), Some(Json::Text("t".to_string())));
    assert_eq!(parse_document("[]"), Some(Json::Array(vec![])));
    assert_eq!(parse_document("{}"), Some(Json::Object(vec![])));
}

#[test]
fn parse_rejects_malformed_text() {
    assert!(parse_document("{\"a\":").is_none());
    assert!(parse_document("").is_none());
    assert!(parse_document("{} trailing").is_none());
    assert!(parse_document("{'a':1}").is_none());
}

#[test]
fn member_of_a_value_that_is_no_object_is_absent() {
    assert_eq!(Json::Null.member("a"), None);
    assert_eq!(Json::Array(vec![Json::Null]).member("a"), None);
    assert_eq!(Json::Text("a".to_string()).member("a"), None);
}

#[test]
fn member_is_the_first_of_that_name() {
    let doc = Json::Object(vec![
        ("k".to_string(), Json::Bool(true)),
        ("k".to_string(), Json::Bool(false)),
    ]);
    assert_eq!(doc.member("k"), Some(&Json::Bool(true)));
}

#[test]
fn accessors_tell_the_kinds_apart() {
    let number = Json::Number("5".to_string());
    let text = Json::Text("5".to_string());
    assert_eq!(number.as_number(), Some(&"5".to_string()));
    assert_eq!(number.as_text(), None);
    assert_eq!(text.as_text(), Some(&"5".to_string()));
    assert_eq!(text.as_number(), None);
    assert!(Json::Null.is_null());
    assert!(!number.is_null());
    assert!(!number.is_object());
    assert!(Json::Object(vec![]).is_object());
}

#[test]
fn clone_copies_the_whole_tree() {
    let doc = parse_document("{\"a\":[1,{\"b\":[null,\"x\",true]}],\"c\":{}}").unwrap();
    assert_eq!(doc.clone(), doc);
}
