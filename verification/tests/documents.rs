use sglang_server::columns::{copy_i32, extend_texts, extend_u32};
use sglang_server::json::{integer, parse_bytes, parse_text, Json};
use sglang_server::text::{concat3, decimal_text, join, one_of, parse_usize};

#[test]
fn documents_are_taken_apart() {
    let json = parse_text(
        r#"{"z":null,"a":[true,false],"n":18446744073709551615,"m":-9223372036854775808,"d":1e3,"t":"é\n"}"#,
    )
    .unwrap();
    let entries = json.as_object().unwrap();
    let keys: Vec<&str> = entries.iter().map(|(key, _)| key.as_str()).collect();
    assert_eq!(keys, vec!["z", "a", "n", "m", "d", "t"]);
    assert!(json.get("z").unwrap().is_null());
    let flags = json.get("a").unwrap().as_array().unwrap();
    assert_eq!(flags[0].as_bool(), Some(true));
    assert_eq!(flags[1].as_bool(), Some(false));
    assert_eq!(json.get("n").unwrap().as_u64(), Some(u64::MAX));
    assert!(matches!(
        json.get("m").unwrap(),
        Json::Negative(i64::MIN)
    ));
    assert_eq!(json.get("m").unwrap().as_u64(), None);
    assert!(matches!(json.get("d").unwrap(), Json::Decimal(text) if text == "1000.0"));
    assert_eq!(json.get("t").unwrap().as_str(), Some("é\n"));
    assert!(json.get("t").unwrap().is_string());
    assert!(json.get("missing").is_none());
    assert!(json.get("a").unwrap().get("z").is_none());
}

#[test]
fn a_repeated_key_keeps_the_last_value() {
    let json = parse_text(r#"{"a":1,"b":2,"a":3}"#).unwrap();
    assert_eq!(json.get("a").unwrap().as_u64(), Some(3));
    assert_eq!(json.as_object().unwrap().len(), 2);
}

#[test]
fn both_readers_read_the_same() {
    for text in ["[1, [], {}]", "\"x\"", "nul", "", "{\"a\":}"] {
        let bytes = parse_bytes(text.as_bytes());
        let chars = parse_text(text);
        match (bytes, chars) {
            (Ok(left), Ok(right)) => assert_eq!(format!("{left:?}"), format!("{right:?}")),
            (Err(left), Err(right)) => assert_eq!(left, right),
            other => panic!("{other:?}"),
        }
    }
    assert!(parse_bytes(&[b'"', 0xff, b'"']).is_err());
}

#[test]
fn a_copy_is_the_same_document() {
    let json = parse_text(r#"{"a":[null,{"b":-1}],"c":2.5,"d":"t"}"#).unwrap();
    assert_eq!(format!("{:?}", json.clone()), format!("{json:?}"));
    assert!(matches!(integer(-1), Json::Negative(-1)));
    assert!(matches!(integer(0), Json::Unsigned(0)));
}

#[test]
fn numbers_are_written_and_read_in_decimal() {
    for number in [0, 7, 10, 4096, u64::MAX] {
        assert_eq!(decimal_text(number), number.to_string());
    }
    assert_eq!(parse_usize("4096"), Some(4096));
    assert_eq!(parse_usize("+0"), Some(0));
    assert_eq!(parse_usize("٣"), None);
    assert_eq!(parse_usize("++1"), None);
}

#[test]
fn texts_are_joined_and_looked_up() {
    let parts: Vec<String> = ["a", "", "c"].map(String::from).to_vec();
    assert_eq!(join(&parts, ", "), "a, , c");
    assert_eq!(join(&vec![], ", "), "");
    assert_eq!(concat3("a", "é", "c"), "aéc");
    assert!(one_of("b", &["a", "b"]));
    assert!(!one_of("B", &["a", "b"]));
}

#[test]
fn columns_grow_at_the_end() {
    let mut column = vec![1];
    extend_u32(&mut column, &vec![2, 3]);
    assert_eq!(column, vec![1, 2, 3]);
    let mut labels = vec!["a".to_owned()];
    extend_texts(&mut labels, &vec!["b".to_owned()]);
    assert_eq!(labels, vec!["a", "b"]);
    assert_eq!(copy_i32(&vec![-1, 2]), vec![-1, 2]);
}
