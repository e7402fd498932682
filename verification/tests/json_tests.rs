use miru_client::codec::{from_hex, md5_hex, sha256_hex, to_hex};
use miru_client::json::{find_field, parse, parse_bytes, remove_field, set_field, Json};

fn read(s: &str) -> Json {
    match parse(s) {
        Some(j) => j,
        None => panic!("not a document: {s}"),
    }
}

#[test]
fn documents_are_read() {
    let j = read(r#"{"a": [1, -2, 2.5, "x", true, null], "b": {"c": "d"}}"#);
    match j.get("a") {
        Some(Json::List(items)) => {
            assert_eq!(items.len(), 6);
            assert_eq!(items[0].as_u64(), Some(1));
            assert_eq!(items[1].as_i64(), Some(-2));
            assert_eq!(items[1].as_u64(), None);
            assert!(matches!(&items[2], Json::Fraction(s) if s == "2.5"));
            assert_eq!(items[3].as_str(), Some("x"));
            assert_eq!(items[4].as_bool(), Some(true));
            assert!(matches!(items[5], Json::Null));
        }
        _ => panic!("no list"),
    }
    assert_eq!(j.get("b").and_then(|b| b.text_of("c")), Some("d"));
    assert!(j.get("z").is_none());
    assert!(Json::Bool(true).get("a").is_none());
    assert_eq!(read(r#"{"t": false}"#).truth_of("t"), Some(false));
    assert_eq!(read(r#"{"t": "no"}"#).truth_of("t"), None);
}

#[test]
fn what_is_no_document_is_refused() {
    assert!(parse("{").is_none());
    assert!(parse("").is_none());
    assert!(parse_bytes(b"\xff").is_none());
    assert!(parse_bytes(b"[]").is_some());
}

#[test]
fn numbers_keep_their_range() {
    assert_eq!(read("18446744073709551615").as_u64(), Some(u64::MAX));
    assert_eq!(read("18446744073709551615").as_i64(), None);
    assert_eq!(read("-9223372036854775808").as_i64(), Some(i64::MIN));
    assert_eq!(read("1.0").as_u64(), None);
}

#[test]
fn fields_are_written_and_taken_out() {
    let mut fields = vec![
        ("id".to_string(), Json::Text("one".to_string())),
        ("url".to_string(), Json::Text("data:x".to_string())),
    ];
    set_field(&mut fields, "path", Json::Text("/tmp/a".to_string()));
    set_field(&mut fields, "id", Json::Text("two".to_string()));
    assert_eq!(find_field(&fields, "path"), Some(2));
    remove_field(&mut fields, "url");
    remove_field(&mut fields, "missing");
    assert_eq!(find_field(&fields, "url"), None);
    let record = Json::Record(fields);
    assert_eq!(record.text_of("path"), Some("/tmp/a"));
    assert_eq!(record.text_of("id"), Some("two"));
}

#[test]
fn bytes_are_written_in_hexadecimal_and_read_back() {
    assert_eq!(to_hex(&[0, 0x1f, 0xff]), "001fff");
    assert_eq!(from_hex("001fFF"), Ok(vec![0, 0x1f, 0xff]));
    let all: Vec<u8> = (0..=255).collect();
    assert_eq!(from_hex(to_hex(&all).as_str()), Ok(all));
    assert!(from_hex("abc").is_err());
    assert_eq!(from_hex("zz"), Err("Invalid character 'z' at position 0".to_string()));
}

#[test]
fn digests_are_the_known_ones() {
    assert_eq!(
        sha256_hex(b"abc"),
        "ba7816bf8f01cfea414140de5dae2223b00361a396177a9cb410ff61f20015ad"
    );
    assert_eq!(md5_hex(b"abc"), "900150983cd24fb0d6963f7d28e17f72");
    assert_eq!(md5_hex(b""), "d41d8cd98f00b204e9800998ecf8427e");
}
