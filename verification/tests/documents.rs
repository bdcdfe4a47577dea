use kimi_quota_bar::codec::{base64_decode, utf8_decode};
use kimi_quota_bar::error::ErrorKind;
use kimi_quota_bar::json::{parse, parse_bytes, render, Json};
use kimi_quota_bar::jwt::{
    claimed_expiry, claimed_subject, current_user_id, is_fresh, jwt_exp, jwt_sub, payload_of,
    still_serves,
};

const TOKEN: &str = "h.eyJleHAiOjIwMDAsInN1YiI6InVzZXItMSJ9.s";
const TEXT_CLAIMS: &str = "h.eyJleHAiOiIyMDAwIiwic3ViIjo1fQ.s";
const FRACTION_CLAIM: &str = "h.eyJleHAiOjIwMDAuMH0.s";
const NO_CLAIMS: &str = "h.bm90anNvbg.s";

#[test]
fn base64_is_decoded_or_refused() {
    assert_eq!(base64_decode("AQID").unwrap(), vec![1, 2, 3]);
    assert_eq!(base64_decode("aGVsbG8=").unwrap(), b"hello".to_vec());
    let e = base64_decode("A*==").unwrap_err();
    assert_eq!(e.kind, ErrorKind::Base64);
    assert!(!e.detail.is_empty());
    assert_eq!(base64_decode("aGVsbG8").unwrap_err().kind, ErrorKind::Base64);
}

#[test]
fn utf8_is_decoded_or_refused() {
    assert_eq!(utf8_decode("额度".as_bytes().to_vec()).unwrap(), "额度");
    let e = utf8_decode(vec![0xff]).unwrap_err();
    assert_eq!(e.kind, ErrorKind::Utf8);
    assert!(e.detail.contains("utf-8"));
}

#[test]
fn documents_are_read() {
    let doc = parse("{\"a\":{\"b\":[1,\"two\",null,true]},\"n\":18446744073709551615,\"f\":0.5}").unwrap();
    let list = doc.member("a").unwrap().member("b").unwrap();
    assert_eq!(list.item(0).unwrap().as_i64(), Some(1));
    assert_eq!(list.item(1).unwrap().as_str(), Some("two"));
    assert!(list.item(2).unwrap().is_null());
    assert_eq!(list.item(3).unwrap().as_bool(), Some(true));
    assert!(list.item(4).is_none());
    assert!(doc.item(0).is_none());
    assert_eq!(doc.member("n").unwrap().as_i64(), None);
    assert!(doc.member("missing").is_none());
    assert_eq!(doc.text_at("a"), None);
    match doc.member("f").unwrap() {
        Json::Fraction(f) => assert_eq!(f.number().as_f64(), Some(0.5)),
        other => panic!("{other:?}"),
    }
    assert!(parse("{").is_err());
    assert_eq!(parse_bytes(b"7").unwrap().as_i64(), Some(7));
    assert!(parse_bytes(&[0x22, 0xff, 0x22]).is_err());
}

#[test]
fn the_later_of_two_members_counts() {
    let doc = parse("{\"a\":1,\"a\":2}").unwrap();
    assert_eq!(doc.member("a").unwrap().as_i64(), Some(2));
    let twice = Json::Obj(vec![
        ("a".to_string(), Json::Int(1)),
        ("a".to_string(), Json::Int(2)),
    ]);
    assert_eq!(twice.member("a").unwrap().as_i64(), Some(2));
    assert_eq!(render(twice), "{\"a\":2}");
    let thrice = Json::Obj(vec![
        ("a".to_string(), Json::Int(1)),
        ("b".to_string(), Json::Null),
        ("a".to_string(), Json::Int(2)),
        ("a".to_string(), Json::Int(3)),
    ]);
    assert_eq!(render(thrice), "{\"a\":3,\"b\":null}");
}

#[test]
fn members_are_written() {
    let doc = parse("{\"a\":1,\"t\":{\"x\":1,\"y\":2}}").unwrap();
    let doc = doc.set("a", Json::Bool(true)).set("b", Json::Null);
    let doc = doc.set_in("t", "x", Json::Str("new".to_string()));
    assert_eq!(render(doc), "{\"a\":true,\"b\":null,\"t\":{\"x\":\"new\",\"y\":2}}");
    assert_eq!(render(Json::Null.set("k", Json::Int(-1))), "{\"k\":-1}");
    assert_eq!(
        render(Json::Null.set_in("o", "i", Json::Large(5))),
        "{\"o\":{\"i\":5}}"
    );
    assert_eq!(
        parse("{\"a\":7,\"b\":8}").unwrap().into_member("b").as_i64(),
        Some(8)
    );
    assert!(parse("[1]").unwrap().into_member("b").is_null());
}

#[test]
fn written_documents_are_read_back() {
    let text = "{\"a\":[1,-2,18446744073709551615,\"\\\"\\\\\\n额\\u0000\"],\"b\":{},\"c\":null}";
    assert_eq!(render(parse(text).unwrap()), text);
    let mut deep = String::new();
    for _ in 0..127 {
        deep.push('[');
    }
    for _ in 0..127 {
        deep.push(']');
    }
    assert_eq!(render(parse(&deep).unwrap()), deep);
    assert!(parse(&format!("[{deep}]")).is_err());
}

#[test]
fn the_payload_is_the_second_part() {
    assert_eq!(payload_of("a.b.c"), Some("b"));
    assert_eq!(payload_of("a.b"), Some("b"));
    assert_eq!(payload_of("a."), Some(""));
    assert_eq!(payload_of(".b.c.d"), Some("b"));
    assert_eq!(payload_of("abc"), None);
    assert_eq!(payload_of(""), None);
}

#[test]
fn claims_are_read_from_tokens() {
    assert_eq!(jwt_exp(TOKEN), Some(2000));
    assert_eq!(jwt_sub(TOKEN), Some("user-1".to_string()));
    assert_eq!(jwt_exp(TEXT_CLAIMS), None);
    assert_eq!(jwt_sub(TEXT_CLAIMS), None);
    assert_eq!(jwt_exp(FRACTION_CLAIM), None);
    assert_eq!(jwt_exp(NO_CLAIMS), None);
    assert_eq!(jwt_exp("h.!!.s"), None);
    assert_eq!(jwt_exp("opaque"), None);
    let claims = parse("{\"exp\":-5,\"sub\":\"s\"}").unwrap();
    assert_eq!(claimed_expiry(&claims), Some(-5));
    assert_eq!(claimed_subject(&claims), Some("s".to_string()));
    assert_eq!(claimed_expiry(&Json::Null), None);
}

#[test]
fn the_user_is_read_from_the_token() {
    assert_eq!(current_user_id(Some(TOKEN)), Some("user-1".to_string()));
    assert_eq!(current_user_id(Some("opaque")), None);
    assert_eq!(current_user_id(None), None);
}

#[test]
fn tokens_are_renewed_two_minutes_early() {
    assert!(is_fresh(TOKEN, 1879));
    assert!(!is_fresh(TOKEN, 1880));
    assert!(is_fresh("opaque", i64::MAX));
    assert!(still_serves(Some(121), 0));
    assert!(!still_serves(Some(120), 0));
    assert!(!still_serves(Some(i64::MAX), i64::MAX));
    assert!(still_serves(None, i64::MAX));
}
