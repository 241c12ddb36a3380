use unkey::encode::Encode;
use unkey::json::RawJson;
use unkey::models::apis::{GetApiRequest, ListKeysRequest};
use unkey::models::keys::{CreateKeyRequest, UpdateKeyRequest, VerifyKeyRequest};
use unkey::models::ratelimit::{Ratelimit, RatelimitType};
use unkey::models::refill::{Refill, RefillInterval};
use unkey::operations::{create_key, update_key, verify_key};
use unkey::routes::Method;
use unkey::text::{contains, decimal_text, replace_first_of};
use unkey::UndefinedOr;

#[test]
fn list_keys_request_builders() {
    let r = ListKeysRequest::new("test");
    assert_eq!(r.api_id, String::from("test"));
    assert_eq!(r.limit, None);
    assert_eq!(r.cursor, None);
    assert_eq!(r.owner_id, None);
    assert_eq!(r.revalidate_cache, None);

    let r = r.set_limit(50).set_cursor("abcabc").set_owner_id("someone").set_revalidate_cache(true);
    assert_eq!(r.limit.unwrap(), 50);
    assert_eq!(r.cursor.unwrap(), String::from("abcabc"));
    assert_eq!(r.owner_id.unwrap(), String::from("someone"));
    assert_eq!(r.revalidate_cache.unwrap(), true);
}

#[test]
fn get_api_request_new() {
    let r = GetApiRequest::new("test");
    assert_eq!(r.api_id, String::from("test"));
}

#[test]
fn ratelimit_and_refill() {
    let r = Ratelimit::new(RatelimitType::Fast, 10, 10000, 100);
    assert_eq!(r.ratelimit_type, RatelimitType::Fast);
    assert_eq!(r.refill_rate, 10);
    assert_eq!(r.refill_interval, 10000);
    assert_eq!(r.limit, 100);
    assert_eq!(
        r.encode(),
        r#"{"type":"fast","refillRate":10,"refillInterval":10000,"limit":100}"#
    );

    let f = Refill::new(100, RefillInterval::Daily);
    assert_eq!(f.amount, 100);
    assert_eq!(f.interval, RefillInterval::Daily);
    assert_eq!(f.last_refilled_at, None);
    assert_eq!(f.encode(), r#"{"amount":100,"interval":"daily"}"#);
}

#[test]
fn create_key_body_skips_undefined_fields() {
    let req = CreateKeyRequest::new("api_1");
    assert!(req.owner_id.is_undefined());
    let out = create_key(&req);
    assert_eq!(out.route.method, Method::POST);
    assert_eq!(out.route.uri, "/keys");
    assert_eq!(out.body.unwrap(), r#"{"apiId":"api_1"}"#);

    let req = CreateKeyRequest::new("api_1")
        .set_owner_id("me")
        .set_byte_length(16)
        .set_prefix("pre")
        .set_name("n")
        .set_meta(RawJson::new(String::from(r#"{"x":[1,2]}"#)).unwrap())
        .set_expires(1000, 5)
        .set_remaining(3)
        .set_ratelimit(Ratelimit::new(RatelimitType::Consistent, 1, 2, 3))
        .set_refill(Refill::new(4, RefillInterval::Monthly));
    assert_eq!(req.expires, UndefinedOr::Value(1005));
    assert_eq!(
        req.encode(),
        [
            r#"{"apiId":"api_1","ownerId":"me","byteLength":16,"prefix":"pre","name":"n","#,
            r#""meta":{"x":[1,2]},"expires":1005,"remaining":3,"#,
            r#""ratelimit":{"type":"consistent","refillRate":1,"refillInterval":2,"limit":3},"#,
            r#""refill":{"amount":4,"interval":"monthly"}}"#,
        ]
        .join("")
    );
}

#[test]
fn update_key_body_keeps_nulls() {
    let req = UpdateKeyRequest::new("key_1")
        .set_owner_id(None)
        .set_name(Some("renamed"))
        .set_remaining(Some(9))
        .set_expires(None);
    assert_eq!(req.owner_id, UndefinedOr::Null);
    assert!(req.meta.is_undefined());
    let out = update_key(&req);
    assert_eq!(out.route.method, Method::PUT);
    assert_eq!(out.route.uri, "/keys/key_1");
    assert_eq!(
        out.body.unwrap(),
        r#"{"keyId":"key_1","ownerId":null,"name":"renamed","expires":null,"remaining":9}"#
    );
}

#[test]
fn verify_key_body() {
    let out = verify_key(&VerifyKeyRequest::new("test_KEYABC", "api_123123"));
    assert_eq!(out.route.uri, "/keys/verify");
    assert_eq!(out.body.unwrap(), r#"{"key":"test_KEYABC","apiId":"api_123123"}"#);
}

#[test]
fn strings_are_escaped() {
    let s = String::from("say \"hi\"\\");
    assert_eq!(s.encode(), r#""say \"hi\"\\""#);
}

#[test]
fn decimal_forms() {
    assert_eq!(decimal_text(0), "0");
    assert_eq!(decimal_text(7), "7");
    assert_eq!(decimal_text(100), "100");
    assert_eq!(decimal_text(1234567890), "1234567890");
    assert_eq!(decimal_text(usize::MAX), usize::MAX.to_string());
}

#[test]
fn text_helpers() {
    assert!(contains("an error here", "error"));
    assert!(!contains("all fine", "error"));
    assert!(contains("abc", ""));
    assert_eq!(replace_first_of("a{}b{}", "{}", "X"), "aXb{}");
    assert_eq!(replace_first_of("ab", "{}", "X"), "ab");
}

#[test]
fn raw_json_must_be_json() {
    assert!(RawJson::new(String::from("{not json")).is_none());
    let j = RawJson::new(String::from("[1, 2]")).unwrap();
    assert_eq!(j.text(), "[1, 2]");
    assert_eq!(j.encode(), "[1, 2]");
}

#[test]
fn control_characters_are_escaped() {
    let s = String::from("a\u{1}\n\t\u{8}\u{c}\r\u{1f}é");
    assert_eq!(s.encode(), "\"a\\u0001\\n\\t\\b\\f\\r\\u001fé\"");
}
