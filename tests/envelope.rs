use unkey::envelope::{
    decode_envelope, decode_error, finish_payload, parse_empty_response, parse_response, Wrapped,
    UNIT_MISMATCH,
};
use unkey::errors;
use unkey::json::Json;
use unkey::{ErrorCode, HttpError};

#[test]
fn response_error() {
    let res: Result<(), _> = errors::response_error(ErrorCode::NotFound, "not found!");

    assert_eq!(
        res,
        Err(HttpError::new(ErrorCode::NotFound, String::from("not found!")))
    );
}

#[test]
fn test_from_wrapped_ok() {
    let wrapped = Wrapped::Payload(120);
    let result: Result<_, HttpError> = wrapped.into();

    assert_eq!(result.unwrap(), 120);
}

#[test]
fn test_from_wrapped_err() {
    let err = HttpError::new(ErrorCode::Conflict, "test".to_string());
    let wrapped = Wrapped::Error(err.clone());
    let result: Result<u8, HttpError> = wrapped.into();

    assert_eq!(result.unwrap_err(), err);
}

const ERROR_TEXT: &str = r#"{"error":{"code":"NOT_FOUND","message":"no such key","docs":"x"}}"#;

#[test]
fn error_shape_wins_over_payload() {
    let res = parse_response(Ok(ERROR_TEXT.to_string()));
    assert_eq!(
        res,
        Err(HttpError::new(ErrorCode::NotFound, String::from("no such key")))
    );
    let empty = parse_empty_response(Ok(ERROR_TEXT.to_string()));
    assert_eq!(
        empty,
        Err(HttpError::new(ErrorCode::NotFound, String::from("no such key")))
    );
    match decode_envelope(ERROR_TEXT) {
        Ok(Wrapped::Error(e)) => assert_eq!(e.code, ErrorCode::NotFound),
        other => panic!("expected the error variant, got {:?}", other),
    }
}

#[test]
fn payload_is_handed_back() {
    let text = r#"{"keyId":"key_1","key":"abc"}"#;
    assert_eq!(parse_response(Ok(text.to_string())), Ok(text.to_string()));
    match decode_envelope(text) {
        Ok(Wrapped::Payload(Json::Object(ms))) => assert_eq!(ms.len(), 2),
        other => panic!("expected an object payload, got {:?}", other),
    }
}

#[test]
fn transport_failure_is_unknown() {
    let res = parse_response(Err(String::from("connection refused")));
    assert_eq!(
        res,
        Err(HttpError::new(ErrorCode::Unknown, String::from("connection refused")))
    );
    let empty = parse_empty_response(Err(String::from("timed out")));
    assert_eq!(
        empty,
        Err(HttpError::new(ErrorCode::Unknown, String::from("timed out")))
    );
}

#[test]
fn invalid_json_is_unknown() {
    let parser_message = serde_json::from_str::<serde_json::Value>("not json")
        .unwrap_err()
        .to_string();
    let res = parse_response(Ok(String::from("not json")));
    assert_eq!(res, Err(HttpError::new(ErrorCode::Unknown, parser_message.clone())));
    match decode_envelope("not json") {
        Err(e) => assert_eq!(e.message, parser_message),
        Ok(_) => panic!("text that is not JSON must fail"),
    }
}

#[test]
fn error_tag_with_bad_body_is_payload() {
    let text = r#"{"error":{"code":"NOT_FOUND"}}"#;
    assert_eq!(parse_response(Ok(text.to_string())), Ok(text.to_string()));
}

#[test]
fn empty_body_fallback_success() {
    assert_eq!(parse_empty_response(Ok(String::new())), Ok(()));
    assert_eq!(parse_empty_response(Ok(String::from("{}"))), Ok(()));
    assert_eq!(parse_empty_response(Ok(String::from("null"))), Ok(()));
    assert_eq!(parse_empty_response(Ok(String::from("<html>ok</html>"))), Ok(()));
}

#[test]
fn empty_body_fallback_error() {
    for text in [r#"{"error":5}"#, "error", r#"{"message":"internal error"}"#] {
        match parse_empty_response(Ok(text.to_string())) {
            Err(e) => assert_eq!(e.code, ErrorCode::Unknown),
            Ok(()) => panic!("text mentioning error must fail: {}", text),
        }
    }
}

#[test]
fn empty_body_fallback_messages() {
    let text = "not json, an error";
    let parser_message = serde_json::from_str::<serde_json::Value>(text).unwrap_err().to_string();
    assert_eq!(
        parse_empty_response(Ok(text.to_string())),
        Err(HttpError::new(ErrorCode::Unknown, parser_message))
    );
    assert_eq!(
        parse_empty_response(Ok(String::from(r#"{"error":5}"#))),
        Err(HttpError::new(ErrorCode::Unknown, String::from(UNIT_MISMATCH)))
    );
}

#[test]
fn decode_error_reads_code_and_message() {
    let e = decode_error(r#"{"code":"RATE_LIMITED","message":"slow down"}"#).unwrap();
    assert_eq!(e, HttpError::new(ErrorCode::RateLimited, String::from("slow down")));
    let other = decode_error(r#"{"code":"SOMETHING_NEW","message":"?"}"#).unwrap();
    assert_eq!(other.code, ErrorCode::Unknown);
    assert!(decode_error(r#"{"code":1,"message":"x"}"#).is_none());
    assert!(decode_error("[1,2]").is_none());
}

#[test]
fn error_codes_from_wire_names() {
    let cases = [
        ("VALID", ErrorCode::Valid),
        ("NOT_FOUND", ErrorCode::NotFound),
        ("FORBIDDEN", ErrorCode::Forbidden),
        ("BAD_REQUEST", ErrorCode::BadRequest),
        ("RATE_LIMITED", ErrorCode::RateLimited),
        ("UNAUTHORIZED", ErrorCode::Unauthorized),
        ("USAGE_EXCEEDED", ErrorCode::UsageExceeded),
        ("INTERNAL_SERVER_ERROR", ErrorCode::InternalServerError),
        ("INVALID_KEY_TYPE", ErrorCode::InvalidKeyType),
        ("NOT_UNIQUE", ErrorCode::NotUnique),
        ("CONFLICT", ErrorCode::Conflict),
        ("DELETE_PROTECTED", ErrorCode::DeleteProtected),
        ("EXPIRED", ErrorCode::Expired),
        ("DISABLED", ErrorCode::Disabled),
        ("TOO_MANY_REQUESTS", ErrorCode::TooManyRequests),
        ("UNKNOWN", ErrorCode::Unknown),
        ("not_found", ErrorCode::Unknown),
    ];
    for (name, code) in cases {
        assert_eq!(ErrorCode::from_wire(&name.to_string()), code);
    }
}

#[test]
fn finish_payload_maps_failure() {
    assert_eq!(finish_payload::<u8>(Ok(7)), Ok(7));
    assert_eq!(
        finish_payload::<u8>(Err(String::from("bad"))),
        Err(HttpError::new(ErrorCode::Unknown, String::from("bad")))
    );
}

#[test]
fn http_error_unknown() {
    let e = HttpError::unknown(String::from("x"));
    assert_eq!(e.code, ErrorCode::Unknown);
    assert_eq!(e.message, "x");
}
