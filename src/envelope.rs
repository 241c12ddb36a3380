use vstd::prelude::*;
use crate::errors::{code_of, ErrorCode, HttpError};
use crate::json::{json_error_of, parse_json, parsed_json, Json};
use crate::text::{contains, contains_seq};

verus! {

/// The wire envelope of every response: an error object under the `error`
/// key, or else the success payload itself.
#[derive(Debug, Clone)]
pub enum Wrapped<T> {
    /// The error value.
    Error(HttpError),
    /// The ok value.
    Payload(T),
}

/// The envelope under the name the response decoders use.
pub type Response<T> = Wrapped<T>;

/// The envelope under the name the services use.
pub type ServiceResult<T> = Wrapped<T>;

/// The result an envelope stands for.
pub open spec fn unwrapped<T>(w: Wrapped<T>) -> Result<T, HttpError> {
    match w {
        Wrapped::Error(e) => Err(e),
        Wrapped::Payload(v) => Ok(v),
    }
}

impl<T> From<Wrapped<T>> for Result<T, HttpError> {
    fn from(wrapped: Wrapped<T>) -> (r: Result<T, HttpError>)
        ensures
            r == unwrapped(wrapped),
    {
        match wrapped {
            Wrapped::Error(err) => Err(err),
            Wrapped::Payload(res) => Ok(res),
        }
    }
}

impl<T> vstd::std_specs::convert::FromSpecImpl<Wrapped<T>> for Result<T, HttpError> {
    open spec fn obeys_from_spec() -> bool {
        true
    }

    open spec fn from_spec(v: Wrapped<T>) -> Result<T, HttpError> {
        unwrapped(v)
    }
}

/// Member `i` is the first member of `ms` named `key`.
pub open spec fn member_at(ms: Seq<(String, String)>, key: Seq<char>, i: int) -> bool {
    0 <= i < ms.len() && ms[i].0@ == key && forall|j: int| 0 <= j < i ==> ms[j].0@ != key
}

/// The string value of the member named `key`, if there is one and it is
/// a JSON string.
pub open spec fn string_member(ms: Seq<(String, String)>, key: Seq<char>) -> Option<Seq<char>> {
    if exists|i: int| member_at(ms, key, i) {
        let i = choose|i: int| member_at(ms, key, i);
        match parsed_json(ms[i].1@) {
            Some(Json::Str(s)) => Some(s@),
            _ => None,
        }
    } else {
        None
    }
}

/// The code and message of an error object, given as JSON text: an object
/// with a string `code` and a string `message`; other members are ignored.
pub open spec fn error_fields(body: Seq<char>) -> Option<(ErrorCode, Seq<char>)> {
    match parsed_json(body) {
        Some(Json::Object(ms)) => match (string_member(ms@, "code"@), string_member(ms@, "message"@)) {
            (Some(c), Some(m)) => Some((code_of(c), m)),
            _ => None,
        },
        _ => None,
    }
}

/// The error that response text carries in the tagged error shape
/// `{"error": {"code": ..., "message": ...}}`, if it has that shape.
pub open spec fn wire_error(text: Seq<char>) -> Option<(ErrorCode, Seq<char>)> {
    match parsed_json(text) {
        Some(Json::Object(ms)) => if ms@.len() == 1 && ms@[0].0@ == "error"@ {
            error_fields(ms@[0].1@)
        } else {
            None
        },
        _ => None,
    }
}

/// `e` is the error with code `c` and message `m`.
pub open spec fn is_error(e: HttpError, c: ErrorCode, m: Seq<char>) -> bool {
    e.code == c && e.message@ == m
}

/// Response text from which a payload is taken: JSON that is not in the
/// error shape.
pub open spec fn payload_accepted(text: Seq<char>) -> bool {
    parsed_json(text) is Some && wire_error(text) is None
}

/// Response text that an operation without a payload takes as success:
/// not in the error shape, and either a JSON `null` or text that does not
/// mention `error` at all.
pub open spec fn empty_accepted(text: Seq<char>) -> bool {
    wire_error(text) is None && (parsed_json(text) matches Some(Json::Null) || !contains_seq(
        text,
        "error"@,
    ))
}

fn find_member(ms: &Vec<(String, String)>, key: &str) -> (r: Option<usize>)
    ensures
        match r {
            Some(i) => member_at(ms@, key@, i as int),
            None => !exists|i: int| member_at(ms@, key@, i),
        },
{
    let k = String::from_str(key);
    let mut i: usize = 0;
    while i < ms.len()
        invariant
            k@ == key@,
            i <= ms.len(),
            forall|j: int| 0 <= j < i ==> ms@[j].0@ != key@,
        decreases ms.len() - i,
    {
        if ms[i].0 == k {
            return Some(i);
        }
        i = i + 1;
    }
    None
}

fn string_field(ms: &Vec<(String, String)>, key: &str) -> (r: Option<String>)
    ensures
        match r {
            Some(s) => string_member(ms@, key@) == Some(s@),
            None => string_member(ms@, key@) is None,
        },
{
    match find_member(ms, key) {
        None => None,
        Some(i) => {
            proof {
                let k = choose|k: int| member_at(ms@, key@, k);
                if k < i {
                    assert(ms@[k].0@ != key@);
                } else if i < k {
                    assert(ms@[i as int].0@ != key@);
                }
                assert(k == i);
            }
            match parse_json(ms[i].1.as_str()) {
                Ok(Json::Str(s)) => Some(s),
                _ => None,
            }
        },
    }
}

/// Reads an error object (`{"code": ..., "message": ...}`) from its JSON
/// text.
pub fn decode_error(body: &str) -> (r: Option<HttpError>)
    ensures
        match error_fields(body@) {
            Some((c, m)) => r matches Some(e) && is_error(e, c, m),
            None => r is None,
        },
{
    match parse_json(body) {
        Ok(Json::Object(ms)) => {
            let code = string_field(&ms, "code");
            let message = string_field(&ms, "message");
            match (code, message) {
                (Some(c), Some(m)) => Some(HttpError::new(ErrorCode::from_wire(&c), m)),
                _ => None,
            }
        },
        _ => None,
    }
}

/// Reads response text as the tagged envelope. The error shape takes
/// priority: a payload is only handed on when the text is not an error.
/// Text that is not JSON gives an `Unknown` error with the parser's
/// message.
pub fn decode_envelope(text: &str) -> (r: Result<Wrapped<Json>, HttpError>)
    ensures
        r is Err <==> parsed_json(text@) is None,
        r matches Err(e) ==> is_error(e, ErrorCode::Unknown, json_error_of(text@)),
        match wire_error(text@) {
            Some((c, m)) => r matches Ok(Wrapped::Error(e)) && is_error(e, c, m),
            None => r matches Ok(w) ==> w matches Wrapped::Payload(j) && parsed_json(text@) == Some(j),
        },
{
    match parse_json(text) {
        Err(msg) => Err(HttpError::unknown(msg)),
        Ok(Json::Object(ms)) => {
            let tag = String::from_str("error");
            if ms.len() == 1 && ms[0].0 == tag {
                match decode_error(ms[0].1.as_str()) {
                    Some(e) => Ok(Wrapped::Error(e)),
                    None => Ok(Wrapped::Payload(Json::Object(ms))),
                }
            } else {
                Ok(Wrapped::Payload(Json::Object(ms)))
            }
        },
        Ok(j) => Ok(Wrapped::Payload(j)),
    }
}

/// Decodes the outcome of a request whose success carries a payload.
/// `data` is the response body, or the text of the transport failure.
/// On success the body is handed back, to be read as the payload type.
pub fn parse_response(data: Result<String, String>) -> (r: Result<String, HttpError>)
    ensures
        match data {
            Err(msg) => r matches Err(e) && is_error(e, ErrorCode::Unknown, msg@),
            Ok(text) => {
                &&& r is Ok <==> payload_accepted(text@)
                &&& r matches Ok(p) ==> p@ == text@
                &&& parsed_json(text@) is None ==> (r matches Err(e) && is_error(
                    e,
                    ErrorCode::Unknown,
                    json_error_of(text@),
                ))
                &&& match wire_error(text@) {
                    Some((c, m)) => r matches Err(e) && is_error(e, c, m),
                    None => r matches Err(e) ==> e.code == ErrorCode::Unknown,
                }
            },
        },
{
    match data {
        Err(msg) => Err(HttpError::unknown(msg)),
        Ok(text) => match decode_envelope(text.as_str()) {
            Err(e) => Err(e),
            Ok(Wrapped::Error(e)) => Err(e),
            Ok(Wrapped::Payload(_)) => Ok(text),
        },
    }
}

/// Turns the outcome of reading a payload into the caller's result: a
/// failure to read it is an `Unknown` error with the reader's message.
pub fn finish_payload<T>(decoded: Result<T, String>) -> (r: Result<T, HttpError>)
    ensures
        match decoded {
            Ok(v) => r == Ok::<T, HttpError>(v),
            Err(msg) => r matches Err(e) && is_error(e, ErrorCode::Unknown, msg@),
        },
{
    match decoded {
        Ok(v) => Ok(v),
        Err(msg) => Err(HttpError::unknown(msg)),
    }
}

/// The message for JSON that is neither the error shape nor `null`, as the
/// unit envelope's decoder reports it.
pub const UNIT_MISMATCH: &'static str = "data did not match any variant of untagged enum Wrapped";

/// The message of the failure to decode `text` as the unit envelope: the
/// parser's message for text that is not JSON, else `UNIT_MISMATCH`.
pub open spec fn unit_failure_message(text: Seq<char>) -> Seq<char> {
    if parsed_json(text) is None {
        json_error_of(text)
    } else {
        UNIT_MISMATCH@
    }
}

/// Decodes the outcome of a request whose success carries no payload.
/// Text that does not decode as the unit envelope is still a success when
/// it does not mention `error`; when it does, the decoding failure is
/// reported as an `Unknown` error.
pub fn parse_empty_response(data: Result<String, String>) -> (r: Result<(), HttpError>)
    ensures
        match data {
            Err(msg) => r matches Err(e) && is_error(e, ErrorCode::Unknown, msg@),
            Ok(text) => {
                &&& r is Ok <==> empty_accepted(text@)
                &&& match wire_error(text@) {
                    Some((c, m)) => r matches Err(e) && is_error(e, c, m),
                    None => r matches Err(e) ==> is_error(
                        e,
                        ErrorCode::Unknown,
                        unit_failure_message(text@),
                    ),
                }
            },
        },
{
    match data {
        Err(msg) => Err(HttpError::unknown(msg)),
        Ok(text) => {
            let failure = match decode_envelope(text.as_str()) {
                Ok(Wrapped::Error(e)) => {
                    return Err(e);
                },
                Ok(Wrapped::Payload(Json::Null)) => {
                    return Ok(());
                },
                Ok(Wrapped::Payload(_)) => HttpError::unknown(String::from_str(UNIT_MISMATCH)),
                Err(e) => e,
            };
            if contains(text.as_str(), "error") {
                Err(failure)
            } else {
                Ok(())
            }
        },
    }
}

/// Response text in the error shape yields that error, whatever the
/// payload type: neither decoder accepts it as a success.
pub proof fn lemma_error_shape_priority(text: Seq<char>)
    requires
        wire_error(text) is Some,
    ensures
        !payload_accepted(text),
        !empty_accepted(text),
{
}

/// Text that does not decode as the unit envelope (neither the error shape
/// nor a JSON `null`) is a success exactly when it does not contain the
/// word `error`.
pub proof fn lemma_empty_body_fallback(text: Seq<char>)
    requires
        wire_error(text) is None,
        !(parsed_json(text) matches Some(Json::Null)),
    ensures
        empty_accepted(text) <==> !contains_seq(text, "error"@),
{
}

} // verus!
