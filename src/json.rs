use vstd::prelude::*;
use serde_json::Value;
use crate::encode::Encode;

verus! {

/// One level of a JSON document. Members of arrays and objects are kept as
/// their compact JSON text, to be read in turn when needed.
#[derive(Debug, Clone)]
pub enum Json {
    Null,
    Bool(bool),
    /// A number, as its decimal text.
    Number(String),
    Str(String),
    Array(Vec<String>),
    /// The members of an object: each key with its value's JSON text.
    Object(Vec<(String, String)>),
}

/// What reading `text` as one JSON document gives: its top level, or the
/// parser's error message when `text` is not JSON.
pub uninterp spec fn json_parse(text: Seq<char>) -> Result<Json, Seq<char>>;

/// The top level of the JSON document that `text` holds, or `None` when
/// `text` is not JSON.
pub open spec fn parsed_json(text: Seq<char>) -> Option<Json> {
    match json_parse(text) {
        Ok(j) => Some(j),
        Err(_) => None,
    }
}

/// The parser's error message for text that is not JSON.
pub open spec fn json_error_of(text: Seq<char>) -> Seq<char> {
    match json_parse(text) {
        Ok(_) => Seq::empty(),
        Err(m) => m,
    }
}

/// Relies on `serde_json::from_str::<serde_json::Value>`: it reads `text` as
/// one JSON document, and both the document and the error's message depend
/// on `text` alone. Members are written back with `Value`'s `Display`,
/// which is compact JSON.
#[verifier::external_body]
pub(crate) fn parse_json(text: &str) -> (r: Result<Json, String>)
    ensures
        match r {
            Ok(j) => json_parse(text@) == Ok::<Json, Seq<char>>(j),
            Err(m) => json_parse(text@) == Err::<Json, Seq<char>>(m@),
        },
{
    match serde_json::from_str::<Value>(text) {
        Err(e) => Err(e.to_string()),
        Ok(Value::Null) => Ok(Json::Null),
        Ok(Value::Bool(b)) => Ok(Json::Bool(b)),
        Ok(Value::Number(n)) => Ok(Json::Number(n.to_string())),
        Ok(Value::String(s)) => Ok(Json::Str(s)),
        Ok(Value::Array(a)) => Ok(Json::Array(a.iter().map(|v| v.to_string()).collect())),
        Ok(Value::Object(m)) => {
            Ok(Json::Object(m.into_iter().map(|(k, v)| (k, v.to_string())).collect()))
        },
    }
}

/// A JSON document kept as its text, such as the free-form metadata of a
/// key; it is written into request bodies as it stands. Its text is always
/// JSON.
#[derive(Debug)]
pub struct RawJson {
    text: String,
}

impl View for RawJson {
    type V = Seq<char>;

    closed spec fn view(&self) -> Seq<char> {
        self.text@
    }
}

impl RawJson {
    #[verifier::type_invariant]
    spec fn is_json(&self) -> bool {
        parsed_json(self.text@) is Some
    }

    /// Wraps JSON text; `None` when `text` is not JSON.
    pub fn new(text: String) -> (r: Option<RawJson>)
        ensures
            match r {
                Some(j) => j@ == text@,
                None => parsed_json(text@) is None,
            },
    {
        match parse_json(text.as_str()) {
            Ok(_) => Some(RawJson { text }),
            Err(_) => None,
        }
    }

    /// The JSON text.
    pub fn text(&self) -> (r: &String)
        ensures
            r@ == self@,
            parsed_json(r@) is Some,
    {
        proof {
            use_type_invariant(self);
        }
        &self.text
    }
}

impl Clone for RawJson {
    fn clone(&self) -> (r: RawJson)
        ensures
            r@ == self@,
    {
        proof {
            use_type_invariant(self);
        }
        RawJson { text: self.text.clone() }
    }
}

impl Encode for RawJson {
    open spec fn encoded(&self) -> Seq<char> {
        self@
    }

    fn encode(&self) -> (r: String) {
        self.text().clone()
    }
}

/// A lower-case hexadecimal digit.
pub open spec fn hex_digit(d: int) -> char {
    seq!['0', '1', '2', '3', '4', '5', '6', '7', '8', '9', 'a', 'b', 'c', 'd', 'e', 'f'][d]
}

/// How one character is written inside a JSON string: `"` and `\` after a
/// backslash, the usual short escapes for backspace, tab, line feed, form
/// feed and carriage return, other control characters as `\u00XX`, and
/// every other character as it is.
pub open spec fn escaped_char(c: char) -> Seq<char> {
    if c == '"' {
        seq!['\\', '"']
    } else if c == '\\' {
        seq!['\\', '\\']
    } else if c == '\u{8}' {
        seq!['\\', 'b']
    } else if c == '\t' {
        seq!['\\', 't']
    } else if c == '\n' {
        seq!['\\', 'n']
    } else if c == '\u{c}' {
        seq!['\\', 'f']
    } else if c == '\r' {
        seq!['\\', 'r']
    } else if (c as u32) < 0x20 {
        seq!['\\', 'u', '0', '0', hex_digit((c as u32) as int / 16), hex_digit((c as u32) as int % 16)]
    } else {
        seq![c]
    }
}

/// The characters of `s`, each escaped.
pub open spec fn escaped(s: Seq<char>) -> Seq<char>
    decreases s.len(),
{
    if s.len() == 0 {
        Seq::empty()
    } else {
        escaped(s.drop_last()) + escaped_char(s.last())
    }
}

/// The JSON string literal for `s`, quotes and escapes included.
pub open spec fn quoted(s: Seq<char>) -> Seq<char> {
    seq!['"'] + escaped(s) + seq!['"']
}

/// Relies on `serde_json::to_string` of a `str`: it writes a JSON string
/// literal and cannot fail for one. Its escapes are those of
/// `format_escaped_str_contents` and `write_char_escape`.
#[verifier::external_body]
pub(crate) fn quote(s: &str) -> (r: String)
    ensures
        r@ == quoted(s@),
{
    serde_json::to_string(s).unwrap_or_default()
}

} // verus!
