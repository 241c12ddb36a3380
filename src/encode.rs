use vstd::prelude::*;
use crate::json::{quote, quoted};
use crate::text::{decimal, decimal_text};
use crate::undefined::UndefinedOr;

verus! {

/// A value with a JSON form.
pub trait Encode {
    /// The JSON text of the value.
    spec fn encoded(&self) -> Seq<char>;

    /// Writes the JSON text of the value.
    fn encode(&self) -> (r: String)
        ensures
            r@ == self.encoded(),
    ;
}

impl Encode for String {
    open spec fn encoded(&self) -> Seq<char> {
        quoted(self@)
    }

    fn encode(&self) -> (r: String) {
        quote(self.as_str())
    }
}

impl Encode for usize {
    open spec fn encoded(&self) -> Seq<char> {
        decimal(*self as nat)
    }

    fn encode(&self) -> (r: String) {
        decimal_text(*self)
    }
}

/// The JSON text of a boolean.
pub open spec fn bool_text(b: bool) -> Seq<char> {
    if b {
        "true"@
    } else {
        "false"@
    }
}

/// Writes `true` or `false`.
pub fn bool_string(b: bool) -> (r: String)
    ensures
        r@ == bool_text(b),
{
    if b {
        String::from_str("true")
    } else {
        String::from_str("false")
    }
}

impl Encode for bool {
    open spec fn encoded(&self) -> Seq<char> {
        bool_text(*self)
    }

    fn encode(&self) -> (r: String) {
        bool_string(*self)
    }
}

/// The JSON `null` token.
pub open spec fn null_text() -> Seq<char> {
    "null"@
}

/// What a tri-state field contributes to an object: its JSON text, an
/// explicit null, or nothing at all.
pub open spec fn member_value<T: Encode>(u: UndefinedOr<T>) -> UndefinedOr<Seq<char>> {
    match u {
        UndefinedOr::Value(v) => UndefinedOr::Value(v.encoded()),
        UndefinedOr::Null => UndefinedOr::Null,
        UndefinedOr::Undefined => UndefinedOr::Undefined,
    }
}

/// The abstract form of an encoded member value.
pub open spec fn text_view(u: UndefinedOr<String>) -> UndefinedOr<Seq<char>> {
    match u {
        UndefinedOr::Value(s) => UndefinedOr::Value(s@),
        UndefinedOr::Null => UndefinedOr::Null,
        UndefinedOr::Undefined => UndefinedOr::Undefined,
    }
}

impl<T: Encode> UndefinedOr<T> {
    /// Serializes the field on its own: `null` for `Null`, the value's own
    /// JSON for `Value`, and an error for `Undefined`, which must have been
    /// left out of its object before this point.
    pub fn serialize(&self) -> (r: Result<String, String>)
        ensures
            match *self {
                UndefinedOr::Value(v) => r matches Ok(s) && s@ == v.encoded(),
                UndefinedOr::Null => r matches Ok(s) && s@ == null_text(),
                UndefinedOr::Undefined => r matches Err(m) && m@ == "Undefined should never be serialized."@,
            },
    {
        match self {
            UndefinedOr::Value(v) => Ok(v.encode()),
            UndefinedOr::Null => Ok(String::from_str("null")),
            UndefinedOr::Undefined => Err(String::from_str("Undefined should never be serialized.")),
        }
    }

    /// The field as an object member value, encoded.
    pub fn encoded_member(&self) -> (r: UndefinedOr<String>)
        ensures
            text_view(r) == member_value(*self),
    {
        match self {
            UndefinedOr::Value(v) => UndefinedOr::Value(v.encode()),
            UndefinedOr::Null => UndefinedOr::Null,
            UndefinedOr::Undefined => UndefinedOr::Undefined,
        }
    }
}

/// The text of one written member: `"key":value`, with `null` for a
/// cleared field.
pub open spec fn member_text(key: Seq<char>, value: UndefinedOr<Seq<char>>) -> Seq<char> {
    quoted(key) + seq![':'] + match value {
        UndefinedOr::Value(t) => t,
        _ => null_text(),
    }
}

/// The texts of the members that are written, in order: every member but
/// the undefined ones.
pub open spec fn written_members(ms: Seq<(Seq<char>, UndefinedOr<Seq<char>>)>) -> Seq<Seq<char>>
    decreases ms.len(),
{
    if ms.len() == 0 {
        Seq::empty()
    } else {
        let prev = written_members(ms.drop_last());
        let m = ms.last();
        if m.1 is Undefined {
            prev
        } else {
            prev.push(member_text(m.0, m.1))
        }
    }
}

/// Texts joined by commas.
pub open spec fn comma_joined(ts: Seq<Seq<char>>) -> Seq<char>
    decreases ts.len(),
{
    if ts.len() == 0 {
        Seq::empty()
    } else if ts.len() == 1 {
        ts[0]
    } else {
        comma_joined(ts.drop_last()) + seq![','] + ts.last()
    }
}

/// The JSON object with the given members, undefined ones left out.
pub open spec fn object_text(ms: Seq<(Seq<char>, UndefinedOr<Seq<char>>)>) -> Seq<char> {
    seq!['{'] + comma_joined(written_members(ms)) + seq!['}']
}

/// The abstract form of a list of encoded members.
pub open spec fn members_view(ms: Seq<(String, UndefinedOr<String>)>) -> Seq<(Seq<char>, UndefinedOr<Seq<char>>)> {
    ms.map_values(|m: (String, UndefinedOr<String>)| pair_view(m))
}

fn literal(s: &str) -> (r: String)
    ensures
        r@ == s@,
{
    String::from_str(s)
}

/// Writes a JSON object from its members, each a key with its encoded
/// value; undefined members are skipped, cleared ones written as `null`.
pub fn encode_object(members: &Vec<(String, UndefinedOr<String>)>) -> (r: String)
    ensures
        r@ == object_text(members_view(members@)),
{
    let ghost ms = members_view(members@);
    let open = literal("{");
    let close = literal("}");
    let colon = literal(":");
    let comma = literal(",");
    let null = literal("null");
    proof {
        reveal_strlit("{");
        reveal_strlit("}");
        reveal_strlit(":");
        reveal_strlit(",");
    }
    let mut body = String::new();
    let mut any = false;
    let mut i: usize = 0;
    while i < members.len()
        invariant
            ms == members_view(members@),
            i <= members.len(),
            colon@ == seq![':'],
            comma@ == seq![','],
            null@ == null_text(),
            any == (written_members(ms.take(i as int)).len() > 0),
            body@ == comma_joined(written_members(ms.take(i as int))),
        decreases members.len() - i,
    {
        let ghost before = written_members(ms.take(i as int));
        let ghost t = ms.take(i + 1);
        proof {
            assert(t.drop_last() =~= ms.take(i as int));
            assert(t.last() == ms[i as int]);
        }
        let (key, value) = &members[i];
        match value {
            UndefinedOr::Undefined => {
                assert(written_members(t) == before);
            },
            _ => {
                if any {
                    body.append(comma.as_str());
                }
                let k = quote(key.as_str());
                body.append(k.as_str());
                body.append(colon.as_str());
                match value {
                    UndefinedOr::Value(v) => body.append(v.as_str()),
                    _ => body.append(null.as_str()),
                }
                any = true;
                proof {
                    let after = written_members(t);
                    assert(after == before.push(member_text(ms[i as int].0, ms[i as int].1)));
                    assert(after.drop_last() =~= before);
                    if before.len() == 0 {
                        assert(body@ =~= member_text(ms[i as int].0, ms[i as int].1));
                    } else {
                        assert(body@ =~= comma_joined(before) + seq![','] + member_text(
                            ms[i as int].0,
                            ms[i as int].1,
                        ));
                    }
                }
            },
        }
        i = i + 1;
    }
    proof {
        assert(ms.take(members.len() as int) =~= ms);
    }
    open.concat(body.as_str()).concat(close.as_str())
}

/// A member that is always written.
pub open spec fn required<T: Encode>(key: Seq<char>, v: T) -> (Seq<char>, UndefinedOr<Seq<char>>) {
    (key, UndefinedOr::Value(v.encoded()))
}

/// A tri-state member.
pub open spec fn tri_state<T: Encode>(key: Seq<char>, u: UndefinedOr<T>) -> (Seq<char>, UndefinedOr<Seq<char>>) {
    (key, member_value(u))
}

/// An optional member, written as `null` when absent.
pub open spec fn nullable<T: Encode>(key: Seq<char>, o: Option<T>) -> (Seq<char>, UndefinedOr<Seq<char>>) {
    match o {
        Some(v) => (key, UndefinedOr::Value(v.encoded())),
        None => (key, UndefinedOr::Null),
    }
}

/// The abstract form of one encoded member.
pub open spec fn pair_view(m: (String, UndefinedOr<String>)) -> (Seq<char>, UndefinedOr<Seq<char>>) {
    (m.0@, text_view(m.1))
}

/// Encodes a member that is always written.
pub fn required_member<T: Encode>(key: &str, v: &T) -> (r: (String, UndefinedOr<String>))
    ensures
        pair_view(r) == required(key@, *v),
{
    (literal(key), UndefinedOr::Value(v.encode()))
}

/// Encodes a tri-state member.
pub fn tri_state_member<T: Encode>(key: &str, u: &UndefinedOr<T>) -> (r: (String, UndefinedOr<String>))
    ensures
        pair_view(r) == tri_state(key@, *u),
{
    (literal(key), u.encoded_member())
}

/// Encodes an optional member, `null` when absent.
pub fn nullable_member<T: Encode>(key: &str, o: &Option<T>) -> (r: (String, UndefinedOr<String>))
    ensures
        pair_view(r) == nullable(key@, *o),
{
    match o {
        Some(v) => (literal(key), UndefinedOr::Value(v.encode())),
        None => (literal(key), UndefinedOr::Null),
    }
}

/// An undefined member leaves the object as it was: the field is absent.
pub proof fn lemma_undefined_member_absent(
    ms: Seq<(Seq<char>, UndefinedOr<Seq<char>>)>,
    key: Seq<char>,
)
    ensures
        object_text(ms.push((key, UndefinedOr::Undefined))) == object_text(ms),
{
    assert(ms.push((key, UndefinedOr::Undefined)).drop_last() =~= ms);
}

/// A cleared member is written as `"key":null`, and a set member as
/// `"key":` followed by its value's text, after the members before it.
pub proof fn lemma_defined_member_written(
    ms: Seq<(Seq<char>, UndefinedOr<Seq<char>>)>,
    key: Seq<char>,
    value: UndefinedOr<Seq<char>>,
)
    requires
        !(value is Undefined),
    ensures
        written_members(ms.push((key, value))) == written_members(ms).push(member_text(key, value)),
        value is Null ==> member_text(key, value) == quoted(key) + seq![':'] + null_text(),
        value matches UndefinedOr::Value(t) ==> member_text(key, value) == quoted(key) + seq![':'] + t,
{
    assert(ms.push((key, value)).drop_last() =~= ms);
}

} // verus!
