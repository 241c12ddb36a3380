use unkey::encode::encode_object;
use unkey::UndefinedOr;

fn members(values: [UndefinedOr<usize>; 4]) -> Vec<(String, UndefinedOr<String>)> {
    let names = ["a", "b", "c", "d"];
    names
        .iter()
        .zip(values.iter())
        .map(|(n, v)| (n.to_string(), v.encoded_member()))
        .collect()
}

#[test]
fn default() {
    let d: UndefinedOr<u32> = Default::default();
    assert_eq!(d, UndefinedOr::Undefined);
}

#[test]
fn serialize_null() {
    let t = members([UndefinedOr::Null, UndefinedOr::Null, UndefinedOr::Null, UndefinedOr::Null]);

    let res = encode_object(&t);
    assert_eq!(res.as_str(), r#"{"a":null,"b":null,"c":null,"d":null}"#)
}

#[test]
fn serialize_undefined() {
    let t = members([
        UndefinedOr::Undefined,
        UndefinedOr::Undefined,
        UndefinedOr::Undefined,
        UndefinedOr::Undefined,
    ]);

    let res = encode_object(&t);
    assert_eq!(res.as_str(), "{}");
}

#[test]
fn serialize_value() {
    let t = members([
        UndefinedOr::Value(69),
        UndefinedOr::Value(420),
        UndefinedOr::Value(42),
        UndefinedOr::Value(0),
    ]);

    let res = encode_object(&t);
    assert_eq!(res.as_str(), r#"{"a":69,"b":420,"c":42,"d":0}"#)
}

#[test]
fn serialize_mixed() {
    let t = members([
        UndefinedOr::Value(69),
        UndefinedOr::Value(420),
        UndefinedOr::Null,
        UndefinedOr::Undefined,
    ]);

    let res = encode_object(&t);
    assert_eq!(res.as_str(), r#"{"a":69,"b":420,"c":null}"#)
}

#[test]
fn serialize_directly() {
    assert_eq!(UndefinedOr::Value(7usize).serialize(), Ok(String::from("7")));
    assert_eq!(UndefinedOr::<usize>::Null.serialize(), Ok(String::from("null")));
    assert_eq!(
        UndefinedOr::<usize>::Undefined.serialize(),
        Err(String::from("Undefined should never be serialized."))
    );
}

#[test]
fn from_some() {
    let o = Some(69);
    let res = UndefinedOr::from(o);
    assert_eq!(res, UndefinedOr::Value(69));
}

#[test]
fn from_none() {
    let o = None::<u8>;
    let res = UndefinedOr::from(o);
    assert_eq!(res, UndefinedOr::Null);
}

#[test]
fn predicates_and_inner() {
    let v = UndefinedOr::Value(420);
    assert!(v.is_some() && !v.is_null() && !v.is_undefined());
    assert_eq!(v.inner(), Some(&420));
    let n = UndefinedOr::<u8>::Null;
    assert!(n.is_null() && !n.is_some() && !n.is_undefined());
    assert_eq!(n.inner(), None);
    let u = UndefinedOr::<u8>::Undefined;
    assert!(u.is_undefined() && !u.is_some() && !u.is_null());
    assert_eq!(u.inner(), None);
}

#[test]
fn deref_flattens_optional_values() {
    let v: UndefinedOr<Option<u8>> = UndefinedOr::Value(Some(3));
    assert_eq!(*v, Some(3));
    let inner_none: UndefinedOr<Option<u8>> = UndefinedOr::Value(None);
    assert_eq!(*inner_none, None);
    let n: UndefinedOr<Option<u8>> = UndefinedOr::Null;
    assert_eq!(*n, None);
    let u: UndefinedOr<Option<u8>> = UndefinedOr::Undefined;
    assert_eq!(u.as_option(), &None);
}
