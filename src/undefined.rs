use vstd::prelude::*;

verus! {

/// A field of a partial update: set to a value, explicitly cleared, or
/// left out of the request entirely.
#[derive(Debug, Clone, PartialEq, Eq)]
pub enum UndefinedOr<T> {
    /// The value is present (T).
    Value(T),
    /// The value is present but empty (null on the wire).
    Null,
    /// The value is not present (left out of the wire form).
    Undefined,
}

impl<T> UndefinedOr<T> {
    /// True if this variant contains a value.
    pub fn is_some(&self) -> (r: bool)
        ensures
            r == (*self is Value),
    {
        match self {
            UndefinedOr::Value(_) => true,
            _ => false,
        }
    }

    /// True if the field is left out of the request.
    pub fn is_undefined(&self) -> (r: bool)
        ensures
            r == (*self is Undefined),
    {
        match self {
            UndefinedOr::Undefined => true,
            _ => false,
        }
    }

    /// True if the field is explicitly cleared.
    pub fn is_null(&self) -> (r: bool)
        ensures
            r == (*self is Null),
    {
        match self {
            UndefinedOr::Null => true,
            _ => false,
        }
    }

    /// A reference to the value, if there is one.
    pub fn inner(&self) -> (r: Option<&T>)
        ensures
            match *self {
                UndefinedOr::Value(v) => r == Some(&v),
                _ => r is None,
            },
    {
        match self {
            UndefinedOr::Value(v) => Some(v),
            _ => None,
        }
    }
}

/// The optional value that a tri-state optional stands for: the inner
/// option of a value, `None` otherwise.
pub open spec fn flattened<T>(u: UndefinedOr<Option<T>>) -> Option<T> {
    match u {
        UndefinedOr::Value(o) => o,
        _ => None,
    }
}

impl<T> UndefinedOr<Option<T>> {
    /// The inner option of a value; `None` when null or undefined.
    pub fn as_option(&self) -> (r: &Option<T>)
        ensures
            *r == flattened(*self),
    {
        match self {
            UndefinedOr::Value(v) => v,
            _ => &None,
        }
    }
}

impl<T> core::ops::Deref for UndefinedOr<Option<T>> {
    type Target = Option<T>;

    fn deref(&self) -> (r: &Option<T>)
        ensures
            *r == flattened(*self),
    {
        self.as_option()
    }
}

/// The tri-state form of an ordinary optional value: a present value stays
/// a value, an absent one becomes an explicit null.
pub open spec fn from_option<T>(o: Option<T>) -> UndefinedOr<T> {
    match o {
        Some(v) => UndefinedOr::Value(v),
        None => UndefinedOr::Null,
    }
}

impl<T> Default for UndefinedOr<T> {
    fn default() -> (r: UndefinedOr<T>)
        ensures
            r is Undefined,
    {
        UndefinedOr::Undefined
    }
}

impl<T> From<Option<T>> for UndefinedOr<T> {
    fn from(value: Option<T>) -> (r: UndefinedOr<T>)
        ensures
            r == from_option(value),
    {
        match value {
            Some(v) => UndefinedOr::Value(v),
            None => UndefinedOr::Null,
        }
    }
}

impl<T> vstd::std_specs::convert::FromSpecImpl<Option<T>> for UndefinedOr<T> {
    open spec fn obeys_from_spec() -> bool {
        true
    }

    open spec fn from_spec(v: Option<T>) -> UndefinedOr<T> {
        from_option(v)
    }
}

/// Converting an ordinary optional value never yields `Undefined`: it
/// yields `Value(x)` exactly when the option held `x`, and `Null` exactly
/// when it was empty.
pub proof fn lemma_from_option_law<T>(o: Option<T>)
    ensures
        !(from_option(o) is Undefined),
        forall|x: T| from_option(o) == UndefinedOr::Value(x) <==> o == Some(x),
        from_option(o) is Null <==> o is None,
{
}

} // verus!
