use vstd::prelude::*;

verus! {

/// An error category reported by the api, or `Unknown` for anything that
/// is not recognised (including failures on this side of the wire).
#[derive(Debug, Clone, Copy, PartialEq, Eq, Structural)]
pub enum ErrorCode {
    /// This is a valid resource - no error.
    Valid,
    /// Resource not found.
    NotFound,
    /// Request forbidden.
    Forbidden,
    /// Bad request payload.
    BadRequest,
    /// You are rate limited.
    RateLimited,
    /// Not authorized for resource.
    Unauthorized,
    /// The resource has exceeded its usage.
    UsageExceeded,
    /// An internal server error occurred with the api.
    InternalServerError,
    /// An invalid key type was used.
    InvalidKeyType,
    /// The identifier is in use by another resource.
    NotUnique,
    /// Another resource already uses this identifier.
    Conflict,
    /// The resource is delete protected.
    DeleteProtected,
    /// The resource is expired.
    Expired,
    /// The resource is disabled.
    Disabled,
    /// Too many requests were made.
    TooManyRequests,
    /// Reserved for unknown interactions.
    Unknown,
}

/// The error code that a wire name such as `NOT_FOUND` stands for; every
/// name that is not listed is `Unknown`.
pub open spec fn code_of(name: Seq<char>) -> ErrorCode {
    if name == "VALID"@ {
        ErrorCode::Valid
    } else if name == "NOT_FOUND"@ {
        ErrorCode::NotFound
    } else if name == "FORBIDDEN"@ {
        ErrorCode::Forbidden
    } else if name == "BAD_REQUEST"@ {
        ErrorCode::BadRequest
    } else if name == "RATE_LIMITED"@ {
        ErrorCode::RateLimited
    } else if name == "UNAUTHORIZED"@ {
        ErrorCode::Unauthorized
    } else if name == "USAGE_EXCEEDED"@ {
        ErrorCode::UsageExceeded
    } else if name == "INTERNAL_SERVER_ERROR"@ {
        ErrorCode::InternalServerError
    } else if name == "INVALID_KEY_TYPE"@ {
        ErrorCode::InvalidKeyType
    } else if name == "NOT_UNIQUE"@ {
        ErrorCode::NotUnique
    } else if name == "CONFLICT"@ {
        ErrorCode::Conflict
    } else if name == "DELETE_PROTECTED"@ {
        ErrorCode::DeleteProtected
    } else if name == "EXPIRED"@ {
        ErrorCode::Expired
    } else if name == "DISABLED"@ {
        ErrorCode::Disabled
    } else if name == "TOO_MANY_REQUESTS"@ {
        ErrorCode::TooManyRequests
    } else {
        ErrorCode::Unknown
    }
}

fn is_name(name: &String, candidate: &str) -> (r: bool)
    ensures
        r == (name@ == candidate@),
{
    let c = String::from_str(candidate);
    *name == c
}

impl ErrorCode {
    /// Reads an error code from its wire name (`SCREAMING_SNAKE_CASE`).
    pub fn from_wire(name: &String) -> (r: ErrorCode)
        ensures
            r == code_of(name@),
    {
        if is_name(name, "VALID") {
            ErrorCode::Valid
        } else if is_name(name, "NOT_FOUND") {
            ErrorCode::NotFound
        } else if is_name(name, "FORBIDDEN") {
            ErrorCode::Forbidden
        } else if is_name(name, "BAD_REQUEST") {
            ErrorCode::BadRequest
        } else if is_name(name, "RATE_LIMITED") {
            ErrorCode::RateLimited
        } else if is_name(name, "UNAUTHORIZED") {
            ErrorCode::Unauthorized
        } else if is_name(name, "USAGE_EXCEEDED") {
            ErrorCode::UsageExceeded
        } else if is_name(name, "INTERNAL_SERVER_ERROR") {
            ErrorCode::InternalServerError
        } else if is_name(name, "INVALID_KEY_TYPE") {
            ErrorCode::InvalidKeyType
        } else if is_name(name, "NOT_UNIQUE") {
            ErrorCode::NotUnique
        } else if is_name(name, "CONFLICT") {
            ErrorCode::Conflict
        } else if is_name(name, "DELETE_PROTECTED") {
            ErrorCode::DeleteProtected
        } else if is_name(name, "EXPIRED") {
            ErrorCode::Expired
        } else if is_name(name, "DISABLED") {
            ErrorCode::Disabled
        } else if is_name(name, "TOO_MANY_REQUESTS") {
            ErrorCode::TooManyRequests
        } else {
            ErrorCode::Unknown
        }
    }
}

/// An error returned to callers: a code and a human readable message.
#[derive(Debug, Clone)]
pub struct HttpError {
    /// The error code for the error.
    pub code: ErrorCode,
    /// The error message.
    pub message: String,
}

impl HttpError {
    /// Creates a new http error.
    pub fn new(code: ErrorCode, message: String) -> (r: HttpError)
        ensures
            r.code == code,
            r.message@ == message@,
    {
        HttpError { code, message }
    }

    /// An error of code `Unknown` carrying the given message, used for
    /// transport and decoding failures.
    pub fn unknown(message: String) -> (r: HttpError)
        ensures
            r.code == ErrorCode::Unknown,
            r.message@ == message@,
    {
        HttpError { code: ErrorCode::Unknown, message }
    }
}

/// An error result with the given code and message.
pub fn response_error<T>(code: ErrorCode, message: &str) -> (r: Result<T, HttpError>)
    ensures
        r matches Err(e) && e.code == code && e.message@ == message@,
{
    Err(HttpError::new(code, String::from_str(message)))
}

impl PartialEq for HttpError {
    fn eq(&self, other: &HttpError) -> (r: bool) {
        self.code == other.code && self.message == other.message
    }
}

impl vstd::std_specs::cmp::PartialEqSpecImpl for HttpError {
    open spec fn obeys_eq_spec() -> bool {
        true
    }

    open spec fn eq_spec(&self, other: &HttpError) -> bool {
        self.code == other.code && self.message@ == other.message@
    }
}

impl Eq for HttpError {
}

} // verus!
