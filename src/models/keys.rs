use vstd::prelude::*;
use crate::encode::{
    encode_object, members_view, nullable, nullable_member, object_text, required, required_member,
    tri_state, tri_state_member, Encode,
};
use crate::json::{quote, quoted, RawJson};
use crate::models::ratelimit::{Ratelimit, RatelimitState};
use crate::models::refill::Refill;
use crate::undefined::{from_option, UndefinedOr};

verus! {

/// An operation on a key's remaining verifications.
#[derive(Debug, Clone, Copy, PartialEq, Eq, Structural)]
pub enum UpdateOp {
    /// Increments the existing value.
    Increment,
    /// Decrements the existing value.
    Decrement,
    /// Sets the value (written `set` on the wire).
    Assign,
}

impl Encode for UpdateOp {
    open spec fn encoded(&self) -> Seq<char> {
        match *self {
            UpdateOp::Increment => quoted("increment"@),
            UpdateOp::Decrement => quoted("decrement"@),
            UpdateOp::Assign => quoted("set"@),
        }
    }

    fn encode(&self) -> (r: String) {
        match self {
            UpdateOp::Increment => quote("increment"),
            UpdateOp::Decrement => quote("decrement"),
            UpdateOp::Assign => quote("set"),
        }
    }
}

/// An outgoing verify key request.
#[derive(Debug, Clone)]
pub struct VerifyKeyRequest {
    /// The key to verify.
    pub key: String,
    /// The id of the api the key belongs to.
    pub api_id: String,
}

impl VerifyKeyRequest {
    /// Creates a new verify key request.
    pub fn new(key: &str, api_id: &str) -> (r: VerifyKeyRequest)
        ensures
            r.key@ == key@,
            r.api_id@ == api_id@,
    {
        VerifyKeyRequest { key: String::from_str(key), api_id: String::from_str(api_id) }
    }
}

impl Encode for VerifyKeyRequest {
    open spec fn encoded(&self) -> Seq<char> {
        object_text(
            seq![
                required("key"@, self.key),
                required("apiId"@, self.api_id),
            ],
        )
    }

    fn encode(&self) -> (r: String) {
        let ms = vec![
            required_member("key", &self.key),
            required_member("apiId", &self.api_id),
        ];
        assert(members_view(ms@) =~= seq![
            required("key"@, self.key),
            required("apiId"@, self.api_id),
        ]);
        encode_object(&ms)
    }
}

/// An incoming verify key response.
#[derive(Debug, Clone)]
pub struct VerifyKeyResponse {
    /// Whether the key is valid.
    pub valid: bool,
    /// The id of the key.
    pub key_id: Option<String>,
    /// The owner id of the key.
    pub owner_id: Option<String>,
    /// The free-form metadata of the key.
    pub meta: Option<RawJson>,
    /// The remaining verifications of the key.
    pub remaining: Option<usize>,
    /// When the key expires (unix ms).
    pub expires: Option<usize>,
    /// The rate limit state of the key.
    pub ratelimit: Option<RatelimitState>,
    /// The refill settings of the key.
    pub refill: Option<Refill>,
}

/// An outgoing create key request; every optional field starts undefined.
#[derive(Debug, Clone)]
pub struct CreateKeyRequest {
    /// The id of the api to create the key for.
    pub api_id: String,
    /// The owner id to attach to the key.
    pub owner_id: UndefinedOr<String>,
    /// The byte length of the generated key.
    pub byte_length: UndefinedOr<usize>,
    /// The prefix of the generated key.
    pub prefix: UndefinedOr<String>,
    /// The name of the key.
    pub name: UndefinedOr<String>,
    /// The free-form metadata of the key.
    pub meta: UndefinedOr<RawJson>,
    /// When the key expires (unix ms).
    pub expires: UndefinedOr<usize>,
    /// The number of verifications the key allows.
    pub remaining: UndefinedOr<usize>,
    /// The rate limit of the key.
    pub ratelimit: UndefinedOr<Ratelimit>,
    /// The refill settings of the key.
    pub refill: UndefinedOr<Refill>,
}

impl CreateKeyRequest {
    /// Creates a new create key request with every optional field undefined.
    pub fn new(api_id: &str) -> (r: CreateKeyRequest)
        ensures
            r.api_id@ == api_id@,
            r.owner_id is Undefined,
            r.byte_length is Undefined,
            r.prefix is Undefined,
            r.name is Undefined,
            r.meta is Undefined,
            r.expires is Undefined,
            r.remaining is Undefined,
            r.ratelimit is Undefined,
            r.refill is Undefined,
    {
        CreateKeyRequest {
            api_id: String::from_str(api_id),
            owner_id: UndefinedOr::Undefined,
            byte_length: UndefinedOr::Undefined,
            prefix: UndefinedOr::Undefined,
            name: UndefinedOr::Undefined,
            meta: UndefinedOr::Undefined,
            expires: UndefinedOr::Undefined,
            remaining: UndefinedOr::Undefined,
            ratelimit: UndefinedOr::Undefined,
            refill: UndefinedOr::Undefined,
        }
    }

    /// Sets the owner id of the key.
    pub fn set_owner_id(self, owner_id: &str) -> (r: CreateKeyRequest)
        ensures
            r == (CreateKeyRequest { owner_id: r.owner_id, ..self }),
            r.owner_id matches UndefinedOr::Value(v) && v@ == owner_id@,
    {
        CreateKeyRequest { owner_id: UndefinedOr::Value(String::from_str(owner_id)), ..self }
    }

    /// Sets the byte length of the generated key.
    pub fn set_byte_length(self, byte_length: usize) -> (r: CreateKeyRequest)
        ensures
            r == (CreateKeyRequest { byte_length: UndefinedOr::Value(byte_length), ..self }),
    {
        CreateKeyRequest { byte_length: UndefinedOr::Value(byte_length), ..self }
    }

    /// Sets the prefix of the generated key.
    pub fn set_prefix(self, prefix: &str) -> (r: CreateKeyRequest)
        ensures
            r == (CreateKeyRequest { prefix: r.prefix, ..self }),
            r.prefix matches UndefinedOr::Value(v) && v@ == prefix@,
    {
        CreateKeyRequest { prefix: UndefinedOr::Value(String::from_str(prefix)), ..self }
    }

    /// Sets the name of the key.
    pub fn set_name(self, name: &str) -> (r: CreateKeyRequest)
        ensures
            r == (CreateKeyRequest { name: r.name, ..self }),
            r.name matches UndefinedOr::Value(v) && v@ == name@,
    {
        CreateKeyRequest { name: UndefinedOr::Value(String::from_str(name)), ..self }
    }

    /// Sets the free-form metadata of the key.
    pub fn set_meta(self, meta: RawJson) -> (r: CreateKeyRequest)
        ensures
            r == (CreateKeyRequest { meta: UndefinedOr::Value(meta), ..self }),
    {
        CreateKeyRequest { meta: UndefinedOr::Value(meta), ..self }
    }

    /// Sets the key to expire `expires` milliseconds after `now_ms`, the
    /// current unix time in milliseconds.
    pub fn set_expires(self, expires: usize, now_ms: usize) -> (r: CreateKeyRequest)
        requires
            now_ms + expires <= usize::MAX,
        ensures
            r == (CreateKeyRequest { expires: UndefinedOr::Value((now_ms + expires) as usize), ..self }),
    {
        CreateKeyRequest { expires: UndefinedOr::Value(now_ms + expires), ..self }
    }

    /// Sets the number of verifications the key allows.
    pub fn set_remaining(self, remaining: usize) -> (r: CreateKeyRequest)
        ensures
            r == (CreateKeyRequest { remaining: UndefinedOr::Value(remaining), ..self }),
    {
        CreateKeyRequest { remaining: UndefinedOr::Value(remaining), ..self }
    }

    /// Sets the rate limit of the key.
    pub fn set_ratelimit(self, ratelimit: Ratelimit) -> (r: CreateKeyRequest)
        ensures
            r == (CreateKeyRequest { ratelimit: UndefinedOr::Value(ratelimit), ..self }),
    {
        CreateKeyRequest { ratelimit: UndefinedOr::Value(ratelimit), ..self }
    }

    /// Sets the refill settings of the key.
    pub fn set_refill(self, refill: Refill) -> (r: CreateKeyRequest)
        ensures
            r == (CreateKeyRequest { refill: UndefinedOr::Value(refill), ..self }),
    {
        CreateKeyRequest { refill: UndefinedOr::Value(refill), ..self }
    }
}

impl Encode for CreateKeyRequest {
    open spec fn encoded(&self) -> Seq<char> {
        object_text(
            seq![
                required("apiId"@, self.api_id),
                tri_state("ownerId"@, self.owner_id),
                tri_state("byteLength"@, self.byte_length),
                tri_state("prefix"@, self.prefix),
                tri_state("name"@, self.name),
                tri_state("meta"@, self.meta),
                tri_state("expires"@, self.expires),
                tri_state("remaining"@, self.remaining),
                tri_state("ratelimit"@, self.ratelimit),
                tri_state("refill"@, self.refill),
            ],
        )
    }

    fn encode(&self) -> (r: String) {
        let ms = vec![
            required_member("apiId", &self.api_id),
            tri_state_member("ownerId", &self.owner_id),
            tri_state_member("byteLength", &self.byte_length),
            tri_state_member("prefix", &self.prefix),
            tri_state_member("name", &self.name),
            tri_state_member("meta", &self.meta),
            tri_state_member("expires", &self.expires),
            tri_state_member("remaining", &self.remaining),
            tri_state_member("ratelimit", &self.ratelimit),
            tri_state_member("refill", &self.refill),
        ];
        assert(members_view(ms@) =~= seq![
            required("apiId"@, self.api_id),
            tri_state("ownerId"@, self.owner_id),
            tri_state("byteLength"@, self.byte_length),
            tri_state("prefix"@, self.prefix),
            tri_state("name"@, self.name),
            tri_state("meta"@, self.meta),
            tri_state("expires"@, self.expires),
            tri_state("remaining"@, self.remaining),
            tri_state("ratelimit"@, self.ratelimit),
            tri_state("refill"@, self.refill),
        ]);
        encode_object(&ms)
    }
}

/// An incoming create key response.
#[derive(Debug, Clone)]
pub struct CreateKeyResponse {
    /// The id of the new key.
    pub key_id: String,
    /// The new key itself.
    pub key: String,
}

/// An api key as the api describes it.
#[derive(Debug, Clone)]
pub struct ApiKey {
    /// The id of the key.
    pub id: String,
    /// The name of the key.
    pub name: Option<String>,
    /// The id of the api the key belongs to.
    pub api_id: String,
    /// The id of the workspace the key belongs to.
    pub workspace_id: String,
    /// The first characters of the key.
    pub start: String,
    /// The owner id of the key.
    pub owner_id: Option<String>,
    /// The free-form metadata of the key.
    pub meta: Option<RawJson>,
    /// When the key was created (unix ms).
    pub created_at: usize,
    /// When the key expires (unix ms).
    pub expires: Option<usize>,
    /// The remaining verifications of the key.
    pub remaining: Option<usize>,
    /// The rate limit of the key.
    pub ratelimit: Option<Ratelimit>,
    /// The refill settings of the key.
    pub refill: Option<Refill>,
}

/// An outgoing revoke key request.
#[derive(Debug, Clone)]
pub struct RevokeKeyRequest {
    /// The id of the key to revoke.
    pub key_id: String,
}

impl RevokeKeyRequest {
    /// Creates a new revoke key request.
    pub fn new(key_id: &str) -> (r: RevokeKeyRequest)
        ensures
            r.key_id@ == key_id@,
    {
        RevokeKeyRequest { key_id: String::from_str(key_id) }
    }
}

impl Encode for RevokeKeyRequest {
    open spec fn encoded(&self) -> Seq<char> {
        object_text(
            seq![
                required("keyId"@, self.key_id),
            ],
        )
    }

    fn encode(&self) -> (r: String) {
        let ms = vec![
            required_member("keyId", &self.key_id),
        ];
        assert(members_view(ms@) =~= seq![
            required("keyId"@, self.key_id),
        ]);
        encode_object(&ms)
    }
}

/// An outgoing partial update of a key: undefined fields are left as they
/// are, null fields are cleared, and set fields are changed.
#[derive(Debug, Clone)]
pub struct UpdateKeyRequest {
    /// The id of the key to update.
    pub key_id: String,
    /// The owner id to attach to the key.
    pub owner_id: UndefinedOr<String>,
    /// The name of the key.
    pub name: UndefinedOr<String>,
    /// The free-form metadata of the key.
    pub meta: UndefinedOr<RawJson>,
    /// When the key expires (unix ms).
    pub expires: UndefinedOr<usize>,
    /// The number of verifications the key allows.
    pub remaining: UndefinedOr<usize>,
    /// The rate limit of the key.
    pub ratelimit: UndefinedOr<Ratelimit>,
    /// The refill settings of the key.
    pub refill: UndefinedOr<Refill>,
}

impl UpdateKeyRequest {
    /// Creates a new update key request that changes nothing yet.
    pub fn new(key_id: &str) -> (r: UpdateKeyRequest)
        ensures
            r.key_id@ == key_id@,
            r.owner_id is Undefined,
            r.name is Undefined,
            r.meta is Undefined,
            r.expires is Undefined,
            r.remaining is Undefined,
            r.ratelimit is Undefined,
            r.refill is Undefined,
    {
        UpdateKeyRequest {
            key_id: String::from_str(key_id),
            owner_id: UndefinedOr::Undefined,
            name: UndefinedOr::Undefined,
            meta: UndefinedOr::Undefined,
            expires: UndefinedOr::Undefined,
            remaining: UndefinedOr::Undefined,
            ratelimit: UndefinedOr::Undefined,
            refill: UndefinedOr::Undefined,
        }
    }

    /// Sets the owner id of the key. `None` clears it.
    pub fn set_owner_id(self, owner_id: Option<&str>) -> (r: UpdateKeyRequest)
        ensures
            r == (UpdateKeyRequest { owner_id: r.owner_id, ..self }),
            match owner_id {
                Some(v) => r.owner_id matches UndefinedOr::Value(x) && x@ == v@,
                None => r.owner_id is Null,
            },
    {
        let value = match owner_id {
            Some(v) => UndefinedOr::from(Some(String::from_str(v))),
            None => UndefinedOr::from(None),
        };
        UpdateKeyRequest { owner_id: value, ..self }
    }

    /// Sets the name of the key. `None` clears it.
    pub fn set_name(self, name: Option<&str>) -> (r: UpdateKeyRequest)
        ensures
            r == (UpdateKeyRequest { name: r.name, ..self }),
            match name {
                Some(v) => r.name matches UndefinedOr::Value(x) && x@ == v@,
                None => r.name is Null,
            },
    {
        let value = match name {
            Some(v) => UndefinedOr::from(Some(String::from_str(v))),
            None => UndefinedOr::from(None),
        };
        UpdateKeyRequest { name: value, ..self }
    }

    /// Sets the free-form metadata of the key. `None` clears it.
    pub fn set_meta(self, meta: Option<RawJson>) -> (r: UpdateKeyRequest)
        ensures
            r == (UpdateKeyRequest { meta: from_option(meta), ..self }),
    {
        UpdateKeyRequest { meta: UndefinedOr::from(meta), ..self }
    }

    /// Sets when the key expires (unix ms). `None` clears it.
    pub fn set_expires(self, expires: Option<usize>) -> (r: UpdateKeyRequest)
        ensures
            r == (UpdateKeyRequest { expires: from_option(expires), ..self }),
    {
        UpdateKeyRequest { expires: UndefinedOr::from(expires), ..self }
    }

    /// Sets the number of verifications the key allows. `None` clears it.
    pub fn set_remaining(self, remaining: Option<usize>) -> (r: UpdateKeyRequest)
        ensures
            r == (UpdateKeyRequest { remaining: from_option(remaining), ..self }),
    {
        UpdateKeyRequest { remaining: UndefinedOr::from(remaining), ..self }
    }

    /// Sets the rate limit of the key. `None` clears it.
    pub fn set_ratelimit(self, ratelimit: Option<Ratelimit>) -> (r: UpdateKeyRequest)
        ensures
            r == (UpdateKeyRequest { ratelimit: from_option(ratelimit), ..self }),
    {
        UpdateKeyRequest { ratelimit: UndefinedOr::from(ratelimit), ..self }
    }

    /// Sets the refill settings of the key. `None` clears it.
    pub fn set_refill(self, refill: Option<Refill>) -> (r: UpdateKeyRequest)
        ensures
            r == (UpdateKeyRequest { refill: from_option(refill), ..self }),
    {
        UpdateKeyRequest { refill: UndefinedOr::from(refill), ..self }
    }
}

impl Encode for UpdateKeyRequest {
    open spec fn encoded(&self) -> Seq<char> {
        object_text(
            seq![
                required("keyId"@, self.key_id),
                tri_state("ownerId"@, self.owner_id),
                tri_state("name"@, self.name),
                tri_state("meta"@, self.meta),
                tri_state("expires"@, self.expires),
                tri_state("remaining"@, self.remaining),
                tri_state("ratelimit"@, self.ratelimit),
                tri_state("refill"@, self.refill),
            ],
        )
    }

    fn encode(&self) -> (r: String) {
        let ms = vec![
            required_member("keyId", &self.key_id),
            tri_state_member("ownerId", &self.owner_id),
            tri_state_member("name", &self.name),
            tri_state_member("meta", &self.meta),
            tri_state_member("expires", &self.expires),
            tri_state_member("remaining", &self.remaining),
            tri_state_member("ratelimit", &self.ratelimit),
            tri_state_member("refill", &self.refill),
        ];
        assert(members_view(ms@) =~= seq![
            required("keyId"@, self.key_id),
            tri_state("ownerId"@, self.owner_id),
            tri_state("name"@, self.name),
            tri_state("meta"@, self.meta),
            tri_state("expires"@, self.expires),
            tri_state("remaining"@, self.remaining),
            tri_state("ratelimit"@, self.ratelimit),
            tri_state("refill"@, self.refill),
        ]);
        encode_object(&ms)
    }
}

/// An outgoing get key request.
#[derive(Debug, Clone)]
pub struct GetKeyRequest {
    /// The id of the key to get.
    pub key_id: String,
}

impl GetKeyRequest {
    /// Creates a new get key request.
    pub fn new(key_id: &str) -> (r: GetKeyRequest)
        ensures
            r.key_id@ == key_id@,
    {
        GetKeyRequest { key_id: String::from_str(key_id) }
    }
}

/// An outgoing request to change a key's remaining verifications.
#[derive(Debug, Clone)]
pub struct UpdateRemainingRequest {
    /// The id of the key to update.
    pub key_id: String,
    /// The value to apply; `None` makes the key unlimited.
    pub value: Option<usize>,
    /// The operation to perform.
    pub op: UpdateOp,
}

impl UpdateRemainingRequest {
    /// Creates a new update remaining request.
    pub fn new(key_id: &str, value: Option<usize>, op: UpdateOp) -> (r: UpdateRemainingRequest)
        ensures
            r.key_id@ == key_id@,
            r.value == value,
            r.op == op,
    {
        UpdateRemainingRequest { key_id: String::from_str(key_id), value, op }
    }
}

impl Encode for UpdateRemainingRequest {
    open spec fn encoded(&self) -> Seq<char> {
        object_text(
            seq![
                required("keyId"@, self.key_id),
                nullable("value"@, self.value),
                required("op"@, self.op),
            ],
        )
    }

    fn encode(&self) -> (r: String) {
        let ms = vec![
            required_member("keyId", &self.key_id),
            nullable_member("value", &self.value),
            required_member("op", &self.op),
        ];
        assert(members_view(ms@) =~= seq![
            required("keyId"@, self.key_id),
            nullable("value"@, self.value),
            required("op"@, self.op),
        ]);
        encode_object(&ms)
    }
}

/// An incoming update remaining response.
#[derive(Debug, Clone, Copy, PartialEq, Eq, Structural)]
pub struct UpdateRemainingResponse {
    /// The remaining verifications after the update.
    pub remaining: usize,
}

} // verus!
