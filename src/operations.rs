use vstd::prelude::*;
use crate::encode::{bool_string, bool_text, Encode};
use crate::models::apis::{DeleteApiRequest, GetApiRequest, ListKeysRequest};
use crate::models::keys::{
    CreateKeyRequest, GetKeyRequest, RevokeKeyRequest, UpdateKeyRequest, UpdateRemainingRequest,
    VerifyKeyRequest,
};
use crate::routes::{
    compiled, create_key_route, delete_api_route, get_api_route, get_key_route, list_keys_route,
    revoke_key_route, update_key_route, update_remaining_route, verify_key_route, with_path_param,
    with_query_param, CompiledRoute, CompiledRouteView, Method,
};
use crate::text::{decimal, decimal_text};

verus! {

/// Everything that an operation sends: the compiled route and the JSON
/// body, if the operation has one.
#[derive(Debug, Clone)]
pub struct Outgoing {
    /// The route, with path and query parameters filled in.
    pub route: CompiledRoute,
    /// The JSON body.
    pub body: Option<String>,
}

/// `o` sends `route` with the JSON form of `body`.
pub open spec fn sends<T: Encode>(o: Outgoing, route: CompiledRouteView, body: T) -> bool {
    &&& o.route@ == route
    &&& o.body matches Some(b) && b@ == body.encoded()
}

/// `o` sends `route` without a body.
pub open spec fn sends_bare(o: Outgoing, route: CompiledRouteView) -> bool {
    o.route@ == route && o.body is None
}

/// The production base url of the api.
pub const BASE_API_URL: &'static str = "https://api.unkey.dev/v1";

/// The user agent sent with every request.
pub const USER_AGENT: &'static str = "Unkey Rust SDK v0.4.0";

/// The headers sent with every request, for the root key `key`.
pub open spec fn headers_for(key: Seq<char>) -> Seq<(Seq<char>, Seq<char>)> {
    seq![
        ("Accept"@, "application/json"@),
        ("x-user-agent"@, USER_AGENT@),
        ("Authorization"@, "Bearer "@ + key),
    ]
}

/// The headers to send with every request: the accepted content type, the
/// client's user agent, and the root key as a bearer token.
pub fn request_headers(key: &str) -> (r: Vec<(String, String)>)
    ensures
        r@.map_values(|h: (String, String)| (h.0@, h.1@)) == headers_for(key@),
{
    let auth = String::from_str("Bearer ").concat(key);
    let r = vec![
        (String::from_str("Accept"), String::from_str("application/json")),
        (String::from_str("x-user-agent"), String::from_str(USER_AGENT)),
        (String::from_str("Authorization"), auth),
    ];
    assert(r@.map_values(|h: (String, String)| (h.0@, h.1@)) =~= headers_for(key@));
    r
}

/// The number of keys a page holds when the request names no limit.
pub const DEFAULT_LIST_LIMIT: usize = 100;

/// A route compiled from its table entry with one path parameter.
pub open spec fn keyed(method: Method, uri: Seq<char>, id: Seq<char>) -> CompiledRouteView {
    with_path_param(compiled(method, uri), id)
}

/// Creates a new api key.
pub fn create_key(req: &CreateKeyRequest) -> (r: Outgoing)
    ensures
        sends(r, compiled(Method::POST, "/keys"@), *req),
{
    Outgoing { route: create_key_route().compile(), body: Some(req.encode()) }
}

/// Verifies an existing api key.
pub fn verify_key(req: &VerifyKeyRequest) -> (r: Outgoing)
    ensures
        sends(r, compiled(Method::POST, "/keys/verify"@), *req),
{
    Outgoing { route: verify_key_route().compile(), body: Some(req.encode()) }
}

/// Revokes an existing api key.
pub fn revoke_key(req: &RevokeKeyRequest) -> (r: Outgoing)
    ensures
        sends(r, keyed(Method::DELETE, "/keys/{}"@, req.key_id@), *req),
{
    let mut route = revoke_key_route().compile();
    route.uri_insert(req.key_id.as_str());
    Outgoing { route, body: Some(req.encode()) }
}

/// Updates an existing api key.
pub fn update_key(req: &UpdateKeyRequest) -> (r: Outgoing)
    ensures
        sends(r, keyed(Method::PUT, "/keys/{}"@, req.key_id@), *req),
{
    let mut route = update_key_route().compile();
    route.uri_insert(req.key_id.as_str());
    Outgoing { route, body: Some(req.encode()) }
}

/// Gets details about an api key.
pub fn get_key(req: &GetKeyRequest) -> (r: Outgoing)
    ensures
        sends_bare(
            r,
            with_query_param(keyed(Method::GET, "/keys/{}"@, req.key_id@), "keyId"@, req.key_id@),
        ),
{
    let mut route = get_key_route().compile();
    route.uri_insert(req.key_id.as_str()).query_insert("keyId", req.key_id.as_str());
    Outgoing { route, body: None }
}

/// Updates the remaining verifications of a key.
pub fn update_remaining(req: &UpdateRemainingRequest) -> (r: Outgoing)
    ensures
        sends(r, keyed(Method::POST, "/keys/{}/remaining"@, req.key_id@), *req),
{
    let mut route = update_remaining_route().compile();
    route.uri_insert(req.key_id.as_str());
    Outgoing { route, body: Some(req.encode()) }
}

/// Retrieves api information.
pub fn get_api(req: &GetApiRequest) -> (r: Outgoing)
    ensures
        sends_bare(
            r,
            with_query_param(keyed(Method::GET, "/apis/{}"@, req.api_id@), "apiId"@, req.api_id@),
        ),
{
    let mut route = get_api_route().compile();
    route.uri_insert(req.api_id.as_str());
    route.query_insert("apiId", req.api_id.as_str());
    Outgoing { route, body: None }
}

/// Deletes an api.
pub fn delete_api(req: &DeleteApiRequest) -> (r: Outgoing)
    ensures
        sends_bare(r, keyed(Method::DELETE, "/apis/{}"@, req.api_id@)),
{
    let mut route = delete_api_route().compile();
    route.uri_insert(req.api_id.as_str());
    Outgoing { route, body: None }
}

/// Appends a query parameter when a value is present.
pub open spec fn with_optional_query(
    c: CompiledRouteView,
    name: Seq<char>,
    value: Option<Seq<char>>,
) -> CompiledRouteView {
    match value {
        Some(v) => with_query_param(c, name, v),
        None => c,
    }
}

/// The route of a list keys request: the api id in the path and as
/// `apiId`, then `limit` (100 by default), then `revalidateKeysCache`,
/// `ownerId` and `cursor` where set.
pub open spec fn list_keys_view(req: ListKeysRequest) -> CompiledRouteView {
    let limit = match req.limit {
        Some(l) => l,
        None => DEFAULT_LIST_LIMIT,
    };
    let base = with_query_param(
        with_query_param(keyed(Method::GET, "/apis/{}/keys"@, req.api_id@), "apiId"@, req.api_id@),
        "limit"@,
        decimal(limit as nat),
    );
    let revalidate = match req.revalidate_cache {
        Some(b) => Some(bool_text(b)),
        None => None,
    };
    let owner = match req.owner_id {
        Some(o) => Some(o@),
        None => None,
    };
    let cursor = match req.cursor {
        Some(c) => Some(c@),
        None => None,
    };
    with_optional_query(
        with_optional_query(with_optional_query(base, "revalidateKeysCache"@, revalidate), "ownerId"@, owner),
        "cursor"@,
        cursor,
    )
}

/// Retrieves a paginated list of keys of an api.
pub fn list_keys(req: &ListKeysRequest) -> (r: Outgoing)
    ensures
        sends_bare(r, list_keys_view(*req)),
{
    let mut route = list_keys_route().compile();
    route.uri_insert(req.api_id.as_str());
    route.query_insert("apiId", req.api_id.as_str());
    let limit = match req.limit {
        Some(l) => l,
        None => DEFAULT_LIST_LIMIT,
    };
    let limit_text = decimal_text(limit);
    route.query_insert("limit", limit_text.as_str());
    if let Some(revalidate) = req.revalidate_cache {
        let flag = bool_string(revalidate);
        route.query_insert("revalidateKeysCache", flag.as_str());
    }
    if let Some(owner) = &req.owner_id {
        route.query_insert("ownerId", owner.as_str());
    }
    if let Some(cursor) = &req.cursor {
        route.query_insert("cursor", cursor.as_str());
    }
    Outgoing { route, body: None }
}

} // verus!
