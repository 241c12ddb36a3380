use unkey::operations::{
    delete_api, get_api, get_key, list_keys, request_headers, revoke_key, update_remaining,
    BASE_API_URL, USER_AGENT,
};
use unkey::models::apis::{DeleteApiRequest, GetApiRequest, ListKeysRequest};
use unkey::models::keys::{GetKeyRequest, RevokeKeyRequest, UpdateOp, UpdateRemainingRequest};
use unkey::routes::{list_keys_route, CompiledRoute, Method, Route};

#[test]
fn route_new() {
    let r = Route::new(Method::GET, "/keys/owo");

    assert_eq!(r.method, Method::GET);
    assert_eq!(r.uri, "/keys/owo");
}

#[test]
fn route_compile() {
    let r = Route::new(Method::GET, "/apis/woot").compile();

    assert_eq!(r.params, vec![]);
    assert_eq!(r.method, Method::GET);
    assert_eq!(r.uri, String::from("/apis/woot"));
}

#[test]
fn compiled_route_new() {
    let r = Route::new(Method::GET, "/apis/hi");
    let c = CompiledRoute::new(&r);

    assert_eq!(c.params, vec![]);
    assert_eq!(c.method, Method::GET);
    assert_eq!(c.uri, String::from("/apis/hi"));
}

#[test]
fn compiled_route_uri_insert() {
    let r = Route::new(Method::GET, "/apis/{}/keys/{}");
    let mut c = CompiledRoute::new(&r);
    c.uri_insert("5").uri_insert("1");

    assert_eq!(c.params, vec![]);
    assert_eq!(c.method, Method::GET);
    assert_eq!(c.uri, String::from("/apis/5/keys/1"));
}

#[test]
fn compiled_route_query_insert() {
    let r = Route::new(Method::GET, "/apis/milk");
    let mut c = CompiledRoute::new(&r);
    c.query_insert("test", "value");

    assert_eq!(c.method, Method::GET);
    assert_eq!(c.uri, String::from("/apis/milk"));
    assert_eq!(
        c.params,
        vec![(String::from("test"), String::from("value"))]
    );
}

#[test]
fn compiled_route_build_query() {
    let r = Route::new(Method::GET, "/apis/milk");
    let mut c = CompiledRoute::new(&r);
    c.query_insert("test", "value").query_insert("js", "bad");

    assert_eq!(c.build_query(), String::from("?test=value&js=bad"));
}

#[test]
fn fewer_path_params_leave_placeholders() {
    let mut c = Route::new(Method::GET, "/apis/{}/keys/{}").compile();
    c.uri_insert("5");
    assert_eq!(c.uri, "/apis/5/keys/{}");
}

#[test]
fn excess_path_params_do_nothing() {
    let mut c = Route::new(Method::GET, "/apis/{}").compile();
    c.uri_insert("a");
    c.uri_insert("b");
    c.uri_insert("c");
    assert_eq!(c.uri, "/apis/a");
}

#[test]
fn empty_query_string() {
    let c = Route::new(Method::GET, "/apis").compile();
    assert_eq!(c.build_query(), "");
}

#[test]
fn repeated_query_keys_are_kept() {
    let mut c = Route::new(Method::GET, "/apis").compile();
    c.query_insert("a", "1");
    c.query_insert("a", "2");
    assert_eq!(c.build_query(), "?a=1&a=2");
}

#[test]
fn compile_twice_gives_independent_routes() {
    let r = list_keys_route();
    let mut first = r.compile();
    let second = r.compile();
    first.query_insert("limit", "5");
    first.uri_insert("api_1");
    assert_eq!(second.params, vec![]);
    assert_eq!(second.uri, "/apis/{}/keys");
    assert_eq!(first.build_query(), "?limit=5");
    assert_eq!(first.uri, "/apis/api_1/keys");
}

#[test]
fn list_keys_request_route() {
    let plain = list_keys(&ListKeysRequest::new("api_1"));
    assert_eq!(plain.route.method, Method::GET);
    assert_eq!(plain.route.uri, "/apis/api_1/keys");
    assert_eq!(plain.route.build_query(), "?apiId=api_1&limit=100");
    assert!(plain.body.is_none());

    let req = ListKeysRequest::new("api_1")
        .set_limit(25)
        .set_revalidate_cache(true)
        .set_owner_id("owner")
        .set_cursor("cur");
    let full = list_keys(&req);
    assert_eq!(
        full.route.build_query(),
        "?apiId=api_1&limit=25&revalidateKeysCache=true&ownerId=owner&cursor=cur"
    );
}

#[test]
fn key_routes_fill_the_key_id() {
    let revoke = revoke_key(&RevokeKeyRequest::new("key_9"));
    assert_eq!(revoke.route.method, Method::DELETE);
    assert_eq!(revoke.route.uri, "/keys/key_9");
    assert_eq!(revoke.body.unwrap(), r#"{"keyId":"key_9"}"#);

    let get = get_key(&GetKeyRequest::new("key_9"));
    assert_eq!(get.route.method, Method::GET);
    assert_eq!(get.route.uri, "/keys/key_9");
    assert_eq!(get.route.build_query(), "?keyId=key_9");
    assert!(get.body.is_none());

    let remaining = update_remaining(&UpdateRemainingRequest::new("key_9", None, UpdateOp::Assign));
    assert_eq!(remaining.route.method, Method::POST);
    assert_eq!(remaining.route.uri, "/keys/key_9/remaining");
    assert_eq!(
        remaining.body.unwrap(),
        r#"{"keyId":"key_9","value":null,"op":"set"}"#
    );
}

#[test]
fn api_routes_fill_the_api_id() {
    let get = get_api(&GetApiRequest::new("api_7"));
    assert_eq!(get.route.method, Method::GET);
    assert_eq!(get.route.uri, "/apis/api_7");
    assert_eq!(get.route.build_query(), "?apiId=api_7");

    let del = delete_api(&DeleteApiRequest::new("api_7"));
    assert_eq!(del.route.method, Method::DELETE);
    assert_eq!(del.route.uri, "/apis/api_7");
    assert!(del.body.is_none());
}

#[test]
fn full_url_and_headers() {
    let mut c = Route::new(Method::GET, "/apis/{}/keys").compile();
    c.uri_insert("api_1");
    c.query_insert("limit", "10");
    assert_eq!(c.url(BASE_API_URL), "https://api.unkey.dev/v1/apis/api_1/keys?limit=10");
    assert_eq!(Route::new(Method::GET, "/x").compile().url("http://localhost:3000"), "http://localhost:3000/x");

    let h = request_headers("unkey_abc");
    assert_eq!(
        h,
        vec![
            (String::from("Accept"), String::from("application/json")),
            (String::from("x-user-agent"), String::from(USER_AGENT)),
            (String::from("Authorization"), String::from("Bearer unkey_abc")),
        ]
    );
}
