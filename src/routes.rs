use vstd::prelude::*;
use crate::text::{first_occurrence, lemma_first_occurrence_unique, occurs_at, replace_first, replace_first_of};

verus! {

/// The http method of a route.
#[allow(clippy::upper_case_acronyms)]
#[derive(Debug, Clone, Copy, PartialEq, Eq, Structural)]
pub enum Method {
    GET,
    POST,
    PUT,
    DELETE,
}

/// A static route mapping to an api endpoint: a method and a path
/// template whose placeholders are written `{}`.
#[derive(Debug, Clone, Copy)]
pub struct Route {
    /// The http method for the route.
    pub method: Method,
    /// The route's path template.
    pub uri: &'static str,
}

/// The path placeholder.
pub open spec fn placeholder() -> Seq<char> {
    seq!['{', '}']
}

/// The abstract form of a compiled route.
pub struct CompiledRouteView {
    pub uri: Seq<char>,
    pub method: Method,
    pub params: Seq<(Seq<char>, Seq<char>)>,
}

/// A dynamic route that can be used directly for an outgoing request.
#[derive(Debug, Clone)]
pub struct CompiledRoute {
    /// The route's path, with the placeholders filled so far.
    pub uri: String,
    /// The http method for the route.
    pub method: Method,
    /// The query parameters, in insertion order.
    pub params: Vec<(String, String)>,
}

/// The abstract form of a list of query parameters.
pub open spec fn params_view(ps: Seq<(String, String)>) -> Seq<(Seq<char>, Seq<char>)> {
    ps.map_values(|p: (String, String)| (p.0@, p.1@))
}

impl View for CompiledRoute {
    type V = CompiledRouteView;

    open spec fn view(&self) -> CompiledRouteView {
        CompiledRouteView { uri: self.uri@, method: self.method, params: params_view(self.params@) }
    }
}

/// What compiling a route yields: its path template unchanged, its method,
/// and no query parameters.
pub open spec fn compiled(method: Method, uri: Seq<char>) -> CompiledRouteView {
    CompiledRouteView { uri, method, params: Seq::empty() }
}

/// A compiled route after one path parameter was inserted.
pub open spec fn with_path_param(c: CompiledRouteView, value: Seq<char>) -> CompiledRouteView {
    CompiledRouteView { uri: replace_first(c.uri, placeholder(), value), ..c }
}

/// A compiled route after one query parameter was appended.
pub open spec fn with_query_param(
    c: CompiledRouteView,
    name: Seq<char>,
    value: Seq<char>,
) -> CompiledRouteView {
    CompiledRouteView { params: c.params.push((name, value)), ..c }
}

/// One query parameter as written on the wire: `name=value`.
pub open spec fn pair_text(p: (Seq<char>, Seq<char>)) -> Seq<char> {
    p.0 + seq!['='] + p.1
}

/// The query parameters joined by `&`, in order.
pub open spec fn joined(ps: Seq<(Seq<char>, Seq<char>)>) -> Seq<char>
    decreases ps.len(),
{
    if ps.len() == 0 {
        Seq::empty()
    } else if ps.len() == 1 {
        pair_text(ps[0])
    } else {
        joined(ps.drop_last()) + seq!['&'] + pair_text(ps.last())
    }
}

/// The query string: empty without parameters, else `?` followed by the
/// joined parameters.
pub open spec fn query_text(ps: Seq<(Seq<char>, Seq<char>)>) -> Seq<char> {
    if ps.len() == 0 {
        Seq::empty()
    } else {
        seq!['?'] + joined(ps)
    }
}

impl Route {
    /// Creates a new route.
    pub fn new(method: Method, uri: &'static str) -> (r: Route)
        ensures
            r.method == method,
            r.uri@ == uri@,
    {
        Route { method, uri }
    }

    /// Compiles this static route into a new, independent route value.
    pub fn compile(&self) -> (r: CompiledRoute)
        ensures
            r@ == compiled(self.method, self.uri@),
    {
        CompiledRoute::new(self)
    }
}

fn text_of(s: &str) -> (r: String)
    ensures
        r@ == s@,
{
    String::from_str(s)
}

impl CompiledRoute {
    /// Creates a new compiled route from a static route.
    pub fn new(route: &Route) -> (r: CompiledRoute)
        ensures
            r@ == compiled(route.method, route.uri@),
    {
        let params: Vec<(String, String)> = Vec::new();
        let r = CompiledRoute { uri: text_of(route.uri), method: route.method, params };
        assert(r@.params =~= Seq::<(Seq<char>, Seq<char>)>::empty());
        r
    }

    /// Replaces the first placeholder of the path with `param`; once no
    /// placeholder is left this changes nothing. Returns the route for
    /// chained calls.
    pub fn uri_insert(&mut self, param: &str) -> (r: &mut CompiledRoute)
        ensures
            r@ == with_path_param(old(self)@, param@),
            *final(self) == *final(r),
    {
        let pat = text_of("{}");
        proof {
            reveal_strlit("{}");
            assert(pat@ =~= placeholder());
        }
        let uri = replace_first_of(self.uri.as_str(), pat.as_str(), param);
        self.uri = uri;
        self
    }

    /// Appends a query parameter; repeated names are kept, in order.
    /// Returns the route for chained calls.
    pub fn query_insert(&mut self, name: &str, value: &str) -> (r: &mut CompiledRoute)
        ensures
            r@ == with_query_param(old(self)@, name@, value@),
            *final(self) == *final(r),
    {
        let pair = (text_of(name), text_of(value));
        self.params.push(pair);
        assert(self@.params =~= old(self)@.params.push((name@, value@)));
        self
    }

    /// The full url of this route under the base url `base`: the base, the
    /// path, then the query string.
    pub fn url(&self, base: &str) -> (r: String)
        ensures
            r@ == base@ + self@.uri + query_text(self@.params),
    {
        let query = self.build_query();
        String::from_str(base).concat(self.uri.as_str()).concat(query.as_str())
    }

    /// Builds the query string of this route, i.e. `?a=b&c=d`, or an empty
    /// string when there are no parameters.
    pub fn build_query(&self) -> (r: String)
        ensures
            r@ == query_text(self@.params),
    {
        let ghost ps = self@.params;
        let eq = text_of("=");
        let amp = text_of("&");
        proof {
            reveal_strlit("=");
            reveal_strlit("&");
        }
        let mut acc = String::new();
        let n = self.params.len();
        let mut i: usize = 0;
        while i < n
            invariant
                n == self.params.len(),
                ps == self@.params,
                ps.len() == n,
                i <= n,
                eq@ == seq!['='],
                amp@ == seq!['&'],
                acc@ == joined(ps.take(i as int)),
            decreases n - i,
        {
            let ghost before = acc@;
            if i > 0 {
                acc.append(amp.as_str());
            }
            acc.append(self.params[i].0.as_str());
            acc.append(eq.as_str());
            acc.append(self.params[i].1.as_str());
            proof {
                let t = ps.take(i + 1);
                assert(t.drop_last() =~= ps.take(i as int));
                assert(t.last() == ps[i as int]);
                if i == 0 {
                    assert(before =~= Seq::<char>::empty());
                    assert(acc@ =~= pair_text(ps[0]));
                } else {
                    assert(acc@ =~= joined(ps.take(i as int)) + seq!['&'] + pair_text(ps[i as int]));
                }
            }
            i = i + 1;
        }
        assert(ps.take(n as int) =~= ps);
        if n == 0 {
            acc
        } else {
            let q = text_of("?");
            proof {
                reveal_strlit("?");
            }
            q.concat(acc.as_str())
        }
    }
}

/// No character of `s` opens a brace.
pub open spec fn brace_free(s: Seq<char>) -> bool {
    forall|i: int| 0 <= i < s.len() ==> s[i] != '{'
}

/// A path made of the segments `segs` with a placeholder between each two
/// of them, where the first `vals.len()` placeholders hold `vals`.
pub open spec fn filled(segs: Seq<Seq<char>>, vals: Seq<Seq<char>>) -> Seq<char>
    decreases segs.len(),
{
    if segs.len() == 0 {
        Seq::empty()
    } else if segs.len() == 1 {
        segs[0]
    } else if vals.len() == 0 {
        segs[0] + placeholder() + filled(segs.drop_first(), vals)
    } else {
        segs[0] + vals[0] + filled(segs.drop_first(), vals.drop_first())
    }
}

/// The path template with the segments `segs`: one placeholder between
/// each two of them.
pub open spec fn template(segs: Seq<Seq<char>>) -> Seq<char> {
    filled(segs, Seq::empty())
}

/// A path after inserting `vals` as path parameters, one after the other.
pub open spec fn insert_all(uri: Seq<char>, vals: Seq<Seq<char>>) -> Seq<char>
    decreases vals.len(),
{
    if vals.len() == 0 {
        uri
    } else {
        insert_all(replace_first(uri, placeholder(), vals[0]), vals.drop_first())
    }
}

proof fn lemma_replace_after_prefix(p: Seq<char>, x: Seq<char>, v: Seq<char>)
    requires
        brace_free(p),
    ensures
        replace_first(p + x, placeholder(), v) == p + replace_first(x, placeholder(), v),
{
    let ph = placeholder();
    let s = p + x;
    assert forall|j: int| 0 <= j < p.len() implies !occurs_at(s, ph, j) by {
        if occurs_at(s, ph, j) {
            assert(s.subrange(j, j + 2)[0] == ph[0]);
            assert(s[j] == p[j]);
        }
    }
    assert forall|j: int| 0 <= j < x.len() implies occurs_at(s, ph, j + p.len()) == occurs_at(x, ph, j) by {
        if j + 2 <= x.len() {
            assert(s.subrange(j + p.len(), j + p.len() + 2) =~= x.subrange(j, j + 2));
        }
    }
    if exists|i: int| first_occurrence(x, ph, i) {
        let i = choose|i: int| first_occurrence(x, ph, i);
        let k = i + p.len();
        assert(occurs_at(s, ph, k)) by {
            assert(s.subrange(k, k + 2) =~= x.subrange(i, i + 2));
        }
        assert forall|j: int| 0 <= j < k implies !occurs_at(s, ph, j) by {
            if j >= p.len() {
                assert(occurs_at(s, ph, j) == occurs_at(x, ph, j - p.len()));
            }
        }
        assert(first_occurrence(s, ph, k));
        let k2 = choose|k2: int| first_occurrence(s, ph, k2);
        lemma_first_occurrence_unique(s, ph, k, k2);
        assert(s.subrange(0, k) + v + s.subrange(k + 2, s.len() as int) =~= p + (x.subrange(0, i)
            + v + x.subrange(i + 2, x.len() as int)));
    } else {
        if exists|k: int| first_occurrence(s, ph, k) {
            let k = choose|k: int| first_occurrence(s, ph, k);
            let i = k - p.len();
            assert(occurs_at(x, ph, i));
            assert forall|j: int| 0 <= j < i implies !occurs_at(x, ph, j) by {
                assert(!occurs_at(s, ph, j + p.len()));
            }
            assert(first_occurrence(x, ph, i));
        }
    }
}

proof fn lemma_replace_at_front(y: Seq<char>, v: Seq<char>)
    ensures
        replace_first(placeholder() + y, placeholder(), v) == v + y,
{
    let ph = placeholder();
    let s = ph + y;
    assert(s.subrange(0, 2) =~= ph);
    assert(first_occurrence(s, ph, 0));
    let k = choose|k: int| first_occurrence(s, ph, k);
    lemma_first_occurrence_unique(s, ph, 0, k);
    assert(s.subrange(0, 0) + v + s.subrange(2, s.len() as int) =~= v + y);
}

proof fn lemma_fill_next(segs: Seq<Seq<char>>, w: Seq<Seq<char>>, v: Seq<char>)
    requires
        w.len() + 1 < segs.len(),
        forall|i: int| 0 <= i < segs.len() ==> brace_free(#[trigger] segs[i]),
        forall|i: int| 0 <= i < w.len() ==> brace_free(#[trigger] w[i]),
    ensures
        replace_first(filled(segs, w), placeholder(), v) == filled(segs, w.push(v)),
    decreases segs.len(),
{
    assert(brace_free(segs[0]));
    let rest = segs.drop_first();
    if w.len() == 0 {
        lemma_replace_after_prefix(segs[0], placeholder() + filled(rest, w), v);
        lemma_replace_at_front(filled(rest, w), v);
        assert(w.push(v).drop_first() =~= Seq::<Seq<char>>::empty());
        assert(segs[0] + (placeholder() + filled(rest, w)) =~= segs[0] + placeholder() + filled(rest, w));
        assert(segs[0] + (v + filled(rest, w)) =~= segs[0] + v + filled(rest, w));
        assert(w.push(v)[0] == v);
        assert(w =~= Seq::<Seq<char>>::empty());
        assert(filled(segs, w) == segs[0] + placeholder() + filled(rest, w));
        assert(filled(segs, w.push(v)) == segs[0] + v + filled(rest, w.push(v).drop_first()));
    } else {
        let p = segs[0] + w[0];
        assert(brace_free(w[0]));
        assert(brace_free(p));
        lemma_fill_next(rest, w.drop_first(), v);
        lemma_replace_after_prefix(p, filled(rest, w.drop_first()), v);
        assert(w.push(v).drop_first() =~= w.drop_first().push(v));
        assert(w.push(v)[0] == w[0]);
        assert(filled(segs, w) == segs[0] + w[0] + filled(rest, w.drop_first()));
        assert(filled(segs, w.push(v)) == segs[0] + w[0] + filled(rest, w.drop_first().push(v)));
        assert(p + filled(rest, w.drop_first()) =~= segs[0] + w[0] + filled(rest, w.drop_first()));
        assert(p + filled(rest, w.drop_first().push(v)) =~= segs[0] + w[0] + filled(
            rest,
            w.drop_first().push(v),
        ));
        assert(replace_first(filled(segs, w), placeholder(), v) == p + filled(rest, w.drop_first().push(v)));
    }
}

proof fn lemma_fill_rest(segs: Seq<Seq<char>>, vals: Seq<Seq<char>>, k: int)
    requires
        0 <= k <= vals.len(),
        vals.len() < segs.len(),
        forall|i: int| 0 <= i < segs.len() ==> brace_free(#[trigger] segs[i]),
        forall|i: int| 0 <= i < vals.len() ==> brace_free(#[trigger] vals[i]),
    ensures
        insert_all(filled(segs, vals.take(k)), vals.skip(k)) == filled(segs, vals),
    decreases vals.len() - k,
{
    if k == vals.len() {
        assert(vals.take(k) =~= vals);
    } else {
        let w = vals.take(k);
        lemma_fill_next(segs, w, vals[k]);
        assert(w.push(vals[k]) =~= vals.take(k + 1));
        assert(vals.skip(k).drop_first() =~= vals.skip(k + 1));
        assert(vals.skip(k)[0] == vals[k]);
        lemma_fill_rest(segs, vals, k + 1);
    }
}

proof fn lemma_filled_brace_free(segs: Seq<Seq<char>>, vals: Seq<Seq<char>>)
    requires
        segs.len() == vals.len() + 1,
        forall|i: int| 0 <= i < segs.len() ==> brace_free(#[trigger] segs[i]),
        forall|i: int| 0 <= i < vals.len() ==> brace_free(#[trigger] vals[i]),
    ensures
        brace_free(filled(segs, vals)),
    decreases segs.len(),
{
    assert(brace_free(segs[0]));
    if segs.len() > 1 {
        assert(brace_free(vals[0]));
        lemma_filled_brace_free(segs.drop_first(), vals.drop_first());
        let a = segs[0] + vals[0];
        assert(brace_free(a));
    }
}

proof fn lemma_insert_into_brace_free(uri: Seq<char>, vals: Seq<Seq<char>>)
    requires
        brace_free(uri),
    ensures
        insert_all(uri, vals) == uri,
    decreases vals.len(),
{
    if vals.len() > 0 {
        if exists|i: int| first_occurrence(uri, placeholder(), i) {
            let i = choose|i: int| first_occurrence(uri, placeholder(), i);
            assert(uri.subrange(i, i + 2)[0] == placeholder()[0]);
        }
        lemma_insert_into_brace_free(uri, vals.drop_first());
    }
}

/// Path parameters fill the placeholders of a template strictly from left
/// to right, one per insertion: after `k` insertions into a template with
/// more than `k` placeholders, the first `k` hold the values in order and
/// the rest stay in the path as written. This holds when neither the
/// template's segments nor the values contain `{`.
pub proof fn lemma_path_params_fill_in_order(segs: Seq<Seq<char>>, vals: Seq<Seq<char>>)
    requires
        vals.len() < segs.len(),
        forall|i: int| 0 <= i < segs.len() ==> brace_free(#[trigger] segs[i]),
        forall|i: int| 0 <= i < vals.len() ==> brace_free(#[trigger] vals[i]),
    ensures
        insert_all(template(segs), vals) == filled(segs, vals),
{
    lemma_fill_rest(segs, vals, 0);
    assert(vals.take(0) =~= Seq::<Seq<char>>::empty());
    assert(vals.skip(0) =~= vals);
}

/// Once every placeholder holds a value, further path parameters change
/// nothing.
pub proof fn lemma_excess_path_params_ignored(
    segs: Seq<Seq<char>>,
    vals: Seq<Seq<char>>,
    extra: Seq<Seq<char>>,
)
    requires
        segs.len() == vals.len() + 1,
        forall|i: int| 0 <= i < segs.len() ==> brace_free(#[trigger] segs[i]),
        forall|i: int| 0 <= i < vals.len() ==> brace_free(#[trigger] vals[i]),
    ensures
        insert_all(filled(segs, vals), extra) == filled(segs, vals),
{
    lemma_filled_brace_free(segs, vals);
    lemma_insert_into_brace_free(filled(segs, vals), extra);
}

// The route table.

/// The create key endpoint `POST /keys`.
pub fn create_key_route() -> (r: Route)
    ensures
        r.method == Method::POST,
        r.uri@ == "/keys"@,
{
    Route::new(Method::POST, "/keys")
}

/// The verify key endpoint `POST /keys/verify`.
pub fn verify_key_route() -> (r: Route)
    ensures
        r.method == Method::POST,
        r.uri@ == "/keys/verify"@,
{
    Route::new(Method::POST, "/keys/verify")
}

/// The revoke key endpoint `DELETE /keys/{id}`.
pub fn revoke_key_route() -> (r: Route)
    ensures
        r.method == Method::DELETE,
        r.uri@ == "/keys/{}"@,
{
    Route::new(Method::DELETE, "/keys/{}")
}

/// The update key endpoint `PUT /keys/{id}`.
pub fn update_key_route() -> (r: Route)
    ensures
        r.method == Method::PUT,
        r.uri@ == "/keys/{}"@,
{
    Route::new(Method::PUT, "/keys/{}")
}

/// The get key endpoint `GET /keys/{id}`.
pub fn get_key_route() -> (r: Route)
    ensures
        r.method == Method::GET,
        r.uri@ == "/keys/{}"@,
{
    Route::new(Method::GET, "/keys/{}")
}

/// The update remaining endpoint `POST /keys/{id}/remaining`.
pub fn update_remaining_route() -> (r: Route)
    ensures
        r.method == Method::POST,
        r.uri@ == "/keys/{}/remaining"@,
{
    Route::new(Method::POST, "/keys/{}/remaining")
}

/// The get api endpoint `GET /apis/{id}`.
pub fn get_api_route() -> (r: Route)
    ensures
        r.method == Method::GET,
        r.uri@ == "/apis/{}"@,
{
    Route::new(Method::GET, "/apis/{}")
}

/// The delete api endpoint `DELETE /apis/{id}`.
pub fn delete_api_route() -> (r: Route)
    ensures
        r.method == Method::DELETE,
        r.uri@ == "/apis/{}"@,
{
    Route::new(Method::DELETE, "/apis/{}")
}

/// The list keys endpoint `GET /apis/{id}/keys`.
pub fn list_keys_route() -> (r: Route)
    ensures
        r.method == Method::GET,
        r.uri@ == "/apis/{}/keys"@,
{
    Route::new(Method::GET, "/apis/{}/keys")
}

} // verus!
