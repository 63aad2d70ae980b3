//! The fluent request builder: accumulates filters, sort and pagination as
//! wire query parameters, and resolves the request URL.
//!
//! Every setter takes the builder by value and returns it, so a chain can be
//! branched by cloning at any step; a later write to a key replaces the
//! earlier one.
use crate::client::GleifClient;
use crate::error::GleifError;
use crate::filter::{encode, Filter, FilterSpec};
use crate::query::QueryMap;
use crate::text::{joined, owned};
use vstd::prelude::*;

verus! {

/// HTTP methods that requests use.
#[derive(Debug, Clone, Copy, PartialEq, Eq, Structural)]
pub enum HttpMethod {
    /// `GET`
    Get,
    /// `POST`
    Post,
    /// `PUT`
    Put,
    /// `DELETE`
    Delete,
}

/// What a builder holds, as values: method, path and query.
pub struct RequestShape {
    /// The HTTP method.
    pub method: HttpMethod,
    /// The path, relative to the client's base URL.
    pub path: Seq<char>,
    /// Wire keys mapped to wire values.
    pub query: Map<Seq<char>, Seq<char>>,
}

/// The wire key of a filter on `field`: `filter[<field>]`.
pub open spec fn filter_key(field: Seq<char>) -> Seq<char> {
    "filter["@ + field + "]"@
}

/// Filtering twice on one field leaves one key for it, holding the later
/// filter's wire string; on an empty query, that key is the only one.
pub proof fn lemma_last_write_wins(
    query: Map<Seq<char>, Seq<char>>,
    field: Seq<char>,
    first: FilterSpec,
    second: FilterSpec,
)
    ensures
        query.insert(filter_key(field), encode(first)).insert(filter_key(field), encode(second))
            == query.insert(filter_key(field), encode(second)),
        query == Map::<Seq<char>, Seq<char>>::empty() ==> query.insert(
            filter_key(field),
            encode(first),
        ).insert(filter_key(field), encode(second)).dom() == set![filter_key(field)],
{
    let k = filter_key(field);
    assert(query.insert(k, encode(first)).insert(k, encode(second)) =~= query.insert(k, encode(second)));
    if query == Map::<Seq<char>, Seq<char>>::empty() {
        assert(query.insert(k, encode(second)).dom() =~= set![k]);
    }
}

/// The character sequences of a list of string slices.
pub open spec fn str_texts(vs: Seq<&str>) -> Seq<Seq<char>> {
    vs.map_values(|s: &str| s@)
}

/// The decimal digits of `n`.
pub open spec fn decimal(n: nat) -> Seq<char>
    decreases n,
{
    if n < 10 {
        seq![digit_char(n)]
    } else {
        decimal(n / 10).push(digit_char(n % 10))
    }
}

/// The digit character of `d` (below ten).
pub open spec fn digit_char(d: nat) -> char {
    if d == 0 { '0' }
    else if d == 1 { '1' }
    else if d == 2 { '2' }
    else if d == 3 { '3' }
    else if d == 4 { '4' }
    else if d == 5 { '5' }
    else if d == 6 { '6' }
    else if d == 7 { '7' }
    else if d == 8 { '8' }
    else { '9' }
}

fn digit_text(d: usize) -> (r: &'static str)
    requires
        d < 10,
    ensures
        r@ == seq![digit_char(d as nat)],
{
    proof {
        reveal_strlit("0");
        reveal_strlit("1");
        reveal_strlit("2");
        reveal_strlit("3");
        reveal_strlit("4");
        reveal_strlit("5");
        reveal_strlit("6");
        reveal_strlit("7");
        reveal_strlit("8");
        reveal_strlit("9");
    }
    if d == 0 { "0" }
    else if d == 1 { "1" }
    else if d == 2 { "2" }
    else if d == 3 { "3" }
    else if d == 4 { "4" }
    else if d == 5 { "5" }
    else if d == 6 { "6" }
    else if d == 7 { "7" }
    else if d == 8 { "8" }
    else { "9" }
}

/// The decimal text of `n`.
pub fn decimal_text(n: usize) -> (r: String)
    ensures
        r@ == decimal(n as nat),
    decreases n,
{
    if n < 10 {
        owned(digit_text(n))
    } else {
        let mut r = decimal_text(n / 10);
        r.append(digit_text(n % 10));
        r
    }
}

/// Builder for one request to the API.
#[derive(Debug)]
pub struct GleifRequestBuilder {
    client: GleifClient,
    method: HttpMethod,
    path: String,
    query: QueryMap,
}

impl View for GleifRequestBuilder {
    type V = RequestShape;

    closed spec fn view(&self) -> RequestShape {
        RequestShape { method: self.method, path: self.path@, query: self.query@ }
    }
}

impl Clone for GleifRequestBuilder {
    /// An independent copy: later changes to either leave the other as it is.
    fn clone(&self) -> (r: GleifRequestBuilder)
        ensures
            r@ == self@,
            r.wf() == self.wf(),
            r.client_view().base_url_view() == self.client_view().base_url_view(),
    {
        GleifRequestBuilder {
            client: self.client.clone_client(),
            method: self.method,
            path: self.path.clone(),
            query: self.query.clone(),
        }
    }
}

impl GleifRequestBuilder {
    /// The builder's invariant: its query holds each key once.
    pub closed spec fn wf(&self) -> bool {
        self.query.wf()
    }

    /// The client that the request goes through.
    pub closed spec fn client_view(&self) -> GleifClient {
        self.client
    }

    /// A builder for `method` on `path`, with an empty query.
    pub fn new(client: GleifClient, method: HttpMethod, path: &str) -> (r: GleifRequestBuilder)
        ensures
            r.wf(),
            r@.method == method,
            r@.path == path@,
            r@.query == Map::<Seq<char>, Seq<char>>::empty(),
            r.client_view().base_url_view() == client.base_url_view(),
    {
        GleifRequestBuilder { client, method, path: owned(path), query: QueryMap::new() }
    }

    /// The path of the request.
    pub fn get_path(&self) -> (r: &str)
        ensures
            r@ == self@.path,
    {
        self.path.as_str()
    }

    /// The query parameters accumulated so far.
    pub fn get_query(&self) -> (r: &QueryMap)
        requires
            self.wf(),
        ensures
            r.wf(),
            r@ == self@.query,
    {
        &self.query
    }

    /// The HTTP method.
    pub fn method(&self) -> (r: HttpMethod)
        ensures
            r == self@.method,
    {
        self.method
    }

    /// The client.
    pub fn client(&self) -> (r: &GleifClient)
        ensures
            r.base_url_view() == self.client_view().base_url_view(),
    {
        &self.client
    }

    /// Sets query key `key` to `value`, replacing what the key held.
    pub fn param(self, key: &str, value: &str) -> (r: GleifRequestBuilder)
        requires
            self.wf(),
        ensures
            r.wf(),
            r@.method == self@.method,
            r@.path == self@.path,
            r@.query == self@.query.insert(key@, value@),
            r.client_view().base_url_view() == self.client_view().base_url_view(),
    {
        self.insert(owned(key), owned(value))
    }

    fn insert(self, key: String, value: String) -> (r: GleifRequestBuilder)
        requires
            self.wf(),
        ensures
            r.wf(),
            r@.method == self@.method,
            r@.path == self@.path,
            r@.query == self@.query.insert(key@, value@),
            r.client_view() == self.client_view(),
    {
        let mut b = self;
        b.query.insert(key, value);
        b
    }

    /// Sets the filter on `field` to `filter`, replacing any filter the field had.
    pub fn filter(self, field: &str, filter: &Filter) -> (r: GleifRequestBuilder)
        requires
            self.wf(),
        ensures
            r.wf(),
            r@.method == self@.method,
            r@.path == self@.path,
            r@.query == self@.query.insert(filter_key(field@), encode(filter@)),
            r.client_view().base_url_view() == self.client_view().base_url_view(),
    {
        let mut key = joined("filter[", field);
        key.append("]");
        self.insert(key, filter.encode())
    }

    /// Filter on an exact match: `filter[field]=value`.
    pub fn filter_eq(self, field: &str, value: &str) -> (r: GleifRequestBuilder)
        requires
            self.wf(),
        ensures
            r.wf(),
            r@.method == self@.method,
            r@.path == self@.path,
            r@.query == self@.query.insert(filter_key(field@), encode(FilterSpec::Eq(value@))),
            r.client_view().base_url_view() == self.client_view().base_url_view(),
    {
        self.filter(field, &Filter::Eq(owned(value)))
    }

    /// Filter on anything but `value`: `filter[field]=!value`.
    pub fn filter_not(self, field: &str, value: &str) -> (r: GleifRequestBuilder)
        requires
            self.wf(),
        ensures
            r.wf(),
            r@.method == self@.method,
            r@.path == self@.path,
            r@.query == self@.query.insert(filter_key(field@), encode(FilterSpec::Not(value@))),
            r.client_view().base_url_view() == self.client_view().base_url_view(),
    {
        self.filter(field, &Filter::Not(owned(value)))
    }

    /// Filter on any of `values`: `filter[field]=a,b,c`.
    pub fn filter_in(self, field: &str, values: &[&str]) -> (r: GleifRequestBuilder)
        requires
            self.wf(),
        ensures
            r.wf(),
            r@.method == self@.method,
            r@.path == self@.path,
            r@.query == self@.query.insert(
                filter_key(field@),
                encode(FilterSpec::In(str_texts(values@))),
            ),
            r.client_view().base_url_view() == self.client_view().base_url_view(),
    {
        let vs = owned_all(values);
        self.filter(field, &Filter::In(vs))
    }

    /// Filter on none of `values`: `filter[field]=!a,b,c`.
    pub fn filter_not_in(self, field: &str, values: &[&str]) -> (r: GleifRequestBuilder)
        requires
            self.wf(),
        ensures
            r.wf(),
            r@.method == self@.method,
            r@.path == self@.path,
            r@.query == self@.query.insert(
                filter_key(field@),
                encode(FilterSpec::NotIn(str_texts(values@))),
            ),
            r.client_view().base_url_view() == self.client_view().base_url_view(),
    {
        let vs = owned_all(values);
        self.filter(field, &Filter::NotIn(vs))
    }

    /// Filter on a range: `filter[field]=min..max`.
    pub fn filter_range(self, field: &str, min: &str, max: &str) -> (r: GleifRequestBuilder)
        requires
            self.wf(),
        ensures
            r.wf(),
            r@.method == self@.method,
            r@.path == self@.path,
            r@.query == self@.query.insert(
                filter_key(field@),
                encode(FilterSpec::Range(min@, max@)),
            ),
            r.client_view().base_url_view() == self.client_view().base_url_view(),
    {
        self.filter(field, &Filter::Range(owned(min), owned(max)))
    }

    /// Filter on greater than: `filter[field]=>value`.
    pub fn filter_gt(self, field: &str, value: &str) -> (r: GleifRequestBuilder)
        requires
            self.wf(),
        ensures
            r.wf(),
            r@.method == self@.method,
            r@.path == self@.path,
            r@.query == self@.query.insert(filter_key(field@), encode(FilterSpec::Gt(value@))),
            r.client_view().base_url_view() == self.client_view().base_url_view(),
    {
        self.filter(field, &Filter::Gt(owned(value)))
    }

    /// Filter on greater than or equal: `filter[field]=>=value`.
    pub fn filter_gte(self, field: &str, value: &str) -> (r: GleifRequestBuilder)
        requires
            self.wf(),
        ensures
            r.wf(),
            r@.method == self@.method,
            r@.path == self@.path,
            r@.query == self@.query.insert(filter_key(field@), encode(FilterSpec::Gte(value@))),
            r.client_view().base_url_view() == self.client_view().base_url_view(),
    {
        self.filter(field, &Filter::Gte(owned(value)))
    }

    /// Filter on less than: `filter[field]=<value`.
    pub fn filter_lt(self, field: &str, value: &str) -> (r: GleifRequestBuilder)
        requires
            self.wf(),
        ensures
            r.wf(),
            r@.method == self@.method,
            r@.path == self@.path,
            r@.query == self@.query.insert(filter_key(field@), encode(FilterSpec::Lt(value@))),
            r.client_view().base_url_view() == self.client_view().base_url_view(),
    {
        self.filter(field, &Filter::Lt(owned(value)))
    }

    /// Filter on less than or equal: `filter[field]=<=value`.
    pub fn filter_lte(self, field: &str, value: &str) -> (r: GleifRequestBuilder)
        requires
            self.wf(),
        ensures
            r.wf(),
            r@.method == self@.method,
            r@.path == self@.path,
            r@.query == self@.query.insert(filter_key(field@), encode(FilterSpec::Lte(value@))),
            r.client_view().base_url_view() == self.client_view().base_url_view(),
    {
        self.filter(field, &Filter::Lte(owned(value)))
    }

    /// Sort by `field`: `sort=field`.
    pub fn sort(self, field: &str) -> (r: GleifRequestBuilder)
        requires
            self.wf(),
        ensures
            r.wf(),
            r@.method == self@.method,
            r@.path == self@.path,
            r@.query == self@.query.insert("sort"@, field@),
            r.client_view().base_url_view() == self.client_view().base_url_view(),
    {
        self.insert(owned("sort"), owned(field))
    }

    /// The page to fetch, counting from 1: `page[number]=n`.
    pub fn page_number(self, number: usize) -> (r: GleifRequestBuilder)
        requires
            self.wf(),
        ensures
            r.wf(),
            r@.method == self@.method,
            r@.path == self@.path,
            r@.query == self@.query.insert("page[number]"@, decimal(number as nat)),
            r.client_view().base_url_view() == self.client_view().base_url_view(),
    {
        self.insert(owned("page[number]"), decimal_text(number))
    }

    /// The number of records per page: `page[size]=n`.
    pub fn page_size(self, size: usize) -> (r: GleifRequestBuilder)
        requires
            self.wf(),
        ensures
            r.wf(),
            r@.method == self@.method,
            r@.path == self@.path,
            r@.query == self@.query.insert("page[size]"@, decimal(size as nat)),
            r.client_view().base_url_view() == self.client_view().base_url_view(),
    {
        self.insert(owned("page[size]"), decimal_text(size))
    }

    /// The full URL of the request: the client's base URL joined with the
    /// path. Succeeds exactly when the base URL parses and the path resolves
    /// against it; fails with [`GleifError::UrlParseError`] otherwise.
    pub fn build_url(&self) -> (r: Result<url::Url, GleifError>)
        ensures
            r is Ok <==> url_resolves(self.client_view().base_url_view(), self@.path),
            r is Err ==> r->Err_0 is UrlParseError,
    {
        url_join_result(resolve_url(self.client.base_url().as_str(), self.path.as_str()))
    }
}

/// The outcome of a URL join as the library reports it.
pub fn url_join_result(r: Result<url::Url, url::ParseError>) -> (out: Result<url::Url, GleifError>)
    ensures
        match r {
            Ok(u) => out == Ok::<url::Url, GleifError>(u),
            Err(e) => out == Err::<url::Url, GleifError>(GleifError::UrlParseError(e)),
        },
{
    match r {
        Ok(u) => Ok(u),
        Err(e) => Err(GleifError::UrlParseError(e)),
    }
}

/// Whether `url::Url::parse` accepts `base` and `url::Url::join` then
/// resolves `path` against it.
pub uninterp spec fn url_resolves(base: Seq<char>, path: Seq<char>) -> bool;

/// Relies on `url::Url::parse` of the base and `url::Url::join` of the path
/// onto it: the outcome depends on the two texts alone.
#[verifier::external_body]
fn resolve_url(base: &str, path: &str) -> (r: Result<url::Url, url::ParseError>)
    ensures
        r is Ok <==> url_resolves(base@, path@),
{
    match url::Url::parse(base) {
        Ok(b) => b.join(path),
        Err(e) => Err(e),
    }
}

/// Owned copies of a list of string slices.
fn owned_all(values: &[&str]) -> (r: Vec<String>)
    ensures
        crate::filter::texts(r@) == str_texts(values@),
{
    let mut r: Vec<String> = Vec::new();
    let mut i: usize = 0;
    while i < values.len()
        invariant
            i <= values@.len(),
            crate::filter::texts(r@) == str_texts(values@.subrange(0, i as int)),
        decreases values@.len() - i,
    {
        let ghost before = r@;
        r.push(owned(values[i]));
        assert(crate::filter::texts(r@) =~= crate::filter::texts(before).push(values@[i as int]@));
        assert(str_texts(values@.subrange(0, i + 1)) =~= str_texts(values@.subrange(0, i as int)).push(values@[i as int]@));
        i = i + 1;
    }
    assert(values@.subrange(0, values@.len() as int) =~= values@);
    r
}

} // verus!
