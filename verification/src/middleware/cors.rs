//! The CORS policy decision: wildcard detection, syntactic validation of
//! origins, methods and headers, and construction of the outside layer.

use vstd::prelude::*;

use crate::config::CorsConfig;
use crate::error::{Error, MiddlewareError};
use crate::ext::str_eq;

verus! {

/// Whether `axum::http::HeaderValue::from_str` accepts a string; the answer
/// depends on the string alone.
pub uninterp spec fn header_value_ok(s: Seq<char>) -> bool;

/// Whether `axum::http::Method::from_str` accepts a string; the answer
/// depends on the string alone.
pub uninterp spec fn method_ok(s: Seq<char>) -> bool;

/// Whether `axum::http::HeaderName::from_str` accepts a string; the answer
/// depends on the string alone.
pub uninterp spec fn header_name_ok(s: Seq<char>) -> bool;

pub open spec fn origin_pred() -> spec_fn(Seq<char>) -> bool {
    |s: Seq<char>| header_value_ok(s)
}

pub open spec fn method_pred() -> spec_fn(Seq<char>) -> bool {
    |s: Seq<char>| method_ok(s)
}

pub open spec fn header_pred() -> spec_fn(Seq<char>) -> bool {
    |s: Seq<char>| header_name_ok(s)
}

/// Whether some entry is the `"*"` sentinel.
pub open spec fn has_wildcard(v: Seq<String>) -> bool {
    exists|i: int| 0 <= i < v.len() && v[i]@ == "*"@
}

/// Whether every entry satisfies the given syntactic check.
pub open spec fn all_ok(v: Seq<String>, ok: spec_fn(Seq<char>) -> bool) -> bool {
    forall|i: int| 0 <= i < v.len() ==> ok(v[i]@)
}

/// The first entry that fails the given syntactic check, if any.
pub open spec fn first_invalid(v: Seq<String>, ok: spec_fn(Seq<char>) -> bool) -> Option<String>
    decreases v.len(),
{
    if v.len() == 0 {
        None
    } else if !ok(v[0]@) {
        Some(v[0])
    } else {
        first_invalid(v.drop_first(), ok)
    }
}

pub proof fn lemma_first_invalid_none(v: Seq<String>, ok: spec_fn(Seq<char>) -> bool)
    requires
        all_ok(v, ok),
    ensures
        first_invalid(v, ok) is None,
    decreases v.len(),
{
    if v.len() > 0 {
        assert(forall|i: int| 0 <= i < v.drop_first().len() ==> ok(v.drop_first()[i]@));
        lemma_first_invalid_none(v.drop_first(), ok);
    }
}

pub proof fn lemma_first_invalid_at(v: Seq<String>, ok: spec_fn(Seq<char>) -> bool, i: int)
    requires
        0 <= i < v.len(),
        forall|j: int| 0 <= j < i ==> ok(v[j]@),
        !ok(v[i]@),
    ensures
        first_invalid(v, ok) == Some(v[i]),
    decreases i,
{
    if i == 0 {
    } else {
        assert(forall|j: int| 0 <= j < i - 1 ==> ok(v.drop_first()[j]@));
        assert(v.drop_first()[i - 1] == v[i]);
        lemma_first_invalid_at(v.drop_first(), ok, i - 1);
    }
}

/// Whether a full CORS section can be turned into a layer: origins must all
/// parse unless the wildcard is present (then the list is ignored), methods
/// must all parse, and likewise for headers.
pub open spec fn cors_config_ok(c: CorsConfig) -> bool {
    &&& (has_wildcard(c.origins@) || all_ok(c.origins@, origin_pred()))
    &&& all_ok(c.methods@, method_pred())
    &&& (has_wildcard(c.headers@) || all_ok(c.headers@, header_pred()))
}

/// How the layer will answer origin checks: any origin, or exactly the
/// configured list.
pub enum OriginPolicy {
    AnyOrigin,
    Exact(Vec<String>),
}

/// How the layer will answer header checks: any header, or exactly the
/// configured list.
pub enum HeaderPolicy {
    AnyHeader,
    Exact(Vec<String>),
}

/// Relies on axum::http::HeaderValue::from_str: whether a string is accepted
/// as a header value depends on the string alone.
#[verifier::external_body]
fn parse_header_value(s: &str) -> (r: Option<axum::http::HeaderValue>)
    ensures
        r is Some <==> header_value_ok(s@),
{
    s.parse::<axum::http::HeaderValue>().ok()
}

/// Relies on axum::http::Method::from_str: whether a string is accepted as a
/// method token depends on the string alone.
#[verifier::external_body]
fn parse_method(s: &str) -> (r: Option<axum::http::Method>)
    ensures
        r is Some <==> method_ok(s@),
{
    s.parse::<axum::http::Method>().ok()
}

/// Relies on axum::http::HeaderName::from_str: whether a string is accepted
/// as a header name depends on the string alone.
#[verifier::external_body]
fn parse_header_name(s: &str) -> (r: Option<axum::http::HeaderName>)
    ensures
        r is Some <==> header_name_ok(s@),
{
    s.parse::<axum::http::HeaderName>().ok()
}

/// Relies on tower_http::cors::CorsLayer::new: a fresh layer that allows
/// nothing until told otherwise.
#[verifier::external_body]
fn cors_layer_new() -> tower_http::cors::CorsLayer {
    tower_http::cors::CorsLayer::new()
}

/// Relies on tower_http::cors::CorsLayer::allow_origin with Any: the layer
/// then allows every origin.
#[verifier::external_body]
fn cors_allow_any_origin(l: tower_http::cors::CorsLayer) -> tower_http::cors::CorsLayer {
    l.allow_origin(tower_http::cors::Any)
}

/// Relies on tower_http::cors::CorsLayer::allow_origin with a list: the layer
/// then allows exactly the listed origins. `AllowOrigin`'s list constructor
/// panics on a `"*"` entry and the parses must succeed, so both are required
/// here.
#[verifier::external_body]
fn cors_allow_origin_list(l: tower_http::cors::CorsLayer, origins: &Vec<String>) -> tower_http::cors::CorsLayer
    requires
        !has_wildcard(origins@),
        all_ok(origins@, origin_pred()),
{
    let vals: Vec<axum::http::HeaderValue> =
        origins.iter().map(|o| o.parse().unwrap()).collect();
    l.allow_origin(vals)
}

/// Relies on tower_http::cors::CorsLayer::allow_methods with a list: the
/// layer then allows exactly the listed methods. The parses must succeed.
#[verifier::external_body]
fn cors_allow_method_list(l: tower_http::cors::CorsLayer, methods: &Vec<String>) -> tower_http::cors::CorsLayer
    requires
        all_ok(methods@, method_pred()),
{
    let vals: Vec<axum::http::Method> =
        methods.iter().map(|m| m.parse().unwrap()).collect();
    l.allow_methods(vals)
}

/// Relies on tower_http::cors::CorsLayer::allow_headers with Any: the layer
/// then allows every request header.
#[verifier::external_body]
fn cors_allow_any_headers(l: tower_http::cors::CorsLayer) -> tower_http::cors::CorsLayer {
    l.allow_headers(tower_http::cors::Any)
}

/// Relies on tower_http::cors::CorsLayer::allow_headers with a list: the
/// layer then allows exactly the listed headers. The parses must succeed.
#[verifier::external_body]
fn cors_allow_header_list(l: tower_http::cors::CorsLayer, headers: &Vec<String>) -> tower_http::cors::CorsLayer
    requires
        all_ok(headers@, header_pred()),
{
    let vals: Vec<axum::http::HeaderName> =
        headers.iter().map(|h| h.parse().unwrap()).collect();
    l.allow_headers(vals)
}

/// Whether the list contains the `"*"` sentinel.
pub fn contains_wildcard(v: &Vec<String>) -> (b: bool)
    ensures
        b == has_wildcard(v@),
{
    let mut i: usize = 0;
    while i < v.len()
        invariant
            i <= v@.len(),
            forall|j: int| 0 <= j < i ==> v@[j]@ != "*"@,
        decreases v@.len() - i,
    {
        if str_eq(v[i].as_str(), "*") {
            return true;
        }
        i += 1;
    }
    false
}

/// Decides the origin side of the policy: a `"*"` entry wins and yields
/// "allow any"; otherwise every origin must be a valid header value and the
/// exact list is kept; the first invalid origin fails the policy.
pub fn origin_policy(origins: &Vec<String>) -> (r: Result<OriginPolicy, Error>)
    ensures
        has_wildcard(origins@) ==> r == Result::<OriginPolicy, Error>::Ok(OriginPolicy::AnyOrigin),
        !has_wildcard(origins@) ==> match first_invalid(origins@, origin_pred()) {
            Some(bad) => r == Result::<OriginPolicy, Error>::Err(
                Error::Middleware(MiddlewareError::InvalidPolicy(bad)),
            ),
            None => match r {
                Ok(OriginPolicy::Exact(list)) => list@ == origins@,
                _ => false,
            },
        },
        r is Ok <==> has_wildcard(origins@) || all_ok(origins@, origin_pred()),
{
    if contains_wildcard(origins) {
        return Ok(OriginPolicy::AnyOrigin);
    }
    let mut i: usize = 0;
    while i < origins.len()
        invariant
            i <= origins@.len(),
            !has_wildcard(origins@),
            forall|j: int| 0 <= j < i ==> #[trigger] origin_pred()(origins@[j]@),
        decreases origins@.len() - i,
    {
        if parse_header_value(origins[i].as_str()).is_none() {
            proof {
                lemma_first_invalid_at(origins@, origin_pred(), i as int);
            }
            return Err(Error::Middleware(MiddlewareError::InvalidPolicy(origins[i].clone())));
        }
        i += 1;
    }
    proof {
        lemma_first_invalid_none(origins@, origin_pred());
    }
    Ok(OriginPolicy::Exact(origins.clone()))
}

/// Checks that every configured method parses; the first invalid one fails
/// the policy.
pub fn method_policy(methods: &Vec<String>) -> (r: Result<(), Error>)
    ensures
        match first_invalid(methods@, method_pred()) {
            Some(bad) => r == Result::<(), Error>::Err(
                Error::Middleware(MiddlewareError::InvalidPolicy(bad)),
            ),
            None => r is Ok,
        },
        r is Ok <==> all_ok(methods@, method_pred()),
{
    let mut i: usize = 0;
    while i < methods.len()
        invariant
            i <= methods@.len(),
            forall|j: int| 0 <= j < i ==> #[trigger] method_pred()(methods@[j]@),
        decreases methods@.len() - i,
    {
        if parse_method(methods[i].as_str()).is_none() {
            proof {
                lemma_first_invalid_at(methods@, method_pred(), i as int);
            }
            return Err(Error::Middleware(MiddlewareError::InvalidPolicy(methods[i].clone())));
        }
        i += 1;
    }
    proof {
        lemma_first_invalid_none(methods@, method_pred());
    }
    Ok(())
}

/// Decides the header side of the policy, with the same wildcard rule as for
/// origins.
pub fn header_policy(headers: &Vec<String>) -> (r: Result<HeaderPolicy, Error>)
    ensures
        has_wildcard(headers@) ==> r == Result::<HeaderPolicy, Error>::Ok(HeaderPolicy::AnyHeader),
        !has_wildcard(headers@) ==> match first_invalid(headers@, header_pred()) {
            Some(bad) => r == Result::<HeaderPolicy, Error>::Err(
                Error::Middleware(MiddlewareError::InvalidPolicy(bad)),
            ),
            None => match r {
                Ok(HeaderPolicy::Exact(list)) => list@ == headers@,
                _ => false,
            },
        },
        r is Ok <==> has_wildcard(headers@) || all_ok(headers@, header_pred()),
{
    if contains_wildcard(headers) {
        return Ok(HeaderPolicy::AnyHeader);
    }
    let mut i: usize = 0;
    while i < headers.len()
        invariant
            i <= headers@.len(),
            !has_wildcard(headers@),
            forall|j: int| 0 <= j < i ==> #[trigger] header_pred()(headers@[j]@),
        decreases headers@.len() - i,
    {
        if parse_header_name(headers[i].as_str()).is_none() {
            proof {
                lemma_first_invalid_at(headers@, header_pred(), i as int);
            }
            return Err(Error::Middleware(MiddlewareError::InvalidPolicy(headers[i].clone())));
        }
        i += 1;
    }
    proof {
        lemma_first_invalid_none(headers@, header_pred());
    }
    Ok(HeaderPolicy::Exact(headers.clone()))
}

/// Builds the CORS layer from the configuration. Origins are decided first,
/// then methods, then headers; the first syntactically invalid entry aborts
/// with an invalid-policy error, and wildcard entries yield the allow-any
/// behavior for their category.
pub fn create_cors_layer(config: &CorsConfig) -> (r: Result<tower_http::cors::CorsLayer, Error>)
    ensures
        r is Ok <==> cors_config_ok(*config),
        r is Err ==> (r->Err_0 matches Error::Middleware(MiddlewareError::InvalidPolicy(_))),
        !has_wildcard(config.origins@) ==> (first_invalid(
            config.origins@,
            origin_pred(),
        ) matches Some(bad) ==> r == Result::<tower_http::cors::CorsLayer, Error>::Err(
            Error::Middleware(MiddlewareError::InvalidPolicy(bad)),
        )),
        (has_wildcard(config.origins@) || all_ok(config.origins@, origin_pred())) ==> (
        first_invalid(config.methods@, method_pred()) matches Some(bad) ==> r == Result::<
            tower_http::cors::CorsLayer,
            Error,
        >::Err(Error::Middleware(MiddlewareError::InvalidPolicy(bad)))),
{
    let op = origin_policy(&config.origins)?;
    method_policy(&config.methods)?;
    let hp = header_policy(&config.headers)?;
    let mut layer = cors_layer_new();
    layer = match op {
        OriginPolicy::AnyOrigin => cors_allow_any_origin(layer),
        OriginPolicy::Exact(list) => cors_allow_origin_list(layer, &list),
    };
    layer = cors_allow_method_list(layer, &config.methods);
    layer = match hp {
        HeaderPolicy::AnyHeader => cors_allow_any_headers(layer),
        HeaderPolicy::Exact(list) => cors_allow_header_list(layer, &list),
    };
    Ok(layer)
}

/// A `"*"` among the origins wins over the rest of the list: the policy then
/// ignores whether the other origins would parse, so only methods and headers
/// can still fail.
pub proof fn lemma_cors_wildcard_origin(c: CorsConfig)
    requires
        has_wildcard(c.origins@),
    ensures
        cors_config_ok(c) <==> (all_ok(c.methods@, method_pred()) && (has_wildcard(c.headers@)
            || all_ok(c.headers@, header_pred()))),
{
}

/// Without a wildcard, a single invalid origin makes the whole CORS section
/// invalid, so building the layer (and with it the server) must fail.
pub proof fn lemma_cors_invalid_origin(c: CorsConfig)
    requires
        !has_wildcard(c.origins@),
        !all_ok(c.origins@, origin_pred()),
    ensures
        !cors_config_ok(c),
{
}

} // verus!
