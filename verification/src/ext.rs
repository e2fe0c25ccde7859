//! Declarations of outside types that flow through the library, and small
//! trusted helpers over std that vstd gives no specification for.

use vstd::prelude::*;

verus! {

#[verifier::external_type_specification]
#[verifier::external_body]
pub struct ExTomlValue(toml::Value);

#[verifier::external_type_specification]
#[verifier::external_body]
#[verifier::reject_recursive_types(K)]
#[verifier::reject_recursive_types(V)]
pub struct ExTomlMap<K, V>(toml::map::Map<K, V>);

#[verifier::external_type_specification]
#[verifier::external_body]
pub struct ExJsonValue(serde_json::Value);

#[verifier::external_type_specification]
#[verifier::external_body]
#[verifier::reject_recursive_types(S)]
pub struct ExRouter<S>(axum::Router<S>);

#[verifier::external_type_specification]
#[verifier::external_body]
pub struct ExHeaderValue(axum::http::HeaderValue);

#[verifier::external_type_specification]
#[verifier::external_body]
pub struct ExHeaderName(axum::http::HeaderName);

#[verifier::external_type_specification]
#[verifier::external_body]
pub struct ExMethod(axum::http::Method);

#[verifier::external_type_specification]
#[verifier::external_body]
pub struct ExCorsLayer(tower_http::cors::CorsLayer);

#[verifier::external_type_specification]
#[verifier::external_body]
pub struct ExTera(tera::Tera);

#[verifier::external_type_specification]
#[verifier::external_body]
pub struct ExTeraContext(tera::Context);

/// Relies on std::path::Path::exists: a read-only check of the filesystem.
/// The answer depends on the machine's disk, so nothing is promised of it.
#[verifier::external_body]
pub fn path_exists(p: &str) -> bool {
    std::path::Path::new(p).exists()
}

/// Relies on str's PartialEq: two slices are equal exactly when their
/// character sequences are.
#[verifier::external_body]
pub fn str_eq(a: &str, b: &str) -> (r: bool)
    ensures
        r == (a@ == b@),
{
    a == b
}

} // verus!
