//! The cross-origin layer of the `tower_http` crate, as far as the library
//! relies on it: what a layer is set to, and the calls that set it.

use vstd::prelude::*;
use http::HeaderValue;
use tower_http::cors::{Any, CorsLayer};
use crate::header::{header_value_bytes, header_values_bytes};

verus! {

#[verifier::external_type_specification]
#[verifier::external_body]
pub struct ExCorsLayer(tower_http::cors::CorsLayer);

/// The origins that a layer is set to allow: the bytes of each, in the order
/// in which they were given. A caller is allowed if its `Origin` header is
/// equal to one of them.
pub uninterp spec fn cors_origin_list(layer: CorsLayer) -> Seq<Seq<u8>>;

/// Whether a layer is set to allow every request header.
pub uninterp spec fn cors_any_header(layer: CorsLayer) -> bool;

/// Whether a layer is set to allow every request method.
pub uninterp spec fn cors_any_method(layer: CorsLayer) -> bool;

/// The wildcard `*`, which stands for every origin and is no origin itself.
pub open spec fn wildcard() -> Seq<u8> {
    seq![42u8]
}

/// Calls `tower_http::cors::CorsLayer::new`. Trusted: the new layer allows
/// no origin, and neither every header nor every method.
#[verifier::external_body]
pub(crate) fn cors_layer_new() -> (layer: CorsLayer)
    ensures
        cors_origin_list(layer) == Seq::<Seq<u8>>::empty(),
        !cors_any_header(layer),
        !cors_any_method(layer),
{
    CorsLayer::new()
}

/// Calls `tower_http::cors::CorsLayer::allow_origin` with a list of origins.
/// The call panics on a list that holds the wildcard, so such a list is
/// excluded. Trusted: the layer that comes back allows the origins of the
/// list, and is otherwise set as `layer` was.
#[verifier::external_body]
pub(crate) fn cors_allow_origins(layer: CorsLayer, origins: Vec<HeaderValue>) -> (next: CorsLayer)
    requires
        forall|i: int|
            0 <= i < origins@.len() ==> header_value_bytes(#[trigger] origins@[i]) != wildcard(),
    ensures
        cors_origin_list(next) == header_values_bytes(origins@),
        cors_any_header(next) == cors_any_header(layer),
        cors_any_method(next) == cors_any_method(layer),
{
    layer.allow_origin(origins)
}

/// Calls `tower_http::cors::CorsLayer::allow_headers` with `Any`. Trusted:
/// the layer that comes back allows every header, and is otherwise set as
/// `layer` was.
#[verifier::external_body]
pub(crate) fn cors_allow_any_header(layer: CorsLayer) -> (next: CorsLayer)
    ensures
        cors_any_header(next),
        cors_origin_list(next) == cors_origin_list(layer),
        cors_any_method(next) == cors_any_method(layer),
{
    layer.allow_headers(Any)
}

/// Calls `tower_http::cors::CorsLayer::allow_methods` with `Any`. Trusted:
/// the layer that comes back allows every method, and is otherwise set as
/// `layer` was.
#[verifier::external_body]
pub(crate) fn cors_allow_any_method(layer: CorsLayer) -> (next: CorsLayer)
    ensures
        cors_any_method(next),
        cors_origin_list(next) == cors_origin_list(layer),
        cors_any_header(next) == cors_any_header(layer),
{
    layer.allow_methods(Any)
}

} // verus!
