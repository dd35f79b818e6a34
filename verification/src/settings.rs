//! The fixed settings of the service: where it listens, and which callers
//! from the web may reach it.

use vstd::prelude::*;
use vstd::string::StringSliceAdditionalSpecFns;
use vstd::utf8::is_ascii_chars_encode_utf8;
use http::HeaderValue;
use tower_http::cors::CorsLayer;
use crate::cors::{
    cors_allow_any_header, cors_allow_any_method, cors_allow_origins, cors_any_header,
    cors_any_method, cors_layer_new, cors_origin_list, wildcard,
};
use crate::header::{header_value_bytes, header_value_from_str, header_values_bytes, is_value_text};

verus! {

/// The socket address on which the service listens.
pub const LISTEN_ADDRESS: &'static str = "0.0.0.0:50051";

/// The first of the two web origins that may call the service.
pub const FIRST_ORIGIN: &'static str = "http://localhost:3000";

/// The second of the two web origins that may call the service.
pub const SECOND_ORIGIN: &'static str = "http://localhost:8080";

/// The allow-list: the two origins, each as the bytes of its `Origin`
/// header, in their order.
pub open spec fn allow_list() -> Seq<Seq<u8>> {
    seq![FIRST_ORIGIN.spec_bytes(), SECOND_ORIGIN.spec_bytes()]
}

/// Whether a caller from `origin`, given as the bytes of its `Origin` header,
/// may call the service.
pub open spec fn origin_allowed(origin: Seq<u8>) -> bool {
    origin == FIRST_ORIGIN.spec_bytes() || origin == SECOND_ORIGIN.spec_bytes()
}

/// Whether `layer` is set to the cross-origin policy of the service: the
/// origins of the allow-list, with every header and every method.
pub open spec fn is_service_policy(layer: CorsLayer) -> bool {
    &&& cors_origin_list(layer) == allow_list()
    &&& cors_any_header(layer)
    &&& cors_any_method(layer)
}

/// Both origins are text that a header value may hold, and neither is the
/// wildcard.
proof fn lemma_origins_are_plain_values()
    ensures
        is_value_text(FIRST_ORIGIN.spec_bytes()),
        is_value_text(SECOND_ORIGIN.spec_bytes()),
        FIRST_ORIGIN.spec_bytes() != wildcard(),
        SECOND_ORIGIN.spec_bytes() != wildcard(),
{
    reveal_strlit("http://localhost:3000");
    reveal_strlit("http://localhost:8080");
    is_ascii_chars_encode_utf8(FIRST_ORIGIN@);
    is_ascii_chars_encode_utf8(SECOND_ORIGIN@);
}

/// The allow-list as header values. Both origins are well-formed header
/// values, so this cannot fail.
pub fn allowed_origins() -> (origins: Vec<HeaderValue>)
    ensures
        header_values_bytes(origins@) == allow_list(),
{
    proof {
        lemma_origins_are_plain_values();
    }
    let first = header_value_from_str(FIRST_ORIGIN).unwrap();
    let second = header_value_from_str(SECOND_ORIGIN).unwrap();
    let mut origins: Vec<HeaderValue> = Vec::new();
    origins.push(first);
    origins.push(second);
    origins
}

/// The cross-origin layer of the service, set to its policy.
pub fn cors_layer() -> (layer: CorsLayer)
    ensures
        is_service_policy(layer),
{
    let origins = allowed_origins();
    proof {
        lemma_origins_are_plain_values();
        assert forall|i: int| 0 <= i < origins@.len() implies header_value_bytes(
            #[trigger] origins@[i],
        ) != wildcard() by {
            assert(header_values_bytes(origins@).len() == origins@.len());
            assert(header_values_bytes(origins@)[i] == header_value_bytes(origins@[i]));
            assert(allow_list()[i] == FIRST_ORIGIN.spec_bytes() || allow_list()[i]
                == SECOND_ORIGIN.spec_bytes());
        }
    }
    let layer = cors_allow_origins(cors_layer_new(), origins);
    let layer = cors_allow_any_header(layer);
    cors_allow_any_method(layer)
}

/// A layer that is set to the policy of the service lists an origin exactly
/// if that origin may call: the two origins are let in, every other is not.
pub proof fn lemma_listed_iff_allowed(layer: CorsLayer, origin: Seq<u8>)
    requires
        is_service_policy(layer),
    ensures
        cors_origin_list(layer).contains(origin) <==> origin_allowed(origin),
{
    let listed = cors_origin_list(layer);
    if origin_allowed(origin) {
        if origin == FIRST_ORIGIN.spec_bytes() {
            assert(listed[0] == origin);
        } else {
            assert(listed[1] == origin);
        }
    }
}

} // verus!
