//! Header values of the `http` crate, as far as the library relies on them.

use vstd::prelude::*;
use vstd::string::StringSliceAdditionalSpecFns;
use http::HeaderValue;

verus! {

#[verifier::external_type_specification]
#[verifier::external_body]
pub struct ExHeaderValue(http::HeaderValue);

/// The bytes that a header value holds.
pub uninterp spec fn header_value_bytes(value: HeaderValue) -> Seq<u8>;

/// The bytes of each header value of `values`, in their order.
pub open spec fn header_values_bytes(values: Seq<HeaderValue>) -> Seq<Seq<u8>> {
    values.map_values(|value: HeaderValue| header_value_bytes(value))
}

/// Whether a header value may hold `byte`: a tab, or any byte from the space
/// upwards but the delete character.
pub open spec fn is_value_byte(byte: u8) -> bool {
    byte >= 32 && byte != 127 || byte == 9
}

/// Whether a header value may hold `bytes`: each of them is admitted.
pub open spec fn is_value_text(bytes: Seq<u8>) -> bool {
    forall|i: int| 0 <= i < bytes.len() ==> is_value_byte(#[trigger] bytes[i])
}

/// Calls `http::HeaderValue::from_str`. Trusted: the call yields a header
/// value exactly if every byte of `src` is admitted, and that value then
/// holds the bytes of `src`, unchanged and in order.
#[verifier::external_body]
pub(crate) fn header_value_from_str(src: &str) -> (value: Option<HeaderValue>)
    ensures
        value is Some <==> is_value_text(src.spec_bytes()),
        value is Some ==> header_value_bytes(value->0) == src.spec_bytes(),
{
    HeaderValue::from_str(src).ok()
}

} // verus!
