//! A verified core for an OpenAI-compatible chat-completion reverse proxy.
//!
//! The library holds the forwarding pipeline's logic: payload rewriting,
//! header reconciliation, streaming classification, chunk relay, and
//! error-to-JSON translation. Network transport lives outside the library.

pub mod bytes;
pub mod errors;
pub mod handler;
pub mod headers;
pub mod jsontext;
pub mod payload;
pub mod relay;

use vstd::prelude::*;

verus! {

/// True for bytes that may appear in an HTTP header value: visible ASCII
/// plus space and horizontal tab.
pub open spec fn spec_valid_header_byte(b: u8) -> bool {
    b == 9 || (32 <= b && b <= 126)
}

/// Decides whether one byte is acceptable inside an HTTP header value.
pub fn valid_header_byte(b: u8) -> (r: bool)
    ensures
        r == spec_valid_header_byte(b),
{
    b == 9 || (32 <= b && b <= 126)
}

} // verus!

