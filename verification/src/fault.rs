//! I/O errors, which carry the faults of the transport and of the peer.
//!
//! Verus has no specification of `std::io::Error`. The type is declared here
//! as opaque, and the two calls that the crate makes on it are wrapped.

use vstd::prelude::*;

verus! {

/// `std::io::Error`. Verus takes the type as opaque.
#[verifier::external_type_specification]
#[verifier::external_body]
pub struct ExIoError(std::io::Error);

/// `std::io::Error::new` with `ErrorKind::InvalidData`: an error that carries
/// `reason` as its message.
#[verifier::external_body]
pub(crate) fn invalid_data(reason: &'static str) -> std::io::Error {
    std::io::Error::new(std::io::ErrorKind::InvalidData, reason)
}

/// `ToString::to_string` on a `std::io::Error`: the text that its `Display`
/// writes. Nothing is stated of it.
#[verifier::external_body]
pub(crate) fn io_error_text(e: &std::io::Error) -> String {
    e.to_string()
}

} // verus!
