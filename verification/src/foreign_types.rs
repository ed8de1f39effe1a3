//! Error types of the standard library and of `serde_json` that the
//! library's own errors carry.  Both are opaque: they are only passed along.
use serde_json::Error as SerdeJsonError;
use vstd::prelude::*;

verus! {

/// `std::io::Error`, carried by the I/O variants of the library's errors.
#[verifier::external_type_specification]
#[verifier::external_body]
pub struct ExIoError(std::io::Error);

/// `serde_json::Error`, carried by `JsonError::Serde`.
#[verifier::external_type_specification]
#[verifier::external_body]
pub struct ExSerdeJsonError(SerdeJsonError);

} // verus!
