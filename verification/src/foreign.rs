//! Declarations of the foreign failure types that the conversion edges
//! consume. Each value is opaque here: only the trusted renderings in
//! [`crate::convert`] look inside one.

use serde_json::Error as SerdeJsonError;
use vstd::prelude::*;

verus! {

#[verifier::external_type_specification]
#[verifier::external_body]
pub struct ExIoError(std::io::Error);

#[verifier::external_type_specification]
#[verifier::external_body]
pub struct ExSetLoggerError(log::SetLoggerError);

#[verifier::external_type_specification]
#[verifier::external_body]
pub struct ExSerdeJsonError(SerdeJsonError);

} // verus!
