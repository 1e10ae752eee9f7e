//! Reading and writing clouds as bytes.

use vstd::prelude::*;

pub mod codec;
pub mod header;
pub mod loader;
pub mod ply;

verus! {

/// The error type of std's readers and writers. Nothing is known of a value
/// but that there is one.
#[verifier::external_type_specification]
#[verifier::external_body]
pub struct ExIoError(std::io::Error);

} // verus!
