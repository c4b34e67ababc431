//! The wire encodings a transport can use. The encoding itself is done by
//! serde_json and ciborium, on values of any serializable type.

use vstd::prelude::*;

verus! {

/// Encodes messages as JSON.
#[derive(Default, Clone, Copy, Debug)]
pub struct JsonCoder;

/// Encodes messages as CBOR.
#[derive(Default, Clone, Copy, Debug)]
pub struct CborCoder;

} // verus!
