//! Types of the HTTP client and of the JSON library that calls carry through.

use vstd::prelude::*;

verus! {

/// A failure reported by the HTTP client.
#[verifier::external_type_specification]
#[verifier::external_body]
pub struct ExHyperError(hyper::Error);

/// A failure reported by the JSON parser or printer.
#[verifier::external_type_specification]
#[verifier::external_body]
pub struct ExJsonError(serde_json::Error);

} // verus!

verus! {

/// A value tree of the JSON library.
#[verifier::external_type_specification]
#[verifier::external_body]
pub struct ExValue(serde_json::Value);

/// A number of the JSON library.
#[verifier::external_type_specification]
#[verifier::external_body]
pub struct ExNumber(serde_json::Number);

/// Relies on serde_json's `Number::as_u64`: the number as a `u64`, where it is one.
pub assume_specification[ serde_json::Number::as_u64 ](n: &serde_json::Number) -> Option<u64>;

/// Relies on serde_json's `Number::as_i64`: the number as an `i64`, where it is one.
pub assume_specification[ serde_json::Number::as_i64 ](n: &serde_json::Number) -> Option<i64>;

} // verus!
