//! The error taxonomy.  Construction, transport and deserialization
//! failures are distinct, inspectable values; the core performs no local
//! recovery of any of them, every failure is surfaced to the caller.

use vstd::prelude::*;
use vstd::string::*;

verus! {

/// A required field was not supplied before finalizing an endpoint value.
/// Surfaced immediately by the builder, never silently defaulted.
#[derive(Debug, Clone)]
pub struct ConstructionError {
    /// The name of the first missing required field.
    pub field: String,
}

impl ConstructionError {
    /// An error naming the missing field.
    pub fn missing(field: &str) -> (e: ConstructionError)
        ensures
            e.field@ == field@,
    {
        ConstructionError { field: field.to_owned() }
    }

    /// The name of the missing field.
    pub fn field_name(&self) -> (r: &String)
        ensures
            r@ == self.field@,
    {
        &self.field
    }
}

/// The transport returned a non-success status.  Propagated unchanged,
/// never retried; the status and the raw body stay inspectable.
#[derive(Debug, Clone)]
pub struct HttpError {
    pub status: u16,
    pub body: String,
}

/// The response bytes did not match the caller's requested output shape.
/// Propagated unchanged; the status and the raw body stay inspectable.
#[derive(Debug, Clone)]
pub struct DeserializationError {
    pub status: u16,
    pub body: String,
}

} // verus!
