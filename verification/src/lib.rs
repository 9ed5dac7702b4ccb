//! Mock-peripheral fixture builder for Bluetooth conformance testing.
//!
//! Given a symbolic scenario name, the library synthesizes an in-memory
//! hierarchy of a fake Bluetooth adapter, its devices, GATT services,
//! characteristics and descriptors, pre-populated with values chosen to
//! exercise specific edge cases: absent or powered-off adapters, missing
//! services, characteristics or descriptors, duplicate services, non-ASCII
//! device names, and blacklisted attributes.

use vstd::prelude::*;

pub mod dispatch;
pub mod entities;
pub mod factory;
pub mod ids;
pub mod scenarios;

verus! {

/// The ways a scenario application can fail.
#[derive(Clone, Copy, Debug, PartialEq, Eq, Structural)]
pub enum FixtureError {
    /// The adapter manager could not supply an adapter.
    NoAdapterError,
    /// The requested scenario name is not in the recognized set.
    UnknownScenarioError,
    /// An attribute assignment was rejected (for example, a malformed
    /// device address).
    AttributeError,
}

impl FixtureError {
    /// A human-readable description of the error.
    pub fn message(&self) -> (r: &'static str)
        ensures
            *self == FixtureError::NoAdapterError ==> r@ == "No adapter found"@,
            *self == FixtureError::UnknownScenarioError ==> r@ == "Wrong data set name was provided"@,
            *self == FixtureError::AttributeError ==> r@ == "Failed to set an attribute for testing"@,
    {
        match self {
            FixtureError::NoAdapterError => "No adapter found",
            FixtureError::UnknownScenarioError => "Wrong data set name was provided",
            FixtureError::AttributeError => "Failed to set an attribute for testing",
        }
    }
}

} // verus!
