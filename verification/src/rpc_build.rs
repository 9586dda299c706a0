//! The build-time companion API: configuration entry points for the stub
//! generator that turns a service schema into typed client and server
//! bindings. The generation itself — reading schema files and emitting
//! source text through a schema compiler — is I/O-bound tooling and lives
//! with the runtime shell; the types and entry points callers hold are
//! here.

use vstd::prelude::*;

verus! {

pub fn add(left: usize, right: usize) -> (r: usize)
    requires
        left + right <= usize::MAX,
    ensures
        r == left + right,
{
    left + right
}

/// Configuration for one stub-generation run.
#[derive(Clone, Copy, Debug, PartialEq, Eq, Structural)]
pub struct Builder;

/// A fresh, default configuration.
pub fn configure() -> (b: Builder)
    ensures
        b == Builder,
{
    Builder
}

/// The per-service hook a schema compiler calls to emit client and server
/// stubs.
#[derive(Clone, Copy, Debug, PartialEq, Eq, Structural)]
pub struct ServiceGenerator;

impl ServiceGenerator {
    pub fn new() -> (g: Self)
        ensures
            g == ServiceGenerator,
    {
        ServiceGenerator
    }
}

} // verus!
