//! Error taxonomy for the orchestrator.
//!
//! `Cancelled` and `Expired` outcomes of the login flow are not errors:
//! they are reported as an absent result, never through these types.

use vstd::prelude::*;

verus! {

/// Failures of the process registry itself.
#[derive(Clone, Copy, PartialEq, Eq, Structural, Debug)]
pub enum RegistryError {
    /// No entry with the requested instance identifier is tracked.
    NotFound,
    /// An entry with the freshly drawn identifier already exists;
    /// nothing was registered.
    DuplicateInstance,
}

/// Failures while producing a new running instance.
#[derive(Clone, Copy, PartialEq, Eq, Structural, Debug)]
pub enum RunError {
    /// The cluster could not be resolved; nothing was spawned.
    NotFound,
    /// The OS could not start the process; the registry is untouched.
    SpawnFailed,
    /// The spawned process could not be registered under a fresh
    /// identifier; the registry is untouched.
    DuplicateInstance,
}

/// Failures of the credential store.
#[derive(Clone, Copy, PartialEq, Eq, Structural, Debug)]
pub enum CredentialError {
    /// No record with the requested account identifier is stored.
    NotFound,
}

/// Failures of the login flow that are real errors, as opposed to the
/// non-error outcomes of cancellation and expiry.
#[derive(Clone, Copy, PartialEq, Eq, Structural, Debug)]
pub enum AuthError {
    /// Reading the browser surface's state broke unexpectedly.
    IOFailure,
    /// The identity provider rejected the code, or the exchange call
    /// itself failed.
    ExchangeFailed,
}

impl RegistryError {
    /// What `RegistryError::message` returns, per variant.
    pub open spec fn message_spec(&self) -> Seq<char> {
        match self {
            RegistryError::NotFound => "instance not found"@,
            RegistryError::DuplicateInstance => "instance identifier already registered"@,
        }
    }

    /// Human-readable description for the command boundary.
    pub fn message(&self) -> (r: String)
        ensures
            r@ == self.message_spec(),
    {
        match self {
            RegistryError::NotFound => "instance not found".to_owned(),
            RegistryError::DuplicateInstance => "instance identifier already registered".to_owned(),
        }
    }
}

impl RunError {
    /// What `RunError::message` returns, per variant.
    pub open spec fn message_spec(&self) -> Seq<char> {
        match self {
            RunError::NotFound => "cluster not found"@,
            RunError::SpawnFailed => "failed to start the cluster process"@,
            RunError::DuplicateInstance => "instance identifier already registered"@,
        }
    }

    /// Human-readable description for the command boundary.
    pub fn message(&self) -> (r: String)
        ensures
            r@ == self.message_spec(),
    {
        match self {
            RunError::NotFound => "cluster not found".to_owned(),
            RunError::SpawnFailed => "failed to start the cluster process".to_owned(),
            RunError::DuplicateInstance => "instance identifier already registered".to_owned(),
        }
    }
}

impl CredentialError {
    /// What `CredentialError::message` returns, per variant.
    pub open spec fn message_spec(&self) -> Seq<char> {
        match self {
            CredentialError::NotFound => "user not found"@,
        }
    }

    /// Human-readable description for the command boundary.
    pub fn message(&self) -> (r: String)
        ensures
            r@ == self.message_spec(),
    {
        match self {
            CredentialError::NotFound => "user not found".to_owned(),
        }
    }
}

impl AuthError {
    /// What `AuthError::message` returns, per variant.
    pub open spec fn message_spec(&self) -> Seq<char> {
        match self {
            AuthError::IOFailure => "failed to read the login surface"@,
            AuthError::ExchangeFailed => "failed to exchange the authorization code"@,
        }
    }

    /// Human-readable description for the command boundary.
    pub fn message(&self) -> (r: String)
        ensures
            r@ == self.message_spec(),
    {
        match self {
            AuthError::IOFailure => "failed to read the login surface".to_owned(),
            AuthError::ExchangeFailed => "failed to exchange the authorization code".to_owned(),
        }
    }
}

} // verus!
