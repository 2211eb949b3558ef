//! Where API keys are kept: the name of the service under which the system's
//! key store holds them, and the errors that its failures become.

use vstd::prelude::*;
use crate::error::GrokError;
use crate::text::{concat, owned};

verus! {

/// The service under which keys are stored.
pub const SERVICE_NAME: &'static str = "grok-code";

/// What was asked of the key store when it failed.
#[derive(Clone, Copy, Debug, PartialEq, Eq, Structural)]
pub enum KeyOperation {
    /// The entry for a provider could not be made.
    Open,
    /// A key could not be stored.
    Store,
    /// A key could not be read.
    Read,
    /// A key could not be deleted.
    Delete,
}

/// The heading of the error for a failed operation.
pub open spec fn failure_heading(op: KeyOperation) -> Seq<char> {
    match op {
        KeyOperation::Open => "Failed to create keyring entry: "@,
        KeyOperation::Store => "Failed to store API key: "@,
        KeyOperation::Read => "API key not found in keyring: "@,
        KeyOperation::Delete => "Failed to delete API key: "@,
    }
}

/// The handle to the system's key store.
pub struct KeyStore {
    service: String,
}

impl KeyStore {
    /// The service under which this store keeps its keys.
    pub closed spec fn spec_service(&self) -> Seq<char> {
        self.service@
    }

    /// A store that keeps its keys under the service `grok-code`.
    pub fn new() -> (store: Self)
        ensures
            store.spec_service() == SERVICE_NAME@,
    {
        KeyStore { service: owned(SERVICE_NAME) }
    }

    /// The service under which this store keeps its keys.
    pub fn service(&self) -> (name: &str)
        ensures
            name@ == self.spec_service(),
    {
        self.service.as_str()
    }

    /// The configuration error that a failure of the key store becomes: the
    /// heading of the operation, then what the key store said.
    pub fn failure(&self, op: KeyOperation, reason: &str) -> (e: GrokError)
        ensures
            e is Config,
            e.detail() == failure_heading(op) + reason@,
    {
        let heading = match op {
            KeyOperation::Open => "Failed to create keyring entry: ",
            KeyOperation::Store => "Failed to store API key: ",
            KeyOperation::Read => "API key not found in keyring: ",
            KeyOperation::Delete => "Failed to delete API key: ",
        };
        GrokError::Config(concat(heading, reason))
    }
}

impl Default for KeyStore {
    fn default() -> (store: Self)
        ensures
            store.spec_service() == SERVICE_NAME@,
    {
        KeyStore::new()
    }
}

} // verus!
