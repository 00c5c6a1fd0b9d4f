//! Client-side core for a versioned, catalog-based cloud infrastructure API.
//!
//! The crate covers the reusable machinery shared by every resource call:
//! API-version negotiation against a service's advertised range, lazy
//! caching of service discovery, on-demand pagination of listings, the
//! exactly-one lookup filter, and polling-based waiting for server-side
//! state transitions. Network transport is a capability the caller
//! supplies; this crate decides what to send and interprets what comes
//! back.

use vstd::prelude::*;

pub mod cache;
pub mod compute;
pub mod filter;
pub mod iterator;
pub mod json;
pub mod protocol;
pub mod session;
pub mod version;
pub mod waiter;

pub use cache::ValueCache;
pub use compute::{ComputeService, ServiceType};
pub use filter::exactly_one;
pub use iterator::{Page, PageCursor, ResourceIterator};
pub use json::JsonValue;
pub use protocol::{Flavor, FromJson, IdAndName, KeyPair, KeyPairCreate, Method, Ref, Request, Server, ServerCreate};
pub use session::Session;
pub use version::{negotiate_version, ApiVersion, ServiceInfo, VersionRequest};
pub use waiter::{deletion_status, PollStatus, PollingWaiter};

verus! {

/// Failure conditions produced by the client core.
#[derive(Debug)]
pub enum Error {
    /// Version negotiation found no mutually supported version.
    VersionMismatch,
    /// The resource does not exist, or a lookup matched nothing.
    NotFound(String),
    /// A lookup that must match exactly one resource matched several.
    AmbiguousResult(String),
    /// A wait's deadline elapsed before the target state was reached.
    Timeout,
    /// An underlying request or decode failure, passed through.
    Transport(String),
}

impl Error {
    /// True exactly for the `NotFound` condition; the deletion-polling
    /// use case must tell it apart from other failures.
    pub fn is_not_found(&self) -> (r: bool)
        ensures
            r == (self is NotFound),
    {
        match self {
            Error::NotFound(_) => true,
            _ => false,
        }
    }
}

} // verus!
