//! The items that move through the work store: crawl intents, execution
//! profiles, requests and their responses.

use vstd::prelude::*;

verus! {

/// A reusable client fingerprint (e.g. a user-agent string) consulted when
/// fetch operations are built; read-only after initialization.
#[derive(Clone, Debug, PartialEq, Eq)]
pub struct UserAgent {
    /// the opaque fingerprint token
    pub inner: String,
}

/// A unit of crawl intent not yet turned into a request.
#[derive(Clone, Copy, Debug, PartialEq, Eq, Structural)]
pub struct Task {
    /// identifies the crawl target this intent points at
    pub target: u64,
    /// opaque policy-defined payload carried through unchanged
    pub payload: u64,
}

/// An acquired execution identity (e.g. a proxy and session pair) that a
/// request must bind before it can be issued.
#[derive(Clone, Copy, Debug, PartialEq, Eq, Structural)]
pub struct Profile {
    /// reference into the identity pool this profile was built with
    pub identity: u64,
    /// time at which the profile was acquired
    pub acquired: u64,
    /// opaque session state handed back by the acquirer
    pub session: u64,
}

/// A fully-formed, not-yet-issued fetch operation.
#[derive(Clone, Copy, Debug, PartialEq, Eq, Structural)]
pub struct Request {
    /// identifies the crawl target to fetch
    pub target: u64,
    /// opaque policy-defined payload carried over from the task
    pub payload: u64,
    /// earliest permissible dispatch time (not-before)
    pub able: u64,
    /// the execution profile bound to this request
    pub profile: Profile,
    /// how many times this request has been retried
    pub retries: u64,
}

/// The outcome of a completed fetch, awaiting extraction.
#[derive(Clone, Debug, PartialEq, Eq)]
pub struct Response {
    /// status of the fetch, as the fetch client encodes it
    pub status: u64,
    /// the fetched payload
    pub body: String,
    /// the request this response answers
    pub request: Request,
}

/// The request minted from a task once a profile is available: it carries the
/// task's target and payload, binds the profile, and is dispatchable from the
/// observed time `now` on.
pub open spec fn minted_req(t: Task, p: Profile, now: u64) -> Request {
    Request { target: t.target, payload: t.payload, able: now, profile: p, retries: 0 }
}

} // verus!
