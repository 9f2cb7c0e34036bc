//! Client-side correlation of remote procedure calls.
//!
//! A connection multiplexes many calls. This crate keeps the record of the
//! calls that were sent and are not yet resolved, matches each response to the
//! call that asked for it, expires calls whose deadline has passed, and carries
//! deadlines between peers in a form that does not depend on their clocks
//! agreeing.
//!
//! Every function here is verified with Verus. The few places where the
//! verified code calls into other crates are marked, and say what is taken on
//! trust.

use vstd::prelude::*;

pub mod client;
pub mod context;
pub mod util;

verus! {

/// A response from a server to a client.
pub struct Response<Resp> {
    /// The identifier of the call that this response answers.
    pub request_id: u64,
    /// What the call returned.
    pub payload: Resp,
}

} // verus!
