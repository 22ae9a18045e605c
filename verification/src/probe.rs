//! The probe of one address: where the request goes and how its reply is
//! read.
//!
//! A probe is one `GET` with a fixed time budget and no retry of its own.
//! The request itself is made by the driver, which hands its reply over as a
//! [`Reply`].

use vstd::prelude::*;
use vstd::string::StringExecFns;
use crate::state::{Outcome, ProbeError, ProbeResult};

verus! {

/// The payload of a health endpoint, as far as the monitor reads it. What
/// else the endpoint reports is not kept.
#[derive(Debug)]
pub struct Info {
    /// The status that the service reports of itself.
    pub status: String,
}

/// What came back for one request.
#[derive(Debug)]
pub enum Reply {
    /// Nothing: the connection was refused, the name did not resolve, or
    /// the time ran out.
    Silent,
    /// A body that is no JSON object with a `status` string.
    Unreadable,
    /// A body that was read.
    Payload(Info),
}

/// The scheme that every probe uses.
pub open spec fn url_head() -> Seq<char> {
    "http://"@
}

/// The port and path that every probe asks for.
pub open spec fn url_tail() -> Seq<char> {
    ":8114/status"@
}

/// The status with which a service reports that it runs. Every other status
/// means that it does not.
pub open spec fn running_status() -> Seq<char> {
    "running"@
}

/// The address that is asked for the health of `address`.
pub open spec fn url_of(address: Seq<char>) -> Seq<char> {
    url_head() + address + url_tail()
}

/// What a reply says of the probe that got it.
pub open spec fn reading(reply: Reply) -> Outcome {
    match reply {
        Reply::Silent => Err(ProbeError::Unreachable),
        Reply::Unreadable => Err(ProbeError::InvalidResponse),
        Reply::Payload(info) => Ok(
            ProbeResult { reachable: true, service_running: info.status@ == running_status() },
        ),
    }
}

impl Info {
    /// Whether the service reports that it runs.
    pub fn is_running(&self) -> (yes: bool)
        ensures
            yes == (self.status@ == running_status()),
    {
        let running = "running".to_owned();
        self.status == running
    }
}

/// The address to ask for the health of `address`.
pub fn status_url(address: &str) -> (url: String)
    ensures
        url@ == url_of(address@),
{
    let mut url = "http://".to_owned();
    url.append(address);
    url.append(":8114/status");
    url
}

/// Reads a reply: silence is `Unreachable`, a body that cannot be read is
/// `InvalidResponse`, and a body that was read is a result whose flag says
/// whether the status is exactly `running`.
pub fn interpret(reply: &Reply) -> (outcome: Outcome)
    ensures
        outcome == reading(*reply),
{
    match reply {
        Reply::Silent => Err(ProbeError::Unreachable),
        Reply::Unreadable => Err(ProbeError::InvalidResponse),
        Reply::Payload(info) => Ok(
            ProbeResult { reachable: true, service_running: info.is_running() },
        ),
    }
}

} // verus!
