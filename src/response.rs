//! Maps how a request ended to the response sent back.

use crate::broadcast::BroadcastOutcome;
use crate::text::{joined, join_lines, labelled};
use vstd::prelude::*;

verus! {

/// How a request ended.
pub enum Terminal {
    /// The body was not a valid envelope; the decoder's diagnostic.
    DecodeFailed(String),
    /// The carrier transaction could not be built (or the block lookup failed).
    AssemblyFailed(String),
    /// The relayer could not sign.
    SigningFailed(String),
    /// The broadcast ended.
    Broadcast(BroadcastOutcome),
}

/// The response to one request.
pub enum Response {
    /// Committed: the ledger's status and the execution log lines, joined.
    Success { status: String, logs: String },
    /// The request was malformed; retrying it will not help.
    ClientError { message: String },
    /// The relay or the ledger failed; the caller may try again.
    ServerError { message: String },
}

pub open spec fn decode_prefix() -> Seq<char> {
    "Error deserializing payload data object: "@
}

pub open spec fn assembly_prefix() -> Seq<char> {
    "Error assembling transaction: "@
}

pub open spec fn signing_prefix() -> Seq<char> {
    "Error signing transaction: "@
}

pub open spec fn broadcast_prefix() -> Seq<char> {
    "Error sending transaction to RPC: "@
}

/// The response owed for `t`.
pub open spec fn responds(t: Terminal, r: Response) -> bool {
    match t {
        Terminal::DecodeFailed(e) => r matches Response::ClientError { message } && message@
            == decode_prefix() + e@,
        Terminal::AssemblyFailed(e) => r matches Response::ServerError { message } && message@
            == assembly_prefix() + e@,
        Terminal::SigningFailed(e) => r matches Response::ServerError { message } && message@
            == signing_prefix() + e@,
        Terminal::Broadcast(BroadcastOutcome::Failed { reason }) => r matches Response::ServerError {
            message,
        } && message@ == broadcast_prefix() + reason@,
        Terminal::Broadcast(BroadcastOutcome::Committed { status, logs }) => r matches Response::Success {
            status: s,
            logs: l,
        } && s@ == status@ && l@ == joined(logs@.map_values(|x: String| x@)),
    }
}

impl Response {
    /// The status code sent with the response.
    pub fn status_code(&self) -> (r: u16)
        ensures
            self is Success ==> r == 200,
            self is ClientError ==> r == 400,
            self is ServerError ==> r == 500,
    {
        match self {
            Response::Success { .. } => 200,
            Response::ClientError { .. } => 400,
            Response::ServerError { .. } => 500,
        }
    }
}

/// Builds the response for how a request ended.
pub fn respond(t: Terminal) -> (r: Response)
    ensures
        responds(t, r),
{
    match t {
        Terminal::DecodeFailed(e) => Response::ClientError {
            message: labelled("Error deserializing payload data object: ", e.as_str()),
        },
        Terminal::AssemblyFailed(e) => Response::ServerError {
            message: labelled("Error assembling transaction: ", e.as_str()),
        },
        Terminal::SigningFailed(e) => Response::ServerError {
            message: labelled("Error signing transaction: ", e.as_str()),
        },
        Terminal::Broadcast(BroadcastOutcome::Failed { reason }) => Response::ServerError {
            message: labelled("Error sending transaction to RPC: ", reason.as_str()),
        },
        Terminal::Broadcast(BroadcastOutcome::Committed { status, logs }) => {
            let l = join_lines(&logs);
            Response::Success { status, logs: l }
        },
    }
}

} // verus!
