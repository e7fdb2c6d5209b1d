//! Why a request of a client is refused.

use vstd::prelude::*;

use crate::session::CaptureSessionState;

verus! {

/// Why a request is refused.
#[derive(Debug)]
pub enum CaptureError {
    /// The request speaks of a set of zones that is not the current one.
    ZoneSetMismatch,
    /// There is no session with the identifier that the request gives.
    SessionNotFound,
    /// The session cannot be enabled in the state that it is in.
    InvalidStateForEnable(CaptureSessionState),
    /// No pair of sockets could be made, for the reason given.
    SocketPairFailed(String),
}

impl CaptureError {
    /// The text that tells the client of the error.
    pub open spec fn spec_message(self) -> Seq<char> {
        match self {
            CaptureError::ZoneSetMismatch => "Zone set mismatch"@,
            CaptureError::SessionNotFound => "Session not found"@,
            CaptureError::InvalidStateForEnable(state) => "Invalid state for Enable: "@
                + state.spec_name(),
            CaptureError::SocketPairFailed(reason) => "socketpair failed: "@ + reason@,
        }
    }

    /// The text that tells the client of the error.
    pub fn message(&self) -> (text: String)
        ensures
            text@ == self.spec_message(),
    {
        match self {
            CaptureError::ZoneSetMismatch => "Zone set mismatch".to_owned(),
            CaptureError::SessionNotFound => "Session not found".to_owned(),
            CaptureError::InvalidStateForEnable(state) => {
                let mut text = "Invalid state for Enable: ".to_owned();
                text.append(state.name());
                text
            },
            CaptureError::SocketPairFailed(reason) => {
                let mut text = "socketpair failed: ".to_owned();
                text.append(reason.as_str());
                text
            },
        }
    }
}

} // verus!
