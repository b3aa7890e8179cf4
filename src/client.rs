//! The query client's decisions: when to start the daemon and retry a
//! connection, and which exit code an answer maps to.
use vstd::prelude::*;
use crate::protocol::{ErrorCode, Response};
use crate::utils::{
    EXIT_DAEMON_UNAVAILABLE, EXIT_INDEX_MISMATCH, EXIT_INTERNAL_ERROR, EXIT_INVALID_ARGS, EXIT_OK,
    EXIT_OVER_MAX,
};

verus! {

/// The pause before another connection attempt after the daemon was started.
pub const RETRY_DELAY_MS: u64 = 500;

/// What the client does next about its connection.
#[derive(Debug, Clone, Copy, PartialEq, Eq, Structural)]
pub enum ConnectAction {
    /// The connection stands; send the request.
    Ready,
    /// Launch the daemon for this workspace, then try again.
    StartDaemon,
    /// Wait, then try again.
    Retry { delay_ms: u64 },
    /// Give up: the daemon is unavailable.
    GiveUp,
}

/// How far a connection has come: the retries made after starting the
/// daemon, whether it was started, and the retry budget.
#[derive(Debug, Clone, Copy, PartialEq, Eq, Structural)]
pub struct ConnectState {
    pub retries: u32,
    pub started: bool,
    pub max_retries: u32,
}

impl ConnectState {
    /// A first attempt with a retry budget.
    pub fn new(max_retries: u32) -> (r: ConnectState)
        ensures
            r == (ConnectState { retries: 0, started: false, max_retries }),
    {
        ConnectState { retries: 0, started: false, max_retries }
    }

    /// The next step after an attempt that `connected` or not: ready on
    /// success; on failure start the daemon once when autostart is on, then
    /// retry after a pause until the budget is spent, then give up.
    pub fn step(&mut self, connected: bool, autostart: bool) -> (r: ConnectAction)
        requires
            old(self).retries <= old(self).max_retries,
        ensures
            final(self).max_retries == old(self).max_retries,
            final(self).retries <= final(self).max_retries,
            connected ==> r == ConnectAction::Ready && *final(self) == *old(self),
            !connected && !old(self).started && autostart ==> r == ConnectAction::StartDaemon
                && final(self).started && final(self).retries == old(self).retries,
            !connected && old(self).started && old(self).retries < old(self).max_retries ==> r
                == (ConnectAction::Retry { delay_ms: RETRY_DELAY_MS }) && final(self).retries
                == old(self).retries + 1 && final(self).started,
            !connected && (old(self).started || !autostart) && !(old(self).started
                && old(self).retries < old(self).max_retries) ==> r == ConnectAction::GiveUp
                && *final(self) == *old(self),
    {
        if connected {
            ConnectAction::Ready
        } else if !self.started && autostart {
            self.started = true;
            ConnectAction::StartDaemon
        } else if self.started && self.retries < self.max_retries {
            self.retries = self.retries + 1;
            ConnectAction::Retry { delay_ms: RETRY_DELAY_MS }
        } else {
            ConnectAction::GiveUp
        }
    }
}

/// The exit code of an answer: 0 for success, 3 when a decision is needed,
/// and for errors 2 (invalid arguments), 4 (daemon unavailable), 5 (index
/// mismatch) or 6 (anything else).
pub open spec fn exit_code_of(r: Response) -> u8 {
    match r {
        Response::Success(_) => EXIT_OK,
        Response::Decision(_) => EXIT_OVER_MAX,
        Response::Error(e) => match e.err_code {
            ErrorCode::InvalidArg => EXIT_INVALID_ARGS,
            ErrorCode::DaemonUnavailable => EXIT_DAEMON_UNAVAILABLE,
            ErrorCode::IndexMismatch => EXIT_INDEX_MISMATCH,
            _ => EXIT_INTERNAL_ERROR,
        },
    }
}

/// The exit code of an answer.
pub fn exit_code_for(response: &Response) -> (r: u8)
    ensures
        r == exit_code_of(*response),
{
    match response {
        Response::Success(_) => EXIT_OK,
        Response::Decision(_) => EXIT_OVER_MAX,
        Response::Error(e) => match e.err_code {
            ErrorCode::InvalidArg => EXIT_INVALID_ARGS,
            ErrorCode::DaemonUnavailable => EXIT_DAEMON_UNAVAILABLE,
            ErrorCode::IndexMismatch => EXIT_INDEX_MISMATCH,
            _ => EXIT_INTERNAL_ERROR,
        },
    }
}

} // verus!
