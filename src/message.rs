//! Request and response messages exchanged with the remote peer, and the
//! failures that request handling reports to its caller.
use vstd::prelude::*;

verus! {

/// Start a shell in a new pseudo-terminal.
#[derive(Debug, PartialEq, Eq)]
pub struct OpenTerminal {
    pub shell: String,
    pub rows: u16,
    pub cols: u16,
    /// Environment assignments in `NAME=VALUE` form.
    pub env: Vec<String>,
}

/// Change the window size of the active terminal.
#[derive(Debug, Clone, Copy, PartialEq, Eq)]
pub struct ResizeTerminal {
    pub rows: u16,
    pub cols: u16,
}

/// Raw bytes: input for the shell in a request, output or echo in a response.
#[derive(Debug, PartialEq, Eq)]
pub struct TerminalData {
    pub data: Vec<u8>,
}

/// End the shell; `force` kills it instead of waiting for it to exit.
#[derive(Debug, Clone, Copy, PartialEq, Eq)]
pub struct CloseTerminal {
    pub force: bool,
}

/// Outcome of an open request.
#[derive(Debug, PartialEq, Eq)]
pub struct TerminalOpened {
    pub success: bool,
    pub message: String,
    pub pid: u32,
}

/// Exit code of a closed shell; `-1` when it was killed.
#[derive(Debug, Clone, Copy, PartialEq, Eq)]
pub struct TerminalClosed {
    pub exit_code: i32,
}

/// An error reported in band to the remote peer.
#[derive(Debug, PartialEq, Eq)]
pub struct TerminalError {
    pub message: String,
}

/// A request from the remote peer; `Empty` carries no operation.
#[derive(Debug, PartialEq, Eq)]
pub enum TerminalRequest {
    Empty,
    Open(OpenTerminal),
    Resize(ResizeTerminal),
    Data(TerminalData),
    Close(CloseTerminal),
}

/// A response to the remote peer; `Empty` populates no arm.
#[derive(Debug, PartialEq, Eq)]
pub enum TerminalResponse {
    Empty,
    Opened(TerminalOpened),
    Data(TerminalData),
    Closed(TerminalClosed),
    Error(TerminalError),
}

/// Why a request could not be carried out; each holds the system's message.
#[derive(Debug, PartialEq, Eq)]
pub enum TerminalFailure {
    /// The pseudo-terminal device could not be allocated.
    DeviceCreationFailed(String),
    /// The command could not be launched.
    ProcessSpawnFailed(String),
    /// The controller-side write handle could not be obtained.
    WriterUnavailable(String),
    /// A write, flush, resize, signal, wait or reader clone failed.
    IoFailure(String),
}

} // verus!
