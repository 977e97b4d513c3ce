//! A remote pseudo-terminal session: request handling for one shell running
//! in a pseudo-terminal, and polling of its output.
pub mod env;
pub mod laws;
pub mod message;
pub mod pty;
pub mod service;

pub use crate::env::split_assignment;
pub use crate::message::{
    CloseTerminal, OpenTerminal, ResizeTerminal, TerminalClosed, TerminalData, TerminalError,
    TerminalFailure, TerminalOpened, TerminalRequest, TerminalResponse,
};
pub use crate::service::{
    exit_code_of, opened_response, output_response, pty_size_of, SessionState, TerminalService,
    READ_CHUNK,
};
