//! Laws of request handling and output polling, proved from the contracts
//! of `TerminalService::handle_request` and `TerminalService::read_output`.
use crate::message::{TerminalFailure, TerminalRequest, TerminalResponse};
use crate::service::{
    already_open, closed_with, echoes, handled, lemma_handles_all_or_none, polled,
    TerminalService,
};
use vstd::prelude::*;

verus! {

/// An open request on a session that already runs a shell is refused with
/// an unsuccessful open response, and the session is left as it was.
pub proof fn lemma_open_when_open_is_refused(
    pre: TerminalService,
    req: TerminalRequest,
    r: Result<TerminalResponse, TerminalFailure>,
    post: TerminalService,
)
    requires
        handled(pre, req, r, post),
        req is Open,
        pre.is_open(),
    ensures
        post == pre,
        r matches Ok(resp) && already_open(resp),
{
}

/// A resize or data request on a session without a shell changes nothing,
/// fails in no way, and populates no arm of the response.
pub proof fn lemma_closed_session_ignores_resize_and_data(
    pre: TerminalService,
    req: TerminalRequest,
    r: Result<TerminalResponse, TerminalFailure>,
    post: TerminalService,
)
    requires
        handled(pre, req, r, post),
        req is Resize || req is Data,
        !pre.is_open(),
    ensures
        post == pre,
        r == Ok::<TerminalResponse, TerminalFailure>(TerminalResponse::Empty),
{
}

/// After a successful open the device, the process and the writer are all
/// present; after any close all three are absent.
pub proof fn lemma_open_and_close_move_all_handles(
    pre: TerminalService,
    req: TerminalRequest,
    r: Result<TerminalResponse, TerminalFailure>,
    post: TerminalService,
)
    requires
        handled(pre, req, r, post),
    ensures
        req is Open && (r matches Ok(TerminalResponse::Opened(o)) && o.success) ==> {
            &&& post.terminal_handle() is Some
            &&& post.process_handle() is Some
            &&& post.input_writer() is Some
        },
        req is Close ==> {
            &&& post.terminal_handle() is None
            &&& post.process_handle() is None
            &&& post.input_writer() is None
        },
{
    lemma_handles_all_or_none(post);
}

/// A forced close of a running shell reports exit code -1.
pub proof fn lemma_forced_close_reports_minus_one(
    pre: TerminalService,
    req: TerminalRequest,
    r: Result<TerminalResponse, TerminalFailure>,
    post: TerminalService,
)
    requires
        handled(pre, req, r, post),
        req matches TerminalRequest::Close(c) && c.force,
        pre.is_open(),
    ensures
        r matches Ok(resp) ==> closed_with(resp, -1i32),
{
}

/// Closing a session without a shell succeeds and reports exit code 0.
pub proof fn lemma_close_when_closed_reports_zero(
    pre: TerminalService,
    req: TerminalRequest,
    r: Result<TerminalResponse, TerminalFailure>,
    post: TerminalService,
)
    requires
        handled(pre, req, r, post),
        req is Close,
        !pre.is_open(),
    ensures
        r matches Ok(resp) && closed_with(resp, 0i32),
        !post.is_open(),
{
}

/// A data request that succeeds on an active session answers with exactly
/// the bytes it carried.
pub proof fn lemma_data_is_echoed(
    pre: TerminalService,
    req: TerminalRequest,
    r: Result<TerminalResponse, TerminalFailure>,
    post: TerminalService,
)
    requires
        handled(pre, req, r, post),
        req matches TerminalRequest::Data(d),
        pre.is_open(),
        r is Ok,
    ensures
        req matches TerminalRequest::Data(d) && (r matches Ok(resp) && echoes(resp, d.data@)),
{
}

/// Polling a session without a shell yields no response and no failure.
pub proof fn lemma_poll_when_closed_is_silent(
    pre: TerminalService,
    r: Result<Option<TerminalResponse>, TerminalFailure>,
    post: TerminalService,
)
    requires
        polled(pre, r, post),
        !pre.is_open(),
    ensures
        r == Ok::<Option<TerminalResponse>, TerminalFailure>(None),
        post == pre,
{
}

} // verus!
