//! One remote terminal: the session state, request dispatch, and polling of
//! the shell's output.
use crate::env::build_command;
use crate::message::{
    CloseTerminal, OpenTerminal, ResizeTerminal, TerminalClosed, TerminalData, TerminalError,
    TerminalFailure, TerminalOpened, TerminalRequest, TerminalResponse,
};
use crate::pty::{
    exit_status_code, flush, kill_child, open_pty, process_id, read_into, resize_pty,
    spawn_command, status_exit_code, take_writer, try_clone_reader, wait_child, write_all,
    ChildEvent, ChildHandle, InputWriter, PtyDevice, WriterEvent,
};
use portable_pty::PtySize;
use vstd::prelude::*;
use vstd::slice::{slice_subrange, slice_to_vec};
use vstd::string::*;

verus! {

/// Largest number of bytes that one poll of the output reads.
pub const READ_CHUNK: usize = 1024;

/// A session either has no shell, or owns the device, the child process and
/// the input writer of exactly one.
pub enum SessionState {
    Closed,
    Open { device: PtyDevice, child: ChildHandle, writer: InputWriter },
}

/// A remote pseudo-terminal session.
pub struct TerminalService {
    id: i32,
    state: SessionState,
    /// What was done to the child of the shell that was closed last.
    closed_child: Ghost<Seq<ChildEvent>>,
}

/// The window size handed to the device for `rows` by `cols` characters;
/// pixel sizes are not tracked.
pub open spec fn pty_size(rows: u16, cols: u16) -> PtySize {
    PtySize { rows, cols, pixel_width: 0, pixel_height: 0 }
}

/// The pid reported for a child: its process id, or 0 where none is known.
pub open spec fn reported_pid(c: ChildHandle) -> u32 {
    match c.pid() {
        Some(p) => p,
        None => 0,
    }
}

/// The response to an open request on a session that already runs a shell.
pub open spec fn already_open(resp: TerminalResponse) -> bool {
    resp matches TerminalResponse::Opened(o) && !o.success && o.message@ == "Terminal already open"@
        && o.pid == 0
}

/// The response to an open request that started a shell with process id
/// `pid` (0 where the system reports none).
pub open spec fn opened_with(resp: TerminalResponse, pid: u32) -> bool {
    resp matches TerminalResponse::Opened(o) && o.success && o.message@ == "Terminal opened"@
        && o.pid == pid
}

/// The response that echoes `data` back.
pub open spec fn echoes(resp: TerminalResponse, data: Seq<u8>) -> bool {
    resp matches TerminalResponse::Data(d) && d.data@ == data
}

/// The response that reports exit code `code`.
pub open spec fn closed_with(resp: TerminalResponse, code: i32) -> bool {
    resp matches TerminalResponse::Closed(c) && c.exit_code == code
}

/// The session `post` runs a freshly opened shell on a device of `size`,
/// and `resp` reports that shell's pid.
pub open spec fn freshly_opened(post: TerminalService, size: PtySize, resp: TerminalResponse) -> bool {
    &&& post.is_open()
    &&& post.terminal_handle() matches Some(d) && d.sizes() == seq![size]
    &&& post.process_handle() matches Some(c) && c.events() == Seq::<ChildEvent>::empty()
        && opened_with(resp, reported_pid(c))
    &&& post.input_writer() matches Some(w) && w.events() == Seq::<WriterEvent>::empty()
}

/// Session `post` keeps the shell of `pre`: same device, same child, same
/// record of the last closed child.
pub open spec fn same_shell(pre: TerminalService, post: TerminalService) -> bool {
    &&& post.is_open()
    &&& post.terminal_handle() == pre.terminal_handle()
    &&& post.process_handle() == pre.process_handle()
    &&& post.closed_child_events() == pre.closed_child_events()
}

/// What handling `req` on session `pre` may produce: the result `r` and the
/// session `post` afterwards.
pub open spec fn handled(
    pre: TerminalService,
    req: TerminalRequest,
    r: Result<TerminalResponse, TerminalFailure>,
    post: TerminalService,
) -> bool {
    &&& post.session_id() == pre.session_id()
    &&& match req {
        TerminalRequest::Empty => r == Ok::<TerminalResponse, TerminalFailure>(
            TerminalResponse::Empty,
        ) && post == pre,
        TerminalRequest::Open(o) => if pre.is_open() {
            post == pre && (r matches Ok(resp) && already_open(resp))
        } else {
            match r {
                Ok(resp) => freshly_opened(post, pty_size(o.rows, o.cols), resp)
                    && post.closed_child_events() == pre.closed_child_events(),
                Err(e) => post == pre && (e is DeviceCreationFailed || e is ProcessSpawnFailed
                    || e is WriterUnavailable),
            }
        },
        TerminalRequest::Resize(z) => if pre.is_open() {
            match r {
                Ok(resp) => {
                    &&& resp is Empty
                    &&& post.is_open()
                    &&& post.terminal_handle() matches Some(d) && pre.terminal_handle() matches Some(
                        d0,
                    ) && d.sizes() == d0.sizes().push(pty_size(z.rows, z.cols))
                    &&& post.process_handle() == pre.process_handle()
                    &&& post.input_writer() == pre.input_writer()
                    &&& post.closed_child_events() == pre.closed_child_events()
                },
                Err(e) => post == pre && e is IoFailure,
            }
        } else {
            post == pre && r == Ok::<TerminalResponse, TerminalFailure>(TerminalResponse::Empty)
        },
        TerminalRequest::Data(d) => if pre.is_open() {
            &&& same_shell(pre, post)
            &&& match r {
                Ok(resp) => echoes(resp, d.data@) && (post.input_writer() matches Some(w)
                    && pre.input_writer() matches Some(w0) && w.events() == w0.events() + seq![
                    WriterEvent::Wrote(d.data@),
                    WriterEvent::Flushed,
                ]),
                Err(e) => e is IoFailure,
            }
        } else {
            post == pre && r == Ok::<TerminalResponse, TerminalFailure>(TerminalResponse::Empty)
        },
        TerminalRequest::Close(c) => if pre.is_open() {
            &&& !post.is_open()
            &&& pre.process_handle() matches Some(child) && {
                let ended = post.closed_child_events();
                match r {
                    Ok(resp) => if c.force {
                        closed_with(resp, -1i32) && ended == child.events().push(ChildEvent::Killed)
                    } else {
                        &&& ended.len() == child.events().len() + 1
                        &&& ended.drop_last() == child.events()
                        &&& ended.last() matches ChildEvent::Exited(st) && closed_with(
                            resp,
                            exit_status_code(st) as i32,
                        )
                    },
                    Err(e) => e is IoFailure && ended == child.events(),
                }
            }
        } else {
            post == pre && (r matches Ok(resp) && closed_with(resp, 0i32))
        },
    }
}

/// What one poll of the output on session `pre` may produce.
pub open spec fn polled(
    pre: TerminalService,
    r: Result<Option<TerminalResponse>, TerminalFailure>,
    post: TerminalService,
) -> bool {
    &&& post == pre
    &&& if pre.is_open() {
        match r {
            Ok(Some(resp)) => (resp matches TerminalResponse::Data(d) && 0 < d.data@.len()
                <= READ_CHUNK) || (resp matches TerminalResponse::Error(e)
                && "Read error: "@.is_prefix_of(e.message@)),
            Ok(None) => true,
            Err(e) => e is IoFailure,
        }
    } else {
        r == Ok::<Option<TerminalResponse>, TerminalFailure>(None)
    }
}

/// The open response for a shell whose process id the system reported as
/// `pid`.
pub fn opened_response(pid: Option<u32>) -> (r: TerminalResponse)
    ensures
        opened_with(
            r,
            match pid {
                Some(p) => p,
                None => 0,
            },
        ),
{
    let p: u32 = match pid {
        Some(p) => p,
        None => 0,
    };
    TerminalResponse::Opened(
        TerminalOpened { success: true, message: String::from_str("Terminal opened"), pid: p },
    )
}

/// The window size for `rows` by `cols` characters, with no pixel sizes.
pub fn pty_size_of(rows: u16, cols: u16) -> (r: PtySize)
    ensures
        r == pty_size(rows, cols),
{
    PtySize { rows, cols, pixel_width: 0, pixel_height: 0 }
}

/// The exit code reported for a shell that exited with status `status`.
pub fn exit_code_of(status: u32) -> (r: i32)
    ensures
        r == status as i32,
{
    status as i32
}

/// The response to one read of the output into `buf`: the bytes read, none
/// at the end of the output, or an in-band error with the system's message.
pub fn output_response(buf: &Vec<u8>, outcome: Result<usize, String>) -> (r: Option<
    TerminalResponse,
>)
    requires
        outcome matches Ok(n) ==> n <= buf@.len(),
    ensures
        match outcome {
            Ok(n) => if n == 0 {
                r is None
            } else {
                r matches Some(TerminalResponse::Data(d)) && d.data@ == buf@.subrange(0, n as int)
            },
            Err(m) => r matches Some(TerminalResponse::Error(e)) && e.message@ == "Read error: "@
                + m@,
        },
{
    match outcome {
        Ok(n) => {
            if n == 0 {
                None
            } else {
                let data = slice_to_vec(slice_subrange(buf.as_slice(), 0, n));
                Some(TerminalResponse::Data(TerminalData { data }))
            }
        },
        Err(m) => {
            let mut message = String::from_str("Read error: ");
            message.append(m.as_str());
            Some(TerminalResponse::Error(TerminalError { message }))
        },
    }
}

impl TerminalService {
    /// The identifier the session was created with.
    pub closed spec fn session_id(&self) -> i32 {
        self.id
    }

    /// A shell is active in this session.
    pub closed spec fn is_open(&self) -> bool {
        self.state is Open
    }

    /// What was done to the child of the shell that was closed last.
    pub closed spec fn closed_child_events(&self) -> Seq<ChildEvent> {
        self.closed_child@
    }

    /// The pseudo-terminal device, while a shell is active.
    pub closed spec fn terminal_handle(&self) -> Option<PtyDevice> {
        match self.state {
            SessionState::Open { device, .. } => Some(device),
            SessionState::Closed => None,
        }
    }

    /// The child process, while a shell is active.
    pub closed spec fn process_handle(&self) -> Option<ChildHandle> {
        match self.state {
            SessionState::Open { child, .. } => Some(child),
            SessionState::Closed => None,
        }
    }

    /// The input writer, while a shell is active.
    pub closed spec fn input_writer(&self) -> Option<InputWriter> {
        match self.state {
            SessionState::Open { writer, .. } => Some(writer),
            SessionState::Closed => None,
        }
    }

    /// A session with identifier `id` and no shell.
    pub fn new(id: i32) -> (r: Self)
        ensures
            r.session_id() == id,
            !r.is_open(),
    {
        TerminalService { id, state: SessionState::Closed, closed_child: Ghost(Seq::empty()) }
    }

    /// Handles one request from the remote peer.
    pub fn handle_request(&mut self, req: &TerminalRequest) -> (r: Result<
        TerminalResponse,
        TerminalFailure,
    >)
        ensures
            handled(*old(self), *req, r, *final(self)),
    {
        match req {
            TerminalRequest::Empty => Ok(TerminalResponse::Empty),
            TerminalRequest::Open(open) => self.handle_open(open),
            TerminalRequest::Resize(resize) => self.handle_resize(resize),
            TerminalRequest::Data(data) => self.handle_data(data),
            TerminalRequest::Close(close) => self.handle_close(close),
        }
    }

    fn handle_open(&mut self, open: &OpenTerminal) -> (r: Result<
        TerminalResponse,
        TerminalFailure,
    >)
        ensures
            handled(*old(self), TerminalRequest::Open(*open), r, *final(self)),
    {
        if let SessionState::Open { .. } = &self.state {
            let resp = TerminalResponse::Opened(
                TerminalOpened {
                    success: false,
                    message: String::from_str("Terminal already open"),
                    pid: 0,
                },
            );
            return Ok(resp);
        }
        let device = match open_pty(pty_size_of(open.rows, open.cols)) {
            Ok(device) => device,
            Err(m) => return Err(TerminalFailure::DeviceCreationFailed(m)),
        };
        let cmd = build_command(open.shell.as_str(), &open.env);
        let child = match spawn_command(&device, cmd) {
            Ok(child) => child,
            Err(m) => return Err(TerminalFailure::ProcessSpawnFailed(m)),
        };
        let writer = match take_writer(&device) {
            Ok(writer) => writer,
            Err(m) => return Err(TerminalFailure::WriterUnavailable(m)),
        };
        let pid = process_id(&child);
        self.state = SessionState::Open { device, child, writer };
        Ok(opened_response(pid))
    }

    fn handle_resize(&mut self, resize: &ResizeTerminal) -> (r: Result<
        TerminalResponse,
        TerminalFailure,
    >)
        ensures
            handled(*old(self), TerminalRequest::Resize(*resize), r, *final(self)),
    {
        if let SessionState::Open { device, .. } = &mut self.state {
            if let Err(m) = resize_pty(device, pty_size_of(resize.rows, resize.cols)) {
                return Err(TerminalFailure::IoFailure(m));
            }
        }
        Ok(TerminalResponse::Empty)
    }

    fn handle_data(&mut self, data: &TerminalData) -> (r: Result<
        TerminalResponse,
        TerminalFailure,
    >)
        ensures
            handled(*old(self), TerminalRequest::Data(*data), r, *final(self)),
    {
        if let SessionState::Open { writer, .. } = &mut self.state {
            let ghost before = writer.events();
            if let Err(m) = write_all(writer, data.data.as_slice()) {
                return Err(TerminalFailure::IoFailure(m));
            }
            if let Err(m) = flush(writer) {
                return Err(TerminalFailure::IoFailure(m));
            }
            assert(writer.events() =~= before + seq![
                WriterEvent::Wrote(data.data@),
                WriterEvent::Flushed,
            ]);
            let echo = slice_to_vec(data.data.as_slice());
            return Ok(TerminalResponse::Data(TerminalData { data: echo }));
        }
        Ok(TerminalResponse::Empty)
    }

    fn handle_close(&mut self, close: &CloseTerminal) -> (r: Result<
        TerminalResponse,
        TerminalFailure,
    >)
        ensures
            handled(*old(self), TerminalRequest::Close(*close), r, *final(self)),
    {
        if let SessionState::Closed = &self.state {
            return Ok(TerminalResponse::Closed(TerminalClosed { exit_code: 0 }));
        }
        let mut state = SessionState::Closed;
        std::mem::swap(&mut self.state, &mut state);
        match state {
            SessionState::Closed => Ok(TerminalResponse::Closed(TerminalClosed { exit_code: 0 })),
            SessionState::Open { mut child, .. } => {
                let ghost before = child.events();
                let outcome = if close.force {
                    match kill_child(&mut child) {
                        Ok(()) => Ok(-1i32),
                        Err(m) => Err(m),
                    }
                } else {
                    match wait_child(&mut child) {
                        Ok(status) => Ok(exit_code_of(status_exit_code(&status))),
                        Err(m) => Err(m),
                    }
                };
                self.closed_child = Ghost(child.events());
                proof {
                    if !close.force && outcome is Ok {
                        assert(child.events().drop_last() =~= before);
                    }
                }
                match outcome {
                    Ok(exit_code) => Ok(TerminalResponse::Closed(TerminalClosed { exit_code })),
                    Err(m) => Err(TerminalFailure::IoFailure(m)),
                }
            },
        }
    }

    /// Polls the shell's output once: the bytes of one read, nothing at the
    /// end of the output or while no shell is active, or an in-band error
    /// where the read fails.
    pub fn read_output(&mut self) -> (r: Result<Option<TerminalResponse>, TerminalFailure>)
        ensures
            polled(*old(self), r, *final(self)),
    {
        if let SessionState::Open { device, .. } = &self.state {
            let mut reader = match try_clone_reader(device) {
                Ok(reader) => reader,
                Err(m) => return Err(TerminalFailure::IoFailure(m)),
            };
            let mut buf: Vec<u8> = vec![0u8; READ_CHUNK];
            let outcome = read_into(&mut reader, &mut buf);
            let resp = output_response(&buf, outcome);
            proof {
                reveal_strlit("Read error: ");
            }
            return Ok(resp);
        }
        Ok(None)
    }
}

impl Drop for TerminalService {
    /// Tearing a session down kills a shell that is still running; the
    /// device, the process handle and the writer are released with it.
    fn drop(&mut self)
        opens_invariants none
        no_unwind
    {
        if let SessionState::Open { child, .. } = &mut self.state {
            let _ = kill_child(child);
        }
    }
}

/// A session holds its device, its child process and its input writer all
/// together or none of them: they are present exactly while a shell is
/// active.
pub proof fn lemma_handles_all_or_none(s: TerminalService)
    ensures
        s.terminal_handle() is Some <==> s.is_open(),
        s.process_handle() is Some <==> s.is_open(),
        s.input_writer() is Some <==> s.is_open(),
{
}

} // verus!
