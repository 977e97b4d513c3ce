//! The boundary with `portable_pty` and `std::io`: the pseudo-terminal device,
//! the spawned child, and the byte streams bound to the controller side.
//! Each function here makes one outside call and states what that call
//! guarantees; the session logic in `service` is verified against these
//! contracts.
use portable_pty::{CommandBuilder, ExitStatus, PtyPair, PtySize};
use std::io::{Read, Write};
use vstd::prelude::*;

verus! {

#[verifier::external_type_specification]
#[verifier::external_body]
pub struct ExPtyPair(portable_pty::PtyPair);

#[verifier::external_type_specification]
pub struct ExPtySize(portable_pty::PtySize);

#[verifier::external_type_specification]
#[verifier::external_body]
pub struct ExCommandBuilder(portable_pty::CommandBuilder);

#[verifier::external_type_specification]
#[verifier::external_body]
pub struct ExExitStatus(portable_pty::ExitStatus);

/// A pseudo-terminal device pair, with the window sizes it was given, the
/// size it was opened with first.
pub struct PtyDevice {
    pub(crate) pair: PtyPair,
    pub(crate) sizes: Ghost<Seq<PtySize>>,
}

impl PtyDevice {
    /// The window sizes given to the device so far, in order.
    pub closed spec fn sizes(&self) -> Seq<PtySize> {
        self.sizes@
    }
}

/// The trait object of a spawned child process.
#[verifier::external_body]
pub struct RawChild {
    inner: Box<dyn portable_pty::Child + Send + Sync>,
}

/// How a child process was dealt with: signalled, or waited for until it
/// exited with a status.
pub enum ChildEvent {
    Killed,
    Exited(ExitStatus),
}

/// The spawned child process of an open terminal, with its process id and
/// what was done to it since it was spawned.
pub struct ChildHandle {
    pub(crate) raw: RawChild,
    pub(crate) pid: Ghost<Option<u32>>,
    pub(crate) events: Ghost<Seq<ChildEvent>>,
}

impl ChildHandle {
    /// The process id that the system reports for the child, if any.
    pub closed spec fn pid(&self) -> Option<u32> {
        self.pid@
    }

    /// The signals and waits applied to the child, in order.
    pub closed spec fn events(&self) -> Seq<ChildEvent> {
        self.events@
    }
}

/// The trait object of the controller side's write end.
#[verifier::external_body]
pub struct RawWriter {
    inner: Box<dyn Write + Send>,
}

/// What the input writer was asked to do: write bytes, or flush.
pub enum WriterEvent {
    Wrote(Seq<u8>),
    Flushed,
}

/// The write end bound to the controller side of the terminal, with what it
/// has completed since it was taken.
pub struct InputWriter {
    pub(crate) raw: RawWriter,
    pub(crate) events: Ghost<Seq<WriterEvent>>,
}

impl InputWriter {
    /// The completed writes and flushes, in order.
    pub closed spec fn events(&self) -> Seq<WriterEvent> {
        self.events@
    }
}

/// A read end cloned from the controller side of the terminal.
#[verifier::external_body]
pub struct OutputReader {
    inner: Box<dyn Read + Send>,
}

/// The argument vector that a command builder holds.
pub uninterp spec fn command_argv(c: CommandBuilder) -> Seq<Seq<char>>;

/// The environment entries set explicitly on a command builder, on top of
/// the environment inherited from this process, as name and value.
pub uninterp spec fn command_env_overrides(c: CommandBuilder) -> Map<Seq<char>, Seq<char>>;

/// The exit code that an exit status holds.
pub uninterp spec fn exit_status_code(s: ExitStatus) -> u32;

/// Relies on `CommandBuilder::new`: the argument vector is the program alone
/// and no entry is set explicitly yet.
#[verifier::external_body]
pub(crate) fn command_new(program: &str) -> (r: CommandBuilder)
    ensures
        command_argv(r) == seq![program@],
        command_env_overrides(r).dom() == Set::<Seq<char>>::empty(),
{
    CommandBuilder::new(program)
}

/// Relies on `CommandBuilder::env`: the entry for `key` is set to `value`,
/// and the argument vector is kept. An earlier entry whose name the platform
/// takes as the same (on Windows, up to case) is replaced; every other
/// entry is kept.
#[verifier::external_body]
pub(crate) fn command_env(cmd: &mut CommandBuilder, key: &str, value: &str)
    ensures
        command_argv(*final(cmd)) == command_argv(*old(cmd)),
        command_env_overrides(*final(cmd)).contains_key(key@),
        command_env_overrides(*final(cmd))[key@] == value@,
        forall|k: Seq<char>|
            #![trigger command_env_overrides(*final(cmd)).contains_key(k)]
            command_env_overrides(*final(cmd)).contains_key(k) && k != key@ ==> {
                &&& command_env_overrides(*old(cmd)).contains_key(k)
                &&& command_env_overrides(*final(cmd))[k] == command_env_overrides(*old(cmd))[k]
            },
{
    cmd.env(key, value)
}

/// Relies on `portable_pty::native_pty_system` and `PtySystem::openpty`:
/// allocates a controller/subordinate device pair of the given size. The
/// first call only yields the boxed pty system that `openpty` is called on.
#[verifier::external_body]
pub(crate) fn open_pty(size: PtySize) -> (r: Result<PtyDevice, String>)
    ensures
        r matches Ok(d) ==> d.sizes() == seq![size],
{
    match portable_pty::native_pty_system().openpty(size) {
        Ok(pair) => Ok(PtyDevice { pair, sizes: Ghost(seq![size]) }),
        Err(e) => Err(e.to_string()),
    }
}

/// Relies on `SlavePty::spawn_command`: launches the command attached to the
/// subordinate side of the device; nothing has been done to the new child.
#[verifier::external_body]
pub(crate) fn spawn_command(dev: &PtyDevice, cmd: CommandBuilder) -> (r: Result<
    ChildHandle,
    String,
>)
    ensures
        r matches Ok(c) ==> c.events() == Seq::<ChildEvent>::empty(),
{
    match dev.pair.slave.spawn_command(cmd) {
        Ok(inner) => Ok(
            ChildHandle {
                raw: RawChild { inner },
                pid: Ghost(arbitrary()),
                events: Ghost(Seq::empty()),
            },
        ),
        Err(e) => Err(e.to_string()),
    }
}

/// Relies on `MasterPty::take_writer`: the write end of the controller side,
/// which has written nothing yet.
#[verifier::external_body]
pub(crate) fn take_writer(dev: &PtyDevice) -> (r: Result<InputWriter, String>)
    ensures
        r matches Ok(w) ==> w.events() == Seq::<WriterEvent>::empty(),
{
    match dev.pair.master.take_writer() {
        Ok(inner) => Ok(InputWriter { raw: RawWriter { inner }, events: Ghost(Seq::empty()) }),
        Err(e) => Err(e.to_string()),
    }
}

/// Relies on `MasterPty::try_clone_reader`: a read end of the controller side.
#[verifier::external_body]
pub(crate) fn try_clone_reader(dev: &PtyDevice) -> (r: Result<OutputReader, String>) {
    match dev.pair.master.try_clone_reader() {
        Ok(inner) => Ok(OutputReader { inner }),
        Err(e) => Err(e.to_string()),
    }
}

/// Relies on `MasterPty::resize`: tells the kernel the new window size; a
/// failed call leaves the device as it was.
#[verifier::external_body]
pub(crate) fn resize_pty(dev: &mut PtyDevice, size: PtySize) -> (r: Result<(), String>)
    ensures
        r is Ok ==> final(dev).sizes() == old(dev).sizes().push(size),
        r is Err ==> *final(dev) == *old(dev),
{
    match dev.pair.master.resize(size) {
        Ok(()) => Ok(()),
        Err(e) => Err(e.to_string()),
    }
}

/// Relies on `Child::process_id`: the OS process id, where one is known.
#[verifier::external_body]
pub(crate) fn process_id(child: &ChildHandle) -> (r: Option<u32>)
    ensures
        r == child.pid(),
{
    child.raw.inner.process_id()
}

/// Relies on `ChildKiller::kill`: signals the child to terminate; it reports
/// a failed signal as an error and does not panic.
#[verifier::external_body]
pub(crate) fn kill_child(child: &mut ChildHandle) -> (r: Result<(), String>)
    ensures
        final(child).pid() == old(child).pid(),
        r is Ok ==> final(child).events() == old(child).events().push(ChildEvent::Killed),
        r is Err ==> final(child).events() == old(child).events(),
    opens_invariants none
    no_unwind
{
    match child.raw.inner.kill() {
        Ok(()) => Ok(()),
        Err(e) => Err(e.to_string()),
    }
}

/// Relies on `Child::wait`: blocks until the child exits, yielding its status.
#[verifier::external_body]
pub(crate) fn wait_child(child: &mut ChildHandle) -> (r: Result<ExitStatus, String>)
    ensures
        final(child).pid() == old(child).pid(),
        r matches Ok(s) ==> final(child).events() == old(child).events().push(
            ChildEvent::Exited(s),
        ),
        r is Err ==> final(child).events() == old(child).events(),
{
    match child.raw.inner.wait() {
        Ok(status) => Ok(status),
        Err(e) => Err(e.to_string()),
    }
}

/// Relies on `ExitStatus::exit_code`: the code the status was built with.
#[verifier::external_body]
pub(crate) fn status_exit_code(status: &ExitStatus) -> (r: u32)
    ensures
        r == exit_status_code(*status),
{
    status.exit_code()
}

/// Relies on `Write::write_all`: on success every byte of `data` was written.
#[verifier::external_body]
pub(crate) fn write_all(writer: &mut InputWriter, data: &[u8]) -> (r: Result<(), String>)
    ensures
        r is Ok ==> final(writer).events() == old(writer).events().push(
            WriterEvent::Wrote(data@),
        ),
{
    match writer.raw.inner.write_all(data) {
        Ok(()) => Ok(()),
        Err(e) => Err(e.to_string()),
    }
}

/// Relies on `Write::flush`: on success buffered bytes reached the device.
#[verifier::external_body]
pub(crate) fn flush(writer: &mut InputWriter) -> (r: Result<(), String>)
    ensures
        r is Ok ==> final(writer).events() == old(writer).events().push(WriterEvent::Flushed),
{
    match writer.raw.inner.flush() {
        Ok(()) => Ok(()),
        Err(e) => Err(e.to_string()),
    }
}

/// Relies on `Read::read`: at most `buf.len()` bytes are read into the front
/// of `buf`, whose length stays the same.
#[verifier::external_body]
pub(crate) fn read_into(reader: &mut OutputReader, buf: &mut Vec<u8>) -> (r: Result<
    usize,
    String,
>)
    ensures
        final(buf)@.len() == old(buf)@.len(),
        r matches Ok(n) ==> n <= old(buf)@.len(),
{
    match reader.inner.read(buf.as_mut_slice()) {
        Ok(n) => Ok(n),
        Err(e) => Err(e.to_string()),
    }
}

} // verus!
