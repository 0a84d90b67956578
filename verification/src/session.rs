//! One terminal session: the record the interface keeps of a shell running
//! on a pseudo-terminal, and the decisions of its life cycle.
//!
//! The record holds plain values only. Opening the pseudo-terminal, reading
//! and writing it and waiting for the child are done by the caller, who hands
//! in what happened and acts on what these functions return.

use vstd::prelude::*;
use vstd::string::*;
use vstd::utf8::*;
use crate::keymap::{key_bytes, key_event_to_bytes, KeyInput};
use crate::size::TerminalSize;
use crate::text::{same_text, string_of, chars_of};
use crate::title::{resolve_title, resolved_title, ProcessInfo};

verus! {

/// How long the front end waits for an event before it draws again, in
/// milliseconds.
pub const UI_TICK_MILLIS: u64 = 100;

/// How long the title monitor rests between two looks at the process table,
/// in milliseconds.
pub const TITLE_POLL_MILLIS: u64 = 500;

/// The size of the reader's buffer, in bytes.
pub const READ_BUFFER_BYTES: usize = 8192;

/// Why a session could not be started: the pseudo-terminal could not be
/// allocated or the shell could not be launched.
#[derive(Clone, Debug)]
pub struct SpawnFailure {
    pub reason: String,
}

/// The geometry asked of a pseudo-terminal. Pixel sizes are always zero.
#[derive(Clone, Copy, Debug, PartialEq, Eq, Structural)]
pub struct PtyGeometry {
    pub rows: u16,
    pub cols: u16,
    pub pixel_width: u16,
    pub pixel_height: u16,
}

/// What a read from the pseudo-terminal gave.
#[derive(Clone, Copy, Debug, PartialEq, Eq, Structural)]
pub enum ReadOutcome {
    /// This many bytes were read; zero is the end of the stream.
    Bytes(usize),
    /// The read was interrupted before any byte arrived.
    Interrupted,
    /// The read failed for another reason.
    Failed,
}

/// What the reader does after a read.
#[derive(Clone, Copy, Debug, PartialEq, Eq, Structural)]
pub enum ReaderStep {
    /// Feed the bytes to the screen and read again.
    Feed,
    /// Read again.
    Retry,
    /// Leave the loop and record how the child ended.
    Stop,
}

/// What tearing a session down asks of the caller.
#[derive(Clone, Copy, Debug, PartialEq, Eq, Structural)]
pub struct ShutdownPlan {
    /// Kill the child and wait for it.
    pub kill_child: bool,
    /// Join the reader and the title monitor.
    pub join_threads: bool,
}

/// The mathematical value of a session.
pub struct SessionView {
    pub id: usize,
    pub base_title: Seq<char>,
    pub title: Seq<char>,
    pub size: TerminalSize,
    /// `None` while the child runs; afterwards whether it ended successfully.
    pub exit_status: Option<bool>,
    /// Whether the session has been torn down.
    pub closed: bool,
}

/// The record of one session.
#[derive(Debug)]
pub struct PtySession {
    id: usize,
    base_title: String,
    title: String,
    size: TerminalSize,
    exit_status: Option<bool>,
    closed: bool,
}

impl View for PtySession {
    type V = SessionView;

    closed spec fn view(&self) -> SessionView {
        SessionView {
            id: self.id,
            base_title: self.base_title@,
            title: self.title@,
            size: self.size,
            exit_status: self.exit_status,
            closed: self.closed,
        }
    }
}

/// The geometry for a size.
pub open spec fn geometry_of(size: TerminalSize) -> PtyGeometry {
    PtyGeometry { rows: size.rows, cols: size.cols, pixel_width: 0, pixel_height: 0 }
}

/// A session as it is right after it was started.
pub open spec fn fresh_session(id: usize, title: Seq<char>, size: TerminalSize) -> SessionView {
    SessionView { id, base_title: title, title, size, exit_status: None, closed: false }
}

/// The session after a resize request, and the geometry to apply, if any.
pub open spec fn resize_step(session: SessionView, size: TerminalSize) -> (
    SessionView,
    Option<PtyGeometry>,
) {
    if session.size == size {
        (session, None)
    } else {
        (SessionView { size, ..session }, Some(geometry_of(size)))
    }
}

/// The bytes that type `command` into a shell and submit it.
pub open spec fn command_line(command: Seq<char>) -> Seq<u8> {
    encode_utf8(command) + seq![0x0du8, 0x0au8]
}

/// The completion flag after the child ended with `success`: a flag that is
/// set stays as it is.
pub open spec fn exit_recorded(flag: Option<bool>, success: bool) -> Option<bool> {
    match flag {
        Some(_) => flag,
        None => Some(success),
    }
}

/// The title after a look at the process table: a running session whose
/// foreground process has a name takes the composed title; any other keeps
/// the title it has.
pub open spec fn title_after(session: SessionView, table: Seq<ProcessInfo>, shell: u32) -> Seq<
    char,
> {
    match resolved_title(table, shell, session.base_title) {
        Some(title) => if session.exit_status is None {
            title
        } else {
            session.title
        },
        None => session.title,
    }
}

impl PtySession {
    /// Records a session that the caller tried to start. `started` is what
    /// became of allocating the pseudo-terminal and launching the shell: on a
    /// failure no session is made and the failure is handed back.
    pub fn spawn(id: usize, title: &str, size: TerminalSize, started: Result<(), SpawnFailure>) -> (out:
        Result<PtySession, SpawnFailure>)
        ensures
            started is Ok ==> out is Ok && out->Ok_0@ == fresh_session(id, title@, size),
            started is Err ==> out is Err && out->Err_0 == started->Err_0,
    {
        match started {
            Ok(_) => {
                let chars = chars_of(title);
                Ok(
                    PtySession {
                        id,
                        base_title: string_of(&chars),
                        title: string_of(&chars),
                        size,
                        exit_status: None,
                        closed: false,
                    },
                )
            },
            Err(failure) => Err(failure),
        }
    }

    /// The number by which the caller finds the session's resources.
    pub fn id(&self) -> (id: usize)
        ensures
            id == self@.id,
    {
        self.id
    }

    /// The title shown for the session.
    pub fn title(&self) -> (title: &str)
        ensures
            title@ == self@.title,
    {
        self.title.as_str()
    }

    /// The title the session was started with.
    pub fn base_title(&self) -> (title: &str)
        ensures
            title@ == self@.base_title,
    {
        self.base_title.as_str()
    }

    /// The size the session was last given.
    pub fn size(&self) -> (size: TerminalSize)
        ensures
            size == self@.size,
    {
        self.size
    }

    /// The geometry to open the pseudo-terminal with.
    pub fn geometry(&self) -> (geometry: PtyGeometry)
        ensures
            geometry == geometry_of(self@.size),
    {
        PtyGeometry { rows: self.size.rows, cols: self.size.cols, pixel_width: 0, pixel_height: 0 }
    }

    /// Gives the session a new size. An unchanged size asks for nothing;
    /// otherwise the session takes the size and the geometry to apply to the
    /// screen and to the pseudo-terminal is returned.
    pub fn resize_to(&mut self, size: TerminalSize) -> (request: Option<PtyGeometry>)
        ensures
            final(self)@ == resize_step(old(self)@, size).0,
            request == resize_step(old(self)@, size).1,
    {
        if self.size.rows == size.rows && self.size.cols == size.cols {
            None
        } else {
            self.size = size;
            Some(PtyGeometry { rows: size.rows, cols: size.cols, pixel_width: 0, pixel_height: 0 })
        }
    }

    /// The bytes to write to the session for a key, to be flushed at once.
    /// Keys without a byte sequence give nothing.
    pub fn handle_key_event(&self, key: KeyInput) -> (bytes: Option<Vec<u8>>)
        ensures
            bytes is Some == key_bytes(key) is Some,
            bytes is Some ==> bytes->0@ == key_bytes(key)->0,
    {
        key_event_to_bytes(key)
    }

    /// The bytes to write to the session to run `command`: its text, then a
    /// carriage return and a line feed.
    pub fn send_command(&self, command: &str) -> (bytes: Vec<u8>)
        ensures
            bytes@ == command_line(command@),
    {
        let mut bytes = command.as_bytes_vec();
        bytes.push(0x0d);
        bytes.push(0x0a);
        bytes
    }

    /// Whether the child has ended.
    pub fn is_terminated(&self) -> (ended: bool)
        ensures
            ended == self@.exit_status is Some,
    {
        self.exit_status.is_some()
    }

    /// Records that the child ended. The first record stands: a session that
    /// has ended is not changed.
    pub fn record_exit(&mut self, success: bool)
        ensures
            final(self)@ == (SessionView {
                exit_status: exit_recorded(old(self)@.exit_status, success),
                ..old(self)@
            }),
    {
        if self.exit_status.is_none() {
            self.exit_status = Some(success);
        }
    }

    /// Publishes `title` if it differs from the title shown. Returns whether
    /// it did.
    pub fn update_title(&mut self, title: &str) -> (changed: bool)
        ensures
            changed == (old(self)@.title != title@),
            final(self)@ == (SessionView { title: title@, ..old(self)@ }),
    {
        if same_text(self.title.as_str(), title) {
            false
        } else {
            let chars = chars_of(title);
            self.title = string_of(&chars);
            true
        }
    }

    /// One round of the title monitor: looks up the foreground program of the
    /// shell `shell` and publishes the composed title if it changed. Returns
    /// `false` once the session has ended, which is when the monitor leaves;
    /// the title is then no longer touched.
    pub fn refresh_title(&mut self, table: &Vec<ProcessInfo>, shell: u32) -> (keep_going: bool)
        ensures
            keep_going == old(self)@.exit_status is None,
            final(self)@ == (SessionView {
                title: title_after(old(self)@, table@, shell),
                ..old(self)@
            }),
    {
        if self.exit_status.is_some() {
            return false;
        }
        match resolve_title(table, shell, self.base_title.as_str()) {
            Some(title) => {
                self.update_title(title.as_str());
            },
            None => {},
        }
        true
    }

    /// Tears the session down. The first call asks the caller to kill the
    /// child unless it has already ended and to join the session's threads,
    /// and marks the session as ended if it was not; every later call asks
    /// for nothing and changes nothing.
    pub fn shutdown(&mut self, child_exited: bool) -> (plan: ShutdownPlan)
        ensures
            old(self)@.closed ==> final(self)@ == old(self)@ && plan == (ShutdownPlan {
                kill_child: false,
                join_threads: false,
            }),
            !old(self)@.closed ==> final(self)@ == (SessionView {
                exit_status: exit_recorded(old(self)@.exit_status, false),
                closed: true,
                ..old(self)@
            }) && plan == (ShutdownPlan { kill_child: !child_exited, join_threads: true }),
    {
        if self.closed {
            ShutdownPlan { kill_child: false, join_threads: false }
        } else {
            self.closed = true;
            if self.exit_status.is_none() {
                self.exit_status = Some(false);
            }
            ShutdownPlan { kill_child: !child_exited, join_threads: true }
        }
    }
}

/// What the reader does after a read: data is fed to the screen, an
/// interrupted read is tried again, the end of the stream and any other
/// failure end the loop.
pub open spec fn reader_step(outcome: ReadOutcome) -> ReaderStep {
    match outcome {
        ReadOutcome::Bytes(n) => if n == 0 {
            ReaderStep::Stop
        } else {
            ReaderStep::Feed
        },
        ReadOutcome::Interrupted => ReaderStep::Retry,
        ReadOutcome::Failed => ReaderStep::Stop,
    }
}

/// Decides what the reader does after a read.
pub fn after_read(outcome: ReadOutcome) -> (step: ReaderStep)
    ensures
        step == reader_step(outcome),
{
    match outcome {
        ReadOutcome::Bytes(n) => if n == 0 {
            ReaderStep::Stop
        } else {
            ReaderStep::Feed
        },
        ReadOutcome::Interrupted => ReaderStep::Retry,
        ReadOutcome::Failed => ReaderStep::Stop,
    }
}

/// How the child ended, from the reader's two attempts to learn it: the
/// check that does not block, and the wait made only if that check gave
/// nothing. `None` when neither gave a status.
pub fn reaped_status(checked: Option<bool>, waited: Option<bool>) -> (status: Option<bool>)
    ensures
        status == if checked is Some {
            checked
        } else {
            waited
        },
{
    match checked {
        Some(success) => Some(success),
        None => waited,
    }
}

/// The shell to launch: the one the environment names, else the platform's
/// default (`cmd.exe` on Windows, `/bin/sh` elsewhere).
pub fn default_shell(windows: bool, configured: Option<String>) -> (shell: String)
    ensures
        shell@ == match configured {
            Some(name) => name@,
            None => if windows {
                "cmd.exe"@
            } else {
                "/bin/sh"@
            },
        },
{
    match configured {
        Some(name) => name,
        None => if windows {
            "cmd.exe".to_owned()
        } else {
            "/bin/sh".to_owned()
        },
    }
}

/// Asking twice for the same size applies the geometry at most once: the
/// second request asks for nothing and leaves the session as it is.
pub proof fn lemma_resize_same_size_once(session: SessionView, size: TerminalSize)
    ensures
        resize_step(resize_step(session, size).0, size).1 is None,
        resize_step(resize_step(session, size).0, size).0 == resize_step(session, size).0,
        resize_step(session, size).0.size == size,
{
}

/// The completion flag is written once: recording an exit on a flag that is
/// set changes nothing, and a recorded exit is never taken back.
pub proof fn lemma_exit_recorded_once(flag: Option<bool>, first: bool, second: bool)
    ensures
        exit_recorded(flag, first) is Some,
        exit_recorded(exit_recorded(flag, first), second) == exit_recorded(flag, first),
        flag is Some ==> exit_recorded(flag, first) == flag,
{
}

} // verus!
