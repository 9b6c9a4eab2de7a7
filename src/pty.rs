//! Pseudo-terminal sessions: the command and geometry a session starts with,
//! the session handle, and the decisions of its byte drain loop.
use vstd::prelude::*;

use portable_pty::{CommandBuilder, PtySize};
use std::io::Write;
use std::sync::atomic::{AtomicBool, Ordering};
use std::sync::Arc;

verus! {

/// Prefix of a session's output event name.
pub const OUTPUT_EVENT_PREFIX: &'static str = "terminal-output-";

/// Prefix of a session's exit event name.
pub const EXIT_EVENT_PREFIX: &'static str = "terminal-exit-";

/// Rows of the terminal a session starts with.
pub const TERMINAL_ROWS: u16 = 24;

/// Columns of the terminal a session starts with.
pub const TERMINAL_COLS: u16 = 80;

/// Bytes taken from the terminal per read.
pub const READ_CHUNK: usize = 4096;

#[verifier::external_type_specification]
#[verifier::external_body]
pub struct ExCommandBuilder(CommandBuilder);

#[verifier::external_type_specification]
pub struct ExPtySize(PtySize);

/// The argument vector a command builder holds, program first.
pub uninterp spec fn argv_of(c: CommandBuilder) -> Seq<Seq<char>>;

/// Relies on `CommandBuilder::new`: the argument vector is the program alone.
#[verifier::external_body]
fn command_new(program: &str) -> (r: CommandBuilder)
    ensures
        argv_of(r) == seq![program@],
{
    CommandBuilder::new(program)
}

/// Relies on `CommandBuilder::arg`: the argument is appended. It panics only
/// on a builder with an empty argument vector.
#[verifier::external_body]
fn command_arg(cmd: &mut CommandBuilder, arg: &str)
    requires
        argv_of(*old(cmd)).len() > 0,
    ensures
        argv_of(*final(cmd)) == argv_of(*old(cmd)).push(arg@),
{
    cmd.arg(arg)
}

/// Relies on `Write::write_all` of the terminal's writer; its error is
/// turned into its message.
#[verifier::external_body]
fn write_all_bytes<W: Write>(writer: &mut W, data: &[u8]) -> (r: Result<(), String>) {
    writer.write_all(data).map_err(|e| e.to_string())
}

/// The command line of a session: `command` followed by `args`.
pub fn build_command(command: &str, args: &[&str]) -> (r: CommandBuilder)
    ensures
        argv_of(r) == seq![command@] + args@.map_values(|a: &str| a@),
{
    let mut cmd = command_new(command);
    let mut i: usize = 0;
    while i < args.len()
        invariant
            i <= args.len(),
            argv_of(cmd) == seq![command@] + args@.subrange(0, i as int).map_values(|a: &str| a@),
        decreases args.len() - i,
    {
        command_arg(&mut cmd, args[i]);
        assert(args@.subrange(0, i + 1).map_values(|a: &str| a@) =~= args@.subrange(0, i as int).map_values(
            |a: &str| a@,
        ).push(args@[i as int]@));
        i = i + 1;
    }
    assert(args@.subrange(0, args.len() as int) =~= args@);
    cmd
}

/// The geometry a session's terminal is opened with: 24 rows of 80 columns,
/// no pixel size.
pub fn terminal_size() -> (r: PtySize)
    ensures
        r.rows == TERMINAL_ROWS,
        r.cols == TERMINAL_COLS,
        r.pixel_width == 0,
        r.pixel_height == 0,
{
    PtySize { rows: TERMINAL_ROWS, cols: TERMINAL_COLS, pixel_width: 0, pixel_height: 0 }
}

/// A live pseudo-terminal session: the writer into the terminal and the
/// running flag that its drain loop polls.
pub struct PtySession<W> {
    writer: W,
    running: Arc<AtomicBool>,
}

impl<W: Write> PtySession<W> {
    /// A running session writing into `writer`.
    pub fn new(writer: W) -> (r: PtySession<W>)
        ensures
            r.writer() == writer,
    {
        PtySession { writer, running: Arc::new(AtomicBool::new(true)) }
    }

    /// The writer into the terminal.
    pub closed spec fn writer(&self) -> W {
        self.writer
    }

    /// The writer into the terminal.
    pub fn get_writer(&self) -> (r: &W)
        ensures
            *r == self.writer(),
    {
        &self.writer
    }

    /// The running flag that the drain loop polls.
    pub closed spec fn running_spec(&self) -> Arc<AtomicBool> {
        self.running
    }

    /// The running flag, to be cloned for the drain loop.
    pub fn running_flag(&self) -> (r: &Arc<AtomicBool>)
        ensures
            *r == self.running_spec(),
    {
        &self.running
    }

    /// Writes `data` into the terminal, whole and in order. Nothing to write
    /// succeeds at once; the running flag is left alone either way.
    pub fn write(&mut self, data: &[u8]) -> (r: Result<(), String>)
        ensures
            final(self).running_spec() == old(self).running_spec(),
            data@.len() == 0 ==> r is Ok && final(self).writer() == old(self).writer(),
    {
        if data.len() == 0 {
            return Ok(());
        }
        write_all_bytes(&mut self.writer, data)
    }

    /// Accepted and ignored: the terminal keeps its geometry.
    pub fn resize(&self, rows: u16, cols: u16) -> (r: Result<(), String>)
        ensures
            r is Ok,
    {
        Ok(())
    }

    /// Clears the running flag; the drain loop sees it before its next read.
    pub fn stop(&self) {
        self.running.store(false, Ordering::SeqCst);
    }
}

/// The name of the event carrying the output of session `session_id`.
pub fn output_event_name(session_id: &str) -> (r: String)
    ensures
        r@ == OUTPUT_EVENT_PREFIX@ + session_id@,
{
    let mut r = String::from_str(OUTPUT_EVENT_PREFIX);
    r.append(session_id);
    r
}

/// The name of the event marking the end of session `session_id`.
pub fn exit_event_name(session_id: &str) -> (r: String)
    ensures
        r@ == EXIT_EVENT_PREFIX@ + session_id@,
{
    let mut r = String::from_str(EXIT_EVENT_PREFIX);
    r.append(session_id);
    r
}

/// What a read from the terminal gave: bytes (none at end of stream), or an
/// error.
pub enum ReadOutcome {
    Bytes(Vec<u8>),
    Failed,
}

/// One event of a session's drain loop.
#[derive(Debug, PartialEq, Eq)]
pub enum PtyEvent {
    /// A chunk of the terminal's output, exactly as read.
    Output(Vec<u8>),
    /// The loop has ended.
    Exit,
}

/// One input of the drain loop, in the abstract: the running flag as polled
/// before a read, or what a read gave (`None` for an error).
pub enum PtyInput {
    Flag(bool),
    Read(Option<Seq<u8>>),
}

/// One event of the drain loop, in the abstract.
pub enum PtyEmission {
    Output(Seq<u8>),
    Exit,
}

impl View for PtyEvent {
    type V = PtyEmission;

    open spec fn view(&self) -> PtyEmission {
        match self {
            PtyEvent::Output(b) => PtyEmission::Output(b@),
            PtyEvent::Exit => PtyEmission::Exit,
        }
    }
}

/// What one input does to a loop that is still going: a cleared flag, an
/// empty read or a failed read end it with the exit event; a non-empty read
/// is emitted as it is.
pub open spec fn pty_step(input: PtyInput) -> (bool, Option<PtyEmission>) {
    match input {
        PtyInput::Flag(running) => if running {
            (false, None)
        } else {
            (true, Some(PtyEmission::Exit))
        },
        PtyInput::Read(Some(b)) => if b.len() > 0 {
            (false, Some(PtyEmission::Output(b)))
        } else {
            (true, Some(PtyEmission::Exit))
        },
        PtyInput::Read(None) => (true, Some(PtyEmission::Exit)),
    }
}

/// Whether the loop has ended after `inputs`, and what it emitted; inputs
/// that come after the end are not taken.
pub open spec fn pty_run(inputs: Seq<PtyInput>) -> (bool, Seq<PtyEmission>)
    decreases inputs.len(),
{
    if inputs.len() == 0 {
        (false, Seq::empty())
    } else {
        let (done, es) = pty_run(inputs.drop_last());
        if done {
            (done, es)
        } else {
            let (now_done, e) = pty_step(inputs.last());
            match e {
                Some(x) => (now_done, es.push(x)),
                None => (now_done, es),
            }
        }
    }
}

/// Whether the emission is the exit event.
pub open spec fn is_exit(e: PtyEmission) -> bool {
    e is Exit
}

/// Whatever the loop reads, the exit event comes exactly once once the loop
/// has ended, never before, and nothing follows it.
pub proof fn lemma_pty_exit_once_and_last(inputs: Seq<PtyInput>)
    ensures
        ({
            let (done, es) = pty_run(inputs);
            &&& done ==> es.len() > 0 && is_exit(es.last())
            &&& forall|i: int| 0 <= i < es.len() && is_exit(#[trigger] es[i]) ==> done && i == es.len() - 1
        }),
    decreases inputs.len(),
{
    if inputs.len() > 0 {
        lemma_pty_exit_once_and_last(inputs.drop_last());
    }
}

/// A session's drain loop: it relays chunks until the flag is cleared or the
/// terminal's output ends, and then emits the exit event once.
pub struct PtyDrain {
    finished: bool,
}

impl PtyDrain {
    /// A loop that has not ended.
    pub fn new() -> (r: PtyDrain)
        ensures
            !r.is_finished_spec(),
    {
        PtyDrain { finished: false }
    }

    /// Whether the loop has ended.
    pub closed spec fn is_finished_spec(&self) -> bool {
        self.finished
    }

    /// Whether the loop has ended.
    pub fn is_finished(&self) -> (r: bool)
        ensures
            r == self.is_finished_spec(),
    {
        self.finished
    }

    /// Takes in the running flag, polled before each read.
    pub fn observe_running(&mut self, running: bool) -> (r: Option<PtyEvent>)
        requires
            !old(self).is_finished_spec(),
        ensures
            (final(self).is_finished_spec(), match r {
                Some(e) => Some(e@),
                None => None,
            }) == pty_step(PtyInput::Flag(running)),
    {
        if running {
            None
        } else {
            self.finished = true;
            Some(PtyEvent::Exit)
        }
    }

    /// Takes in what a read from the terminal gave.
    pub fn on_read(&mut self, outcome: ReadOutcome) -> (r: PtyEvent)
        requires
            !old(self).is_finished_spec(),
        ensures
            (final(self).is_finished_spec(), Some(r@)) == pty_step(
                PtyInput::Read(
                    match outcome {
                        ReadOutcome::Bytes(b) => Some(b@),
                        ReadOutcome::Failed => None,
                    },
                ),
            ),
    {
        match outcome {
            ReadOutcome::Bytes(b) => if b.len() > 0 {
                PtyEvent::Output(b)
            } else {
                self.finished = true;
                PtyEvent::Exit
            },
            ReadOutcome::Failed => {
                self.finished = true;
                PtyEvent::Exit
            },
        }
    }
}

} // verus!
