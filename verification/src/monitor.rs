//! The monitor of one running child: a state machine that goes from
//! `Starting` through `Running` and `Draining` to `Done`. The caller spawns
//! the child, drains its two pipes without blocking once per poll tick and
//! hands the lines over; the monitor keeps the record, moves the progress
//! indicator and says what goes to the log file.

use crate::process::{
    check_view, check_working_directory, conclusion, full_command, launch_check, lines_text,
    log_header_text, result_view, text_or_empty, append_lines, ExecuteOptions, ExitStatus,
    ProcessError, ProcessFailure, Stream,
};
use crate::progress::{MultiProgressBar, ProgressState};
use crate::text::texts;
use vstd::prelude::*;
use vstd::string::*;

verus! {

/// Where a monitor stands.
#[derive(Clone, Copy, Debug, PartialEq, Eq, Structural)]
pub enum MonitorPhase {
    /// The child is not spawned yet.
    Starting,
    /// The child runs and is polled.
    Running,
    /// The child has exited with `status`; the last lines are still in the
    /// pipes.
    Draining { status: ExitStatus },
    /// The run is over.
    Done { success: bool },
}

/// The record of one run.
pub struct MonitorState {
    /// Where the monitor stands.
    pub phase: MonitorPhase,
    /// The program.
    pub command: Seq<char>,
    /// The working directory, the empty text where there is none.
    pub directory: Seq<char>,
    /// The arguments.
    pub arguments: Seq<Seq<char>>,
    /// Whether stdout is kept for the result.
    pub capture_stdout: bool,
    /// Whether a log file receives the lines.
    pub keep_log: bool,
    /// Everything kept of stdout so far.
    pub stdout: Seq<char>,
    /// Everything read from stderr so far.
    pub stderr: Seq<char>,
}

/// The lines that one poll tick drained from the two pipes.
pub struct Tick {
    pub stdout: Seq<Seq<char>>,
    pub stderr: Seq<Seq<char>>,
}

/// The newest line of a tick: the last of stderr, which is drained after
/// stdout, else the last of stdout, else none.
pub open spec fn newest_line(stdout_lines: Seq<Seq<char>>, stderr_lines: Seq<Seq<char>>) -> Option<
    Seq<char>,
> {
    if stderr_lines.len() > 0 {
        Some(stderr_lines.last())
    } else if stdout_lines.len() > 0 {
        Some(stdout_lines.last())
    } else {
        None
    }
}

/// The indicator after it was shown the newest line of a tick, if there
/// was one.
pub open spec fn showing(bar: ProgressState, line: Option<Seq<char>>) -> ProgressState {
    match line {
        Some(line) => ProgressState { message: bar.fitted(line), ..bar },
        None => bar,
    }
}

impl MonitorState {
    /// The record before the child is spawned.
    pub open spec fn initial(command: Seq<char>, options: ExecuteOptions) -> MonitorState {
        MonitorState {
            phase: MonitorPhase::Starting,
            command,
            directory: text_or_empty(options.working_directory),
            arguments: texts(options.arguments@),
            capture_stdout: options.is_return_stdout,
            keep_log: options.log_file_path is Some,
            stdout: Seq::empty(),
            stderr: Seq::empty(),
        }
    }

    /// The same record in another phase.
    pub open spec fn at(self, phase: MonitorPhase) -> MonitorState {
        MonitorState { phase, ..self }
    }

    /// The head of the log file, where one is kept.
    pub open spec fn log_header(self) -> Option<Seq<char>> {
        if self.keep_log {
            Some(log_header_text(self.command, self.directory, self.arguments))
        } else {
            None
        }
    }

    /// The record after the lines of one tick were taken in: stdout is kept
    /// only where it is to be returned, stderr always.
    pub open spec fn drained(self, stdout_lines: Seq<Seq<char>>, stderr_lines: Seq<Seq<char>>)
        -> MonitorState {
        MonitorState {
            stdout: if self.capture_stdout {
                self.stdout + lines_text(stdout_lines)
            } else {
                self.stdout
            },
            stderr: self.stderr + lines_text(stderr_lines),
            ..self
        }
    }

    /// What one tick adds to the log file: the lines of stdout, then those
    /// of stderr; nothing where no log is kept.
    pub open spec fn log_text(self, stdout_lines: Seq<Seq<char>>, stderr_lines: Seq<Seq<char>>)
        -> Seq<char> {
        if self.keep_log {
            lines_text(stdout_lines) + lines_text(stderr_lines)
        } else {
            Seq::empty()
        }
    }

    /// What the run comes to, once the child has exited with `status`.
    pub open spec fn result(self, status: ExitStatus) -> Result<Option<Seq<char>>, ProcessFailure> {
        conclusion(status, self.capture_stdout, self.stdout, self.stderr)
    }
}

/// The record after a series of poll ticks.
pub open spec fn after_ticks(state: MonitorState, ticks: Seq<Tick>) -> MonitorState
    decreases ticks.len(),
{
    if ticks.len() == 0 {
        state
    } else {
        after_ticks(state, ticks.drop_last()).drained(ticks.last().stdout, ticks.last().stderr)
    }
}

/// All lines that a series of ticks drained from stdout, in order.
pub open spec fn stdout_of(ticks: Seq<Tick>) -> Seq<Seq<char>>
    decreases ticks.len(),
{
    if ticks.len() == 0 {
        Seq::empty()
    } else {
        stdout_of(ticks.drop_last()) + ticks.last().stdout
    }
}

/// All lines that a series of ticks drained from stderr, in order.
pub open spec fn stderr_of(ticks: Seq<Tick>) -> Seq<Seq<char>>
    decreases ticks.len(),
{
    if ticks.len() == 0 {
        Seq::empty()
    } else {
        stderr_of(ticks.drop_last()) + ticks.last().stderr
    }
}

/// The text of two runs of lines is the text of the first followed by the
/// text of the second.
pub proof fn lemma_lines_text_concat(first: Seq<Seq<char>>, second: Seq<Seq<char>>)
    ensures
        lines_text(first + second) == lines_text(first) + lines_text(second),
    decreases second.len(),
{
    if second.len() == 0 {
        assert(first + second =~= first);
        assert(lines_text(first) + lines_text(second) =~= lines_text(first));
    } else {
        lemma_lines_text_concat(first, second.drop_last());
        assert((first + second).drop_last() =~= first + second.drop_last());
        assert((first + second).last() == second.last());
        assert(lines_text(first + second) =~= lines_text(first) + lines_text(second));
    }
}

/// Capture is complete and in order, however the output falls into poll
/// ticks: after any series of ticks the kept stdout is the text of all
/// lines drained from stdout, each once and in the order they came, and
/// likewise for stderr. Nothing else of the record changes.
pub proof fn lemma_capture_complete(state: MonitorState, ticks: Seq<Tick>)
    ensures
        after_ticks(state, ticks) == (MonitorState {
            stdout: if state.capture_stdout {
                state.stdout + lines_text(stdout_of(ticks))
            } else {
                state.stdout
            },
            stderr: state.stderr + lines_text(stderr_of(ticks)),
            ..state
        }),
    decreases ticks.len(),
{
    if ticks.len() == 0 {
        assert(state.stdout + lines_text(stdout_of(ticks)) =~= state.stdout);
        assert(state.stderr + lines_text(stderr_of(ticks)) =~= state.stderr);
    } else {
        let before = ticks.drop_last();
        let last = ticks.last();
        lemma_capture_complete(state, before);
        lemma_lines_text_concat(stdout_of(before), last.stdout);
        lemma_lines_text_concat(stderr_of(before), last.stderr);
        let reached = after_ticks(state, ticks);
        assert(reached.stderr =~= state.stderr + lines_text(stderr_of(ticks)));
        if state.capture_stdout {
            assert(reached.stdout =~= state.stdout + lines_text(stdout_of(ticks)));
        }
    }
}

/// The poll interval does not show in what is captured: two series of
/// ticks that drained the same lines leave the same record.
pub proof fn lemma_capture_independent_of_ticks(
    state: MonitorState,
    first: Seq<Tick>,
    second: Seq<Tick>,
)
    requires
        stdout_of(first) == stdout_of(second),
        stderr_of(first) == stderr_of(second),
    ensures
        after_ticks(state, first) == after_ticks(state, second),
{
    lemma_capture_complete(state, first);
    lemma_capture_complete(state, second);
}

/// A child that exits with code 0 returns, where capture was asked for,
/// the text of every line that the ticks drained from stdout, in order.
pub proof fn lemma_success_returns_stdout(state: MonitorState, ticks: Seq<Tick>)
    requires
        state.capture_stdout,
        state.stdout.len() == 0,
    ensures
        after_ticks(state, ticks).result(ExitStatus::Code(0)) == Ok::<
            Option<Seq<char>>,
            ProcessFailure,
        >(Some(lines_text(stdout_of(ticks)))),
{
    lemma_capture_complete(state, ticks);
    assert(state.stdout + lines_text(stdout_of(ticks)) =~= lines_text(stdout_of(ticks)));
}

/// The monitor of one child process.
pub struct ProcessMonitor {
    phase: MonitorPhase,
    command: String,
    options: ExecuteOptions,
    stdout_content: String,
    stderr_content: String,
}

impl View for ProcessMonitor {
    type V = MonitorState;

    closed spec fn view(&self) -> MonitorState {
        MonitorState {
            phase: self.phase,
            command: self.command@,
            directory: text_or_empty(self.options.working_directory),
            arguments: texts(self.options.arguments@),
            capture_stdout: self.options.is_return_stdout,
            keep_log: self.options.log_file_path is Some,
            stdout: self.stdout_content@,
            stderr: self.stderr_content@,
        }
    }
}

impl ProcessMonitor {
    /// A monitor for `command`, before the child is spawned.
    pub fn new(command: &str, options: ExecuteOptions) -> (monitor: ProcessMonitor)
        ensures
            monitor@ == MonitorState::initial(command@, options),
    {
        ProcessMonitor {
            phase: MonitorPhase::Starting,
            command: command.to_owned(),
            options,
            stdout_content: String::new(),
            stderr_content: String::new(),
        }
    }

    /// Where the monitor stands.
    pub fn phase(&self) -> (phase: MonitorPhase)
        ensures
            phase == self@.phase,
    {
        self.phase
    }

    /// The options of the command.
    pub fn options(&self) -> (options: &ExecuteOptions)
        ensures
            text_or_empty(options.working_directory) == self@.directory,
            texts(options.arguments@) == self@.arguments,
            options.is_return_stdout == self@.capture_stdout,
            options.log_file_path is Some == self@.keep_log,
    {
        &self.options
    }

    /// The child was spawned with both pipes: the monitor goes to
    /// `Running`. Returns the head of the log file where one is kept.
    pub fn spawned(&mut self) -> (header: Option<String>)
        requires
            old(self)@.phase == MonitorPhase::Starting,
        ensures
            final(self)@ == old(self)@.at(MonitorPhase::Running),
            header is Some == old(self)@.log_header() is Some,
            header matches Some(text) ==> old(self)@.log_header() == Some(text@),
    {
        self.phase = MonitorPhase::Running;
        if self.options.log_file_path.is_some() {
            Some(self.options.log_header(self.command.as_str()))
        } else {
            None
        }
    }

    /// The system could not create the process: the run is over, with an
    /// error that names the command.
    pub fn spawn_failed(&mut self, reason: String) -> (error: ProcessError)
        requires
            old(self)@.phase == MonitorPhase::Starting,
        ensures
            final(self)@ == old(self)@.at(MonitorPhase::Done { success: false }),
            error@ == (ProcessFailure::Spawn { command: old(self)@.command, reason: reason@ }),
    {
        self.phase = MonitorPhase::Done { success: false };
        ProcessError::Spawn { command: self.command.clone(), reason }
    }

    /// The spawned child has no handle for `stream`: the run is over, with
    /// an internal error.
    pub fn pipe_missing(&mut self, stream: Stream) -> (error: ProcessError)
        requires
            old(self)@.phase == MonitorPhase::Starting,
        ensures
            final(self)@ == old(self)@.at(MonitorPhase::Done { success: false }),
            error@ == (ProcessFailure::MissingPipe { stream }),
    {
        self.phase = MonitorPhase::Done { success: false };
        ProcessError::MissingPipe { stream }
    }

    /// Takes the lines of one drain into the record and shows the newest
    /// of them on the indicator. Returns what goes to the log file.
    fn drain(
        &mut self,
        progress_bar: &mut MultiProgressBar,
        stdout_lines: &Vec<String>,
        stderr_lines: &Vec<String>,
    ) -> (log_text: String)
        ensures
            final(self)@ == old(self)@.drained(texts(stdout_lines@), texts(stderr_lines@)),
            log_text@ == old(self)@.log_text(texts(stdout_lines@), texts(stderr_lines@)),
            final(progress_bar)@ == showing(
                old(progress_bar)@,
                newest_line(texts(stdout_lines@), texts(stderr_lines@)),
            ),
    {
        let mut log_text = String::new();
        if self.options.is_return_stdout {
            append_lines(&mut self.stdout_content, stdout_lines);
        }
        append_lines(&mut self.stderr_content, stderr_lines);
        if self.options.log_file_path.is_some() {
            append_lines(&mut log_text, stdout_lines);
            append_lines(&mut log_text, stderr_lines);
            proof {
                assert(log_text@ =~= lines_text(texts(stdout_lines@)) + lines_text(
                    texts(stderr_lines@),
                ));
            }
        }
        if stderr_lines.len() > 0 {
            progress_bar.set_message(stderr_lines[stderr_lines.len() - 1].as_str());
        } else if stdout_lines.len() > 0 {
            progress_bar.set_message(stdout_lines[stdout_lines.len() - 1].as_str());
        }
        log_text
    }

    /// One poll tick of a running child. `stdout_lines` and `stderr_lines`
    /// are all the lines that were in the two pipes' queues, in order. They
    /// are added to the record, the newest of them becomes the indicator's
    /// message, and the indicator moves on by one. Returns what goes to the
    /// log file: the lines of stdout, then those of stderr.
    pub fn poll(
        &mut self,
        progress_bar: &mut MultiProgressBar,
        stdout_lines: &Vec<String>,
        stderr_lines: &Vec<String>,
    ) -> (log_text: String)
        requires
            old(self)@.phase == MonitorPhase::Running,
        ensures
            final(self)@ == old(self)@.drained(texts(stdout_lines@), texts(stderr_lines@)),
            log_text@ == old(self)@.log_text(texts(stdout_lines@), texts(stderr_lines@)),
            final(progress_bar)@ == showing(
                old(progress_bar)@,
                newest_line(texts(stdout_lines@), texts(stderr_lines@)),
            ).advanced_with_overflow(1),
    {
        let log_text = self.drain(progress_bar, stdout_lines, stderr_lines);
        progress_bar.increment_with_overflow(1);
        log_text
    }

    /// The non-blocking check found that the child has exited: the monitor
    /// goes to `Draining`. Nothing is drained in this tick.
    pub fn exited(&mut self, status: ExitStatus)
        requires
            old(self)@.phase == MonitorPhase::Running,
        ensures
            final(self)@ == old(self)@.at(MonitorPhase::Draining { status }),
    {
        self.phase = MonitorPhase::Draining { status };
    }

    /// The last drain, after both readers have reached the end of their
    /// pipes. The lines are added to the record as in a poll tick, and the
    /// exit status is turned into the result: success with the captured
    /// stdout where that was asked for, or the failure with its code and
    /// all of stderr. Returns what goes to the log file, and the result.
    pub fn finish(
        &mut self,
        progress_bar: &mut MultiProgressBar,
        stdout_lines: &Vec<String>,
        stderr_lines: &Vec<String>,
    ) -> (report: (String, Result<Option<String>, ProcessError>))
        requires
            old(self)@.phase is Draining,
        ensures
            final(self)@ == old(self)@.drained(texts(stdout_lines@), texts(stderr_lines@)).at(
                MonitorPhase::Done { success: report.1 is Ok },
            ),
            report.0@ == old(self)@.log_text(texts(stdout_lines@), texts(stderr_lines@)),
            result_view(report.1) == old(self)@.drained(
                texts(stdout_lines@),
                texts(stderr_lines@),
            ).result(old(self)@.phase->status),
            final(progress_bar)@ == showing(
                old(progress_bar)@,
                newest_line(texts(stdout_lines@), texts(stderr_lines@)),
            ),
    {
        let log_text = self.drain(progress_bar, stdout_lines, stderr_lines);
        let status = match self.phase {
            MonitorPhase::Draining { status } => status,
            _ => ExitStatus::NoCode,
        };
        let stdout = if self.options.is_return_stdout {
            Some(self.stdout_content.clone())
        } else {
            None
        };
        let result = crate::process::classify_exit(status, stdout, self.stderr_content.clone());
        self.phase = MonitorPhase::Done { success: result.is_ok() };
        (log_text, result)
    }
}

impl MultiProgressBar {
    /// Decides whether `command` may be spawned: not where its working
    /// directory is named and, as `directory_exists` says, is not there.
    pub fn start_process(&mut self, command: &str, options: &ExecuteOptions, directory_exists: bool)
        -> (result: Result<(), ProcessError>)
        ensures
            final(self)@ == old(self)@,
            check_view(result) == launch_check(*options, directory_exists),
    {
        check_working_directory(options, directory_exists)
    }

    /// Begins the run of `command` on this indicator: shows the command
    /// line as the message and checks the working directory. Where the
    /// directory is named and missing the run fails before anything is
    /// spawned; else the monitor of the run is returned, in `Starting`.
    pub fn execute_process(&mut self, command: &str, options: ExecuteOptions, directory_exists: bool)
        -> (result: Result<ProcessMonitor, ProcessError>)
        ensures
            final(self)@ == (ProgressState {
                message: old(self)@.fitted(full_command(command@, texts(options.arguments@))),
                ..old(self)@
            }),
            match launch_check(options, directory_exists) {
                Ok(()) => result matches Ok(monitor) && monitor@ == MonitorState::initial(
                    command@,
                    options,
                ),
                Err(failure) => result matches Err(error) && error@ == failure,
            },
    {
        let shown = options.get_full_command(command);
        self.set_message(shown.as_str());
        match self.start_process(command, &options, directory_exists) {
            Ok(()) => Ok(ProcessMonitor::new(command, options)),
            Err(error) => Err(error),
        }
    }
}

} // verus!
