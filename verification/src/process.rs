//! Supervision of one child process: how a command is described, how the
//! lines drained from its pipes are recorded, and how its exit becomes a
//! result. Spawning, reading the pipes and sleeping between polls is the
//! caller's part; every decision is taken here.

use crate::text::{decimal, join, joined, push_char, signed_decimal, texts};
use vstd::prelude::*;
use vstd::string::*;

verus! {

/// Description of a command to run.
#[derive(Clone, Debug)]
pub struct ExecuteOptions {
    /// Name under which the command shows.
    pub label: String,
    /// Whether the text written to stdout is kept and returned.
    pub is_return_stdout: bool,
    /// Directory to run in; the caller's own where there is none.
    pub working_directory: Option<String>,
    /// Variables set on top of the inherited environment.
    pub environment: Vec<(String, String)>,
    /// Arguments, in order.
    pub arguments: Vec<String>,
    /// File that receives every line of output, if any.
    pub log_file_path: Option<String>,
}

/// A text that may be absent, as the text or the empty one.
pub open spec fn text_or_empty(text: Option<String>) -> Seq<char> {
    match text {
        Some(text) => text@,
        None => Seq::empty(),
    }
}

/// The command line as it is shown: the program, a blank, and the
/// arguments with blanks between them.
pub open spec fn full_command(command: Seq<char>, arguments: Seq<Seq<char>>) -> Seq<char> {
    command + " "@ + joined(arguments, " "@)
}

/// The head of a log file: the command line, the working directory (empty
/// where there is none) and the arguments, one line each, then an empty
/// line.
pub open spec fn log_header_text(
    command: Seq<char>,
    directory: Seq<char>,
    arguments: Seq<Seq<char>>,
) -> Seq<char> {
    "command: "@ + full_command(command, arguments) + "\n"@ + "directory: "@ + directory + "\n"@
        + "arguments: "@ + joined(arguments, " "@) + "\n\n"@
}

/// Every line of `lines`, each ended by a newline.
pub open spec fn lines_text(lines: Seq<Seq<char>>) -> Seq<char>
    decreases lines.len(),
{
    if lines.len() == 0 {
        Seq::empty()
    } else {
        lines_text(lines.drop_last()) + lines.last().push('\n')
    }
}

impl Default for ExecuteOptions {
    fn default() -> (options: ExecuteOptions)
        ensures
            options.label@ == "working"@,
            !options.is_return_stdout,
            options.working_directory is None,
            options.environment@.len() == 0,
            options.arguments@.len() == 0,
            options.log_file_path is None,
    {
        ExecuteOptions {
            label: "working".to_owned(),
            is_return_stdout: false,
            working_directory: None,
            environment: Vec::new(),
            arguments: Vec::new(),
            log_file_path: None,
        }
    }
}

impl ExecuteOptions {
    /// The command line as it is shown.
    pub fn get_full_command(&self, command: &str) -> (line: String)
        ensures
            line@ == full_command(command@, texts(self.arguments@)),
    {
        let mut line = command.to_owned();
        line.append(" ");
        let arguments = join(&self.arguments, " ");
        line.append(arguments.as_str());
        line
    }

    /// The command line with the working directory in front of it; where
    /// there is no working directory the line starts with the blank.
    pub fn get_full_command_in_working_directory(&self, command: &str) -> (line: String)
        ensures
            line@ == text_or_empty(self.working_directory) + " "@ + full_command(
                command@,
                texts(self.arguments@),
            ),
    {
        let mut line = match &self.working_directory {
            Some(directory) => directory.clone(),
            None => String::new(),
        };
        line.append(" ");
        let rest = self.get_full_command(command);
        line.append(rest.as_str());
        proof {
            let directory = text_or_empty(self.working_directory);
            let shown = full_command(command@, texts(self.arguments@));
            assert(line@ =~= directory + " "@ + shown);
        }
        line
    }

    /// The head of the log file of `command`.
    pub fn log_header(&self, command: &str) -> (header: String)
        ensures
            header@ == log_header_text(
                command@,
                text_or_empty(self.working_directory),
                texts(self.arguments@),
            ),
    {
        let mut header = "command: ".to_owned();
        let shown = self.get_full_command(command);
        header.append(shown.as_str());
        header.append("\n");
        header.append("directory: ");
        match &self.working_directory {
            Some(directory) => {
                header.append(directory.as_str());
            },
            None => {
                proof {
                    assert(header@ + Seq::<char>::empty() =~= header@);
                }
            },
        }
        header.append("\n");
        header.append("arguments: ");
        let arguments = join(&self.arguments, " ");
        header.append(arguments.as_str());
        header.append("\n\n");
        header
    }
}

/// One of the two pipes of a child.
#[derive(Clone, Copy, Debug, PartialEq, Eq, Structural)]
pub enum Stream {
    Stdout,
    Stderr,
}

impl Stream {
    /// The pipe's name.
    pub open spec fn spec_name(self) -> Seq<char> {
        match self {
            Stream::Stdout => "stdout"@,
            Stream::Stderr => "stderr"@,
        }
    }

    /// The pipe's name.
    pub fn name(self) -> (name: &'static str)
        ensures
            name@ == self.spec_name(),
    {
        match self {
            Stream::Stdout => "stdout",
            Stream::Stderr => "stderr",
        }
    }
}

/// How a child ended.
#[derive(Clone, Copy, Debug, PartialEq, Eq, Structural)]
pub enum ExitStatus {
    /// It exited with this code.
    Code(i32),
    /// It was ended by a signal and left no code.
    NoCode,
}

/// Why a command gave no result.
#[derive(Clone, Debug)]
pub enum ProcessError {
    /// The working directory does not exist; nothing was spawned.
    MissingDirectory { directory: String },
    /// The system could not create the process.
    Spawn { command: String, reason: String },
    /// The spawned child has no handle for one of its pipes.
    MissingPipe { stream: Stream },
    /// The child exited with a code other than 0.
    ExitCode { code: i32, stderr: String },
    /// The child was ended without a code.
    UnknownExitCode { stderr: String },
}

/// A `ProcessError` with its texts as sequences of characters.
pub enum ProcessFailure {
    MissingDirectory { directory: Seq<char> },
    Spawn { command: Seq<char>, reason: Seq<char> },
    MissingPipe { stream: Stream },
    ExitCode { code: i32, stderr: Seq<char> },
    UnknownExitCode { stderr: Seq<char> },
}

impl ProcessFailure {
    /// The message that a person reads.
    pub open spec fn message(self) -> Seq<char> {
        match self {
            ProcessFailure::MissingDirectory { directory } => "Directory does not exist: "@
                + directory,
            ProcessFailure::Spawn { command, reason } => "Failed to start process "@ + command
                + ": "@ + reason,
            ProcessFailure::MissingPipe { stream } => "Internal Error: Child has no "@
                + stream.spec_name(),
            ProcessFailure::ExitCode { code, stderr } => "Command failed with exit code: "@
                + decimal(code as int) + " : "@ + stderr,
            ProcessFailure::UnknownExitCode { stderr } => "Command failed with unknown exit code: "@
                + stderr,
        }
    }
}

impl View for ProcessError {
    type V = ProcessFailure;

    open spec fn view(&self) -> ProcessFailure {
        match self {
            ProcessError::MissingDirectory { directory } => ProcessFailure::MissingDirectory {
                directory: directory@,
            },
            ProcessError::Spawn { command, reason } => ProcessFailure::Spawn {
                command: command@,
                reason: reason@,
            },
            ProcessError::MissingPipe { stream } => ProcessFailure::MissingPipe { stream: *stream },
            ProcessError::ExitCode { code, stderr } => ProcessFailure::ExitCode {
                code: *code,
                stderr: stderr@,
            },
            ProcessError::UnknownExitCode { stderr } => ProcessFailure::UnknownExitCode {
                stderr: stderr@,
            },
        }
    }
}

impl ProcessError {
    /// The message that a person reads. A failed command's message holds
    /// its exit code, or the word "unknown", and all it wrote to stderr.
    pub fn message(&self) -> (message: String)
        ensures
            message@ == self@.message(),
    {
        match self {
            ProcessError::MissingDirectory { directory } => {
                let mut message = "Directory does not exist: ".to_owned();
                message.append(directory.as_str());
                message
            },
            ProcessError::Spawn { command, reason } => {
                let mut message = "Failed to start process ".to_owned();
                message.append(command.as_str());
                message.append(": ");
                message.append(reason.as_str());
                message
            },
            ProcessError::MissingPipe { stream } => {
                let mut message = "Internal Error: Child has no ".to_owned();
                message.append(stream.name());
                message
            },
            ProcessError::ExitCode { code, stderr } => {
                let mut message = "Command failed with exit code: ".to_owned();
                let number = signed_decimal(*code as i64);
                message.append(number.as_str());
                message.append(" : ");
                message.append(stderr.as_str());
                message
            },
            ProcessError::UnknownExitCode { stderr } => {
                let mut message = "Command failed with unknown exit code: ".to_owned();
                message.append(stderr.as_str());
                message
            },
        }
    }
}

/// The result of a command: the text it wrote to stdout where that was
/// asked for, or why it failed.
pub open spec fn result_view(result: Result<Option<String>, ProcessError>) -> Result<
    Option<Seq<char>>,
    ProcessFailure,
> {
    match result {
        Ok(Some(text)) => Ok(Some(text@)),
        Ok(None) => Ok(None),
        Err(error) => Err(error@),
    }
}

/// What an exit means. Code 0 is success, and carries the captured stdout
/// where capture was asked for; any other code is a failure that carries
/// that code and all of stderr; no code at all is a failure that carries
/// all of stderr.
pub open spec fn conclusion(
    status: ExitStatus,
    capture_stdout: bool,
    stdout: Seq<char>,
    stderr: Seq<char>,
) -> Result<Option<Seq<char>>, ProcessFailure> {
    match status {
        ExitStatus::Code(code) => if code == 0 {
            if capture_stdout {
                Ok(Some(stdout))
            } else {
                Ok(None)
            }
        } else {
            Err(ProcessFailure::ExitCode { code, stderr })
        },
        ExitStatus::NoCode => Err(ProcessFailure::UnknownExitCode { stderr }),
    }
}

/// An exit with code 0 always succeeds; an exit with any other code fails
/// and carries exactly that code; an exit without code fails as unknown.
/// Every failure carries all of stderr.
pub proof fn lemma_exit_classification(
    code: i32,
    capture_stdout: bool,
    stdout: Seq<char>,
    stderr: Seq<char>,
)
    ensures
        conclusion(ExitStatus::Code(0), capture_stdout, stdout, stderr) == Ok::<
            Option<Seq<char>>,
            ProcessFailure,
        >(
            if capture_stdout {
                Some(stdout)
            } else {
                None
            },
        ),
        code != 0 ==> conclusion(ExitStatus::Code(code), capture_stdout, stdout, stderr) == Err::<
            Option<Seq<char>>,
            ProcessFailure,
        >(ProcessFailure::ExitCode { code, stderr }),
        conclusion(ExitStatus::NoCode, capture_stdout, stdout, stderr) == Err::<
            Option<Seq<char>>,
            ProcessFailure,
        >(ProcessFailure::UnknownExitCode { stderr }),
{
}

/// Whether the working directory of `options`, if it names one, is there.
/// `directory_exists` is what the file system said of that directory.
pub open spec fn launch_check(options: ExecuteOptions, directory_exists: bool) -> Result<
    (),
    ProcessFailure,
> {
    match options.working_directory {
        Some(directory) if !directory_exists => Err(
            ProcessFailure::MissingDirectory { directory: directory@ },
        ),
        _ => Ok(()),
    }
}

/// The view of the result of a launch check.
pub open spec fn check_view(result: Result<(), ProcessError>) -> Result<(), ProcessFailure> {
    match result {
        Ok(()) => Ok(()),
        Err(error) => Err(error@),
    }
}

/// Decides whether a command may be spawned: it may not where its working
/// directory is named and missing.
pub fn check_working_directory(options: &ExecuteOptions, directory_exists: bool) -> (result:
    Result<(), ProcessError>)
    ensures
        check_view(result) == launch_check(*options, directory_exists),
{
    match &options.working_directory {
        Some(directory) => {
            if !directory_exists {
                Err(ProcessError::MissingDirectory { directory: directory.clone() })
            } else {
                Ok(())
            }
        },
        None => Ok(()),
    }
}

/// Turns an exit into the result of the command.
pub fn classify_exit(status: ExitStatus, stdout: Option<String>, stderr: String) -> (result:
    Result<Option<String>, ProcessError>)
    ensures
        result_view(result) == conclusion(
            status,
            stdout is Some,
            text_or_empty(stdout),
            stderr@,
        ),
{
    match status {
        ExitStatus::Code(code) => {
            if code == 0 {
                Ok(stdout)
            } else {
                Err(ProcessError::ExitCode { code, stderr })
            }
        },
        ExitStatus::NoCode => Err(ProcessError::UnknownExitCode { stderr }),
    }
}

/// Appends every line of `lines` to `target`, each ended by a newline.
pub fn append_lines(target: &mut String, lines: &Vec<String>)
    ensures
        final(target)@ == old(target)@ + lines_text(texts(lines@)),
{
    let mut index: usize = 0;
    proof {
        assert(texts(lines@).take(0) =~= Seq::<Seq<char>>::empty());
        assert(old(target)@ + Seq::<char>::empty() =~= old(target)@);
    }
    while index < lines.len()
        invariant
            index <= lines.len(),
            target@ == old(target)@ + lines_text(texts(lines@).take(index as int)),
        decreases lines.len() - index,
    {
        proof {
            let all = texts(lines@);
            assert(all.take(index + 1).drop_last() =~= all.take(index as int));
            assert(all.take(index + 1).last() == lines@[index as int]@);
            assert(old(target)@ + lines_text(all.take(index + 1)) =~= (old(target)@ + lines_text(
                all.take(index as int),
            ) + lines@[index as int]@).push('\n'));
        }
        target.append(lines[index].as_str());
        push_char(target, '\n');
        index = index + 1;
    }
    proof {
        assert(texts(lines@).take(lines.len() as int) =~= texts(lines@));
    }
}

} // verus!
