//! The sink: leveled, indented output of named values, headings and
//! sections. A `Printer` collects what it writes; the caller takes the text
//! and sends it to the terminal.

use crate::level::Level;
use crate::lines::{format_log, log_line};
use crate::monitor::{MonitorState, ProcessMonitor};
use crate::process::{
    check_view, check_working_directory, full_command, launch_check, ExecuteOptions, ProcessError,
};
use crate::progress::{MultiProgress, MultiProgressBar, ProgressState, BAR_WIDTH};
use crate::scope::Section;
use crate::style::{ansi_bold, ansi_red, ansi_yellow, bold, red, yellow};
use crate::terminal::terminal_dimensions;
use crate::text::{push_decimal, repeat_char, repeated, spaces, texts};
use crate::value::{
    depth, lemma_entry_depth, lemma_item_depth, render_entries, render_entry,
    render_item, render_items, render_named, render_value, Value,
};
use vstd::prelude::*;
use vstd::string::*;

verus! {

/// Width of a line where the terminal does not tell its own.
pub const DEFAULT_WIDTH: usize = 80;

/// What a sink is at one moment.
pub struct PrinterState {
    /// The threshold: a message is written iff the threshold is not above
    /// the message's level.
    pub level: Level,
    /// Blanks in front of each line.
    pub indent: nat,
    /// How many headings are open.
    pub heading_count: nat,
    /// Width of a line in bytes.
    pub max_width: nat,
    /// Everything written and not yet taken.
    pub output: Seq<char>,
}

/// The width of a line on a terminal of the given dimensions: one less than
/// the terminal's width, and 80 where the terminal tells none.
pub open spec fn line_width(dimensions: Option<(usize, usize)>) -> nat {
    match dimensions {
        Some((width, _)) => if width > 0 {
            (width - 1) as nat
        } else {
            0
        },
        None => DEFAULT_WIDTH as nat,
    }
}

/// The title of a section: the indent, the name in bold and a colon.
pub open spec fn section_title(name: Seq<char>, indent: nat) -> Seq<char> {
    spaces(indent) + ansi_bold(name) + ":"@
}

/// A heading of the given depth: an empty line, then as many `#` as the
/// heading is deep, a blank and the name, in bold, and a newline. A
/// heading of depth 1 is yellow as well.
pub open spec fn heading_text(name: Seq<char>, count: nat) -> Seq<char> {
    let title = repeated('#', count) + " "@ + name;
    "\n"@ + (if count == 1 {
        ansi_bold(ansi_yellow(title))
    } else {
        ansi_bold(title)
    }) + "\n"@
}

/// A block of code in a fence that names its language.
pub open spec fn fenced(name: Seq<char>, content: Seq<char>) -> Seq<char> {
    "```"@ + name + "\n"@ + content + "```\n"@
}

/// A text under a name: the indent, the name, a colon, the text and a
/// newline.
pub open spec fn named_text(name: Seq<char>, text: Seq<char>, indent: nat) -> Seq<char> {
    spaces(indent) + name + ": "@ + text + "\n"@
}

impl PrinterState {
    /// A fresh sink for lines of `max_width` bytes.
    pub open spec fn fresh(max_width: nat) -> PrinterState {
        PrinterState {
            level: Level::Info,
            indent: 0,
            heading_count: 0,
            max_width,
            output: Seq::empty(),
        }
    }

    /// The sink after `text` was written.
    pub open spec fn wrote(self, text: Seq<char>) -> PrinterState {
        PrinterState { output: self.output + text, ..self }
    }

    /// The sink after `value` was reported under `name` at `level`: written
    /// iff the threshold admits the level.
    pub open spec fn reported(self, level: Level, name: Seq<char>, value: Value) -> PrinterState {
        if self.level.spec_admits(level) {
            self.wrote(render_named(name, value, self.indent, self.level))
        } else {
            self
        }
    }

    /// The sink after a text was reported under `name` at `level`.
    pub open spec fn reported_text(self, level: Level, name: Seq<char>, text: Seq<char>)
        -> PrinterState {
        if self.level.spec_admits(level) {
            self.wrote(named_text(name, text, self.indent))
        } else {
            self
        }
    }

    /// The sink inside a section that was opened under `name`: the title
    /// is written and the indent is one unit deeper.
    pub open spec fn in_section(self, name: Seq<char>) -> PrinterState {
        PrinterState {
            indent: self.indent + 2,
            output: self.output + section_title(name, self.indent),
            ..self
        }
    }

    /// The sink after the start of `command` was announced: the command
    /// line under "execute" and, where there is one, the working directory
    /// under "directory", both at level `Info`.
    pub open spec fn announced(self, command: Seq<char>, options: ExecuteOptions) -> PrinterState {
        let first = self.reported_text(
            Level::Info,
            ansi_bold("execute"@),
            full_command(command, texts(options.arguments@)),
        );
        match options.working_directory {
            Some(directory) => first.reported_text(
                Level::Info,
                ansi_bold("directory"@),
                directory@,
            ),
            None => first,
        }
    }
}

/// An indicator as a group makes it for a sink in the given state.
pub open spec fn new_bar(
    sink: PrinterState,
    prefix: Seq<char>,
    total: Option<u64>,
    finish_message: Option<Seq<char>>,
) -> ProgressState {
    ProgressState {
        printer_level: sink.level,
        indent: sink.indent,
        max_width: sink.max_width,
        progress_width: BAR_WIDTH as nat,
        total,
        position: 0,
        prefix: ansi_bold(prefix + ":"@),
        message: Seq::empty(),
        ending_message: finish_message,
        output: Seq::empty(),
    }
}

/// The sink.
pub struct Printer {
    /// The threshold below which nothing is written.
    pub level: Level,
    indent: usize,
    heading_count: usize,
    max_width: usize,
    output: String,
}

impl View for Printer {
    type V = PrinterState;

    closed spec fn view(&self) -> PrinterState {
        PrinterState {
            level: self.level,
            indent: self.indent as nat,
            heading_count: self.heading_count as nat,
            max_width: self.max_width as nat,
            output: self.output@,
        }
    }
}

impl Printer {
    /// A fresh sink for the terminal that the process runs on.
    pub fn new_stdout() -> (printer: Printer)
        ensures
            printer@ == PrinterState::fresh(printer@.max_width),
    {
        Printer::with_dimensions(terminal_dimensions())
    }

    /// A fresh sink for a terminal of the given width and height. Its lines
    /// are one byte shorter than the terminal is wide, and 80 bytes where
    /// the terminal tells no dimensions.
    pub fn with_dimensions(dimensions: Option<(usize, usize)>) -> (printer: Printer)
        ensures
            printer@ == PrinterState::fresh(line_width(dimensions)),
    {
        let max_width: usize = match dimensions {
            Some((width, _)) => if width > 0 {
                width - 1
            } else {
                0
            },
            None => DEFAULT_WIDTH,
        };
        Printer {
            indent: 0,
            level: Level::Info,
            heading_count: 0,
            max_width,
            output: String::new(),
        }
    }

    /// The threshold.
    pub fn level(&self) -> (level: Level)
        ensures
            level == self@.level,
    {
        self.level
    }

    /// Sets the threshold.
    pub fn set_level(&mut self, level: Level)
        ensures
            final(self)@ == (PrinterState { level, ..old(self)@ }),
    {
        self.level = level;
    }

    /// Blanks in front of each line.
    pub fn indent(&self) -> (indent: usize)
        ensures
            indent == self@.indent,
    {
        self.indent
    }

    /// How many headings are open.
    pub fn heading_count(&self) -> (count: usize)
        ensures
            count == self@.heading_count,
    {
        self.heading_count
    }

    /// Width of a line in bytes.
    pub fn max_width(&self) -> (width: usize)
        ensures
            width == self@.max_width,
    {
        self.max_width
    }

    /// Takes everything written since the last call.
    pub fn take_output(&mut self) -> (text: String)
        ensures
            text@ == old(self)@.output,
            final(self)@ == (PrinterState { output: Seq::empty(), ..old(self)@ }),
    {
        let mut text = String::new();
        std::mem::swap(&mut self.output, &mut text);
        text
    }

    /// Writes `message` as it is.
    pub fn write(&mut self, message: &str)
        ensures
            final(self)@ == old(self)@.wrote(message@),
    {
        self.output.append(message);
    }

    /// Writes a newline.
    pub fn newline(&mut self)
        ensures
            final(self)@ == old(self)@.wrote("\n"@),
    {
        self.write("\n");
    }

    /// Reports `value` under `name` at level `Trace`.
    pub fn trace(&mut self, name: &str, value: &Value)
        requires
            old(self)@.indent + 2 * depth(*value) <= usize::MAX,
        ensures
            final(self)@ == old(self)@.reported(Level::Trace, ansi_bold(name@), *value),
    {
        if self.level.admits(Level::Trace) {
            self.object(name, value);
        }
    }

    /// Reports `value` under `name` at level `Debug`.
    pub fn debug(&mut self, name: &str, value: &Value)
        requires
            old(self)@.indent + 2 * depth(*value) <= usize::MAX,
        ensures
            final(self)@ == old(self)@.reported(Level::Debug, ansi_bold(name@), *value),
    {
        if self.level.admits(Level::Debug) {
            self.object(name, value);
        }
    }

    /// Reports `value` under `name` at level `Message`.
    pub fn message(&mut self, name: &str, value: &Value)
        requires
            old(self)@.indent + 2 * depth(*value) <= usize::MAX,
        ensures
            final(self)@ == old(self)@.reported(Level::Message, ansi_bold(name@), *value),
    {
        if self.level.admits(Level::Message) {
            self.object(name, value);
        }
    }

    /// Reports `value` under `name` at level `Info`.
    pub fn info(&mut self, name: &str, value: &Value)
        requires
            old(self)@.indent + 2 * depth(*value) <= usize::MAX,
        ensures
            final(self)@ == old(self)@.reported(Level::Info, ansi_bold(name@), *value),
    {
        if self.level.admits(Level::Info) {
            self.object(name, value);
        }
    }

    /// Reports `value` under `name`, in yellow, at level `Warning`.
    pub fn warning(&mut self, name: &str, value: &Value)
        requires
            old(self)@.indent + 2 * depth(*value) <= usize::MAX,
        ensures
            final(self)@ == old(self)@.reported(
                Level::Warning,
                ansi_bold(ansi_yellow(name@)),
                *value,
            ),
    {
        if self.level.admits(Level::Warning) {
            let styled = yellow(name);
            self.object(styled.as_str(), value);
        }
    }

    /// Reports `value` under `name`, in red, at level `Error`.
    pub fn error(&mut self, name: &str, value: &Value)
        requires
            old(self)@.indent + 2 * depth(*value) <= usize::MAX,
        ensures
            final(self)@ == old(self)@.reported(Level::Error, ansi_bold(ansi_red(name@)), *value),
    {
        if self.level.admits(Level::Error) {
            let styled = red(name);
            self.object(styled.as_str(), value);
        }
    }

    /// Writes a log line if the threshold admits `level`.
    pub fn log(&mut self, level: Level, message: &str)
        ensures
            final(self)@ == if old(self)@.level.spec_admits(level) {
                old(self)@.wrote(
                    log_line(old(self)@.indent, old(self)@.max_width, level, message@),
                )
            } else {
                old(self)@
            },
    {
        if self.level.admits(level) {
            let line = format_log(self.indent, self.max_width, level, message);
            self.write(line.as_str());
        }
    }

    /// Writes `content` in a fence that names its language.
    pub fn code_block(&mut self, name: &str, content: &str)
        ensures
            final(self)@ == old(self)@.wrote(fenced(name@, content@)),
    {
        let mut block = "```".to_owned();
        block.append(name);
        block.append("\n");
        block.append(content);
        block.append("```\n");
        self.write(block.as_str());
    }

    /// Writes `value` under `name` in bold, whatever its level. A null is
    /// left out where the threshold hides nulls.
    pub fn object(&mut self, name: &str, value: &Value)
        requires
            old(self)@.indent + 2 * depth(*value) <= usize::MAX,
        ensures
            final(self)@ == old(self)@.wrote(
                render_named(ansi_bold(name@), *value, old(self)@.indent, old(self)@.level),
            ),
    {
        if value.is_null() && self.level.rank() > Level::Message.rank() {
            proof {
                assert(self@.output + Seq::<char>::empty() =~= self@.output);
            }
            return ;
        }
        let mut head = repeat_char(' ', self.indent);
        let styled = bold(name);
        head.append(styled.as_str());
        head.append(": ");
        self.write(head.as_str());
        self.print_value(value);
        proof {
            let text = render_value(*value, old(self)@.indent, old(self)@.level);
            assert(old(self)@.output + head@ + text =~= old(self)@.output + (head@ + text));
        }
    }

    /// Reports a text under `name` at level `Info`.
    fn info_text(&mut self, name: &str, text: String)
        ensures
            final(self)@ == old(self)@.reported_text(Level::Info, ansi_bold(name@), text@),
    {
        let value = Value::String(text);
        self.info(name, &value);
        proof {
            assert(render_named(ansi_bold(name@), value, old(self)@.indent, old(self)@.level)
                =~= named_text(ansi_bold(name@), text@, old(self)@.indent));
        }
    }

    /// Announces the start of `command` and decides whether it may be
    /// spawned. The command line is reported under "execute" and the working
    /// directory, where one is named, under "directory". The command may
    /// not be spawned where that directory is, as `directory_exists` says,
    /// not there: the error names it.
    pub fn start_process(&mut self, command: &str, options: &ExecuteOptions, directory_exists: bool)
        -> (result: Result<(), ProcessError>)
        ensures
            final(self)@ == old(self)@.announced(command@, *options),
            check_view(result) == launch_check(*options, directory_exists),
    {
        self.info_text("execute", options.get_full_command(command));
        if let Some(directory) = &options.working_directory {
            self.info_text("directory", directory.clone());
        }
        check_working_directory(options, directory_exists)
    }

    /// Begins the run of `command` in a section of its own: writes the
    /// section's title, announces the command inside the section and checks
    /// the working directory. Where the command may be spawned, returns a
    /// spinner named "progress", made at the section's indent, and the
    /// monitor of the run in `Starting`; else the error. Either way the
    /// sink's indent is afterwards what it was before.
    pub fn execute_process(&mut self, command: &str, options: ExecuteOptions, directory_exists: bool)
        -> (result: Result<(MultiProgressBar, ProcessMonitor), ProcessError>)
        requires
            old(self)@.indent + 2 <= usize::MAX,
        ensures
            final(self)@ == (PrinterState {
                indent: old(self)@.indent,
                ..old(self)@.in_section(command@).announced(command@, options)
            }),
            match launch_check(options, directory_exists) {
                Ok(()) => result matches Ok(run) && run.0@ == new_bar(
                    old(self)@.in_section(command@).announced(command@, options),
                    "progress"@,
                    None,
                    None,
                ) && run.1@ == MonitorState::initial(command@, options),
                Err(failure) => result matches Err(error) && error@ == failure,
            },
    {
        let mut section = Section::new(self, command);
        let checked = section.printer.start_process(command, &options, directory_exists);
        match checked {
            Ok(()) => {
                let mut group = MultiProgress::new(&mut *section.printer);
                let bar = group.add_progress("progress", None, None);
                let monitor = ProcessMonitor::new(command, options);
                section.close();
                Ok((bar, monitor))
            },
            Err(error) => {
                section.close();
                Err(error)
            },
        }
    }

    /// Opens a heading.
    pub(crate) fn enter_heading(&mut self)
        requires
            old(self)@.heading_count + 1 <= usize::MAX,
        ensures
            final(self)@ == (PrinterState {
                heading_count: old(self)@.heading_count + 1,
                ..old(self)@
            }),
    {
        self.heading_count = self.heading_count + 1;
    }

    /// Closes a heading: the count of open headings goes back to `count`.
    pub(crate) fn exit_heading(&mut self, count: usize)
        ensures
            final(self)@ == (PrinterState { heading_count: count as nat, ..old(self)@ }),
    {
        self.heading_count = count;
    }

    /// Indents by one unit of two blanks.
    pub(crate) fn shift_right(&mut self)
        requires
            old(self)@.indent + 2 <= usize::MAX,
        ensures
            final(self)@ == (PrinterState { indent: old(self)@.indent + 2, ..old(self)@ }),
    {
        self.indent = self.indent + 2;
    }

    /// Puts the indent back to `indent`, as it was when a scope was opened.
    pub(crate) fn restore_indent(&mut self, indent: usize)
        ensures
            final(self)@ == (PrinterState { indent: indent as nat, ..old(self)@ }),
    {
        self.indent = indent;
    }

    /// Takes one unit of indentation back.
    pub(crate) fn shift_left(&mut self)
        requires
            old(self)@.indent >= 2,
        ensures
            final(self)@ == (PrinterState {
                indent: (old(self)@.indent - 2) as nat,
                ..old(self)@
            }),
    {
        self.indent = self.indent - 2;
    }

    /// Writes the text of `value` behind a name that was written already:
    /// a scalar on the same line, the members of an array or object on
    /// lines of their own, one unit deeper. The indent is the same after
    /// the call as before.
    pub fn print_value(&mut self, value: &Value)
        requires
            old(self)@.indent + 2 * depth(*value) <= usize::MAX,
        ensures
            final(self)@ == old(self)@.wrote(
                render_value(*value, old(self)@.indent, old(self)@.level),
            ),
        decreases *value,
    {
        let ghost start = self@;
        match value {
            Value::Object(entries) => {
                self.write("\n");
                self.shift_right();
                let mut index: usize = 0;
                proof {
                    assert(entries@.take(0) =~= Seq::<(String, Value)>::empty());
                    assert(start.output + "\n"@ + Seq::<char>::empty() =~= start.output + "\n"@);
                }
                while index < entries.len()
                    invariant
                        index <= entries.len(),
                        *value == Value::Object(*entries),
                        start.indent + 2 * depth(*value) <= usize::MAX,
                        self@ == (PrinterState {
                            indent: start.indent + 2,
                            output: start.output + "\n"@ + render_entries(
                                entries@.take(index as int),
                                start.indent + 2,
                                start.level,
                            ),
                            ..start
                        }),
                    decreases entries.len() - index,
                {
                    let entry = &entries[index];
                    let ghost before = self@;
                    proof {
                        lemma_entry_depth(entries@, index as int);
                        assert(decreases_to!(*value => value->Object_0));
                        assert(decreases_to!(*entries => entries[index as int]));
                        assert(decreases_to!(*value => entry.1));
                        assert(entries@.take(index + 1).drop_last() =~= entries@.take(
                            index as int,
                        ));
                        assert(entries@.take(index + 1).last() == entries@[index as int]);
                    }
                    let is_skip = entry.1.is_null() && self.level.rank() > Level::Message.rank();
                    if !is_skip {
                        let mut head = repeat_char(' ', self.indent);
                        let styled = bold(entry.0.as_str());
                        head.append(styled.as_str());
                        head.append(": ");
                        self.write(head.as_str());
                        self.print_value(&entry.1);
                        proof {
                            assert(self@.output =~= before.output + render_entry(
                                entry.0@,
                                entry.1,
                                start.indent + 2,
                                start.level,
                            ));
                        }
                    } else {
                        proof {
                            assert(self@.output =~= before.output + render_entry(
                                entry.0@,
                                entry.1,
                                start.indent + 2,
                                start.level,
                            ));
                        }
                    }
                    proof {
                        let done = render_entries(
                            entries@.take(index as int),
                            start.indent + 2,
                            start.level,
                        );
                        let one = render_entry(
                            entry.0@,
                            entry.1,
                            start.indent + 2,
                            start.level,
                        );
                        assert(start.output + "\n"@ + done + one =~= start.output + "\n"@ + (done
                            + one));
                    }
                    index = index + 1;
                }
                proof {
                    assert(entries@.take(entries.len() as int) =~= entries@);
                    let members = render_entries(entries@, start.indent + 2, start.level);
                    assert(start.output + "\n"@ + members =~= start.output + ("\n"@ + members));
                }
                self.shift_left();
            },
            Value::Array(items) => {
                self.write("\n");
                self.shift_right();
                let mut index: usize = 0;
                proof {
                    assert(items@.take(0) =~= Seq::<Value>::empty());
                    assert(start.output + "\n"@ + Seq::<char>::empty() =~= start.output + "\n"@);
                }
                while index < items.len()
                    invariant
                        index <= items.len(),
                        *value == Value::Array(*items),
                        start.indent + 2 * depth(*value) <= usize::MAX,
                        self@ == (PrinterState {
                            indent: start.indent + 2,
                            output: start.output + "\n"@ + render_items(
                                items@.take(index as int),
                                start.indent + 2,
                                start.level,
                            ),
                            ..start
                        }),
                    decreases items.len() - index,
                {
                    let item = &items[index];
                    let ghost before = self@;
                    proof {
                        lemma_item_depth(items@, index as int);
                        assert(decreases_to!(*value => value->Array_0));
                        assert(decreases_to!(*items => items[index as int]));
                        assert(decreases_to!(*value => *item));
                        assert(items@.take(index + 1).drop_last() =~= items@.take(index as int));
                        assert(items@.take(index + 1).last() == items@[index as int]);
                    }
                    let mut head = repeat_char(' ', self.indent);
                    head.append("[");
                    push_decimal(&mut head, index as u64);
                    head.append("]: ");
                    self.write(head.as_str());
                    self.print_value(item);
                    proof {
                        let done = render_items(
                            items@.take(index as int),
                            start.indent + 2,
                            start.level,
                        );
                        let one = render_item(index as int, *item, start.indent + 2, start.level);
                        assert(self@.output =~= before.output + one);
                        assert(start.output + "\n"@ + done + one =~= start.output + "\n"@ + (done
                            + one));
                    }
                    index = index + 1;
                }
                proof {
                    assert(items@.take(items.len() as int) =~= items@);
                    let members = render_items(items@, start.indent + 2, start.level);
                    assert(start.output + "\n"@ + members =~= start.output + ("\n"@ + members));
                }
                self.shift_left();
            },
            Value::Null => {
                self.write("null\n");
            },
            Value::Bool(flag) => {
                if *flag {
                    self.write("true");
                } else {
                    self.write("false");
                }
                self.write("\n");
                proof {
                    assert(self@.output =~= start.output + render_value(
                        *value,
                        start.indent,
                        start.level,
                    ));
                }
            },
            Value::Number(number) => {
                let text = number.text();
                self.write(text.as_str());
                self.write("\n");
                proof {
                    assert(self@.output =~= start.output + render_value(
                        *value,
                        start.indent,
                        start.level,
                    ));
                }
            },
            Value::String(text) => {
                self.write(text.as_str());
                self.write("\n");
                proof {
                    assert(self@.output =~= start.output + render_value(
                        *value,
                        start.indent,
                        start.level,
                    ));
                }
            },
        }
    }
}

} // verus!
