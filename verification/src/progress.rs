//! Progress indicators: the state of one indicator and the rules by which
//! its position, total and messages change.

use crate::level::Level;
use crate::lines::{format_log, log_line, sanitize_output, sanitized};
use crate::printer::{new_bar, Printer};
use crate::style::{ansi_bold, bold};
use crate::text::{byte_len, measure, repeat_char, spaces};
use vstd::prelude::*;
use vstd::string::*;

verus! {

/// Width, in bytes, that the drawn bar itself takes on the line.
pub const BAR_WIDTH: usize = 28;

/// What a progress indicator is at one moment.
pub struct ProgressState {
    /// Threshold of the sink that the indicator was made for.
    pub printer_level: Level,
    /// Indentation of the sink when the indicator was made.
    pub indent: nat,
    /// Width of the sink's lines in bytes.
    pub max_width: nat,
    /// Width that the drawn bar takes on the line.
    pub progress_width: nat,
    /// The total of a bounded bar; a spinner has none.
    pub total: Option<u64>,
    /// How far the indicator has come.
    pub position: u64,
    /// Text in front of the bar.
    pub prefix: Seq<char>,
    /// The one-line message shown behind the bar.
    pub message: Seq<char>,
    /// The message to show when the indicator is finished, if any.
    pub ending_message: Option<Seq<char>>,
    /// Log lines printed above the bar and not yet taken.
    pub output: Seq<char>,
}

/// The position that adding `count` to `position` gives, wrapping round at
/// the end of `u64`.
pub open spec fn wrapped_sum(position: u64, count: u64) -> u64 {
    if position + count > u64::MAX {
        (position + count - u64::MAX - 1) as u64
    } else {
        (position + count) as u64
    }
}

/// The template by which an indicator is drawn: a bar with the prefix and
/// the message behind it where there is a total, else an indented spinner
/// between prefix and message.
pub open spec fn template_text(indent: nat, total: Option<u64>) -> Seq<char> {
    if total is Some {
        "[{bar:.cyan/blue}] {prefix} {msg}"@
    } else {
        spaces(indent) + "{prefix} {spinner} {msg}"@
    }
}

impl ProgressState {
    /// Bytes of the line that are left for the message: the line's width
    /// less the bar and the prefix, and nothing where those fill the line.
    pub open spec fn remaining_width(self) -> nat {
        if self.max_width > self.progress_width + byte_len(self.prefix) {
            (self.max_width - self.progress_width - byte_len(self.prefix)) as nat
        } else {
            0
        }
    }

    /// `message` cut down to one line that fits behind the bar.
    pub open spec fn fitted(self, message: Seq<char>) -> Seq<char> {
        sanitized(message, self.remaining_width())
    }

    /// The state after a new total was given: a changed total of a bounded
    /// bar starts a new pass at position 0; anything else changes nothing.
    pub open spec fn with_total(self, total: u64) -> ProgressState {
        if self.total is Some && self.total != Some(total) {
            ProgressState { total: Some(total), position: 0, ..self }
        } else {
            self
        }
    }

    /// The state after `count` was added to the position.
    pub open spec fn advanced(self, count: u64) -> ProgressState {
        ProgressState { position: wrapped_sum(self.position, count), ..self }
    }

    /// The state after `count` was added to the position of a repeating
    /// indicator: a position that reaches the total starts again at 0.
    pub open spec fn advanced_with_overflow(self, count: u64) -> ProgressState {
        let next = wrapped_sum(self.position, count);
        match self.total {
            Some(total) if next >= total => ProgressState { position: 0, ..self },
            _ => ProgressState { position: next, ..self },
        }
    }

    /// What finishing the indicator renders: the ending message, fitted
    /// and in bold, or nothing where none was set.
    pub open spec fn final_rendering(self) -> Option<Seq<char>> {
        match self.ending_message {
            Some(message) => Some(ansi_bold(self.fitted(message))),
            None => None,
        }
    }
}

/// One progress indicator: a bounded bar or a spinner.
pub struct MultiProgressBar {
    printer_level: Level,
    indent: usize,
    max_width: usize,
    progress_width: usize,
    total: Option<u64>,
    position: u64,
    prefix: String,
    message: String,
    final_message: Option<String>,
    output: String,
}

impl View for MultiProgressBar {
    type V = ProgressState;

    closed spec fn view(&self) -> ProgressState {
        ProgressState {
            printer_level: self.printer_level,
            indent: self.indent as nat,
            max_width: self.max_width as nat,
            progress_width: self.progress_width as nat,
            total: self.total,
            position: self.position,
            prefix: self.prefix@,
            message: self.message@,
            ending_message: match self.final_message {
                Some(message) => Some(message@),
                None => None,
            },
            output: self.output@,
        }
    }
}

impl MultiProgressBar {
    /// A fresh indicator at position 0 with an empty message. Its prefix is
    /// `prefix` and a colon, in bold.
    pub(crate) fn create(
        prefix: &str,
        total: Option<u64>,
        finish_message: Option<&str>,
        printer_level: Level,
        indent: usize,
        max_width: usize,
    ) -> (bar: MultiProgressBar)
        ensures
            bar@ == (ProgressState {
                printer_level,
                indent: indent as nat,
                max_width: max_width as nat,
                progress_width: BAR_WIDTH as nat,
                total,
                position: 0,
                prefix: ansi_bold(prefix@ + ":"@),
                message: Seq::empty(),
                ending_message: match finish_message {
                    Some(message) => Some(message@),
                    None => None,
                },
                output: Seq::empty(),
            }),
    {
        let mut label = prefix.to_owned();
        label.append(":");
        let final_message = match finish_message {
            Some(message) => Some(message.to_owned()),
            None => None,
        };
        MultiProgressBar {
            printer_level,
            indent,
            max_width,
            progress_width: BAR_WIDTH,
            total,
            position: 0,
            prefix: bold(label.as_str()),
            message: String::new(),
            final_message,
            output: String::new(),
        }
    }

    /// The total of a bounded bar; `None` for a spinner.
    pub fn total(&self) -> (total: Option<u64>)
        ensures
            total == self@.total,
    {
        self.total
    }

    /// How far the indicator has come.
    pub fn position(&self) -> (position: u64)
        ensures
            position == self@.position,
    {
        self.position
    }

    /// The text in front of the bar.
    pub fn prefix(&self) -> (prefix: &str)
        ensures
            prefix@ == self@.prefix,
    {
        self.prefix.as_str()
    }

    /// The message shown behind the bar.
    pub fn message(&self) -> (message: &str)
        ensures
            message@ == self@.message,
    {
        self.message.as_str()
    }

    /// The message that finishing will render, as it was stored.
    pub fn ending_message(&self) -> (message: Option<&str>)
        ensures
            message is Some == self@.ending_message is Some,
            message matches Some(text) ==> self@.ending_message == Some(text@),
    {
        match &self.final_message {
            Some(message) => Some(message.as_str()),
            None => None,
        }
    }

    /// The template by which the indicator is to be drawn.
    pub fn template(&self) -> (template: String)
        ensures
            template@ == template_text(self@.indent, self@.total),
    {
        if self.total.is_some() {
            "[{bar:.cyan/blue}] {prefix} {msg}".to_owned()
        } else {
            let mut template = repeat_char(' ', self.indent);
            template.append("{prefix} {spinner} {msg}");
            template
        }
    }

    /// Gives a bounded bar a new total. A total that differs from the
    /// present one starts a new pass at position 0; a spinner stays a
    /// spinner.
    pub fn set_total(&mut self, total: u64)
        ensures
            final(self)@ == old(self)@.with_total(total),
    {
        if let Some(length) = self.total {
            if length != total {
                self.total = Some(total);
                self.position = 0;
            }
        }
    }

    /// Prints a log line above the bar if the sink's threshold admits
    /// `level`.
    pub fn log(&mut self, level: Level, message: &str)
        ensures
            final(self)@ == (ProgressState {
                output: if old(self)@.printer_level.spec_admits(level) {
                    old(self)@.output + log_line(
                        old(self)@.indent,
                        old(self)@.max_width,
                        level,
                        message@,
                    )
                } else {
                    old(self)@.output
                },
                ..old(self)@
            }),
    {
        if self.printer_level.admits(level) {
            let line = format_log(self.indent, self.max_width, level, message);
            self.output.append(line.as_str());
        }
    }

    /// Takes the log lines printed since the last call.
    pub fn take_output(&mut self) -> (text: String)
        ensures
            text@ == old(self)@.output,
            final(self)@ == (ProgressState { output: Seq::empty(), ..old(self)@ }),
    {
        let mut text = String::new();
        std::mem::swap(&mut self.output, &mut text);
        text
    }

    /// Replaces the text in front of the bar.
    pub fn set_prefix(&mut self, message: &str)
        ensures
            final(self)@ == (ProgressState { prefix: message@, ..old(self)@ }),
    {
        self.prefix = message.to_owned();
    }

    /// `message` cut down to one line that fits behind the bar.
    pub fn construct_message(&self, message: &str) -> (fitted: String)
        ensures
            fitted@ == self@.fitted(message@),
    {
        let prefix_size: usize = measure(self.prefix.as_str());
        let width: usize = self.max_width.saturating_sub(self.progress_width).saturating_sub(
            prefix_size,
        );
        sanitize_output(message, width)
    }

    /// Shows `message` behind the bar, cut down to one line that fits.
    pub fn set_message(&mut self, message: &str)
        ensures
            final(self)@ == (ProgressState {
                message: old(self)@.fitted(message@),
                ..old(self)@
            }),
    {
        self.message = self.construct_message(message);
    }

    /// Stores the message that finishing will render; nothing is shown yet.
    pub fn set_ending_message(&mut self, message: &str)
        ensures
            final(self)@ == (ProgressState {
                ending_message: Some(old(self)@.fitted(message@)),
                ..old(self)@
            }),
    {
        self.final_message = Some(self.construct_message(message));
    }

    /// Adds `count` to the position of a repeating indicator. A bounded bar
    /// whose position reaches its total starts again at 0, so the position
    /// never stays above the total.
    pub fn increment_with_overflow(&mut self, count: u64)
        ensures
            final(self)@ == old(self)@.advanced_with_overflow(count),
            final(self)@.total matches Some(total) ==> final(self)@.position <= total,
            final(self)@.total matches Some(total) ==> (final(self)@.position < total
                || final(self)@.position == 0),
    {
        self.position = self.position.wrapping_add(count);
        if let Some(total) = self.total {
            if self.position >= total {
                self.position = 0;
            }
        }
    }

    /// Adds `count` to the position.
    pub fn increment(&mut self, count: u64)
        ensures
            final(self)@ == old(self)@.advanced(count),
    {
        self.position = self.position.wrapping_add(count);
    }

    /// Finishes the indicator. Returns what is to be rendered in its place:
    /// the ending message, fitted and in bold, or `None` where no ending
    /// message was set and the bar stays as it was last drawn.
    pub fn finish(self) -> (rendering: Option<String>)
        ensures
            rendering is Some == self@.final_rendering() is Some,
            rendering matches Some(text) ==> self@.final_rendering() == Some(text@),
    {
        match &self.final_message {
            Some(message) => {
                let fitted = self.construct_message(message.as_str());
                Some(bold(fitted.as_str()))
            },
            None => None,
        }
    }
}

} // verus!

verus! {

/// The text of a message that may be absent.
pub open spec fn optional_text(message: Option<&str>) -> Option<Seq<char>> {
    match message {
        Some(message) => Some(message@),
        None => None,
    }
}

/// A group of indicators that are drawn together for one sink.
pub struct MultiProgress<'a> {
    /// The sink that the indicators belong to.
    pub printer: &'a mut Printer,
}

impl<'a> MultiProgress<'a> {
    /// A group for `printer`.
    pub fn new(printer: &'a mut Printer) -> (group: MultiProgress<'a>)
        ensures
            group.printer@ == old(printer)@,
            *final(printer) == *final(group.printer),
    {
        MultiProgress { printer }
    }

    /// Adds an indicator to the group: a bounded bar where `total` is
    /// given, else a spinner. It starts at position 0 with an empty
    /// message, takes the sink's threshold, width and present indent, and
    /// has `prefix` and a colon, in bold, in front of it. The sink itself
    /// is not touched.
    pub fn add_progress(
        &mut self,
        prefix: &str,
        total: Option<u64>,
        finish_message: Option<&str>,
    ) -> (bar: MultiProgressBar)
        ensures
            bar@ == new_bar(old(self).printer@, prefix@, total, optional_text(finish_message)),
            *final(self) == *old(self),
    {
        MultiProgressBar::create(
            prefix,
            total,
            finish_message,
            self.printer.level(),
            self.printer.indent(),
            self.printer.max_width(),
        )
    }
}

} // verus!
