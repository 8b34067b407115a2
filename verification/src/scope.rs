//! Scopes of a sink: a section indents what is written inside it, a heading
//! counts how deep the headings are nested. Closing a scope puts the sink
//! back to the depth it had when the scope was opened.

use crate::printer::{heading_text, section_title, Printer, PrinterState};
use crate::style::{bold, yellow};
use crate::text::repeat_char;
use vstd::prelude::*;
use vstd::string::*;

verus! {

/// An open section. What is written through `printer` stands one unit of
/// two blanks deeper than the section's title.
pub struct Section<'a> {
    /// The sink, indented for the section.
    pub printer: &'a mut Printer,
    /// The indent that closing the section goes back to.
    pub outer_indent: usize,
}

impl<'a> Section<'a> {
    /// Opens a section: writes its title and indents the sink by one unit.
    pub fn new(printer: &'a mut Printer, name: &str) -> (section: Section<'a>)
        requires
            old(printer)@.indent + 2 <= usize::MAX,
        ensures
            section.printer@ == (PrinterState {
                indent: old(printer)@.indent + 2,
                output: old(printer)@.output + section_title(name@, old(printer)@.indent),
                ..old(printer)@
            }),
            section.outer_indent == old(printer)@.indent,
            *final(printer) == *final(section.printer),
    {
        let outer_indent: usize = printer.indent();
        let mut title = repeat_char(' ', outer_indent);
        let styled = bold(name);
        title.append(styled.as_str());
        title.append(":");
        printer.write(title.as_str());
        printer.shift_right();
        Section { printer, outer_indent }
    }

    /// Closes the section: the sink's indent is what it was before the
    /// section was opened, whatever happened inside.
    pub fn close(self)
        ensures
            final(self.printer)@ == (PrinterState {
                indent: self.outer_indent as nat,
                ..old(self.printer)@
            }),
    {
        self.printer.restore_indent(self.outer_indent);
    }
}

/// An open heading.
pub struct Heading<'a> {
    /// The sink, inside the heading.
    pub printer: &'a mut Printer,
    /// The count of open headings that closing this one goes back to.
    pub outer_count: usize,
}

impl<'a> Heading<'a> {
    /// Opens a heading one deeper than the sink's open headings and writes
    /// it: after an empty line, as many `#` as it is deep and the name, in
    /// bold. Only a heading of depth 1 is yellow as well.
    pub fn new(printer: &'a mut Printer, name: &str) -> (heading: Heading<'a>)
        requires
            old(printer)@.heading_count + 1 <= usize::MAX,
        ensures
            heading.printer@ == (PrinterState {
                heading_count: old(printer)@.heading_count + 1,
                output: old(printer)@.output + heading_text(
                    name@,
                    old(printer)@.heading_count + 1,
                ),
                ..old(printer)@
            }),
            heading.outer_count == old(printer)@.heading_count,
            *final(printer) == *final(heading.printer),
    {
        let outer_count: usize = printer.heading_count();
        printer.newline();
        printer.enter_heading();
        let mut title = repeat_char('#', printer.heading_count());
        title.append(" ");
        title.append(name);
        let styled = if printer.heading_count() == 1 {
            let coloured = yellow(title.as_str());
            bold(coloured.as_str())
        } else {
            bold(title.as_str())
        };
        printer.write(styled.as_str());
        printer.write("\n");
        proof {
            assert(printer@.output =~= old(printer)@.output + heading_text(
                name@,
                old(printer)@.heading_count + 1,
            ));
        }
        Heading { printer, outer_count }
    }

    /// Closes the heading: the sink has as many open headings as before
    /// this one was opened.
    pub fn close(self)
        ensures
            final(self.printer)@ == (PrinterState {
                heading_count: self.outer_count as nat,
                ..old(self.printer)@
            }),
    {
        self.printer.exit_heading(self.outer_count);
    }
}

} // verus!
