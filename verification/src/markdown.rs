//! Markdown markup: functions that build a piece of markup, and a writer
//! that sends the same pieces to a sink.

use crate::printer::Printer;
use crate::text::{repeat_char, repeated, spaces};
use std::sync::Arc;
use vstd::prelude::*;
use vstd::string::*;

verus! {

/// A heading: `level` times `#`, a blank, the content and an empty line.
pub open spec fn heading_markup(level: u8, content: Seq<char>) -> Seq<char> {
    repeated('#', level as nat) + " "@ + content + "\n\n"@
}

/// A horizontal line between two empty lines.
pub open spec fn hline_markup() -> Seq<char> {
    "\n---\n\n"@
}

/// The texts of shared strings.
pub open spec fn shared_texts(items: Seq<Arc<str>>) -> Seq<Seq<char>> {
    Seq::new(items.len(), |i: int| (*items[i])@)
}

/// One bullet for each item, each on a line of its own.
pub open spec fn bullets(items: Seq<Seq<char>>) -> Seq<char>
    decreases items.len(),
{
    if items.len() == 0 {
        Seq::empty()
    } else {
        bullets(items.drop_last()) + "- "@ + items.last() + "\n"@
    }
}

/// A list: one bullet for each item, then an empty line.
pub open spec fn list_markup(items: Seq<Seq<char>>) -> Seq<char> {
    bullets(items) + "\n"@
}

/// Blanks in front of a list item of the given level: two for each level
/// above the first. Level 0 counts as level 1.
pub open spec fn item_indent(level: u8) -> nat {
    if level == 0 {
        0
    } else {
        ((level - 1) * 2) as nat
    }
}

/// One list item at the given level of nesting.
pub open spec fn list_item_markup(level: u8, item: Seq<char>) -> Seq<char> {
    spaces(item_indent(level)) + "- "@ + item + "\n"@
}

/// Bold text.
pub open spec fn bold_markup(content: Seq<char>) -> Seq<char> {
    "**"@ + content + "**"@
}

/// A link that shows as `show` and leads to `link`.
pub open spec fn hyperlink_markup(show: Seq<char>, link: Seq<char>) -> Seq<char> {
    "["@ + show + "]("@ + link + ")"@
}

/// Italic text.
pub open spec fn italic_markup(content: Seq<char>) -> Seq<char> {
    "*"@ + content + "*"@
}

/// Text that is struck through.
pub open spec fn strikethrough_markup(content: Seq<char>) -> Seq<char> {
    "~~"@ + content + "~~"@
}

/// Code within a line.
pub open spec fn code_markup(content: Seq<char>) -> Seq<char> {
    "`"@ + content + "`"@
}

/// A block of code in a fence that names its language; the content stands
/// on lines of its own.
pub open spec fn code_block_markup(code_type: Seq<char>, content: Seq<char>) -> Seq<char> {
    "```"@ + code_type + "\n"@ + content + "\n```\n"@
}

/// A paragraph: the content and an empty line.
pub open spec fn paragraph_markup(content: Seq<char>) -> Seq<char> {
    content + "\n\n"@
}

/// A heading of the given level.
pub fn heading(level: u8, content: &str) -> (markup: String)
    ensures
        markup@ == heading_markup(level, content@),
{
    let mut markup = repeat_char('#', level as usize);
    markup.append(" ");
    markup.append(content);
    markup.append("\n\n");
    markup
}

/// A horizontal line.
pub fn hline() -> (markup: &'static str)
    ensures
        markup@ == hline_markup(),
{
    "\n---\n\n"
}

/// A list with one bullet for each item.
pub fn list(items: Vec<Arc<str>>) -> (markup: String)
    ensures
        markup@ == list_markup(shared_texts(items@)),
{
    let mut markup = String::new();
    let mut index: usize = 0;
    proof {
        assert(shared_texts(items@).take(0) =~= Seq::<Seq<char>>::empty());
    }
    while index < items.len()
        invariant
            index <= items.len(),
            markup@ == bullets(shared_texts(items@).take(index as int)),
        decreases items.len() - index,
    {
        let item: &str = &items[index];
        proof {
            let all = shared_texts(items@);
            assert(all.take(index + 1).drop_last() =~= all.take(index as int));
            assert(all.take(index + 1).last() == item@);
        }
        markup.append("- ");
        markup.append(item);
        markup.append("\n");
        index = index + 1;
    }
    proof {
        assert(shared_texts(items@).take(items.len() as int) =~= shared_texts(items@));
    }
    markup.append("\n");
    markup
}

/// One list item at the given level of nesting.
pub fn list_item(level: u8, item: &str) -> (markup: String)
    ensures
        markup@ == list_item_markup(level, item@),
{
    let level: usize = if level == 0 {
        1
    } else {
        level as usize
    };
    let mut markup = repeat_char(' ', (level - 1) * 2);
    markup.append("- ");
    markup.append(item);
    markup.append("\n");
    markup
}

/// Bold text.
pub fn bold(content: &str) -> (markup: String)
    ensures
        markup@ == bold_markup(content@),
{
    let mut markup = "**".to_owned();
    markup.append(content);
    markup.append("**");
    markup
}

/// A link that shows as `show` and leads to `link`.
pub fn hyperlink(show: &str, link: &str) -> (markup: String)
    ensures
        markup@ == hyperlink_markup(show@, link@),
{
    let mut markup = "[".to_owned();
    markup.append(show);
    markup.append("](");
    markup.append(link);
    markup.append(")");
    markup
}

/// Italic text.
pub fn italic(content: &str) -> (markup: String)
    ensures
        markup@ == italic_markup(content@),
{
    let mut markup = "*".to_owned();
    markup.append(content);
    markup.append("*");
    markup
}

/// Text that is struck through.
pub fn strikethrough(content: &str) -> (markup: String)
    ensures
        markup@ == strikethrough_markup(content@),
{
    let mut markup = "~~".to_owned();
    markup.append(content);
    markup.append("~~");
    markup
}

/// Code within a line.
pub fn code(content: &str) -> (markup: String)
    ensures
        markup@ == code_markup(content@),
{
    let mut markup = "`".to_owned();
    markup.append(content);
    markup.append("`");
    markup
}

/// A block of code in a fence that names its language.
pub fn code_block(code_type: &str, content: &str) -> (markup: String)
    ensures
        markup@ == code_block_markup(code_type@, content@),
{
    let mut markup = "```".to_owned();
    markup.append(code_type);
    markup.append("\n");
    markup.append(content);
    markup.append("\n```\n");
    markup
}

/// A paragraph.
pub fn paragraph(content: &str) -> (markup: String)
    ensures
        markup@ == paragraph_markup(content@),
{
    let mut markup = content.to_owned();
    markup.append("\n\n");
    markup
}

/// A writer of markdown to a sink. Each method writes what the function of
/// the same name builds. The writer keeps writing to the sink it was made
/// for: every method leaves the borrow of that sink as it was.
pub struct Markdown<'a> {
    /// The sink.
    pub printer: &'a mut Printer,
}

impl<'a> Markdown<'a> {
    /// A writer to `printer`.
    pub fn new(printer: &'a mut Printer) -> (markdown: Markdown<'a>)
        ensures
            markdown.printer@ == old(printer)@,
            *final(printer) == *final(markdown.printer),
    {
        Markdown { printer }
    }

    /// Writes a heading of the given level.
    pub fn heading(&mut self, level: u8, content: &str)
        ensures
            final(self).printer@ == old(self).printer@.wrote(heading_markup(level, content@)),
            *final(final(self).printer) == *final(old(self).printer),
    {
        let markup = heading(level, content);
        self.printer.write(markup.as_str());
    }

    /// Writes `content` as it is.
    pub fn write(&mut self, content: &str)
        ensures
            final(self).printer@ == old(self).printer@.wrote(content@),
            *final(final(self).printer) == *final(old(self).printer),
    {
        self.printer.write(content);
    }

    /// Writes a horizontal line.
    pub fn hline(&mut self)
        ensures
            final(self).printer@ == old(self).printer@.wrote(hline_markup()),
            *final(final(self).printer) == *final(old(self).printer),
    {
        self.printer.write(hline());
    }

    /// Writes a list with one bullet for each item.
    pub fn list(&mut self, items: Vec<Arc<str>>)
        ensures
            final(self).printer@ == old(self).printer@.wrote(list_markup(shared_texts(items@))),
            *final(final(self).printer) == *final(old(self).printer),
    {
        let markup = list(items);
        self.printer.write(markup.as_str());
    }

    /// Writes one list item at the given level of nesting.
    pub fn list_item(&mut self, level: u8, item: &str)
        ensures
            final(self).printer@ == old(self).printer@.wrote(list_item_markup(level, item@)),
            *final(final(self).printer) == *final(old(self).printer),
    {
        let markup = list_item(level, item);
        self.printer.write(markup.as_str());
    }

    /// Writes bold text.
    pub fn bold(&mut self, content: &str)
        ensures
            final(self).printer@ == old(self).printer@.wrote(bold_markup(content@)),
            *final(final(self).printer) == *final(old(self).printer),
    {
        let markup = bold(content);
        self.printer.write(markup.as_str());
    }

    /// Writes a link.
    pub fn hyperlink(&mut self, show: &str, link: &str)
        ensures
            final(self).printer@ == old(self).printer@.wrote(hyperlink_markup(show@, link@)),
            *final(final(self).printer) == *final(old(self).printer),
    {
        let markup = hyperlink(show, link);
        self.printer.write(markup.as_str());
    }

    /// Writes italic text.
    pub fn italic(&mut self, content: &str)
        ensures
            final(self).printer@ == old(self).printer@.wrote(italic_markup(content@)),
            *final(final(self).printer) == *final(old(self).printer),
    {
        let markup = italic(content);
        self.printer.write(markup.as_str());
    }

    /// Writes text that is struck through.
    pub fn strikethrough(&mut self, content: &str)
        ensures
            final(self).printer@ == old(self).printer@.wrote(strikethrough_markup(content@)),
            *final(final(self).printer) == *final(old(self).printer),
    {
        let markup = strikethrough(content);
        self.printer.write(markup.as_str());
    }

    /// Writes code within a line.
    pub fn code(&mut self, content: &str)
        ensures
            final(self).printer@ == old(self).printer@.wrote(code_markup(content@)),
            *final(final(self).printer) == *final(old(self).printer),
    {
        let markup = code(content);
        self.printer.write(markup.as_str());
    }

    /// Writes a block of code.
    pub fn code_block(&mut self, code_type: &str, content: &str)
        ensures
            final(self).printer@ == old(self).printer@.wrote(
                code_block_markup(code_type@, content@),
            ),
            *final(final(self).printer) == *final(old(self).printer),
    {
        let markup = code_block(code_type, content);
        self.printer.write(markup.as_str());
    }

    /// Writes a paragraph.
    pub fn paragraph(&mut self, content: &str)
        ensures
            final(self).printer@ == old(self).printer@.wrote(paragraph_markup(content@)),
            *final(final(self).printer) == *final(old(self).printer),
    {
        let markup = paragraph(content);
        self.printer.write(markup.as_str());
    }
}

} // verus!
