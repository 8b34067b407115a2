use printer::markdown::{
    bold, code, code_block, heading, hline, hyperlink, italic, list, list_item, paragraph,
    strikethrough, Markdown,
};
use printer::Printer;
use std::sync::Arc;

#[test]
fn markdown_heading_repeats_the_hash() {
    assert_eq!(heading(1, "Title"), "# Title\n\n");
    assert_eq!(heading(3, "Deep"), "### Deep\n\n");
    assert_eq!(heading(0, "None"), " None\n\n");
}

#[test]
fn markdown_hline_is_a_rule_between_empty_lines() {
    assert_eq!(hline(), "\n---\n\n");
}

#[test]
fn markdown_list_has_one_bullet_per_item() {
    let items: Vec<Arc<str>> = vec![Arc::from("one"), Arc::from("two"), Arc::from("three")];
    assert_eq!(list(items), "- one\n- two\n- three\n\n");
    assert_eq!(list(vec![]), "\n");
}

#[test]
fn markdown_list_item_indents_by_level() {
    assert_eq!(list_item(0, "a"), "- a\n");
    assert_eq!(list_item(1, "a"), "- a\n");
    assert_eq!(list_item(2, "a"), "  - a\n");
    assert_eq!(list_item(4, "a"), "      - a\n");
    assert_eq!(list_item(255, "a").len(), 508 + 4);
}

#[test]
fn markdown_inline_markup() {
    assert_eq!(bold("b"), "**b**");
    assert_eq!(italic("i"), "*i*");
    assert_eq!(strikethrough("s"), "~~s~~");
    assert_eq!(code("c"), "`c`");
    assert_eq!(hyperlink("show", "https://example.com"), "[show](https://example.com)");
}

#[test]
fn markdown_blocks() {
    assert_eq!(code_block("rust", "fn main() {}"), "```rust\nfn main() {}\n```\n");
    assert_eq!(paragraph("text"), "text\n\n");
}

#[test]
fn markdown_writer_writes_what_the_functions_build() {
    let mut printer = Printer::with_dimensions(None);
    {
        let mut markdown = Markdown::new(&mut printer);
        markdown.heading(2, "Title");
        markdown.write("plain");
        markdown.hline();
        markdown.list(vec![Arc::from("a"), Arc::from("b")]);
        markdown.list_item(2, "nested");
        markdown.bold("b");
        markdown.hyperlink("s", "l");
        markdown.italic("i");
        markdown.strikethrough("x");
        markdown.code("c");
        markdown.code_block("sh", "ls");
        markdown.paragraph("p");
    }
    assert_eq!(
        printer.take_output(),
        "## Title\n\nplain\n---\n\n- a\n- b\n\n  - nested\n**b**[s](l)*i*~~x~~`c````sh\nls\n```\np\n\n"
    );
    assert_eq!(printer.take_output(), "");
}
