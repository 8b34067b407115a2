use printer::{Level, MultiProgress, MultiProgressBar, Printer};

fn bar_with(total: Option<u64>, width: usize) -> MultiProgressBar {
    let mut printer = Printer::with_dimensions(Some((width + 1, 24)));
    let mut group = MultiProgress::new(&mut printer);
    group.add_progress("task", total, None)
}

#[test]
fn add_progress_makes_a_fresh_bar() {
    let mut printer = Printer::with_dimensions(Some((81, 24)));
    let mut group = MultiProgress::new(&mut printer);
    let bar = group.add_progress("build", Some(10), Some("Done!"));
    assert_eq!(bar.total(), Some(10));
    assert_eq!(bar.position(), 0);
    assert_eq!(bar.prefix(), "\x1b[1mbuild:\x1b[0m");
    assert_eq!(bar.message(), "");
    assert_eq!(bar.ending_message(), Some("Done!"));
    assert_eq!(bar.template(), "[{bar:.cyan/blue}] {prefix} {msg}");
}

#[test]
fn add_progress_without_total_makes_a_spinner() {
    let mut printer = Printer::with_dimensions(None);
    let section = printer::Section::new(&mut printer, "outer");
    let mut group = MultiProgress::new(section.printer);
    let bar = group.add_progress("spin", None, None);
    assert_eq!(bar.total(), None);
    assert_eq!(bar.ending_message(), None);
    assert_eq!(bar.template(), "  {prefix} {spinner} {msg}");
}

#[test]
fn add_progress_leaves_the_sink_untouched() {
    let mut printer = Printer::with_dimensions(None);
    {
        let mut group = MultiProgress::new(&mut printer);
        let _first = group.add_progress("First", Some(10), None);
        let _second = group.add_progress("Second", Some(50), None);
    }
    assert_eq!(printer.indent(), 0);
    assert_eq!(printer.take_output(), "");
}

#[test]
fn set_total_restarts_on_a_new_total() {
    let mut bar = bar_with(Some(10), 80);
    bar.increment(4);
    bar.set_total(10);
    assert_eq!(bar.position(), 4);
    assert_eq!(bar.total(), Some(10));
    bar.set_total(20);
    assert_eq!(bar.position(), 0);
    assert_eq!(bar.total(), Some(20));
}

#[test]
fn set_total_leaves_a_spinner_a_spinner() {
    let mut bar = bar_with(None, 80);
    bar.increment(3);
    bar.set_total(20);
    assert_eq!(bar.total(), None);
    assert_eq!(bar.position(), 3);
}

#[test]
fn increment_adds_to_the_position() {
    let mut bar = bar_with(Some(10), 80);
    bar.increment(3);
    bar.increment(4);
    assert_eq!(bar.position(), 7);
    bar.increment(10);
    assert_eq!(bar.position(), 17);
}

#[test]
fn increment_wraps_at_the_end_of_the_range() {
    let mut bar = bar_with(None, 80);
    bar.increment(u64::MAX);
    assert_eq!(bar.position(), u64::MAX);
    bar.increment(2);
    assert_eq!(bar.position(), 1);
}

#[test]
fn increment_with_overflow_starts_again_at_the_total() {
    let mut bar = bar_with(Some(3), 80);
    bar.increment_with_overflow(1);
    assert_eq!(bar.position(), 1);
    bar.increment_with_overflow(1);
    assert_eq!(bar.position(), 2);
    bar.increment_with_overflow(1);
    assert_eq!(bar.position(), 0);
    bar.increment_with_overflow(1);
    assert_eq!(bar.position(), 1);
    bar.increment_with_overflow(7);
    assert_eq!(bar.position(), 0);
}

#[test]
fn increment_with_overflow_never_leaves_the_position_above_the_total() {
    for total in 0u64..6 {
        for count in 0u64..9 {
            let mut bar = bar_with(Some(total), 80);
            for _ in 0..12 {
                bar.increment_with_overflow(count);
                assert!(bar.position() <= total);
                assert!(bar.position() < total || bar.position() == 0);
            }
        }
    }
}

#[test]
fn increment_with_overflow_resets_a_position_that_was_pushed_past_the_total() {
    let mut bar = bar_with(Some(5), 80);
    bar.increment(9);
    assert_eq!(bar.position(), 9);
    bar.increment_with_overflow(1);
    assert_eq!(bar.position(), 0);
    bar.increment_with_overflow(2);
    assert_eq!(bar.position(), 2);
}

#[test]
fn increment_with_overflow_on_a_spinner_only_adds() {
    let mut bar = bar_with(None, 80);
    for _ in 0..100 {
        bar.increment_with_overflow(1);
    }
    assert_eq!(bar.position(), 100);
}

#[test]
fn set_message_fits_the_message_behind_the_bar() {
    // The line is 60 bytes wide, the bar takes 28 and the prefix
    // "\x1b[1mtask:\x1b[0m" takes 13: 19 bytes are left.
    let mut bar = bar_with(Some(10), 60);
    bar.set_message("half way");
    assert_eq!(bar.message(), "half way           ");
    assert_eq!(bar.message().len(), 19);
    bar.set_message("a message that is much too long to fit");
    assert_eq!(bar.message(), "a message that is m");
    bar.set_message("two\nlines\r");
    assert_eq!(bar.message(), "twolines           ");
}

#[test]
fn set_message_on_a_line_that_is_too_narrow_gives_an_empty_message() {
    let mut bar = bar_with(Some(10), 30);
    bar.set_message("anything");
    assert_eq!(bar.message(), "");
    let mut exact = bar_with(Some(10), 41);
    exact.set_message("anything");
    assert_eq!(exact.message(), "");
    let mut one = bar_with(Some(10), 42);
    one.set_message("anything");
    assert_eq!(one.message(), "a");
}

#[test]
fn construct_message_does_not_change_the_bar() {
    let bar = bar_with(Some(10), 60);
    assert_eq!(bar.construct_message("abc"), "abc                ");
    assert_eq!(bar.message(), "");
}

#[test]
fn set_prefix_changes_the_room_for_the_message() {
    let mut bar = bar_with(Some(10), 60);
    bar.set_prefix("p");
    assert_eq!(bar.prefix(), "p");
    bar.set_message("x");
    assert_eq!(bar.message().len(), 31);
}

#[test]
fn set_ending_message_stores_without_showing() {
    let mut bar = bar_with(Some(10), 60);
    bar.set_message("running");
    bar.set_ending_message("Done!");
    assert_eq!(bar.message(), "running            ");
    assert_eq!(bar.ending_message(), Some("Done!              "));
}

#[test]
fn finish_renders_the_ending_message_in_bold() {
    let mut bar = bar_with(Some(10), 60);
    bar.set_ending_message("Done!");
    assert_eq!(bar.finish(), Some("\x1b[1mDone!              \x1b[0m".to_string()));
}

#[test]
fn finish_fits_an_ending_message_that_was_given_at_creation() {
    let mut printer = Printer::with_dimensions(Some((61, 24)));
    let mut group = MultiProgress::new(&mut printer);
    let bar = group.add_progress("task", None, Some("all\ndone"));
    assert_eq!(bar.ending_message(), Some("all\ndone"));
    assert_eq!(bar.finish(), Some("\x1b[1malldone            \x1b[0m".to_string()));
}

#[test]
fn finish_without_an_ending_message_renders_nothing() {
    let mut bar = bar_with(Some(10), 60);
    bar.set_message("last state");
    assert_eq!(bar.finish(), None);
}

#[test]
fn bar_log_is_gated_by_the_threshold_of_the_sink() {
    let mut printer = Printer::with_dimensions(Some((31, 24)));
    printer.set_level(Level::Warning);
    let mut group = MultiProgress::new(&mut printer);
    let mut bar = group.add_progress("task", None, None);
    bar.log(Level::Info, "quiet");
    assert_eq!(bar.take_output(), "");
    bar.log(Level::Warning, "loud");
    bar.log(Level::Error, "louder");
    assert_eq!(
        bar.take_output(),
        "\x1b[1mWarning\x1b[0m: loud         \n\x1b[1mError\x1b[0m: louder         \n"
    );
    assert_eq!(bar.take_output(), "");
}
