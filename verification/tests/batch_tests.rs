use printer::{BatchRunner, ExecuteLater, ExecuteOptions, MultiProgress, Printer};

fn later(command: &str) -> ExecuteLater {
    ExecuteLater { command: command.to_string(), options: ExecuteOptions::default() }
}

fn commands(specs: &[ExecuteLater]) -> Vec<String> {
    specs.iter().map(|spec| spec.command.clone()).collect()
}

#[test]
fn a_new_batch_is_empty() {
    let batch = BatchRunner::new();
    assert!(batch.is_empty());
    assert_eq!(batch.len(), 0);
}

#[test]
fn add_extends_the_queue_of_a_key() {
    let mut printer = Printer::with_dimensions(None);
    let mut batch = BatchRunner::new();
    batch.add("build", vec![later("specA"), later("specB")]);
    batch.add("test", vec![later("specD")]);
    batch.add("build", vec![later("specC")]);
    assert_eq!(batch.len(), 2);

    let mut group = MultiProgress::new(&mut printer);
    let units = batch.execute(&mut group);
    assert_eq!(units.len(), 2);
    assert_eq!(units[0].key, "build");
    assert_eq!(commands(&units[0].specs), vec!["specA", "specB", "specC"]);
    assert_eq!(units[1].key, "test");
    assert_eq!(commands(&units[1].specs), vec!["specD"]);
}

#[test]
fn each_key_runs_on_an_indicator_of_its_own() {
    let mut printer = Printer::with_dimensions(None);
    let mut batch = BatchRunner::new();
    batch.add("build", vec![later("a")]);
    batch.add("lint", vec![later("b")]);
    let mut group = MultiProgress::new(&mut printer);
    let mut units = batch.execute(&mut group);
    assert_eq!(units[0].progress.prefix(), "\x1b[1mbuild:\x1b[0m");
    assert_eq!(units[1].progress.prefix(), "\x1b[1mlint:\x1b[0m");
    assert_eq!(units[0].progress.total(), None);
    assert_eq!(units[0].progress.template(), "  {prefix} {spinner} {msg}");
    units[0].progress.increment(3);
    assert_eq!(units[0].progress.position(), 3);
    assert_eq!(units[1].progress.position(), 0);
}

#[test]
fn execute_opens_one_section_and_restores_the_indent() {
    let mut printer = Printer::with_dimensions(None);
    let mut batch = BatchRunner::new();
    batch.add("a", vec![later("x")]);
    batch.add("b", vec![later("y")]);
    {
        let mut group = MultiProgress::new(&mut printer);
        batch.execute(&mut group);
    }
    assert_eq!(printer.indent(), 0);
    assert_eq!(printer.take_output(), "\x1b[1mExecute Batch\x1b[0m:");
}

#[test]
fn execute_uses_the_queue_up() {
    let mut printer = Printer::with_dimensions(None);
    let mut batch = BatchRunner::new();
    batch.add("build", vec![later("a"), later("b")]);
    let mut group = MultiProgress::new(&mut printer);
    let first = batch.execute(&mut group);
    assert_eq!(first.len(), 1);
    assert!(batch.is_empty());
    group.printer.take_output();

    let second = batch.execute(&mut group);
    assert!(second.is_empty());
    assert!(batch.is_empty());
    assert_eq!(group.printer.take_output(), "");
}

#[test]
fn a_batch_can_be_filled_again_after_a_run() {
    let mut printer = Printer::with_dimensions(None);
    let mut batch = BatchRunner::new();
    batch.add("build", vec![later("a")]);
    let mut group = MultiProgress::new(&mut printer);
    batch.execute(&mut group);
    batch.add("build", vec![later("b")]);
    let units = batch.execute(&mut group);
    assert_eq!(units.len(), 1);
    assert_eq!(commands(&units[0].specs), vec!["b"]);
}

#[test]
fn an_added_key_may_have_no_commands() {
    let mut printer = Printer::with_dimensions(None);
    let mut batch = BatchRunner::new();
    batch.add("idle", vec![]);
    assert_eq!(batch.len(), 1);
    let mut group = MultiProgress::new(&mut printer);
    let mut units = batch.execute(&mut group);
    assert_eq!(units.len(), 1);
    assert!(units[0].take_next().is_none());
}

#[test]
fn a_unit_hands_its_commands_out_in_order() {
    let mut printer = Printer::with_dimensions(None);
    let mut batch = BatchRunner::new();
    batch.add("build", vec![later("specA"), later("specB")]);
    batch.add("build", vec![later("specC")]);
    let mut group = MultiProgress::new(&mut printer);
    let mut units = batch.execute(&mut group);
    let unit = &mut units[0];
    let mut order = Vec::new();
    while let Some(next) = unit.take_next() {
        order.push(next.command);
    }
    assert_eq!(order, vec!["specA", "specB", "specC"]);
    assert!(unit.take_next().is_none());
}

#[test]
fn a_failure_ends_its_own_key_only() {
    let mut printer = Printer::with_dimensions(None);
    let mut batch = BatchRunner::new();
    batch.add("build", vec![later("a"), later("b"), later("c")]);
    batch.add("other", vec![later("d")]);
    let mut group = MultiProgress::new(&mut printer);
    let mut units = batch.execute(&mut group);
    assert_eq!(units[0].take_next().unwrap().command, "a");
    assert_eq!(units[0].abandon(), 2);
    assert!(units[0].take_next().is_none());
    assert_eq!(units[1].take_next().unwrap().command, "d");
}
