use printer::monitor::MonitorPhase;
use printer::process::ExitStatus;
use printer::{ExecuteOptions, Heading, MultiProgress, Number, Printer, Section, Value};

#[test]
fn printer() {
    let mut printer = Printer::with_dimensions(None);
    let mut options = ExecuteOptions::default();
    options.arguments.push("-alt".to_string());

    let received: u64 = 10;
    printer.info("Received", &Value::Number(Number::Unsigned(received)));
    assert_eq!(printer.take_output(), "\x1b[1mReceived\x1b[0m: 10\n");

    let (mut progress_bar, mut monitor) = printer.execute_process("/bin/ls", options, true).unwrap();
    assert_eq!(monitor.spawned(), None);
    let listing = vec!["total 0".to_string(), "drwxr-xr-x 2 root root 40 .".to_string()];
    monitor.poll(&mut progress_bar, &listing, &Vec::new());
    monitor.exited(ExitStatus::Code(0));
    let (_, result) = monitor.finish(&mut progress_bar, &Vec::new(), &Vec::new());
    assert_eq!(result.unwrap(), None);
    assert_eq!(monitor.phase(), MonitorPhase::Done { success: true });
    assert_eq!(progress_bar.finish(), None);
    printer.take_output();

    {
        let heading = Heading::new(&mut printer, "First");
        {
            let section = Section::new(heading.printer, "PersonWrapper");
            section.printer.object(
                "Person",
                &Value::Object(vec![
                    ("name".to_string(), Value::String("John".to_string())),
                    ("age".to_string(), Value::Number(Number::Unsigned(30))),
                    ("alive".to_string(), Value::Bool(true)),
                    ("dead".to_string(), Value::Bool(false)),
                    ("children".to_string(), Value::Number(Number::Numeral("2.5".to_string()))),
                ]),
            );
            section.close();
        }

        let sub_heading = Heading::new(heading.printer, "Second");
        let sub_section = Section::new(sub_heading.printer, "PersonWrapper");
        sub_section.printer.object("Hello", &Value::String("World".to_string()));

        {
            let mut multi_progress = MultiProgress::new(sub_section.printer);
            let mut first = multi_progress.add_progress("First", Some(10), None);
            let mut second = multi_progress.add_progress("Second", Some(50), None);
            let mut third = multi_progress.add_progress("Third", Some(100), None);

            first.set_ending_message("Done!");
            for index in 0..10 {
                first.increment(1);
                if index == 5 {
                    first.set_message("half way");
                }
            }
            for index in 0..50 {
                second.increment(1);
                if index == 25 {
                    second.set_message("half way");
                }
            }
            for _ in 0..100 {
                third.increment(1);
            }

            assert_eq!(first.position(), 10);
            assert_eq!(second.position(), 50);
            assert_eq!(third.position(), 100);
            assert_eq!(first.message().trim_end(), "half way");
            assert_eq!(second.message().trim_end(), "half way");
            assert_eq!(third.message(), "");
            let rendered = first.finish().unwrap();
            assert!(rendered.starts_with("\x1b[1mDone!"));
            assert_eq!(second.finish(), None);
            assert_eq!(third.finish(), None);
        }
        sub_section.close();
        sub_heading.close();
        heading.close();
    }
    assert_eq!(printer.indent(), 0);
    assert_eq!(printer.heading_count(), 0);
    let text = printer.take_output();
    assert!(text.starts_with("\n\x1b[1m\x1b[33m# First\x1b[39m\x1b[0m\n\x1b[1mPersonWrapper\x1b[0m:"));
    assert!(text.contains("    \x1b[1mname\x1b[0m: John\n"));
    assert!(text.contains("    \x1b[1mchildren\x1b[0m: 2.5\n"));
    assert!(text.contains("\n\x1b[1m## Second\x1b[0m\n"));
    assert!(text.ends_with("  \x1b[1mHello\x1b[0m: World\n"));

    {
        let heading = Heading::new(&mut printer, "Async");
        let mut multi_progress = MultiProgress::new(heading.printer);
        let mut task1 = multi_progress.add_progress("Task1", Some(30), None);
        let mut task2 = multi_progress.add_progress("Task2", Some(30), None);
        for message in ["Task1a", "Task1b", "Task1c"] {
            task1.set_message(message);
            for _ in 0..10 {
                task1.increment(1);
            }
        }
        for message in ["Task2a", "Task2b", "Task2c"] {
            task2.set_message(message);
            for _ in 0..10 {
                task2.increment(1);
            }
        }
        assert_eq!(task1.position(), 30);
        assert_eq!(task2.position(), 30);
        assert_eq!(task1.message().trim_end(), "Task1c");
        assert_eq!(task2.message().trim_end(), "Task2c");
        heading.close();
    }
    assert_eq!(printer.heading_count(), 0);
}
