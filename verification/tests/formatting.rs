use gluon_repl::fmt_source::{format_source, FmtError};
use gluon_repl::pipeline::{fmt_file, FmtAction, FmtEvent, FmtMachine, ModelDisk};

#[test]
fn fmt_rewrites_the_file_and_keeps_a_backup() {
    // The end-to-end formatting example: the backup holds the original text
    // byte for byte, and the file ends up holding exactly what the external
    // parse-and-pretty-print operation produces for that text.
    let original = String::from("let x = 1  in x");
    let mut disk = ModelDisk {
        file: original.clone(),
        backup: None,
    };
    let r = fmt_file(&mut disk);
    assert!(r.is_ok());
    assert_eq!(disk.backup.as_deref(), Some(original.as_str()));
    let expected = format_source(&original).unwrap();
    assert_eq!(disk.file, expected);
    assert_eq!(disk.file.len(), expected.len());
}

#[test]
fn formatting_actually_changes_unformatted_text() {
    // The doubled space cannot survive a real pretty-print, so the operation
    // must not hand its input back unchanged.
    let original = String::from("let x = 1  in x");
    let formatted = format_source(&original).unwrap();
    assert_ne!(formatted, original);
    assert!(formatted.contains('x'));
}

#[test]
fn formatting_normalises_spacing_exactly() {
    let formatted = format_source("let x =   1\nx\n").unwrap();
    assert_eq!(formatted, "let x = 1\nx\n");
}

#[test]
fn formatting_is_idempotent_on_formatted_text() {
    let first = format_source("let x =   1\nx\n").unwrap();
    let second = format_source(&first).unwrap();
    assert_eq!(first, second);
}

#[test]
fn formatting_is_idempotent_on_a_larger_expression() {
    let source = "let add l r = l #Int+ r\nlet double x = add x x\ndouble 21\n";
    let first = format_source(source).unwrap();
    let second = format_source(&first).unwrap();
    assert_eq!(first, second);
}

#[test]
fn a_shorter_result_leaves_no_residual_bytes() {
    // The original is padded with trailing spaces so the reformatted text is
    // shorter; the truncation must leave exactly the formatted text behind.
    let original = String::from("let x = 1  in                       x");
    let mut disk = ModelDisk {
        file: original.clone(),
        backup: None,
    };
    let r = fmt_file(&mut disk);
    assert!(r.is_ok());
    let expected = format_source(&original).unwrap();
    assert!(expected.len() < original.len());
    assert_eq!(disk.file, expected);
    assert_eq!(disk.backup.as_deref(), Some(original.as_str()));
}

#[test]
fn a_rejected_file_is_left_untouched_but_backed_up() {
    let original = String::from("let x = ");
    let mut disk = ModelDisk {
        file: original.clone(),
        backup: None,
    };
    let r = fmt_file(&mut disk);
    match r {
        Err(FmtError::Syntax(m)) => assert!(!m.is_empty()),
        _ => panic!("a syntax error must be reported as such"),
    }
    assert_eq!(disk.file, original);
    assert_eq!(disk.backup.as_deref(), Some(original.as_str()));
}

#[test]
fn format_source_rejects_unparsable_text() {
    match format_source("let = in") {
        Err(e @ FmtError::Syntax(_)) => assert!(!e.message().is_empty()),
        _ => panic!("unparsable text must be rejected"),
    }
}

#[test]
fn error_messages_carry_their_text() {
    let io = FmtError::Io(String::from("permission denied"));
    assert_eq!(io.message(), "permission denied");
    let syntax = FmtError::Syntax(String::from("unexpected token"));
    assert_eq!(syntax.message(), "unexpected token");
}

#[test]
fn an_io_failure_while_reading_finishes_the_run() {
    let mut m = FmtMachine::new();
    let a = m.step(FmtEvent::Begin);
    assert!(matches!(a, FmtAction::ReadFile));
    let a = m.step(FmtEvent::IoFailed(String::from("no such file")));
    match a {
        FmtAction::Finish(Err(FmtError::Io(msg))) => assert_eq!(msg, "no such file"),
        _ => panic!("a failed read must finish the run with its I/O error"),
    }
}

#[test]
fn a_failed_backup_stops_before_any_overwrite() {
    let mut m = FmtMachine::new();
    let a = m.step(FmtEvent::Begin);
    assert!(matches!(a, FmtAction::ReadFile));
    let a = m.step(FmtEvent::ReadDone(String::from("let x = 1  in x")));
    match a {
        FmtAction::WriteBackup(text) => assert_eq!(text, "let x = 1  in x"),
        _ => panic!("a read must be followed by the backup write"),
    }
    // The backup cannot be written: the machine must finish with the I/O
    // error, never asking for the original to be touched.
    let a = m.step(FmtEvent::IoFailed(String::from("disk full")));
    match a {
        FmtAction::Finish(Err(FmtError::Io(msg))) => assert_eq!(msg, "disk full"),
        _ => panic!("a failed backup must finish the run with its I/O error"),
    }
}

#[test]
fn the_machine_formats_what_it_read_and_then_finishes() {
    let mut m = FmtMachine::new();
    let _ = m.step(FmtEvent::Begin);
    let _ = m.step(FmtEvent::ReadDone(String::from("let x = 1  in x")));
    let a = m.step(FmtEvent::BackupDone);
    let expected = format_source("let x = 1  in x").unwrap();
    match a {
        FmtAction::Overwrite(text) => assert_eq!(text, expected),
        _ => panic!("a backed-up parsable file must be overwritten"),
    }
    let a = m.step(FmtEvent::OverwriteDone);
    assert!(matches!(a, FmtAction::Finish(Ok(()))));
}
