use print_agent::platform::Platform;
use print_agent::printer::{
    cups_command, elapsed_millis, list_command, list_cups, list_system_printers, list_windows, parse_get_printer,
    parse_lpstat, print_label, send_cups, send_windows, Arg, CommandLine, CommandOutput, LabelFile,
    PrintAction, PrintEvent, PrintTask, PrinterError, Route, Stage, SystemPrinter, Tool,
};

const FILE: &str = "<file>";

fn argv(command: &CommandLine) -> Vec<String> {
    let mut all = vec![command.program.clone()];
    for arg in &command.args {
        all.push(match arg {
            Arg::Text(text) => text.clone(),
            Arg::LabelFile => FILE.to_string(),
        });
    }
    all
}

fn names(printers: &[SystemPrinter]) -> Vec<&str> {
    printers.iter().map(|p| p.name.as_str()).collect()
}

fn output(success: bool, stdout: &[u8], stderr: &[u8]) -> Option<CommandOutput> {
    let status = if success { "exit status: 0" } else { "exit status: 1" };
    Some(CommandOutput {
        success,
        status: status.to_string(),
        stdout: stdout.to_vec(),
        stderr: stderr.to_vec(),
    })
}

fn file() -> LabelFile {
    LabelFile { utf8: Some("C:\\t'mp\\l.pdf".to_string()), lossy: "C:\\t'mp\\l.pdf".to_string() }
}

fn command_of(action: PrintAction) -> Vec<String> {
    match action {
        PrintAction::Run(command) => argv(&command),
        other => panic!("no command: {:?}", other),
    }
}

/// Removes the file of a task that has come to its end, and tells the outcome.
fn finish_of(task: PrintTask, action: PrintAction) -> Result<u128, String> {
    assert!(matches!(action, PrintAction::RemoveFile));
    assert!(matches!(task.stage, Stage::Removing(_)));
    let (task, action) = task.advance(PrintEvent::FileRemoved);
    assert!(matches!(task.stage, Stage::Finished));
    match action {
        PrintAction::Finish(result) => result.map_err(|e| e.message()),
        other => panic!("not finished: {:?}", other),
    }
}

const LABEL: &[u8] = &[0, 255, 10, 13];
const WRITTEN_AT: u128 = 5_000_000;

/// A command that ended two milliseconds and a bit after the file was written.
fn ended(outcome: Option<CommandOutput>) -> PrintEvent {
    PrintEvent::CommandEnded(outcome, 7_999_999)
}

/// A task whose label has been written, and the command that sends it.
fn sent(platform: Platform, format: &str, printer: &str) -> (PrintTask, Vec<String>) {
    let (task, first) = print_label(platform, LABEL, format, printer, None);
    assert!(matches!(first, PrintAction::CreateFile(_)));
    let (task, second) = task.advance(PrintEvent::FileCreated(file()));
    match second {
        PrintAction::WriteFile(bytes) => assert_eq!(bytes, LABEL),
        other => panic!("{:?}", other),
    }
    let (task, third) = task.advance(PrintEvent::FileWritten(WRITTEN_AT));
    (task, command_of(third))
}

#[test]
fn commands_that_list_printers() {
    assert_eq!(argv(&list_command(Platform::Linux)), vec!["lpstat", "-p"]);
    assert_eq!(argv(&list_command(Platform::MacOs)), vec!["lpstat", "-p"]);
    assert_eq!(
        argv(&list_command(Platform::Windows)),
        vec!["powershell", "-NoProfile", "-Command", "Get-Printer | Select-Object -ExpandProperty Name"]
    );
}

#[test]
fn printers_of_lpstat() {
    let text = "printer Zebra_ZD220 is idle.  enabled since Mon\n\tready\nprinter  Brother_QL_700 disabled\r\nscheduler is running\nprinter \nprinters x\n printer y";
    assert_eq!(names(&parse_lpstat(text)), vec!["Zebra_ZD220", "Brother_QL_700"]);
    assert!(parse_lpstat("").is_empty());
}

#[test]
fn printers_of_get_printer() {
    let text = "Zebra ZD220 (USB)\r\n\r\n  Microsoft Print to PDF \r\n\t\r\nDYMO";
    assert_eq!(
        names(&parse_get_printer(text)),
        vec!["Zebra ZD220 (USB)", "Microsoft Print to PDF", "DYMO"]
    );
}

#[test]
fn listing_reads_raw_output() {
    let found = list_cups(output(true, b"printer A\xff is idle\nprinter B\n", b"")).unwrap();
    assert_eq!(names(&found), vec!["A\u{fffd}", "B"]);
    let found = list_windows(output(true, "Żebra\r\n".as_bytes(), b"")).unwrap();
    assert_eq!(names(&found), vec!["Żebra"]);
    let text = b"printer A\n";
    let found = list_system_printers(Platform::MacOs, output(true, text, b"")).unwrap();
    assert_eq!(names(&found), vec!["A"]);
    let found = list_system_printers(Platform::Windows, output(true, text, b"")).unwrap();
    assert_eq!(names(&found), vec!["printer A"]);
}

#[test]
fn listing_that_fails() {
    let error = list_cups(None).unwrap_err();
    assert_eq!(error.message(), "Failed to run `lpstat -p` — is CUPS installed?");
    let error = list_cups(output(false, b"printer A", b"no\xff")).unwrap_err();
    assert_eq!(error.message(), "lpstat exited exit status: 1: no\u{fffd}");
    let error = list_windows(None).unwrap_err();
    assert_eq!(error.message(), "Failed to run PowerShell Get-Printer");
    let error = list_system_printers(Platform::Windows, output(false, b"", b"bad")).unwrap_err();
    assert_eq!(error.message(), "Get-Printer exited exit status: 1: bad");
}

#[test]
fn labels_get_the_suffix_of_their_format() {
    for (format, expected) in [("pdf", ".pdf"), ("PDF", ".pdf"), ("zpl", ".prn"), ("", ".prn")] {
        let (task, action) = print_label(Platform::Linux, LABEL, format, "p", None);
        assert!(matches!(task.stage, Stage::Creating(_)));
        match action {
            PrintAction::CreateFile(suffix) => assert_eq!(suffix, expected),
            other => panic!("{:?}", other),
        }
    }
}

#[test]
fn cups_gets_raw_labels_untouched() {
    for raw in ["zpl", "ZPL", "epl", "Epl"] {
        assert_eq!(argv(&cups_command(raw, "Zebra")), vec!["lp", "-d", "Zebra", "-o", "raw", FILE]);
    }
    for other in ["pdf", "PDF", "png", ""] {
        assert_eq!(argv(&cups_command(other, "Zebra")), vec!["lp", "-d", "Zebra", FILE]);
    }
}

#[test]
fn label_through_cups() {
    let (task, command) = sent(Platform::Linux, "pdf", "Zebra");
    assert_eq!(command, vec!["lp", "-d", "Zebra", FILE]);
    let (task, action) = task.advance(ended(output(true, b"", b"")));
    assert_eq!(finish_of(task, action), Ok(2));

    let (task, _) = sent(Platform::MacOs, "zpl", "Zebra");
    let (task, action) = task.advance(ended(output(false, b"", b"no such queue")));
    assert_eq!(finish_of(task, action), Err("lp exited exit status: 1: no such queue".to_string()));

    let (task, _) = sent(Platform::Linux, "pdf", "Zebra");
    let (task, action) = task.advance(ended(None));
    assert_eq!(finish_of(task, action), Err("Failed to run `lp`".to_string()));
}

#[test]
fn pdf_on_windows_goes_to_sumatra() {
    let (task, command) = sent(Platform::Windows, "Pdf", "Zebra ZD220 (USB)");
    assert_eq!(
        command,
        vec!["SumatraPDF.exe", "-print-to", "Zebra ZD220 (USB)", "-silent", "C:\\t'mp\\l.pdf"]
    );
    let (task, action) = task.advance(ended(output(true, b"", b"")));
    assert_eq!(finish_of(task, action), Ok(2));
}

#[test]
fn sumatra_may_be_named_and_the_path_unreadable() {
    let (task, _) = print_label(Platform::Windows, LABEL, "pdf", "P", Some("D:\\s.exe".to_string()));
    let unreadable = LabelFile { utf8: None, lossy: "x\u{fffd}".to_string() };
    let (task, _) = task.advance(PrintEvent::FileCreated(unreadable));
    let (_, action) = task.advance(PrintEvent::FileWritten(WRITTEN_AT));
    assert_eq!(command_of(action), vec!["D:\\s.exe", "-print-to", "P", "-silent", ""]);
}

#[test]
fn failing_sumatra_falls_back_to_the_default_program() {
    for outcome in [None, output(false, b"", b"oops")] {
        let (task, _) = sent(Platform::Windows, "pdf", "O'Neil");
        let (task, action) = task.advance(ended(outcome));
        assert_eq!(
            command_of(action),
            vec![
                "powershell",
                "-NoProfile",
                "-Command",
                "Start-Process -FilePath 'C:\\t''mp\\l.pdf' -Verb PrintTo -ArgumentList '\"O''Neil\"' -WindowStyle Hidden -Wait",
            ]
        );
        let (task, action) = task.advance(ended(output(false, b"", b"bad")));
        assert_eq!(finish_of(task, action), Err("PrintTo fallback exited exit status: 1: bad".to_string()));
    }
    let (task, _) = sent(Platform::Windows, "pdf", "P");
    let (task, _) = task.advance(ended(None));
    let (task, action) = task.advance(ended(None));
    assert_eq!(
        finish_of(task, action),
        Err("Failed to run PowerShell Start-Process fallback".to_string())
    );
    let (task, _) = sent(Platform::Windows, "pdf", "P");
    let (task, _) = task.advance(ended(None));
    let (task, action) = task.advance(ended(output(true, b"", b"")));
    assert_eq!(finish_of(task, action), Ok(2));
}

#[test]
fn raw_label_on_windows_goes_to_out_printer() {
    let (task, command) = sent(Platform::Windows, "zpl", "O'Neil");
    assert_eq!(
        command,
        vec![
            "powershell",
            "-NoProfile",
            "-Command",
            "Get-Content -Encoding Byte -Path 'C:\\t''mp\\l.pdf' | Out-Printer -Name 'O''Neil'",
        ]
    );
    let (task, action) = task.advance(ended(output(false, b"", b"x")));
    assert_eq!(finish_of(task, action), Err("Out-Printer exited exit status: 1: x".to_string()));
    let (task, _) = sent(Platform::Windows, "other", "P");
    let (task, action) = task.advance(ended(None));
    assert_eq!(finish_of(task, action), Err("Failed to run PowerShell Out-Printer".to_string()));
}

#[test]
fn label_without_a_file() {
    let (task, _) = print_label(Platform::Linux, LABEL, "pdf", "P", None);
    let (task, action) = task.advance(PrintEvent::FileNotCreated);
    assert!(matches!(task.stage, Stage::Finished));
    match action {
        PrintAction::Finish(Err(error)) => {
            assert_eq!(error.message(), "Failed to create temp file for label");
        }
        other => panic!("{:?}", other),
    }
    let (task, _) = print_label(Platform::Linux, LABEL, "pdf", "P", None);
    let (task, _) = task.advance(PrintEvent::FileCreated(file()));
    let (task, action) = task.advance(PrintEvent::FileNotWritten);
    assert_eq!(finish_of(task, action), Err("Failed to write label bytes to temp file".to_string()));
}

#[test]
fn ends_of_single_commands() {
    assert!(send_cups(output(true, b"", b"")).is_ok());
    assert!(matches!(send_cups(None), Err(PrinterError::NotRun(Tool::Lp))));
    assert!(send_windows(Route::Sumatra, None).is_none());
    assert!(matches!(send_windows(Route::PrintTo, output(true, b"", b"")), Some(Ok(()))));
    assert!(matches!(
        send_windows(Route::OutPrinter, None),
        Some(Err(PrinterError::NotRun(Tool::OutPrinter)))
    ));
}

#[test]
fn time_counts_from_the_writing_of_the_file() {
    assert_eq!(elapsed_millis(0, 999_999), 0);
    assert_eq!(elapsed_millis(1, 1_000_001), 1);
    assert_eq!(elapsed_millis(5, 4), 0);
    let (task, _) = sent(Platform::Windows, "pdf", "P");
    let (task, action) = task.advance(PrintEvent::CommandEnded(None, 9_000_000));
    assert!(matches!(action, PrintAction::Run(_)));
    let (task, action) = task.advance(PrintEvent::CommandEnded(output(true, b"", b""), 1_505_000_000));
    assert_eq!(finish_of(task, action), Ok(1500));
}
