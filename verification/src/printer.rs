//! The system's printers: finding them, and sending a label to one.
//!
//! Finding them:
//!
//! - Linux and macOS: `lpstat -p` lists the CUPS queues.
//! - Windows: PowerShell's `Get-Printer` lists the installed printers.
//!
//! Sending a label, which is first written to a temporary file that is removed in
//! the end:
//!
//! - Linux and macOS: `lp -d <printer> <file>`; ZPL and EPL go with `-o raw`, so
//!   that the bytes reach the printer untouched.
//! - Windows, PDF: SumatraPDF prints silently. Where that does not work out,
//!   `Start-Process -Verb PrintTo` hands the file to the default PDF program.
//! - Windows, everything else: the bytes are piped to `Out-Printer`.

use vstd::prelude::*;
use vstd::slice::slice_to_vec;
use vstd::string::StringExecFns;

use crate::platform::Platform;
use crate::text::after_prefix;
use crate::text::decode_lossy;
use crate::text::double_quotes;
use crate::text::first_word;
use crate::text::is_blank;
use crate::text::is_space;
use crate::text::law_doubled_quotes_read_back;
use crate::text::law_first_word_is_found;
use crate::text::law_lines_end_at_line_feeds;
use crate::text::law_no_word_iff_blank;
use crate::text::law_rest_is_found_behind_a_prefix;
use crate::text::law_text_without_line_feed_is_one_line;
use crate::text::law_trim_finds_what_is_between;
use crate::text::lines;
use crate::text::lowered;
use crate::text::quoted_content;
use crate::text::quotes_doubled;
use crate::text::same_but_case;
use crate::text::split_lines;
use crate::text::texts;
use crate::text::trim;
use crate::text::trimmed;
use crate::text::utf8_lossy;
use crate::text::word_after;

verus! {

/// A printer of the operating system.
#[derive(Debug, Clone)]
pub struct SystemPrinter {
    pub name: String,
}

/// The names of a sequence of printers.
pub open spec fn names(printers: Seq<SystemPrinter>) -> Seq<Seq<char>> {
    printers.map_values(|p: SystemPrinter| p.name@)
}

// ---------------------------------------------------------------------------
// Commands
// ---------------------------------------------------------------------------

/// An argument of a command.
#[derive(Debug, Clone)]
pub enum Arg {
    Text(String),
    /// The path of the label's file, whatever bytes it is made of.
    LabelFile,
}

/// What an `Arg` holds.
pub enum ArgModel {
    Text(Seq<char>),
    LabelFile,
}

impl View for Arg {
    type V = ArgModel;

    open spec fn view(&self) -> ArgModel {
        match *self {
            Arg::Text(text) => ArgModel::Text(text@),
            Arg::LabelFile => ArgModel::LabelFile,
        }
    }
}

/// A command to run.
#[derive(Debug, Clone)]
pub struct CommandLine {
    pub program: String,
    pub args: Vec<Arg>,
}

/// What a `CommandLine` holds.
pub struct CommandModel {
    pub program: Seq<char>,
    pub args: Seq<ArgModel>,
}

impl View for CommandLine {
    type V = CommandModel;

    open spec fn view(&self) -> CommandModel {
        CommandModel { program: self.program@, args: self.args@.map_values(|a: Arg| a@) }
    }
}

/// How a command ended. `status` is its exit status as it is displayed.
#[derive(Debug, Clone)]
pub struct CommandOutput {
    pub success: bool,
    pub status: String,
    pub stdout: Vec<u8>,
    pub stderr: Vec<u8>,
}

/// What the agent runs commands for.
#[derive(Debug, Clone, Copy, PartialEq, Eq, Structural)]
pub enum Tool {
    Lpstat,
    GetPrinter,
    Lp,
    PrintTo,
    OutPrinter,
}

/// Why printers could not be listed or a label could not be sent.
#[derive(Debug, Clone)]
pub enum PrinterError {
    /// No temporary file could be made.
    FileNotCreated,
    /// The label could not be written to its file.
    FileNotWritten,
    /// A command could not be started.
    NotRun(Tool),
    /// A command failed, with the given exit status and error output.
    Exited(Tool, String, String),
}

/// What a `PrinterError` holds.
pub enum PrinterErrorModel {
    FileNotCreated,
    FileNotWritten,
    NotRun(Tool),
    Exited(Tool, Seq<char>, Seq<char>),
}

impl View for PrinterError {
    type V = PrinterErrorModel;

    open spec fn view(&self) -> PrinterErrorModel {
        match *self {
            PrinterError::FileNotCreated => PrinterErrorModel::FileNotCreated,
            PrinterError::FileNotWritten => PrinterErrorModel::FileNotWritten,
            PrinterError::NotRun(tool) => PrinterErrorModel::NotRun(tool),
            PrinterError::Exited(tool, status, stderr) => PrinterErrorModel::Exited(
                tool,
                status@,
                stderr@,
            ),
        }
    }
}

/// The message for a command that could not be started.
pub open spec fn not_run_message(tool: Tool) -> Seq<char> {
    match tool {
        Tool::Lpstat => "Failed to run `lpstat -p` — is CUPS installed?"@,
        Tool::GetPrinter => "Failed to run PowerShell Get-Printer"@,
        Tool::Lp => "Failed to run `lp`"@,
        Tool::PrintTo => "Failed to run PowerShell Start-Process fallback"@,
        Tool::OutPrinter => "Failed to run PowerShell Out-Printer"@,
    }
}

/// How a failed command is named.
pub open spec fn tool_name(tool: Tool) -> Seq<char> {
    match tool {
        Tool::Lpstat => "lpstat"@,
        Tool::GetPrinter => "Get-Printer"@,
        Tool::Lp => "lp"@,
        Tool::PrintTo => "PrintTo fallback"@,
        Tool::OutPrinter => "Out-Printer"@,
    }
}

impl PrinterErrorModel {
    /// The message shown for the error.
    pub open spec fn message(self) -> Seq<char> {
        match self {
            PrinterErrorModel::FileNotCreated => "Failed to create temp file for label"@,
            PrinterErrorModel::FileNotWritten => "Failed to write label bytes to temp file"@,
            PrinterErrorModel::NotRun(tool) => not_run_message(tool),
            PrinterErrorModel::Exited(tool, status, stderr) => tool_name(tool) + " exited "@
                + status + ": "@ + stderr,
        }
    }
}

impl PrinterError {
    /// The message shown for the error.
    pub fn message(&self) -> (text: String)
        ensures
            text@ == self@.message(),
            text@ == (match *self {
                PrinterError::FileNotCreated => "Failed to create temp file for label"@,
                PrinterError::FileNotWritten => "Failed to write label bytes to temp file"@,
                PrinterError::NotRun(Tool::Lpstat) =>
                    "Failed to run `lpstat -p` — is CUPS installed?"@,
                PrinterError::NotRun(Tool::GetPrinter) => "Failed to run PowerShell Get-Printer"@,
                PrinterError::NotRun(Tool::Lp) => "Failed to run `lp`"@,
                PrinterError::NotRun(Tool::PrintTo) =>
                    "Failed to run PowerShell Start-Process fallback"@,
                PrinterError::NotRun(Tool::OutPrinter) => "Failed to run PowerShell Out-Printer"@,
                PrinterError::Exited(tool, status, stderr) => (match tool {
                    Tool::Lpstat => "lpstat"@,
                    Tool::GetPrinter => "Get-Printer"@,
                    Tool::Lp => "lp"@,
                    Tool::PrintTo => "PrintTo fallback"@,
                    Tool::OutPrinter => "Out-Printer"@,
                }) + " exited "@ + status@ + ": "@ + stderr@,
            }),
    {
        match self {
            PrinterError::FileNotCreated => "Failed to create temp file for label".to_owned(),
            PrinterError::FileNotWritten => "Failed to write label bytes to temp file".to_owned(),
            PrinterError::NotRun(tool) => match tool {
                Tool::Lpstat => "Failed to run `lpstat -p` — is CUPS installed?".to_owned(),
                Tool::GetPrinter => "Failed to run PowerShell Get-Printer".to_owned(),
                Tool::Lp => "Failed to run `lp`".to_owned(),
                Tool::PrintTo => "Failed to run PowerShell Start-Process fallback".to_owned(),
                Tool::OutPrinter => "Failed to run PowerShell Out-Printer".to_owned(),
            },
            PrinterError::Exited(tool, status, stderr) => {
                let name = match tool {
                    Tool::Lpstat => "lpstat".to_owned(),
                    Tool::GetPrinter => "Get-Printer".to_owned(),
                    Tool::Lp => "lp".to_owned(),
                    Tool::PrintTo => "PrintTo fallback".to_owned(),
                    Tool::OutPrinter => "Out-Printer".to_owned(),
                };
                name.concat(" exited ").concat(status.as_str()).concat(": ").concat(stderr.as_str())
            },
        }
    }
}

/// What became of a command; `None` where it could not be started.
pub open spec fn command_failure(tool: Tool, outcome: Option<CommandOutput>) -> Option<
    PrinterErrorModel,
> {
    match outcome {
        None => Some(PrinterErrorModel::NotRun(tool)),
        Some(output) => if output.success {
            None
        } else {
            Some(PrinterErrorModel::Exited(tool, output.status@, utf8_lossy(output.stderr@)))
        },
    }
}

/// The output of a command that was run for `tool` and succeeded; `None` stands
/// for a command that could not be started.
fn succeeded(tool: Tool, outcome: Option<CommandOutput>) -> (result: Result<
    CommandOutput,
    PrinterError,
>)
    ensures
        match command_failure(tool, outcome) {
            None => result is Ok && result->Ok_0 == outcome->0,
            Some(error) => result is Err && result->Err_0@ == error,
        },
{
    match outcome {
        None => Err(PrinterError::NotRun(tool)),
        Some(output) => if output.success {
            Ok(output)
        } else {
            let stderr = decode_lossy(output.stderr.as_slice());
            Err(PrinterError::Exited(tool, output.status, stderr))
        },
    }
}

/// A command failed, in the eyes of the agent, exactly where it could not be started or
/// did not succeed; the error then tells what it was run for, and what it said.
pub proof fn law_command_fails_unless_it_succeeds(tool: Tool, outcome: Option<CommandOutput>)
    ensures
        command_failure(tool, outcome) is None <==> outcome is Some && outcome->0.success,
        outcome is None ==> command_failure(tool, outcome) == Some(PrinterErrorModel::NotRun(tool)),
        outcome is Some && !outcome->0.success ==> command_failure(tool, outcome) == Some(
            PrinterErrorModel::Exited(tool, outcome->0.status@, utf8_lossy(outcome->0.stderr@)),
        ),
{
}

/// An error is what its fields hold, each of them whole.
pub proof fn law_printer_error_is_what_it_holds(error: PrinterError)
    ensures
        match error {
            PrinterError::FileNotCreated => error@ is FileNotCreated,
            PrinterError::FileNotWritten => error@ is FileNotWritten,
            PrinterError::NotRun(tool) => error@ == PrinterErrorModel::NotRun(tool),
            PrinterError::Exited(tool, status, stderr) => error@ == PrinterErrorModel::Exited(
                tool,
                status@,
                stderr@,
            ),
        },
{
}

/// A command is its program and its arguments, one for one and each of them whole.
pub proof fn law_command_is_what_it_holds(command: CommandLine)
    ensures
        command@.program == command.program@,
        command@.args.len() == command.args@.len(),
        forall|i: int|
            0 <= i < command.args@.len() ==> match command.args@[i] {
                Arg::Text(text) => #[trigger] command@.args[i] == ArgModel::Text(text@),
                Arg::LabelFile => command@.args[i] is LabelFile,
            },
{
}

// ---------------------------------------------------------------------------
// Finding printers
// ---------------------------------------------------------------------------

/// The command that lists the printers of a platform.
pub open spec fn list_command_model(platform: Platform) -> CommandModel {
    match platform {
        Platform::Windows => CommandModel {
            program: "powershell"@,
            args: seq![
                ArgModel::Text("-NoProfile"@),
                ArgModel::Text("-Command"@),
                ArgModel::Text("Get-Printer | Select-Object -ExpandProperty Name"@),
            ],
        },
        _ => CommandModel { program: "lpstat"@, args: seq![ArgModel::Text("-p"@)] },
    }
}

/// The command that lists the printers of a platform.
pub fn list_command(platform: Platform) -> (command: CommandLine)
    ensures
        command@ == list_command_model(platform),
{
    let mut args: Vec<Arg> = Vec::new();
    let program = match platform {
        Platform::Windows => {
            args.push(Arg::Text("-NoProfile".to_owned()));
            args.push(Arg::Text("-Command".to_owned()));
            args.push(Arg::Text("Get-Printer | Select-Object -ExpandProperty Name".to_owned()));
            "powershell".to_owned()
        },
        _ => {
            args.push(Arg::Text("-p".to_owned()));
            "lpstat".to_owned()
        },
    };
    let command = CommandLine { program, args };
    assert(command@.args == list_command_model(platform).args);
    command
}

/// The printer that a line of `lpstat -p` tells of, such as
/// `printer Zebra_ZD220 is idle.  enabled since ...`.
pub open spec fn lpstat_printer(line: Seq<char>) -> Option<Seq<char>> {
    match after_prefix(line, "printer "@) {
        Some(rest) => first_word(rest),
        None => None,
    }
}

/// The printers that the lines of `lpstat -p` tell of, in their order.
pub open spec fn lpstat_printers(lines: Seq<Seq<char>>) -> Seq<Seq<char>>
    decreases lines.len(),
{
    if lines.len() == 0 {
        seq![]
    } else {
        let before = lpstat_printers(lines.drop_last());
        match lpstat_printer(lines.last()) {
            Some(name) => before.push(name),
            None => before,
        }
    }
}

/// The printers in the output of `lpstat -p`.
pub fn parse_lpstat(text: &str) -> (printers: Vec<SystemPrinter>)
    ensures
        names(printers@) == lpstat_printers(lines(text@)),
{
    let all = split_lines(text);
    let mut printers: Vec<SystemPrinter> = Vec::new();
    let mut i: usize = 0;
    assert(names(printers@) == Seq::<Seq<char>>::empty());
    while i < all.len()
        invariant
            i <= all@.len(),
            texts(all@) == lines(text@),
            names(printers@) == lpstat_printers(texts(all@).take(i as int)),
        decreases all@.len() - i,
    {
        let ghost before = printers@;
        assert(texts(all@).take(i + 1).drop_last() == texts(all@).take(i as int));
        match word_after(all[i].as_str(), "printer ") {
            Some(name) => {
                printers.push(SystemPrinter { name });
                assert(names(printers@) == names(before).push(name@));
            },
            None => {},
        }
        i = i + 1;
    }
    assert(texts(all@).take(i as int) == texts(all@));
    printers
}

/// The printers that the lines of `Get-Printer` tell of: every line that is not
/// blank, without the white space around it.
pub open spec fn get_printer_printers(lines: Seq<Seq<char>>) -> Seq<Seq<char>>
    decreases lines.len(),
{
    if lines.len() == 0 {
        seq![]
    } else {
        let before = get_printer_printers(lines.drop_last());
        let name = trim(lines.last());
        if name.len() == 0 {
            before
        } else {
            before.push(name)
        }
    }
}

/// The printers in the output of `Get-Printer`.
pub fn parse_get_printer(text: &str) -> (printers: Vec<SystemPrinter>)
    ensures
        names(printers@) == get_printer_printers(lines(text@)),
{
    let all = split_lines(text);
    let mut printers: Vec<SystemPrinter> = Vec::new();
    let mut i: usize = 0;
    assert(names(printers@) == Seq::<Seq<char>>::empty());
    while i < all.len()
        invariant
            i <= all@.len(),
            texts(all@) == lines(text@),
            names(printers@) == get_printer_printers(texts(all@).take(i as int)),
        decreases all@.len() - i,
    {
        let ghost before = printers@;
        assert(texts(all@).take(i + 1).drop_last() == texts(all@).take(i as int));
        let name = trimmed(all[i].as_str());
        if !name.as_str().is_empty() {
            printers.push(SystemPrinter { name });
            assert(names(printers@) == names(before).push(name@));
        }
        i = i + 1;
    }
    assert(texts(all@).take(i as int) == texts(all@));
    printers
}

/// The printers of CUPS, from what running `lpstat -p` came to.
pub fn list_cups(outcome: Option<CommandOutput>) -> (result: Result<
    Vec<SystemPrinter>,
    PrinterError,
>)
    ensures
        match command_failure(Tool::Lpstat, outcome) {
            Some(error) => result is Err && result->Err_0@ == error,
            None => result is Ok && names(result->Ok_0@) == lpstat_printers(
                lines(utf8_lossy(outcome->0.stdout@)),
            ),
        },
        match outcome {
            None => result matches Err(PrinterError::NotRun(Tool::Lpstat)),
            Some(output) => if output.success {
                result matches Ok(printers) && names(printers@) == lpstat_printers(
                    lines(utf8_lossy(output.stdout@)),
                )
            } else {
                result matches Err(PrinterError::Exited(Tool::Lpstat, status, stderr)) && status@
                    == output.status@ && stderr@ == utf8_lossy(output.stderr@)
            },
        },
{
    match succeeded(Tool::Lpstat, outcome) {
        Err(error) => Err(error),
        Ok(output) => {
            let stdout = decode_lossy(output.stdout.as_slice());
            Ok(parse_lpstat(stdout.as_str()))
        },
    }
}

/// The printers of Windows, from what running `Get-Printer` came to.
pub fn list_windows(outcome: Option<CommandOutput>) -> (result: Result<
    Vec<SystemPrinter>,
    PrinterError,
>)
    ensures
        match command_failure(Tool::GetPrinter, outcome) {
            Some(error) => result is Err && result->Err_0@ == error,
            None => result is Ok && names(result->Ok_0@) == get_printer_printers(
                lines(utf8_lossy(outcome->0.stdout@)),
            ),
        },
        match outcome {
            None => result matches Err(PrinterError::NotRun(Tool::GetPrinter)),
            Some(output) => if output.success {
                result matches Ok(printers) && names(printers@) == get_printer_printers(
                    lines(utf8_lossy(output.stdout@)),
                )
            } else {
                result matches Err(PrinterError::Exited(Tool::GetPrinter, status, stderr)) && status@
                    == output.status@ && stderr@ == utf8_lossy(output.stderr@)
            },
        },
{
    match succeeded(Tool::GetPrinter, outcome) {
        Err(error) => Err(error),
        Ok(output) => {
            let stdout = decode_lossy(output.stdout.as_slice());
            Ok(parse_get_printer(stdout.as_str()))
        },
    }
}

/// The tool that lists the printers of a platform.
pub open spec fn list_tool(platform: Platform) -> Tool {
    match platform {
        Platform::Windows => Tool::GetPrinter,
        _ => Tool::Lpstat,
    }
}

/// The printers that the listing of a platform's tool tells of.
pub open spec fn listed(platform: Platform, text: Seq<char>) -> Seq<Seq<char>> {
    match platform {
        Platform::Windows => get_printer_printers(lines(text)),
        _ => lpstat_printers(lines(text)),
    }
}

/// The printers of the system, from what running its `list_command` came to.
pub fn list_system_printers(platform: Platform, outcome: Option<CommandOutput>) -> (result: Result<
    Vec<SystemPrinter>,
    PrinterError,
>)
    ensures
        match command_failure(list_tool(platform), outcome) {
            Some(error) => result is Err && result->Err_0@ == error,
            None => result is Ok && names(result->Ok_0@) == listed(
                platform,
                utf8_lossy(outcome->0.stdout@),
            ),
        },
        platform != Platform::Windows ==> match outcome {
            None => result matches Err(PrinterError::NotRun(Tool::Lpstat)),
            Some(output) => if output.success {
                result matches Ok(printers) && names(printers@) == lpstat_printers(
                    lines(utf8_lossy(output.stdout@)),
                )
            } else {
                result matches Err(PrinterError::Exited(Tool::Lpstat, status, stderr)) && status@
                    == output.status@ && stderr@ == utf8_lossy(output.stderr@)
            },
        },
        platform == Platform::Windows ==> match outcome {
            None => result matches Err(PrinterError::NotRun(Tool::GetPrinter)),
            Some(output) => if output.success {
                result matches Ok(printers) && names(printers@) == get_printer_printers(
                    lines(utf8_lossy(output.stdout@)),
                )
            } else {
                result matches Err(PrinterError::Exited(Tool::GetPrinter, status, stderr)) && status@
                    == output.status@ && stderr@ == utf8_lossy(output.stderr@)
            },
        },
{
    match platform {
        Platform::Windows => list_windows(outcome),
        _ => list_cups(outcome),
    }
}

/// The names of some printers are their own, one for one.
pub proof fn law_names_are_those_of_the_printers(printers: Seq<SystemPrinter>)
    ensures
        names(printers).len() == printers.len(),
        forall|i: int| 0 <= i < printers.len() ==> #[trigger] names(printers)[i] == printers[i].name@,
{
}

/// Away from Windows, a line of the listing that reads `printer`, a space and a name
/// tells of the printer of that name: the characters up to the next white space or the
/// end of the line, behind any further white space.
pub proof fn law_lpstat_line_names_its_printer(
    platform: Platform,
    pad: Seq<char>,
    name: Seq<char>,
    rest: Seq<char>,
)
    requires
        platform != Platform::Windows,
        is_blank(pad),
        name.len() > 0,
        forall|i: int| 0 <= i < name.len() ==> !is_space(#[trigger] name[i]) && name[i] != '\n',
        rest.len() == 0 || is_space(rest[0]),
        !pad.contains('\n'),
        !rest.contains('\n'),
    ensures
        listed(platform, "printer "@ + pad + name + rest) == seq![name],
{
    let line = "printer "@ + pad + name + rest;
    reveal_strlit("printer ");
    assert forall|c: char| c == '\n' implies !line.contains(c) by {
        if line.contains(c) {
            let i = choose|i: int| 0 <= i < line.len() && line[i] == c;
            let a = "printer "@.len() as int;
            let b = a + pad.len();
            let d = b + name.len();
            if i < a {
                assert("printer "@[i] == c);
            } else if i < b {
                assert(pad[i - a] == c);
            } else if i < d {
                assert(name[i - b] == c);
            } else {
                assert(rest[i - d] == c);
            }
        }
    }
    law_text_without_line_feed_is_one_line(line);
    lemma_lpstat_line(line, pad, name, rest);
    assert(lines(line) == seq![line]);
    assert(seq![line].drop_last() == Seq::<Seq<char>>::empty());
    assert(lpstat_printers(seq![line].drop_last()) == Seq::<Seq<char>>::empty());
    assert(lpstat_printers(seq![line]) == seq![name]);
}

proof fn lemma_lpstat_line(line: Seq<char>, pad: Seq<char>, name: Seq<char>, rest: Seq<char>)
    requires
        line == "printer "@ + pad + name + rest,
        is_blank(pad),
        name.len() > 0,
        forall|i: int| 0 <= i < name.len() ==> !is_space(#[trigger] name[i]),
        rest.len() == 0 || is_space(rest[0]),
    ensures
        lpstat_printer(line) == Some(name),
{
    let behind = pad + name + rest;
    assert(line == "printer "@ + behind);
    law_rest_is_found_behind_a_prefix(line, "printer "@, behind);
    law_first_word_is_found(pad, name, rest);
}

/// Away from Windows, a line of the listing that does not start with `printer` and a
/// space, or has nothing but white space behind that, tells of no printer.
pub proof fn law_other_lpstat_lines_name_no_printer(platform: Platform, line: Seq<char>)
    requires
        platform != Platform::Windows,
        !line.contains('\n'),
        !"printer "@.is_prefix_of(line) || forall|i: int|
            "printer "@.len() <= i < line.len() ==> is_space(#[trigger] line[i]),
    ensures
        listed(platform, line) == Seq::<Seq<char>>::empty(),
{
    law_text_without_line_feed_is_one_line(line);
    if line.len() > 0 {
        law_rest_is_found_behind_a_prefix(line, "printer "@, Seq::empty());
        if "printer "@.is_prefix_of(line) {
            let rest = after_prefix(line, "printer "@)->0;
            assert forall|i: int| 0 <= i < rest.len() implies is_space(#[trigger] rest[i]) by {
                assert(rest[i] == line["printer "@.len() + i]);
            }
            law_no_word_iff_blank(rest);
        }
        assert(lines(line) == seq![line]);
        assert(seq![line].drop_last() == Seq::<Seq<char>>::empty());
        assert(lpstat_printers(seq![line].drop_last()) == Seq::<Seq<char>>::empty());
        assert(lpstat_printers(seq![line]) == Seq::<Seq<char>>::empty());
    }
}

/// On Windows, a line of the listing names a printer as it stands, without the white
/// space around it, and a blank line names none.
pub proof fn law_get_printer_line_is_a_name(pad: Seq<char>, name: Seq<char>, tail: Seq<char>)
    requires
        is_blank(pad),
        is_blank(tail),
        name.len() > 0 ==> !is_space(name[0]) && !is_space(name.last()),
        !(pad + name + tail).contains('\n'),
    ensures
        name.len() > 0 ==> listed(Platform::Windows, pad + name + tail) == seq![name],
        name.len() == 0 ==> listed(Platform::Windows, pad + name + tail) == Seq::<
            Seq<char>,
        >::empty(),
{
    let line = pad + name + tail;
    law_text_without_line_feed_is_one_line(line);
    law_trim_finds_what_is_between(pad, name, tail);
    if line.len() > 0 {
        assert(lines(line) == seq![line]);
        assert(seq![line].drop_last() == Seq::<Seq<char>>::empty());
        assert(get_printer_printers(seq![line].drop_last()) == Seq::<Seq<char>>::empty());
        assert(name.len() > 0 ==> get_printer_printers(seq![line]) == seq![name]);
    }
}

/// Printers are listed line by line, in the order of the lines: those of the first
/// line, whose end is a line feed, alone or behind a carriage return, come before
/// those of the rest.
pub proof fn law_printers_are_listed_line_by_line(
    platform: Platform,
    line: Seq<char>,
    rest: Seq<char>,
)
    requires
        !line.contains('\n'),
    ensures
        line.len() > 0 && line.last() == '\r' ==> listed(platform, line + seq!['\n'] + rest)
            == listed(platform, line.drop_last()) + listed(platform, rest),
        line.len() == 0 || line.last() != '\r' ==> listed(platform, line + seq!['\n'] + rest)
            == listed(platform, line) + listed(platform, rest),
{
    law_lines_end_at_line_feeds(line, rest);
    let ended = if line.len() > 0 && line.last() == '\r' {
        line.drop_last()
    } else {
        line
    };
    assert forall|c: char| ended.contains(c) implies line.contains(c) by {
        let i = choose|i: int| 0 <= i < ended.len() && ended[i] == c;
        assert(line[i] == c);
    }
    law_text_without_line_feed_is_one_line(ended);
    lemma_lpstat_joins(seq![ended], lines(rest));
    lemma_get_printer_joins(seq![ended], lines(rest));
    if ended.len() == 0 {
        law_rest_is_found_behind_a_prefix(ended, "printer "@, Seq::empty());
        reveal_strlit("printer ");
        let none = Seq::<Seq<char>>::empty();
        assert(seq![ended].drop_last() == none);
        assert(lpstat_printers(none) == none && get_printer_printers(none) == none);
        assert("printer "@.len() == 8);
        assert(lpstat_printer(seq![ended].last()) is None);
        assert(lpstat_printers(seq![ended]) == none);
        law_trim_finds_what_is_between(ended, ended, ended);
        assert(ended + ended + ended == ended);
        assert(trim(seq![ended].last()).len() == 0);
        assert(get_printer_printers(seq![ended]) == Seq::<Seq<char>>::empty());
    }
}

proof fn lemma_lpstat_joins(a: Seq<Seq<char>>, b: Seq<Seq<char>>)
    ensures
        lpstat_printers(a + b) == lpstat_printers(a) + lpstat_printers(b),
    decreases b.len(),
{
    if b.len() == 0 {
        assert(a + b == a);
        assert(lpstat_printers(a) + lpstat_printers(b) == lpstat_printers(a));
    } else {
        lemma_lpstat_joins(a, b.drop_last());
        assert((a + b).drop_last() == a + b.drop_last());
        assert((a + b).last() == b.last());
        assert(lpstat_printers(a + b) == lpstat_printers(a) + lpstat_printers(b));
    }
}

proof fn lemma_get_printer_joins(a: Seq<Seq<char>>, b: Seq<Seq<char>>)
    ensures
        get_printer_printers(a + b) == get_printer_printers(a) + get_printer_printers(b),
    decreases b.len(),
{
    if b.len() == 0 {
        assert(a + b == a);
        assert(get_printer_printers(a) + get_printer_printers(b) == get_printer_printers(a));
    } else {
        lemma_get_printer_joins(a, b.drop_last());
        assert((a + b).drop_last() == a + b.drop_last());
        assert((a + b).last() == b.last());
        assert(get_printer_printers(a + b) == get_printer_printers(a) + get_printer_printers(b));
    }
}

/// No printer that is found has an empty name.
pub proof fn law_listed_printers_have_names(platform: Platform, text: Seq<char>, i: int)
    requires
        0 <= i < listed(platform, text).len(),
    ensures
        listed(platform, text)[i].len() > 0,
{
    match platform {
        Platform::Windows => lemma_get_printer_names(lines(text), i),
        _ => lemma_lpstat_names(lines(text), i),
    }
}

proof fn lemma_get_printer_names(all: Seq<Seq<char>>, i: int)
    requires
        0 <= i < get_printer_printers(all).len(),
    ensures
        get_printer_printers(all)[i].len() > 0,
    decreases all.len(),
{
    if all.len() > 0 && i < get_printer_printers(all.drop_last()).len() {
        lemma_get_printer_names(all.drop_last(), i);
    }
}

proof fn lemma_lpstat_names(all: Seq<Seq<char>>, i: int)
    requires
        0 <= i < lpstat_printers(all).len(),
    ensures
        lpstat_printers(all)[i].len() > 0,
    decreases all.len(),
{
    if all.len() > 0 {
        if i < lpstat_printers(all.drop_last()).len() {
            lemma_lpstat_names(all.drop_last(), i);
        } else {
            let rest = after_prefix(all.last(), "printer "@)->0;
            crate::text::lemma_first_word_not_empty(rest);
        }
    }
}

// ---------------------------------------------------------------------------
// Sending a label
// ---------------------------------------------------------------------------

/// The formats that are PDF, however the name is capitalised.
pub open spec fn is_pdf(format: Seq<char>) -> bool {
    lowered(format) == lowered("pdf"@)
}

/// The formats whose bytes the printer reads itself: ZPL and EPL, however the
/// name is capitalised.
pub open spec fn is_raw(format: Seq<char>) -> bool {
    lowered(format) == lowered("zpl"@) || lowered(format) == lowered("epl"@)
}

/// The end of the name of a label's file.
pub open spec fn label_suffix(format: Seq<char>) -> Seq<char> {
    if is_pdf(format) {
        ".pdf"@
    } else {
        ".prn"@
    }
}

/// The path of a label's file: as UTF-8 where it is, and with U+FFFD in place of
/// what is not.
#[derive(Debug, Clone)]
pub struct LabelFile {
    pub utf8: Option<String>,
    pub lossy: String,
}

/// The ways to the printer.
#[derive(Debug, Clone, Copy, PartialEq, Eq, Structural)]
pub enum Route {
    Lp,
    Sumatra,
    PrintTo,
    OutPrinter,
}

/// The way that is tried first.
pub open spec fn first_route(platform: Platform, format: Seq<char>) -> Route {
    if platform != Platform::Windows {
        Route::Lp
    } else if is_pdf(format) {
        Route::Sumatra
    } else {
        Route::OutPrinter
    }
}

/// The arguments of `lp`.
pub open spec fn lp_args(format: Seq<char>, printer: Seq<char>) -> Seq<ArgModel> {
    let queue = seq![ArgModel::Text("-d"@), ArgModel::Text(printer)];
    let options = if is_raw(format) {
        seq![ArgModel::Text("-o"@), ArgModel::Text("raw"@)]
    } else {
        seq![]
    };
    queue + options + seq![ArgModel::LabelFile]
}

/// The PowerShell script that hands a file to the default program for it.
pub open spec fn print_to_script(path: Seq<char>, printer: Seq<char>) -> Seq<char> {
    "Start-Process -FilePath '"@ + quotes_doubled(path)
        + "' -Verb PrintTo -ArgumentList '\""@ + quotes_doubled(printer)
        + "\"' -WindowStyle Hidden -Wait"@
}

/// The PowerShell script that pipes the bytes of a file to a printer.
pub open spec fn out_printer_script(path: Seq<char>, printer: Seq<char>) -> Seq<char> {
    "Get-Content -Encoding Byte -Path '"@ + quotes_doubled(path) + "' | Out-Printer -Name '"@
        + quotes_doubled(printer) + "'"@
}

/// The command that runs a PowerShell script.
pub open spec fn powershell(script: Seq<char>) -> CommandModel {
    CommandModel {
        program: "powershell"@,
        args: seq![
            ArgModel::Text("-NoProfile"@),
            ArgModel::Text("-Command"@),
            ArgModel::Text(script),
        ],
    }
}

/// A label on its way to a printer. `sumatra` names the SumatraPDF program where
/// it is not the one on the path.
#[derive(Debug)]
pub struct PrintTask {
    pub platform: Platform,
    pub format: String,
    pub printer: String,
    pub sumatra: Option<String>,
    pub stage: Stage,
}

/// How far a label has come.
#[derive(Debug)]
pub enum Stage {
    /// A file for these bytes is being made.
    Creating(Vec<u8>),
    /// The file is being written.
    Writing(LabelFile),
    /// The file is being sent, since the given reading of the clock.
    Sending(Route, LabelFile, u128),
    /// The file is being removed; the label is printed, or it is not.
    Removing(Result<u128, PrinterError>),
    Finished,
}

/// What a `Stage` holds.
pub enum StageModel {
    Creating(Seq<u8>),
    Writing(LabelFile),
    Sending(Route, LabelFile, u128),
    Removing(Result<u128, PrinterErrorModel>),
    Finished,
}

impl View for Stage {
    type V = StageModel;

    open spec fn view(&self) -> StageModel {
        match *self {
            Stage::Creating(bytes) => StageModel::Creating(bytes@),
            Stage::Writing(file) => StageModel::Writing(file),
            Stage::Sending(route, file, started) => StageModel::Sending(route, file, started),
            Stage::Removing(result) => StageModel::Removing(outcome_view(result)),
            Stage::Finished => StageModel::Finished,
        }
    }
}

/// What a `PrintTask` holds.
pub struct TaskModel {
    pub platform: Platform,
    pub format: Seq<char>,
    pub printer: Seq<char>,
    pub sumatra: Option<Seq<char>>,
    pub stage: StageModel,
}

impl View for PrintTask {
    type V = TaskModel;

    open spec fn view(&self) -> TaskModel {
        TaskModel {
            platform: self.platform,
            format: self.format@,
            printer: self.printer@,
            sumatra: self.sumatra.deep_view(),
            stage: self.stage@,
        }
    }
}

/// Nanoseconds in a millisecond.
pub const NANOS_PER_MILLI: u128 = 1_000_000;

/// The whole milliseconds between two readings of a clock that counts nanoseconds.
pub open spec fn millis_between(from: u128, to: u128) -> u128 {
    if to < from {
        0
    } else {
        ((to - from) / (NANOS_PER_MILLI as int)) as u128
    }
}

/// The whole milliseconds between two readings of a clock that counts nanoseconds.
pub fn elapsed_millis(from: u128, to: u128) -> (ms: u128)
    ensures
        ms == millis_between(from, to),
        to < from ==> ms == 0,
        from <= to ==> ms * 1_000_000 <= to - from < (ms + 1) * 1_000_000,
{
    if to < from {
        0
    } else {
        (to - from) / NANOS_PER_MILLI
    }
}

/// What to do for a label next.
#[derive(Debug)]
pub enum PrintAction {
    /// Make a temporary file whose name ends in the given suffix.
    CreateFile(String),
    /// Write these bytes to the file.
    WriteFile(Vec<u8>),
    /// Run a command.
    Run(CommandLine),
    /// Remove the file.
    RemoveFile,
    /// The label is printed, and sending it took so many milliseconds; or it is not.
    Finish(Result<u128, PrinterError>),
}

/// What a `PrintAction` holds.
pub enum PrintActionModel {
    CreateFile(Seq<char>),
    WriteFile(Seq<u8>),
    Run(CommandModel),
    RemoveFile,
    Finish(Result<u128, PrinterErrorModel>),
}

/// What the outcome of a label holds.
pub open spec fn outcome_view(result: Result<u128, PrinterError>) -> Result<
    u128,
    PrinterErrorModel,
> {
    match result {
        Ok(ms) => Ok(ms),
        Err(error) => Err(error@),
    }
}

impl View for PrintAction {
    type V = PrintActionModel;

    open spec fn view(&self) -> PrintActionModel {
        match *self {
            PrintAction::CreateFile(suffix) => PrintActionModel::CreateFile(suffix@),
            PrintAction::WriteFile(bytes) => PrintActionModel::WriteFile(bytes@),
            PrintAction::Run(command) => PrintActionModel::Run(command@),
            PrintAction::RemoveFile => PrintActionModel::RemoveFile,
            PrintAction::Finish(result) => PrintActionModel::Finish(outcome_view(result)),
        }
    }
}

/// What came of an action. Times are readings of a clock that counts nanoseconds
/// and does not run backwards.
#[derive(Debug)]
pub enum PrintEvent {
    FileCreated(LabelFile),
    FileNotCreated,
    /// The file was written, and it is now this time.
    FileWritten(u128),
    FileNotWritten,
    /// A command ended, at this time; `None` where it could not be started.
    CommandEnded(Option<CommandOutput>, u128),
    FileRemoved,
}

/// The events that a stage waits for.
pub open spec fn awaits(stage: StageModel, event: PrintEvent) -> bool {
    match stage {
        StageModel::Creating(_) => event is FileCreated || event is FileNotCreated,
        StageModel::Writing(_) => event is FileWritten || event is FileNotWritten,
        StageModel::Sending(_, _, _) => event is CommandEnded,
        StageModel::Removing(_) => event is FileRemoved,
        StageModel::Finished => false,
    }
}

/// What the command of a way is run for.
pub open spec fn route_tool(route: Route) -> Tool {
    match route {
        Route::Lp => Tool::Lp,
        Route::OutPrinter => Tool::OutPrinter,
        _ => Tool::PrintTo,
    }
}

/// What becomes of a label once the command of the given way has ended, so many
/// milliseconds after the first one was started; `None` where another way is tried.
/// A failing SumatraPDF is no error yet: the default program is tried instead.
pub open spec fn sent(route: Route, outcome: Option<CommandOutput>, ms: u128) -> Option<
    Result<u128, PrinterErrorModel>,
> {
    match command_failure(route_tool(route), outcome) {
        None => Some(Ok(ms)),
        Some(error) => if route == Route::Sumatra {
            None
        } else {
            Some(Err(error))
        },
    }
}

impl TaskModel {
    /// The command that sends the label on the given way.
    pub open spec fn command(self, route: Route, file: LabelFile) -> CommandModel {
        match route {
            Route::Lp => CommandModel { program: "lp"@, args: lp_args(self.format, self.printer) },
            Route::Sumatra => CommandModel {
                program: self.sumatra.unwrap_or("SumatraPDF.exe"@),
                args: seq![
                    ArgModel::Text("-print-to"@),
                    ArgModel::Text(self.printer),
                    ArgModel::Text("-silent"@),
                    ArgModel::Text(file.utf8.deep_view().unwrap_or(seq![])),
                ],
            },
            Route::PrintTo => powershell(print_to_script(file.lossy@, self.printer)),
            Route::OutPrinter => powershell(out_printer_script(file.lossy@, self.printer)),
        }
    }

    /// The way that is tried first.
    pub open spec fn first_way(self) -> Route {
        first_route(self.platform, self.format)
    }

    /// Where an event leads.
    pub open spec fn next_stage(self, event: PrintEvent) -> StageModel {
        match (self.stage, event) {
            (StageModel::Creating(_), PrintEvent::FileCreated(file)) => StageModel::Writing(file),
            (StageModel::Writing(file), PrintEvent::FileWritten(now)) => StageModel::Sending(
                self.first_way(),
                file,
                now,
            ),
            (StageModel::Writing(_), _) => StageModel::Removing(
                Err(PrinterErrorModel::FileNotWritten),
            ),
            (StageModel::Sending(route, file, started), PrintEvent::CommandEnded(outcome, now)) => {
                match sent(route, outcome, millis_between(started, now)) {
                    None => StageModel::Sending(Route::PrintTo, file, started),
                    Some(result) => StageModel::Removing(result),
                }
            },
            _ => StageModel::Finished,
        }
    }

    /// What is to be done on an event.
    pub open spec fn next_action(self, event: PrintEvent) -> PrintActionModel {
        match (self.stage, event) {
            (StageModel::Creating(bytes), PrintEvent::FileCreated(_)) =>
                PrintActionModel::WriteFile(bytes),
            (StageModel::Creating(_), _) => PrintActionModel::Finish(
                Err(PrinterErrorModel::FileNotCreated),
            ),
            (StageModel::Writing(file), PrintEvent::FileWritten(_)) => PrintActionModel::Run(
                self.command(self.first_way(), file),
            ),
            (StageModel::Sending(route, file, started), PrintEvent::CommandEnded(outcome, now)) => {
                match sent(route, outcome, millis_between(started, now)) {
                    None => PrintActionModel::Run(self.command(Route::PrintTo, file)),
                    Some(_) => PrintActionModel::RemoveFile,
                }
            },
            (StageModel::Removing(result), _) => PrintActionModel::Finish(result),
            _ => PrintActionModel::RemoveFile,
        }
    }

    /// The label after an event.
    pub open spec fn next(self, event: PrintEvent) -> TaskModel {
        TaskModel { stage: self.next_stage(event), ..self }
    }
}

/// The command that sends a label through CUPS.
pub fn cups_command(format: &str, printer: &str) -> (command: CommandLine)
    ensures
        command@ == (CommandModel { program: "lp"@, args: lp_args(format@, printer@) }),
        command@.args == (if lowered(format@) == "zpl"@ || lowered(format@) == "epl"@ {
            seq![
                ArgModel::Text("-d"@),
                ArgModel::Text(printer@),
                ArgModel::Text("-o"@),
                ArgModel::Text("raw"@),
                ArgModel::LabelFile,
            ]
        } else {
            seq![ArgModel::Text("-d"@), ArgModel::Text(printer@), ArgModel::LabelFile]
        }),
{
    proof {
        lemma_formats_are_in_small_letters();
    }
    let mut args: Vec<Arg> = Vec::new();
    args.push(Arg::Text("-d".to_owned()));
    args.push(Arg::Text(printer.to_owned()));
    if same_but_case(format, "zpl") || same_but_case(format, "epl") {
        args.push(Arg::Text("-o".to_owned()));
        args.push(Arg::Text("raw".to_owned()));
    }
    args.push(Arg::LabelFile);
    let command = CommandLine { program: "lp".to_owned(), args };
    assert(command@.args == lp_args(format@, printer@));
    command
}

fn powershell_command(script: String) -> (command: CommandLine)
    ensures
        command@ == powershell(script@),
{
    let mut args: Vec<Arg> = Vec::new();
    args.push(Arg::Text("-NoProfile".to_owned()));
    args.push(Arg::Text("-Command".to_owned()));
    args.push(Arg::Text(script));
    let command = CommandLine { program: "powershell".to_owned(), args };
    assert(command@.args == powershell(script@).args);
    command
}

/// Starts to print a label, given by its bytes and their format, on a system
/// printer.
pub fn print_label(
    platform: Platform,
    bytes: &[u8],
    format: &str,
    system_printer: &str,
    sumatra: Option<String>,
) -> (start: (PrintTask, PrintAction))
    ensures
        start.0@ == (TaskModel {
            platform,
            format: format@,
            printer: system_printer@,
            sumatra: sumatra.deep_view(),
            stage: StageModel::Creating(bytes@),
        }),
        start.1@ == PrintActionModel::CreateFile(label_suffix(format@)),
        start.0.platform == platform,
        start.0.format@ == format@,
        start.0.printer@ == system_printer@,
        start.0.sumatra == sumatra,
        start.0.stage matches Stage::Creating(kept) && kept@ == bytes@,
        start.1 matches PrintAction::CreateFile(suffix) && suffix@ == (if lowered(format@)
            == "pdf"@ {
            ".pdf"@
        } else {
            ".prn"@
        }),
{
    proof {
        lemma_formats_are_in_small_letters();
    }
    let suffix = if same_but_case(format, "pdf") {
        ".pdf".to_owned()
    } else {
        ".prn".to_owned()
    };
    let task = PrintTask {
        platform,
        format: format.to_owned(),
        printer: system_printer.to_owned(),
        sumatra,
        stage: Stage::Creating(slice_to_vec(bytes)),
    };
    (task, PrintAction::CreateFile(suffix))
}

impl PrintTask {
    /// The command that sends the label on the given way.
    fn command_line(&self, route: Route, file: &LabelFile) -> (command: CommandLine)
        ensures
            command@ == self@.command(route, *file),
    {
        match route {
            Route::Lp => cups_command(self.format.as_str(), self.printer.as_str()),
            Route::Sumatra => {
                let program = match &self.sumatra {
                    Some(program) => program.clone(),
                    None => "SumatraPDF.exe".to_owned(),
                };
                let path = match &file.utf8 {
                    Some(path) => path.clone(),
                    None => String::new(),
                };
                let mut args: Vec<Arg> = Vec::new();
                args.push(Arg::Text("-print-to".to_owned()));
                args.push(Arg::Text(self.printer.clone()));
                args.push(Arg::Text("-silent".to_owned()));
                args.push(Arg::Text(path));
                let command = CommandLine { program, args };
                assert(command@.args == self@.command(route, *file).args);
                command
            },
            Route::PrintTo => {
                let path = double_quotes(file.lossy.as_str());
                let printer = double_quotes(self.printer.as_str());
                powershell_command(
                    "Start-Process -FilePath '".to_owned().concat(path.as_str()).concat(
                        "' -Verb PrintTo -ArgumentList '\"",
                    ).concat(printer.as_str()).concat("\"' -WindowStyle Hidden -Wait"),
                )
            },
            Route::OutPrinter => {
                let path = double_quotes(file.lossy.as_str());
                let printer = double_quotes(self.printer.as_str());
                powershell_command(
                    "Get-Content -Encoding Byte -Path '".to_owned().concat(path.as_str()).concat(
                        "' | Out-Printer -Name '",
                    ).concat(printer.as_str()).concat("'"),
                )
            },
        }
    }

    /// Takes up what came of the last action.
    pub fn advance(self, event: PrintEvent) -> (step: (PrintTask, PrintAction))
        requires
            awaits(self@.stage, event),
        ensures
            step.0@ == self@.next(event),
            step.1@ == self@.next_action(event),
            step.0.platform == self.platform,
            step.0.format == self.format,
            step.0.printer == self.printer,
            step.0.sumatra == self.sumatra,
            match (self.stage, event) {
                (Stage::Creating(bytes), PrintEvent::FileCreated(file)) => {
                    &&& step.0.stage == Stage::Writing(file)
                    &&& step.1 matches PrintAction::WriteFile(written) && written@ == bytes@
                },
                (Stage::Creating(_), PrintEvent::FileNotCreated) => {
                    &&& step.0.stage is Finished
                    &&& step.1 matches PrintAction::Finish(Err(PrinterError::FileNotCreated))
                },
                (Stage::Writing(file), PrintEvent::FileWritten(now)) => {
                    &&& step.0.stage matches Stage::Sending(_, kept, started) && kept == file
                        && started == now
                    &&& step.1 is Run
                },
                (Stage::Writing(_), PrintEvent::FileNotWritten) => {
                    &&& step.0.stage matches Stage::Removing(Err(PrinterError::FileNotWritten))
                    &&& step.1 is RemoveFile
                },
                (Stage::Sending(route, file, started), PrintEvent::CommandEnded(outcome, now)) =>
                    match outcome {
                    Some(output) if output.success => {
                        &&& step.0.stage matches Stage::Removing(Ok(ms)) && ms == millis_between(
                            started,
                            now,
                        )
                        &&& step.1 is RemoveFile
                    },
                    _ => if route == Route::Sumatra {
                        &&& step.0.stage == Stage::Sending(Route::PrintTo, file, started)
                        &&& step.1 is Run
                    } else {
                        &&& step.0.stage matches Stage::Removing(Err(_))
                        &&& step.1 is RemoveFile
                    },
                },
                (Stage::Removing(result), PrintEvent::FileRemoved) => {
                    &&& step.0.stage is Finished
                    &&& step.1 == PrintAction::Finish(result)
                },
                _ => true,
            },
    {
        let PrintTask { platform, format, printer, sumatra, stage } = self;
        let task = PrintTask { platform, format, printer, sumatra, stage: Stage::Finished };
        match (stage, event) {
            (Stage::Creating(bytes), PrintEvent::FileCreated(file)) => (
                PrintTask { stage: Stage::Writing(file), ..task },
                PrintAction::WriteFile(bytes),
            ),
            (Stage::Creating(_), _) => (
                task,
                PrintAction::Finish(Err(PrinterError::FileNotCreated)),
            ),
            (Stage::Writing(file), PrintEvent::FileWritten(now)) => {
                let route = task.route();
                let command = task.command_line(route, &file);
                (
                    PrintTask { stage: Stage::Sending(route, file, now), ..task },
                    PrintAction::Run(command),
                )
            },
            (Stage::Writing(_), _) => task.ending(Err(PrinterError::FileNotWritten)),
            (Stage::Sending(route, file, started), PrintEvent::CommandEnded(outcome, now)) => {
                let ms = elapsed_millis(started, now);
                let result = match route {
                    Route::Lp => Some(send_cups(outcome)),
                    _ => send_windows(route, outcome),
                };
                match result {
                    None => {
                        let command = task.command_line(Route::PrintTo, &file);
                        (
                            PrintTask {
                                stage: Stage::Sending(Route::PrintTo, file, started),
                                ..task
                            },
                            PrintAction::Run(command),
                        )
                    },
                    Some(Ok(())) => task.ending(Ok(ms)),
                    Some(Err(error)) => task.ending(Err(error)),
                }
            },
            (Stage::Removing(result), _) => (task, PrintAction::Finish(result)),
            _ => (task, PrintAction::RemoveFile),
        }
    }

    /// A label whose file is to be removed, with the given outcome.
    fn ending(self, result: Result<u128, PrinterError>) -> (step: (PrintTask, PrintAction))
        ensures
            step.0@ == (TaskModel { stage: StageModel::Removing(outcome_view(result)), ..self@ }),
            step.0 == (PrintTask { stage: Stage::Removing(result), ..self }),
            step.1@ == PrintActionModel::RemoveFile,
            step.1 is RemoveFile,
    {
        (PrintTask { stage: Stage::Removing(result), ..self }, PrintAction::RemoveFile)
    }

    fn route(&self) -> (route: Route)
        ensures
            route == first_route(self.platform, self.format@),
    {
        match self.platform {
            Platform::Windows => if same_but_case(self.format.as_str(), "pdf") {
                Route::Sumatra
            } else {
                Route::OutPrinter
            },
            _ => Route::Lp,
        }
    }
}

/// The names of the formats are written in small letters.
proof fn lemma_formats_are_in_small_letters()
    ensures
        lowered("pdf"@) == "pdf"@,
        lowered("zpl"@) == "zpl"@,
        lowered("epl"@) == "epl"@,
{
    reveal_strlit("pdf");
    reveal_strlit("zpl");
    reveal_strlit("epl");
    assert(lowered("pdf"@) == "pdf"@);
    assert(lowered("zpl"@) == "zpl"@);
    assert(lowered("epl"@) == "epl"@);
}

/// What became of a label, from what running `lp` came to.
pub fn send_cups(outcome: Option<CommandOutput>) -> (result: Result<(), PrinterError>)
    ensures
        match command_failure(Tool::Lp, outcome) {
            None => result is Ok,
            Some(error) => result is Err && result->Err_0@ == error,
        },
        match outcome {
            None => result matches Err(PrinterError::NotRun(Tool::Lp)),
            Some(output) => if output.success {
                result is Ok
            } else {
                result matches Err(PrinterError::Exited(Tool::Lp, status, stderr)) && status@
                    == output.status@ && stderr@ == utf8_lossy(output.stderr@)
            },
        },
{
    match succeeded(Tool::Lp, outcome) {
        Ok(_) => Ok(()),
        Err(error) => Err(error),
    }
}

/// What became of a label, from what a command on Windows came to; `None` where
/// the default PDF program is to be tried next.
pub fn send_windows(route: Route, outcome: Option<CommandOutput>) -> (result: Option<
    Result<(), PrinterError>,
>)
    requires
        route != Route::Lp,
    ensures
        match command_failure(route_tool(route), outcome) {
            None => result == Some(Ok::<(), PrinterError>(())),
            Some(error) => if route == Route::Sumatra {
                result is None
            } else {
                result is Some && result->0 is Err && (result->0)->Err_0@ == error
            },
        },
        outcome is Some && outcome->0.success ==> result matches Some(Ok(())),
        route == Route::Sumatra && !(outcome is Some && outcome->0.success) ==> result is None,
        route == Route::PrintTo ==> match outcome {
            None => result matches Some(Err(PrinterError::NotRun(Tool::PrintTo))),
            Some(output) => output.success || (result matches Some(
                Err(PrinterError::Exited(Tool::PrintTo, status, stderr)),
            ) && status@ == output.status@ && stderr@ == utf8_lossy(output.stderr@)),
        },
        route == Route::OutPrinter ==> match outcome {
            None => result matches Some(Err(PrinterError::NotRun(Tool::OutPrinter))),
            Some(output) => output.success || (result matches Some(
                Err(PrinterError::Exited(Tool::OutPrinter, status, stderr)),
            ) && status@ == output.status@ && stderr@ == utf8_lossy(output.stderr@)),
        },
{
    match route {
        Route::Sumatra => match outcome {
            Some(output) => if output.success {
                Some(Ok(()))
            } else {
                None
            },
            None => None,
        },
        Route::OutPrinter => match succeeded(Tool::OutPrinter, outcome) {
            Ok(_) => Some(Ok(())),
            Err(error) => Some(Err(error)),
        },
        _ => match succeeded(Tool::PrintTo, outcome) {
            Ok(_) => Some(Ok(())),
            Err(error) => Some(Err(error)),
        },
    }
}

/// Whatever can come of an action is taken up: a file is made or is not, is written or
/// is not, and is removed, and a command ends in any way.
pub proof fn law_every_outcome_is_taken_up(stage: StageModel, event: PrintEvent)
    ensures
        stage is Creating && (event is FileCreated || event is FileNotCreated) ==> awaits(
            stage,
            event,
        ),
        stage is Writing && (event is FileWritten || event is FileNotWritten) ==> awaits(
            stage,
            event,
        ),
        stage is Sending && event is CommandEnded ==> awaits(stage, event),
        stage is Removing && event is FileRemoved ==> awaits(stage, event),
{
}

/// A task is what its fields hold, and so are its stage and what it asks for: what they
/// name, they name whole.
pub proof fn law_task_is_what_it_holds(task: PrintTask, action: PrintAction)
    ensures
        task@.platform == task.platform,
        task@.format == task.format@,
        task@.printer == task.printer@,
        task@.sumatra == task.sumatra.deep_view(),
        match task.stage {
            Stage::Creating(bytes) => task@.stage == StageModel::Creating(bytes@),
            Stage::Writing(file) => task@.stage == StageModel::Writing(file),
            Stage::Sending(route, file, started) => task@.stage == StageModel::Sending(
                route,
                file,
                started,
            ),
            Stage::Removing(Ok(ms)) => task@.stage == StageModel::Removing(Ok(ms)),
            Stage::Removing(Err(error)) => task@.stage == StageModel::Removing(Err(error@)),
            Stage::Finished => task@.stage is Finished,
        },
        match action {
            PrintAction::CreateFile(suffix) => action@ == PrintActionModel::CreateFile(suffix@),
            PrintAction::WriteFile(bytes) => action@ == PrintActionModel::WriteFile(bytes@),
            PrintAction::Run(command) => action@ == PrintActionModel::Run(command@),
            PrintAction::RemoveFile => action@ is RemoveFile,
            PrintAction::Finish(Ok(ms)) => action@ == PrintActionModel::Finish(Ok(ms)),
            PrintAction::Finish(Err(error)) => action@ == PrintActionModel::Finish(Err(error@)),
        },
{
}

/// Away from Windows, a label whose file has been written is sent with
/// `lp -d <printer> -o raw <file>` where its format is ZPL or EPL, in letters of any
/// case, and with `lp -d <printer> <file>` where it is not; the format and the printer
/// are those that the label came with.
pub proof fn law_label_goes_to_lp(
    task: TaskModel,
    bytes: Seq<u8>,
    file: LabelFile,
    now: u128,
)
    requires
        task.platform != Platform::Windows,
        task.stage == StageModel::Creating(bytes),
    ensures
        ({
            let written = task.next(PrintEvent::FileCreated(file));
            let raw = lowered(task.format) == "zpl"@ || lowered(task.format) == "epl"@;
            &&& written.next_action(PrintEvent::FileWritten(now)) is Run
            &&& written.next_action(PrintEvent::FileWritten(now))->Run_0.program == "lp"@
            &&& raw ==> written.next_action(PrintEvent::FileWritten(now))->Run_0.args == seq![
                ArgModel::Text("-d"@),
                ArgModel::Text(task.printer),
                ArgModel::Text("-o"@),
                ArgModel::Text("raw"@),
                ArgModel::LabelFile,
            ]
            &&& !raw ==> written.next_action(PrintEvent::FileWritten(now))->Run_0.args == seq![
                ArgModel::Text("-d"@),
                ArgModel::Text(task.printer),
                ArgModel::LabelFile,
            ]
        }),
{
    lemma_formats_are_in_small_letters();
}

/// On Windows, a PDF whose file has been written is handed to SumatraPDF, with the
/// printer and the file that the label came with.
pub proof fn law_pdf_goes_to_sumatra(
    task: TaskModel,
    bytes: Seq<u8>,
    file: LabelFile,
    now: u128,
)
    requires
        task.platform == Platform::Windows,
        lowered(task.format) == "pdf"@,
        task.stage == StageModel::Creating(bytes),
    ensures
        ({
            let written = task.next(PrintEvent::FileCreated(file));
            let action = written.next_action(PrintEvent::FileWritten(now));
            &&& action is Run
            &&& action->Run_0.program == (match task.sumatra {
                Some(program) => program,
                None => "SumatraPDF.exe"@,
            })
            &&& action->Run_0.args == seq![
                ArgModel::Text("-print-to"@),
                ArgModel::Text(task.printer),
                ArgModel::Text("-silent"@),
                ArgModel::Text(
                    match file.utf8 {
                        Some(path) => path@,
                        None => Seq::empty(),
                    },
                ),
            ]
        }),
{
    lemma_formats_are_in_small_letters();
}

/// On Windows, a PDF that SumatraPDF has failed on is handed to the default program by
/// a PowerShell script that names the file and, between double quotes, the printer.
pub proof fn law_pdf_falls_back_to_the_default_program(
    task: TaskModel,
    file: LabelFile,
    started: u128,
    outcome: Option<CommandOutput>,
    now: u128,
)
    requires
        task.stage == StageModel::Sending(Route::Sumatra, file, started),
        !(outcome is Some && outcome->0.success),
    ensures
        ({
            let action = task.next_action(PrintEvent::CommandEnded(outcome, now));
            &&& action is Run
            &&& action->Run_0.program == "powershell"@
            &&& action->Run_0.args == seq![
                ArgModel::Text("-NoProfile"@),
                ArgModel::Text("-Command"@),
                ArgModel::Text(
                    "Start-Process -FilePath '"@ + quotes_doubled(file.lossy@)
                        + "' -Verb PrintTo -ArgumentList '\""@ + quotes_doubled(task.printer)
                        + "\"' -WindowStyle Hidden -Wait"@,
                ),
            ]
        }),
{
}

/// On Windows, every label that is no PDF is piped to the printer, byte for byte, by a
/// PowerShell script that names the file and the printer.
pub proof fn law_other_labels_go_to_out_printer(
    task: TaskModel,
    bytes: Seq<u8>,
    file: LabelFile,
    now: u128,
)
    requires
        task.platform == Platform::Windows,
        lowered(task.format) != "pdf"@,
        task.stage == StageModel::Creating(bytes),
    ensures
        ({
            let written = task.next(PrintEvent::FileCreated(file));
            let action = written.next_action(PrintEvent::FileWritten(now));
            &&& action is Run
            &&& action->Run_0.program == "powershell"@
            &&& action->Run_0.args == seq![
                ArgModel::Text("-NoProfile"@),
                ArgModel::Text("-Command"@),
                ArgModel::Text(
                    "Get-Content -Encoding Byte -Path '"@ + quotes_doubled(file.lossy@)
                        + "' | Out-Printer -Name '"@ + quotes_doubled(task.printer) + "'"@,
                ),
            ]
        }),
{
    lemma_formats_are_in_small_letters();
}

/// What became of a label is told once its file is gone: the milliseconds that passed
/// since the file was written, where the last command succeeded, and else an error with
/// what that command was run for and what it said.
pub proof fn law_outcome_of_a_label_is_told(
    task: TaskModel,
    file: LabelFile,
    outcome: Option<CommandOutput>,
    started: u128,
    now: u128,
)
    requires
        task.stage == StageModel::Sending(
            if task.platform != Platform::Windows {
                Route::Lp
            } else if lowered(task.format) == "pdf"@ {
                Route::PrintTo
            } else {
                Route::OutPrinter
            },
            file,
            started,
        ),
    ensures
        ({
            let removing = task.next(PrintEvent::CommandEnded(outcome, now));
            let told = removing.next_action(PrintEvent::FileRemoved);
            let tool = if task.platform != Platform::Windows {
                Tool::Lp
            } else if lowered(task.format) == "pdf"@ {
                Tool::PrintTo
            } else {
                Tool::OutPrinter
            };
            &&& task.next_action(PrintEvent::CommandEnded(outcome, now)) is RemoveFile
            &&& told is Finish
            &&& match outcome {
                None => told->Finish_0 == Err::<u128, PrinterErrorModel>(
                    PrinterErrorModel::NotRun(tool),
                ),
                Some(output) => if output.success {
                    &&& told->Finish_0 is Ok
                    &&& started <= now ==> told->Finish_0->Ok_0 * 1_000_000 <= now - started < (
                    told->Finish_0->Ok_0 + 1) * 1_000_000
                } else {
                    told->Finish_0 == Err::<u128, PrinterErrorModel>(
                        PrinterErrorModel::Exited(
                            tool,
                            output.status@,
                            utf8_lossy(output.stderr@),
                        ),
                    )
                },
            }
        }),
{
}

/// A PDF is never taken for a label that the printer reads itself.
pub proof fn law_pdf_is_not_raw(format: Seq<char>)
    ensures
        !(is_pdf(format) && is_raw(format)),
{
    reveal_strlit("pdf");
    reveal_strlit("zpl");
    reveal_strlit("epl");
    assert(lowered("pdf"@)[0] == 'p');
    assert(lowered("zpl"@)[0] == 'z');
    assert(lowered("epl"@)[0] == 'e');
}

/// CUPS is told to pass ZPL and EPL through untouched, and only those.
pub proof fn law_lp_passes_raw_labels_through(format: Seq<char>, printer: Seq<char>)
    ensures
        is_raw(format) ==> lp_args(format, printer) == seq![
            ArgModel::Text("-d"@),
            ArgModel::Text(printer),
            ArgModel::Text("-o"@),
            ArgModel::Text("raw"@),
            ArgModel::LabelFile,
        ],
        !is_raw(format) ==> lp_args(format, printer) == seq![
            ArgModel::Text("-d"@),
            ArgModel::Text(printer),
            ArgModel::LabelFile,
        ],
{
}

/// The same format, capitalised otherwise, is printed the same way.
pub proof fn law_case_of_the_format_does_not_count(
    platform: Platform,
    a: Seq<char>,
    b: Seq<char>,
    printer: Seq<char>,
)
    requires
        lowered(a) == lowered(b),
    ensures
        label_suffix(a) == label_suffix(b),
        first_route(platform, a) == first_route(platform, b),
        lp_args(a, printer) == lp_args(b, printer),
{
}

/// How many steps a label is from its end, at most.
pub open spec fn steps_left(stage: StageModel) -> nat {
    match stage {
        StageModel::Creating(_) => 5,
        StageModel::Writing(_) => 4,
        StageModel::Sending(route, _, _) => if route == Route::Sumatra {
            3
        } else {
            2
        },
        StageModel::Removing(_) => 1,
        StageModel::Finished => 0,
    }
}

/// Every event brings a label closer to its end, and the end is told exactly when
/// it is reached.
pub proof fn law_printing_comes_to_an_end(task: TaskModel, event: PrintEvent)
    requires
        awaits(task.stage, event),
    ensures
        steps_left(task.next_stage(event)) < steps_left(task.stage),
        task.next_action(event) is Finish <==> task.next_stage(event) is Finished,
{
}

/// The stages in which a label has a file.
pub open spec fn has_file(stage: StageModel) -> bool {
    stage is Writing || stage is Sending || stage is Removing
}

/// A label's file is gone when the label is done with: it comes with the event that
/// tells it was made, and goes with the one that tells it was removed, which every
/// label with a file comes to before it ends.
pub proof fn law_label_file_is_removed(task: TaskModel, event: PrintEvent)
    requires
        awaits(task.stage, event),
    ensures
        has_file(task.next_stage(event)) <==> {
            ||| event is FileCreated
            ||| has_file(task.stage) && !(event is FileRemoved)
        },
        task.next_action(event) is RemoveFile <==> task.next_stage(event) is Removing,
        has_file(task.stage) && task.next_action(event) is Finish ==> event is FileRemoved,
{
}

/// The bytes of a label are written to its file as they are.
pub proof fn law_label_is_written_unchanged(task: TaskModel, bytes: Seq<u8>, file: LabelFile)
    requires
        task.stage == StageModel::Creating(bytes),
    ensures
        task.next_action(PrintEvent::FileCreated(file)) == PrintActionModel::WriteFile(bytes),
{
}

/// A label that is not to be handed to SumatraPDF takes one command, and its outcome
/// is that of the command: printed, in the milliseconds between the writing of the
/// file and the end of the command, if and only if the command succeeded; else not,
/// with the error that the command gave.
pub proof fn law_label_is_sent_once(
    task: TaskModel,
    file: LabelFile,
    outcome: Option<CommandOutput>,
    started: u128,
    ended: u128,
)
    requires
        task.stage == StageModel::Writing(file),
        task.first_way() != Route::Sumatra,
    ensures
        ({
            let written = PrintEvent::FileWritten(started);
            let done = PrintEvent::CommandEnded(outcome, ended);
            let sending = task.next(written);
            let removing = sending.next(done);
            &&& task.next_action(written) == PrintActionModel::Run(
                task.command(task.first_way(), file),
            )
            &&& awaits(sending.stage, done)
            &&& sending.next_action(done) == PrintActionModel::RemoveFile
            &&& awaits(removing.stage, PrintEvent::FileRemoved)
            &&& removing.next_action(PrintEvent::FileRemoved) == PrintActionModel::Finish(
                match command_failure(route_tool(task.first_way()), outcome) {
                    None => Ok(millis_between(started, ended)),
                    Some(error) => Err(error),
                },
            )
        }),
{
}

/// A PDF on Windows is handed to SumatraPDF, and to the default program if and only
/// if that fails. The outcome is that of the command that ran last, and the time
/// counts from the writing of the file to its end.
pub proof fn law_sumatra_has_a_fallback(
    task: TaskModel,
    file: LabelFile,
    first: Option<CommandOutput>,
    second: Option<CommandOutput>,
    started: u128,
    between: u128,
    ended: u128,
)
    requires
        task.stage == StageModel::Writing(file),
        task.first_way() == Route::Sumatra,
    ensures
        ({
            let written = PrintEvent::FileWritten(started);
            let tried = PrintEvent::CommandEnded(first, between);
            let done = PrintEvent::CommandEnded(second, ended);
            let sending = task.next(written);
            let then = sending.next(tried);
            &&& task.next_action(written) == PrintActionModel::Run(
                task.command(Route::Sumatra, file),
            )
            &&& awaits(sending.stage, tried)
            &&& if first is Some && first->0.success {
                &&& sending.next_action(tried) == PrintActionModel::RemoveFile
                &&& awaits(then.stage, PrintEvent::FileRemoved)
                &&& then.next_action(PrintEvent::FileRemoved) == PrintActionModel::Finish(
                    Ok(millis_between(started, between)),
                )
            } else {
                &&& sending.next_action(tried) == PrintActionModel::Run(
                    task.command(Route::PrintTo, file),
                )
                &&& awaits(then.stage, done)
                &&& then.next_action(done) == PrintActionModel::RemoveFile
                &&& awaits(then.next(done).stage, PrintEvent::FileRemoved)
                &&& then.next(done).next_action(PrintEvent::FileRemoved)
                    == PrintActionModel::Finish(
                    match command_failure(Tool::PrintTo, second) {
                        None => Ok(millis_between(started, ended)),
                        Some(error) => Err(error),
                    },
                )
            }
        }),
{
}

/// A label that is being sent counts as printed if and only if the command that
/// ran last succeeded.
pub proof fn law_printed_iff_the_command_succeeded(
    task: TaskModel,
    outcome: Option<CommandOutput>,
    now: u128,
)
    requires
        task.stage is Sending,
    ensures
        ({
            let next = task.next_stage(PrintEvent::CommandEnded(outcome, now));
            next is Removing && next->Removing_0 is Ok
        }) <==> outcome is Some && outcome->0.success,
{
}

/// The platform, the format and the printer of a label stay as they were given.
pub proof fn law_label_keeps_its_printer(task: TaskModel, event: PrintEvent)
    ensures
        task.next(event).platform == task.platform,
        task.next(event).format == task.format,
        task.next(event).printer == task.printer,
        task.next(event).sumatra == task.sumatra,
{
}

/// In the script for `Out-Printer`, a reader for which `'` is the only quote finds
/// the path of the label and the name of the printer as they are, each `'` included.
pub proof fn law_out_printer_script_names_its_parts(path: Seq<char>, printer: Seq<char>)
    ensures
        quoted_content(
            out_printer_script(path, printer).skip(
                "Get-Content -Encoding Byte -Path '"@.len() as int,
            ),
        ) == path,
        quoted_content(
            out_printer_script(path, printer).skip(
                ("Get-Content -Encoding Byte -Path '"@ + quotes_doubled(path)
                    + "' | Out-Printer -Name '"@).len() as int,
            ),
        ) == printer,
{
    reveal_strlit("' | Out-Printer -Name '");
    reveal_strlit("'");
    let script = out_printer_script(path, printer);
    let head = "Get-Content -Encoding Byte -Path '"@;
    let middle = "' | Out-Printer -Name '"@;
    let after_path = middle + quotes_doubled(printer) + "'"@;
    assert(script.skip(head.len() as int) == quotes_doubled(path) + after_path);
    law_doubled_quotes_read_back(path, after_path);
    let start = head + quotes_doubled(path) + middle;
    assert(script.skip(start.len() as int) == quotes_doubled(printer) + "'"@);
    law_doubled_quotes_read_back(printer, "'"@);
}

/// In the script for the default program, a reader for which `'` is the only quote
/// finds the path of the label as it is, and as the argument the name of the printer
/// between double quotes.
pub proof fn law_print_to_script_names_its_parts(path: Seq<char>, printer: Seq<char>)
    ensures
        quoted_content(
            print_to_script(path, printer).skip("Start-Process -FilePath '"@.len() as int),
        ) == path,
        quoted_content(
            print_to_script(path, printer).skip(
                ("Start-Process -FilePath '"@ + quotes_doubled(path)
                    + "' -Verb PrintTo -ArgumentList '"@).len() as int,
            ),
        ) == seq!['"'] + printer + seq!['"'],
{
    reveal_strlit("' -Verb PrintTo -ArgumentList '\"");
    reveal_strlit("' -Verb PrintTo -ArgumentList '");
    reveal_strlit("\"' -WindowStyle Hidden -Wait");
    let script = print_to_script(path, printer);
    let head = "Start-Process -FilePath '"@;
    let middle = "' -Verb PrintTo -ArgumentList '"@;
    let opening = "' -Verb PrintTo -ArgumentList '\""@;
    let closing = "\"' -WindowStyle Hidden -Wait"@;
    assert(opening == middle + seq!['"']);
    let after_path = opening + quotes_doubled(printer) + closing;
    assert(script.skip(head.len() as int) == quotes_doubled(path) + after_path);
    law_doubled_quotes_read_back(path, after_path);
    let start = head + quotes_doubled(path) + middle;
    let tail = closing.skip(1);
    let argument = seq!['"'] + printer + seq!['"'];
    assert(quotes_doubled(argument) == seq!['"'] + quotes_doubled(printer) + seq!['"']) by {
        lemma_doubled_with_head('"', printer);
        assert(argument.drop_last() == seq!['"'] + printer);
    }
    assert(closing == seq!['"'] + tail);
    assert(script.skip(start.len() as int) == quotes_doubled(argument) + tail);
    law_doubled_quotes_read_back(argument, tail);
}

proof fn lemma_doubled_with_head(c: char, s: Seq<char>)
    requires
        c != '\'',
    ensures
        quotes_doubled(seq![c] + s) == seq![c] + quotes_doubled(s),
    decreases s.len(),
{
    let whole = seq![c] + s;
    if s.len() == 0 {
        assert(whole.drop_last() == Seq::<char>::empty());
        assert(quotes_doubled(whole.drop_last()) == Seq::<char>::empty());
        assert(quotes_doubled(whole) == seq![c] + quotes_doubled(s));
    } else {
        assert(whole.drop_last() == seq![c] + s.drop_last());
        lemma_doubled_with_head(c, s.drop_last());
        assert(quotes_doubled(whole) == seq![c] + quotes_doubled(s));
    }
}

} // verus!
