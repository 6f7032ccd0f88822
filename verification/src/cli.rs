//! The command line: what a word asks for.

use vstd::prelude::*;
use vstd::string::StringExecFns;
use crate::abs_pointer::PointerLanding;
use crate::numerals::{decimal, decimal_reads_back, parse_signed, signed_of};
use crate::text::{cat, same, text_of};
use crate::windowing::backends::hyprland::HYPRLAND_BACKEND;
use crate::windowing::target::{permission_hint, window_permission_hint};
use crate::windowing::types::WindowInfo;

verus! {

/// What the command line asks for.
#[derive(Debug, Clone, Copy, PartialEq, Eq, Structural)]
pub enum CliCommand {
    Mcp,
    Doctor,
    Setup,
    Apps,
    State,
    AbsTest,
    Screenshot,
    Windows,
    Help,
}

/// The command a word stands for; no word at all asks for help.
pub open spec fn command_named(word: Option<Seq<char>>) -> Option<CliCommand> {
    match word {
        None => Some(CliCommand::Help),
        Some(word) => if word == "mcp"@ {
            Some(CliCommand::Mcp)
        } else if word == "doctor"@ {
            Some(CliCommand::Doctor)
        } else if word == "setup"@ {
            Some(CliCommand::Setup)
        } else if word == "apps"@ {
            Some(CliCommand::Apps)
        } else if word == "state"@ {
            Some(CliCommand::State)
        } else if word == "abs-test"@ {
            Some(CliCommand::AbsTest)
        } else if word == "screenshot"@ {
            Some(CliCommand::Screenshot)
        } else if word == "windows"@ {
            Some(CliCommand::Windows)
        } else if word == "--help"@ || word == "-h"@ {
            Some(CliCommand::Help)
        } else {
            None
        },
    }
}

/// The command a word stands for, or what is said of one that stands for none.
pub fn cli_command(word: Option<&str>) -> (r: Result<CliCommand, String>)
    ensures
        match command_named(crate::elements::str_of(word)) {
            Some(command) => r == Ok::<CliCommand, String>(command),
            None => r is Err && r->Err_0@ == "unknown command '"@ + word->0@
                + "'. Expected one of: mcp, doctor, setup, apps, state, screenshot, windows, abs-test"@,
        },
{
    let word = match word {
        Some(word) => word,
        None => return Ok(CliCommand::Help),
    };
    if same(word, "mcp") {
        Ok(CliCommand::Mcp)
    } else if same(word, "doctor") {
        Ok(CliCommand::Doctor)
    } else if same(word, "setup") {
        Ok(CliCommand::Setup)
    } else if same(word, "apps") {
        Ok(CliCommand::Apps)
    } else if same(word, "state") {
        Ok(CliCommand::State)
    } else if same(word, "abs-test") {
        Ok(CliCommand::AbsTest)
    } else if same(word, "screenshot") {
        Ok(CliCommand::Screenshot)
    } else if same(word, "windows") {
        Ok(CliCommand::Windows)
    } else if same(word, "--help") || same(word, "-h") {
        Ok(CliCommand::Help)
    } else {
        let mut message = cat("unknown command '", word);
        message.append(
            "'. Expected one of: mcp, doctor, setup, apps, state, screenshot, windows, abs-test",
        );
        Err(message)
    }
}

/// What the help says.
pub const HELP: &'static str =
    "computer-use-hyprland\n\nUsage:\n  computer-use-hyprland mcp\n  computer-use-hyprland doctor\n  computer-use-hyprland setup\n  computer-use-hyprland apps\n  computer-use-hyprland state [APP_NAME]\n  computer-use-hyprland screenshot\n  computer-use-hyprland windows\n  computer-use-hyprland abs-test X Y";

/// A coordinate on the command line, which is zero where none is given or it is no number.
pub open spec fn coordinate(word: Option<Seq<char>>) -> int {
    match word {
        Some(word) => match parse_signed(word, i32::MIN as int, i32::MAX as int) {
            Some(n) => n,
            None => 0,
        },
        None => 0,
    }
}

/// A coordinate on the command line.
pub fn coordinate_of(word: Option<&str>) -> (r: i32)
    ensures
        r == coordinate(crate::elements::str_of(word)),
{
    match word {
        Some(word) => match signed_of(word, i32::MIN as i64, i32::MAX as i64) {
            Some(n) => n as i32,
            None => 0,
        },
        None => 0,
    }
}

/// What a test of the absolute pointer reports.
#[derive(Debug, Clone, Copy, PartialEq, Eq, Structural)]
pub struct AbsTestReport {
    pub ok: bool,
    pub requested_x: i32,
    pub requested_y: i32,
    pub x: i32,
    pub y: i32,
    pub w: u32,
    pub h: u32,
}

/// What a test of the absolute pointer reports: the point that was asked for and the one
/// that was emitted, on a desktop of these dimensions.
pub fn abs_test_report(landing: PointerLanding, dimensions: (u32, u32)) -> (r: AbsTestReport)
    ensures
        r == (AbsTestReport {
            ok: true,
            requested_x: landing.requested.0,
            requested_y: landing.requested.1,
            x: landing.emitted.0,
            y: landing.emitted.1,
            w: dimensions.0,
            h: dimensions.1,
        }),
{
    AbsTestReport {
        ok: true,
        requested_x: landing.requested.0,
        requested_y: landing.requested.1,
        x: landing.emitted.0,
        y: landing.emitted.1,
        w: dimensions.0,
        h: dimensions.1,
    }
}

/// What `windows` reports.
#[derive(Debug)]
pub struct WindowsReport {
    pub backend: String,
    pub windows: Vec<WindowInfo>,
    pub error: Option<String>,
    pub permissions_hint: Option<String>,
}

/// What `windows` reports: the backend is Hyprland's where the list is empty, and none
/// where there is no list.
pub fn windows_report(listed: Result<Vec<WindowInfo>, String>) -> (r: WindowsReport)
    ensures
        match listed {
            Ok(windows) => r.backend@ == (if windows@.len() > 0 {
                windows@[0].backend@
            } else {
                HYPRLAND_BACKEND@
            }) && r.windows == windows && r.error is None && r.permissions_hint is None,
            Err(error) => r.backend@ == "unavailable"@ && r.windows@.len() == 0 && r.error == Some(
                error,
            ) && text_of(r.permissions_hint) == permission_hint(error@),
        },
{
    match listed {
        Ok(windows) => {
            let backend = if windows.len() > 0 {
                windows[0].backend.clone()
            } else {
                HYPRLAND_BACKEND.to_owned()
            };
            WindowsReport { backend, windows, error: None, permissions_hint: None }
        },
        Err(error) => {
            let permissions_hint = window_permission_hint(&error);
            WindowsReport {
                backend: "unavailable".to_owned(),
                windows: Vec::new(),
                error: Some(error),
                permissions_hint,
            }
        },
    }
}

/// A command is asked for by its own name, and help by no word at all.
pub proof fn a_command_is_asked_for_by_its_name(word: Seq<char>)
    ensures
        command_named(None) == Some(CliCommand::Help),
        word == "mcp"@ ==> command_named(Some(word)) == Some(CliCommand::Mcp),
        word == "doctor"@ ==> command_named(Some(word)) == Some(CliCommand::Doctor),
        word == "setup"@ ==> command_named(Some(word)) == Some(CliCommand::Setup),
        word == "apps"@ ==> command_named(Some(word)) == Some(CliCommand::Apps),
        word == "state"@ ==> command_named(Some(word)) == Some(CliCommand::State),
        word == "abs-test"@ ==> command_named(Some(word)) == Some(CliCommand::AbsTest),
        word == "screenshot"@ ==> command_named(Some(word)) == Some(CliCommand::Screenshot),
        word == "windows"@ ==> command_named(Some(word)) == Some(CliCommand::Windows),
        word == "--help"@ || word == "-h"@ ==> command_named(Some(word)) == Some(CliCommand::Help),
        command_named(Some(word)) is Some ==> word == "mcp"@ || word == "doctor"@ || word
            == "setup"@ || word == "apps"@ || word == "state"@ || word == "abs-test"@ || word
            == "screenshot"@ || word == "windows"@ || word == "--help"@ || word == "-h"@,
{
    reveal_strlit("mcp");
    reveal_strlit("doctor");
    reveal_strlit("setup");
    reveal_strlit("apps");
    reveal_strlit("state");
    reveal_strlit("abs-test");
    reveal_strlit("screenshot");
    reveal_strlit("windows");
    reveal_strlit("--help");
    reveal_strlit("-h");
    assert("mcp"@.len() == 3 && "doctor"@.len() == 6 && "setup"@.len() == 5 && "apps"@.len() == 4);
    assert("state"@.len() == 5 && "abs-test"@.len() == 8 && "screenshot"@.len() == 10);
    assert("windows"@.len() == 7 && "--help"@.len() == 6 && "-h"@.len() == 2);
    assert("doctor"@[0] == 'd' && "--help"@[0] == '-');
    assert("setup"@[1] == 'e' && "state"@[1] == 't');
}

/// A coordinate on the command line is the number it writes, and zero where none is given.
pub proof fn a_coordinate_is_the_number_it_writes(n: i32)
    ensures
        coordinate(Some(decimal(n as int))) == n,
        coordinate(None) == 0,
{
    decimal_reads_back(n as int, i32::MIN as int, i32::MAX as int);
}

} // verus!
