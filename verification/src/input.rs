//! The commands that carry input: what is run, in which order, and what came of it.

use vstd::prelude::*;
use vstd::string::StringExecFns;
use crate::cache::ScrollDirection;
use crate::command::CommandOutput;
use crate::notes::{action_failure, says, ActionOutput};
use crate::numerals::{decimal, digit_char, signed_decimal_of};
use crate::text::{
    blank, cat, chars_of, equal_ignoring_case, is_blank, is_filled, join, joined, lower, lowered,
    same, same_ignoring_case, texts, trim, trimmed,
};

verus! {

/// How long a command that carries input may run, in seconds.
pub const INPUT_COMMAND_TIMEOUT_SECONDS: u64 = 10;

/// How many characters a second ydotool is given for typing.
pub const YDOTOOL_TYPE_CHARS_PER_SECOND: u64 = 20;

/// The delay between two commands of a sequence, in milliseconds.
pub const COMMAND_DELAY_MS: u64 = 35;

/// The delay between two keys of a sequence, in milliseconds.
pub const KEY_SEQUENCE_DELAY_MS: u64 = 60;

/// `ydotool` arguments that take the pointer to a point.
pub open spec fn mousemove(x: i32, y: i32) -> Seq<Seq<char>> {
    seq!["mousemove"@, "--absolute"@, "--"@, decimal(x as int), decimal(y as int)]
}

/// `ydotool` arguments that take the pointer to a point.
pub fn absolute_mousemove_args(x: i32, y: i32) -> (r: Vec<String>)
    ensures
        texts(r@) == mousemove(x, y),
{
    let r = vec![
        "mousemove".to_owned(),
        "--absolute".to_owned(),
        "--".to_owned(),
        signed_decimal_of(x as i64),
        signed_decimal_of(y as i64),
    ];
    assert(texts(r@) =~= mousemove(x, y));
    r
}

/// Map a semantic scroll direction to the `(dx, dy)` pair for
/// `ydotool mousemove --wheel`, which emits `dx` as `REL_HWHEEL` and `dy` as
/// `REL_WHEEL`. The two evdev axes are not symmetric: positive `REL_WHEEL`
/// is "wheel up" (content scrolls up), while positive `REL_HWHEEL` is "scroll
/// right" (content scrolls right).
pub fn ydotool_wheel_delta(direction: ScrollDirection, units: i32) -> (r: (i32, i32))
    requires
        units > i32::MIN,
    ensures
        r.0 == (match direction {
            ScrollDirection::Right => units as int,
            ScrollDirection::Left => -units,
            _ => 0,
        }),
        r.1 == (match direction {
            ScrollDirection::Up => units as int,
            ScrollDirection::Down => -units,
            _ => 0,
        }),
{
    match direction {
        ScrollDirection::Up => (0, units),
        ScrollDirection::Down => (0, -units),
        ScrollDirection::Left => (-units, 0),
        ScrollDirection::Right => (units, 0),
    }
}

/// `ydotool` arguments that turn the wheels.
pub open spec fn wheel(dx: i32, dy: i32) -> Seq<Seq<char>> {
    seq!["mousemove"@, "--wheel"@, "--"@, decimal(dx as int), decimal(dy as int)]
}

/// `ydotool` arguments that turn the wheels.
pub fn wheel_mousemove_args(dx: i32, dy: i32) -> (r: Vec<String>)
    ensures
        texts(r@) == wheel(dx, dy),
{
    let r = vec![
        "mousemove".to_owned(),
        "--wheel".to_owned(),
        "--".to_owned(),
        signed_decimal_of(dx as i64),
        signed_decimal_of(dy as i64),
    ];
    assert(texts(r@) =~= wheel(dx, dy));
    r
}

/// The code ydotool knows a button by; a name it does not know means the left one.
pub open spec fn ydotool_button(button: Option<Seq<char>>) -> Seq<char> {
    let button = match button {
        Some(button) => lower(button),
        None => "left"@,
    };
    if button == "right"@ {
        "0xC1"@
    } else if button == "middle"@ {
        "0xC2"@
    } else if button == "side"@ {
        "0xC3"@
    } else if button == "extra"@ {
        "0xC4"@
    } else if button == "forward"@ {
        "0xC5"@
    } else if button == "back"@ {
        "0xC6"@
    } else {
        "0xC0"@
    }
}

/// The code ydotool knows a button by.
pub fn mouse_button_code(button: Option<&str>) -> (r: String)
    ensures
        r@ == ydotool_button(crate::elements::str_of(button)),
{
    let button = match button {
        Some(button) => lowered(button),
        None => "left".to_owned(),
    };
    if same(&button, "right") {
        "0xC1".to_owned()
    } else if same(&button, "middle") {
        "0xC2".to_owned()
    } else if same(&button, "side") {
        "0xC3".to_owned()
    } else if same(&button, "extra") {
        "0xC4".to_owned()
    } else if same(&button, "forward") {
        "0xC5".to_owned()
    } else if same(&button, "back") {
        "0xC6".to_owned()
    } else {
        "0xC0".to_owned()
    }
}

/// The arguments of some commands.
pub open spec fn command_texts(commands: Seq<Vec<String>>) -> Seq<Seq<Seq<char>>> {
    commands.map_values(|args: Vec<String>| texts(args@))
}

/// What follows a command of a sequence.
#[derive(Debug)]
pub enum SequenceStep {
    /// The command at this position is run, after a wait of so many milliseconds.
    Run { index: usize, wait_ms: u64 },
    /// The sequence is over.
    Over(Result<(), String>),
}

/// Whether a step is what follows so many commands of a sequence, by how the last went:
/// they are run in order, and none after one that failed.
pub open spec fn follows_in_sequence(
    total: int,
    ran: int,
    last: Result<(), String>,
    step: SequenceStep,
) -> bool {
    match last {
        Err(message) => step == SequenceStep::Over(Err(message)),
        Ok(_) => if ran >= total {
            step == SequenceStep::Over(Ok(()))
        } else {
            step is Run && step->index == ran && step->wait_ms == if ran == 0 {
                0
            } else {
                COMMAND_DELAY_MS
            }
        },
    }
}

/// What follows so many commands of a sequence.
pub fn sequence_step(total: usize, ran: usize, last: Result<(), String>) -> (r: SequenceStep)
    ensures
        follows_in_sequence(total as int, ran as int, last, r),
{
    match last {
        Err(message) => SequenceStep::Over(Err(message)),
        Ok(_) => if ran >= total {
            SequenceStep::Over(Ok(()))
        } else if ran == 0 {
            SequenceStep::Run { index: ran, wait_ms: 0 }
        } else {
            SequenceStep::Run { index: ran, wait_ms: COMMAND_DELAY_MS }
        },
    }
}

/// One stage of a drag through ydotool.
#[derive(Debug, Clone, Copy, PartialEq, Eq, Structural)]
pub enum DragStage {
    /// The pointer goes to the start.
    Approach,
    /// The button goes down.
    Press,
    /// The pointer goes to the end.
    Travel,
    /// The button comes up.
    Release,
}

/// What a stage of a drag runs.
pub open spec fn drag_command(stage: DragStage, start: (i32, i32), end: (i32, i32)) -> Seq<Seq<char>> {
    match stage {
        DragStage::Approach => mousemove(start.0, start.1),
        DragStage::Press => seq!["click"@, "0x40"@],
        DragStage::Travel => mousemove(end.0, end.1),
        DragStage::Release => seq!["click"@, "0x80"@],
    }
}

/// What a stage of a drag runs.
pub fn drag_args(stage: DragStage, start: (i32, i32), end: (i32, i32)) -> (r: Vec<String>)
    ensures
        texts(r@) == drag_command(stage, start, end),
{
    match stage {
        DragStage::Approach => absolute_mousemove_args(start.0, start.1),
        DragStage::Press => {
            let r = vec!["click".to_owned(), "0x40".to_owned()];
            assert(texts(r@) =~= drag_command(stage, start, end));
            r
        },
        DragStage::Travel => absolute_mousemove_args(end.0, end.1),
        DragStage::Release => {
            let r = vec!["click".to_owned(), "0x80".to_owned()];
            assert(texts(r@) =~= drag_command(stage, start, end));
            r
        },
    }
}

/// A drag through ydotool under way: the stage that is next, and what went wrong before.
#[derive(Debug)]
pub struct YdotoolDrag {
    pub stage: DragStage,
    pub error: Option<String>,
}

/// What follows a stage of a drag.
#[derive(Debug)]
pub enum DragStep {
    /// Another stage, after the delay between commands.
    Next(YdotoolDrag),
    /// The drag is over.
    Over(Result<(), String>),
}

/// Whether a step is what follows a stage of a drag, by how that stage went: a drag whose
/// start could not be reached is over, and from the press on the button comes up whatever
/// fails.
pub open spec fn follows_drag(drag: YdotoolDrag, outcome: Result<(), String>, step: DragStep) -> bool {
    match drag.stage {
        DragStage::Approach => match outcome {
            Ok(_) => step == DragStep::Next(YdotoolDrag { stage: DragStage::Press, error: None }),
            Err(error) => step == DragStep::Over(Err(error)),
        },
        DragStage::Press => match outcome {
            Ok(_) => step == DragStep::Next(YdotoolDrag { stage: DragStage::Travel, error: None }),
            Err(error) => step == DragStep::Next(
                YdotoolDrag { stage: DragStage::Release, error: Some(error) },
            ),
        },
        DragStage::Travel => step == DragStep::Next(
            YdotoolDrag {
                stage: DragStage::Release,
                error: match outcome {
                    Ok(_) => None,
                    Err(error) => Some(error),
                },
            },
        ),
        DragStage::Release => match (drag.error, outcome) {
            (None, Ok(_)) => step == DragStep::Over(Ok(())),
            (Some(error), Ok(_)) => step == DragStep::Over(Err(error)),
            (None, Err(error)) => step == DragStep::Over(Err(error)),
            (Some(error), Err(release_error)) => step is Over && step->Over_0 is Err
                && step->Over_0->Err_0@ == error@ + "; ydotool button release also failed: "@
                + release_error@,
        },
    }
}

/// The start of a drag through ydotool.
pub fn start_drag() -> (r: YdotoolDrag)
    ensures
        r == (YdotoolDrag { stage: DragStage::Approach, error: None }),
{
    YdotoolDrag { stage: DragStage::Approach, error: None }
}

/// What follows a stage of a drag.
pub fn drag_step(drag: YdotoolDrag, outcome: Result<(), String>) -> (r: DragStep)
    ensures
        follows_drag(drag, outcome, r),
{
    match drag.stage {
        DragStage::Approach => match outcome {
            Ok(_) => DragStep::Next(YdotoolDrag { stage: DragStage::Press, error: None }),
            Err(error) => DragStep::Over(Err(error)),
        },
        DragStage::Press => match outcome {
            Ok(_) => DragStep::Next(YdotoolDrag { stage: DragStage::Travel, error: None }),
            Err(error) => DragStep::Next(
                YdotoolDrag { stage: DragStage::Release, error: Some(error) },
            ),
        },
        DragStage::Travel => DragStep::Next(
            YdotoolDrag {
                stage: DragStage::Release,
                error: match outcome {
                    Ok(_) => None,
                    Err(error) => Some(error),
                },
            },
        ),
        DragStage::Release => match (drag.error, outcome) {
            (None, Ok(_)) => DragStep::Over(Ok(())),
            (Some(error), Ok(_)) => DragStep::Over(Err(error)),
            (None, Err(error)) => DragStep::Over(Err(error)),
            (Some(error), Err(release_error)) => {
                let mut message = cat(&error, "; ydotool button release also failed: ");
                message.append(&release_error);
                DragStep::Over(Err(message))
            },
        },
    }
}

/// A button that may have gone down is let go: a drag that has got as far as the press is
/// not over before its release has run.
pub proof fn a_pressed_button_is_released(
    drag: YdotoolDrag,
    outcome: Result<(), String>,
    step: DragStep,
)
    requires
        follows_drag(drag, outcome, step),
        drag.stage is Press || drag.stage is Travel,
    ensures
        step is Next,
        step->Next_0.stage is Release || (drag.stage is Press && step->Next_0.stage is Travel),
{
}

/// A drag reports the first thing that went wrong, and succeeds only where nothing did.
pub proof fn a_drag_reports_what_failed(
    drag: YdotoolDrag,
    outcome: Result<(), String>,
    step: DragStep,
)
    requires
        follows_drag(drag, outcome, step),
        drag.stage is Release,
    ensures
        step is Over,
        step->Over_0 is Ok <==> drag.error is None && outcome is Ok,
        drag.error is Some ==> step->Over_0->Err_0@.len() >= drag.error->0@.len()
            && step->Over_0->Err_0@.take(drag.error->0@.len() as int) == drag.error->0@,
{
    if drag.error is Some {
        assert(step->Over_0->Err_0@.take(drag.error->0@.len() as int) =~= drag.error->0@);
    }
}

/// How long typing a text may take, in seconds: a fixed allowance, and time for its
/// characters.
pub fn ydotool_type_timeout(text: &str) -> (r: u64)
    ensures
        r == INPUT_COMMAND_TIMEOUT_SECONDS + (text@.len() + YDOTOOL_TYPE_CHARS_PER_SECOND - 1)
            / (YDOTOOL_TYPE_CHARS_PER_SECOND as int),
{
    let chars = chars_of(text);
    let n: u64 = chars.len() as u64;
    let whole: u64 = n / YDOTOOL_TYPE_CHARS_PER_SECOND;
    if n % YDOTOOL_TYPE_CHARS_PER_SECOND == 0 {
        INPUT_COMMAND_TIMEOUT_SECONDS + whole
    } else {
        INPUT_COMMAND_TIMEOUT_SECONDS + whole + 1
    }
}

/// Why a command failed: its complaint, its output, or its status.
pub open spec fn output_error(command: Seq<char>, output: CommandOutput) -> Seq<char> {
    if output.complaint_or_out().len() == 0 {
        command + " exited with "@ + output.status@
    } else {
        output.complaint_or_out()
    }
}

/// Why a command failed.
pub fn command_output_error(command: &str, output: &CommandOutput) -> (r: String)
    ensures
        r@ == output_error(command@, *output),
{
    let detail = output.message();
    if detail.as_str().is_empty() {
        let mut message = cat(command, " exited with ");
        message.append(&output.status);
        message
    } else {
        detail
    }
}

/// Which keyboard lane produced a result: `wtype` speaks the Wayland
/// virtual-keyboard protocol and is layout-safe for literal text, while
/// ydotool injects raw evdev keycodes and is the fallback.
#[derive(Debug, Clone, Copy, PartialEq, Eq, Structural)]
pub enum KeyboardCommandBackend {
    Wtype,
    Ydotool,
}

/// Whether literal text goes through wtype.
pub fn prefer_wtype_keyboard(
    force_ydotool: bool,
    is_wayland: bool,
    compatible_desktop: bool,
    available: bool,
) -> (r: bool)
    ensures
        r == (!force_ydotool && is_wayland && compatible_desktop && available),
{
    !force_ydotool && is_wayland && compatible_desktop && available
}

/// The lane literal text goes through: ydotool stands in for a wtype that is not there.
pub fn text_lane(prefer_wtype: bool, wtype_available: bool) -> (r: KeyboardCommandBackend)
    ensures
        r == if prefer_wtype && wtype_available {
            KeyboardCommandBackend::Wtype
        } else {
            KeyboardCommandBackend::Ydotool
        },
{
    if prefer_wtype && wtype_available {
        KeyboardCommandBackend::Wtype
    } else {
        KeyboardCommandBackend::Ydotool
    }
}

/// What came of a keyboard command, where it was run: it is not sent a second time through
/// another lane. `cli_error` is what ydotool complained of for all its status of zero.
pub open spec fn lane_outcome(
    lane: KeyboardCommandBackend,
    output: Result<CommandOutput, String>,
    cli_error: Option<String>,
) -> Result<(), Seq<char>> {
    match output {
        Err(error) => Err(error@),
        Ok(output) => match lane {
            KeyboardCommandBackend::Wtype => if output.success {
                Ok(())
            } else {
                Err(output_error("wtype"@, output))
            },
            KeyboardCommandBackend::Ydotool => if !output.success {
                Err(output_error("ydotool"@, output))
            } else if cli_error is Some {
                Err(cli_error->0@)
            } else {
                Ok(())
            },
        },
    }
}

/// What came of a keyboard command.
pub fn lane_result(
    lane: KeyboardCommandBackend,
    output: Result<CommandOutput, String>,
    cli_error: Option<String>,
) -> (r: Result<(), String>)
    ensures
        match lane_outcome(lane, output, cli_error) {
            Ok(_) => r is Ok,
            Err(message) => r is Err && r->Err_0@ == message,
        },
{
    match output {
        Err(error) => Err(error),
        Ok(output) => match lane {
            KeyboardCommandBackend::Wtype => if output.success {
                Ok(())
            } else {
                Err(command_output_error("wtype", &output))
            },
            KeyboardCommandBackend::Ydotool => if !output.success {
                Err(command_output_error("ydotool", &output))
            } else {
                match cli_error {
                    Some(error) => Err(error),
                    None => Ok(()),
                }
            },
        },
    }
}

/// The socket an explicit `YDOTOOL_SOCKET` names, or `None` when the variable
/// is absent or blank.
pub fn explicit_ydotool_socket_from(socket: Option<&str>) -> (r: Option<String>)
    ensures
        r is Some <==> is_filled(crate::elements::str_of(socket)),
        r is Some ==> r->0@ == trim(socket->0@),
{
    match socket {
        Some(socket) => if blank(socket) {
            None
        } else {
            Some(trimmed(socket))
        },
        None => None,
    }
}

/// A name under a directory.
pub open spec fn path_join(dir: Seq<char>, name: Seq<char>) -> Seq<char> {
    if dir.len() == 0 || dir.last() == '/' {
        dir + name
    } else {
        dir + "/"@ + name
    }
}

/// A name under a directory.
pub fn joined_path(dir: &str, name: &str) -> (r: String)
    ensures
        r@ == path_join(dir@, name@),
{
    let chars = chars_of(dir);
    if chars.len() == 0 || chars[chars.len() - 1] == '/' {
        cat(dir, name)
    } else {
        let mut path = cat(dir, "/");
        path.append(name);
        path
    }
}

/// Where ydotool's socket may be: under the runtime directory, which the user's number
/// gives where the environment does not, and then in `/tmp`.
pub open spec fn socket_candidates(runtime_dir: Option<Seq<char>>, uid: Option<Seq<char>>) -> Seq<
    Seq<char>,
> {
    let runtime = match (runtime_dir, uid) {
        (Some(dir), _) => seq![path_join(dir, ".ydotool_socket"@)],
        (None, Some(uid)) => seq![path_join("/run/user/"@ + uid, ".ydotool_socket"@)],
        (None, None) => seq![],
    };
    runtime + seq!["/tmp/.ydotool_socket"@]
}

/// Where ydotool's socket may be.
pub fn fallback_ydotool_socket_candidates(runtime_dir: Option<&str>, uid: Option<&str>) -> (r: Vec<
    String,
>)
    ensures
        texts(r@) == socket_candidates(
            crate::elements::str_of(runtime_dir),
            crate::elements::str_of(uid),
        ),
{
    let mut candidates: Vec<String> = Vec::new();
    match runtime_dir {
        Some(dir) => candidates.push(joined_path(dir, ".ydotool_socket")),
        None => match uid {
            Some(uid) => candidates.push(joined_path(&cat("/run/user/", uid), ".ydotool_socket")),
            None => {},
        },
    }
    candidates.push("/tmp/.ydotool_socket".to_owned());
    assert(texts(candidates@) =~= socket_candidates(
        crate::elements::str_of(runtime_dir),
        crate::elements::str_of(uid),
    ));
    candidates
}

/// The first of some sockets that takes a connection.
pub fn connectable_ydotool_socket_from(candidates: &[String], connects: &[bool]) -> (r: Option<
    String,
>)
    requires
        candidates@.len() == connects@.len(),
    ensures
        match crate::select::first_match(connects@, |b: bool| b) {
            Some(k) => r == Some(candidates@[k]),
            None => r is None,
        },
{
    let takes = |b: &bool| -> (t: bool)
        ensures
            t == *b,
        { *b };
    match crate::select::first_matching(connects, takes, Ghost(|b: bool| b)) {
        Some(k) => Some(candidates[k].clone()),
        None => None,
    }
}

/// Whether a session is a Wayland one: its type says so, or, where it has none, there is a
/// Wayland display.
pub fn session_is_wayland(session_type: Option<&str>, wayland_display: Option<&str>) -> (r: bool)
    ensures
        r == if is_filled(crate::elements::str_of(session_type)) {
            same_ignoring_case(trim(session_type->0@), "wayland"@)
        } else {
            is_filled(crate::elements::str_of(wayland_display))
        },
{
    match session_type {
        Some(value) => if !blank(value) {
            return equal_ignoring_case(&trimmed(value), "wayland");
        },
        None => {},
    }
    match wayland_display {
        Some(value) => !blank(value),
        None => false,
    }
}

/// Whether an environment variable is set to `"1"` (an explicit on switch).
pub fn env_flag_enabled(value: Option<&str>) -> (r: bool)
    ensures
        r == (value is Some && value->0@ == "1"@),
{
    match value {
        Some(value) => same(value, "1"),
        None => false,
    }
}

/// What is said when modifiers could not be held.
pub fn hold_failure(action: &str, error: &str) -> (r: ActionOutput)
    ensures
        says(r, action@, false, "Could not hold the modifiers through ydotool: "@ + error@),
{
    action_failure(action, cat("Could not hold the modifiers through ydotool: ", error))
}

/// What is said of modifiers that were held around an action, by how their release went.
pub open spec fn held_words(modifiers: Seq<Seq<char>>, action: Seq<char>, release: Result<(), String>) -> Seq<
    char,
> {
    match release {
        Ok(_) => "Held modifiers "@ + join(modifiers, "+"@) + " around the "@ + action + "."@,
        Err(error) => "WARNING: modifiers "@ + join(modifiers, "+"@)
            + " may still be held; releasing them failed: "@ + error@,
    }
}

/// What is said of modifiers that were held around an action.
pub fn release_note(modifiers: &[String], action: &str, release: &Result<(), String>) -> (r: String)
    ensures
        r@ == held_words(texts(modifiers@), action@, *release),
{
    match release {
        Ok(_) => {
            let mut note = cat("Held modifiers ", &joined(modifiers, "+"));
            note.append(" around the ");
            note.append(action);
            note.append(".");
            note
        },
        Err(error) => {
            let mut note = cat("WARNING: modifiers ", &joined(modifiers, "+"));
            note.append(" may still be held; releasing them failed: ");
            note.append(error);
            note
        },
    }
}

/// The buttons ydotool knows are numbered on from the left one, and a click is the code of a
/// press and a release together with that number. No name, and a name it does not know, means
/// the left one.
pub proof fn buttons_are_numbered_on_from_the_left_one(button: Seq<char>, i: int)
    requires
        0 <= i < 7,
        lower(button) == seq![
            "left"@,
            "right"@,
            "middle"@,
            "side"@,
            "extra"@,
            "forward"@,
            "back"@,
        ][i],
    ensures
        ydotool_button(Some(button)) == "0xC"@ + decimal(i),
        ydotool_button(None) == "0xC"@ + decimal(0),
{
    buttons_are_spelled_apart();
    reveal_strlit("0xC");
    reveal_strlit("0xC0");
    reveal_strlit("0xC1");
    reveal_strlit("0xC2");
    reveal_strlit("0xC3");
    reveal_strlit("0xC4");
    reveal_strlit("0xC5");
    reveal_strlit("0xC6");
    assert(decimal(i) =~= seq![digit_char(i)]);
    assert(decimal(0) =~= seq!['0']);
    assert("0xC"@ + seq!['0'] =~= "0xC0"@);
    assert("0xC"@ + seq!['1'] =~= "0xC1"@);
    assert("0xC"@ + seq!['2'] =~= "0xC2"@);
    assert("0xC"@ + seq!['3'] =~= "0xC3"@);
    assert("0xC"@ + seq!['4'] =~= "0xC4"@);
    assert("0xC"@ + seq!['5'] =~= "0xC5"@);
    assert("0xC"@ + seq!['6'] =~= "0xC6"@);
}

proof fn buttons_are_spelled_apart()
    ensures
        "left"@.len() == 4 && "left"@[0] == 'l',
        "right"@.len() == 5 && "right"@[0] == 'r',
        "middle"@.len() == 6,
        "side"@.len() == 4 && "side"@[0] == 's',
        "extra"@.len() == 5 && "extra"@[0] == 'e',
        "forward"@.len() == 7,
        "back"@.len() == 4 && "back"@[0] == 'b',
{
    reveal_strlit("left");
    reveal_strlit("right");
    reveal_strlit("middle");
    reveal_strlit("side");
    reveal_strlit("extra");
    reveal_strlit("forward");
    reveal_strlit("back");
}

/// A button name that ydotool does not know means the left one.
pub proof fn an_unknown_button_is_the_left_one(button: Seq<char>)
    requires
        lower(button) != "right"@,
        lower(button) != "middle"@,
        lower(button) != "side"@,
        lower(button) != "extra"@,
        lower(button) != "forward"@,
        lower(button) != "back"@,
    ensures
        ydotool_button(Some(button)) == "0xC0"@,
{
}

/// A drag through ydotool goes to its start, presses the left button there, goes to its end
/// and lets the button go there; each stage leads to the next where it went well.
pub proof fn a_drag_presses_at_its_start_and_lets_go_at_its_end(start: (i32, i32), end: (i32, i32))
    ensures
        drag_command(DragStage::Approach, start, end) == seq![
            "mousemove"@,
            "--absolute"@,
            "--"@,
            decimal(start.0 as int),
            decimal(start.1 as int),
        ],
        drag_command(DragStage::Press, start, end) == seq!["click"@, "0x40"@],
        drag_command(DragStage::Travel, start, end) == seq![
            "mousemove"@,
            "--absolute"@,
            "--"@,
            decimal(end.0 as int),
            decimal(end.1 as int),
        ],
        drag_command(DragStage::Release, start, end) == seq!["click"@, "0x80"@],
        forall|step: DragStep|
            #[trigger] follows_drag(
                YdotoolDrag { stage: DragStage::Approach, error: None },
                Ok(()),
                step,
            ) ==> step is Next && step->Next_0.stage is Press,
        forall|step: DragStep|
            #[trigger] follows_drag(
                YdotoolDrag { stage: DragStage::Press, error: None },
                Ok(()),
                step,
            ) ==> step is Next && step->Next_0.stage is Travel,
        forall|step: DragStep|
            #[trigger] follows_drag(
                YdotoolDrag { stage: DragStage::Travel, error: None },
                Ok(()),
                step,
            ) ==> step is Next && step->Next_0.stage is Release,
{
}

/// A drag whose start was not reached never presses the button, and what failed is what is
/// reported.
pub proof fn a_drag_that_cannot_start_presses_nothing(
    drag: YdotoolDrag,
    error: String,
    step: DragStep,
)
    requires
        drag.stage is Approach,
        follows_drag(drag, Err(error), step),
    ensures
        step is Over,
        step->Over_0 is Err,
        step->Over_0->Err_0@ == error@,
{
}

/// The commands of a sequence are run one after the other from the first to the last, each
/// after the one before it succeeded; one that fails ends the sequence with what it said.
pub proof fn a_sequence_runs_every_command_in_order(
    total: int,
    ran: int,
    last: Result<(), String>,
    step: SequenceStep,
)
    requires
        0 <= ran <= total,
        follows_in_sequence(total, ran, last, step),
    ensures
        step is Run ==> last is Ok && step->index == ran && ran < total,
        step is Over ==> (step->Over_0 is Ok <==> last is Ok) && (last is Ok ==> ran == total),
        last is Err ==> step is Over && step->Over_0->Err_0 == last->Err_0,
        step is Run && ran > 0 ==> step->wait_ms == 35,
{
}

/// A keyboard command did what it was to do exactly where it ran, succeeded and, through
/// ydotool, complained of nothing.
pub proof fn a_keyboard_command_succeeds_only_without_complaint(
    lane: KeyboardCommandBackend,
    output: Result<CommandOutput, String>,
    cli_error: Option<String>,
)
    ensures
        lane_outcome(lane, output, cli_error) is Ok <==> output is Ok && output->Ok_0.success && (
        lane is Ydotool ==> cli_error is None),
        output is Err ==> lane_outcome(lane, output, cli_error)->Err_0 == output->Err_0@,
{
}

/// A name under a directory is the directory's path and the name with one slash between them.
pub proof fn a_path_is_joined_by_one_slash(dir: Seq<char>, name: Seq<char>)
    ensures
        dir.len() > 0 && dir.last() != '/' ==> path_join(dir, name) == dir + seq!['/'] + name
            && path_join(dir, name) == path_join(dir.push('/'), name),
        dir.len() > 0 && dir.last() == '/' ==> path_join(dir, name) == dir + name,
{
    reveal_strlit("/");
    assert("/"@ =~= seq!['/']);
    assert(dir.push('/') + name =~= dir + "/"@ + name);
}

/// ydotool's socket is looked for in the runtime directory first, which is the user's own
/// where the environment names none, and in the shared directory last.
pub proof fn the_runtime_directory_comes_before_the_shared_one(
    runtime_dir: Option<Seq<char>>,
    uid: Option<Seq<char>>,
)
    ensures
        socket_candidates(runtime_dir, uid).last() == "/tmp/.ydotool_socket"@,
        socket_candidates(runtime_dir, uid).len() == if runtime_dir is Some || uid is Some {
            2int
        } else {
            1int
        },
        runtime_dir is Some ==> socket_candidates(runtime_dir, uid)[0] == path_join(
            runtime_dir->0,
            ".ydotool_socket"@,
        ),
        runtime_dir is None && uid is Some ==> socket_candidates(runtime_dir, uid)[0] == path_join(
            "/run/user/"@ + uid->0,
            ".ydotool_socket"@,
        ),
{
}

/// What a failed command is said to have failed by is its complaint, what it printed only
/// where it complained of nothing, and its status only where it printed nothing either.
pub proof fn a_failed_command_is_told_by_its_complaint(command: Seq<char>, output: CommandOutput)
    ensures
        output.complaint().len() > 0 ==> output_error(command, output) == output.complaint(),
        output.complaint().len() == 0 && output.out().len() > 0 ==> output_error(command, output)
            == output.out(),
        output.complaint().len() == 0 && output.out().len() == 0 ==> output_error(command, output)
            == command + " exited with "@ + output.status@,
{
}

/// Text goes through wtype only where it is preferred and there; and it is preferred only in a
/// Wayland session on a desktop that takes it, where it is there and ydotool is not asked for.
pub proof fn text_goes_through_wtype_where_it_can(
    force_ydotool: bool,
    is_wayland: bool,
    compatible_desktop: bool,
    available: bool,
    preferred: bool,
    lane: KeyboardCommandBackend,
)
    requires
        call_ensures(
            prefer_wtype_keyboard,
            (force_ydotool, is_wayland, compatible_desktop, available),
            preferred,
        ),
        call_ensures(text_lane, (preferred, available), lane),
    ensures
        lane is Wtype <==> !force_ydotool && is_wayland && compatible_desktop && available,
        lane is Ydotool <==> !(lane is Wtype),
{
}

/// The wheel turns by so many units along the axis of its direction, and not at all along the
/// other: opposite directions are opposite turns.
pub proof fn opposite_directions_are_opposite_turns(
    units: i32,
    up: (i32, i32),
    down: (i32, i32),
    left: (i32, i32),
    right: (i32, i32),
)
    requires
        units > i32::MIN,
        call_ensures(ydotool_wheel_delta, (ScrollDirection::Up, units), up),
        call_ensures(ydotool_wheel_delta, (ScrollDirection::Down, units), down),
        call_ensures(ydotool_wheel_delta, (ScrollDirection::Left, units), left),
        call_ensures(ydotool_wheel_delta, (ScrollDirection::Right, units), right),
    ensures
        up.0 == 0 && down.0 == 0 && left.1 == 0 && right.1 == 0,
        up.1 == units && right.0 == units,
        down.1 == -up.1 && left.0 == -right.0,
{
}

/// Typing is given ten seconds and one more for each twenty characters begun.
pub proof fn typing_is_given_time_for_its_characters(text: &str, seconds: u64)
    requires
        call_ensures(ydotool_type_timeout, (text,), seconds),
    ensures
        20 * (seconds - 10) >= text@.len(),
        20 * (seconds - 10) < text@.len() + 20,
{
}

/// An explicit socket counts where it is not blank, and without the whitespace around it; a
/// switch is on only at the digit for it; and a session whose type is given is a Wayland one
/// exactly where that says so.
pub proof fn what_the_environment_says_counts(
    socket: Option<&str>,
    named: Option<String>,
    value: Option<&str>,
    on: bool,
    session_type: Option<&str>,
    display: Option<&str>,
    wayland: bool,
)
    requires
        call_ensures(explicit_ydotool_socket_from, (socket,), named),
        call_ensures(env_flag_enabled, (value,), on),
        call_ensures(session_is_wayland, (session_type, display), wayland),
    ensures
        named is Some <==> socket is Some && !is_blank(socket->0@),
        named is Some ==> named->0@ == trim(socket->0@),
        on <==> value is Some && value->0@ == "1"@,
        session_type is Some && !is_blank(session_type->0@) ==> (wayland <==> lower(
            trim(session_type->0@),
        ) == lower("wayland"@)),
        session_type is None ==> (wayland <==> display is Some && !is_blank(display->0@)),
{
}

} // verus!
