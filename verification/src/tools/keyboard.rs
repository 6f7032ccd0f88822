//! `press_key` and `type_text`: what is sent, and what is said of it.

use vstd::prelude::*;
use vstd::string::StringExecFns;
use crate::input::{KeyboardCommandBackend, KEY_SEQUENCE_DELAY_MS};
use crate::gate::{focus_refusal, focus_target_for_input, satisfies};
use crate::keys::{
    a_single_name_strikes_its_key_alone, chord, chord_events, event_text, event_texts, filled_parts,
    key_chord, key_code, key_sequence, keys_meant, modifier_code, press_key_sequence,
    ydotool_key_args,
};
use crate::notes::{
    action_failure, action_result, action_success, focus_words, says, with_focus_context,
    with_notes, ActionOutput,
};
use crate::numerals::{decimal, decimal_of};
use crate::params::{PressKeyParams, TypeTextParams};
use crate::text::{
    borrowed, cat, debug_of, debug_text, is_blank, join, joined, text_of, texts, trim,
};
use crate::tools::click::adds_notes;
use crate::windowing::types::{WindowBounds, WindowFocusResult, WindowTarget};

verus! {

/// What is said of a key nothing stands for.
pub open spec fn unknown_key(key: Seq<char>) -> Seq<char> {
    "Unsupported key "@ + debug_text(key)
        + ". Use names like Enter, Escape, Tab, ArrowLeft, Super, Ctrl+L, or a single US keyboard letter/digit."@
}

/// The `ydotool` arguments for one key or chord, or what is said of one there is none for.
/// A chord holds its modifiers down across the key press; a bare key does not, and ydotool
/// needs to be told which shape this is.
pub fn key_args(key: &str) -> (r: Result<Vec<String>, String>)
    ensures
        match chord(key@) {
            None => r is Err && r->Err_0@ == unknown_key(key@),
            Some((held, struck)) => r is Ok && texts(r->Ok_0@) == (if held.len() > 0 {
                seq!["key"@, "-d"@, "100"@]
            } else {
                seq!["key"@]
            }) + event_texts(chord_events(held, struck)),
        },
{
    match (key_sequence(key), key_chord(key)) {
        (Some(events), Some((held, _))) => Ok(ydotool_key_args(&events, held.len() > 0)),
        _ => {
            let mut message = cat("Unsupported key ", &debug_of(key));
            message.append(
                ". Use names like Enter, Escape, Tab, ArrowLeft, Super, Ctrl+L, or a single US keyboard letter/digit.",
            );
            Err(message)
        },
    }
}

/// What is said of input that went out after a window was focused.
pub open spec fn focused_words(message: Seq<char>, focus: Option<WindowFocusResult>) -> Seq<char> {
    match focus {
        Some(focus) => focus_words(message, focus),
        None => message,
    }
}

/// The result of input, with what is known of the focus it had.
pub fn action_result_with_focus(
    action: &str,
    result: Result<(), String>,
    focus: Option<&WindowFocusResult>,
) -> (r: ActionOutput)
    ensures
        match result {
            Ok(_) => says(
                r,
                action@,
                true,
                focused_words("Action sent through ydotool."@, crate::cache::deref(focus)),
            ),
            Err(message) => says(r, action@, false, message@),
        },
{
    with_focus_context(action_result(action, result), focus)
}

/// What follows one key of a sequence.
#[derive(Debug)]
pub enum PressStep {
    /// The key at this position is sent, after a wait of so many milliseconds.
    Press { index: usize, wait_ms: u64 },
    /// A key failed, and no other is sent.
    Failed(ActionOutput),
    /// Every key was sent, and notes on where they landed are due.
    Sent(ActionOutput),
}

/// Whether an answer is another one with a message of its own.
pub open spec fn retells(after: ActionOutput, before: ActionOutput, message: Seq<char>) -> bool {
    after.ok == before.ok && after.implemented == before.implemented && after.action
        == before.action && after.message@ == message
}

/// Whether a step is what follows the key at a position: the keys go out in order, none
/// after one that failed, and what is said counts them where there are several.
pub open spec fn follows_key(
    keys: Seq<Seq<char>>,
    index: int,
    output: ActionOutput,
    step: PressStep,
) -> bool {
    let several = keys.len() > 1;
    if !output.ok {
        step is Failed && retells(
            step->Failed_0,
            output,
            if several {
                "Key "@ + decimal(index + 1) + "/"@ + decimal(keys.len() as int) + " ("@
                    + keys[index] + ") failed: "@ + output.message@
            } else {
                output.message@
            },
        )
    } else if index + 1 < keys.len() {
        step is Press && step->index == index + 1 && step->wait_ms == KEY_SEQUENCE_DELAY_MS
    } else {
        step is Sent && retells(
            step->Sent_0,
            output,
            if several {
                "Sent "@ + decimal(keys.len() as int) + " keys ("@ + join(keys, ", "@) + "). "@
                    + output.message@
            } else {
                output.message@
            },
        )
    }
}

/// What follows the key at a position.
pub fn press_step(keys: &[String], index: usize, output: ActionOutput) -> (r: PressStep)
    requires
        index < keys@.len(),
    ensures
        follows_key(texts(keys@), index as int, output, r),
{
    let mut output = output;
    let total: usize = keys.len();
    if !output.ok {
        if total > 1 {
            let mut message = cat("Key ", &decimal_of(index as u64 + 1));
            message.append("/");
            message.append(&decimal_of(keys.len() as u64));
            message.append(" (");
            message.append(&keys[index]);
            message.append(") failed: ");
            message.append(&output.message);
            output.message = message;
        }
        return PressStep::Failed(output);
    }
    if index + 1 < total {
        return PressStep::Press { index: index + 1, wait_ms: KEY_SEQUENCE_DELAY_MS };
    }
    if keys.len() > 1 {
        let mut message = cat("Sent ", &decimal_of(keys.len() as u64));
        message.append(" keys (");
        message.append(&joined(keys, ", "));
        message.append("). ");
        message.append(&output.message);
        output.message = message;
    }
    PressStep::Sent(output)
}

/// A failed key ends its sequence: nothing is sent after it, and the answer is a failure.
pub proof fn no_key_follows_a_failed_one(
    keys: Seq<Seq<char>>,
    index: int,
    output: ActionOutput,
    step: PressStep,
)
    requires
        follows_key(keys, index, output, step),
        !output.ok,
    ensures
        step is Failed,
        !step->Failed_0.ok,
{
}

/// What is said of typed text: wtype is named where it did it, and ydotool and the focus
/// else.
pub fn type_text_output(
    lane: KeyboardCommandBackend,
    result: Result<(), String>,
    focus: Option<&WindowFocusResult>,
) -> (r: ActionOutput)
    ensures
        match result {
            Ok(_) => says(
                r,
                "type_text"@,
                true,
                if lane is Wtype {
                    "Action sent through wtype (Wayland virtual-keyboard protocol)."@
                } else {
                    focused_words("Action sent through ydotool."@, crate::cache::deref(focus))
                },
            ),
            Err(message) => says(r, "type_text"@, false, message@),
        },
{
    match (lane, &result) {
        (KeyboardCommandBackend::Wtype, Ok(_)) => action_success(
            "type_text",
            "Action sent through wtype (Wayland virtual-keyboard protocol).".to_owned(),
        ),
        _ => action_result_with_focus("type_text", result, focus),
    }
}

/// The bounds of the window that input landed in: the one in focus, or else the one asked
/// for.
pub open spec fn landed_bounds(focus: WindowFocusResult) -> Option<WindowBounds> {
    match focus.focused_window {
        Some(window) => match window.bounds {
            Some(bounds) => Some(bounds),
            None => focus.requested_window.bounds,
        },
        None => focus.requested_window.bounds,
    }
}

/// The bounds of the window that input landed in.
pub fn landing_bounds(focus: &WindowFocusResult) -> (r: Option<WindowBounds>)
    ensures
        r == landed_bounds(*focus),
{
    match &focus.focused_window {
        Some(window) => match window.bounds {
            Some(bounds) => Some(bounds),
            None => focus.requested_window.bounds,
        },
        None => focus.requested_window.bounds,
    }
}

/// The process input landed in: that of the window in focus, or else of the one asked for.
pub fn landing_pid(focus: &WindowFocusResult) -> (r: Option<u32>)
    ensures
        r == match focus.focused_window {
            Some(window) => match window.pid {
                Some(pid) => Some(pid),
                None => focus.requested_window.pid,
            },
            None => focus.requested_window.pid,
        },
{
    match &focus.focused_window {
        Some(window) => match window.pid {
            Some(pid) => Some(pid),
            None => focus.requested_window.pid,
        },
        None => focus.requested_window.pid,
    }
}

/// The notes there are, in order.
pub open spec fn notes_given(notes: Seq<Option<Seq<char>>>) -> Seq<Seq<char>>
    decreases notes.len(),
{
    if notes.len() == 0 {
        seq![]
    } else {
        match notes.last() {
            Some(note) => notes_given(notes.drop_last()).push(note),
            None => notes_given(notes.drop_last()),
        }
    }
}

/// Notes appended after input landed: off-screen window warning, focused-element feedback,
/// and the states that changed on the element it was for.
pub fn landing_notes(off_screen: Option<String>, feedback: Option<String>, states: Option<String>) -> (r:
    Vec<String>)
    ensures
        texts(r@) == notes_given(
            seq![
                crate::text::text_of(off_screen),
                crate::text::text_of(feedback),
                crate::text::text_of(states),
            ],
        ),
{
    broadcast use crate::text::texts_push;

    proof {
        reveal_with_fuel(notes_given, 4);
        let all = seq![
            crate::text::text_of(off_screen),
            crate::text::text_of(feedback),
            crate::text::text_of(states),
        ];
        assert(all.drop_last() =~= seq![all[0], all[1]]);
        assert(all.drop_last().drop_last() =~= seq![all[0]]);
        assert(all.drop_last().drop_last().drop_last() =~= seq![]);
    }
    let mut notes: Vec<String> = Vec::new();
    assert(texts(notes@) =~= seq![]);
    if let Some(note) = off_screen {
        notes.push(note);
    }
    if let Some(note) = feedback {
        notes.push(note);
    }
    if let Some(note) = states {
        notes.push(note);
    }
    notes
}

/// The next thing `press_key` does.
#[derive(Debug)]
pub enum KeyTask {
    /// Ask the allowlist about this window, or about the focused one.
    Gate(Option<WindowTarget>),
    /// Focus this window.
    Focus { target: WindowTarget, keys: Vec<String> },
    /// Send the key at a position with these arguments, after so many milliseconds.
    Press {
        keys: Vec<String>,
        index: usize,
        args: Vec<String>,
        wait_ms: u64,
        focus: Option<WindowFocusResult>,
    },
    /// Look where the keys landed.
    Look { output: ActionOutput, focus: Option<WindowFocusResult> },
    /// Nothing: this is the answer.
    Done(ActionOutput),
}

/// What came of a task.
#[derive(Debug)]
pub enum KeyReport {
    Gate(Result<(), String>),
    Focus(Result<WindowFocusResult, String>),
    Sent(Result<(), String>),
    Looked(Vec<String>),
}

/// Whether a task has the key it is about.
pub open spec fn has_keys(task: KeyTask) -> bool {
    match task {
        KeyTask::Focus { keys, .. } => keys@.len() > 0,
        KeyTask::Press { keys, index, .. } => index < keys@.len(),
        _ => true,
    }
}

/// Whether a report is one of a task.
pub open spec fn reports_key(task: KeyTask, report: KeyReport) -> bool {
    match task {
        KeyTask::Gate(_) => report is Gate,
        KeyTask::Focus { .. } => report is Focus,
        KeyTask::Press { .. } => report is Sent,
        KeyTask::Look { .. } => report is Looked,
        KeyTask::Done(_) => false,
    }
}

/// Whether a task is one of a request: the allowlist is asked about the window that the
/// request names, that window is the one that is focused, and the keys are those that the
/// request means.
pub open spec fn is_of_keys(task: KeyTask, params: PressKeyParams) -> bool {
    let meant = keys_meant(text_of(params.key), texts(params.keys@));
    match task {
        KeyTask::Gate(asked) => asked == params.target.target().window_named(),
        KeyTask::Focus { target, keys } => Some(target) == params.target.target().window_named()
            && meant == Ok::<Seq<Seq<char>>, Seq<char>>(texts(keys@)),
        KeyTask::Press { keys, .. } => meant == Ok::<Seq<Seq<char>>, Seq<char>>(texts(keys@)),
        _ => true,
    }
}

/// The first thing `press_key` does: ask the allowlist.
pub fn start_press_key(params: &PressKeyParams) -> (r: KeyTask)
    ensures
        r == KeyTask::Gate(params.target.target().window_named()),
        is_of_keys(r, *params),
        has_keys(r),
{
    KeyTask::Gate(params.window_target().named_window())
}

/// Whether an answer is that `press_key` failed.
pub open spec fn fails_key(task: KeyTask, message: Seq<char>) -> bool {
    task is Done && says(task->Done_0, "press_key"@, false, message)
}

/// What is said of a key of a sequence that failed.
pub open spec fn key_failure(keys: Seq<Seq<char>>, index: int, message: Seq<char>) -> Seq<char> {
    if keys.len() > 1 {
        "Key "@ + decimal(index + 1) + "/"@ + decimal(keys.len() as int) + " ("@ + keys[index]
            + ") failed: "@ + message
    } else {
        message
    }
}

/// What is said of keys that were all sent.
pub open spec fn keys_sent(keys: Seq<Seq<char>>, message: Seq<char>) -> Seq<char> {
    if keys.len() > 1 {
        "Sent "@ + decimal(keys.len() as int) + " keys ("@ + join(keys, ", "@) + "). "@ + message
    } else {
        message
    }
}

/// Whether a task sends the key at a position, or answers that nothing stands for it.
pub open spec fn sends_key(
    task: KeyTask,
    keys: Seq<Seq<char>>,
    index: int,
    wait_ms: u64,
    focus: Option<WindowFocusResult>,
) -> bool {
    match chord(keys[index]) {
        None => fails_key(task, key_failure(keys, index, unknown_key(keys[index]))),
        Some((held, struck)) => {
            &&& task is Press
            &&& texts(task->Press_keys@) == keys
            &&& task->index == index
            &&& index < keys.len()
            &&& texts(task->args@) == (if held.len() > 0 {
                seq!["key"@, "-d"@, "100"@]
            } else {
                seq!["key"@]
            }) + event_texts(chord_events(held, struck))
            &&& task->wait_ms == wait_ms
            &&& task->Press_focus == focus
        },
    }
}

/// Whether the next task is what follows one, by what came of it.
pub open spec fn press_key_follows(
    params: PressKeyParams,
    task: KeyTask,
    report: KeyReport,
    next: KeyTask,
) -> bool {
    match (task, report) {
        (KeyTask::Gate(_), KeyReport::Gate(outcome)) => match outcome {
            Err(message) => fails_key(next, message@),
            Ok(_) => match keys_meant(text_of(params.key), texts(params.keys@)) {
                Err(message) => fails_key(next, message),
                Ok(keys) => if params.target.target().names_window() {
                    next is Focus && next->target == params.target.target() && texts(
                        next->Focus_keys@,
                    ) == keys
                } else {
                    sends_key(next, keys, 0, 0, None)
                },
            },
        },
        (KeyTask::Focus { target, keys }, KeyReport::Focus(focus)) => match focus_refusal(
            target,
            focus,
        ) {
            Some(message) => fails_key(next, message),
            None => sends_key(next, texts(keys@), 0, 0, Some(focus->Ok_0)),
        },
        (KeyTask::Press { keys, index, focus, .. }, KeyReport::Sent(outcome)) => match outcome {
            Err(message) => fails_key(next, key_failure(texts(keys@), index as int, message@)),
            Ok(_) => if index + 1 < keys@.len() {
                sends_key(next, texts(keys@), index + 1, KEY_SEQUENCE_DELAY_MS, focus)
            } else {
                &&& next is Look
                &&& next->Look_focus == focus
                &&& says(
                    next->output,
                    "press_key"@,
                    true,
                    keys_sent(
                        texts(keys@),
                        focused_words("Action sent through ydotool."@, focus),
                    ),
                )
            },
        },
        (KeyTask::Look { output, .. }, KeyReport::Looked(seen)) => next is Done && adds_notes(
            next->Done_0,
            output,
            texts(seen@),
        ),
        _ => true,
    }
}

fn failed_key(message: String) -> (r: KeyTask)
    ensures
        fails_key(r, message@),
{
    KeyTask::Done(action_failure("press_key", message))
}

fn send_key(keys: Vec<String>, index: usize, wait_ms: u64, focus: Option<WindowFocusResult>) -> (r:
    KeyTask)
    requires
        index < keys@.len(),
    ensures
        sends_key(r, texts(keys@), index as int, wait_ms, focus),
        has_keys(r),
{
    assert(texts(keys@)[index as int] == keys@[index as int]@);
    match key_args(&keys[index]) {
        Ok(args) => KeyTask::Press { keys, index, args, wait_ms, focus },
        Err(message) => match press_step(&keys, index, action_failure("press_key", message)) {
            PressStep::Failed(output) => KeyTask::Done(output),
            PressStep::Press { .. } => failed_key(String::new()),
            PressStep::Sent(output) => KeyTask::Done(output),
        },
    }
}

/// What `press_key` does next, by what came of the last: the allowlist first, then the focus of
/// the window that is named, then the keys one by one, and at last a look where they landed.
pub fn press_key(params: &PressKeyParams, task: KeyTask, report: KeyReport) -> (r: KeyTask)
    requires
        reports_key(task, report),
        has_keys(task),
        is_of_keys(task, *params),
    ensures
        press_key_follows(*params, task, report, r),
        has_keys(r),
        is_of_keys(r, *params),
{
    match (task, report) {
        (KeyTask::Gate(_), KeyReport::Gate(outcome)) => {
            match outcome {
                Err(message) => return failed_key(message),
                Ok(_) => {},
            }
            let keys = match press_key_sequence(borrowed(&params.key), &params.keys) {
                Ok(keys) => keys,
                Err(message) => return failed_key(message),
            };
            assert(texts(keys@).len() == keys@.len());
            let target = params.window_target();
            if target.has_target() {
                KeyTask::Focus { target, keys }
            } else {
                send_key(keys, 0, 0, None)
            }
        },
        (KeyTask::Focus { target, keys }, KeyReport::Focus(focus)) => match focus_target_for_input(
            &target,
            focus,
        ) {
            Err(message) => failed_key(message),
            Ok(focus) => send_key(keys, 0, 0, Some(focus)),
        },
        (KeyTask::Press { keys, index, focus, .. }, KeyReport::Sent(outcome)) => {
            let output = match &focus {
                Some(focus) => action_result_with_focus("press_key", outcome, Some(focus)),
                None => action_result_with_focus("press_key", outcome, None),
            };
            match press_step(&keys, index, output) {
                PressStep::Failed(output) => KeyTask::Done(output),
                PressStep::Press { index, wait_ms } => send_key(keys, index, wait_ms, focus),
                PressStep::Sent(output) => KeyTask::Look { output, focus },
            }
        },
        (KeyTask::Look { output, .. }, KeyReport::Looked(seen)) => KeyTask::Done(
            with_notes(output, &seen),
        ),
        (task, _) => task,
    }
}

/// No key goes out before the allowlist has let its window pass and the window that is named
/// holds the focus it asks for, the window that is focused is the one the allowlist was asked
/// about, and no keys go out but those that the request means.
pub proof fn keys_are_gated_and_focused(
    params: PressKeyParams,
    task: KeyTask,
    report: KeyReport,
    next: KeyTask,
)
    requires
        reports_key(task, report),
        is_of_keys(task, params),
        press_key_follows(params, task, report, next),
    ensures
        is_of_keys(next, params),
        next is Focus ==> task->Gate_0 == Some(next->target),
        task is Gate && next is Press ==> task->Gate_0 is None,
        task is Gate && report->Gate_0 is Err ==> next is Done && !next->Done_0.ok,
        task is Gate && next is Press ==> report->Gate_0 is Ok
            && !params.target.target().names_window(),
        next is Focus ==> task is Gate && next->target == params.target.target(),
        task is Focus && next is Press ==> report->Focus_0 is Ok && satisfies(
            report->Focus_0->Ok_0,
            task->target,
        ),
{
}

/// The next thing `type_text` does.
#[derive(Debug)]
pub enum TypeTask {
    /// Ask the allowlist about this window, or about the focused one.
    Gate(Option<WindowTarget>),
    /// Focus this window.
    Focus(WindowTarget),
    /// Type this text.
    Type { text: String, focus: Option<WindowFocusResult> },
    /// Look where the text landed.
    Look { output: ActionOutput, focus: Option<WindowFocusResult> },
    /// Nothing: this is the answer.
    Done(ActionOutput),
}

/// What came of a task.
#[derive(Debug)]
pub enum TypeReport {
    Gate(Result<(), String>),
    Focus(Result<WindowFocusResult, String>),
    /// The lane the text went through, and what came of it.
    Typed(KeyboardCommandBackend, Result<(), String>),
    Looked(Vec<String>),
}

/// Whether a report is one of a task.
pub open spec fn reports_typing(task: TypeTask, report: TypeReport) -> bool {
    match task {
        TypeTask::Gate(_) => report is Gate,
        TypeTask::Focus(_) => report is Focus,
        TypeTask::Type { .. } => report is Typed,
        TypeTask::Look { .. } => report is Looked,
        TypeTask::Done(_) => false,
    }
}

/// Whether a task is one of a request: the allowlist is asked about the window that the
/// request names, that window is the one that is focused, and the text is the request's.
pub open spec fn is_of_typing(task: TypeTask, params: TypeTextParams) -> bool {
    match task {
        TypeTask::Gate(asked) => asked == params.target.target().window_named(),
        TypeTask::Focus(target) => Some(target) == params.target.target().window_named(),
        TypeTask::Type { text, .. } => text == params.text,
        _ => true,
    }
}

/// The first thing `type_text` does: ask the allowlist.
pub fn start_type_text(params: &TypeTextParams) -> (r: TypeTask)
    ensures
        r == TypeTask::Gate(params.target.target().window_named()),
        is_of_typing(r, *params),
{
    TypeTask::Gate(params.window_target().named_window())
}

/// Whether an answer is that `type_text` failed.
pub open spec fn fails_typing(task: TypeTask, message: Seq<char>) -> bool {
    task is Done && says(task->Done_0, "type_text"@, false, message)
}

/// Whether the next task is what follows one, by what came of it.
pub open spec fn type_text_follows(
    params: TypeTextParams,
    task: TypeTask,
    report: TypeReport,
    next: TypeTask,
) -> bool {
    match (task, report) {
        (TypeTask::Gate(_), TypeReport::Gate(outcome)) => match outcome {
            Err(message) => fails_typing(next, message@),
            Ok(_) => if params.target.target().names_window() {
                next == TypeTask::Focus(params.target.target())
            } else {
                next == (TypeTask::Type { text: params.text, focus: None })
            },
        },
        (TypeTask::Focus(target), TypeReport::Focus(focus)) => match focus_refusal(target, focus) {
            Some(message) => fails_typing(next, message),
            None => next == (TypeTask::Type { text: params.text, focus: Some(focus->Ok_0) }),
        },
        (TypeTask::Type { focus, .. }, TypeReport::Typed(lane, outcome)) => match outcome {
            Err(message) => fails_typing(next, message@),
            Ok(_) => next is Look && next->Look_focus == focus && says(
                next->output,
                "type_text"@,
                true,
                if lane is Wtype {
                    "Action sent through wtype (Wayland virtual-keyboard protocol)."@
                } else {
                    focused_words("Action sent through ydotool."@, focus)
                },
            ),
        },
        (TypeTask::Look { output, .. }, TypeReport::Looked(seen)) => next is Done && adds_notes(
            next->Done_0,
            output,
            texts(seen@),
        ),
        _ => true,
    }
}

fn failed_typing(message: String) -> (r: TypeTask)
    ensures
        fails_typing(r, message@),
{
    TypeTask::Done(action_failure("type_text", message))
}

/// What `type_text` does next, by what came of the last: the allowlist first, then the focus of
/// the window that is named, then the text, and at last a look where it landed.
pub fn type_text(params: &TypeTextParams, task: TypeTask, report: TypeReport) -> (r: TypeTask)
    requires
        reports_typing(task, report),
        is_of_typing(task, *params),
    ensures
        type_text_follows(*params, task, report, r),
        is_of_typing(r, *params),
{
    match (task, report) {
        (TypeTask::Gate(_), TypeReport::Gate(outcome)) => match outcome {
            Err(message) => failed_typing(message),
            Ok(_) => {
                let target = params.window_target();
                if target.has_target() {
                    TypeTask::Focus(target)
                } else {
                    TypeTask::Type { text: params.text.clone(), focus: None }
                }
            },
        },
        (TypeTask::Focus(target), TypeReport::Focus(focus)) => match focus_target_for_input(
            &target,
            focus,
        ) {
            Err(message) => failed_typing(message),
            Ok(focus) => TypeTask::Type { text: params.text.clone(), focus: Some(focus) },
        },
        (TypeTask::Type { focus, .. }, TypeReport::Typed(lane, outcome)) => {
            let output = match &focus {
                Some(focus) => type_text_output(lane, outcome, Some(focus)),
                None => type_text_output(lane, outcome, None),
            };
            if output.ok {
                TypeTask::Look { output, focus }
            } else {
                TypeTask::Done(output)
            }
        },
        (TypeTask::Look { output, .. }, TypeReport::Looked(seen)) => TypeTask::Done(
            with_notes(output, &seen),
        ),
        (task, _) => task,
    }
}

/// No text goes out before the allowlist has let its window pass and the window that is named
/// holds the focus it asks for, the window that is focused is the one the allowlist was asked
/// about, and no text goes out but the request's own.
pub proof fn typing_is_gated_and_focused(
    params: TypeTextParams,
    task: TypeTask,
    report: TypeReport,
    next: TypeTask,
)
    requires
        reports_typing(task, report),
        is_of_typing(task, params),
        type_text_follows(params, task, report, next),
    ensures
        is_of_typing(next, params),
        next is Focus ==> task->Gate_0 == Some(next->Focus_0),
        task is Gate && next is Type ==> task->Gate_0 is None,
        next is Type ==> next->text == params.text,
        task is Gate && report->Gate_0 is Err ==> next is Done && !next->Done_0.ok,
        next is Type ==> task is Gate || task is Focus,
        task is Gate && next is Type ==> report->Gate_0 is Ok
            && !params.target.target().names_window(),
        next is Focus ==> task is Gate && next->Focus_0 == params.target.target(),
        task is Focus && next is Type ==> report->Focus_0 is Ok && satisfies(
            report->Focus_0->Ok_0,
            task->Focus_0,
        ),
{
}

/// What `press_key` sends is the one key that is passed, or the several in their order, blank
/// ones left out; to pass both, or neither, is refused.
pub proof fn the_keys_sent_are_those_passed(key: Option<Seq<char>>, keys: Seq<Seq<char>>)
    ensures
        key is Some && !is_blank(key->0) && keys.len() == 0 ==> keys_meant(key, keys) == Ok::<
            Seq<Seq<char>>,
            Seq<char>,
        >(seq![trim(key->0)]),
        key is Some && !is_blank(key->0) && filled_parts(keys).len() > 0 ==> keys_meant(key, keys)
            is Err,
        (key is None || is_blank(key->0)) && filled_parts(keys).len() > 0 ==> keys_meant(key, keys)
            == Ok::<Seq<Seq<char>>, Seq<char>>(filled_parts(keys)),
        (key is None || is_blank(key->0)) && keys.len() == 0 ==> keys_meant(key, keys) is Err,
{
}

/// One key that has a code goes out as its press and its release, and nothing else: once the
/// allowlist lets it, where no window is named, or once the window has the focus.
pub proof fn a_key_goes_out_as_its_press_and_release(
    task: KeyTask,
    keys: Seq<Seq<char>>,
    index: int,
    wait_ms: u64,
    focus: Option<WindowFocusResult>,
)
    requires
        sends_key(task, keys, index, wait_ms, focus),
        0 <= index < keys.len(),
        forall|i: int| 0 <= i < keys[index].len() ==> #[trigger] keys[index][i] != '+',
        key_code(keys[index]) is Some,
        modifier_code(keys[index]) is None,
    ensures
        task is Press,
        texts(task->args@) == seq![
            "key"@,
            decimal(key_code(keys[index])->0 as int) + ":1"@,
            decimal(key_code(keys[index])->0 as int) + ":0"@,
        ],
{
    a_single_name_strikes_its_key_alone(keys[index]);
    let code = key_code(keys[index])->0;
    let events = chord_events(Seq::<u16>::empty(), code);
    assert(events =~= seq![(code, true), (code, false)]);
    assert(event_texts(events) =~= seq![event_text((code, true)), event_text((code, false))]);
    assert(texts(task->args@) =~= seq![
        "key"@,
        event_text((code, true)),
        event_text((code, false)),
    ]);
}

/// A key held down around another goes out before its press and comes up after its release.
pub proof fn a_chord_goes_out_around_its_key(
    task: KeyTask,
    keys: Seq<Seq<char>>,
    index: int,
    wait_ms: u64,
    focus: Option<WindowFocusResult>,
    held: u16,
    struck: u16,
)
    requires
        sends_key(task, keys, index, wait_ms, focus),
        0 <= index < keys.len(),
        chord(keys[index]) == Some((seq![held], struck)),
    ensures
        task is Press,
        texts(task->args@) == seq![
            "key"@,
            "-d"@,
            "100"@,
            decimal(held as int) + ":1"@,
            decimal(struck as int) + ":1"@,
            decimal(struck as int) + ":0"@,
            decimal(held as int) + ":0"@,
        ],
{
    let events = chord_events(seq![held], struck);
    assert(seq![held].reverse() =~= seq![held]);
    assert(events =~= seq![(held, true), (struck, true), (struck, false), (held, false)]);
    assert(event_texts(events) =~= seq![
        event_text((held, true)),
        event_text((struck, true)),
        event_text((struck, false)),
        event_text((held, false)),
    ]);
    assert(texts(task->args@) =~= seq![
        "key"@,
        "-d"@,
        "100"@,
        event_text((held, true)),
        event_text((struck, true)),
        event_text((struck, false)),
        event_text((held, false)),
    ]);
}

/// The keys go out one by one in their order, from the first to the last, each after the one
/// before it went out; a key that is none, and one that fails, ends them with a failure.
pub proof fn keys_go_out_in_their_order(
    params: PressKeyParams,
    task: KeyTask,
    report: KeyReport,
    next: KeyTask,
)
    requires
        reports_key(task, report),
        has_keys(task),
        press_key_follows(params, task, report, next),
    ensures
        (task is Gate || task is Focus) && next is Press ==> next->index == 0,
        task is Press && next is Press ==> report->Sent_0 is Ok && next->index == task->index + 1
            && texts(next->Press_keys@) == texts(task->Press_keys@),
        task is Press && next is Look ==> report->Sent_0 is Ok && task->index + 1
            == task->Press_keys@.len() && next->output.ok,
        task is Press && report->Sent_0 is Err ==> next is Done && !next->Done_0.ok,
        next is Press ==> chord(texts(next->Press_keys@)[next->index as int]) is Some,
        task is Press && next is Done ==> !next->Done_0.ok,
{
}

/// What is typed is the request's own text, letter for letter, once; and it is said to have
/// gone out exactly where it did.
pub proof fn what_is_typed_is_the_text(
    params: TypeTextParams,
    task: TypeTask,
    report: TypeReport,
    next: TypeTask,
)
    requires
        reports_typing(task, report),
        type_text_follows(params, task, report, next),
    ensures
        next is Type ==> next->text@ == params.text@ && !(task is Type),
        task is Type ==> (next is Look <==> report->Typed_1 is Ok) && (next is Done
            <==> report->Typed_1 is Err),
        task is Type && next is Done ==> !next->Done_0.ok,
        task is Look ==> next is Done && next->Done_0.ok == task->output.ok,
{
}

/// Notes stand in their order, and those there are none of are left out.
pub proof fn notes_stand_in_their_order(a: Option<Seq<char>>, b: Option<Seq<char>>)
    ensures
        a is Some && b is Some ==> notes_given(seq![a, b]) == seq![a->0, b->0],
        a is Some && b is None ==> notes_given(seq![a, b]) == seq![a->0],
        a is None && b is Some ==> notes_given(seq![a, b]) == seq![b->0],
        a is None && b is None ==> notes_given(seq![a, b]).len() == 0,
{
    reveal_with_fuel(notes_given, 3);
    assert(seq![a, b].drop_last() =~= seq![a]);
    assert(seq![a].drop_last() =~= Seq::empty());
    assert(notes_given(seq![a, b]) =~= notes_given(seq![a]) + (if b is Some {
        seq![b->0]
    } else {
        seq![]
    }));
}

} // verus!
