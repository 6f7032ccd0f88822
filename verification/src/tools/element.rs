//! `perform_action` and `set_value`: an element, what is asked of it, and what is said.

use vstd::prelude::*;
use vstd::string::StringExecFns;
use crate::cache::{
    an_index_names_an_element_that_has_it, cached_node_is_keyboard_editable, cached_node_states,
    ref_meant, requested_or_primary_action, resolve_object_ref, states_of, takes_keys,
};
use crate::elements::{element_meant, AccessibilityNode, ElementResolvePurpose, ElementSelector};
use crate::notes::{
    action_failure, action_success, element_error_message, says, with_notes, ActionOutput,
    STALE_TREE_MESSAGE,
};
use crate::numerals::{decimal, signed_decimal_of};
use crate::params::{selects, ActionParams, SetValueParams};
use crate::text::{borrowed, cat, contains, includes, is_blank, is_filled, text_of, texts, trim};
use crate::tools::click::adds_notes;
use crate::windowing::types::WindowTarget;

verus! {

/// What an identifier comes to where two may be given.
pub open spec fn either(a: Option<String>, b: Option<String>) -> Option<Seq<char>> {
    match a {
        Some(text) => Some(text@),
        None => text_of(b),
    }
}

fn either_of<'a>(a: &'a Option<String>, b: &'a Option<String>) -> (r: Option<&'a str>)
    ensures
        crate::elements::str_of(r) == either(*a, *b),
{
    match a {
        Some(text) => Some(text.as_str()),
        None => borrowed(b),
    }
}

/// Whether an answer is the reference that was asked for, or the refusal that was due.
pub open spec fn answers_ref(due: Result<Seq<char>, Seq<char>>, r: Result<String, String>) -> bool {
    match due {
        Ok(object_ref) => r is Ok && r->Ok_0@ == object_ref,
        Err(message) => r is Err && r->Err_0@ == message,
    }
}

/// The element `perform_action` is for.
pub fn action_element(nodes: &[AccessibilityNode], params: &ActionParams) -> (r: Result<
    String,
    String,
>)
    ensures
        exists|selector: ElementSelector<'_>|
            selects(selector, params.role, params.name, params.text, params.states@)
                && answers_ref(
                #[trigger] ref_meant(
                    nodes@,
                    params.element_index,
                    either(params.element_identifier, params.object_ref),
                    selector,
                    ElementResolvePurpose::Action,
                ),
                r,
            ),
{
    let selector = params.selector();
    let r = resolve_object_ref(
        nodes,
        params.element_index,
        either_of(&params.element_identifier, &params.object_ref),
        &selector,
        ElementResolvePurpose::Action,
    );
    assert(answers_ref(
        ref_meant(
            nodes@,
            params.element_index,
            either(params.element_identifier, params.object_ref),
            selector,
            ElementResolvePurpose::Action,
        ),
        r,
    ));
    r
}

/// The element `set_value` is for.
pub fn value_element(nodes: &[AccessibilityNode], params: &SetValueParams) -> (r: Result<
    String,
    String,
>)
    ensures
        exists|selector: ElementSelector<'_>|
            selects(selector, params.role, params.name, params.text, params.states@)
                && answers_ref(
                #[trigger] ref_meant(
                    nodes@,
                    params.element_index,
                    either(params.element_identifier, params.object_ref),
                    selector,
                    ElementResolvePurpose::SetValue,
                ),
                r,
            ),
{
    let selector = params.selector();
    let r = resolve_object_ref(
        nodes,
        params.element_index,
        either_of(&params.element_identifier, &params.object_ref),
        &selector,
        ElementResolvePurpose::SetValue,
    );
    assert(answers_ref(
        ref_meant(
            nodes@,
            params.element_index,
            either(params.element_identifier, params.object_ref),
            selector,
            ElementResolvePurpose::SetValue,
        ),
        r,
    ));
    r
}

/// What came of asking an element to carry out an action.
#[derive(Debug)]
pub enum Invocation {
    /// The application answered: whether it did, and which action it was.
    Answered { ok: bool, action_index: i32, action_name: Option<String> },
    /// The element is gone.
    Stale,
    /// It could not be asked.
    Failed(String),
}

/// The name of an action, where it has one.
pub open spec fn action_called(name: Option<String>) -> Seq<char> {
    match name {
        Some(name) => if name@.len() == 0 {
            "unnamed"@
        } else {
            name@
        },
        None => "unnamed"@,
    }
}

/// What `perform_action` answers, but for the notes that follow a success.
pub fn invocation_output(invocation: &Invocation) -> (r: ActionOutput)
    ensures
        performed(*invocation, r),
{
    match invocation {
        Invocation::Answered { ok, action_index, action_name } => {
            let mut message = cat("AT-SPI action ", &signed_decimal_of(*action_index as i64));
            message.append(" (");
            match action_name {
                Some(name) => if name.as_str().is_empty() {
                    message.append("unnamed");
                } else {
                    message.append(name);
                },
                None => message.append("unnamed"),
            }
            if *ok {
                message.append(") invoked.");
                action_success("perform_action", message)
            } else {
                message.append(") returned false.");
                action_failure("perform_action", message)
            }
        },
        Invocation::Stale => action_failure(
            "perform_action",
            element_error_message(true, ""),
        ),
        Invocation::Failed(error) => action_failure(
            "perform_action",
            element_error_message(false, error),
        ),
    }
}

/// What came of setting an element's value.
#[derive(Debug)]
pub enum ValueOutcome {
    /// The numeric value was set to this.
    Numeric(String),
    /// The text was replaced.
    EditableText,
    /// The element is gone.
    Stale,
    /// It could not be set: the error, and the error with its causes.
    Failed { error: String, detail: String },
}

/// What follows setting an element's value.
#[derive(Debug)]
pub enum ValueNext {
    /// This is the answer.
    Answer(ActionOutput),
    /// The keyboard is tried.
    Keyboard,
}

/// What the error says where an element has no interface to set its value by.
pub const NO_VALUE_INTERFACE: &'static str = "does not expose AT-SPI Value";

/// Whether a step is what follows setting an element's value: the keyboard stands in only
/// where the element has no interface for it and takes typed text.
pub open spec fn follows_value(
    nodes: Seq<AccessibilityNode>,
    object_ref: Seq<char>,
    outcome: ValueOutcome,
    next: ValueNext,
) -> bool {
    match outcome {
        ValueOutcome::Numeric(value) => next is Answer && says(
            next->Answer_0,
            "set_value"@,
            true,
            "AT-SPI numeric value set to "@ + value@ + "."@,
        ),
        ValueOutcome::EditableText => next is Answer && says(
            next->Answer_0,
            "set_value"@,
            true,
            "AT-SPI editable text contents set."@,
        ),
        ValueOutcome::Stale => next is Answer && says(
            next->Answer_0,
            "set_value"@,
            false,
            STALE_TREE_MESSAGE@,
        ),
        ValueOutcome::Failed { error, detail } => if contains(error@, NO_VALUE_INTERFACE@)
            && takes_keys(nodes, object_ref) {
            next is Keyboard
        } else {
            next is Answer && says(next->Answer_0, "set_value"@, false, detail@)
        },
    }
}

/// What follows setting an element's value.
pub fn after_set_value(nodes: &[AccessibilityNode], object_ref: &str, outcome: &ValueOutcome) -> (r:
    ValueNext)
    ensures
        follows_value(nodes@, object_ref@, *outcome, r),
{
    match outcome {
        ValueOutcome::Numeric(value) => {
            let mut message = cat("AT-SPI numeric value set to ", value);
            message.append(".");
            ValueNext::Answer(action_success("set_value", message))
        },
        ValueOutcome::EditableText => ValueNext::Answer(
            action_success("set_value", "AT-SPI editable text contents set.".to_owned()),
        ),
        ValueOutcome::Stale => ValueNext::Answer(
            action_failure("set_value", element_error_message(true, "")),
        ),
        ValueOutcome::Failed { error, detail } => if includes(error, NO_VALUE_INTERFACE)
            && cached_node_is_keyboard_editable(nodes, object_ref) {
            ValueNext::Keyboard
        } else {
            ValueNext::Answer(action_failure("set_value", element_error_message(false, detail)))
        },
    }
}

/// What came of asking an element to take the focus.
#[derive(Debug)]
pub enum GrabOutcome {
    Grabbed,
    ReturnedFalse,
    Stale,
    Failed(String),
}

/// The stages of setting a value through the keyboard.
#[derive(Debug)]
pub enum KeyboardStage {
    /// The element was asked to take the focus.
    Focus(GrabOutcome),
    /// Ctrl+A was pressed.
    SelectAll(ActionOutput),
    /// The value was typed.
    Typed(ActionOutput),
}

/// What follows a stage of setting a value through the keyboard.
#[derive(Debug)]
pub enum KeyboardNext {
    /// Ctrl+A is pressed, after a wait of so many milliseconds.
    SelectAll { wait_ms: u64 },
    /// The value is typed.
    Type,
    /// This is the answer.
    Answer(ActionOutput),
}

/// How long an element gets to take the focus, in milliseconds.
pub const GRAB_SETTLE_MS: u64 = 80;

/// The key that selects everything.
pub const SELECT_ALL: &'static str = "ctrl+a";

/// Whether a step is what follows a stage of setting a value through the keyboard: the
/// focus, then everything selected, then the value, and nothing after what failed.
pub open spec fn follows_keyboard(stage: KeyboardStage, next: KeyboardNext) -> bool {
    match stage {
        KeyboardStage::Focus(grab) => match grab {
            GrabOutcome::Grabbed => next == (KeyboardNext::SelectAll { wait_ms: GRAB_SETTLE_MS }),
            GrabOutcome::ReturnedFalse => next is Answer && says(
                next->Answer_0,
                "set_value"@,
                false,
                "The element exposes neither Value nor EditableText, and AT-SPI GrabFocus returned false, so the keyboard fallback could not focus it."@,
            ),
            GrabOutcome::Stale => next is Answer && says(
                next->Answer_0,
                "set_value"@,
                false,
                STALE_TREE_MESSAGE@,
            ),
            GrabOutcome::Failed(error) => next is Answer && says(
                next->Answer_0,
                "set_value"@,
                false,
                error@,
            ),
        },
        KeyboardStage::SelectAll(output) => if output.ok {
            next is Type
        } else {
            next is Answer && says(
                next->Answer_0,
                "set_value"@,
                false,
                "Keyboard fallback failed at select-all: "@ + output.message@,
            )
        },
        KeyboardStage::Typed(output) => next is Answer && if output.ok {
            says(
                next->Answer_0,
                "set_value"@,
                true,
                "The element exposes neither Value nor EditableText, so a keyboard fallback was used: AT-SPI GrabFocus, Ctrl+A, then typed the value. "@
                    + output.message@,
            )
        } else {
            says(
                next->Answer_0,
                "set_value"@,
                false,
                "Keyboard fallback failed while typing: "@ + output.message@,
            )
        },
    }
}

/// What follows a stage of setting a value through the keyboard.
pub fn keyboard_set_value(stage: &KeyboardStage) -> (r: KeyboardNext)
    ensures
        follows_keyboard(*stage, r),
{
    match stage {
        KeyboardStage::Focus(grab) => match grab {
            GrabOutcome::Grabbed => KeyboardNext::SelectAll { wait_ms: GRAB_SETTLE_MS },
            GrabOutcome::ReturnedFalse => KeyboardNext::Answer(
                action_failure(
                    "set_value",
                    "The element exposes neither Value nor EditableText, and AT-SPI GrabFocus returned false, so the keyboard fallback could not focus it.".to_owned(),
                ),
            ),
            GrabOutcome::Stale => KeyboardNext::Answer(
                action_failure("set_value", element_error_message(true, "")),
            ),
            GrabOutcome::Failed(error) => KeyboardNext::Answer(
                action_failure("set_value", element_error_message(false, error)),
            ),
        },
        KeyboardStage::SelectAll(output) => if output.ok {
            KeyboardNext::Type
        } else {
            KeyboardNext::Answer(
                action_failure(
                    "set_value",
                    cat("Keyboard fallback failed at select-all: ", &output.message),
                ),
            )
        },
        KeyboardStage::Typed(output) => if output.ok {
            KeyboardNext::Answer(
                action_success(
                    "set_value",
                    cat(
                        "The element exposes neither Value nor EditableText, so a keyboard fallback was used: AT-SPI GrabFocus, Ctrl+A, then typed the value. ",
                        &output.message,
                    ),
                ),
            )
        } else {
            KeyboardNext::Answer(
                action_failure(
                    "set_value",
                    cat("Keyboard fallback failed while typing: ", &output.message),
                ),
            )
        },
    }
}

/// Nothing is typed into an element that did not take the focus: the keyboard is reached
/// only through a focus that was grabbed.
pub proof fn typing_needs_the_focus(grab: GrabOutcome, next: KeyboardNext)
    requires
        follows_keyboard(KeyboardStage::Focus(grab), next),
    ensures
        grab is Grabbed <==> next is SelectAll,
        !(next is Type),
{
}

/// The next thing `perform_action` does.
#[derive(Debug)]
pub enum PerformTask {
    /// Ask the allowlist about this window, or about the focused one.
    Gate(Option<WindowTarget>),
    /// Ask an element to carry out an action.
    Invoke { object_ref: String, action: String, states: Vec<String> },
    /// Look what the action did, to an element that was in these states.
    Look { output: ActionOutput, object_ref: String, states: Vec<String> },
    /// Nothing: this is the answer.
    Done(ActionOutput),
}

/// What came of a task.
#[derive(Debug)]
pub enum PerformReport {
    Gate(Result<(), String>),
    Invoked(Invocation),
    Looked(Vec<String>),
}

/// Whether a report is one of a task.
pub open spec fn reports_performing(task: PerformTask, report: PerformReport) -> bool {
    match task {
        PerformTask::Gate(_) => report is Gate,
        PerformTask::Invoke { .. } => report is Invoked,
        PerformTask::Look { .. } => report is Looked,
        PerformTask::Done(_) => false,
    }
}

/// Whether a task is one of `perform_action`: it names no window, so that the allowlist is
/// asked about the focused one.
pub open spec fn is_of_performing(task: PerformTask) -> bool {
    task is Gate ==> task->Gate_0 is None
}

/// The first thing `perform_action` does: ask the allowlist.
pub fn start_perform_action() -> (r: PerformTask)
    ensures
        r == PerformTask::Gate(None),
        is_of_performing(r),
{
    PerformTask::Gate(None)
}

/// What an action that was asked for comes to, but for the notes that follow a success.
pub open spec fn performed(invocation: Invocation, output: ActionOutput) -> bool {
    match invocation {
        Invocation::Answered { ok, action_index, action_name } => says(
            output,
            "perform_action"@,
            ok,
            "AT-SPI action "@ + decimal(action_index as int) + " ("@ + action_called(action_name)
                + if ok {
                ") invoked."@
            } else {
                ") returned false."@
            },
        ),
        Invocation::Stale => says(output, "perform_action"@, false, STALE_TREE_MESSAGE@),
        Invocation::Failed(error) => says(output, "perform_action"@, false, error@),
    }
}

/// Whether the next task is what follows one, by what came of it.
pub open spec fn perform_follows(
    nodes: Seq<AccessibilityNode>,
    params: ActionParams,
    task: PerformTask,
    report: PerformReport,
    next: PerformTask,
) -> bool {
    match (task, report) {
        (PerformTask::Gate(_), PerformReport::Gate(outcome)) => match outcome {
            Err(message) => next is Done && says(
                next->Done_0,
                "perform_action"@,
                false,
                message@,
            ),
            Ok(_) => exists|selector: ElementSelector<'_>|
                selects(selector, params.role, params.name, params.text, params.states@)
                    && match #[trigger] ref_meant(
                    nodes,
                    params.element_index,
                    either(params.element_identifier, params.object_ref),
                    selector,
                    ElementResolvePurpose::Action,
                ) {
                    Err(message) => next is Done && says(
                        next->Done_0,
                        "perform_action"@,
                        false,
                        message,
                    ),
                    Ok(object_ref) => {
                        &&& next is Invoke
                        &&& next->Invoke_object_ref@ == object_ref
                        &&& next->action@ == if is_filled(text_of(params.action)) {
                            trim(params.action->0@)
                        } else {
                            "0"@
                        }
                        &&& next->Invoke_states@ == states_of(nodes, object_ref)
                    },
                },
        },
        (
            PerformTask::Invoke { object_ref, states, .. },
            PerformReport::Invoked(invocation),
        ) => exists|output: ActionOutput| #[trigger]
            performed(invocation, output) && if output.ok {
                next == (PerformTask::Look { output, object_ref, states })
            } else {
                next == PerformTask::Done(output)
            },
        (PerformTask::Look { output, .. }, PerformReport::Looked(seen)) => next is Done
            && adds_notes(next->Done_0, output, texts(seen@)),
        _ => true,
    }
}

/// What `perform_action` does next, by what came of the last: the allowlist first, then the
/// action that is named, or else the first, of the element that is meant, and after a
/// success a look what it did.
pub fn perform_element_action(
    nodes: &[AccessibilityNode],
    params: &ActionParams,
    task: PerformTask,
    report: PerformReport,
) -> (r: PerformTask)
    requires
        reports_performing(task, report),
        is_of_performing(task),
    ensures
        perform_follows(nodes@, *params, task, report, r),
        is_of_performing(r),
{
    match (task, report) {
        (PerformTask::Gate(_), PerformReport::Gate(outcome)) => {
            match outcome {
                Err(message) => return PerformTask::Done(
                    action_failure("perform_action", message),
                ),
                Ok(_) => {},
            }
            let action = requested_or_primary_action(borrowed(&params.action));
            let meant = action_element(nodes, params);
            let ghost given = meant;
            let ghost selector = choose|selector: ElementSelector<'_>|
                selects(selector, params.role, params.name, params.text, params.states@)
                    && answers_ref(
                    #[trigger] ref_meant(
                        nodes@,
                        params.element_index,
                        either(params.element_identifier, params.object_ref),
                        selector,
                        ElementResolvePurpose::Action,
                    ),
                    given,
                );
            let ghost due = ref_meant(
                nodes@,
                params.element_index,
                either(params.element_identifier, params.object_ref),
                selector,
                ElementResolvePurpose::Action,
            );
            assert(answers_ref(due, given));
            match meant {
                Err(message) => PerformTask::Done(action_failure("perform_action", message)),
                Ok(object_ref) => {
                    let states = cached_node_states(nodes, &object_ref);
                    PerformTask::Invoke { object_ref, action, states }
                },
            }
        },
        (PerformTask::Invoke { object_ref, states, .. }, PerformReport::Invoked(invocation)) => {
            let output = invocation_output(&invocation);
            assert(performed(invocation, output));
            if output.ok {
                PerformTask::Look { output, object_ref, states }
            } else {
                PerformTask::Done(output)
            }
        },
        (PerformTask::Look { output, .. }, PerformReport::Looked(seen)) => PerformTask::Done(
            with_notes(output, &seen),
        ),
        (task, _) => task,
    }
}

/// The next thing `set_value` does.
#[derive(Debug)]
pub enum ValueTask {
    /// Ask the allowlist about this window, or about the focused one.
    Gate(Option<WindowTarget>),
    /// Set the value of an element to this one.
    Assign { object_ref: String, value: String },
    /// Ask an element to take the focus.
    GrabFocus(String),
    /// Press the key that selects everything, after so many milliseconds.
    SelectAll { wait_ms: u64 },
    /// Type this value.
    Type { value: String },
    /// Nothing: this is the answer.
    Done(ActionOutput),
}

/// What came of a task.
#[derive(Debug)]
pub enum ValueReport {
    Gate(Result<(), String>),
    Assigned(ValueOutcome),
    Keyboard(KeyboardStage),
}

/// Whether a report is one of a task.
pub open spec fn reports_setting(task: ValueTask, report: ValueReport) -> bool {
    match task {
        ValueTask::Gate(_) => report is Gate,
        ValueTask::Assign { .. } => report is Assigned,
        ValueTask::GrabFocus(_) => report is Keyboard && report->Keyboard_0 is Focus,
        ValueTask::SelectAll { .. } => report is Keyboard && report->Keyboard_0 is SelectAll,
        ValueTask::Type { .. } => report is Keyboard && report->Keyboard_0 is Typed,
        ValueTask::Done(_) => false,
    }
}

/// Whether a task is one of a request: it names no window, so that the allowlist is asked
/// about the focused one, and the value is the request's.
pub open spec fn is_of_setting(task: ValueTask, params: SetValueParams) -> bool {
    match task {
        ValueTask::Gate(asked) => asked is None,
        ValueTask::Assign { value, .. } => value == params.value,
        ValueTask::Type { value } => value == params.value,
        _ => true,
    }
}

/// The first thing `set_value` does: ask the allowlist.
pub fn start_set_value(params: &SetValueParams) -> (r: ValueTask)
    ensures
        r == ValueTask::Gate(None),
        is_of_setting(r, *params),
{
    ValueTask::Gate(None)
}

/// Whether the next task is what follows one, by what came of it.
pub open spec fn set_value_follows(
    nodes: Seq<AccessibilityNode>,
    params: SetValueParams,
    task: ValueTask,
    report: ValueReport,
    next: ValueTask,
) -> bool {
    match (task, report) {
        (ValueTask::Gate(_), ValueReport::Gate(outcome)) => match outcome {
            Err(message) => next is Done && says(next->Done_0, "set_value"@, false, message@),
            Ok(_) => exists|selector: ElementSelector<'_>|
                selects(selector, params.role, params.name, params.text, params.states@)
                    && match #[trigger] ref_meant(
                    nodes,
                    params.element_index,
                    either(params.element_identifier, params.object_ref),
                    selector,
                    ElementResolvePurpose::SetValue,
                ) {
                    Err(message) => next is Done && says(
                        next->Done_0,
                        "set_value"@,
                        false,
                        message,
                    ),
                    Ok(object_ref) => next is Assign && next->object_ref@ == object_ref
                        && next->Assign_value == params.value,
                },
        },
        (ValueTask::Assign { object_ref, .. }, ValueReport::Assigned(outcome)) => exists|step: ValueNext|
            #[trigger] follows_value(nodes, object_ref@, outcome, step) && match step {
                ValueNext::Answer(output) => next == ValueTask::Done(output),
                ValueNext::Keyboard => next == ValueTask::GrabFocus(object_ref),
            },
        (_, ValueReport::Keyboard(stage)) => exists|step: KeyboardNext| #[trigger]
            follows_keyboard(stage, step) && match step {
                KeyboardNext::Answer(output) => next == ValueTask::Done(output),
                KeyboardNext::SelectAll { wait_ms } => next == (ValueTask::SelectAll { wait_ms }),
                KeyboardNext::Type => next == (ValueTask::Type { value: params.value }),
            },
        _ => true,
    }
}

/// What `set_value` does next, by what came of the last: the allowlist first, then the element's
/// own interface, and the keyboard where it has none.
pub fn set_value(
    nodes: &[AccessibilityNode],
    params: &SetValueParams,
    task: ValueTask,
    report: ValueReport,
) -> (r: ValueTask)
    requires
        reports_setting(task, report),
        is_of_setting(task, *params),
    ensures
        set_value_follows(nodes@, *params, task, report, r),
        is_of_setting(r, *params),
{
    match (task, report) {
        (ValueTask::Gate(_), ValueReport::Gate(outcome)) => {
            match outcome {
                Err(message) => return ValueTask::Done(action_failure("set_value", message)),
                Ok(_) => {},
            }
            let meant = value_element(nodes, params);
            let ghost given = meant;
            let ghost selector = choose|selector: ElementSelector<'_>|
                selects(selector, params.role, params.name, params.text, params.states@)
                    && answers_ref(
                    #[trigger] ref_meant(
                        nodes@,
                        params.element_index,
                        either(params.element_identifier, params.object_ref),
                        selector,
                        ElementResolvePurpose::SetValue,
                    ),
                    given,
                );
            let ghost due = ref_meant(
                nodes@,
                params.element_index,
                either(params.element_identifier, params.object_ref),
                selector,
                ElementResolvePurpose::SetValue,
            );
            assert(answers_ref(due, given));
            match meant {
                Err(message) => ValueTask::Done(action_failure("set_value", message)),
                Ok(object_ref) => ValueTask::Assign { object_ref, value: params.value.clone() },
            }
        },
        (ValueTask::Assign { object_ref, .. }, ValueReport::Assigned(outcome)) => {
            let step = after_set_value(nodes, &object_ref, &outcome);
            let ghost given = step;
            assert(follows_value(nodes@, object_ref@, outcome, given));
            match step {
                ValueNext::Answer(output) => ValueTask::Done(output),
                ValueNext::Keyboard => ValueTask::GrabFocus(object_ref),
            }
        },
        (_, ValueReport::Keyboard(stage)) => {
            let step = keyboard_set_value(&stage);
            let ghost given = step;
            assert(follows_keyboard(stage, given));
            match step {
                KeyboardNext::Answer(output) => ValueTask::Done(output),
                KeyboardNext::SelectAll { wait_ms } => ValueTask::SelectAll { wait_ms },
                KeyboardNext::Type => ValueTask::Type { value: params.value.clone() },
            }
        },
        (task, _) => task,
    }
}

/// An element whose application is gone is not typed into: the keyboard stands in only for
/// an interface that is missing.
pub proof fn a_stale_element_gets_no_keys(
    nodes: Seq<AccessibilityNode>,
    object_ref: Seq<char>,
    next: ValueNext,
)
    requires
        follows_value(nodes, object_ref, ValueOutcome::Stale, next),
    ensures
        next is Answer,
        says(next->Answer_0, "set_value"@, false, STALE_TREE_MESSAGE@),
{
}

/// Nothing is set or typed before the allowlist has let the focused window pass, and no
/// value but the request's own.
pub proof fn only_the_value_asked_for_is_set(
    nodes: Seq<AccessibilityNode>,
    params: SetValueParams,
    task: ValueTask,
    report: ValueReport,
    next: ValueTask,
)
    requires
        reports_setting(task, report),
        is_of_setting(task, params),
        set_value_follows(nodes, params, task, report, next),
    ensures
        is_of_setting(next, params),
        task is Gate && report->Gate_0 is Err ==> next is Done && !next->Done_0.ok,
        next is Assign ==> task is Gate && report->Gate_0 is Ok && next->Assign_value
            == params.value,
        next is GrabFocus ==> task is Assign,
        next is Type ==> next->Type_value == params.value,
{
}

/// Whether a reference is that of the element a caller names: the identifier that is passed,
/// without the whitespace around it, where it is not blank; or that of an element of the
/// index that is passed.
pub open spec fn is_the_element_named(
    nodes: Seq<AccessibilityNode>,
    identifier: Option<Seq<char>>,
    element_index: Option<u32>,
    object_ref: Seq<char>,
) -> bool {
    if identifier is Some && !is_blank(identifier->0) {
        object_ref == trim(identifier->0)
    } else {
        element_index is Some ==> exists|k: int|
            0 <= k < nodes.len() && (#[trigger] nodes[k]).index == element_index->0
                && nodes[k].object_ref@ == object_ref
    }
}

proof fn a_reference_meant_is_the_element_named(
    nodes: Seq<AccessibilityNode>,
    element_index: Option<u32>,
    identifier: Option<Seq<char>>,
    selector: ElementSelector<'_>,
    purpose: ElementResolvePurpose,
)
    requires
        ref_meant(nodes, element_index, identifier, selector, purpose) is Ok,
    ensures
        is_the_element_named(
            nodes,
            identifier,
            element_index,
            ref_meant(nodes, element_index, identifier, selector, purpose)->Ok_0,
        ),
        !(identifier is Some && !is_blank(identifier->0)) && element_index is None ==> {
            let k = element_meant(nodes, selector, purpose);
            k is Ok && nodes[k->Ok_0].object_ref@ == ref_meant(
                nodes,
                element_index,
                identifier,
                selector,
                purpose,
            )->Ok_0
        },
{
    if element_index is Some {
        an_index_names_an_element_that_has_it(nodes, element_index->0, selector, purpose);
    }
}

/// The action is asked of the very element that is named, by its identifier, else by its
/// index, else by its description; and it is the action that is named, or the first.
pub proof fn an_action_is_asked_of_the_element_named(
    nodes: Seq<AccessibilityNode>,
    params: ActionParams,
    task: PerformTask,
    report: PerformReport,
    next: PerformTask,
)
    requires
        reports_performing(task, report),
        perform_follows(nodes, params, task, report, next),
        next is Invoke,
    ensures
        task is Gate && report->Gate_0 is Ok,
        ({
            let identifier = if params.element_identifier is Some {
                Some(params.element_identifier->0@)
            } else if params.object_ref is Some {
                Some(params.object_ref->0@)
            } else {
                None
            };
            &&& is_the_element_named(
                nodes,
                identifier,
                params.element_index,
                next->Invoke_object_ref@,
            )
            &&& !(identifier is Some && !is_blank(identifier->0)) && params.element_index is None
                ==> exists|selector: ElementSelector<'_>|
                selects(selector, params.role, params.name, params.text, params.states@) && ({
                    let k = #[trigger] element_meant(
                        nodes,
                        selector,
                        ElementResolvePurpose::Action,
                    );
                    k is Ok && nodes[k->Ok_0].object_ref@ == next->Invoke_object_ref@
                })
        }),
        params.action is Some && !is_blank(params.action->0@) ==> next->action@ == trim(
            params.action->0@,
        ),
        params.action is None ==> next->action@ == "0"@,
{
    let identifier = either(params.element_identifier, params.object_ref);
    if task is Gate && report->Gate_0 is Ok {
        let selector = choose|selector: ElementSelector<'_>|
            selects(selector, params.role, params.name, params.text, params.states@)
                && match #[trigger] ref_meant(
                nodes,
                params.element_index,
                identifier,
                selector,
                ElementResolvePurpose::Action,
            ) {
                Err(message) => next is Done && says(
                    next->Done_0,
                    "perform_action"@,
                    false,
                    message,
                ),
                Ok(object_ref) => {
                    &&& next is Invoke
                    &&& next->Invoke_object_ref@ == object_ref
                    &&& next->action@ == if is_filled(text_of(params.action)) {
                        trim(params.action->0@)
                    } else {
                        "0"@
                    }
                    &&& next->Invoke_states@ == states_of(nodes, object_ref)
                },
            };
        a_reference_meant_is_the_element_named(
            nodes,
            params.element_index,
            identifier,
            selector,
            ElementResolvePurpose::Action,
        );
    }
}

/// An action is said to be done exactly where the application answered that it did it.
pub proof fn an_action_is_done_where_the_application_says_so(
    nodes: Seq<AccessibilityNode>,
    params: ActionParams,
    task: PerformTask,
    report: PerformReport,
    next: PerformTask,
)
    requires
        reports_performing(task, report),
        perform_follows(nodes, params, task, report, next),
        task is Invoke,
    ensures
        next is Look <==> report->Invoked_0 is Answered && report->Invoked_0->ok,
        next is Look ==> next->output.ok && next->Look_object_ref == task->Invoke_object_ref,
        !(next is Look) ==> next is Done && !next->Done_0.ok,
{
}

/// A value is set on the very element that is named, by its identifier, else by its index,
/// and it is the value that is passed.
pub proof fn a_value_is_set_on_the_element_named(
    nodes: Seq<AccessibilityNode>,
    params: SetValueParams,
    task: ValueTask,
    report: ValueReport,
    next: ValueTask,
)
    requires
        reports_setting(task, report),
        set_value_follows(nodes, params, task, report, next),
        next is Assign,
    ensures
        task is Gate && report->Gate_0 is Ok,
        next->Assign_value@ == params.value@,
        ({
            let identifier = if params.element_identifier is Some {
                Some(params.element_identifier->0@)
            } else if params.object_ref is Some {
                Some(params.object_ref->0@)
            } else {
                None
            };
            &&& is_the_element_named(nodes, identifier, params.element_index, next->object_ref@)
            &&& !(identifier is Some && !is_blank(identifier->0)) && params.element_index is None
                ==> exists|selector: ElementSelector<'_>|
                selects(selector, params.role, params.name, params.text, params.states@) && ({
                    let k = #[trigger] element_meant(
                        nodes,
                        selector,
                        ElementResolvePurpose::SetValue,
                    );
                    k is Ok && nodes[k->Ok_0].object_ref@ == next->object_ref@
                })
        }),
{
    let identifier = either(params.element_identifier, params.object_ref);
    if task is Gate && report->Gate_0 is Ok {
        let selector = choose|selector: ElementSelector<'_>|
            selects(selector, params.role, params.name, params.text, params.states@)
                && match #[trigger] ref_meant(
                nodes,
                params.element_index,
                identifier,
                selector,
                ElementResolvePurpose::SetValue,
            ) {
                Err(message) => next is Done && says(
                    next->Done_0,
                    "set_value"@,
                    false,
                    message,
                ),
                Ok(object_ref) => next is Assign && next->object_ref@ == object_ref
                    && next->Assign_value == params.value,
            };
        a_reference_meant_is_the_element_named(
            nodes,
            params.element_index,
            identifier,
            selector,
            ElementResolvePurpose::SetValue,
        );
    }
}

/// A value is said to be set exactly where the element took it or it was typed; typing comes
/// after everything was selected, that after the focus was taken, and that only where the
/// element has no interface of its own and takes typed text.
pub proof fn a_value_is_set_where_it_was_taken(
    nodes: Seq<AccessibilityNode>,
    params: SetValueParams,
    task: ValueTask,
    report: ValueReport,
    next: ValueTask,
)
    requires
        reports_setting(task, report),
        set_value_follows(nodes, params, task, report, next),
    ensures
        task is Assign ==> {
            let outcome = report->Assigned_0;
            &&& outcome is Numeric || outcome is EditableText ==> next is Done && next->Done_0.ok
            &&& outcome is Stale ==> next is Done && !next->Done_0.ok
            &&& outcome is Failed ==> (next is GrabFocus <==> contains(
                outcome->error@,
                "does not expose AT-SPI Value"@,
            ) && takes_keys(nodes, task->object_ref@))
            &&& outcome is Failed && !(next is GrabFocus) ==> next is Done && !next->Done_0.ok
            &&& next is GrabFocus ==> next->GrabFocus_0@ == task->object_ref@
        },
        task is GrabFocus ==> (next is SelectAll <==> report->Keyboard_0->Focus_0 is Grabbed),
        task is SelectAll ==> (next is Type <==> report->Keyboard_0->SelectAll_0.ok),
        task is Type ==> next is Done && next->Done_0.ok == report->Keyboard_0->Typed_0.ok,
        next is SelectAll ==> task is GrabFocus,
        next is Type ==> task is SelectAll && next->Type_value@ == params.value@,
        (task is GrabFocus || task is SelectAll) && next is Done ==> !next->Done_0.ok,
{
}

} // verus!
