//! `click`: what is clicked, by which means, and what is said of it.

use vstd::prelude::*;
use vstd::string::StringExecFns;
use crate::abs_pointer::{PointerButton, PointerLanding};
use crate::cache::{
    action_for, click_answers, copy_texts, desktop_center, is_click, is_plain, label_of, no_bounds,
    no_bounds_message, node_meant, resolve_click_target, CachedBounds, ClickTarget,
};
use crate::elements::{AccessibilityAction, AccessibilityNode, ElementResolvePurpose, ElementSelector};
use crate::geometry::{
    abs_pointer_clamp_note, apply_window_relative_click_coordinates, clamp_words, click_point,
    focused_part, focused_window_coordinate_map, moved_words, off_point_words,
    off_screen_note_for_point, pointer_moved_note,
};
use crate::gate::{focus_refusal, focus_target_for_input, satisfies};
use crate::input::{
    absolute_mousemove_args, command_texts, held_words, hold_failure, mouse_button_code, mousemove,
    release_note, ydotool_button,
};
use crate::keys::{held_modifiers, held_modifiers_are_those_named, modifier_code, modifier_keycodes};
use crate::notes::{
    action_failure, action_result, action_success, first_line, first_line_of, noted, says,
    with_notes, ActionOutput, STALE_TREE_MESSAGE,
};
use crate::numerals::{decimal, decimal_of, signed_decimal_of};
use crate::params::{selects, ClickParams};
use crate::select::the_first_match_is_the_first;
use crate::text::{borrowed, cat, lower, text_of, texts};
use crate::tools::keyboard::{landing_notes, notes_given};
use crate::windowing::types::{WindowFocusResult, WindowTarget};

verus! {

/// Tail of the note explaining a point that could not be moved onto the
/// desktop, and how to make it resolvable.
pub const UNANCHORED_BOUNDS_NOTE: &'static str =
    "but the tree's bounds are window-relative and no window origin was available, so they were not offset to desktop coordinates and the pointer will miss. Call get_app_state again with pid or window_id so the tree is tied to its window.";

/// What the coordinates of a click come to once its window is focused.
pub open spec fn click_moved(
    params: ClickParams,
    focus: WindowFocusResult,
    desktop: Option<(u32, u32)>,
) -> Result<(Option<i32>, Option<i32>), Seq<char>> {
    if params.relative != Some(true) {
        Ok((params.x, params.y))
    } else {
        match focused_part(focus, desktop) {
            Err(message) => Err(message),
            Ok(rect) => match click_point(params.x, params.y, rect) {
                Ok((x, y)) => Ok((Some(x), Some(y))),
                Err(message) => Err(message),
            },
        }
    }
}

/// Window-relative coordinates: translate by the window's top-left so
/// the agent can click the pixel it saw in a window-cropped screenshot.
pub fn place_click(
    params: &mut ClickParams,
    focus: &WindowFocusResult,
    desktop: Option<(u32, u32)>,
) -> (r: Result<(), String>)
    ensures
        match click_moved(*old(params), *focus, desktop) {
            Ok((x, y)) => r is Ok && *final(params) == (ClickParams { x, y, ..*old(params) }),
            Err(message) => r is Err && r->Err_0@ == message && *final(params) == *old(params),
        },
{
    match params.relative {
        Some(true) => {},
        _ => return Ok(()),
    }
    match focused_window_coordinate_map(focus, desktop) {
        Ok(rect) => apply_window_relative_click_coordinates(params, rect),
        Err(message) => Err(message),
    }
}

/// A click of the pointer.
#[derive(Debug)]
pub struct PointClick {
    pub x: i32,
    pub y: i32,
    /// The modifiers held around it.
    pub held: Vec<u16>,
    /// What is said of it besides.
    pub notes: Vec<String>,
    /// The element it is for, and the states that had when the tree was read.
    pub element: Option<(String, Vec<String>)>,
}

/// A click by an element's own action, and the click of the pointer to fall back to.
#[derive(Debug)]
pub struct ActionClick {
    pub element_index: u32,
    pub label: String,
    pub object_ref: String,
    pub action: AccessibilityAction,
    pub states: Vec<String>,
    pub point: Option<(i32, i32)>,
    /// What is said of the point.
    pub point_note: Option<String>,
}

/// How a click is carried out.
#[derive(Debug)]
pub enum ClickPlan {
    /// By the pointer.
    Point(PointClick),
    /// By an action of the element.
    Invoke(ActionClick),
}

/// What is said of the point an element came to.
pub open spec fn point_words(
    element_index: u32,
    label: Seq<char>,
    point: (i32, i32),
    bounds_offset: Option<(i32, i32)>,
    bounds: CachedBounds,
) -> Seq<char> {
    let opening = "element_index "@ + decimal(element_index as int) + " ("@ + label + ")"@;
    let at = "("@ + decimal(point.0 as int) + ", "@ + decimal(point.1 as int) + ")"@;
    match bounds_offset {
        Some((dx, dy)) => opening + " resolved to desktop point "@ + at
            + ": the tree's window-relative bounds were offset by the window origin ("@ + decimal(
            dx as int,
        ) + ", "@ + decimal(dy as int) + ")."@,
        None => if bounds is Unanchored {
            opening + " resolved to point "@ + at + ", "@ + UNANCHORED_BOUNDS_NOTE@
        } else {
            opening + " resolved to desktop point "@ + at + "."@
        },
    }
}

fn point_note(
    element_index: u32,
    label: &str,
    point: (i32, i32),
    bounds_offset: Option<(i32, i32)>,
    bounds: CachedBounds,
) -> (r: String)
    ensures
        r@ == point_words(element_index, label@, point, bounds_offset, bounds),
{
    let mut note = cat("element_index ", &decimal_of(element_index as u64));
    note.append(" (");
    note.append(label);
    note.append(")");
    let mut at = cat("(", &signed_decimal_of(point.0 as i64));
    at.append(", ");
    at.append(&signed_decimal_of(point.1 as i64));
    at.append(")");
    match bounds_offset {
        Some((dx, dy)) => {
            note.append(" resolved to desktop point ");
            note.append(&at);
            note.append(": the tree's window-relative bounds were offset by the window origin (");
            note.append(&signed_decimal_of(dx as i64));
            note.append(", ");
            note.append(&signed_decimal_of(dy as i64));
            note.append(").");
        },
        None => match bounds {
            CachedBounds::Unanchored => {
                note.append(" resolved to point ");
                note.append(&at);
                note.append(", ");
                note.append(UNANCHORED_BOUNDS_NOTE);
            },
            _ => {
                note.append(" resolved to desktop point ");
                note.append(&at);
                note.append(".");
            },
        },
    }
    note
}

/// What is said when an element's action is passed over for its modifiers.
pub const ACTION_SKIPPED: &'static str =
    "Modifiers only apply to the pointer, so the AT-SPI click action was skipped.";

/// What is said when modifiers are to be held around a click on an element that has an
/// action but no point: the action does not take them, and there is nowhere to click.
pub open spec fn pointless_words(element_index: u32) -> Seq<char> {
    ACTION_SKIPPED@ + " "@ + no_bounds(element_index)
}

fn pointless_message(element_index: u32) -> (r: String)
    ensures
        r@ == pointless_words(element_index),
{
    let mut message = cat(ACTION_SKIPPED, " ");
    message.append(&no_bounds_message(element_index));
    message
}

/// The offset that is spoken of, where one was applied and moved anything.
pub open spec fn offset_applied(at: Option<(i32, i32)>, offset: Option<(i32, i32)>) -> Option<
    (i32, i32),
> {
    if at is Some && offset is Some && offset->0 != (0i32, 0i32) {
        offset
    } else {
        None
    }
}

/// Whether a plan is how a click on a node is carried out: by its action where it has one
/// for the click and no modifier is held, and else by the pointer at the center it has.
pub open spec fn plans_node(
    plan: ClickPlan,
    node: AccessibilityNode,
    plain: bool,
    bounds: CachedBounds,
    held: Seq<u16>,
) -> bool {
    let at = desktop_center(node, bounds.shift());
    let action = action_for(node, plain, at);
    let words = point_words(
        node.index,
        label_of(node),
        at->0,
        offset_applied(at, bounds.shift()),
        bounds,
    );
    if action is Some && held.len() == 0 {
        &&& plan is Invoke
        &&& plan->Invoke_0.element_index == node.index
        &&& plan->Invoke_0.label@ == label_of(node)
        &&& plan->Invoke_0.object_ref == node.object_ref
        &&& plan->Invoke_0.action == action->0
        &&& plan->Invoke_0.states@ == node.states@
        &&& plan->Invoke_0.point == at
        &&& text_of(plan->Invoke_0.point_note) == if at is Some {
            Some(words)
        } else {
            None
        }
    } else {
        &&& plan is Point
        &&& plan->Point_0.x == (at->0).0 && plan->Point_0.y == (at->0).1
        &&& plan->Point_0.held@ == held
        &&& texts(plan->Point_0.notes@) == if action is Some {
            seq![ACTION_SKIPPED@, words]
        } else {
            seq![words]
        }
        &&& plan->Point_0.element is Some
        &&& (plan->Point_0.element->0).0 == node.object_ref
        &&& (plan->Point_0.element->0).1@ == node.states@
    }
}

/// Whether an answer is how a click is carried out, or the refusal that was due: the
/// element is looked for first, then the modifiers, which take a point.
pub open spec fn plans_click(
    nodes: Seq<AccessibilityNode>,
    params: ClickParams,
    selector: ElementSelector<'_>,
    bounds: CachedBounds,
    r: Result<ClickPlan, String>,
) -> bool {
    let plain = is_plain(text_of(params.button), params.click_count);
    let held = held_modifiers(texts(params.modifiers@));
    let node = node_meant(
        nodes,
        params.element_index,
        text_of(params.object_ref),
        selector,
        ElementResolvePurpose::Click,
    );
    if params.x is Some && params.y is Some {
        match held {
            Err(message) => r is Err && r->Err_0@ == message,
            Ok(codes) => {
                &&& r is Ok
                &&& r->Ok_0 is Point
                &&& r->Ok_0->Point_0.x == params.x->0
                &&& r->Ok_0->Point_0.y == params.y->0
                &&& r->Ok_0->Point_0.held@ == codes
                &&& r->Ok_0->Point_0.notes@.len() == 0
                &&& r->Ok_0->Point_0.element is None
            },
        }
    } else {
        match node {
            Err(message) => r is Err && r->Err_0@ == message,
            Ok(k) => {
                let at = desktop_center(nodes[k], bounds.shift());
                if at is None && action_for(nodes[k], plain, at) is None {
                    r is Err && r->Err_0@ == crate::cache::no_click(nodes[k].index, plain)
                } else {
                    match held {
                        Err(message) => r is Err && r->Err_0@ == message,
                        Ok(codes) => if at is None && codes.len() > 0 {
                            r is Err && r->Err_0@ == pointless_words(nodes[k].index)
                        } else {
                            r is Ok && plans_node(r->Ok_0, nodes[k], plain, bounds, codes)
                        },
                    }
                }
            },
        }
    }
}

/// How a click is carried out.
pub fn plan_click(nodes: &[AccessibilityNode], params: &ClickParams, bounds: CachedBounds) -> (r:
    Result<ClickPlan, String>)
    ensures
        exists|selector: ElementSelector<'_>|
            selects(selector, params.role, params.name, params.text, params.states@)
                && #[trigger] plans_click(nodes@, *params, selector, bounds, r),
{
    let offset = bounds.offset();
    let target = resolve_click_target(nodes, params, offset);
    let ghost selector = choose|selector: ElementSelector<'_>|
        selects(selector, params.role, params.name, params.text, params.states@)
            && #[trigger] click_answers(nodes@, *params, selector, offset, target);
    let target = match target {
        Ok(target) => target,
        Err(message) => {
            let r = Err(message);
            assert(plans_click(nodes@, *params, selector, bounds, r));
            return r;
        },
    };
    let held = match modifier_keycodes(&params.modifiers) {
        Ok(codes) => codes,
        Err(message) => {
            let r = Err(message);
            assert(plans_click(nodes@, *params, selector, bounds, r));
            return r;
        },
    };
    let plan = match target {
        ClickTarget::Coordinates(x, y) => ClickPlan::Point(
            PointClick { x, y, held, notes: Vec::new(), element: None },
        ),
        ClickTarget::Element {
            element_index,
            label,
            object_ref,
            action,
            point,
            bounds_offset,
            states,
        } => {
            let note = match point {
                Some(at) => Some(point_note(element_index, &label, at, bounds_offset, bounds)),
                None => None,
            };
            let skipped = action.is_some();
            match (action, held.len()) {
                (Some(action), 0) => ClickPlan::Invoke(
                    ActionClick {
                        element_index,
                        label,
                        object_ref,
                        action,
                        states,
                        point,
                        point_note: note,
                    },
                ),
                _ => match (point, note) {
                    (Some((x, y)), Some(note)) => {
                        let ghost said = note@;
                        let mut notes: Vec<String> = Vec::new();
                        if skipped {
                            notes.push(ACTION_SKIPPED.to_owned());
                            notes.push(note);
                            assert(texts(notes@) =~= seq![ACTION_SKIPPED@, said]);
                        } else {
                            notes.push(note);
                            assert(texts(notes@) =~= seq![said]);
                        }
                        ClickPlan::Point(
                            PointClick { x, y, held, notes, element: Some((object_ref, states)) },
                        )
                    },
                    _ => {
                        let r = Err(pointless_message(element_index));
                        assert(plans_click(nodes@, *params, selector, bounds, r));
                        return r;
                    },
                },
            }
        },
    };
    let r = Ok(plan);
    assert(plans_click(nodes@, *params, selector, bounds, r));
    r
}

/// What came of invoking an AT-SPI action.
#[derive(Debug)]
pub enum ActionOutcome {
    /// The application carried it out.
    Done,
    /// The application answered that it did not.
    ReturnedFalse,
    /// The element is gone.
    Stale,
    /// It could not be asked.
    Failed(String),
}

/// What follows the invocation of an element's action.
#[derive(Debug)]
pub enum ClickNext {
    /// The click is done, and notes on the focus and the element's states are due.
    Clicked(ActionOutput),
    /// The click failed, and nothing else is tried.
    Failed(ActionOutput),
    /// The pointer is tried.
    Fallback(PointClick),
}

/// An action in words.
pub open spec fn action_words(action: AccessibilityAction) -> Seq<char> {
    "AT-SPI action "@ + decimal(action.index as int) + " ("@ + (if action.name@.len() == 0 {
        "unnamed"@
    } else {
        action.name@
    }) + ")"@
}

fn describe_action(action: &AccessibilityAction) -> (r: String)
    ensures
        r@ == action_words(*action),
{
    let mut words = cat("AT-SPI action ", &signed_decimal_of(action.index as i64));
    words.append(" (");
    if action.name.as_str().is_empty() {
        words.append("unnamed");
    } else {
        words.append(&action.name);
    }
    words.append(")");
    words
}

/// What is said of an action that did not do the click.
pub open spec fn action_failure_words(click: ActionClick, outcome: ActionOutcome) -> Seq<char> {
    let opening = action_words(click.action) + " on element_index "@ + decimal(
        click.element_index as int,
    );
    match outcome {
        ActionOutcome::Failed(error) => opening + " failed: "@ + first_line_of(error@),
        _ => opening + " returned false"@,
    }
}

/// Whether a step is what follows the invocation of an element's action: it is the click
/// where the application did it, nothing is tried on an element that is gone, and else the
/// pointer is, where there is a point.
pub open spec fn follows_action(click: ActionClick, outcome: ActionOutcome, next: ClickNext) -> bool {
    let failure = action_failure_words(click, outcome);
    match outcome {
        ActionOutcome::Done => next is Clicked && says(
            next->Clicked_0,
            "click"@,
            true,
            "Invoked "@ + action_words(click.action) + " on element_index "@ + decimal(
                click.element_index as int,
            ) + " ("@ + click.label@ + "); the pointer was not used."@,
        ),
        ActionOutcome::Stale => next is Failed && says(
            next->Failed_0,
            "click"@,
            false,
            STALE_TREE_MESSAGE@,
        ),
        _ => match (click.point, click.point_note) {
            (Some((x, y)), Some(note)) => {
                &&& next is Fallback
                &&& next->Fallback_0.x == x && next->Fallback_0.y == y
                &&& next->Fallback_0.held@.len() == 0
                &&& texts(next->Fallback_0.notes@) == seq![
                    failure + "; fell back to the pointer."@,
                    note@,
                ]
                &&& next->Fallback_0.element == Some((click.object_ref, click.states))
            },
            _ => next is Failed && says(
                next->Failed_0,
                "click"@,
                false,
                failure + ", and no clickable bounds were cached."@,
            ),
        },
    }
}

/// What follows the invocation of an element's action.
pub fn after_click_action(click: ActionClick, outcome: ActionOutcome) -> (r: ClickNext)
    ensures
        follows_action(click, outcome, r),
{
    let mut failure = describe_action(&click.action);
    failure.append(" on element_index ");
    failure.append(&decimal_of(click.element_index as u64));
    match &outcome {
        ActionOutcome::Done => {
            let mut message = cat("Invoked ", &describe_action(&click.action));
            message.append(" on element_index ");
            message.append(&decimal_of(click.element_index as u64));
            message.append(" (");
            message.append(&click.label);
            message.append("); the pointer was not used.");
            return ClickNext::Clicked(action_success("click", message));
        },
        ActionOutcome::Stale => {
            return ClickNext::Failed(action_failure("click", STALE_TREE_MESSAGE.to_owned()));
        },
        ActionOutcome::ReturnedFalse => {
            failure.append(" returned false");
        },
        ActionOutcome::Failed(error) => {
            failure.append(" failed: ");
            failure.append(&first_line(error));
        },
    }
    match (click.point, click.point_note) {
        (Some((x, y)), Some(note)) => {
            let ghost said = note@;
            failure.append("; fell back to the pointer.");
            let ghost failed = failure@;
            let mut notes: Vec<String> = Vec::new();
            notes.push(failure);
            notes.push(note);
            assert(texts(notes@) =~= seq![failed, said]);
            ClickNext::Fallback(
                PointClick {
                    x,
                    y,
                    held: Vec::new(),
                    notes,
                    element: Some((click.object_ref, click.states)),
                },
            )
        },
        _ => {
            failure.append(", and no clickable bounds were cached.");
            ClickNext::Failed(action_failure("click", failure))
        },
    }
}

/// How often a click is repeated: as asked, from once to ten times.
pub open spec fn repeats(click_count: Option<u32>) -> int {
    crate::abs_pointer::between(
        match click_count {
            Some(count) => count as int,
            None => 1,
        },
        1,
        10,
    )
}

/// How often a click is repeated.
pub fn click_repeats(click_count: Option<u32>) -> (r: u32)
    ensures
        r == repeats(click_count),
        1 <= r <= 10,
{
    match click_count {
        Some(count) => if count < 1 {
            1
        } else if count > 10 {
            10
        } else {
            count
        },
        None => 1,
    }
}

/// What is said of a click through the absolute pointer.
pub fn abs_click_output(landing: PointerLanding) -> (r: ActionOutput)
    ensures
        says(
            r,
            "click"@,
            true,
            "Action sent through the uinput absolute pointer at desktop point ("@ + decimal(
                landing.emitted.0 as int,
            ) + ", "@ + decimal(landing.emitted.1 as int) + ")."@,
        ),
{
    let mut message = cat(
        "Action sent through the uinput absolute pointer at desktop point (",
        &signed_decimal_of(landing.emitted.0 as i64),
    );
    message.append(", ");
    message.append(&signed_decimal_of(landing.emitted.1 as i64));
    message.append(").");
    action_success("click", message)
}

/// The commands that click through ydotool: the pointer goes to the point, and the button
/// is struck so many times.
pub open spec fn click_sequence(x: i32, y: i32, button: Option<Seq<char>>, click_count: Option<u32>) -> Seq<
    Seq<Seq<char>>,
> {
    seq![
        mousemove(x, y),
        seq!["click"@, "--repeat"@, decimal(repeats(click_count)), ydotool_button(button)],
    ]
}

/// The commands that click through ydotool.
pub fn click_commands(x: i32, y: i32, params: &ClickParams) -> (r: Vec<Vec<String>>)
    ensures
        command_texts(r@) == click_sequence(x, y, text_of(params.button), params.click_count),
{
    let strike = vec![
        "click".to_owned(),
        "--repeat".to_owned(),
        decimal_of(click_repeats(params.click_count) as u64),
        mouse_button_code(borrowed(&params.button)),
    ];
    assert(texts(strike@) =~= seq![
        "click"@,
        "--repeat"@,
        decimal(repeats(params.click_count)),
        ydotool_button(text_of(params.button)),
    ]);
    let commands = vec![absolute_mousemove_args(x, y), strike];
    assert(command_texts(commands@) =~= click_sequence(
        x,
        y,
        text_of(params.button),
        params.click_count,
    ));
    commands
}

/// How the pointer clicks.
#[derive(Debug)]
pub struct Stroke {
    /// The button, where the absolute pointer has it.
    pub button: Option<PointerButton>,
    pub repeats: u32,
    /// The commands that click through ydotool, where the absolute pointer does not.
    pub commands: Vec<Vec<String>>,
}

/// Whether a stroke is the one that a request asks for, at a point.
pub open spec fn is_stroke(stroke: Stroke, x: i32, y: i32, params: ClickParams) -> bool {
    &&& stroke.button == PointerButton::named(text_of(params.button))
    &&& stroke.repeats == repeats(params.click_count)
    &&& command_texts(stroke.commands@) == click_sequence(
        x,
        y,
        text_of(params.button),
        params.click_count,
    )
}

/// The stroke that a request asks for, at a point.
pub fn click_stroke(x: i32, y: i32, params: &ClickParams) -> (r: Stroke)
    ensures
        is_stroke(r, x, y, *params),
{
    Stroke {
        button: PointerButton::from_name(borrowed(&params.button)),
        repeats: click_repeats(params.click_count),
        commands: click_commands(x, y, params),
    }
}

/// What came of a click of the pointer.
#[derive(Debug)]
pub enum PointerOutcome {
    /// The absolute pointer clicked; where the compositor says the pointer is, if it says.
    Absolute { landing: PointerLanding, actual: Option<(i32, i32)> },
    /// ydotool was tried; the extent of the desktop as far as it is known.
    Ydotool { result: Result<(), String>, desktop: Option<(i32, i32)> },
}

/// Whether an answer is what a click of the pointer at a point came to.
pub open spec fn tells_click(x: i32, y: i32, outcome: PointerOutcome, output: ActionOutput) -> bool {
    match outcome {
        PointerOutcome::Absolute { landing, actual } => says(
            output,
            "click"@,
            true,
            noted(
                "Action sent through the uinput absolute pointer at desktop point ("@ + decimal(
                    landing.emitted.0 as int,
                ) + ", "@ + decimal(landing.emitted.1 as int) + ")."@,
                notes_given(
                    seq![
                        clamp_words(landing),
                        moved_words(actual, landing.emitted),
                        None,
                    ],
                ),
            ),
        ),
        PointerOutcome::Ydotool { result, desktop } => says(
            output,
            "click"@,
            result is Ok,
            noted(
                match result {
                    Ok(_) => "Action sent through ydotool."@,
                    Err(message) => message@,
                },
                notes_given(seq![off_point_words(x, y, desktop), None, None]),
            ),
        ),
    }
}

/// What a click of the pointer came to: the absolute pointer is preferred, because unlike
/// ydotool's relative-only device it uses screenshot-pixel coordinates directly and reports
/// the point it emitted after desktop-edge clamping.
pub fn click_at_point(x: i32, y: i32, outcome: PointerOutcome) -> (r: ActionOutput)
    ensures
        tells_click(x, y, outcome, r),
{
    match outcome {
        PointerOutcome::Absolute { landing, actual } => {
            let moved = pointer_moved_note(actual, landing.emitted);
            let notes = landing_notes(abs_pointer_clamp_note(landing), moved, None);
            with_notes(abs_click_output(landing), &notes)
        },
        PointerOutcome::Ydotool { result, desktop } => {
            let notes = landing_notes(off_screen_note_for_point(x, y, desktop), None, None);
            with_notes(action_result("click", result), &notes)
        },
    }
}

/// The next thing a click does.
#[derive(Debug)]
pub enum ClickTask {
    /// Ask the allowlist about this window, or about the focused one.
    Gate(Option<WindowTarget>),
    /// Focus this window.
    Focus(WindowTarget),
    /// Bring the bounds of the cached tree up to date, with the focus that came about.
    ReadBounds(Option<WindowFocusResult>),
    /// Invoke an action of an element.
    Invoke { action: ActionClick, focus: Option<WindowFocusResult> },
    /// Press the modifiers.
    Hold { click: PointClick, focus: Option<WindowFocusResult> },
    /// Click, by this stroke.
    Act { click: PointClick, focus: Option<WindowFocusResult>, stroke: Stroke },
    /// Release the modifiers.
    Release { click: PointClick, focus: Option<WindowFocusResult>, output: ActionOutput },
    /// Look where the click landed, and say so behind these notes.
    Look {
        output: ActionOutput,
        notes: Vec<String>,
        element: Option<(String, Vec<String>)>,
        focus: Option<WindowFocusResult>,
    },
    /// Nothing: this is the answer.
    Done(ActionOutput),
}

/// What came of a task.
#[derive(Debug)]
pub enum ClickReport {
    Gate(Result<(), String>),
    Focus(Result<WindowFocusResult, String>),
    Bounds(CachedBounds),
    Invoked(ActionOutcome),
    Held(Result<(), String>),
    Clicked(ActionOutput),
    Released(Result<(), String>),
    Looked(Vec<String>),
}

/// Whether a report is one of a task.
pub open spec fn reports(task: ClickTask, report: ClickReport) -> bool {
    match task {
        ClickTask::Gate(_) => report is Gate,
        ClickTask::Focus(_) => report is Focus,
        ClickTask::ReadBounds(_) => report is Bounds,
        ClickTask::Invoke { .. } => report is Invoked,
        ClickTask::Hold { .. } => report is Held,
        ClickTask::Act { .. } => report is Clicked,
        ClickTask::Release { .. } => report is Released,
        ClickTask::Look { .. } => report is Looked,
        ClickTask::Done(_) => false,
    }
}

/// Whether a task is one of a request: the allowlist is asked about the window that the
/// request names, and that window is the one that is focused.
pub open spec fn is_of(task: ClickTask, params: ClickParams) -> bool {
    match task {
        ClickTask::Gate(asked) => asked == params.target.target().window_named(),
        ClickTask::Focus(target) => Some(target) == params.target.target().window_named(),
        _ => true,
    }
}

/// The first thing a click does: ask the allowlist.
pub fn start_click(params: &ClickParams) -> (r: ClickTask)
    ensures
        r == ClickTask::Gate(params.target.target().window_named()),
        is_of(r, *params),
{
    ClickTask::Gate(params.window_target())
}

/// Whether an answer is that a click failed.
pub open spec fn fails(task: ClickTask, message: Seq<char>) -> bool {
    task is Done && says(task->Done_0, "click"@, false, message)
}

/// Whether a task clicks with the pointer, by the stroke that the request asks for.
pub open spec fn strikes(
    task: ClickTask,
    click: PointClick,
    focus: Option<WindowFocusResult>,
    params: ClickParams,
) -> bool {
    &&& task is Act
    &&& task->Act_click == click
    &&& task->Act_focus == focus
    &&& is_stroke(task->stroke, click.x, click.y, params)
}

/// Whether a task begins a click of the pointer: the modifiers first, where there are any.
pub open spec fn begins_pointing(
    task: ClickTask,
    click: PointClick,
    focus: Option<WindowFocusResult>,
    params: ClickParams,
) -> bool {
    if click.held@.len() > 0 {
        task == (ClickTask::Hold { click, focus })
    } else {
        strikes(task, click, focus, params)
    }
}

/// Whether a message is another with notes behind it, in the same answer.
pub open spec fn adds_notes(after: ActionOutput, before: ActionOutput, notes: Seq<Seq<char>>) -> bool {
    after.ok == before.ok && after.implemented == before.implemented && after.action
        == before.action && after.message@ == noted(before.message@, notes)
}

/// Whether a task ends a click of the pointer: a failure is the answer, with what is said of
/// the click, and after a success it is looked where it landed.
pub open spec fn ends_pointing(
    task: ClickTask,
    click: PointClick,
    focus: Option<WindowFocusResult>,
    output: ActionOutput,
) -> bool {
    if output.ok {
        task == (ClickTask::Look { output, notes: click.notes, element: click.element, focus })
    } else {
        task is Done && adds_notes(task->Done_0, output, texts(click.notes@))
    }
}

/// Whether the next task is what follows one, by what came of it.
pub open spec fn click_follows(
    before: ClickParams,
    after: ClickParams,
    nodes: Seq<AccessibilityNode>,
    desktop: Option<(u32, u32)>,
    task: ClickTask,
    report: ClickReport,
    next: ClickTask,
) -> bool {
    match (task, report) {
        (ClickTask::Gate(_), ClickReport::Gate(outcome)) => after == before && match outcome {
            Err(message) => fails(next, message@),
            Ok(_) => if before.target.target().names_window() {
                next == ClickTask::Focus(before.target.target())
            } else {
                next == ClickTask::ReadBounds(None)
            },
        },
        (ClickTask::Focus(target), ClickReport::Focus(focus)) => match focus_refusal(
            target,
            focus,
        ) {
            Some(message) => after == before && fails(next, message),
            None => match click_moved(before, focus->Ok_0, desktop) {
                Err(message) => after == before && fails(next, message),
                Ok((x, y)) => after == (ClickParams { x, y, ..before }) && next
                    == ClickTask::ReadBounds(Some(focus->Ok_0)),
            },
        },
        (ClickTask::ReadBounds(focus), ClickReport::Bounds(bounds)) => after == before
            && exists|selector: ElementSelector<'_>, plan: Result<ClickPlan, String>|
            selects(selector, before.role, before.name, before.text, before.states@)
                && #[trigger] plans_click(nodes, before, selector, bounds, plan) && match plan {
                Err(message) => fails(next, message@),
                Ok(ClickPlan::Invoke(action)) => next == (ClickTask::Invoke { action, focus }),
                Ok(ClickPlan::Point(click)) => begins_pointing(next, click, focus, before),
            },
        (ClickTask::Invoke { action, focus }, ClickReport::Invoked(outcome)) => after == before
            && exists|step: ClickNext| #[trigger]
            follows_action(action, outcome, step) && match step {
                ClickNext::Failed(output) => next == ClickTask::Done(output),
                ClickNext::Fallback(point) => begins_pointing(next, point, focus, before),
                ClickNext::Clicked(output) => {
                    &&& next is Look
                    &&& next->Look_output == output
                    &&& next->Look_notes@.len() == 0
                    &&& next->Look_element is Some
                    &&& (next->Look_element->0).0 == action.object_ref
                    &&& (next->Look_element->0).1@ == action.states@
                    &&& next->Look_focus == focus
                },
            },
        (ClickTask::Hold { click, focus }, ClickReport::Held(outcome)) => after == before
            && match outcome {
            Ok(_) => strikes(next, click, focus, before),
            Err(error) => exists|output: ActionOutput|
                says(
                    output,
                    "click"@,
                    false,
                    "Could not hold the modifiers through ydotool: "@ + error@,
                ) && #[trigger] ends_pointing(next, click, focus, output),
        },
        (ClickTask::Act { click, focus, .. }, ClickReport::Clicked(output)) => after == before
            && if click.held@.len() > 0 {
            next == (ClickTask::Release { click, focus, output })
        } else {
            ends_pointing(next, click, focus, output)
        },
        (ClickTask::Release { click, focus, output }, ClickReport::Released(outcome)) => after
            == before && exists|released: ActionOutput|
            adds_notes(
                released,
                output,
                seq![held_words(texts(before.modifiers@), "click"@, outcome)],
            ) && #[trigger] ends_pointing(next, click, focus, released),
        (ClickTask::Look { output, notes, .. }, ClickReport::Looked(seen)) => after == before
            && next is Done && adds_notes(next->Done_0, output, texts(notes@) + texts(seen@)),
        _ => true,
    }
}

fn strike(click: PointClick, focus: Option<WindowFocusResult>, params: &ClickParams) -> (r: ClickTask)
    ensures
        strikes(r, click, focus, *params),
{
    let stroke = click_stroke(click.x, click.y, params);
    ClickTask::Act { click, focus, stroke }
}

fn begin_pointing(click: PointClick, focus: Option<WindowFocusResult>, params: &ClickParams) -> (r:
    ClickTask)
    ensures
        begins_pointing(r, click, focus, *params),
{
    if click.held.len() > 0 {
        ClickTask::Hold { click, focus }
    } else {
        strike(click, focus, params)
    }
}

fn end_pointing(click: PointClick, focus: Option<WindowFocusResult>, output: ActionOutput) -> (r:
    ClickTask)
    ensures
        ends_pointing(r, click, focus, output),
{
    if output.ok {
        ClickTask::Look { output, notes: click.notes, element: click.element, focus }
    } else {
        ClickTask::Done(with_notes(output, &click.notes))
    }
}

fn failed(message: String) -> (r: ClickTask)
    ensures
        fails(r, message@),
{
    ClickTask::Done(action_failure("click", message))
}

/// What a click does next, by what came of the last: the allowlist first, then the focus of the
/// window that is named, then the element's own action or the pointer, and at last a look
/// where it landed. `nodes` is the cached tree, and `desktop` the size of the desktop as far
/// as it is known.
pub fn click(
    params: &mut ClickParams,
    nodes: &[AccessibilityNode],
    desktop: Option<(u32, u32)>,
    task: ClickTask,
    report: ClickReport,
) -> (r: ClickTask)
    requires
        reports(task, report),
        is_of(task, *old(params)),
    ensures
        click_follows(*old(params), *final(params), nodes@, desktop, task, report, r),
        is_of(r, *final(params)),
{
    match (task, report) {
        (ClickTask::Gate(_), ClickReport::Gate(outcome)) => match outcome {
            Err(message) => failed(message),
            Ok(_) => match params.window_target() {
                Some(target) => ClickTask::Focus(target),
                None => ClickTask::ReadBounds(None),
            },
        },
        (ClickTask::Focus(target), ClickReport::Focus(focus)) => match focus_target_for_input(
            &target,
            focus,
        ) {
            Err(message) => failed(message),
            Ok(focus) => match place_click(params, &focus, desktop) {
                Ok(_) => ClickTask::ReadBounds(Some(focus)),
                Err(message) => failed(message),
            },
        },
        (ClickTask::ReadBounds(focus), ClickReport::Bounds(bounds)) => {
            let plan = plan_click(nodes, params, bounds);
            let ghost given = plan;
            let ghost selector = choose|selector: ElementSelector<'_>|
                selects(selector, params.role, params.name, params.text, params.states@)
                    && #[trigger] plans_click(nodes@, *params, selector, bounds, given);
            let next = match plan {
                Err(message) => failed(message),
                Ok(ClickPlan::Invoke(action)) => ClickTask::Invoke { action, focus },
                Ok(ClickPlan::Point(click)) => begin_pointing(click, focus, params),
            };
            assert(plans_click(nodes@, *params, selector, bounds, given));
            next
        },
        (ClickTask::Invoke { action, focus }, ClickReport::Invoked(outcome)) => {
            let ghost invoked = action;
            let object_ref = action.object_ref.clone();
            let states = copy_texts(&action.states);
            let step = after_click_action(action, outcome);
            let ghost given = step;
            assert(follows_action(invoked, outcome, given));
            match step {
                ClickNext::Failed(output) => ClickTask::Done(output),
                ClickNext::Fallback(point) => begin_pointing(point, focus, params),
                ClickNext::Clicked(output) => ClickTask::Look {
                    output,
                    notes: Vec::new(),
                    element: Some((object_ref, states)),
                    focus,
                },
            }
        },
        (ClickTask::Hold { click, focus }, ClickReport::Held(outcome)) => match outcome {
            Ok(_) => strike(click, focus, params),
            Err(error) => end_pointing(click, focus, hold_failure("click", &error)),
        },
        (ClickTask::Act { click, focus, .. }, ClickReport::Clicked(output)) => if click.held.len() > 0 {
            ClickTask::Release { click, focus, output }
        } else {
            end_pointing(click, focus, output)
        },
        (ClickTask::Release { click, focus, output }, ClickReport::Released(outcome)) => {
            let note = release_note(&params.modifiers, "click", &outcome);
            let ghost said = note@;
            let notes = vec![note];
            assert(texts(notes@) =~= seq![said]);
            let released = with_notes(output, &notes);
            end_pointing(click, focus, released)
        },
        (ClickTask::Look { output, notes, .. }, ClickReport::Looked(seen)) => {
            let mut notes = notes;
            let mut seen = seen;
            let ghost first = notes@;
            let ghost rest = seen@;
            notes.append(&mut seen);
            assert(texts(notes@) =~= texts(first) + texts(rest));
            ClickTask::Done(with_notes(output, &notes))
        },
        (task, _) => task,
    }
}

/// Whether a task sends input to the desktop.
pub open spec fn sends_input(task: ClickTask) -> bool {
    task is Invoke || task is Hold || task is Act || task is Release
}

/// No click goes out before the allowlist has let its window pass and the window that is named
/// holds the focus it asks for: input is first sent after the bounds were read, the bounds are
/// read only after the allowlist or the focus, the allowlist leads past the focus only where no
/// window is named, a focus that is not the one asked for ends the click, and the window that
/// is focused is the one the allowlist was asked about.
pub proof fn a_click_is_gated_and_focused(
    before: ClickParams,
    after: ClickParams,
    nodes: Seq<AccessibilityNode>,
    desktop: Option<(u32, u32)>,
    task: ClickTask,
    report: ClickReport,
    next: ClickTask,
)
    requires
        reports(task, report),
        is_of(task, before),
        click_follows(before, after, nodes, desktop, task, report, next),
    ensures
        is_of(next, after),
        next is Focus ==> task->Gate_0 == Some(next->Focus_0),
        task is Gate && next is ReadBounds ==> task->Gate_0 is None,
        sends_input(next) ==> task is ReadBounds || sends_input(task),
        next is ReadBounds ==> task is Gate || task is Focus,
        task is Gate && report->Gate_0 is Err ==> next is Done && !next->Done_0.ok,
        task is Gate && next is ReadBounds ==> report->Gate_0 is Ok
            && !before.target.target().names_window(),
        next is Focus ==> task is Gate && report->Gate_0 is Ok && next->Focus_0
            == before.target.target(),
        task is Focus && next is ReadBounds ==> report->Focus_0 is Ok && satisfies(
            report->Focus_0->Ok_0,
            task->Focus_0,
        ),
{
}

/// Modifiers that were pressed come up again: between their press and the answer stands
/// their release, whatever the click came to.
pub proof fn pressed_modifiers_come_up(
    before: ClickParams,
    after: ClickParams,
    nodes: Seq<AccessibilityNode>,
    desktop: Option<(u32, u32)>,
    task: ClickTask,
    report: ClickReport,
    next: ClickTask,
)
    requires
        reports(task, report),
        click_follows(before, after, nodes, desktop, task, report, next),
    ensures
        task is Hold && report->Held_0 is Ok ==> next is Act && next->Act_click == task->Hold_click,
        task is Act && task->Act_click.held@.len() > 0 ==> next is Release && next->Release_click
            == task->Act_click,
{
}

/// Whether the element a click means is one the pointer is used for at once: it has no
/// action for the click, or modifiers are held.
pub open spec fn points_at_node(
    nodes: Seq<AccessibilityNode>,
    params: ClickParams,
    selector: ElementSelector<'_>,
    bounds: CachedBounds,
) -> bool {
    let plain = is_plain(text_of(params.button), params.click_count);
    let held = held_modifiers(texts(params.modifiers@));
    let node = node_meant(
        nodes,
        params.element_index,
        text_of(params.object_ref),
        selector,
        ElementResolvePurpose::Click,
    );
    &&& node is Ok
    &&& held is Ok
    &&& action_for(
        nodes[node->Ok_0],
        plain,
        desktop_center(nodes[node->Ok_0], bounds.shift()),
    ) is None || held->Ok_0.len() > 0
}

/// A click on an element that has an action for it goes through the action and leaves the
/// pointer alone, unless modifiers are held: the action is invoked first, and where the
/// application carried it out the pointer is not used.
pub proof fn an_action_click_leaves_the_pointer_alone(
    before: ClickParams,
    after: ClickParams,
    nodes: Seq<AccessibilityNode>,
    desktop: Option<(u32, u32)>,
    task: ClickTask,
    report: ClickReport,
    next: ClickTask,
)
    requires
        reports(task, report),
        click_follows(before, after, nodes, desktop, task, report, next),
    ensures
        task is Invoke && report->Invoked_0 is Done ==> next is Look && next->Look_output.ok,
        task is ReadBounds && (next is Hold || next is Act) && !(before.x is Some && before.y
            is Some) ==> exists|selector: ElementSelector<'_>|
            #[trigger] selects(selector, before.role, before.name, before.text, before.states@)
                && points_at_node(nodes, before, selector, report->Bounds_0),
{
}

/// A click's coordinates stand as they are unless they are relative; relative ones are so far
/// from the corner of the window that has the focus, as far as it is on the desktop.
pub proof fn coordinates_stand_unless_they_are_relative(
    params: ClickParams,
    focus: WindowFocusResult,
    desktop: Option<(u32, u32)>,
)
    ensures
        params.relative != Some(true) ==> click_moved(params, focus, desktop) == Ok::<
            (Option<i32>, Option<i32>),
            Seq<char>,
        >((params.x, params.y)),
        params.relative == Some(true) && click_moved(params, focus, desktop) is Ok ==> {
            let (x, y) = click_moved(params, focus, desktop)->Ok_0;
            let rect = focused_part(focus, desktop)->Ok_0;
            &&& focused_part(focus, desktop) is Ok
            &&& params.x is Some && params.y is Some && x is Some && y is Some
            &&& x->0 == rect.0 + params.x->0
            &&& y->0 == rect.1 + params.y->0
            &&& 0 <= params.x->0 < rect.2 && 0 <= params.y->0 < rect.3
        },
{
}

/// A click at coordinates is one of the pointer at that very point, with the modifiers that
/// are named held around it.
pub proof fn a_click_at_coordinates_is_made_there(
    nodes: Seq<AccessibilityNode>,
    params: ClickParams,
    selector: ElementSelector<'_>,
    bounds: CachedBounds,
    r: Result<ClickPlan, String>,
)
    requires
        plans_click(nodes, params, selector, bounds, r),
        params.x is Some,
        params.y is Some,
    ensures
        r is Ok <==> held_modifiers(texts(params.modifiers@)) is Ok,
        r is Ok ==> r->Ok_0 is Point && r->Ok_0->Point_0.x == params.x->0 && r->Ok_0->Point_0.y
            == params.y->0 && r->Ok_0->Point_0.held@ == held_modifiers(
            texts(params.modifiers@),
        )->Ok_0,
{
}

/// A click on an element is made on the very element that is named: by an action it offers,
/// and then no modifier is held; or by the pointer in the middle of its bounds on the
/// desktop, with the modifiers that are named held around it.
pub proof fn a_click_on_an_element_is_made_on_it(
    nodes: Seq<AccessibilityNode>,
    params: ClickParams,
    selector: ElementSelector<'_>,
    bounds: CachedBounds,
    r: Result<ClickPlan, String>,
)
    requires
        plans_click(nodes, params, selector, bounds, r),
        !(params.x is Some && params.y is Some),
        r is Ok,
    ensures
        ({
            let meant = node_meant(
                nodes,
                params.element_index,
                text_of(params.object_ref),
                selector,
                ElementResolvePurpose::Click,
            );
            let node = nodes[meant->Ok_0];
            &&& meant is Ok
            &&& r->Ok_0 is Invoke ==> {
                let action = r->Ok_0->Invoke_0;
                &&& params.modifiers@.len() == 0
                &&& action.object_ref@ == node.object_ref@
                &&& action.element_index == node.index
                &&& node.actions@.contains(action.action)
                &&& action.point == desktop_center(node, bounds.shift())
                &&& params.click_count is None || params.click_count->0 == 1
                &&& params.button is None || lower(params.button->0@) == "left"@ || lower(
                    params.button->0@,
                ) == "primary"@
            }
            &&& r->Ok_0 is Point ==> {
                let click = r->Ok_0->Point_0;
                &&& desktop_center(node, bounds.shift()) == Some((click.x, click.y))
                &&& held_modifiers(texts(params.modifiers@)) == Ok::<Seq<u16>, Seq<char>>(
                    click.held@,
                )
                &&& click.element is Some && (click.element->0).0@ == node.object_ref@
            }
        }),
{
    let meant = node_meant(
        nodes,
        params.element_index,
        text_of(params.object_ref),
        selector,
        ElementResolvePurpose::Click,
    );
    if meant is Ok {
        the_first_match_is_the_first(nodes[meant->Ok_0].actions@, is_click());
    }
    held_modifiers_are_those_named(texts(params.modifiers@));
    if held_modifiers(texts(params.modifiers@)) is Ok && params.modifiers@.len() > 0 {
        let names = texts(params.modifiers@);
        assert(held_modifiers(names)->Ok_0.contains(modifier_code(names[0])->0));
    }
}

/// A click is repeated as often as is asked, once at least and ten times at most, and once
/// where nothing is asked.
pub proof fn a_click_is_repeated_as_asked(count: u32)
    ensures
        repeats(None) == 1,
        1 <= count <= 10 ==> repeats(Some(count)) == count,
        count == 0 ==> repeats(Some(count)) == 1,
        count > 10 ==> repeats(Some(count)) == 10,
{
}

/// The stroke of a click is made where the click is, by the button that is named and as often
/// as is asked: the first command of the fallback goes to the point, and the second strikes
/// the button there.
pub proof fn a_stroke_is_made_where_the_click_is(
    stroke: Stroke,
    x: i32,
    y: i32,
    params: ClickParams,
)
    requires
        is_stroke(stroke, x, y, params),
    ensures
        stroke.button == PointerButton::named(text_of(params.button)),
        stroke.repeats == repeats(params.click_count),
        command_texts(stroke.commands@).len() == 2,
        command_texts(stroke.commands@)[0] == seq![
            "mousemove"@,
            "--absolute"@,
            "--"@,
            decimal(x as int),
            decimal(y as int),
        ],
        command_texts(stroke.commands@)[1] == seq![
            "click"@,
            "--repeat"@,
            decimal(repeats(params.click_count)),
            ydotool_button(text_of(params.button)),
        ],
{
}

/// Once the bounds are read, a click at coordinates is struck there by the stroke that is
/// asked for, after the modifiers went down where there are any.
pub proof fn a_click_at_coordinates_is_struck_there(
    before: ClickParams,
    after: ClickParams,
    nodes: Seq<AccessibilityNode>,
    desktop: Option<(u32, u32)>,
    task: ClickTask,
    bounds: CachedBounds,
    next: ClickTask,
)
    requires
        task is ReadBounds,
        click_follows(before, after, nodes, desktop, task, ClickReport::Bounds(bounds), next),
        before.x is Some,
        before.y is Some,
    ensures
        next is Hold || next is Act || next is Done,
        next is Act ==> is_stroke(next->stroke, before.x->0, before.y->0, before)
            && next->Act_click.x == before.x->0 && next->Act_click.y == before.y->0,
        next is Hold ==> next->Hold_click.x == before.x->0 && next->Hold_click.y == before.y->0
            && next->Hold_click.held@.len() > 0,
        next is Done ==> !next->Done_0.ok && held_modifiers(texts(before.modifiers@)) is Err,
        before.modifiers@.len() == 0 ==> next is Act,
{
    assert(before.modifiers@.len() == 0 ==> texts(before.modifiers@) =~= Seq::empty());
}

/// What was held is what is struck and what is released: the stroke after the modifiers went
/// down is made where the click was planned, and no stroke is made after they failed to.
pub proof fn a_held_click_is_struck_where_it_was_planned(
    before: ClickParams,
    after: ClickParams,
    nodes: Seq<AccessibilityNode>,
    desktop: Option<(u32, u32)>,
    task: ClickTask,
    report: ClickReport,
    next: ClickTask,
)
    requires
        task is Hold,
        reports(task, report),
        click_follows(before, after, nodes, desktop, task, report, next),
    ensures
        report->Held_0 is Ok ==> next is Act && is_stroke(
            next->stroke,
            task->Hold_click.x,
            task->Hold_click.y,
            before,
        ),
        report->Held_0 is Err ==> next is Done && !next->Done_0.ok,
{
}

/// A click of the pointer on an element says where it is made, and before that, exactly where
/// modifiers are held over an action the element has, that the action was passed over.
pub proof fn an_action_passed_over_is_told(
    plan: ClickPlan,
    node: AccessibilityNode,
    plain: bool,
    bounds: CachedBounds,
    held: Seq<u16>,
)
    requires
        plans_node(plan, node, plain, bounds, held),
        plan is Point,
    ensures
        ({
            let at = desktop_center(node, bounds.shift());
            let notes = texts(plan->Point_0.notes@);
            &&& action_for(node, plain, at) is Some ==> held.len() > 0 && notes.len() == 2
                && notes[0] == ACTION_SKIPPED@
            &&& action_for(node, plain, at) is None ==> notes.len() == 1
        }),
{
}

} // verus!
