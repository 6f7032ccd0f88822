//! `drag`: where both ends are, and what is said of them.

use vstd::prelude::*;
use vstd::string::StringExecFns;
use crate::abs_pointer::DragLanding;
use crate::cache::{
    cached_node_label, center_for_cached_node, center_of_index, desktop_center, indexed, label_of,
    CachedBounds,
};
use crate::elements::AccessibilityNode;
use crate::geometry::{
    abs_pointer_clamp_note, clamp_words, focused_part, focused_window_coordinate_map,
    moved_words, pointer_moved_note,
};
use crate::gate::{
    focus_refusal, focus_target_for_input, is_allowed, is_verdict, refusal, satisfies,
    target_verdict,
};
use crate::input::{held_words, hold_failure, release_note};
use crate::keys::{held_modifiers, modifier_keycodes};
use crate::notes::{
    action_failure, action_result, action_success, noted, says, with_notes, ActionOutput,
};
use crate::numerals::{decimal, decimal_of, signed_decimal_of};
use crate::params::DragParams;
use crate::select::{first_match, the_first_match_is_the_first};
use crate::text::{cat, texts, texts_push};
use crate::tools::click::adds_notes;
use crate::tools::keyboard::{landing_notes, notes_given};
use crate::windowing::target::resolved;
use crate::windowing::types::{WindowFocusResult, WindowInfo, WindowTarget};

verus! {

/// What to do about the focus before a drag.
#[derive(Debug)]
pub enum FocusNeed {
    /// Nothing may be done.
    Refused(String),
    /// This window is to be focused first.
    Focus(WindowTarget),
    /// The focus stays where it is.
    Nothing,
}

/// What to do about the focus before a drag: a window that is named is focused, and
/// window-relative coordinates need one.
pub fn drag_focus(params: &DragParams) -> (r: FocusNeed)
    ensures
        match r {
            FocusNeed::Refused(message) => params.relative == Some(true)
                && !params.target.target().names_window() && message@
                == "Relative drag coordinates require a window target."@,
            FocusNeed::Focus(target) => Some(target) == params.target.target().window_named(),
            FocusNeed::Nothing => params.relative != Some(true)
                && !params.target.target().names_window(),
        },
{
    match params.window_target() {
        Some(target) => FocusNeed::Focus(target),
        None => match params.relative {
            Some(true) => FocusNeed::Refused(
                "Relative drag coordinates require a window target.".to_owned(),
            ),
            _ => FocusNeed::Nothing,
        },
    }
}

/// The point the coordinates of a drag count from, once its window is focused.
pub fn drag_origin(
    params: &DragParams,
    focus: &WindowFocusResult,
    desktop: Option<(u32, u32)>,
) -> (r: Result<(i32, i32), String>)
    ensures
        if params.relative == Some(true) {
            match focused_part(*focus, desktop) {
                Ok(rect) => r == Ok::<(i32, i32), String>((rect.0, rect.1)),
                Err(message) => r is Err && r->Err_0@ == message,
            }
        } else {
            r == Ok::<(i32, i32), String>((0, 0))
        },
{
    match params.relative {
        Some(true) => match focused_window_coordinate_map(focus, desktop) {
            Ok((x, y, _, _)) => Ok((x, y)),
            Err(message) => Err(message),
        },
        _ => Ok((0, 0)),
    }
}

/// A point in words.
pub open spec fn point_text(point: (i32, i32)) -> Seq<char> {
    "("@ + decimal(point.0 as int) + ", "@ + decimal(point.1 as int) + ")"@
}

/// A point in words.
pub fn describe_point(point: (i32, i32)) -> (r: String)
    ensures
        r@ == point_text(point),
{
    let mut words = cat("(", &signed_decimal_of(point.0 as i64));
    words.append(", ");
    words.append(&signed_decimal_of(point.1 as i64));
    words.append(")");
    words
}

/// One end of a drag as its caller named it.
#[derive(Debug, Clone, Copy)]
pub struct DragEnd {
    pub element_index: Option<u32>,
    pub x: Option<i32>,
    pub y: Option<i32>,
}

/// Whether coordinates, counted from an origin, are coordinates of a point.
pub open spec fn counts_from(end: DragEnd, origin: (i32, i32)) -> bool {
    end.x is Some && end.y is Some ==> i32::MIN <= end.x->0 + origin.0 <= i32::MAX && i32::MIN
        <= end.y->0 + origin.1 <= i32::MAX
}

/// Whether coordinates, counted from an origin, are coordinates of a point.
fn end_fits(end: DragEnd, origin: (i32, i32)) -> (r: bool)
    ensures
        r == counts_from(end, origin),
{
    match (end.x, end.y) {
        (Some(x), Some(y)) => {
            let sum_x: i64 = x as i64 + origin.0 as i64;
            let sum_y: i64 = y as i64 + origin.1 as i64;
            i32::MIN as i64 <= sum_x && sum_x <= i32::MAX as i64 && i32::MIN as i64 <= sum_y
                && sum_y <= i32::MAX as i64
        },
        _ => true,
    }
}

/// Where one end of a drag is, and what is said of it, or why it is nowhere. An element
/// and coordinates exclude each other.
pub open spec fn end_meant(
    nodes: Seq<AccessibilityNode>,
    label: Seq<char>,
    end: DragEnd,
    origin: (i32, i32),
    offset: Option<(i32, i32)>,
) -> Result<((i32, i32), Seq<char>), Seq<char>> {
    if end.element_index is Some {
        let index = end.element_index->0;
        if end.x is Some || end.y is Some {
            Err(
                "Give either "@ + label + "_element_index or "@ + label + "_x/"@ + label
                    + "_y, not both."@,
            )
        } else {
            match center_of_index(nodes, index, offset) {
                None => Err(
                    "No bounds cached for "@ + label + "_element_index "@ + decimal(index as int)
                        + ". Call get_app_state first and choose a node with positive width and height."@,
                ),
                Some(point) => {
                    let element = match first_match(nodes, indexed(index)) {
                        Some(k) => label_of(nodes[k]),
                        None => "unknown element"@,
                    };
                    let opening = label + "_element_index "@ + decimal(index as int) + " ("@
                        + element + ") resolved to desktop point "@ + point_text(point);
                    Ok(
                        (
                            point,
                            match offset {
                                Some(shift) => opening
                                    + ": the tree's window-relative bounds were offset by the window origin "@
                                    + point_text(shift) + "."@,
                                None => opening + "."@,
                            },
                        ),
                    )
                },
            }
        }
    } else if end.x is None || end.y is None {
        Err(
            "A drag needs "@ + label + "_x and "@ + label + "_y, or "@ + label + "_element_index."@,
        )
    } else if !counts_from(end, origin) {
        Err(
            label + " is no point of the desktop: window-relative "@ + point_text(
                (end.x->0, end.y->0),
            ) + " is out of range behind the window origin "@ + point_text(origin) + "."@,
        )
    } else {
        let point = ((end.x->0 + origin.0) as i32, (end.y->0 + origin.1) as i32);
        let opening = label + " resolved to desktop point "@ + point_text(point);
        Ok(
            (
                point,
                if origin == (0i32, 0i32) {
                    opening + "."@
                } else {
                    opening + ": window-relative "@ + point_text((end.x->0, end.y->0))
                        + " offset by the window origin "@ + point_text(origin) + "."@
                },
            ),
        )
    }
}

/// Where one end of a drag is, and what is said of it.
pub fn drag_endpoint(
    nodes: &[AccessibilityNode],
    label: &str,
    end: DragEnd,
    origin: (i32, i32),
    offset: Option<(i32, i32)>,
) -> (r: Result<((i32, i32), String), String>)
    ensures
        match end_meant(nodes@, label@, end, origin, offset) {
            Ok((point, note)) => r is Ok && (r->Ok_0).0 == point && (r->Ok_0).1@ == note,
            Err(message) => r is Err && r->Err_0@ == message,
        },
{
    if let Some(index) = end.element_index {
        if end.x.is_some() || end.y.is_some() {
            let mut message = cat("Give either ", label);
            message.append("_element_index or ");
            message.append(label);
            message.append("_x/");
            message.append(label);
            message.append("_y, not both.");
            return Err(message);
        }
        let point = match center_for_cached_node(nodes, index, offset) {
            Some(point) => point,
            None => {
                let mut message = cat("No bounds cached for ", label);
                message.append("_element_index ");
                message.append(&decimal_of(index as u64));
                message.append(
                    ". Call get_app_state first and choose a node with positive width and height.",
                );
                return Err(message);
            },
        };
        let mut note = cat(label, "_element_index ");
        note.append(&decimal_of(index as u64));
        note.append(" (");
        match cached_node_label(nodes, index) {
            Some(element) => note.append(&element),
            None => note.append("unknown element"),
        }
        note.append(") resolved to desktop point ");
        note.append(&describe_point(point));
        match offset {
            Some(shift) => {
                note.append(": the tree's window-relative bounds were offset by the window origin ");
                note.append(&describe_point(shift));
                note.append(".");
            },
            None => note.append("."),
        }
        return Ok((point, note));
    }
    match (end.x, end.y) {
        (Some(x), Some(y)) => {
            if !end_fits(end, origin) {
                let mut message = cat(label, " is no point of the desktop: window-relative ");
                message.append(&describe_point((x, y)));
                message.append(" is out of range behind the window origin ");
                message.append(&describe_point(origin));
                message.append(".");
                return Err(message);
            }
            let point: (i32, i32) = (x + origin.0, y + origin.1);
            let mut note = cat(label, " resolved to desktop point ");
            note.append(&describe_point(point));
            if origin.0 == 0 && origin.1 == 0 {
                note.append(".");
            } else {
                note.append(": window-relative ");
                note.append(&describe_point((x, y)));
                note.append(" offset by the window origin ");
                note.append(&describe_point(origin));
                note.append(".");
            }
            Ok((point, note))
        },
        _ => {
            let mut message = cat("A drag needs ", label);
            message.append("_x and ");
            message.append(label);
            message.append("_y, or ");
            message.append(label);
            message.append("_element_index.");
            Err(message)
        },
    }
}

impl DragParams {
    /// Where the drag starts, as its caller named it.
    pub open spec fn first(self) -> DragEnd {
        DragEnd { element_index: self.start_element_index, x: self.start_x, y: self.start_y }
    }

    /// Where the drag ends, as its caller named it.
    pub open spec fn last(self) -> DragEnd {
        DragEnd { element_index: self.end_element_index, x: self.end_x, y: self.end_y }
    }

    /// Where the drag starts, as its caller named it.
    pub fn start_end(&self) -> (r: DragEnd)
        ensures
            r == self.first(),
    {
        DragEnd { element_index: self.start_element_index, x: self.start_x, y: self.start_y }
    }

    /// Where the drag ends, as its caller named it.
    pub fn stop_end(&self) -> (r: DragEnd)
        ensures
            r == self.last(),
    {
        DragEnd { element_index: self.end_element_index, x: self.end_x, y: self.end_y }
    }
}

/// Both ends of a drag on the desktop, and a note on how each resolved, so a drag that
/// lands somewhere unexpected can be read back from the result instead of guessed at.
#[derive(Debug)]
pub struct DragEndpoints {
    pub start: (i32, i32),
    pub end: (i32, i32),
    pub notes: Vec<String>,
}

/// Where both ends of a drag are, or why one of them is nowhere, the start first.
pub fn resolve_drag_endpoints(
    nodes: &[AccessibilityNode],
    params: &DragParams,
    origin: (i32, i32),
    offset: Option<(i32, i32)>,
) -> (r: Result<DragEndpoints, String>)
    ensures
        match end_meant(nodes@, "start"@, params.first(), origin, offset) {
            Err(message) => r is Err && r->Err_0@ == message,
            Ok((start, start_note)) => match end_meant(
                nodes@,
                "end"@,
                params.last(),
                origin,
                offset,
            ) {
                Err(message) => r is Err && r->Err_0@ == message,
                Ok((end, end_note)) => r is Ok && r->Ok_0.start == start && r->Ok_0.end == end
                    && texts(r->Ok_0.notes@) == seq![start_note, end_note],
            },
        },
{
    let (start, start_note) = match drag_endpoint(
        nodes,
        "start",
        params.start_end(),
        origin,
        offset,
    ) {
        Ok(resolved) => resolved,
        Err(message) => return Err(message),
    };
    let (end, end_note) = match drag_endpoint(nodes, "end", params.stop_end(), origin, offset) {
        Ok(resolved) => resolved,
        Err(message) => return Err(message),
    };
    let ghost said = seq![start_note@, end_note@];
    let notes = vec![start_note, end_note];
    assert(texts(notes@) =~= said);
    Ok(DragEndpoints { start, end, notes })
}

/// What is said of a drag through the absolute pointer.
pub fn abs_drag_output(landing: &DragLanding) -> (r: ActionOutput)
    ensures
        says(
            r,
            "drag"@,
            true,
            "Action sent through the uinput absolute pointer: pressed at "@ + point_text(
                landing.start.emitted,
            ) + ", moved to "@ + point_text(landing.end.emitted) + " in "@ + decimal(
                landing.steps as int,
            ) + " steps, released there."@,
        ),
{
    let mut message = cat(
        "Action sent through the uinput absolute pointer: pressed at ",
        &describe_point(landing.start.emitted),
    );
    message.append(", moved to ");
    message.append(&describe_point(landing.end.emitted));
    message.append(" in ");
    message.append(&signed_decimal_of(landing.steps as i64));
    message.append(" steps, released there.");
    action_success("drag", message)
}

/// What came of a drag.
#[derive(Debug)]
pub enum DragOutcome {
    /// The absolute pointer dragged; where the compositor says the pointer is, if it says.
    Absolute { landing: DragLanding, actual: Option<(i32, i32)> },
    /// ydotool was tried.
    Ydotool(Result<(), String>),
}

/// Whether an answer is what a drag came to.
pub open spec fn tells_drag(outcome: DragOutcome, output: ActionOutput) -> bool {
    match outcome {
        DragOutcome::Absolute { landing, actual } => says(
            output,
            "drag"@,
            true,
            noted(
                "Action sent through the uinput absolute pointer: pressed at "@ + point_text(
                    landing.start.emitted,
                ) + ", moved to "@ + point_text(landing.end.emitted) + " in "@ + decimal(
                    landing.steps as int,
                ) + " steps, released there."@,
                notes_given(
                    seq![
                        clamp_words(landing.start),
                        clamp_words(landing.end),
                        moved_words(actual, landing.end.emitted),
                    ],
                ),
            ),
        ),
        DragOutcome::Ydotool(result) => says(
            output,
            "drag"@,
            result is Ok,
            match result {
                Ok(_) => "Action sent through ydotool."@,
                Err(message) => message@,
            },
        ),
    }
}

/// What a drag came to, through the absolute pointer or else through ydotool.
pub fn drag_inner(outcome: DragOutcome) -> (r: ActionOutput)
    ensures
        tells_drag(outcome, r),
{
    match outcome {
        DragOutcome::Absolute { landing, actual } => {
            let moved = pointer_moved_note(actual, landing.end.emitted);
            let notes = landing_notes(
                abs_pointer_clamp_note(landing.start),
                abs_pointer_clamp_note(landing.end),
                moved,
            );
            with_notes(abs_drag_output(&landing), &notes)
        },
        DragOutcome::Ydotool(result) => action_result("drag", result),
    }
}

/// A drag between two desktop points goes between exactly those points.
pub proof fn desktop_ends_stay_put(
    nodes: Seq<AccessibilityNode>,
    label: Seq<char>,
    end: DragEnd,
    offset: Option<(i32, i32)>,
)
    requires
        end.element_index is None,
        end.x is Some,
        end.y is Some,
    ensures
        end_meant(nodes, label, end, (0, 0), offset) is Ok,
        (end_meant(nodes, label, end, (0, 0), offset)->Ok_0).0 == (end.x->0, end.y->0),
{
}

/// The next thing a drag does.
#[derive(Debug)]
pub enum DragTask {
    /// Ask the allowlist about this window, or about the focused one.
    Gate(Option<WindowTarget>),
    /// Focus this window.
    Focus { target: WindowTarget, held: Vec<u16> },
    /// Bring the bounds of the cached tree up to date; the coordinates count from here.
    ReadBounds { origin: (i32, i32), held: Vec<u16> },
    /// Press the modifiers.
    Hold { ends: DragEndpoints, held: Vec<u16> },
    /// Drag.
    Act { ends: DragEndpoints, held: Vec<u16> },
    /// Release the modifiers.
    Release { ends: DragEndpoints, held: Vec<u16>, output: ActionOutput },
    /// Look where the drag landed, and say so behind these notes.
    Look { output: ActionOutput, notes: Vec<String> },
    /// Nothing: this is the answer.
    Done(ActionOutput),
}

/// What came of a task.
#[derive(Debug)]
pub enum DragReport {
    Gate(Result<(), String>),
    Focus(Result<WindowFocusResult, String>),
    Bounds(CachedBounds),
    Held(Result<(), String>),
    Dragged(ActionOutput),
    Released(Result<(), String>),
    Looked(Vec<String>),
}

/// Whether a report is one of a task.
pub open spec fn reports(task: DragTask, report: DragReport) -> bool {
    match task {
        DragTask::Gate(_) => report is Gate,
        DragTask::Focus { .. } => report is Focus,
        DragTask::ReadBounds { .. } => report is Bounds,
        DragTask::Hold { .. } => report is Held,
        DragTask::Act { .. } => report is Dragged,
        DragTask::Release { .. } => report is Released,
        DragTask::Look { .. } => report is Looked,
        DragTask::Done(_) => false,
    }
}

/// Whether a task is one of a request: the allowlist is asked about the window that the
/// request names, and that window is the one that is focused.
pub open spec fn is_of(task: DragTask, params: DragParams) -> bool {
    match task {
        DragTask::Gate(asked) => asked == params.target.target().window_named(),
        DragTask::Focus { target, .. } => Some(target) == params.target.target().window_named(),
        _ => true,
    }
}

/// The first thing a drag does: ask the allowlist.
pub fn start_drag(params: &DragParams) -> (r: DragTask)
    ensures
        r == DragTask::Gate(params.target.target().window_named()),
        is_of(r, *params),
{
    DragTask::Gate(params.window_target())
}

/// Whether an answer is that a drag failed.
pub open spec fn fails(task: DragTask, message: Seq<char>) -> bool {
    task is Done && says(task->Done_0, "drag"@, false, message)
}

/// Whether a task ends a drag: a failure is the answer, with what is said of the ends, and
/// after a success it is looked where it landed.
pub open spec fn ends_drag(task: DragTask, output: ActionOutput, notes: Seq<Seq<char>>) -> bool {
    if output.ok {
        task is Look && task->Look_output == output && texts(task->Look_notes@) == notes
    } else {
        task is Done && adds_notes(task->Done_0, output, notes)
    }
}

/// Whether endpoints are where both ends of a drag are.
pub open spec fn are_endpoints(
    ends: DragEndpoints,
    nodes: Seq<AccessibilityNode>,
    params: DragParams,
    origin: (i32, i32),
    offset: Option<(i32, i32)>,
) -> bool {
    let start = end_meant(nodes, "start"@, params.first(), origin, offset);
    let end = end_meant(nodes, "end"@, params.last(), origin, offset);
    &&& start is Ok && end is Ok
    &&& ends.start == (start->Ok_0).0
    &&& ends.end == (end->Ok_0).0
    &&& texts(ends.notes@) == seq![(start->Ok_0).1, (end->Ok_0).1]
}

/// Whether the next task is what follows one, by what came of it.
pub open spec fn drag_follows(
    params: DragParams,
    nodes: Seq<AccessibilityNode>,
    desktop: Option<(u32, u32)>,
    task: DragTask,
    report: DragReport,
    next: DragTask,
) -> bool {
    match (task, report) {
        (DragTask::Gate(_), DragReport::Gate(outcome)) => match outcome {
            Err(message) => fails(next, message@),
            Ok(_) => match held_modifiers(texts(params.modifiers@)) {
                Err(message) => fails(next, message),
                Ok(codes) => if params.target.target().names_window() {
                    next is Focus && next->target == params.target.target() && next->Focus_held@
                        == codes
                } else if params.relative == Some(true) {
                    fails(next, "Relative drag coordinates require a window target."@)
                } else {
                    next is ReadBounds && next->origin == (0i32, 0i32) && next->ReadBounds_held@
                        == codes
                },
            },
        },
        (DragTask::Focus { target, held }, DragReport::Focus(focus)) => match focus_refusal(
            target,
            focus,
        ) {
            Some(message) => fails(next, message),
            None => if params.relative == Some(true) {
                match focused_part(focus->Ok_0, desktop) {
                    Ok(rect) => next == (DragTask::ReadBounds { origin: (rect.0, rect.1), held }),
                    Err(message) => fails(next, message),
                }
            } else {
                next == (DragTask::ReadBounds { origin: (0, 0), held })
            },
        },
        (DragTask::ReadBounds { origin, held }, DragReport::Bounds(bounds)) => match end_meant(
            nodes,
            "start"@,
            params.first(),
            origin,
            bounds.shift(),
        ) {
            Err(message) => fails(next, message),
            Ok(_) => match end_meant(nodes, "end"@, params.last(), origin, bounds.shift()) {
                Err(message) => fails(next, message),
                Ok(_) => exists|ends: DragEndpoints|
                    #[trigger] are_endpoints(ends, nodes, params, origin, bounds.shift())
                        && if held@.len() > 0 {
                        next == (DragTask::Hold { ends, held })
                    } else {
                        next == (DragTask::Act { ends, held })
                    },
            },
        },
        (DragTask::Hold { ends, held }, DragReport::Held(outcome)) => match outcome {
            Ok(_) => next == (DragTask::Act { ends, held }),
            Err(error) => fails(next, "Could not hold the modifiers through ydotool: "@ + error@),
        },
        (DragTask::Act { ends, held }, DragReport::Dragged(output)) => if held@.len() > 0 {
            next == (DragTask::Release { ends, held, output })
        } else {
            ends_drag(next, output, texts(ends.notes@))
        },
        (DragTask::Release { ends, output, .. }, DragReport::Released(outcome)) => ends_drag(
            next,
            output,
            texts(ends.notes@).push(held_words(texts(params.modifiers@), "drag"@, outcome)),
        ),
        (DragTask::Look { output, notes }, DragReport::Looked(seen)) => next is Done && adds_notes(
            next->Done_0,
            output,
            texts(notes@) + texts(seen@),
        ),
        _ => true,
    }
}

fn end_drag(output: ActionOutput, notes: Vec<String>) -> (r: DragTask)
    ensures
        ends_drag(r, output, texts(notes@)),
{
    if output.ok {
        DragTask::Look { output, notes }
    } else {
        DragTask::Done(with_notes(output, &notes))
    }
}

fn failed(message: String) -> (r: DragTask)
    ensures
        fails(r, message@),
{
    DragTask::Done(action_failure("drag", message))
}

/// What a drag does next, by what came of the last: the allowlist first, then the focus of the
/// window that is named, then both ends, the modifiers around the drag, and at last a look
/// where it landed. `nodes` is the cached tree, and `desktop` the size of the desktop as far
/// as it is known.
pub fn drag(
    params: &DragParams,
    nodes: &[AccessibilityNode],
    desktop: Option<(u32, u32)>,
    task: DragTask,
    report: DragReport,
) -> (r: DragTask)
    requires
        reports(task, report),
        is_of(task, *params),
    ensures
        drag_follows(*params, nodes@, desktop, task, report, r),
        is_of(r, *params),
{
    match (task, report) {
        (DragTask::Gate(_), DragReport::Gate(outcome)) => {
            match outcome {
                Err(message) => return failed(message),
                Ok(_) => {},
            }
            let held = match modifier_keycodes(&params.modifiers) {
                Ok(codes) => codes,
                Err(message) => return failed(message),
            };
            match drag_focus(params) {
                FocusNeed::Refused(message) => failed(message),
                FocusNeed::Focus(target) => DragTask::Focus { target, held },
                FocusNeed::Nothing => DragTask::ReadBounds { origin: (0, 0), held },
            }
        },
        (DragTask::Focus { target, held }, DragReport::Focus(focus)) => match focus_target_for_input(
            &target,
            focus,
        ) {
            Err(message) => failed(message),
            Ok(focus) => match drag_origin(params, &focus, desktop) {
                Ok(origin) => DragTask::ReadBounds { origin, held },
                Err(message) => failed(message),
            },
        },
        (DragTask::ReadBounds { origin, held }, DragReport::Bounds(bounds)) => {
            match resolve_drag_endpoints(nodes, params, origin, bounds.offset()) {
                Err(message) => failed(message),
                Ok(ends) => {
                    assert(are_endpoints(ends, nodes@, *params, origin, bounds.shift()));
                    if held.len() > 0 {
                        DragTask::Hold { ends, held }
                    } else {
                        DragTask::Act { ends, held }
                    }
                },
            }
        },
        (DragTask::Hold { ends, held }, DragReport::Held(outcome)) => match outcome {
            Ok(_) => DragTask::Act { ends, held },
            Err(error) => DragTask::Done(hold_failure("drag", &error)),
        },
        (DragTask::Act { ends, held }, DragReport::Dragged(output)) => if held.len() > 0 {
            DragTask::Release { ends, held, output }
        } else {
            end_drag(output, ends.notes)
        },
        (DragTask::Release { ends, output, .. }, DragReport::Released(outcome)) => {
            broadcast use texts_push;

            let mut notes = ends.notes;
            notes.push(release_note(&params.modifiers, "drag", &outcome));
            end_drag(output, notes)
        },
        (DragTask::Look { output, notes }, DragReport::Looked(seen)) => {
            let mut notes = notes;
            let mut seen = seen;
            let ghost first = notes@;
            let ghost rest = seen@;
            notes.append(&mut seen);
            assert(texts(notes@) =~= texts(first) + texts(rest));
            DragTask::Done(with_notes(output, &notes))
        },
        (task, _) => task,
    }
}

/// Whether a task sends input to the desktop.
pub open spec fn sends_input(task: DragTask) -> bool {
    task is Hold || task is Act || task is Release
}

/// No drag goes out before the allowlist has let its window pass and the window that is named
/// holds the focus it asks for; the window that is focused is the one the allowlist was asked
/// about; and modifiers that were pressed for it come up whatever it came to.
pub proof fn a_drag_is_gated_and_focused(
    params: DragParams,
    nodes: Seq<AccessibilityNode>,
    desktop: Option<(u32, u32)>,
    task: DragTask,
    report: DragReport,
    next: DragTask,
)
    requires
        reports(task, report),
        is_of(task, params),
        drag_follows(params, nodes, desktop, task, report, next),
    ensures
        is_of(next, params),
        next is Focus ==> task->Gate_0 == Some(next->target),
        task is Gate && next is ReadBounds ==> task->Gate_0 is None,
        task is Gate && report->Gate_0 is Err ==> next is Done && !next->Done_0.ok,
        sends_input(next) ==> task is ReadBounds || sends_input(task),
        next is ReadBounds ==> task is Gate || task is Focus,
        task is Gate && next is ReadBounds ==> report->Gate_0 is Ok
            && !params.target.target().names_window(),
        next is Focus ==> task is Gate && next->target == params.target.target(),
        task is Focus && next is ReadBounds ==> report->Focus_0 is Ok && satisfies(
            report->Focus_0->Ok_0,
            task->target,
        ),
        task is Act && task->Act_held@.len() > 0 ==> next is Release,
{
}

/// A drag on a window that the allowlist excludes ends with the refusal, though the focused
/// window be one it allows: the verdict is on the window the drag names.
pub proof fn an_excluded_window_is_not_dragged_on(
    params: DragParams,
    nodes: Seq<AccessibilityNode>,
    desktop: Option<(u32, u32)>,
    patterns: Seq<Seq<char>>,
    windows: Seq<WindowInfo>,
    task: DragTask,
    report: DragReport,
    next: DragTask,
)
    requires
        params.target.target().names_window(),
        resolved(windows, params.target.target()) is Ok,
        !is_allowed(windows[resolved(windows, params.target.target())->Ok_0], patterns),
        task is Gate,
        is_of(task, params),
        report is Gate,
        is_verdict(
            report->Gate_0,
            target_verdict("drag"@, patterns, task->Gate_0->0, Ok(windows)),
        ),
        drag_follows(params, nodes, desktop, task, report, next),
    ensures
        fails(
            next,
            refusal(
                "drag"@,
                windows[resolved(windows, params.target.target())->Ok_0],
                patterns,
            ),
        ),
{
}

/// Where the coordinates of a drag lead, counted from an origin, or the middle of the first
/// element of the index that is named in their place.
pub open spec fn leads_to(
    nodes: Seq<AccessibilityNode>,
    element_index: Option<u32>,
    x: Option<i32>,
    y: Option<i32>,
    origin: (i32, i32),
    offset: Option<(i32, i32)>,
    point: (i32, i32),
) -> bool {
    if element_index is Some {
        x is None && y is None && exists|k: int|
            0 <= k < nodes.len() && (#[trigger] nodes[k]).index == element_index->0
                && desktop_center(nodes[k], offset) == Some(point)
    } else {
        x is Some && y is Some && point.0 == x->0 + origin.0 && point.1 == y->0 + origin.1
    }
}

proof fn an_end_leads_to_its_point(
    nodes: Seq<AccessibilityNode>,
    label: Seq<char>,
    end: DragEnd,
    origin: (i32, i32),
    offset: Option<(i32, i32)>,
)
    requires
        end_meant(nodes, label, end, origin, offset) is Ok,
    ensures
        leads_to(
            nodes,
            end.element_index,
            end.x,
            end.y,
            origin,
            offset,
            (end_meant(nodes, label, end, origin, offset)->Ok_0).0,
        ),
{
    if end.element_index is Some {
        the_first_match_is_the_first(nodes, indexed(end.element_index->0));
        let k = first_match(nodes, indexed(end.element_index->0))->0;
        assert(nodes[k].index == end.element_index->0);
    }
}

/// A drag goes from where its start is named to where its end is: by coordinates, counted
/// from the origin that was found, or by elements, and with the modifiers held around it.
pub proof fn a_drag_goes_from_its_start_to_its_end(
    params: DragParams,
    nodes: Seq<AccessibilityNode>,
    desktop: Option<(u32, u32)>,
    task: DragTask,
    bounds: CachedBounds,
    next: DragTask,
)
    requires
        task is ReadBounds,
        drag_follows(params, nodes, desktop, task, DragReport::Bounds(bounds), next),
    ensures
        next is Hold || next is Act || (next is Done && !next->Done_0.ok),
        next is Hold <==> !(next is Done) && task->ReadBounds_held@.len() > 0,
        !(next is Done) ==> {
            let ends = if next is Hold {
                next->Hold_ends
            } else {
                next->Act_ends
            };
            &&& leads_to(
                nodes,
                params.start_element_index,
                params.start_x,
                params.start_y,
                task->origin,
                bounds.shift(),
                ends.start,
            )
            &&& leads_to(
                nodes,
                params.end_element_index,
                params.end_x,
                params.end_y,
                task->origin,
                bounds.shift(),
                ends.end,
            )
            &&& next is Hold ==> next->Hold_held == task->ReadBounds_held
        },
{
    let origin = task->origin;
    let start = end_meant(nodes, "start"@, params.first(), origin, bounds.shift());
    let end = end_meant(nodes, "end"@, params.last(), origin, bounds.shift());
    if start is Ok && end is Ok {
        an_end_leads_to_its_point(nodes, "start"@, params.first(), origin, bounds.shift());
        an_end_leads_to_its_point(nodes, "end"@, params.last(), origin, bounds.shift());
    }
}

/// The coordinates of a drag count from the corner of the desktop unless they are relative,
/// and then from that of the window that has the focus; relative ones without a window are
/// refused.
pub proof fn coordinates_count_from_where_they_are_relative_to(
    params: DragParams,
    nodes: Seq<AccessibilityNode>,
    desktop: Option<(u32, u32)>,
    task: DragTask,
    report: DragReport,
    next: DragTask,
)
    requires
        reports(task, report),
        drag_follows(params, nodes, desktop, task, report, next),
        next is ReadBounds,
    ensures
        params.relative != Some(true) ==> next->origin == (0i32, 0i32),
        params.relative == Some(true) ==> task is Focus && {
            let rect = focused_part(report->Focus_0->Ok_0, desktop);
            rect is Ok && next->origin == ((rect->Ok_0).0, (rect->Ok_0).1)
        },
        task is Gate ==> held_modifiers(texts(params.modifiers@)) == Ok::<Seq<u16>, Seq<char>>(
            next->ReadBounds_held@,
        ),
        task is Focus ==> next->ReadBounds_held == task->Focus_held,
{
}

/// A drag keeps to its ends: what is dragged once the modifiers are down, and what is
/// released after it, is between the very points it was planned between.
pub proof fn a_drag_keeps_to_its_ends(
    params: DragParams,
    nodes: Seq<AccessibilityNode>,
    desktop: Option<(u32, u32)>,
    task: DragTask,
    report: DragReport,
    next: DragTask,
)
    requires
        reports(task, report),
        drag_follows(params, nodes, desktop, task, report, next),
    ensures
        task is Hold && report->Held_0 is Ok ==> next is Act && next->Act_ends.start
            == task->Hold_ends.start && next->Act_ends.end == task->Hold_ends.end,
        task is Hold && report->Held_0 is Err ==> next is Done && !next->Done_0.ok,
        task is Act && task->Act_held@.len() == 0 && !report->Dragged_0.ok ==> next is Done
            && !next->Done_0.ok,
        task is Release && !task->Release_output.ok ==> next is Done && !next->Done_0.ok,
        task is Look ==> next is Done && next->Done_0.ok == task->Look_output.ok,
{
}

} // verus!
