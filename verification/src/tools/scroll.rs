//! `scroll`: where the wheel turns, or which action scrolls in its place.

use vstd::prelude::*;
use vstd::string::StringExecFns;
use crate::cache::{
    a_scrolling_action_is_named_after_the_direction, cached_scroll_action, direction_named, indexed,
    parse_scroll_direction, point_meant, resolve_optional_target_point, scrolls, CachedBounds,
    ScrollDirection,
};
use crate::elements::{AccessibilityAction, AccessibilityNode};
use crate::geometry::{
    apply_window_center_scroll_point, apply_window_relative_scroll_coordinates, focused_part,
    focused_window_coordinate_map, middle, scroll_point,
};
use crate::input::{
    absolute_mousemove_args, command_texts, mousemove, wheel, wheel_mousemove_args, ydotool_wheel_delta,
};
use crate::gate::{focus_refusal, focus_target_for_input, satisfies};
use crate::notes::{
    action_failure, action_result, action_success, first_line, first_line_of, noted, says,
    with_notes, ActionOutput, STALE_TREE_MESSAGE,
};
use crate::numerals::{decimal, decimal_of, signed_decimal_of};
use crate::params::ScrollParams;
use crate::select::{first_match, the_first_match_is_the_first};
use crate::text::{cat, contains, lower, lowered, normal, same, texts, trim};
use crate::tools::click::{ActionOutcome, UNANCHORED_BOUNDS_NOTE};
use crate::windowing::types::{WindowFocusResult, WindowTarget};

verus! {

/// What the point of a scroll comes to once its window is focused: relative coordinates are
/// put onto the desktop, and no point at all means the middle of the window.
pub open spec fn scroll_moved(
    params: ScrollParams,
    focus: WindowFocusResult,
    desktop: Option<(u32, u32)>,
) -> Result<(Option<i32>, Option<i32>), Seq<char>> {
    if params.relative != Some(true) && (params.x is Some || params.y is Some
        || params.element_index is Some) {
        Ok((params.x, params.y))
    } else {
        match focused_part(focus, desktop) {
            Err(message) => Err(message),
            Ok(rect) => match if params.relative == Some(true) {
                scroll_point(params.x, params.y, rect)
            } else {
                middle(rect)
            } {
                Ok((x, y)) => Ok((Some(x), Some(y))),
                Err(message) => Err(message),
            },
        }
    }
}

/// Put the point of a scroll onto the desktop, once its window is focused. A window target
/// without a point would otherwise scroll whatever happens to sit under the pointer:
/// focusing does not move the cursor, and the wheel never repositions it.
pub fn place_scroll(
    params: &mut ScrollParams,
    focus: &WindowFocusResult,
    desktop: Option<(u32, u32)>,
) -> (r: Result<(), String>)
    ensures
        match scroll_moved(*old(params), *focus, desktop) {
            Ok((x, y)) => r is Ok && *final(params) == (ScrollParams { x, y, ..*old(params) }),
            Err(message) => r is Err && r->Err_0@ == message && *final(params) == *old(params),
        },
{
    let relative = match params.relative {
        Some(true) => true,
        _ => false,
    };
    if !relative && (params.x.is_some() || params.y.is_some() || params.element_index.is_some()) {
        return Ok(());
    }
    match focused_window_coordinate_map(focus, desktop) {
        Ok(rect) => if relative {
            apply_window_relative_scroll_coordinates(params, rect)
        } else {
            apply_window_center_scroll_point(params, rect)
        },
        Err(message) => Err(message),
    }
}

/// The action that scrolls in place of the wheel, where an element is named that has one
/// for the direction.
pub open spec fn scroll_action(nodes: Seq<AccessibilityNode>, params: ScrollParams) -> Option<
    (u32, String, AccessibilityAction),
> {
    match (params.element_index, direction_named(params.direction@)) {
        (Some(index), Some(direction)) => match first_match(nodes, indexed(index)) {
            Some(k) => match first_match(nodes[k].actions@, scrolls(direction)) {
                Some(a) => Some((index, nodes[k].object_ref, nodes[k].actions@[a])),
                None => None,
            },
            None => None,
        },
        _ => None,
    }
}

/// The action that scrolls in place of the wheel.
pub fn scroll_by_action(nodes: &[AccessibilityNode], params: &ScrollParams) -> (r: Option<
    (u32, String, AccessibilityAction),
>)
    ensures
        r == scroll_action(nodes@, *params),
{
    match (params.element_index, parse_scroll_direction(&params.direction)) {
        (Some(index), Some(direction)) => match cached_scroll_action(nodes, index, direction) {
            Some((object_ref, action)) => Some((index, object_ref, action)),
            None => None,
        },
        _ => None,
    }
}

/// What follows the invocation of an action that scrolls.
#[derive(Debug)]
pub enum ScrollNext {
    /// The scroll is done.
    Scrolled(ActionOutput),
    /// The scroll failed, and nothing else is tried.
    Failed(ActionOutput),
    /// The wheel is tried, and this is said of the action.
    Fallback(String),
}

/// An action that scrolls in words.
pub open spec fn scroll_action_words(action: AccessibilityAction) -> Seq<char> {
    "AT-SPI action "@ + decimal(action.index as int) + " ("@ + action.name@ + ")"@
}

/// Whether a step is what follows the invocation of an action that scrolls: it is the
/// scroll where the application did it, nothing is tried on an element that is gone, and
/// else the wheel is.
pub open spec fn follows_scroll_action(
    element_index: u32,
    action: AccessibilityAction,
    outcome: ActionOutcome,
    next: ScrollNext,
) -> bool {
    let words = scroll_action_words(action);
    match outcome {
        ActionOutcome::Done => next is Scrolled && says(
            next->Scrolled_0,
            "scroll"@,
            true,
            "Invoked "@ + words + " on element_index "@ + decimal(element_index as int)
                + "; the wheel was not used."@,
        ),
        ActionOutcome::Stale => next is Failed && says(
            next->Failed_0,
            "scroll"@,
            false,
            STALE_TREE_MESSAGE@,
        ),
        ActionOutcome::ReturnedFalse => next is Fallback && next->Fallback_0@ == words
            + " returned false; fell back to the wheel."@,
        ActionOutcome::Failed(error) => next is Fallback && next->Fallback_0@ == words + " failed ("@
            + first_line_of(error@) + "); fell back to the wheel."@,
    }
}

/// What follows the invocation of an action that scrolls.
pub fn after_scroll_action(element_index: u32, action: &AccessibilityAction, outcome: &ActionOutcome) -> (r:
    ScrollNext)
    ensures
        follows_scroll_action(element_index, *action, *outcome, r),
{
    let mut words = cat("AT-SPI action ", &signed_decimal_of(action.index as i64));
    words.append(" (");
    words.append(&action.name);
    words.append(")");
    match outcome {
        ActionOutcome::Done => {
            let mut message = cat("Invoked ", &words);
            message.append(" on element_index ");
            message.append(&decimal_of(element_index as u64));
            message.append("; the wheel was not used.");
            ScrollNext::Scrolled(action_success("scroll", message))
        },
        ActionOutcome::Stale => ScrollNext::Failed(
            action_failure("scroll", STALE_TREE_MESSAGE.to_owned()),
        ),
        ActionOutcome::ReturnedFalse => {
            words.append(" returned false; fell back to the wheel.");
            ScrollNext::Fallback(words)
        },
        ActionOutcome::Failed(error) => {
            words.append(" failed (");
            words.append(&first_line(error));
            words.append("); fell back to the wheel.");
            ScrollNext::Fallback(words)
        },
    }
}

/// How the wheel turns.
#[derive(Debug)]
pub struct WheelPlan {
    /// Where the pointer goes first, if anywhere.
    pub point: Option<(i32, i32)>,
    pub dx: i32,
    pub dy: i32,
    /// What is said of the point.
    pub notes: Vec<String>,
}

/// The direction the wheel turns in, which a word with spaces around it does not name.
pub open spec fn wheel_direction(word: Seq<char>) -> Option<ScrollDirection> {
    let word = lower(word);
    if word == "up"@ {
        Some(ScrollDirection::Up)
    } else if word == "down"@ {
        Some(ScrollDirection::Down)
    } else if word == "left"@ {
        Some(ScrollDirection::Left)
    } else if word == "right"@ {
        Some(ScrollDirection::Right)
    } else {
        None
    }
}

fn wheel_direction_of(word: &str) -> (r: Option<ScrollDirection>)
    ensures
        r == wheel_direction(word@),
{
    let word = lowered(word);
    if same(&word, "up") {
        Some(ScrollDirection::Up)
    } else if same(&word, "down") {
        Some(ScrollDirection::Down)
    } else if same(&word, "left") {
        Some(ScrollDirection::Left)
    } else if same(&word, "right") {
        Some(ScrollDirection::Right)
    } else {
        None
    }
}

/// Whether a plan is how the wheel turns so many units one way at a point.
pub open spec fn plans_wheel(
    plan: WheelPlan,
    point: Option<(i32, i32)>,
    direction: ScrollDirection,
    units: i32,
    unanchored: bool,
) -> bool {
    &&& plan.point == point
    &&& plan.dx == (match direction {
        ScrollDirection::Right => units as int,
        ScrollDirection::Left => -units,
        _ => 0,
    })
    &&& plan.dy == (match direction {
        ScrollDirection::Up => units as int,
        ScrollDirection::Down => -units,
        _ => 0,
    })
    &&& texts(plan.notes@) == if point is Some && unanchored {
        seq![
            "The scroll point ("@ + decimal((point->0).0 as int) + ", "@ + decimal(
                (point->0).1 as int,
            ) + ") came from cached bounds, "@ + UNANCHORED_BOUNDS_NOTE@,
        ]
    } else {
        seq![]
    }
}

/// Whether an element is named whose bounds could not be moved onto the desktop.
pub open spec fn is_unanchored(params: ScrollParams, bounds: CachedBounds) -> bool {
    params.element_index is Some && bounds is Unanchored
}

/// How the wheel turns, or why it does not: the point is looked for first, then the
/// direction.
pub fn plan_wheel(
    nodes: &[AccessibilityNode],
    params: &ScrollParams,
    bounds: CachedBounds,
    units: i32,
) -> (r: Result<WheelPlan, String>)
    requires
        units > i32::MIN,
    ensures
        match point_meant(nodes@, params.x, params.y, params.element_index, bounds.shift()) {
            Err(message) => r is Err && r->Err_0@ == message,
            Ok(point) => match wheel_direction(params.direction@) {
                None => r is Err && r->Err_0@
                    == "Unsupported scroll direction; expected up, down, left, or right."@,
                Some(direction) => r is Ok && plans_wheel(
                    r->Ok_0,
                    point,
                    direction,
                    units,
                    is_unanchored(*params, bounds),
                ),
            },
        },
        r is Ok ==> turns_the_way(
            lower(params.direction@),
            units as int,
            r->Ok_0.dx as int,
            r->Ok_0.dy as int,
        ),
{
    proof {
        directions_are_spelled_apart();
    }
    let point = match resolve_optional_target_point(
        nodes,
        params.x,
        params.y,
        params.element_index,
        bounds.offset(),
    ) {
        Ok(point) => point,
        Err(message) => return Err(message),
    };
    let direction = match wheel_direction_of(&params.direction) {
        Some(direction) => direction,
        None => return Err(
            "Unsupported scroll direction; expected up, down, left, or right.".to_owned(),
        ),
    };
    let unanchored = match bounds {
        CachedBounds::Unanchored => params.element_index.is_some(),
        _ => false,
    };
    let mut notes: Vec<String> = Vec::new();
    if let Some((x, y)) = point {
        if unanchored {
            let mut note = cat("The scroll point (", &signed_decimal_of(x as i64));
            note.append(", ");
            note.append(&signed_decimal_of(y as i64));
            note.append(") came from cached bounds, ");
            note.append(UNANCHORED_BOUNDS_NOTE);
            let ghost said = note@;
            notes.push(note);
            assert(texts(notes@) =~= seq![said]);
        } else {
            assert(texts(notes@) =~= seq![]);
        }
    } else {
        assert(texts(notes@) =~= seq![]);
    }
    let (dx, dy): (i32, i32) = ydotool_wheel_delta(direction, units);
    Ok(WheelPlan { point, dx, dy, notes })
}

/// What the commands that turn the wheel run, where the pointer was moved already and where
/// it was not.
pub open spec fn wheel_sequence(point: Option<(i32, i32)>, moved: bool, dx: i32, dy: i32) -> Seq<
    Seq<Seq<char>>,
> {
    if point is Some && !moved {
        seq![mousemove((point->0).0, (point->0).1), wheel(dx, dy)]
    } else {
        seq![wheel(dx, dy)]
    }
}

/// The commands that turn the wheel. The absolute pointer lands exactly where the click
/// path does; ydotool's faked absolute move drifts under acceleration and scaling, so it is
/// only the fallback for positioning the wheel.
pub fn wheel_commands(plan: &WheelPlan, moved: bool) -> (r: Vec<Vec<String>>)
    ensures
        command_texts(r@) == wheel_sequence(plan.point, moved, plan.dx, plan.dy),
{
    let mut commands: Vec<Vec<String>> = Vec::new();
    if let Some((x, y)) = plan.point {
        if !moved {
            commands.push(absolute_mousemove_args(x, y));
        }
    }
    commands.push(wheel_mousemove_args(plan.dx, plan.dy));
    assert(command_texts(commands@) =~= wheel_sequence(plan.point, moved, plan.dx, plan.dy));
    commands
}

/// The next thing a scroll does.
#[derive(Debug)]
pub enum ScrollTask {
    /// Ask the allowlist about this window, or about the focused one.
    Gate(Option<WindowTarget>),
    /// Focus this window.
    Focus(WindowTarget),
    /// Invoke an action that scrolls.
    Invoke { element_index: u32, object_ref: String, action: AccessibilityAction },
    /// Bring the bounds of the cached tree up to date; these notes stand so far.
    ReadBounds(Vec<String>),
    /// Take the pointer to the point.
    Position { plan: WheelPlan, notes: Vec<String> },
    /// Run the commands that turn the wheel.
    Turn { commands: Vec<Vec<String>>, notes: Vec<String> },
    /// Nothing: this is the answer.
    Done(ActionOutput),
}

/// What came of a task.
#[derive(Debug)]
pub enum ScrollReport {
    Gate(Result<(), String>),
    Focus(Result<WindowFocusResult, String>),
    Invoked(ActionOutcome),
    Bounds(CachedBounds),
    /// Whether the absolute pointer went there, and what is said of the point.
    Positioned { moved: bool, seen: Vec<String> },
    Turned(Result<(), String>),
}

/// Whether a report is one of a task.
pub open spec fn reports(task: ScrollTask, report: ScrollReport) -> bool {
    match task {
        ScrollTask::Gate(_) => report is Gate,
        ScrollTask::Focus(_) => report is Focus,
        ScrollTask::Invoke { .. } => report is Invoked,
        ScrollTask::ReadBounds(_) => report is Bounds,
        ScrollTask::Position { .. } => report is Positioned,
        ScrollTask::Turn { .. } => report is Turned,
        ScrollTask::Done(_) => false,
    }
}

/// Whether a task is one of a request: the allowlist is asked about the window that the
/// request names, and that window is the one that is focused.
pub open spec fn is_of(task: ScrollTask, params: ScrollParams) -> bool {
    match task {
        ScrollTask::Gate(asked) => asked == params.target.target().window_named(),
        ScrollTask::Focus(target) => Some(target) == params.target.target().window_named(),
        _ => true,
    }
}

/// The first thing a scroll does: ask the allowlist.
pub fn start_scroll(params: &ScrollParams) -> (r: ScrollTask)
    ensures
        r == ScrollTask::Gate(params.target.target().window_named()),
        is_of(r, *params),
{
    ScrollTask::Gate(params.window_target())
}

/// Whether an answer is that a scroll failed.
pub open spec fn fails(task: ScrollTask, message: Seq<char>) -> bool {
    task is Done && says(task->Done_0, "scroll"@, false, message)
}

/// Whether a task begins a scroll whose window is settled: an action that scrolls is tried
/// first, where the element has one.
pub open spec fn begins_scrolling(
    task: ScrollTask,
    nodes: Seq<AccessibilityNode>,
    params: ScrollParams,
) -> bool {
    match scroll_action(nodes, params) {
        Some((element_index, object_ref, action)) => task == (ScrollTask::Invoke {
            element_index,
            object_ref,
            action,
        }),
        None => task is ReadBounds && task->ReadBounds_0@.len() == 0,
    }
}

/// Whether a task turns the wheel, after what is said so far.
pub open spec fn turns(
    task: ScrollTask,
    point: Option<(i32, i32)>,
    moved: bool,
    dx: i32,
    dy: i32,
    notes: Seq<Seq<char>>,
) -> bool {
    &&& task is Turn
    &&& command_texts(task->Turn_commands@) == wheel_sequence(point, moved, dx, dy)
    &&& texts(task->Turn_notes@) == notes
}

/// Whether the next task is what follows one, by what came of it.
pub open spec fn scroll_follows(
    before: ScrollParams,
    after: ScrollParams,
    nodes: Seq<AccessibilityNode>,
    desktop: Option<(u32, u32)>,
    units: i32,
    task: ScrollTask,
    report: ScrollReport,
    next: ScrollTask,
) -> bool {
    match (task, report) {
        (ScrollTask::Gate(_), ScrollReport::Gate(outcome)) => after == before && match outcome {
            Err(message) => fails(next, message@),
            Ok(_) => if before.target.target().names_window() {
                next == ScrollTask::Focus(before.target.target())
            } else {
                begins_scrolling(next, nodes, before)
            },
        },
        (ScrollTask::Focus(target), ScrollReport::Focus(focus)) => match focus_refusal(
            target,
            focus,
        ) {
            Some(message) => after == before && fails(next, message),
            None => match scroll_moved(before, focus->Ok_0, desktop) {
                Err(message) => after == before && fails(next, message),
                Ok((x, y)) => after == (ScrollParams { x, y, ..before }) && begins_scrolling(
                    next,
                    nodes,
                    after,
                ),
            },
        },
        (
            ScrollTask::Invoke { element_index, action, .. },
            ScrollReport::Invoked(outcome),
        ) => after == before && exists|step: ScrollNext| #[trigger]
            follows_scroll_action(element_index, action, outcome, step) && match step {
                ScrollNext::Scrolled(output) => next == ScrollTask::Done(output),
                ScrollNext::Failed(output) => next == ScrollTask::Done(output),
                ScrollNext::Fallback(note) => next is ReadBounds && texts(next->ReadBounds_0@)
                    == seq![note@],
            },
        (ScrollTask::ReadBounds(notes), ScrollReport::Bounds(bounds)) => after == before
            && match point_meant(nodes, before.x, before.y, before.element_index, bounds.shift()) {
            Err(message) => fails(next, message),
            Ok(point) => match wheel_direction(before.direction@) {
                None => fails(
                    next,
                    "Unsupported scroll direction; expected up, down, left, or right."@,
                ),
                Some(direction) => exists|plan: WheelPlan|
                    #[trigger] plans_wheel(
                        plan,
                        point,
                        direction,
                        units,
                        is_unanchored(before, bounds),
                    ) && if point is Some {
                        next == (ScrollTask::Position { plan, notes })
                    } else {
                        turns(
                            next,
                            point,
                            false,
                            plan.dx,
                            plan.dy,
                            texts(notes@) + texts(plan.notes@),
                        )
                    },
            },
        },
        (ScrollTask::Position { plan, notes }, ScrollReport::Positioned { moved, seen }) => after
            == before && turns(
            next,
            plan.point,
            moved,
            plan.dx,
            plan.dy,
            texts(notes@) + texts(plan.notes@) + texts(seen@),
        ),
        (ScrollTask::Turn { notes, .. }, ScrollReport::Turned(outcome)) => after == before
            && next is Done && says(
            next->Done_0,
            "scroll"@,
            outcome is Ok,
            noted(
                match outcome {
                    Ok(_) => "Action sent through ydotool."@,
                    Err(message) => message@,
                },
                texts(notes@),
            ),
        ),
        _ => true,
    }
}

fn begin_scrolling(nodes: &[AccessibilityNode], params: &ScrollParams) -> (r: ScrollTask)
    ensures
        begins_scrolling(r, nodes@, *params),
{
    match scroll_by_action(nodes, params) {
        Some((element_index, object_ref, action)) => ScrollTask::Invoke {
            element_index,
            object_ref,
            action,
        },
        None => ScrollTask::ReadBounds(Vec::new()),
    }
}

fn failed(message: String) -> (r: ScrollTask)
    ensures
        fails(r, message@),
{
    ScrollTask::Done(action_failure("scroll", message))
}

/// What a scroll does next, by what came of the last: the allowlist first, then the focus of the
/// window that is named, then an action that scrolls or the wheel at the point. `nodes` is
/// the cached tree, `desktop` the size of the desktop as far as it is known, and `units` how
/// far the wheel turns.
pub fn scroll(
    params: &mut ScrollParams,
    nodes: &[AccessibilityNode],
    desktop: Option<(u32, u32)>,
    units: i32,
    task: ScrollTask,
    report: ScrollReport,
) -> (r: ScrollTask)
    requires
        reports(task, report),
        is_of(task, *old(params)),
        units > i32::MIN,
    ensures
        scroll_follows(*old(params), *final(params), nodes@, desktop, units, task, report, r),
        is_of(r, *final(params)),
{
    match (task, report) {
        (ScrollTask::Gate(_), ScrollReport::Gate(outcome)) => match outcome {
            Err(message) => failed(message),
            Ok(_) => match params.window_target() {
                Some(target) => ScrollTask::Focus(target),
                None => begin_scrolling(nodes, params),
            },
        },
        (ScrollTask::Focus(target), ScrollReport::Focus(focus)) => match focus_target_for_input(
            &target,
            focus,
        ) {
            Err(message) => failed(message),
            Ok(focus) => match place_scroll(params, &focus, desktop) {
                Ok(_) => begin_scrolling(nodes, params),
                Err(message) => failed(message),
            },
        },
        (
            ScrollTask::Invoke { element_index, action, .. },
            ScrollReport::Invoked(outcome),
        ) => {
            let step = after_scroll_action(element_index, &action, &outcome);
            let ghost given = step;
            assert(follows_scroll_action(element_index, action, outcome, given));
            match step {
                ScrollNext::Scrolled(output) => ScrollTask::Done(output),
                ScrollNext::Failed(output) => ScrollTask::Done(output),
                ScrollNext::Fallback(note) => {
                    let ghost said = note@;
                    let notes = vec![note];
                    assert(texts(notes@) =~= seq![said]);
                    ScrollTask::ReadBounds(notes)
                },
            }
        },
        (ScrollTask::ReadBounds(notes), ScrollReport::Bounds(bounds)) => {
            match plan_wheel(nodes, params, bounds, units) {
                Err(message) => failed(message),
                Ok(plan) => {
                    let ghost given = plan;
                    assert(plans_wheel(
                        given,
                        plan.point,
                        wheel_direction(params.direction@)->0,
                        units,
                        is_unanchored(*params, bounds),
                    ));
                    if plan.point.is_some() {
                        ScrollTask::Position { plan, notes }
                    } else {
                        let commands = wheel_commands(&plan, false);
                        let mut notes = notes;
                        let mut point_notes = plan.notes;
                        let ghost first = notes@;
                        notes.append(&mut point_notes);
                        assert(texts(notes@) =~= texts(first) + texts(given.notes@));
                        ScrollTask::Turn { commands, notes }
                    }
                },
            }
        },
        (ScrollTask::Position { plan, notes }, ScrollReport::Positioned { moved, seen }) => {
            let commands = wheel_commands(&plan, moved);
            let ghost first = notes@;
            let ghost second = plan.notes@;
            let ghost third = seen@;
            let mut notes = notes;
            let mut point_notes = plan.notes;
            let mut seen = seen;
            notes.append(&mut point_notes);
            notes.append(&mut seen);
            assert(texts(notes@) =~= texts(first) + texts(second) + texts(third));
            ScrollTask::Turn { commands, notes }
        },
        (ScrollTask::Turn { notes, .. }, ScrollReport::Turned(outcome)) => ScrollTask::Done(
            with_notes(action_result("scroll", outcome), &notes),
        ),
        (task, _) => task,
    }
}

/// Whether a task sends input to the desktop.
pub open spec fn sends_input(task: ScrollTask) -> bool {
    task is Invoke || task is Position || task is Turn
}

/// No scroll goes out before the allowlist has let its window pass and the window that is
/// named holds the focus it asks for, and the window that is focused is the one the allowlist
/// was asked about.
pub proof fn a_scroll_is_gated_and_focused(
    before: ScrollParams,
    after: ScrollParams,
    nodes: Seq<AccessibilityNode>,
    desktop: Option<(u32, u32)>,
    units: i32,
    task: ScrollTask,
    report: ScrollReport,
    next: ScrollTask,
)
    requires
        reports(task, report),
        is_of(task, before),
        scroll_follows(before, after, nodes, desktop, units, task, report, next),
    ensures
        is_of(next, after),
        next is Focus ==> task->Gate_0 == Some(next->Focus_0),
        task is Gate && (sends_input(next) || next is ReadBounds) ==> task->Gate_0 is None,
        task is Gate && report->Gate_0 is Err ==> next is Done && !next->Done_0.ok,
        task is Gate && before.target.target().names_window() ==> next is Done || next is Focus,
        task is Gate && (sends_input(next) || next is ReadBounds) ==> report->Gate_0 is Ok
            && !before.target.target().names_window(),
        next is Focus ==> task is Gate && next->Focus_0 == before.target.target(),
        task is Focus && !(next is Done) ==> report->Focus_0 is Ok && satisfies(
            report->Focus_0->Ok_0,
            task->Focus_0,
        ),
{
}

/// A scroll at a window without a point turns the wheel over that window: the point it gets
/// is one of the window's own pixels.
pub proof fn a_pointless_scroll_stays_on_its_window(
    params: ScrollParams,
    focus: WindowFocusResult,
    desktop: Option<(u32, u32)>,
)
    requires
        params.relative != Some(true),
        params.x is None,
        params.y is None,
        params.element_index is None,
        scroll_moved(params, focus, desktop) is Ok,
        focused_part(focus, desktop)->Ok_0.0 + focused_part(focus, desktop)->Ok_0.2 <= i32::MAX,
        focused_part(focus, desktop)->Ok_0.1 + focused_part(focus, desktop)->Ok_0.3 <= i32::MAX,
    ensures
        focused_part(focus, desktop) is Ok,
        ({
            let point = scroll_moved(params, focus, desktop)->Ok_0;
            point.0 is Some && point.1 is Some && crate::geometry::inside(
                point.0->0 as int,
                point.1->0 as int,
                focused_part(focus, desktop)->Ok_0,
            )
        }),
{
    let rect = focused_part(focus, desktop)->Ok_0;
    crate::geometry::a_scroll_is_inside_its_window(None, None, rect);
}

/// Whether turning the wheels by so much is turning them so many units the way a word names:
/// up and to the right are the positive ways.
pub open spec fn turns_the_way(asked: Seq<char>, units: int, dx: int, dy: int) -> bool {
    ||| asked == "up"@ && dx == 0 && dy == units
    ||| asked == "down"@ && dx == 0 && dy == -units
    ||| asked == "left"@ && dx == -units && dy == 0
    ||| asked == "right"@ && dx == units && dy == 0
}

proof fn directions_are_spelled_apart()
    ensures
        "up"@.len() == 2,
        "down"@.len() == 4,
        "left"@.len() == 4,
        "right"@.len() == 5,
        "down"@[0] == 'd',
        "left"@[0] == 'l',
{
    reveal_strlit("up");
    reveal_strlit("down");
    reveal_strlit("left");
    reveal_strlit("right");
}

proof fn a_direction_turns_its_way(
    word: Seq<char>,
    plan: WheelPlan,
    point: Option<(i32, i32)>,
    units: i32,
    unanchored: bool,
)
    ensures
        wheel_direction(word) is Some <==> lower(word) == "up"@ || lower(word) == "down"@ || lower(
            word,
        ) == "left"@ || lower(word) == "right"@,
        wheel_direction(word) is Some && plans_wheel(
            plan,
            point,
            wheel_direction(word)->0,
            units,
            unanchored,
        ) ==> turns_the_way(lower(word), units as int, plan.dx as int, plan.dy as int) && plan.point
            == point,
{
    directions_are_spelled_apart();
}

/// The wheel turns the way the request's own word says, in any letter case: once the bounds
/// are read, a scroll down by some units is planned as that many units downwards at the point
/// that is meant, and so on for the other three ways; another word is refused.
pub proof fn the_wheel_turns_the_way_that_is_asked_for(
    before: ScrollParams,
    after: ScrollParams,
    nodes: Seq<AccessibilityNode>,
    desktop: Option<(u32, u32)>,
    units: i32,
    task: ScrollTask,
    bounds: CachedBounds,
    next: ScrollTask,
)
    requires
        task is ReadBounds,
        scroll_follows(
            before,
            after,
            nodes,
            desktop,
            units,
            task,
            ScrollReport::Bounds(bounds),
            next,
        ),
    ensures
        ({
            let asked = lower(before.direction@);
            let meant = point_meant(
                nodes,
                before.x,
                before.y,
                before.element_index,
                bounds.shift(),
            );
            let known = asked == "up"@ || asked == "down"@ || asked == "left"@ || asked
                == "right"@;
            &&& !known || meant is Err ==> next is Done && !next->Done_0.ok
            &&& known && meant is Ok && meant->Ok_0 is Some ==> next is Position && turns_the_way(
                asked,
                units as int,
                next->plan.dx as int,
                next->plan.dy as int,
            ) && next->plan.point == meant->Ok_0
            &&& known && meant is Ok && meant->Ok_0 is None ==> next is Turn && exists|
                dx: i32,
                dy: i32,
            |
                turns_the_way(asked, units as int, dx as int, dy as int) && command_texts(
                    next->Turn_commands@,
                ) == seq![
                    seq![
                        "mousemove"@,
                        "--wheel"@,
                        "--"@,
                        #[trigger] decimal(dx as int),
                        #[trigger] decimal(dy as int),
                    ],
                ]
        }),
{
    let asked = lower(before.direction@);
    let meant = point_meant(nodes, before.x, before.y, before.element_index, bounds.shift());
    if meant is Ok {
        let point = meant->Ok_0;
        let some = WheelPlan { point, dx: 0, dy: 0, notes: arbitrary() };
        a_direction_turns_its_way(before.direction@, some, point, units, false);
        if wheel_direction(before.direction@) is Some {
            let direction = wheel_direction(before.direction@)->0;
            let unanchored = is_unanchored(before, bounds);
            let plan = choose|plan: WheelPlan|
                #[trigger] plans_wheel(plan, point, direction, units, unanchored) && if point
                    is Some {
                    next == (ScrollTask::Position { plan, notes: task->ReadBounds_0 })
                } else {
                    turns(
                        next,
                        point,
                        false,
                        plan.dx,
                        plan.dy,
                        texts(task->ReadBounds_0@) + texts(plan.notes@),
                    )
                };
            a_direction_turns_its_way(before.direction@, plan, point, units, unanchored);
            if point is None {
                assert(command_texts(next->Turn_commands@) =~= seq![
                    seq![
                        "mousemove"@,
                        "--wheel"@,
                        "--"@,
                        decimal(plan.dx as int),
                        decimal(plan.dy as int),
                    ],
                ]);
            }
        }
    }
}

/// A planned turn is the turn that is made: the last command turns the wheels by what was
/// planned, and where the pointer was not taken to the point already, the one before it goes
/// there.
pub proof fn the_wheel_turns_as_planned(
    before: ScrollParams,
    after: ScrollParams,
    nodes: Seq<AccessibilityNode>,
    desktop: Option<(u32, u32)>,
    units: i32,
    task: ScrollTask,
    moved: bool,
    seen: Vec<String>,
    next: ScrollTask,
)
    requires
        task is Position,
        scroll_follows(
            before,
            after,
            nodes,
            desktop,
            units,
            task,
            ScrollReport::Positioned { moved, seen },
            next,
        ),
    ensures
        next is Turn,
        ({
            let plan = task->plan;
            let commands = command_texts(next->Turn_commands@);
            &&& commands.last() == seq![
                "mousemove"@,
                "--wheel"@,
                "--"@,
                decimal(plan.dx as int),
                decimal(plan.dy as int),
            ]
            &&& moved || plan.point is None ==> commands.len() == 1
            &&& !moved && plan.point is Some ==> commands.len() == 2 && commands[0] == seq![
                "mousemove"@,
                "--absolute"@,
                "--"@,
                decimal((plan.point->0).0 as int),
                decimal((plan.point->0).1 as int),
            ]
        }),
{
}

/// An action that is invoked in place of the wheel is one the named element offers, and its
/// name holds the word for scrolling and the very word of the direction.
pub proof fn an_action_scrolls_the_way_that_is_asked_for(
    nodes: Seq<AccessibilityNode>,
    params: ScrollParams,
)
    requires
        scroll_action(nodes, params) is Some,
    ensures
        ({
            let (element_index, object_ref, action) = scroll_action(nodes, params)->0;
            &&& params.element_index == Some(element_index)
            &&& exists|k: int|
                0 <= k < nodes.len() && (#[trigger] nodes[k]).index == element_index
                    && nodes[k].object_ref == object_ref && nodes[k].actions@.contains(action)
            &&& contains(normal(action.name@), "scroll"@)
            &&& contains(normal(action.name@), lower(trim(params.direction@)))
        }),
{
    let index = params.element_index->0;
    let direction = direction_named(params.direction@)->0;
    the_first_match_is_the_first(nodes, indexed(index));
    let k = first_match(nodes, indexed(index))->0;
    the_first_match_is_the_first(nodes[k].actions@, scrolls(direction));
    let a = first_match(nodes[k].actions@, scrolls(direction))->0;
    a_scrolling_action_is_named_after_the_direction(params.direction@, nodes[k].actions@[a]);
    assert(nodes[k].index == index && nodes[k].actions@.contains(nodes[k].actions@[a]));
}

/// Once the window is settled, a scroll begins with the element's own action where it has one
/// for the direction.
pub proof fn a_scroll_prefers_the_elements_own_action(
    task: ScrollTask,
    nodes: Seq<AccessibilityNode>,
    params: ScrollParams,
    k: int,
    a: int,
)
    requires
        begins_scrolling(task, nodes, params),
        0 <= k < nodes.len(),
        params.element_index == Some(nodes[k].index),
        forall|j: int| 0 <= j < k ==> (#[trigger] nodes[j]).index != nodes[k].index,
        0 <= a < nodes[k].actions@.len(),
        lower(trim(params.direction@)) == "down"@ || lower(trim(params.direction@)) == "up"@
            || lower(trim(params.direction@)) == "left"@ || lower(trim(params.direction@))
            == "right"@,
    ensures
        contains(normal(nodes[k].actions@[a].name@), "scroll"@) && contains(
            normal(nodes[k].actions@[a].name@),
            lower(trim(params.direction@)),
        ) ==> task is Invoke && task->object_ref == nodes[k].object_ref,
{
    let picks = indexed(nodes[k].index);
    the_first_match_is_the_first(nodes, picks);
    assert(picks(nodes[k]));
    let found = first_match(nodes, picks)->0;
    assert(found == k) by {
        if found < k {
            assert(picks(nodes[found]));
        }
    }
    a_scrolling_action_is_named_after_the_direction(params.direction@, nodes[k].actions@[a]);
    let direction = direction_named(params.direction@)->0;
    the_first_match_is_the_first(nodes[k].actions@, scrolls(direction));
}

/// A scroll's point stands as it is where one is given and it is not relative, or where an
/// element is named; a relative one is so far from the corner of the window that has the
/// focus; and no point at all is the middle of that window.
pub proof fn a_scrolls_point_stands_unless_it_is_relative(
    params: ScrollParams,
    focus: WindowFocusResult,
    desktop: Option<(u32, u32)>,
)
    ensures
        params.relative != Some(true) && (params.x is Some || params.y is Some
            || params.element_index is Some) ==> scroll_moved(params, focus, desktop) == Ok::<
            (Option<i32>, Option<i32>),
            Seq<char>,
        >((params.x, params.y)),
        scroll_moved(params, focus, desktop) is Ok && params.relative == Some(true) ==> {
            let rect = focused_part(focus, desktop)->Ok_0;
            let (x, y) = scroll_moved(params, focus, desktop)->Ok_0;
            &&& focused_part(focus, desktop) is Ok
            &&& params.x is Some && params.y is Some
            &&& 0 <= params.x->0 < rect.2 && 0 <= params.y->0 < rect.3
            &&& rect.0 + rect.2 <= i32::MAX ==> x == Some((rect.0 + params.x->0) as i32)
            &&& rect.1 + rect.3 <= i32::MAX ==> y == Some((rect.1 + params.y->0) as i32)
        },
        scroll_moved(params, focus, desktop) is Ok && params.relative != Some(true)
            && params.x is None && params.y is None && params.element_index is None ==> {
            let rect = focused_part(focus, desktop)->Ok_0;
            let (x, y) = scroll_moved(params, focus, desktop)->Ok_0;
            &&& focused_part(focus, desktop) is Ok
            &&& rect.0 + rect.2 <= i32::MAX ==> x == Some((rect.0 + rect.2 / 2) as i32)
            &&& rect.1 + rect.3 <= i32::MAX ==> y == Some((rect.1 + rect.3 / 2) as i32)
        },
{
}

/// A scroll by an action is done exactly where the application did it; an element that is gone
/// ends it with a failure, and any other failure leads to the wheel.
pub proof fn a_failed_action_falls_back_to_the_wheel(
    before: ScrollParams,
    after: ScrollParams,
    nodes: Seq<AccessibilityNode>,
    desktop: Option<(u32, u32)>,
    units: i32,
    task: ScrollTask,
    report: ScrollReport,
    next: ScrollTask,
)
    requires
        reports(task, report),
        scroll_follows(before, after, nodes, desktop, units, task, report, next),
    ensures
        task is Invoke ==> {
            &&& report->Invoked_0 is Done ==> next is Done && next->Done_0.ok
            &&& report->Invoked_0 is Stale ==> next is Done && !next->Done_0.ok
            &&& report->Invoked_0 is ReturnedFalse || report->Invoked_0 is Failed
                ==> next is ReadBounds
        },
        task is Turn ==> next is Done && (next->Done_0.ok <==> report->Turned_0 is Ok),
        task is Position || task is ReadBounds || task is Turn || task is Invoke || task is Gate
            ==> after == before,
        after.direction@ == before.direction@ && after.element_index == before.element_index,
{
}

/// It is said that the pointer will miss exactly where the point is an element's and the
/// element's bounds could not be moved onto the desktop.
pub proof fn only_an_unanchored_point_is_warned_about(
    params: ScrollParams,
    bounds: CachedBounds,
    plan: WheelPlan,
    point: Option<(i32, i32)>,
    direction: ScrollDirection,
    units: i32,
)
    requires
        plans_wheel(plan, point, direction, units, is_unanchored(params, bounds)),
    ensures
        plan.notes@.len() > 0 <==> point is Some && params.element_index is Some
            && bounds is Unanchored,
{
    assert(plan.notes@.len() == texts(plan.notes@).len());
}

} // verus!
