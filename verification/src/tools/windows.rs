//! The tools on windows and workspaces: what they answer.

use vstd::prelude::*;
use vstd::string::StringExecFns;
use crate::gate::{focus_satisfies_target, satisfies};
use crate::geometry::{off_screen_note, off_screen_note_for_bounds};
use crate::notes::describe_workspace_id;
use crate::numerals::{decimal, decimal_of, hex, hex_of, signed_decimal_of};
use crate::select::{first_match, first_matching, the_first_match_is_the_first};
use crate::text::{cat, text_of};
use crate::windowing::registry::LIST_NOTE;
use crate::windowing::target::{
    permission_hint, resolve_window_target, resolved, window_permission_hint,
};
use crate::windowing::types::{
    workspace_named, workspace_refusal, WindowFocusResult, WindowInfo, WindowTarget,
    WorkspaceChange, WorkspaceSummary, WorkspaceTarget,
};

verus! {

/// What `backend` reports when no window backend could answer at all.
pub const UNKNOWN_BACKEND: &'static str = "unavailable";

/// What `list_apps` says of its lists.
pub const LIST_APPS_NOTE: &'static str =
    "Linux Computer Use lists process candidates plus AT-SPI application roots when accessibility is enabled.";

/// The backend a list of windows came from.
pub open spec fn backend_of(windows: Seq<WindowInfo>) -> Seq<char> {
    if windows.len() > 0 {
        windows[0].backend@
    } else {
        UNKNOWN_BACKEND@
    }
}

/// The backend a list of windows came from.
pub fn window_backend(windows: &[WindowInfo]) -> (r: String)
    ensures
        r@ == backend_of(windows@),
{
    if windows.len() > 0 {
        windows[0].backend.clone()
    } else {
        UNKNOWN_BACKEND.to_owned()
    }
}

/// What `list_windows` answers.
#[derive(Debug)]
pub struct ListWindowsOutput {
    pub backend: String,
    pub windows: Vec<WindowInfo>,
    pub error: Option<String>,
    pub permissions_hint: Option<String>,
    pub note: String,
}

/// What `list_windows` says where it failed.
pub const LISTING_FAILED: &'static str =
    "Window listing failed, so targeted keyboard input cannot safely focus or verify a target window.";

/// What `list_windows` answers.
pub fn window_list_output(listed: Result<Vec<WindowInfo>, String>) -> (r: ListWindowsOutput)
    ensures
        match listed {
            Ok(windows) => r.backend@ == backend_of(windows@) && r.windows == windows
                && r.error is None && r.permissions_hint is None && r.note@ == LIST_NOTE@,
            Err(error) => r.backend@ == UNKNOWN_BACKEND@ && r.windows@.len() == 0 && r.error
                == Some(error) && text_of(r.permissions_hint) == permission_hint(error@)
                && r.note@ == LISTING_FAILED@,
        },
{
    match listed {
        Ok(windows) => {
            let backend = window_backend(&windows);
            ListWindowsOutput {
                backend,
                windows,
                error: None,
                permissions_hint: None,
                note: LIST_NOTE.to_owned(),
            }
        },
        Err(error) => {
            let permissions_hint = window_permission_hint(&error);
            ListWindowsOutput {
                backend: UNKNOWN_BACKEND.to_owned(),
                windows: Vec::new(),
                error: Some(error),
                permissions_hint,
                note: LISTING_FAILED.to_owned(),
            }
        },
    }
}

/// What `focused_window` answers.
#[derive(Debug)]
pub struct FocusedWindowOutput {
    pub backend: String,
    pub focused_window: Option<WindowInfo>,
    pub error: Option<String>,
    pub permissions_hint: Option<String>,
    pub message: String,
}

/// What `focused_window` answers.
pub fn focused_window_output(focused: Result<Option<WindowInfo>, String>) -> (r:
    FocusedWindowOutput)
    ensures
        match focused {
            Ok(window) => r.backend@ == (match window {
                Some(window) => window.backend@,
                None => UNKNOWN_BACKEND@,
            }) && r.focused_window == window && r.error is None && r.permissions_hint is None
                && r.message@
                == "Focused window query completed through the available compositor window backend."@,
            Err(error) => r.backend@ == UNKNOWN_BACKEND@ && r.focused_window is None && r.error
                == Some(error) && text_of(r.permissions_hint) == permission_hint(error@)
                && r.message@
                == "Focused window query failed; targeted keyboard input is unavailable until window introspection works."@,
        },
{
    match focused {
        Ok(window) => {
            let backend = match &window {
                Some(window) => window.backend.clone(),
                None => UNKNOWN_BACKEND.to_owned(),
            };
            FocusedWindowOutput {
                backend,
                focused_window: window,
                error: None,
                permissions_hint: None,
                message: "Focused window query completed through the available compositor window backend.".to_owned(),
            }
        },
        Err(error) => {
            let permissions_hint = window_permission_hint(&error);
            FocusedWindowOutput {
                backend: UNKNOWN_BACKEND.to_owned(),
                focused_window: None,
                error: Some(error),
                permissions_hint,
                message: "Focused window query failed; targeted keyboard input is unavailable until window introspection works.".to_owned(),
            }
        },
    }
}

/// What `activate_window` answers.
#[derive(Debug)]
pub struct ActivateWindowOutput {
    pub ok: bool,
    pub implemented: bool,
    pub backend: String,
    pub focus: Option<WindowFocusResult>,
    pub error: Option<String>,
    pub permissions_hint: Option<String>,
}

/// What `activate_window` answers: success only where the focus is the one the target asks
/// for.
pub fn activate_window_output(target: &WindowTarget, focus: Result<WindowFocusResult, String>) -> (r:
    ActivateWindowOutput)
    ensures
        r.implemented,
        match focus {
            Ok(focus) => r.ok == satisfies(focus, *target) && r.backend@ == focus.backend@
                && r.focus == Some(focus) && r.error is None && r.permissions_hint is None,
            Err(error) => !r.ok && r.backend@ == UNKNOWN_BACKEND@ && r.focus is None && r.error
                == Some(error) && text_of(r.permissions_hint) == permission_hint(error@),
        },
{
    match focus {
        Ok(focus) => {
            let ok = focus_satisfies_target(&focus, target);
            ActivateWindowOutput {
                ok,
                implemented: true,
                backend: focus.backend.clone(),
                focus: Some(focus),
                error: None,
                permissions_hint: None,
            }
        },
        Err(error) => {
            let permissions_hint = window_permission_hint(&error);
            ActivateWindowOutput {
                ok: false,
                implemented: true,
                backend: UNKNOWN_BACKEND.to_owned(),
                focus: None,
                error: Some(error),
                permissions_hint,
            }
        },
    }
}

/// What `pointer_position` answers.
#[derive(Debug)]
pub struct PointerPositionOutput {
    pub ok: bool,
    pub implemented: bool,
    pub backend: Option<String>,
    pub x: Option<i32>,
    pub y: Option<i32>,
    pub message: String,
}

/// What `pointer_position` answers, where a backend reports a point, where there is none
/// that could, and where it failed.
pub fn pointer_position_output(position: Result<Option<((i32, i32), String)>, String>) -> (r:
    PointerPositionOutput)
    ensures
        r.implemented,
        match position {
            Ok(Some((point, backend))) => r.ok && r.backend == Some(backend) && r.x == Some(point.0)
                && r.y == Some(point.1) && r.message@ == "Pointer at ("@ + decimal(point.0 as int)
                + ", "@ + decimal(point.1 as int) + ") via "@ + backend@ + "."@,
            Ok(None) => !r.ok && r.backend is None && r.x is None && r.y is None && r.message@
                == "unsupported backend: pointer_position needs a Hyprland or X11 session."@,
            Err(error) => !r.ok && r.backend is None && r.x is None && r.y is None && r.message
                == error,
        },
{
    match position {
        Ok(Some((point, backend))) => {
            let mut message = cat("Pointer at (", &signed_decimal_of(point.0 as i64));
            message.append(", ");
            message.append(&signed_decimal_of(point.1 as i64));
            message.append(") via ");
            message.append(&backend);
            message.append(".");
            PointerPositionOutput {
                ok: true,
                implemented: true,
                backend: Some(backend),
                x: Some(point.0),
                y: Some(point.1),
                message,
            }
        },
        Ok(None) => PointerPositionOutput {
            ok: false,
            implemented: true,
            backend: None,
            x: None,
            y: None,
            message: "unsupported backend: pointer_position needs a Hyprland or X11 session.".to_owned(),
        },
        Err(error) => PointerPositionOutput {
            ok: false,
            implemented: true,
            backend: None,
            x: None,
            y: None,
            message: error,
        },
    }
}

/// What the tools that change a window's geometry answer.
#[derive(Debug)]
pub struct WindowGeometryOutput {
    pub ok: bool,
    pub implemented: bool,
    pub backend: String,
    pub window: Option<WindowInfo>,
    pub message: String,
    pub permissions_hint: Option<String>,
}

/// The backend that is named before a window was found.
pub const BACKEND_NOT_ASKED: &'static str = "unknown";

/// Whether an answer refuses a change of geometry, before any was tried.
pub open spec fn refuses_geometry(
    output: WindowGeometryOutput,
    message: Seq<char>,
    hint: Option<Seq<char>>,
) -> bool {
    &&& !output.ok
    &&& output.implemented
    &&& output.backend@ == BACKEND_NOT_ASKED@
    &&& output.window is None
    &&& output.message@ == message
    &&& text_of(output.permissions_hint) == hint
}

/// The answer where the allowlist refuses.
pub fn geometry_gated(message: String) -> (r: WindowGeometryOutput)
    ensures
        refuses_geometry(r, message@, None),
{
    WindowGeometryOutput {
        ok: false,
        implemented: true,
        backend: BACKEND_NOT_ASKED.to_owned(),
        window: None,
        message,
        permissions_hint: None,
    }
}

/// The window whose geometry is changed, or the answer where there is none.
pub fn geometry_window(target: &WindowTarget, listed: Result<Vec<WindowInfo>, String>) -> (r: Result<
    WindowInfo,
    WindowGeometryOutput,
>)
    ensures
        match listed {
            Err(error) => r is Err && refuses_geometry(
                r->Err_0,
                "Window listing failed: "@ + error@,
                permission_hint(error@),
            ),
            Ok(windows) => match resolved(windows@, *target) {
                Ok(k) => r is Ok && r->Ok_0 == windows@[k],
                Err(message) => r is Err && refuses_geometry(r->Err_0, message, None),
            },
        },
{
    let windows = match listed {
        Ok(windows) => windows,
        Err(error) => {
            let permissions_hint = window_permission_hint(&error);
            return Err(
                WindowGeometryOutput {
                    ok: false,
                    implemented: true,
                    backend: BACKEND_NOT_ASKED.to_owned(),
                    window: None,
                    message: cat("Window listing failed: ", &error),
                    permissions_hint,
                },
            );
        },
    };
    match resolve_window_target(&windows, target) {
        Ok(window) => Ok(window.clone()),
        Err(message) => Err(geometry_gated(message)),
    }
}

/// The predicate of having an id.
pub open spec fn has_id(window_id: u64) -> spec_fn(WindowInfo) -> bool {
    |window: WindowInfo| window.window_id == window_id
}

/// The window of an id in a list that may have failed.
pub open spec fn listed_again(window_id: u64, listed: Result<Vec<WindowInfo>, String>) -> Option<
    WindowInfo,
> {
    match listed {
        Ok(windows) => match first_match(windows@, has_id(window_id)) {
            Some(k) => Some(windows@[k]),
            None => None,
        },
        Err(_) => None,
    }
}

/// The window of an id in a list that may have failed, so that a caller sees what the
/// compositor made of a change (tiling constraints, minimum sizes, and so on may adjust
/// it).
pub fn window_again(window_id: u64, listed: Result<Vec<WindowInfo>, String>) -> (r: Option<
    WindowInfo,
>)
    ensures
        r == listed_again(window_id, listed),
{
    match listed {
        Ok(windows) => {
            let is_meant = |window: &WindowInfo| -> (b: bool)
                ensures
                    b == has_id(window_id)(*window),
                { window.window_id == window_id };
            match first_matching(&windows, is_meant, Ghost(has_id(window_id))) {
                Some(k) => Some(windows[k].clone()),
                None => None,
            }
        },
        Err(_) => None,
    }
}

/// The answer after a change of geometry was tried: what it came to, with the window as it
/// is now and a note on how much of it is on the screen, or the error.
pub fn geometry_output(
    backend: String,
    outcome: Result<String, String>,
    window: Option<WindowInfo>,
    off_screen_note: Option<String>,
) -> (r: WindowGeometryOutput)
    ensures
        r.implemented,
        r.backend == backend,
        match outcome {
            Ok(message) => r.ok && r.window == window && r.permissions_hint is None && r.message@
                == (match off_screen_note {
                Some(note) => message@ + " "@ + note@,
                None => message@,
            }),
            Err(error) => !r.ok && r.window is None && r.message == error && text_of(
                r.permissions_hint,
            ) == permission_hint(error@),
        },
{
    match outcome {
        Ok(message) => {
            let message = match off_screen_note {
                Some(note) => {
                    let mut message = cat(&message, " ");
                    message.append(&note);
                    message
                },
                None => message,
            };
            WindowGeometryOutput {
                ok: true,
                implemented: true,
                backend,
                window,
                message,
                permissions_hint: None,
            }
        },
        Err(error) => {
            let permissions_hint = window_permission_hint(&error);
            WindowGeometryOutput {
                ok: false,
                implemented: true,
                backend,
                window: None,
                message: error,
                permissions_hint,
            }
        },
    }
}

/// What the tools on workspaces answer.
#[derive(Debug)]
pub struct WorkspaceOutput {
    pub ok: bool,
    pub implemented: bool,
    pub workspace: Option<WorkspaceSummary>,
    pub previous_workspace: Option<WorkspaceSummary>,
    pub window: Option<WindowInfo>,
    pub message: String,
}

/// Whether an answer is that nothing was done on workspaces.
pub open spec fn refuses_workspace(output: WorkspaceOutput, message: Seq<char>) -> bool {
    &&& !output.ok
    &&& output.implemented
    &&& output.workspace is None
    &&& output.previous_workspace is None
    &&& output.window is None
    &&& output.message@ == message
}

/// The answer where nothing was done on workspaces.
pub fn workspace_failure(message: String) -> (r: WorkspaceOutput)
    ensures
        refuses_workspace(r, message@),
{
    WorkspaceOutput {
        ok: false,
        implemented: true,
        workspace: None,
        previous_workspace: None,
        window: None,
        message,
    }
}

/// What `focus_workspace` says where the view went there.
pub open spec fn workspace_shown(change: WorkspaceChange) -> Seq<char> {
    "Workspace "@ + decimal(change.current.id as int) + " ("@ + change.current.name@
        + ") is visible, with "@ + decimal(change.current.windows as int)
        + " window(s) on it. The view was on workspace "@ + decimal(change.previous.id as int)
        + "; pass workspace=\""@ + decimal(change.previous.id as int) + "\" to put it back."@
}

/// What `focus_workspace` answers.
pub fn focus_workspace_output(target: WorkspaceTarget, outcome: Result<WorkspaceChange, String>) -> (r:
    WorkspaceOutput)
    ensures
        match outcome {
            Ok(change) => r.ok && r.implemented && r.workspace == Some(change.current)
                && r.previous_workspace == Some(change.previous) && r.window is None && r.message@
                == workspace_shown(change),
            Err(error) => refuses_workspace(
                r,
                "Could not show "@ + target.words() + ": "@ + error@,
            ),
        },
{
    match outcome {
        Ok(change) => {
            let mut message = cat("Workspace ", &signed_decimal_of(change.current.id as i64));
            message.append(" (");
            message.append(&change.current.name);
            message.append(") is visible, with ");
            message.append(&decimal_of(change.current.windows as u64));
            message.append(" window(s) on it. The view was on workspace ");
            message.append(&signed_decimal_of(change.previous.id as i64));
            message.append("; pass workspace=\"");
            message.append(&signed_decimal_of(change.previous.id as i64));
            message.append("\" to put it back.");
            WorkspaceOutput {
                ok: true,
                implemented: true,
                workspace: Some(change.current),
                previous_workspace: Some(change.previous),
                window: None,
                message,
            }
        },
        Err(error) => {
            let mut message = cat("Could not show ", &target.describe());
            message.append(": ");
            message.append(&error);
            workspace_failure(message)
        },
    }
}

/// What came of moving a window to a workspace: the workspaces it left and reached, and
/// those of the view.
#[derive(Debug)]
pub struct WindowWorkspaceMove {
    pub from: Option<i32>,
    pub to: Option<i32>,
    pub view: WorkspaceChange,
}

/// The window that is moved to a workspace, or the answer where there is none.
pub fn workspace_window(target: &WindowTarget, listed: Result<Vec<WindowInfo>, String>) -> (r: Result<
    WindowInfo,
    WorkspaceOutput,
>)
    ensures
        match listed {
            Err(error) => r is Err && refuses_workspace(
                r->Err_0,
                "Window listing failed: "@ + error@,
            ),
            Ok(windows) => match resolved(windows@, *target) {
                Ok(k) => r is Ok && r->Ok_0 == windows@[k],
                Err(message) => r is Err && refuses_workspace(r->Err_0, message),
            },
        },
{
    let windows = match listed {
        Ok(windows) => windows,
        Err(error) => return Err(workspace_failure(cat("Window listing failed: ", &error))),
    };
    match resolve_window_target(&windows, target) {
        Ok(window) => Ok(window.clone()),
        Err(message) => Err(workspace_failure(message)),
    }
}

/// A workspace that may not have been reported, in words.
pub open spec fn workspace_word(id: Option<i32>) -> Seq<char> {
    match id {
        Some(id) => decimal(id as int),
        None => "unknown"@,
    }
}

/// What `move_window_to_workspace` says where the window went there.
pub open spec fn window_moved(window_id: u64, moved: WindowWorkspaceMove, follow: bool) -> Seq<char> {
    let view = moved.view;
    "Moved window 0x"@ + hex(window_id as int) + " from workspace "@ + workspace_word(moved.from)
        + " to workspace "@ + workspace_word(moved.to) + "."@ + if follow {
        " The view followed and is on workspace "@ + decimal(view.current.id as int) + " ("@
            + decimal(view.current.windows as int) + " window(s)); it was on workspace "@ + decimal(
            view.previous.id as int,
        ) + ", which is where to put it back."@
    } else {
        " The view stayed on workspace "@ + decimal(view.current.id as int)
            + ", so the window is not visible: screenshots and pointer input cannot reach it until a focus_workspace brings it back."@
    }
}

/// What `move_window_to_workspace` answers.
pub fn move_window_to_workspace_output(
    window_id: u64,
    target: WorkspaceTarget,
    follow: bool,
    outcome: Result<WindowWorkspaceMove, String>,
    window: Option<WindowInfo>,
) -> (r: WorkspaceOutput)
    ensures
        match outcome {
            Ok(moved) => r.ok && r.implemented && r.workspace == Some(moved.view.current)
                && r.previous_workspace == Some(moved.view.previous) && r.window == window
                && r.message@ == window_moved(window_id, moved, follow),
            Err(error) => refuses_workspace(
                r,
                "Could not move window 0x"@ + hex(window_id as int) + " to "@ + target.words()
                    + ": "@ + error@,
            ),
        },
{
    match outcome {
        Ok(moved) => {
            let mut message = cat("Moved window 0x", &hex_of(window_id));
            message.append(" from workspace ");
            message.append(&describe_workspace_id(moved.from));
            message.append(" to workspace ");
            message.append(&describe_workspace_id(moved.to));
            message.append(".");
            if follow {
                let mut tail = cat(
                    " The view followed and is on workspace ",
                    &signed_decimal_of(moved.view.current.id as i64),
                );
                tail.append(" (");
                tail.append(&decimal_of(moved.view.current.windows as u64));
                tail.append(" window(s)); it was on workspace ");
                tail.append(&signed_decimal_of(moved.view.previous.id as i64));
                tail.append(", which is where to put it back.");
                message.append(&tail);
            } else {
                let mut tail = cat(
                    " The view stayed on workspace ",
                    &signed_decimal_of(moved.view.current.id as i64),
                );
                tail.append(
                    ", so the window is not visible: screenshots and pointer input cannot reach it until a focus_workspace brings it back.",
                );
                message.append(&tail);
            }
            WorkspaceOutput {
                ok: true,
                implemented: true,
                workspace: Some(moved.view.current),
                previous_workspace: Some(moved.view.previous),
                window,
                message,
            }
        },
        Err(error) => {
            let mut message = cat("Could not move window 0x", &hex_of(window_id));
            message.append(" to ");
            message.append(&target.describe());
            message.append(": ");
            message.append(&error);
            workspace_failure(message)
        },
    }
}

/// A change of a window's geometry, in desktop coordinates.
#[derive(Debug, Clone, Copy, PartialEq, Eq, Structural)]
pub enum GeometryChange {
    /// The top left corner goes here.
    Move { x: i32, y: i32 },
    /// The window gets these dimensions.
    Resize { width: i32, height: i32 },
    /// The window floats, or is tiled.
    Float { floating: bool },
}

/// The next thing a change of a window's geometry does.
#[derive(Debug)]
pub enum GeometryTask {
    /// Ask the allowlist about this window, or about the focused one.
    Gate(Option<WindowTarget>),
    /// List the windows.
    List,
    /// Change the geometry of this window.
    Change { window: WindowInfo, change: GeometryChange },
    /// List the windows again, to see what the change came to.
    ListAgain { backend: String, window_id: u64, message: String },
    /// Nothing: this is the answer.
    Done(WindowGeometryOutput),
}

/// What came of a task.
#[derive(Debug)]
pub enum GeometryReport {
    Gate(Result<(), String>),
    Listed(Result<Vec<WindowInfo>, String>),
    Changed(Result<String, String>),
}

/// Whether a report is one of a task.
pub open spec fn reports_geometry(task: GeometryTask, report: GeometryReport) -> bool {
    match task {
        GeometryTask::Gate(_) => report is Gate,
        GeometryTask::List => report is Listed,
        GeometryTask::Change { .. } => report is Changed,
        GeometryTask::ListAgain { .. } => report is Listed,
        GeometryTask::Done(_) => false,
    }
}

/// Whether a task is one for a target: the allowlist is asked about the window it names.
pub open spec fn is_of_geometry(task: GeometryTask, target: WindowTarget) -> bool {
    task is Gate ==> task->Gate_0 == target.window_named()
}

/// The first thing a change of a window's geometry does: ask the allowlist.
pub fn start_geometry(target: &WindowTarget) -> (r: GeometryTask)
    ensures
        r == GeometryTask::Gate(target.window_named()),
        is_of_geometry(r, *target),
{
    GeometryTask::Gate(target.named_window())
}

/// What is said of a window that may not be all on the screen.
pub open spec fn window_note(window: Option<WindowInfo>, desktop: Option<(i32, i32)>) -> Option<
    Seq<char>,
> {
    match window {
        Some(window) => match window.bounds {
            Some(bounds) => off_screen_note(bounds, desktop),
            None => None,
        },
        None => None,
    }
}

/// Whether the next task is what follows one, by what came of it.
pub open spec fn geometry_follows(
    target: WindowTarget,
    change: GeometryChange,
    desktop: Option<(i32, i32)>,
    task: GeometryTask,
    report: GeometryReport,
    next: GeometryTask,
) -> bool {
    match (task, report) {
        (GeometryTask::Gate(_), GeometryReport::Gate(outcome)) => match outcome {
            Err(message) => next is Done && refuses_geometry(next->Done_0, message@, None),
            Ok(_) => next is List,
        },
        (GeometryTask::List, GeometryReport::Listed(listed)) => match listed {
            Err(error) => next is Done && refuses_geometry(
                next->Done_0,
                "Window listing failed: "@ + error@,
                permission_hint(error@),
            ),
            Ok(windows) => match resolved(windows@, target) {
                Ok(k) => next == (GeometryTask::Change { window: windows@[k], change }),
                Err(message) => next is Done && refuses_geometry(next->Done_0, message, None),
            },
        },
        (GeometryTask::Change { window, .. }, GeometryReport::Changed(outcome)) => match outcome {
            Ok(message) => next == (GeometryTask::ListAgain {
                backend: window.backend,
                window_id: window.window_id,
                message,
            }),
            Err(error) => {
                &&& next is Done
                &&& !next->Done_0.ok
                &&& next->Done_0.implemented
                &&& next->Done_0.backend == window.backend
                &&& next->Done_0.window is None
                &&& next->Done_0.message == error
                &&& text_of(next->Done_0.permissions_hint) == permission_hint(error@)
            },
        },
        (
            GeometryTask::ListAgain { backend, window_id, message },
            GeometryReport::Listed(listed),
        ) => {
            let window = listed_again(window_id, listed);
            &&& next is Done
            &&& next->Done_0.ok
            &&& next->Done_0.implemented
            &&& next->Done_0.backend == backend
            &&& next->Done_0.window == window
            &&& next->Done_0.permissions_hint is None
            &&& next->Done_0.message@ == match window_note(window, desktop) {
                Some(note) => message@ + " "@ + note,
                None => message@,
            }
        },
        _ => true,
    }
}

/// What a change of a window's geometry does next, by what came of the last: resolve the
/// window, dispatch the change, then list the windows again to report what actually
/// happened rather than what was asked for. `desktop` is the extent of the desktop as far
/// as it is known.
pub fn window_geometry_op(
    target: &WindowTarget,
    change: GeometryChange,
    desktop: Option<(i32, i32)>,
    task: GeometryTask,
    report: GeometryReport,
) -> (r: GeometryTask)
    requires
        reports_geometry(task, report),
        is_of_geometry(task, *target),
    ensures
        geometry_follows(*target, change, desktop, task, report, r),
        is_of_geometry(r, *target),
{
    match (task, report) {
        (GeometryTask::Gate(_), GeometryReport::Gate(outcome)) => match outcome {
            Err(message) => GeometryTask::Done(geometry_gated(message)),
            Ok(_) => GeometryTask::List,
        },
        (GeometryTask::List, GeometryReport::Listed(listed)) => match geometry_window(
            target,
            listed,
        ) {
            Ok(window) => GeometryTask::Change { window, change },
            Err(output) => GeometryTask::Done(output),
        },
        (GeometryTask::Change { window, .. }, GeometryReport::Changed(outcome)) => match outcome {
            Ok(message) => GeometryTask::ListAgain {
                backend: window.backend,
                window_id: window.window_id,
                message,
            },
            Err(error) => GeometryTask::Done(
                geometry_output(window.backend, Err(error), None, None),
            ),
        },
        (
            GeometryTask::ListAgain { backend, window_id, message },
            GeometryReport::Listed(listed),
        ) => {
            let window = window_again(window_id, listed);
            let note = match &window {
                Some(window) => match &window.bounds {
                    Some(bounds) => off_screen_note_for_bounds(bounds, desktop),
                    None => None,
                },
                None => None,
            };
            GeometryTask::Done(geometry_output(backend, Ok(message), window, note))
        },
        (task, _) => task,
    }
}

/// No window changes its geometry before the allowlist was asked about the window that the
/// selectors name and has let it pass, and none but the one that they name, by the change
/// that was asked for.
pub proof fn geometry_is_gated(
    target: WindowTarget,
    change: GeometryChange,
    desktop: Option<(i32, i32)>,
    task: GeometryTask,
    report: GeometryReport,
    next: GeometryTask,
)
    requires
        reports_geometry(task, report),
        is_of_geometry(task, target),
        geometry_follows(target, change, desktop, task, report, next),
    ensures
        is_of_geometry(next, target),
        next is List ==> task is Gate && task->Gate_0 == target.window_named()
            && report->Gate_0 is Ok,
        next is Change ==> task is List && report->Listed_0 is Ok && resolved(
            report->Listed_0->Ok_0@,
            target,
        ) is Ok && next->change == change && next->window == report->Listed_0->Ok_0@[resolved(
            report->Listed_0->Ok_0@,
            target,
        )->Ok_0],
{
}

/// The next thing a tool on workspaces does.
#[derive(Debug)]
pub enum WorkspaceTask {
    /// Ask the allowlist about this window, or about the focused one.
    Gate { asked: Option<WindowTarget>, to: WorkspaceTarget },
    /// List the windows.
    List(WorkspaceTarget),
    /// Show a workspace.
    Show(WorkspaceTarget),
    /// Move this window to a workspace, and the view with it where it follows.
    Move { window: WindowInfo, to: WorkspaceTarget, follow: bool },
    /// List the windows again, to see what the move came to.
    ListAgain { window_id: u64, to: WorkspaceTarget, moved: WindowWorkspaceMove },
    /// Nothing: this is the answer.
    Done(WorkspaceOutput),
}

/// What came of a task.
#[derive(Debug)]
pub enum WorkspaceReport {
    Gate(Result<(), String>),
    Listed(Result<Vec<WindowInfo>, String>),
    Shown(Result<WorkspaceChange, String>),
    Moved(Result<WindowWorkspaceMove, String>),
}

/// Whether a report is one of a task.
pub open spec fn reports_workspace(task: WorkspaceTask, report: WorkspaceReport) -> bool {
    match task {
        WorkspaceTask::Gate { .. } => report is Gate,
        WorkspaceTask::List(_) => report is Listed,
        WorkspaceTask::Show(_) => report is Shown,
        WorkspaceTask::Move { .. } => report is Moved,
        WorkspaceTask::ListAgain { .. } => report is Listed,
        WorkspaceTask::Done(_) => false,
    }
}

/// The first thing `focus_workspace` does: ask the allowlist, where the workspace is one. It
/// names no window, so that the focused one is asked about.
pub fn start_focus_workspace(workspace: &str) -> (r: WorkspaceTask)
    ensures
        match workspace_named(workspace@) {
            Some(to) => r == (WorkspaceTask::Gate { asked: None, to }),
            None => r is Done && refuses_workspace(r->Done_0, workspace_refusal(workspace@)),
        },
        shows_workspace(r),
{
    match WorkspaceTarget::parse(workspace) {
        Ok(to) => WorkspaceTask::Gate { asked: None, to },
        Err(message) => WorkspaceTask::Done(workspace_failure(message)),
    }
}

/// The first thing `move_window_to_workspace` does: ask the allowlist about the window, where
/// the workspace is one.
pub fn start_move_window(target: &WindowTarget, workspace: &str) -> (r: WorkspaceTask)
    ensures
        match workspace_named(workspace@) {
            Some(to) => r == (WorkspaceTask::Gate { asked: target.window_named(), to }),
            None => r is Done && refuses_workspace(r->Done_0, workspace_refusal(workspace@)),
        },
        moves_window(r, *target),
{
    match WorkspaceTarget::parse(workspace) {
        Ok(to) => WorkspaceTask::Gate { asked: target.named_window(), to },
        Err(message) => WorkspaceTask::Done(workspace_failure(message)),
    }
}

/// Whether a task is one of `focus_workspace`.
pub open spec fn shows_workspace(task: WorkspaceTask) -> bool {
    match task {
        WorkspaceTask::Gate { asked, .. } => asked is None,
        WorkspaceTask::Show(_) => true,
        WorkspaceTask::Done(_) => true,
        _ => false,
    }
}

/// Whether a task is one of `move_window_to_workspace` for a target: the allowlist is asked
/// about the window it names.
pub open spec fn moves_window(task: WorkspaceTask, target: WindowTarget) -> bool {
    match task {
        WorkspaceTask::Gate { asked, .. } => asked == target.window_named(),
        WorkspaceTask::Show(_) => false,
        _ => true,
    }
}

/// Whether the next task is what follows one of `focus_workspace`, by what came of it.
pub open spec fn focus_workspace_follows(
    task: WorkspaceTask,
    report: WorkspaceReport,
    next: WorkspaceTask,
) -> bool {
    match (task, report) {
        (WorkspaceTask::Gate { to, .. }, WorkspaceReport::Gate(outcome)) => match outcome {
            Err(message) => next is Done && refuses_workspace(next->Done_0, message@),
            Ok(_) => next == WorkspaceTask::Show(to),
        },
        (WorkspaceTask::Show(target), WorkspaceReport::Shown(outcome)) => next is Done
            && match outcome {
            Ok(change) => next->Done_0.ok && next->Done_0.implemented && next->Done_0.workspace
                == Some(change.current) && next->Done_0.previous_workspace == Some(change.previous)
                && next->Done_0.window is None && next->Done_0.message@ == workspace_shown(change),
            Err(error) => refuses_workspace(
                next->Done_0,
                "Could not show "@ + target.words() + ": "@ + error@,
            ),
        },
        _ => true,
    }
}

/// What `focus_workspace` does next, by what came of the last.
pub fn focus_workspace(task: WorkspaceTask, report: WorkspaceReport) -> (r: WorkspaceTask)
    requires
        reports_workspace(task, report),
        shows_workspace(task),
    ensures
        focus_workspace_follows(task, report, r),
        shows_workspace(r),
{
    match (task, report) {
        (WorkspaceTask::Gate { to, .. }, WorkspaceReport::Gate(outcome)) => match outcome {
            Err(message) => WorkspaceTask::Done(workspace_failure(message)),
            Ok(_) => WorkspaceTask::Show(to),
        },
        (WorkspaceTask::Show(target), WorkspaceReport::Shown(outcome)) => WorkspaceTask::Done(
            focus_workspace_output(target, outcome),
        ),
        (task, _) => task,
    }
}

/// Whether the next task is what follows one of `move_window_to_workspace`, by what came of
/// it. The view follows the window unless told otherwise.
pub open spec fn move_follows(
    target: WindowTarget,
    follow: bool,
    task: WorkspaceTask,
    report: WorkspaceReport,
    next: WorkspaceTask,
) -> bool {
    match (task, report) {
        (WorkspaceTask::Gate { to, .. }, WorkspaceReport::Gate(outcome)) => match outcome {
            Err(message) => next is Done && refuses_workspace(next->Done_0, message@),
            Ok(_) => next == WorkspaceTask::List(to),
        },
        (WorkspaceTask::List(to), WorkspaceReport::Listed(listed)) => match listed {
            Err(error) => next is Done && refuses_workspace(
                next->Done_0,
                "Window listing failed: "@ + error@,
            ),
            Ok(windows) => match resolved(windows@, target) {
                Ok(k) => next == (WorkspaceTask::Move { window: windows@[k], to, follow }),
                Err(message) => next is Done && refuses_workspace(next->Done_0, message),
            },
        },
        (WorkspaceTask::Move { window, to, .. }, WorkspaceReport::Moved(outcome)) => match outcome {
            Ok(moved) => next == (WorkspaceTask::ListAgain {
                window_id: window.window_id,
                to,
                moved,
            }),
            Err(error) => next is Done && refuses_workspace(
                next->Done_0,
                "Could not move window 0x"@ + hex(window.window_id as int) + " to "@ + to.words()
                    + ": "@ + error@,
            ),
        },
        (WorkspaceTask::ListAgain { window_id, moved, .. }, WorkspaceReport::Listed(listed)) => {
            &&& next is Done
            &&& next->Done_0.ok
            &&& next->Done_0.implemented
            &&& next->Done_0.workspace == Some(moved.view.current)
            &&& next->Done_0.previous_workspace == Some(moved.view.previous)
            &&& next->Done_0.window == listed_again(window_id, listed)
            &&& next->Done_0.message@ == window_moved(window_id, moved, follow)
        },
        _ => true,
    }
}

/// What `move_window_to_workspace` does next, by what came of the last.
pub fn move_window_to_workspace(
    target: &WindowTarget,
    follow: bool,
    task: WorkspaceTask,
    report: WorkspaceReport,
) -> (r: WorkspaceTask)
    requires
        reports_workspace(task, report),
        moves_window(task, *target),
    ensures
        move_follows(*target, follow, task, report, r),
        moves_window(r, *target),
{
    match (task, report) {
        (WorkspaceTask::Gate { to, .. }, WorkspaceReport::Gate(outcome)) => match outcome {
            Err(message) => WorkspaceTask::Done(workspace_failure(message)),
            Ok(_) => WorkspaceTask::List(to),
        },
        (WorkspaceTask::List(to), WorkspaceReport::Listed(listed)) => match workspace_window(
            target,
            listed,
        ) {
            Ok(window) => WorkspaceTask::Move { window, to, follow },
            Err(output) => WorkspaceTask::Done(output),
        },
        (WorkspaceTask::Move { window, to, .. }, WorkspaceReport::Moved(outcome)) => match outcome {
            Ok(moved) => WorkspaceTask::ListAgain { window_id: window.window_id, to, moved },
            Err(error) => WorkspaceTask::Done(
                move_window_to_workspace_output(window.window_id, to, follow, Err(error), None),
            ),
        },
        (WorkspaceTask::ListAgain { window_id, to, moved }, WorkspaceReport::Listed(listed)) => {
            let window = window_again(window_id, listed);
            WorkspaceTask::Done(
                move_window_to_workspace_output(window_id, to, follow, Ok(moved), window),
            )
        },
        (task, _) => task,
    }
}

/// No window goes to another workspace before the allowlist was asked about the window that
/// the selectors name and has let it pass, and none but the one that they name.
pub proof fn a_move_to_a_workspace_is_gated(
    target: WindowTarget,
    follow: bool,
    task: WorkspaceTask,
    report: WorkspaceReport,
    next: WorkspaceTask,
)
    requires
        reports_workspace(task, report),
        moves_window(task, target),
        move_follows(target, follow, task, report, next),
    ensures
        moves_window(next, target),
        task is Gate && report->Gate_0 is Err ==> next is Done && !next->Done_0.ok,
        next is List ==> task is Gate && task->asked == target.window_named() && report->Gate_0
            is Ok,
        next is Move ==> next->follow == follow && task is List && report->Listed_0 is Ok && resolved(
            report->Listed_0->Ok_0@,
            target,
        ) is Ok && next->window == report->Listed_0->Ok_0@[resolved(
            report->Listed_0->Ok_0@,
            target,
        )->Ok_0],
{
}

/// What a change is reported by is the window as it is listed afterwards: the first of the
/// very id, and none where it is not listed.
pub proof fn a_change_is_reported_by_the_window_itself(
    window_id: u64,
    listed: Result<Vec<WindowInfo>, String>,
)
    ensures
        match listed_again(window_id, listed) {
            Some(window) => listed is Ok && window.window_id == window_id
                && listed->Ok_0@.contains(window),
            None => listed is Ok ==> forall|k: int|
                0 <= k < listed->Ok_0@.len() ==> (#[trigger] listed->Ok_0@[k]).window_id
                    != window_id,
        },
{
    if listed is Ok {
        the_first_match_is_the_first(listed->Ok_0@, has_id(window_id));
    }
}

/// A change of geometry is said to be made exactly where it was: the answer is a success only
/// after the change succeeded, and a change that failed ends with what it said.
pub proof fn a_change_is_said_to_be_made_where_it_was(
    target: WindowTarget,
    change: GeometryChange,
    desktop: Option<(i32, i32)>,
    task: GeometryTask,
    report: GeometryReport,
    next: GeometryTask,
)
    requires
        reports_geometry(task, report),
        geometry_follows(target, change, desktop, task, report, next),
    ensures
        task is Change ==> (next is ListAgain <==> report->Changed_0 is Ok),
        task is Change && next is ListAgain ==> next->window_id == task->window.window_id
            && next->message@ == report->Changed_0->Ok_0@,
        next is Done && next->Done_0.ok ==> task is ListAgain,
        task is ListAgain ==> next is Done && next->Done_0.ok && next->Done_0.window
            == listed_again(task->window_id, report->Listed_0),
        task is Change && report->Changed_0 is Err ==> next is Done && !next->Done_0.ok
            && next->Done_0.message@ == report->Changed_0->Err_0@,
{
}

/// The workspace that is shown is the one that was named, once the allowlist lets it; the view
/// is said to be there exactly where it went, with the workspace it left.
pub proof fn the_workspace_shown_is_the_one_named(
    task: WorkspaceTask,
    report: WorkspaceReport,
    next: WorkspaceTask,
)
    requires
        reports_workspace(task, report),
        shows_workspace(task),
        focus_workspace_follows(task, report, next),
    ensures
        next is Show <==> task is Gate && report->Gate_0 is Ok,
        next is Show ==> next->Show_0 == task->Gate_to,
        task is Show ==> next is Done && (next->Done_0.ok <==> report->Shown_0 is Ok),
        task is Show && report->Shown_0 is Ok ==> next->Done_0.workspace == Some(
            report->Shown_0->Ok_0.current,
        ) && next->Done_0.previous_workspace == Some(report->Shown_0->Ok_0.previous),
{
}

/// A window is moved to the workspace that was named, and is said to be there exactly where it
/// went.
pub proof fn a_window_is_moved_to_the_workspace_named(
    target: WindowTarget,
    follow: bool,
    task: WorkspaceTask,
    report: WorkspaceReport,
    next: WorkspaceTask,
)
    requires
        reports_workspace(task, report),
        moves_window(task, target),
        move_follows(target, follow, task, report, next),
    ensures
        next is List ==> next->List_0 == task->Gate_to,
        next is Move ==> next->Move_to == task->List_0 && next->follow == follow,
        task is Move ==> (next is ListAgain <==> report->Moved_0 is Ok),
        task is Move && next is ListAgain ==> next->window_id == task->window.window_id
            && next->moved == report->Moved_0->Ok_0,
        next is Done && next->Done_0.ok ==> task is ListAgain,
        task is ListAgain ==> next is Done && next->Done_0.ok && next->Done_0.workspace == Some(
            task->moved.view.current,
        ) && next->Done_0.window == listed_again(task->window_id, report->Listed_0),
{
}

/// What the tools on windows answer is what was found: the windows as listed, the window that
/// has the focus, the pointer's position; and an activation is a success exactly where the
/// focus that came about is the one asked for.
pub proof fn the_tools_answer_what_was_found(
    windows: Vec<WindowInfo>,
    list: ListWindowsOutput,
    focused: Option<WindowInfo>,
    focus_answer: FocusedWindowOutput,
    target: WindowTarget,
    focus: WindowFocusResult,
    activation: ActivateWindowOutput,
    point: (i32, i32),
    backend: String,
    position: PointerPositionOutput,
)
    requires
        call_ensures(window_list_output, (Ok(windows),), list),
        call_ensures(focused_window_output, (Ok(focused),), focus_answer),
        call_ensures(activate_window_output, (&target, Ok(focus)), activation),
        call_ensures(pointer_position_output, (Ok(Some((point, backend))),), position),
    ensures
        list.windows@ == windows@ && list.error is None,
        focus_answer.focused_window == focused && focus_answer.error is None,
        activation.ok <==> satisfies(focus, target),
        activation.focus == Some(focus),
        position.ok && position.x == Some(point.0) && position.y == Some(point.1),
{
}

/// What could not be found is answered as a failure, with the reason.
pub proof fn the_tools_answer_what_failed(
    error: String,
    list: ListWindowsOutput,
    focus_answer: FocusedWindowOutput,
    target: WindowTarget,
    activation: ActivateWindowOutput,
    position: PointerPositionOutput,
)
    requires
        call_ensures(window_list_output, (Err(error),), list),
        call_ensures(focused_window_output, (Err(error),), focus_answer),
        call_ensures(activate_window_output, (&target, Err(error)), activation),
        call_ensures(pointer_position_output, (Err(error),), position),
    ensures
        list.windows@.len() == 0 && list.error == Some(error),
        focus_answer.focused_window is None && focus_answer.error == Some(error),
        !activation.ok && activation.focus is None && activation.error == Some(error),
        !position.ok && position.x is None && position.y is None && position.message@ == error@,
{
}

} // verus!
