//! Windows and workspaces as values.

use vstd::prelude::*;
use vstd::string::StringExecFns;
use crate::numerals::{decimal, parse_signed, signed_decimal_of, signed_of};
use crate::terminal::TerminalWindowContext;
use crate::text::{
    debug_of, debug_text, equal_ignoring_case, filled, is_blank, is_filled, lower,
    same_ignoring_case, text_of, trim, trimmed,
};

verus! {

/// A window on the desktop.
#[derive(Debug)]
pub struct WindowInfo {
    pub window_id: u64,
    pub title: Option<String>,
    pub app_id: Option<String>,
    pub wm_class: Option<String>,
    pub pid: Option<u32>,
    pub bounds: Option<WindowBounds>,
    pub workspace: Option<i32>,
    pub focused: bool,
    pub hidden: bool,
    pub client_type: Option<String>,
    pub backend: String,
    pub terminal: Option<TerminalWindowContext>,
}

/// A window that overlaps a screenshot target and sits above it.
#[derive(Debug, PartialEq, Eq)]
pub struct WindowOcclusion {
    pub window_id: u64,
    pub title: Option<String>,
}

/// Where a window is, as far as that is known, and how large.
#[derive(Debug, Clone, Copy, PartialEq, Eq, Structural)]
pub struct WindowBounds {
    pub x: Option<i32>,
    pub y: Option<i32>,
    pub width: u32,
    pub height: u32,
}

/// The selectors a caller names a window by.
#[derive(Debug)]
pub struct WindowTarget {
    pub window_id: Option<u64>,
    pub pid: Option<u32>,
    pub tty: Option<String>,
    pub terminal_pid: Option<u32>,
    pub terminal_command: Option<String>,
    pub terminal_cwd: Option<String>,
    pub app_id: Option<String>,
    pub wm_class: Option<String>,
    pub title: Option<String>,
}

/// What came of asking for a window to be focused.
#[derive(Debug)]
pub struct WindowFocusResult {
    pub requested_window: WindowInfo,
    pub focused_window: Option<WindowInfo>,
    pub exact_window_focused: bool,
    pub app_focused: bool,
    pub backend: String,
    pub note: String,
}

impl Clone for WindowInfo {
    fn clone(&self) -> (r: Self)
        ensures
            r == *self,
    {
        WindowInfo {
            window_id: self.window_id,
            title: self.title.clone(),
            app_id: self.app_id.clone(),
            wm_class: self.wm_class.clone(),
            pid: self.pid,
            bounds: self.bounds,
            workspace: self.workspace,
            focused: self.focused,
            hidden: self.hidden,
            client_type: self.client_type.clone(),
            backend: self.backend.clone(),
            terminal: self.terminal.clone(),
        }
    }
}

impl Clone for WindowOcclusion {
    fn clone(&self) -> (r: Self)
        ensures
            r == *self,
    {
        WindowOcclusion { window_id: self.window_id, title: self.title.clone() }
    }
}

impl Clone for WindowTarget {
    fn clone(&self) -> (r: Self)
        ensures
            r == *self,
    {
        WindowTarget {
            window_id: self.window_id,
            pid: self.pid,
            tty: self.tty.clone(),
            terminal_pid: self.terminal_pid,
            terminal_command: self.terminal_command.clone(),
            terminal_cwd: self.terminal_cwd.clone(),
            app_id: self.app_id.clone(),
            wm_class: self.wm_class.clone(),
            title: self.title.clone(),
        }
    }
}

impl Default for WindowTarget {
    fn default() -> (r: Self)
        ensures
            r.window_id is None,
            r.pid is None,
            r.tty is None,
            r.terminal_pid is None,
            r.terminal_command is None,
            r.terminal_cwd is None,
            r.app_id is None,
            r.wm_class is None,
            r.title is None,
    {
        WindowTarget {
            window_id: None,
            pid: None,
            tty: None,
            terminal_pid: None,
            terminal_command: None,
            terminal_cwd: None,
            app_id: None,
            wm_class: None,
            title: None,
        }
    }
}

impl WindowTarget {
    /// Whether one of the four selectors that resolve a terminal is given.
    pub open spec fn names_terminal(self) -> bool {
        ||| self.terminal_pid is Some
        ||| is_filled(text_of(self.tty))
        ||| is_filled(text_of(self.terminal_command))
        ||| is_filled(text_of(self.terminal_cwd))
    }

    /// Whether any of the nine selectors is given. A blank text counts as none.
    pub open spec fn names_window(self) -> bool {
        ||| self.window_id is Some
        ||| self.pid is Some
        ||| self.names_terminal()
        ||| is_filled(text_of(self.app_id))
        ||| is_filled(text_of(self.wm_class))
        ||| is_filled(text_of(self.title))
    }

    /// Whether the selectors name one window rather than an application.
    pub open spec fn names_one_window(self) -> bool {
        ||| self.window_id is Some
        ||| self.pid is Some
        ||| self.names_terminal()
        ||| is_filled(text_of(self.title))
    }

    /// Whether any selector is given.
    pub fn has_target(&self) -> (r: bool)
        ensures
            r == self.names_window(),
    {
        self.window_id.is_some() || self.pid.is_some() || self.has_terminal_target() || filled(
            &self.app_id,
        ) || filled(&self.wm_class) || filled(&self.title)
    }

    /// The window that is named, where one is.
    pub open spec fn window_named(self) -> Option<WindowTarget> {
        if self.names_window() {
            Some(self)
        } else {
            None
        }
    }

    /// The window that is named, where one is.
    pub fn named_window(&self) -> (r: Option<WindowTarget>)
        ensures
            r == self.window_named(),
    {
        if self.has_target() {
            Some(self.clone())
        } else {
            None
        }
    }

    /// Whether input may go out only once the very window is focused, and not merely
    /// its application.
    pub fn requires_exact_focus(&self) -> (r: bool)
        ensures
            r == self.names_one_window(),
    {
        self.window_id.is_some() || self.pid.is_some() || self.has_terminal_target() || filled(
            &self.title,
        )
    }

    /// Whether a terminal selector is given.
    pub fn has_terminal_target(&self) -> (r: bool)
        ensures
            r == self.names_terminal(),
    {
        self.terminal_pid.is_some() || filled(&self.tty) || filled(&self.terminal_command)
            || filled(&self.terminal_cwd)
    }
}

/// A workspace a caller can name: an id, or the first one with nothing on it.
///
/// Hyprland's own selector grammar is much wider -- relative offsets, names,
/// special workspaces -- and none of the rest is accepted here, because a
/// tool's description has to say what it takes and this build only exercises
/// these two.
#[derive(Clone, Copy, Debug, PartialEq, Eq, Structural)]
pub enum WorkspaceTarget {
    /// A workspace by id. Hyprland creates it when it holds no windows yet.
    Id(i32),
    /// The first workspace with no windows on it, which Hyprland picks: ids
    /// run to 2,147,483,647 and a workspace exists only while something is on
    /// it, so there is always a next free one.
    FirstEmpty,
}

/// The workspace a text names, if it names one.
pub open spec fn workspace_named(value: Seq<char>) -> Option<WorkspaceTarget> {
    let value = trim(value);
    if same_ignoring_case(value, "empty"@) {
        Some(WorkspaceTarget::FirstEmpty)
    } else {
        match parse_signed(value, i32::MIN as int, i32::MAX as int) {
            Some(id) if id > 0 => Some(WorkspaceTarget::Id(id as i32)),
            _ => None,
        }
    }
}

/// What a caller is told whose workspace names none.
pub open spec fn workspace_refusal(value: Seq<char>) -> Seq<char> {
    "Unsupported workspace "@ + debug_text(trim(value))
        + ". Pass a workspace id (a positive number, as list_windows reports in each window's workspace) or \"empty\" for the first workspace with nothing on it."@
}

impl WorkspaceTarget {
    /// The text of the target in a dispatcher's `workspace` field.
    pub open spec fn lua_text(self) -> Seq<char> {
        match self {
            WorkspaceTarget::Id(id) => decimal(id as int),
            WorkspaceTarget::FirstEmpty => "\"empty\""@,
        }
    }

    /// Whether the reported workspace is the one that was asked for.
    pub open spec fn is_reached(self, workspace: i32, from: Option<i32>) -> bool {
        match self {
            WorkspaceTarget::Id(id) => workspace == id,
            WorkspaceTarget::FirstEmpty => from != Some(workspace),
        }
    }

    /// The target in words.
    pub open spec fn words(self) -> Seq<char> {
        match self {
            WorkspaceTarget::Id(id) => "workspace "@ + decimal(id as int),
            WorkspaceTarget::FirstEmpty => "the first empty workspace"@,
        }
    }

    /// Read the `workspace` a caller passed: a positive id, or `empty`.
    pub fn parse(value: &str) -> (r: Result<Self, String>)
        ensures
            match r {
                Ok(target) => workspace_named(value@) == Some(target),
                Err(message) => workspace_named(value@) is None && message@ == workspace_refusal(
                    value@,
                ),
            },
    {
        let value = trimmed(value);
        if equal_ignoring_case(&value, "empty") {
            return Ok(WorkspaceTarget::FirstEmpty);
        }
        match signed_of(&value, i32::MIN as i64, i32::MAX as i64) {
            Some(id) if id > 0 => Ok(WorkspaceTarget::Id(id as i32)),
            _ => {
                let mut message = "Unsupported workspace ".to_owned();
                message.append(&debug_of(&value));
                message.append(
                    ". Pass a workspace id (a positive number, as list_windows reports in each window's workspace) or \"empty\" for the first workspace with nothing on it.",
                );
                Err(message)
            },
        }
    }

    /// The value this target takes in a dispatcher's `workspace` field: a Lua
    /// number for an id, a quoted selector for the empty one.
    pub fn lua_value(self) -> (r: String)
        ensures
            r@ == self.lua_text(),
    {
        match self {
            WorkspaceTarget::Id(id) => signed_decimal_of(id as i64),
            WorkspaceTarget::FirstEmpty => "\"empty\"".to_owned(),
        }
    }

    /// Whether a workspace the compositor reported is the one that was asked
    /// for. An id is checked against itself; the first empty one is only
    /// known by having left the workspace the caller was on.
    pub fn reached(self, workspace: i32, from: Option<i32>) -> (r: bool)
        ensures
            r == self.is_reached(workspace, from),
    {
        match self {
            WorkspaceTarget::Id(id) => workspace == id,
            WorkspaceTarget::FirstEmpty => match from {
                Some(left) => left != workspace,
                None => true,
            },
        }
    }

    /// The target in words.
    pub fn describe(self) -> (r: String)
        ensures
            r@ == self.words(),
    {
        match self {
            WorkspaceTarget::Id(id) => {
                let mut words = "workspace ".to_owned();
                words.append(&signed_decimal_of(id as i64));
                words
            },
            WorkspaceTarget::FirstEmpty => "the first empty workspace".to_owned(),
        }
    }
}

/// The number a workspace target is dispatched as is read back as that target, for
/// every workspace a caller can name.
pub proof fn dispatched_workspace_reads_back(id: i32)
    requires
        id > 0,
    ensures
        workspace_named(WorkspaceTarget::Id(id).lua_text()) == Some(WorkspaceTarget::Id(id)),
{
    let text = decimal(id as int);
    crate::numerals::decimal_reads_back(id as int, i32::MIN as int, i32::MAX as int);
    crate::numerals::digits_have_no_space_or_letter(id as int);
    crate::text::trim_keeps(text);
    reveal_strlit("empty");
    assert(crate::text::lower("empty"@)[0] == 'e');
    assert(crate::text::lower(text)[0] == text[0]);
}

/// A workspace as `hyprctl activeworkspace -j` reports it.
#[derive(Debug)]
pub struct WorkspaceSummary {
    pub id: i32,
    pub name: String,
    /// How many windows are on it, which is what makes an empty one empty.
    pub windows: u32,
}

impl Clone for WorkspaceSummary {
    fn clone(&self) -> (r: Self)
        ensures
            r == *self,
    {
        WorkspaceSummary { id: self.id, name: self.name.clone(), windows: self.windows }
    }
}

/// The workspace the view was on, and the one it is on now.
#[derive(Debug)]
pub struct WorkspaceChange {
    pub previous: WorkspaceSummary,
    pub current: WorkspaceSummary,
}

impl Clone for WorkspaceChange {
    fn clone(&self) -> (r: Self)
        ensures
            r == *self,
    {
        WorkspaceChange { previous: self.previous.clone(), current: self.current.clone() }
    }
}

impl Clone for WindowFocusResult {
    fn clone(&self) -> (r: Self)
        ensures
            r == *self,
    {
        WindowFocusResult {
            requested_window: self.requested_window.clone(),
            focused_window: self.focused_window.clone(),
            exact_window_focused: self.exact_window_focused,
            app_focused: self.app_focused,
            backend: self.backend.clone(),
            note: self.note.clone(),
        }
    }
}

/// A target names a window exactly where one of its selectors is there, blank texts apart;
/// and it names one window, rather than an application, where one other than the app_id and
/// the wm_class is.
pub proof fn a_target_names_a_window_by_any_selector(target: WindowTarget)
    ensures
        target.names_terminal() <==> target.terminal_pid is Some || (target.tty is Some
            && !is_blank(target.tty->0@)) || (target.terminal_command is Some && !is_blank(
            target.terminal_command->0@,
        )) || (target.terminal_cwd is Some && !is_blank(target.terminal_cwd->0@)),
        target.names_one_window() <==> target.window_id is Some || target.pid is Some || (
        target.title is Some && !is_blank(target.title->0@)) || target.names_terminal(),
        target.names_window() <==> target.names_one_window() || (target.app_id is Some && !is_blank(
            target.app_id->0@,
        )) || (target.wm_class is Some && !is_blank(target.wm_class->0@)),
        target.window_named() is Some <==> target.names_window(),
        target.window_named() is Some ==> target.window_named()->0 == target,
{
}

/// A workspace is named by a positive number, or by the word for the first empty one in any
/// letter case, whitespace around either apart; it is reached where the view is on that
/// number, or has left where it was.
pub proof fn a_workspace_is_named_by_its_number(value: Seq<char>, workspace: i32, from: i32)
    ensures
        ({
            let number = parse_signed(trim(value), i32::MIN as int, i32::MAX as int);
            workspace_named(value) is Some && workspace_named(value)->0 is Id ==> number is Some
                && number->0 > 0 && workspace_named(value)->0->Id_0 == number->0 as i32
        }),
        lower(trim(value)) == lower("empty"@) <==> workspace_named(value) == Some(
            WorkspaceTarget::FirstEmpty,
        ),
        WorkspaceTarget::Id(workspace).is_reached(from, None) <==> from == workspace,
        WorkspaceTarget::FirstEmpty.is_reached(workspace, Some(from)) <==> workspace != from,
{
}

} // verus!
