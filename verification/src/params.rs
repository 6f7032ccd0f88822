//! What callers pass to the tools.

use vstd::prelude::*;
use crate::elements::ElementSelector;
use crate::screenshot::ScreenshotOutputFormat;
use crate::text::{borrowed, filled, is_blank, is_filled, text_of};
use crate::windowing::types::WindowTarget;

verus! {

/// The nine selectors, as every window-targeted tool takes them.
#[derive(Debug, Default)]
pub struct ActivateWindowParams {
    pub window_id: Option<u64>,
    pub pid: Option<u32>,
    pub tty: Option<String>,
    pub terminal_pid: Option<u32>,
    pub terminal_command: Option<String>,
    pub terminal_cwd: Option<String>,
    pub app_id: Option<String>,
    pub wm_class: Option<String>,
    pub title: Option<String>,
}

impl Clone for ActivateWindowParams {
    fn clone(&self) -> (r: Self)
        ensures
            r == *self,
    {
        ActivateWindowParams {
            window_id: self.window_id,
            pid: self.pid,
            tty: self.tty.clone(),
            terminal_pid: self.terminal_pid,
            terminal_command: self.terminal_command.clone(),
            terminal_cwd: self.terminal_cwd.clone(),
            app_id: self.app_id.clone(),
            wm_class: self.wm_class.clone(),
            title: self.title.clone(),
        }
    }
}

impl ActivateWindowParams {
    /// The target the selectors make.
    pub open spec fn target(self) -> WindowTarget {
        WindowTarget {
            window_id: self.window_id,
            pid: self.pid,
            tty: self.tty,
            terminal_pid: self.terminal_pid,
            terminal_command: self.terminal_command,
            terminal_cwd: self.terminal_cwd,
            app_id: self.app_id,
            wm_class: self.wm_class,
            title: self.title,
        }
    }

    /// The same target without consuming the params.
    pub fn to_target(&self) -> (r: WindowTarget)
        ensures
            r == self.target(),
    {
        self.clone().into_target()
    }

    /// The target, or `None` when no selector field was supplied at all.
    pub fn optional_target(&self) -> (r: Option<WindowTarget>)
        ensures
            match r {
                Some(target) => target == self.target() && target.names_window(),
                None => !self.target().names_window(),
            },
    {
        let target = self.to_target();
        if target.has_target() {
            Some(target)
        } else {
            None
        }
    }

    /// The target the selectors make.
    pub fn into_target(self) -> (r: WindowTarget)
        ensures
            r == self.target(),
    {
        WindowTarget {
            window_id: self.window_id,
            pid: self.pid,
            tty: self.tty,
            terminal_pid: self.terminal_pid,
            terminal_command: self.terminal_command,
            terminal_cwd: self.terminal_cwd,
            app_id: self.app_id,
            wm_class: self.wm_class,
            title: self.title,
        }
    }
}

/// Whether a selector's fields are the given ones.
pub open spec fn selects(
    selector: ElementSelector<'_>,
    role: Option<String>,
    name: Option<String>,
    text: Option<String>,
    states: Seq<String>,
) -> bool {
    &&& crate::elements::str_of(selector.role) == text_of(role)
    &&& crate::elements::str_of(selector.name) == text_of(name)
    &&& crate::elements::str_of(selector.text) == text_of(text)
    &&& selector.states@ == states
}

/// What `click` takes.
#[derive(Debug, Default)]
pub struct ClickParams {
    pub element_index: Option<u32>,
    /// The `object_ref` string of a node from the latest `get_app_state` result,
    /// as an alternative to `element_index`.
    pub object_ref: Option<String>,
    pub role: Option<String>,
    pub name: Option<String>,
    pub text: Option<String>,
    pub states: Vec<String>,
    pub x: Option<i32>,
    pub y: Option<i32>,
    pub button: Option<String>,
    pub click_count: Option<u32>,
    /// Modifier keys held around the pointer click (ctrl/alt/shift/meta, the
    /// `press_key` names). Forces the pointer path even when the element has an
    /// AT-SPI click action.
    pub modifiers: Vec<String>,
    /// Which window to act on. When set, the window is raised/focused before the
    /// click so a coordinate click reliably lands on the intended app rather than
    /// whatever window happens to be stacked on top at that pixel.
    pub target: ActivateWindowParams,
    /// Interpret `x`/`y` as relative to the targeted window's top-left corner
    /// (the same coordinate space as a window-cropped `screenshot`). Requires a
    /// window target; ignored otherwise.
    pub relative: Option<bool>,
}

impl ClickParams {
    /// The window to act on, where one is named.
    pub fn window_target(&self) -> (r: Option<WindowTarget>)
        ensures
            match r {
                Some(target) => target == self.target.target() && target.names_window(),
                None => !self.target.target().names_window(),
            },
    {
        self.target.optional_target()
    }

    /// The element selector.
    pub fn selector(&self) -> (r: ElementSelector<'_>)
        ensures
            selects(r, self.role, self.name, self.text, self.states@),
    {
        ElementSelector {
            role: borrowed(&self.role),
            name: borrowed(&self.name),
            text: borrowed(&self.text),
            states: self.states.as_slice(),
        }
    }
}

/// What `perform_action` takes.
#[derive(Debug, Default)]
pub struct ActionParams {
    pub element_index: Option<u32>,
    /// The `object_ref` string of a node from the latest `get_app_state` result,
    /// as an alternative to `element_index`.
    pub object_ref: Option<String>,
    pub element_identifier: Option<String>,
    pub role: Option<String>,
    pub name: Option<String>,
    pub text: Option<String>,
    pub states: Vec<String>,
    pub action: Option<String>,
}

impl ActionParams {
    /// The element selector.
    pub fn selector(&self) -> (r: ElementSelector<'_>)
        ensures
            selects(r, self.role, self.name, self.text, self.states@),
    {
        ElementSelector {
            role: borrowed(&self.role),
            name: borrowed(&self.name),
            text: borrowed(&self.text),
            states: self.states.as_slice(),
        }
    }
}

/// What `set_value` takes.
#[derive(Debug, Default)]
pub struct SetValueParams {
    pub element_index: Option<u32>,
    /// The `object_ref` string of a node from the latest `get_app_state` result,
    /// as an alternative to `element_index`.
    pub object_ref: Option<String>,
    pub element_identifier: Option<String>,
    pub role: Option<String>,
    pub name: Option<String>,
    pub text: Option<String>,
    pub states: Vec<String>,
    pub value: String,
}

impl SetValueParams {
    /// The element selector.
    pub fn selector(&self) -> (r: ElementSelector<'_>)
        ensures
            selects(r, self.role, self.name, self.text, self.states@),
    {
        ElementSelector {
            role: borrowed(&self.role),
            name: borrowed(&self.name),
            text: borrowed(&self.text),
            states: self.states.as_slice(),
        }
    }
}

/// What `scroll` takes, but for how far.
#[derive(Debug, Default)]
pub struct ScrollParams {
    pub element_index: Option<u32>,
    pub x: Option<i32>,
    pub y: Option<i32>,
    pub direction: String,
    /// Which window to act on. The window is raised/focused before scrolling so
    /// the wheel events land on the intended app.
    pub target: ActivateWindowParams,
    /// Interpret `x`/`y` as relative to the targeted window's top-left corner
    /// (the same coordinate space as a window-cropped `screenshot`). Requires a
    /// window target; ignored otherwise.
    pub relative: Option<bool>,
}

impl ScrollParams {
    /// The window to act on, where one is named.
    pub fn window_target(&self) -> (r: Option<WindowTarget>)
        ensures
            match r {
                Some(target) => target == self.target.target() && target.names_window(),
                None => !self.target.target().names_window(),
            },
    {
        self.target.optional_target()
    }
}

/// What `drag` takes.
#[derive(Debug, Default)]
pub struct DragParams {
    /// Drag origin in desktop pixels, or window-relative with a window target
    /// and `relative: true`. Omit when `start_element_index` names the origin.
    pub start_x: Option<i32>,
    pub start_y: Option<i32>,
    /// Drag destination, in the same space as the origin. Omit when
    /// `end_element_index` names it.
    pub end_x: Option<i32>,
    pub end_y: Option<i32>,
    /// Drag from the center of this element, from the latest `get_app_state`
    /// tree, instead of `start_x`/`start_y`.
    pub start_element_index: Option<u32>,
    /// Drag to the center of this element instead of `end_x`/`end_y`.
    pub end_element_index: Option<u32>,
    /// Modifier keys held around the drag (ctrl/alt/shift/meta, the `press_key`
    /// names).
    pub modifiers: Vec<String>,
    /// Interpret the coordinates as relative to the targeted window's top-left
    /// corner, the same space as a window-cropped `screenshot`. Requires a
    /// window target.
    pub relative: Option<bool>,
    /// Which window to act on. The window is raised/focused before the drag, so
    /// it lands on the intended app rather than whatever is stacked on top.
    pub target: ActivateWindowParams,
}

impl DragParams {
    /// The window to act on, where one is named.
    pub fn window_target(&self) -> (r: Option<WindowTarget>)
        ensures
            match r {
                Some(target) => target == self.target.target() && target.names_window(),
                None => !self.target.target().names_window(),
            },
    {
        self.target.optional_target()
    }
}

/// What `press_key` takes.
#[derive(Debug, Default)]
pub struct PressKeyParams {
    /// One key or chord.
    pub key: Option<String>,
    /// A sequence of keys or chords sent in order with a short delay between
    /// them. Exactly one of `key` and `keys` must be given.
    pub keys: Vec<String>,
    pub target: ActivateWindowParams,
}

impl PressKeyParams {
    /// The window to act on.
    pub fn window_target(&self) -> (r: WindowTarget)
        ensures
            r == self.target.target(),
    {
        self.target.to_target()
    }
}

/// What `type_text` takes.
#[derive(Debug, Default)]
pub struct TypeTextParams {
    pub text: String,
    pub target: ActivateWindowParams,
}

impl TypeTextParams {
    /// The window to act on.
    pub fn window_target(&self) -> (r: WindowTarget)
        ensures
            r == self.target.target(),
    {
        self.target.to_target()
    }
}

/// What `get_app_state` takes, but for the additional downscale factor.
#[derive(Debug, Default)]
pub struct GetAppStateParams {
    pub app_name_or_bundle_identifier: Option<String>,
    pub target: ActivateWindowParams,
    /// Maximum raw AT-SPI nodes to inspect before compaction (default 1000, hard max 2000).
    pub max_nodes: Option<usize>,
    /// Maximum AT-SPI traversal depth (default 32, hard max 64).
    pub max_depth: Option<u32>,
    pub include_screenshot: Option<bool>,
    pub max_width: Option<u32>,
    pub max_height: Option<u32>,
    pub max_bytes: Option<usize>,
    pub format: Option<ScreenshotOutputFormat>,
    pub quality: Option<u8>,
    /// Include the full diagnostics report (large). Default false: only the
    /// compact readiness block is returned.
    pub verbose: Option<bool>,
}

impl GetAppStateParams {
    /// The window to act on.
    pub fn window_target(&self) -> (r: WindowTarget)
        ensures
            r == self.target.target(),
    {
        self.target.to_target()
    }
}

/// A rectangle of a capture that a caller asks for.
#[derive(Debug, Clone, Copy, PartialEq, Eq, Structural)]
pub struct ScreenshotRegion {
    pub x: i32,
    pub y: i32,
    pub width: u32,
    pub height: u32,
}

/// What `screenshot` takes, but for the additional downscale factor.
#[derive(Debug, Default)]
pub struct ScreenshotParams {
    pub target: ActivateWindowParams,
    /// Raise the targeted window before capture (default true). Ignored without
    /// a window target.
    pub raise_window: Option<bool>,
    /// Capture the whole desktop even when a window is targeted (default false).
    pub full_screen: Option<bool>,
    /// Crop to this rectangle before any resize, to zoom into small text. In
    /// desktop coordinates, or window-relative with a window target and
    /// `relative: true`.
    pub region: Option<ScreenshotRegion>,
    /// Interpret `region` relative to the targeted window's top-left corner.
    pub relative: Option<bool>,
    pub max_width: Option<u32>,
    pub max_height: Option<u32>,
    pub max_bytes: Option<usize>,
    pub format: Option<ScreenshotOutputFormat>,
    pub quality: Option<u8>,
}

impl ScreenshotParams {
    /// The window to act on, where one is named.
    pub fn window_target(&self) -> (r: Option<WindowTarget>)
        ensures
            match r {
                Some(target) => target == self.target.target() && target.names_window(),
                None => !self.target.target().names_window(),
            },
    {
        self.target.optional_target()
    }
}

/// What `wait_for` takes.
#[derive(Debug, Default)]
pub struct WaitForParams {
    pub app_name_or_bundle_identifier: Option<String>,
    pub target: ActivateWindowParams,
    /// Element predicate: role of the awaited element (substring, case-insensitive).
    pub role: Option<String>,
    /// Element predicate: accessible name (substring, case-insensitive).
    pub name: Option<String>,
    /// Element predicate: text, name, or description content (substring).
    pub text: Option<String>,
    /// Element predicate: AT-SPI states the element must carry.
    pub states: Vec<String>,
    /// Require the matched element to hold keyboard focus.
    pub focused: Option<bool>,
    /// Substring the target window's title must contain (the focused window's
    /// title when no window target is given).
    pub window_title: Option<String>,
    /// A window selector that must hold focus.
    pub focused_window: Option<ActivateWindowParams>,
    /// Give up after this many milliseconds (default 5000, max 60000).
    pub timeout_ms: Option<u64>,
    /// Maximum raw AT-SPI nodes to inspect per poll (default 1000, hard max 2000).
    pub max_nodes: Option<usize>,
    /// Maximum AT-SPI traversal depth per poll (default 32, hard max 64).
    pub max_depth: Option<u32>,
}

impl WaitForParams {
    /// The element selector.
    pub fn selector(&self) -> (r: ElementSelector<'_>)
        ensures
            selects(r, self.role, self.name, self.text, self.states@),
    {
        ElementSelector {
            role: borrowed(&self.role),
            name: borrowed(&self.name),
            text: borrowed(&self.text),
            states: self.states.as_slice(),
        }
    }

    /// The parameters of the reads of the tree that waiting does.
    pub fn app_state_params(&self) -> (r: GetAppStateParams)
        ensures
            r.app_name_or_bundle_identifier == self.app_name_or_bundle_identifier,
            r.target == self.target,
            r.max_nodes is None,
            r.max_depth is None,
            r.include_screenshot is None,
            r.max_width is None,
            r.max_height is None,
            r.max_bytes is None,
            r.format is None,
            r.quality is None,
            r.verbose is None,
    {
        GetAppStateParams {
            app_name_or_bundle_identifier: self.app_name_or_bundle_identifier.clone(),
            target: self.target.clone(),
            max_nodes: None,
            max_depth: None,
            include_screenshot: None,
            max_width: None,
            max_height: None,
            max_bytes: None,
            format: None,
            quality: None,
            verbose: None,
        }
    }

    /// Whether there is anything to wait for.
    pub open spec fn awaits(self) -> bool {
        ||| is_filled(text_of(self.role)) || is_filled(text_of(self.name)) || is_filled(
            text_of(self.text),
        )
        ||| exists|i: int|
            0 <= i < self.states@.len() && !crate::text::is_blank(#[trigger] self.states@[i]@)
        ||| is_filled(text_of(self.window_title))
        ||| self.focused_window is Some
    }
}

/// Whether there is anything to wait for.
pub fn wait_for_has_predicate(params: &WaitForParams) -> (r: bool)
    ensures
        r == params.awaits(),
{
    let selector = params.selector();
    let nothing = selector.is_empty();
    proof {
        assert(nothing == selector.says_nothing());
        if !nothing && !is_filled(text_of(params.role)) && !is_filled(text_of(params.name))
            && !is_filled(text_of(params.text)) {
            let i = choose|i: int|
                0 <= i < selector.states@.len() && !crate::text::is_blank(
                    #[trigger] selector.states@[i]@,
                );
            assert(!crate::text::is_blank(params.states@[i]@));
        }
    }
    !nothing || filled(&params.window_title) || params.focused_window.is_some()
}

/// How long `wait_for` waits unless told otherwise, in milliseconds.
pub const WAIT_FOR_DEFAULT_TIMEOUT_MS: u64 = 5_000;

/// How long `wait_for` waits at most, in milliseconds.
pub const WAIT_FOR_MAX_TIMEOUT_MS: u64 = 60_000;

/// How long `wait_for` waits, in milliseconds.
pub open spec fn timeout_meant(timeout_ms: Option<u64>) -> u64 {
    match timeout_ms {
        None => WAIT_FOR_DEFAULT_TIMEOUT_MS,
        Some(ms) => if ms < WAIT_FOR_MAX_TIMEOUT_MS {
            ms
        } else {
            WAIT_FOR_MAX_TIMEOUT_MS
        },
    }
}

/// How long `wait_for` waits, in milliseconds.
pub fn wait_for_timeout(timeout_ms: Option<u64>) -> (r: u64)
    ensures
        r == timeout_meant(timeout_ms),
        r <= WAIT_FOR_MAX_TIMEOUT_MS,
{
    match timeout_ms {
        None => WAIT_FOR_DEFAULT_TIMEOUT_MS,
        Some(ms) => if ms < WAIT_FOR_MAX_TIMEOUT_MS {
            ms
        } else {
            WAIT_FOR_MAX_TIMEOUT_MS
        },
    }
}

/// A target is made of the very selectors that were passed, each in its own place.
pub proof fn a_target_is_made_of_the_selectors_passed(params: ActivateWindowParams)
    ensures
        params.target().window_id == params.window_id,
        params.target().pid == params.pid,
        params.target().tty == params.tty,
        params.target().terminal_pid == params.terminal_pid,
        params.target().terminal_command == params.terminal_command,
        params.target().terminal_cwd == params.terminal_cwd,
        params.target().app_id == params.app_id,
        params.target().wm_class == params.wm_class,
        params.target().title == params.title,
{
}

/// A selector is made of the very fields that were passed, each in its own place, and of all
/// the states.
pub proof fn a_selector_is_made_of_the_fields_passed(
    selector: ElementSelector<'_>,
    role: Option<String>,
    name: Option<String>,
    text: Option<String>,
    states: Seq<String>,
)
    requires
        selects(selector, role, name, text, states),
    ensures
        selector.role is Some <==> role is Some,
        selector.name is Some <==> name is Some,
        selector.text is Some <==> text is Some,
        role is Some ==> selector.role->0@ == role->0@,
        name is Some ==> selector.name->0@ == name->0@,
        text is Some ==> selector.text->0@ == text->0@,
        selector.states@ == states,
{
}

/// Waiting lasts as long as is asked, but no longer than a minute, and five seconds where
/// nothing is asked.
pub proof fn waiting_lasts_as_long_as_is_asked(ms: u64)
    ensures
        timeout_meant(None) == 5_000,
        ms <= 60_000 ==> timeout_meant(Some(ms)) == ms,
        ms > 60_000 ==> timeout_meant(Some(ms)) == 60_000,
{
}

/// There is something to wait for exactly where an element is described by its role, name,
/// text or a state, a window's title is given, or a window that is to have the focus is.
pub proof fn something_is_awaited_where_something_is_described(params: WaitForParams)
    ensures
        params.focused_window is Some ==> params.awaits(),
        params.window_title is Some && !is_blank(params.window_title->0@) ==> params.awaits(),
        params.role is Some && !is_blank(params.role->0@) ==> params.awaits(),
        params.name is Some && !is_blank(params.name->0@) ==> params.awaits(),
        params.text is Some && !is_blank(params.text->0@) ==> params.awaits(),
        params.states@.len() == 1 && !is_blank(params.states@[0]@) ==> params.awaits(),
        params.role is None && params.name is None && params.text is None && params.states@.len()
            == 0 && params.window_title is None && params.focused_window is None
            ==> !params.awaits(),
{
}

} // verus!
