//! What the machine is found able to do, and what is missing.

use vstd::prelude::*;
use vstd::string::StringExecFns;
use crate::command::{command_detail, detail, CommandOutput};
use crate::environment::{runtime_dir, xdg_runtime_dir};
use crate::input::{joined_path, path_join};
use crate::select::{first_match, first_matching};
use crate::text::{
    blank, borrowed, cat, contains, equal_ignoring_case, includes, is_blank, is_filled, join,
    joined, lower, lowered, occurs_at, same, same_ignoring_case, text_of, texts, texts_push,
};
use crate::windowing::backends::hyprland::{HyprlandRelease, HYPRLAND_BACKEND};
use crate::windowing::registry::BackendProbe;
use crate::windowing::target::WINDOW_PERMISSION_HINT;

verus! {

/// The outcome of one check.
#[derive(Debug, PartialEq, Eq)]
pub struct Check {
    pub ok: bool,
    pub detail: String,
}

impl Clone for Check {
    fn clone(&self) -> (r: Self)
        ensures
            r == *self,
    {
        Check { ok: self.ok, detail: self.detail.clone() }
    }
}

/// Whether a check came to this.
pub open spec fn is_check(check: Check, ok: bool, detail: Seq<char>) -> bool {
    check.ok == ok && check.detail@ == detail
}

impl Check {
    /// A check that passed.
    pub fn ok(detail: &str) -> (r: Self)
        ensures
            is_check(r, true, detail@),
    {
        Check { ok: true, detail: detail.to_owned() }
    }

    /// A check that failed.
    pub fn fail(detail: &str) -> (r: Self)
        ensures
            is_check(r, false, detail@),
    {
        Check { ok: false, detail: detail.to_owned() }
    }
}

/// The desktop as its environment names it.
#[derive(Debug)]
pub struct PlatformReport {
    pub os: String,
    pub arch: String,
    pub desktop_session: Option<String>,
    pub xdg_session_type: Option<String>,
    pub xdg_current_desktop: Option<String>,
    pub wayland_display: Option<String>,
    pub display: Option<String>,
    pub xauthority: Option<String>,
    pub dbus_session_bus_address: Option<String>,
    pub xdg_runtime_dir: Option<String>,
}

/// The portals.
#[derive(Debug)]
pub struct PortalReport {
    pub desktop_portal: Check,
    /// The only portal interface this build uses: screenshots. Input goes
    /// through uinput, not through the `RemoteDesktop` portal, which Hyprland's
    /// portal does not implement.
    pub screenshot: Check,
}

/// The accessibility bus and its switches.
#[derive(Debug)]
pub struct AccessibilityReport {
    pub at_spi_bus: Check,
    pub toolkit_accessibility: Check,
    pub at_spi_enabled: Check,
    pub screen_reader_enabled: Check,
    /// One real connection to the bus. The properties may all read back `true` while this
    /// one fails.
    pub at_spi_connect: Check,
}

/// The window backends.
#[derive(Debug)]
pub struct WindowingReport {
    pub hyprland: Check,
    /// Every backend that was probed, under its name.
    pub backends: Vec<(String, Check)>,
    pub can_list_windows: bool,
    pub can_focus_apps: bool,
    pub can_focus_windows: bool,
    pub note: String,
}

/// The input devices and tools.
#[derive(Debug)]
pub struct InputReport {
    pub ydotool: Check,
    pub ydotoold: Check,
    pub ydotool_socket: Check,
    pub uinput: Check,
    /// Wayland virtual-keyboard backend for layout-safe Unicode literal text.
    pub wtype: Check,
}

/// Whether the machine is ready, and what is missing where it is not.
#[derive(Debug)]
pub struct ReadinessReport {
    pub can_register_mcp_tools: bool,
    pub can_build_accessibility_tree: bool,
    pub can_query_windows: bool,
    pub can_focus_apps: bool,
    pub can_focus_windows: bool,
    pub can_send_development_input: bool,
    pub recommended_next_step: String,
    pub blockers: Vec<String>,
}

/// The backends by layer.
#[derive(Debug)]
pub struct CapabilityMap {
    /// Pointer/keyboard injection backends, best-first.
    pub input: Vec<String>,
    /// Screen capture backends, best-first.
    pub screenshot: Vec<String>,
    /// Window listing/focus backends available.
    pub window_control: Vec<String>,
    /// Accessibility (element-targeted, non-pointer) backends.
    pub accessibility: Vec<String>,
    /// Display/session isolation contexts the host can provide.
    pub isolation: Vec<String>,
    /// The backend the tool will use by default for each selectable layer.
    pub preferred: PreferredBackends,
}

/// The backend that is used by default for each selectable layer.
#[derive(Debug)]
pub struct PreferredBackends {
    pub input: Option<String>,
    pub screenshot: Option<String>,
    pub window_control: Option<String>,
}

/// Everything that was checked, and what follows from it.
#[derive(Debug)]
pub struct DoctorReport {
    pub platform: PlatformReport,
    pub portals: PortalReport,
    pub accessibility: AccessibilityReport,
    pub windowing: WindowingReport,
    pub input: InputReport,
    pub readiness: ReadinessReport,
    /// Which interchangeable backends this environment supports, per layer, plus
    /// the one the tool prefers. Lets an agent (or selector) understand what's
    /// available and choose accordingly instead of assuming one fixed path.
    pub capabilities: CapabilityMap,
}

/// What setting accessibility up came to.
#[derive(Debug)]
pub struct SetupReport {
    pub before: DoctorReport,
    pub accessibility_command: Check,
    pub after: DoctorReport,
    pub changed_accessibility: bool,
    pub requires_target_app_restart: bool,
    pub message: String,
}

/// Whether a check passed with a detail that says so.
pub open spec fn says_true(check: Check) -> bool {
    check.ok && contains(lower(check.detail@), "true"@)
}

fn check_detail_contains_true(check: &Check) -> (r: bool)
    ensures
        r == says_true(*check),
{
    check.ok && includes(&lowered(&check.detail), "true")
}

/// Whether a check is what a connection to the accessibility bus came to: where it failed,
/// the detail is the whole chain of errors, from the first to its last cause.
pub open spec fn tells_connection(check: Check, connection: Result<(), Vec<String>>) -> bool {
    match connection {
        Ok(_) => is_check(check, true, "connected to the accessibility bus"@),
        Err(chain) => is_check(check, false, join(texts(chain@), ": "@)),
    }
}

/// What a connection to the accessibility bus came to.
pub fn at_spi_connect_check(connection: &Result<(), Vec<String>>) -> (r: Check)
    ensures
        tells_connection(r, *connection),
{
    match connection {
        Ok(_) => Check::ok("connected to the accessibility bus"),
        Err(chain) => Check::fail(&joined(chain, ": ")),
    }
}

/// The accessibility bus and its switches, with what a connection to it came to.
pub fn accessibility_report(
    at_spi_bus: Check,
    toolkit_accessibility: Check,
    at_spi_enabled: Check,
    screen_reader_enabled: Check,
    connection: &Result<(), Vec<String>>,
) -> (r: AccessibilityReport)
    ensures
        r.at_spi_bus == at_spi_bus,
        r.toolkit_accessibility == toolkit_accessibility,
        r.at_spi_enabled == at_spi_enabled,
        r.screen_reader_enabled == screen_reader_enabled,
        tells_connection(r.at_spi_connect, *connection),
{
    AccessibilityReport {
        at_spi_bus,
        toolkit_accessibility,
        at_spi_enabled,
        screen_reader_enabled,
        at_spi_connect: at_spi_connect_check(connection),
    }
}

/// A connection that fails is reported as failed, with every error of its chain in the
/// detail, whatever the properties read back.
pub proof fn a_failed_connection_is_told_whole(
    check: Check,
    connection: Result<(), Vec<String>>,
    k: int,
)
    requires
        tells_connection(check, connection),
        connection is Err,
        0 <= k < connection->Err_0@.len(),
    ensures
        !check.ok,
        contains(check.detail@, connection->Err_0@[k]@),
{
    let parts = texts(connection->Err_0@);
    assert(parts[k] == connection->Err_0@[k]@);
    a_joined_part_is_contained(parts, ": "@, k);
}

proof fn a_joined_part_is_contained(parts: Seq<Seq<char>>, sep: Seq<char>, k: int)
    requires
        0 <= k < parts.len(),
    ensures
        contains(join(parts, sep), parts[k]),
    decreases parts.len(),
{
    let whole = join(parts, sep);
    if parts.len() == 1 {
        assert(whole.subrange(0, whole.len() as int) =~= whole);
        assert(occurs_at(whole, parts[k], 0));
    } else {
        let before = join(parts.drop_last(), sep);
        assert(whole == before + sep + parts.last());
        if k == parts.len() - 1 {
            let at = (before.len() + sep.len()) as int;
            assert(whole.subrange(at, at + parts[k].len()) =~= parts[k]);
            assert(occurs_at(whole, parts[k], at));
        } else {
            assert(parts.drop_last()[k] == parts[k]);
            a_joined_part_is_contained(parts.drop_last(), sep, k);
            let at = choose|at: int| occurs_at(before, parts[k], at);
            assert(whole.subrange(at, at + parts[k].len()) =~= before.subrange(
                at,
                at + parts[k].len(),
            ));
            assert(occurs_at(whole, parts[k], at));
        }
    }
}

/// Whether a tree can be read: the bus is reachable, and one of its switches is on.
pub open spec fn tree_can_be_built(accessibility: AccessibilityReport) -> bool {
    accessibility.at_spi_bus.ok && (says_true(accessibility.at_spi_enabled) || says_true(
        accessibility.toolkit_accessibility,
    ))
}

/// Whether a tree can be read.
pub fn can_build_accessibility_tree(accessibility: &AccessibilityReport) -> (r: bool)
    ensures
        r == tree_can_be_built(*accessibility),
{
    accessibility.at_spi_bus.ok && (check_detail_contains_true(&accessibility.at_spi_enabled)
        || check_detail_contains_true(&accessibility.toolkit_accessibility))
}

/// Whether a platform is a Wayland session: its type says so, or, where it has none, there
/// is a Wayland display.
pub open spec fn is_wayland(platform: PlatformReport) -> bool {
    match platform.xdg_session_type {
        Some(value) => same_ignoring_case(value@, "wayland"@),
        None => is_filled(text_of(platform.wayland_display)),
    }
}

/// Whether a platform is a Wayland session.
pub fn platform_is_wayland(platform: &PlatformReport) -> (r: bool)
    ensures
        r == is_wayland(*platform),
{
    match &platform.xdg_session_type {
        Some(value) => equal_ignoring_case(value, "wayland"),
        None => match &platform.wayland_display {
            Some(display) => !blank(display),
            None => false,
        },
    }
}

/// Whether a desktop lets wtype type: it is none of those known not to.
pub open spec fn takes_wtype(desktop: Option<Seq<char>>) -> bool {
    match desktop {
        None => true,
        Some(desktop) => {
            let desktop = lower(desktop);
            !contains(desktop, "gnome"@) && !contains(desktop, "kde"@) && !contains(
                desktop,
                "plasma"@,
            ) && !contains(desktop, "cosmic"@)
        },
    }
}

/// Whether a desktop lets wtype type.
pub fn wtype_compatible_wayland_desktop(desktop: Option<&str>) -> (r: bool)
    ensures
        r == takes_wtype(crate::elements::str_of(desktop)),
{
    match desktop {
        None => true,
        Some(desktop) => {
            let desktop = lowered(desktop);
            !includes(&desktop, "gnome") && !includes(&desktop, "kde") && !includes(
                &desktop,
                "plasma",
            ) && !includes(&desktop, "cosmic")
        },
    }
}

/// Whether literal text can go through wtype.
pub open spec fn wtype_serves(platform: PlatformReport, input: InputReport, force_ydotool: bool) -> bool {
    is_wayland(platform) && takes_wtype(text_of(platform.xdg_current_desktop)) && input.wtype.ok
        && !force_ydotool
}

/// Whether input can go through ydotool.
pub open spec fn ydotool_serves(input: InputReport) -> bool {
    input.ydotool.ok && input.ydotool_socket.ok
}

fn wtype_is_usable(platform: &PlatformReport, input: &InputReport, force_ydotool: bool) -> (r: bool)
    ensures
        r == wtype_serves(*platform, *input, force_ydotool),
{
    platform_is_wayland(platform) && wtype_compatible_wayland_desktop(
        borrowed(&platform.xdg_current_desktop),
    ) && input.wtype.ok && !force_ydotool
}

/// Whether keys can be sent.
pub fn can_send_development_input(
    platform: &PlatformReport,
    input: &InputReport,
    force_ydotool: bool,
) -> (r: bool)
    ensures
        r == (wtype_serves(*platform, *input, force_ydotool) || ydotool_serves(*input)),
{
    wtype_is_usable(platform, input, force_ydotool) || (input.ydotool.ok
        && input.ydotool_socket.ok)
}

/// The input backends, best-first.
pub open spec fn input_backends(
    platform: PlatformReport,
    input: InputReport,
    force_ydotool: bool,
) -> Seq<Seq<char>> {
    (if input.uinput.ok {
        seq!["abs_pointer"@]
    } else {
        seq![]
    }) + (if wtype_serves(platform, input, force_ydotool) {
        seq!["wtype"@]
    } else {
        seq![]
    }) + (if ydotool_serves(input) {
        seq!["ydotool"@]
    } else {
        seq![]
    })
}

/// A backend alone, where it is there.
pub open spec fn lone(there: bool, name: Seq<char>) -> Seq<Seq<char>> {
    if there {
        seq![name]
    } else {
        seq![]
    }
}

/// The first of a list.
pub open spec fn first_of(list: Seq<Seq<char>>) -> Option<Seq<char>> {
    if list.len() > 0 {
        Some(list[0])
    } else {
        None
    }
}

fn list_of_one(there: bool, name: &str) -> (r: Vec<String>)
    ensures
        texts(r@) == lone(there, name@),
{
    let mut list: Vec<String> = Vec::new();
    if there {
        list.push(name.to_owned());
    }
    assert(texts(list@) =~= lone(there, name@));
    list
}

fn first_of_list(list: &[String]) -> (r: Option<String>)
    ensures
        text_of(r) == first_of(texts(list@)),
{
    if list.len() > 0 {
        Some(list[0].clone())
    } else {
        None
    }
}

/// Derive the per-layer backend capability map from the individual checks. Lists
/// are ordered best-first and mirror the order the tool actually tries them.
pub fn capability_map(
    platform: &PlatformReport,
    portals: &PortalReport,
    accessibility: &AccessibilityReport,
    windowing: &WindowingReport,
    input: &InputReport,
    force_ydotool: bool,
) -> (r: CapabilityMap)
    ensures
        texts(r.input@) == input_backends(*platform, *input, force_ydotool),
        texts(r.screenshot@) == lone(portals.screenshot.ok, "portal"@),
        texts(r.window_control@) == lone(windowing.hyprland.ok, HYPRLAND_BACKEND@),
        texts(r.accessibility@) == lone(tree_can_be_built(*accessibility), "at_spi"@),
        texts(r.isolation@) == seq!["shared"@],
        text_of(r.preferred.input) == first_of(texts(r.input@)),
        text_of(r.preferred.screenshot) == first_of(texts(r.screenshot@)),
        text_of(r.preferred.window_control) == first_of(texts(r.window_control@)),
{
    let mut input_list: Vec<String> = Vec::new();
    if input.uinput.ok {
        input_list.push("abs_pointer".to_owned());
    }
    if wtype_is_usable(platform, input, force_ydotool) {
        input_list.push("wtype".to_owned());
    }
    if input.ydotool.ok && input.ydotool_socket.ok {
        input_list.push("ydotool".to_owned());
    }
    assert(texts(input_list@) =~= input_backends(*platform, *input, force_ydotool));
    let screenshot = list_of_one(portals.screenshot.ok, "portal");
    let window_control = list_of_one(windowing.hyprland.ok, HYPRLAND_BACKEND);
    let accessibility_list = list_of_one(can_build_accessibility_tree(accessibility), "at_spi");
    let isolation = list_of_one(true, "shared");
    let preferred = PreferredBackends {
        input: first_of_list(&input_list),
        screenshot: first_of_list(&screenshot),
        window_control: first_of_list(&window_control),
    };
    CapabilityMap {
        input: input_list,
        screenshot,
        window_control,
        accessibility: accessibility_list,
        isolation,
        preferred,
    }
}

/// What is said where no tree can be read.
pub const NO_TREE: &'static str =
    "AT-SPI accessibility is disabled; enable org.a11y.Status IsEnabled or org.gnome.desktop.interface toolkit-accessibility for tree extraction.";

/// What is said where no windows can be listed.
pub const NO_WINDOWS: &'static str =
    "Window introspection is unavailable; targeted window focus and verification will be disabled.";

/// What is said where no window can be focused.
pub const NO_EXACT_FOCUS: &'static str =
    "Exact window activation is unavailable; app-level focus may work, but window_id/title/terminal-targeted input cannot be verified.";

/// What is said where no keys can be sent.
pub const NO_KEYBOARD: &'static str =
    "Development keyboard input is unavailable; install wtype, or start ydotoold with a socket this user can connect to. Read/write /dev/uinput alone provides only absolute pointer input.";

/// What to do where no tree can be read.
pub const ENABLE_TREE: &'static str =
    "Run setup_accessibility to enable AT-SPI accessibility before element-aware actions.";

/// What to do where no window can be focused.
pub const ENABLE_EXACT_FOCUS: &'static str =
    "Enable an exact-focus window backend before using window_id, title, or terminal-targeted input.";

/// What to do where no keys can be sent.
pub const ENABLE_KEYBOARD: &'static str =
    "Enable a keyboard-capable input backend: install wtype, or start ydotoold with a socket accessible to this desktop user.";

/// What is said where nothing is missing.
pub const READY: &'static str =
    "Computer Use is ready: AT-SPI tree support, window targeting, and a uinput input backend are available.";

/// What is missing, in words.
pub open spec fn blockers_for(tree: bool, windows: bool, focus: bool, keyboard: bool) -> Seq<Seq<char>> {
    lone(!tree, NO_TREE@) + lone(!windows, NO_WINDOWS@) + lone(windows && !focus, NO_EXACT_FOCUS@)
        + lone(!keyboard, NO_KEYBOARD@)
}

/// What to do next.
pub open spec fn next_step(tree: bool, windows: bool, focus: bool, keyboard: bool) -> Seq<char> {
    if !tree {
        ENABLE_TREE@
    } else if !windows {
        WINDOW_PERMISSION_HINT@
    } else if !focus {
        ENABLE_EXACT_FOCUS@
    } else if !keyboard {
        ENABLE_KEYBOARD@
    } else {
        READY@
    }
}

/// Whether a report says how ready a machine is.
pub open spec fn tells_readiness(
    report: ReadinessReport,
    platform: PlatformReport,
    accessibility: AccessibilityReport,
    windowing: WindowingReport,
    input: InputReport,
    force_ydotool: bool,
) -> bool {
    &&& report.can_register_mcp_tools
    &&& report.can_build_accessibility_tree == tree_can_be_built(accessibility)
    &&& report.can_query_windows == windowing.can_list_windows
    &&& report.can_focus_apps == windowing.can_focus_apps
    &&& report.can_focus_windows == windowing.can_focus_windows
    &&& report.can_send_development_input == (wtype_serves(platform, input, force_ydotool)
        || ydotool_serves(input))
    &&& report.recommended_next_step@ == next_step(
        report.can_build_accessibility_tree,
        report.can_query_windows,
        report.can_focus_windows,
        report.can_send_development_input,
    )
    &&& texts(report.blockers@) == blockers_for(
        report.can_build_accessibility_tree,
        report.can_query_windows,
        report.can_focus_windows,
        report.can_send_development_input,
    )
}

/// How ready a machine is.
pub fn readiness_report(
    platform: &PlatformReport,
    accessibility: &AccessibilityReport,
    windowing: &WindowingReport,
    input: &InputReport,
    force_ydotool: bool,
) -> (r: ReadinessReport)
    ensures
        tells_readiness(r, *platform, *accessibility, *windowing, *input, force_ydotool),
{
    let mut blockers: Vec<String> = Vec::new();
    let tree = can_build_accessibility_tree(accessibility);
    let windows = windowing.can_list_windows;
    let focus = windowing.can_focus_windows;
    let keyboard = can_send_development_input(platform, input, force_ydotool);
    if !tree {
        blockers.push(NO_TREE.to_owned());
    }
    if !windows {
        blockers.push(NO_WINDOWS.to_owned());
    }
    if windows && !focus {
        blockers.push(NO_EXACT_FOCUS.to_owned());
    }
    if !keyboard {
        blockers.push(NO_KEYBOARD.to_owned());
    }
    assert(texts(blockers@) =~= blockers_for(tree, windows, focus, keyboard));
    let recommended_next_step = if !tree {
        ENABLE_TREE.to_owned()
    } else if !windows {
        WINDOW_PERMISSION_HINT.to_owned()
    } else if !focus {
        ENABLE_EXACT_FOCUS.to_owned()
    } else if !keyboard {
        ENABLE_KEYBOARD.to_owned()
    } else {
        READY.to_owned()
    };
    ReadinessReport {
        can_register_mcp_tools: true,
        can_build_accessibility_tree: tree,
        can_query_windows: windows,
        can_focus_apps: windowing.can_focus_apps,
        can_focus_windows: focus,
        can_send_development_input: keyboard,
        recommended_next_step,
        blockers,
    }
}

/// No blockers means ready: the list is empty exactly where a tree can be read, windows can
/// be listed and focused, and keys can be sent, and then the next step says so.
pub proof fn no_blockers_means_ready(
    report: ReadinessReport,
    platform: PlatformReport,
    accessibility: AccessibilityReport,
    windowing: WindowingReport,
    input: InputReport,
    force_ydotool: bool,
)
    requires
        tells_readiness(report, platform, accessibility, windowing, input, force_ydotool),
    ensures
        report.blockers@.len() == 0 <==> (report.can_build_accessibility_tree
            && report.can_query_windows && report.can_focus_windows
            && report.can_send_development_input),
        report.blockers@.len() == 0 ==> report.recommended_next_step@ == READY@,
{
    assert(texts(report.blockers@).len() == report.blockers@.len());
}

/// Keys can be sent exactly where a backend that sends them is among those that input goes
/// through: the absolute pointer alone does not count.
pub proof fn keys_need_a_keyboard_backend(
    platform: PlatformReport,
    input: InputReport,
    force_ydotool: bool,
)
    ensures
        (wtype_serves(platform, input, force_ydotool) || ydotool_serves(input)) <==> (
        input_backends(platform, input, force_ydotool).contains("wtype"@) || input_backends(
            platform,
            input,
            force_ydotool,
        ).contains("ydotool"@)),
{
    reveal_strlit("abs_pointer");
    reveal_strlit("wtype");
    reveal_strlit("ydotool");
    let list = input_backends(platform, input, force_ydotool);
    let before: int = if input.uinput.ok {
        1
    } else {
        0
    };
    assert("abs_pointer"@.len() != "wtype"@.len());
    assert("abs_pointer"@.len() != "ydotool"@.len());
    if wtype_serves(platform, input, force_ydotool) {
        assert(list[before] == "wtype"@);
    }
    if ydotool_serves(input) {
        assert(list[list.len() - 1] == "ydotool"@);
    }
}

/// Whether a check came to what a backend's probe did.
pub open spec fn checks_probe(check: Check, probe: BackendProbe) -> bool {
    is_check(check, probe.ok, probe.detail@)
}

/// What a backend's probe comes to as a check.
pub fn check_from_backend_probe(probe: &BackendProbe) -> (r: Check)
    ensures
        checks_probe(r, *probe),
{
    Check { ok: probe.ok, detail: probe.detail.clone() }
}

/// The predicate of being Hyprland's probe.
pub open spec fn probes_hyprland() -> spec_fn(BackendProbe) -> bool {
    |probe: BackendProbe| probe.id@ == HYPRLAND_BACKEND@
}

/// What is said where windows can be listed.
pub const WINDOWS_AVAILABLE: &'static str =
    "A Hyprland window backend is available for list_windows, focused_window, and targeted input verification.";

/// What is said of the Hyprland that runs: its release, and whether that is too old to be
/// driven.
pub open spec fn release_words(release: HyprlandRelease) -> Seq<char> {
    if release.is_recent() {
        "Hyprland "@ + release.printed@ + " is running."@
    } else {
        "Hyprland "@ + release.printed@
            + " is running, and it is too old: every window action is dispatched in the Lua form, which 0.55 introduced."@
    }
}

/// What is said of the Hyprland that runs.
pub fn release_note(release: &HyprlandRelease) -> (r: String)
    ensures
        r@ == release_words(*release),
{
    let mut note = cat("Hyprland ", &release.printed);
    if release.drives_lua_dispatchers() {
        note.append(" is running.");
    } else {
        note.append(
            " is running, and it is too old: every window action is dispatched in the Lua form, which 0.55 introduced.",
        );
    }
    note
}

/// What is said of the window backends, and of the Hyprland that runs where its release
/// could be read.
pub open spec fn windowing_words(can_list_windows: bool, release: Option<HyprlandRelease>) -> Seq<
    char,
> {
    let opening = if can_list_windows {
        WINDOWS_AVAILABLE@
    } else {
        WINDOW_PERMISSION_HINT@
    };
    match release {
        Some(release) => opening + " "@ + release_words(release),
        None => opening,
    }
}

/// What the window backends were found able to do: what any of them can, can be done.
/// `release` is the Hyprland that runs, where its release could be read.
pub fn windowing_report(probes: &[BackendProbe], release: Option<&HyprlandRelease>) -> (r:
    WindowingReport)
    ensures
        match first_match(probes@, probes_hyprland()) {
            Some(k) => checks_probe(r.hyprland, probes@[k]),
            None => is_check(r.hyprland, false, "backend probe did not run"@),
        },
        r.backends@.len() == probes@.len(),
        forall|i: int|
            0 <= i < probes@.len() ==> (#[trigger] r.backends@[i]).0@ == probes@[i].id@
                && checks_probe(r.backends@[i].1, probes@[i]),
        r.can_list_windows == (exists|i: int|
            0 <= i < probes@.len() && (#[trigger] probes@[i]).can_list_windows),
        r.can_focus_apps == (exists|i: int|
            0 <= i < probes@.len() && (#[trigger] probes@[i]).can_focus_apps),
        r.can_focus_windows == (exists|i: int|
            0 <= i < probes@.len() && (#[trigger] probes@[i]).can_focus_windows),
        r.note@ == windowing_words(r.can_list_windows, crate::cache::deref(release)),
{
    let is_hyprland = |probe: &BackendProbe| -> (b: bool)
        ensures
            b == probes_hyprland()(*probe),
        { same(probe.id, HYPRLAND_BACKEND) };
    let hyprland = match first_matching(probes, is_hyprland, Ghost(probes_hyprland())) {
        Some(k) => check_from_backend_probe(&probes[k]),
        None => Check::fail("backend probe did not run"),
    };
    let mut backends: Vec<(String, Check)> = Vec::new();
    let mut can_list_windows = false;
    let mut can_focus_apps = false;
    let mut can_focus_windows = false;
    for i in 0..probes.len()
        invariant
            backends@.len() == i,
            forall|k: int|
                0 <= k < i ==> (#[trigger] backends@[k]).0@ == probes@[k].id@ && checks_probe(
                    backends@[k].1,
                    probes@[k],
                ),
            can_list_windows == (exists|k: int|
                0 <= k < i && (#[trigger] probes@[k]).can_list_windows),
            can_focus_apps == (exists|k: int| 0 <= k < i && (#[trigger] probes@[k]).can_focus_apps),
            can_focus_windows == (exists|k: int|
                0 <= k < i && (#[trigger] probes@[k]).can_focus_windows),
    {
        let ghost probe = probes@[i as int];
        backends.push((probes[i].id.to_owned(), check_from_backend_probe(&probes[i])));
        can_list_windows = can_list_windows || probes[i].can_list_windows;
        can_focus_apps = can_focus_apps || probes[i].can_focus_apps;
        can_focus_windows = can_focus_windows || probes[i].can_focus_windows;
        assert(probe == probes@[i as int]);
    }
    let mut note = if can_list_windows {
        WINDOWS_AVAILABLE.to_owned()
    } else {
        WINDOW_PERMISSION_HINT.to_owned()
    };
    if let Some(release) = release {
        note.append(" ");
        note.append(&release_note(release));
    }
    WindowingReport {
        hyprland,
        backends,
        can_list_windows,
        can_focus_apps,
        can_focus_windows,
        note,
    }
}

/// Everything that was checked, and what follows from it.
pub fn doctor_report(
    platform: PlatformReport,
    portals: PortalReport,
    accessibility: AccessibilityReport,
    windowing: WindowingReport,
    input: InputReport,
    force_ydotool: bool,
) -> (r: DoctorReport)
    ensures
        r.platform == platform,
        r.portals == portals,
        r.accessibility == accessibility,
        r.windowing == windowing,
        r.input == input,
        tells_readiness(r.readiness, platform, accessibility, windowing, input, force_ydotool),
        texts(r.capabilities.input@) == input_backends(platform, input, force_ydotool),
        texts(r.capabilities.screenshot@) == lone(portals.screenshot.ok, "portal"@),
        texts(r.capabilities.window_control@) == lone(windowing.hyprland.ok, HYPRLAND_BACKEND@),
        texts(r.capabilities.accessibility@) == lone(tree_can_be_built(accessibility), "at_spi"@),
        texts(r.capabilities.isolation@) == seq!["shared"@],
        text_of(r.capabilities.preferred.input) == first_of(texts(r.capabilities.input@)),
        text_of(r.capabilities.preferred.screenshot) == first_of(texts(r.capabilities.screenshot@)),
        text_of(r.capabilities.preferred.window_control) == first_of(
            texts(r.capabilities.window_control@),
        ),
{
    let readiness = readiness_report(&platform, &accessibility, &windowing, &input, force_ydotool);
    let capabilities = capability_map(
        &platform,
        &portals,
        &accessibility,
        &windowing,
        &input,
        force_ydotool,
    );
    DoctorReport { platform, portals, accessibility, windowing, input, readiness, capabilities }
}

/// What enables accessibility next.
#[derive(Debug)]
pub enum SetupStep {
    /// Nothing is run: this is the check.
    Settled(Check),
    /// The bus's own switch is set.
    SetStatus,
    /// The desktop's setting is set.
    SetToolkit,
}

/// What enables accessibility first: nothing where it is enabled already.
pub fn setup_step(before: &AccessibilityReport) -> (r: SetupStep)
    ensures
        if tree_can_be_built(*before) {
            r is Settled && is_check(
                r->Settled_0,
                true,
                "AT-SPI accessibility is already enabled"@,
            )
        } else {
            r is SetStatus
        },
{
    if can_build_accessibility_tree(before) {
        SetupStep::Settled(Check::ok("AT-SPI accessibility is already enabled"))
    } else {
        SetupStep::SetStatus
    }
}

/// What enables accessibility after the bus's own switch was tried: the desktop's setting,
/// where that failed.
pub fn after_set_status(status: Check) -> (r: SetupStep)
    ensures
        r == if status.ok {
            SetupStep::Settled(status)
        } else {
            SetupStep::SetToolkit
        },
{
    if status.ok {
        SetupStep::Settled(status)
    } else {
        SetupStep::SetToolkit
    }
}

/// What is said of accessibility once it was set up.
pub open spec fn setup_words(before_ready: bool, after_ready: bool) -> Seq<char> {
    if !after_ready {
        "Could not enable AT-SPI accessibility automatically. Check the accessibility_command detail and enable org.a11y.Status IsEnabled or org.gnome.desktop.interface toolkit-accessibility manually."@
    } else if !before_ready {
        "AT-SPI accessibility is enabled. Restart already-running target apps if their AT-SPI tree is still empty."@
    } else {
        "AT-SPI accessibility is ready."@
    }
}

/// What setting accessibility up came to: whether it is ready now and was not before.
pub fn setup_accessibility_report(
    before: DoctorReport,
    accessibility_command: Check,
    after: DoctorReport,
) -> (r: SetupReport)
    ensures
        r.before == before,
        r.accessibility_command == accessibility_command,
        r.after == after,
        r.changed_accessibility == (!before.readiness.can_build_accessibility_tree
            && after.readiness.can_build_accessibility_tree),
        r.requires_target_app_restart == r.changed_accessibility,
        r.message@ == setup_words(
            before.readiness.can_build_accessibility_tree,
            after.readiness.can_build_accessibility_tree,
        ),
{
    let before_ready = before.readiness.can_build_accessibility_tree;
    let after_ready = after.readiness.can_build_accessibility_tree;
    let changed_accessibility = !before_ready && after_ready;
    let message = if after_ready {
        if changed_accessibility {
            "AT-SPI accessibility is enabled. Restart already-running target apps if their AT-SPI tree is still empty."
        } else {
            "AT-SPI accessibility is ready."
        }
    } else {
        "Could not enable AT-SPI accessibility automatically. Check the accessibility_command detail and enable org.a11y.Status IsEnabled or org.gnome.desktop.interface toolkit-accessibility manually."
    };
    SetupReport {
        before,
        accessibility_command,
        after,
        changed_accessibility,
        requires_target_app_restart: changed_accessibility,
        message: message.to_owned(),
    }
}

/// What a command that was run comes to as a check: what it printed, or why it failed.
pub fn command_check(outcome: &Result<CommandOutput, String>) -> (r: Check)
    ensures
        match *outcome {
            Err(error) => is_check(r, false, error@),
            Ok(output) => if output.success {
                is_check(
                    r,
                    true,
                    if output.out().len() == 0 {
                        "ok"@
                    } else {
                        output.out()
                    },
                )
            } else {
                is_check(r, false, detail(output))
            },
        },
{
    match outcome {
        Err(error) => Check::fail(error),
        Ok(output) => if output.success {
            let printed = output.stdout_text();
            if printed.as_str().is_empty() {
                Check::ok("ok")
            } else {
                Check::ok(&printed)
            }
        } else {
            Check::fail(&command_detail(output))
        },
    }
}

/// The user's number, as a command printed it.
pub fn user_id(outcome: &Result<CommandOutput, String>) -> (r: Option<String>)
    ensures
        text_of(r) == match *outcome {
            Ok(output) => if output.success && output.out().len() > 0 {
                Some(output.out())
            } else {
                None
            },
            Err(_) => None,
        },
{
    match outcome {
        Ok(output) => if output.success {
            let printed = output.stdout_text();
            if printed.as_str().is_empty() {
                None
            } else {
                Some(printed)
            }
        } else {
            None
        },
        Err(_) => None,
    }
}

/// Where ydotool's socket may be: where the environment says, under the runtime directory,
/// and in `/tmp`.
pub open spec fn socket_places(
    named: Option<Seq<char>>,
    runtime_named: Option<Seq<char>>,
    uid: Option<Seq<char>>,
) -> Seq<Seq<char>> {
    (if is_filled(named) {
        seq![named->0]
    } else {
        seq![]
    }) + (match runtime_dir(runtime_named, uid) {
        Some(dir) => seq![path_join(dir, ".ydotool_socket"@)],
        None => seq![],
    }) + seq!["/tmp/.ydotool_socket"@]
}

/// Where ydotool's socket may be.
pub fn ydotool_socket_candidates(
    named: Option<&str>,
    runtime_named: Option<&str>,
    uid: Option<&str>,
) -> (r: Vec<String>)
    ensures
        texts(r@) == socket_places(
            crate::elements::str_of(named),
            crate::elements::str_of(runtime_named),
            crate::elements::str_of(uid),
        ),
{
    let mut candidates: Vec<String> = Vec::new();
    if let Some(socket) = named {
        if !blank(socket) {
            candidates.push(socket.to_owned());
        }
    }
    if let Some(dir) = xdg_runtime_dir(runtime_named, uid) {
        candidates.push(joined_path(&dir, ".ydotool_socket"));
    }
    candidates.push("/tmp/.ydotool_socket".to_owned());
    assert(texts(candidates@) =~= socket_places(
        crate::elements::str_of(named),
        crate::elements::str_of(runtime_named),
        crate::elements::str_of(uid),
    ));
    candidates
}

/// What came of connecting to a socket.
#[derive(Debug)]
pub enum SocketOutcome {
    Connected,
    Missing,
    Failed(String),
}

/// What is said of a socket that did not take a connection.
pub open spec fn socket_complaint(path: Seq<char>, outcome: SocketOutcome) -> Seq<char> {
    match outcome {
        SocketOutcome::Failed(error) => path + ": datagram: "@ + error@,
        _ => "missing: "@ + path,
    }
}

/// What connecting to a socket comes to.
pub fn socket_connect_result(path: &str, outcome: &SocketOutcome) -> (r: Result<(), String>)
    ensures
        if *outcome is Connected {
            r is Ok
        } else {
            r is Err && r->Err_0@ == socket_complaint(path@, *outcome)
        },
{
    match outcome {
        SocketOutcome::Connected => Ok(()),
        SocketOutcome::Missing => Err(cat("missing: ", path)),
        SocketOutcome::Failed(error) => {
            let mut complaint = cat(path, ": datagram: ");
            complaint.append(error);
            Err(complaint)
        },
    }
}

/// What connecting to a socket comes to as a check.
pub fn socket_connect_check(path: &str, outcome: &SocketOutcome) -> (r: Check)
    ensures
        if *outcome is Connected {
            is_check(r, true, "connectable: "@ + path@)
        } else {
            is_check(r, false, socket_complaint(path@, *outcome))
        },
{
    match socket_connect_result(path, outcome) {
        Ok(_) => Check::ok(&cat("connectable: ", path)),
        Err(complaint) => Check::fail(&complaint),
    }
}

/// The predicate of having taken a connection.
pub open spec fn connected() -> spec_fn((String, SocketOutcome)) -> bool {
    |tried: (String, SocketOutcome)| tried.1 is Connected
}

/// What is said of sockets none of which took a connection.
pub open spec fn complaints(tried: Seq<(String, SocketOutcome)>) -> Seq<Seq<char>> {
    tried.map_values(|t: (String, SocketOutcome)| socket_complaint(t.0@, t.1))
}

/// What the sockets that were tried come to as a check: the first that took a connection,
/// or why none did.
pub fn ydotool_socket_check(tried: &[(String, SocketOutcome)]) -> (r: Check)
    ensures
        match first_match(tried@, connected()) {
            Some(k) => is_check(r, true, "connectable: "@ + tried@[k].0@),
            None => is_check(
                r,
                false,
                "no connectable ydotool socket ("@ + join(complaints(tried@), "; "@) + ")"@,
            ),
        },
{
    broadcast use texts_push;

    let is_connected = |t: &(String, SocketOutcome)| -> (b: bool)
        ensures
            b == connected()(*t),
        {
            match &t.1 {
                SocketOutcome::Connected => true,
                _ => false,
            }
        };
    match first_matching(tried, is_connected, Ghost(connected())) {
        Some(k) => Check::ok(&cat("connectable: ", &tried[k].0)),
        None => {
            proof {
                crate::select::matching_is_exact(tried@, connected());
            }
            let ghost all = complaints(tried@);
            let mut checked: Vec<String> = Vec::new();
            assert(texts(checked@) =~= all.take(0));
            for i in 0..tried.len()
                invariant
                    all == complaints(tried@),
                    crate::select::matching(tried@, connected()).len() == 0,
                    forall|k: int| #[trigger]
                        crate::select::matching(tried@, connected()).contains(k) <==> 0 <= k
                            < tried@.len() && connected()(tried@[k]),
                    texts(checked@) == all.take(i as int),
            {
                broadcast use texts_push;

                assert(!crate::select::matching(tried@, connected()).contains(i as int));
                assert(all.take(i + 1) =~= all.take(i as int).push(all[i as int]));
                match socket_connect_result(&tried[i].0, &tried[i].1) {
                    Ok(_) => {},
                    Err(complaint) => checked.push(complaint),
                }
            }
            assert(all.take(tried@.len() as int) =~= all);
            let mut message = cat("no connectable ydotool socket (", &joined(&checked, "; "));
            message.append(")");
            Check::fail(&message)
        },
    }
}

/// What opening a path for reading and writing comes to as a check.
pub fn read_write_path_check(path: &str, is_there: bool, error: Option<&str>) -> (r: Check)
    ensures
        if !is_there {
            is_check(r, false, "missing: "@ + path@)
        } else {
            match error {
                None => is_check(r, true, "read/write: "@ + path@),
                Some(error) => is_check(r, false, path@ + ": "@ + error@),
            }
        },
{
    if !is_there {
        return Check::fail(&cat("missing: ", path));
    }
    match error {
        None => Check::ok(&cat("read/write: ", path)),
        Some(error) => {
            let mut complaint = cat(path, ": ");
            complaint.append(error);
            Check::fail(&complaint)
        },
    }
}

/// A tree can be read exactly where the bus is reachable and one of the two switches says
/// true.
pub proof fn a_tree_needs_the_bus_and_a_switch(accessibility: AccessibilityReport)
    ensures
        tree_can_be_built(accessibility) <==> accessibility.at_spi_bus.ok && ((
        accessibility.at_spi_enabled.ok && contains(
            lower(accessibility.at_spi_enabled.detail@),
            "true"@,
        )) || (accessibility.toolkit_accessibility.ok && contains(
            lower(accessibility.toolkit_accessibility.detail@),
            "true"@,
        ))),
{
}

/// Text goes through wtype only in a Wayland session, on a desktop that is none of GNOME, KDE,
/// Plasma and COSMIC, where wtype is there and ydotool is not asked for; and keys go through
/// ydotool only where it and its socket are there.
pub proof fn wtype_serves_where_the_desktop_takes_it(
    platform: PlatformReport,
    input: InputReport,
    force_ydotool: bool,
)
    ensures
        wtype_serves(platform, input, force_ydotool) ==> input.wtype.ok && !force_ydotool,
        wtype_serves(platform, input, force_ydotool) && platform.xdg_session_type is Some
            ==> lower(platform.xdg_session_type->0@) == lower("wayland"@),
        wtype_serves(platform, input, force_ydotool) && platform.xdg_session_type is None
            ==> platform.wayland_display is Some && !is_blank(platform.wayland_display->0@),
        wtype_serves(platform, input, force_ydotool) && platform.xdg_current_desktop is Some ==> {
            let desktop = lower(platform.xdg_current_desktop->0@);
            !contains(desktop, "gnome"@) && !contains(desktop, "kde"@) && !contains(
                desktop,
                "plasma"@,
            ) && !contains(desktop, "cosmic"@)
        },
        input.wtype.ok && !force_ydotool && platform.xdg_current_desktop is None
            && platform.xdg_session_type is Some && lower(platform.xdg_session_type->0@) == lower(
            "wayland"@,
        ) ==> wtype_serves(platform, input, force_ydotool),
        ydotool_serves(input) <==> input.ydotool.ok && input.ydotool_socket.ok,
{
}

/// The input backends are listed best first: the absolute pointer, then wtype, then ydotool,
/// each exactly where it serves.
pub proof fn input_backends_are_listed_best_first(
    platform: PlatformReport,
    input: InputReport,
    force_ydotool: bool,
)
    ensures
        ({
            let list = input_backends(platform, input, force_ydotool);
            let wtype = wtype_serves(platform, input, force_ydotool);
            let ydotool = ydotool_serves(input);
            &&& input.uinput.ok ==> list.len() > 0 && list[0] == "abs_pointer"@
            &&& !input.uinput.ok && wtype ==> list.len() > 0 && list[0] == "wtype"@
            &&& !input.uinput.ok && !wtype && ydotool ==> list == seq!["ydotool"@]
            &&& !input.uinput.ok && !wtype && !ydotool ==> list.len() == 0
            &&& ydotool ==> list.last() == "ydotool"@
            &&& list.len() == (if input.uinput.ok {
                1int
            } else {
                0
            }) + (if wtype {
                1int
            } else {
                0
            }) + (if ydotool {
                1int
            } else {
                0
            })
        }),
{
}

/// Each thing that is missing is said to be, and nothing else; and the next step is for the
/// first that is missing.
pub proof fn what_is_missing_is_said(tree: bool, windows: bool, focus: bool, keyboard: bool)
    ensures
        !tree ==> blockers_for(tree, windows, focus, keyboard).len() > 0 && blockers_for(
            tree,
            windows,
            focus,
            keyboard,
        )[0] == NO_TREE@ && next_step(tree, windows, focus, keyboard) == ENABLE_TREE@,
        tree && !windows ==> blockers_for(tree, windows, focus, keyboard).len() > 0
            && blockers_for(tree, windows, focus, keyboard)[0] == NO_WINDOWS@ && next_step(
            tree,
            windows,
            focus,
            keyboard,
        ) == WINDOW_PERMISSION_HINT@,
        tree && windows && !focus ==> blockers_for(tree, windows, focus, keyboard).len() > 0
            && blockers_for(tree, windows, focus, keyboard)[0] == NO_EXACT_FOCUS@ && next_step(
            tree,
            windows,
            focus,
            keyboard,
        ) == ENABLE_EXACT_FOCUS@,
        !keyboard ==> blockers_for(tree, windows, focus, keyboard).len() > 0 && blockers_for(
            tree,
            windows,
            focus,
            keyboard,
        ).last() == NO_KEYBOARD@,
        tree && windows && focus && !keyboard ==> next_step(tree, windows, focus, keyboard)
            == ENABLE_KEYBOARD@,
        tree && windows && focus && keyboard ==> blockers_for(
            tree,
            windows,
            focus,
            keyboard,
        ).len() == 0 && next_step(tree, windows, focus, keyboard) == READY@,
{
}

/// ydotool's socket is looked for first where the environment says, and in the shared
/// directory last.
pub proof fn the_socket_named_is_looked_for_first(
    named: Option<Seq<char>>,
    runtime_named: Option<Seq<char>>,
    uid: Option<Seq<char>>,
)
    ensures
        named is Some && !is_blank(named->0) ==> socket_places(named, runtime_named, uid)[0]
            == named->0,
        socket_places(named, runtime_named, uid).last() == "/tmp/.ydotool_socket"@,
        named is None && runtime_named is Some && !is_blank(runtime_named->0) ==> socket_places(
            named,
            runtime_named,
            uid,
        )[0] == path_join(runtime_named->0, ".ydotool_socket"@),
{
}

} // verus!
