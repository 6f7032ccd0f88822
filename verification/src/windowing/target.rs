//! Finding the one window a caller's selectors name.

use vstd::prelude::*;
use vstd::string::StringExecFns;
use crate::numerals::{decimal, decimal_of};
use crate::select::{matching, matching_is_exact, matching_items, positions};
use crate::terminal::{TerminalProcess, TerminalWindowContext};
use crate::text::{
    begins_with, blank, blank_is_all_white, cat, chars_of, containing_is_standing_between, contains,
    debug_of, debug_text, ends_with, equal_ignoring_case, finishes_with, includes, is_blank,
    is_filled, is_white, join, joined, lower, lowered, same, same_ignoring_case, starts_with,
    string_of, text_of, texts, texts_push, trim, trimmed,
};
use crate::windowing::types::{WindowFocusResult, WindowInfo, WindowTarget};

verus! {

/// How long a requested focus may take to show, in milliseconds.
pub const FOCUS_VERIFY_TIMEOUT_MS: u64 = 1000;

/// How long to wait between two looks at which window is focused, in milliseconds.
pub const FOCUS_VERIFY_DELAY_MS: u64 = 50;

/// What is said when a window was to be named and no selector is there.
pub const NO_TARGET: &'static str =
    "Pass window_id, pid, app_id, wm_class, title, tty, terminal_pid, terminal_command, or terminal_cwd to target a window.";

/// What is said when Hyprland could not be reached.
pub const WINDOW_PERMISSION_HINT: &'static str =
    "Computer Use could not reach Hyprland. Targeted window input needs hyprctl on PATH and a running Hyprland instance whose socket this process can read.";

/// A selector as it counts: trimmed, and absent when blank.
pub open spec fn given(value: Option<String>) -> Option<Seq<char>> {
    match value {
        Some(text) if !is_blank(text@) => Some(trim(text@)),
        _ => None,
    }
}

/// A selector as it counts: trimmed, and absent when blank.
pub fn normalized_target(value: &Option<String>) -> (r: Option<String>)
    ensures
        text_of(r) == given(*value),
{
    match value {
        Some(text) => if blank(text) {
            None
        } else {
            Some(trimmed(text))
        },
        None => None,
    }
}

/// Whether two names are both there and equal but for letter case.
pub open spec fn same_name(left: Option<String>, right: Option<String>) -> bool {
    match (left, right) {
        (Some(l), Some(r)) => same_ignoring_case(l@, r@),
        _ => false,
    }
}

/// Whether two names are both there and equal but for letter case.
pub fn same_optional_string(left: &Option<String>, right: &Option<String>) -> (r: bool)
    ensures
        r == same_name(*left, *right),
{
    match (left, right) {
        (Some(l), Some(r)) => equal_ignoring_case(l, r),
        _ => false,
    }
}

/// Whether a name meets a selector: the selector is absent, or the name equals it but
/// for letter case.
pub open spec fn meets_name(actual: Option<String>, requested: Option<String>) -> bool {
    match given(requested) {
        Some(wanted) => actual is Some && same_ignoring_case(actual->0@, wanted),
        None => true,
    }
}

/// Whether a name meets a selector.
pub fn optional_exact_match(actual: &Option<String>, requested: &Option<String>) -> (r: bool)
    ensures
        r == meets_name(*actual, *requested),
{
    match normalized_target(requested) {
        Some(wanted) => match actual {
            Some(value) => equal_ignoring_case(value, &wanted),
            None => false,
        },
        None => true,
    }
}

/// Whether a title meets a selector: the selector is absent, or the title contains it
/// but for letter case.
pub open spec fn meets_title(actual: Option<String>, requested: Option<String>) -> bool {
    match given(requested) {
        Some(wanted) => actual is Some && contains(lower(actual->0@), lower(wanted)),
        None => true,
    }
}

/// Whether a title meets a selector.
pub fn optional_title_match(actual: &Option<String>, requested: &Option<String>) -> (r: bool)
    ensures
        r == meets_title(*actual, *requested),
{
    match normalized_target(requested) {
        Some(wanted) => match actual {
            Some(value) => includes(&lowered(value), &lowered(&wanted)),
            None => false,
        },
        None => true,
    }
}

/// Whether a process meets a pid selector.
pub open spec fn meets_pid(actual: Option<u32>, requested: Option<u32>) -> bool {
    requested is Some ==> actual == requested
}

fn optional_pid_match(actual: Option<u32>, requested: Option<u32>) -> (r: bool)
    ensures
        r == meets_pid(actual, requested),
{
    match requested {
        Some(wanted) => match actual {
            Some(pid) => pid == wanted,
            None => false,
        },
        None => true,
    }
}

/// Whether a tty is the requested one, which may leave out `/dev/` or `/dev/pts/`.
pub open spec fn is_tty(actual: Seq<char>, requested: Seq<char>) -> bool {
    ||| actual == requested
    ||| actual == "/dev/"@ + requested
    ||| actual == "/dev/pts/"@ + requested
}

/// Whether a tty is the requested one.
pub fn tty_matches(actual: &str, requested: &str) -> (r: bool)
    ensures
        r == is_tty(actual@, requested@),
{
    same(actual, requested) || same(actual, &cat("/dev/", requested)) || same(
        actual,
        &cat("/dev/pts/", requested),
    )
}

/// Whether a process runs a command, given in small letters.
pub open spec fn runs_command(process: TerminalProcess, command: Seq<char>) -> bool {
    contains(lower(process.command_name@), command) || contains(
        lower(process.command_line@),
        command,
    )
}

/// Whether a process runs a command, given in small letters.
pub fn terminal_process_matches_command(process: &TerminalProcess, command_lower: &str) -> (r: bool)
    ensures
        r == runs_command(*process, command_lower@),
{
    includes(&lowered(&process.command_name), command_lower) || includes(
        &lowered(&process.command_line),
        command_lower,
    )
}

/// A path without the slashes at its end.
pub open spec fn without_slashes(path: Seq<char>) -> Seq<char>
    decreases path.len(),
{
    if path.len() > 0 && path.last() == '/' {
        without_slashes(path.drop_last())
    } else {
        path
    }
}

fn strip_slashes(path: &str) -> (r: String)
    ensures
        r@ == without_slashes(path@),
{
    let v = chars_of(path);
    let mut to: usize = v.len();
    assert(v@.take(to as int) =~= path@);
    while to > 0 && v[to - 1] == '/'
        invariant
            to <= v@.len(),
            without_slashes(v@.take(to as int)) == without_slashes(path@),
        decreases to,
    {
        assert(v@.take(to as int).drop_last() =~= v@.take(to - 1));
        to = to - 1;
    }
    assert(v@.take(to as int) =~= v@.subrange(0, to as int));
    string_of(&v, 0, to)
}

/// Whether a directory is the requested one: the same path, or, for a path that does not
/// start at the root, one that ends in all of its components.
pub open spec fn is_directory(actual: Seq<char>, requested: Seq<char>) -> bool {
    let actual = without_slashes(actual);
    let requested = without_slashes(requested);
    ||| actual == requested
    ||| !starts_with(requested, "/"@) && ends_with(actual, "/"@ + requested)
}

/// Whether a process runs in a directory.
pub open spec fn runs_in(process: TerminalProcess, cwd: Seq<char>) -> bool {
    process.cwd is Some && is_directory(process.cwd->0@, cwd)
}

/// Whether a process runs in a directory.
pub fn terminal_process_matches_cwd(process: &TerminalProcess, cwd: &str) -> (r: bool)
    ensures
        r == runs_in(*process, cwd@),
{
    let requested = strip_slashes(cwd);
    match &process.cwd {
        Some(value) => {
            let actual = strip_slashes(value);
            same(&actual, &requested) || (!begins_with(&requested, "/") && finishes_with(
                &actual,
                &cat("/", &requested),
            ))
        },
        None => false,
    }
}

/// Whether a window is a terminal that meets every terminal selector, each by its root
/// process or by its active one.
pub open spec fn is_terminal_meant(window: WindowInfo, target: WindowTarget) -> bool {
    match window.terminal {
        None => false,
        Some(terminal) => {
            &&& match given(target.tty) {
                Some(tty) => is_tty(terminal.tty@, tty),
                None => true,
            }
            &&& match target.terminal_pid {
                Some(pid) => terminal.root_process.pid == pid || (terminal.active_process is Some
                    && terminal.active_process->0.pid == pid),
                None => true,
            }
            &&& match given(target.terminal_command) {
                Some(command) => runs_command(terminal.root_process, lower(command)) || (
                terminal.active_process is Some && runs_command(
                    terminal.active_process->0,
                    lower(command),
                )),
                None => true,
            }
            &&& match given(target.terminal_cwd) {
                Some(cwd) => runs_in(terminal.root_process, cwd) || (
                terminal.active_process is Some && runs_in(terminal.active_process->0, cwd)),
                None => true,
            }
        },
    }
}

/// Whether a window is a terminal that meets every terminal selector.
pub fn window_matches_terminal_target(window: &WindowInfo, target: &WindowTarget) -> (r: bool)
    ensures
        r == is_terminal_meant(*window, *target),
{
    let terminal: &TerminalWindowContext = match &window.terminal {
        Some(terminal) => terminal,
        None => return false,
    };
    if let Some(tty) = normalized_target(&target.tty) {
        if !tty_matches(&terminal.tty, &tty) {
            return false;
        }
    }
    if let Some(pid) = target.terminal_pid {
        let active = match &terminal.active_process {
            Some(process) => process.pid == pid,
            None => false,
        };
        if !active && terminal.root_process.pid != pid {
            return false;
        }
    }
    if let Some(command) = normalized_target(&target.terminal_command) {
        let command = lowered(&command);
        let active = match &terminal.active_process {
            Some(process) => terminal_process_matches_command(process, &command),
            None => false,
        };
        if !active && !terminal_process_matches_command(&terminal.root_process, &command) {
            return false;
        }
    }
    if let Some(cwd) = normalized_target(&target.terminal_cwd) {
        let active = match &terminal.active_process {
            Some(process) => terminal_process_matches_cwd(process, &cwd),
            None => false,
        };
        if !active && !terminal_process_matches_cwd(&terminal.root_process, &cwd) {
            return false;
        }
    }
    true
}

/// A window in the terms a caller can pick one by.
pub open spec fn window_words(window: WindowInfo) -> Seq<char> {
    let title = match window.title {
        Some(title) => title@,
        None => ""@,
    };
    let app = match (window.app_id, window.wm_class) {
        (Some(app_id), _) => app_id@,
        (None, Some(wm_class)) => wm_class@,
        (None, None) => "unknown app"@,
    };
    "window_id "@ + decimal(window.window_id as int) + " "@ + debug_text(title) + " ["@ + app
        + "]"@
}

/// The windows an ambiguous selector matched.
pub open spec fn windows_words(windows: Seq<WindowInfo>, picked: Seq<int>) -> Seq<char> {
    join(picked.map_values(|i: int| window_words(windows[i])), ", "@)
}

/// The one window a predicate picks, or why there is not one.
pub open spec fn only_match(
    windows: Seq<WindowInfo>,
    picks: spec_fn(WindowInfo) -> bool,
    description: Seq<char>,
) -> Result<int, Seq<char>> {
    let picked = matching(windows, picks);
    if picked.len() == 1 {
        Ok(picked[0])
    } else if picked.len() == 0 {
        Err("No window matched "@ + description + "."@)
    } else {
        Err(
            description + " matched multiple windows ("@ + windows_words(windows, picked)
                + "); add window_id or another selector to disambiguate."@,
        )
    }
}

/// Whether a window's title, trimmed, is the wanted one.
pub open spec fn titled(wanted: Seq<char>) -> spec_fn(WindowInfo) -> bool {
    |w: WindowInfo| w.title is Some && trim(w.title->0@) == wanted
}

/// Whether a window's title, trimmed, is the wanted one but for letter case.
pub open spec fn titled_ignoring_case(wanted: Seq<char>) -> spec_fn(WindowInfo) -> bool {
    |w: WindowInfo| w.title is Some && same_ignoring_case(trim(w.title->0@), wanted)
}

/// Whether a window's title contains the wanted text but for letter case.
pub open spec fn title_contains(wanted: Seq<char>) -> spec_fn(WindowInfo) -> bool {
    |w: WindowInfo| w.title is Some && contains(lower(w.title->0@), lower(wanted))
}

/// Whether a window's app_id is the wanted one but for letter case.
pub open spec fn app_id_is(wanted: Seq<char>) -> spec_fn(WindowInfo) -> bool {
    |w: WindowInfo| w.app_id is Some && same_ignoring_case(w.app_id->0@, wanted)
}

/// Whether a window's wm_class is the wanted one but for letter case.
pub open spec fn wm_class_is(wanted: Seq<char>) -> spec_fn(WindowInfo) -> bool {
    |w: WindowInfo| w.wm_class is Some && same_ignoring_case(w.wm_class->0@, wanted)
}

/// Whether a window belongs to a process.
pub open spec fn pid_is(pid: u32) -> spec_fn(WindowInfo) -> bool {
    |w: WindowInfo| w.pid == Some(pid)
}

/// Whether a window is a terminal meant by the selectors and meets the other ones too.
pub open spec fn terminal_is(target: WindowTarget) -> spec_fn(WindowInfo) -> bool {
    |w: WindowInfo|
        is_terminal_meant(w, target) && meets_pid(w.pid, target.pid) && meets_name(
            w.app_id,
            target.app_id,
        ) && meets_name(w.wm_class, target.wm_class) && meets_title(w.title, target.title)
}

/// The step between neighbouring numbers of 53 significant bits, at the size of `n` and
/// no smaller than `unit`.
pub open spec fn step_at(n: int, unit: int) -> int
    decreases n - unit,
{
    if unit <= 0 || n < unit * 0x20_0000_0000_0000 {
        unit
    } else {
        step_at(n, 2 * unit)
    }
}

/// A whole number after a trip through a double: the nearest number of 53 significant
/// bits, the even one of two equally near.
pub open spec fn as_double(n: int) -> int {
    let step = step_at(n, 1);
    let low = n / step;
    let rest = n % step;
    if 2 * rest > step || (2 * rest == step && low % 2 == 1) {
        (low + 1) * step
    } else {
        low * step
    }
}

/// Whether two ids are the same number once one of them went through JSON as a double.
/// Numbers below two to the 53rd keep their value there.
pub open spec fn same_json_number(actual: u64, requested: u64) -> bool {
    (actual > 0x1f_ffff_ffff_ffff || requested > 0x1f_ffff_ffff_ffff) && as_double(actual as int)
        == as_double(requested as int)
}

/// Whether a window's id is the requested one after JSON rounding.
pub open spec fn rounds_to(window_id: u64) -> spec_fn(WindowInfo) -> bool {
    |w: WindowInfo| same_json_number(w.window_id, window_id)
}

/// Whether a window's id is the requested one after JSON rounding and it meets the other
/// selectors.
pub open spec fn rounds_to_and_meets(window_id: u64, target: WindowTarget) -> spec_fn(
    WindowInfo,
) -> bool {
    |w: WindowInfo|
        same_json_number(w.window_id, window_id) && meets_pid(w.pid, target.pid) && meets_name(
            w.app_id,
            target.app_id,
        ) && meets_name(w.wm_class, target.wm_class) && meets_title(w.title, target.title)
}

/// Whether a window has an id.
pub open spec fn id_is(window_id: u64) -> spec_fn(WindowInfo) -> bool {
    |w: WindowInfo| w.window_id == window_id
}

/// The ids of some windows, separated by commas.
pub open spec fn id_list(windows: Seq<WindowInfo>, picked: Seq<int>) -> Seq<char> {
    join(picked.map_values(|i: int| decimal(windows[i].window_id as int)), ", "@)
}

/// Whether a selector is there that can tell two windows of one rounded id apart.
pub open spec fn disambiguates(target: WindowTarget) -> bool {
    target.pid is Some || given(target.app_id) is Some || given(target.wm_class) is Some || given(
        target.title,
    ) is Some
}

/// The window an id names: the one that has it, or else the one whose id is that number
/// after JSON rounding, told apart by the other selectors where there are several.
pub open spec fn resolved_id(
    windows: Seq<WindowInfo>,
    target: WindowTarget,
    window_id: u64,
) -> Result<int, Seq<char>> {
    let exact = matching(windows, id_is(window_id));
    let rounded = matching(windows, rounds_to(window_id));
    let narrowed = matching(windows, rounds_to_and_meets(window_id, target));
    let ambiguous = "window_id "@ + decimal(window_id as int)
        + " matched multiple windows after JSON number rounding ("@ + id_list(windows, rounded);
    if exact.len() > 0 {
        Ok(exact[0])
    } else if rounded.len() == 1 {
        Ok(rounded[0])
    } else if rounded.len() == 0 {
        Err("No window matched window_id "@ + decimal(window_id as int) + "."@)
    } else if disambiguates(target) && narrowed.len() == 1 {
        Ok(narrowed[0])
    } else if disambiguates(target) && narrowed.len() == 0 {
        Err(
            ambiguous
                + "), but none matched the provided title, pid, app_id, or wm_class disambiguators."@,
        )
    } else {
        Err(ambiguous + "); add title, pid, app_id, or wm_class to disambiguate."@)
    }
}

/// The window a title names: the first of three passes that picks any window decides.
pub open spec fn resolved_title(windows: Seq<WindowInfo>, title: Seq<char>) -> Result<
    int,
    Seq<char>,
> {
    let description = "title "@ + title;
    if matching(windows, titled(title)).len() > 0 {
        only_match(windows, titled(title), description)
    } else if matching(windows, titled_ignoring_case(title)).len() > 0 {
        only_match(windows, titled_ignoring_case(title), description)
    } else {
        only_match(windows, title_contains(title), description)
    }
}

/// The window the selectors name, or why none is. The selectors are tried in order, and
/// the first that is there decides.
pub open spec fn resolved(windows: Seq<WindowInfo>, target: WindowTarget) -> Result<
    int,
    Seq<char>,
> {
    if target.window_id is Some {
        resolved_id(windows, target, target.window_id->0)
    } else if target.names_terminal() {
        only_match(windows, terminal_is(target), "terminal target"@)
    } else if target.pid is Some {
        only_match(windows, pid_is(target.pid->0), "pid "@ + decimal(target.pid->0 as int))
    } else if given(target.app_id) is Some {
        only_match(
            windows,
            app_id_is(given(target.app_id)->0),
            "app_id "@ + given(target.app_id)->0,
        )
    } else if given(target.wm_class) is Some {
        only_match(
            windows,
            wm_class_is(given(target.wm_class)->0),
            "wm_class "@ + given(target.wm_class)->0,
        )
    } else if given(target.title) is Some {
        resolved_title(windows, given(target.title)->0)
    } else {
        Err(NO_TARGET@)
    }
}

/// Text that may be missing, or another in its place.
fn text_or(value: &Option<String>, fallback: &str) -> (r: String)
    ensures
        r@ == match *value {
            Some(text) => text@,
            None => fallback@,
        },
{
    match value {
        Some(text) => text.clone(),
        None => fallback.to_owned(),
    }
}

/// A window in the terms a caller can pick one by.
fn describe_window(window: &WindowInfo) -> (r: String)
    ensures
        r@ == window_words(*window),
{
    let mut words = "window_id ".to_owned();
    words.append(&decimal_of(window.window_id));
    words.append(" ");
    words.append(&debug_of(&text_or(&window.title, "")));
    words.append(" [");
    match &window.app_id {
        Some(app_id) => words.append(app_id),
        None => words.append(&text_or(&window.wm_class, "unknown app")),
    }
    words.append("]");
    words
}

/// The windows an ambiguous selector matched, in the terms the caller can
/// pick one by.
pub fn describe_windows(windows: &[WindowInfo], picked: &[usize]) -> (r: String)
    requires
        forall|i: int| 0 <= i < picked@.len() ==> #[trigger] picked@[i] < windows@.len(),
    ensures
        r@ == windows_words(windows@, positions(picked@)),
{
    broadcast use texts_push;

    let ghost all = positions(picked@).map_values(|i: int| window_words(windows@[i]));
    let mut words: Vec<String> = Vec::new();
    assert(texts(words@) =~= all.take(0));
    for k in 0..picked.len()
        invariant
            forall|i: int| 0 <= i < picked@.len() ==> #[trigger] picked@[i] < windows@.len(),
            all == positions(picked@).map_values(|i: int| window_words(windows@[i])),
            texts(words@) == all.take(k as int),
    {
        broadcast use texts_push;

        words.push(describe_window(&windows[picked[k]]));
        assert(all.take(k + 1) =~= all.take(k as int).push(all[k as int]));
    }
    assert(all.take(picked@.len() as int) =~= all);
    joined(&words, ", ")
}

/// The one window picked, or why there is not one.
pub fn unique_window_match<'a>(
    windows: &'a [WindowInfo],
    picked: &[usize],
    description: &str,
) -> (r: Result<&'a WindowInfo, String>)
    requires
        forall|i: int| 0 <= i < picked@.len() ==> #[trigger] picked@[i] < windows@.len(),
    ensures
        match r {
            Ok(window) => picked@.len() == 1 && *window == windows@[picked@[0] as int],
            Err(message) => if picked@.len() == 0 {
                message@ == "No window matched "@ + description@ + "."@
            } else {
                picked@.len() > 1 && message@ == description@ + " matched multiple windows ("@
                    + windows_words(windows@, positions(picked@))
                    + "); add window_id or another selector to disambiguate."@
            },
        },
{
    if picked.len() == 1 {
        assert(picked@[0] < windows@.len());
        Ok(&windows[picked[0]])
    } else if picked.len() == 0 {
        let mut message = "No window matched ".to_owned();
        message.append(description);
        message.append(".");
        Err(message)
    } else {
        let mut message = description.to_owned();
        message.append(" matched multiple windows (");
        message.append(&describe_windows(windows, picked));
        message.append("); add window_id or another selector to disambiguate.");
        Err(message)
    }
}

/// Whether an answer is the window, or the refusal, that was due.
pub open spec fn answers(
    windows: Seq<WindowInfo>,
    due: Result<int, Seq<char>>,
    r: Result<&WindowInfo, String>,
) -> bool {
    match r {
        Ok(window) => due is Ok && *window == windows[due->Ok_0],
        Err(message) => due == Err::<int, Seq<char>>(message@),
    }
}

/// Resolve a `title` selector through three narrowing passes: the windows
/// whose title *is* it, then the ones whose title is it but for letter case,
/// then the ones that merely contain it. The first pass with anything in it
/// decides.
///
/// That ladder is what keeps a window named "Sophia" reachable by that name
/// while an editor two workspaces away carries "sophia" in a project title —
/// two windows a case-insensitive match cannot tell apart. When the deciding
/// pass still holds more than one window the selector refuses and names them,
/// the way an ambiguous element selector does: driving the wrong window is
/// worse than answering a question.
pub fn resolve_title_target<'a>(windows: &'a [WindowInfo], title: &str) -> (r: Result<
    &'a WindowInfo,
    String,
>)
    ensures
        answers(windows@, resolved_title(windows@, title@), r),
{
    let description = cat("title ", title);
    let is = |w: &WindowInfo| -> (b: bool)
        ensures
            b == titled(title@)(*w),
        {
            match &w.title {
                Some(value) => same(&trimmed(value), title),
                None => false,
            }
        };
    let exact = matching_items(windows, is, Ghost(titled(title@)));
    if exact.len() > 0 {
        return unique_window_match(windows, &exact, &description);
    }
    let is_but_for_case = |w: &WindowInfo| -> (b: bool)
        ensures
            b == titled_ignoring_case(title@)(*w),
        {
            match &w.title {
                Some(value) => equal_ignoring_case(&trimmed(value), title),
                None => false,
            }
        };
    let same_but_for_case = matching_items(
        windows,
        is_but_for_case,
        Ghost(titled_ignoring_case(title@)),
    );
    if same_but_for_case.len() > 0 {
        return unique_window_match(windows, &same_but_for_case, &description);
    }
    let needle = lowered(title);
    let has = |w: &WindowInfo| -> (b: bool)
        ensures
            b == title_contains(title@)(*w),
        {
            match &w.title {
                Some(value) => includes(&lowered(value), &needle),
                None => false,
            }
        };
    let contained = matching_items(windows, has, Ghost(title_contains(title@)));
    unique_window_match(windows, &contained, &description)
}

/// A whole number after a trip through a double, which is at most two to the 64th.
fn through_double(n: u64) -> (r: u128)
    ensures
        r == as_double(n as int),
{
    let mut step: u64 = 1;
    while n / step >= 0x20_0000_0000_0000
        invariant
            1 <= step <= 0x1000,
            step_at(n as int, step as int) == step_at(n as int, 1),
        decreases 0x2000 - step,
    {
        assert(n >= step * 0x20_0000_0000_0000) by (nonlinear_arith)
            requires
                n / step >= 0x20_0000_0000_0000,
                step >= 1,
        ;
        assert(step < 0x800) by (nonlinear_arith)
            requires
                n >= step * 0x20_0000_0000_0000,
                n <= 0xffff_ffff_ffff_ffff,
        ;
        step = 2 * step;
    }
    assert(n < step * 0x20_0000_0000_0000) by (nonlinear_arith)
        requires
            n / step < 0x20_0000_0000_0000,
            step >= 1,
    ;
    let low: u64 = n / step;
    let rest: u64 = n % step;
    assert((low as u128 + 1) * (step as u128) <= 0x1_0000_0000_0000_1000 && low * step <= n) by (nonlinear_arith)
        requires
            low == n / step,
            1 <= step <= 0x1000,
    ;
    if 2 * rest > step || (2 * rest == step && low % 2 == 1) {
        (low as u128 + 1) * (step as u128)
    } else {
        assert(low as u128 * (step as u128) <= (low as u128 + 1) * (step as u128)) by (nonlinear_arith);
        (low as u128) * (step as u128)
    }
}

/// Whether two ids are the same number once one of them went through JSON as a double.
pub fn window_id_matches_json_number(actual: u64, requested: u64) -> (r: bool)
    ensures
        r == same_json_number(actual, requested),
{
    (actual > 0x1f_ffff_ffff_ffff || requested > 0x1f_ffff_ffff_ffff) && through_double(actual)
        == through_double(requested)
}

/// Whether a selector is there that can tell two windows of one rounded id apart.
pub fn has_window_id_disambiguator(target: &WindowTarget) -> (r: bool)
    ensures
        r == disambiguates(*target),
{
    target.pid.is_some() || normalized_target(&target.app_id).is_some() || normalized_target(
        &target.wm_class,
    ).is_some() || normalized_target(&target.title).is_some()
}

/// Whether a window meets the selectors besides its id.
pub fn window_id_disambiguators_match(window: &WindowInfo, target: &WindowTarget) -> (r: bool)
    ensures
        r == (meets_pid(window.pid, target.pid) && meets_name(window.app_id, target.app_id)
            && meets_name(window.wm_class, target.wm_class) && meets_title(
            window.title,
            target.title,
        )),
{
    optional_pid_match(window.pid, target.pid) && optional_exact_match(
        &window.app_id,
        &target.app_id,
    ) && optional_exact_match(&window.wm_class, &target.wm_class) && optional_title_match(
        &window.title,
        &target.title,
    )
}

/// The ids of some windows, separated by commas.
fn list_ids(windows: &[WindowInfo], picked: &[usize]) -> (r: String)
    requires
        forall|i: int| 0 <= i < picked@.len() ==> #[trigger] picked@[i] < windows@.len(),
    ensures
        r@ == id_list(windows@, positions(picked@)),
{
    broadcast use texts_push;

    let ghost all = positions(picked@).map_values(
        |i: int| decimal(windows@[i].window_id as int),
    );
    let mut ids: Vec<String> = Vec::new();
    assert(texts(ids@) =~= all.take(0));
    for k in 0..picked.len()
        invariant
            forall|i: int| 0 <= i < picked@.len() ==> #[trigger] picked@[i] < windows@.len(),
            all == positions(picked@).map_values(|i: int| decimal(windows@[i].window_id as int)),
            texts(ids@) == all.take(k as int),
    {
        broadcast use texts_push;

        ids.push(decimal_of(windows[picked[k]].window_id));
        assert(all.take(k + 1) =~= all.take(k as int).push(all[k as int]));
    }
    assert(all.take(picked@.len() as int) =~= all);
    joined(&ids, ", ")
}

/// The window meant where several have an id that rounds to the requested one.
fn resolve_rounded_window_id_matches<'a>(
    windows: &'a [WindowInfo],
    rounded: &[usize],
    target: &WindowTarget,
    window_id: u64,
) -> (r: Result<&'a WindowInfo, String>)
    requires
        matching(windows@, id_is(window_id)).len() == 0,
        positions(rounded@) == matching(windows@, rounds_to(window_id)),
        rounded@.len() > 1,
        forall|i: int| 0 <= i < rounded@.len() ==> #[trigger] rounded@[i] < windows@.len(),
    ensures
        answers(windows@, resolved_id(windows@, *target, window_id), r),
{
    let mut ambiguous = "window_id ".to_owned();
    ambiguous.append(&decimal_of(window_id));
    ambiguous.append(" matched multiple windows after JSON number rounding (");
    ambiguous.append(&list_ids(windows, rounded));
    if has_window_id_disambiguator(target) {
        let meets = |w: &WindowInfo| -> (b: bool)
            ensures
                b == rounds_to_and_meets(window_id, *target)(*w),
            {
                window_id_matches_json_number(w.window_id, window_id)
                    && window_id_disambiguators_match(w, target)
            };
        let narrowed = matching_items(
            windows,
            meets,
            Ghost(rounds_to_and_meets(window_id, *target)),
        );
        if narrowed.len() == 1 {
            assert(narrowed@[0] < windows@.len());
            return Ok(&windows[narrowed[0]]);
        }
        if narrowed.len() == 0 {
            ambiguous.append(
                "), but none matched the provided title, pid, app_id, or wm_class disambiguators.",
            );
            return Err(ambiguous);
        }
    }
    ambiguous.append("); add title, pid, app_id, or wm_class to disambiguate.");
    Err(ambiguous)
}

/// The window an id names.
pub fn resolve_window_id_target<'a>(
    windows: &'a [WindowInfo],
    target: &WindowTarget,
    window_id: u64,
) -> (r: Result<&'a WindowInfo, String>)
    ensures
        answers(windows@, resolved_id(windows@, *target, window_id), r),
{
    let has_id = |w: &WindowInfo| -> (b: bool)
        ensures
            b == id_is(window_id)(*w),
        { w.window_id == window_id };
    let exact = matching_items(windows, has_id, Ghost(id_is(window_id)));
    if exact.len() > 0 {
        assert(exact@[0] < windows@.len());
        return Ok(&windows[exact[0]]);
    }
    let rounds = |w: &WindowInfo| -> (b: bool)
        ensures
            b == rounds_to(window_id)(*w),
        { window_id_matches_json_number(w.window_id, window_id) };
    let rounded = matching_items(windows, rounds, Ghost(rounds_to(window_id)));
    if rounded.len() == 1 {
        assert(rounded@[0] < windows@.len());
        Ok(&windows[rounded[0]])
    } else if rounded.len() == 0 {
        let mut message = "No window matched window_id ".to_owned();
        message.append(&decimal_of(window_id));
        message.append(".");
        Err(message)
    } else {
        resolve_rounded_window_id_matches(windows, &rounded, target, window_id)
    }
}

/// The window the selectors name, or why none is.
pub fn resolve_window_target<'a>(windows: &'a [WindowInfo], target: &WindowTarget) -> (r: Result<
    &'a WindowInfo,
    String,
>)
    ensures
        answers(windows@, resolved(windows@, *target), r),
{
    if let Some(window_id) = target.window_id {
        return resolve_window_id_target(windows, target, window_id);
    }
    if target.has_terminal_target() {
        let is_meant = |w: &WindowInfo| -> (b: bool)
            ensures
                b == terminal_is(*target)(*w),
            {
                window_matches_terminal_target(w, target) && window_id_disambiguators_match(
                    w,
                    target,
                )
            };
        let picked = matching_items(windows, is_meant, Ghost(terminal_is(*target)));
        return unique_window_match(windows, &picked, "terminal target");
    }
    if let Some(pid) = target.pid {
        let has_pid = |w: &WindowInfo| -> (b: bool)
            ensures
                b == pid_is(pid)(*w),
            { optional_pid_match(w.pid, Some(pid)) };
        let picked = matching_items(windows, has_pid, Ghost(pid_is(pid)));
        return unique_window_match(windows, &picked, &cat("pid ", &decimal_of(pid as u64)));
    }
    if let Some(app_id) = normalized_target(&target.app_id) {
        let has_app_id = |w: &WindowInfo| -> (b: bool)
            ensures
                b == app_id_is(app_id@)(*w),
            {
                match &w.app_id {
                    Some(value) => equal_ignoring_case(value, &app_id),
                    None => false,
                }
            };
        let picked = matching_items(windows, has_app_id, Ghost(app_id_is(app_id@)));
        return unique_window_match(windows, &picked, &cat("app_id ", &app_id));
    }
    if let Some(wm_class) = normalized_target(&target.wm_class) {
        let has_wm_class = |w: &WindowInfo| -> (b: bool)
            ensures
                b == wm_class_is(wm_class@)(*w),
            {
                match &w.wm_class {
                    Some(value) => equal_ignoring_case(value, &wm_class),
                    None => false,
                }
            };
        let picked = matching_items(windows, has_wm_class, Ghost(wm_class_is(wm_class@)));
        return unique_window_match(windows, &picked, &cat("wm_class ", &wm_class));
    }
    if let Some(title) = normalized_target(&target.title) {
        return resolve_title_target(windows, &title);
    }
    Err(NO_TARGET.to_owned())
}

/// The predicate that decides which window the selectors other than an id name.
pub open spec fn deciding(windows: Seq<WindowInfo>, target: WindowTarget) -> spec_fn(
    WindowInfo,
) -> bool {
    if target.names_terminal() {
        terminal_is(target)
    } else if target.pid is Some {
        pid_is(target.pid->0)
    } else if given(target.app_id) is Some {
        app_id_is(given(target.app_id)->0)
    } else if given(target.wm_class) is Some {
        wm_class_is(given(target.wm_class)->0)
    } else if matching(windows, titled(given(target.title)->0)).len() > 0 {
        titled(given(target.title)->0)
    } else if matching(windows, titled_ignoring_case(given(target.title)->0)).len() > 0 {
        titled_ignoring_case(given(target.title)->0)
    } else {
        title_contains(given(target.title)->0)
    }
}

/// A selector drives a window exactly when it is the only one that matches: it refuses
/// where none does, and where more than one does rather than picking among them.
pub proof fn a_selector_resolves_only_a_lone_match(
    windows: Seq<WindowInfo>,
    target: WindowTarget,
    k: int,
)
    requires
        target.window_id is None,
        target.names_window(),
    ensures
        resolved(windows, target) == Ok::<int, Seq<char>>(k) <==> 0 <= k < windows.len()
            && deciding(windows, target)(windows[k]) && forall|j: int|
            0 <= j < windows.len() && #[trigger] deciding(windows, target)(windows[j]) ==> j == k,
{
    let picks = deciding(windows, target);
    let picked = matching(windows, picks);
    matching_is_exact(windows, picks);
    if resolved(windows, target) == Ok::<int, Seq<char>>(k) {
        assert(picked.len() == 1 && picked[0] == k);
        assert(picked.contains(k));
        assert forall|j: int| 0 <= j < windows.len() && #[trigger] picks(windows[j]) implies j
            == k by {
            assert(picked.contains(j));
        }
    }
    if 0 <= k < windows.len() && picks(windows[k]) && (forall|j: int|
        0 <= j < windows.len() && #[trigger] picks(windows[j]) ==> j == k) {
        assert(picked.contains(k));
        if picked.len() > 1 {
            assert(picked.contains(picked[0]) && picked.contains(picked[1]));
            assert(picked[0] < picked[1]);
        }
        assert(picked.len() == 1);
        assert(picked[0] == k);
    }
}

/// A window named exactly by a title is reached by it, whatever other titles contain it
/// or equal it but for letter case.
pub proof fn an_exact_title_wins(windows: Seq<WindowInfo>, target: WindowTarget, k: int)
    requires
        target.window_id is None,
        !target.names_terminal(),
        target.pid is None,
        given(target.app_id) is None,
        given(target.wm_class) is None,
        given(target.title) is Some,
        0 <= k < windows.len(),
        titled(given(target.title)->0)(windows[k]),
        forall|j: int|
            0 <= j < windows.len() && #[trigger] titled(given(target.title)->0)(windows[j]) ==> j
                == k,
    ensures
        resolved(windows, target) == Ok::<int, Seq<char>>(k),
{
    let title = given(target.title)->0;
    matching_is_exact(windows, titled(title));
    assert(matching(windows, titled(title)).contains(k));
    a_selector_resolves_only_a_lone_match(windows, target, k);
}

/// A window that has the very id is the one resolved, whatever the other selectors say.
pub proof fn an_exact_id_wins(windows: Seq<WindowInfo>, target: WindowTarget, k: int)
    requires
        0 <= k < windows.len(),
        target.window_id == Some(windows[k].window_id),
        forall|j: int|
            0 <= j < windows.len() && (#[trigger] windows[j]).window_id == windows[k].window_id
                ==> j == k,
    ensures
        resolved(windows, target) == Ok::<int, Seq<char>>(k),
{
    let picks = id_is(windows[k].window_id);
    let picked = matching(windows, picks);
    matching_is_exact(windows, picks);
    assert(picked.contains(k));
    assert(picked.contains(picked[0]));
    assert(windows[picked[0]].window_id == windows[k].window_id);
}

/// What is resolved is a window of the list.
pub proof fn a_resolved_window_is_listed(windows: Seq<WindowInfo>, target: WindowTarget)
    requires
        resolved(windows, target) is Ok,
    ensures
        0 <= resolved(windows, target)->Ok_0 < windows.len(),
{
    let k = resolved(windows, target)->Ok_0;
    if target.window_id is Some {
        let id = target.window_id->0;
        matching_is_exact(windows, id_is(id));
        matching_is_exact(windows, rounds_to(id));
        matching_is_exact(windows, rounds_to_and_meets(id, target));
        let exact = matching(windows, id_is(id));
        let rounded = matching(windows, rounds_to(id));
        let narrowed = matching(windows, rounds_to_and_meets(id, target));
        assert(exact.contains(k) || rounded.contains(k) || narrowed.contains(k)) by {
            if exact.len() > 0 {
                assert(exact[0] == k);
            } else if rounded.len() == 1 {
                assert(rounded[0] == k);
            } else {
                assert(narrowed[0] == k);
            }
        }
    } else {
        a_selector_resolves_only_a_lone_match(windows, target, k);
    }
}

/// Without a selector no window is resolved, and the caller is told which there are.
pub proof fn no_selector_resolves_nothing(windows: Seq<WindowInfo>, target: WindowTarget)
    requires
        !target.names_window(),
    ensures
        resolved(windows, target) == Err::<int, Seq<char>>(NO_TARGET@),
{
}

/// Ids below two to the 53rd come through JSON unchanged, so that no other id passes for
/// one of them.
pub proof fn small_ids_survive_json(n: u64)
    requires
        n <= 0x1f_ffff_ffff_ffff,
    ensures
        as_double(n as int) == n,
{
    assert(step_at(n as int, 1) == 1);
}

/// What an error suggests, where it reads like a refused connection.
pub open spec fn permission_hint(error: Seq<char>) -> Option<Seq<char>> {
    let lowered = lower(error);
    if contains(lowered, "accessdenied"@) || contains(lowered, "access denied"@) || contains(
        lowered,
        "not allowed"@,
    ) || contains(lowered, "operation not permitted"@) || contains(
        lowered,
        "failed to connect to session bus"@,
    ) {
        Some(WINDOW_PERMISSION_HINT@)
    } else {
        None
    }
}

/// What an error suggests, where it reads like a refused connection.
pub fn window_permission_hint(error: &str) -> (r: Option<String>)
    ensures
        text_of(r) == permission_hint(error@),
{
    let lowered = lowered(error);
    if includes(&lowered, "accessdenied") || includes(&lowered, "access denied") || includes(
        &lowered,
        "not allowed",
    ) || includes(&lowered, "operation not permitted") || includes(
        &lowered,
        "failed to connect to session bus",
    ) {
        Some(WINDOW_PERMISSION_HINT.to_owned())
    } else {
        None
    }
}

/// The position of the first focused window.
pub open spec fn first_focused(windows: Seq<WindowInfo>) -> Option<int>
    decreases windows.len(),
{
    if windows.len() == 0 {
        None
    } else {
        match first_focused(windows.drop_last()) {
            Some(k) => Some(k),
            None => if windows.last().focused {
                Some(windows.len() - 1)
            } else {
                None
            },
        }
    }
}

/// The focused window of a list.
pub fn focused_window(windows: &[WindowInfo]) -> (r: Option<WindowInfo>)
    ensures
        match r {
            Some(window) => first_focused(windows@) is Some && window == windows@[first_focused(
                windows@,
            )->0],
            None => first_focused(windows@) is None,
        },
{
    let mut found: Option<usize> = None;
    for i in 0..windows.len()
        invariant
            match found {
                Some(k) => k < i && first_focused(windows@.take(i as int)) == Some(k as int),
                None => first_focused(windows@.take(i as int)) is None,
            },
    {
        assert(windows@.take(i + 1).drop_last() =~= windows@.take(i as int));
        if found.is_none() && windows[i].focused {
            found = Some(i);
        }
    }
    assert(windows@.take(windows@.len() as int) =~= windows@);
    match found {
        Some(k) => Some(windows[k].clone()),
        None => None,
    }
}

/// One look at which window is focused, or what came instead.
#[derive(Debug)]
pub enum FocusReply {
    /// The query answered.
    Answered(Option<WindowInfo>),
    /// The query failed.
    Failed,
    /// The deadline passed before the query answered.
    TimedOut,
}

/// What to do after one look.
#[derive(Debug)]
pub enum FocusStep {
    /// Stop, with the window that is focused as far as is known.
    Settled(Option<WindowInfo>),
    /// Look again at this time, keeping the window seen last.
    LookAgain(u64, Option<WindowInfo>),
}

/// What is known after a look: the window it saw, or else the one seen last.
pub open spec fn seen(last: Option<WindowInfo>, reply: FocusReply) -> Option<WindowInfo> {
    match reply {
        FocusReply::Answered(Some(window)) => Some(window),
        _ => last,
    }
}

/// Whether a look saw the requested window.
pub open spec fn saw(requested: WindowInfo, reply: FocusReply) -> bool {
    match reply {
        FocusReply::Answered(Some(window)) => window.window_id == requested.window_id,
        _ => false,
    }
}

/// One step of waiting for a window to be focused. The wait ends as soon as the window is
/// seen, and at the deadline with whichever window was seen last; no pause reaches past
/// the deadline. Times are in milliseconds.
pub fn focus_step(
    requested: &WindowInfo,
    last: Option<WindowInfo>,
    reply: FocusReply,
    now: u64,
    deadline: u64,
) -> (r: FocusStep)
    ensures
        match r {
            FocusStep::Settled(window) => window == seen(last, reply) && (saw(*requested, reply)
                || reply is TimedOut || now >= deadline),
            FocusStep::LookAgain(at, kept) => {
                &&& !saw(*requested, reply)
                &&& !(reply is TimedOut)
                &&& now < deadline
                &&& kept == seen(last, reply)
                &&& at == if now + FOCUS_VERIFY_DELAY_MS < deadline {
                    now + FOCUS_VERIFY_DELAY_MS
                } else {
                    deadline as int
                }
            },
        },
{
    let known = match reply {
        FocusReply::Answered(Some(window)) => {
            if window.window_id == requested.window_id {
                return FocusStep::Settled(Some(window));
            }
            Some(window)
        },
        FocusReply::Answered(None) => last,
        FocusReply::Failed => last,
        FocusReply::TimedOut => return FocusStep::Settled(last),
    };
    if now >= deadline {
        return FocusStep::Settled(known);
    }
    let at: u64 = if deadline - now > FOCUS_VERIFY_DELAY_MS {
        now + FOCUS_VERIFY_DELAY_MS
    } else {
        deadline
    };
    FocusStep::LookAgain(at, known)
}

/// What focusing says of how it went.
pub const FOCUS_NOTE: &'static str =
    "Computer Use activated the requested window through the available window backend, then verified focus through a fresh window query.";

/// Whether a result is what asking for a window to be focused came to: what has the focus
/// in the end, and whether that is the window or its application.
pub open spec fn is_focus(
    r: WindowFocusResult,
    requested: WindowInfo,
    focused: Option<WindowInfo>,
) -> bool {
    &&& r.requested_window == requested
    &&& r.focused_window == focused
    &&& r.exact_window_focused == (focused is Some && focused->0.window_id == requested.window_id)
    &&& r.app_focused == (focused is Some && same_name(focused->0.app_id, requested.app_id))
    &&& r.backend == requested.backend
    &&& r.note@ == FOCUS_NOTE@
}

/// What came of asking for a window to be focused, once the waiting is over.
pub fn focus_result(requested: WindowInfo, focused: Option<WindowInfo>) -> (r: WindowFocusResult)
    ensures
        is_focus(r, requested, focused),
{
    let exact = match &focused {
        Some(window) => window.window_id == requested.window_id,
        None => false,
    };
    let app = match &focused {
        Some(window) => same_optional_string(&window.app_id, &requested.app_id),
        None => false,
    };
    WindowFocusResult {
        backend: requested.backend.clone(),
        requested_window: requested,
        focused_window: focused,
        exact_window_focused: exact,
        app_focused: app,
        note: FOCUS_NOTE.to_owned(),
    }
}

/// The next thing focusing a window does.
#[derive(Debug)]
pub enum FocusTask {
    /// List the windows.
    List,
    /// Activate the window.
    Activate(WindowInfo),
    /// Look which window has the focus, at this time or at once.
    Look { requested: WindowInfo, last: Option<WindowInfo>, at: Option<u64> },
    Done(Result<WindowFocusResult, String>),
}

/// What came of what focusing a window does.
#[derive(Debug)]
pub enum FocusReport {
    Listed(Result<Vec<WindowInfo>, String>),
    Activated(Result<(), String>),
    /// What a look was answered, when, and when looking ends.
    Looked { reply: FocusReply, now: u64, deadline: u64 },
}

/// Whether a report is one on a task.
pub open spec fn reports_focus(task: FocusTask, report: FocusReport) -> bool {
    match task {
        FocusTask::List => report is Listed,
        FocusTask::Activate(_) => report is Activated,
        FocusTask::Look { .. } => report is Looked,
        FocusTask::Done(_) => false,
    }
}

/// Whether focusing a window is over for a reason.
pub open spec fn focus_fails(next: FocusTask, message: Seq<char>) -> bool {
    next is Done && next->Done_0 is Err && next->Done_0->Err_0@ == message
}

/// Whether the next task of focusing a window follows the last and what came of it: the
/// window that is named is activated, and then looked for until it is seen or the time is
/// up.
pub open spec fn focusing_follows(
    target: WindowTarget,
    task: FocusTask,
    report: FocusReport,
    next: FocusTask,
) -> bool {
    match (task, report) {
        (FocusTask::List, FocusReport::Listed(listed)) => match listed {
            Err(error) => focus_fails(next, error@),
            Ok(windows) => match resolved(windows@, target) {
                Err(message) => focus_fails(next, message),
                Ok(k) => next == FocusTask::Activate(windows@[k]),
            },
        },
        (FocusTask::Activate(window), FocusReport::Activated(outcome)) => match outcome {
            Err(error) => focus_fails(next, error@),
            Ok(_) => next == (FocusTask::Look { requested: window, last: None, at: None }),
        },
        (
            FocusTask::Look { requested, last, .. },
            FocusReport::Looked { reply, now, deadline },
        ) => {
            let known = seen(last, reply);
            if saw(requested, reply) || reply is TimedOut || now >= deadline {
                next is Done && next->Done_0 is Ok && is_focus(next->Done_0->Ok_0, requested, known)
            } else {
                next is Look && next->requested == requested && next->last == known && next->at
                    == Some(
                    if deadline - now > FOCUS_VERIFY_DELAY_MS {
                        (now + FOCUS_VERIFY_DELAY_MS) as u64
                    } else {
                        deadline
                    },
                )
            }
        },
        _ => true,
    }
}

/// The first thing focusing a window does.
pub fn start_focus(target: &WindowTarget) -> (r: FocusTask)
    ensures
        if target.names_window() {
            r is List
        } else {
            focus_fails(r, NO_TARGET@)
        },
{
    if target.has_target() {
        FocusTask::List
    } else {
        FocusTask::Done(Err(NO_TARGET.to_owned()))
    }
}

/// What focusing a window does next, by what came of the last.
pub fn focus_window_target(target: &WindowTarget, task: FocusTask, report: FocusReport) -> (r:
    FocusTask)
    requires
        reports_focus(task, report),
    ensures
        focusing_follows(*target, task, report, r),
{
    match (task, report) {
        (FocusTask::List, FocusReport::Listed(listed)) => match listed {
            Err(error) => FocusTask::Done(Err(error)),
            Ok(windows) => match resolve_window_target(&windows, target) {
                Ok(window) => FocusTask::Activate(window.clone()),
                Err(message) => FocusTask::Done(Err(message)),
            },
        },
        (FocusTask::Activate(window), FocusReport::Activated(outcome)) => match outcome {
            Err(error) => FocusTask::Done(Err(error)),
            Ok(_) => FocusTask::Look { requested: window, last: None, at: None },
        },
        (
            FocusTask::Look { requested, last, .. },
            FocusReport::Looked { reply, now, deadline },
        ) => match focus_step(&requested, last, reply, now, deadline) {
            FocusStep::Settled(focused) => FocusTask::Done(Ok(focus_result(requested, focused))),
            FocusStep::LookAgain(at, last) => FocusTask::Look { requested, last, at: Some(at) },
        },
        (task, _) => task,
    }
}

/// A window that is said to be focused exactly was seen with the focus.
pub proof fn exact_focus_was_seen(
    target: WindowTarget,
    task: FocusTask,
    reply: FocusReply,
    now: u64,
    deadline: u64,
    next: FocusTask,
)
    requires
        task is Look,
        task->last is Some ==> task->last->0.window_id != task->requested.window_id,
        focusing_follows(target, task, FocusReport::Looked { reply, now, deadline }, next),
    ensures
        next is Done && next->Done_0 is Ok && next->Done_0->Ok_0.exact_window_focused ==> saw(
            task->requested,
            reply,
        ),
        next is Look ==> (next->last is Some ==> next->last->0.window_id
            != next->requested.window_id),
{
}

/// Looking for the focus ends by its deadline: no pause reaches past it, and a look at the
/// deadline is the last.
pub proof fn looking_ends_by_the_deadline(
    target: WindowTarget,
    task: FocusTask,
    reply: FocusReply,
    now: u64,
    deadline: u64,
    next: FocusTask,
)
    requires
        task is Look,
        focusing_follows(target, task, FocusReport::Looked { reply, now, deadline }, next),
    ensures
        now >= deadline ==> next is Done,
        next is Look ==> next->at is Some && now < next->at->0 <= deadline,
{
}

/// Whether a selector is left out: it is not there, or nothing but whitespace is.
pub open spec fn left_out(selector: Option<String>) -> bool {
    selector is Some ==> forall|i: int|
        0 <= i < selector->0@.len() ==> is_white(#[trigger] selector->0@[i])
}

/// Whether a name is there and is the wanted one, read without the whitespace around it,
/// but for the case of ASCII letters.
pub open spec fn goes_by(name: Option<String>, wanted: Seq<char>) -> bool {
    name is Some && lower(name->0@) == lower(trim(wanted))
}

/// Whether no terminal selector is there.
pub open spec fn no_terminal_selector(target: WindowTarget) -> bool {
    &&& target.terminal_pid is None
    &&& left_out(target.tty)
    &&& left_out(target.terminal_command)
    &&& left_out(target.terminal_cwd)
}

pub(crate) proof fn left_out_is_not_given(selector: Option<String>)
    ensures
        left_out(selector) <==> given(selector) is None,
        left_out(selector) <==> !is_filled(text_of(selector)),
        !left_out(selector) ==> given(selector) == Some(trim(selector->0@)),
{
    if selector is Some {
        blank_is_all_white(selector->0@);
    }
}

pub(crate) proof fn target_selectors(target: WindowTarget)
    ensures
        no_terminal_selector(target) <==> !target.names_terminal(),
        left_out(target.app_id) <==> given(target.app_id) is None,
        left_out(target.wm_class) <==> given(target.wm_class) is None,
        left_out(target.title) <==> given(target.title) is None,
        !left_out(target.app_id) ==> given(target.app_id) == Some(trim(target.app_id->0@)),
        !left_out(target.wm_class) ==> given(target.wm_class) == Some(trim(target.wm_class->0@)),
        !left_out(target.title) ==> given(target.title) == Some(trim(target.title->0@)),
        !left_out(target.app_id) || !left_out(target.wm_class) || !left_out(target.title)
            || !no_terminal_selector(target) || target.pid is Some ==> target.names_window(),
{
    left_out_is_not_given(target.tty);
    left_out_is_not_given(target.terminal_command);
    left_out_is_not_given(target.terminal_cwd);
    left_out_is_not_given(target.app_id);
    left_out_is_not_given(target.wm_class);
    left_out_is_not_given(target.title);
}

/// A wm_class, where no id, terminal, process or app_id is given, names the window whose
/// wm_class it is, and only where no other window has it; whatever titles and app_ids say.
pub proof fn a_wm_class_names_the_one_window_of_it(
    windows: Seq<WindowInfo>,
    target: WindowTarget,
    k: int,
)
    requires
        target.window_id is None,
        no_terminal_selector(target),
        target.pid is None,
        left_out(target.app_id),
        !left_out(target.wm_class),
    ensures
        resolved(windows, target) == Ok::<int, Seq<char>>(k) <==> 0 <= k < windows.len() && goes_by(
            windows[k].wm_class,
            target.wm_class->0@,
        ) && forall|j: int|
            0 <= j < windows.len() && j != k ==> !goes_by(
                (#[trigger] windows[j]).wm_class,
                target.wm_class->0@,
            ),
{
    target_selectors(target);
    a_selector_resolves_only_a_lone_match(windows, target, k);
    let picks = deciding(windows, target);
    assert forall|j: int| 0 <= j < windows.len() implies picks(#[trigger] windows[j]) == goes_by(
        windows[j].wm_class,
        target.wm_class->0@,
    ) by {}
}

/// An app_id, where no id, terminal or process is given, names the window whose app_id it
/// is, and only where no other window has it.
pub proof fn an_app_id_names_the_one_window_of_it(
    windows: Seq<WindowInfo>,
    target: WindowTarget,
    k: int,
)
    requires
        target.window_id is None,
        no_terminal_selector(target),
        target.pid is None,
        !left_out(target.app_id),
    ensures
        resolved(windows, target) == Ok::<int, Seq<char>>(k) <==> 0 <= k < windows.len() && goes_by(
            windows[k].app_id,
            target.app_id->0@,
        ) && forall|j: int|
            0 <= j < windows.len() && j != k ==> !goes_by(
                (#[trigger] windows[j]).app_id,
                target.app_id->0@,
            ),
{
    target_selectors(target);
    a_selector_resolves_only_a_lone_match(windows, target, k);
    let picks = deciding(windows, target);
    assert forall|j: int| 0 <= j < windows.len() implies picks(#[trigger] windows[j]) == goes_by(
        windows[j].app_id,
        target.app_id->0@,
    ) by {}
}

/// A pid, where no id or terminal is given, names the window of that process, and only
/// where the process has no other; a window whose process is unknown is not it.
pub proof fn a_pid_names_the_one_window_of_it(
    windows: Seq<WindowInfo>,
    target: WindowTarget,
    k: int,
)
    requires
        target.window_id is None,
        no_terminal_selector(target),
        target.pid is Some,
    ensures
        resolved(windows, target) == Ok::<int, Seq<char>>(k) <==> 0 <= k < windows.len()
            && windows[k].pid == Some(target.pid->0) && forall|j: int|
            0 <= j < windows.len() && j != k ==> (#[trigger] windows[j]).pid != Some(target.pid->0),
{
    target_selectors(target);
    a_selector_resolves_only_a_lone_match(windows, target, k);
    let picks = deciding(windows, target);
    assert forall|j: int| 0 <= j < windows.len() implies picks(#[trigger] windows[j]) == (
    windows[j].pid == Some(target.pid->0)) by {}
}

/// Whether the window at a position has a title, both read without the whitespace around
/// them.
pub open spec fn bears(windows: Seq<WindowInfo>, j: int, title: Seq<char>) -> bool {
    0 <= j < windows.len() && windows[j].title is Some && trim(windows[j].title->0@) == trim(title)
}

/// Whether the window at a position has a title but for the case of ASCII letters.
pub open spec fn bears_but_for_case(windows: Seq<WindowInfo>, j: int, title: Seq<char>) -> bool {
    0 <= j < windows.len() && windows[j].title is Some && lower(trim(windows[j].title->0@))
        == lower(trim(title))
}

/// Whether a title stands somewhere in that of the window at a position, but for the case
/// of ASCII letters.
pub open spec fn bears_among_others(windows: Seq<WindowInfo>, j: int, title: Seq<char>) -> bool {
    0 <= j < windows.len() && windows[j].title is Some && exists|a: Seq<char>, b: Seq<char>|
        lower(windows[j].title->0@) == #[trigger] (a + lower(trim(title)) + b)
}

/// A title alone names the one window that has it. Where none has it, letter case is let
/// go; and where still none has it, it is looked for inside the titles. A step that finds
/// several windows refuses.
pub proof fn a_title_is_matched_as_closely_as_any_window_allows(
    windows: Seq<WindowInfo>,
    target: WindowTarget,
    k: int,
)
    requires
        target.window_id is None,
        no_terminal_selector(target),
        target.pid is None,
        left_out(target.app_id),
        left_out(target.wm_class),
        !left_out(target.title),
    ensures
        ({
            let title = target.title->0@;
            let names_k = resolved(windows, target) == Ok::<int, Seq<char>>(k);
            let exact = exists|j: int| #[trigger] bears(windows, j, title);
            let but_for_case = exists|j: int| #[trigger] bears_but_for_case(windows, j, title);
            &&& exact ==> (names_k <==> bears(windows, k, title) && forall|j: int|
                j != k ==> !#[trigger] bears(windows, j, title))
            &&& !exact && but_for_case ==> (names_k <==> bears_but_for_case(windows, k, title)
                && forall|j: int| j != k ==> !#[trigger] bears_but_for_case(windows, j, title))
            &&& !exact && !but_for_case ==> (names_k <==> bears_among_others(windows, k, title)
                && forall|j: int| j != k ==> !#[trigger] bears_among_others(windows, j, title))
        }),
{
    target_selectors(target);
    a_selector_resolves_only_a_lone_match(windows, target, k);
    let title = target.title->0@;
    let wanted = trim(title);
    let exact = matching(windows, titled(wanted));
    let but_for_case = matching(windows, titled_ignoring_case(wanted));
    matching_is_exact(windows, titled(wanted));
    matching_is_exact(windows, titled_ignoring_case(wanted));
    assert((exists|j: int| #[trigger] bears(windows, j, title)) <==> exact.len() > 0) by {
        if exact.len() > 0 {
            assert(exact.contains(exact[0]));
            assert(bears(windows, exact[0], title));
        }
        if exists|j: int| #[trigger] bears(windows, j, title) {
            assert(exact.contains(choose|j: int| #[trigger] bears(windows, j, title)));
        }
    }
    assert((exists|j: int| #[trigger] bears_but_for_case(windows, j, title))
        <==> but_for_case.len() > 0) by {
        if but_for_case.len() > 0 {
            assert(but_for_case.contains(but_for_case[0]));
            assert(bears_but_for_case(windows, but_for_case[0], title));
        }
        if exists|j: int| #[trigger] bears_but_for_case(windows, j, title) {
            assert(but_for_case.contains(
                choose|j: int| #[trigger] bears_but_for_case(windows, j, title),
            ));
        }
    }
    let picks = deciding(windows, target);
    assert forall|j: int| #[trigger] bears_among_others(windows, j, title) implies 0 <= j
        < windows.len() && title_contains(wanted)(windows[j]) by {
        containing_is_standing_between(lower(windows[j].title->0@), lower(wanted));
    }
    assert forall|j: int|
        0 <= j < windows.len() && #[trigger] title_contains(wanted)(
            windows[j],
        ) implies bears_among_others(windows, j, title) by {
        containing_is_standing_between(lower(windows[j].title->0@), lower(wanted));
    }
    assert forall|j: int|
        0 <= j < windows.len() && #[trigger] bears(windows, j, title) implies titled(wanted)(
        windows[j],
    ) by {}
    assert forall|j: int|
        0 <= j < windows.len() && #[trigger] titled(wanted)(windows[j]) implies bears(
        windows,
        j,
        title,
    ) by {}
    assert forall|j: int|
        0 <= j < windows.len() && #[trigger] bears_but_for_case(
            windows,
            j,
            title,
        ) implies titled_ignoring_case(wanted)(windows[j]) by {}
    assert forall|j: int|
        0 <= j < windows.len() && #[trigger] titled_ignoring_case(wanted)(
            windows[j],
        ) implies bears_but_for_case(windows, j, title) by {}
}

/// A terminal selector names only a window known to be a terminal. Its tty is the given
/// one or ends in it, and of the processes it runs, the root or the active one, one has the
/// given pid, one holds the given command in its name or line, and one runs in a directory
/// that is the given one or ends in it.
pub proof fn a_terminal_selector_names_a_terminal_that_meets_it(
    windows: Seq<WindowInfo>,
    target: WindowTarget,
    k: int,
)
    requires
        target.window_id is None,
        !no_terminal_selector(target),
        resolved(windows, target) == Ok::<int, Seq<char>>(k),
    ensures
        0 <= k < windows.len(),
        windows[k].terminal is Some,
        ({
            let terminal = windows[k].terminal->0;
            let root = terminal.root_process;
            let active = terminal.active_process;
            &&& !left_out(target.tty) ==> terminal.tty@ == trim(target.tty->0@) || terminal.tty@
                == "/dev/"@ + trim(target.tty->0@) || terminal.tty@ == "/dev/pts/"@ + trim(
                target.tty->0@,
            )
            &&& target.terminal_pid is Some ==> Some(root.pid) == target.terminal_pid || (
            active is Some && Some(active->0.pid) == target.terminal_pid)
            &&& !left_out(target.terminal_command) ==> {
                let command = lower(trim(target.terminal_command->0@));
                ||| contains(lower(root.command_name@), command)
                ||| contains(lower(root.command_line@), command)
                ||| active is Some && contains(lower(active->0.command_name@), command)
                ||| active is Some && contains(lower(active->0.command_line@), command)
            }
            &&& !left_out(target.terminal_cwd) ==> {
                let cwd = trim(target.terminal_cwd->0@);
                ||| root.cwd is Some && is_directory(root.cwd->0@, cwd)
                ||| active is Some && active->0.cwd is Some && is_directory(active->0.cwd->0@, cwd)
            }
        }),
        target.pid is Some ==> windows[k].pid == target.pid,
        !left_out(target.app_id) ==> goes_by(windows[k].app_id, target.app_id->0@),
        !left_out(target.wm_class) ==> goes_by(windows[k].wm_class, target.wm_class->0@),
        !left_out(target.title) ==> windows[k].title is Some && contains(
            lower(windows[k].title->0@),
            lower(trim(target.title->0@)),
        ),
{
    target_selectors(target);
    left_out_is_not_given(target.tty);
    left_out_is_not_given(target.terminal_command);
    left_out_is_not_given(target.terminal_cwd);
    a_selector_resolves_only_a_lone_match(windows, target, k);
    assert(deciding(windows, target)(windows[k]));
}

/// The one terminal of a process is named by that process's pid, be it the root process or
/// the active one, whatever other windows there are.
pub proof fn a_terminal_pid_names_the_one_terminal_that_runs_it(
    windows: Seq<WindowInfo>,
    target: WindowTarget,
    k: int,
)
    requires
        target.window_id is None,
        target.terminal_pid is Some,
        left_out(target.tty),
        left_out(target.terminal_command),
        left_out(target.terminal_cwd),
        target.pid is None,
        left_out(target.app_id),
        left_out(target.wm_class),
        left_out(target.title),
    ensures
        ({
            let runs = |j: int|
                0 <= j < windows.len() && windows[j].terminal is Some && (
                windows[j].terminal->0.root_process.pid == target.terminal_pid->0 || (
                windows[j].terminal->0.active_process is Some
                    && windows[j].terminal->0.active_process->0.pid == target.terminal_pid->0));
            resolved(windows, target) == Ok::<int, Seq<char>>(k) <==> runs(k) && forall|j: int|
                j != k ==> !#[trigger] runs(j)
        }),
{
    target_selectors(target);
    left_out_is_not_given(target.tty);
    left_out_is_not_given(target.terminal_command);
    left_out_is_not_given(target.terminal_cwd);
    let runs = |j: int|
        0 <= j < windows.len() && windows[j].terminal is Some && (
        windows[j].terminal->0.root_process.pid == target.terminal_pid->0 || (
        windows[j].terminal->0.active_process is Some
            && windows[j].terminal->0.active_process->0.pid == target.terminal_pid->0));
    a_selector_resolves_only_a_lone_match(windows, target, k);
    let picks = deciding(windows, target);
    assert forall|j: int| 0 <= j < windows.len() implies #[trigger] runs(j) == picks(
        windows[j],
    ) by {}
    if runs(k) && (forall|j: int| j != k ==> !#[trigger] runs(j)) {
        assert forall|j: int| 0 <= j < windows.len() && #[trigger] picks(windows[j]) implies j
            == k by {
            assert(runs(j));
        }
    }
}

/// A tty names the one terminal on it, whether given in full or without `/dev/` or
/// `/dev/pts/`.
pub proof fn a_tty_names_the_one_terminal_on_it(
    windows: Seq<WindowInfo>,
    target: WindowTarget,
    k: int,
)
    requires
        target.window_id is None,
        target.terminal_pid is None,
        !left_out(target.tty),
        left_out(target.terminal_command),
        left_out(target.terminal_cwd),
        target.pid is None,
        left_out(target.app_id),
        left_out(target.wm_class),
        left_out(target.title),
    ensures
        ({
            let tty = trim(target.tty->0@);
            let is_on = |j: int|
                0 <= j < windows.len() && windows[j].terminal is Some && (
                windows[j].terminal->0.tty@ == tty || windows[j].terminal->0.tty@ == "/dev/"@ + tty
                    || windows[j].terminal->0.tty@ == "/dev/pts/"@ + tty);
            resolved(windows, target) == Ok::<int, Seq<char>>(k) <==> is_on(k) && forall|j: int|
                j != k ==> !#[trigger] is_on(j)
        }),
{
    target_selectors(target);
    left_out_is_not_given(target.tty);
    left_out_is_not_given(target.terminal_command);
    left_out_is_not_given(target.terminal_cwd);
    let tty = trim(target.tty->0@);
    let is_on = |j: int|
        0 <= j < windows.len() && windows[j].terminal is Some && (windows[j].terminal->0.tty@ == tty
            || windows[j].terminal->0.tty@ == "/dev/"@ + tty || windows[j].terminal->0.tty@
            == "/dev/pts/"@ + tty);
    a_selector_resolves_only_a_lone_match(windows, target, k);
    let picks = deciding(windows, target);
    assert forall|j: int| 0 <= j < windows.len() implies #[trigger] is_on(j) == picks(
        windows[j],
    ) by {}
    if is_on(k) && (forall|j: int| j != k ==> !#[trigger] is_on(j)) {
        assert forall|j: int| 0 <= j < windows.len() && #[trigger] picks(windows[j]) implies j
            == k by {
            assert(is_on(j));
        }
    }
}

/// Slashes at the end of a directory's path do not count, and nothing else is cut off.
pub proof fn only_slashes_at_the_end_are_cut(path: Seq<char>)
    ensures
        exists|n: int|
            0 <= n <= path.len() && without_slashes(path) == #[trigger] path.take(n) && forall|
                i: int,
            |
                n <= i < path.len() ==> #[trigger] path[i] == '/',
        without_slashes(path).len() > 0 ==> without_slashes(path).last() != '/',
    decreases path.len(),
{
    if path.len() > 0 && path.last() == '/' {
        let rest = path.drop_last();
        only_slashes_at_the_end_are_cut(rest);
        let n = choose|n: int|
            0 <= n <= rest.len() && without_slashes(rest) == #[trigger] rest.take(n) && forall|
                i: int,
            |
                n <= i < rest.len() ==> #[trigger] rest[i] == '/';
        assert(rest.take(n) =~= path.take(n));
        assert forall|i: int| n <= i < path.len() implies #[trigger] path[i] == '/' by {
            if i < rest.len() {
                assert(rest[i] == path[i]);
            }
        }
    } else {
        assert(path.take(path.len() as int) =~= path);
    }
}

/// A directory is the given one where the paths are equal but for slashes at their end, or
/// where the given one does not start at the root and the other ends in a slash and it.
pub proof fn a_directory_is_named_by_its_last_components(actual: Seq<char>, wanted: Seq<char>)
    ensures
        ({
            let a = without_slashes(actual);
            let w = without_slashes(wanted);
            &&& is_directory(actual, actual)
            &&& w.len() > 0 && w[0] == '/' ==> (is_directory(actual, wanted) <==> a == w)
            &&& w.len() > 0 && w[0] != '/' ==> (is_directory(actual, wanted) <==> a == w || exists|
                parent: Seq<char>,
            | a == #[trigger] (parent + "/"@ + w))
        }),
{
    reveal_strlit("/");
    let a = without_slashes(actual);
    let w = without_slashes(wanted);
    if w.len() > 0 {
        assert(starts_with(w, "/"@) <==> w[0] == '/') by {
            let slash = w.subrange(0, 1);
            assert(slash[0] == w[0]);
            if w[0] == '/' {
                assert(slash =~= "/"@);
            }
        }
        let end = "/"@ + w;
        if ends_with(a, end) {
            let parent = a.take(a.len() - end.len());
            assert(a =~= parent + end);
            assert(parent + end =~= parent + "/"@ + w);
        }
        if exists|parent: Seq<char>| a == #[trigger] (parent + "/"@ + w) {
            let parent = choose|parent: Seq<char>| a == #[trigger] (parent + "/"@ + w);
            assert(a.subrange(a.len() - end.len(), a.len() as int) =~= end);
        }
    }
}

proof fn steps_fit(n: int, unit: int)
    requires
        unit >= 1,
    ensures
        step_at(n, unit) >= unit,
        n < step_at(n, unit) * 0x20_0000_0000_0000,
        step_at(n, unit) > unit ==> n >= step_at(n, unit) * 0x10_0000_0000_0000,
    decreases n - unit,
{
    if n >= unit * 0x20_0000_0000_0000 {
        steps_fit(n, 2 * unit);
    }
}

/// A trip through a double moves a whole number by no more than half the step between the
/// numbers of its size, and not at all below two to the 53rd.
pub proof fn a_double_is_the_nearest_one(n: u64)
    ensures
        2 * (as_double(n as int) - n) <= step_at(n as int, 1),
        2 * (n - as_double(n as int)) <= step_at(n as int, 1),
        as_double(n as int) % step_at(n as int, 1) == 0,
        n > 0x1f_ffff_ffff_ffff ==> as_double(n as int) > 0x1f_ffff_ffff_ffff,
{
    let n = n as int;
    let step = step_at(n, 1);
    steps_fit(n, 1);
    let low = n / step;
    let rest = n % step;
    assert(n == low * step + rest && 0 <= rest < step) by (nonlinear_arith)
        requires
            step >= 1,
            low == n / step,
            rest == n % step,
    ;
    assert((low + 1) * step == low * step + step) by (nonlinear_arith);
    assert((low * step) % step == 0 && ((low + 1) * step) % step == 0) by (nonlinear_arith)
        requires
            step >= 1,
    ;
    if n > 0x1f_ffff_ffff_ffff {
        assert(step > 1);
        assert(low >= 0x10_0000_0000_0000) by (nonlinear_arith)
            requires
                step >= 1,
                n >= step * 0x10_0000_0000_0000,
                low == n / step,
        ;
        assert(low * step >= 0x20_0000_0000_0000) by (nonlinear_arith)
            requires
                low >= 0x10_0000_0000_0000,
                step >= 2,
        ;
    }
}

/// An id below two to the 53rd names only a window that has that very id.
pub proof fn a_small_id_names_only_itself(windows: Seq<WindowInfo>, target: WindowTarget, k: int)
    requires
        target.window_id is Some,
        target.window_id->0 <= 0x1f_ffff_ffff_ffff,
        resolved(windows, target) == Ok::<int, Seq<char>>(k),
    ensures
        0 <= k < windows.len(),
        windows[k].window_id == target.window_id->0,
{
    let id = target.window_id->0;
    a_resolved_window_is_listed(windows, target);
    small_ids_survive_json(id);
    let exact = matching(windows, id_is(id));
    let rounded = matching(windows, rounds_to(id));
    let narrowed = matching(windows, rounds_to_and_meets(id, target));
    matching_is_exact(windows, id_is(id));
    matching_is_exact(windows, rounds_to(id));
    matching_is_exact(windows, rounds_to_and_meets(id, target));
    a_double_is_the_nearest_one(windows[k].window_id);
    if exact.len() > 0 {
        assert(exact.contains(exact[0]));
    } else if rounded.len() == 1 {
        assert(rounded.contains(rounded[0]));
    } else {
        assert(narrowed.contains(narrowed[0]));
    }
}

/// An id that no window has names the one window whose id a double cannot tell from it.
/// Of several such, the other selectors are to name one, and each that is given is met.
pub proof fn a_rounded_id_names_a_window_the_selectors_agree_on(
    windows: Seq<WindowInfo>,
    target: WindowTarget,
    k: int,
)
    requires
        target.window_id is Some,
        resolved(windows, target) == Ok::<int, Seq<char>>(k),
        forall|j: int|
            0 <= j < windows.len() ==> (#[trigger] windows[j]).window_id != target.window_id->0,
    ensures
        0 <= k < windows.len(),
        as_double(windows[k].window_id as int) == as_double(target.window_id->0 as int),
        (exists|j: int|
            0 <= j < windows.len() && j != k && same_json_number(
                (#[trigger] windows[j]).window_id,
                target.window_id->0,
            )) ==> {
            &&& target.pid is Some ==> windows[k].pid == target.pid
            &&& !left_out(target.app_id) ==> goes_by(windows[k].app_id, target.app_id->0@)
            &&& !left_out(target.wm_class) ==> goes_by(windows[k].wm_class, target.wm_class->0@)
            &&& !left_out(target.title) ==> windows[k].title is Some && contains(
                lower(windows[k].title->0@),
                lower(trim(target.title->0@)),
            )
        },
{
    target_selectors(target);
    let id = target.window_id->0;
    let exact = matching(windows, id_is(id));
    let rounded = matching(windows, rounds_to(id));
    let narrowed = matching(windows, rounds_to_and_meets(id, target));
    matching_is_exact(windows, id_is(id));
    matching_is_exact(windows, rounds_to(id));
    matching_is_exact(windows, rounds_to_and_meets(id, target));
    if exact.len() > 0 {
        assert(exact.contains(exact[0]));
    }
    if rounded.len() == 1 {
        assert(rounded.contains(k));
        if exists|j: int|
            0 <= j < windows.len() && j != k && same_json_number(
                (#[trigger] windows[j]).window_id,
                id,
            ) {
            let j = choose|j: int|
                0 <= j < windows.len() && j != k && same_json_number(
                    (#[trigger] windows[j]).window_id,
                    id,
                );
            assert(rounded.contains(j));
        }
    } else {
        assert(narrowed.contains(narrowed[0]));
    }
}

/// The focused window of a list is the first one that has the focus, and none is where
/// none has it.
pub proof fn the_first_window_with_the_focus_is_focused(windows: Seq<WindowInfo>)
    ensures
        match first_focused(windows) {
            Some(k) => 0 <= k < windows.len() && windows[k].focused && forall|j: int|
                0 <= j < k ==> !(#[trigger] windows[j]).focused,
            None => forall|j: int| 0 <= j < windows.len() ==> !(#[trigger] windows[j]).focused,
        },
    decreases windows.len(),
{
    if windows.len() > 0 {
        let rest = windows.drop_last();
        the_first_window_with_the_focus_is_focused(rest);
        assert forall|j: int| 0 <= j < rest.len() implies #[trigger] windows[j] == rest[j] by {}
    }
}

/// The window that is activated is the one the selectors name, and looking goes on for that
/// very window until the answer, which tells whether it is the one that has the focus.
pub proof fn focusing_keeps_to_the_named_window(
    target: WindowTarget,
    task: FocusTask,
    report: FocusReport,
    next: FocusTask,
)
    requires
        reports_focus(task, report),
        focusing_follows(target, task, report, next),
    ensures
        task is List && next is Activate ==> exists|k: int|
            0 <= k < report->Listed_0->Ok_0@.len() && #[trigger] report->Listed_0->Ok_0@[k]
                == next->Activate_0 && resolved(report->Listed_0->Ok_0@, target) == Ok::<
                int,
                Seq<char>,
            >(k),
        task is Activate && next is Look ==> next->requested == task->Activate_0,
        task is Look && next is Look ==> next->requested == task->requested,
        task is Look && next is Done ==> next->Done_0 is Ok && {
            let result = next->Done_0->Ok_0;
            &&& result.requested_window == task->requested
            &&& result.exact_window_focused <==> result.focused_window is Some
                && result.focused_window->0.window_id == task->requested.window_id
            &&& result.app_focused <==> result.focused_window is Some
                && result.focused_window->0.app_id is Some && task->requested.app_id is Some
                && lower(result.focused_window->0.app_id->0@) == lower(task->requested.app_id->0@)
        },
{
    if task is List && next is Activate {
        let windows = report->Listed_0->Ok_0@;
        a_resolved_window_is_listed(windows, target);
        assert(windows[resolved(windows, target)->Ok_0] == next->Activate_0);
    }
}

/// A selector that no window meets is refused as one that matched none, by its own words; and
/// one that several meet as one that matched several, with each of them named.
pub proof fn a_refusal_tells_none_from_several(
    windows: Seq<WindowInfo>,
    picks: spec_fn(WindowInfo) -> bool,
    description: Seq<char>,
)
    ensures
        (forall|j: int| 0 <= j < windows.len() ==> !picks(#[trigger] windows[j])) ==> only_match(
            windows,
            picks,
            description,
        ) == Err::<int, Seq<char>>("No window matched "@ + description + "."@),
        (exists|i: int, j: int|
            0 <= i < j < windows.len() && picks(#[trigger] windows[i]) && picks(
                #[trigger] windows[j],
            )) ==> only_match(windows, picks, description) == Err::<int, Seq<char>>(
            description + " matched multiple windows ("@ + join(
                matching(windows, picks).map_values(|i: int| window_words(windows[i])),
                ", "@,
            ) + "); add window_id or another selector to disambiguate."@,
        ),
{
    let picked = matching(windows, picks);
    matching_is_exact(windows, picks);
    if forall|j: int| 0 <= j < windows.len() ==> !picks(#[trigger] windows[j]) {
        if picked.len() > 0 {
            assert(picked.contains(picked[0]));
        }
    }
    if exists|i: int, j: int|
        0 <= i < j < windows.len() && picks(#[trigger] windows[i]) && picks(#[trigger] windows[j]) {
        let (i, j) = choose|i: int, j: int|
            0 <= i < j < windows.len() && picks(#[trigger] windows[i]) && picks(
                #[trigger] windows[j],
            );
        assert(picked.contains(i) && picked.contains(j));
        if picked.len() == 1 {
            assert(picked[0] == i && picked[0] == j);
        }
    }
}

} // verus!
