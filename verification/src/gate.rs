//! What stands between a caller and the keyboard and pointer: which applications may get
//! input, and whether the right window has the focus.

use vstd::prelude::*;
use vstd::string::StringExecFns;
use crate::keys::{filled_parts, filled_parts_of, keys_are_sent_in_the_order_given};
use crate::numerals::{decimal, decimal_of};
use crate::text::{
    borrowed, cat, contains, contains_normal, debug_of, debug_text, is_blank, join, joined, normal,
    normalized_contains, pieces_meet_at_a_separator, split, split_at_any, text_of, texts, trim,
    unseparated_text_is_one_piece,
};
use crate::windowing::target::{
    left_out, left_out_is_not_given, no_terminal_selector, permission_hint, resolve_window_target,
    resolved, target_selectors, window_permission_hint,
};
use crate::windowing::types::{WindowFocusResult, WindowInfo, WindowTarget};

verus! {

/// The variable that names the applications input may go to.
pub const ALLOWED_APPS_ENV: &'static str = "COMPUTER_USE_HYPRLAND_ALLOWED_APPS";

/// The patterns a value lists, where it lists any.
pub open spec fn patterns_in(value: Option<Seq<char>>) -> Option<Seq<Seq<char>>> {
    match value {
        None => None,
        Some(value) => {
            let patterns = filled_parts(split(value, seq![',']));
            if patterns.len() == 0 {
                None
            } else {
                Some(patterns)
            }
        },
    }
}

/// The `COMPUTER_USE_HYPRLAND_ALLOWED_APPS` patterns, or `None` when the
/// variable is unset or blank (no restriction).
pub fn allowed_app_patterns(value: Option<&str>) -> (r: Option<Vec<String>>)
    ensures
        match r {
            Some(patterns) => patterns_in(crate::elements::str_of(value)) == Some(texts(patterns@)),
            None => patterns_in(crate::elements::str_of(value)) is None,
        },
{
    let value = match value {
        Some(value) => value,
        None => return None,
    };
    let seps: [char; 1] = [','];
    assert(seps@ =~= seq![',']);
    let patterns = filled_parts_of(&split_at_any(value, &seps));
    assert(texts(patterns@).len() == patterns@.len());
    if patterns.len() == 0 {
        None
    } else {
        Some(patterns)
    }
}

/// Whether one pattern allows a window: its `app_id`, `wm_class` or title contains it but
/// for spacing and letter case.
pub open spec fn pattern_allows(pattern: Seq<char>, window: WindowInfo) -> bool {
    contains_normal(text_of(window.app_id), pattern) || contains_normal(
        text_of(window.wm_class),
        pattern,
    ) || contains_normal(text_of(window.title), pattern)
}

/// Whether any pattern allows a window.
pub open spec fn is_allowed(window: WindowInfo, patterns: Seq<Seq<char>>) -> bool {
    exists|i: int| 0 <= i < patterns.len() && pattern_allows(#[trigger] patterns[i], window)
}

/// A window is allowed when any pattern is a case-insensitive substring of
/// its `app_id`, `wm_class`, or title.
pub fn window_matches_allowlist(window: &WindowInfo, patterns: &[String]) -> (r: bool)
    ensures
        r == is_allowed(*window, texts(patterns@)),
{
    let ghost all = texts(patterns@);
    for i in 0..patterns.len()
        invariant
            all == texts(patterns@),
            forall|k: int| 0 <= k < i ==> !pattern_allows(#[trigger] all[k], *window),
    {
        assert(all[i as int] == patterns@[i as int]@);
        if normalized_contains(borrowed(&window.app_id), &patterns[i]) || normalized_contains(
            borrowed(&window.wm_class),
            &patterns[i],
        ) || normalized_contains(borrowed(&window.title), &patterns[i]) {
            assert(pattern_allows(all[i as int], *window));
            return true;
        }
    }
    false
}

/// What has to be known before input may go out.
#[derive(Debug)]
pub enum GateQuestion {
    /// Nothing: no application is excluded.
    Nothing,
    /// Which window this target is, to hold against these patterns.
    Target(Vec<String>, WindowTarget),
    /// Which window holds the focus, to hold against these patterns.
    Focused(Vec<String>),
}

/// What has to be known before input may go out to a target, or to whatever is focused.
pub fn gate_question(allowed: Option<&str>, target: Option<WindowTarget>) -> (r: GateQuestion)
    ensures
        match r {
            GateQuestion::Nothing => patterns_in(crate::elements::str_of(allowed)) is None,
            GateQuestion::Target(patterns, asked) => patterns_in(
                crate::elements::str_of(allowed),
            ) == Some(texts(patterns@)) && target == Some(asked) && asked.names_window(),
            GateQuestion::Focused(patterns) => patterns_in(crate::elements::str_of(allowed))
                == Some(texts(patterns@)) && !(target is Some && target->0.names_window()),
        },
{
    match allowed_app_patterns(allowed) {
        None => GateQuestion::Nothing,
        Some(patterns) => match target {
            Some(target) => if target.has_target() {
                GateQuestion::Target(patterns, target)
            } else {
                GateQuestion::Focused(patterns)
            },
            None => GateQuestion::Focused(patterns),
        },
    }
}

/// The text of one that may be missing, or nothing.
pub open spec fn text_or_empty(o: Option<String>) -> Seq<char> {
    match o {
        Some(text) => text@,
        None => ""@,
    }
}

fn debug_or_empty(o: &Option<String>) -> (r: String)
    ensures
        r@ == debug_text(text_or_empty(*o)),
{
    match o {
        Some(text) => debug_of(text),
        None => debug_of(""),
    }
}

/// Why a window gets no input.
pub open spec fn refusal(action: Seq<char>, window: WindowInfo, patterns: Seq<Seq<char>>) -> Seq<char> {
    "Refused "@ + action + ": window_id "@ + decimal(window.window_id as int) + " (app_id "@
        + debug_text(text_or_empty(window.app_id)) + ", wm_class "@ + debug_text(
        text_or_empty(window.wm_class),
    ) + ", title "@ + debug_text(text_or_empty(window.title)) + ") matches none of the "@
        + ALLOWED_APPS_ENV@ + " patterns ["@ + join(patterns, ", "@) + "]."@
}

/// Whether a window may get input.
pub fn gate_verdict(action: &str, patterns: &[String], window: &WindowInfo) -> (r: Result<(), String>)
    ensures
        match r {
            Ok(_) => is_allowed(*window, texts(patterns@)),
            Err(message) => !is_allowed(*window, texts(patterns@)) && message@ == refusal(
                action@,
                *window,
                texts(patterns@),
            ),
        },
{
    if window_matches_allowlist(window, patterns) {
        return Ok(());
    }
    let mut message = cat("Refused ", action);
    message.append(": window_id ");
    message.append(&decimal_of(window.window_id));
    message.append(" (app_id ");
    message.append(&debug_or_empty(&window.app_id));
    message.append(", wm_class ");
    message.append(&debug_or_empty(&window.wm_class));
    message.append(", title ");
    message.append(&debug_or_empty(&window.title));
    message.append(") matches none of the ");
    message.append(ALLOWED_APPS_ENV);
    message.append(" patterns [");
    message.append(&joined(patterns, ", "));
    message.append("].");
    Err(message)
}

/// The verdict on a target, given the window list or why there is none.
pub open spec fn target_verdict(
    action: Seq<char>,
    patterns: Seq<Seq<char>>,
    target: WindowTarget,
    listed: Result<Seq<WindowInfo>, Seq<char>>,
) -> Result<(), Seq<char>> {
    match listed {
        Err(error) => Err(
            "Refused "@ + action + ": "@ + ALLOWED_APPS_ENV@
                + " is set but the window list is unavailable: "@ + error,
        ),
        Ok(windows) => match resolved(windows, target) {
            Err(error) => Err("Refused "@ + action + ": "@ + error),
            Ok(k) => if is_allowed(windows[k], patterns) {
                Ok(())
            } else {
                Err(refusal(action, windows[k], patterns))
            },
        },
    }
}

/// A window list as the mathematical value it is.
pub open spec fn listing(listed: Result<Vec<WindowInfo>, String>) -> Result<
    Seq<WindowInfo>,
    Seq<char>,
> {
    match listed {
        Ok(windows) => Ok(windows@),
        Err(error) => Err(error@),
    }
}

/// Whether an answer is the verdict that was due.
pub open spec fn is_verdict(r: Result<(), String>, due: Result<(), Seq<char>>) -> bool {
    match r {
        Ok(_) => due is Ok,
        Err(message) => due == Err::<(), Seq<char>>(message@),
    }
}

/// Whether the window a target names may get input.
pub fn gate_target(
    action: &str,
    patterns: &[String],
    target: &WindowTarget,
    listed: &Result<Vec<WindowInfo>, String>,
) -> (r: Result<(), String>)
    ensures
        is_verdict(r, target_verdict(action@, texts(patterns@), *target, listing(*listed))),
{
    match listed {
        Err(error) => {
            let mut message = cat("Refused ", action);
            message.append(": ");
            message.append(ALLOWED_APPS_ENV);
            message.append(" is set but the window list is unavailable: ");
            message.append(error);
            Err(message)
        },
        Ok(windows) => match resolve_window_target(windows, target) {
            Err(error) => {
                let mut message = cat("Refused ", action);
                message.append(": ");
                message.append(&error);
                Err(message)
            },
            Ok(window) => gate_verdict(action, patterns, window),
        },
    }
}

/// The verdict on the focused window, or on there being none.
pub open spec fn focused_verdict(
    action: Seq<char>,
    patterns: Seq<Seq<char>>,
    focused: Result<Option<WindowInfo>, String>,
) -> Result<(), Seq<char>> {
    match focused {
        Err(error) => Err(
            "Refused "@ + action + ": "@ + ALLOWED_APPS_ENV@
                + " is set but the focused window is unknown: "@ + error@,
        ),
        Ok(None) => Err(
            "Refused "@ + action + ": "@ + ALLOWED_APPS_ENV@
                + " is set and no window holds focus."@,
        ),
        Ok(Some(window)) => if is_allowed(window, patterns) {
            Ok(())
        } else {
            Err(refusal(action, window, patterns))
        },
    }
}

/// Whether the focused window may get input.
pub fn gate_focused(
    action: &str,
    patterns: &[String],
    focused: &Result<Option<WindowInfo>, String>,
) -> (r: Result<(), String>)
    ensures
        is_verdict(r, focused_verdict(action@, texts(patterns@), *focused)),
{
    match focused {
        Err(error) => {
            let mut message = cat("Refused ", action);
            message.append(": ");
            message.append(ALLOWED_APPS_ENV);
            message.append(" is set but the focused window is unknown: ");
            message.append(error);
            Err(message)
        },
        Ok(None) => {
            let mut message = cat("Refused ", action);
            message.append(": ");
            message.append(ALLOWED_APPS_ENV);
            message.append(" is set and no window holds focus.");
            Err(message)
        },
        Ok(Some(window)) => gate_verdict(action, patterns, window),
    }
}

/// While the variable lists patterns, input goes to no window that none of them allows:
/// not to a target that is another window, that is ambiguous or that is not there, and not
/// to a focused window that is another or unknown.
pub proof fn only_allowed_windows_get_input(
    action: Seq<char>,
    patterns: Seq<Seq<char>>,
    target: WindowTarget,
    listed: Result<Seq<WindowInfo>, Seq<char>>,
    focused: Result<Option<WindowInfo>, String>,
)
    ensures
        target_verdict(action, patterns, target, listed) is Ok ==> listed is Ok && resolved(
            listed->Ok_0,
            target,
        ) is Ok && is_allowed(listed->Ok_0[resolved(listed->Ok_0, target)->Ok_0], patterns),
        focused_verdict(action, patterns, focused) is Ok ==> focused is Ok && focused->Ok_0 is Some
            && is_allowed(focused->Ok_0->0, patterns),
{
}

/// Whether the focus that came about is the one a target asks for.
pub open spec fn satisfies(focus: WindowFocusResult, target: WindowTarget) -> bool {
    if target.names_one_window() {
        focus.exact_window_focused
    } else {
        focus.exact_window_focused || focus.app_focused
    }
}

/// Whether the focus that came about is the one a target asks for.
pub fn focus_satisfies_target(focus: &WindowFocusResult, target: &WindowTarget) -> (r: bool)
    ensures
        r == satisfies(*focus, *target),
{
    if target.requires_exact_focus() {
        focus.exact_window_focused
    } else {
        focus.exact_window_focused || focus.app_focused
    }
}

/// An optional number as `{:?}` shows it.
pub open spec fn debug_number(n: Option<u64>) -> Seq<char> {
    match n {
        Some(n) => "Some("@ + decimal(n as int) + ")"@,
        None => "None"@,
    }
}

fn debug_number_of(n: Option<u64>) -> (r: String)
    ensures
        r@ == debug_number(n),
{
    match n {
        Some(n) => {
            let mut shown = cat("Some(", &decimal_of(n));
            shown.append(")");
            shown
        },
        None => "None".to_owned(),
    }
}

/// Why no input went out, where the focus did not come about.
pub open spec fn focus_refusal(
    target: WindowTarget,
    focus: Result<WindowFocusResult, String>,
) -> Option<Seq<char>> {
    match focus {
        Err(error) => Some(
            match permission_hint(error@) {
                Some(hint) =>
                "Did not send input because the target window could not be focused: "@ + error@
                    + ". "@ + hint,
                None => "Did not send input because the target window could not be focused: "@
                    + error@,
            },
        ),
        Ok(focus) => if satisfies(focus, target) {
            None
        } else {
            Some(
                "Did not send input because "@ + (if target.names_one_window() {
                    "exact target-window focus"@
                } else {
                    "app-level focus"@
                })
                    + " verification failed after activating the target window. Focus result: requested window_id "@
                    + decimal(focus.requested_window.window_id as int) + ", focused window_id "@
                    + debug_number(
                    match focus.focused_window {
                        Some(window) => Some(window.window_id),
                        None => None,
                    },
                ) + "."@,
            )
        },
    }
}

/// Whether input may go out to a target, by the focus that came about: never without the
/// focus it asks for.
pub fn focus_target_for_input(
    target: &WindowTarget,
    focus: Result<WindowFocusResult, String>,
) -> (r: Result<WindowFocusResult, String>)
    ensures
        match focus_refusal(*target, focus) {
            None => focus is Ok && r == Ok::<WindowFocusResult, String>(focus->Ok_0),
            Some(message) => r is Err && r->Err_0@ == message,
        },
{
    match focus {
        Err(error) => {
            let mut message = cat(
                "Did not send input because the target window could not be focused: ",
                &error,
            );
            match window_permission_hint(&error) {
                Some(hint) => {
                    message.append(". ");
                    message.append(&hint);
                },
                None => {},
            }
            Err(message)
        },
        Ok(focus) => {
            if focus_satisfies_target(&focus, target) {
                return Ok(focus);
            }
            let required = if target.requires_exact_focus() {
                "exact target-window focus"
            } else {
                "app-level focus"
            };
            let mut message = cat("Did not send input because ", required);
            message.append(
                " verification failed after activating the target window. Focus result: requested window_id ",
            );
            message.append(&decimal_of(focus.requested_window.window_id));
            message.append(", focused window_id ");
            message.append(
                &debug_number_of(
                    match &focus.focused_window {
                        Some(window) => Some(window.window_id),
                        None => None,
                    },
                ),
            );
            message.append(".");
            Err(message)
        },
    }
}

/// Input goes to a window exactly where some pattern that has words stands in its app_id, its
/// wm_class or its title, but for spacing and letter case.
pub proof fn a_window_is_allowed_by_what_it_is_called(window: WindowInfo, patterns: Seq<Seq<char>>)
    ensures
        is_allowed(window, patterns) <==> exists|i: int|
            0 <= i < patterns.len() && normal(#[trigger] patterns[i]).len() > 0 && {
                ||| window.app_id is Some && contains(
                    normal(window.app_id->0@),
                    normal(patterns[i]),
                )
                ||| window.wm_class is Some && contains(
                    normal(window.wm_class->0@),
                    normal(patterns[i]),
                )
                ||| window.title is Some && contains(normal(window.title->0@), normal(patterns[i]))
            },
{
}

/// While patterns are set, a window none of whose names holds one of them gets no input, as
/// the target of it or as the window that has the focus; one that is allowed gets it.
pub proof fn a_window_that_is_not_allowed_gets_no_input(
    action: Seq<char>,
    patterns: Seq<Seq<char>>,
    target: WindowTarget,
    windows: Seq<WindowInfo>,
    k: int,
)
    requires
        resolved(windows, target) == Ok::<int, Seq<char>>(k),
    ensures
        target_verdict(action, patterns, target, Ok(windows)) is Ok <==> is_allowed(
            windows[k],
            patterns,
        ),
        focused_verdict(action, patterns, Ok(Some(windows[k]))) is Ok <==> is_allowed(
            windows[k],
            patterns,
        ),
        focused_verdict(action, patterns, Ok(None)) is Err,
{
}

/// What cannot be told is refused: while patterns are set, input goes neither to a target
/// that resolves to no window nor anywhere while the windows or the focus cannot be read.
pub proof fn what_cannot_be_told_is_refused(
    action: Seq<char>,
    patterns: Seq<Seq<char>>,
    target: WindowTarget,
    windows: Seq<WindowInfo>,
    error: String,
)
    ensures
        target_verdict(action, patterns, target, Err(error@)) is Err,
        resolved(windows, target) is Err ==> target_verdict(action, patterns, target, Ok(windows))
            is Err,
        focused_verdict(action, patterns, Err(error)) is Err,
{
}

/// Patterns stand between commas: those of two lists with a comma between them are the
/// patterns of both, and a list whose every part is blank lists none, which restricts
/// nothing.
pub proof fn patterns_stand_between_commas(a: Seq<char>, b: Seq<char>)
    ensures
        patterns_in(None) is None,
        is_blank(a) && (forall|i: int| 0 <= i < a.len() ==> #[trigger] a[i] != ',') ==> patterns_in(
            Some(a),
        ) is None,
        !is_blank(a) && (forall|i: int| 0 <= i < a.len() ==> #[trigger] a[i] != ',')
            ==> patterns_in(Some(a)) == Some(seq![trim(a)]),
        patterns_in(Some(a)) is Some && patterns_in(Some(b)) is Some ==> patterns_in(
            Some(a.push(',') + b),
        ) == Some(patterns_in(Some(a))->0 + patterns_in(Some(b))->0),
        patterns_in(Some(a)) is None ==> patterns_in(Some(a.push(',') + b)) == patterns_in(Some(b)),
{
    let seps = seq![','];
    assert(seps[0] == ',');
    pieces_meet_at_a_separator(a, ',', b, seps);
    keys_are_sent_in_the_order_given(split(a, seps), split(b, seps), a);
    if forall|i: int| 0 <= i < a.len() ==> #[trigger] a[i] != ',' {
        unseparated_text_is_one_piece(a, seps);
    }
    if patterns_in(Some(a)) is None {
        assert(filled_parts(split(a, seps)) + filled_parts(split(b, seps)) =~= filled_parts(
            split(b, seps),
        ));
    }
}

/// Input goes out to the very window where the selectors name one window: by an id, a
/// process, a title or a terminal. Where they name only an application, a window of it will
/// do; where nothing that was asked for has the focus, none goes out.
pub proof fn input_goes_only_where_the_focus_was_asked_for(
    target: WindowTarget,
    focus: WindowFocusResult,
    error: String,
)
    ensures
        focus_refusal(target, Ok(focus)) is None <==> focus.exact_window_focused || (
        focus.app_focused && target.window_id is None && target.pid is None && left_out(
            target.title,
        ) && no_terminal_selector(target)),
        focus_refusal(target, Err(error)) is Some,
{
    left_out_is_not_given(target.title);
    target_selectors(target);
}

/// Before input goes out, what has to be known is the window a target names, where it names
/// one, and else which window has the focus; and nothing only where no pattern is set.
pub proof fn what_is_asked_is_about_the_window_named(
    allowed: Option<&str>,
    target: Option<WindowTarget>,
    question: GateQuestion,
)
    requires
        call_ensures(gate_question, (allowed, target), question),
    ensures
        question is Nothing <==> patterns_in(
            match allowed {
                Some(text) => Some(text@),
                None => None,
            },
        ) is None,
        question is Target ==> target is Some && question->Target_1 == target->0,
        question is Focused ==> target is None || !target->0.names_window(),
        allowed is None ==> question is Nothing,
{
}

/// A verdict on a window is that it is allowed or not.
pub proof fn a_verdict_is_on_what_is_allowed(
    action: &str,
    patterns: &[String],
    window: WindowInfo,
    verdict: Result<(), String>,
)
    requires
        call_ensures(gate_verdict, (action, patterns, &window), verdict),
    ensures
        verdict is Ok <==> is_allowed(window, texts(patterns@)),
{
}

} // verus!
