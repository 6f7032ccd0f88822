//! `wait_for`: the predicates, the order they are asked in, and when waiting ends.

use vstd::prelude::*;
use vstd::string::StringExecFns;
use crate::cache::{
    bounds_for, deref, follows_window, of_pids, the_only_window_of_the_processes_is_theirs,
    window_for_untargeted_tree, CachedTree, WindowContextSource,
};
use crate::elements::{
    also_showing, describe_selector, is_as_described, meeting_is_being_as_described, node_has_state,
    node_is_showing, node_matches_resolve_purpose, node_matches_selector, selector_words, serves,
    shows, AccessibilityNode, ElementResolvePurpose, ElementSelector,
};
use crate::numerals::{decimal, decimal_of};
use crate::params::{
    selects, timeout_meant, wait_for_has_predicate, wait_for_timeout, WaitForParams,
};
use crate::select::{matching, matching_is_exact, matching_items, positions};
use crate::text::{
    borrowed, cat, contains, contains_normal, debug_of, debug_text, filled, is_blank, is_filled,
    normal, normalized_contains, text_of, trim, trimmed,
};
use crate::tools::state::TreeRead;
use crate::windowing::target::{resolve_window_target, resolved};
use crate::windowing::types::{WindowInfo, WindowTarget};

verus! {

/// How long `wait_for` rests between two looks, in milliseconds.
pub const WAIT_FOR_POLL_INTERVAL_MS: u64 = 100;

/// What is said where there is nothing to wait for.
pub const NOTHING_TO_WAIT_FOR: &'static str =
    "wait_for needs at least one predicate: an element selector (role/name/text/states), window_title, or focused_window.";

/// What a look asks next.
#[derive(Debug, Clone, Copy, PartialEq, Eq, Structural)]
pub enum WaitStage {
    /// Which window is meant.
    Window,
    /// Whether its title holds a text.
    Title,
    /// Whether a window holds the focus.
    Focus,
    /// Whether an element is there.
    Element,
    /// Nothing: every predicate held.
    Satisfied,
}

impl WaitForParams {
    /// Whether an element is waited for.
    pub open spec fn awaits_element(self) -> bool {
        ||| is_filled(text_of(self.role)) || is_filled(text_of(self.name)) || is_filled(
            text_of(self.text),
        )
        ||| exists|i: int|
            0 <= i < self.states@.len() && !crate::text::is_blank(#[trigger] self.states@[i]@)
    }

    /// Whether the element is to hold the focus.
    pub open spec fn wants_focus(self) -> bool {
        self.focused == Some(true)
    }

    /// Whether an element is waited for.
    pub fn has_selector(&self) -> (r: bool)
        ensures
            r == self.awaits_element(),
    {
        let selector = self.selector();
        let nothing = selector.is_empty();
        proof {
            assert(nothing == selector.says_nothing());
            if !nothing && !is_filled(text_of(self.role)) && !is_filled(text_of(self.name))
                && !is_filled(text_of(self.text)) {
                let i = choose|i: int|
                    0 <= i < selector.states@.len() && !crate::text::is_blank(
                        #[trigger] selector.states@[i]@,
                    );
                assert(!crate::text::is_blank(self.states@[i]@));
            }
        }
        !nothing
    }
}

/// What a look asks after a stage that held: the predicates that are given, in order.
pub open spec fn stage_after(params: WaitForParams, stage: WaitStage) -> WaitStage {
    if stage is Window && is_filled(text_of(params.window_title)) {
        WaitStage::Title
    } else if (stage is Window || stage is Title) && params.focused_window is Some {
        WaitStage::Focus
    } else if (stage is Window || stage is Title || stage is Focus) && params.awaits_element() {
        WaitStage::Element
    } else {
        WaitStage::Satisfied
    }
}

/// What a look asks after a stage that held.
pub fn next_wait_stage(params: &WaitForParams, stage: WaitStage) -> (r: WaitStage)
    ensures
        r == stage_after(*params, stage),
{
    let place: u8 = match stage {
        WaitStage::Window => 0,
        WaitStage::Title => 1,
        WaitStage::Focus => 2,
        WaitStage::Element => 3,
        WaitStage::Satisfied => 4,
    };
    if place < 1 && filled(&params.window_title) {
        WaitStage::Title
    } else if place < 2 && params.focused_window.is_some() {
        WaitStage::Focus
    } else if place < 3 && params.has_selector() {
        WaitStage::Element
    } else {
        WaitStage::Satisfied
    }
}

/// The stages a look goes through where every predicate holds.
pub open spec fn stages(params: WaitForParams, stage: WaitStage, steps: nat) -> Seq<WaitStage>
    decreases steps,
{
    if steps == 0 || stage is Satisfied {
        seq![stage]
    } else {
        seq![stage] + stages(params, stage_after(params, stage), (steps - 1) as nat)
    }
}

/// A look is satisfied only after every predicate that is given was asked: it ends within
/// four steps, and each predicate's stage is among them exactly where it is given.
pub proof fn every_predicate_is_asked(params: WaitForParams)
    ensures
        stages(params, WaitStage::Window, 4).last() is Satisfied,
        stages(params, WaitStage::Window, 4).contains(WaitStage::Title) <==> is_filled(
            text_of(params.window_title),
        ),
        stages(params, WaitStage::Window, 4).contains(WaitStage::Focus)
            <==> params.focused_window is Some,
        stages(params, WaitStage::Window, 4).contains(WaitStage::Element)
            <==> params.awaits_element(),
{
    reveal_with_fuel(stages, 5);
    let all = stages(params, WaitStage::Window, 4);
    let first = stage_after(params, WaitStage::Window);
    assert(all[0] == WaitStage::Window);
    assert(all[1] == first);
    if !(first is Satisfied) {
        let second = stage_after(params, first);
        assert(all[2] == second);
        if !(second is Satisfied) {
            let third = stage_after(params, second);
            assert(all[3] == third);
            if !(third is Satisfied) {
                assert(all[4] == WaitStage::Satisfied);
            }
        }
    }
}

/// The window that is waited in, where one is named, or why it is not there.
pub open spec fn window_awaited(
    target: WindowTarget,
    listed: Result<Vec<WindowInfo>, String>,
) -> Result<Option<WindowInfo>, Seq<char>> {
    if !target.names_window() {
        Ok(None)
    } else {
        match listed {
            Err(error) => Err(error@),
            Ok(windows) => match resolved(windows@, target) {
                Ok(k) => Ok(Some(windows@[k])),
                Err(message) => Err(message),
            },
        }
    }
}

/// The window that is waited in, where one is named, or why it is not there.
pub fn wait_window(target: &WindowTarget, listed: &Result<Vec<WindowInfo>, String>) -> (r: Result<
    Option<WindowInfo>,
    String,
>)
    ensures
        match window_awaited(*target, *listed) {
            Ok(window) => r == Ok::<Option<WindowInfo>, String>(window),
            Err(message) => r is Err && r->Err_0@ == message,
        },
{
    if !target.has_target() {
        return Ok(None);
    }
    match listed {
        Err(error) => Err(error.clone()),
        Ok(windows) => match resolve_window_target(windows, target) {
            Ok(window) => Ok(Some(window.clone())),
            Err(message) => Err(message),
        },
    }
}

/// Whether a title holds a text, but for letter case and spacing.
pub open spec fn holds_title(title: Option<Seq<char>>, needle: Seq<char>) -> bool {
    title is Some && contains_normal(title, needle)
}

/// Whether a title holds a text.
pub fn title_contains(title: Option<&str>, needle: &str) -> (r: bool)
    ensures
        r == holds_title(crate::elements::str_of(title), needle@),
{
    title.is_some() && normalized_contains(title, needle)
}

/// The title of a window that may not be there.
pub open spec fn title_of(window: Option<WindowInfo>) -> Option<Seq<char>> {
    match window {
        Some(window) => text_of(window.title),
        None => None,
    }
}

/// Whether the title of a window holds the text that is waited for.
pub fn wait_title(params: &WaitForParams, window: Option<&WindowInfo>) -> (r: Result<(), String>)
    requires
        is_filled(text_of(params.window_title)),
    ensures
        ({
            let title = title_of(crate::cache::deref(window));
            let needle = trim(params.window_title->0@);
            if holds_title(title, needle) {
                r is Ok
            } else {
                r is Err && r->Err_0@ == "window title "@ + match title {
                    Some(title) => debug_text(title),
                    None => "(none)"@,
                } + " does not contain "@ + debug_text(needle)
            }
        }),
{
    let needle = match &params.window_title {
        Some(needle) => trimmed(needle),
        None => return Ok(()),
    };
    let title = match window {
        Some(window) => borrowed(&window.title),
        None => None,
    };
    if title_contains(title, &needle) {
        return Ok(());
    }
    let mut message = "window title ".to_owned();
    match title {
        Some(title) => message.append(&debug_of(title)),
        None => message.append("(none)"),
    }
    message.append(" does not contain ");
    message.append(&debug_of(&needle));
    Err(message)
}

/// What is said of a window that does not hold the focus.
pub open spec fn unfocused_words(window: WindowInfo) -> Seq<char> {
    "window_id "@ + decimal(window.window_id as int) + " ("@ + match window.title {
        Some(title) => title@,
        None => "untitled"@,
    } + ") does not hold focus"@
}

/// The window that is waited for to hold the focus, or why it does not.
pub fn wait_focused(target: &WindowTarget, listed: &Result<Vec<WindowInfo>, String>) -> (r: Result<
    WindowInfo,
    String,
>)
    ensures
        match *listed {
            Err(error) => r is Err && r->Err_0@ == "window listing failed: "@ + error@,
            Ok(windows) => match resolved(windows@, *target) {
                Err(message) => r is Err && r->Err_0@ == message,
                Ok(k) => if windows@[k].focused {
                    r is Ok && r->Ok_0 == windows@[k]
                } else {
                    r is Err && r->Err_0@ == unfocused_words(windows@[k])
                },
            },
        },
{
    let windows = match listed {
        Ok(windows) => windows,
        Err(error) => return Err(cat("window listing failed: ", error)),
    };
    match resolve_window_target(windows, target) {
        Ok(window) => {
            if window.focused {
                return Ok(window.clone());
            }
            let mut message = cat("window_id ", &decimal_of(window.window_id));
            message.append(" (");
            match &window.title {
                Some(title) => message.append(title),
                None => message.append("untitled"),
            }
            message.append(") does not hold focus");
            Err(message)
        },
        Err(message) => Err(message),
    }
}

/// The predicate of being an element that is waited for.
pub open spec fn awaited(selector: ElementSelector<'_>, focused: bool) -> spec_fn(
    AccessibilityNode,
) -> bool {
    |node: AccessibilityNode| selector.meets(node) && (!focused || node.has_state("focused"@))
}

/// The predicate of being an element that is waited for, and of having an action too where
/// any of them has one.
pub open spec fn awaited_usefully(
    selector: ElementSelector<'_>,
    focused: bool,
    any_useful: bool,
) -> spec_fn(AccessibilityNode) -> bool {
    |node: AccessibilityNode|
        awaited(selector, focused)(node) && (!any_useful || serves(
            node,
            ElementResolvePurpose::Action,
        ))
}

/// The element that is waited for: of those that match, the only one with an action, or
/// else the only one of these on the screen, or else the first.
pub open spec fn awaited_element(
    nodes: Seq<AccessibilityNode>,
    selector: ElementSelector<'_>,
    focused: bool,
) -> Option<int> {
    let all = matching(nodes, awaited(selector, focused));
    let useful = matching(nodes, awaited_usefully(selector, focused, true));
    let narrowed = awaited_usefully(selector, focused, useful.len() > 0);
    let visible = matching(nodes, also_showing(narrowed));
    let left = if visible.len() > 0 {
        visible
    } else {
        matching(nodes, narrowed)
    };
    if all.len() == 0 {
        None
    } else if useful.len() == 1 {
        Some(useful[0])
    } else if left.len() == 1 {
        Some(left[0])
    } else {
        Some(all[0])
    }
}

/// What a look at a tree comes to.
#[derive(Debug)]
pub struct ElementProbe {
    pub summary: String,
    /// The position of the element, or why there is none.
    pub element: Result<usize, String>,
}

/// What is said of a tree.
pub open spec fn tree_summary(
    nodes: Seq<AccessibilityNode>,
    raw_count: int,
    selector: ElementSelector<'_>,
    focused: bool,
) -> Seq<char> {
    "last tree: "@ + decimal(nodes.len() as int) + " nodes (compacted from "@ + decimal(raw_count)
        + "), "@ + decimal(matching(nodes, awaited(selector, focused)).len() as int)
        + " matching "@ + selector_words(selector)
}

/// Whether a look at a tree comes to what was due.
pub open spec fn probes_element(
    nodes: Seq<AccessibilityNode>,
    raw_count: int,
    selector: ElementSelector<'_>,
    focused: bool,
    probe: ElementProbe,
) -> bool {
    &&& probe.summary@ == tree_summary(nodes, raw_count, selector, focused)
    &&& match awaited_element(nodes, selector, focused) {
        Some(k) => probe.element is Ok && probe.element->Ok_0 == k && 0 <= k < nodes.len()
            && awaited(selector, focused)(nodes[k]),
        None => probe.element is Err && probe.element->Err_0@ == "no element matched "@
            + selector_words(selector) + if focused {
            " with focus"@
        } else {
            ""@
        },
    }
}

fn preferred_element(
    nodes: &[AccessibilityNode],
    selector: &ElementSelector<'_>,
    focused: bool,
    all: &[usize],
) -> (r: usize)
    requires
        positions(all@) == matching(nodes@, awaited(*selector, focused)),
        all@.len() > 0,
    ensures
        awaited_element(nodes@, *selector, focused) == Some(r as int),
        r < nodes@.len(),
        awaited(*selector, focused)(nodes@[r as int]),
{
    let has_action = |node: &AccessibilityNode| -> (b: bool)
        ensures
            b == awaited_usefully(*selector, focused, true)(*node),
        {
            node_matches_selector(node, selector) && (!focused || node_has_state(node, "focused"))
                && node_matches_resolve_purpose(node, ElementResolvePurpose::Action)
        };
    let useful = matching_items(nodes, has_action, Ghost(awaited_usefully(*selector, focused, true)));
    let any_useful = useful.len() > 0;
    let is_left = |node: &AccessibilityNode| -> (b: bool)
        ensures
            b == awaited_usefully(*selector, focused, any_useful)(*node),
        {
            node_matches_selector(node, selector) && (!focused || node_has_state(node, "focused"))
                && (!any_useful || node_matches_resolve_purpose(
                node,
                ElementResolvePurpose::Action,
            ))
        };
    let narrowed = matching_items(
        nodes,
        is_left,
        Ghost(awaited_usefully(*selector, focused, any_useful)),
    );
    let shows_too = |node: &AccessibilityNode| -> (b: bool)
        ensures
            b == also_showing(awaited_usefully(*selector, focused, any_useful))(*node),
        {
            node_matches_selector(node, selector) && (!focused || node_has_state(node, "focused"))
                && (!any_useful || node_matches_resolve_purpose(
                node,
                ElementResolvePurpose::Action,
            )) && node_is_showing(node)
        };
    let visible = matching_items(
        nodes,
        shows_too,
        Ghost(also_showing(awaited_usefully(*selector, focused, any_useful))),
    );
    proof {
        matching_is_exact(nodes@, awaited(*selector, focused));
        matching_is_exact(nodes@, awaited_usefully(*selector, focused, true));
        matching_is_exact(nodes@, awaited_usefully(*selector, focused, any_useful));
        matching_is_exact(nodes@, also_showing(awaited_usefully(*selector, focused, any_useful)));
        assert(matching(nodes@, awaited(*selector, focused)).contains(positions(all@)[0]));
    }
    let left = if visible.len() > 0 {
        visible
    } else {
        narrowed
    };
    if useful.len() == 1 {
        assert(matching(nodes@, awaited_usefully(*selector, focused, true)).contains(
            positions(useful@)[0],
        ));
        useful[0]
    } else if left.len() == 1 {
        assert(positions(left@).contains(positions(left@)[0]));
        left[0]
    } else {
        all[0]
    }
}

/// What a look at a tree comes to.
pub fn wait_element(params: &WaitForParams, nodes: &[AccessibilityNode], raw_count: usize) -> (r:
    ElementProbe)
    ensures
        exists|selector: ElementSelector<'_>|
            selects(selector, params.role, params.name, params.text, params.states@)
                && #[trigger] probes_element(
                nodes@,
                raw_count as int,
                selector,
                params.wants_focus(),
                r,
            ),
{
    let selector = params.selector();
    let focused = match params.focused {
        Some(true) => true,
        _ => false,
    };
    let is_awaited = |node: &AccessibilityNode| -> (b: bool)
        ensures
            b == awaited(selector, focused)(*node),
        { node_matches_selector(node, &selector) && (!focused || node_has_state(node, "focused")) };
    let picked = matching_items(nodes, is_awaited, Ghost(awaited(selector, focused)));
    let mut summary = cat("last tree: ", &decimal_of(nodes.len() as u64));
    summary.append(" nodes (compacted from ");
    summary.append(&decimal_of(raw_count as u64));
    summary.append("), ");
    summary.append(&decimal_of(picked.len() as u64));
    summary.append(" matching ");
    summary.append(&describe_selector(&selector));
    let element = if picked.len() == 0 {
        let mut message = cat("no element matched ", &describe_selector(&selector));
        if focused {
            message.append(" with focus");
        } else {
            message.append("");
        }
        Err(message)
    } else {
        Ok(preferred_element(nodes, &selector, focused, &picked))
    };
    let r = ElementProbe { summary, element };
    assert(probes_element(nodes@, raw_count as int, selector, params.wants_focus(), r));
    r
}

/// What follows a look.
#[derive(Debug, Clone, Copy, PartialEq, Eq, Structural)]
pub enum WaitStep {
    /// Waiting is over: every predicate held.
    Satisfied,
    /// Another look, after so many milliseconds.
    Rest { ms: u64 },
    /// Waiting is over: the time is up.
    TimedOut,
}

/// What follows a look, by the time that has gone by.
pub fn wait_step(satisfied: bool, elapsed_ms: u64, timeout_ms: u64) -> (r: WaitStep)
    ensures
        r == if satisfied {
            WaitStep::Satisfied
        } else if elapsed_ms >= timeout_ms {
            WaitStep::TimedOut
        } else if timeout_ms - elapsed_ms < WAIT_FOR_POLL_INTERVAL_MS {
            WaitStep::Rest { ms: (timeout_ms - elapsed_ms) as u64 }
        } else {
            WaitStep::Rest { ms: WAIT_FOR_POLL_INTERVAL_MS }
        },
{
    if satisfied {
        WaitStep::Satisfied
    } else if elapsed_ms >= timeout_ms {
        WaitStep::TimedOut
    } else if timeout_ms - elapsed_ms < WAIT_FOR_POLL_INTERVAL_MS {
        WaitStep::Rest { ms: timeout_ms - elapsed_ms }
    } else {
        WaitStep::Rest { ms: WAIT_FOR_POLL_INTERVAL_MS }
    }
}

/// Waiting never rests past its time: after a rest, no more than the timeout has gone by.
pub proof fn rests_end_in_time(satisfied: bool, elapsed_ms: u64, timeout_ms: u64, step: WaitStep)
    requires
        call_ensures(wait_step, (satisfied, elapsed_ms, timeout_ms), step),
        step is Rest,
    ensures
        0 < step->ms <= WAIT_FOR_POLL_INTERVAL_MS,
        elapsed_ms + step->ms <= timeout_ms,
{
}

/// What is said of the element that was waited for.
pub open spec fn matched_words(element: Option<AccessibilityNode>) -> Seq<char> {
    match element {
        Some(element) => " Matched element_index "@ + decimal(element.index as int) + " ("@
            + element.role@ + match element.name {
            Some(name) => " \""@ + name@ + "\""@,
            None => ""@,
        } + ") in a freshly cached tree."@,
        None => ""@,
    }
}

/// What is said where every predicate held.
pub fn satisfied_message(elapsed_ms: u64, element: Option<&AccessibilityNode>) -> (r: String)
    ensures
        r@ == "Predicates satisfied after "@ + decimal(elapsed_ms as int) + " ms."@ + matched_words(
            crate::cache::deref(element),
        ),
{
    let mut message = cat("Predicates satisfied after ", &decimal_of(elapsed_ms));
    message.append(" ms.");
    match element {
        Some(element) => {
            let mut note = cat(" Matched element_index ", &decimal_of(element.index as u64));
            note.append(" (");
            note.append(&element.role);
            match &element.name {
                Some(name) => {
                    let mut quoted = cat(" \"", name);
                    quoted.append("\"");
                    note.append(&quoted);
                },
                None => note.append(""),
            }
            note.append(") in a freshly cached tree.");
            message.append(&note);
        },
        None => message.append(""),
    }
    message
}

/// What is said where the time was up: the last reason, and the last tree.
pub fn timeout_message(timeout_ms: u64, error: Option<String>, summary: Option<&str>) -> (r: String)
    ensures
        r@ == "Timed out after "@ + decimal(timeout_ms as int) + " ms: "@ + match error {
            Some(error) => error@,
            None => "predicates never held"@,
        } + "."@ + match summary {
            Some(summary) => " "@ + summary@ + "."@,
            None => ""@,
        },
{
    let mut message = cat("Timed out after ", &decimal_of(timeout_ms));
    message.append(" ms: ");
    match &error {
        Some(error) => message.append(error),
        None => message.append("predicates never held"),
    }
    message.append(".");
    match summary {
        Some(summary) => {
            let mut tail = cat(" ", summary);
            tail.append(".");
            message.append(&tail);
        },
        None => message.append(""),
    }
    message
}

/// What a look has found so far.
#[derive(Debug)]
pub struct WaitProbe {
    pub window_context: Option<WindowInfo>,
    pub window_context_source: Option<WindowContextSource>,
    pub focused_window: Option<WindowInfo>,
    pub summary: Option<String>,
    /// The position of the element in the tree.
    pub element: Option<usize>,
}

impl WaitProbe {
    /// A look that has found nothing yet.
    pub fn new() -> (r: Self)
        ensures
            r.window_context is None,
            r.window_context_source is None,
            r.focused_window is None,
            r.summary is None,
            r.element is None,
    {
        WaitProbe {
            window_context: None,
            window_context_source: None,
            focused_window: None,
            summary: None,
            element: None,
        }
    }
}

/// What a stage was answered.
#[derive(Debug)]
pub enum WaitAnswer {
    /// The windows, which the one that is named is among, or why there are none.
    Window(Result<Vec<WindowInfo>, String>),
    /// The window in focus.
    Title(Option<WindowInfo>),
    /// The windows.
    Focus(Result<Vec<WindowInfo>, String>),
    /// The tree, and the windows it may be tied to.
    Tree(TreeRead, Vec<WindowInfo>),
}

/// Whether an answer is one to a stage.
pub open spec fn answers_stage(stage: WaitStage, answer: WaitAnswer) -> bool {
    match stage {
        WaitStage::Window => answer is Window,
        WaitStage::Title => answer is Title,
        WaitStage::Focus => answer is Focus,
        WaitStage::Element => answer is Tree,
        WaitStage::Satisfied => false,
    }
}

/// What follows a stage of a look.
#[derive(Debug)]
pub enum ProbeNext {
    /// The next stage is asked.
    Ask(WaitStage),
    /// A predicate does not hold, for this reason: the look is over.
    Unsatisfied(String),
    /// Every predicate held: the look is over.
    Satisfied,
}

/// Whether a look goes on after a stage that held.
pub open spec fn goes_on(params: WaitForParams, stage: WaitStage, next: ProbeNext) -> bool {
    if stage_after(params, stage) is Satisfied {
        next is Satisfied
    } else {
        next == ProbeNext::Ask(stage_after(params, stage))
    }
}

/// Whether a look is over for a reason.
pub open spec fn stops(next: ProbeNext, message: Seq<char>) -> bool {
    next is Unsatisfied && next->Unsatisfied_0@ == message
}

/// The window a tree is tied to: the one that is meant, or else the only one of its own
/// process.
pub open spec fn tied_window(
    context: Option<WindowInfo>,
    nodes: Seq<AccessibilityNode>,
    root_pids: Seq<u32>,
    windows: Seq<WindowInfo>,
) -> Option<WindowInfo> {
    let own = matching(windows, of_pids(root_pids));
    if context is Some {
        context
    } else if root_pids.len() > 0 && follows_window(nodes) && own.len() == 1 {
        Some(windows[own[0]])
    } else {
        None
    }
}

/// The window a tree is tied to.
pub fn window_of_tree(
    context: &Option<WindowInfo>,
    nodes: &[AccessibilityNode],
    root_pids: &[u32],
    windows: &[WindowInfo],
) -> (r: Option<WindowInfo>)
    ensures
        r == tied_window(*context, nodes@, root_pids@, windows@),
{
    match context {
        Some(window) => Some(window.clone()),
        None => match window_for_untargeted_tree(nodes, root_pids, windows) {
            Some(window) => Some(window.clone()),
            None => None,
        },
    }
}

/// Whether a look stands where it does after a stage was answered.
pub open spec fn probe_follows(
    params: WaitForParams,
    before: WaitProbe,
    stage: WaitStage,
    answer: WaitAnswer,
    after: WaitProbe,
    next: ProbeNext,
) -> bool {
    match (stage, answer) {
        (WaitStage::Window, WaitAnswer::Window(listed)) => match window_awaited(
            params.target.target(),
            listed,
        ) {
            Err(message) => after == before && stops(next, message),
            Ok(window) => {
                &&& after == (WaitProbe {
                    window_context: window,
                    window_context_source: if window is Some {
                        Some(WindowContextSource::Target)
                    } else {
                        None
                    },
                    ..before
                })
                &&& goes_on(params, stage, next)
            },
        },
        (WaitStage::Title, WaitAnswer::Title(focused)) => {
            let title = title_of(
                if before.window_context is Some {
                    before.window_context
                } else {
                    focused
                },
            );
            let needle = trim(params.window_title->0@);
            &&& after == before
            &&& if holds_title(title, needle) {
                goes_on(params, stage, next)
            } else {
                stops(
                    next,
                    "window title "@ + match title {
                        Some(title) => debug_text(title),
                        None => "(none)"@,
                    } + " does not contain "@ + debug_text(needle),
                )
            }
        },
        (WaitStage::Focus, WaitAnswer::Focus(listed)) => match listed {
            Err(error) => after == before && stops(next, "window listing failed: "@ + error@),
            Ok(windows) => match resolved(windows@, params.focused_window->0.target()) {
                Err(message) => after == before && stops(next, message),
                Ok(k) => if windows@[k].focused {
                    after == (WaitProbe { focused_window: Some(windows@[k]), ..before }) && goes_on(
                        params,
                        stage,
                        next,
                    )
                } else {
                    after == before && stops(next, unfocused_words(windows@[k]))
                },
            },
        },
        (WaitStage::Element, WaitAnswer::Tree(read, windows)) => match read.error {
            Some(error) => after == before && stops(
                next,
                "AT-SPI tree extraction failed: "@ + error@,
            ),
            None => exists|selector: ElementSelector<'_>, probe: ElementProbe|
                selects(selector, params.role, params.name, params.text, params.states@)
                    && #[trigger] probes_element(
                    read.nodes@,
                    read.raw_count as int,
                    selector,
                    params.wants_focus(),
                    probe,
                ) && match probe.element {
                    Err(message) => after == (WaitProbe { summary: Some(probe.summary), ..before })
                        && next == ProbeNext::Unsatisfied(message),
                    Ok(k) => {
                        let window = tied_window(
                            before.window_context,
                            read.nodes@,
                            read.root_pids@,
                            windows@,
                        );
                        &&& after == (WaitProbe {
                            window_context: window,
                            window_context_source: if before.window_context is Some {
                                Some(WindowContextSource::Target)
                            } else if window is Some {
                                Some(WindowContextSource::AppPid)
                            } else {
                                None
                            },
                            summary: Some(probe.summary),
                            element: Some(k),
                            ..before
                        })
                        &&& goes_on(params, stage, next)
                    },
                },
        },
        _ => true,
    }
}

fn go_on(params: &WaitForParams, stage: WaitStage) -> (r: ProbeNext)
    ensures
        goes_on(*params, stage, r),
{
    match next_wait_stage(params, stage) {
        WaitStage::Satisfied => ProbeNext::Satisfied,
        stage => ProbeNext::Ask(stage),
    }
}

/// One stage of a look. It stops at the first predicate that does not hold and says why; a
/// look that is satisfied carries the element that matched.
pub fn probe_wait_predicates(
    params: &WaitForParams,
    probe: &mut WaitProbe,
    stage: WaitStage,
    answer: &WaitAnswer,
) -> (r: ProbeNext)
    requires
        answers_stage(stage, *answer),
        stage is Title ==> is_filled(text_of(params.window_title)),
        stage is Focus ==> params.focused_window is Some,
    ensures
        probe_follows(*params, *old(probe), stage, *answer, *final(probe), r),
{
    match (stage, answer) {
        (WaitStage::Window, WaitAnswer::Window(listed)) => {
            let window = match wait_window(&params.target.to_target(), listed) {
                Err(message) => return ProbeNext::Unsatisfied(message),
                Ok(window) => window,
            };
            probe.window_context_source =
            if window.is_some() {
                Some(WindowContextSource::Target)
            } else {
                None
            };
            probe.window_context = window;
            go_on(params, stage)
        },
        (WaitStage::Title, WaitAnswer::Title(focused)) => {
            let window = match &probe.window_context {
                Some(window) => Some(window),
                None => match focused {
                    Some(window) => Some(window),
                    None => None,
                },
            };
            match wait_title(params, window) {
                Err(message) => ProbeNext::Unsatisfied(message),
                Ok(_) => go_on(params, stage),
            }
        },
        (WaitStage::Focus, WaitAnswer::Focus(listed)) => {
            let target = match &params.focused_window {
                Some(selector) => selector.to_target(),
                None => return ProbeNext::Satisfied,
            };
            match wait_focused(&target, listed) {
                Err(message) => ProbeNext::Unsatisfied(message),
                Ok(window) => {
                    probe.focused_window = Some(window);
                    go_on(params, stage)
                },
            }
        },
        (WaitStage::Element, WaitAnswer::Tree(read, windows)) => {
            if let Some(error) = &read.error {
                return ProbeNext::Unsatisfied(cat("AT-SPI tree extraction failed: ", error));
            }
            let found = wait_element(params, &read.nodes, read.raw_count);
            let ghost given = found;
            let ghost selector = choose|selector: ElementSelector<'_>|
                selects(selector, params.role, params.name, params.text, params.states@)
                    && #[trigger] probes_element(
                    read.nodes@,
                    read.raw_count as int,
                    selector,
                    params.wants_focus(),
                    given,
                );
            assert(probes_element(
                read.nodes@,
                read.raw_count as int,
                selector,
                params.wants_focus(),
                given,
            ));
            probe.summary = Some(found.summary);
            match found.element {
                Err(message) => ProbeNext::Unsatisfied(message),
                Ok(k) => {
                    let window = window_of_tree(
                        &probe.window_context,
                        &read.nodes,
                        &read.root_pids,
                        windows,
                    );
                    probe.window_context_source =
                    if probe.window_context.is_some() {
                        Some(WindowContextSource::Target)
                    } else if window.is_some() {
                        Some(WindowContextSource::AppPid)
                    } else {
                        None
                    };
                    probe.window_context = window;
                    probe.element = Some(k);
                    go_on(params, stage)
                },
            }
        },
        _ => ProbeNext::Satisfied,
    }
}

/// What `wait_for` answers.
#[derive(Debug)]
pub struct WaitForOutput {
    pub ok: bool,
    pub implemented: bool,
    pub satisfied: bool,
    pub elapsed_ms: u64,
    /// The position of the element in the tree that is cached.
    pub element: Option<usize>,
    pub window_context: Option<WindowInfo>,
    pub window_context_source: Option<WindowContextSource>,
    pub focused_window: Option<WindowInfo>,
    pub last_tree_summary: Option<String>,
    pub message: String,
}

/// The next thing `wait_for` does.
#[derive(Debug)]
pub enum WaitTask {
    /// Ask for what a stage of a look needs.
    Ask { stage: WaitStage, probe: WaitProbe },
    /// Rest, then look again.
    Rest { ms: u64 },
    Done(WaitForOutput),
}

/// Whether a look has found nothing yet.
pub open spec fn is_fresh(probe: WaitProbe) -> bool {
    &&& probe.window_context is None
    &&& probe.window_context_source is None
    &&& probe.focused_window is None
    &&& probe.summary is None
    &&& probe.element is None
}

/// Whether a task is the first of a look.
pub open spec fn begins_look(task: WaitTask) -> bool {
    task is Ask && task->stage is Window && is_fresh(task->probe)
}

/// Whether a task asks for something that is waited for, with no element found yet.
pub open spec fn asks(params: WaitForParams, task: WaitTask) -> bool {
    &&& task is Ask
    &&& task->probe.element is None
    &&& task->stage is Title ==> is_filled(text_of(params.window_title))
    &&& task->stage is Focus ==> params.focused_window is Some
    &&& task->stage is Element ==> params.awaits_element()
}

/// Whether an answer is that every predicate held.
pub open spec fn tells_satisfied(
    output: WaitForOutput,
    elapsed_ms: u64,
    probe: WaitProbe,
    nodes: Seq<AccessibilityNode>,
) -> bool {
    &&& output.ok
    &&& output.implemented
    &&& output.satisfied
    &&& output.elapsed_ms == elapsed_ms
    &&& output.element == probe.element
    &&& output.window_context == probe.window_context
    &&& output.window_context_source == probe.window_context_source
    &&& output.focused_window == probe.focused_window
    &&& output.last_tree_summary == probe.summary
    &&& output.message@ == "Predicates satisfied after "@ + decimal(elapsed_ms as int) + " ms."@
        + matched_words(
        match probe.element {
            Some(k) => Some(nodes[k as int]),
            None => None,
        },
    )
}

/// Whether an answer is that the time was up, with the reason of the last look.
pub open spec fn tells_timeout(
    output: WaitForOutput,
    elapsed_ms: u64,
    timeout_ms: u64,
    probe: WaitProbe,
    reason: Seq<char>,
) -> bool {
    &&& !output.ok
    &&& output.implemented
    &&& !output.satisfied
    &&& output.elapsed_ms == elapsed_ms
    &&& output.element is None
    &&& output.window_context == probe.window_context
    &&& output.window_context_source == probe.window_context_source
    &&& output.focused_window == probe.focused_window
    &&& output.last_tree_summary == probe.summary
    &&& output.message@ == "Timed out after "@ + decimal(timeout_ms as int) + " ms: "@ + reason
        + "."@ + match probe.summary {
        Some(summary) => " "@ + summary@ + "."@,
        None => ""@,
    }
}

/// Whether the tree that is remembered is the one an element was found in, or else the one
/// there was.
pub open spec fn caches_found(
    before: CachedTree,
    after: CachedTree,
    answer: WaitAnswer,
    probe: WaitProbe,
) -> bool {
    if probe.element is Some {
        answer is Tree && after.nodes == answer->Tree_0.nodes && after.bounds == bounds_for(
            answer->Tree_0.nodes@,
            probe.window_context,
        )
    } else {
        after == before
    }
}

/// Whether the next task of `wait_for` follows the last and what it was answered, after so
/// long.
pub open spec fn wait_follows(
    params: WaitForParams,
    before: CachedTree,
    after: CachedTree,
    task: WaitTask,
    answer: WaitAnswer,
    elapsed_ms: u64,
    next: WaitTask,
) -> bool {
    exists|probe: WaitProbe, step: ProbeNext|
        #[trigger] probe_follows(params, task->probe, task->stage, answer, probe, step)
            && caches_found(before, after, answer, probe) && match step {
            ProbeNext::Ask(stage) => next == (WaitTask::Ask { stage, probe }),
            ProbeNext::Satisfied => next is Done && tells_satisfied(
                next->Done_0,
                elapsed_ms,
                probe,
                after.nodes@,
            ),
            ProbeNext::Unsatisfied(reason) => gives_up_or_rests(
                params,
                elapsed_ms,
                probe,
                reason@,
                next,
            ),
        }
}

/// Whether `wait_for` rests after a look that was not satisfied, or gives up where its time
/// is up.
pub open spec fn gives_up_or_rests(
    params: WaitForParams,
    elapsed_ms: u64,
    probe: WaitProbe,
    reason: Seq<char>,
    next: WaitTask,
) -> bool {
    let timeout_ms = timeout_meant(params.timeout_ms);
    if elapsed_ms >= timeout_ms {
        next is Done && tells_timeout(next->Done_0, elapsed_ms, timeout_ms, probe, reason)
    } else {
        next is Rest && next->ms == crate::geometry::min(
            timeout_ms - elapsed_ms,
            WAIT_FOR_POLL_INTERVAL_MS as int,
        )
    }
}

/// The first task of a look.
pub fn begin_look() -> (r: WaitTask)
    ensures
        begins_look(r),
{
    WaitTask::Ask { stage: WaitStage::Window, probe: WaitProbe::new() }
}

/// The first thing `wait_for` does: look, unless there is nothing to wait for.
pub fn start_wait_for(params: &WaitForParams) -> (r: WaitTask)
    ensures
        if params.awaits() {
            begins_look(r)
        } else {
            &&& r is Done
            &&& !r->Done_0.ok
            &&& r->Done_0.implemented
            &&& !r->Done_0.satisfied
            &&& r->Done_0.elapsed_ms == 0
            &&& r->Done_0.element is None
            &&& r->Done_0.window_context is None
            &&& r->Done_0.window_context_source is None
            &&& r->Done_0.focused_window is None
            &&& r->Done_0.last_tree_summary is None
            &&& r->Done_0.message@ == NOTHING_TO_WAIT_FOR@
        },
{
    if wait_for_has_predicate(params) {
        return begin_look();
    }
    WaitTask::Done(
        WaitForOutput {
            ok: false,
            implemented: true,
            satisfied: false,
            elapsed_ms: 0,
            element: None,
            window_context: None,
            window_context_source: None,
            focused_window: None,
            last_tree_summary: None,
            message: NOTHING_TO_WAIT_FOR.to_owned(),
        },
    )
}

/// What `wait_for` does next, by what it was answered and how long it has waited. A tree in
/// which the element was found is remembered.
pub fn wait_for(
    params: &WaitForParams,
    cache: &mut CachedTree,
    task: WaitTask,
    answer: WaitAnswer,
    elapsed_ms: u64,
) -> (r: WaitTask)
    requires
        asks(*params, task),
        answers_stage(task->stage, answer),
    ensures
        wait_follows(*params, *old(cache), *final(cache), task, answer, elapsed_ms, r),
        r is Ask ==> asks(*params, r),
{
    let (stage, mut probe) = match task {
        WaitTask::Ask { stage, probe } => (stage, probe),
        other => return other,
    };
    let step = probe_wait_predicates(params, &mut probe, stage, &answer);
    let ghost found = probe;
    let ghost given = step;
    assert(probe_follows(*params, task->probe, stage, answer, found, given));
    if let WaitAnswer::Tree(read, _) = answer {
        if probe.element.is_some() {
            let window = match &probe.window_context {
                Some(window) => Some(window),
                None => None,
            };
            assert(deref(window) == probe.window_context);
            cache.cache_tree(read.nodes, window);
        }
    }
    match step {
        ProbeNext::Ask(stage) => WaitTask::Ask { stage, probe },
        ProbeNext::Satisfied => {
            let element = match probe.element {
                Some(k) => Some(&cache.nodes[k]),
                None => None,
            };
            let message = satisfied_message(elapsed_ms, element);
            WaitTask::Done(
                WaitForOutput {
                    ok: true,
                    implemented: true,
                    satisfied: true,
                    elapsed_ms,
                    element: probe.element,
                    window_context: probe.window_context,
                    window_context_source: probe.window_context_source,
                    focused_window: probe.focused_window,
                    last_tree_summary: probe.summary,
                    message,
                },
            )
        },
        ProbeNext::Unsatisfied(reason) => {
            let timeout_ms: u64 = wait_for_timeout(params.timeout_ms);
            match wait_step(false, elapsed_ms, timeout_ms) {
                WaitStep::Rest { ms } => WaitTask::Rest { ms },
                _ => {
                    let message = timeout_message(
                        timeout_ms,
                        Some(reason),
                        borrowed(&probe.summary),
                    );
                    WaitTask::Done(
                        WaitForOutput {
                            ok: false,
                            implemented: true,
                            satisfied: false,
                            elapsed_ms,
                            element: None,
                            window_context: probe.window_context,
                            window_context_source: probe.window_context_source,
                            focused_window: probe.focused_window,
                            last_tree_summary: probe.summary,
                            message,
                        },
                    )
                },
            }
        },
    }
}

/// `wait_for` says that it was satisfied only once every predicate that is given held: the
/// stage that was just answered was the last.
pub proof fn waiting_ends_with_the_last_predicate(
    params: WaitForParams,
    before: CachedTree,
    after: CachedTree,
    task: WaitTask,
    answer: WaitAnswer,
    elapsed_ms: u64,
    next: WaitTask,
)
    requires
        asks(params, task),
        answers_stage(task->stage, answer),
        wait_follows(params, before, after, task, answer, elapsed_ms, next),
        next is Done,
        next->Done_0.satisfied,
    ensures
        stage_after(params, task->stage) is Satisfied,
{
}

/// `wait_for` gives up only once its time is up.
pub proof fn waiting_ends_in_its_time(
    params: WaitForParams,
    before: CachedTree,
    after: CachedTree,
    task: WaitTask,
    answer: WaitAnswer,
    elapsed_ms: u64,
    next: WaitTask,
)
    requires
        asks(params, task),
        answers_stage(task->stage, answer),
        wait_follows(params, before, after, task, answer, elapsed_ms, next),
    ensures
        next is Done && !next->Done_0.satisfied ==> elapsed_ms >= timeout_meant(params.timeout_ms),
        next is Rest ==> elapsed_ms + next->ms <= timeout_meant(params.timeout_ms),
{
}

/// The element a wait returns is in the tree that is then cached, and it is one that was
/// waited for: a following action can name it by its index.
pub proof fn a_found_element_is_in_the_cached_tree(
    params: WaitForParams,
    before: CachedTree,
    after: CachedTree,
    task: WaitTask,
    answer: WaitAnswer,
    elapsed_ms: u64,
    next: WaitTask,
)
    requires
        asks(params, task),
        answers_stage(task->stage, answer),
        wait_follows(params, before, after, task, answer, elapsed_ms, next),
        next is Done,
        next->Done_0.element is Some,
    ensures
        next->Done_0.satisfied,
        next->Done_0.element->0 < after.nodes@.len(),
        exists|selector: ElementSelector<'_>|
            #[trigger] selects(selector, params.role, params.name, params.text, params.states@)
                && awaited(selector, params.wants_focus())(
                after.nodes@[next->Done_0.element->0 as int],
            ),
{
}

/// Whether an element is the one waited for: it is as described, and holds the keyboard focus
/// where it is to.
pub open spec fn is_waited_for(
    node: AccessibilityNode,
    selector: ElementSelector<'_>,
    focused: bool,
) -> bool {
    is_as_described(node, selector) && (focused ==> exists|j: int|
        0 <= j < node.states@.len() && normal(#[trigger] node.states@[j]@) == normal("focused"@))
}

/// A look finds an element exactly where one is as described, and holds the focus where it is
/// to; and what it finds is such an element.
pub proof fn a_look_finds_what_is_described(
    nodes: Seq<AccessibilityNode>,
    raw_count: int,
    selector: ElementSelector<'_>,
    focused: bool,
    probe: ElementProbe,
)
    requires
        probes_element(nodes, raw_count, selector, focused, probe),
    ensures
        probe.element is Ok <==> exists|k: int|
            0 <= k < nodes.len() && is_waited_for(#[trigger] nodes[k], selector, focused),
        probe.element is Ok ==> probe.element->Ok_0 < nodes.len() && is_waited_for(
            nodes[probe.element->Ok_0 as int],
            selector,
            focused,
        ),
{
    let picks = awaited(selector, focused);
    matching_is_exact(nodes, picks);
    assert forall|k: int| 0 <= k < nodes.len() implies picks(#[trigger] nodes[k]) == is_waited_for(
        nodes[k],
        selector,
        focused,
    ) by {
        meeting_is_being_as_described(nodes[k], selector);
    }
    if probe.element is Ok {
        assert(is_waited_for(nodes[probe.element->Ok_0 as int], selector, focused));
    }
    if exists|k: int|
        0 <= k < nodes.len() && is_waited_for(#[trigger] nodes[k], selector, focused) {
        let k = choose|k: int|
            0 <= k < nodes.len() && is_waited_for(#[trigger] nodes[k], selector, focused);
        assert(matching(nodes, picks).contains(k));
    }
}

/// A title that is waited for holds where it stands in the title of the window that is meant,
/// or of the one in focus where none is, but for spacing and letter case; where it does not,
/// the look is over unsatisfied.
pub proof fn a_title_holds_where_it_stands_in_the_windows(
    params: WaitForParams,
    before: WaitProbe,
    focused: Option<WindowInfo>,
    after: WaitProbe,
    next: ProbeNext,
)
    requires
        probe_follows(
            params,
            before,
            WaitStage::Title,
            WaitAnswer::Title(focused),
            after,
            next,
        ),
    ensures
        ({
            let window = if before.window_context is Some {
                before.window_context
            } else {
                focused
            };
            let wanted = normal(trim(params.window_title->0@));
            !(next is Unsatisfied) <==> window is Some && window->0.title is Some && wanted.len()
                > 0 && contains(normal(window->0.title->0@), wanted)
        }),
{
}

/// A window that is waited for to have the focus holds where the window it names has it.
pub proof fn a_focus_holds_where_the_window_has_it(
    params: WaitForParams,
    before: WaitProbe,
    windows: Vec<WindowInfo>,
    after: WaitProbe,
    next: ProbeNext,
)
    requires
        params.focused_window is Some,
        probe_follows(
            params,
            before,
            WaitStage::Focus,
            WaitAnswer::Focus(Ok(windows)),
            after,
            next,
        ),
    ensures
        ({
            let named = resolved(windows@, params.focused_window->0.target());
            &&& !(next is Unsatisfied) <==> named is Ok && windows@[named->Ok_0].focused
            &&& !(next is Unsatisfied) ==> after.focused_window == Some(windows@[named->Ok_0])
        }),
{
}

/// A window that is meant is the one its selectors name, and where they name none the look is
/// over unsatisfied.
pub proof fn a_look_is_at_the_window_named(
    params: WaitForParams,
    before: WaitProbe,
    windows: Vec<WindowInfo>,
    after: WaitProbe,
    next: ProbeNext,
)
    requires
        params.target.target().names_window(),
        probe_follows(
            params,
            before,
            WaitStage::Window,
            WaitAnswer::Window(Ok(windows)),
            after,
            next,
        ),
    ensures
        ({
            let named = resolved(windows@, params.target.target());
            &&& next is Unsatisfied <==> named is Err
            &&& named is Ok ==> after.window_context == Some(windows@[named->Ok_0])
        }),
{
}

/// The predicates that are given are those that are asked: an element is where its role, name,
/// text or a state is given, and a look rests a tenth of a second at most.
pub proof fn an_element_is_awaited_where_it_is_described(
    params: WaitForParams,
    elapsed_ms: u64,
    probe: WaitProbe,
    reason: Seq<char>,
    next: WaitTask,
)
    requires
        gives_up_or_rests(params, elapsed_ms, probe, reason, next),
    ensures
        params.role is Some && !is_blank(params.role->0@) ==> params.awaits_element(),
        params.name is Some && !is_blank(params.name->0@) ==> params.awaits_element(),
        params.text is Some && !is_blank(params.text->0@) ==> params.awaits_element(),
        params.states@.len() == 1 && !is_blank(params.states@[0]@) ==> params.awaits_element(),
        params.role is None && params.name is None && params.text is None && params.states@.len()
            == 0 ==> !params.awaits_element(),
        next is Rest ==> 0 < next->ms <= 100 && elapsed_ms < timeout_meant(params.timeout_ms),
        next is Done <==> elapsed_ms >= timeout_meant(params.timeout_ms),
        next is Done ==> !next->Done_0.satisfied && !next->Done_0.ok,
{
}

/// The window a tree is tied to is the one that is meant; where none is, and the tree's bounds
/// follow its window, it is the only window of the tree's own processes, and no other.
pub proof fn a_tree_is_tied_to_the_window_it_shows(
    context: Option<WindowInfo>,
    nodes: Seq<AccessibilityNode>,
    root_pids: Seq<u32>,
    windows: Seq<WindowInfo>,
)
    ensures
        context is Some ==> tied_window(context, nodes, root_pids, windows) == context,
        context is None && tied_window(context, nodes, root_pids, windows) is Some ==> exists|
            k: int,
        |
            0 <= k < windows.len() && tied_window(context, nodes, root_pids, windows) == Some(
                #[trigger] windows[k],
            ) && windows[k].pid is Some && root_pids.contains(windows[k].pid->0) && forall|j: int|
                0 <= j < windows.len() && j != k ==> !((#[trigger] windows[j]).pid is Some
                    && root_pids.contains(windows[j].pid->0)),
{
    let own = matching(windows, of_pids(root_pids));
    if context is None && own.len() == 1 {
        assert(own =~= seq![own[0]]);
        the_only_window_of_the_processes_is_theirs(windows, root_pids, own[0]);
    }
}

/// Of the elements that are waited for, the one found is the only one that offers an action,
/// where only one does; and the first, where none offers one and none is on the screen.
pub proof fn a_look_prefers_what_can_be_acted_on(
    nodes: Seq<AccessibilityNode>,
    selector: ElementSelector<'_>,
    focused: bool,
    k: int,
)
    requires
        0 <= k < nodes.len(),
        is_waited_for(nodes[k], selector, focused),
    ensures
        nodes[k].actions@.len() > 0 && (forall|j: int|
            0 <= j < nodes.len() && j != k && is_waited_for(#[trigger] nodes[j], selector, focused)
                ==> nodes[j].actions@.len() == 0) ==> awaited_element(nodes, selector, focused)
            == Some(k),
        (forall|j: int|
            0 <= j < nodes.len() && is_waited_for(#[trigger] nodes[j], selector, focused)
                ==> nodes[j].actions@.len() == 0 && !shows(nodes[j])) && (forall|j: int|
            0 <= j < k ==> !is_waited_for(#[trigger] nodes[j], selector, focused))
            ==> awaited_element(nodes, selector, focused) == Some(k),
{
    let all = matching(nodes, awaited(selector, focused));
    let picks = awaited_usefully(selector, focused, true);
    let useful = matching(nodes, picks);
    let narrowed = awaited_usefully(selector, focused, useful.len() > 0);
    let visible = matching(nodes, also_showing(narrowed));
    matching_is_exact(nodes, awaited(selector, focused));
    matching_is_exact(nodes, picks);
    matching_is_exact(nodes, narrowed);
    matching_is_exact(nodes, also_showing(narrowed));
    assert forall|j: int| 0 <= j < nodes.len() implies awaited(selector, focused)(
        #[trigger] nodes[j],
    ) == is_waited_for(nodes[j], selector, focused) by {
        meeting_is_being_as_described(nodes[j], selector);
    }
    assert(all.contains(k));
    if nodes[k].actions@.len() > 0 && (forall|j: int|
        0 <= j < nodes.len() && j != k && is_waited_for(#[trigger] nodes[j], selector, focused)
            ==> nodes[j].actions@.len() == 0) {
        assert(useful.contains(k));
        if useful.len() > 1 {
            assert(useful.contains(useful[0]) && useful.contains(useful[1]));
            assert(useful[0] < useful[1]);
            assert(picks(nodes[useful[0]]) && picks(nodes[useful[1]]));
        }
        assert(useful[0] == k);
    }
    if (forall|j: int|
        0 <= j < nodes.len() && is_waited_for(#[trigger] nodes[j], selector, focused)
            ==> nodes[j].actions@.len() == 0 && !shows(nodes[j])) && (forall|j: int|
        0 <= j < k ==> !is_waited_for(#[trigger] nodes[j], selector, focused)) {
        if useful.len() > 0 {
            assert(useful.contains(useful[0]));
            assert(picks(nodes[useful[0]]));
        }
        if visible.len() > 0 {
            assert(visible.contains(visible[0]));
            assert(also_showing(narrowed)(nodes[visible[0]]));
            assert(shows(nodes[visible[0]]));
        }
        let i = choose|i: int| 0 <= i < all.len() && all[i] == k;
        assert(all.contains(all[0]));
        assert(awaited(selector, focused)(nodes[all[0]]));
        if i > 0 {
            assert(all[0] < all[i]);
        }
        assert(all[0] == k);
        let left = matching(nodes, narrowed);
        if left.len() == 1 {
            assert(left.contains(left[0]));
            assert(narrowed(nodes[k]));
            assert(left.contains(k));
        }
    }
}

/// Waiting is over at once where every predicate held, and else where the time is up; between
/// two looks it rests a tenth of a second, or what is left of the time.
pub proof fn waiting_goes_on_until_it_holds_or_ends(
    satisfied: bool,
    elapsed_ms: u64,
    timeout_ms: u64,
    step: WaitStep,
)
    requires
        call_ensures(wait_step, (satisfied, elapsed_ms, timeout_ms), step),
    ensures
        step is Satisfied <==> satisfied,
        step is TimedOut <==> !satisfied && elapsed_ms >= timeout_ms,
        step is Rest && timeout_ms - elapsed_ms >= 100 ==> step->ms == 100,
        step is Rest && timeout_ms - elapsed_ms < 100 ==> step->ms == timeout_ms - elapsed_ms,
{
}

/// What is answered of a wait is what the last look found: the element, the window, the window
/// that has the focus, and the tree; as a success exactly where every predicate held.
pub proof fn a_wait_answers_what_it_found(
    output: WaitForOutput,
    late: WaitForOutput,
    elapsed_ms: u64,
    timeout_ms: u64,
    probe: WaitProbe,
    nodes: Seq<AccessibilityNode>,
    reason: Seq<char>,
)
    requires
        tells_satisfied(output, elapsed_ms, probe, nodes),
        tells_timeout(late, elapsed_ms, timeout_ms, probe, reason),
    ensures
        output.ok && output.satisfied && !late.ok && !late.satisfied,
        output.element == probe.element && late.element is None,
        output.window_context == probe.window_context && late.window_context
            == probe.window_context,
        output.focused_window == probe.focused_window && late.focused_window
            == probe.focused_window,
        output.last_tree_summary == probe.summary && late.last_tree_summary == probe.summary,
        output.elapsed_ms == elapsed_ms && late.elapsed_ms == elapsed_ms,
{
}

} // verus!
