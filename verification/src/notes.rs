//! What the tools say: results, warnings and feedback.

use vstd::prelude::*;
use vstd::string::StringExecFns;
use crate::numerals::{decimal, decimal_of, signed_decimal_of};
use crate::text::{
    cat, chars_of, equal_ignoring_case, join, joined, lines, lines_end_at_line_feeds, lines_of,
    lower, same, same_ignoring_case, starts_with, text_of, texts, texts_push,
};
use crate::windowing::types::{WindowFocusResult, WindowOcclusion};

verus! {

/// What an input tool answers.
#[derive(Debug, PartialEq, Eq)]
pub struct ActionOutput {
    pub ok: bool,
    pub implemented: bool,
    pub action: String,
    pub message: String,
}

/// Whether an answer is of an action, with an outcome and a message.
pub open spec fn says(output: ActionOutput, action: Seq<char>, ok: bool, message: Seq<char>) -> bool {
    output.ok == ok && output.implemented && output.action@ == action && output.message@ == message
}

/// A failed tool result.
pub fn action_failure(action: &str, message: String) -> (r: ActionOutput)
    ensures
        says(r, action@, false, message@),
{
    ActionOutput { ok: false, implemented: true, action: action.to_owned(), message }
}

/// A successful tool result.
pub fn action_success(action: &str, message: String) -> (r: ActionOutput)
    ensures
        says(r, action@, true, message@),
{
    ActionOutput { ok: true, implemented: true, action: action.to_owned(), message }
}

/// The result of an action that went out through ydotool, or did not.
pub fn action_result(action: &str, result: Result<(), String>) -> (r: ActionOutput)
    ensures
        match result {
            Ok(_) => says(r, action@, true, "Action sent through ydotool."@),
            Err(message) => says(r, action@, false, message@),
        },
{
    match result {
        Ok(_) => action_success(action, "Action sent through ydotool.".to_owned()),
        Err(message) => action_failure(action, message),
    }
}

/// What a success says of the focus that was verified before it.
pub open spec fn focus_words(message: Seq<char>, focus: WindowFocusResult) -> Seq<char> {
    message + " Target window_id "@ + decimal(focus.requested_window.window_id as int)
        + " was focused with "@ + (if focus.exact_window_focused {
        "exact window-focus"@
    } else {
        "app-level focus"@
    }) + " verification before input."@
}

/// A result with what is known of the focus, which only a success speaks of.
pub fn with_focus_context(output: ActionOutput, focus: Option<&WindowFocusResult>) -> (r:
    ActionOutput)
    ensures
        r.ok == output.ok,
        r.implemented == output.implemented,
        r.action == output.action,
        r.message@ == if output.ok && focus is Some {
            focus_words(output.message@, *focus->0)
        } else {
            output.message@
        },
{
    let mut output = output;
    if output.ok {
        if let Some(focus) = focus {
            let mut message = cat(&output.message, " Target window_id ");
            message.append(&decimal_of(focus.requested_window.window_id));
            message.append(" was focused with ");
            if focus.exact_window_focused {
                message.append("exact window-focus");
            } else {
                message.append("app-level focus");
            }
            message.append(" verification before input.");
            output.message = message;
        }
    }
    output
}

/// A message with notes behind it.
pub open spec fn noted(message: Seq<char>, notes: Seq<Seq<char>>) -> Seq<char>
    decreases notes.len(),
{
    if notes.len() == 0 {
        message
    } else {
        noted(message, notes.drop_last()) + " "@ + notes.last()
    }
}

/// A message with notes behind it.
pub fn append_notes(message: &str, notes: &[String]) -> (r: String)
    ensures
        r@ == noted(message@, texts(notes@)),
{
    let ghost all = texts(notes@);
    let mut said = message.to_owned();
    assert(all.take(0) =~= Seq::empty());
    for i in 0..notes.len()
        invariant
            all == texts(notes@),
            said@ == noted(message@, all.take(i as int)),
    {
        assert(all.take(i + 1).drop_last() =~= all.take(i as int));
        said.append(" ");
        said.append(&notes[i]);
    }
    assert(all.take(notes@.len() as int) =~= all);
    said
}

/// Append supplemental notes (off-screen or focused-element feedback) to an
/// action result message without changing ok/implemented semantics.
pub fn with_notes(output: ActionOutput, notes: &[String]) -> (r: ActionOutput)
    ensures
        r.ok == output.ok,
        r.implemented == output.implemented,
        r.action == output.action,
        r.message@ == noted(output.message@, texts(notes@)),
{
    let mut output = output;
    output.message = append_notes(&output.message, notes);
    output
}

/// The element that holds the keyboard focus.
#[derive(Debug)]
pub struct FocusedElementSummary {
    pub role: String,
    pub name: Option<String>,
    pub editable: bool,
    pub states: Vec<String>,
}

/// Whether a state list holds the state `editable`.
pub open spec fn lists_editable(states: Seq<String>) -> bool {
    exists|i: int|
        0 <= i < states.len() && same_ignoring_case(#[trigger] states[i]@, "editable"@)
}

fn states_list_editable(states: &[String]) -> (r: bool)
    ensures
        r == lists_editable(states@),
{
    for i in 0..states.len()
        invariant
            forall|k: int|
                0 <= k < i ==> !same_ignoring_case(#[trigger] states@[k]@, "editable"@),
    {
        if equal_ignoring_case(&states[i], "editable") {
            assert(same_ignoring_case(states@[i as int]@, "editable"@));
            return true;
        }
    }
    false
}

/// The name and the states of an element, as feedback speaks of them.
pub open spec fn name_part(name: Option<String>) -> Seq<char> {
    match name {
        Some(name) => if name@.len() == 0 {
            ""@
        } else {
            " \""@ + name@ + "\""@
        },
        None => ""@,
    }
}

/// The states of an element, as feedback speaks of them.
pub open spec fn states_part(states: Seq<String>) -> Seq<char> {
    if states.len() == 0 {
        ""@
    } else {
        "; states: "@ + join(texts(states), ", "@)
    }
}

/// Feedback on the element that holds the focus. It counts as editable by its interface or
/// by its states.
pub open spec fn focus_feedback(element: FocusedElementSummary, expects_editable: bool) -> Seq<char> {
    let name = name_part(element.name);
    let states = states_part(element.states@);
    if element.editable || lists_editable(element.states@) {
        "Focused element: "@ + element.role@ + name + " (editable"@ + states + ")."@
    } else if expects_editable {
        "WARNING: focused element is "@ + element.role@ + name + ", which is not editable"@ + states
            + " — the typed text likely went nowhere. Click the intended input first or use set_value."@
    } else {
        "Focused element: "@ + element.role@ + name + " (not editable"@ + states + ")."@
    }
}

/// Feedback on the element that holds the focus.
pub fn describe_focused_element(element: &FocusedElementSummary, expects_editable: bool) -> (r:
    String)
    ensures
        r@ == focus_feedback(*element, expects_editable),
{
    let name = match &element.name {
        Some(name) => if name.as_str().is_empty() {
            "".to_owned()
        } else {
            let mut quoted = cat(" \"", name);
            quoted.append("\"");
            quoted
        },
        None => "".to_owned(),
    };
    // An element is editable when it implements the EditableText interface
    // or carries the `editable` state. GPUI (accesskit_unix) text inputs set
    // the state without the interface, and typed text does land in them.
    let editable = element.editable || states_list_editable(&element.states);
    let states = if element.states.len() == 0 {
        "".to_owned()
    } else {
        cat("; states: ", &joined(&element.states, ", "))
    };
    if editable {
        let mut said = cat("Focused element: ", &element.role);
        said.append(&name);
        said.append(" (editable");
        said.append(&states);
        said.append(").");
        said
    } else if expects_editable {
        let mut said = cat("WARNING: focused element is ", &element.role);
        said.append(&name);
        said.append(", which is not editable");
        said.append(&states);
        said.append(
            " — the typed text likely went nowhere. Click the intended input first or use set_value.",
        );
        said
    } else {
        let mut said = cat("Focused element: ", &element.role);
        said.append(&name);
        said.append(" (not editable");
        said.append(&states);
        said.append(").");
        said
    }
}

/// What came of asking which element holds the focus.
#[derive(Debug)]
pub enum FocusProbe {
    Found(FocusedElementSummary),
    NothingFocused,
    Failed(String),
    TimedOut,
}

/// The first line of a text, or the text where it has none.
pub open spec fn first_line_of(text: Seq<char>) -> Seq<char> {
    if lines(text).len() > 0 {
        lines(text)[0]
    } else {
        text
    }
}

/// The first line of a text, or the text where it has none.
pub fn first_line(text: &str) -> (r: String)
    ensures
        r@ == first_line_of(text@),
{
    let all = lines_of(text);
    if all.len() > 0 {
        assert(texts(all@)[0] == all@[0]@);
        all[0].clone()
    } else {
        text.to_owned()
    }
}

/// What is said when nothing holds the focus.
pub const NOTHING_FOCUSED: &'static str =
    "WARNING: AT-SPI reports no focused element in the target app — the input may have landed nowhere. If this is an Electron app, launch it with --force-renderer-accessibility to expose its UI tree.";

/// Post-input feedback: which AT-SPI element holds keyboard focus in the
/// target app, and whether it is editable. Guards against the blind-typing
/// trap where verified *window* focus still sends keystrokes nowhere.
pub fn focused_element_feedback(probe: &FocusProbe, expects_editable: bool) -> (r: String)
    ensures
        r@ == match *probe {
            FocusProbe::Found(element) => focus_feedback(element, expects_editable),
            FocusProbe::NothingFocused => NOTHING_FOCUSED@,
            FocusProbe::Failed(error) => "Focused-element feedback unavailable ("@ + first_line_of(
                error@,
            ) + ")."@,
            FocusProbe::TimedOut => "Focused-element feedback unavailable (AT-SPI probe timed out)."@,
        },
{
    match probe {
        FocusProbe::Found(element) => describe_focused_element(element, expects_editable),
        FocusProbe::NothingFocused => NOTHING_FOCUSED.to_owned(),
        FocusProbe::Failed(error) => {
            let mut said = cat("Focused-element feedback unavailable (", &first_line(error));
            said.append(").");
            said
        },
        FocusProbe::TimedOut => "Focused-element feedback unavailable (AT-SPI probe timed out).".to_owned(),
    }
}

/// The order of texts: by their characters, the first that differs deciding.
pub open spec fn text_le(a: Seq<char>, b: Seq<char>) -> bool
    decreases a.len(),
{
    if a.len() == 0 {
        true
    } else if b.len() == 0 {
        false
    } else if a[0] != b[0] {
        a[0] < b[0]
    } else {
        text_le(a.drop_first(), b.drop_first())
    }
}

/// A text put into a list behind the last one that does not come after it.
pub open spec fn put_text(sorted: Seq<Seq<char>>, text: Seq<char>) -> Seq<Seq<char>>
    decreases sorted.len(),
{
    if sorted.len() > 0 && !text_le(sorted.last(), text) {
        put_text(sorted.drop_last(), text).push(sorted.last())
    } else {
        sorted.push(text)
    }
}

/// Texts in order.
pub open spec fn in_order(list: Seq<Seq<char>>) -> Seq<Seq<char>>
    decreases list.len(),
{
    if list.len() == 0 {
        list
    } else {
        put_text(in_order(list.drop_last()), list.last())
    }
}

fn text_not_after(a: &str, b: &str) -> (r: bool)
    ensures
        r == text_le(a@, b@),
{
    let x = chars_of(a);
    let y = chars_of(b);
    let mut i: usize = 0;
    assert(x@.skip(0) =~= x@ && y@.skip(0) =~= y@);
    loop
        invariant
            i <= x@.len(),
            i <= y@.len(),
            x@ == a@,
            y@ == b@,
            text_le(a@, b@) == text_le(x@.skip(i as int), y@.skip(i as int)),
        decreases x@.len() - i,
    {
        if i == x.len() {
            return true;
        }
        if i == y.len() {
            return false;
        }
        assert(x@.skip(i as int)[0] == x@[i as int] && y@.skip(i as int)[0] == y@[i as int]);
        if x[i] != y[i] {
            return x[i] < y[i];
        }
        assert(x@.skip(i as int).drop_first() =~= x@.skip(i + 1));
        assert(y@.skip(i as int).drop_first() =~= y@.skip(i + 1));
        i = i + 1;
    }
}

proof fn put_text_at(sorted: Seq<Seq<char>>, text: Seq<char>, at: int)
    requires
        0 <= at <= sorted.len(),
        forall|i: int| at <= i < sorted.len() ==> !text_le(#[trigger] sorted[i], text),
        at > 0 ==> text_le(sorted[at - 1], text),
    ensures
        put_text(sorted, text) == sorted.insert(at, text),
    decreases sorted.len(),
{
    if at < sorted.len() {
        put_text_at(sorted.drop_last(), text, at);
        assert(sorted.drop_last().insert(at, text).push(sorted.last()) =~= sorted.insert(at, text));
    } else {
        assert(sorted.insert(at, text) =~= sorted.push(text));
    }
}

/// Texts in order.
pub fn sorted_texts(list: &[String]) -> (r: Vec<String>)
    ensures
        texts(r@) == in_order(texts(list@)),
{
    let ghost all = texts(list@);
    let mut sorted: Vec<String> = Vec::new();
    assert(texts(sorted@) =~= all.take(0));
    for i in 0..list.len()
        invariant
            all == texts(list@),
            texts(sorted@) == in_order(all.take(i as int)),
    {
        assert(all.take(i + 1).drop_last() =~= all.take(i as int));
        let ghost before = sorted@;
        let mut at: usize = sorted.len();
        while at > 0 && !text_not_after(&sorted[at - 1], &list[i])
            invariant
                i < list@.len(),
                at <= sorted@.len(),
                sorted@ == before,
                forall|k: int|
                    at <= k < sorted@.len() ==> !text_le(
                        #[trigger] texts(sorted@)[k],
                        list@[i as int]@,
                    ),
            decreases at,
        {
            at = at - 1;
        }
        proof {
            put_text_at(texts(before), list@[i as int]@, at as int);
        }
        sorted.insert(at, list[i].clone());
        assert(texts(sorted@) =~= texts(before).insert(at as int, list@[i as int]@));
    }
    assert(all.take(list@.len() as int) =~= all);
    sorted
}

fn same_texts(a: &[String], b: &[String]) -> (r: bool)
    ensures
        r == (texts(a@) == texts(b@)),
{
    if a.len() != b.len() {
        assert(texts(a@).len() != texts(b@).len());
        return false;
    }
    for i in 0..a.len()
        invariant
            a@.len() == b@.len(),
            forall|k: int| 0 <= k < i ==> #[trigger] a@[k]@ == b@[k]@,
    {
        if !same(&a[i], &b[i]) {
            assert(texts(a@)[i as int] != texts(b@)[i as int]);
            return false;
        }
    }
    assert(texts(a@) =~= texts(b@));
    true
}

/// What an action changed in an element's states, where it changed any. Their order is
/// none of a change.
pub open spec fn states_change(before: Seq<Seq<char>>, after: Seq<Seq<char>>) -> Option<Seq<char>> {
    if in_order(before) == in_order(after) {
        None
    } else {
        Some(
            "Element states before -> after: ["@ + join(in_order(before), ", "@) + "] -> ["@ + join(
                in_order(after),
                ", "@,
            ) + "]."@,
        )
    }
}

/// "element states before -> after" when an element action changed them.
pub fn states_change_note(before: &[String], after: &[String]) -> (r: Option<String>)
    ensures
        text_of(r) == states_change(texts(before@), texts(after@)),
{
    let sorted_before = sorted_texts(before);
    let sorted_after = sorted_texts(after);
    if same_texts(&sorted_before, &sorted_after) {
        return None;
    }
    let mut note = cat("Element states before -> after: [", &joined(&sorted_before, ", "));
    note.append("] -> [");
    note.append(&joined(&sorted_after, ", "));
    note.append("].");
    Some(note)
}

proof fn text_le_is_total(a: Seq<char>, b: Seq<char>)
    ensures
        text_le(a, b) || text_le(b, a),
        text_le(a, b) && text_le(b, a) ==> a == b,
    decreases a.len(),
{
    if a.len() > 0 && b.len() > 0 && a[0] == b[0] {
        text_le_is_total(a.drop_first(), b.drop_first());
        if text_le(a, b) && text_le(b, a) {
            assert(a =~= seq![a[0]] + a.drop_first());
            assert(b =~= seq![b[0]] + b.drop_first());
        }
    } else if a.len() == 0 && b.len() == 0 {
        assert(a =~= b);
    }
}

proof fn text_le_chains(a: Seq<char>, b: Seq<char>, c: Seq<char>)
    requires
        text_le(a, b),
        text_le(b, c),
    ensures
        text_le(a, c),
    decreases a.len(),
{
    if a.len() > 0 && b.len() > 0 && c.len() > 0 && a[0] == b[0] && b[0] == c[0] {
        text_le_chains(a.drop_first(), b.drop_first(), c.drop_first());
    }
}

/// Whether texts are in order.
pub open spec fn are_in_order(list: Seq<Seq<char>>) -> bool {
    forall|i: int, j: int|
        0 <= i < j < list.len() ==> text_le(#[trigger] list[i], #[trigger] list[j])
}

proof fn put_text_sorts(sorted: Seq<Seq<char>>, text: Seq<char>)
    requires
        are_in_order(sorted),
    ensures
        are_in_order(put_text(sorted, text)),
        put_text(sorted, text).to_multiset() == sorted.to_multiset().insert(text),
        forall|i: int|
            0 <= i < put_text(sorted, text).len() ==> text_le(
                #[trigger] put_text(sorted, text)[i],
                text,
            ) || exists|k: int| 0 <= k < sorted.len() && sorted[k] == put_text(sorted, text)[i],
    decreases sorted.len(),
{
    let put = put_text(sorted, text);
    text_le_is_total(text, text);
    if sorted.len() > 0 && !text_le(sorted.last(), text) {
        let rest = sorted.drop_last();
        let inner = put_text(rest, text);
        put_text_sorts(rest, text);
        text_le_is_total(sorted.last(), text);
        assert forall|i: int, j: int| 0 <= i < j < put.len() implies text_le(
            #[trigger] put[i],
            #[trigger] put[j],
        ) by {
            if j < inner.len() {
                assert(text_le(inner[i], inner[j]));
            } else {
                assert(put[i] == inner[i]);
                if text_le(inner[i], text) {
                    text_le_chains(inner[i], text, sorted.last());
                } else {
                    let k = choose|k: int| 0 <= k < rest.len() && rest[k] == inner[i];
                    assert(text_le(sorted[k], sorted[sorted.len() - 1]));
                }
            }
        }
        assert forall|i: int| 0 <= i < put.len() implies text_le(#[trigger] put[i], text) || exists|
            k: int,
        | 0 <= k < sorted.len() && sorted[k] == put[i] by {
            if i < inner.len() {
                assert(put[i] == inner[i]);
                if !text_le(inner[i], text) {
                    let k = choose|k: int| 0 <= k < rest.len() && rest[k] == inner[i];
                    assert(sorted[k] == put[i]);
                }
            } else {
                assert(sorted[sorted.len() - 1] == put[i]);
            }
        }
        vstd::seq_lib::to_multiset_build(inner, sorted.last());
        vstd::seq_lib::to_multiset_build(rest, sorted.last());
        assert(rest.push(sorted.last()) =~= sorted);
        assert(put.to_multiset() =~= sorted.to_multiset().insert(text));
    } else {
        vstd::seq_lib::to_multiset_build(sorted, text);
        assert forall|i: int, j: int| 0 <= i < j < put.len() implies text_le(
            #[trigger] put[i],
            #[trigger] put[j],
        ) by {
            if j == sorted.len() && i < sorted.len() - 1 {
                assert(text_le(sorted[i], sorted[sorted.len() - 1]));
                text_le_chains(sorted[i], sorted.last(), text);
            }
        }
        assert forall|i: int| 0 <= i < put.len() implies text_le(#[trigger] put[i], text) || exists|
            k: int,
        | 0 <= k < sorted.len() && sorted[k] == put[i] by {
            if i < sorted.len() {
                assert(sorted[i] == put[i]);
            }
        }
    }
}

proof fn in_order_sorts(list: Seq<Seq<char>>)
    ensures
        are_in_order(in_order(list)),
        in_order(list).to_multiset() == list.to_multiset(),
    decreases list.len(),
{
    if list.len() > 0 {
        in_order_sorts(list.drop_last());
        put_text_sorts(in_order(list.drop_last()), list.last());
        assert(list.drop_last().push(list.last()) =~= list);
        vstd::seq_lib::to_multiset_build(list.drop_last(), list.last());
    }
}

/// A change of states is noted exactly when the states differ, counting how often each
/// occurs and not where.
pub proof fn only_changed_states_are_noted(before: Seq<Seq<char>>, after: Seq<Seq<char>>)
    ensures
        states_change(before, after) is None <==> before.to_multiset() == after.to_multiset(),
{
    in_order_sorts(before);
    in_order_sorts(after);
    if before.to_multiset() == after.to_multiset() {
        let leq = |a: Seq<char>, b: Seq<char>| text_le(a, b);
        let x = in_order(before);
        let y = in_order(after);
        assert(vstd::relations::total_ordering(leq)) by {
            assert forall|a: Seq<char>| #[trigger] leq(a, a) by {
                text_le_is_total(a, a);
            }
            assert forall|a: Seq<char>, b: Seq<char>| #[trigger] leq(a, b) && #[trigger] leq(
                b,
                a,
            ) implies a == b by {
                text_le_is_total(a, b);
            }
            assert forall|a: Seq<char>, b: Seq<char>, c: Seq<char>| #[trigger] leq(a, b)
                && #[trigger] leq(b, c) implies leq(a, c) by {
                text_le_chains(a, b, c);
            }
            assert forall|a: Seq<char>, b: Seq<char>| #[trigger] leq(a, b) || #[trigger] leq(
                b,
                a,
            ) by {
                text_le_is_total(a, b);
            }
        }
        assert(vstd::relations::sorted_by(x, leq));
        assert(vstd::relations::sorted_by(y, leq));
        vstd::seq_lib::lemma_sorted_unique(x, y, leq);
    }
}

/// What is said of a cached tree whose application is gone.
pub const STALE_TREE_MESSAGE: &'static str =
    "cached accessibility tree is stale (app restarted or window closed); call get_app_state again";

/// The message for a failed element operation: the stale-tree hint when the
/// object's owner left the bus, the error itself otherwise.
pub fn element_error_message(is_stale: bool, error: &str) -> (r: String)
    ensures
        r@ == if is_stale {
            STALE_TREE_MESSAGE@
        } else {
            error@
        },
{
    if is_stale {
        STALE_TREE_MESSAGE.to_owned()
    } else {
        error.to_owned()
    }
}

/// A window that is in the way, in words.
pub open spec fn occluder_words(window: WindowOcclusion) -> Seq<char> {
    (match window.title {
        Some(title) => title@,
        None => "untitled"@,
    }) + " (window_id "@ + decimal(window.window_id as int) + ")"@
}

/// What is said of windows in the way, where there are any.
pub open spec fn occlusion_words(occluded_by: Seq<WindowOcclusion>) -> Option<Seq<char>> {
    if occluded_by.len() == 0 {
        None
    } else {
        Some(
            "WARNING: "@ + decimal(occluded_by.len() as int)
                + " window(s) overlap the target and sit above it, so their pixels appear in the crop: "@
                + join(occluded_by.map_values(|w: WindowOcclusion| occluder_words(w)), ", "@)
                + ". Raise the target (raise_window=true) or activate_window first for a clean capture."@,
        )
    }
}

/// What is said of windows in the way, where there are any.
pub fn occlusion_note(occluded_by: &[WindowOcclusion]) -> (r: Option<String>)
    ensures
        text_of(r) == occlusion_words(occluded_by@),
{
    broadcast use texts_push;

    if occluded_by.len() == 0 {
        return None;
    }
    let ghost all = occluded_by@.map_values(|w: WindowOcclusion| occluder_words(w));
    let mut names: Vec<String> = Vec::new();
    assert(texts(names@) =~= all.take(0));
    for i in 0..occluded_by.len()
        invariant
            all == occluded_by@.map_values(|w: WindowOcclusion| occluder_words(w)),
            texts(names@) == all.take(i as int),
    {
        broadcast use texts_push;

        let mut name = match &occluded_by[i].title {
            Some(title) => title.clone(),
            None => "untitled".to_owned(),
        };
        name.append(" (window_id ");
        name.append(&decimal_of(occluded_by[i].window_id));
        name.append(")");
        names.push(name);
        assert(all.take(i + 1) =~= all.take(i as int).push(all[i as int]));
    }
    assert(all.take(occluded_by@.len() as int) =~= all);
    let mut note = cat("WARNING: ", &decimal_of(occluded_by.len() as u64));
    note.append(
        " window(s) overlap the target and sit above it, so their pixels appear in the crop: ",
    );
    note.append(&joined(&names, ", "));
    note.append(
        ". Raise the target (raise_window=true) or activate_window first for a clean capture.",
    );
    Some(note)
}

/// A workspace id the compositor reported, or a word for one it did not.
pub fn describe_workspace_id(workspace: Option<i32>) -> (r: String)
    ensures
        r@ == match workspace {
            Some(id) => decimal(id as int),
            None => "unknown"@,
        },
{
    match workspace {
        Some(id) => signed_decimal_of(id as i64),
        None => "unknown".to_owned(),
    }
}

/// Notes stand behind a message in their order, each after a space: those of two lists as
/// those of the first and then of the second, and without notes the message stands alone.
pub proof fn notes_stand_behind_the_message(
    message: Seq<char>,
    a: Seq<Seq<char>>,
    b: Seq<Seq<char>>,
    note: Seq<char>,
)
    ensures
        noted(message, Seq::empty()) == message,
        noted(message, seq![note]) == message + seq![' '] + note,
        noted(message, a + b) == noted(noted(message, a), b),
    decreases b.len(),
{
    reveal_strlit(" ");
    assert(" "@ =~= seq![' ']);
    reveal_with_fuel(noted, 2);
    assert(seq![note].drop_last() =~= Seq::empty());
    if b.len() == 0 {
        assert(a + b =~= a);
    } else {
        notes_stand_behind_the_message(message, a, b.drop_last(), note);
        assert((a + b).drop_last() =~= a + b.drop_last());
    }
}

/// The first line of a text is what stands before its first line end, and the whole text
/// where it has none.
pub proof fn a_first_line_ends_at_the_first_line_end(a: Seq<char>, b: Seq<char>)
    requires
        forall|i: int| 0 <= i < a.len() ==> #[trigger] a[i] != '\n' && a[i] != '\r',
    ensures
        first_line_of(a) == a,
        first_line_of(a.push('\n') + b) == a,
        first_line_of(a.push('\r').push('\n') + b) == a,
{
    lines_end_at_line_feeds(a, b);
    let ended = a.push('\r');
    assert forall|i: int| 0 <= i < ended.len() implies #[trigger] ended[i] != '\n' by {}
    lines_end_at_line_feeds(ended, b);
    assert(ended.drop_last() =~= a);
    assert((seq![a] + lines(b))[0] == a);
}

/// Typed text is warned about exactly where it was to go into an element that is not editable,
/// neither by its interface nor by its states.
pub proof fn only_lost_text_is_warned_about(element: FocusedElementSummary, expects_editable: bool)
    ensures
        starts_with(focus_feedback(element, expects_editable), "WARNING"@) <==> expects_editable
            && !element.editable && forall|i: int|
            0 <= i < element.states@.len() ==> lower(#[trigger] element.states@[i]@) != lower(
                "editable"@,
            ),
{
    reveal_strlit("WARNING");
    reveal_strlit("WARNING: focused element is ");
    reveal_strlit("Focused element: ");
    let said = focus_feedback(element, expects_editable);
    let start = said.subrange(0, 7);
    if element.editable || lists_editable(element.states@) || !expects_editable {
        assert(said[0] == "Focused element: "@[0]);
        assert(said[0] == 'F');
        if starts_with(said, "WARNING"@) {
            assert(start[0] == said[0]);
            assert("WARNING"@[0] == 'W');
        }
    } else {
        let opening = "WARNING: focused element is "@;
        assert(opening.len() == 28);
        assert forall|i: int| 0 <= i < 7 implies #[trigger] start[i] == "WARNING"@[i] by {
            assert(start[i] == said[i]);
            assert(said[i] == opening[i]);
            assert(opening[i] == "WARNING"@[i]);
        }
        assert(start =~= "WARNING"@);
    }
}

/// Windows in the way are spoken of exactly where there are any.
pub proof fn only_windows_in_the_way_are_noted(occluded_by: Seq<WindowOcclusion>)
    ensures
        occlusion_words(occluded_by) is Some <==> occluded_by.len() > 0,
{
}

} // verus!
