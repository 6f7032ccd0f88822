//! The accessibility tree: finding the element a caller means.

use vstd::prelude::*;
use vstd::string::StringExecFns;
use crate::keys::{filled_parts, filled_parts_of};
use crate::numerals::{decimal, decimal_of};
use crate::select::{matching, matching_is_exact, matching_items, positions};
use crate::text::{
    blank, blank_is_all_white, borrowed, cat, contains, contains_normal, debug_of, debug_option,
    debug_option_of, debug_text, is_blank, is_filled, is_white, join, joined, normal,
    normalized_contains, normalized_equals, text_of, texts, texts_push, trim, trimmed,
};

verus! {

/// A rectangle, as AT-SPI gives extents.
#[derive(Debug, Clone, Copy, PartialEq, Eq, Structural)]
pub struct Bounds {
    pub x: i32,
    pub y: i32,
    pub width: i32,
    pub height: i32,
}

/// An action an element offers.
#[derive(Debug, PartialEq, Eq)]
pub struct AccessibilityAction {
    pub index: i32,
    pub name: String,
    pub description: String,
    pub keybinding: String,
}

impl Clone for AccessibilityAction {
    fn clone(&self) -> (r: Self)
        ensures
            r == *self,
    {
        AccessibilityAction {
            index: self.index,
            name: self.name.clone(),
            description: self.description.clone(),
            keybinding: self.keybinding.clone(),
        }
    }
}

/// The value of an element that has one, as it prints.
#[derive(Debug, Clone, PartialEq, Eq)]
pub struct AccessibilityValue {
    pub current: String,
}

/// A part of a text that is selected, from one character to another.
#[derive(Debug, Clone, PartialEq, Eq)]
pub struct AccessibilityTextSelection {
    pub start_offset: i32,
    pub end_offset: i32,
}

/// The text of an element that has some.
#[derive(Debug, Clone, PartialEq, Eq)]
pub struct AccessibilityText {
    pub content: Option<String>,
    pub caret_offset: Option<i32>,
    /// What is selected of it.
    pub selections: Vec<AccessibilityTextSelection>,
    /// Why the selection could not be read, which is not the same as nothing being selected.
    pub selection_error: Option<String>,
}

impl AccessibilityText {
    /// The text of an element, by what came of reading its parts.
    pub fn read(
        content: Option<String>,
        caret_offset: Option<i32>,
        selections: Result<Vec<AccessibilityTextSelection>, String>,
    ) -> (r: Self)
        ensures
            r.content == content,
            r.caret_offset == caret_offset,
            match selections {
                Ok(selections) => r.selections == selections && r.selection_error is None,
                Err(error) => r.selections@.len() == 0 && r.selection_error == Some(error),
            },
    {
        match selections {
            Ok(selections) => AccessibilityText {
                content,
                caret_offset,
                selections,
                selection_error: None,
            },
            Err(error) => AccessibilityText {
                content,
                caret_offset,
                selections: Vec::new(),
                selection_error: Some(error),
            },
        }
    }
}

/// A node of the accessibility tree.
#[derive(Debug, Clone)]
pub struct AccessibilityNode {
    pub index: u32,
    pub parent_index: Option<u32>,
    pub depth: u32,
    pub object_ref: String,
    pub role: String,
    pub name: Option<String>,
    pub description: Option<String>,
    pub child_count: i32,
    pub bounds: Option<Bounds>,
    pub states: Vec<String>,
    pub actions: Vec<AccessibilityAction>,
    pub value: Option<AccessibilityValue>,
    pub text: Option<AccessibilityText>,
    pub supports_editable_text: bool,
}

impl AccessibilityNode {
    /// The text an element shows, where it shows one.
    pub open spec fn content(self) -> Option<Seq<char>> {
        match self.text {
            Some(text) => text_of(text.content),
            None => None,
        }
    }

    /// Whether an element carries a state.
    pub open spec fn has_state(self, state: Seq<char>) -> bool {
        exists|i: int|
            0 <= i < self.states@.len() && normal(#[trigger] self.states@[i]@) == normal(state)
    }
}

/// What an element is looked for to do.
#[derive(Debug, Clone, Copy, PartialEq, Eq, Structural)]
pub enum ElementResolvePurpose {
    Click,
    Action,
    SetValue,
}

/// The fields a caller describes an element by.
#[derive(Debug, Clone, Copy, Default)]
pub struct ElementSelector<'a> {
    pub role: Option<&'a str>,
    pub name: Option<&'a str>,
    pub text: Option<&'a str>,
    pub states: &'a [String],
}

/// The contents of a borrowed text that may be missing.
pub open spec fn str_of(o: Option<&str>) -> Option<Seq<char>> {
    match o {
        Some(text) => Some(text@),
        None => None,
    }
}

impl<'a> ElementSelector<'a> {
    /// Whether no field says anything.
    pub open spec fn says_nothing(self) -> bool {
        &&& !is_filled(str_of(self.role))
        &&& !is_filled(str_of(self.name))
        &&& !is_filled(str_of(self.text))
        &&& forall|i: int| 0 <= i < self.states@.len() ==> is_blank(#[trigger] self.states@[i]@)
    }

    /// Whether no field says anything.
    pub fn is_empty(&self) -> (r: bool)
        ensures
            r == self.says_nothing(),
    {
        let role = match self.role {
            Some(role) => blank(role),
            None => true,
        };
        let name = match self.name {
            Some(name) => blank(name),
            None => true,
        };
        let text = match self.text {
            Some(text) => blank(text),
            None => true,
        };
        if !(role && name && text) {
            return false;
        }
        for i in 0..self.states.len()
            invariant
                forall|k: int| 0 <= k < i ==> is_blank(#[trigger] self.states@[k]@),
        {
            if !blank(&self.states[i]) {
                return false;
            }
        }
        true
    }

    /// Whether an element meets every field: role, name and text by containing them but for
    /// spacing and letter case, and each state that is not blank by carrying it.
    pub open spec fn meets(self, node: AccessibilityNode) -> bool {
        &&& self.role is Some ==> contains_normal(Some(node.role@), self.role->0@)
        &&& self.name is Some ==> contains_normal(text_of(node.name), self.name->0@)
        &&& self.text is Some ==> contains_normal(node.content(), self.text->0@)
            || contains_normal(text_of(node.name), self.text->0@) || contains_normal(
            text_of(node.description),
            self.text->0@,
        )
        &&& forall|i: int|
            0 <= i < self.states@.len() && !is_blank(#[trigger] self.states@[i]@)
                ==> node.has_state(self.states@[i]@)
    }
}

/// Whether an element carries a state.
pub fn node_has_state(node: &AccessibilityNode, state: &str) -> (r: bool)
    ensures
        r == node.has_state(state@),
{
    for i in 0..node.states.len()
        invariant
            forall|k: int|
                0 <= k < i ==> normal(#[trigger] node.states@[k]@) != normal(state@),
    {
        if normalized_equals(&node.states[i], state) {
            assert(normal(node.states@[i as int]@) == normal(state@));
            return true;
        }
    }
    false
}

/// Whether an element meets a selector.
pub fn node_matches_selector(node: &AccessibilityNode, selector: &ElementSelector<'_>) -> (r: bool)
    ensures
        r == selector.meets(*node),
{
    if let Some(role) = selector.role {
        if !normalized_contains(Some(&node.role), role) {
            return false;
        }
    }
    if let Some(name) = selector.name {
        if !normalized_contains(borrowed(&node.name), name) {
            return false;
        }
    }
    if let Some(text) = selector.text {
        let content = match &node.text {
            Some(shown) => borrowed(&shown.content),
            None => None,
        };
        if !normalized_contains(content, text) && !normalized_contains(borrowed(&node.name), text)
            && !normalized_contains(borrowed(&node.description), text) {
            return false;
        }
    }
    for i in 0..selector.states.len()
        invariant
            forall|k: int|
                0 <= k < i && !is_blank(#[trigger] selector.states@[k]@) ==> node.has_state(
                    selector.states@[k]@,
                ),
    {
        if !blank(&selector.states[i]) {
            if !node_has_state(node, &selector.states[i]) {
                assert(!is_blank(selector.states@[i as int]@));
                return false;
            }
        }
    }
    true
}

/// The center of a rectangle that has one: an extent on both axes, and a corner that is
/// no stand-in for a missing one.
pub open spec fn center(bounds: Bounds) -> Option<(int, int)> {
    let x = bounds.x + bounds.width / 2;
    let y = bounds.y + bounds.height / 2;
    if bounds.width <= 0 || bounds.height <= 0 || bounds.x <= -0x4000_0000 || bounds.y
        <= -0x4000_0000 || x > i32::MAX || y > i32::MAX {
        None
    } else {
        Some((x, y))
    }
}

/// The center of a rectangle that has one.
pub fn bounds_center(bounds: &Bounds) -> (r: Option<(i32, i32)>)
    ensures
        match r {
            Some((x, y)) => center(*bounds) == Some((x as int, y as int)),
            None => center(*bounds) is None,
        },
{
    if bounds.width <= 0 || bounds.height <= 0 {
        return None;
    }
    if bounds.x <= -0x4000_0000 || bounds.y <= -0x4000_0000 {
        return None;
    }
    let x: i64 = bounds.x as i64 + (bounds.width / 2) as i64;
    let y: i64 = bounds.y as i64 + (bounds.height / 2) as i64;
    if x > i32::MAX as i64 || y > i32::MAX as i64 {
        return None;
    }
    Some((x as i32, y as i32))
}

/// A center is inside its rectangle.
pub proof fn a_center_is_inside(bounds: Bounds)
    requires
        center(bounds) is Some,
    ensures
        bounds.x <= (center(bounds)->0).0 < bounds.x + bounds.width,
        bounds.y <= (center(bounds)->0).1 < bounds.y + bounds.height,
{
}

/// Whether an element serves a purpose: something to click, an action to invoke, or a
/// value to set.
pub open spec fn serves(node: AccessibilityNode, purpose: ElementResolvePurpose) -> bool {
    match purpose {
        ElementResolvePurpose::Click => (node.bounds is Some && center(node.bounds->0) is Some)
            || node.actions@.len() > 0,
        ElementResolvePurpose::Action => node.actions@.len() > 0,
        ElementResolvePurpose::SetValue => node.supports_editable_text || node.value is Some,
    }
}

/// Whether an element serves a purpose.
pub fn node_matches_resolve_purpose(node: &AccessibilityNode, purpose: ElementResolvePurpose) -> (r:
    bool)
    ensures
        r == serves(*node, purpose),
{
    match purpose {
        ElementResolvePurpose::Click => {
            let has_center = match &node.bounds {
                Some(bounds) => bounds_center(bounds).is_some(),
                None => false,
            };
            has_center || node.actions.len() > 0
        },
        ElementResolvePurpose::Action => node.actions.len() > 0,
        ElementResolvePurpose::SetValue => node.supports_editable_text || node.value.is_some(),
    }
}

/// Whether an element is on the screen, as far as its states say.
pub open spec fn shows(node: AccessibilityNode) -> bool {
    node.has_state("showing"@) && node.has_state("visible"@)
}

/// Whether an element is on the screen, as far as its states say.
pub fn node_is_showing(node: &AccessibilityNode) -> (r: bool)
    ensures
        r == shows(*node),
{
    node_has_state(node, "showing") && node_has_state(node, "visible")
}

/// A selector's field as a message names it, where it says anything.
pub open spec fn field_words(label: Seq<char>, value: Option<Seq<char>>) -> Seq<Seq<char>> {
    if is_filled(value) {
        seq![label + debug_text(trim(value->0))]
    } else {
        Seq::empty()
    }
}

/// A list of texts as `{:?}` shows it.
pub open spec fn debug_list(list: Seq<Seq<char>>) -> Seq<char> {
    "["@ + join(list.map_values(|text: Seq<char>| debug_text(text)), ", "@) + "]"@
}

/// A selector in words.
pub open spec fn selector_words(selector: ElementSelector<'_>) -> Seq<char> {
    let states = filled_parts(texts(selector.states@));
    let parts = field_words("role="@, str_of(selector.role)) + field_words(
        "name="@,
        str_of(selector.name),
    ) + field_words("text="@, str_of(selector.text)) + (if states.len() > 0 {
        seq!["states="@ + debug_list(states)]
    } else {
        Seq::empty()
    });
    if parts.len() == 0 {
        "<empty>"@
    } else {
        join(parts, ", "@)
    }
}

fn debug_list_of(list: &[String]) -> (r: String)
    ensures
        r@ == debug_list(texts(list@)),
{
    broadcast use texts_push;

    let ghost all = texts(list@).map_values(|text: Seq<char>| debug_text(text));
    let mut shown: Vec<String> = Vec::new();
    assert(texts(shown@) =~= all.take(0));
    for i in 0..list.len()
        invariant
            all == texts(list@).map_values(|text: Seq<char>| debug_text(text)),
            texts(shown@) == all.take(i as int),
    {
        broadcast use texts_push;

        shown.push(debug_of(&list[i]));
        assert(all.take(i + 1) =~= all.take(i as int).push(all[i as int]));
    }
    assert(all.take(list@.len() as int) =~= all);
    let mut r = cat("[", &joined(&shown, ", "));
    r.append("]");
    r
}

fn push_field(parts: &mut Vec<String>, label: &str, value: Option<&str>)
    ensures
        texts(final(parts)@) == texts(old(parts)@) + field_words(label@, str_of(value)),
{
    broadcast use texts_push;

    if let Some(text) = value {
        if !blank(text) {
            parts.push(cat(label, &debug_of(&trimmed(text))));
            assert(texts(parts@) =~= texts(old(parts)@) + field_words(label@, str_of(value)));
            return ;
        }
    }
    assert(texts(parts@) =~= texts(old(parts)@) + field_words(label@, str_of(value)));
}

/// A selector in words.
pub fn describe_selector(selector: &ElementSelector<'_>) -> (r: String)
    ensures
        r@ == selector_words(*selector),
{
    broadcast use texts_push;

    let mut parts: Vec<String> = Vec::new();
    assert(texts(parts@) =~= Seq::empty());
    push_field(&mut parts, "role=", selector.role);
    assert(texts(parts@) =~= field_words("role="@, str_of(selector.role)));
    push_field(&mut parts, "name=", selector.name);
    push_field(&mut parts, "text=", selector.text);
    let states = filled_parts_of(selector.states);
    let ghost before = texts(parts@);
    if states.len() > 0 {
        parts.push(cat("states=", &debug_list_of(&states)));
        assert(texts(parts@) =~= before + seq!["states="@ + debug_list(texts(states@))]);
    } else {
        assert(texts(parts@) =~= before + Seq::empty());
    }
    if parts.len() == 0 {
        "<empty>".to_owned()
    } else {
        joined(&parts, ", ")
    }
}

/// A node in the terms a caller can pick one by.
pub open spec fn node_words(node: AccessibilityNode) -> Seq<char> {
    "element_index "@ + decimal(node.index as int) + " role="@ + debug_text(node.role@) + " name="@
        + debug_option(text_of(node.name))
}

/// The nodes an ambiguous selector matched, eight of them at most.
pub open spec fn nodes_words(nodes: Seq<AccessibilityNode>, picked: Seq<int>) -> Seq<char> {
    let listed = if picked.len() > 8 {
        picked.take(8)
    } else {
        picked
    };
    join(listed.map_values(|i: int| node_words(nodes[i])), "; "@)
}

fn describe_node(node: &AccessibilityNode) -> (r: String)
    ensures
        r@ == node_words(*node),
{
    let mut words = cat("element_index ", &decimal_of(node.index as u64));
    words.append(" role=");
    words.append(&debug_of(&node.role));
    words.append(" name=");
    words.append(&debug_option_of(&node.name));
    words
}

/// The nodes an ambiguous selector matched, eight of them at most.
pub fn describe_matching_nodes(nodes: &[AccessibilityNode], picked: &[usize]) -> (r: String)
    requires
        forall|i: int| 0 <= i < picked@.len() ==> #[trigger] picked@[i] < nodes@.len(),
    ensures
        r@ == nodes_words(nodes@, positions(picked@)),
{
    broadcast use texts_push;

    let count: usize = if picked.len() > 8 {
        8
    } else {
        picked.len()
    };
    let ghost listed = if picked@.len() > 8 {
        positions(picked@).take(8)
    } else {
        positions(picked@)
    };
    let ghost all = listed.map_values(|i: int| node_words(nodes@[i]));
    let mut words: Vec<String> = Vec::new();
    assert(texts(words@) =~= all.take(0));
    for k in 0..count
        invariant
            count <= picked@.len(),
            listed.len() == count,
            forall|i: int| 0 <= i < picked@.len() ==> #[trigger] picked@[i] < nodes@.len(),
            forall|i: int| 0 <= i < count ==> #[trigger] listed[i] == picked@[i],
            all == listed.map_values(|i: int| node_words(nodes@[i])),
            texts(words@) == all.take(k as int),
    {
        broadcast use texts_push;

        assert(listed[k as int] == picked@[k as int]);
        words.push(describe_node(&nodes[picked[k]]));
        assert(all.take(k + 1) =~= all.take(k as int).push(all[k as int]));
    }
    assert(all.take(count as int) =~= all);
    joined(&words, "; ")
}

/// The predicate of meeting a selector.
pub open spec fn meeting(selector: ElementSelector<'_>) -> spec_fn(AccessibilityNode) -> bool {
    |node: AccessibilityNode| selector.meets(node)
}

/// The predicate of meeting a selector and serving a purpose.
pub open spec fn meeting_usefully(
    selector: ElementSelector<'_>,
    purpose: ElementResolvePurpose,
) -> spec_fn(AccessibilityNode) -> bool {
    |node: AccessibilityNode| selector.meets(node) && serves(node, purpose)
}

/// The predicate of meeting a selector, and of serving a purpose too where any element does.
pub open spec fn narrowed_to(
    selector: ElementSelector<'_>,
    purpose: ElementResolvePurpose,
    any_useful: bool,
) -> spec_fn(AccessibilityNode) -> bool {
    if any_useful {
        meeting_usefully(selector, purpose)
    } else {
        meeting(selector)
    }
}

/// The predicate of meeting another and being on the screen.
pub open spec fn also_showing(picks: spec_fn(AccessibilityNode) -> bool) -> spec_fn(
    AccessibilityNode,
) -> bool {
    |node: AccessibilityNode| picks(node) && shows(node)
}

/// The element a selector means: the only one that meets it, or else the only one of those
/// that serve the purpose, or else the only one of these on the screen.
pub open spec fn element_meant(
    nodes: Seq<AccessibilityNode>,
    selector: ElementSelector<'_>,
    purpose: ElementResolvePurpose,
) -> Result<int, Seq<char>> {
    let met = meeting(selector);
    let useful = meeting_usefully(selector, purpose);
    let narrowed = narrowed_to(selector, purpose, matching(nodes, useful).len() > 0);
    let visible = also_showing(narrowed);
    let left = if matching(nodes, visible).len() > 0 {
        matching(nodes, visible)
    } else {
        matching(nodes, narrowed)
    };
    if matching(nodes, met).len() == 0 {
        Err(
            "No cached accessibility node matched semantic selector "@ + selector_words(selector)
                + ". Call get_app_state first or pass element_index."@,
        )
    } else if matching(nodes, useful).len() == 1 {
        Ok(matching(nodes, useful)[0])
    } else if left.len() == 1 {
        Ok(left[0])
    } else {
        Err(
            "Semantic selector "@ + selector_words(selector) + " matched multiple cached nodes: "@
                + nodes_words(nodes, left)
                + ". Pass element_index or add more selector fields."@,
        )
    }
}

/// Whether an answer is the element, or the refusal, that was due.
pub open spec fn answers_element(
    nodes: Seq<AccessibilityNode>,
    due: Result<int, Seq<char>>,
    r: Result<usize, String>,
) -> bool {
    match r {
        Ok(k) => due == Ok::<int, Seq<char>>(k as int) && k < nodes.len(),
        Err(message) => due == Err::<int, Seq<char>>(message@),
    }
}

/// The position of the element a selector means.
pub fn resolve_semantic_node(
    nodes: &[AccessibilityNode],
    selector: &ElementSelector<'_>,
    purpose: ElementResolvePurpose,
) -> (r: Result<usize, String>)
    ensures
        answers_element(nodes@, element_meant(nodes@, *selector, purpose), r),
{
    let meets = |node: &AccessibilityNode| -> (b: bool)
        ensures
            b == meeting(*selector)(*node),
        { node_matches_selector(node, selector) };
    let met = matching_items(nodes, meets, Ghost(meeting(*selector)));
    if met.len() == 0 {
        let mut message = cat(
            "No cached accessibility node matched semantic selector ",
            &describe_selector(selector),
        );
        message.append(". Call get_app_state first or pass element_index.");
        return Err(message);
    }
    let serves_too = |node: &AccessibilityNode| -> (b: bool)
        ensures
            b == meeting_usefully(*selector, purpose)(*node),
        { node_matches_selector(node, selector) && node_matches_resolve_purpose(node, purpose) };
    let useful = matching_items(nodes, serves_too, Ghost(meeting_usefully(*selector, purpose)));
    if useful.len() == 1 {
        assert(useful@[0] < nodes@.len());
        return Ok(useful[0]);
    }
    let any_useful = useful.len() > 0;
    let shows_too = |node: &AccessibilityNode| -> (b: bool)
        ensures
            b == also_showing(narrowed_to(*selector, purpose, any_useful))(*node),
        {
            node_matches_selector(node, selector) && (!any_useful || node_matches_resolve_purpose(
                node,
                purpose,
            )) && node_is_showing(node)
        };
    let visible = matching_items(
        nodes,
        shows_too,
        Ghost(also_showing(narrowed_to(*selector, purpose, any_useful))),
    );
    let left = if visible.len() > 0 {
        visible
    } else if any_useful {
        useful
    } else {
        met
    };
    if left.len() == 1 {
        assert(left@[0] < nodes@.len());
        return Ok(left[0]);
    }
    let mut message = cat("Semantic selector ", &describe_selector(selector));
    message.append(" matched multiple cached nodes: ");
    message.append(&describe_matching_nodes(nodes, &left));
    message.append(". Pass element_index or add more selector fields.");
    Err(message)
}

/// An element a selector resolves to meets it. No other element is resolved in its place:
/// where one is resolved among several that meet the selector, it is the only one of them
/// that serves the purpose, or the only one of those left that is on the screen.
pub proof fn a_resolved_element_meets_the_selector(
    nodes: Seq<AccessibilityNode>,
    selector: ElementSelector<'_>,
    purpose: ElementResolvePurpose,
)
    requires
        element_meant(nodes, selector, purpose) is Ok,
    ensures
        ({
            let k = element_meant(nodes, selector, purpose)->Ok_0;
            &&& 0 <= k < nodes.len()
            &&& selector.meets(nodes[k])
            &&& forall|j: int|
                #![trigger nodes[j]]
                0 <= j < nodes.len() && j != k && selector.meets(nodes[j]) ==> (!serves(
                    nodes[j],
                    purpose,
                ) && serves(nodes[k], purpose)) || (!shows(nodes[j]) && shows(nodes[k]))
        }),
{
    let met = meeting(selector);
    let useful = meeting_usefully(selector, purpose);
    let narrowed = narrowed_to(selector, purpose, matching(nodes, useful).len() > 0);
    let visible = also_showing(narrowed);
    matching_is_exact(nodes, met);
    matching_is_exact(nodes, useful);
    matching_is_exact(nodes, narrowed);
    matching_is_exact(nodes, visible);
    let left = if matching(nodes, visible).len() > 0 {
        matching(nodes, visible)
    } else {
        matching(nodes, narrowed)
    };
    let k = element_meant(nodes, selector, purpose)->Ok_0;
    if matching(nodes, useful).len() == 1 {
        assert(matching(nodes, useful)[0] == k);
        assert(matching(nodes, useful).contains(k));
        assert forall|j: int|
            #![trigger nodes[j]]
            0 <= j < nodes.len() && j != k && selector.meets(nodes[j]) implies !serves(
            nodes[j],
            purpose,
        ) by {
            if serves(nodes[j], purpose) {
                assert(matching(nodes, useful).contains(j));
            }
        }
    } else {
        assert(left[0] == k);
        assert(left.contains(k));
        assert forall|j: int|
            #![trigger nodes[j]]
            0 <= j < nodes.len() && j != k && selector.meets(nodes[j]) implies (!serves(
            nodes[j],
            purpose,
        ) && serves(nodes[k], purpose)) || (!shows(nodes[j]) && shows(nodes[k])) by {
            if narrowed(nodes[j]) {
                assert(matching(nodes, narrowed).contains(j));
                if shows(nodes[j]) {
                    assert(matching(nodes, visible).contains(j));
                }
                if matching(nodes, visible).len() == 0 {
                    assert(left.contains(j));
                }
            } else {
                assert(narrowed(nodes[k]));
            }
        }
    }
}

proof fn a_resolved_element_is_met(
    nodes: Seq<AccessibilityNode>,
    selector: ElementSelector<'_>,
    purpose: ElementResolvePurpose,
    k: int,
)
    requires
        element_meant(nodes, selector, purpose) == Ok::<int, Seq<char>>(k),
    ensures
        0 <= k < nodes.len(),
        selector.meets(nodes[k]),
        forall|j: int|
            #![trigger nodes[j]]
            0 <= j < nodes.len() && j != k && selector.meets(nodes[j]) ==> (!serves(
                nodes[j],
                purpose,
            ) && serves(nodes[k], purpose)) || (!shows(nodes[j]) && shows(nodes[k])),
{
    a_resolved_element_meets_the_selector(nodes, selector, purpose);
}

/// An element that a selector resolves to carries every state the selector names, but for
/// spacing and letter case; an element that lacks one of them is never resolved.
pub proof fn a_resolved_element_carries_every_state(
    nodes: Seq<AccessibilityNode>,
    selector: ElementSelector<'_>,
    purpose: ElementResolvePurpose,
    k: int,
    i: int,
)
    requires
        element_meant(nodes, selector, purpose) == Ok::<int, Seq<char>>(k),
        0 <= i < selector.states@.len(),
        exists|c: int|
            0 <= c < selector.states@[i]@.len() && !is_white(#[trigger] selector.states@[i]@[c]),
    ensures
        0 <= k < nodes.len(),
        exists|j: int|
            0 <= j < nodes[k].states@.len() && normal(#[trigger] nodes[k].states@[j]@) == normal(
                selector.states@[i]@,
            ),
{
    a_resolved_element_is_met(nodes, selector, purpose, k);
    blank_is_all_white(selector.states@[i]@);
    assert(nodes[k].has_state(selector.states@[i]@));
}

/// An element that a selector resolves to has the selector's role in its role, the
/// selector's name in its name, and the selector's text in what it shows, its name or its
/// description, each but for spacing and letter case.
pub proof fn a_resolved_element_holds_what_was_asked_for(
    nodes: Seq<AccessibilityNode>,
    selector: ElementSelector<'_>,
    purpose: ElementResolvePurpose,
    k: int,
)
    requires
        element_meant(nodes, selector, purpose) == Ok::<int, Seq<char>>(k),
    ensures
        0 <= k < nodes.len(),
        selector.role is Some ==> contains(normal(nodes[k].role@), normal(selector.role->0@)),
        selector.name is Some ==> nodes[k].name is Some && contains(
            normal(nodes[k].name->0@),
            normal(selector.name->0@),
        ),
        selector.text is Some ==> {
            let text = normal(selector.text->0@);
            ||| nodes[k].text is Some && nodes[k].text->0.content is Some && contains(
                normal(nodes[k].text->0.content->0@),
                text,
            )
            ||| nodes[k].name is Some && contains(normal(nodes[k].name->0@), text)
            ||| nodes[k].description is Some && contains(normal(nodes[k].description->0@), text)
        },
{
    a_resolved_element_is_met(nodes, selector, purpose, k);
}

/// Whether an element is as a selector describes it: what the selector gives is words, the
/// element's role, name and text hold them, and its states are among the element's.
pub open spec fn is_as_described(node: AccessibilityNode, selector: ElementSelector<'_>) -> bool {
    &&& selector.role is Some ==> normal(selector.role->0@).len() > 0 && contains(
        normal(node.role@),
        normal(selector.role->0@),
    )
    &&& selector.name is Some ==> normal(selector.name->0@).len() > 0 && node.name is Some
        && contains(normal(node.name->0@), normal(selector.name->0@))
    &&& selector.text is Some ==> {
        let text = normal(selector.text->0@);
        &&& text.len() > 0
        &&& {
            ||| node.text is Some && node.text->0.content is Some && contains(
                normal(node.text->0.content->0@),
                text,
            )
            ||| node.name is Some && contains(normal(node.name->0@), text)
            ||| node.description is Some && contains(normal(node.description->0@), text)
        }
    }
    &&& forall|i: int|
        0 <= i < selector.states@.len() ==> (forall|c: int|
            0 <= c < selector.states@[i]@.len() ==> is_white(
                #[trigger] selector.states@[i]@[c],
            )) || exists|j: int|
            0 <= j < node.states@.len() && normal(#[trigger] node.states@[j]@) == normal(
                #[trigger] selector.states@[i]@,
            )
}

/// An element meets a selector exactly where it is as the selector describes it.
pub proof fn meeting_is_being_as_described(node: AccessibilityNode, selector: ElementSelector<'_>)
    ensures
        selector.meets(node) <==> is_as_described(node, selector),
{
    assert forall|i: int| 0 <= i < selector.states@.len() implies (is_blank(
        #[trigger] selector.states@[i]@,
    ) <==> forall|c: int|
        0 <= c < selector.states@[i]@.len() ==> is_white(#[trigger] selector.states@[i]@[c])) by {
        blank_is_all_white(selector.states@[i]@);
    }
    if selector.meets(node) {
        assert forall|i: int| 0 <= i < selector.states@.len() implies (forall|c: int|
            0 <= c < selector.states@[i]@.len() ==> is_white(
                #[trigger] selector.states@[i]@[c],
            )) || exists|j: int|
            0 <= j < node.states@.len() && normal(#[trigger] node.states@[j]@) == normal(
                #[trigger] selector.states@[i]@,
            ) by {
            if !is_blank(selector.states@[i]@) {
                assert(node.has_state(selector.states@[i]@));
            }
        }
    }
    if is_as_described(node, selector) {
        assert forall|i: int|
            0 <= i < selector.states@.len() && !is_blank(
                #[trigger] selector.states@[i]@,
            ) implies node.has_state(selector.states@[i]@) by {}
    }
}

/// The only element that is as a selector describes is the one it resolves to, whatever it
/// is looked for to do; and where no element is, the selector resolves to none.
pub proof fn the_only_element_described_is_resolved(
    nodes: Seq<AccessibilityNode>,
    selector: ElementSelector<'_>,
    purpose: ElementResolvePurpose,
    k: int,
)
    requires
        0 <= k < nodes.len(),
        forall|j: int|
            0 <= j < nodes.len() && j != k ==> !is_as_described(#[trigger] nodes[j], selector),
    ensures
        is_as_described(nodes[k], selector) ==> element_meant(nodes, selector, purpose) == Ok::<
            int,
            Seq<char>,
        >(k),
        !is_as_described(nodes[k], selector) ==> element_meant(nodes, selector, purpose) is Err,
{
    assert forall|j: int| 0 <= j < nodes.len() implies selector.meets(#[trigger] nodes[j])
        == is_as_described(nodes[j], selector) by {
        meeting_is_being_as_described(nodes[j], selector);
    }
    let met = meeting(selector);
    let useful = meeting_usefully(selector, purpose);
    let narrowed = narrowed_to(selector, purpose, matching(nodes, useful).len() > 0);
    let visible = also_showing(narrowed);
    matching_is_exact(nodes, met);
    matching_is_exact(nodes, useful);
    matching_is_exact(nodes, narrowed);
    matching_is_exact(nodes, visible);
    if is_as_described(nodes[k], selector) {
        assert(matching(nodes, met).contains(k));
        assert forall|picks: spec_fn(AccessibilityNode) -> bool|
            #![trigger matching(nodes, picks)]
            (picks == met || picks == useful || picks == narrowed || picks == visible) && matching(
                nodes,
                picks,
            ).len() > 0 implies matching(nodes, picks).len() == 1 && matching(nodes, picks)[0]
            == k by {
            let picked = matching(nodes, picks);
            assert(picked.contains(picked[0]));
            assert(met(nodes[picked[0]]));
            if picked.len() > 1 {
                assert(picked.contains(picked[1]));
                assert(met(nodes[picked[1]]));
                assert(picked[0] < picked[1]);
            }
        }
        if matching(nodes, useful).len() == 0 {
            assert(narrowed == met);
            assert(matching(nodes, narrowed).contains(k));
        }
    } else if matching(nodes, met).len() > 0 {
        assert(matching(nodes, met).contains(matching(nodes, met)[0]));
    }
}

/// Of several elements a selector describes, one is resolved only if it can do what it is
/// looked for where any of them can: be clicked, which takes an action or a place with an
/// extent; be acted on; or be given a value.
pub proof fn a_resolved_element_can_do_what_any_can(
    nodes: Seq<AccessibilityNode>,
    selector: ElementSelector<'_>,
    purpose: ElementResolvePurpose,
    k: int,
    j: int,
)
    requires
        element_meant(nodes, selector, purpose) == Ok::<int, Seq<char>>(k),
        0 <= j < nodes.len(),
        is_as_described(nodes[j], selector),
    ensures
        0 <= k < nodes.len(),
        purpose is Action && nodes[j].actions@.len() > 0 ==> nodes[k].actions@.len() > 0,
        purpose is SetValue && (nodes[j].supports_editable_text || nodes[j].value is Some)
            ==> nodes[k].supports_editable_text || nodes[k].value is Some,
        purpose is Click && nodes[j].actions@.len() > 0 ==> nodes[k].actions@.len() > 0
            || nodes[k].bounds is Some && nodes[k].bounds->0.width > 0 && nodes[k].bounds->0.height
            > 0,
        purpose is Click && nodes[j].bounds is Some && center(nodes[j].bounds->0) is Some
            ==> nodes[k].actions@.len() > 0 || nodes[k].bounds is Some
            && nodes[k].bounds->0.width > 0 && nodes[k].bounds->0.height > 0,
{
    meeting_is_being_as_described(nodes[j], selector);
    let met = meeting(selector);
    let useful = meeting_usefully(selector, purpose);
    let narrowed = narrowed_to(selector, purpose, matching(nodes, useful).len() > 0);
    let visible = also_showing(narrowed);
    matching_is_exact(nodes, met);
    matching_is_exact(nodes, useful);
    matching_is_exact(nodes, narrowed);
    matching_is_exact(nodes, visible);
    a_resolved_element_is_met(nodes, selector, purpose, k);
    if serves(nodes[j], purpose) {
        assert(matching(nodes, useful).contains(j));
        assert(narrowed == useful);
        if matching(nodes, useful).len() == 1 {
            assert(matching(nodes, useful).contains(k));
        } else if matching(nodes, visible).len() > 0 {
            assert(matching(nodes, visible).contains(k));
        } else {
            assert(matching(nodes, narrowed).contains(k));
        }
        assert(serves(nodes[k], purpose));
    }
}

/// An element that a selector describes, that can do what is asked and is on the screen, by
/// the states `showing` and `visible`, is the one resolved or none is.
pub proof fn no_element_is_resolved_over_one_on_screen(
    nodes: Seq<AccessibilityNode>,
    selector: ElementSelector<'_>,
    purpose: ElementResolvePurpose,
    k: int,
    j: int,
    a: int,
    b: int,
)
    requires
        element_meant(nodes, selector, purpose) == Ok::<int, Seq<char>>(k),
        0 <= j < nodes.len(),
        is_as_described(nodes[j], selector),
        nodes[j].actions@.len() > 0,
        purpose is SetValue ==> nodes[j].supports_editable_text || nodes[j].value is Some,
        0 <= a < nodes[j].states@.len(),
        0 <= b < nodes[j].states@.len(),
        nodes[j].states@[a]@ == "showing"@,
        nodes[j].states@[b]@ == "visible"@,
    ensures
        k == j,
{
    meeting_is_being_as_described(nodes[j], selector);
    a_resolved_element_is_met(nodes, selector, purpose, k);
    assert(nodes[j].has_state("showing"@) && nodes[j].has_state("visible"@));
    assert(serves(nodes[j], purpose));
}

/// A center stands in the middle of its rectangle: as far from one side as from the other,
/// to within a pixel. A rectangle without an extent has none.
pub proof fn a_center_is_in_the_middle(bounds: Bounds)
    ensures
        center(bounds) is Some ==> {
            let (x, y) = center(bounds)->0;
            &&& 0 <= (bounds.x + bounds.width - x) - (x - bounds.x) <= 1
            &&& 0 <= (bounds.y + bounds.height - y) - (y - bounds.y) <= 1
        },
        bounds.width <= 0 || bounds.height <= 0 ==> center(bounds) is None,
        bounds.width > 0 && bounds.height > 0 && 0 <= bounds.x <= i32::MAX - bounds.width && 0
            <= bounds.y <= i32::MAX - bounds.height ==> center(bounds) is Some,
{
}

/// An element is on the screen exactly where it carries both of the states that say so.
pub proof fn an_element_on_screen_is_showing_and_visible(node: AccessibilityNode)
    ensures
        shows(node) <==> (exists|i: int|
            0 <= i < node.states@.len() && normal(#[trigger] node.states@[i]@) == normal(
                "showing"@,
            )) && (exists|j: int|
            0 <= j < node.states@.len() && normal(#[trigger] node.states@[j]@) == normal(
                "visible"@,
            )),
{
}

/// An element serves a click where it offers an action or has a center, an action where it
/// offers one, and a value where its text can be edited or it has one.
pub proof fn an_element_serves_what_it_offers(node: AccessibilityNode)
    ensures
        serves(node, ElementResolvePurpose::Click) <==> node.actions@.len() > 0 || (
        node.bounds is Some && center(node.bounds->0) is Some),
        serves(node, ElementResolvePurpose::Action) <==> node.actions@.len() > 0,
        serves(node, ElementResolvePurpose::SetValue) <==> node.supports_editable_text
            || node.value is Some,
{
}

/// A selector says nothing exactly where each of its fields is missing or blank.
pub proof fn a_selector_of_blanks_says_nothing(selector: ElementSelector<'_>)
    ensures
        selector.says_nothing() <==> (selector.role is None || is_blank(selector.role->0@)) && (
        selector.name is None || is_blank(selector.name->0@)) && (selector.text is None || is_blank(
            selector.text->0@,
        )) && forall|i: int|
            0 <= i < selector.states@.len() ==> is_blank(#[trigger] selector.states@[i]@),
{
}

} // verus!
