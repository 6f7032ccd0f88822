//! The tree as it was last read: how its bounds map onto the desktop, and which of its
//! elements a caller means.

use vstd::prelude::*;
use vstd::string::StringExecFns;
use crate::elements::{
    answers_element, bounds_center, center, element_meant, node_has_state, resolve_semantic_node,
    AccessibilityAction, AccessibilityNode, ElementResolvePurpose, ElementSelector,
};
use crate::numerals::{decimal, decimal_of};
use crate::params::ClickParams;
use crate::select::{
    first_match, first_matching, matching, matching_is_exact, matching_items,
    the_first_match_is_the_first,
};
use crate::text::{
    blank, blank_is_all_white, cat, contains, debug_of, debug_text, equal_ignoring_case, includes,
    is_blank, is_filled, is_white, lower, lowered, normal, normalize_text, same, same_ignoring_case,
    text_of, trim, trimmed,
};
use crate::windowing::types::WindowInfo;

verus! {

/// Whether a role is that of a window of its own.
pub open spec fn is_frame_role(role: Seq<char>) -> bool {
    let role = lower(trim(role));
    role == "frame"@ || role == "window"@ || role == "dialog"@
}

/// Whether a role is that of a window of its own.
pub fn is_top_level_frame_role(role: &str) -> (r: bool)
    ensures
        r == is_frame_role(role@),
{
    let role = lowered(&trimmed(role));
    same(&role, "frame") || same(&role, "window") || same(&role, "dialog")
}

/// The frame a tree is judged by: the first of those nearest the root.
pub open spec fn top_frame(nodes: Seq<AccessibilityNode>) -> Option<int>
    decreases nodes.len(),
{
    if nodes.len() == 0 {
        None
    } else {
        let before = top_frame(nodes.drop_last());
        let here = nodes.last();
        if is_frame_role(here.role@) && (before is None || here.depth < nodes[before->0].depth) {
            Some(nodes.len() - 1)
        } else {
            before
        }
    }
}

/// Whether a tree's bounds are relative to its window: its frame claims no place on the
/// desktop.
pub open spec fn follows_window(nodes: Seq<AccessibilityNode>) -> bool {
    match top_frame(nodes) {
        Some(k) => match nodes[k].bounds {
            Some(bounds) => bounds.x == 0 && bounds.y == 0,
            None => true,
        },
        None => false,
    }
}

/// True when the tree reports its node bounds relative to its own window
/// rather than to the desktop.
///
/// The tree reads extents with `CoordType::Screen`, but an accesskit-backed
/// app (GPUI, winit) answers that relative to the window: accesskit's AT-SPI
/// adapter adds the root window origin the app registered through
/// `set_root_window_bounds`, and on Wayland no app registers one because a
/// Wayland client is never told where it sits, so the origin stays at (0, 0).
/// The signature is a top-level frame that reports no desktop origin, either
/// extents starting at (0, 0) or no bounds at all (GPUI's Frame answers
/// `GetExtents` with nothing usable), while the compositor places the window
/// elsewhere. A frame that reports a real non-zero origin (GTK, Qt) is already
/// desktop-relative, and so is a tree with no top-level frame at all, which
/// gives nothing to judge by.
pub fn bounds_are_window_relative(nodes: &[AccessibilityNode]) -> (r: bool)
    ensures
        r == follows_window(nodes@),
{
    let mut frame: Option<usize> = None;
    for i in 0..nodes.len()
        invariant
            match frame {
                Some(k) => k < i && top_frame(nodes@.take(i as int)) == Some(k as int),
                None => top_frame(nodes@.take(i as int)) is None,
            },
    {
        assert(nodes@.take(i + 1).drop_last() =~= nodes@.take(i as int));
        if is_top_level_frame_role(&nodes[i].role) {
            match frame {
                Some(k) => {
                    if nodes[i].depth < nodes[k].depth {
                        frame = Some(i);
                    }
                },
                None => {
                    frame = Some(i);
                },
            }
        }
    }
    assert(nodes@.take(nodes@.len() as int) =~= nodes@);
    match frame {
        Some(k) => match &nodes[k].bounds {
            Some(bounds) => bounds.x == 0 && bounds.y == 0,
            None => true,
        },
        None => false,
    }
}

/// The corner of a window, where it is known.
pub open spec fn origin_of(window: WindowInfo) -> Option<(i32, i32)> {
    match window.bounds {
        Some(bounds) => match (bounds.x, bounds.y) {
            (Some(x), Some(y)) => Some((x, y)),
            _ => None,
        },
        None => None,
    }
}

fn window_origin(window: &WindowInfo) -> (r: Option<(i32, i32)>)
    ensures
        r == origin_of(*window),
{
    match &window.bounds {
        Some(bounds) => match (bounds.x, bounds.y) {
            (Some(x), Some(y)) => Some((x, y)),
            _ => None,
        },
        None => None,
    }
}

/// Offset that maps a window-relative tree's node bounds onto the desktop.
///
/// The compositor backend is the only source of the real origin, so the
/// window's bounds supply it. A window at the desktop origin yields `(0, 0)`,
/// which still records that the tree follows the window.
pub fn window_relative_bounds_offset(nodes: &[AccessibilityNode], window: &WindowInfo) -> (r: Option<
    (i32, i32),
>)
    ensures
        r == if follows_window(nodes@) {
            origin_of(*window)
        } else {
            None
        },
{
    if !bounds_are_window_relative(nodes) {
        return None;
    }
    window_origin(window)
}

/// The window a window-relative tree belongs to and the origin it had when
/// the tree was cached.
#[derive(Debug, Clone, Copy, PartialEq, Eq)]
pub struct BoundsOffset {
    pub window_id: u64,
    pub offset: (i32, i32),
}

/// How a cached tree's node bounds map onto desktop coordinates.
#[derive(Debug, Clone, Copy, Default, PartialEq, Eq)]
pub enum CachedBounds {
    /// The bounds already are desktop coordinates, or no tree is cached.
    #[default]
    Desktop,
    /// The bounds follow a window, whose origin offsets them.
    Window(BoundsOffset),
    /// The bounds follow a window that could not be identified, so no offset
    /// can be applied and element points stay window-relative.
    Unanchored,
}

impl CachedBounds {
    /// The offset to add to a cached node's bounds, or `None` when they need
    /// none or none can be known.
    pub open spec fn shift(self) -> Option<(i32, i32)> {
        match self {
            CachedBounds::Window(bounds) => Some(bounds.offset),
            _ => None,
        }
    }

    /// The offset to add to a cached node's bounds, or `None` when they need
    /// none or none can be known.
    pub fn offset(&self) -> (r: Option<(i32, i32)>)
        ensures
            r == self.shift(),
    {
        match self {
            CachedBounds::Window(bounds) => Some(bounds.offset),
            CachedBounds::Desktop => None,
            CachedBounds::Unanchored => None,
        }
    }
}

/// How a tree's bounds map onto the desktop, given the window it was tied to.
pub open spec fn bounds_for(nodes: Seq<AccessibilityNode>, window: Option<WindowInfo>) -> CachedBounds {
    if !follows_window(nodes) {
        CachedBounds::Desktop
    } else {
        match window {
            Some(window) => match origin_of(window) {
                Some(offset) => CachedBounds::Window(
                    BoundsOffset { window_id: window.window_id, offset },
                ),
                None => CachedBounds::Unanchored,
            },
            None => CachedBounds::Unanchored,
        }
    }
}

/// What a missing or present reference stands for.
pub open spec fn deref<T>(o: Option<&T>) -> Option<T> {
    match o {
        Some(x) => Some(*x),
        None => None,
    }
}

/// How a freshly snapshotted tree's bounds map onto the desktop, given the
/// window it was tied to (if any).
pub fn cached_bounds_for(nodes: &[AccessibilityNode], window: Option<&WindowInfo>) -> (r:
    CachedBounds)
    ensures
        r == bounds_for(nodes@, deref(window)),
{
    if !bounds_are_window_relative(nodes) {
        return CachedBounds::Desktop;
    }
    match window {
        Some(window) => match window_origin(window) {
            Some(offset) => CachedBounds::Window(
                BoundsOffset { window_id: window.window_id, offset },
            ),
            None => CachedBounds::Unanchored,
        },
        None => CachedBounds::Unanchored,
    }
}

/// The predicate of having an id.
pub open spec fn has_window_id(window_id: u64) -> spec_fn(WindowInfo) -> bool {
    |w: WindowInfo| w.window_id == window_id
}

/// The origin a window has now, or the one it had.
pub open spec fn fresh_offset(cached: BoundsOffset, windows: Seq<WindowInfo>) -> (i32, i32) {
    match first_match(windows, has_window_id(cached.window_id)) {
        Some(k) => match origin_of(windows[k]) {
            Some(offset) => offset,
            None => cached.offset,
        },
        None => cached.offset,
    }
}

/// The window's origin as the compositor reports it now, or the cached one
/// when the window is no longer listed or has no position.
pub fn fresh_bounds_offset(cached: &BoundsOffset, windows: &[WindowInfo]) -> (r: (i32, i32))
    ensures
        r == fresh_offset(*cached, windows@),
{
    let window_id: u64 = cached.window_id;
    let is_it = |w: &WindowInfo| -> (b: bool)
        ensures
            b == has_window_id(window_id)(*w),
        { w.window_id == window_id };
    match first_matching(windows, is_it, Ghost(has_window_id(window_id))) {
        Some(k) => match window_origin(&windows[k]) {
            Some(offset) => offset,
            None => cached.offset,
        },
        None => cached.offset,
    }
}

/// How the cached node bounds map onto the desktop right now: the window's
/// current origin from the compositor when the window can be found (it
/// may have moved since the tree was cached), the cached offset otherwise.
pub fn current_bounds(cached: CachedBounds, windows: &[WindowInfo]) -> (r: CachedBounds)
    ensures
        r == match cached {
            CachedBounds::Window(bounds) => CachedBounds::Window(
                BoundsOffset {
                    window_id: bounds.window_id,
                    offset: fresh_offset(bounds, windows@),
                },
            ),
            _ => cached,
        },
{
    match cached {
        CachedBounds::Window(bounds) => CachedBounds::Window(
            BoundsOffset {
                window_id: bounds.window_id,
                offset: fresh_bounds_offset(&bounds, windows),
            },
        ),
        CachedBounds::Desktop => CachedBounds::Desktop,
        CachedBounds::Unanchored => CachedBounds::Unanchored,
    }
}

/// The predicate of belonging to one of some processes.
pub open spec fn of_pids(pids: Seq<u32>) -> spec_fn(WindowInfo) -> bool {
    |w: WindowInfo| w.pid is Some && pids.contains(w.pid->0)
}

fn has_pid(pids: &[u32], pid: u32) -> (r: bool)
    ensures
        r == pids@.contains(pid),
{
    for i in 0..pids.len()
        invariant
            forall|j: int| 0 <= j < i ==> pids@[j] != pid,
    {
        if pids[i] == pid {
            assert(pids@[i as int] == pid);
            return true;
        }
    }
    false
}

/// The single window belonging to one of `pids`, or `None` when none or
/// several do.
///
/// This is how a tree fetched without a window target still finds its window:
/// the AT-SPI roots it walked name a process, and a process with exactly one
/// window leaves no room to pick the wrong one. Several windows would, so they
/// are refused rather than guessed at — an offset by the wrong window moves
/// every click.
pub fn sole_window_for_pids<'a>(windows: &'a [WindowInfo], pids: &[u32]) -> (r: Option<
    &'a WindowInfo,
>)
    ensures
        match r {
            Some(window) => matching(windows@, of_pids(pids@)).len() == 1 && *window == windows@[
                matching(windows@, of_pids(pids@))[0]],
            None => matching(windows@, of_pids(pids@)).len() != 1,
        },
{
    let is_of = |w: &WindowInfo| -> (b: bool)
        ensures
            b == of_pids(pids@)(*w),
        {
            match w.pid {
                Some(pid) => has_pid(pids, pid),
                None => false,
            }
        };
    let picked = matching_items(windows, is_of, Ghost(of_pids(pids@)));
    if picked.len() == 1 {
        assert(picked@[0] < windows@.len());
        assert(crate::select::positions(picked@)[0] == picked@[0]);
        Some(&windows[picked[0]])
    } else {
        None
    }
}

/// The one window of some processes, asked for only where a tree's bounds need it.
pub fn window_for_untargeted_tree<'a>(
    nodes: &[AccessibilityNode],
    root_pids: &[u32],
    windows: &'a [WindowInfo],
) -> (r: Option<&'a WindowInfo>)
    ensures
        match r {
            Some(window) => root_pids@.len() > 0 && follows_window(nodes@) && matching(
                windows@,
                of_pids(root_pids@),
            ).len() == 1 && *window == windows@[matching(windows@, of_pids(root_pids@))[0]],
            None => root_pids@.len() == 0 || !follows_window(nodes@) || matching(
                windows@,
                of_pids(root_pids@),
            ).len() != 1,
        },
{
    if root_pids.len() == 0 || !bounds_are_window_relative(nodes) {
        return None;
    }
    sole_window_for_pids(windows, root_pids)
}

/// How the window reported alongside a tree was arrived at.
#[derive(Debug, Clone, Copy, PartialEq, Eq, Structural)]
pub enum WindowContextSource {
    /// The caller named a window target and it resolved to this window.
    Target,
    /// The caller named none. This is the sole window of the process whose
    /// AT-SPI tree was walked, and it is the origin the tree's
    /// window-relative bounds are offset by.
    AppPid,
}

/// Which of the two answers the reported window is.
///
/// A tree anchored through the app's own pid belongs in `window_context` just
/// as much as a resolved target does: it is the window every element point was
/// offset by, so a caller reading the field to learn where the app is gets
/// what the click path used instead of a null that reads as "no window was
/// involved". The source keeps the two distinguishable without parsing prose
/// out of the message.
pub fn window_context_source(target: Option<&WindowInfo>, reported: Option<&WindowInfo>) -> (r: Option<
    WindowContextSource,
>)
    ensures
        r == if target is Some {
            Some(WindowContextSource::Target)
        } else if reported is Some {
            Some(WindowContextSource::AppPid)
        } else {
            None
        },
{
    match (target, reported) {
        (Some(_), _) => Some(WindowContextSource::Target),
        (None, Some(_)) => Some(WindowContextSource::AppPid),
        (None, None) => None,
    }
}

/// The center of an element on the desktop: that of its bounds, moved by the offset.
pub open spec fn desktop_center(node: AccessibilityNode, offset: Option<(i32, i32)>) -> Option<
    (i32, i32),
> {
    match node.bounds {
        None => None,
        Some(bounds) => match center(bounds) {
            None => None,
            Some((x, y)) => {
                let (dx, dy) = match offset {
                    Some(offset) => offset,
                    None => (0i32, 0i32),
                };
                if i32::MIN <= x + dx <= i32::MAX && i32::MIN <= y + dy <= i32::MAX {
                    Some(((x + dx) as i32, (y + dy) as i32))
                } else {
                    None
                }
            },
        },
    }
}

/// Center of a cached node's bounds in desktop coordinates, with the
/// window-origin offset applied when the tree reported window-relative
/// bounds.
pub fn desktop_center_for_node(node: &AccessibilityNode, offset: Option<(i32, i32)>) -> (r: Option<
    (i32, i32),
>)
    ensures
        r == desktop_center(*node, offset),
{
    let bounds = match &node.bounds {
        Some(bounds) => bounds,
        None => return None,
    };
    let (x, y): (i32, i32) = match bounds_center(bounds) {
        Some(point) => point,
        None => return None,
    };
    let (dx, dy): (i32, i32) = match offset {
        Some(offset) => offset,
        None => (0, 0),
    };
    let far_x: i64 = x as i64 + dx as i64;
    let far_y: i64 = y as i64 + dy as i64;
    if far_x < i32::MIN as i64 || far_x > i32::MAX as i64 || far_y < i32::MIN as i64 || far_y
        > i32::MAX as i64 {
        return None;
    }
    Some((far_x as i32, far_y as i32))
}

/// The predicate of having an element index.
pub open spec fn indexed(index: u32) -> spec_fn(AccessibilityNode) -> bool {
    |node: AccessibilityNode| node.index == index
}

/// The predicate of having a reference.
pub open spec fn referred(object_ref: Seq<char>) -> spec_fn(AccessibilityNode) -> bool {
    |node: AccessibilityNode| node.object_ref@ == object_ref
}

/// The position of the first node of an index.
pub fn find_index(nodes: &[AccessibilityNode], index: u32) -> (r: Option<usize>)
    ensures
        match r {
            Some(k) => first_match(nodes@, indexed(index)) == Some(k as int) && k < nodes@.len()
                && nodes@[k as int].index == index,
            None => first_match(nodes@, indexed(index)) is None,
        },
{
    let is_it = |node: &AccessibilityNode| -> (b: bool)
        ensures
            b == indexed(index)(*node),
        { node.index == index };
    first_matching(nodes, is_it, Ghost(indexed(index)))
}

/// The position of the first node of a reference.
pub fn find_ref(nodes: &[AccessibilityNode], object_ref: &str) -> (r: Option<usize>)
    ensures
        match r {
            Some(k) => first_match(nodes@, referred(object_ref@)) == Some(k as int) && k
                < nodes@.len() && nodes@[k as int].object_ref@ == object_ref@,
            None => first_match(nodes@, referred(object_ref@)) is None,
        },
{
    let is_it = |node: &AccessibilityNode| -> (b: bool)
        ensures
            b == referred(object_ref@)(*node),
        { same(&node.object_ref, object_ref) };
    first_matching(nodes, is_it, Ghost(referred(object_ref@)))
}

/// What is said when a caller names no element.
pub const NO_ELEMENT: &'static str =
    "Pass element_index, element_identifier, or a semantic selector such as role/name/text/states from the latest get_app_state result.";

/// The element a caller names: by reference, or else by index, or else by a selector.
pub open spec fn node_meant(
    nodes: Seq<AccessibilityNode>,
    element_index: Option<u32>,
    object_ref: Option<Seq<char>>,
    selector: ElementSelector<'_>,
    purpose: ElementResolvePurpose,
) -> Result<int, Seq<char>> {
    if is_filled(object_ref) {
        let wanted = trim(object_ref->0);
        match first_match(nodes, referred(wanted)) {
            Some(k) => Ok(k),
            None => Err(
                "No cached accessibility node with object_ref "@ + wanted
                    + ". Call get_app_state first."@,
            ),
        }
    } else if element_index is Some {
        match first_match(nodes, indexed(element_index->0)) {
            Some(k) => Ok(k),
            None => Err(
                "No element_index "@ + decimal(element_index->0 as int)
                    + " in the tree as it was last read. An index names the same element until that element goes away, so this one is gone: the view changed, or the application restarted. Call get_app_state or wait_for and read the index again."@,
            ),
        }
    } else if selector.says_nothing() {
        Err(NO_ELEMENT@)
    } else {
        element_meant(nodes, selector, purpose)
    }
}

/// The position of the element a caller names.
pub fn resolve_cached_node(
    nodes: &[AccessibilityNode],
    element_index: Option<u32>,
    object_ref: Option<&str>,
    selector: &ElementSelector<'_>,
    purpose: ElementResolvePurpose,
) -> (r: Result<usize, String>)
    ensures
        answers_element(
            nodes@,
            node_meant(
                nodes@,
                element_index,
                crate::elements::str_of(object_ref),
                *selector,
                purpose,
            ),
            r,
        ),
{
    if let Some(object_ref) = object_ref {
        if !blank(object_ref) {
            let wanted = trimmed(object_ref);
            return match find_ref(nodes, &wanted) {
                Some(k) => Ok(k),
                None => {
                    let mut message = cat(
                        "No cached accessibility node with object_ref ",
                        &wanted,
                    );
                    message.append(". Call get_app_state first.");
                    Err(message)
                },
            };
        }
    }
    if let Some(index) = element_index {
        return match find_index(nodes, index) {
            Some(k) => Ok(k),
            None => {
                let mut message = cat("No element_index ", &decimal_of(index as u64));
                message.append(
                    " in the tree as it was last read. An index names the same element until that element goes away, so this one is gone: the view changed, or the application restarted. Call get_app_state or wait_for and read the index again.",
                );
                Err(message)
            },
        };
    }
    if selector.is_empty() {
        return Err(NO_ELEMENT.to_owned());
    }
    resolve_semantic_node(nodes, selector, purpose)
}

/// An index that no node of the tree has is refused, whatever other elements there are.
pub proof fn a_gone_index_is_refused(
    nodes: Seq<AccessibilityNode>,
    index: u32,
    selector: ElementSelector<'_>,
    purpose: ElementResolvePurpose,
)
    requires
        forall|i: int| 0 <= i < nodes.len() ==> (#[trigger] nodes[i]).index != index,
    ensures
        node_meant(nodes, Some(index), None, selector, purpose) is Err,
{
    matching_is_exact(nodes, indexed(index));
    let picked = matching(nodes, indexed(index));
    if picked.len() > 0 {
        assert(picked.contains(picked[0]));
    }
}

/// A node that is in the tree is found by its index, where no other node has that index.
pub proof fn an_index_resolves_to_its_node(
    nodes: Seq<AccessibilityNode>,
    k: int,
    selector: ElementSelector<'_>,
    purpose: ElementResolvePurpose,
)
    requires
        0 <= k < nodes.len(),
        forall|i: int|
            0 <= i < nodes.len() && (#[trigger] nodes[i]).index == nodes[k].index ==> i == k,
    ensures
        node_meant(nodes, Some(nodes[k].index), None, selector, purpose) == Ok::<int, Seq<char>>(k),
{
    let picks = indexed(nodes[k].index);
    matching_is_exact(nodes, picks);
    let picked = matching(nodes, picks);
    assert(picked.contains(k));
    assert(picked.contains(picked[0]));
    assert(nodes[picked[0]].index == nodes[k].index);
}

/// The reference of the element a caller names: the one given, or that of the element
/// found.
pub open spec fn ref_meant(
    nodes: Seq<AccessibilityNode>,
    element_index: Option<u32>,
    element_identifier: Option<Seq<char>>,
    selector: ElementSelector<'_>,
    purpose: ElementResolvePurpose,
) -> Result<Seq<char>, Seq<char>> {
    if is_filled(element_identifier) {
        Ok(trim(element_identifier->0))
    } else {
        match node_meant(nodes, element_index, None, selector, purpose) {
            Ok(k) => Ok(nodes[k].object_ref@),
            Err(message) => Err(message),
        }
    }
}

/// The reference of the element a caller names.
pub fn resolve_object_ref(
    nodes: &[AccessibilityNode],
    element_index: Option<u32>,
    element_identifier: Option<&str>,
    selector: &ElementSelector<'_>,
    purpose: ElementResolvePurpose,
) -> (r: Result<String, String>)
    ensures
        ({
            let due = ref_meant(
                nodes@,
                element_index,
                crate::elements::str_of(element_identifier),
                *selector,
                purpose,
            );
            match r {
                Ok(object_ref) => due == Ok::<Seq<char>, Seq<char>>(object_ref@),
                Err(message) => due == Err::<Seq<char>, Seq<char>>(message@),
            }
        }),
{
    if let Some(identifier) = element_identifier {
        if !blank(identifier) {
            return Ok(trimmed(identifier));
        }
    }
    match resolve_cached_node(nodes, element_index, None, selector, purpose) {
        Ok(k) => Ok(nodes[k].object_ref.clone()),
        Err(message) => Err(message),
    }
}

/// A list of texts again.
pub fn copy_texts(list: &[String]) -> (r: Vec<String>)
    ensures
        r@ == list@,
{
    let mut copy: Vec<String> = Vec::new();
    for i in 0..list.len()
        invariant
            copy@ == list@.take(i as int),
    {
        copy.push(list[i].clone());
        assert(list@.take(i + 1) =~= list@.take(i as int).push(list@[i as int]));
    }
    assert(list@.take(list@.len() as int) =~= list@);
    copy
}

/// The states an element had when the tree was read, none where it is not in it.
pub open spec fn states_of(nodes: Seq<AccessibilityNode>, object_ref: Seq<char>) -> Seq<String> {
    match first_match(nodes, referred(object_ref)) {
        Some(k) => nodes[k].states@,
        None => Seq::empty(),
    }
}

/// The states an element had when the tree was read.
pub fn cached_node_states(nodes: &[AccessibilityNode], object_ref: &str) -> (r: Vec<String>)
    ensures
        r@ == states_of(nodes@, object_ref@),
{
    match find_ref(nodes, object_ref) {
        Some(k) => copy_texts(&nodes[k].states),
        None => Vec::new(),
    }
}

/// Whether an element can take typed text, by its states.
pub open spec fn takes_keys(nodes: Seq<AccessibilityNode>, object_ref: Seq<char>) -> bool {
    match first_match(nodes, referred(object_ref)) {
        Some(k) => nodes[k].has_state("focusable"@) && nodes[k].has_state("editable"@),
        None => false,
    }
}

/// A cached element with the `focusable` and `editable` states can take
/// typed text even without the Value or `EditableText` interfaces.
pub fn cached_node_is_keyboard_editable(nodes: &[AccessibilityNode], object_ref: &str) -> (r: bool)
    ensures
        r == takes_keys(nodes@, object_ref@),
{
    match find_ref(nodes, object_ref) {
        Some(k) => node_has_state(&nodes[k], "focusable") && node_has_state(&nodes[k], "editable"),
        None => false,
    }
}

/// An element in the terms the tree shows it: its role, and its name when it
/// has one.
pub open spec fn label_of(node: AccessibilityNode) -> Seq<char> {
    if is_filled(text_of(node.name)) {
        node.role@ + " "@ + debug_text(trim(node.name->0@))
    } else {
        node.role@
    }
}

/// An element in the terms the tree shows it: its role, and its name when it
/// has one.
pub fn describe_cached_node(node: &AccessibilityNode) -> (r: String)
    ensures
        r@ == label_of(*node),
{
    match &node.name {
        Some(name) => if blank(name) {
            node.role.clone()
        } else {
            let mut label = cat(&node.role, " ");
            label.append(&debug_of(&trimmed(name)));
            label
        },
        None => node.role.clone(),
    }
}

/// How the cached tree describes an element, for a note that says what
/// was acted on and not only where it was.
pub fn cached_node_label(nodes: &[AccessibilityNode], element_index: u32) -> (r: Option<String>)
    ensures
        match first_match(nodes@, indexed(element_index)) {
            Some(k) => text_of(r) == Some(label_of(nodes@[k])),
            None => r is None,
        },
{
    match find_index(nodes, element_index) {
        Some(k) => Some(describe_cached_node(&nodes[k])),
        None => None,
    }
}

/// The center of the element of an index.
pub open spec fn center_of_index(
    nodes: Seq<AccessibilityNode>,
    element_index: u32,
    offset: Option<(i32, i32)>,
) -> Option<(i32, i32)> {
    match first_match(nodes, indexed(element_index)) {
        Some(k) => desktop_center(nodes[k], offset),
        None => None,
    }
}

/// The center of the element of an index.
pub fn center_for_cached_node(
    nodes: &[AccessibilityNode],
    element_index: u32,
    offset: Option<(i32, i32)>,
) -> (r: Option<(i32, i32)>)
    ensures
        r == center_of_index(nodes@, element_index, offset),
{
    match find_index(nodes, element_index) {
        Some(k) => desktop_center_for_node(&nodes[k], offset),
        None => None,
    }
}

/// What is said of an element without a center.
pub open spec fn no_bounds(index: u32) -> Seq<char> {
    "No clickable bounds cached for element_index "@ + decimal(index as int)
        + ". Call get_app_state first and choose a node with positive width and height."@
}

pub(crate) fn no_bounds_message(index: u32) -> (r: String)
    ensures
        r@ == no_bounds(index),
{
    let mut message = cat(
        "No clickable bounds cached for element_index ",
        &decimal_of(index as u64),
    );
    message.append(
        ". Call get_app_state first and choose a node with positive width and height.",
    );
    message
}

/// The point a caller names, where one is named: coordinates, or else the center of an
/// element.
pub open spec fn point_meant(
    nodes: Seq<AccessibilityNode>,
    x: Option<i32>,
    y: Option<i32>,
    element_index: Option<u32>,
    offset: Option<(i32, i32)>,
) -> Result<Option<(i32, i32)>, Seq<char>> {
    if x is Some && y is Some {
        Ok(Some((x->0, y->0)))
    } else if element_index is Some {
        match center_of_index(nodes, element_index->0, offset) {
            Some(point) => Ok(Some(point)),
            None => Err(no_bounds(element_index->0)),
        }
    } else {
        Ok(None)
    }
}

/// The point a caller names, where one is named.
pub fn resolve_optional_target_point(
    nodes: &[AccessibilityNode],
    x: Option<i32>,
    y: Option<i32>,
    element_index: Option<u32>,
    offset: Option<(i32, i32)>,
) -> (r: Result<Option<(i32, i32)>, String>)
    ensures
        ({
            let due = point_meant(nodes@, x, y, element_index, offset);
            match r {
                Ok(point) => due == Ok::<Option<(i32, i32)>, Seq<char>>(point),
                Err(message) => due == Err::<Option<(i32, i32)>, Seq<char>>(message@),
            }
        }),
{
    match (x, y) {
        (Some(x), Some(y)) => return Ok(Some((x, y))),
        _ => {},
    }
    match element_index {
        Some(index) => match center_for_cached_node(nodes, index, offset) {
            Some(point) => Ok(Some(point)),
            None => Err(no_bounds_message(index)),
        },
        None => Ok(None),
    }
}

/// The predicate of being a click action.
pub open spec fn is_click() -> spec_fn(AccessibilityAction) -> bool {
    |action: AccessibilityAction| same_ignoring_case(trim(action.name@), "click"@)
}

/// The position of the action named click.
pub fn click_action(actions: &[AccessibilityAction]) -> (r: Option<usize>)
    ensures
        match r {
            Some(k) => first_match(actions@, is_click()) == Some(k as int) && k < actions@.len(),
            None => first_match(actions@, is_click()) is None,
        },
{
    let clicks = |action: &AccessibilityAction| -> (b: bool)
        ensures
            b == is_click()(*action),
        { equal_ignoring_case(&trimmed(&action.name), "click") };
    first_matching(actions, clicks, Ghost(is_click()))
}

/// Whether a click is the one an element's own action makes: one of the left button.
pub open spec fn is_plain(button: Option<Seq<char>>, click_count: Option<u32>) -> bool {
    let button = match button {
        Some(button) => lower(button),
        None => "left"@,
    };
    (button == "left"@ || button == "primary"@) && (click_count is None || click_count->0 == 1)
}

/// Whether a click is the one an element's own action makes.
pub fn is_plain_left_click(button: Option<&str>, click_count: Option<u32>) -> (r: bool)
    ensures
        r == is_plain(crate::elements::str_of(button), click_count),
{
    let button = match button {
        Some(button) => lowered(button),
        None => {
            let left = "left".to_owned();
            left
        },
    };
    let once = match click_count {
        Some(count) => count == 1,
        None => true,
    };
    (same(&button, "left") || same(&button, "primary")) && once
}

/// What a click is aimed at.
#[derive(Debug)]
pub enum ClickTarget {
    Coordinates(i32, i32),
    /// An element from the cached tree: the AT-SPI action to invoke first, if
    /// any, and the desktop point for the pointer fallback, if it has bounds.
    Element {
        element_index: u32,
        /// The element in the terms the tree shows it, so a note names what
        /// was clicked and not only where.
        label: String,
        object_ref: String,
        action: Option<AccessibilityAction>,
        point: Option<(i32, i32)>,
        /// The window-origin offset folded into `point`, when one applied.
        bounds_offset: Option<(i32, i32)>,
        /// The element's states when the tree was cached, for the
        /// before -> after note.
        states: Vec<String>,
    },
}

/// The action a click on an element invokes before the pointer is tried: its click action
/// where the click is a plain one, and without a point its first action.
pub open spec fn action_for(
    node: AccessibilityNode,
    plain: bool,
    point: Option<(i32, i32)>,
) -> Option<AccessibilityAction> {
    if !plain {
        None
    } else {
        match first_match(node.actions@, is_click()) {
            Some(k) => Some(node.actions@[k]),
            None => if point is None && node.actions@.len() > 0 {
                Some(node.actions@[0])
            } else {
                None
            },
        }
    }
}

/// Whether a target is the one a click on a node is aimed at.
pub open spec fn aims_at(
    target: ClickTarget,
    node: AccessibilityNode,
    plain: bool,
    offset: Option<(i32, i32)>,
) -> bool {
    let at = desktop_center(node, offset);
    match target {
        ClickTarget::Element {
            element_index,
            label,
            object_ref,
            action,
            point,
            bounds_offset,
            states,
        } => {
            &&& element_index == node.index
            &&& label@ == label_of(node)
            &&& object_ref == node.object_ref
            &&& point == at
            &&& action == action_for(node, plain, at)
            &&& at is Some || action is Some
            &&& bounds_offset == if at is Some && offset is Some && offset->0 != (0i32, 0i32) {
                offset
            } else {
                None
            }
            &&& states@ == node.states@
        },
        ClickTarget::Coordinates(..) => false,
    }
}

/// What is said of an element that offers nothing to click.
pub open spec fn no_click(index: u32, plain: bool) -> Seq<char> {
    if plain {
        "No clickable bounds cached for element_index "@ + decimal(index as int)
            + ", and the element exposes no primary AT-SPI action."@
    } else {
        no_bounds(index)
    }
}

/// Whether an answer is what a click is aimed at, or the refusal that was due. Coordinates
/// win over an element; an element without a point and without an action is refused.
pub open spec fn click_answers(
    nodes: Seq<AccessibilityNode>,
    params: ClickParams,
    selector: ElementSelector<'_>,
    offset: Option<(i32, i32)>,
    r: Result<ClickTarget, String>,
) -> bool {
    let plain = is_plain(text_of(params.button), params.click_count);
    if params.x is Some && params.y is Some {
        r is Ok && r->Ok_0 is Coordinates && r->Ok_0->Coordinates_0 == params.x->0
            && r->Ok_0->Coordinates_1 == params.y->0
    } else {
        match node_meant(
            nodes,
            params.element_index,
            text_of(params.object_ref),
            selector,
            ElementResolvePurpose::Click,
        ) {
            Err(message) => r is Err && r->Err_0@ == message,
            Ok(k) => {
                let at = desktop_center(nodes[k], offset);
                if at is None && action_for(nodes[k], plain, at) is None {
                    r is Err && r->Err_0@ == no_click(nodes[k].index, plain)
                } else {
                    r is Ok && aims_at(r->Ok_0, nodes[k], plain, offset)
                }
            },
        }
    }
}

/// What a click is aimed at.
pub fn resolve_click_target(
    nodes: &[AccessibilityNode],
    params: &ClickParams,
    offset: Option<(i32, i32)>,
) -> (r: Result<ClickTarget, String>)
    ensures
        exists|selector: ElementSelector<'_>|
            crate::params::selects(
                selector,
                params.role,
                params.name,
                params.text,
                params.states@,
            ) && #[trigger] click_answers(nodes@, *params, selector, offset, r),
{
    let selector = params.selector();
    match (params.x, params.y) {
        (Some(x), Some(y)) => {
            let r = Ok(ClickTarget::Coordinates(x, y));
            assert(click_answers(nodes@, *params, selector, offset, r));
            return r;
        },
        _ => {},
    }
    let k: usize = match resolve_cached_node(
        nodes,
        params.element_index,
        crate::text::borrowed(&params.object_ref),
        &selector,
        ElementResolvePurpose::Click,
    ) {
        Ok(k) => k,
        Err(message) => {
            let r = Err(message);
            assert(click_answers(nodes@, *params, selector, offset, r));
            return r;
        },
    };
    let node = &nodes[k];
    let point = desktop_center_for_node(node, offset);
    let plain = is_plain_left_click(crate::text::borrowed(&params.button), params.click_count);
    // A plain left click is what the element's own `click` action does,
    // and the action does not depend on where the window sits on the
    // desktop, so it is tried first and the pointer is the fallback.
    // Without bounds, any primary action is better than nothing.
    let action = if plain {
        match click_action(&node.actions) {
            Some(a) => Some(node.actions[a].clone()),
            None => if point.is_none() && node.actions.len() > 0 {
                Some(node.actions[0].clone())
            } else {
                None
            },
        }
    } else {
        None
    };
    assert(action == action_for(*node, plain, point));
    if point.is_none() && action.is_none() {
        let message = if plain {
            let mut message = cat(
                "No clickable bounds cached for element_index ",
                &decimal_of(node.index as u64),
            );
            message.append(", and the element exposes no primary AT-SPI action.");
            message
        } else {
            no_bounds_message(node.index)
        };
        let r = Err(message);
        assert(click_answers(nodes@, *params, selector, offset, r));
        return r;
    }
    let bounds_offset = match (point, offset) {
        (Some(_), Some((dx, dy))) => if dx != 0 || dy != 0 {
            Some((dx, dy))
        } else {
            None
        },
        _ => None,
    };
    let r = Ok(
        ClickTarget::Element {
            element_index: node.index,
            label: describe_cached_node(node),
            object_ref: node.object_ref.clone(),
            action,
            point,
            bounds_offset,
            states: copy_texts(&node.states),
        },
    );
    assert(click_answers(nodes@, *params, selector, offset, r));
    r
}

/// Which way a wheel event goes. Four directions, no backend meaning.
#[derive(Debug, Clone, Copy, PartialEq, Eq, Structural)]
pub enum ScrollDirection {
    Up,
    Down,
    Left,
    Right,
}

/// The direction a word names.
pub open spec fn direction_named(word: Seq<char>) -> Option<ScrollDirection> {
    let word = lower(trim(word));
    if word == "up"@ {
        Some(ScrollDirection::Up)
    } else if word == "down"@ {
        Some(ScrollDirection::Down)
    } else if word == "left"@ {
        Some(ScrollDirection::Left)
    } else if word == "right"@ {
        Some(ScrollDirection::Right)
    } else {
        None
    }
}

/// The direction a word names.
pub fn parse_scroll_direction(direction: &str) -> (r: Option<ScrollDirection>)
    ensures
        r == direction_named(direction@),
{
    let word = lowered(&trimmed(direction));
    if same(&word, "up") {
        Some(ScrollDirection::Up)
    } else if same(&word, "down") {
        Some(ScrollDirection::Down)
    } else if same(&word, "left") {
        Some(ScrollDirection::Left)
    } else if same(&word, "right") {
        Some(ScrollDirection::Right)
    } else {
        None
    }
}

/// The word for a direction.
pub open spec fn direction_word(direction: ScrollDirection) -> Seq<char> {
    match direction {
        ScrollDirection::Up => "up"@,
        ScrollDirection::Down => "down"@,
        ScrollDirection::Left => "left"@,
        ScrollDirection::Right => "right"@,
    }
}

/// The predicate of being an action that scrolls one way.
pub open spec fn scrolls(direction: ScrollDirection) -> spec_fn(AccessibilityAction) -> bool {
    |action: AccessibilityAction|
        contains(normal(action.name@), "scroll"@) && contains(
            normal(action.name@),
            direction_word(direction),
        )
}

/// The position of an action named like "scroll down" / "scrollDown" / "scroll-down" for
/// the direction, matched on the normalized name.
pub fn scroll_action_for_direction(
    actions: &[AccessibilityAction],
    direction: ScrollDirection,
) -> (r: Option<usize>)
    ensures
        match r {
            Some(k) => first_match(actions@, scrolls(direction)) == Some(k as int) && k
                < actions@.len(),
            None => first_match(actions@, scrolls(direction)) is None,
        },
{
    let word = match direction {
        ScrollDirection::Up => "up",
        ScrollDirection::Down => "down",
        ScrollDirection::Left => "left",
        ScrollDirection::Right => "right",
    };
    let does = |action: &AccessibilityAction| -> (b: bool)
        ensures
            b == scrolls(direction)(*action),
        {
            let name = normalize_text(&action.name);
            includes(&name, "scroll") && includes(&name, word)
        };
    first_matching(actions, does, Ghost(scrolls(direction)))
}

/// The cached element's AT-SPI action that scrolls in `direction`, if it
/// exposes one (GTK scrolled windows and web views name them "scroll down"
/// and so on).
pub fn cached_scroll_action(
    nodes: &[AccessibilityNode],
    element_index: u32,
    direction: ScrollDirection,
) -> (r: Option<(String, AccessibilityAction)>)
    ensures
        match first_match(nodes@, indexed(element_index)) {
            Some(k) => match first_match(nodes@[k].actions@, scrolls(direction)) {
                Some(a) => r == Some((nodes@[k].object_ref, nodes@[k].actions@[a])),
                None => r is None,
            },
            None => r is None,
        },
{
    match find_index(nodes, element_index) {
        Some(k) => match scroll_action_for_direction(&nodes[k].actions, direction) {
            Some(a) => Some((nodes[k].object_ref.clone(), nodes[k].actions[a].clone())),
            None => None,
        },
        None => None,
    }
}

/// The action a caller names, or the first one where none is named.
pub fn requested_or_primary_action(action: Option<&str>) -> (r: String)
    ensures
        r@ == if is_filled(crate::elements::str_of(action)) {
            trim(action->0@)
        } else {
            "0"@
        },
{
    match action {
        Some(action) => if blank(action) {
            "0".to_owned()
        } else {
            trimmed(action)
        },
        None => "0".to_owned(),
    }
}

/// A tree and how its bounds map onto the desktop.
#[derive(Debug)]
pub struct CachedTree {
    pub nodes: Vec<AccessibilityNode>,
    pub bounds: CachedBounds,
}

impl CachedTree {
    /// Nothing read yet.
    pub fn empty() -> (r: Self)
        ensures
            r.nodes@.len() == 0,
            r.bounds == CachedBounds::Desktop,
    {
        CachedTree { nodes: Vec::new(), bounds: CachedBounds::Desktop }
    }

    /// Remember a tree and the window it was tied to.
    pub fn cache_tree(&mut self, nodes: Vec<AccessibilityNode>, window: Option<&WindowInfo>)
        ensures
            final(self).nodes == nodes,
            final(self).bounds == bounds_for(nodes@, deref(window)),
    {
        self.bounds = cached_bounds_for(&nodes, window);
        self.nodes = nodes;
    }

    /// Forget the tree.
    pub fn clear_cached_nodes(&mut self)
        ensures
            final(self).nodes@.len() == 0,
            final(self).bounds == CachedBounds::Desktop,
    {
        self.nodes = Vec::new();
        self.bounds = CachedBounds::Desktop;
    }
}

/// A tree whose bounds follow a window lands an element where it is on the desktop: the
/// center found is inside the element's bounds moved by the window's corner.
pub proof fn an_anchored_center_is_inside(
    node: AccessibilityNode,
    nodes: Seq<AccessibilityNode>,
    window: WindowInfo,
)
    requires
        follows_window(nodes),
        origin_of(window) is Some,
        desktop_center(node, bounds_for(nodes, Some(window)).shift()) is Some,
    ensures
        ({
            let (x, y) = desktop_center(node, bounds_for(nodes, Some(window)).shift())->0;
            let (left, top) = origin_of(window)->0;
            let bounds = node.bounds->0;
            &&& left + bounds.x <= x < left + bounds.x + bounds.width
            &&& top + bounds.y <= y < top + bounds.y + bounds.height
        }),
{
    crate::elements::a_center_is_inside(node.bounds->0);
}

/// A reference names the element that has it, whatever index and description come with it:
/// the first such element of the tree, and none where there is no such element.
pub proof fn a_reference_names_the_element_that_has_it(
    nodes: Seq<AccessibilityNode>,
    element_index: Option<u32>,
    object_ref: Seq<char>,
    selector: ElementSelector<'_>,
    purpose: ElementResolvePurpose,
)
    requires
        exists|i: int| 0 <= i < object_ref.len() && !is_white(#[trigger] object_ref[i]),
    ensures
        match node_meant(nodes, element_index, Some(object_ref), selector, purpose) {
            Ok(k) => 0 <= k < nodes.len() && nodes[k].object_ref@ == trim(object_ref) && forall|
                j: int,
            |
                0 <= j < k ==> (#[trigger] nodes[j]).object_ref@ != trim(object_ref),
            Err(_) => forall|j: int|
                0 <= j < nodes.len() ==> (#[trigger] nodes[j]).object_ref@ != trim(object_ref),
        },
{
    blank_is_all_white(object_ref);
    the_first_match_is_the_first(nodes, referred(trim(object_ref)));
    assert forall|j: int| 0 <= j < nodes.len() implies referred(trim(object_ref))(
        #[trigger] nodes[j],
    ) == (nodes[j].object_ref@ == trim(object_ref)) by {}
}

/// An index names an element that has it, whatever description comes with it, and names none
/// where no element has it.
pub proof fn an_index_names_an_element_that_has_it(
    nodes: Seq<AccessibilityNode>,
    index: u32,
    selector: ElementSelector<'_>,
    purpose: ElementResolvePurpose,
)
    ensures
        match node_meant(nodes, Some(index), None, selector, purpose) {
            Ok(k) => 0 <= k < nodes.len() && nodes[k].index == index,
            Err(_) => forall|j: int| 0 <= j < nodes.len() ==> (#[trigger] nodes[j]).index != index,
        },
{
    the_first_match_is_the_first(nodes, indexed(index));
    assert forall|j: int| 0 <= j < nodes.len() implies indexed(index)(#[trigger] nodes[j]) == (
    nodes[j].index == index) by {}
}

/// Without a reference and an index, a description names what it resolves to, and one that
/// says nothing names no element.
pub proof fn a_description_names_what_it_resolves_to(
    nodes: Seq<AccessibilityNode>,
    selector: ElementSelector<'_>,
    purpose: ElementResolvePurpose,
)
    ensures
        selector.role is None && selector.name is None && selector.text is None
            && selector.states@.len() == 0 ==> node_meant(nodes, None, None, selector, purpose)
            is Err,
        selector.name is Some && !is_blank(selector.name->0@) ==> node_meant(
            nodes,
            None,
            None,
            selector,
            purpose,
        ) == element_meant(nodes, selector, purpose),
        selector.role is Some && !is_blank(selector.role->0@) ==> node_meant(
            nodes,
            None,
            None,
            selector,
            purpose,
        ) == element_meant(nodes, selector, purpose),
        selector.text is Some && !is_blank(selector.text->0@) ==> node_meant(
            nodes,
            None,
            None,
            selector,
            purpose,
        ) == element_meant(nodes, selector, purpose),
        selector.states@.len() > 0 && !is_blank(selector.states@[0]@) ==> node_meant(
            nodes,
            None,
            None,
            selector,
            purpose,
        ) == element_meant(nodes, selector, purpose),
{
}

/// The point of an element on the desktop is the middle of its bounds, to within a pixel,
/// moved by the corner of the window that the bounds are relative to.
pub proof fn an_elements_point_is_its_middle_moved_by_the_window(
    node: AccessibilityNode,
    offset: Option<(i32, i32)>,
)
    requires
        desktop_center(node, offset) is Some,
    ensures
        node.bounds is Some,
        ({
            let (x, y) = desktop_center(node, offset)->0;
            let (dx, dy) = if offset is Some {
                offset->0
            } else {
                (0i32, 0i32)
            };
            let bounds = node.bounds->0;
            &&& 0 <= 2 * (x - dx - bounds.x) <= bounds.width <= 2 * (x - dx - bounds.x) + 1
            &&& 0 <= 2 * (y - dy - bounds.y) <= bounds.height <= 2 * (y - dy - bounds.y) + 1
            &&& bounds.width > 0 && bounds.height > 0
        }),
{
}

/// The point a caller names is the very coordinates given, both of them, whatever element is
/// named too; with not both of them, it is the point of the first element of the index; and
/// with neither, none is named.
pub proof fn a_point_is_the_coordinates_or_the_elements(
    nodes: Seq<AccessibilityNode>,
    x: Option<i32>,
    y: Option<i32>,
    element_index: Option<u32>,
    offset: Option<(i32, i32)>,
)
    ensures
        x is Some && y is Some ==> point_meant(nodes, x, y, element_index, offset) == Ok::<
            Option<(i32, i32)>,
            Seq<char>,
        >(Some((x->0, y->0))),
        !(x is Some && y is Some) && element_index is None ==> point_meant(
            nodes,
            x,
            y,
            element_index,
            offset,
        ) == Ok::<Option<(i32, i32)>, Seq<char>>(None),
        !(x is Some && y is Some) && element_index is Some && point_meant(
            nodes,
            x,
            y,
            element_index,
            offset,
        ) is Ok ==> exists|k: int|
            0 <= k < nodes.len() && (#[trigger] nodes[k]).index == element_index->0 && point_meant(
                nodes,
                x,
                y,
                element_index,
                offset,
            )->Ok_0 == desktop_center(nodes[k], offset) && desktop_center(nodes[k], offset) is Some,
{
    if element_index is Some {
        the_first_match_is_the_first(nodes, indexed(element_index->0));
    }
}

/// A click of another button than the left one, or more than one click, is made by the
/// pointer: no action of the element is invoked in its place.
pub proof fn only_a_single_left_click_invokes_an_action(
    nodes: Seq<AccessibilityNode>,
    params: ClickParams,
    selector: ElementSelector<'_>,
    offset: Option<(i32, i32)>,
    r: Result<ClickTarget, String>,
)
    requires
        click_answers(nodes, params, selector, offset, r),
        r is Ok,
        r->Ok_0 is Element,
        r->Ok_0->action is Some,
    ensures
        params.click_count is None || params.click_count->0 == 1,
        params.button is None || lower(params.button->0@) == "left"@ || lower(params.button->0@)
            == "primary"@,
{
}

/// A click goes to the coordinates where both are given, and else to the element that is
/// named: by its reference, its index and its own point, and by an action of its own, which
/// is named click or is its first where it has no point.
pub proof fn a_click_goes_to_what_is_named(
    nodes: Seq<AccessibilityNode>,
    params: ClickParams,
    selector: ElementSelector<'_>,
    offset: Option<(i32, i32)>,
    r: Result<ClickTarget, String>,
)
    requires
        click_answers(nodes, params, selector, offset, r),
        r is Ok,
    ensures
        params.x is Some && params.y is Some <==> r->Ok_0 is Coordinates,
        r->Ok_0 is Coordinates ==> r->Ok_0->Coordinates_0 == params.x->0 && r->Ok_0->Coordinates_1
            == params.y->0,
        r->Ok_0 is Element ==> {
            let meant = node_meant(
                nodes,
                params.element_index,
                text_of(params.object_ref),
                selector,
                ElementResolvePurpose::Click,
            );
            let k = meant->Ok_0;
            &&& meant is Ok
            &&& r->Ok_0->Element_object_ref@ == nodes[k].object_ref@
            &&& r->Ok_0->Element_element_index == nodes[k].index
            &&& r->Ok_0->point == desktop_center(nodes[k], offset)
            &&& r->Ok_0->action is Some ==> nodes[k].actions@.contains(r->Ok_0->action->0) && (
            lower(trim(r->Ok_0->action->0.name@)) == "click"@ || (r->Ok_0->point is None
                && r->Ok_0->action->0 == nodes[k].actions@[0]))
            &&& r->Ok_0->point is Some || r->Ok_0->action is Some
        },
{
    if r->Ok_0 is Element {
        let meant = node_meant(
            nodes,
            params.element_index,
            text_of(params.object_ref),
            selector,
            ElementResolvePurpose::Click,
        );
        let k = meant->Ok_0;
        assert(lower("click"@) =~= "click"@) by {
            reveal_strlit("click");
        }
        the_first_match_is_the_first(nodes[k].actions@, is_click());
    }
}

/// A plain click on an element that offers an action named click invokes it.
pub proof fn a_plain_click_invokes_the_click_action(
    nodes: Seq<AccessibilityNode>,
    params: ClickParams,
    selector: ElementSelector<'_>,
    offset: Option<(i32, i32)>,
    r: Result<ClickTarget, String>,
    a: int,
)
    requires
        click_answers(nodes, params, selector, offset, r),
        !(params.x is Some && params.y is Some),
        params.button is None,
        params.click_count is None || params.click_count->0 == 1,
        node_meant(
            nodes,
            params.element_index,
            text_of(params.object_ref),
            selector,
            ElementResolvePurpose::Click,
        ) is Ok,
        ({
            let node = nodes[node_meant(
                nodes,
                params.element_index,
                text_of(params.object_ref),
                selector,
                ElementResolvePurpose::Click,
            )->Ok_0];
            0 <= a < node.actions@.len() && lower(trim(node.actions@[a].name@)) == "click"@
        }),
    ensures
        r is Ok,
        r->Ok_0 is Element,
        r->Ok_0->action is Some,
        lower(trim(r->Ok_0->action->0.name@)) == "click"@,
{
    let node = nodes[node_meant(
        nodes,
        params.element_index,
        text_of(params.object_ref),
        selector,
        ElementResolvePurpose::Click,
    )->Ok_0];
    assert(lower("click"@) =~= "click"@) by {
        reveal_strlit("click");
    }
    the_first_match_is_the_first(node.actions@, is_click());
    assert(is_click()(node.actions@[a]));
}

/// The frame a tree is judged by has the role of a window of its own; no such node is nearer
/// the root, and none as near comes before it.
pub proof fn the_top_frame_is_nearest_the_root(nodes: Seq<AccessibilityNode>)
    ensures
        match top_frame(nodes) {
            Some(k) => 0 <= k < nodes.len() && is_frame_role(nodes[k].role@) && forall|j: int|
                #![trigger nodes[j]]
                0 <= j < nodes.len() && is_frame_role(nodes[j].role@) ==> nodes[k].depth
                    <= nodes[j].depth && (j < k ==> nodes[k].depth < nodes[j].depth),
            None => forall|j: int|
                0 <= j < nodes.len() ==> !is_frame_role((#[trigger] nodes[j]).role@),
        },
    decreases nodes.len(),
{
    if nodes.len() > 0 {
        let rest = nodes.drop_last();
        the_top_frame_is_nearest_the_root(rest);
        assert forall|j: int| 0 <= j < rest.len() implies #[trigger] nodes[j] == rest[j] by {}
    }
}

/// The bounds of a tree are moved by its window's corner exactly where its frame claims to
/// stand at the corner of the desktop, or nowhere: bounds that are on the desktop already
/// stay.
pub proof fn only_a_frame_that_claims_no_place_is_moved(
    nodes: Seq<AccessibilityNode>,
    window: WindowInfo,
    k: int,
)
    requires
        top_frame(nodes) == Some(k),
        window.bounds is Some,
        window.bounds->0.x is Some,
        window.bounds->0.y is Some,
    ensures
        nodes[k].bounds is Some && (nodes[k].bounds->0.x != 0 || nodes[k].bounds->0.y != 0)
            ==> bounds_for(nodes, Some(window)).shift() is None,
        nodes[k].bounds is None || (nodes[k].bounds->0.x == 0 && nodes[k].bounds->0.y == 0)
            ==> bounds_for(nodes, Some(window)).shift() == Some(
            (window.bounds->0.x->0, window.bounds->0.y->0),
        ),
{
}

/// The corner that bounds are moved by is where their window is now: that of the first
/// window listed under the same id, and the corner it had only where no such window is
/// listed or its corner is not known.
pub proof fn bounds_move_with_their_window(cached: BoundsOffset, windows: Seq<WindowInfo>, k: int)
    requires
        0 <= k < windows.len(),
        windows[k].window_id == cached.window_id,
        forall|j: int| 0 <= j < k ==> (#[trigger] windows[j]).window_id != cached.window_id,
    ensures
        windows[k].bounds is Some && windows[k].bounds->0.x is Some && windows[k].bounds->0.y
            is Some ==> fresh_offset(cached, windows) == (
            windows[k].bounds->0.x->0,
            windows[k].bounds->0.y->0,
        ),
        windows[k].bounds is None || windows[k].bounds->0.x is None || windows[k].bounds->0.y
            is None ==> fresh_offset(cached, windows) == cached.offset,
{
    let picks = has_window_id(cached.window_id);
    the_first_match_is_the_first(windows, picks);
    assert(picks(windows[k]));
    let found = first_match(windows, picks)->0;
    assert(found == k) by {
        if found < k {
            assert(picks(windows[found]));
        }
    }
}

/// The corner that bounds had stays where their window is no longer listed.
pub proof fn bounds_stay_when_their_window_is_gone(cached: BoundsOffset, windows: Seq<WindowInfo>)
    requires
        forall|j: int|
            0 <= j < windows.len() ==> (#[trigger] windows[j]).window_id != cached.window_id,
    ensures
        fresh_offset(cached, windows) == cached.offset,
{
    the_first_match_is_the_first(windows, has_window_id(cached.window_id));
}

/// A tree read without a window is tied to a window of a process it was read from exactly
/// where that is the only window of these processes.
pub proof fn the_only_window_of_the_processes_is_theirs(
    windows: Seq<WindowInfo>,
    pids: Seq<u32>,
    k: int,
)
    ensures
        matching(windows, of_pids(pids)) == seq![k] <==> 0 <= k < windows.len()
            && windows[k].pid is Some && pids.contains(windows[k].pid->0) && forall|j: int|
            0 <= j < windows.len() && j != k ==> !((#[trigger] windows[j]).pid is Some
                && pids.contains(windows[j].pid->0)),
{
    let picked = matching(windows, of_pids(pids));
    matching_is_exact(windows, of_pids(pids));
    if picked == seq![k] {
        assert(picked[0] == k);
        assert(picked.contains(k));
        assert forall|j: int| 0 <= j < windows.len() && j != k implies !((
        #[trigger] windows[j]).pid is Some && pids.contains(windows[j].pid->0)) by {
            if windows[j].pid is Some && pids.contains(windows[j].pid->0) {
                assert(picked.contains(j));
            }
        }
    }
    if 0 <= k < windows.len() && windows[k].pid is Some && pids.contains(windows[k].pid->0) && (
    forall|j: int|
        0 <= j < windows.len() && j != k ==> !((#[trigger] windows[j]).pid is Some && pids.contains(
            windows[j].pid->0,
        ))) {
        assert(picked.contains(k));
        if picked.len() > 1 {
            assert(picked.contains(picked[0]) && picked.contains(picked[1]));
            assert(picked[0] < picked[1]);
            assert(windows[picked[0]].pid is Some && windows[picked[1]].pid is Some);
        }
        assert(picked =~= seq![k]);
    }
}

proof fn directions_are_spelled_apart()
    ensures
        "up"@.len() == 2,
        "down"@.len() == 4,
        "left"@.len() == 4,
        "right"@.len() == 5,
        "down"@[0] == 'd',
        "left"@[0] == 'l',
{
    reveal_strlit("up");
    reveal_strlit("down");
    reveal_strlit("left");
    reveal_strlit("right");
}

/// An action scrolls the way that is asked for where its name holds both the word for
/// scrolling and the very word of the direction.
pub proof fn a_scrolling_action_is_named_after_the_direction(
    word: Seq<char>,
    action: AccessibilityAction,
)
    ensures
        ({
            let asked = lower(trim(word));
            let known = asked == "up"@ || asked == "down"@ || asked == "left"@ || asked
                == "right"@;
            &&& direction_named(word) is Some <==> known
            &&& known ==> (scrolls(direction_named(word)->0)(action) <==> contains(
                normal(action.name@),
                "scroll"@,
            ) && contains(normal(action.name@), asked))
        }),
{
    directions_are_spelled_apart();
}

/// An element takes typed text where the tree holds the states `focusable` and `editable` of
/// it, and an element that is not in the tree takes none.
pub proof fn an_editable_element_takes_keys(
    nodes: Seq<AccessibilityNode>,
    object_ref: Seq<char>,
    k: int,
)
    requires
        0 <= k < nodes.len(),
        nodes[k].object_ref@ == object_ref,
        forall|j: int| 0 <= j < k ==> (#[trigger] nodes[j]).object_ref@ != object_ref,
    ensures
        takes_keys(nodes, object_ref) <==> (exists|a: int|
            0 <= a < nodes[k].states@.len() && normal(#[trigger] nodes[k].states@[a]@) == normal(
                "focusable"@,
            )) && (exists|b: int|
            0 <= b < nodes[k].states@.len() && normal(#[trigger] nodes[k].states@[b]@) == normal(
                "editable"@,
            )),
        states_of(nodes, object_ref) == nodes[k].states@,
{
    let picks = referred(object_ref);
    the_first_match_is_the_first(nodes, picks);
    assert(picks(nodes[k]));
    let found = first_match(nodes, picks)->0;
    assert(found == k) by {
        if found < k {
            assert(picks(nodes[found]));
        }
    }
}

/// Bounds are moved by the window's corner only for a tree that follows its window; they are
/// looked up anew while they do, and stay as they are else; and the window that is reported
/// is told to be the target's where one was named.
pub proof fn bounds_that_follow_a_window_are_looked_up_anew(
    cached: CachedBounds,
    windows: &[WindowInfo],
    now: CachedBounds,
    target: Option<&WindowInfo>,
    reported: Option<&WindowInfo>,
    source: Option<WindowContextSource>,
)
    requires
        call_ensures(current_bounds, (cached, windows), now),
        call_ensures(window_context_source, (target, reported), source),
    ensures
        cached is Window ==> now is Window && now->Window_0.window_id == cached->Window_0.window_id
            && now->Window_0.offset == fresh_offset(cached->Window_0, windows@),
        !(cached is Window) ==> now == cached,
        target is Some ==> source == Some(WindowContextSource::Target),
        target is None && reported is Some ==> source == Some(WindowContextSource::AppPid),
        target is None && reported is None ==> source is None,
{
}

/// The window of some processes is the only one they have, and none where they have several.
pub proof fn the_sole_window_is_the_only_one(
    windows: &[WindowInfo],
    pids: &[u32],
    found: Option<&WindowInfo>,
)
    requires
        call_ensures(sole_window_for_pids, (windows, pids), found),
        found is Some,
    ensures
        exists|k: int|
            0 <= k < windows@.len() && *found->0 == #[trigger] windows@[k] && windows@[k].pid
                is Some && pids@.contains(windows@[k].pid->0) && forall|j: int|
                0 <= j < windows@.len() && j != k ==> !((#[trigger] windows@[j]).pid is Some
                    && pids@.contains(windows@[j].pid->0)),
{
    let own = matching(windows@, of_pids(pids@));
    assert(own =~= seq![own[0]]);
    the_only_window_of_the_processes_is_theirs(windows@, pids@, own[0]);
}

/// The action that is asked for is the one that is named, and the first where none is.
pub proof fn the_action_asked_for_is_the_one_named(action: Option<&str>, asked: String)
    requires
        call_ensures(requested_or_primary_action, (action,), asked),
    ensures
        action is Some && !is_blank(action->0@) ==> asked@ == trim(action->0@),
        action is None || is_blank(action->0@) ==> asked@ == "0"@,
{
}

} // verus!
