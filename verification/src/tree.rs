//! Reading the accessibility tree: leaving out what says nothing, and numbering what is
//! left so that a number keeps naming its element.

use vstd::prelude::*;
use crate::elements::AccessibilityNode;
use crate::select::{matching, matching_is_exact};
use crate::text::{blank_is_all_white, filled, is_filled, is_white, same, text_of};

verus! {

/// Whether an element can be acted on.
pub open spec fn is_actionable(node: AccessibilityNode) -> bool {
    node.actions@.len() > 0 || node.supports_editable_text || node.value is Some
}

/// Whether an element says anything.
pub open spec fn has_copy(node: AccessibilityNode) -> bool {
    is_filled(text_of(node.name)) || is_filled(text_of(node.description)) || is_filled(
        node.content(),
    )
}

/// Whether a role is that of an entry, worth keeping for its place alone.
pub open spec fn is_entry_role(role: Seq<char>) -> bool {
    role == "page tab"@ || role == "menu item"@ || role == "menu"@ || role == "list item"@ || role
        == "tree item"@
}

/// Whether an element stays in the compact tree: near the root, actionable, saying
/// something, or an entry that has a place.
pub open spec fn is_kept(node: AccessibilityNode) -> bool {
    node.depth <= 1 || is_actionable(node) || has_copy(node) || (is_entry_role(node.role@)
        && node.bounds is Some)
}

/// The predicate of staying in the compact tree.
pub open spec fn kept() -> spec_fn(AccessibilityNode) -> bool {
    |node: AccessibilityNode| is_kept(node)
}

/// Whether an element can be acted on.
pub fn is_actionable_accessibility_node(node: &AccessibilityNode) -> (r: bool)
    ensures
        r == is_actionable(*node),
{
    node.actions.len() > 0 || node.supports_editable_text || node.value.is_some()
}

/// Whether an element says anything.
pub fn has_meaningful_node_copy(node: &AccessibilityNode) -> (r: bool)
    ensures
        r == has_copy(*node),
{
    let content = match &node.text {
        Some(text) => filled(&text.content),
        None => false,
    };
    filled(&node.name) || filled(&node.description) || content
}

/// Whether an element stays in the compact tree.
pub fn should_keep_accessibility_node(node: &AccessibilityNode) -> (r: bool)
    ensures
        r == is_kept(*node),
{
    if node.depth <= 1 {
        return true;
    }
    if is_actionable_accessibility_node(node) || has_meaningful_node_copy(node) {
        return true;
    }
    (same(&node.role, "page tab") || same(&node.role, "menu item") || same(&node.role, "menu")
        || same(&node.role, "list item") || same(&node.role, "tree item"))
        && node.bounds.is_some()
}

/// Whether going from parent to parent ends within a number of steps.
pub open spec fn ends_within(nodes: Seq<AccessibilityNode>, parent: Option<u32>, steps: nat) -> bool
    decreases steps,
{
    match parent {
        None => true,
        Some(p) => p >= nodes.len() || (steps > 0 && ends_within(
            nodes,
            nodes[p as int].parent_index,
            (steps - 1) as nat,
        )),
    }
}

/// Whether the parents of every node end: no node is its own ancestor. A walk that ends
/// visits no node twice, so it ends within as many steps as there are nodes.
pub open spec fn parents_end(nodes: Seq<AccessibilityNode>) -> bool {
    forall|i: int|
        0 <= i < nodes.len() ==> ends_within(
            nodes,
            (#[trigger] nodes[i]).parent_index,
            nodes.len(),
        )
}

/// The nearest ancestor that stays in the compact tree, going from parent to parent.
pub open spec fn nearest_kept(
    nodes: Seq<AccessibilityNode>,
    parent: Option<u32>,
    steps: nat,
) -> Option<int>
    decreases steps,
{
    match parent {
        None => None,
        Some(p) => if p >= nodes.len() {
            None
        } else if is_kept(nodes[p as int]) {
            Some(p as int)
        } else if steps == 0 {
            None
        } else {
            nearest_kept(nodes, nodes[p as int].parent_index, (steps - 1) as nat)
        },
    }
}

/// How many of the first nodes stay in the compact tree, which is where the next one that
/// stays comes to stand.
pub open spec fn place(nodes: Seq<AccessibilityNode>, before: int) -> int {
    matching(nodes.take(before), kept()).len() as int
}

/// The parent a node has in the compact tree.
pub open spec fn new_parent(nodes: Seq<AccessibilityNode>, i: int) -> Option<u32> {
    match nearest_kept(nodes, nodes[i].parent_index, nodes.len()) {
        Some(p) => Some(place(nodes, p) as u32),
        None => None,
    }
}

/// The parents that the nodes of the compact tree have, in order.
pub open spec fn new_parents(nodes: Seq<AccessibilityNode>) -> Seq<Option<u32>> {
    matching(nodes, kept()).map_values(|i: int| new_parent(nodes, i))
}

/// How many of some parents are a given one.
pub open spec fn times(parents: Seq<Option<u32>>, parent: int) -> int
    decreases parents.len(),
{
    if parents.len() == 0 {
        0
    } else {
        times(parents.drop_last(), parent) + if parents.last() == Some(parent as u32) {
            1int
        } else {
            0int
        }
    }
}

/// The compact tree: the nodes that stay, in order, each numbered by its position, under
/// its nearest ancestor that stays, with the children it has there counted.
pub open spec fn compact(nodes: Seq<AccessibilityNode>) -> Seq<AccessibilityNode> {
    let stay = matching(nodes, kept());
    Seq::new(
        stay.len(),
        |k: int|
            AccessibilityNode {
                index: k as u32,
                parent_index: new_parents(nodes)[k],
                child_count: times(new_parents(nodes), k) as i32,
                ..nodes[stay[k]]
            },
    )
}

/// Whether the parents of a node end, walking from it.
fn walk_ends(nodes: &[AccessibilityNode], from: Option<u32>) -> (r: bool)
    ensures
        r == ends_within(nodes@, from, nodes@.len()),
{
    let mut parent: Option<u32> = from;
    let mut left: usize = nodes.len();
    loop
        invariant
            left <= nodes@.len(),
            ends_within(nodes@, parent, left as nat) == ends_within(nodes@, from, nodes@.len()),
        decreases left,
    {
        match parent {
            None => return true,
            Some(p) => {
                if p as usize >= nodes.len() {
                    return true;
                }
                if left == 0 {
                    return false;
                }
                parent = nodes[p as usize].parent_index;
                left = left - 1;
            },
        }
    }
}

/// Whether the parents of every node end, which compacting a tree takes for granted.
pub fn tree_has_roots(nodes: &[AccessibilityNode]) -> (r: bool)
    ensures
        r == parents_end(nodes@),
{
    for i in 0..nodes.len()
        invariant
            forall|k: int|
                0 <= k < i ==> ends_within(
                    nodes@,
                    (#[trigger] nodes@[k]).parent_index,
                    nodes@.len(),
                ),
    {
        if !walk_ends(nodes, nodes[i].parent_index) {
            assert(!ends_within(nodes@, nodes@[i as int].parent_index, nodes@.len()));
            return false;
        }
    }
    true
}

/// The nearest ancestor that stays in the compact tree.
pub fn nearest_kept_parent(
    keep: &[bool],
    nodes: &[AccessibilityNode],
    old_index: usize,
) -> (r: Option<u32>)
    requires
        old_index < nodes@.len(),
        keep@.len() == nodes@.len(),
        forall|i: int| 0 <= i < nodes@.len() ==> #[trigger] keep@[i] == is_kept(nodes@[i]),
        ends_within(nodes@, nodes@[old_index as int].parent_index, nodes@.len()),
    ensures
        match r {
            Some(p) => nearest_kept(
                nodes@,
                nodes@[old_index as int].parent_index,
                nodes@.len(),
            ) == Some(p as int) && p < nodes@.len() && is_kept(nodes@[p as int]),
            None => nearest_kept(
                nodes@,
                nodes@[old_index as int].parent_index,
                nodes@.len(),
            ) is None,
        },
{
    let ghost from = nodes@[old_index as int].parent_index;
    let mut parent: Option<u32> = nodes[old_index].parent_index;
    let ghost mut left: nat = nodes@.len();
    loop
        invariant
            keep@.len() == nodes@.len(),
            forall|i: int| 0 <= i < nodes@.len() ==> #[trigger] keep@[i] == is_kept(nodes@[i]),
            ends_within(nodes@, parent, left),
            nearest_kept(nodes@, parent, left) == nearest_kept(nodes@, from, nodes@.len()),
            from == nodes@[old_index as int].parent_index,
        decreases left,
    {
        match parent {
            None => return None,
            Some(p) => {
                if p as usize >= keep.len() {
                    return None;
                }
                if keep[p as usize] {
                    return Some(p);
                }
                parent = nodes[p as usize].parent_index;
                proof {
                    left = (left - 1) as nat;
                }
            },
        }
    }
}

proof fn places_grow(nodes: Seq<AccessibilityNode>, i: int, j: int)
    requires
        0 <= i <= j <= nodes.len(),
    ensures
        place(nodes, i) <= place(nodes, j),
        place(nodes, j) <= j,
        i < j && is_kept(nodes[i]) ==> place(nodes, i) < place(nodes, j),
    decreases j,
{
    if j > 0 {
        assert(nodes.take(j).drop_last() =~= nodes.take(j - 1));
        assert(nodes.take(j).last() == nodes[j - 1]);
        if i < j {
            places_grow(nodes, i, j - 1);
        } else {
            places_grow(nodes, j - 1, j - 1);
        }
    }
}

/// A node that stays stands in the compact tree at the place counted for it.
proof fn stays_at(nodes: Seq<AccessibilityNode>, i: int)
    requires
        0 <= i < nodes.len(),
        is_kept(nodes[i]),
    ensures
        0 <= place(nodes, i) < matching(nodes, kept()).len(),
        matching(nodes, kept())[place(nodes, i)] == i,
    decreases nodes.len(),
{
    let rest = nodes.drop_last();
    if i < nodes.len() - 1 {
        assert(rest.take(i) =~= nodes.take(i));
        stays_at(rest, i);
    } else {
        assert(nodes.take(i) =~= rest);
    }
}

proof fn times_are_few(parents: Seq<Option<u32>>, parent: int)
    ensures
        0 <= times(parents, parent) <= parents.len(),
    decreases parents.len(),
{
    if parents.len() > 0 {
        times_are_few(parents.drop_last(), parent);
    }
}

/// The parents the nodes of the compact tree have, and where each node goes.
fn find_parents(nodes: &[AccessibilityNode], keep: &[bool], old_to_new: &[u32]) -> (r: Vec<
    Option<u32>,
>)
    requires
        nodes@.len() <= i32::MAX,
        parents_end(nodes@),
        keep@.len() == nodes@.len(),
        old_to_new@.len() == nodes@.len(),
        forall|i: int| 0 <= i < nodes@.len() ==> #[trigger] keep@[i] == is_kept(nodes@[i]),
        forall|i: int| 0 <= i < nodes@.len() ==> #[trigger] old_to_new@[i] == place(nodes@, i),
    ensures
        r@ == new_parents(nodes@),
{
    let mut parents: Vec<Option<u32>> = Vec::new();
    let ghost f = |i: int| new_parent(nodes@, i);
    assert(parents@ =~= matching(nodes@.take(0), kept()).map_values(f));
    for i in 0..nodes.len()
        invariant
            f == (|i: int| new_parent(nodes@, i)),
            nodes@.len() <= i32::MAX,
            parents_end(nodes@),
            keep@.len() == nodes@.len(),
            old_to_new@.len() == nodes@.len(),
            forall|k: int| 0 <= k < nodes@.len() ==> #[trigger] keep@[k] == is_kept(nodes@[k]),
            forall|k: int|
                0 <= k < nodes@.len() ==> #[trigger] old_to_new@[k] == place(nodes@, k),
            parents@ == matching(nodes@.take(i as int), kept()).map_values(f),
    {
        assert(nodes@.take(i + 1).drop_last() =~= nodes@.take(i as int));
        assert(nodes@.take(i + 1).last() == nodes@[i as int]);
        let ghost before = matching(nodes@.take(i as int), kept());
        if keep[i] {
            assert(ends_within(nodes@, nodes@[i as int].parent_index, nodes@.len()));
            let parent = match nearest_kept_parent(keep, nodes, i) {
                Some(p) => Some(old_to_new[p as usize]),
                None => None,
            };
            assert(parent == new_parent(nodes@, i as int));
            assert(before.push(i as int).map_values(f) =~= before.map_values(f).push(
                f(i as int),
            ));
            parents.push(parent);
        }
    }
    assert(nodes@.take(nodes@.len() as int) =~= nodes@);
    parents
}

/// How many children each node of the compact tree has.
fn count_children(parents: &[Option<u32>]) -> (r: Vec<i32>)
    requires
        parents@.len() <= i32::MAX,
    ensures
        r@.len() == parents@.len(),
        forall|k: int| 0 <= k < r@.len() ==> #[trigger] r@[k] == times(parents@, k),
{
    let mut counts: Vec<i32> = Vec::new();
    for k in 0..parents.len()
        invariant
            counts@.len() == k,
            forall|j: int| 0 <= j < k ==> #[trigger] counts@[j] == 0,
    {
        counts.push(0);
    }
    for i in 0..parents.len()
        invariant
            parents@.len() <= i32::MAX,
            counts@.len() == parents@.len(),
            forall|k: int|
                0 <= k < counts@.len() ==> #[trigger] counts@[k] == times(
                    parents@.take(i as int),
                    k,
                ),
    {
        let ghost before = parents@.take(i as int);
        assert(parents@.take(i + 1).drop_last() =~= before);
        assert(parents@.take(i + 1).last() == parents@[i as int]);
        if let Some(p) = parents[i] {
            if (p as usize) < counts.len() {
                proof {
                    times_are_few(before, p as int);
                }
                let count: i32 = counts[p as usize];
                counts.set(p as usize, count + 1);
            }
        }
        assert forall|k: int| 0 <= k < counts@.len() implies #[trigger] counts@[k] == times(
            parents@.take(i + 1),
            k,
        ) by {
            assert(times(parents@.take(i + 1), k) == times(before, k) + if parents@[i as int]
                == Some(k as u32) {
                1int
            } else {
                0int
            });
        }
    }
    assert(parents@.take(parents@.len() as int) =~= parents@);
    counts
}

/// The compact tree.
pub fn compact_accessibility_tree(nodes: Vec<AccessibilityNode>) -> (r: Vec<AccessibilityNode>)
    requires
        nodes@.len() <= i32::MAX,
        parents_end(nodes@),
    ensures
        r@ == compact(nodes@),
{
    let mut nodes = nodes;
    let ghost all = nodes@;
    let total: usize = nodes.len();
    let mut keep: Vec<bool> = Vec::new();
    let mut old_to_new: Vec<u32> = Vec::new();
    let mut count: u32 = 0;
    for i in 0..total
        invariant
            nodes@ == all,
            total == all.len(),
            all.len() <= i32::MAX,
            keep@.len() == i,
            old_to_new@.len() == i,
            count == place(all, i as int),
            forall|k: int| 0 <= k < i ==> #[trigger] keep@[k] == is_kept(all[k]),
            forall|k: int| 0 <= k < i ==> #[trigger] old_to_new@[k] == place(all, k),
    {
        proof {
            places_grow(all, i as int, i + 1);
            places_grow(all, 0, i as int);
            assert(all.take(i + 1).drop_last() =~= all.take(i as int));
            assert(all.take(i + 1).last() == all[i as int]);
        }
        let stays = should_keep_accessibility_node(&nodes[i]);
        keep.push(stays);
        old_to_new.push(count);
        if stays {
            count = count + 1;
        }
    }
    let parents = find_parents(&nodes, &keep, &old_to_new);
    let ghost stay = matching(all, kept());
    proof {
        places_grow(all, 0, all.len() as int);
        assert(all.take(all.len() as int) =~= all);
    }
    let counts = count_children(&parents);
    let mut back: Vec<AccessibilityNode> = Vec::new();
    let mut at: usize = parents.len();
    let ghost tree = compact(all);
    let mut left: usize = total;
    while left > 0
        invariant
            left <= total,
            total == all.len(),
            all.len() <= i32::MAX,
            nodes@ == all.take(left as int),
            keep@.len() == all.len(),
            forall|k: int| 0 <= k < all.len() ==> #[trigger] keep@[k] == is_kept(all[k]),
            stay == matching(all, kept()),
            parents@ == new_parents(all),
            counts@.len() == parents@.len(),
            forall|k: int| 0 <= k < counts@.len() ==> #[trigger] counts@[k] == times(parents@, k),
            parents@.len() == stay.len(),
            stay.len() <= i32::MAX,
            tree == compact(all),
            at == place(all, left as int),
            at + back@.len() == stay.len(),
            forall|k: int|
                0 <= k < back@.len() ==> #[trigger] back@[k] == tree[stay.len() - 1 - k],
        decreases left,
    {
        left = left - 1;
        proof {
            assert(all.take(left + 1).drop_last() =~= all.take(left as int));
            assert(all.take(left + 1).last() == all[left as int]);
        }
        let last = nodes.pop();
        if let Some(node) = last {
            if keep[left] {
                proof {
                    stays_at(all, left as int);
                    places_grow(all, 0, left as int);
                }
                at = at - 1;
                let mut node = node;
                node.index = at as u32;
                node.parent_index = parents[at];
                node.child_count = counts[at];
                assert(node == tree[at as int]);
                back.push(node);
            }
        }
    }
    let mut compacted: Vec<AccessibilityNode> = Vec::new();
    let mut rest: usize = back.len();
    while rest > 0
        invariant
            rest == back@.len(),
            rest + compacted@.len() == tree.len(),
            forall|k: int|
                0 <= k < back@.len() ==> #[trigger] back@[k] == tree[tree.len() - 1 - k],
            forall|k: int| 0 <= k < compacted@.len() ==> #[trigger] compacted@[k] == tree[k],
        decreases rest,
    {
        if let Some(node) = back.pop() {
            compacted.push(node);
        }
        rest = rest - 1;
    }
    assert(compacted@ =~= tree);
    compacted
}

proof fn nearest_is_kept(nodes: Seq<AccessibilityNode>, parent: Option<u32>, steps: nat)
    requires
        nearest_kept(nodes, parent, steps) is Some,
    ensures
        0 <= nearest_kept(nodes, parent, steps)->0 < nodes.len(),
        is_kept(nodes[nearest_kept(nodes, parent, steps)->0]),
    decreases steps,
{
    let p = parent->0;
    if p < nodes.len() && !is_kept(nodes[p as int]) && steps > 0 {
        nearest_is_kept(nodes, nodes[p as int].parent_index, (steps - 1) as nat);
    }
}

/// A compact tree holds every node that is to stay and no other, in the order read; what it
/// leaves out it takes from between a node and its ancestors, never from the node itself.
pub proof fn compacting_keeps_what_stays(nodes: Seq<AccessibilityNode>)
    ensures
        compact(nodes).len() == matching(nodes, kept()).len(),
        forall|k: int|
            0 <= k < compact(nodes).len() ==> {
                let from = matching(nodes, kept())[k];
                &&& 0 <= from < nodes.len()
                &&& is_kept(nodes[from])
                &&& (#[trigger] compact(nodes)[k]).object_ref == nodes[from].object_ref
                &&& compact(nodes)[k].role == nodes[from].role
                &&& compact(nodes)[k].name == nodes[from].name
                &&& compact(nodes)[k].bounds == nodes[from].bounds
                &&& compact(nodes)[k].states == nodes[from].states
                &&& compact(nodes)[k].actions == nodes[from].actions
            },
        forall|i: int|
            0 <= i < nodes.len() && is_kept(#[trigger] nodes[i]) ==> matching(
                nodes,
                kept(),
            ).contains(i),
        forall|i: int, j: int|
            0 <= i < j < compact(nodes).len() ==> #[trigger] matching(nodes, kept())[i]
                < #[trigger] matching(nodes, kept())[j],
{
    matching_is_exact(nodes, kept());
    assert forall|k: int| 0 <= k < compact(nodes).len() implies {
        let from = matching(nodes, kept())[k];
        &&& 0 <= from < nodes.len()
        &&& is_kept(nodes[from])
        &&& (#[trigger] compact(nodes)[k]).object_ref == nodes[from].object_ref
        &&& compact(nodes)[k].role == nodes[from].role
        &&& compact(nodes)[k].name == nodes[from].name
        &&& compact(nodes)[k].bounds == nodes[from].bounds
        &&& compact(nodes)[k].states == nodes[from].states
        &&& compact(nodes)[k].actions == nodes[from].actions
    } by {
        assert(matching(nodes, kept()).contains(matching(nodes, kept())[k]));
    }
    assert forall|i: int| 0 <= i < nodes.len() && is_kept(#[trigger] nodes[i]) implies matching(
        nodes,
        kept(),
    ).contains(i) by {
        assert(kept()(nodes[i]));
    }
}

/// A parent in the compact tree is a node of it: the nearest ancestor that stays.
pub proof fn a_compact_parent_is_in_the_tree(nodes: Seq<AccessibilityNode>, k: int)
    requires
        nodes.len() <= i32::MAX,
        0 <= k < compact(nodes).len(),
    ensures
        ({
            let from = matching(nodes, kept())[k];
            match nearest_kept(nodes, nodes[from].parent_index, nodes.len()) {
                Some(p) => {
                    &&& compact(nodes)[k].parent_index is Some
                    &&& compact(nodes)[k].parent_index->0 < compact(nodes).len()
                    &&& matching(nodes, kept())[compact(nodes)[k].parent_index->0 as int] == p
                },
                None => compact(nodes)[k].parent_index is None,
            }
        }),
{
    let from = matching(nodes, kept())[k];
    match nearest_kept(nodes, nodes[from].parent_index, nodes.len()) {
        Some(p) => {
            nearest_is_kept(nodes, nodes[from].parent_index, nodes.len());
            stays_at(nodes, p);
            places_grow(nodes, p, nodes.len() as int);
        },
        None => {},
    }
}

proof fn all_stay(nodes: Seq<AccessibilityNode>)
    requires
        forall|i: int| 0 <= i < nodes.len() ==> is_kept(#[trigger] nodes[i]),
    ensures
        matching(nodes, kept()) == Seq::new(nodes.len(), |i: int| i),
        forall|i: int| 0 <= i <= nodes.len() ==> #[trigger] place(nodes, i) == i,
    decreases nodes.len(),
{
    if nodes.len() > 0 {
        let rest = nodes.drop_last();
        all_stay(rest);
        assert(matching(nodes, kept()) =~= Seq::new(nodes.len(), |i: int| i));
        assert forall|i: int| 0 <= i <= nodes.len() implies #[trigger] place(nodes, i) == i by {
            if i < nodes.len() {
                assert(nodes.take(i) =~= rest.take(i));
                assert(place(rest, i) == i);
            } else {
                assert(nodes.take(i) =~= nodes);
            }
        }
    } else {
        assert(matching(nodes, kept()) =~= Seq::new(nodes.len(), |i: int| i));
        assert(nodes.take(0) =~= nodes);
    }
}

/// Compacting a compact tree changes nothing.
pub proof fn compacting_twice_is_compacting_once(nodes: Seq<AccessibilityNode>)
    requires
        nodes.len() <= i32::MAX,
    ensures
        compact(compact(nodes)) == compact(nodes),
{
    let tree = compact(nodes);
    compacting_keeps_what_stays(nodes);
    places_grow(nodes, 0, nodes.len() as int);
    assert(nodes.take(nodes.len() as int) =~= nodes);
    assert forall|i: int| 0 <= i < tree.len() implies is_kept(#[trigger] tree[i]) by {
        let from = matching(nodes, kept())[i];
        assert(compact(nodes)[i].role == nodes[from].role);
        assert(is_kept(nodes[from]));
    }
    all_stay(tree);
    assert forall|k: int| 0 <= k < tree.len() implies #[trigger] new_parent(tree, k)
        == tree[k].parent_index by {
        a_compact_parent_is_in_the_tree(nodes, k);
        if tree[k].parent_index is Some {
            let p = tree[k].parent_index->0;
            assert(is_kept(tree[p as int]));
            assert(nearest_kept(tree, tree[k].parent_index, tree.len()) == Some(p as int));
            assert(place(tree, p as int) == p);
        }
    }
    assert(new_parents(tree) =~= new_parents(nodes)) by {
        assert forall|k: int| 0 <= k < tree.len() implies #[trigger] new_parents(tree)[k]
            == new_parents(nodes)[k] by {
            assert(new_parents(tree)[k] == new_parent(tree, k));
            assert(tree[k].parent_index == new_parents(nodes)[k]);
        }
    }
    assert forall|k: int| 0 <= k < tree.len() implies #[trigger] compact(tree)[k] == tree[k] by {
        assert(matching(tree, kept())[k] == k);
    }
    assert(compact(tree) =~= tree);
}

/// The element index each `object_ref` was minted with, so an index outlives
/// the re-read of the tree that produced it.
///
/// A positional index is only true of the one snapshot it came from: the next
/// read renumbers every node, and an index taken from the read before it then
/// names a different element without erroring — the click lands on whatever
/// now sits in that position. Keyed by `object_ref`, which survives a re-read
/// and dies with the process that owns it, an index names the same element
/// until that element is gone, and names nothing once it is.
#[derive(Debug)]
pub struct StableElementIndices {
    assigned: Vec<(String, u32)>,
    next: u32,
}

/// How many elements are remembered before the map is dropped whole. A
/// desktop session reads far fewer than this; the cap is what keeps a
/// server that runs for days from growing without bound.
pub const MAX_TRACKED: usize = 20_000;

/// What is remembered of the numbers given out: which element has which, and the next one.
#[verifier::ext_equal]
pub struct Numbering {
    pub assigned: Map<Seq<char>, u32>,
    pub count: nat,
    pub next: u32,
}

/// A table as the map it stands for: the last entry of a reference counts.
pub open spec fn table_map(table: Seq<(String, u32)>) -> Map<Seq<char>, u32>
    decreases table.len(),
{
    if table.len() == 0 {
        Map::empty()
    } else {
        table_map(table.drop_last()).insert(table.last().0@, table.last().1)
    }
}

impl Numbering {
    /// The number an element gets, and what is remembered then: the number it has, or the
    /// next one. A full memory, and the last number there is, are forgotten first.
    pub open spec fn number(self, object_ref: Seq<char>) -> (Numbering, u32) {
        if self.assigned.contains_key(object_ref) {
            (self, self.assigned[object_ref])
        } else if self.count >= MAX_TRACKED || self.next == u32::MAX {
            (
                Numbering {
                    assigned: Map::empty().insert(object_ref, self.next),
                    count: 1,
                    next: if self.next == u32::MAX {
                        0
                    } else {
                        (self.next + 1) as u32
                    },
                },
                self.next,
            )
        } else {
            (
                Numbering {
                    assigned: self.assigned.insert(object_ref, self.next),
                    count: self.count + 1,
                    next: (self.next + 1) as u32,
                },
                self.next,
            )
        }
    }

    /// What is remembered after numbering some elements in order, and their numbers.
    pub open spec fn number_all(self, refs: Seq<Seq<char>>) -> (Numbering, Seq<u32>)
        decreases refs.len(),
    {
        if refs.len() == 0 {
            (self, Seq::empty())
        } else {
            let (before, numbers) = self.number_all(refs.drop_last());
            let (after, number) = before.number(refs.last());
            (after, numbers.push(number))
        }
    }

    /// Whether no number is given to two elements, nor to one and yet to be given: every
    /// number given is below the next, but for the last there is, given before starting
    /// over.
    pub open spec fn wf(self) -> bool {
        &&& forall|a: Seq<char>, b: Seq<char>|
            #![trigger self.assigned[a], self.assigned[b]]
            self.assigned.contains_key(a) && self.assigned.contains_key(b) && self.assigned[a]
                == self.assigned[b] ==> a == b
        &&& forall|a: Seq<char>|
            #![trigger self.assigned[a]]
            self.assigned.contains_key(a) ==> self.assigned[a] < self.next || self.assigned[a]
                == u32::MAX
    }
}

impl StableElementIndices {
    /// What is remembered.
    pub closed spec fn view(&self) -> Numbering {
        Numbering {
            assigned: table_map(self.assigned@),
            count: self.assigned@.len(),
            next: self.next,
        }
    }

    /// Whether what is remembered is as it should be.
    pub open spec fn wf(&self) -> bool {
        self.view().wf()
    }
}

impl Default for StableElementIndices {
    fn default() -> (r: Self)
        ensures
            r.wf(),
            r.view() == (Numbering { assigned: Map::empty(), count: 0, next: 0 }),
    {
        let r = StableElementIndices { assigned: Vec::new(), next: 0 };
        assert(table_map(r.assigned@) =~= Map::empty());
        r
    }
}

proof fn table_map_finds(table: Seq<(String, u32)>, key: Seq<char>, k: int)
    requires
        0 <= k < table.len(),
        table[k].0@ == key,
        forall|j: int| k < j < table.len() ==> (#[trigger] table[j]).0@ != key,
    ensures
        table_map(table).contains_key(key),
        table_map(table)[key] == table[k].1,
    decreases table.len(),
{
    if k < table.len() - 1 {
        table_map_finds(table.drop_last(), key, k);
    }
}

proof fn table_map_misses(table: Seq<(String, u32)>, key: Seq<char>)
    requires
        forall|j: int| 0 <= j < table.len() ==> (#[trigger] table[j]).0@ != key,
    ensures
        !table_map(table).contains_key(key),
    decreases table.len(),
{
    if table.len() > 0 {
        table_map_misses(table.drop_last(), key);
    }
}

/// Numbering an element keeps numbers apart.
pub proof fn numbers_stay_apart(before: Numbering, object_ref: Seq<char>)
    requires
        before.wf(),
    ensures
        before.number(object_ref).0.wf(),
        before.number(object_ref).0.assigned.contains_key(object_ref),
        before.number(object_ref).0.assigned[object_ref] == before.number(object_ref).1,
{
}

impl StableElementIndices {
    /// The index for `object_ref`: the one it already has, or the next unused
    /// number. Numbers are not recycled while they are remembered, so a stale
    /// index fails to resolve rather than resolving to another element.
    pub fn index_for(&mut self, object_ref: &str) -> (r: u32)
        requires
            old(self).wf(),
        ensures
            final(self).wf(),
            (final(self).view(), r) == old(self).view().number(object_ref@),
    {
        proof {
            numbers_stay_apart(self.view(), object_ref@);
        }
        let mut k: usize = self.assigned.len();
        while k > 0
            invariant
                k <= self.assigned@.len(),
                *self == *old(self),
                old(self).wf(),
                forall|j: int|
                    k <= j < self.assigned@.len() ==> (#[trigger] self.assigned@[j]).0@
                        != object_ref@,
            decreases k,
        {
            k = k - 1;
            if same(&self.assigned[k].0, object_ref) {
                proof {
                    table_map_finds(self.assigned@, object_ref@, k as int);
                }
                return self.assigned[k].1;
            }
        }
        proof {
            table_map_misses(self.assigned@, object_ref@);
        }
        let index: u32 = self.next;
        if self.assigned.len() >= MAX_TRACKED || self.next == u32::MAX {
            self.assigned = Vec::new();
            assert(table_map(self.assigned@) =~= Map::empty());
        }
        let ghost before = self.assigned@;
        self.assigned.push((object_ref.to_owned(), index));
        assert(self.assigned@.drop_last() =~= before);
        if self.next == u32::MAX {
            self.next = 0;
        } else {
            self.next = self.next + 1;
        }
        index
    }
}

/// The references of some nodes.
pub open spec fn refs_of(nodes: Seq<AccessibilityNode>) -> Seq<Seq<char>> {
    nodes.map_values(|node: AccessibilityNode| node.object_ref@)
}

/// A compact tree renumbered: each node by its number, and each parent, which was a
/// position, by the number of the node at it.
pub open spec fn renumbered(nodes: Seq<AccessibilityNode>, numbers: Seq<u32>) -> Seq<
    AccessibilityNode,
> {
    Seq::new(
        nodes.len(),
        |i: int|
            AccessibilityNode {
                index: numbers[i],
                parent_index: match nodes[i].parent_index {
                    Some(p) => if p < numbers.len() {
                        Some(numbers[p as int])
                    } else {
                        None
                    },
                    None => None,
                },
                ..nodes[i]
            },
    )
}

pub(crate) proof fn number_all_is_wf(start: Numbering, refs: Seq<Seq<char>>)
    requires
        start.wf(),
    ensures
        start.number_all(refs).0.wf(),
        start.number_all(refs).1.len() == refs.len(),
    decreases refs.len(),
{
    if refs.len() > 0 {
        number_all_is_wf(start, refs.drop_last());
        numbers_stay_apart(start.number_all(refs.drop_last()).0, refs.last());
    }
}

/// Renumber a freshly compacted tree so every node keeps the index it was
/// given the last time it was read, and `parent_index` follows.
pub fn apply_stable_indices(
    indices: &mut StableElementIndices,
    nodes: &mut Vec<AccessibilityNode>,
)
    requires
        old(indices).wf(),
    ensures
        final(indices).wf(),
        final(indices).view() == old(indices).view().number_all(refs_of(old(nodes)@)).0,
        final(nodes)@ == renumbered(
            old(nodes)@,
            old(indices).view().number_all(refs_of(old(nodes)@)).1,
        ),
{
    let ghost start = indices.view();
    let ghost refs = refs_of(nodes@);
    let ghost all = nodes@;
    let count: usize = nodes.len();
    let mut numbers: Vec<u32> = Vec::new();
    assert(refs.take(0) =~= Seq::empty());
    for i in 0..count
        invariant
            nodes@ == all,
            all == old(nodes)@,
            start == old(indices).view(),
            refs == refs_of(all),
            count == all.len(),
            indices.wf(),
            (indices.view(), numbers@) == start.number_all(refs.take(i as int)),
            numbers@.len() == i,
    {
        assert(refs.take(i + 1).drop_last() =~= refs.take(i as int));
        assert(refs.take(i + 1).last() == all[i as int].object_ref@);
        let number: u32 = indices.index_for(&nodes[i].object_ref);
        numbers.push(number);
    }
    assert(refs.take(count as int) =~= refs);
    let ghost given = numbers@;
    for i in 0..count
        invariant
            count == all.len() == nodes@.len() == numbers@.len(),
            given == numbers@,
            forall|k: int| 0 <= k < i ==> #[trigger] nodes@[k] == renumbered(all, given)[k],
            forall|k: int| i <= k < count ==> #[trigger] nodes@[k] == all[k],
    {
        let parent: Option<u32> = match nodes[i].parent_index {
            Some(p) => if (p as usize) < numbers.len() {
                Some(numbers[p as usize])
            } else {
                None
            },
            None => None,
        };
        let index: u32 = numbers[i];
        nodes[i].parent_index = parent;
        nodes[i].index = index;
        assert(nodes@[i as int] == renumbered(all, given)[i as int]);
    }
    assert(nodes@ =~= renumbered(all, given));
}

/// Whether numbering some elements forgets none: neither is the memory full nor the last
/// number reached when a new one comes.
pub open spec fn remembers(start: Numbering, refs: Seq<Seq<char>>) -> bool
    decreases refs.len(),
{
    refs.len() == 0 || {
        let before = start.number_all(refs.drop_last()).0;
        &&& remembers(start, refs.drop_last())
        &&& before.assigned.contains_key(refs.last()) || (before.count < MAX_TRACKED && before.next
            != u32::MAX)
    }
}

/// While nothing is forgotten, numbering more elements keeps every number given.
proof fn numbers_are_kept(start: Numbering, refs: Seq<Seq<char>>)
    requires
        start.wf(),
        remembers(start, refs),
    ensures
        ({
            let (after, numbers) = start.number_all(refs);
            &&& start.assigned.submap_of(after.assigned)
            &&& after.wf()
            &&& numbers.len() == refs.len()
            &&& forall|i: int|
                0 <= i < refs.len() ==> after.assigned.contains_key(#[trigger] refs[i])
                    && after.assigned[refs[i]] == numbers[i]
        }),
    decreases refs.len(),
{
    if refs.len() > 0 {
        let rest = refs.drop_last();
        numbers_are_kept(start, rest);
        let (before, numbers) = start.number_all(rest);
        numbers_stay_apart(before, refs.last());
        let (after, all) = start.number_all(refs);
        assert forall|i: int| 0 <= i < refs.len() implies after.assigned.contains_key(
            #[trigger] refs[i],
        ) && after.assigned[refs[i]] == all[i] by {
            if i < rest.len() {
                assert(rest[i] == refs[i]);
                assert(before.assigned.contains_key(rest[i]));
            }
        }
    }
}

/// An index keeps naming its element across reads of the tree: an element in two reads has
/// one index in both, and an index of an element that is gone from the second names no
/// element there. It holds as long as the memory is not dropped in between.
pub proof fn an_index_names_one_element(
    start: Numbering,
    first: Seq<AccessibilityNode>,
    second: Seq<AccessibilityNode>,
    i: int,
    j: int,
)
    requires
        start.wf(),
        remembers(start, refs_of(first)),
        remembers(start.number_all(refs_of(first)).0, refs_of(second)),
        0 <= i < first.len(),
        0 <= j < second.len(),
    ensures
        ({
            let (between, numbers) = start.number_all(refs_of(first));
            let one = renumbered(first, numbers);
            let two = renumbered(second, between.number_all(refs_of(second)).1);
            one[i].index == two[j].index <==> first[i].object_ref@ == second[j].object_ref@
        }),
{
    let (between, numbers) = start.number_all(refs_of(first));
    numbers_are_kept(start, refs_of(first));
    numbers_are_kept(between, refs_of(second));
    let (after, later) = between.number_all(refs_of(second));
    assert(between.assigned.contains_key(refs_of(first)[i]));
    assert(between.assigned[refs_of(first)[i]] == numbers[i]);
    assert(between.assigned.submap_of(after.assigned));
    assert(after.assigned.contains_key(refs_of(first)[i]));
    assert(after.assigned.contains_key(refs_of(second)[j]));
    assert(after.assigned[refs_of(first)[i]] == numbers[i]);
    assert(after.assigned[refs_of(second)[j]] == later[j]);
}

/// Within one read, two nodes share an index exactly when they are one element.
pub proof fn indices_in_a_read_are_distinct(
    start: Numbering,
    nodes: Seq<AccessibilityNode>,
    i: int,
    j: int,
)
    requires
        start.wf(),
        remembers(start, refs_of(nodes)),
        0 <= i < nodes.len(),
        0 <= j < nodes.len(),
    ensures
        ({
            let tree = renumbered(nodes, start.number_all(refs_of(nodes)).1);
            tree[i].index == tree[j].index <==> nodes[i].object_ref@ == nodes[j].object_ref@
        }),
{
    numbers_are_kept(start, refs_of(nodes));
    let (after, numbers) = start.number_all(refs_of(nodes));
    assert(after.assigned.contains_key(refs_of(nodes)[i]));
    assert(after.assigned.contains_key(refs_of(nodes)[j]));
}

/// Whether a text is there and holds something that can be seen.
pub open spec fn can_be_seen(text: Option<String>) -> bool {
    text is Some && exists|i: int| 0 <= i < text->0@.len() && !is_white(#[trigger] text->0@[i])
}

proof fn what_is_filled_can_be_seen(text: Option<String>)
    ensures
        can_be_seen(text) <==> is_filled(text_of(text)),
{
    if text is Some {
        blank_is_all_white(text->0@);
    }
}

/// Whether a node of the compact tree is one of the nodes read, with all that was read of it
/// but for where it stands: its number, its parent's and how many children it has.
pub open spec fn is_the_node_read(kept: AccessibilityNode, read: AccessibilityNode) -> bool {
    &&& kept.depth == read.depth
    &&& kept.object_ref == read.object_ref
    &&& kept.role == read.role
    &&& kept.name == read.name
    &&& kept.description == read.description
    &&& kept.bounds == read.bounds
    &&& kept.states == read.states
    &&& kept.actions == read.actions
    &&& kept.value == read.value
    &&& kept.text == read.text
    &&& kept.supports_editable_text == read.supports_editable_text
}

proof fn a_kept_node_is_in_the_compact_tree(nodes: Seq<AccessibilityNode>, i: int)
    requires
        0 <= i < nodes.len(),
        is_kept(nodes[i]),
    ensures
        exists|k: int|
            0 <= k < compact(nodes).len() && is_the_node_read(
                #[trigger] compact(nodes)[k],
                nodes[i],
            ),
{
    stays_at(nodes, i);
    let k = place(nodes, i);
    assert(is_the_node_read(compact(nodes)[k], nodes[i]));
}

/// Compacting drops no node that shows anything: a node whose name, description or text can
/// be seen is in the compact tree, with all of these.
pub proof fn compacting_drops_nothing_that_can_be_seen(nodes: Seq<AccessibilityNode>, i: int)
    requires
        0 <= i < nodes.len(),
        can_be_seen(nodes[i].name) || can_be_seen(nodes[i].description) || (nodes[i].text is Some
            && can_be_seen(nodes[i].text->0.content)),
    ensures
        exists|k: int|
            0 <= k < compact(nodes).len() && is_the_node_read(
                #[trigger] compact(nodes)[k],
                nodes[i],
            ),
{
    what_is_filled_can_be_seen(nodes[i].name);
    what_is_filled_can_be_seen(nodes[i].description);
    if nodes[i].text is Some {
        what_is_filled_can_be_seen(nodes[i].text->0.content);
    }
    a_kept_node_is_in_the_compact_tree(nodes, i);
}

/// Compacting drops no node that can be acted on: one that offers an action, whose text can
/// be edited, or that has a value.
pub proof fn compacting_drops_nothing_that_can_be_acted_on(nodes: Seq<AccessibilityNode>, i: int)
    requires
        0 <= i < nodes.len(),
        nodes[i].actions@.len() > 0 || nodes[i].supports_editable_text || nodes[i].value is Some,
    ensures
        exists|k: int|
            0 <= k < compact(nodes).len() && is_the_node_read(
                #[trigger] compact(nodes)[k],
                nodes[i],
            ),
{
    a_kept_node_is_in_the_compact_tree(nodes, i);
}

/// Compacting drops neither the application nor its windows, nor an entry of a menu, a list,
/// a tree or a row of tabs that has a place.
pub proof fn compacting_drops_no_window_and_no_entry(nodes: Seq<AccessibilityNode>, i: int)
    requires
        0 <= i < nodes.len(),
        nodes[i].depth == 0 || nodes[i].depth == 1 || (nodes[i].bounds is Some && (
        nodes[i].role@ == "page tab"@ || nodes[i].role@ == "menu item"@ || nodes[i].role@
            == "menu"@ || nodes[i].role@ == "list item"@ || nodes[i].role@ == "tree item"@)),
    ensures
        exists|k: int|
            0 <= k < compact(nodes).len() && is_the_node_read(
                #[trigger] compact(nodes)[k],
                nodes[i],
            ),
{
    a_kept_node_is_in_the_compact_tree(nodes, i);
}

/// Compacting leaves out what only gives structure: a node below the windows that shows
/// nothing, cannot be acted on and has no place is not in the compact tree.
pub proof fn compacting_leaves_out_structure(nodes: Seq<AccessibilityNode>, k: int)
    requires
        0 <= k < compact(nodes).len(),
    ensures
        exists|i: int|
            0 <= i < nodes.len() && is_the_node_read(compact(nodes)[k], #[trigger] nodes[i]),
        compact(nodes)[k].index == k as u32,
        ({
            let node = compact(nodes)[k];
            ||| node.depth <= 1
            ||| node.actions@.len() > 0 || node.supports_editable_text || node.value is Some
            ||| can_be_seen(node.name) || can_be_seen(node.description)
            ||| node.text is Some && can_be_seen(node.text->0.content)
            ||| node.bounds is Some
        }),
{
    compacting_keeps_what_stays(nodes);
    let node = compact(nodes)[k];
    let from = matching(nodes, kept())[k];
    what_is_filled_can_be_seen(node.name);
    what_is_filled_can_be_seen(node.description);
    if node.text is Some {
        what_is_filled_can_be_seen(node.text->0.content);
    }
    assert(is_kept(nodes[from]));
    assert(is_the_node_read(node, nodes[from]));
}

/// A node whose parent is in the compact tree stands under it there; a node without a parent
/// has none there.
pub proof fn a_node_stays_under_its_parent(nodes: Seq<AccessibilityNode>, k: int)
    requires
        nodes.len() <= i32::MAX,
        0 <= k < compact(nodes).len(),
    ensures
        ({
            let from = matching(nodes, kept())[k];
            let parent = nodes[from].parent_index;
            &&& parent is None ==> compact(nodes)[k].parent_index is None
            &&& parent is Some && parent->0 < nodes.len() && matching(nodes, kept()).contains(
                parent->0 as int,
            ) ==> compact(nodes)[k].parent_index is Some && compact(nodes)[k].parent_index->0
                < compact(nodes).len() && is_the_node_read(
                compact(nodes)[compact(nodes)[k].parent_index->0 as int],
                nodes[parent->0 as int],
            )
        }),
{
    a_compact_parent_is_in_the_tree(nodes, k);
    matching_is_exact(nodes, kept());
    let from = matching(nodes, kept())[k];
    let parent = nodes[from].parent_index;
    if parent is Some && parent->0 < nodes.len() && matching(nodes, kept()).contains(
        parent->0 as int,
    ) {
        assert(is_kept(nodes[parent->0 as int]));
    }
}

/// Whether a path goes from node to parent, over nodes that are left out.
pub open spec fn leads_up(nodes: Seq<AccessibilityNode>, path: Seq<int>) -> bool {
    &&& path.len() >= 2
    &&& forall|i: int|
        0 <= i < path.len() - 1 ==> 0 <= #[trigger] path[i] < nodes.len()
            && nodes[path[i]].parent_index is Some && nodes[path[i]].parent_index->0 == path[i + 1]
    &&& forall|i: int|
        0 < i < path.len() - 1 ==> !matching(nodes, kept()).contains(#[trigger] path[i])
}

proof fn the_nearest_is_reached_by_parents(
    nodes: Seq<AccessibilityNode>,
    from: int,
    steps: nat,
) -> (path: Seq<int>)
    requires
        0 <= from < nodes.len(),
        nearest_kept(nodes, nodes[from].parent_index, steps) is Some,
    ensures
        leads_up(nodes, path),
        path[0] == from,
        path.last() == nearest_kept(nodes, nodes[from].parent_index, steps)->0,
    decreases steps,
{
    let parent = nodes[from].parent_index->0 as int;
    matching_is_exact(nodes, kept());
    if is_kept(nodes[parent]) {
        seq![from, parent]
    } else {
        let rest = the_nearest_is_reached_by_parents(nodes, parent, (steps - 1) as nat);
        let path = seq![from] + rest;
        assert forall|i: int| 0 <= i < path.len() - 1 implies 0 <= #[trigger] path[i] < nodes.len()
            && nodes[path[i]].parent_index is Some && nodes[path[i]].parent_index->0 == path[i
            + 1] by {
            if i > 0 {
                assert(path[i] == rest[i - 1]);
                assert(path[i + 1] == rest[i]);
            }
        }
        assert forall|i: int| 0 < i < path.len() - 1 implies !matching(nodes, kept()).contains(
            #[trigger] path[i],
        ) by {
            assert(path[i] == rest[i - 1]);
            assert(!is_kept(nodes[parent]));
        }
        assert(path.last() == rest.last());
        path
    }
}

/// The parent a node has in the compact tree is one of its ancestors, reached from parent to
/// parent, and no ancestor that is in the compact tree lies between them.
pub proof fn a_compact_parent_is_the_nearest_ancestor(nodes: Seq<AccessibilityNode>, k: int)
    requires
        nodes.len() <= i32::MAX,
        0 <= k < compact(nodes).len(),
        compact(nodes)[k].parent_index is Some,
    ensures
        ({
            let q = compact(nodes)[k].parent_index->0 as int;
            &&& q < compact(nodes).len()
            &&& exists|path: Seq<int>| #[trigger]
                leads_up(nodes, path) && is_the_node_read(compact(nodes)[k], nodes[path[0]])
                    && is_the_node_read(compact(nodes)[q], nodes[path.last()])
        }),
{
    a_compact_parent_is_in_the_tree(nodes, k);
    let from = matching(nodes, kept())[k];
    matching_is_exact(nodes, kept());
    assert(matching(nodes, kept()).contains(from));
    let path = the_nearest_is_reached_by_parents(nodes, from, nodes.len());
    let q = compact(nodes)[k].parent_index->0 as int;
    assert(is_the_node_read(compact(nodes)[k], nodes[path[0]]));
    assert(is_the_node_read(compact(nodes)[q], nodes[path.last()]));
}

/// The children a node is said to have in the compact tree are the nodes there whose parent
/// it is.
pub proof fn children_are_counted(nodes: Seq<AccessibilityNode>, k: int)
    requires
        nodes.len() <= i32::MAX,
        0 <= k < compact(nodes).len(),
    ensures
        compact(nodes)[k].child_count == matching(
            compact(nodes),
            |node: AccessibilityNode| node.parent_index == Some(k as u32),
        ).len(),
{
    let parents = new_parents(nodes);
    matching_is_exact(nodes, kept());
    places_grow(nodes, 0, nodes.len() as int);
    assert(nodes.take(nodes.len() as int) =~= nodes);
    times_are_few(parents, k);
    children_are_times(compact(nodes), parents, k);
}

proof fn children_are_times(tree: Seq<AccessibilityNode>, parents: Seq<Option<u32>>, k: int)
    requires
        tree.len() == parents.len(),
        forall|i: int| 0 <= i < tree.len() ==> (#[trigger] tree[i]).parent_index == parents[i],
    ensures
        times(parents, k) == matching(
            tree,
            |node: AccessibilityNode| node.parent_index == Some(k as u32),
        ).len(),
    decreases tree.len(),
{
    if tree.len() > 0 {
        let rest = tree.drop_last();
        assert forall|i: int| 0 <= i < rest.len() implies (#[trigger] rest[i]).parent_index
            == parents.drop_last()[i] by {
            assert(rest[i] == tree[i]);
        }
        children_are_times(rest, parents.drop_last(), k);
        assert(tree.last().parent_index == parents.last());
    }
}

/// A tree that is renumbered keeps all else of its nodes, and a node goes on naming as its
/// parent the node that was: by that node's number.
pub proof fn renumbering_changes_only_numbers(
    nodes: Seq<AccessibilityNode>,
    numbers: Seq<u32>,
    i: int,
)
    requires
        numbers.len() == nodes.len(),
        0 <= i < nodes.len(),
    ensures
        renumbered(nodes, numbers).len() == nodes.len(),
        is_the_node_read(renumbered(nodes, numbers)[i], nodes[i]),
        renumbered(nodes, numbers)[i].child_count == nodes[i].child_count,
        renumbered(nodes, numbers)[i].index == numbers[i],
        nodes[i].parent_index is Some && nodes[i].parent_index->0 < nodes.len() ==> renumbered(
            nodes,
            numbers,
        )[i].parent_index == Some(
            renumbered(nodes, numbers)[nodes[i].parent_index->0 as int].index,
        ),
        nodes[i].parent_index is None ==> renumbered(nodes, numbers)[i].parent_index is None,
        nodes[i].parent_index is Some && nodes[i].parent_index->0 >= nodes.len() ==> renumbered(
            nodes,
            numbers,
        )[i].parent_index is None,
{
}

} // verus!
