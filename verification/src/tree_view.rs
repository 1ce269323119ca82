//! The outline view of a note: what its input handling reports, where an
//! `Open` jumps to, and the tree guides drawn before each visible node.
use vstd::prelude::*;
use crate::outline::TreeNode;
use crate::text::concat_str;

verus! {

/// What a key or mouse event in the outline view asks for.
#[derive(Debug, Clone, Copy, PartialEq, Eq, Structural)]
pub enum ContentTreeInput {
    Nothing,
    Open,
    Back,
    Help,
}

/// The source line that `Open` jumps to: that of the selected node, unless
/// the note failed to load or the selection is out of range, in which case
/// the view just closes (`None`).
pub fn open_target(load_error: bool, selected: usize, nodes: &Vec<TreeNode>) -> (r: Option<usize>)
    ensures
        (!load_error && selected < nodes@.len()) ==> r == Some(nodes@[selected as int].line),
        (load_error || selected >= nodes@.len()) ==> r is None,
{
    if !load_error && selected < nodes.len() {
        Some(nodes[selected].line)
    } else {
        None
    }
}

/// Whether a node at depth `l` follows position `k` of the visible depths
/// `d` before any shallower node does.
pub open spec fn sibling_from(d: Seq<nat>, k: int, l: nat) -> bool
    decreases d.len() - k,
{
    if k < 0 || k >= d.len() {
        false
    } else if d[k] == l {
        true
    } else if d[k] < l {
        false
    } else {
        sibling_from(d, k + 1, l)
    }
}

/// The guide drawn at level `l` (1-based) before the visible node at
/// position `p`, whose depth is `d[p]`: a bar or blank above its own level,
/// and at its own level a corner that opens, closes or continues the run of
/// siblings.
pub open spec fn guide(d: Seq<nat>, p: int, l: nat) -> Seq<char> {
    let below = sibling_from(d, p + 1, l);
    if l < d[p] {
        if below {
            "│   "@
        } else {
            "    "@
        }
    } else {
        let first = if p > 0 {
            d[p - 1] < d[p]
        } else {
            true
        };
        if first && below {
            "╭── "@
        } else if !below {
            "╰── "@
        } else {
            "├── "@
        }
    }
}

/// The guides of levels `1..=l`.
pub open spec fn guides_upto(d: Seq<nat>, p: int, l: nat) -> Seq<char>
    decreases l,
{
    if l == 0 {
        Seq::empty()
    } else {
        guides_upto(d, p, (l - 1) as nat) + guide(d, p, l)
    }
}

/// The depths of the visible nodes, in order.
pub open spec fn visible_depths(nodes: Seq<TreeNode>, visible: Seq<usize>) -> Seq<nat> {
    visible.map_values(|i: usize| nodes[i as int].depth as nat)
}

/// Whether a node at depth `l` follows visible position `from` before any
/// shallower node does.
fn sibling_below(nodes: &Vec<TreeNode>, visible: &Vec<usize>, from: usize, l: usize) -> (r: bool)
    requires
        forall|i: int| 0 <= i < visible@.len() ==> (#[trigger] visible@[i]) < nodes@.len(),
        from <= visible@.len(),
    ensures
        r == sibling_from(visible_depths(nodes@, visible@), from as int, l as nat),
{
    let ghost d = visible_depths(nodes@, visible@);
    let mut k: usize = from;
    while k < visible.len()
        invariant
            d == visible_depths(nodes@, visible@),
            forall|i: int| 0 <= i < visible@.len() ==> (#[trigger] visible@[i]) < nodes@.len(),
            from <= k <= visible@.len(),
            sibling_from(d, from as int, l as nat) == sibling_from(d, k as int, l as nat),
        decreases visible@.len() - k,
    {
        let depth = nodes[visible[k]].depth;
        assert(d[k as int] == depth);
        if depth == l {
            return true;
        }
        if depth < l {
            return false;
        }
        k = k + 1;
    }
    false
}

/// The tree guides drawn before the visible node at position `p`: nothing
/// for the root, else one guide per level down to the node's depth.
pub fn get_tree_prefix(nodes: &Vec<TreeNode>, visible: &Vec<usize>, p: usize) -> (r: String)
    requires
        p < visible.len(),
        forall|i: int| 0 <= i < visible@.len() ==> (#[trigger] visible@[i]) < nodes@.len(),
    ensures
        r@ == guides_upto(
            visible_depths(nodes@, visible@),
            p as int,
            nodes@[visible@[p as int] as int].depth as nat,
        ),
{
    let ghost d = visible_depths(nodes@, visible@);
    let depth = nodes[visible[p]].depth;
    assert(d[p as int] == depth);
    let mut prefix = String::new();
    if depth == 0 {
        return prefix;
    }
    proof {
        reveal_strlit("│   ");
        reveal_strlit("    ");
        reveal_strlit("╭── ");
        reveal_strlit("╰── ");
        reveal_strlit("├── ");
    }
    let mut l: usize = 1;
    while l < depth
        invariant
            d == visible_depths(nodes@, visible@),
            forall|i: int| 0 <= i < visible@.len() ==> (#[trigger] visible@[i]) < nodes@.len(),
            p < visible.len(),
            d[p as int] == depth,
            1 <= l <= depth,
            prefix@ == guides_upto(d, p as int, (l - 1) as nat),
        decreases depth - l,
    {
        let below = sibling_below(nodes, visible, p + 1, l);
        let seg: &str = if below {
            "│   "
        } else {
            "    "
        };
        assert(seg@ == guide(d, p as int, l as nat));
        prefix = concat_str(prefix.as_str(), seg);
        l = l + 1;
    }
    let below = sibling_below(nodes, visible, p + 1, depth);
    let first = if p > 0 {
        assert(d[p - 1] == nodes@[visible@[p - 1] as int].depth);
        nodes[visible[p - 1]].depth < depth
    } else {
        true
    };
    let seg: &str = if first && below {
        "╭── "
    } else if !below {
        "╰── "
    } else {
        "├── "
    };
    assert(seg@ == guide(d, p as int, depth as nat));
    prefix = concat_str(prefix.as_str(), seg);
    prefix
}

} // verus!
