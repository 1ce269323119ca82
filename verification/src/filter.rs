//! Filters of a base view: whether a note passes a tree of `and`, `or` and
//! `not` combinations, given whether it satisfies each formula.
use vstd::prelude::*;
use crate::base::{FilterNode, FilterNodeMap};
use crate::text::str_eq;

verus! {

/// Whether a note satisfies a formula, by the formula's text: the last
/// entry for the text counts, and a formula without an entry fails (as one
/// that does not evaluate does).
pub open spec fn formula_truth(table: Seq<(Seq<char>, bool)>, f: Seq<char>) -> bool
    decreases table.len(),
{
    if table.len() == 0 {
        false
    } else if table.last().0 == f {
        table.last().1
    } else {
        formula_truth(table.drop_last(), f)
    }
}

/// Whether a note passes a filter: a formula by its truth; a combination
/// by its `and` list (all pass) if it has one, else its `or` list (one
/// passes), else its `not` list (none passes), else its formula; an empty
/// combination passes.
pub open spec fn passes(n: FilterNode, table: Seq<(Seq<char>, bool)>) -> bool
    decreases n, 0int,
{
    match n {
        FilterNode::Expr(s) => formula_truth(table, s@),
        FilterNode::Combined(m) => match m.and {
            Some(v) => all_pass(v@, table, 0),
            None => match m.or {
                Some(v) => any_passes(v@, table, 0),
                None => match m.not {
                    Some(v) => !any_passes(v@, table, 0),
                    None => match m.expr {
                        Some(s) => formula_truth(table, s@),
                        None => true,
                    },
                },
            },
        },
    }
}

/// Every filter of `ns` from index `i` on passes.
pub open spec fn all_pass(ns: Seq<FilterNode>, table: Seq<(Seq<char>, bool)>, i: int) -> bool
    decreases ns, ns.len() - i,
{
    if i < 0 || i >= ns.len() {
        true
    } else {
        passes(ns[i], table) && all_pass(ns, table, i + 1)
    }
}

/// Some filter of `ns` from index `i` on passes.
pub open spec fn any_passes(ns: Seq<FilterNode>, table: Seq<(Seq<char>, bool)>, i: int) -> bool
    decreases ns, ns.len() - i,
{
    if i < 0 || i >= ns.len() {
        false
    } else {
        passes(ns[i], table) || any_passes(ns, table, i + 1)
    }
}

/// The truths as values.
pub open spec fn truth_views(table: Seq<(String, bool)>) -> Seq<(Seq<char>, bool)> {
    table.map_values(|e: (String, bool)| (e.0@, e.1))
}

fn truth_of(table: &Vec<(String, bool)>, f: &String) -> (r: bool)
    ensures
        r == formula_truth(truth_views(table@), f@),
{
    let ghost tv = truth_views(table@);
    let mut i: usize = table.len();
    proof {
        assert(tv.take(tv.len() as int) == tv);
    }
    while i > 0
        invariant
            i <= table@.len(),
            tv == truth_views(table@),
            formula_truth(tv, f@) == formula_truth(tv.take(i as int), f@),
        decreases i,
    {
        proof {
            assert(tv.take(i as int).drop_last() == tv.take(i - 1));
            assert(tv.take(i as int).last() == tv[i - 1]);
        }
        if str_eq(table[i - 1].0.as_str(), f.as_str()) {
            return table[i - 1].1;
        }
        i = i - 1;
    }
    false
}

/// Whether a note passes the filter `node`; `table` gives, for the texts of
/// the formulas, whether the note satisfies them.
pub fn eval_filter(node: &FilterNode, table: &Vec<(String, bool)>) -> (r: bool)
    ensures
        r == passes(*node, truth_views(table@)),
    decreases node,
{
    match node {
        FilterNode::Expr(s) => truth_of(table, s),
        FilterNode::Combined(m) => eval_filter_map(m, table),
    }
}

fn eval_filter_map(m: &FilterNodeMap, table: &Vec<(String, bool)>) -> (r: bool)
    ensures
        r == passes(FilterNode::Combined(*m), truth_views(table@)),
    decreases *m,
{
    let ghost tv = truth_views(table@);
    if let Some(v) = &m.and {
        let mut i: usize = 0;
        while i < v.len()
            invariant
                i <= v@.len(),
                tv == truth_views(table@),
                m.and == Some(*v),
                all_pass(v@, tv, 0) == all_pass(v@, tv, i as int),
            decreases v@.len() - i,
        {
            proof {
                assert(decreases_to!(*m => m.and));
                assert(decreases_to!(m.and => m.and->0));
                assert(decreases_to!(*v => v@));
                assert(decreases_to!(v@ => v@[i as int]));
            }
            if !eval_filter(&v[i], table) {
                return false;
            }
            i = i + 1;
        }
        return true;
    }
    if let Some(v) = &m.or {
        let mut i: usize = 0;
        while i < v.len()
            invariant
                i <= v@.len(),
                tv == truth_views(table@),
                m.and is None,
                m.or == Some(*v),
                any_passes(v@, tv, 0) == any_passes(v@, tv, i as int),
            decreases v@.len() - i,
        {
            proof {
                assert(decreases_to!(*m => m.or));
                assert(decreases_to!(m.or => m.or->0));
                assert(decreases_to!(*v => v@));
                assert(decreases_to!(v@ => v@[i as int]));
            }
            if eval_filter(&v[i], table) {
                return true;
            }
            i = i + 1;
        }
        return false;
    }
    if let Some(v) = &m.not {
        let mut i: usize = 0;
        while i < v.len()
            invariant
                i <= v@.len(),
                tv == truth_views(table@),
                m.and is None,
                m.or is None,
                m.not == Some(*v),
                any_passes(v@, tv, 0) == any_passes(v@, tv, i as int),
            decreases v@.len() - i,
        {
            proof {
                assert(decreases_to!(*m => m.not));
                assert(decreases_to!(m.not => m.not->0));
                assert(decreases_to!(*v => v@));
                assert(decreases_to!(v@ => v@[i as int]));
            }
            if eval_filter(&v[i], table) {
                return false;
            }
            i = i + 1;
        }
        return true;
    }
    match &m.expr {
        Some(s) => truth_of(table, s),
        None => true,
    }
}

} // verus!
