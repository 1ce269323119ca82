use clin::base::{FilterNode, FilterNodeMap};
use clin::filter::eval_filter;

fn f(s: &str) -> FilterNode {
    FilterNode::Expr(s.to_string())
}

fn truths(entries: &[(&str, bool)]) -> Vec<(String, bool)> {
    entries.iter().map(|(k, v)| (k.to_string(), *v)).collect()
}

#[test]
fn formulas_by_their_truth() {
    let t = truths(&[("a", true), ("b", false)]);
    assert!(eval_filter(&f("a"), &t));
    assert!(!eval_filter(&f("b"), &t));
    // a formula that did not evaluate fails
    assert!(!eval_filter(&f("c"), &t));
    // the later entry counts
    let t2 = truths(&[("a", true), ("a", false)]);
    assert!(!eval_filter(&f("a"), &t2));
}

#[test]
fn and_or_not_combinations() {
    let t = truths(&[("yes", true), ("no", false)]);
    let and = FilterNode::Combined(FilterNodeMap { and: Some(vec![f("yes"), f("no")]), ..Default::default() });
    assert!(!eval_filter(&and, &t));
    let or = FilterNode::Combined(FilterNodeMap { or: Some(vec![f("no"), f("yes")]), ..Default::default() });
    assert!(eval_filter(&or, &t));
    let not = FilterNode::Combined(FilterNodeMap { not: Some(vec![f("no")]), ..Default::default() });
    assert!(eval_filter(&not, &t));
    let not_any = FilterNode::Combined(FilterNodeMap { not: Some(vec![f("no"), f("yes")]), ..Default::default() });
    assert!(!eval_filter(&not_any, &t));
    // nested
    let nested = FilterNode::Combined(FilterNodeMap { and: Some(vec![or, not]), ..Default::default() });
    assert!(eval_filter(&nested, &t));
}

#[test]
fn empty_lists_and_precedence() {
    let t = truths(&[("no", false)]);
    let empty_and = FilterNode::Combined(FilterNodeMap { and: Some(vec![]), ..Default::default() });
    assert!(eval_filter(&empty_and, &t));
    let empty_or = FilterNode::Combined(FilterNodeMap { or: Some(vec![]), ..Default::default() });
    assert!(!eval_filter(&empty_or, &t));
    let empty_not = FilterNode::Combined(FilterNodeMap { not: Some(vec![]), ..Default::default() });
    assert!(eval_filter(&empty_not, &t));
    // `and` wins over `or`, `expr` is read only when no list is given
    let both = FilterNode::Combined(FilterNodeMap {
        and: Some(vec![]),
        or: Some(vec![f("no")]),
        expr: Some("no".to_string()),
        ..Default::default()
    });
    assert!(eval_filter(&both, &t));
    let expr_only = FilterNode::Combined(FilterNodeMap { expr: Some("no".to_string()), ..Default::default() });
    assert!(!eval_filter(&expr_only, &t));
    let nothing = FilterNode::Combined(FilterNodeMap::default());
    assert!(eval_filter(&nothing, &t));
}
