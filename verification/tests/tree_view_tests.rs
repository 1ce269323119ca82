use clin::outline::{parse_outline, TreeNode};
use clin::tree_view::{get_tree_prefix, open_target};

#[test]
fn tree_guides_follow_the_outline() {
    let nodes: Vec<TreeNode> = parse_outline("T", "# A\ntext\n- item\n# B\n");
    // depths: T 0, A 1, text 2, item 2, B 1
    let visible: Vec<usize> = (0..nodes.len()).collect();
    assert_eq!(get_tree_prefix(&nodes, &visible, 0), "");
    assert_eq!(get_tree_prefix(&nodes, &visible, 1), "╭── ");
    assert_eq!(get_tree_prefix(&nodes, &visible, 2), "│   ╭── ");
    assert_eq!(get_tree_prefix(&nodes, &visible, 3), "│   ╰── ");
    assert_eq!(get_tree_prefix(&nodes, &visible, 4), "╰── ");
}

#[test]
fn middle_children_continue_the_run() {
    let nodes = parse_outline("T", "- a\n- b\n- c\n");
    let visible: Vec<usize> = (0..nodes.len()).collect();
    assert_eq!(get_tree_prefix(&nodes, &visible, 1), "╭── ");
    assert_eq!(get_tree_prefix(&nodes, &visible, 2), "├── ");
    assert_eq!(get_tree_prefix(&nodes, &visible, 3), "╰── ");
}

#[test]
fn open_jumps_to_the_selected_line() {
    let nodes = parse_outline("T", "intro\n\n# Head\n");
    assert_eq!(open_target(false, 2, &nodes), Some(3));
    assert_eq!(open_target(true, 2, &nodes), None);
    assert_eq!(open_target(false, 9, &nodes), None);
}
