use clin::outline::{parse_outline, NodeKind};

#[test]
fn test_parse_outline() {
    let content = "
# Project
Intro paragraph line.

## Tasks
- Fix bug
- Add tests

### Stretch
Some notes here.

```rust
fn x() {}
```
";
    let nodes = parse_outline("Title", content);
    assert_eq!(
        nodes[0].kind,
        NodeKind::Header {
            level: 0,
            title: "Title".to_string()
        }
    );
    assert_eq!(nodes[0].depth, 0);

    assert_eq!(
        nodes[1].kind,
        NodeKind::Header {
            level: 1,
            title: "Project".to_string()
        }
    );
    assert_eq!(nodes[1].depth, 1);
    assert!(nodes[1].has_children);

    assert_eq!(
        nodes[2].kind,
        NodeKind::Paragraph {
            preview: "Intro paragraph line.".to_string(),
            full_text: "Intro paragraph line.".to_string(),
        }
    );
    assert_eq!(nodes[2].depth, 2);

    assert_eq!(
        nodes[3].kind,
        NodeKind::Header {
            level: 2,
            title: "Tasks".to_string()
        }
    );
    assert_eq!(nodes[3].depth, 2);
    assert!(nodes[3].has_children);

    assert_eq!(
        nodes[4].kind,
        NodeKind::ListItem {
            text: "Fix bug".to_string()
        }
    );
    assert_eq!(nodes[4].depth, 3);
    assert_eq!(
        nodes[5].kind,
        NodeKind::ListItem {
            text: "Add tests".to_string()
        }
    );
    assert_eq!(nodes[5].depth, 3);

    assert_eq!(
        nodes[6].kind,
        NodeKind::Header {
            level: 3,
            title: "Stretch".to_string()
        }
    );
    assert_eq!(nodes[6].depth, 3);
    assert!(nodes[6].has_children);

    assert_eq!(
        nodes[7].kind,
        NodeKind::Paragraph {
            preview: "Some notes here.".to_string(),
            full_text: "Some notes here.".to_string(),
        }
    );
    assert_eq!(nodes[7].depth, 4);

    assert_eq!(
        nodes[8].kind,
        NodeKind::CodeBlock {
            lang: "rust".to_string(),
            code: "fn x() {}".to_string(),
        }
    );
    assert_eq!(nodes[8].depth, 4);
}

#[test]
fn outline_depths_step_by_at_most_one() {
    let content = "# A\n### C\n- item\n## B\ntext\n\n# D\n";
    let nodes = parse_outline("T", content);
    assert_eq!(nodes[0].depth, 0);
    for i in 1..nodes.len() {
        assert!(nodes[i].depth >= 1);
        assert!(nodes[i].depth <= nodes[i - 1].depth + 1);
    }
}

#[test]
fn long_paragraph_preview_is_cut_at_sixty() {
    let line = "x".repeat(70);
    let nodes = parse_outline("T", &line);
    match &nodes[1].kind {
        NodeKind::Paragraph { preview, full_text } => {
            assert_eq!(preview.chars().count(), 61);
            assert!(preview.ends_with('…'));
            assert_eq!(full_text, &line);
        }
        other => panic!("unexpected {other:?}"),
    }
}

#[test]
fn empty_note_has_only_the_root() {
    let nodes = parse_outline("Only", "");
    assert_eq!(nodes.len(), 1);
    assert!(!nodes[0].has_children);
    assert_eq!(nodes[0].line, 1);
}

#[test]
fn long_hash_runs_inside_code_blocks_are_code() {
    let hashes = "#".repeat(300);
    let content = format!("# A\n```\n{hashes}\n```\n");
    let nodes = parse_outline("T", &content);
    assert_eq!(nodes.len(), 3);
    match &nodes[2].kind {
        NodeKind::CodeBlock { lang, code } => {
            assert_eq!(lang, "");
            assert_eq!(code, &hashes);
        }
        other => panic!("unexpected {other:?}"),
    }
    assert_eq!(nodes[2].depth, 2);
    assert_eq!(nodes[2].line, 2);
}

#[test]
fn outline_lines_increase_and_children_are_marked() {
    let content = "# A\npara\n- item\n\n## B\n```\ncode\n```\n# C\n";
    let nodes = parse_outline("T", content);
    let line_count = content.lines().count();
    for i in 1..nodes.len() {
        assert!(nodes[i].line >= 1 && nodes[i].line <= line_count);
        if i + 1 < nodes.len() {
            assert!(nodes[i].line < nodes[i + 1].line);
        }
    }
    for i in 0..nodes.len() {
        let deeper_next = i + 1 < nodes.len() && nodes[i + 1].depth > nodes[i].depth;
        assert_eq!(nodes[i].has_children, deeper_next);
    }
}
