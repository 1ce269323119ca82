use clin::cell_edit::{edit_refusal, frontmatter_edit, is_true_text, list_items, CellValueKind, FrontmatterEdit};

#[test]
fn computed_and_encrypted_cells_are_refused() {
    assert_eq!(edit_refusal("file.name", "a.md"), Some("Cannot edit this cell"));
    assert_eq!(edit_refusal("formula.total", "a.md"), Some("Cannot edit this cell"));
    assert_eq!(
        edit_refusal("status", "secret.clin"),
        Some("Cannot edit encrypted note inline; decrypt first.")
    );
    assert_eq!(edit_refusal("file.size", "secret.clin"), Some("Cannot edit this cell"));
    assert_eq!(edit_refusal("status", "a.md"), None);
    assert_eq!(edit_refusal("files", "clin"), None);
}

#[test]
fn list_items_split_trim_and_drop_empty() {
    assert_eq!(list_items(" a , b,,c ,"), vec!["a", "b", "c"]);
    assert_eq!(list_items(""), Vec::<String>::new());
    assert_eq!(list_items("single"), vec!["single"]);
    assert_eq!(list_items(" , ,"), Vec::<String>::new());
    assert_eq!(list_items("two words, x"), vec!["two words", "x"]);
}

#[test]
fn true_text_ignores_case_and_spaces() {
    assert!(is_true_text("true"));
    assert!(is_true_text("  TRUE \n"));
    assert!(is_true_text("True"));
    assert!(!is_true_text("yes"));
    assert!(!is_true_text("t rue"));
    assert!(!is_true_text(""));
}

#[test]
fn edits_by_property() {
    assert_eq!(frontmatter_edit("title", "New", None), FrontmatterEdit::Title("New".to_string()));
    assert_eq!(
        frontmatter_edit("tags", "a, b", Some(CellValueKind::Other)),
        FrontmatterEdit::Tags(vec!["a".to_string(), "b".to_string()])
    );
    assert_eq!(frontmatter_edit("pinned", " True ", None), FrontmatterEdit::Pinned(true));
    assert_eq!(
        frontmatter_edit("links", "x,,y", None),
        FrontmatterEdit::Links(vec!["x".to_string(), "y".to_string()])
    );
    assert_eq!(
        frontmatter_edit("updated_at", "2024-01-01", None),
        FrontmatterEdit::UpdatedAt("2024-01-01".to_string())
    );
    assert_eq!(
        frontmatter_edit("original_ext", "md", None),
        FrontmatterEdit::OriginalExt("md".to_string())
    );
    assert_eq!(
        frontmatter_edit("rating", "4.5", Some(CellValueKind::Number)),
        FrontmatterEdit::ExtraNumber("rating".to_string(), "4.5".to_string())
    );
    assert_eq!(
        frontmatter_edit("done", "no", Some(CellValueKind::Bool)),
        FrontmatterEdit::ExtraBool("done".to_string(), false)
    );
    assert_eq!(
        frontmatter_edit("aliases", "p, q", Some(CellValueKind::List)),
        FrontmatterEdit::ExtraList("aliases".to_string(), vec!["p".to_string(), "q".to_string()])
    );
    assert_eq!(
        frontmatter_edit("status", "draft", None),
        FrontmatterEdit::ExtraText("status".to_string(), "draft".to_string())
    );
}
