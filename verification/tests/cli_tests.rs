use clin::cli::NotesCmd;

#[test]
fn which_note_commands_open_the_interface() {
    let new = |body: Option<&str>, no_tui| NotesCmd::New {
        template: None,
        body: body.map(|b| b.to_string()),
        no_tui,
        title: None,
    };
    assert!(new(None, false).opens_tui());
    assert!(!new(Some("hi"), false).opens_tui());
    assert!(!new(None, true).opens_tui());
    assert!(NotesCmd::Open { title: "x".to_string() }.opens_tui());
    assert!(!NotesCmd::List.opens_tui());
}
