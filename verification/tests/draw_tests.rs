use clin::draw::{
    draw_color_menu_specs, draw_menu_items, draw_menu_shortcut_index, draw_menu_specs,
    draw_tab_tools, draw_tool_tab_index, draw_tool_tabs, id_verdict_of, validate_drawing,
    DrawItemId, DrawMenuItem, DrawMenuTarget, DrawTool,
};
use clin::config_types::IconMode;
use clin::draw::{check_legacy_version, check_v2_version};
use clin::draw::{active_mode_message, is_mode_message, sync_header_status, topmost_hit, HeaderStatus, InteractionKind};
use clin::draw::blended_item_color;
use clin::colors::Color;

#[test]
fn context_menu_specs_match_draw_item_scope() {
    let id = DrawItemId::new();
    let labels = |target: DrawMenuTarget, clipboard_available| {
        draw_menu_specs(&target, clipboard_available)
            .into_iter()
            .map(|spec| (spec.label, spec.shortcut))
            .collect::<Vec<_>>()
    };

    assert_eq!(
        labels(DrawMenuTarget::NonText(id.clone()), false),
        vec![
            ("Rotate".to_string(), Some('r')),
            ("Scale".to_string(), Some('s')),
            ("Color...".to_string(), Some('o')),
            ("Copy".to_string(), Some('c')),
            ("Erase".to_string(), Some('e')),
        ]
    );
    assert_eq!(
        labels(DrawMenuTarget::Text(id), false),
        vec![
            ("Edit Text".to_string(), Some('t')),
            ("Color...".to_string(), Some('o')),
            ("Copy".to_string(), Some('c')),
            ("Erase".to_string(), Some('e')),
        ]
    );
    assert!(draw_menu_specs(&DrawMenuTarget::Empty, false).is_empty());
    assert_eq!(labels(DrawMenuTarget::Empty, true), vec![("Paste".to_string(), Some('v'))]);

    let id = DrawItemId::new();
    assert_eq!(
        draw_menu_shortcut_index(&DrawMenuTarget::NonText(id.clone()), false, 'E'),
        Some(4)
    );
    assert_eq!(draw_menu_shortcut_index(&DrawMenuTarget::Text(id), false, 'T'), Some(0));
}

#[test]
fn menu_items_and_missing_shortcuts() {
    assert_eq!(draw_menu_items(&DrawMenuTarget::Empty, true), vec![DrawMenuItem::Paste]);
    assert_eq!(draw_menu_shortcut_index(&DrawMenuTarget::Empty, false, 'v'), None);
    assert_eq!(draw_menu_shortcut_index(&DrawMenuTarget::Empty, true, 'V'), Some(0));
    assert_eq!(DrawMenuItem::EditText.label(), "Edit Text");
    assert_eq!(DrawMenuItem::Paste.shortcut(), 'v');
    let target = DrawMenuTarget::Text(DrawItemId("abc".to_string()));
    assert_eq!(target.item_id().map(|i| i.as_str()), Some("abc"));
    assert!(DrawMenuTarget::Empty.item_id().is_none());
}

#[test]
fn color_menu_keys_follow_names() {
    let palette = vec![
        ("Red".to_string(), (255, 0, 0)),
        ("White".to_string(), (255, 255, 255)),
        ("Magenta".to_string(), (255, 0, 255)),
    ];
    let specs = draw_color_menu_specs(&palette);
    assert_eq!(specs.len(), 3);
    assert_eq!(specs[0].shortcut, Some('r'));
    assert_eq!(specs[1].shortcut, Some('w'));
    assert_eq!(specs[2].label, "Magenta");
    assert_eq!(specs[2].color, Some((255, 0, 255)));
}

#[test]
fn tool_tabs_in_fixed_order() {
    assert_eq!(
        draw_tab_tools(),
        [DrawTool::Cursor, DrawTool::Draw, DrawTool::Shape, DrawTool::Text, DrawTool::Erase]
    );
    assert_eq!(draw_tool_tab_index(DrawTool::Cursor), 0);
    assert_eq!(draw_tool_tab_index(DrawTool::Shape), 2);
    assert_eq!(draw_tool_tab_index(DrawTool::Erase), 4);
    let tabs = draw_tool_tabs(IconMode::Unicode);
    assert_eq!(tabs[1], ("Draw", "\u{270f}"));
    let tabs = draw_tool_tabs(IconMode::Off);
    assert_eq!(tabs[4], ("Erase", ""));
    let tabs = draw_tool_tabs(IconMode::Nerd);
    assert_eq!(tabs[0], ("Cursor", "\u{f245}"));
}

#[test]
fn fresh_ids_validate() {
    let id = DrawItemId::new();
    assert_eq!(id.as_str().len(), 36);
    assert!(id.validate().is_ok());
    assert_ne!(DrawItemId::new(), id);
}

#[test]
fn id_validation_messages() {
    assert_eq!(
        DrawItemId(String::new()).validate().unwrap_err(),
        "draw item ID cannot be empty"
    );
    assert_eq!(
        DrawItemId("legacy".to_string()).validate().unwrap_err(),
        "draw item ID 'legacy' is not a UUID"
    );
    // A version-1 UUID.
    let v1 = "6ba7b810-9dad-11d1-80b4-00c04fd430c8";
    assert_eq!(
        DrawItemId(v1.to_string()).validate().unwrap_err(),
        format!("draw item ID '{v1}' is not a UUID v4")
    );
    assert_eq!(id_verdict_of("x", Some(4u128 << 76)), Ok(()));
    assert!(id_verdict_of("x", Some(1u128 << 76)).is_err());
}

#[test]
fn drawing_validation_finds_duplicates_and_versions() {
    let a = DrawItemId::new();
    let b = DrawItemId::new();
    assert_eq!(validate_drawing(2, &vec![a.clone(), b.clone()], &vec![None, None]), Ok(()));
    assert_eq!(
        validate_drawing(2, &vec![a.clone(), a.clone()], &vec![None, None]).unwrap_err(),
        format!("draw item ID '{}' is duplicated", a.as_str())
    );
    assert_eq!(
        validate_drawing(3, &vec![], &vec![]).unwrap_err(),
        "draw schema version 3 cannot be serialized as version 2"
    );
    assert_eq!(
        validate_drawing(
            2,
            &vec![a, b],
            &vec![None, Some("draw transform scale must be positive".to_string())]
        )
        .unwrap_err(),
        "draw transform scale must be positive"
    );
}

#[test]
fn drawing_versions_are_checked() {
    assert_eq!(check_v2_version(2), Ok(()));
    assert_eq!(
        check_v2_version(3).unwrap_err(),
        "unsupported draw schema version 3; newest supported version is 2"
    );
    assert_eq!(check_v2_version(1).unwrap_err(), "draw schema version 1 uses v2 item records");
    assert_eq!(check_legacy_version(None), Ok(()));
    assert_eq!(check_legacy_version(Some(1)), Ok(()));
    assert_eq!(
        check_legacy_version(Some(2)).unwrap_err(),
        "draw schema version 2 requires item IDs and transforms"
    );
    assert!(check_legacy_version(Some(9)).unwrap_err().contains("unsupported draw schema version 9"));
}

#[test]
fn topmost_hit_prefers_text_then_latest_vector() {
    // (is text, is hit), oldest first: a text and a line, both under the pointer
    let items = vec![(true, true), (false, true)];
    assert_eq!(topmost_hit(&items), Some(0));
    // the text removed, a second line added on top
    let items = vec![(false, true), (false, true)];
    assert_eq!(topmost_hit(&items), Some(1));
    let items = vec![(true, false), (false, false)];
    assert_eq!(topmost_hit(&items), None);
    assert_eq!(topmost_hit(&Vec::new()), None);
}

#[test]
fn active_mode_message_only_tracks_transient_interactions() {
    assert_eq!(active_mode_message(None), None);
    assert_eq!(active_mode_message(Some(InteractionKind::Move)), None);
    assert_eq!(
        active_mode_message(Some(InteractionKind::Paste)),
        Some("PASTE MODE: Move pointer, Left-click to place")
    );
    assert_eq!(
        active_mode_message(Some(InteractionKind::Rotate)),
        Some("ROTATE MODE: Drag pointer to rotate, Left-click to begin")
    );
    assert_eq!(
        active_mode_message(Some(InteractionKind::Scale)),
        Some("SCALE MODE: Drag pointer to scale, Left-click to begin")
    );
}

#[test]
fn header_status_follows_notice_then_mode() {
    assert_eq!(
        sync_header_status(Some("Copied"), false, Some(InteractionKind::Paste), "x"),
        HeaderStatus::Notice("Copied".to_string())
    );
    assert_eq!(sync_header_status(None, true, Some(InteractionKind::Paste), "x"), HeaderStatus::Keep);
    assert_eq!(
        sync_header_status(None, false, Some(InteractionKind::Scale), "x"),
        HeaderStatus::Mode("SCALE MODE: Drag pointer to scale, Left-click to begin".to_string())
    );
    assert_eq!(
        sync_header_status(None, false, None, "PASTE MODE: Move pointer, Left-click to place"),
        HeaderStatus::Default
    );
    assert_eq!(sync_header_status(None, false, None, "Ready"), HeaderStatus::Keep);
    assert!(is_mode_message("ROTATE MODE: Drag pointer to rotate, Left-click to begin"));
    assert!(!is_mode_message("ROTATE MODE"));
}

#[test]
fn hover_and_selection_blend_item_color_toward_accent() {
    let item = (100u8, 150u8, 200u8);
    let accent = Color::Rgb(200, 100, 0);
    assert_eq!(blended_item_color(item, accent, 30), Color::Rgb(130, 135, 140));
    assert_eq!(blended_item_color(item, accent, 45), Color::Rgb(145, 127, 110));
    // a named accent blends through its RGB value; one without stays as it is
    assert_eq!(blended_item_color((0, 0, 0), Color::White, 100), Color::Rgb(255, 255, 255));
    assert_eq!(blended_item_color((9, 9, 9), Color::Reset, 30), Color::Reset);
    assert_eq!(blended_item_color((9, 9, 9), Color::Indexed(4), 30), Color::Indexed(4));
}

#[test]
fn v2_rejects_future_duplicate_and_invalid_transforms() {
    let id = DrawItemId::new();
    assert!(check_v2_version(3).unwrap_err().contains("unsupported draw schema version 3"));
    assert!(validate_drawing(2, &vec![id.clone(), id.clone()], &vec![None, None])
        .unwrap_err()
        .contains("duplicated"));
    // the transform's own check (a text item scaled by 2) is made by the caller
    let fresh = DrawItemId::new();
    assert!(validate_drawing(
        2,
        &vec![fresh],
        &vec![Some("text draw items require identity rotation and scale".to_string())]
    )
    .unwrap_err()
    .contains("identity rotation and scale"));
}
