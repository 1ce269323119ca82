use clin::colors::{apply_color_overrides, color_rgb, color_text, configured_theme_colors, custom_theme_colors, parse_hex_color, theme_colors, Color, ColorOverrides};
use clin::config_types::{Background, Theme};
use clin::themes::CustomGraph;

fn graph(nodes: &[&str], chrome: &str, bg: Option<&str>) -> CustomGraph {
    CustomGraph {
        nodes: nodes.iter().map(|s| s.to_string()).collect(),
        chrome: chrome.to_string(),
        title: "#ffa500".to_string(),
        text: "#cccccc".to_string(),
        fg: "#ffffff".to_string(),
        grid: "#222222".to_string(),
        bg: bg.map(|s| s.to_string()),
    }
}

#[test]
fn hex_colors_parse() {
    assert_eq!(parse_hex_color("#ff0000"), Some((255, 0, 0)));
    assert_eq!(parse_hex_color("#7aA2f7"), Some((0x7a, 0xa2, 0xf7)));
    assert_eq!(parse_hex_color("#+f0000"), Some((15, 0, 0)));
    assert_eq!(parse_hex_color("ff0000"), None);
    assert_eq!(parse_hex_color("#fff"), None);
    assert_eq!(parse_hex_color("#gg0000"), None);
    assert_eq!(parse_hex_color("#ééé"), None);
    assert_eq!(parse_hex_color(""), None);
}

#[test]
fn written_colors_read_back() {
    assert_eq!(color_text(Color::Rgb(255, 165, 0)), "#ffa500");
    assert_eq!(color_text(Color::DarkGray), "DarkGray");
    for (r, g, b) in [(0, 0, 0), (1, 2, 3), (255, 255, 255), (16, 15, 160)] {
        assert_eq!(parse_hex_color(&color_text(Color::Rgb(r, g, b))), Some((r, g, b)));
    }
}

#[test]
fn custom_theme_appearance_end_to_end() {
    let g = graph(
        &["#ff0000", "#00ff00", "#0000ff", "#ffff00", "#ff00ff", "#00ffff", "#ffffff", "#888888"],
        "#444444",
        Some("#000000"),
    );
    let tc = custom_theme_colors(&g, Background::Solid);
    assert_eq!(tc.node_colors[0], Color::Rgb(255, 0, 0), "first node color from custom theme");
    assert_eq!(tc.edge_color, Color::Rgb(0x44, 0x44, 0x44), "chrome color");
    assert_eq!(tc.background_color, Some(Color::Rgb(0, 0, 0)), "background from custom theme (solid)");
}

#[test]
fn custom_node_colors_are_padded_to_eight() {
    let tc = custom_theme_colors(&graph(&["#010203", "bogus", "#040506"], "nope", None), Background::Solid);
    assert_eq!(tc.node_colors.len(), 8);
    assert_eq!(tc.node_colors[1], Color::Rgb(4, 5, 6));
    assert_eq!(tc.node_colors[7], Color::Rgb(1, 2, 3));
    assert_eq!(tc.edge_color, Color::Reset);
    assert_eq!(tc.background_color, None);
    assert_eq!(tc.minimap_bg_color, Some(Color::Black));
    let tc = custom_theme_colors(&graph(&[], "#444444", None), Background::Transparent);
    assert_eq!(tc.node_colors, vec![Color::Cyan; 8]);
}

#[test]
fn built_in_palettes() {
    let tc = theme_colors(Theme::TokyoNight, Background::Solid);
    assert_eq!(tc.node_colors[0], Color::Rgb(122, 162, 247));
    assert_eq!(tc.edge_color, Color::Rgb(86, 95, 137));
    assert_eq!(tc.background_color, Some(Color::Rgb(26, 27, 38)));
    let tc = theme_colors(Theme::Default, Background::Transparent);
    assert_eq!(tc.node_colors[0], Color::Cyan);
    assert_eq!(tc.background_color, None);
    assert_eq!(tc.minimap_bg_color, Some(Color::Black));
}

#[test]
fn indexed_color_text_and_rgb() {
    assert_eq!(color_text(Color::Indexed(42)), "Indexed(42)");
    assert_eq!(color_text(Color::Indexed(0)), "Indexed(0)");
    assert_eq!(color_rgb(Color::Indexed(42)), None);
    assert_eq!(color_rgb(Color::Reset), None);
    assert_eq!(color_rgb(Color::Gray), Some((192, 192, 192)));
    assert_eq!(color_rgb(Color::Rgb(1, 2, 3)), Some((1, 2, 3)));
}

#[test]
fn color_overrides_replace_theme_colors() {
    let base = theme_colors(Theme::Default, Background::Solid);
    let none = ColorOverrides::default();
    let same = apply_color_overrides(theme_colors(Theme::Default, Background::Solid), &none);
    assert_eq!(same.node_colors, base.node_colors);
    assert_eq!(same.edge_color, base.edge_color);
    assert_eq!(same.background_color, base.background_color);

    let o = ColorOverrides {
        node_color: Some(Color::Red),
        edge_color: Some(Color::Rgb(1, 1, 1)),
        label_color: None,
        selection_ring_color: Some(Color::Indexed(9)),
        border_color: Some(Color::Blue),
        background_color: Some(Color::Black),
    };
    let c = configured_theme_colors(Theme::Default, Background::Transparent, &o);
    assert_eq!(c.node_colors, vec![Color::Red]);
    assert_eq!(c.edge_color, Color::Rgb(1, 1, 1));
    assert_eq!(c.label_color, base.label_color);
    assert_eq!(c.selected_indicator_color, Color::Indexed(9));
    assert_eq!(c.border_color, Color::Blue);
    assert_eq!(c.minimap_border_color, Color::Blue);
    assert_eq!(c.background_color, Some(Color::Black));
    assert_eq!(c.minimap_bg_color, Some(Color::Black));
    assert_eq!(c.minimap_viewport_color, base.minimap_viewport_color);
}
