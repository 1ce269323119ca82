//! Default values of configuration fields.
use vstd::prelude::*;
use crate::config_types::{Background, NotesSection};

verus! {

/// The preview pane is shown by default.
pub fn default_preview_enabled() -> (r: bool)
    ensures
        r,
{
    true
}

/// Rows of the calendar pane.
pub fn default_calendar_height() -> (r: u16)
    ensures
        r == 9,
{
    9
}

/// Longest graph label, in characters.
pub fn default_label_max() -> (r: usize)
    ensures
        r == 20,
{
    20
}

/// Thickness of graph edges.
pub fn default_edge_thickness() -> (r: u16)
    ensures
        r == 1,
{
    1
}

/// Default of the switches that are on unless configured off.
pub fn default_true() -> (r: bool)
    ensures
        r,
{
    true
}

/// Syntax theme of code blocks.
pub fn default_code_theme() -> (r: String)
    ensures
        r@ == "base16-ocean.dark"@,
{
    String::from_str("base16-ocean.dark")
}

/// Longest link URL shown, in characters.
pub fn default_link_url_max() -> (r: usize)
    ensures
        r == 80,
{
    80
}

/// Width of the graph minimap.
pub fn default_minimap_width() -> (r: u16)
    ensures
        r == 24,
{
    24
}

/// Height of the graph minimap.
pub fn default_minimap_height() -> (r: u16)
    ensures
        r == 12,
{
    12
}

/// Divisions of the graph grid.
pub fn default_grid_divisions() -> (r: usize)
    ensures
        r == 10,
{
    10
}

/// Most search results kept.
pub fn default_search_max_results() -> (r: usize)
    ensures
        r == 20,
{
    20
}

/// Most search results shown at once.
pub fn default_search_max_visible() -> (r: usize)
    ensures
        r == 10,
{
    10
}

/// The graph paints its own background.
pub fn default_graph_background() -> (r: Background)
    ensures
        r == Background::Solid,
{
    Background::Solid
}

/// Title of the graph view's border.
pub fn default_border_title() -> (r: String)
    ensures
        r@ == "graf"@,
{
    String::from_str("graf")
}

/// Name of the default theme.
pub fn default_theme() -> (r: String)
    ensures
        r@ == "default"@,
{
    String::from_str("default")
}

/// `strftime` format of dates.
pub fn default_date_format() -> (r: String)
    ensures
        r@ == "%Y-%m-%d %H:%M"@,
{
    String::from_str("%Y-%m-%d %H:%M")
}

/// Daily word goal.
pub fn default_word_goal() -> (r: usize)
    ensures
        r == 500,
{
    500
}

/// Daily note goal.
pub fn default_note_goal() -> (r: usize)
    ensures
        r == 3,
{
    3
}

/// Sections of the notes screen: the calendar, then the goals.
pub fn default_sections() -> (r: Vec<NotesSection>)
    ensures
        r@ == seq![NotesSection::Calendar, NotesSection::Goals],
{
    let mut v = Vec::new();
    v.push(NotesSection::Calendar);
    v.push(NotesSection::Goals);
    v
}

} // verus!
