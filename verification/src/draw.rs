//! The draw view: tools and their tab order, the context menus, and the
//! identifiers of drawn items and their validation.
use vstd::prelude::*;
use crate::backup::get_icon;
use crate::config_types::IconMode;
use crate::colors::{color_rgb, rgb_of, Color};
use crate::debug_log::{decimal, usize_to_decimal};
use crate::text::{concat_str, str_eq};

verus! {

/// What the draw view asks of the application after an event.
#[derive(Debug, Clone, Copy, PartialEq, Eq, Structural)]
pub enum DrawEventAction {
    Quit,
    OpenHelp,
}

/// Which context menu is open.
#[derive(Debug, Clone, Copy, PartialEq, Eq, Structural)]
pub enum DrawMenuKind {
    Actions,
    Color,
}

/// An entry of the actions menu.
#[derive(Debug, Clone, Copy, PartialEq, Eq, Structural)]
pub enum DrawMenuItem {
    Rotate,
    Scale,
    Color,
    Copy,
    Erase,
    EditText,
    Paste,
}

/// The label shown for a menu entry.
pub open spec fn menu_label(item: DrawMenuItem) -> Seq<char> {
    match item {
        DrawMenuItem::Rotate => "Rotate"@,
        DrawMenuItem::Scale => "Scale"@,
        DrawMenuItem::Color => "Color..."@,
        DrawMenuItem::Copy => "Copy"@,
        DrawMenuItem::Erase => "Erase"@,
        DrawMenuItem::EditText => "Edit Text"@,
        DrawMenuItem::Paste => "Paste"@,
    }
}

/// The key that picks a menu entry.
pub open spec fn menu_shortcut(item: DrawMenuItem) -> char {
    match item {
        DrawMenuItem::Rotate => 'r',
        DrawMenuItem::Scale => 's',
        DrawMenuItem::Color => 'o',
        DrawMenuItem::Copy => 'c',
        DrawMenuItem::Erase => 'e',
        DrawMenuItem::EditText => 't',
        DrawMenuItem::Paste => 'v',
    }
}

impl DrawMenuItem {
    /// The label shown for the entry.
    pub fn label(self) -> (r: &'static str)
        ensures
            r@ == menu_label(self),
    {
        match self {
            DrawMenuItem::Rotate => "Rotate",
            DrawMenuItem::Scale => "Scale",
            DrawMenuItem::Color => "Color...",
            DrawMenuItem::Copy => "Copy",
            DrawMenuItem::Erase => "Erase",
            DrawMenuItem::EditText => "Edit Text",
            DrawMenuItem::Paste => "Paste",
        }
    }

    /// The key that picks the entry.
    pub fn shortcut(self) -> (r: char)
        ensures
            r == menu_shortcut(self),
    {
        match self {
            DrawMenuItem::Rotate => 'r',
            DrawMenuItem::Scale => 's',
            DrawMenuItem::Color => 'o',
            DrawMenuItem::Copy => 'c',
            DrawMenuItem::Erase => 'e',
            DrawMenuItem::EditText => 't',
            DrawMenuItem::Paste => 'v',
        }
    }
}

/// The identifier of a drawn item: a UUID in its hyphenated text form.
#[derive(Debug, Clone, PartialEq, Eq, Hash)]
pub struct DrawItemId(pub String);

/// What a context menu was opened on: a drawn item that is not text, a text
/// item, or empty canvas (whose point the caller keeps).
pub enum DrawMenuTarget {
    NonText(DrawItemId),
    Text(DrawItemId),
    Empty,
}

impl DrawMenuTarget {
    /// The item the menu was opened on, if any.
    pub fn item_id(&self) -> (r: Option<&DrawItemId>)
        ensures
            match self {
                DrawMenuTarget::NonText(id) => r == Some(id),
                DrawMenuTarget::Text(id) => r == Some(id),
                DrawMenuTarget::Empty => r is None,
            },
    {
        match self {
            DrawMenuTarget::NonText(id) => Some(id),
            DrawMenuTarget::Text(id) => Some(id),
            DrawMenuTarget::Empty => None,
        }
    }
}

/// The entries of the actions menu for a target: rotate, scale, color, copy
/// and erase on a drawn item; edit, color, copy and erase on text; paste on
/// empty canvas when something was copied; nothing otherwise.
pub open spec fn menu_entries(target: &DrawMenuTarget, clipboard_available: bool) -> Seq<
    DrawMenuItem,
> {
    match target {
        DrawMenuTarget::NonText(_) => seq![
            DrawMenuItem::Rotate,
            DrawMenuItem::Scale,
            DrawMenuItem::Color,
            DrawMenuItem::Copy,
            DrawMenuItem::Erase,
        ],
        DrawMenuTarget::Text(_) => seq![
            DrawMenuItem::EditText,
            DrawMenuItem::Color,
            DrawMenuItem::Copy,
            DrawMenuItem::Erase,
        ],
        DrawMenuTarget::Empty => if clipboard_available {
            seq![DrawMenuItem::Paste]
        } else {
            Seq::empty()
        },
    }
}

/// The entries of the actions menu for a target.
pub fn draw_menu_items(target: &DrawMenuTarget, clipboard_available: bool) -> (r: Vec<
    DrawMenuItem,
>)
    ensures
        r@ == menu_entries(target, clipboard_available),
{
    let mut v: Vec<DrawMenuItem> = Vec::new();
    match target {
        DrawMenuTarget::NonText(_) => {
            v.push(DrawMenuItem::Rotate);
            v.push(DrawMenuItem::Scale);
            v.push(DrawMenuItem::Color);
            v.push(DrawMenuItem::Copy);
            v.push(DrawMenuItem::Erase);
        },
        DrawMenuTarget::Text(_) => {
            v.push(DrawMenuItem::EditText);
            v.push(DrawMenuItem::Color);
            v.push(DrawMenuItem::Copy);
            v.push(DrawMenuItem::Erase);
        },
        DrawMenuTarget::Empty => {
            if clipboard_available {
                v.push(DrawMenuItem::Paste);
            }
        },
    }
    assert(v@ =~= menu_entries(target, clipboard_available));
    v
}

/// `char::to_ascii_lowercase`: `'A'..='Z'` to `'a'..='z'`, every other
/// character unchanged.
pub open spec fn lower_ascii(c: char) -> char {
    if 'A' <= c && c <= 'Z' {
        ((c as u8) + 32) as char
    } else {
        c
    }
}

/// The ASCII lowercase of a character.
pub fn to_ascii_lowercase(c: char) -> (r: char)
    ensures
        r == lower_ascii(c),
{
    if 'A' <= c && c <= 'Z' {
        let code: u8 = (c as u8) + 32;
        code as char
    } else {
        c
    }
}

/// The position of the entry picked by a key, ignoring ASCII case.
pub fn draw_menu_shortcut_index(target: &DrawMenuTarget, clipboard_available: bool, shortcut: char) -> (r:
    Option<usize>)
    ensures
        match r {
            Some(i) => i < menu_entries(target, clipboard_available).len() && lower_ascii(
                menu_shortcut(menu_entries(target, clipboard_available)[i as int]),
            ) == lower_ascii(shortcut) && forall|j: int|
                0 <= j < i ==> lower_ascii(
                    menu_shortcut(#[trigger] menu_entries(target, clipboard_available)[j]),
                ) != lower_ascii(shortcut),
            None => forall|j: int|
                0 <= j < menu_entries(target, clipboard_available).len() ==> lower_ascii(
                    menu_shortcut(#[trigger] menu_entries(target, clipboard_available)[j]),
                ) != lower_ascii(shortcut),
        },
{
    let key = to_ascii_lowercase(shortcut);
    let items = draw_menu_items(target, clipboard_available);
    let mut i: usize = 0;
    while i < items.len()
        invariant
            items@ == menu_entries(target, clipboard_available),
            key == lower_ascii(shortcut),
            i <= items@.len(),
            forall|j: int| 0 <= j < i ==> lower_ascii(menu_shortcut(#[trigger] items@[j])) != key,
        decreases items@.len() - i,
    {
        if to_ascii_lowercase(items[i].shortcut()) == key {
            return Some(i);
        }
        i = i + 1;
    }
    None
}

/// An entry of a context menu as it is drawn: its label, the key that picks
/// it, and the swatch color of a color entry.
pub struct MenuItemSpec {
    pub label: String,
    pub shortcut: Option<char>,
    pub color: Option<(u8, u8, u8)>,
}

/// The entries of the actions menu as they are drawn.
pub fn draw_menu_specs(target: &DrawMenuTarget, clipboard_available: bool) -> (r: Vec<MenuItemSpec>)
    ensures
        r@.len() == menu_entries(target, clipboard_available).len(),
        forall|i: int|
            0 <= i < r@.len() ==> {
                let e = menu_entries(target, clipboard_available)[i];
                &&& (#[trigger] r@[i]).label@ == menu_label(e)
                &&& r@[i].shortcut == Some(menu_shortcut(e))
                &&& r@[i].color is None
            },
{
    let items = draw_menu_items(target, clipboard_available);
    let mut out: Vec<MenuItemSpec> = Vec::new();
    let mut i: usize = 0;
    while i < items.len()
        invariant
            items@ == menu_entries(target, clipboard_available),
            i <= items@.len(),
            out@.len() == i,
            forall|k: int|
                0 <= k < i ==> {
                    &&& (#[trigger] out@[k]).label@ == menu_label(items@[k])
                    &&& out@[k].shortcut == Some(menu_shortcut(items@[k]))
                    &&& out@[k].color is None
                },
        decreases items@.len() - i,
    {
        let item = items[i];
        out.push(
            MenuItemSpec {
                label: String::from_str(item.label()),
                shortcut: Some(item.shortcut()),
                color: None,
            },
        );
        i = i + 1;
    }
    out
}

/// The key of a color of the color picker, by the color's name.
pub open spec fn color_shortcut(label: Seq<char>) -> Option<char> {
    if label == "Red"@ {
        Some('r')
    } else if label == "Orange"@ {
        Some('o')
    } else if label == "Yellow"@ {
        Some('y')
    } else if label == "Green"@ {
        Some('g')
    } else if label == "Cyan"@ {
        Some('c')
    } else if label == "Purple"@ {
        Some('p')
    } else if label == "Blue"@ {
        Some('b')
    } else if label == "Magenta"@ {
        Some('m')
    } else if label == "White"@ {
        Some('w')
    } else {
        None
    }
}

/// The key of a color of the color picker; `None` for a name outside the
/// palette.
pub fn color_menu_shortcut(label: &str) -> (r: Option<char>)
    ensures
        r == color_shortcut(label@),
{
    if str_eq(label, "Red") {
        Some('r')
    } else if str_eq(label, "Orange") {
        Some('o')
    } else if str_eq(label, "Yellow") {
        Some('y')
    } else if str_eq(label, "Green") {
        Some('g')
    } else if str_eq(label, "Cyan") {
        Some('c')
    } else if str_eq(label, "Purple") {
        Some('p')
    } else if str_eq(label, "Blue") {
        Some('b')
    } else if str_eq(label, "Magenta") {
        Some('m')
    } else if str_eq(label, "White") {
        Some('w')
    } else {
        None
    }
}

/// The entries of the color menu for a palette of named colors, each picked
/// by its key and drawn with its color. Every name must be one of the
/// palette's known names.
pub fn draw_color_menu_specs(palette: &Vec<(String, (u8, u8, u8))>) -> (r: Vec<MenuItemSpec>)
    requires
        forall|i: int| 0 <= i < palette@.len() ==> color_shortcut((#[trigger] palette@[i]).0@) is Some,
    ensures
        r@.len() == palette@.len(),
        forall|i: int|
            0 <= i < r@.len() ==> {
                &&& (#[trigger] r@[i]).label@ == palette@[i].0@
                &&& color_shortcut(palette@[i].0@) == r@[i].shortcut
                &&& r@[i].color == Some(palette@[i].1)
            },
{
    let mut out: Vec<MenuItemSpec> = Vec::new();
    let mut i: usize = 0;
    while i < palette.len()
        invariant
            forall|k: int|
                0 <= k < palette@.len() ==> color_shortcut((#[trigger] palette@[k]).0@) is Some,
            i <= palette@.len(),
            out@.len() == i,
            forall|k: int|
                0 <= k < i ==> {
                    &&& (#[trigger] out@[k]).label@ == palette@[k].0@
                    &&& color_shortcut(palette@[k].0@) == out@[k].shortcut
                    &&& out@[k].color == Some(palette@[k].1)
                },
        decreases palette@.len() - i,
    {
        let entry = &palette[i];
        let key = color_menu_shortcut(entry.0.as_str());
        out.push(MenuItemSpec { label: entry.0.clone(), shortcut: key, color: Some(entry.1) });
        i = i + 1;
    }
    out
}

/// The kinds of shape the shape tool draws.
#[derive(Debug, Clone, Copy, PartialEq, Eq, Structural)]
pub enum DrawShapeType {
    Rect,
    Ellipse,
    Diamond,
    Line,
    Arrow,
}

/// The tools of the draw view.
#[derive(Debug, Clone, Copy, PartialEq, Eq, Structural)]
pub enum DrawTool {
    Cursor,
    Draw,
    Erase,
    Text,
    Shape,
}

/// The tools in tab order: cursor, draw, shape, text, erase.
pub open spec fn tab_tools() -> Seq<DrawTool> {
    seq![DrawTool::Cursor, DrawTool::Draw, DrawTool::Shape, DrawTool::Text, DrawTool::Erase]
}

/// The tools in tab order.
pub fn draw_tab_tools() -> (r: [DrawTool; 5])
    ensures
        r@ == tab_tools(),
{
    let r = [DrawTool::Cursor, DrawTool::Draw, DrawTool::Shape, DrawTool::Text, DrawTool::Erase];
    assert(r@ =~= tab_tools());
    r
}

/// The position of a tool in tab order.
pub open spec fn tab_position(tool: DrawTool) -> nat {
    match tool {
        DrawTool::Cursor => 0,
        DrawTool::Draw => 1,
        DrawTool::Shape => 2,
        DrawTool::Text => 3,
        DrawTool::Erase => 4,
    }
}

/// The position of a tool in tab order.
pub fn draw_tool_tab_index(tool: DrawTool) -> (r: usize)
    ensures
        r == tab_position(tool),
        tab_tools()[r as int] == tool,
{
    let tools = draw_tab_tools();
    let mut i: usize = 0;
    while i < 5
        invariant
            tools@ == tab_tools(),
            i <= 5,
            forall|j: int| 0 <= j < i ==> tools@[j] != tool,
        decreases 5 - i,
    {
        if tools[i] == tool {
            return i;
        }
        i = i + 1;
    }
    0
}

/// The label and glyph of each tool tab, in tab order.
pub fn draw_tool_tabs(icon_mode: IconMode) -> (r: [(&'static str, &'static str); 5])
    ensures
        r[0].0@ == "Cursor"@,
        r[1].0@ == "Draw"@,
        r[2].0@ == "Shape"@,
        r[3].0@ == "Text"@,
        r[4].0@ == "Erase"@,
        icon_mode == IconMode::Nerd ==> r[0].1@ == "\u{f245}"@ && r[1].1@ == "\u{f040}"@
            && r[2].1@ == "\u{f0c8}"@ && r[3].1@ == "\u{f031}"@ && r[4].1@ == "\u{f1f8}"@,
        icon_mode == IconMode::Unicode ==> r[0].1@ == "\u{25b6}"@ && r[1].1@ == "\u{270f}"@
            && r[2].1@ == "\u{25a0}"@ && r[3].1@ == "\u{1f4dd}"@ && r[4].1@ == "\u{1f5d1}"@,
        icon_mode == IconMode::Off ==> r[0].1@.len() == 0 && r[1].1@.len() == 0 && r[2].1@.len()
            == 0 && r[3].1@.len() == 0 && r[4].1@.len() == 0,
{
    [
        ("Cursor", get_icon("\u{f245}", "\u{25b6}", icon_mode)),
        ("Draw", get_icon("\u{f040}", "\u{270f}", icon_mode)),
        ("Shape", get_icon("\u{f0c8}", "\u{25a0}", icon_mode)),
        ("Text", get_icon("\u{f031}", "\u{1f4dd}", icon_mode)),
        ("Erase", get_icon("\u{f1f8}", "\u{1f5d1}", icon_mode)),
    ]
}

/// What `uuid::Uuid::parse_str` reads from a text, as the 128-bit value of
/// the UUID, or `None` where it refuses the text.
pub uninterp spec fn uuid_parse(s: Seq<char>) -> Option<u128>;

/// The version number of a UUID: the high four bits of its seventh byte.
pub open spec fn uuid_version(v: u128) -> u128 {
    (v >> 76u128) & 0xfu128
}

/// Calls `uuid::Uuid::parse_str` and `Uuid::as_u128`. Trusted: the result is
/// the value named `uuid_parse` of the text.
#[verifier::external_body]
fn parse_uuid(s: &str) -> (r: Option<u128>)
    ensures
        r == uuid_parse(s@),
{
    uuid::Uuid::parse_str(s).ok().map(|u| u.as_u128())
}

/// Calls `uuid::Uuid::new_v4` and writes the UUID in its hyphenated form.
/// Trusted: the text reads back, through `uuid_parse`, as a version-4 UUID,
/// and it is 36 characters long. Which UUID it is rests on chance.
#[verifier::external_body]
fn new_v4_text() -> (r: String)
    ensures
        r@.len() == 36,
        uuid_parse(r@) is Some,
        uuid_version(uuid_parse(r@)->0) == 4,
{
    uuid::Uuid::new_v4().to_string()
}

/// The verdict on an item identifier, given what the UUID parser made of it.
pub open spec fn id_verdict(id: Seq<char>, parsed: Option<u128>) -> Result<(), Seq<char>> {
    if id.len() == 0 {
        Err("draw item ID cannot be empty"@)
    } else {
        match parsed {
            None => Err("draw item ID '"@ + id + "' is not a UUID"@),
            Some(v) => if uuid_version(v) != 4 {
                Err("draw item ID '"@ + id + "' is not a UUID v4"@)
            } else {
                Ok(())
            },
        }
    }
}

/// The view of a result with a string error.
pub open spec fn result_view(r: Result<(), String>) -> Result<(), Seq<char>> {
    match r {
        Ok(()) => Ok(()),
        Err(e) => Err(e@),
    }
}

/// The verdict on an item identifier, given what the UUID parser made of it.
pub fn id_verdict_of(id: &str, parsed: Option<u128>) -> (r: Result<(), String>)
    ensures
        result_view(r) == id_verdict(id@, parsed),
{
    if id.unicode_len() == 0 {
        return Err(String::from_str("draw item ID cannot be empty"));
    }
    match parsed {
        None => {
            let head = concat_str("draw item ID '", id);
            Err(concat_str(head.as_str(), "' is not a UUID"))
        },
        Some(v) => {
            if (v >> 76u128) & 0xfu128 != 4 {
                let head = concat_str("draw item ID '", id);
                Err(concat_str(head.as_str(), "' is not a UUID v4"))
            } else {
                Ok(())
            }
        },
    }
}

impl DrawItemId {
    /// A fresh identifier: a random version-4 UUID.
    pub fn new() -> (r: DrawItemId)
        ensures
            r.0@.len() == 36,
            uuid_parse(r.0@) is Some,
            uuid_version(uuid_parse(r.0@)->0) == 4,
    {
        DrawItemId(new_v4_text())
    }

    /// The identifier's text.
    pub fn as_str(&self) -> (r: &str)
        ensures
            r@ == self.0@,
    {
        self.0.as_str()
    }

    /// Checks that the identifier is a version-4 UUID: it must not be empty,
    /// must parse as a UUID, and must be of version 4.
    pub fn validate(&self) -> (r: Result<(), String>)
        ensures
            result_view(r) == id_verdict(self.0@, uuid_parse(self.0@)),
    {
        let parsed = parse_uuid(self.0.as_str());
        id_verdict_of(self.0.as_str(), parsed)
    }
}

/// A fresh identifier always passes validation.
pub proof fn fresh_id_is_valid(id: Seq<char>)
    requires
        id.len() == 36,
        uuid_parse(id) is Some,
        uuid_version(uuid_parse(id)->0) == 4,
    ensures
        id_verdict(id, uuid_parse(id)) is Ok,
{
}

/// The drawing format version this code reads and writes.
pub const DRAW_SCHEMA_VERSION: u8 = 2;

/// Whether `ids[i]` occurs among the first `i` identifiers.
pub open spec fn repeats_earlier(ids: Seq<Seq<char>>, i: int) -> bool {
    exists|j: int| 0 <= j < i && ids[j] == ids[i]
}

/// The verdict on the items of a drawing, item by item: the identifier must
/// be valid, must not repeat an earlier one, and the item's transform must
/// pass its own check (`transform_errors`, computed by the caller).
pub open spec fn items_verdict(
    ids: Seq<Seq<char>>,
    transform_errors: Seq<Option<Seq<char>>>,
    from: int,
) -> Result<(), Seq<char>>
    decreases ids.len() - from,
{
    if from >= ids.len() || from < 0 {
        Ok(())
    } else {
        match id_verdict(ids[from], uuid_parse(ids[from])) {
            Err(e) => Err(e),
            Ok(()) => if repeats_earlier(ids, from) {
                Err("draw item ID '"@ + ids[from] + "' is duplicated"@)
            } else {
                match transform_errors[from] {
                    Some(e) => Err(e),
                    None => items_verdict(ids, transform_errors, from + 1),
                }
            },
        }
    }
}

/// The verdict on a drawing: its version must be the current one, then its
/// items are checked in order.
pub open spec fn drawing_verdict(
    version: u8,
    ids: Seq<Seq<char>>,
    transform_errors: Seq<Option<Seq<char>>>,
) -> Result<(), Seq<char>> {
    if version != DRAW_SCHEMA_VERSION {
        Err("draw schema version "@ + decimal(version as nat)
            + " cannot be serialized as version 2"@)
    } else {
        items_verdict(ids, transform_errors, 0)
    }
}

/// The identifiers' texts.
pub open spec fn id_views(ids: Seq<DrawItemId>) -> Seq<Seq<char>> {
    ids.map_values(|i: DrawItemId| i.0@)
}

/// The views of optional strings.
pub open spec fn opt_views(v: Seq<Option<String>>) -> Seq<Option<Seq<char>>> {
    v.map_values(
        |o: Option<String>|
            match o {
                Some(s) => Some(s@),
                None => None,
            },
    )
}

/// Whether `ids[i]` occurs among the first `i` identifiers.
fn repeats_before(ids: &Vec<DrawItemId>, i: usize) -> (r: bool)
    requires
        i < ids@.len(),
    ensures
        r == repeats_earlier(id_views(ids@), i as int),
{
    let ghost v = id_views(ids@);
    let mut j: usize = 0;
    while j < i
        invariant
            v == id_views(ids@),
            i < ids@.len(),
            j <= i,
            forall|k: int| 0 <= k < j ==> v[k] != v[i as int],
        decreases i - j,
    {
        if str_eq(ids[j].0.as_str(), ids[i].0.as_str()) {
            assert(v[j as int] == v[i as int]);
            return true;
        }
        j = j + 1;
    }
    false
}

/// Checks a drawing before it is written: its version, then each item's
/// identifier, its uniqueness, and its transform (whose verdict the caller
/// computed), stopping at the first fault.
pub fn validate_drawing(
    version: u8,
    ids: &Vec<DrawItemId>,
    transform_errors: &Vec<Option<String>>,
) -> (r: Result<(), String>)
    requires
        ids@.len() == transform_errors@.len(),
    ensures
        result_view(r) == drawing_verdict(version, id_views(ids@), opt_views(transform_errors@)),
{
    if version != DRAW_SCHEMA_VERSION {
        let head = concat_str("draw schema version ", usize_to_decimal(version as usize).as_str());
        return Err(concat_str(head.as_str(), " cannot be serialized as version 2"));
    }
    let ghost v = id_views(ids@);
    let ghost t = opt_views(transform_errors@);
    let mut i: usize = 0;
    while i < ids.len()
        invariant
            v == id_views(ids@),
            t == opt_views(transform_errors@),
            ids@.len() == transform_errors@.len(),
            version == DRAW_SCHEMA_VERSION,
            i <= ids@.len(),
            items_verdict(v, t, 0) == items_verdict(v, t, i as int),
        decreases ids@.len() - i,
    {
        proof {
            assert(v[i as int] == ids@[i as int].0@);
            assert(t[i as int] == opt_views(transform_errors@)[i as int]);
        }
        let verdict = ids[i].validate();
        match verdict {
            Err(e) => {
                    return Err(e);
            },
            Ok(()) => {},
        }
        if repeats_before(ids, i) {
            let head = concat_str("draw item ID '", ids[i].0.as_str());
            return Err(concat_str(head.as_str(), "' is duplicated"));
        }
        match &transform_errors[i] {
            Some(e) => {
                return Err(e.clone());
            },
            None => {},
        }
        i = i + 1;
    }
    Ok(())
}


/// The verdict on the version of a drawing written in the current format:
/// newer versions are refused, and so are older ones, which had no item
/// records of this kind.
pub open spec fn v2_version_verdict(version: u8) -> Result<(), Seq<char>> {
    if version > DRAW_SCHEMA_VERSION {
        Err("unsupported draw schema version "@ + decimal(version as nat)
            + "; newest supported version is 2"@)
    } else if version != DRAW_SCHEMA_VERSION {
        Err("draw schema version "@ + decimal(version as nat) + " uses v2 item records"@)
    } else {
        Ok(())
    }
}

/// The verdict on the version of a drawing in the old format (no version
/// read as 0): newer versions are refused, and version 2 needs the current
/// format.
pub open spec fn legacy_version_verdict(version: Option<u8>) -> Result<(), Seq<char>> {
    let v: u8 = match version {
        Some(v) => v,
        None => 0,
    };
    if v > DRAW_SCHEMA_VERSION {
        Err("unsupported draw schema version "@ + decimal(v as nat)
            + "; newest supported version is 2"@)
    } else if v == DRAW_SCHEMA_VERSION {
        Err("draw schema version 2 requires item IDs and transforms"@)
    } else {
        Ok(())
    }
}

/// Checks the version of a drawing written in the current format.
pub fn check_v2_version(version: u8) -> (r: Result<(), String>)
    ensures
        result_view(r) == v2_version_verdict(version),
{
    let v = usize_to_decimal(version as usize);
    if version > DRAW_SCHEMA_VERSION {
        let head = concat_str("unsupported draw schema version ", v.as_str());
        Err(concat_str(head.as_str(), "; newest supported version is 2"))
    } else if version != DRAW_SCHEMA_VERSION {
        let head = concat_str("draw schema version ", v.as_str());
        Err(concat_str(head.as_str(), " uses v2 item records"))
    } else {
        Ok(())
    }
}

/// Checks the version of a drawing in the old format.
pub fn check_legacy_version(version: Option<u8>) -> (r: Result<(), String>)
    ensures
        result_view(r) == legacy_version_verdict(version),
{
    let v: u8 = match version {
        Some(v) => v,
        None => 0,
    };
    if v > DRAW_SCHEMA_VERSION {
        let head = concat_str("unsupported draw schema version ", usize_to_decimal(v as usize).as_str());
        Err(concat_str(head.as_str(), "; newest supported version is 2"))
    } else if v == DRAW_SCHEMA_VERSION {
        Err(String::from_str("draw schema version 2 requires item IDs and transforms"))
    } else {
        Ok(())
    }
}

/// The kind of interaction in progress in the draw view; the points and
/// angles it carries stay with the caller.
#[derive(Debug, Clone, Copy, PartialEq, Eq, Structural)]
pub enum InteractionKind {
    Move,
    Rotate,
    Scale,
    Paste,
}

/// The status-bar messages of the transient modes, in the order rotate,
/// scale, paste.
pub open spec fn mode_messages() -> Seq<Seq<char>> {
    seq![
        "ROTATE MODE: Drag pointer to rotate, Left-click to begin"@,
        "SCALE MODE: Drag pointer to scale, Left-click to begin"@,
        "PASTE MODE: Move pointer, Left-click to place"@,
    ]
}

/// The message of a transient mode; moving an item and having no
/// interaction show none.
pub open spec fn mode_message(kind: Option<InteractionKind>) -> Option<Seq<char>> {
    match kind {
        Some(InteractionKind::Rotate) => Some(mode_messages()[0]),
        Some(InteractionKind::Scale) => Some(mode_messages()[1]),
        Some(InteractionKind::Paste) => Some(mode_messages()[2]),
        _ => None,
    }
}

/// The status-bar message for the interaction in progress.
pub fn active_mode_message(kind: Option<InteractionKind>) -> (r: Option<&'static str>)
    ensures
        match r {
            Some(m) => mode_message(kind) == Some(m@),
            None => mode_message(kind) is None,
        },
{
    match kind {
        Some(InteractionKind::Rotate) => Some("ROTATE MODE: Drag pointer to rotate, Left-click to begin"),
        Some(InteractionKind::Scale) => Some("SCALE MODE: Drag pointer to scale, Left-click to begin"),
        Some(InteractionKind::Paste) => Some("PASTE MODE: Move pointer, Left-click to place"),
        _ => None,
    }
}

/// Whether a status text is one of the transient mode messages.
pub fn is_mode_message(status: &str) -> (r: bool)
    ensures
        r == mode_messages().contains(status@),
{
    let m0 = "ROTATE MODE: Drag pointer to rotate, Left-click to begin";
    let m1 = "SCALE MODE: Drag pointer to scale, Left-click to begin";
    let m2 = "PASTE MODE: Move pointer, Left-click to place";
    let r = str_eq(status, m0) || str_eq(status, m1) || str_eq(status, m2);
    proof {
        let ms = mode_messages();
        assert(ms[0] == m0@ && ms[1] == m1@ && ms[2] == m2@);
        if ms.contains(status@) {
            let i = choose|i: int| 0 <= i < ms.len() && ms[i] == status@;
            assert(i == 0 || i == 1 || i == 2);
        }
    }
    r
}

/// What the header's status line should do after an event of the draw
/// view.
#[derive(Debug, Clone, PartialEq, Eq)]
pub enum HeaderStatus {
    /// Show this notice for a while.
    Notice(String),
    /// Show the message of the mode in progress.
    Mode(String),
    /// A mode ended: go back to the default status.
    Default,
    /// Leave the status alone.
    Keep,
}

/// The header's status: a pending notice first; else, unless a temporary
/// status is still showing, the message of the mode in progress, or the
/// default status when the status still shows the message of a mode that
/// ended.
pub fn sync_header_status(notice: Option<&str>, temporary_showing: bool, kind: Option<InteractionKind>, status: &str) -> (r: HeaderStatus)
    ensures
        match notice {
            Some(n) => r matches HeaderStatus::Notice(s) && s@ == n@,
            None => if temporary_showing {
                r == HeaderStatus::Keep
            } else {
                match mode_message(kind) {
                    Some(m) => r matches HeaderStatus::Mode(s) && s@ == m,
                    None => if mode_messages().contains(status@) {
                        r == HeaderStatus::Default
                    } else {
                        r == HeaderStatus::Keep
                    },
                }
            },
        },
{
    match notice {
        Some(n) => HeaderStatus::Notice(String::from_str(n)),
        None => {
            if temporary_showing {
                HeaderStatus::Keep
            } else {
                match active_mode_message(kind) {
                    Some(m) => HeaderStatus::Mode(String::from_str(m)),
                    None => if is_mode_message(status) {
                        HeaderStatus::Default
                    } else {
                        HeaderStatus::Keep
                    },
                }
            }
        },
    }
}

/// The index of the last item that is hit and is text (or is not, as
/// `text` says).
pub open spec fn last_where(items: Seq<(bool, bool)>, text: bool) -> Option<int>
    decreases items.len(),
{
    if items.len() == 0 {
        None
    } else if items.last().1 && items.last().0 == text {
        Some(items.len() - 1)
    } else {
        last_where(items.drop_last(), text)
    }
}

/// The item under the pointer, given for each drawn item, oldest first,
/// whether it is text and whether the pointer hits it: the topmost text
/// that is hit, else the topmost other item that is hit.
pub open spec fn topmost_hit_spec(items: Seq<(bool, bool)>) -> Option<int> {
    match last_where(items, true) {
        Some(i) => Some(i),
        None => last_where(items, false),
    }
}

fn last_hit(items: &Vec<(bool, bool)>, text: bool) -> (r: Option<usize>)
    ensures
        match r {
            Some(i) => last_where(items@, text) == Some(i as int),
            None => last_where(items@, text) is None,
        },
{
    let mut i: usize = items.len();
    proof {
        assert(items@.take(items@.len() as int) == items@);
    }
    while i > 0
        invariant
            i <= items@.len(),
            last_where(items@, text) == last_where(items@.take(i as int), text),
        decreases i,
    {
        proof {
            assert(items@.take(i as int).drop_last() == items@.take(i - 1));
            assert(items@.take(i as int).last() == items@[i - 1]);
        }
        if items[i - 1].1 && items[i - 1].0 == text {
            return Some(i - 1);
        }
        i = i - 1;
    }
    proof {
        assert(items@.take(0) == Seq::<(bool, bool)>::empty());
    }
    None
}

/// The index of the item under the pointer; see `topmost_hit_spec`.
pub fn topmost_hit(items: &Vec<(bool, bool)>) -> (r: Option<usize>)
    ensures
        match r {
            Some(i) => topmost_hit_spec(items@) == Some(i as int),
            None => topmost_hit_spec(items@) is None,
        },
{
    match last_hit(items, true) {
        Some(i) => Some(i),
        None => last_hit(items, false),
    }
}

/// One channel of a color moved `amount` percent toward the accent's.
pub open spec fn blend_channel(c: u8, a: u8, amount: u8) -> int {
    (c * (100 - amount) + a * amount) / 100
}

/// An item's color moved `amount` percent toward the accent, as hovered
/// and selected items are drawn; an accent without an RGB value is used
/// as it is.
pub fn blended_item_color(item: (u8, u8, u8), accent: Color, amount: u8) -> (r: Color)
    requires
        amount <= 100,
    ensures
        match rgb_of(accent) {
            None => r == accent,
            Some((ar, ag, ab)) => r == Color::Rgb(
                blend_channel(item.0, ar, amount) as u8,
                blend_channel(item.1, ag, amount) as u8,
                blend_channel(item.2, ab, amount) as u8,
            ),
        },
{
    match color_rgb(accent) {
        None => accent,
        Some((ar, ag, ab)) => {
            let amount16 = amount as u16;
            let inverse = 100 - amount16;
            proof {
                assert((item.0 as u16) * inverse + (ar as u16) * amount16 <= 25500) by (nonlinear_arith)
                    requires inverse + amount16 == 100, item.0 <= 255, ar <= 255;
                assert((item.1 as u16) * inverse + (ag as u16) * amount16 <= 25500) by (nonlinear_arith)
                    requires inverse + amount16 == 100, item.1 <= 255, ag <= 255;
                assert((item.2 as u16) * inverse + (ab as u16) * amount16 <= 25500) by (nonlinear_arith)
                    requires inverse + amount16 == 100, item.2 <= 255, ab <= 255;
            }
            let red = ((item.0 as u16) * inverse + (ar as u16) * amount16) / 100;
            let green = ((item.1 as u16) * inverse + (ag as u16) * amount16) / 100;
            let blue = ((item.2 as u16) * inverse + (ab as u16) * amount16) / 100;
            Color::Rgb(red as u8, green as u8, blue as u8)
        },
    }
}

} // verus!

