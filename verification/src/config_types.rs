//! The enumerations of the configuration file and their textual forms.
//!
//! Each enumeration that the configuration reads from text has a
//! `from_str`, which lowercases its input and then matches it against the
//! names and aliases of the variants; those that are written back have a
//! `to_string`, whose result `from_str` reads back as the same variant.
use vstd::prelude::*;
use crate::text::{
    all_ascii, ascii_lower, ascii_lower_char, ascii_upper, ascii_upper_char, chars_of, concat_str, eq_lit, to_lowercase,
    unicode_lowercase,
};

verus! {

/// Lowercasing a string whose characters are all lowercase ASCII, digits or
/// `'_'` leaves it as it is.
pub proof fn lemma_ascii_lower_id(s: Seq<char>)
    requires
        forall|i: int| 0 <= i < s.len() ==> !('A' <= #[trigger] s[i] && s[i] <= 'Z') && (s[i] as u32) < 128,
    ensures
        ascii_lower(s) == s,
        all_ascii(s),
{
    assert(ascii_lower(s) =~= s);
}

/// Built-in color themes.
#[derive(Debug, Clone, Copy, PartialEq, Eq, Structural, Default)]
pub enum Theme {
    #[default]
    Default,
    TokyoNight,
    CatppuccinMocha,
    Onedark,
    Gruvbox,
    Dracula,
    Nord,
    RosePine,
    Everforest,
    Kanagawa,
    Solarized,
    CatppuccinFrappe,
    CatppuccinMacchiato,
    RosePineMoon,
    GruvboxMaterial,
    GithubDark,
    AyuMirage,
    Synthwave,
    Material,
}

/// The variant that a lowercased `Theme` text names, if any.
pub open spec fn theme_from_lower(s: Seq<char>) -> Option<Theme> {
    if s == "default"@ {
        Some(Theme::Default)
    } else if s == "tokyo_night"@ || s == "tokyonight"@ {
        Some(Theme::TokyoNight)
    } else if s == "catppuccin_mocha"@ || s == "catppuccinmocha"@ {
        Some(Theme::CatppuccinMocha)
    } else if s == "onedark"@ {
        Some(Theme::Onedark)
    } else if s == "gruvbox"@ {
        Some(Theme::Gruvbox)
    } else if s == "dracula"@ {
        Some(Theme::Dracula)
    } else if s == "nord"@ {
        Some(Theme::Nord)
    } else if s == "rose_pine"@ || s == "rosepine"@ {
        Some(Theme::RosePine)
    } else if s == "everforest"@ {
        Some(Theme::Everforest)
    } else if s == "kanagawa"@ {
        Some(Theme::Kanagawa)
    } else if s == "solarized"@ || s == "solarized_dark"@ || s == "solarizeddark"@ {
        Some(Theme::Solarized)
    } else if s == "catppuccin_frappe"@ || s == "catppuccinfrappe"@ {
        Some(Theme::CatppuccinFrappe)
    } else if s == "catppuccin_macchiato"@ || s == "catppuccinmacchiato"@ {
        Some(Theme::CatppuccinMacchiato)
    } else if s == "rose_pine_moon"@ || s == "rosepinemoon"@ {
        Some(Theme::RosePineMoon)
    } else if s == "gruvbox_material"@ || s == "gruvboxmaterial"@ {
        Some(Theme::GruvboxMaterial)
    } else if s == "github_dark"@ || s == "githubdark"@ {
        Some(Theme::GithubDark)
    } else if s == "ayu_mirage"@ || s == "ayumirage"@ {
        Some(Theme::AyuMirage)
    } else if s == "synthwave"@ || s == "synthwave84"@ {
        Some(Theme::Synthwave)
    } else if s == "material"@ || s == "material_theme"@ {
        Some(Theme::Material)
    } else {
        None
    }
}

/// The text that `Theme::to_string` writes.
pub open spec fn theme_name(v: Theme) -> Seq<char> {
    match v {
        Theme::Default => "default"@,
        Theme::TokyoNight => "tokyo_night"@,
        Theme::CatppuccinMocha => "catppuccin_mocha"@,
        Theme::Onedark => "onedark"@,
        Theme::Gruvbox => "gruvbox"@,
        Theme::Dracula => "dracula"@,
        Theme::Nord => "nord"@,
        Theme::RosePine => "rose_pine"@,
        Theme::Everforest => "everforest"@,
        Theme::Kanagawa => "kanagawa"@,
        Theme::Solarized => "solarized"@,
        Theme::CatppuccinFrappe => "catppuccin_frappe"@,
        Theme::CatppuccinMacchiato => "catppuccin_macchiato"@,
        Theme::RosePineMoon => "rose_pine_moon"@,
        Theme::GruvboxMaterial => "gruvbox_material"@,
        Theme::GithubDark => "github_dark"@,
        Theme::AyuMirage => "ayu_mirage"@,
        Theme::Synthwave => "synthwave"@,
        Theme::Material => "material"@,
    }
}

fn theme_from_chars(v: &Vec<char>) -> (r: Option<Theme>)
    ensures
        r == theme_from_lower(v@),
{
    if eq_lit(v, "default") {
        Some(Theme::Default)
    } else if eq_lit(v, "tokyo_night") || eq_lit(v, "tokyonight") {
        Some(Theme::TokyoNight)
    } else if eq_lit(v, "catppuccin_mocha") || eq_lit(v, "catppuccinmocha") {
        Some(Theme::CatppuccinMocha)
    } else if eq_lit(v, "onedark") {
        Some(Theme::Onedark)
    } else if eq_lit(v, "gruvbox") {
        Some(Theme::Gruvbox)
    } else if eq_lit(v, "dracula") {
        Some(Theme::Dracula)
    } else if eq_lit(v, "nord") {
        Some(Theme::Nord)
    } else if eq_lit(v, "rose_pine") || eq_lit(v, "rosepine") {
        Some(Theme::RosePine)
    } else if eq_lit(v, "everforest") {
        Some(Theme::Everforest)
    } else if eq_lit(v, "kanagawa") {
        Some(Theme::Kanagawa)
    } else if eq_lit(v, "solarized") || eq_lit(v, "solarized_dark") || eq_lit(v, "solarizeddark") {
        Some(Theme::Solarized)
    } else if eq_lit(v, "catppuccin_frappe") || eq_lit(v, "catppuccinfrappe") {
        Some(Theme::CatppuccinFrappe)
    } else if eq_lit(v, "catppuccin_macchiato") || eq_lit(v, "catppuccinmacchiato") {
        Some(Theme::CatppuccinMacchiato)
    } else if eq_lit(v, "rose_pine_moon") || eq_lit(v, "rosepinemoon") {
        Some(Theme::RosePineMoon)
    } else if eq_lit(v, "gruvbox_material") || eq_lit(v, "gruvboxmaterial") {
        Some(Theme::GruvboxMaterial)
    } else if eq_lit(v, "github_dark") || eq_lit(v, "githubdark") {
        Some(Theme::GithubDark)
    } else if eq_lit(v, "ayu_mirage") || eq_lit(v, "ayumirage") {
        Some(Theme::AyuMirage)
    } else if eq_lit(v, "synthwave") || eq_lit(v, "synthwave84") {
        Some(Theme::Synthwave)
    } else if eq_lit(v, "material") || eq_lit(v, "material_theme") {
        Some(Theme::Material)
    } else {
        None
    }
}

impl Theme {
    /// Reads a variant from its name or one of its aliases, in any letter
    /// case; any other text is refused with a message that quotes it.
    pub fn from_str(s: &str) -> (r: Result<Theme, String>)
        ensures
            r is Ok <==> theme_from_lower(unicode_lowercase(s@)) is Some,
            r matches Ok(v) ==> theme_from_lower(unicode_lowercase(s@)) == Some(v),
            r matches Err(e) ==> e@ == "Unknown theme: "@ + s@,
            all_ascii(s@) ==> unicode_lowercase(s@) == ascii_lower(s@),
    {
        let lower = to_lowercase(s);
        let v = chars_of(lower.as_str());
        match theme_from_chars(&v) {
            Some(t) => Ok(t),
            None => {
                Err(concat_str("Unknown theme: ", s))
            },
        }
    }

    /// The canonical name of this variant.
    pub fn to_string(&self) -> (r: String)
        ensures
            r@ == theme_name(*self),
    {
        match self {
            Theme::Default => String::from_str("default"),
            Theme::TokyoNight => String::from_str("tokyo_night"),
            Theme::CatppuccinMocha => String::from_str("catppuccin_mocha"),
            Theme::Onedark => String::from_str("onedark"),
            Theme::Gruvbox => String::from_str("gruvbox"),
            Theme::Dracula => String::from_str("dracula"),
            Theme::Nord => String::from_str("nord"),
            Theme::RosePine => String::from_str("rose_pine"),
            Theme::Everforest => String::from_str("everforest"),
            Theme::Kanagawa => String::from_str("kanagawa"),
            Theme::Solarized => String::from_str("solarized"),
            Theme::CatppuccinFrappe => String::from_str("catppuccin_frappe"),
            Theme::CatppuccinMacchiato => String::from_str("catppuccin_macchiato"),
            Theme::RosePineMoon => String::from_str("rose_pine_moon"),
            Theme::GruvboxMaterial => String::from_str("gruvbox_material"),
            Theme::GithubDark => String::from_str("github_dark"),
            Theme::AyuMirage => String::from_str("ayu_mirage"),
            Theme::Synthwave => String::from_str("synthwave"),
            Theme::Material => String::from_str("material"),
        }
    }
}

/// Writing a `Theme` and reading it back gives the same variant: its
/// canonical name is lowercase ASCII and names that variant.
pub proof fn theme_round_trip(v: Theme)
    ensures
        all_ascii(theme_name(v)),
        theme_from_lower(ascii_lower(theme_name(v))) == Some(v),
{
    reveal_strlit("ayu_mirage");
    reveal_strlit("ayumirage");
    reveal_strlit("catppuccin_frappe");
    reveal_strlit("catppuccin_macchiato");
    reveal_strlit("catppuccin_mocha");
    reveal_strlit("catppuccinfrappe");
    reveal_strlit("catppuccinmacchiato");
    reveal_strlit("catppuccinmocha");
    reveal_strlit("default");
    reveal_strlit("dracula");
    reveal_strlit("everforest");
    reveal_strlit("github_dark");
    reveal_strlit("githubdark");
    reveal_strlit("gruvbox");
    reveal_strlit("gruvbox_material");
    reveal_strlit("gruvboxmaterial");
    reveal_strlit("kanagawa");
    reveal_strlit("material");
    reveal_strlit("material_theme");
    reveal_strlit("nord");
    reveal_strlit("onedark");
    reveal_strlit("rose_pine");
    reveal_strlit("rose_pine_moon");
    reveal_strlit("rosepine");
    reveal_strlit("rosepinemoon");
    reveal_strlit("solarized");
    reveal_strlit("solarized_dark");
    reveal_strlit("solarizeddark");
    reveal_strlit("synthwave");
    reveal_strlit("synthwave84");
    reveal_strlit("tokyo_night");
    reveal_strlit("tokyonight");
    assert("default"@[0] != "onedark"@[0]);
    assert("default"@[0] != "gruvbox"@[0]);
    assert("default"@[1] != "dracula"@[1]);
    assert("tokyo_night"@[0] != "github_dark"@[0]);
    assert("tokyo_night"@[0] != "synthwave84"@[0]);
    assert("catppuccin_mocha"@[10] != "catppuccinfrappe"@[10]);
    assert("catppuccin_mocha"@[0] != "gruvbox_material"@[0]);
    assert("onedark"@[0] != "default"@[0]);
    assert("onedark"@[0] != "gruvbox"@[0]);
    assert("onedark"@[0] != "dracula"@[0]);
    assert("gruvbox"@[0] != "default"@[0]);
    assert("gruvbox"@[0] != "onedark"@[0]);
    assert("gruvbox"@[0] != "dracula"@[0]);
    assert("dracula"@[1] != "default"@[1]);
    assert("dracula"@[0] != "onedark"@[0]);
    assert("dracula"@[0] != "gruvbox"@[0]);
    assert("rose_pine"@[0] != "solarized"@[0]);
    assert("rose_pine"@[0] != "ayumirage"@[0]);
    assert("rose_pine"@[0] != "synthwave"@[0]);
    assert("everforest"@[0] != "tokyonight"@[0]);
    assert("everforest"@[0] != "githubdark"@[0]);
    assert("everforest"@[0] != "ayu_mirage"@[0]);
    assert("kanagawa"@[0] != "rosepine"@[0]);
    assert("kanagawa"@[0] != "material"@[0]);
    assert("solarized"@[0] != "rose_pine"@[0]);
    assert("solarized"@[0] != "ayumirage"@[0]);
    assert("solarized"@[1] != "synthwave"@[1]);
    assert("rose_pine_moon"@[0] != "solarized_dark"@[0]);
    assert("rose_pine_moon"@[0] != "material_theme"@[0]);
    assert("gruvbox_material"@[0] != "catppuccin_mocha"@[0]);
    assert("gruvbox_material"@[0] != "catppuccinfrappe"@[0]);
    assert("github_dark"@[0] != "tokyo_night"@[0]);
    assert("github_dark"@[0] != "synthwave84"@[0]);
    assert("ayu_mirage"@[0] != "tokyonight"@[0]);
    assert("ayu_mirage"@[0] != "everforest"@[0]);
    assert("ayu_mirage"@[0] != "githubdark"@[0]);
    assert("synthwave"@[0] != "rose_pine"@[0]);
    assert("synthwave"@[1] != "solarized"@[1]);
    assert("synthwave"@[0] != "ayumirage"@[0]);
    assert("material"@[0] != "rosepine"@[0]);
    assert("material"@[0] != "kanagawa"@[0]);
    lemma_ascii_lower_id(theme_name(v));
}

/// Uppercasing a text before lowercasing it changes nothing: the lowercase
/// of the uppercase is the lowercase.
pub proof fn lemma_lower_of_upper(s: Seq<char>)
    ensures
        ascii_lower(ascii_upper(s)) == ascii_lower(s),
        all_ascii(s) ==> all_ascii(ascii_upper(s)),
{
    assert forall|i: int| 0 <= i < s.len() implies #[trigger] ascii_lower_char(ascii_upper_char(s[i]))
        == ascii_lower_char(s[i]) by {
        let c = s[i];
        if 'a' <= c && c <= 'z' {
            let u = ((c as u32) - 32) as char;
            assert(u as u32 == (c as u32) - 32);
            assert('A' <= u && u <= 'Z');
            assert(((u as u32) + 32) as char == c);
        }
    }
    assert(ascii_lower(ascii_upper(s)) =~= ascii_lower(s));
    if all_ascii(s) {
        assert forall|i: int| 0 <= i < ascii_upper(s).len() implies (#[trigger] ascii_upper(s)[i] as u32) < 128 by {
            assert((s[i] as u32) < 128);
        }
    }
}

/// Theme names are read in any letter case: an ASCII text whose lowercase
/// is the name of a theme, the name in capitals among them, reads back as
/// that theme.
pub proof fn theme_name_any_case(v: Theme, s: Seq<char>)
    requires
        all_ascii(s),
        ascii_lower(s) == theme_name(v),
    ensures
        theme_from_lower(ascii_lower(s)) == Some(v),
        all_ascii(ascii_upper(theme_name(v))),
        theme_from_lower(ascii_lower(ascii_upper(theme_name(v)))) == Some(v),
{
    theme_round_trip(v);
    assert(ascii_lower(ascii_lower(s)) =~= ascii_lower(s));
    lemma_lower_of_upper(theme_name(v));
}

/// Whether the application paints its own background.
#[derive(Debug, Clone, Copy, PartialEq, Eq, Structural, Default)]
pub enum Background {
    #[default]
    Transparent,
    Solid,
}

/// The variant that a lowercased `Background` text names, if any.
pub open spec fn background_from_lower(s: Seq<char>) -> Option<Background> {
    if s == "transparent"@ {
        Some(Background::Transparent)
    } else if s == "solid"@ {
        Some(Background::Solid)
    } else {
        None
    }
}

/// The text that `Background::to_string` writes.
pub open spec fn background_name(v: Background) -> Seq<char> {
    match v {
        Background::Transparent => "transparent"@,
        Background::Solid => "solid"@,
    }
}

fn background_from_chars(v: &Vec<char>) -> (r: Option<Background>)
    ensures
        r == background_from_lower(v@),
{
    if eq_lit(v, "transparent") {
        Some(Background::Transparent)
    } else if eq_lit(v, "solid") {
        Some(Background::Solid)
    } else {
        None
    }
}

impl Background {
    /// Reads a variant from its name or one of its aliases, in any letter
    /// case; any other text is refused with a message that quotes it.
    pub fn from_str(s: &str) -> (r: Result<Background, String>)
        ensures
            r is Ok <==> background_from_lower(unicode_lowercase(s@)) is Some,
            r matches Ok(v) ==> background_from_lower(unicode_lowercase(s@)) == Some(v),
            r matches Err(e) ==> e@ == "Unknown background: "@ + s@,
            all_ascii(s@) ==> unicode_lowercase(s@) == ascii_lower(s@),
    {
        let lower = to_lowercase(s);
        let v = chars_of(lower.as_str());
        match background_from_chars(&v) {
            Some(t) => Ok(t),
            None => {
                Err(concat_str("Unknown background: ", s))
            },
        }
    }

    /// The canonical name of this variant.
    pub fn to_string(&self) -> (r: String)
        ensures
            r@ == background_name(*self),
    {
        match self {
            Background::Transparent => String::from_str("transparent"),
            Background::Solid => String::from_str("solid"),
        }
    }
}

/// Writing a `Background` and reading it back gives the same variant: its
/// canonical name is lowercase ASCII and names that variant.
pub proof fn background_round_trip(v: Background)
    ensures
        all_ascii(background_name(v)),
        background_from_lower(ascii_lower(background_name(v))) == Some(v),
{
    reveal_strlit("solid");
    reveal_strlit("transparent");
    lemma_ascii_lower_id(background_name(v));
}

/// Keybinding presets.
#[derive(Debug, Clone, Copy, PartialEq, Eq, Structural, Default)]
pub enum KeybindPreset {
    #[default]
    Default,
    Helix,
    Vim,
    Emacs,
}

/// The variant that a lowercased `KeybindPreset` text names, if any.
pub open spec fn keybind_preset_from_lower(s: Seq<char>) -> Option<KeybindPreset> {
    if s == "default"@ {
        Some(KeybindPreset::Default)
    } else if s == "helix"@ {
        Some(KeybindPreset::Helix)
    } else if s == "vim"@ {
        Some(KeybindPreset::Vim)
    } else if s == "emacs"@ {
        Some(KeybindPreset::Emacs)
    } else {
        None
    }
}

/// The text that `KeybindPreset::to_string` writes.
pub open spec fn keybind_preset_name(v: KeybindPreset) -> Seq<char> {
    match v {
        KeybindPreset::Default => "default"@,
        KeybindPreset::Helix => "helix"@,
        KeybindPreset::Vim => "vim"@,
        KeybindPreset::Emacs => "emacs"@,
    }
}

fn keybind_preset_from_chars(v: &Vec<char>) -> (r: Option<KeybindPreset>)
    ensures
        r == keybind_preset_from_lower(v@),
{
    if eq_lit(v, "default") {
        Some(KeybindPreset::Default)
    } else if eq_lit(v, "helix") {
        Some(KeybindPreset::Helix)
    } else if eq_lit(v, "vim") {
        Some(KeybindPreset::Vim)
    } else if eq_lit(v, "emacs") {
        Some(KeybindPreset::Emacs)
    } else {
        None
    }
}

impl KeybindPreset {
    /// Reads a variant from its name or one of its aliases, in any letter
    /// case; any other text is refused with a message that quotes it.
    pub fn from_str(s: &str) -> (r: Result<KeybindPreset, String>)
        ensures
            r is Ok <==> keybind_preset_from_lower(unicode_lowercase(s@)) is Some,
            r matches Ok(v) ==> keybind_preset_from_lower(unicode_lowercase(s@)) == Some(v),
            r matches Err(e) ==> e@ == "Unknown keybind preset: "@ + s@,
            all_ascii(s@) ==> unicode_lowercase(s@) == ascii_lower(s@),
    {
        let lower = to_lowercase(s);
        let v = chars_of(lower.as_str());
        match keybind_preset_from_chars(&v) {
            Some(t) => Ok(t),
            None => {
                Err(concat_str("Unknown keybind preset: ", s))
            },
        }
    }

    /// The canonical name of this variant.
    pub fn to_string(&self) -> (r: String)
        ensures
            r@ == keybind_preset_name(*self),
    {
        match self {
            KeybindPreset::Default => String::from_str("default"),
            KeybindPreset::Helix => String::from_str("helix"),
            KeybindPreset::Vim => String::from_str("vim"),
            KeybindPreset::Emacs => String::from_str("emacs"),
        }
    }
}

/// Writing a `KeybindPreset` and reading it back gives the same variant: its
/// canonical name is lowercase ASCII and names that variant.
pub proof fn keybind_preset_round_trip(v: KeybindPreset)
    ensures
        all_ascii(keybind_preset_name(v)),
        keybind_preset_from_lower(ascii_lower(keybind_preset_name(v))) == Some(v),
{
    reveal_strlit("default");
    reveal_strlit("emacs");
    reveal_strlit("helix");
    reveal_strlit("vim");
    assert("helix"@[0] != "emacs"@[0]);
    assert("emacs"@[0] != "helix"@[0]);
    lemma_ascii_lower_id(keybind_preset_name(v));
}

/// How graph nodes are colored.
#[derive(Debug, Clone, Copy, PartialEq, Eq, Structural, Default)]
pub enum NodeColorMode {
    Tag,
    #[default]
    Folder,
    LinkCount,
    Uniform,
}

/// The variant that a lowercased `NodeColorMode` text names, if any.
pub open spec fn node_color_mode_from_lower(s: Seq<char>) -> Option<NodeColorMode> {
    if s == "tag"@ {
        Some(NodeColorMode::Tag)
    } else if s == "folder"@ {
        Some(NodeColorMode::Folder)
    } else if s == "link_count"@ || s == "linkcount"@ {
        Some(NodeColorMode::LinkCount)
    } else if s == "uniform"@ {
        Some(NodeColorMode::Uniform)
    } else {
        None
    }
}

fn node_color_mode_from_chars(v: &Vec<char>) -> (r: Option<NodeColorMode>)
    ensures
        r == node_color_mode_from_lower(v@),
{
    if eq_lit(v, "tag") {
        Some(NodeColorMode::Tag)
    } else if eq_lit(v, "folder") {
        Some(NodeColorMode::Folder)
    } else if eq_lit(v, "link_count") || eq_lit(v, "linkcount") {
        Some(NodeColorMode::LinkCount)
    } else if eq_lit(v, "uniform") {
        Some(NodeColorMode::Uniform)
    } else {
        None
    }
}

impl NodeColorMode {
    /// Reads a variant from its name or one of its aliases, in any letter
    /// case; any other text is refused with a message that quotes it.
    pub fn from_str(s: &str) -> (r: Result<NodeColorMode, String>)
        ensures
            r is Ok <==> node_color_mode_from_lower(unicode_lowercase(s@)) is Some,
            r matches Ok(v) ==> node_color_mode_from_lower(unicode_lowercase(s@)) == Some(v),
            r matches Err(e) ==> e@ == "Unknown node_color_mode: "@ + s@,
            all_ascii(s@) ==> unicode_lowercase(s@) == ascii_lower(s@),
    {
        let lower = to_lowercase(s);
        let v = chars_of(lower.as_str());
        match node_color_mode_from_chars(&v) {
            Some(t) => Ok(t),
            None => {
                Err(concat_str("Unknown node_color_mode: ", s))
            },
        }
    }
}

/// How graph edges are colored.
#[derive(Debug, Clone, Copy, PartialEq, Eq, Structural, Default)]
pub enum EdgeColorMode {
    Source,
    Target,
    #[default]
    Uniform,
}

/// The variant that a lowercased `EdgeColorMode` text names, if any.
pub open spec fn edge_color_mode_from_lower(s: Seq<char>) -> Option<EdgeColorMode> {
    if s == "source"@ {
        Some(EdgeColorMode::Source)
    } else if s == "target"@ {
        Some(EdgeColorMode::Target)
    } else if s == "uniform"@ {
        Some(EdgeColorMode::Uniform)
    } else {
        None
    }
}

fn edge_color_mode_from_chars(v: &Vec<char>) -> (r: Option<EdgeColorMode>)
    ensures
        r == edge_color_mode_from_lower(v@),
{
    if eq_lit(v, "source") {
        Some(EdgeColorMode::Source)
    } else if eq_lit(v, "target") {
        Some(EdgeColorMode::Target)
    } else if eq_lit(v, "uniform") {
        Some(EdgeColorMode::Uniform)
    } else {
        None
    }
}

impl EdgeColorMode {
    /// Reads a variant from its name or one of its aliases, in any letter
    /// case; any other text is refused with a message that quotes it.
    pub fn from_str(s: &str) -> (r: Result<EdgeColorMode, String>)
        ensures
            r is Ok <==> edge_color_mode_from_lower(unicode_lowercase(s@)) is Some,
            r matches Ok(v) ==> edge_color_mode_from_lower(unicode_lowercase(s@)) == Some(v),
            r matches Err(e) ==> e@ == "Unknown edge_color_mode: "@ + s@,
            all_ascii(s@) ==> unicode_lowercase(s@) == ascii_lower(s@),
    {
        let lower = to_lowercase(s);
        let v = chars_of(lower.as_str());
        match edge_color_mode_from_chars(&v) {
            Some(t) => Ok(t),
            None => {
                Err(concat_str("Unknown edge_color_mode: ", s))
            },
        }
    }
}

/// Which graph nodes show labels.
#[derive(Debug, Clone, Copy, PartialEq, Eq, Structural, Default)]
pub enum LabelMode {
    #[default]
    Selected,
    Neighbors,
    All,
    Off,
}

/// The variant that a lowercased `LabelMode` text names, if any.
pub open spec fn label_mode_from_lower(s: Seq<char>) -> Option<LabelMode> {
    if s == "selected"@ {
        Some(LabelMode::Selected)
    } else if s == "neighbors"@ {
        Some(LabelMode::Neighbors)
    } else if s == "all"@ {
        Some(LabelMode::All)
    } else if s == "none"@ {
        Some(LabelMode::Off)
    } else {
        None
    }
}

fn label_mode_from_chars(v: &Vec<char>) -> (r: Option<LabelMode>)
    ensures
        r == label_mode_from_lower(v@),
{
    if eq_lit(v, "selected") {
        Some(LabelMode::Selected)
    } else if eq_lit(v, "neighbors") {
        Some(LabelMode::Neighbors)
    } else if eq_lit(v, "all") {
        Some(LabelMode::All)
    } else if eq_lit(v, "none") {
        Some(LabelMode::Off)
    } else {
        None
    }
}

impl LabelMode {
    /// Reads a variant from its name or one of its aliases, in any letter
    /// case; any other text is refused with a message that quotes it.
    pub fn from_str(s: &str) -> (r: Result<LabelMode, String>)
        ensures
            r is Ok <==> label_mode_from_lower(unicode_lowercase(s@)) is Some,
            r matches Ok(v) ==> label_mode_from_lower(unicode_lowercase(s@)) == Some(v),
            r matches Err(e) ==> e@ == "Unknown label_mode: "@ + s@,
            all_ascii(s@) ==> unicode_lowercase(s@) == ascii_lower(s@),
    {
        let lower = to_lowercase(s);
        let v = chars_of(lower.as_str());
        match label_mode_from_chars(&v) {
            Some(t) => Ok(t),
            None => {
                Err(concat_str("Unknown label_mode: ", s))
            },
        }
    }
}

/// How graph nodes are sized.
#[derive(Debug, Clone, Copy, PartialEq, Eq, Structural, Default)]
pub enum NodeSizeMode {
    #[default]
    Fixed,
    LinkCount,
}

/// The variant that a lowercased `NodeSizeMode` text names, if any.
pub open spec fn node_size_mode_from_lower(s: Seq<char>) -> Option<NodeSizeMode> {
    if s == "fixed"@ {
        Some(NodeSizeMode::Fixed)
    } else if s == "link_count"@ || s == "linkcount"@ {
        Some(NodeSizeMode::LinkCount)
    } else {
        None
    }
}

fn node_size_mode_from_chars(v: &Vec<char>) -> (r: Option<NodeSizeMode>)
    ensures
        r == node_size_mode_from_lower(v@),
{
    if eq_lit(v, "fixed") {
        Some(NodeSizeMode::Fixed)
    } else if eq_lit(v, "link_count") || eq_lit(v, "linkcount") {
        Some(NodeSizeMode::LinkCount)
    } else {
        None
    }
}

impl NodeSizeMode {
    /// Reads a variant from its name or one of its aliases, in any letter
    /// case; any other text is refused with a message that quotes it.
    pub fn from_str(s: &str) -> (r: Result<NodeSizeMode, String>)
        ensures
            r is Ok <==> node_size_mode_from_lower(unicode_lowercase(s@)) is Some,
            r matches Ok(v) ==> node_size_mode_from_lower(unicode_lowercase(s@)) == Some(v),
            r matches Err(e) ==> e@ == "Unknown node_size_mode: "@ + s@,
            all_ascii(s@) ==> unicode_lowercase(s@) == ascii_lower(s@),
    {
        let lower = to_lowercase(s);
        let v = chars_of(lower.as_str());
        match node_size_mode_from_chars(&v) {
            Some(t) => Ok(t),
            None => {
                Err(concat_str("Unknown node_size_mode: ", s))
            },
        }
    }
}

/// The cell marker of graph canvases.
#[derive(Debug, Clone, Copy, PartialEq, Eq, Structural, Default)]
pub enum CanvasMarker {
    #[default]
    Braille,
    HalfBlock,
    Dot,
}

/// The variant that a lowercased `CanvasMarker` text names, if any.
pub open spec fn canvas_marker_from_lower(s: Seq<char>) -> Option<CanvasMarker> {
    if s == "braille"@ {
        Some(CanvasMarker::Braille)
    } else if s == "half_block"@ || s == "halfblock"@ {
        Some(CanvasMarker::HalfBlock)
    } else if s == "dot"@ {
        Some(CanvasMarker::Dot)
    } else {
        None
    }
}

fn canvas_marker_from_chars(v: &Vec<char>) -> (r: Option<CanvasMarker>)
    ensures
        r == canvas_marker_from_lower(v@),
{
    if eq_lit(v, "braille") {
        Some(CanvasMarker::Braille)
    } else if eq_lit(v, "half_block") || eq_lit(v, "halfblock") {
        Some(CanvasMarker::HalfBlock)
    } else if eq_lit(v, "dot") {
        Some(CanvasMarker::Dot)
    } else {
        None
    }
}

impl CanvasMarker {
    /// Reads a variant from its name or one of its aliases, in any letter
    /// case; any other text is refused with a message that quotes it.
    pub fn from_str(s: &str) -> (r: Result<CanvasMarker, String>)
        ensures
            r is Ok <==> canvas_marker_from_lower(unicode_lowercase(s@)) is Some,
            r matches Ok(v) ==> canvas_marker_from_lower(unicode_lowercase(s@)) == Some(v),
            r matches Err(e) ==> e@ == "Unknown canvas_marker: "@ + s@,
            all_ascii(s@) ==> unicode_lowercase(s@) == ascii_lower(s@),
    {
        let lower = to_lowercase(s);
        let v = chars_of(lower.as_str());
        match canvas_marker_from_chars(&v) {
            Some(t) => Ok(t),
            None => {
                Err(concat_str("Unknown canvas_marker: ", s))
            },
        }
    }
}

/// The shape of graph nodes.
#[derive(Debug, Clone, Copy, PartialEq, Eq, Structural, Default)]
pub enum NodeShape {
    #[default]
    Circle,
    Square,
    Diamond,
}

/// The variant that a lowercased `NodeShape` text names, if any.
pub open spec fn node_shape_from_lower(s: Seq<char>) -> Option<NodeShape> {
    if s == "circle"@ {
        Some(NodeShape::Circle)
    } else if s == "square"@ {
        Some(NodeShape::Square)
    } else if s == "diamond"@ {
        Some(NodeShape::Diamond)
    } else {
        None
    }
}

fn node_shape_from_chars(v: &Vec<char>) -> (r: Option<NodeShape>)
    ensures
        r == node_shape_from_lower(v@),
{
    if eq_lit(v, "circle") {
        Some(NodeShape::Circle)
    } else if eq_lit(v, "square") {
        Some(NodeShape::Square)
    } else if eq_lit(v, "diamond") {
        Some(NodeShape::Diamond)
    } else {
        None
    }
}

impl NodeShape {
    /// Reads a variant from its name or one of its aliases, in any letter
    /// case; any other text is refused with a message that quotes it.
    pub fn from_str(s: &str) -> (r: Result<NodeShape, String>)
        ensures
            r is Ok <==> node_shape_from_lower(unicode_lowercase(s@)) is Some,
            r matches Ok(v) ==> node_shape_from_lower(unicode_lowercase(s@)) == Some(v),
            r matches Err(e) ==> e@ == "Unknown node_shape: "@ + s@,
            all_ascii(s@) ==> unicode_lowercase(s@) == ascii_lower(s@),
    {
        let lower = to_lowercase(s);
        let v = chars_of(lower.as_str());
        match node_shape_from_chars(&v) {
            Some(t) => Ok(t),
            None => {
                Err(concat_str("Unknown node_shape: ", s))
            },
        }
    }
}

/// Where the graph legend stands.
#[derive(Debug, Clone, Copy, PartialEq, Eq, Structural, Default)]
pub enum LegendPosition {
    #[default]
    TopRight,
    TopLeft,
    BottomRight,
    BottomLeft,
}

/// The variant that a lowercased `LegendPosition` text names, if any.
pub open spec fn legend_position_from_lower(s: Seq<char>) -> Option<LegendPosition> {
    if s == "top_right"@ || s == "topright"@ {
        Some(LegendPosition::TopRight)
    } else if s == "top_left"@ || s == "topleft"@ {
        Some(LegendPosition::TopLeft)
    } else if s == "bottom_right"@ || s == "bottomright"@ {
        Some(LegendPosition::BottomRight)
    } else if s == "bottom_left"@ || s == "bottomleft"@ {
        Some(LegendPosition::BottomLeft)
    } else {
        None
    }
}

fn legend_position_from_chars(v: &Vec<char>) -> (r: Option<LegendPosition>)
    ensures
        r == legend_position_from_lower(v@),
{
    if eq_lit(v, "top_right") || eq_lit(v, "topright") {
        Some(LegendPosition::TopRight)
    } else if eq_lit(v, "top_left") || eq_lit(v, "topleft") {
        Some(LegendPosition::TopLeft)
    } else if eq_lit(v, "bottom_right") || eq_lit(v, "bottomright") {
        Some(LegendPosition::BottomRight)
    } else if eq_lit(v, "bottom_left") || eq_lit(v, "bottomleft") {
        Some(LegendPosition::BottomLeft)
    } else {
        None
    }
}

impl LegendPosition {
    /// Reads a variant from its name or one of its aliases, in any letter
    /// case; any other text is refused with a message that quotes it.
    pub fn from_str(s: &str) -> (r: Result<LegendPosition, String>)
        ensures
            r is Ok <==> legend_position_from_lower(unicode_lowercase(s@)) is Some,
            r matches Ok(v) ==> legend_position_from_lower(unicode_lowercase(s@)) == Some(v),
            r matches Err(e) ==> e@ == "Unknown legend position: "@ + s@,
            all_ascii(s@) ==> unicode_lowercase(s@) == ascii_lower(s@),
    {
        let lower = to_lowercase(s);
        let v = chars_of(lower.as_str());
        match legend_position_from_chars(&v) {
            Some(t) => Ok(t),
            None => {
                Err(concat_str("Unknown legend position: ", s))
            },
        }
    }
}

/// How often the graph layout is advanced.
#[derive(Debug, Clone, Copy, PartialEq, Eq, Structural, Default)]
pub enum PhysicsTickRate {
    #[default]
    Auto,
    Fixed,
}

/// The variant that a lowercased `PhysicsTickRate` text names, if any.
pub open spec fn physics_tick_rate_from_lower(s: Seq<char>) -> Option<PhysicsTickRate> {
    if s == "auto"@ {
        Some(PhysicsTickRate::Auto)
    } else if s == "fixed"@ {
        Some(PhysicsTickRate::Fixed)
    } else {
        None
    }
}

/// The text that `PhysicsTickRate::to_string` writes.
pub open spec fn physics_tick_rate_name(v: PhysicsTickRate) -> Seq<char> {
    match v {
        PhysicsTickRate::Auto => "auto"@,
        PhysicsTickRate::Fixed => "fixed"@,
    }
}

fn physics_tick_rate_from_chars(v: &Vec<char>) -> (r: Option<PhysicsTickRate>)
    ensures
        r == physics_tick_rate_from_lower(v@),
{
    if eq_lit(v, "auto") {
        Some(PhysicsTickRate::Auto)
    } else if eq_lit(v, "fixed") {
        Some(PhysicsTickRate::Fixed)
    } else {
        None
    }
}

impl PhysicsTickRate {
    /// Reads a variant from its name or one of its aliases, in any letter
    /// case; any other text is refused with a message that quotes it.
    pub fn from_str(s: &str) -> (r: Result<PhysicsTickRate, String>)
        ensures
            r is Ok <==> physics_tick_rate_from_lower(unicode_lowercase(s@)) is Some,
            r matches Ok(v) ==> physics_tick_rate_from_lower(unicode_lowercase(s@)) == Some(v),
            r matches Err(e) ==> e@ == "Unknown physics tick_rate: "@ + s@,
            all_ascii(s@) ==> unicode_lowercase(s@) == ascii_lower(s@),
    {
        let lower = to_lowercase(s);
        let v = chars_of(lower.as_str());
        match physics_tick_rate_from_chars(&v) {
            Some(t) => Ok(t),
            None => {
                Err(concat_str("Unknown physics tick_rate: ", s))
            },
        }
    }

    /// The canonical name of this variant.
    pub fn to_string(&self) -> (r: String)
        ensures
            r@ == physics_tick_rate_name(*self),
    {
        match self {
            PhysicsTickRate::Auto => String::from_str("auto"),
            PhysicsTickRate::Fixed => String::from_str("fixed"),
        }
    }
}

/// Writing a `PhysicsTickRate` and reading it back gives the same variant: its
/// canonical name is lowercase ASCII and names that variant.
pub proof fn physics_tick_rate_round_trip(v: PhysicsTickRate)
    ensures
        all_ascii(physics_tick_rate_name(v)),
        physics_tick_rate_from_lower(ascii_lower(physics_tick_rate_name(v))) == Some(v),
{
    reveal_strlit("auto");
    reveal_strlit("fixed");
    lemma_ascii_lower_id(physics_tick_rate_name(v));
}

/// Sections of the notes screen.
#[derive(Debug, Clone, Copy, PartialEq, Eq, Structural, Default)]
pub enum NotesSection {
    Calendar,
    #[default]
    Goals,
    Draw,
    Graf,
}

/// The variant that a lowercased `NotesSection` text names, if any.
pub open spec fn notes_section_from_lower(s: Seq<char>) -> Option<NotesSection> {
    if s == "calendar"@ {
        Some(NotesSection::Calendar)
    } else if s == "goals"@ {
        Some(NotesSection::Goals)
    } else if s == "draw"@ {
        Some(NotesSection::Draw)
    } else if s == "graf"@ {
        Some(NotesSection::Graf)
    } else {
        None
    }
}

/// The text that `NotesSection::to_string` writes.
pub open spec fn notes_section_name(v: NotesSection) -> Seq<char> {
    match v {
        NotesSection::Calendar => "calendar"@,
        NotesSection::Goals => "goals"@,
        NotesSection::Draw => "draw"@,
        NotesSection::Graf => "graf"@,
    }
}

pub(crate) fn notes_section_from_chars(v: &Vec<char>) -> (r: Option<NotesSection>)
    ensures
        r == notes_section_from_lower(v@),
{
    if eq_lit(v, "calendar") {
        Some(NotesSection::Calendar)
    } else if eq_lit(v, "goals") {
        Some(NotesSection::Goals)
    } else if eq_lit(v, "draw") {
        Some(NotesSection::Draw)
    } else if eq_lit(v, "graf") {
        Some(NotesSection::Graf)
    } else {
        None
    }
}

impl NotesSection {
    /// Reads a variant from its name or one of its aliases, in any letter
    /// case; any other text is refused with a message that quotes it.
    pub fn from_str(s: &str) -> (r: Result<NotesSection, String>)
        ensures
            r is Ok <==> notes_section_from_lower(unicode_lowercase(s@)) is Some,
            r matches Ok(v) ==> notes_section_from_lower(unicode_lowercase(s@)) == Some(v),
            r matches Err(e) ==> e@ == "Unknown section: "@ + s@ + ". Expected calendar, goals, draw, or graf."@,
            all_ascii(s@) ==> unicode_lowercase(s@) == ascii_lower(s@),
    {
        let lower = to_lowercase(s);
        let v = chars_of(lower.as_str());
        match notes_section_from_chars(&v) {
            Some(t) => Ok(t),
            None => {
                let head = concat_str("Unknown section: ", s);
                Err(concat_str(head.as_str(), ". Expected calendar, goals, draw, or graf."))
            },
        }
    }

    /// The canonical name of this variant.
    pub fn to_string(&self) -> (r: String)
        ensures
            r@ == notes_section_name(*self),
    {
        match self {
            NotesSection::Calendar => String::from_str("calendar"),
            NotesSection::Goals => String::from_str("goals"),
            NotesSection::Draw => String::from_str("draw"),
            NotesSection::Graf => String::from_str("graf"),
        }
    }
}

/// Writing a `NotesSection` and reading it back gives the same variant: its
/// canonical name is lowercase ASCII and names that variant.
pub proof fn notes_section_round_trip(v: NotesSection)
    ensures
        all_ascii(notes_section_name(v)),
        notes_section_from_lower(ascii_lower(notes_section_name(v))) == Some(v),
{
    reveal_strlit("calendar");
    reveal_strlit("draw");
    reveal_strlit("goals");
    reveal_strlit("graf");
    assert("draw"@[0] != "graf"@[0]);
    assert("graf"@[0] != "draw"@[0]);
    lemma_ascii_lower_id(notes_section_name(v));
}

/// Density of the notes list.
#[derive(Debug, Clone, Copy, PartialEq, Eq, Structural, Default)]
pub enum ListDensity {
    #[default]
    Compact,
    Comfortable,
}

/// Layout of the notes screen.
#[derive(Debug, Clone, Copy, PartialEq, Eq, Structural, Default)]
pub enum NotesLayout {
    Tree,
    #[default]
    Grid,
}

/// Which glyph set icons are drawn from.
#[derive(Debug, Clone, Copy, PartialEq, Eq, Structural, Default)]
pub enum IconMode {
    #[default]
    Nerd,
    Unicode,
    Off,
}

/// Side of the preview pane.
#[derive(Debug, Clone, Copy, PartialEq, Eq, Structural, Default)]
pub enum PreviewPosition {
    Left,
    #[default]
    Right,
}

/// How an expanded preview opens.
#[derive(Debug, Clone, Copy, PartialEq, Eq, Structural, Default)]
pub enum PreviewExpandMode {
    #[default]
    Inline,
    External,
}

/// Where the calendar stands.
#[derive(Debug, Clone, Copy, PartialEq, Eq, Structural, Default)]
pub enum CalendarPosition {
    Top,
    #[default]
    Bottom,
}

/// First day of the week.
#[derive(Debug, Clone, Copy, PartialEq, Eq, Structural, Default)]
pub enum WeekStart {
    #[default]
    Sunday,
    Monday,
}

/// Styles of the key-hint bar.
#[derive(Debug, Clone, Copy, PartialEq, Eq, Structural, Default)]
pub enum HintBarStyle {
    #[default]
    Classic,
    Sharp,
    Rounded,
    Slanted,
    Bubbles,
    Blurred,
    Chips,
    Brackets,
}

/// Position of a style in `HintBarStyle::ALL`.
pub open spec fn hint_bar_index(s: HintBarStyle) -> nat {
    match s {
        HintBarStyle::Classic => 0,
        HintBarStyle::Sharp => 1,
        HintBarStyle::Rounded => 2,
        HintBarStyle::Slanted => 3,
        HintBarStyle::Bubbles => 4,
        HintBarStyle::Blurred => 5,
        HintBarStyle::Chips => 6,
        HintBarStyle::Brackets => 7,
    }
}

/// Display name of a style.
pub open spec fn hint_bar_name(s: HintBarStyle) -> Seq<char> {
    match s {
        HintBarStyle::Classic => "Classic"@,
        HintBarStyle::Sharp => "Sharp"@,
        HintBarStyle::Rounded => "Rounded"@,
        HintBarStyle::Slanted => "Slanted"@,
        HintBarStyle::Bubbles => "Bubbles"@,
        HintBarStyle::Blurred => "Blurred"@,
        HintBarStyle::Chips => "Chips"@,
        HintBarStyle::Brackets => "Brackets"@,
    }
}

/// Configuration name of a style.
pub open spec fn hint_bar_config_str(s: HintBarStyle) -> Seq<char> {
    match s {
        HintBarStyle::Classic => "classic"@,
        HintBarStyle::Sharp => "sharp"@,
        HintBarStyle::Rounded => "rounded"@,
        HintBarStyle::Slanted => "slanted"@,
        HintBarStyle::Bubbles => "bubbles"@,
        HintBarStyle::Blurred => "blurred"@,
        HintBarStyle::Chips => "chips"@,
        HintBarStyle::Brackets => "brackets"@,
    }
}

/// The style at a position of `HintBarStyle::ALL`; `Classic` past the end.
pub open spec fn hint_bar_at(idx: int) -> HintBarStyle {
    if idx == 0 {
        HintBarStyle::Classic
    } else if idx == 1 {
        HintBarStyle::Sharp
    } else if idx == 2 {
        HintBarStyle::Rounded
    } else if idx == 3 {
        HintBarStyle::Slanted
    } else if idx == 4 {
        HintBarStyle::Bubbles
    } else if idx == 5 {
        HintBarStyle::Blurred
    } else if idx == 6 {
        HintBarStyle::Chips
    } else if idx == 7 {
        HintBarStyle::Brackets
    } else {
        HintBarStyle::Classic
    }
}

impl HintBarStyle {
    /// Every style in picker/display order.
    pub const ALL: [HintBarStyle; 8] = [
        HintBarStyle::Classic,
        HintBarStyle::Sharp,
        HintBarStyle::Rounded,
        HintBarStyle::Slanted,
        HintBarStyle::Bubbles,
        HintBarStyle::Blurred,
        HintBarStyle::Chips,
        HintBarStyle::Brackets,
    ];

    /// Display name ("Classic", "Bubbles", ...).
    pub fn name(self) -> (r: &'static str)
        ensures
            r@ == hint_bar_name(self),
    {
        match self {
            HintBarStyle::Classic => "Classic",
            HintBarStyle::Sharp => "Sharp",
            HintBarStyle::Rounded => "Rounded",
            HintBarStyle::Slanted => "Slanted",
            HintBarStyle::Bubbles => "Bubbles",
            HintBarStyle::Blurred => "Blurred",
            HintBarStyle::Chips => "Chips",
            HintBarStyle::Brackets => "Brackets",
        }
    }

    /// Configuration string ("classic", "bubbles", ...).
    pub fn as_config_str(self) -> (r: &'static str)
        ensures
            r@ == hint_bar_config_str(self),
    {
        match self {
            HintBarStyle::Classic => "classic",
            HintBarStyle::Sharp => "sharp",
            HintBarStyle::Rounded => "rounded",
            HintBarStyle::Slanted => "slanted",
            HintBarStyle::Bubbles => "bubbles",
            HintBarStyle::Blurred => "blurred",
            HintBarStyle::Chips => "chips",
            HintBarStyle::Brackets => "brackets",
        }
    }

    /// Position in `ALL`.
    pub fn index(self) -> (r: usize)
        ensures
            r == hint_bar_index(self),
    {
        match self {
            HintBarStyle::Classic => 0,
            HintBarStyle::Sharp => 1,
            HintBarStyle::Rounded => 2,
            HintBarStyle::Slanted => 3,
            HintBarStyle::Bubbles => 4,
            HintBarStyle::Blurred => 5,
            HintBarStyle::Chips => 6,
            HintBarStyle::Brackets => 7,
        }
    }

    /// The style at `idx` in `ALL`, `Classic` (the default) when `idx` is out
    /// of range.
    pub fn from_index(idx: usize) -> (r: HintBarStyle)
        ensures
            r == hint_bar_at(idx as int),
    {
        if idx == 0 {
            HintBarStyle::Classic
        } else if idx == 1 {
            HintBarStyle::Sharp
        } else if idx == 2 {
            HintBarStyle::Rounded
        } else if idx == 3 {
            HintBarStyle::Slanted
        } else if idx == 4 {
            HintBarStyle::Bubbles
        } else if idx == 5 {
            HintBarStyle::Blurred
        } else if idx == 6 {
            HintBarStyle::Chips
        } else if idx == 7 {
            HintBarStyle::Brackets
        } else {
            HintBarStyle::Classic
        }
    }

    /// Styles painting cells on filled backgrounds: all but `Classic` and
    /// `Brackets`.
    pub fn has_filled_cells(self) -> (r: bool)
        ensures
            r == !(self == HintBarStyle::Classic || self == HintBarStyle::Brackets),
    {
        match self {
            HintBarStyle::Classic | HintBarStyle::Brackets => false,
            HintBarStyle::Sharp | HintBarStyle::Rounded | HintBarStyle::Slanted
            | HintBarStyle::Bubbles | HintBarStyle::Blurred | HintBarStyle::Chips => true,
        }
    }

    /// The chained powerline family: `Sharp`, `Rounded`, `Slanted`.
    pub fn is_chained(self) -> (r: bool)
        ensures
            r == (self == HintBarStyle::Sharp || self == HintBarStyle::Rounded || self
                == HintBarStyle::Slanted),
    {
        match self {
            HintBarStyle::Sharp | HintBarStyle::Rounded | HintBarStyle::Slanted => true,
            _ => false,
        }
    }

    /// Edge glyphs (left, right) of the detached family: `Bubbles`,
    /// `Blurred` and `Chips`; `None` for the others.
    pub fn cell_caps(self) -> (r: Option<(&'static str, &'static str)>)
        ensures
            match self {
                HintBarStyle::Bubbles => r matches Some((a, b)) && a@ == "\u{e0b6}"@ && b@
                    == "\u{e0b4}"@,
                HintBarStyle::Blurred => r matches Some((a, b)) && a@ == "░▒▓"@ && b@ == "▓▒░"@,
                HintBarStyle::Chips => r matches Some((a, b)) && a@ == ""@ && b@ == ""@,
                _ => r is None,
            },
    {
        match self {
            HintBarStyle::Bubbles => Some(("\u{e0b6}", "\u{e0b4}")),
            HintBarStyle::Blurred => Some(("░▒▓", "▓▒░")),
            HintBarStyle::Chips => Some(("", "")),
            _ => None,
        }
    }
}

/// Every style is found again at its own position of `ALL`.
pub proof fn hint_bar_index_round_trip(s: HintBarStyle)
    ensures
        hint_bar_index(s) < 8,
        hint_bar_at(hint_bar_index(s) as int) == s,
{
}

/// The style a display name or configuration string belongs to.
pub open spec fn hint_bar_by_text(t: Seq<char>, config: bool) -> Option<HintBarStyle> {
    if config {
        hint_bar_by_config(t)
    } else {
        hint_bar_by_name(t)
    }
}

/// The hint bar style a display name names.
pub open spec fn hint_bar_by_name(t: Seq<char>) -> Option<HintBarStyle> {
    if t == "Classic"@ {
        Some(HintBarStyle::Classic)
    } else if t == "Sharp"@ {
        Some(HintBarStyle::Sharp)
    } else if t == "Rounded"@ {
        Some(HintBarStyle::Rounded)
    } else if t == "Slanted"@ {
        Some(HintBarStyle::Slanted)
    } else if t == "Bubbles"@ {
        Some(HintBarStyle::Bubbles)
    } else if t == "Blurred"@ {
        Some(HintBarStyle::Blurred)
    } else if t == "Chips"@ {
        Some(HintBarStyle::Chips)
    } else if t == "Brackets"@ {
        Some(HintBarStyle::Brackets)
    } else {
        None
    }
}

/// The hint bar style a configuration name names.
pub open spec fn hint_bar_by_config(t: Seq<char>) -> Option<HintBarStyle> {
    if t == "classic"@ {
        Some(HintBarStyle::Classic)
    } else if t == "sharp"@ {
        Some(HintBarStyle::Sharp)
    } else if t == "rounded"@ {
        Some(HintBarStyle::Rounded)
    } else if t == "slanted"@ {
        Some(HintBarStyle::Slanted)
    } else if t == "bubbles"@ {
        Some(HintBarStyle::Bubbles)
    } else if t == "blurred"@ {
        Some(HintBarStyle::Blurred)
    } else if t == "chips"@ {
        Some(HintBarStyle::Chips)
    } else if t == "brackets"@ {
        Some(HintBarStyle::Brackets)
    } else {
        None
    }
}

/// Different styles have different display names and different
/// configuration strings.
pub proof fn hint_bar_names_unique(a: HintBarStyle, b: HintBarStyle)
    requires
        a != b,
    ensures
        hint_bar_name(a) != hint_bar_name(b),
        hint_bar_config_str(a) != hint_bar_config_str(b),
{
    hint_bar_text_round_trip(a);
    hint_bar_text_round_trip(b);
}

/// A style is found again from its display name and from its
/// configuration string.
pub proof fn hint_bar_text_round_trip(s: HintBarStyle)
    ensures
        hint_bar_by_name(hint_bar_name(s)) == Some(s),
        hint_bar_by_config(hint_bar_config_str(s)) == Some(s),
{
    reveal_strlit("Classic");
    reveal_strlit("Sharp");
    reveal_strlit("Rounded");
    reveal_strlit("Slanted");
    reveal_strlit("Bubbles");
    reveal_strlit("Blurred");
    reveal_strlit("Chips");
    reveal_strlit("Brackets");
    reveal_strlit("classic");
    reveal_strlit("sharp");
    reveal_strlit("rounded");
    reveal_strlit("slanted");
    reveal_strlit("bubbles");
    reveal_strlit("blurred");
    reveal_strlit("chips");
    reveal_strlit("brackets");
    assert("Classic"@.len() == 7);
    assert("Sharp"@.len() == 5);
    assert("Rounded"@.len() == 7);
    assert("Slanted"@.len() == 7);
    assert("Bubbles"@.len() == 7);
    assert("Blurred"@.len() == 7);
    assert("Chips"@.len() == 5);
    assert("Brackets"@.len() == 8);
    assert("classic"@.len() == 7);
    assert("sharp"@.len() == 5);
    assert("rounded"@.len() == 7);
    assert("slanted"@.len() == 7);
    assert("bubbles"@.len() == 7);
    assert("blurred"@.len() == 7);
    assert("chips"@.len() == 5);
    assert("brackets"@.len() == 8);
    assert("Classic"@[0] != "Rounded"@[0]);
    assert("Classic"@[0] != "Slanted"@[0]);
    assert("Classic"@[0] != "Bubbles"@[0]);
    assert("Classic"@[0] != "Blurred"@[0]);
    assert("Sharp"@[0] != "Chips"@[0]);
    assert("Rounded"@[0] != "Slanted"@[0]);
    assert("Rounded"@[0] != "Bubbles"@[0]);
    assert("Rounded"@[0] != "Blurred"@[0]);
    assert("Slanted"@[0] != "Bubbles"@[0]);
    assert("Slanted"@[0] != "Blurred"@[0]);
    assert("Bubbles"@[1] != "Blurred"@[1]);
    assert("classic"@[0] != "rounded"@[0]);
    assert("classic"@[0] != "slanted"@[0]);
    assert("classic"@[0] != "bubbles"@[0]);
    assert("classic"@[0] != "blurred"@[0]);
    assert("sharp"@[0] != "chips"@[0]);
    assert("rounded"@[0] != "slanted"@[0]);
    assert("rounded"@[0] != "bubbles"@[0]);
    assert("rounded"@[0] != "blurred"@[0]);
    assert("slanted"@[0] != "bubbles"@[0]);
    assert("slanted"@[0] != "blurred"@[0]);
    assert("bubbles"@[1] != "blurred"@[1]);
}

} // verus!
