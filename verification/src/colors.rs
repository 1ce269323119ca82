//! Graph colors: the colors a theme gives the graph view, built from the
//! palette of a built-in theme or from the hex colors of a custom theme.
use vstd::prelude::*;
use crate::config_types::{Background, Theme};
use crate::themes::CustomGraph;
use crate::console::{utf8_size, utf8_width, width_of};
use crate::text::chars_of;
use crate::debug_log::{decimal, usize_to_decimal};

verus! {

/// A terminal color: one of the named colors, an RGB triple, or an entry
/// of the terminal's own palette.
#[derive(Debug, Clone, Copy, PartialEq, Eq, Structural)]
pub enum Color {
    Reset,
    Black,
    Red,
    Green,
    Yellow,
    Blue,
    Magenta,
    Cyan,
    Gray,
    DarkGray,
    LightRed,
    LightGreen,
    LightYellow,
    LightBlue,
    LightMagenta,
    LightCyan,
    White,
    Rgb(u8, u8, u8),
    Indexed(u8),
}

/// The colors of the graph view.
pub struct ThemeColors {
    pub node_colors: Vec<Color>,
    pub edge_color: Color,
    pub border_color: Color,
    pub label_color: Color,
    pub selected_indicator_color: Color,
    pub background_color: Option<Color>,
    pub minimap_border_color: Color,
    pub minimap_viewport_color: Color,
    pub minimap_bg_color: Option<Color>,
}

/// The graph palette of a built-in theme: eight node colors, the chrome,
/// text, foreground and background colors.
#[derive(Clone, Copy)]
pub struct Palette {
    pub n0: (u8, u8, u8),
    pub n1: (u8, u8, u8),
    pub n2: (u8, u8, u8),
    pub n3: (u8, u8, u8),
    pub n4: (u8, u8, u8),
    pub n5: (u8, u8, u8),
    pub n6: (u8, u8, u8),
    pub n7: (u8, u8, u8),
    pub chrome: (u8, u8, u8),
    pub text: (u8, u8, u8),
    pub fg: (u8, u8, u8),
    pub bg: (u8, u8, u8),
}

/// An RGB triple as a color.
pub open spec fn rgb(c: (u8, u8, u8)) -> Color {
    Color::Rgb(c.0, c.1, c.2)
}

/// The node colors of a palette, in order.
pub open spec fn palette_nodes(p: Palette) -> Seq<Color> {
    seq![rgb(p.n0), rgb(p.n1), rgb(p.n2), rgb(p.n3), rgb(p.n4), rgb(p.n5), rgb(p.n6), rgb(p.n7)]
}

/// The palette of each built-in theme; the default theme has none (it uses
/// the terminal's named colors).
pub open spec fn palette_of(theme: Theme) -> Option<Palette> {
    match theme {
        Theme::Default => None,
        Theme::TokyoNight => Some(
            Palette {
                n0: (122, 162, 247),
                n1: (187, 154, 247),
                n2: (125, 207, 255),
                n3: (224, 175, 104),
                n4: (158, 206, 106),
                n5: (247, 118, 142),
                n6: (148, 226, 213),
                n7: (255, 158, 100),
                chrome: (86, 95, 137),
                text: (203, 206, 215),
                fg: (255, 255, 255),
                bg: (26, 27, 38),
            },
        ),
        Theme::CatppuccinMocha => Some(
            Palette {
                n0: (137, 180, 250),
                n1: (203, 166, 247),
                n2: (116, 199, 236),
                n3: (249, 226, 175),
                n4: (166, 227, 161),
                n5: (245, 189, 220),
                n6: (242, 205, 205),
                n7: (250, 179, 135),
                chrome: (108, 112, 134),
                text: (205, 214, 244),
                fg: (205, 214, 244),
                bg: (30, 30, 46),
            },
        ),
        Theme::Onedark => Some(
            Palette {
                n0: (97, 175, 239),
                n1: (198, 120, 221),
                n2: (86, 182, 194),
                n3: (229, 192, 123),
                n4: (152, 195, 121),
                n5: (224, 108, 117),
                n6: (224, 150, 108),
                n7: (171, 178, 191),
                chrome: (92, 99, 112),
                text: (171, 178, 191),
                fg: (220, 223, 228),
                bg: (40, 44, 52),
            },
        ),
        Theme::Gruvbox => Some(
            Palette {
                n0: (184, 187, 38),
                n1: (215, 153, 33),
                n2: (204, 94, 74),
                n3: (214, 93, 14),
                n4: (104, 157, 106),
                n5: (131, 165, 152),
                n6: (146, 131, 116),
                n7: (254, 128, 25),
                chrome: (102, 92, 84),
                text: (235, 219, 178),
                fg: (251, 241, 199),
                bg: (40, 40, 40),
            },
        ),
        Theme::Dracula => Some(
            Palette {
                n0: (139, 233, 253),
                n1: (189, 147, 249),
                n2: (139, 233, 253),
                n3: (255, 184, 108),
                n4: (80, 250, 123),
                n5: (255, 121, 198),
                n6: (255, 139, 127),
                n7: (255, 255, 150),
                chrome: (98, 114, 164),
                text: (248, 248, 242),
                fg: (255, 255, 255),
                bg: (40, 42, 54),
            },
        ),
        Theme::Nord => Some(
            Palette {
                n0: (136, 192, 208),
                n1: (143, 188, 187),
                n2: (163, 190, 140),
                n3: (235, 219, 178),
                n4: (214, 140, 140),
                n5: (216, 170, 133),
                n6: (200, 200, 200),
                n7: (163, 190, 140),
                chrome: (108, 120, 140),
                text: (216, 222, 233),
                fg: (236, 239, 244),
                bg: (46, 52, 64),
            },
        ),
        Theme::RosePine => Some(
            Palette {
                n0: (180, 142, 173),
                n1: (234, 154, 151),
                n2: (156, 207, 216),
                n3: (246, 193, 119),
                n4: (155, 138, 221),
                n5: (235, 111, 146),
                n6: (159, 188, 198),
                n7: (209, 193, 168),
                chrome: (102, 110, 129),
                text: (87, 82, 121),
                fg: (87, 82, 121),
                bg: (40, 37, 61),
            },
        ),
        Theme::Everforest => Some(
            Palette {
                n0: (255, 215, 89),
                n1: (255, 143, 105),
                n2: (129, 204, 165),
                n3: (100, 200, 218),
                n4: (150, 205, 255),
                n5: (220, 150, 255),
                n6: (255, 180, 120),
                n7: (200, 230, 150),
                chrome: (95, 120, 102),
                text: (60, 76, 67),
                fg: (60, 76, 67),
                bg: (30, 38, 34),
            },
        ),
        Theme::Kanagawa => Some(
            Palette {
                n0: (147, 191, 254),
                n1: (255, 158, 181),
                n2: (203, 166, 247),
                n3: (137, 180, 130),
                n4: (247, 234, 168),
                n5: (255, 173, 130),
                n6: (125, 196, 228),
                n7: (242, 205, 205),
                chrome: (95, 115, 135),
                text: (98, 114, 164),
                fg: (98, 114, 164),
                bg: (26, 30, 48),
            },
        ),
        Theme::Solarized => Some(
            Palette {
                n0: (181, 137, 0),
                n1: (203, 75, 22),
                n2: (220, 50, 47),
                n3: (211, 54, 130),
                n4: (108, 113, 196),
                n5: (38, 139, 210),
                n6: (42, 161, 152),
                n7: (133, 153, 0),
                chrome: (147, 161, 161),
                text: (131, 148, 150),
                fg: (253, 246, 227),
                bg: (0, 43, 54),
            },
        ),
        Theme::CatppuccinFrappe => Some(
            Palette {
                n0: (202, 158, 230),
                n1: (244, 184, 228),
                n2: (140, 170, 238),
                n3: (231, 130, 132),
                n4: (166, 209, 137),
                n5: (234, 153, 156),
                n6: (153, 209, 219),
                n7: (239, 159, 118),
                chrome: (115, 121, 148),
                text: (198, 208, 245),
                fg: (181, 191, 226),
                bg: (48, 52, 70),
            },
        ),
        Theme::CatppuccinMacchiato => Some(
            Palette {
                n0: (198, 160, 246),
                n1: (245, 189, 230),
                n2: (138, 173, 244),
                n3: (237, 135, 150),
                n4: (166, 218, 149),
                n5: (238, 153, 160),
                n6: (145, 215, 227),
                n7: (245, 169, 127),
                chrome: (110, 115, 141),
                text: (202, 211, 245),
                fg: (184, 192, 224),
                bg: (36, 39, 58),
            },
        ),
        Theme::RosePineMoon => Some(
            Palette {
                n0: (196, 167, 231),
                n1: (235, 188, 186),
                n2: (62, 143, 176),
                n3: (246, 193, 119),
                n4: (156, 207, 216),
                n5: (235, 111, 146),
                n6: (110, 106, 134),
                n7: (235, 188, 186),
                chrome: (96, 92, 116),
                text: (224, 222, 244),
                fg: (224, 222, 244),
                bg: (35, 33, 54),
            },
        ),
        Theme::GruvboxMaterial => Some(
            Palette {
                n0: (215, 153, 33),
                n1: (211, 134, 155),
                n2: (125, 174, 163),
                n3: (234, 157, 52),
                n4: (169, 182, 101),
                n5: (234, 105, 98),
                n6: (137, 180, 130),
                n7: (240, 235, 215),
                chrome: (108, 100, 96),
                text: (235, 219, 178),
                fg: (251, 241, 199),
                bg: (40, 40, 40),
            },
        ),
        Theme::GithubDark => Some(
            Palette {
                n0: (88, 166, 255),
                n1: (188, 140, 255),
                n2: (63, 185, 80),
                n3: (210, 153, 34),
                n4: (255, 123, 114),
                n5: (248, 81, 73),
                n6: (57, 210, 190),
                n7: (139, 148, 158),
                chrome: (100, 108, 120),
                text: (201, 209, 217),
                fg: (255, 255, 255),
                bg: (13, 17, 23),
            },
        ),
        Theme::AyuMirage => Some(
            Palette {
                n0: (255, 204, 102),
                n1: (255, 167, 89),
                n2: (115, 184, 255),
                n3: (247, 135, 121),
                n4: (135, 201, 105),
                n5: (255, 167, 89),
                n6: (57, 191, 204),
                n7: (193, 202, 214),
                chrome: (100, 110, 125),
                text: (203, 204, 198),
                fg: (255, 255, 255),
                bg: (31, 36, 48),
            },
        ),
        Theme::Synthwave => Some(
            Palette {
                n0: (255, 126, 219),
                n1: (54, 249, 242),
                n2: (123, 130, 149),
                n3: (255, 123, 114),
                n4: (114, 241, 184),
                n5: (254, 68, 68),
                n6: (253, 226, 143),
                n7: (152, 154, 206),
                chrome: (108, 103, 131),
                text: (248, 248, 242),
                fg: (255, 255, 255),
                bg: (36, 29, 53),
            },
        ),
        Theme::Material => Some(
            Palette {
                n0: (130, 170, 255),
                n1: (199, 146, 234),
                n2: (255, 203, 107),
                n3: (247, 140, 108),
                n4: (195, 232, 141),
                n5: (240, 113, 120),
                n6: (137, 221, 255),
                n7: (255, 139, 174),
                chrome: (80, 80, 80),
                text: (238, 255, 255),
                fg: (255, 255, 255),
                bg: (28, 28, 28),
            },
        ),
    }
}

/// The palette of a built-in theme.
pub fn palette(theme: Theme) -> (r: Option<Palette>)
    ensures
        r == palette_of(theme),
{
    match theme {
        Theme::Default => None,
        Theme::TokyoNight => Some(
            Palette {
                n0: (122, 162, 247),
                n1: (187, 154, 247),
                n2: (125, 207, 255),
                n3: (224, 175, 104),
                n4: (158, 206, 106),
                n5: (247, 118, 142),
                n6: (148, 226, 213),
                n7: (255, 158, 100),
                chrome: (86, 95, 137),
                text: (203, 206, 215),
                fg: (255, 255, 255),
                bg: (26, 27, 38),
            },
        ),
        Theme::CatppuccinMocha => Some(
            Palette {
                n0: (137, 180, 250),
                n1: (203, 166, 247),
                n2: (116, 199, 236),
                n3: (249, 226, 175),
                n4: (166, 227, 161),
                n5: (245, 189, 220),
                n6: (242, 205, 205),
                n7: (250, 179, 135),
                chrome: (108, 112, 134),
                text: (205, 214, 244),
                fg: (205, 214, 244),
                bg: (30, 30, 46),
            },
        ),
        Theme::Onedark => Some(
            Palette {
                n0: (97, 175, 239),
                n1: (198, 120, 221),
                n2: (86, 182, 194),
                n3: (229, 192, 123),
                n4: (152, 195, 121),
                n5: (224, 108, 117),
                n6: (224, 150, 108),
                n7: (171, 178, 191),
                chrome: (92, 99, 112),
                text: (171, 178, 191),
                fg: (220, 223, 228),
                bg: (40, 44, 52),
            },
        ),
        Theme::Gruvbox => Some(
            Palette {
                n0: (184, 187, 38),
                n1: (215, 153, 33),
                n2: (204, 94, 74),
                n3: (214, 93, 14),
                n4: (104, 157, 106),
                n5: (131, 165, 152),
                n6: (146, 131, 116),
                n7: (254, 128, 25),
                chrome: (102, 92, 84),
                text: (235, 219, 178),
                fg: (251, 241, 199),
                bg: (40, 40, 40),
            },
        ),
        Theme::Dracula => Some(
            Palette {
                n0: (139, 233, 253),
                n1: (189, 147, 249),
                n2: (139, 233, 253),
                n3: (255, 184, 108),
                n4: (80, 250, 123),
                n5: (255, 121, 198),
                n6: (255, 139, 127),
                n7: (255, 255, 150),
                chrome: (98, 114, 164),
                text: (248, 248, 242),
                fg: (255, 255, 255),
                bg: (40, 42, 54),
            },
        ),
        Theme::Nord => Some(
            Palette {
                n0: (136, 192, 208),
                n1: (143, 188, 187),
                n2: (163, 190, 140),
                n3: (235, 219, 178),
                n4: (214, 140, 140),
                n5: (216, 170, 133),
                n6: (200, 200, 200),
                n7: (163, 190, 140),
                chrome: (108, 120, 140),
                text: (216, 222, 233),
                fg: (236, 239, 244),
                bg: (46, 52, 64),
            },
        ),
        Theme::RosePine => Some(
            Palette {
                n0: (180, 142, 173),
                n1: (234, 154, 151),
                n2: (156, 207, 216),
                n3: (246, 193, 119),
                n4: (155, 138, 221),
                n5: (235, 111, 146),
                n6: (159, 188, 198),
                n7: (209, 193, 168),
                chrome: (102, 110, 129),
                text: (87, 82, 121),
                fg: (87, 82, 121),
                bg: (40, 37, 61),
            },
        ),
        Theme::Everforest => Some(
            Palette {
                n0: (255, 215, 89),
                n1: (255, 143, 105),
                n2: (129, 204, 165),
                n3: (100, 200, 218),
                n4: (150, 205, 255),
                n5: (220, 150, 255),
                n6: (255, 180, 120),
                n7: (200, 230, 150),
                chrome: (95, 120, 102),
                text: (60, 76, 67),
                fg: (60, 76, 67),
                bg: (30, 38, 34),
            },
        ),
        Theme::Kanagawa => Some(
            Palette {
                n0: (147, 191, 254),
                n1: (255, 158, 181),
                n2: (203, 166, 247),
                n3: (137, 180, 130),
                n4: (247, 234, 168),
                n5: (255, 173, 130),
                n6: (125, 196, 228),
                n7: (242, 205, 205),
                chrome: (95, 115, 135),
                text: (98, 114, 164),
                fg: (98, 114, 164),
                bg: (26, 30, 48),
            },
        ),
        Theme::Solarized => Some(
            Palette {
                n0: (181, 137, 0),
                n1: (203, 75, 22),
                n2: (220, 50, 47),
                n3: (211, 54, 130),
                n4: (108, 113, 196),
                n5: (38, 139, 210),
                n6: (42, 161, 152),
                n7: (133, 153, 0),
                chrome: (147, 161, 161),
                text: (131, 148, 150),
                fg: (253, 246, 227),
                bg: (0, 43, 54),
            },
        ),
        Theme::CatppuccinFrappe => Some(
            Palette {
                n0: (202, 158, 230),
                n1: (244, 184, 228),
                n2: (140, 170, 238),
                n3: (231, 130, 132),
                n4: (166, 209, 137),
                n5: (234, 153, 156),
                n6: (153, 209, 219),
                n7: (239, 159, 118),
                chrome: (115, 121, 148),
                text: (198, 208, 245),
                fg: (181, 191, 226),
                bg: (48, 52, 70),
            },
        ),
        Theme::CatppuccinMacchiato => Some(
            Palette {
                n0: (198, 160, 246),
                n1: (245, 189, 230),
                n2: (138, 173, 244),
                n3: (237, 135, 150),
                n4: (166, 218, 149),
                n5: (238, 153, 160),
                n6: (145, 215, 227),
                n7: (245, 169, 127),
                chrome: (110, 115, 141),
                text: (202, 211, 245),
                fg: (184, 192, 224),
                bg: (36, 39, 58),
            },
        ),
        Theme::RosePineMoon => Some(
            Palette {
                n0: (196, 167, 231),
                n1: (235, 188, 186),
                n2: (62, 143, 176),
                n3: (246, 193, 119),
                n4: (156, 207, 216),
                n5: (235, 111, 146),
                n6: (110, 106, 134),
                n7: (235, 188, 186),
                chrome: (96, 92, 116),
                text: (224, 222, 244),
                fg: (224, 222, 244),
                bg: (35, 33, 54),
            },
        ),
        Theme::GruvboxMaterial => Some(
            Palette {
                n0: (215, 153, 33),
                n1: (211, 134, 155),
                n2: (125, 174, 163),
                n3: (234, 157, 52),
                n4: (169, 182, 101),
                n5: (234, 105, 98),
                n6: (137, 180, 130),
                n7: (240, 235, 215),
                chrome: (108, 100, 96),
                text: (235, 219, 178),
                fg: (251, 241, 199),
                bg: (40, 40, 40),
            },
        ),
        Theme::GithubDark => Some(
            Palette {
                n0: (88, 166, 255),
                n1: (188, 140, 255),
                n2: (63, 185, 80),
                n3: (210, 153, 34),
                n4: (255, 123, 114),
                n5: (248, 81, 73),
                n6: (57, 210, 190),
                n7: (139, 148, 158),
                chrome: (100, 108, 120),
                text: (201, 209, 217),
                fg: (255, 255, 255),
                bg: (13, 17, 23),
            },
        ),
        Theme::AyuMirage => Some(
            Palette {
                n0: (255, 204, 102),
                n1: (255, 167, 89),
                n2: (115, 184, 255),
                n3: (247, 135, 121),
                n4: (135, 201, 105),
                n5: (255, 167, 89),
                n6: (57, 191, 204),
                n7: (193, 202, 214),
                chrome: (100, 110, 125),
                text: (203, 204, 198),
                fg: (255, 255, 255),
                bg: (31, 36, 48),
            },
        ),
        Theme::Synthwave => Some(
            Palette {
                n0: (255, 126, 219),
                n1: (54, 249, 242),
                n2: (123, 130, 149),
                n3: (255, 123, 114),
                n4: (114, 241, 184),
                n5: (254, 68, 68),
                n6: (253, 226, 143),
                n7: (152, 154, 206),
                chrome: (108, 103, 131),
                text: (248, 248, 242),
                fg: (255, 255, 255),
                bg: (36, 29, 53),
            },
        ),
        Theme::Material => Some(
            Palette {
                n0: (130, 170, 255),
                n1: (199, 146, 234),
                n2: (255, 203, 107),
                n3: (247, 140, 108),
                n4: (195, 232, 141),
                n5: (240, 113, 120),
                n6: (137, 221, 255),
                n7: (255, 139, 174),
                chrome: (80, 80, 80),
                text: (238, 255, 255),
                fg: (255, 255, 255),
                bg: (28, 28, 28),
            },
        ),
    }
}

/// The graph colors of a palette: its node colors; the chrome color for
/// edges, borders and the minimap border; the text color for labels; the
/// foreground for the selection and the minimap viewport; the background
/// when the background is solid, and always for the minimap.
pub open spec fn palette_colors_ok(r: ThemeColors, p: Palette, background: Background) -> bool {
    &&& r.node_colors@ == palette_nodes(p)
    &&& r.edge_color == rgb(p.chrome)
    &&& r.border_color == rgb(p.chrome)
    &&& r.label_color == rgb(p.text)
    &&& r.selected_indicator_color == rgb(p.fg)
    &&& r.background_color == (match background {
        Background::Transparent => None,
        Background::Solid => Some(rgb(p.bg)),
    })
    &&& r.minimap_border_color == rgb(p.chrome)
    &&& r.minimap_viewport_color == rgb(p.fg)
    &&& r.minimap_bg_color == Some(rgb(p.bg))
}

/// The graph colors of a palette.
pub fn build_palette(p: Palette, background: Background) -> (r: ThemeColors)
    ensures
        palette_colors_ok(r, p, background),
{
    let mut nodes: Vec<Color> = Vec::new();
    nodes.push(Color::Rgb(p.n0.0, p.n0.1, p.n0.2));
    nodes.push(Color::Rgb(p.n1.0, p.n1.1, p.n1.2));
    nodes.push(Color::Rgb(p.n2.0, p.n2.1, p.n2.2));
    nodes.push(Color::Rgb(p.n3.0, p.n3.1, p.n3.2));
    nodes.push(Color::Rgb(p.n4.0, p.n4.1, p.n4.2));
    nodes.push(Color::Rgb(p.n5.0, p.n5.1, p.n5.2));
    nodes.push(Color::Rgb(p.n6.0, p.n6.1, p.n6.2));
    nodes.push(Color::Rgb(p.n7.0, p.n7.1, p.n7.2));
    assert(nodes@ =~= palette_nodes(p));
    let chrome = Color::Rgb(p.chrome.0, p.chrome.1, p.chrome.2);
    let text = Color::Rgb(p.text.0, p.text.1, p.text.2);
    let fg = Color::Rgb(p.fg.0, p.fg.1, p.fg.2);
    let bg = Color::Rgb(p.bg.0, p.bg.1, p.bg.2);
    ThemeColors {
        node_colors: nodes,
        edge_color: chrome,
        border_color: chrome,
        label_color: text,
        selected_indicator_color: fg,
        background_color: match background {
            Background::Transparent => None,
            Background::Solid => Some(bg),
        },
        minimap_border_color: chrome,
        minimap_viewport_color: fg,
        minimap_bg_color: Some(bg),
    }
}

/// The node colors of the default theme.
pub open spec fn default_nodes() -> Seq<Color> {
    seq![
        Color::Cyan,
        Color::Magenta,
        Color::Blue,
        Color::Yellow,
        Color::Green,
        Color::Red,
        Color::LightCyan,
        Color::LightMagenta,
    ]
}

/// The graph colors of the default theme, in the terminal's named colors.
pub open spec fn default_colors_ok(r: ThemeColors, background: Background) -> bool {
    &&& r.node_colors@ == default_nodes()
    &&& r.edge_color == Color::DarkGray
    &&& r.border_color == Color::DarkGray
    &&& r.label_color == Color::Gray
    &&& r.selected_indicator_color == Color::Reset
    &&& r.background_color == (match background {
        Background::Transparent => None,
        Background::Solid => Some(Color::Black),
    })
    &&& r.minimap_border_color == Color::DarkGray
    &&& r.minimap_viewport_color == Color::White
    &&& r.minimap_bg_color == Some(Color::Black)
}

/// The graph colors of the default theme.
pub fn default_theme_colors(background: Background) -> (r: ThemeColors)
    ensures
        default_colors_ok(r, background),
{
    let mut nodes: Vec<Color> = Vec::new();
    nodes.push(Color::Cyan);
    nodes.push(Color::Magenta);
    nodes.push(Color::Blue);
    nodes.push(Color::Yellow);
    nodes.push(Color::Green);
    nodes.push(Color::Red);
    nodes.push(Color::LightCyan);
    nodes.push(Color::LightMagenta);
    assert(nodes@ =~= default_nodes());
    ThemeColors {
        node_colors: nodes,
        edge_color: Color::DarkGray,
        border_color: Color::DarkGray,
        label_color: Color::Gray,
        selected_indicator_color: Color::Reset,
        background_color: match background {
            Background::Transparent => None,
            Background::Solid => Some(Color::Black),
        },
        minimap_border_color: Color::DarkGray,
        minimap_viewport_color: Color::White,
        minimap_bg_color: Some(Color::Black),
    }
}

/// The graph colors of a built-in theme.
pub fn theme_colors(theme: Theme, background: Background) -> (r: ThemeColors)
    ensures
        match palette_of(theme) {
            Some(p) => palette_colors_ok(r, p, background),
            None => default_colors_ok(r, background),
        },
{
    match palette(theme) {
        Some(p) => build_palette(p, background),
        None => default_theme_colors(background),
    }
}


/// The value of a hex digit, if `c` is one.
pub open spec fn hex_digit(c: char) -> Option<u8> {
    if '0' <= c && c <= '9' {
        Some(((c as u32) - 48) as u8)
    } else if 'a' <= c && c <= 'f' {
        Some(((c as u32) - 87) as u8)
    } else if 'A' <= c && c <= 'F' {
        Some(((c as u32) - 55) as u8)
    } else {
        None
    }
}

/// `u8::from_str_radix` in base 16 on a two-character ASCII text `a b`: a
/// leading `+` is allowed before one digit.
pub open spec fn hex_pair(a: char, b: char) -> Option<u8> {
    if a == '+' {
        hex_digit(b)
    } else {
        match (hex_digit(a), hex_digit(b)) {
            (Some(x), Some(y)) => Some((16 * x + y) as u8),
            _ => None,
        }
    }
}

/// Whether every character of a text is ASCII.
pub open spec fn ascii_only(s: Seq<char>) -> bool {
    forall|i: int| 0 <= i < s.len() ==> (#[trigger] s[i] as u32) < 128
}

/// The text after a leading `#`, when there is one.
pub open spec fn after_hash(s: Seq<char>) -> Option<Seq<char>> {
    if s.len() > 0 && s[0] == '#' {
        Some(s.skip(1))
    } else {
        None
    }
}

/// Where `parse_hex_color` cuts a six-byte text that is not all ASCII in
/// the middle of a character, which Rust refuses with a panic: at byte 2,
/// or at byte 4 once the first pair has parsed.
pub open spec fn hex_cut_splits_char(rest: Seq<char>) -> bool {
    &&& utf8_size(rest) == 6
    &&& !ascii_only(rest)
    &&& {
        let w0 = utf8_width(rest[0]);
        ||| w0 >= 3
        ||| (w0 == 1 && utf8_width(rest[1]) > 1)
        ||| (w0 == 1 && utf8_width(rest[1]) == 1 && hex_pair(rest[0], rest[1]) is Some && (
        utf8_width(rest[2]) >= 3 || (utf8_width(rest[2]) == 1 && utf8_width(rest[3]) > 1)))
    }
}

/// The inputs on which `parse_hex_color` returns rather than panicking.
pub open spec fn hex_color_input_ok(s: Seq<char>) -> bool {
    match after_hash(s) {
        Some(rest) => !hex_cut_splits_char(rest),
        None => true,
    }
}

/// The color a `#rrggbb` text denotes: a `#` and six more bytes, read as
/// three hex pairs; `None` for anything else.
pub open spec fn hex_color(s: Seq<char>) -> Option<(u8, u8, u8)> {
    match after_hash(s) {
        Some(rest) => if utf8_size(rest) == 6 && ascii_only(rest) && rest.len() == 6 {
            match (hex_pair(rest[0], rest[1]), hex_pair(rest[2], rest[3]), hex_pair(rest[4], rest[5])) {
                (Some(r), Some(g), Some(b)) => Some((r, g, b)),
                _ => None,
            }
        } else {
            None
        },
        None => None,
    }
}

/// The value of a hex digit.
fn hex_digit_of(c: char) -> (r: Option<u8>)
    ensures
        r == hex_digit(c),
{
    if '0' <= c && c <= '9' {
        Some(((c as u32) - 48) as u8)
    } else if 'a' <= c && c <= 'f' {
        Some(((c as u32) - 87) as u8)
    } else if 'A' <= c && c <= 'F' {
        Some(((c as u32) - 55) as u8)
    } else {
        None
    }
}

/// A hex pair.
fn hex_pair_of(a: char, b: char) -> (r: Option<u8>)
    ensures
        r == hex_pair(a, b),
{
    if a == '+' {
        hex_digit_of(b)
    } else {
        match (hex_digit_of(a), hex_digit_of(b)) {
            (Some(x), Some(y)) => Some(16 * x + y),
            _ => None,
        }
    }
}

/// The byte size of a text is at least its length, and a text of six or
/// fewer bytes whose size equals its length is all ASCII.
proof fn lemma_size_len(s: Seq<char>)
    ensures
        utf8_size(s) >= s.len(),
        utf8_size(s) == s.len() ==> ascii_only(s),
    decreases s.len(),
{
    if s.len() > 0 {
        lemma_size_len(s.drop_last());
        if utf8_size(s) == s.len() {
            assert forall|i: int| 0 <= i < s.len() implies (#[trigger] s[i] as u32) < 128 by {
                if i < s.len() - 1 {
                    assert(s.drop_last()[i] == s[i]);
                }
            }
        }
    }
}

/// Reads a `#rrggbb` color. Each of the three pairs is read as
/// `u8::from_str_radix` in base 16 reads it, so a pair may be `+` and one
/// digit.
pub fn parse_hex_color(s: &str) -> (r: Option<(u8, u8, u8)>)
    requires
        hex_color_input_ok(s@),
    ensures
        r == hex_color(s@),
{
    let cs = chars_of(s);
    if cs.len() == 0 || cs[0] != '#' {
        return None;
    }
    let ghost rest = cs@.skip(1);
    let n = cs.len() - 1;
    let mut size: usize = 0;
    let mut i: usize = 1;
    while i < cs.len()
        invariant
            cs@ == s@,
            rest == cs@.skip(1),
            1 <= i <= cs@.len(),
            size == utf8_size(rest.take(i - 1)),
            size <= 6,
        decreases cs@.len() - i,
    {
        let w = width_of(cs[i]);
        proof {
            assert(rest.take(i as int).drop_last() == rest.take(i - 1));
            assert(rest.take(i as int).last() == cs@[i as int]);
        }
        if size + w > 6 {
            proof {
                crate::console::lemma_utf8_size_prefix(rest, i as int);
            }
            return None;
        }
        size = size + w;
        i = i + 1;
    }
    proof {
        assert(rest.take(rest.len() as int) == rest);
    }
    if size != 6 {
        return None;
    }
    proof {
        lemma_size_len(rest);
    }
    if n != 6 {
        proof {
            if ascii_only(rest) {
                lemma_ascii_size(rest);
            }
        }
        return None;
    }
    proof {
        lemma_ascii_size(rest);
        assert forall|k: int| 0 <= k < 6 implies rest[k] == cs@[k + 1] by {}
    }
    let mut all_ascii = true;
    let mut k: usize = 1;
    while k < 7
        invariant
            cs@.len() == 7,
            1 <= k <= 7,
            all_ascii == (forall|j: int| 1 <= j < k ==> (cs@[j] as u32) < 128),
        decreases 7 - k,
    {
        if (cs[k] as u32) >= 128 {
            all_ascii = false;
        }
        k = k + 1;
    }
    if !all_ascii {
        proof {
            assert(!ascii_only(rest)) by {
                let j = choose|j: int| 1 <= j < 7 && !((cs@[j] as u32) < 128);
                assert(rest[j - 1] == cs@[j]);
            }
        }
        return None;
    }
    proof {
        assert(ascii_only(rest));
    }
    match (hex_pair_of(cs[1], cs[2]), hex_pair_of(cs[3], cs[4]), hex_pair_of(cs[5], cs[6])) {
        (Some(r), Some(g), Some(b)) => Some((r, g, b)),
        _ => None,
    }
}

/// An ASCII text has as many bytes as characters.
proof fn lemma_ascii_size(s: Seq<char>)
    requires
        ascii_only(s),
    ensures
        utf8_size(s) == s.len(),
    decreases s.len(),
{
    if s.len() > 0 {
        assert(ascii_only(s.drop_last()));
        lemma_ascii_size(s.drop_last());
        assert((s.last() as u32) < 128);
    }
}


/// The colors that the hex strings of `nodes` denote, skipping those that
/// are not colors.
pub open spec fn parsed_colors(nodes: Seq<Seq<char>>) -> Seq<Color>
    decreases nodes.len(),
{
    if nodes.len() == 0 {
        Seq::empty()
    } else {
        let earlier = parsed_colors(nodes.drop_last());
        match hex_color(nodes.last()) {
            Some(c) => earlier.push(rgb(c)),
            None => earlier,
        }
    }
}

/// The node colors of a custom theme: the first eight colors it gives,
/// padded to eight with its first color (cyan when it gives none).
pub open spec fn custom_nodes(nodes: Seq<Seq<char>>) -> Seq<Color> {
    let parsed = parsed_colors(nodes);
    let fill = if parsed.len() > 0 {
        parsed[0]
    } else {
        Color::Cyan
    };
    if parsed.len() >= 8 {
        parsed.take(8)
    } else {
        parsed + Seq::new((8 - parsed.len()) as nat, |_i: int| fill)
    }
}

/// A hex color, or `Reset` when the text is not one.
pub open spec fn color_or_reset(s: Seq<char>) -> Color {
    match hex_color(s) {
        Some(c) => rgb(c),
        None => Color::Reset,
    }
}

/// The hex strings of a custom graph palette are ones `parse_hex_color`
/// reads without panicking.
pub open spec fn custom_graph_input_ok(g: &CustomGraph) -> bool {
    &&& forall|i: int| 0 <= i < g.nodes@.len() ==> hex_color_input_ok(#[trigger] g.nodes@[i]@)
    &&& hex_color_input_ok(g.chrome@)
    &&& hex_color_input_ok(g.text@)
    &&& hex_color_input_ok(g.fg@)
    &&& (g.bg matches Some(b) ==> hex_color_input_ok(b@))
}

/// The views of a list of strings.
pub open spec fn text_views(v: Seq<String>) -> Seq<Seq<char>> {
    v.map_values(|s: String| s@)
}

/// A hex color, or `Reset`.
fn parse_or_reset(s: &str) -> (r: Color)
    requires
        hex_color_input_ok(s@),
    ensures
        r == color_or_reset(s@),
{
    match parse_hex_color(s) {
        Some(c) => Color::Rgb(c.0, c.1, c.2),
        None => Color::Reset,
    }
}

/// The graph colors of a custom theme: its node colors (always eight, see
/// `custom_nodes`); chrome, text and foreground as for a palette, `Reset`
/// where not a color; its background when solid, and for the minimap its
/// background or black.
pub fn custom_theme_colors(g: &CustomGraph, background: Background) -> (r: ThemeColors)
    requires
        custom_graph_input_ok(g),
    ensures
        r.node_colors@ == custom_nodes(text_views(g.nodes@)),
        r.node_colors@.len() == 8,
        r.edge_color == color_or_reset(g.chrome@),
        r.border_color == color_or_reset(g.chrome@),
        r.label_color == color_or_reset(g.text@),
        r.selected_indicator_color == color_or_reset(g.fg@),
        r.minimap_border_color == color_or_reset(g.chrome@),
        r.minimap_viewport_color == color_or_reset(g.fg@),
        ({
            let bg: Option<Color> = match g.bg {
                Some(b) => match hex_color(b@) {
                    Some(c) => Some(rgb(c)),
                    None => None,
                },
                None => None,
            };
            &&& r.background_color == (match background {
                Background::Transparent => None,
                Background::Solid => bg,
            })
            &&& r.minimap_bg_color == (match bg {
                Some(c) => Some(c),
                None => Some(Color::Black),
            })
        }),
{
    let ghost names = text_views(g.nodes@);
    let mut parsed: Vec<Color> = Vec::new();
    let mut i: usize = 0;
    while i < g.nodes.len()
        invariant
            names == text_views(g.nodes@),
            forall|k: int| 0 <= k < g.nodes@.len() ==> hex_color_input_ok(#[trigger] g.nodes@[k]@),
            i <= g.nodes@.len(),
            parsed@ == parsed_colors(names.take(i as int)),
        decreases g.nodes@.len() - i,
    {
        proof {
            assert(names.take(i + 1).drop_last() == names.take(i as int));
            assert(names.take(i + 1).last() == g.nodes@[i as int]@);
        }
        match parse_hex_color(g.nodes[i].as_str()) {
            Some(c) => parsed.push(Color::Rgb(c.0, c.1, c.2)),
            None => {},
        }
        i = i + 1;
    }
    proof {
        assert(names.take(names.len() as int) == names);
    }
    let fill = if parsed.len() > 0 {
        parsed[0]
    } else {
        Color::Cyan
    };
    let ghost all = parsed@;
    let node_colors = if parsed.len() >= 8 {
        let mut v: Vec<Color> = Vec::new();
        let mut k: usize = 0;
        while k < 8
            invariant
                parsed@ == all,
                all.len() >= 8,
                k <= 8,
                v@ == all.take(k as int),
            decreases 8 - k,
        {
            v.push(parsed[k]);
            k = k + 1;
            assert(v@ =~= all.take(k as int));
        }
        v
    } else {
        let mut v = parsed;
        while v.len() < 8
            invariant
                all.len() < 8,
                all.len() <= v@.len() <= 8,
                v@ == all + Seq::new((v@.len() - all.len()) as nat, |_i: int| fill),
            decreases 8 - v@.len(),
        {
            v.push(fill);
            assert(v@ =~= all + Seq::new((v@.len() - all.len()) as nat, |_i: int| fill));
        }
        v
    };
    let chrome = parse_or_reset(g.chrome.as_str());
    let text = parse_or_reset(g.text.as_str());
    let fg = parse_or_reset(g.fg.as_str());
    let bg_color: Option<Color> = match &g.bg {
        Some(b) => match parse_hex_color(b.as_str()) {
            Some(c) => Some(Color::Rgb(c.0, c.1, c.2)),
            None => None,
        },
        None => None,
    };
    ThemeColors {
        node_colors,
        edge_color: chrome,
        border_color: chrome,
        label_color: text,
        selected_indicator_color: fg,
        background_color: match background {
            Background::Transparent => None,
            Background::Solid => bg_color,
        },
        minimap_border_color: chrome,
        minimap_viewport_color: fg,
        minimap_bg_color: match bg_color {
            Some(c) => Some(c),
            None => Some(Color::Black),
        },
    }
}


/// The lowercase hex digit of a value below 16.
pub open spec fn hex_char(v: u8) -> char {
    if v < 10 {
        ((v as u32) + 48) as char
    } else {
        ((v as u32) + 87) as char
    }
}

/// A byte as two lowercase hex digits.
pub open spec fn hex_byte(v: u8) -> Seq<char> {
    seq![hex_char(v / 16), hex_char(v % 16)]
}

/// The name a color is written under in the configuration: `#rrggbb` in
/// lowercase hex for an RGB color, else the color's name.
pub open spec fn color_text_of(c: Color) -> Seq<char> {
    match c {
        Color::Rgb(r, g, b) => seq!['#'] + hex_byte(r) + hex_byte(g) + hex_byte(b),
        Color::Reset => "Reset"@,
        Color::Black => "Black"@,
        Color::Red => "Red"@,
        Color::Green => "Green"@,
        Color::Yellow => "Yellow"@,
        Color::Blue => "Blue"@,
        Color::Magenta => "Magenta"@,
        Color::Cyan => "Cyan"@,
        Color::Gray => "Gray"@,
        Color::DarkGray => "DarkGray"@,
        Color::LightRed => "LightRed"@,
        Color::LightGreen => "LightGreen"@,
        Color::LightYellow => "LightYellow"@,
        Color::LightBlue => "LightBlue"@,
        Color::LightMagenta => "LightMagenta"@,
        Color::LightCyan => "LightCyan"@,
        Color::White => "White"@,
        Color::Indexed(i) => "Indexed("@ + decimal(i as nat) + ")"@,
    }
}

fn hex_char_of(v: u8) -> (r: char)
    requires
        v < 16,
    ensures
        r == hex_char(v),
{
    if v < 10 {
        ((v as u32) + 48) as u8 as char
    } else {
        ((v as u32) + 87) as u8 as char
    }
}

/// The name a color is written under in the configuration.
pub fn color_text(c: Color) -> (r: String)
    ensures
        r@ == color_text_of(c),
{
    match c {
        Color::Rgb(r, g, b) => {
            let mut s = String::new();
            s.push('#');
            s.push(hex_char_of(r / 16));
            s.push(hex_char_of(r % 16));
            s.push(hex_char_of(g / 16));
            s.push(hex_char_of(g % 16));
            s.push(hex_char_of(b / 16));
            s.push(hex_char_of(b % 16));
            assert(s@ =~= color_text_of(c));
            s
        },
        Color::Reset => String::from_str("Reset"),
        Color::Black => String::from_str("Black"),
        Color::Red => String::from_str("Red"),
        Color::Green => String::from_str("Green"),
        Color::Yellow => String::from_str("Yellow"),
        Color::Blue => String::from_str("Blue"),
        Color::Magenta => String::from_str("Magenta"),
        Color::Cyan => String::from_str("Cyan"),
        Color::Gray => String::from_str("Gray"),
        Color::DarkGray => String::from_str("DarkGray"),
        Color::LightRed => String::from_str("LightRed"),
        Color::LightGreen => String::from_str("LightGreen"),
        Color::LightYellow => String::from_str("LightYellow"),
        Color::LightBlue => String::from_str("LightBlue"),
        Color::LightMagenta => String::from_str("LightMagenta"),
        Color::LightCyan => String::from_str("LightCyan"),
        Color::White => String::from_str("White"),
        Color::Indexed(i) => {
            let mut s = String::from_str("Indexed(");
            let digits = usize_to_decimal(i as usize);
            s.append(digits.as_str());
            s.append(")");
            proof {
                reveal_strlit("Indexed(");
                reveal_strlit(")");
            }
            assert(s@ =~= color_text_of(c));
            s
        },
    }
}

/// Writing an RGB color and reading it back gives the same color.
pub proof fn hex_color_round_trip(r: u8, g: u8, b: u8)
    ensures
        hex_color_input_ok(color_text_of(Color::Rgb(r, g, b))),
        hex_color(color_text_of(Color::Rgb(r, g, b))) == Some((r, g, b)),
{
    let s = color_text_of(Color::Rgb(r, g, b));
    let rest = s.skip(1);
    assert(after_hash(s) == Some(rest));
    assert(rest =~= hex_byte(r) + hex_byte(g) + hex_byte(b));
    assert(rest.len() == 6);
    assert(ascii_only(rest)) by {
        assert forall|i: int| 0 <= i < rest.len() implies (#[trigger] rest[i] as u32) < 128 by {
            assert(r / 16 < 16 && r % 16 < 16 && g / 16 < 16 && g % 16 < 16 && b / 16 < 16 && b % 16 < 16);
        }
    }
    lemma_ascii_size(rest);
    assert(hex_digit(hex_char(r / 16)) == Some(r / 16));
    assert(hex_digit(hex_char(r % 16)) == Some(r % 16));
    assert(hex_digit(hex_char(g / 16)) == Some(g / 16));
    assert(hex_digit(hex_char(g % 16)) == Some(g % 16));
    assert(hex_digit(hex_char(b / 16)) == Some(b / 16));
    assert(hex_digit(hex_char(b % 16)) == Some(b % 16));
    assert(rest[0] != '+' && rest[2] != '+' && rest[4] != '+');
}

/// The RGB value of a named color in the standard terminal palette, or of
/// an RGB color; `Reset` and palette entries have none.
pub open spec fn rgb_of(c: Color) -> Option<(u8, u8, u8)> {
    match c {
        Color::Black => Some((0, 0, 0)),
        Color::Red => Some((128, 0, 0)),
        Color::Green => Some((0, 128, 0)),
        Color::Yellow => Some((128, 128, 0)),
        Color::Blue => Some((0, 0, 128)),
        Color::Magenta => Some((128, 0, 128)),
        Color::Cyan => Some((0, 128, 128)),
        Color::Gray => Some((192, 192, 192)),
        Color::DarkGray => Some((128, 128, 128)),
        Color::LightRed => Some((255, 0, 0)),
        Color::LightGreen => Some((0, 255, 0)),
        Color::LightYellow => Some((255, 255, 0)),
        Color::LightBlue => Some((0, 0, 255)),
        Color::LightMagenta => Some((255, 0, 255)),
        Color::LightCyan => Some((0, 255, 255)),
        Color::White => Some((255, 255, 255)),
        Color::Rgb(r, g, b) => Some((r, g, b)),
        Color::Reset | Color::Indexed(_) => None,
    }
}

/// The RGB value of a color; see `rgb_of`.
pub fn color_rgb(c: Color) -> (r: Option<(u8, u8, u8)>)
    ensures
        r == rgb_of(c),
{
    match c {
        Color::Black => Some((0, 0, 0)),
        Color::Red => Some((128, 0, 0)),
        Color::Green => Some((0, 128, 0)),
        Color::Yellow => Some((128, 128, 0)),
        Color::Blue => Some((0, 0, 128)),
        Color::Magenta => Some((128, 0, 128)),
        Color::Cyan => Some((0, 128, 128)),
        Color::Gray => Some((192, 192, 192)),
        Color::DarkGray => Some((128, 128, 128)),
        Color::LightRed => Some((255, 0, 0)),
        Color::LightGreen => Some((0, 255, 0)),
        Color::LightYellow => Some((255, 255, 0)),
        Color::LightBlue => Some((0, 0, 255)),
        Color::LightMagenta => Some((255, 0, 255)),
        Color::LightCyan => Some((0, 255, 255)),
        Color::White => Some((255, 255, 255)),
        Color::Rgb(r, g, b) => Some((r, g, b)),
        Color::Reset | Color::Indexed(_) => None,
    }
}

/// Colors the configuration sets in place of the theme's.
#[derive(Debug, Clone, Copy, PartialEq, Eq, Structural, Default)]
pub struct ColorOverrides {
    pub node_color: Option<Color>,
    pub edge_color: Option<Color>,
    pub label_color: Option<Color>,
    pub selection_ring_color: Option<Color>,
    pub border_color: Option<Color>,
    pub background_color: Option<Color>,
}

/// `c` where it is set, else `d`.
pub open spec fn or_color(c: Option<Color>, d: Color) -> Color {
    match c {
        Some(x) => x,
        None => d,
    }
}

/// The theme's colors with the overrides applied: a node color replaces
/// all node colors, the border color also colors the minimap's border, and
/// the background color also fills the minimap.
pub open spec fn overridden(r: ThemeColors, t: ThemeColors, o: ColorOverrides) -> bool {
    &&& r.node_colors@ == (match o.node_color {
        Some(c) => seq![c],
        None => t.node_colors@,
    })
    &&& r.edge_color == or_color(o.edge_color, t.edge_color)
    &&& r.label_color == or_color(o.label_color, t.label_color)
    &&& r.selected_indicator_color == or_color(o.selection_ring_color, t.selected_indicator_color)
    &&& r.border_color == or_color(o.border_color, t.border_color)
    &&& r.minimap_border_color == or_color(o.border_color, t.minimap_border_color)
    &&& r.background_color == (match o.background_color {
        Some(c) => Some(c),
        None => t.background_color,
    })
    &&& r.minimap_bg_color == (match o.background_color {
        Some(c) => Some(c),
        None => t.minimap_bg_color,
    })
    &&& r.minimap_viewport_color == t.minimap_viewport_color
}

/// Applies the configured overrides to a theme's colors.
pub fn apply_color_overrides(t: ThemeColors, o: &ColorOverrides) -> (r: ThemeColors)
    ensures
        overridden(r, t, *o),
{
    let mut colors = t;
    if let Some(c) = o.node_color {
        let mut v: Vec<Color> = Vec::new();
        v.push(c);
        colors.node_colors = v;
    }
    if let Some(c) = o.edge_color {
        colors.edge_color = c;
    }
    if let Some(c) = o.label_color {
        colors.label_color = c;
    }
    if let Some(c) = o.selection_ring_color {
        colors.selected_indicator_color = c;
    }
    if let Some(c) = o.border_color {
        colors.border_color = c;
        colors.minimap_border_color = c;
    }
    if let Some(c) = o.background_color {
        colors.background_color = Some(c);
        colors.minimap_bg_color = Some(c);
    }
    assert(colors.node_colors@ =~= (match o.node_color {
        Some(c) => seq![c],
        None => t.node_colors@,
    }));
    colors
}

/// The graph colors of the configured theme with the configured overrides.
pub fn configured_theme_colors(theme: Theme, background: Background, o: &ColorOverrides) -> (r: ThemeColors)
    ensures
        exists|t: ThemeColors|
            overridden(r, t, *o) && match palette_of(theme) {
                Some(p) => palette_colors_ok(t, p, background),
                None => default_colors_ok(t, background),
            },
{
    let t = theme_colors(theme, background);
    let ghost tg = t;
    let r = apply_color_overrides(t, o);
    assert(overridden(r, tg, *o));
    r
}


} // verus!
