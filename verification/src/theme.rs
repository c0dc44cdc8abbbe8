//! Color themes: the palette each built-in theme paints with.
use vstd::prelude::*;

use crate::loader::LoaderTheme;

verus! {

/// A terminal color: the backend's default, or a 24-bit RGB color.
#[derive(Clone, Copy, Debug, PartialEq, Eq, Structural)]
pub enum Color {
    Reset,
    Rgb(u8, u8, u8),
}

/// The palette the interface paints with.
#[derive(Clone, Copy, Debug, PartialEq, Eq, Structural)]
pub struct ColorTheme {
    pub bg: Color,
    pub bg_panel: Color,
    pub bg_element: Color,
    pub bg_hover: Color,
    pub bg_user: Color,
    pub text: Color,
    pub text_muted: Color,
    pub primary: Color,
    pub error: Color,
    pub border: Color,
    pub palette_bg: Color,
    pub palette_selected: Color,
}

/// The number of built-in themes.
pub const THEME_COUNT: usize = 34;

impl ColorTheme {
    /// A palette from its eight base colors: hover shares the element background,
    /// user messages and the palette share the panel background, and selection
    /// is always teal.
    pub open spec fn spec_new(
        bg: Color,
        bg_panel: Color,
        bg_element: Color,
        text: Color,
        text_muted: Color,
        primary: Color,
        error: Color,
        border: Color,
    ) -> ColorTheme {
        ColorTheme {
            bg,
            bg_panel,
            bg_element,
            text,
            text_muted,
            primary,
            error,
            border,
            bg_hover: bg_element,
            bg_user: bg_panel,
            palette_bg: bg_panel,
            palette_selected: Color::Rgb(0, 128, 128),
        }
    }

    fn new(
        bg: Color,
        bg_panel: Color,
        bg_element: Color,
        text: Color,
        text_muted: Color,
        primary: Color,
        error: Color,
        border: Color,
    ) -> (t: ColorTheme)
        ensures
            t == ColorTheme::spec_new(bg, bg_panel, bg_element, text, text_muted, primary, error, border),
    {
        ColorTheme {
            bg,
            bg_panel,
            bg_element,
            text,
            text_muted,
            primary,
            error,
            border,
            bg_hover: bg_element,
            bg_user: bg_panel,
            palette_bg: bg_panel,
            palette_selected: Color::Rgb(0, 128, 128),
        }
    }

    /// The palette that goes with a loader theme: the full palettes of Dracula,
    /// Gruvbox, Catppuccin, Nord, Tokyo Night and GitHub, else the OpenCode one.
    pub open spec fn spec_from_loader_theme(index: int) -> ColorTheme {
        if index == 1 || index == 2 || index == 3 || index == 6 || index == 7 || index == 16 {
            spec_theme_colors(index)
        } else {
            spec_theme_colors(0)
        }
    }

    /// The palette that goes with a loader theme: the full palettes of Dracula,
    /// Gruvbox, Catppuccin, Nord, Tokyo Night and GitHub, else the OpenCode one.
    pub fn from_loader_theme(theme: LoaderTheme) -> (t: ColorTheme)
        ensures
            t == ColorTheme::spec_from_loader_theme(theme@ as int),
    {
        let i = theme.index();
        if i == 1 || i == 2 || i == 3 || i == 6 || i == 7 || i == 16 {
            theme_colors(i)
        } else {
            theme_colors(0)
        }
    }
}

/// A dark palette derived from one gray level `base`, an accent and an error color.
pub open spec fn spec_dark_theme(base: u8, accent: Color, err: Color) -> ColorTheme {
    ColorTheme::spec_new(
        Color::Rgb(base, base, base),
        Color::Rgb((base + 10) as u8, (base + 10) as u8, (base + 10) as u8),
        Color::Rgb((base + 20) as u8, (base + 20) as u8, (base + 20) as u8),
        Color::Rgb(220, 220, 220),
        Color::Rgb(128, 128, 128),
        accent,
        err,
        Color::Rgb((base + 30) as u8, (base + 30) as u8, (base + 30) as u8),
    )
}

/// A dark palette derived from one gray level `base`, an accent and an error color.
fn dark_theme(base: u8, accent: Color, err: Color) -> (t: ColorTheme)
    requires
        base + 30 <= u8::MAX,
    ensures
        t == spec_dark_theme(base, accent, err),
{
    ColorTheme::new(
        Color::Rgb(base, base, base),
        Color::Rgb(base + 10, base + 10, base + 10),
        Color::Rgb(base + 20, base + 20, base + 20),
        Color::Rgb(220, 220, 220),
        Color::Rgb(128, 128, 128),
        accent,
        err,
        Color::Rgb(base + 30, base + 30, base + 30),
    )
}

/// The palette of the built-in theme at `index`, in the order of the loader's
/// themes: OpenCode, Dracula, Gruvbox, Catppuccin, Frappé, Macchiato, Nord,
/// Tokyo Night, Solarized, then the derived dark themes with GitHub among them.
pub open spec fn spec_theme_colors(index: int) -> ColorTheme {
    if index == 0 {
        ColorTheme::spec_new(Color::Rgb(10, 10, 10), Color::Rgb(20, 20, 20), Color::Rgb(30, 30, 30), Color::Rgb(238, 238, 238), Color::Rgb(128, 128, 128), Color::Rgb(250, 178, 131), Color::Rgb(224, 108, 117), Color::Rgb(72, 72, 72))
    } else if index == 1 {
        ColorTheme::spec_new(Color::Rgb(40, 42, 54), Color::Rgb(33, 34, 44), Color::Rgb(68, 71, 90), Color::Rgb(248, 248, 242), Color::Rgb(98, 114, 164), Color::Rgb(189, 147, 249), Color::Rgb(255, 85, 85), Color::Rgb(68, 71, 90))
    } else if index == 2 {
        ColorTheme::spec_new(Color::Rgb(40, 40, 40), Color::Rgb(60, 56, 54), Color::Rgb(80, 73, 69), Color::Rgb(235, 219, 178), Color::Rgb(146, 131, 116), Color::Rgb(131, 165, 152), Color::Rgb(251, 73, 52), Color::Rgb(102, 92, 84))
    } else if index == 3 {
        ColorTheme::spec_new(Color::Rgb(30, 30, 46), Color::Rgb(24, 24, 37), Color::Rgb(17, 17, 27), Color::Rgb(205, 214, 244), Color::Rgb(147, 153, 178), Color::Rgb(137, 180, 250), Color::Rgb(243, 139, 168), Color::Rgb(49, 50, 68))
    } else if index == 4 {
        ColorTheme::spec_new(Color::Rgb(48, 52, 70), Color::Rgb(41, 44, 60), Color::Rgb(35, 38, 52), Color::Rgb(198, 208, 245), Color::Rgb(131, 139, 167), Color::Rgb(141, 164, 226), Color::Rgb(231, 130, 132), Color::Rgb(65, 68, 89))
    } else if index == 5 {
        ColorTheme::spec_new(Color::Rgb(36, 39, 58), Color::Rgb(30, 32, 48), Color::Rgb(24, 25, 38), Color::Rgb(202, 211, 245), Color::Rgb(139, 141, 152), Color::Rgb(138, 173, 244), Color::Rgb(237, 135, 150), Color::Rgb(54, 57, 78))
    } else if index == 6 {
        ColorTheme::spec_new(Color::Rgb(46, 52, 64), Color::Rgb(59, 66, 82), Color::Rgb(67, 76, 94), Color::Rgb(236, 239, 244), Color::Rgb(139, 149, 167), Color::Rgb(136, 192, 208), Color::Rgb(191, 97, 106), Color::Rgb(67, 76, 94))
    } else if index == 7 {
        ColorTheme::spec_new(Color::Rgb(26, 27, 38), Color::Rgb(30, 32, 48), Color::Rgb(34, 36, 54), Color::Rgb(200, 211, 245), Color::Rgb(130, 139, 184), Color::Rgb(130, 170, 255), Color::Rgb(255, 117, 127), Color::Rgb(115, 122, 162))
    } else if index == 8 {
        ColorTheme::spec_new(Color::Rgb(0, 43, 54), Color::Rgb(7, 54, 66), Color::Rgb(10, 64, 76), Color::Rgb(253, 246, 227), Color::Rgb(131, 148, 150), Color::Rgb(108, 113, 196), Color::Rgb(220, 50, 47), Color::Rgb(88, 110, 117))
    } else if index == 9 {
        spec_dark_theme(25, Color::Rgb(156, 207, 216), Color::Rgb(235, 111, 146))
    } else if index == 10 {
        spec_dark_theme(10, Color::Rgb(63, 183, 227), Color::Rgb(240, 113, 120))
    } else if index == 11 {
        spec_dark_theme(30, Color::Rgb(174, 129, 255), Color::Rgb(249, 38, 114))
    } else if index == 12 {
        spec_dark_theme(30, Color::Rgb(97, 175, 239), Color::Rgb(224, 108, 117))
    } else if index == 13 {
        spec_dark_theme(31, Color::Rgb(126, 156, 216), Color::Rgb(195, 74, 71))
    } else if index == 14 {
        spec_dark_theme(26, Color::Rgb(130, 170, 255), Color::Rgb(240, 113, 120))
    } else if index == 15 {
        spec_dark_theme(39, Color::Rgb(167, 192, 128), Color::Rgb(230, 126, 128))
    } else if index == 16 {
        ColorTheme::spec_new(Color::Rgb(13, 17, 23), Color::Rgb(1, 4, 9), Color::Rgb(22, 27, 34), Color::Rgb(201, 209, 217), Color::Rgb(139, 148, 158), Color::Rgb(88, 166, 255), Color::Rgb(248, 81, 73), Color::Rgb(48, 54, 61))
    } else if index == 17 {
        spec_dark_theme(0, Color::Rgb(179, 136, 255), Color::Rgb(255, 85, 85))
    } else if index == 18 {
        spec_dark_theme(21, Color::Rgb(162, 119, 255), Color::Rgb(255, 102, 103))
    } else if index == 19 {
        spec_dark_theme(22, Color::Rgb(51, 177, 255), Color::Rgb(238, 85, 150))
    } else if index == 20 {
        spec_dark_theme(25, Color::Rgb(0, 136, 255), Color::Rgb(255, 98, 140))
    } else if index == 21 {
        spec_dark_theme(26, Color::Rgb(136, 192, 208), Color::Rgb(191, 97, 106))
    } else if index == 22 {
        spec_dark_theme(16, Color::Rgb(218, 112, 44), Color::Rgb(209, 77, 65))
    } else if index == 23 {
        spec_dark_theme(10, Color::Rgb(46, 255, 106), Color::Rgb(255, 51, 51))
    } else if index == 24 {
        spec_dark_theme(26, Color::Rgb(141, 164, 245), Color::Rgb(240, 113, 120))
    } else if index == 25 {
        spec_dark_theme(1, Color::Rgb(130, 170, 255), Color::Rgb(239, 83, 80))
    } else if index == 26 {
        spec_dark_theme(29, Color::Rgb(130, 170, 255), Color::Rgb(240, 113, 120))
    } else if index == 27 {
        spec_dark_theme(30, Color::Rgb(199, 146, 255), Color::Rgb(255, 98, 140))
    } else if index == 28 {
        spec_dark_theme(26, Color::Rgb(54, 249, 246), Color::Rgb(254, 68, 80))
    } else if index == 29 {
        spec_dark_theme(16, Color::Rgb(255, 199, 153), Color::Rgb(245, 110, 110))
    } else if index == 30 {
        spec_dark_theme(40, Color::Rgb(140, 208, 211), Color::Rgb(220, 140, 140))
    } else if index == 31 {
        spec_dark_theme(10, Color::Rgb(0, 112, 243), Color::Rgb(255, 0, 0))
    } else if index == 32 {
        spec_dark_theme(10, Color::Rgb(236, 91, 43), Color::Rgb(255, 68, 68))
    } else {
        spec_dark_theme(10, Color::Rgb(45, 213, 183), Color::Rgb(247, 118, 142))
    }
}

/// The palette of the built-in theme at `index`.
pub fn theme_colors(index: usize) -> (t: ColorTheme)
    requires
        index < THEME_COUNT,
    ensures
        t == spec_theme_colors(index as int),
{
    match index {
        0 => ColorTheme::new(Color::Rgb(10, 10, 10), Color::Rgb(20, 20, 20), Color::Rgb(30, 30, 30), Color::Rgb(238, 238, 238), Color::Rgb(128, 128, 128), Color::Rgb(250, 178, 131), Color::Rgb(224, 108, 117), Color::Rgb(72, 72, 72)),
        1 => ColorTheme::new(Color::Rgb(40, 42, 54), Color::Rgb(33, 34, 44), Color::Rgb(68, 71, 90), Color::Rgb(248, 248, 242), Color::Rgb(98, 114, 164), Color::Rgb(189, 147, 249), Color::Rgb(255, 85, 85), Color::Rgb(68, 71, 90)),
        2 => ColorTheme::new(Color::Rgb(40, 40, 40), Color::Rgb(60, 56, 54), Color::Rgb(80, 73, 69), Color::Rgb(235, 219, 178), Color::Rgb(146, 131, 116), Color::Rgb(131, 165, 152), Color::Rgb(251, 73, 52), Color::Rgb(102, 92, 84)),
        3 => ColorTheme::new(Color::Rgb(30, 30, 46), Color::Rgb(24, 24, 37), Color::Rgb(17, 17, 27), Color::Rgb(205, 214, 244), Color::Rgb(147, 153, 178), Color::Rgb(137, 180, 250), Color::Rgb(243, 139, 168), Color::Rgb(49, 50, 68)),
        4 => ColorTheme::new(Color::Rgb(48, 52, 70), Color::Rgb(41, 44, 60), Color::Rgb(35, 38, 52), Color::Rgb(198, 208, 245), Color::Rgb(131, 139, 167), Color::Rgb(141, 164, 226), Color::Rgb(231, 130, 132), Color::Rgb(65, 68, 89)),
        5 => ColorTheme::new(Color::Rgb(36, 39, 58), Color::Rgb(30, 32, 48), Color::Rgb(24, 25, 38), Color::Rgb(202, 211, 245), Color::Rgb(139, 141, 152), Color::Rgb(138, 173, 244), Color::Rgb(237, 135, 150), Color::Rgb(54, 57, 78)),
        6 => ColorTheme::new(Color::Rgb(46, 52, 64), Color::Rgb(59, 66, 82), Color::Rgb(67, 76, 94), Color::Rgb(236, 239, 244), Color::Rgb(139, 149, 167), Color::Rgb(136, 192, 208), Color::Rgb(191, 97, 106), Color::Rgb(67, 76, 94)),
        7 => ColorTheme::new(Color::Rgb(26, 27, 38), Color::Rgb(30, 32, 48), Color::Rgb(34, 36, 54), Color::Rgb(200, 211, 245), Color::Rgb(130, 139, 184), Color::Rgb(130, 170, 255), Color::Rgb(255, 117, 127), Color::Rgb(115, 122, 162)),
        8 => ColorTheme::new(Color::Rgb(0, 43, 54), Color::Rgb(7, 54, 66), Color::Rgb(10, 64, 76), Color::Rgb(253, 246, 227), Color::Rgb(131, 148, 150), Color::Rgb(108, 113, 196), Color::Rgb(220, 50, 47), Color::Rgb(88, 110, 117)),
        9 => dark_theme(25, Color::Rgb(156, 207, 216), Color::Rgb(235, 111, 146)),
        10 => dark_theme(10, Color::Rgb(63, 183, 227), Color::Rgb(240, 113, 120)),
        11 => dark_theme(30, Color::Rgb(174, 129, 255), Color::Rgb(249, 38, 114)),
        12 => dark_theme(30, Color::Rgb(97, 175, 239), Color::Rgb(224, 108, 117)),
        13 => dark_theme(31, Color::Rgb(126, 156, 216), Color::Rgb(195, 74, 71)),
        14 => dark_theme(26, Color::Rgb(130, 170, 255), Color::Rgb(240, 113, 120)),
        15 => dark_theme(39, Color::Rgb(167, 192, 128), Color::Rgb(230, 126, 128)),
        16 => ColorTheme::new(Color::Rgb(13, 17, 23), Color::Rgb(1, 4, 9), Color::Rgb(22, 27, 34), Color::Rgb(201, 209, 217), Color::Rgb(139, 148, 158), Color::Rgb(88, 166, 255), Color::Rgb(248, 81, 73), Color::Rgb(48, 54, 61)),
        17 => dark_theme(0, Color::Rgb(179, 136, 255), Color::Rgb(255, 85, 85)),
        18 => dark_theme(21, Color::Rgb(162, 119, 255), Color::Rgb(255, 102, 103)),
        19 => dark_theme(22, Color::Rgb(51, 177, 255), Color::Rgb(238, 85, 150)),
        20 => dark_theme(25, Color::Rgb(0, 136, 255), Color::Rgb(255, 98, 140)),
        21 => dark_theme(26, Color::Rgb(136, 192, 208), Color::Rgb(191, 97, 106)),
        22 => dark_theme(16, Color::Rgb(218, 112, 44), Color::Rgb(209, 77, 65)),
        23 => dark_theme(10, Color::Rgb(46, 255, 106), Color::Rgb(255, 51, 51)),
        24 => dark_theme(26, Color::Rgb(141, 164, 245), Color::Rgb(240, 113, 120)),
        25 => dark_theme(1, Color::Rgb(130, 170, 255), Color::Rgb(239, 83, 80)),
        26 => dark_theme(29, Color::Rgb(130, 170, 255), Color::Rgb(240, 113, 120)),
        27 => dark_theme(30, Color::Rgb(199, 146, 255), Color::Rgb(255, 98, 140)),
        28 => dark_theme(26, Color::Rgb(54, 249, 246), Color::Rgb(254, 68, 80)),
        29 => dark_theme(16, Color::Rgb(255, 199, 153), Color::Rgb(245, 110, 110)),
        30 => dark_theme(40, Color::Rgb(140, 208, 211), Color::Rgb(220, 140, 140)),
        31 => dark_theme(10, Color::Rgb(0, 112, 243), Color::Rgb(255, 0, 0)),
        32 => dark_theme(10, Color::Rgb(236, 91, 43), Color::Rgb(255, 68, 68)),
        _ => dark_theme(10, Color::Rgb(45, 213, 183), Color::Rgb(247, 118, 142)),
    }
}

/// Every built-in theme, as a loader theme and its palette, in the loader's order.
pub fn all_themes() -> (r: Vec<(LoaderTheme, ColorTheme)>)
    ensures
        r@.len() == THEME_COUNT,
        forall|i: int|
            0 <= i < THEME_COUNT ==> (#[trigger] r@[i]).0@ == i && r@[i].1 == spec_theme_colors(i),
{
    let mut r: Vec<(LoaderTheme, ColorTheme)> = Vec::new();
    for i in 0..THEME_COUNT
        invariant
            r@.len() == i,
            forall|j: int| 0 <= j < i ==> (#[trigger] r@[j]).0@ == j && r@[j].1 == spec_theme_colors(j),
    {
        r.push((LoaderTheme::at(i), theme_colors(i)));
    }
    r
}

} // verus!
