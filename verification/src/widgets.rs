//! The interface's own widgets: their settings, and what they draw where.
use vstd::prelude::*;

use crate::blocks::split_on_newlines;
use crate::frame::spec_thumb;
use crate::geometry::Rect;
use crate::messages::{lines_view, split_lines};
use crate::theme::Color;

verus! {

/// Blank cells kept inside a panel's edges.
#[derive(Clone, Copy, Debug, PartialEq, Eq, Structural)]
pub struct Padding {
    pub left: u16,
    pub right: u16,
    pub top: u16,
    pub bottom: u16,
}

impl Padding {
    /// Padding with the given cells on each side.
    pub fn new(left: u16, right: u16, top: u16, bottom: u16) -> (p: Padding)
        ensures
            p == (Padding { left, right, top, bottom }),
    {
        Padding { left, right, top, bottom }
    }

    /// No padding.
    pub fn zero() -> (p: Padding)
        ensures
            p == (Padding { left: 0, right: 0, top: 0, bottom: 0 }),
    {
        Padding { left: 0, right: 0, top: 0, bottom: 0 }
    }
}

/// A panel with a thick border on its left and an optional background behind
/// its padded content; the border cell keeps the terminal's background.
#[derive(Clone, Copy, Debug, PartialEq, Eq, Structural)]
pub struct LeftBorderPanel {
    pub border_color: Color,
    pub content_bg: Option<Color>,
    pub padding: Padding,
}

impl LeftBorderPanel {
    /// A panel with the default border color, no background and no padding.
    pub fn new() -> (p: LeftBorderPanel)
        ensures
            p == (LeftBorderPanel {
                border_color: Color::Reset,
                content_bg: None,
                padding: Padding { left: 0, right: 0, top: 0, bottom: 0 },
            }),
    {
        LeftBorderPanel { border_color: Color::Reset, content_bg: None, padding: Padding::zero() }
    }

    /// The panel with its border in `color`.
    pub fn border_color(self, color: Color) -> (p: LeftBorderPanel)
        ensures
            p == (LeftBorderPanel { border_color: color, ..self }),
    {
        LeftBorderPanel { border_color: color, ..self }
    }

    /// The panel with its content on a `color` background.
    pub fn content_bg(self, color: Color) -> (p: LeftBorderPanel)
        ensures
            p == (LeftBorderPanel { content_bg: Some(color), ..self }),
    {
        LeftBorderPanel { content_bg: Some(color), ..self }
    }

    /// The panel with `padding` around its content.
    pub fn padding(self, padding: Padding) -> (p: LeftBorderPanel)
        ensures
            p == (LeftBorderPanel { padding, ..self }),
    {
        LeftBorderPanel { padding, ..self }
    }
}

impl Default for LeftBorderPanel {
    fn default() -> (p: LeftBorderPanel)
        ensures
            p == (LeftBorderPanel {
                border_color: Color::Reset,
                content_bg: None,
                padding: Padding { left: 0, right: 0, top: 0, bottom: 0 },
            }),
    {
        LeftBorderPanel::new()
    }
}

/// The input panel: the typed text with a cursor, on a panel with a left border,
/// and below it a label naming the agent, the model and its provider, closed off
/// by a half-height bottom edge.
#[derive(Clone, Copy, Debug)]
pub struct InputBottomPanel<'a> {
    pub input: &'a str,
    pub focused: bool,
    pub blink_on: bool,
    pub border_color: Color,
    pub content_bg: Color,
    pub text_color: Color,
    pub muted_color: Color,
    pub label_accent: Color,
    pub bottom_half_bg: Color,
    pub padding: Padding,
    pub label_name: &'a str,
    pub label_model: &'a str,
    pub label_provider: &'a str,
}

/// The cursor drawn after the input: a full block while focused and blinked on,
/// a space while focused and blinked off, and a shaded block when not focused.
pub open spec fn spec_cursor(focused: bool, blink_on: bool) -> Seq<char> {
    if focused {
        if blink_on {
            seq!['\u{2588}']
        } else {
            seq![' ']
        }
    } else {
        seq!['\u{2592}']
    }
}

impl<'a> InputBottomPanel<'a> {
    /// A panel for `input`, unfocused, with default colors, no padding and an empty
    /// label.
    pub fn new(input: &'a str) -> (p: InputBottomPanel<'a>)
        ensures
            p.input == input,
            !p.focused,
            !p.blink_on,
            p.border_color == Color::Reset,
            p.content_bg == Color::Reset,
            p.text_color == Color::Reset,
            p.muted_color == Color::Reset,
            p.label_accent == Color::Reset,
            p.bottom_half_bg == Color::Reset,
            p.padding == (Padding { left: 0, right: 0, top: 0, bottom: 0 }),
            p.label_name@.len() == 0,
            p.label_model@.len() == 0,
            p.label_provider@.len() == 0,
    {
        let empty = "";
        proof {
            reveal_strlit("");
        }
        InputBottomPanel {
            input,
            focused: false,
            blink_on: false,
            border_color: Color::Reset,
            content_bg: Color::Reset,
            text_color: Color::Reset,
            muted_color: Color::Reset,
            label_accent: Color::Reset,
            bottom_half_bg: Color::Reset,
            padding: Padding::zero(),
            label_name: empty,
            label_model: empty,
            label_provider: empty,
        }
    }

    /// The panel, focused or not.
    pub fn focused(self, focused: bool) -> (p: Self)
        ensures
            p == (InputBottomPanel { focused, ..self }),
    {
        InputBottomPanel { focused, ..self }
    }

    /// The panel with the cursor blinked on or off.
    pub fn blink_on(self, blink_on: bool) -> (p: Self)
        ensures
            p == (InputBottomPanel { blink_on, ..self }),
    {
        InputBottomPanel { blink_on, ..self }
    }

    /// The panel with its border in `color`.
    pub fn border_color(self, color: Color) -> (p: Self)
        ensures
            p == (InputBottomPanel { border_color: color, ..self }),
    {
        InputBottomPanel { border_color: color, ..self }
    }

    /// The panel with its content on a `color` background.
    pub fn content_bg(self, color: Color) -> (p: Self)
        ensures
            p == (InputBottomPanel { content_bg: color, ..self }),
    {
        InputBottomPanel { content_bg: color, ..self }
    }

    /// The panel with its text in `color`.
    pub fn text_color(self, color: Color) -> (p: Self)
        ensures
            p == (InputBottomPanel { text_color: color, ..self }),
    {
        InputBottomPanel { text_color: color, ..self }
    }

    /// The panel with its secondary text in `color`.
    pub fn muted_color(self, color: Color) -> (p: Self)
        ensures
            p == (InputBottomPanel { muted_color: color, ..self }),
    {
        InputBottomPanel { muted_color: color, ..self }
    }

    /// The panel with the agent's name in `color`.
    pub fn label_accent(self, color: Color) -> (p: Self)
        ensures
            p == (InputBottomPanel { label_accent: color, ..self }),
    {
        InputBottomPanel { label_accent: color, ..self }
    }

    /// The panel with `color` below its half-height bottom edge.
    pub fn bottom_half_bg(self, color: Color) -> (p: Self)
        ensures
            p == (InputBottomPanel { bottom_half_bg: color, ..self }),
    {
        InputBottomPanel { bottom_half_bg: color, ..self }
    }

    /// The panel with `padding` around its content.
    pub fn padding(self, padding: Padding) -> (p: Self)
        ensures
            p == (InputBottomPanel { padding, ..self }),
    {
        InputBottomPanel { padding, ..self }
    }

    /// The panel labelled with an agent, a model and its provider.
    pub fn label(self, name: &'a str, model: &'a str, provider: &'a str) -> (p: Self)
        ensures
            p == (InputBottomPanel { label_name: name, label_model: model, label_provider: provider, ..self }),
    {
        InputBottomPanel { label_name: name, label_model: model, label_provider: provider, ..self }
    }

    /// The input's lines, split at line breaks; the cursor follows the last one.
    pub fn input_lines(&self) -> (r: Vec<String>)
        ensures
            lines_view(r@) == split_lines(self.input@),
    {
        split_on_newlines(self.input)
    }

    /// The cursor and its color: the text color while focused, else the muted one.
    pub fn cursor(&self) -> (r: (&'static str, Color))
        ensures
            r.0@ == spec_cursor(self.focused, self.blink_on),
            r.1 == if self.focused {
                self.text_color
            } else {
                self.muted_color
            },
    {
        let full = "\u{2588}";
        let blank = " ";
        let shaded = "\u{2592}";
        proof {
            reveal_strlit("\u{2588}");
            reveal_strlit(" ");
            reveal_strlit("\u{2592}");
        }
        let glyph = if self.focused {
            if self.blink_on {
                full
            } else {
                blank
            }
        } else {
            shaded
        };
        let color = if self.focused {
            self.text_color
        } else {
            self.muted_color
        };
        (glyph, color)
    }

    /// The label's pieces and their colors: the agent in the accent color, a
    /// muted separator, the model in the text color, a muted space and the muted
    /// provider.
    pub fn label_line(&self) -> (r: Vec<(&'a str, Color)>)
        ensures
            r@.len() == 5,
            r@[0] == (self.label_name, self.label_accent),
            r@[1].0@ == " \u{00b7} "@ && r@[1].1 == self.muted_color,
            r@[2] == (self.label_model, self.text_color),
            r@[3].0@ == " "@ && r@[3].1 == self.muted_color,
            r@[4] == (self.label_provider, self.muted_color),
    {
        let sep: &'a str = " \u{00b7} ";
        let space: &'a str = " ";
        vec![
            (self.label_name, self.label_accent),
            (sep, self.muted_color),
            (self.label_model, self.text_color),
            (space, self.muted_color),
            (self.label_provider, self.muted_color),
        ]
    }
}

/// Where the input panel's label row and half-height bottom edge go, inside the
/// panel's content area `inner`: the label on the second-to-last row and the
/// edge on the last, when the content area has at least three rows.
pub fn input_label_rows(inner: Rect) -> (r: Option<(Rect, u16)>)
    requires
        inner.y + inner.height <= u16::MAX,
    ensures
        inner.height < 3 ==> r is None,
        inner.height >= 3 ==> r == Some(
            (
                Rect::spec_new(inner.x, (inner.y + inner.height - 2) as u16, inner.width, 1),
                (inner.y + inner.height - 1) as u16,
            ),
        ),
{
    if inner.height >= 3 {
        let label_area = Rect::new(inner.x, inner.y + inner.height - 2, inner.width, 1);
        Some((label_area, inner.y + inner.height - 1))
    } else {
        None
    }
}

/// A scrollbar thumb drawn on the right edge of an area, `right_padding`
/// columns in from it.
#[derive(Clone, Copy, Debug, PartialEq, Eq, Structural)]
pub struct ThumbScrollbar {
    pub scroll: u16,
    pub content_height: u16,
    pub track_color: Color,
    pub thumb_color: Color,
    pub right_padding: u16,
}

impl ThumbScrollbar {
    /// A scrollbar for content of `content_height` rows scrolled by `scroll`, in
    /// default colors, on the right edge.
    pub fn new(scroll: u16, content_height: u16) -> (s: ThumbScrollbar)
        ensures
            s == (ThumbScrollbar {
                scroll,
                content_height,
                track_color: Color::Reset,
                thumb_color: Color::Reset,
                right_padding: 0,
            }),
    {
        ThumbScrollbar {
            scroll,
            content_height,
            track_color: Color::Reset,
            thumb_color: Color::Reset,
            right_padding: 0,
        }
    }

    /// The scrollbar with its track in `color`.
    pub fn track_color(self, color: Color) -> (s: ThumbScrollbar)
        ensures
            s == (ThumbScrollbar { track_color: color, ..self }),
    {
        ThumbScrollbar { track_color: color, ..self }
    }

    /// The scrollbar with its thumb in `color`.
    pub fn thumb_color(self, color: Color) -> (s: ThumbScrollbar)
        ensures
            s == (ThumbScrollbar { thumb_color: color, ..self }),
    {
        ThumbScrollbar { thumb_color: color, ..self }
    }

    /// The scrollbar `columns` in from the right edge.
    pub fn right_padding(self, columns: u16) -> (s: ThumbScrollbar)
        ensures
            s == (ThumbScrollbar { right_padding: columns, ..self }),
    {
        ThumbScrollbar { right_padding: columns, ..self }
    }

    /// Where the scrollbar goes in `area`: its column, and the thumb's top row
    /// and height within the track; nothing when the area is empty, the content
    /// fits it, or the padding leaves no column.
    pub fn thumb(&self, area: Rect) -> (r: Option<(u16, u16, u16)>)
        requires
            area.x + area.width <= u16::MAX,
        ensures
            area.width == 0 || area.height == 0 || self.content_height <= area.height
                || self.right_padding >= area.width ==> r is None,
            !(area.width == 0 || area.height == 0 || self.content_height <= area.height
                || self.right_padding >= area.width) ==> ({
                let (top, height) = spec_thumb(area.height, self.content_height, self.scroll);
                r == Some(((area.x + area.width - 1 - self.right_padding) as u16, top, height))
            }),
    {
        if area.is_empty() || self.content_height <= area.height || self.right_padding >= area.width {
            return None;
        }
        match crate::frame::thumb_geometry(area.height, self.content_height, self.scroll) {
            Some((top, height)) => Some((area.x + area.width - 1 - self.right_padding, top, height)),
            None => None,
        }
    }
}

} // verus!
