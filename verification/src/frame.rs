//! The screen's division into conversation, input, status line and sidebar, and
//! the scrollbar thumb.
use vstd::prelude::*;

use ratatui::layout::{Constraint, Layout};

use crate::app::{ViewOptions, INPUT_HEIGHT};
use crate::geometry::Rect;

verus! {

/// What ratatui's `Layout::horizontal([Min(main_min), Length(gap),
/// Length(side)]).areas(area)` gives: the main column, the gap and the sidebar
/// column, when the three widths fit in `area`.
pub uninterp spec fn column_areas(area: Rect, main_min: u16, gap: u16, side: u16) -> (Rect, Rect, Rect);

/// What ratatui's `Layout::vertical([Fill(fill), Length(gap), Length(input),
/// Length(spacer), Length(status), Length(bottom)]).areas(area)` gives for the
/// first, third and fifth of those rows, when the fixed rows fit in `area`.
pub uninterp spec fn row_areas(
    area: Rect,
    fill: u16,
    gap: u16,
    input: u16,
    spacer: u16,
    status: u16,
    bottom: u16,
) -> (Rect, Rect, Rect);

/// Splits `area` with ratatui's constraint solver into a column of at least
/// `main_min` columns, a gap of `gap` columns and a column of `side` columns. The
/// solver's result is named, not restated; it is only asked where the three
/// widths fit, since ratatui leaves the result of conflicting constraints open.
#[verifier::external_body]
fn split_columns(area: Rect, main_min: u16, gap: u16, side: u16) -> (r: (Rect, Rect, Rect))
    requires
        main_min + gap + side <= area.width,
    ensures
        r == column_areas(area, main_min, gap, side),
{
    let a = ratatui::layout::Rect { x: area.x, y: area.y, width: area.width, height: area.height };
    let cs = [Constraint::Min(main_min), Constraint::Length(gap), Constraint::Length(side)];
    let [m, g, s] = Layout::horizontal(cs).areas(a);
    (
        Rect { x: m.x, y: m.y, width: m.width, height: m.height },
        Rect { x: g.x, y: g.y, width: g.width, height: g.height },
        Rect { x: s.x, y: s.y, width: s.width, height: s.height },
    )
}

/// Splits `area` with ratatui's constraint solver into six rows: one that fills
/// what is left (weight `fill`) and five of fixed heights, and gives the first,
/// third and fifth. Every row keeps the area's columns (ratatui builds vertical
/// segments from the area's `x` and `width`). Where the fixed rows fit, the
/// solver's result is named, not restated; where they do not, the constraints
/// conflict and ratatui leaves the rows' heights open, so nothing more is said.
#[verifier::external_body]
fn split_rows(area: Rect, fill: u16, gap: u16, input: u16, spacer: u16, status: u16, bottom: u16) -> (r:
    (Rect, Rect, Rect))
    ensures
        r.0.x == area.x && r.0.width == area.width,
        r.1.x == area.x && r.1.width == area.width,
        r.2.x == area.x && r.2.width == area.width,
        gap + input + spacer + status + bottom <= area.height ==> r == row_areas(
            area,
            fill,
            gap,
            input,
            spacer,
            status,
            bottom,
        ),
{
    let a = ratatui::layout::Rect { x: area.x, y: area.y, width: area.width, height: area.height };
    let [m, _, i, _, s, _] = Layout::vertical([Constraint::Fill(fill), Constraint::Length(gap),
        Constraint::Length(input), Constraint::Length(spacer), Constraint::Length(status),
        Constraint::Length(bottom)]).areas(a);
    (
        Rect { x: m.x, y: m.y, width: m.width, height: m.height },
        Rect { x: i.x, y: i.y, width: i.width, height: i.height },
        Rect { x: s.x, y: s.y, width: s.width, height: s.height },
    )
}

/// Columns the main column keeps at least when the sidebar is shown.
pub const MAIN_MIN_WIDTH: u16 = 40;

/// Columns between the main column and the sidebar.
pub const SIDEBAR_GAP: u16 = 1;

/// Rows of the main column that are not the message area: a gap row, the input
/// panel, an empty row of no height, the status line and a bottom row.
pub const FIXED_ROWS: u16 = 8;

/// The message, input and status areas of the main column: the messages take
/// what is left above a gap row, the input panel, an empty row of no height, the
/// status line and a bottom row.
pub open spec fn main_rows(main: Rect) -> (Rect, Rect, Rect) {
    row_areas(main, 1, 1, INPUT_HEIGHT, 0, 1, 1)
}

/// The regions of the screen.
#[derive(Clone, Copy, Debug, PartialEq, Eq, Structural)]
pub struct FrameLayout {
    pub main_area: Rect,
    pub sidebar_area: Option<Rect>,
    pub messages_area: Rect,
    pub input_area: Rect,
    pub status_area: Rect,
    pub padded_messages: Rect,
    pub padded_input: Rect,
    pub content_width: u16,
    pub slash_area: Rect,
}

/// Whether the sidebar is shown: when it is switched on and the screen has at
/// least 84 columns.
pub open spec fn shows_sidebar(area: Rect, view: ViewOptions) -> bool {
    view.sidebar_visible && area.width >= 84
}

/// The sidebar's width: 42 columns, fewer when the screen is narrower than 84.
pub open spec fn sidebar_width(area: Rect) -> u16 {
    if area.width - 42 < 42 {
        (area.width - 42) as u16
    } else {
        42
    }
}

/// The main column and the sidebar, if shown.
pub open spec fn spec_columns(area: Rect, view: ViewOptions) -> (Rect, Option<Rect>) {
    if shows_sidebar(area, view) {
        let (m, _, s) = column_areas(area, MAIN_MIN_WIDTH, SIDEBAR_GAP, sidebar_width(area));
        (m, Some(s))
    } else {
        (area, None)
    }
}

/// The message and input areas with their side padding: two columns on the
/// left, and room on the right for the scrollbar when it is shown; and the width
/// left for the messages' text.
pub open spec fn spec_padded(messages: Rect, input: Rect, scrollbar: bool) -> (Rect, Rect, u16) {
    let pm = if scrollbar {
        Rect::spec_new(
            (messages.x + 2) as u16,
            messages.y,
            if messages.width >= 2 {
                (messages.width - 2) as u16
            } else {
                0
            },
            messages.height,
        )
    } else {
        messages.spec_inner(2, 0)
    };
    let pi = if scrollbar {
        Rect::spec_new(
            (input.x + 2) as u16,
            input.y,
            if input.width >= 3 {
                (input.width - 3) as u16
            } else {
                0
            },
            input.height,
        )
    } else {
        input.spec_inner(2, 0)
    };
    let sw: u16 = if scrollbar {
        4
    } else {
        0
    };
    let cw = if pm.width >= sw {
        (pm.width - sw) as u16
    } else {
        0
    };
    (pm, pi, cw)
}

/// Whether the padding can be added to the areas without leaving `u16`.
pub open spec fn padding_fits(messages: Rect, input: Rect, scrollbar: bool) -> bool {
    scrollbar ==> messages.x + 2 <= u16::MAX && input.x + 2 <= u16::MAX
}

/// The padded message and input areas and the text width: see `spec_padded`.
pub fn padded_areas(messages: Rect, input: Rect, scrollbar: bool) -> (r: (Rect, Rect, u16))
    requires
        padding_fits(messages, input, scrollbar),
    ensures
        r == spec_padded(messages, input, scrollbar),
{
    let pm = if scrollbar {
        Rect::new(messages.x + 2, messages.y, messages.width.saturating_sub(2), messages.height)
    } else {
        messages.inner(2, 0)
    };
    let pi = if scrollbar {
        Rect::new(input.x + 2, input.y, input.width.saturating_sub(3), input.height)
    } else {
        input.inner(2, 0)
    };
    let sw: u16 = if scrollbar {
        4
    } else {
        0
    };
    let cw = pm.width.saturating_sub(sw);
    (pm, pi, cw)
}

/// The screen's regions for a screen of `area`, or `None` when the padding
/// would leave `u16`. The message, input and status rows keep the main column's
/// columns; where the main column has room for the fixed rows they are the
/// solver's rows, and on a shorter screen they are whatever the solver gives.
/// The slash menu covers the padded input's columns, from the top of the
/// message area down to the input.
pub fn frame_layout(area: Rect, view: ViewOptions) -> (r: Option<FrameLayout>)
    ensures
        ({
            let (main, side) = spec_columns(area, view);
            &&& r is None <==> (view.scrollbar_visible && main.x + 2 > u16::MAX)
            &&& !view.sidebar_visible ==> (r matches Some(l) ==> l.sidebar_area is None && l.main_area
                == area)
            &&& r matches Some(l) ==> {
                let (pm, pi, cw) = spec_padded(l.messages_area, l.input_area, view.scrollbar_visible);
                &&& l.main_area == main
                &&& l.sidebar_area == side
                &&& l.messages_area.x == main.x && l.messages_area.width == main.width
                &&& l.input_area.x == main.x && l.input_area.width == main.width
                &&& l.status_area.x == main.x && l.status_area.width == main.width
                &&& main.height >= FIXED_ROWS ==> (l.messages_area, l.input_area, l.status_area)
                    == main_rows(main)
                &&& padding_fits(l.messages_area, l.input_area, view.scrollbar_visible)
                &&& l.padded_messages == pm
                &&& l.padded_input == pi
                &&& l.content_width == cw
                &&& l.slash_area == Rect::spec_new(
                    pi.x,
                    l.messages_area.y,
                    pi.width,
                    if l.input_area.y >= l.messages_area.y {
                        (l.input_area.y - l.messages_area.y) as u16
                    } else {
                        0
                    },
                )
            }
        }),
{
    let show_sidebar = view.sidebar_visible && area.width >= 84;
    let (main_area, sidebar_area) = if show_sidebar {
        let rest = area.width - 42;
        let sw = if rest < 42 {
            rest
        } else {
            42
        };
        let (m, _gap, s) = split_columns(area, MAIN_MIN_WIDTH, SIDEBAR_GAP, sw);
        (m, Some(s))
    } else {
        (area, None)
    };
    let (messages_area, input_area, status_area) = split_rows(main_area, 1, 1, INPUT_HEIGHT, 0, 1, 1);
    if view.scrollbar_visible && (messages_area.x > u16::MAX - 2 || input_area.x > u16::MAX - 2) {
        return None;
    }
    let (padded_messages, padded_input, content_width) = padded_areas(
        messages_area,
        input_area,
        view.scrollbar_visible,
    );
    let slash_area = Rect::new(
        padded_input.x,
        messages_area.y,
        padded_input.width,
        input_area.y.saturating_sub(messages_area.y),
    );
    Some(
        FrameLayout {
            main_area,
            sidebar_area,
            messages_area,
            input_area,
            status_area,
            padded_messages,
            padded_input,
            content_width,
            slash_area,
        },
    )
}

/// The rows of a scrollbar thumb on a track of `track` rows for content of
/// `total` rows scrolled by `scroll`: its height is the track's share of the
/// content, at least one row; its top moves from the track's top to its bottom
/// as the view scrolls from the start to the end.
pub open spec fn spec_thumb(track: u16, total: u16, scroll: u16) -> (u16, u16) {
    let raw = (track * track) / (total as int);
    let height = if raw < 1 {
        1
    } else if raw > track {
        track as int
    } else {
        raw
    };
    let max_scroll = total - track;
    let max_top = track - height;
    let top = if max_scroll == 0 {
        0
    } else {
        (scroll * max_top) / max_scroll
    };
    (top as u16, height as u16)
}

/// The thumb's top row and height within the track: see `spec_thumb`; `None`
/// when the content fits the track and no scrollbar is drawn.
pub fn thumb_geometry(track: u16, total: u16, scroll: u16) -> (r: Option<(u16, u16)>)
    ensures
        track == 0 || total <= track ==> r is None,
        track > 0 && total > track ==> r == Some(spec_thumb(track, total, scroll)),
{
    if track == 0 || total <= track {
        return None;
    }
    let t = track as u32;
    proof {
        assert(t * t <= u32::MAX) by (nonlinear_arith)
            requires
                t <= u16::MAX,
        ;
    }
    let raw = (t * t) / (total as u32);
    let h32 = if raw < 1 {
        1
    } else if raw > t {
        t
    } else {
        raw
    };
    let thumb_height = h32 as u16;
    let max_scroll = total - track;
    let max_thumb_top = track - thumb_height;
    let thumb_top = if max_scroll == 0 {
        0
    } else {
        let sc = scroll as u32;
        let mt = max_thumb_top as u32;
        proof {
            assert(sc * mt <= u32::MAX) by (nonlinear_arith)
                requires
                    sc <= u16::MAX,
                    mt <= u16::MAX,
            ;
        }
        ((sc * mt) / max_scroll as u32) as u16
    };
    Some((thumb_top, thumb_height))
}

/// The scrollbar thumb stays on its track, is at least one row tall, sits at the
/// top at the start of the content and reaches the bottom at its end, and moves
/// down as the view scrolls down.
pub proof fn law_thumb_on_track(track: u16, total: u16, s1: u16, s2: u16)
    requires
        0 < track < total,
        s1 <= s2 <= total - track,
    ensures
        ({
            let (top1, h1) = spec_thumb(track, total, s1);
            let (top2, h2) = spec_thumb(track, total, s2);
            &&& 1 <= h1 <= track
            &&& h1 == h2
            &&& top1 + h1 <= track
            &&& top1 <= top2
            &&& (s1 == 0 ==> top1 == 0)
            &&& (s2 == total - track ==> top2 + h2 == track)
        }),
{
    let raw = (track * track) / (total as int);
    let height: int = if raw < 1 {
        1
    } else if raw > track {
        track as int
    } else {
        raw
    };
    let max_scroll: int = total - track;
    let max_top: int = track - height;
    assert(0 <= raw) by (nonlinear_arith)
        requires
            raw == (track * track) / (total as int),
            total > 0,
    ;
    assert(s1 * max_top <= s2 * max_top) by (nonlinear_arith)
        requires
            s1 <= s2,
            max_top >= 0,
    ;
    assert((s1 * max_top) / max_scroll <= (s2 * max_top) / max_scroll) by (nonlinear_arith)
        requires
            s1 * max_top <= s2 * max_top,
            max_scroll > 0,
            s1 * max_top >= 0,
    ;
    assert((s2 * max_top) / max_scroll <= max_top) by (nonlinear_arith)
        requires
            s2 <= max_scroll,
            max_scroll > 0,
            max_top >= 0,
    ;
    assert((max_scroll * max_top) / max_scroll == max_top) by (nonlinear_arith)
        requires
            max_scroll > 0,
    ;
    assert(0 <= (s1 * max_top) / max_scroll) by (nonlinear_arith)
        requires
            s1 >= 0,
            max_top >= 0,
            max_scroll > 0,
    ;
    let (top1, h1) = spec_thumb(track, total, s1);
    let (top2, h2) = spec_thumb(track, total, s2);
    assert(h1 == height);
    assert(top1 == (s1 * max_top) / max_scroll);
    assert(top2 == (s2 * max_top) / max_scroll);
    assert(1 <= h1 <= track);
    assert(top1 + h1 <= track);
    assert(top1 <= top2);
}

/// The column of the conversation's scrollbar: two columns in from the right
/// edge of the message area.
pub fn scrollbar_x(area: Rect) -> (x: u16)
    requires
        area.x + area.width <= u16::MAX,
    ensures
        x == area.x + if area.width >= 2 {
            area.width - 2
        } else {
            0
        },
{
    area.x + area.width.saturating_sub(2)
}

/// The sidebar follows its switch: switched off, or on a screen narrower than
/// 84 columns, there is none and the main column is the whole screen; switched
/// on at 84 columns or more there is one, asked for 42 columns, with room left
/// for a main column of at least 40 and the gap.
pub proof fn law_sidebar_follows_switch(area: Rect, view: ViewOptions)
    ensures
        !view.sidebar_visible || area.width < 84 ==> spec_columns(area, view) == (area, None::<Rect>),
        view.sidebar_visible && area.width >= 84 ==> ({
            let (_, side) = spec_columns(area, view);
            &&& side is Some
            &&& sidebar_width(area) == 42
            &&& MAIN_MIN_WIDTH + SIDEBAR_GAP + sidebar_width(area) <= area.width
        }),
{
}

} // verus!
