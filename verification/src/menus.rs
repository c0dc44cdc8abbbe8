//! Where the slash-command menu and the theme picker draw their rows.
use vstd::prelude::*;

use crate::app::{App, AppModel};
use crate::commands::SLASH_MAX_VISIBLE;
use crate::geometry::Rect;
use crate::loader::{builtin_theme_name, LoaderTheme};
use crate::text::str_eq;
use crate::theme::THEME_COUNT;

verus! {

/// A row of the slash menu: which command it shows, on which screen row, and
/// whether it is the selected one.
#[derive(Clone, Copy, Debug, PartialEq, Eq, Structural)]
pub struct MenuRow {
    pub index: usize,
    pub y: u16,
    pub selected: bool,
}

/// Where the slash menu is drawn and which commands it shows.
#[derive(Clone, Debug)]
pub struct SlashMenuLayout {
    pub menu_rect: Rect,
    pub scroll: usize,
    pub rows: Vec<MenuRow>,
}

/// The number of rows the slash menu shows for `total` commands: all of them,
/// at most ten.
pub open spec fn slash_visible(total: int) -> int {
    let t = (total as u16) as int;
    if t <= SLASH_MAX_VISIBLE {
        t
    } else {
        SLASH_MAX_VISIBLE as int
    }
}

/// The first command the slash menu shows: the list scrolls just enough to keep
/// the selection on the last visible row, and not at all while everything fits
/// or the selection is past the list.
pub open spec fn slash_scroll(total: int, selected: int) -> int {
    let visible = slash_visible(total);
    if selected >= total || (total as u16) <= visible {
        0
    } else {
        let max_scroll = total - visible;
        let s = if selected >= visible - 1 {
            selected - (visible - 1)
        } else {
            0
        };
        if s <= max_scroll {
            s
        } else {
            max_scroll
        }
    }
}

/// The rows of the slash menu from visible row `vi` on.
pub open spec fn slash_rows(total: int, selected: int, menu_y: int, scroll: int, visible: int, vi: int) -> Seq<MenuRow>
    decreases visible - vi,
{
    if vi >= visible || scroll + vi >= total {
        Seq::empty()
    } else {
        seq![MenuRow { index: (scroll + vi) as usize, y: (menu_y + vi) as u16, selected: scroll + vi == selected }]
            + slash_rows(total, selected, menu_y, scroll, visible, vi + 1)
    }
}

/// Lays out the slash menu for `total` offered commands at the bottom of `area`:
/// `None` when nothing is offered or the area is too short.
pub fn slash_menu_layout(area: Rect, total: usize, selected: usize) -> (r: Option<SlashMenuLayout>)
    requires
        area.y + area.height <= u16::MAX,
    ensures
        total == 0 || area.height < slash_visible(total as int) <==> r is None,
        r matches Some(l) ==> {
            let visible = slash_visible(total as int);
            let menu_y = area.y + area.height - visible;
            &&& l.menu_rect == Rect::spec_new(area.x, menu_y as u16, area.width, visible as u16)
            &&& l.scroll == slash_scroll(total as int, selected as int)
            &&& l.rows@ == slash_rows(total as int, selected as int, menu_y, l.scroll as int, visible, 0)
        },
{
    if total == 0 {
        return None;
    }
    let t16 = total as u16;
    let visible = if t16 <= SLASH_MAX_VISIBLE {
        t16
    } else {
        SLASH_MAX_VISIBLE
    };
    if area.height < visible {
        return None;
    }
    let scroll = if selected >= total || t16 <= visible {
        0
    } else {
        let max_scroll = total - visible as usize;
        let s = selected.saturating_sub(visible as usize - 1);
        if s <= max_scroll {
            s
        } else {
            max_scroll
        }
    };
    let menu_y = area.y + area.height - visible;
    let menu_rect = Rect::new(area.x, menu_y, area.width, visible);
    let mut rows: Vec<MenuRow> = Vec::new();
    let mut vi: u16 = 0;
    while vi < visible
        invariant_except_break
            vi <= visible <= SLASH_MAX_VISIBLE,
            visible == slash_visible(total as int),
            menu_y + visible <= u16::MAX,
            scroll == slash_scroll(total as int, selected as int),
            scroll <= total,
            rows@ + slash_rows(total as int, selected as int, menu_y as int, scroll as int, visible as int, vi as int)
                == slash_rows(total as int, selected as int, menu_y as int, scroll as int, visible as int, 0),
        ensures
            rows@ == slash_rows(total as int, selected as int, menu_y as int, scroll as int, visible as int, 0),
        decreases visible - vi,
    {
        let i = scroll + vi as usize;
        if i >= total {
            proof {
                assert(rows@ + Seq::<MenuRow>::empty() =~= rows@);
            }
            break;
        }
        let row = MenuRow { index: i, y: menu_y + vi, selected: i == selected };
        let ghost rest = slash_rows(total as int, selected as int, menu_y as int, scroll as int, visible as int, vi + 1);
        proof {
            assert(rows@.push(row) + rest =~= rows@ + (seq![row] + rest));
        }
        rows.push(row);
        vi = vi + 1;
    }
    proof {
        if vi >= visible {
            assert(rows@ + Seq::<MenuRow>::empty() =~= rows@);
        }
    }
    Some(SlashMenuLayout { menu_rect, scroll, rows })
}

/// The slash menu always shows its selected command: when the selection is one
/// of the offered commands, it lies among the visible rows.
pub proof fn law_slash_selection_shown(total: int, selected: int)
    requires
        0 <= selected < total <= u16::MAX,
    ensures
        slash_scroll(total, selected) <= selected < slash_scroll(total, selected) + slash_visible(total),
        0 <= slash_scroll(total, selected) <= total - slash_visible(total),
{
}

/// A row of the theme picker: which theme it shows, on which screen row, whether
/// it is selected, and whether it is the theme in use.
#[derive(Clone, Copy, Debug, PartialEq, Eq, Structural)]
pub struct ThemeRow {
    pub index: usize,
    pub y: u16,
    pub selected: bool,
    pub active: bool,
}

/// Where the theme picker is drawn and which themes it shows.
#[derive(Clone, Debug)]
pub struct ThemeModalLayout {
    pub modal_rect: Rect,
    pub inner: Rect,
    pub list_y: u16,
    pub rows: Vec<ThemeRow>,
}

/// The theme picker's frame over `area`: 35 columns wide and tall enough for the
/// title and fifteen themes, both at most the area minus 4, centered.
pub open spec fn theme_modal_frame(area: Rect) -> (int, int, int, int) {
    let w = if area.width >= 4 {
        area.width - 4
    } else {
        0
    };
    let modal_w = if 35 <= w {
        35
    } else {
        w
    };
    let h = if area.height >= 4 {
        area.height - 4
    } else {
        0
    };
    let modal_h = if 19 <= h {
        19
    } else {
        h
    };
    (area.x + (area.width - modal_w) / 2, area.y + (area.height - modal_h) / 2, modal_w, modal_h)
}

/// The theme rows from visible row `vi` on, for `avail` rows from `list_y`.
pub open spec fn theme_rows(
    scroll: int,
    selected: int,
    current: int,
    list_y: int,
    avail: int,
    vi: int,
) -> Seq<ThemeRow>
    decreases avail - vi,
{
    if vi >= avail || scroll + vi >= THEME_COUNT {
        Seq::empty()
    } else {
        let i = scroll + vi;
        seq![
            ThemeRow {
                index: i as usize,
                y: (list_y + vi) as u16,
                selected: i == selected,
                active: builtin_theme_name(i) == builtin_theme_name(current),
            },
        ] + theme_rows(scroll, selected, current, list_y, avail, vi + 1)
    }
}

/// The area inside a frame: two columns in from the sides and one row in from
/// the top and bottom.
pub open spec fn frame_inner(mr: Rect) -> Rect {
    Rect::spec_new(
        (mr.x + 2) as u16,
        (mr.y + 1) as u16,
        if mr.width >= 4 {
            (mr.width - 4) as u16
        } else {
            0
        },
        if mr.height >= 2 {
            (mr.height - 2) as u16
        } else {
            0
        },
    )
}

/// Whether laying out the theme picker over `area` stays within `u16`.
pub open spec fn theme_modal_fits(area: Rect) -> bool {
    let (x, y, w, h) = theme_modal_frame(area);
    let inner = frame_inner(Rect::spec_new(x as u16, y as u16, w as u16, h as u16));
    &&& x + 2 <= u16::MAX
    &&& y + 1 <= u16::MAX
    &&& (inner.width != 0 && inner.height != 0 ==> inner.y + 2 <= u16::MAX)
}

/// What `theme_modal_layout` gives: `None` exactly when the layout leaves `u16`;
/// otherwise the frame, the area two columns and one row inside it, the list two
/// rows below the title, and the rows that fit, from theme `scroll` on.
pub open spec fn theme_modal_spec(
    area: Rect,
    scroll: usize,
    selected: usize,
    current: nat,
    r: Option<ThemeModalLayout>,
) -> bool {
    &&& r is None <==> !theme_modal_fits(area)
    &&& r matches Some(l) ==> {
        let (x, y, w, h) = theme_modal_frame(area);
        let mr = Rect::spec_new(x as u16, y as u16, w as u16, h as u16);
        let inner = frame_inner(mr);
        &&& l.modal_rect == mr
        &&& l.inner == inner
        &&& (inner.width == 0 || inner.height == 0) ==> l.rows@.len() == 0
        &&& (inner.width != 0 && inner.height != 0) ==> {
            let avail = if inner.y + inner.height >= inner.y + 2 {
                inner.height - 2
            } else {
                0
            };
            &&& l.list_y == inner.y + 2
            &&& l.rows@ == theme_rows(scroll as int, selected as int, current as int, l.list_y as int, avail, 0)
        }
    }
}

/// Lays out the theme picker over `area`, showing themes from `scroll` on with
/// `selected` highlighted and `current` marked as in use.
pub fn theme_modal_layout(area: Rect, scroll: usize, selected: usize, current: LoaderTheme) -> (r:
    Option<ThemeModalLayout>)
    ensures
        theme_modal_spec(area, scroll, selected, current@, r),
{
    let modal_w = if 35 <= area.width.saturating_sub(4) {
        35
    } else {
        area.width.saturating_sub(4)
    };
    let list_rows: u16 = 15;
    let avail_h = area.height.saturating_sub(4);
    let modal_h = if list_rows + 4 <= avail_h {
        list_rows + 4
    } else {
        avail_h
    };
    let off_x = (area.width - modal_w) / 2;
    let off_y = (area.height - modal_h) / 2;
    if area.x > u16::MAX - off_x || area.y > u16::MAX - off_y {
        return None;
    }
    let modal_x = area.x + off_x;
    let modal_y = area.y + off_y;
    if modal_x > u16::MAX - 2 || modal_y > u16::MAX - 1 {
        return None;
    }
    let modal_rect = Rect::new(modal_x, modal_y, modal_w, modal_h);
    let inner = Rect::new(
        modal_rect.x + 2,
        modal_rect.y + 1,
        modal_rect.width.saturating_sub(4),
        modal_rect.height.saturating_sub(2),
    );
    if inner.is_empty() {
        return Some(ThemeModalLayout { modal_rect, inner, list_y: 0, rows: Vec::new() });
    }
    if inner.y > u16::MAX - 2 {
        return None;
    }
    let list_y = inner.y + 2;
    let avail = (inner.y + inner.height).saturating_sub(list_y);
    let current_name = current.name();
    let mut rows: Vec<ThemeRow> = Vec::new();
    let mut vi: u16 = 0;
    while vi < avail
        invariant_except_break
            vi <= avail,
            list_y + avail <= u16::MAX,
            current_name@ == builtin_theme_name(current@ as int),
            rows@ + theme_rows(scroll as int, selected as int, current@ as int, list_y as int, avail as int, vi as int)
                == theme_rows(scroll as int, selected as int, current@ as int, list_y as int, avail as int, 0),
        ensures
            rows@ == theme_rows(scroll as int, selected as int, current@ as int, list_y as int, avail as int, 0),
        decreases avail - vi,
    {
        if scroll >= THEME_COUNT || vi as usize >= THEME_COUNT - scroll {
            proof {
                assert(rows@ + Seq::<ThemeRow>::empty() =~= rows@);
            }
            break;
        }
        let i = scroll + vi as usize;
        let name = LoaderTheme::at(i).name();
        let row = ThemeRow {
            index: i,
            y: list_y + vi,
            selected: i == selected,
            active: str_eq(name, current_name),
        };
        let ghost rest = theme_rows(scroll as int, selected as int, current@ as int, list_y as int, avail as int, vi + 1);
        proof {
            assert(rows@.push(row) + rest =~= rows@ + (seq![row] + rest));
        }
        rows.push(row);
        vi = vi + 1;
    }
    proof {
        if vi >= avail {
            assert(rows@ + Seq::<ThemeRow>::empty() =~= rows@);
        }
    }
    Some(ThemeModalLayout { modal_rect, inner, list_y, rows })
}

impl App {
    /// Lays out the theme picker over `area` and records where it is for the
    /// mouse. Gives `None`, changing nothing, when the layout leaves `u16`.
    pub fn layout_theme_modal(&mut self, area: Rect) -> (r: Option<ThemeModalLayout>)
        ensures
            theme_modal_spec(area, old(self).theme_scroll, old(self).theme_selected, old(self).loader_theme@, r),
            r is None ==> final(self)@ == old(self)@,
            r matches Some(l) ==> final(self)@ == (AppModel { theme_modal_rect: l.modal_rect, ..old(self)@ }),
    {
        let r = theme_modal_layout(area, self.theme_scroll, self.theme_selected, self.loader_theme);
        match &r {
            Some(l) => {
                self.theme_modal_rect = l.modal_rect;
            },
            None => {},
        }
        r
    }
}

/// What is drawn is what is clicked: after the theme picker is laid out, moving
/// the pointer onto a theme's row previews that theme, and a left click there
/// keeps it and closes the picker.
pub proof fn law_theme_click_selects_drawn(m: AppModel, area: Rect, l: ThemeModalLayout, k: int, col: u16)
    requires
        m.mode == crate::app::Mode::ThemePicker,
        theme_modal_spec(area, m.theme_scroll, m.theme_selected, m.loader_theme, Some(l)),
        0 <= k < l.rows@.len(),
        l.inner.x <= col < l.inner.x + l.inner.width,
    ensures
        ({
            let placed = AppModel { theme_modal_rect: l.modal_rect, ..m };
            let row = l.rows@[k];
            let moved = crate::event::MouseEvent { kind: crate::event::MouseEventKind::Moved, column: col, row: row.y };
            let click = crate::event::MouseEvent {
                kind: crate::event::MouseEventKind::Up(crate::event::MouseButton::Left),
                column: col,
                row: row.y,
            };
            &&& placed.mouse(moved).theme_selected == row.index
            &&& placed.mouse(moved).loader_theme == row.index
            &&& placed.mouse(click).theme_saved == row.index
            &&& placed.mouse(click).mode == crate::app::Mode::Normal
        }),
{
    lemma_theme_rows(m.theme_scroll as int, m.theme_selected as int, m.loader_theme as int, l.list_y as int,
        if l.inner.y + l.inner.height >= l.inner.y + 2 { l.inner.height - 2 } else { 0 }, 0);
}

/// Each theme row shows theme `scroll + offset` on row `list_y + offset`.
proof fn lemma_theme_rows(scroll: int, selected: int, current: int, list_y: int, avail: int, vi: int)
    requires
        0 <= vi,
        0 <= scroll,
        0 <= list_y,
        list_y + avail <= u16::MAX,
    ensures
        forall|k: int|
            0 <= k < theme_rows(scroll, selected, current, list_y, avail, vi).len() ==> {
                let row = #[trigger] theme_rows(scroll, selected, current, list_y, avail, vi)[k];
                &&& row.index == scroll + vi + k
                &&& row.y == list_y + vi + k
                &&& vi + k < avail
                &&& row.index < THEME_COUNT
            },
    decreases avail - vi,
{
    if !(vi >= avail || scroll + vi >= THEME_COUNT) {
        lemma_theme_rows(scroll, selected, current, list_y, avail, vi + 1);
        let rest = theme_rows(scroll, selected, current, list_y, avail, vi + 1);
        let all = theme_rows(scroll, selected, current, list_y, avail, vi);
        assert forall|k: int| 0 <= k < all.len() implies {
            let row = #[trigger] all[k];
            &&& row.index == scroll + vi + k
            &&& row.y == list_y + vi + k
            &&& vi + k < avail
            &&& row.index < THEME_COUNT
        } by {
            if k > 0 {
                assert(all[k] == rest[k - 1]);
            } else {
                assert(all[0].index == (scroll + vi) as usize);
            }
        }
    }
}

} // verus!
