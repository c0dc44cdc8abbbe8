//! Where the command palette draws its frame, sections and commands.
use vstd::prelude::*;

use crate::app::App;
use crate::commands::{palette_item_row, palette_walk, spec_filtered_commands, Command};
use crate::geometry::Rect;
use crate::text::str_eq;

verus! {

/// A line of the palette's list: a section header, or a command with its
/// shortcut right-aligned.
#[derive(Clone, Copy, Debug)]
pub enum PaletteEntry {
    Header { section: &'static str, y: u16 },
    Item {
        index: usize,
        name: &'static str,
        shortcut: &'static str,
        y: u16,
        selected: bool,
        shortcut_x: u16,
        shortcut_width: u16,
    },
}

/// Where the palette is drawn: its frame, the area inside it, the search row,
/// the first list row and the list's lines.
#[derive(Clone, Debug)]
pub struct PaletteLayout {
    pub modal_rect: Rect,
    pub inner: Rect,
    pub search_y: u16,
    pub list_y: u16,
    pub entries: Vec<PaletteEntry>,
}

/// The number of sections among `f`, counting a new one at each change.
pub open spec fn section_count(f: Seq<Command>, n: int) -> int
    decreases n,
{
    if n <= 0 {
        0
    } else {
        let last = palette_walk(f, 0, n - 1).1;
        section_count(f, n - 1) + if f[n - 1].section@ != last {
            1int
        } else {
            0int
        }
    }
}

/// The palette's frame for `n` commands in `sections` sections over `area`: 50
/// columns wide and tall enough for the title, search, commands and headers,
/// both at most the area minus 4, centered.
pub open spec fn palette_modal(area: Rect, n: int, sections: int) -> (int, int, int, int) {
    let w = if area.width >= 4 {
        area.width - 4
    } else {
        0
    };
    let modal_w = if 50 <= w {
        50
    } else {
        w
    };
    let content_h = 4 + n + sections * 2 + 1;
    let h = if area.height >= 4 {
        area.height - 4
    } else {
        0
    };
    let modal_h = if content_h <= h {
        content_h
    } else {
        h
    };
    let modal_x = area.x + (area.width - modal_w) / 2;
    let modal_y = area.y + (area.height - modal_h) / 2;
    (modal_x, modal_y, modal_w, modal_h)
}

/// The name shown for a command: "Show sidebar" reads "Hide sidebar" while the
/// sidebar is shown.
pub open spec fn shown_name(c: Command, sidebar_visible: bool) -> &'static str {
    if c.name@ == "Show sidebar"@ && sidebar_visible {
        "Hide sidebar"
    } else {
        c.name
    }
}

/// The state of laying out the list: lines so far, the next free row, the
/// current section, and whether the list ran out of rows.
pub struct PaletteWalk {
    pub entries: Seq<PaletteEntry>,
    pub cy: int,
    pub last: Seq<char>,
    pub done: bool,
    pub overflow: bool,
}

/// Lays out command `i` of `f` after `st`, inside `inner`: a blank row and a
/// header when the section changes, then the command's row, stopping when the
/// rows run out, or when the shortcut's width cannot be padded within `u16`.
pub open spec fn palette_step(
    st: PaletteWalk,
    f: Seq<Command>,
    i: int,
    inner: Rect,
    selected: usize,
    sidebar_visible: bool,
) -> PaletteWalk {
    let bottom = inner.y + inner.height;
    let c = f[i];
    if st.done || st.cy >= bottom {
        PaletteWalk { done: true, ..st }
    } else {
        let head = if c.section@ != st.last {
            let cy1 = if st.last.len() != 0 {
                st.cy + 1
            } else {
                st.cy
            };
            if cy1 >= bottom {
                PaletteWalk { cy: cy1, done: true, ..st }
            } else {
                PaletteWalk {
                    entries: st.entries.push(PaletteEntry::Header { section: c.section, y: cy1 as u16 }),
                    cy: cy1 + 1,
                    last: c.section@,
                    done: cy1 + 1 >= bottom,
                    overflow: false,
                }
            }
        } else {
            st
        };
        if head.done {
            head
        } else if (c.shortcut.len() as u16) == u16::MAX {
            PaletteWalk { done: true, overflow: true, ..head }
        } else {
            let sw = (c.shortcut.len() as u16) as int;
            let sx = inner.x + if inner.width >= sw + 1 {
                inner.width - (sw + 1)
            } else {
                0
            };
            PaletteWalk {
                entries: head.entries.push(
                    PaletteEntry::Item {
                        index: i as usize,
                        name: shown_name(c, sidebar_visible),
                        shortcut: c.shortcut,
                        y: head.cy as u16,
                        selected: i == selected,
                        shortcut_x: sx as u16,
                        shortcut_width: sw as u16,
                    },
                ),
                cy: head.cy + 1,
                ..head
            }
        }
    }
}

/// The list's layout after the first `n` commands of `f`, starting at `list_y`.
pub open spec fn palette_lines(
    f: Seq<Command>,
    n: int,
    list_y: int,
    inner: Rect,
    selected: usize,
    sidebar_visible: bool,
) -> PaletteWalk
    decreases n,
{
    if n <= 0 {
        PaletteWalk {
            entries: Seq::empty(),
            cy: list_y,
            last: Seq::empty(),
            done: false,
            overflow: false,
        }
    } else {
        palette_step(
            palette_lines(f, n - 1, list_y, inner, selected, sidebar_visible),
            f,
            n - 1,
            inner,
            selected,
            sidebar_visible,
        )
    }
}

/// Whether laying out the palette over `area` for `f` stays within `u16`: the
/// inner area's corner and the search and list rows fit.
pub open spec fn palette_fits(area: Rect, f: Seq<Command>) -> bool {
    let (x, y, w, h) = palette_modal(area, f.len() as int, section_count(f, f.len() as int));
    let mr = Rect::spec_new(x as u16, y as u16, w as u16, h as u16);
    &&& x + 2 <= u16::MAX
    &&& y + 1 <= u16::MAX
    &&& ({
        let inner = Rect::spec_new(
            (mr.x + 2) as u16,
            (mr.y + 1) as u16,
            if mr.width >= 4 {
                (mr.width - 4) as u16
            } else {
                0
            },
            if mr.height >= 2 {
                (mr.height - 2) as u16
            } else {
                0
            },
        );
        inner.width != 0 && inner.height != 0 ==> inner.y + 4 <= u16::MAX
    })
}

/// The inner area of a palette frame: two columns in from the sides and one row
/// in from the top and bottom.
pub open spec fn palette_inner(mr: Rect) -> Rect {
    Rect::spec_new(
        (mr.x + 2) as u16,
        (mr.y + 1) as u16,
        if mr.width >= 4 {
            (mr.width - 4) as u16
        } else {
            0
        },
        if mr.height >= 2 {
            (mr.height - 2) as u16
        } else {
            0
        },
    )
}

/// The palette's frame for `f` over `area`.
pub open spec fn palette_frame(area: Rect, f: Seq<Command>) -> Rect {
    let (x, y, w, h) = palette_modal(area, f.len() as int, section_count(f, f.len() as int));
    Rect::spec_new(x as u16, y as u16, w as u16, h as u16)
}

/// Whether laying out the list would pad a shortcut's width past `u16`.
pub open spec fn palette_overflows(area: Rect, f: Seq<Command>, selected: usize, sidebar_visible: bool) -> bool {
    let inner = palette_inner(palette_frame(area, f));
    &&& inner.width != 0 && inner.height != 0
    &&& palette_lines(f, f.len() as int, inner.y + 4, inner, selected, sidebar_visible).overflow
}

/// The number of sections among `f`.
fn count_sections(f: &Vec<Command>) -> (n: u16)
    requires
        f@.len() <= u16::MAX,
    ensures
        n == section_count(f@, f@.len() as int),
        n <= f@.len(),
{
    let empty = "";
    proof {
        reveal_strlit("");
        assert(empty@ =~= Seq::<char>::empty());
    }
    let mut count: u16 = 0;
    let mut last: &str = empty;
    let mut i: usize = 0;
    while i < f.len()
        invariant
            i <= f@.len() <= u16::MAX,
            count == section_count(f@, i as int),
            count <= i,
            last@ == palette_walk(f@, 0, i as int).1,
        decreases f@.len() - i,
    {
        let c = f[i];
        if !str_eq(c.section, last) {
            count = count + 1;
        }
        last = c.section;
        i = i + 1;
    }
    count
}

/// What `palette_layout` gives: `None` exactly when the layout leaves `u16`;
/// otherwise the frame, the inner area and, when that is not empty, the search
/// row two rows below the title, the list four rows below it, and the list's
/// lines.
pub open spec fn palette_layout_spec(
    area: Rect,
    f: Seq<Command>,
    selected: usize,
    sidebar_visible: bool,
    r: Option<PaletteLayout>,
) -> bool {
    &&& r is None <==> !palette_fits(area, f) || palette_overflows(area, f, selected, sidebar_visible)
    &&& r matches Some(l) ==> {
        let mr = palette_frame(area, f);
        let inner = palette_inner(mr);
        &&& l.modal_rect == mr
        &&& l.inner == inner
        &&& (inner.width == 0 || inner.height == 0) ==> l.entries@.len() == 0
        &&& (inner.width != 0 && inner.height != 0) ==> {
            &&& l.search_y == inner.y + 2
            &&& l.list_y == inner.y + 4
            &&& l.entries@ == palette_lines(
                f,
                f.len() as int,
                l.list_y as int,
                inner,
                selected,
                sidebar_visible,
            ).entries
        }
    }
}

/// Lays out the command palette over `area` for the listed commands `f`, with
/// command `selected` highlighted: see `palette_frame`, `palette_inner` and
/// `palette_lines`. The search row is two rows below the title and the list
/// starts two rows below that. Gives `None` when the layout leaves `u16`.
pub fn palette_layout(area: Rect, f: &Vec<Command>, selected: usize, sidebar_visible: bool) -> (r:
    Option<PaletteLayout>)
    requires
        3 * f@.len() + 5 <= u16::MAX,
    ensures
        palette_layout_spec(area, f@, selected, sidebar_visible, r),
{
    let n = f.len() as u16;
    let sections = count_sections(f);
    let modal_w = if 50 <= area.width.saturating_sub(4) {
        50
    } else {
        area.width.saturating_sub(4)
    };
    let content_h = 1 + 1 + 1 + 1 + n + sections * 2 + 1;
    let avail_h = area.height.saturating_sub(4);
    let modal_h = if content_h <= avail_h {
        content_h
    } else {
        avail_h
    };
    let off_x = (area.width - modal_w) / 2;
    let off_y = (area.height - modal_h) / 2;
    if area.x > u16::MAX - off_x || area.y > u16::MAX - off_y {
        return None;
    }
    let modal_x = area.x + off_x;
    let modal_y = area.y + off_y;
    if modal_x > u16::MAX - 2 || modal_y > u16::MAX - 1 {
        return None;
    }
    let modal_rect = Rect::new(modal_x, modal_y, modal_w, modal_h);
    let inner = Rect::new(
        modal_rect.x + 2,
        modal_rect.y + 1,
        modal_rect.width.saturating_sub(4),
        modal_rect.height.saturating_sub(2),
    );
    if inner.is_empty() {
        return Some(
            PaletteLayout { modal_rect, inner, search_y: 0, list_y: 0, entries: Vec::new() },
        );
    }
    if inner.y > u16::MAX - 4 {
        return None;
    }
    let search_y = inner.y + 2;
    let list_y = search_y + 2;
    let bottom = inner.y + inner.height;
    let empty = "";
    let show_label = "Show sidebar";
    let hide_label = "Hide sidebar";
    proof {
        reveal_strlit("");
        assert(empty@ =~= Seq::<char>::empty());
    }
    let mut entries: Vec<PaletteEntry> = Vec::new();
    let mut cy: u16 = list_y;
    let mut last: &str = empty;
    let mut i: usize = 0;
    while i < f.len()
        invariant_except_break
            i <= f@.len(),
            bottom == inner.y + inner.height,
            bottom <= u16::MAX,
            inner.x + inner.width <= u16::MAX,
            show_label == "Show sidebar",
            hide_label == "Hide sidebar",
            inner == palette_inner(palette_frame(area, f@)),
            inner.width != 0 && inner.height != 0,
            list_y == inner.y + 4,
            ({
                let st = palette_lines(f@, i as int, list_y as int, inner, selected, sidebar_visible);
                &&& !st.done
                &&& !st.overflow
                &&& entries@ == st.entries
                &&& cy == st.cy
                &&& last@ == st.last
            }),
        ensures
            entries@ == palette_lines(
                f@,
                f@.len() as int,
                list_y as int,
                inner,
                selected,
                sidebar_visible,
            ).entries,
            !palette_lines(f@, f@.len() as int, list_y as int, inner, selected, sidebar_visible).overflow,
        decreases f@.len() - i,
    {
        let c = f[i];
        if cy >= bottom {
            proof {
                lemma_palette_lines_done(f@, i as int, f@.len() as int, list_y as int, inner, selected, sidebar_visible);
            }
            break;
        }
        if !str_eq(c.section, last) {
            if !last.is_empty() {
                cy = cy + 1;
                if cy >= bottom {
                    proof {
                        lemma_palette_lines_done(f@, i + 1, f@.len() as int, list_y as int, inner, selected, sidebar_visible);
                    }
                    break;
                }
            }
            last = c.section;
            entries.push(PaletteEntry::Header { section: c.section, y: cy });
            cy = cy + 1;
            if cy >= bottom {
                proof {
                    lemma_palette_lines_done(f@, i + 1, f@.len() as int, list_y as int, inner, selected, sidebar_visible);
                }
                break;
            }
        }
        let name = if str_eq(c.name, show_label) && sidebar_visible {
            hide_label
        } else {
            c.name
        };
        let sw = c.shortcut.len() as u16;
        if sw == u16::MAX {
            proof {
                assert(palette_lines(f@, i + 1, list_y as int, inner, selected, sidebar_visible).overflow);
                lemma_palette_lines_done(f@, i + 1, f@.len() as int, list_y as int, inner, selected, sidebar_visible);
            }
            return None;
        }
        let sx = inner.x + inner.width.saturating_sub(sw + 1);
        entries.push(
            PaletteEntry::Item {
                index: i,
                name,
                shortcut: c.shortcut,
                y: cy,
                selected: i == selected,
                shortcut_x: sx,
                shortcut_width: sw,
            },
        );
        cy = cy + 1;
        i = i + 1;
    }
    Some(PaletteLayout { modal_rect, inner, search_y, list_y, entries })
}

/// Once the list has run out of rows, later commands add nothing.
proof fn lemma_palette_lines_done(
    f: Seq<Command>,
    i: int,
    n: int,
    list_y: int,
    inner: Rect,
    selected: usize,
    sidebar_visible: bool,
)
    requires
        0 <= i <= n,
        palette_lines(f, i, list_y, inner, selected, sidebar_visible).done || palette_lines(
            f,
            i,
            list_y,
            inner,
            selected,
            sidebar_visible,
        ).cy >= inner.y + inner.height,
    ensures
        palette_lines(f, n, list_y, inner, selected, sidebar_visible).entries == palette_lines(
            f,
            i,
            list_y,
            inner,
            selected,
            sidebar_visible,
        ).entries,
        palette_lines(f, n, list_y, inner, selected, sidebar_visible).cy == palette_lines(
            f,
            i,
            list_y,
            inner,
            selected,
            sidebar_visible,
        ).cy,
        n > i ==> palette_lines(f, n, list_y, inner, selected, sidebar_visible).done,
        palette_lines(f, n, list_y, inner, selected, sidebar_visible).overflow == palette_lines(
            f,
            i,
            list_y,
            inner,
            selected,
            sidebar_visible,
        ).overflow,
    decreases n - i,
{
    if n > i {
        lemma_palette_lines_done(f, i, n - 1, list_y, inner, selected, sidebar_visible);
    }
}

impl App {
    /// Lays out the command palette over `area` for the current search and
    /// selection, and records where its frame and list are for the mouse. Gives
    /// `None`, changing nothing, when the layout leaves `u16`.
    pub fn layout_command_palette(&mut self, area: Rect) -> (r: Option<PaletteLayout>)
        ensures
            palette_layout_spec(
                area,
                spec_filtered_commands(old(self).command_search@),
                old(self).command_selected,
                old(self).view.sidebar_visible,
                r,
            ),
            r is None ==> final(self)@ == old(self)@,
            r matches Some(l) ==> final(self)@ == (crate::app::AppModel {
                command_modal_rect: l.modal_rect,
                command_list_y: if l.inner.width != 0 && l.inner.height != 0 {
                    l.list_y
                } else {
                    old(self).command_list_y
                },
                ..old(self)@
            }),
    {
        let filtered = self.filtered_commands();
        proof {
            crate::laws::lemma_filtered_commands_len(self.command_search@);
        }
        let r = palette_layout(area, &filtered, self.command_selected, self.view.sidebar_visible);
        match &r {
            Some(l) => {
                self.command_modal_rect = l.modal_rect;
                if !l.inner.is_empty() {
                    self.command_list_y = l.list_y;
                }
            },
            None => {},
        }
        r
    }
}

/// Every command line of the list sits on the row the palette's hit test gives
/// that command, inside the inner area, at or below the list's first row; and as
/// long as the list has not run out, the layout follows the walk of the hit test.
proof fn lemma_palette_lines_rows(
    f: Seq<Command>,
    n: int,
    list_y: int,
    inner: Rect,
    selected: usize,
    sidebar_visible: bool,
)
    requires
        0 <= n <= f.len(),
        f.len() <= usize::MAX,
        inner.y <= list_y,
        inner.y + inner.height <= u16::MAX,
    ensures
        ({
            let st = palette_lines(f, n, list_y, inner, selected, sidebar_visible);
            &&& !st.done ==> (st.cy, st.last) == palette_walk(f, list_y, n)
            &&& forall|k: int|
                0 <= k < st.entries.len() ==> (#[trigger] st.entries[k] matches PaletteEntry::Item {
                    index,
                    y,
                    ..
                } ==> {
                    &&& index < n
                    &&& y == palette_item_row(f, list_y, index as int)
                    &&& list_y <= y < inner.y + inner.height
                })
        }),
    decreases n,
{
    if n > 0 {
        lemma_palette_lines_rows(f, n - 1, list_y, inner, selected, sidebar_visible);
        crate::laws::lemma_palette_walk_bound(f, list_y, n - 1);
        let st = palette_lines(f, n - 1, list_y, inner, selected, sidebar_visible);
        let next = palette_lines(f, n, list_y, inner, selected, sidebar_visible);
        assert(next == palette_step(st, f, n - 1, inner, selected, sidebar_visible));
        assert forall|k: int| 0 <= k < next.entries.len() implies (#[trigger] next.entries[k] matches PaletteEntry::Item {
            index,
            y,
            ..
        } ==> {
            &&& index < n
            &&& y == palette_item_row(f, list_y, index as int)
            &&& list_y <= y < inner.y + inner.height
        }) by {
            if k < st.entries.len() {
                assert(next.entries[k] == st.entries[k]);
            }
        }
    }
}

/// Palette rows grow with the command's position.
proof fn lemma_palette_rows_increase(f: Seq<Command>, list_y: int, j: int, k: int)
    requires
        0 <= j < k < f.len(),
    ensures
        palette_item_row(f, list_y, j) < palette_item_row(f, list_y, k),
    decreases k - j,
{
    crate::laws::lemma_palette_walk_bound(f, list_y, k);
    if j + 1 < k {
        lemma_palette_rows_increase(f, list_y, j, k - 1);
        crate::laws::lemma_palette_walk_bound(f, list_y, k - 1);
    } else {
        crate::laws::lemma_palette_walk_bound(f, list_y, j);
    }
}

/// The hit test finds command `i` on its own row.
proof fn lemma_palette_hit_own_row(f: Seq<Command>, list_y: int, i: int)
    requires
        0 <= i < f.len(),
    ensures
        crate::commands::palette_hit(f, list_y, palette_item_row(f, list_y, i)) == Some(i),
{
    let row = palette_item_row(f, list_y, i);
    assert forall|k: int| 0 <= k < i implies palette_item_row(f, list_y, k) != row by {
        lemma_palette_rows_increase(f, list_y, k, i);
    }
    lemma_palette_hit_skip(f, list_y, row, 0, i);
}

/// The hit test passes over commands whose rows differ from `row`.
proof fn lemma_palette_hit_skip(f: Seq<Command>, list_y: int, row: int, from: int, i: int)
    requires
        0 <= from <= i < f.len(),
        forall|k: int| from <= k < i ==> palette_item_row(f, list_y, k) != row,
        palette_item_row(f, list_y, i) == row,
    ensures
        crate::commands::palette_hit_from(f, list_y, row, from) == Some(i),
    decreases i - from,
{
    if from < i {
        lemma_palette_hit_skip(f, list_y, row, from + 1, i);
    }
}

/// What is drawn is what is clicked: after the palette is laid out, moving the
/// pointer onto a command's row inside the palette selects that command, and a
/// left click there selects it and closes the palette.
pub proof fn law_palette_click_selects_drawn(
    m: crate::app::AppModel,
    area: Rect,
    l: PaletteLayout,
    k: int,
    col: u16,
)
    requires
        m.mode == crate::app::Mode::CommandPalette,
        palette_layout_spec(
            area,
            spec_filtered_commands(m.command_search),
            m.command_selected,
            m.view.sidebar_visible,
            Some(l),
        ),
        l.inner.width != 0 && l.inner.height != 0,
        0 <= k < l.entries@.len(),
        l.entries@[k] is Item,
        l.inner.x <= col < l.inner.x + l.inner.width,
    ensures
        ({
            let placed = crate::app::AppModel {
                command_modal_rect: l.modal_rect,
                command_list_y: l.list_y,
                ..m
            };
            let row = l.entries@[k]->Item_y;
            let i = l.entries@[k]->Item_index;
            let moved = crate::event::MouseEvent { kind: crate::event::MouseEventKind::Moved, column: col, row };
            let click = crate::event::MouseEvent {
                kind: crate::event::MouseEventKind::Up(crate::event::MouseButton::Left),
                column: col,
                row,
            };
            &&& placed.mouse(moved).command_selected == i
            &&& placed.mouse(click).command_selected == i
            &&& placed.mouse(click).mode == crate::app::Mode::Normal
        }),
{
    let f = spec_filtered_commands(m.command_search);
    crate::laws::lemma_filtered_commands_len(m.command_search);
    let mr = palette_frame(area, f);
    let inner = palette_inner(mr);
    lemma_palette_lines_rows(f, f.len() as int, l.list_y as int, inner, m.command_selected, m.view.sidebar_visible);
    let e = l.entries@[k];
    let i = e->Item_index;
    lemma_palette_hit_own_row(f, l.list_y as int, i as int);
}

} // verus!
