//! The interface state and how every key and mouse event changes it.
use vstd::prelude::*;

use ratatui_opentui_loader::KittLoader;

use crate::commands::{
    filtered_commands, filtered_slash_commands, palette_hit, palette_hit_fits, palette_hit_from,
    palette_item_row, palette_walk, spec_commands, spec_filtered_commands,
    spec_filtered_slash_commands, Command,
};
use crate::event::{Event, KeyCode, KeyEventKind, KeyModifiers, MouseButton, MouseEvent, MouseEventKind};
use crate::geometry::Rect;
use crate::loader::{builtin_theme_name, loader_ticked, loader_with_theme, set_loader_theme, LoaderTheme};
use crate::messages::{demo_messages, spec_demo_messages, toggle_collapsed, toggled, MessageBlock, MessageView};
use crate::text::{first_char, str_eq, trimmed};
use crate::theme::{spec_theme_colors, theme_colors, ColorTheme, THEME_COUNT};

verus! {

/// Height of the input panel, in rows.
pub const INPUT_HEIGHT: u16 = 5;

/// Rows of the theme picker's list.
pub const THEME_VISIBLE_ROWS: usize = 15;

/// Ticks the loader stays visible after a message is sent (about 8 s at 40 ms a tick).
pub const LOADER_TICKS_AFTER_SUBMIT: u32 = 200;

/// Which part of the interface takes the keys.
#[derive(Clone, Copy, Debug, PartialEq, Eq, Structural)]
pub enum Mode {
    Normal,
    SlashMenu,
    CommandPalette,
    ThemePicker,
}

/// Which optional parts of the screen are shown.
#[derive(Clone, Copy, Debug, PartialEq, Eq, Structural)]
pub struct ViewOptions {
    pub sidebar_visible: bool,
    pub scrollbar_visible: bool,
}

/// The agent the input is addressed to.
#[derive(Clone, Copy, Debug, PartialEq, Eq, Structural)]
pub enum AgentMode {
    Build,
    Plan,
}

impl AgentMode {
    /// The other agent.
    pub open spec fn spec_next(self) -> AgentMode {
        match self {
            AgentMode::Build => AgentMode::Plan,
            AgentMode::Plan => AgentMode::Build,
        }
    }

    /// The other agent: Build and Plan take turns.
    pub fn next(self) -> (r: AgentMode)
        ensures
            r == self.spec_next(),
    {
        match self {
            AgentMode::Build => AgentMode::Plan,
            AgentMode::Plan => AgentMode::Build,
        }
    }

    /// The agent's name as shown in the input panel.
    pub fn label(self) -> (s: &'static str)
        ensures
            self == AgentMode::Build ==> s@ == "Build"@,
            self == AgentMode::Plan ==> s@ == "Plan"@,
    {
        match self {
            AgentMode::Build => "Build",
            AgentMode::Plan => "Plan",
        }
    }

    /// The color the agent is shown in: the theme's primary color for Build, its
    /// selection color for Plan.
    pub fn accent(self, theme: &ColorTheme) -> (c: crate::theme::Color)
        ensures
            self == AgentMode::Build ==> c == theme.primary,
            self == AgentMode::Plan ==> c == theme.palette_selected,
    {
        match self {
            AgentMode::Build => theme.primary,
            AgentMode::Plan => theme.palette_selected,
        }
    }
}

/// A key sequence that waits for its second key.
#[derive(Clone, Copy, Debug, PartialEq, Eq, Structural)]
pub enum KeyChord {
    CtrlX,
}

/// The whole interface state.
pub struct App {
    pub messages: Vec<MessageBlock>,
    pub scroll_offset: u16,
    pub loader: KittLoader,
    pub mouse_pos: (u16, u16),
    pub tool_block_rects: Vec<(usize, Rect)>,
    pub input: String,
    pub input_history: Vec<String>,
    pub history_index: Option<usize>,
    pub mode: Mode,
    pub command_selected: usize,
    pub command_search: String,
    pub command_modal_rect: Rect,
    pub command_list_y: u16,
    pub blink_on: bool,
    pub tick_count: u32,
    pub theme: ColorTheme,
    pub loader_theme: LoaderTheme,
    pub slash_selected: usize,
    pub theme_selected: usize,
    pub theme_saved: usize,
    pub theme_scroll: usize,
    pub theme_modal_rect: Rect,
    pub loader_visible_ticks: u32,
    pub view: ViewOptions,
    pub agent_mode: AgentMode,
    pub pending_chord: Option<KeyChord>,
}

/// The interface state as plain values, with the loader as it is.
pub struct AppModel {
    pub loader: KittLoader,
    pub messages: Seq<MessageView>,
    pub scroll_offset: u16,
    pub mouse_pos: (u16, u16),
    pub tool_block_rects: Seq<(usize, Rect)>,
    pub input: Seq<char>,
    pub input_history: Seq<Seq<char>>,
    pub history_index: Option<usize>,
    pub mode: Mode,
    pub command_selected: usize,
    pub command_search: Seq<char>,
    pub command_modal_rect: Rect,
    pub command_list_y: u16,
    pub blink_on: bool,
    pub tick_count: u32,
    pub theme: ColorTheme,
    pub loader_theme: nat,
    pub slash_selected: usize,
    pub theme_selected: usize,
    pub theme_saved: usize,
    pub theme_scroll: usize,
    pub theme_modal_rect: Rect,
    pub loader_visible_ticks: u32,
    pub view: ViewOptions,
    pub agent_mode: AgentMode,
    pub ctrl_x_pending: bool,
}

impl View for App {
    type V = AppModel;

    open spec fn view(&self) -> AppModel {
        AppModel {
            loader: self.loader,
            messages: self.messages@.map_values(|m: MessageBlock| m@),
            scroll_offset: self.scroll_offset,
            mouse_pos: self.mouse_pos,
            tool_block_rects: self.tool_block_rects@,
            input: self.input@,
            input_history: self.input_history@.map_values(|s: String| s@),
            history_index: self.history_index,
            mode: self.mode,
            command_selected: self.command_selected,
            command_search: self.command_search@,
            command_modal_rect: self.command_modal_rect,
            command_list_y: self.command_list_y,
            blink_on: self.blink_on,
            tick_count: self.tick_count,
            theme: self.theme,
            loader_theme: self.loader_theme@,
            slash_selected: self.slash_selected,
            theme_selected: self.theme_selected,
            theme_saved: self.theme_saved,
            theme_scroll: self.theme_scroll,
            theme_modal_rect: self.theme_modal_rect,
            loader_visible_ticks: self.loader_visible_ticks,
            view: self.view,
            agent_mode: self.agent_mode,
            ctrl_x_pending: self.pending_chord is Some,
        }
    }
}

/// `a - b`, or zero when `b` exceeds `a`.
pub open spec fn sub_or_zero(a: int, b: int) -> int {
    if a >= b {
        a - b
    } else {
        0
    }
}

/// The smaller of two integers.
pub open spec fn min_int(a: int, b: int) -> int {
    if a <= b {
        a
    } else {
        b
    }
}

impl AppModel {
    /// The state of a freshly started interface, with `loader` as the new
    /// loader.
    pub open spec fn initial(loader: KittLoader) -> AppModel {
        AppModel {
            loader,
            messages: spec_demo_messages(),
            scroll_offset: u16::MAX,
            mouse_pos: (0, 0),
            tool_block_rects: Seq::empty(),
            input: Seq::empty(),
            input_history: Seq::empty(),
            history_index: None,
            mode: Mode::Normal,
            command_selected: 0,
            command_search: Seq::empty(),
            command_modal_rect: Rect::spec_zero(),
            command_list_y: 0,
            blink_on: true,
            tick_count: 0,
            theme: spec_theme_colors(0),
            loader_theme: 0,
            slash_selected: 0,
            theme_selected: 0,
            theme_saved: 0,
            theme_scroll: 0,
            theme_modal_rect: Rect::spec_zero(),
            loader_visible_ticks: 0,
            view: ViewOptions { sidebar_visible: true, scrollbar_visible: true },
            agent_mode: AgentMode::Build,
            ctrl_x_pending: false,
        }
    }

    /// The mode that takes input: typing `/` at the start of the input in normal
    /// mode opens the slash menu.
    pub open spec fn effective_mode(self) -> Mode {
        if self.mode == Mode::Normal && self.input.len() > 0 && self.input[0] == '/' {
            Mode::SlashMenu
        } else {
            self.mode
        }
    }

    /// The state after switching to the built-in theme at `idx`, the loader
    /// recolored to it; an index past the list changes nothing.
    pub open spec fn apply_theme(self, idx: int) -> AppModel {
        if 0 <= idx < THEME_COUNT {
            AppModel {
                theme: spec_theme_colors(idx),
                loader_theme: idx as nat,
                loader: loader_with_theme(self.loader, idx),
                ..self
            }
        } else {
            self
        }
    }

    /// The state after submitting the input: the trimmed text is sent as a user
    /// message and remembered, and the view jumps to the bottom with the loader
    /// showing; `/themes` opens the theme picker at the current theme instead, and
    /// blank input changes nothing.
    pub open spec fn submit_input(self) -> AppModel {
        let text = trimmed(self.input);
        if text.len() == 0 {
            self
        } else if text == "/themes"@ {
            AppModel {
                input: Seq::empty(),
                mode: Mode::ThemePicker,
                theme_selected: self.loader_theme as usize,
                theme_saved: self.loader_theme as usize,
                ..self
            }
        } else {
            AppModel {
                input: Seq::empty(),
                input_history: self.input_history.push(text),
                history_index: None,
                messages: self.messages.push(MessageView::UserMessage(text)),
                scroll_offset: u16::MAX,
                loader_visible_ticks: LOADER_TICKS_AFTER_SUBMIT,
                ..self
            }
        }
    }

    /// The state after recalling the previous history entry: from the input line
    /// to the newest entry, then one older each time, stopping at the oldest.
    pub open spec fn history_up(self) -> AppModel {
        if self.input_history.len() == 0 {
            self
        } else {
            let idx: int = match self.history_index {
                None => self.input_history.len() - 1,
                Some(i) => if i == 0 {
                    0
                } else {
                    i - 1
                },
            };
            AppModel {
                history_index: Some(idx as usize),
                input: self.input_history[idx],
                ..self
            }
        }
    }

    /// The state after moving forward in the history: to the next newer entry, or
    /// past the newest back to an empty input line.
    pub open spec fn history_down(self) -> AppModel {
        match self.history_index {
            None => self,
            Some(i) => if i + 1 >= self.input_history.len() {
                AppModel { history_index: None, input: Seq::empty(), ..self }
            } else {
                AppModel {
                    history_index: Some((i + 1) as usize),
                    input: self.input_history[i + 1],
                    ..self
                }
            },
        }
    }

    /// The state after a key in the theme picker: Esc restores the saved theme and
    /// closes; Up and Down move the selection, scroll it into the fifteen visible
    /// rows and preview it; Enter keeps the selection and closes.
    pub open spec fn theme_key(self, code: KeyCode) -> AppModel {
        let count = THEME_COUNT as int;
        match code {
            KeyCode::Esc => AppModel { mode: Mode::Normal, ..self.apply_theme(self.theme_saved as int) },
            KeyCode::Up => {
                let sel = sub_or_zero(self.theme_selected as int, 1);
                let scroll = if sel < self.theme_scroll {
                    sel
                } else {
                    self.theme_scroll as int
                };
                AppModel {
                    theme_selected: sel as usize,
                    theme_scroll: scroll as usize,
                    ..self
                }.apply_theme(sel)
            },
            KeyCode::Down => {
                let sel = min_int(self.theme_selected + 1, sub_or_zero(count, 1));
                let scroll = if sel >= self.theme_scroll + THEME_VISIBLE_ROWS {
                    sel + 1 - THEME_VISIBLE_ROWS
                } else {
                    self.theme_scroll as int
                };
                AppModel {
                    theme_selected: sel as usize,
                    theme_scroll: scroll as usize,
                    ..self
                }.apply_theme(sel)
            },
            KeyCode::Enter => AppModel {
                theme_saved: self.theme_selected,
                mode: Mode::Normal,
                ..self.apply_theme(self.theme_selected as int)
            },
            _ => self,
        }
    }

    /// The state after a key in the command palette: Up and Down move the
    /// selection within the matching commands; Esc and Enter close the palette and
    /// clear the search; typing and Backspace edit the search and select the
    /// first match.
    pub open spec fn command_key(self, code: KeyCode) -> AppModel {
        match code {
            KeyCode::Up => AppModel {
                command_selected: sub_or_zero(self.command_selected as int, 1) as usize,
                ..self
            },
            KeyCode::Down => {
                let max = sub_or_zero(spec_filtered_commands(self.command_search).len() as int, 1);
                AppModel {
                    command_selected: min_int(self.command_selected + 1, max) as usize,
                    ..self
                }
            },
            KeyCode::Esc | KeyCode::Enter => AppModel {
                mode: Mode::Normal,
                command_search: Seq::empty(),
                command_selected: 0,
                ..self
            },
            KeyCode::Backspace => AppModel {
                command_search: if self.command_search.len() > 0 {
                    self.command_search.drop_last()
                } else {
                    self.command_search
                },
                command_selected: 0,
                ..self
            },
            KeyCode::Char(c) => AppModel {
                command_search: self.command_search.push(c),
                command_selected: 0,
                ..self
            },
            _ => self,
        }
    }

    /// The state after a key in the slash menu, and whether the interface quits:
    /// Esc clears the input; Up and Down move the selection within the matching
    /// commands; Enter puts the selected command into the input and submits it;
    /// typing and Backspace edit the input and select the first match; Ctrl+C and
    /// Ctrl+D quit.
    pub open spec fn slash_key(self, code: KeyCode, modifiers: KeyModifiers) -> (AppModel, bool) {
        let cmds = spec_filtered_slash_commands(self.input);
        match code {
            KeyCode::Esc => (AppModel { input: Seq::empty(), slash_selected: 0, ..self }, false),
            KeyCode::Up => (
                AppModel { slash_selected: sub_or_zero(self.slash_selected as int, 1) as usize, ..self },
                false,
            ),
            KeyCode::Down => {
                let max = sub_or_zero(cmds.len() as int, 1);
                (
                    AppModel {
                        slash_selected: min_int(self.slash_selected + 1, max) as usize,
                        ..self
                    },
                    false,
                )
            },
            KeyCode::Enter => {
                let input = if self.slash_selected < cmds.len() {
                    cmds[self.slash_selected as int].name@
                } else {
                    self.input
                };
                (AppModel { input, slash_selected: 0, ..self }.submit_input(), false)
            },
            KeyCode::Backspace => (
                AppModel {
                    input: if self.input.len() > 0 {
                        self.input.drop_last()
                    } else {
                        self.input
                    },
                    slash_selected: 0,
                    ..self
                },
                false,
            ),
            KeyCode::Char(c) => if (c == 'c' || c == 'd') && modifiers.control {
                (self, true)
            } else {
                (AppModel { input: self.input.push(c), slash_selected: 0, ..self }, false)
            },
            _ => (self, false),
        }
    }

    /// The state after a key in normal mode, and whether the interface quits.
    /// After Ctrl+X, `b` toggles the sidebar, `s` the scrollbar, and any other key
    /// does nothing. Otherwise Esc, Ctrl+C and Ctrl+D quit; Ctrl+X waits for the
    /// second key; Ctrl+P opens the command palette; Tab switches agent;
    /// Shift+Enter and Shift+J insert a line break; Enter submits; Up and Down walk
    /// the history; Page Up and Page Down scroll by ten rows; Backspace and typing
    /// edit the input.
    pub open spec fn normal_key(self, code: KeyCode, modifiers: KeyModifiers) -> (AppModel, bool) {
        let m = AppModel { ctrl_x_pending: false, ..self };
        if self.ctrl_x_pending {
            let r = match code {
                KeyCode::Char('b') => AppModel {
                    view: ViewOptions { sidebar_visible: !m.view.sidebar_visible, ..m.view },
                    ..m
                },
                KeyCode::Char('s') => AppModel {
                    view: ViewOptions { scrollbar_visible: !m.view.scrollbar_visible, ..m.view },
                    ..m
                },
                _ => m,
            };
            (r, false)
        } else {
            match code {
                KeyCode::Esc => (m, true),
                KeyCode::Char(c) => if (c == 'c' || c == 'd') && modifiers.control {
                    (m, true)
                } else if c == 'x' && modifiers.control {
                    (AppModel { ctrl_x_pending: true, ..m }, false)
                } else if c == 'p' && modifiers.control {
                    (
                        AppModel {
                            mode: Mode::CommandPalette,
                            command_search: Seq::empty(),
                            command_selected: 0,
                            ..m
                        },
                        false,
                    )
                } else if (c == 'j' || c == 'J') && modifiers.shift {
                    (AppModel { input: m.input.push('\n'), ..m }, false)
                } else {
                    (AppModel { history_index: None, input: m.input.push(c), ..m }, false)
                },
                KeyCode::Tab | KeyCode::BackTab => (
                    AppModel { agent_mode: m.agent_mode.spec_next(), ..m },
                    false,
                ),
                KeyCode::Enter => if modifiers.shift {
                    (AppModel { input: m.input.push('\n'), ..m }, false)
                } else {
                    (m.submit_input(), false)
                },
                KeyCode::Backspace => (
                    AppModel {
                        input: if m.input.len() > 0 {
                            m.input.drop_last()
                        } else {
                            m.input
                        },
                        ..m
                    },
                    false,
                ),
                KeyCode::Up => (m.history_up(), false),
                KeyCode::Down => (m.history_down(), false),
                KeyCode::PageUp => (
                    AppModel { scroll_offset: sub_or_zero(m.scroll_offset as int, 10) as u16, ..m },
                    false,
                ),
                KeyCode::PageDown => (
                    AppModel {
                        scroll_offset: min_int(m.scroll_offset + 10, u16::MAX as int) as u16,
                        ..m
                    },
                    false,
                ),
                _ => (m, false),
            }
        }
    }

    /// The state after a key press, and whether the interface quits: the key goes
    /// to the effective mode.
    pub open spec fn key(self, code: KeyCode, modifiers: KeyModifiers) -> (AppModel, bool) {
        match self.effective_mode() {
            Mode::ThemePicker => (self.theme_key(code), false),
            Mode::CommandPalette => (self.command_key(code), false),
            Mode::SlashMenu => self.slash_key(code, modifiers),
            Mode::Normal => self.normal_key(code, modifiers),
        }
    }
}

/// Whether a key can be handled in state `m` without running out of integer
/// range or indexing past the end of the history.
pub open spec fn key_safe(m: AppModel, code: KeyCode, modifiers: KeyModifiers) -> bool {
    match m.effective_mode() {
        Mode::ThemePicker => code == KeyCode::Down ==> {
            &&& m.theme_selected < usize::MAX
            &&& m.theme_scroll + THEME_VISIBLE_ROWS <= usize::MAX
        },
        Mode::CommandPalette => code == KeyCode::Down ==> m.command_selected < usize::MAX,
        Mode::SlashMenu => code == KeyCode::Down ==> m.slash_selected < usize::MAX,
        Mode::Normal => !m.ctrl_x_pending && code == KeyCode::Up ==> (m.history_index matches Some(
            i,
        ) ==> i <= m.input_history.len()),
    }
}

/// The first of `rects`, from position `k` on, that covers the cell `(col, row)`.
pub open spec fn rect_hit_from(rects: Seq<(usize, Rect)>, col: u16, row: u16, k: int) -> Option<int>
    decreases rects.len() - k,
{
    if k < 0 || k >= rects.len() {
        None
    } else if rects[k].1.spec_contains(col, row) {
        Some(k)
    } else {
        rect_hit_from(rects, col, row, k + 1)
    }
}

impl AppModel {
    /// The state after a mouse event over the theme picker. Inside the list, which
    /// starts three rows below the picker's top, moving previews the theme under
    /// the pointer and a left click keeps it and closes; the wheel scrolls the list
    /// within its length.
    pub open spec fn theme_mouse(self, ev: MouseEvent) -> AppModel {
        let r = self.theme_modal_rect;
        let list_y = r.y + 3;
        if r.height == 0 || !r.spec_contains(ev.column, ev.row) || ev.row < list_y {
            self
        } else {
            let row = ev.row - list_y + self.theme_scroll;
            if row >= THEME_COUNT {
                self
            } else {
                match ev.kind {
                    MouseEventKind::Moved => AppModel {
                        theme_selected: row as usize,
                        ..self
                    }.apply_theme(row),
                    MouseEventKind::Up(MouseButton::Left) => AppModel {
                        theme_saved: row as usize,
                        mode: Mode::Normal,
                        ..AppModel { theme_selected: row as usize, ..self }.apply_theme(row)
                    },
                    MouseEventKind::ScrollDown => AppModel {
                        theme_scroll: min_int(
                            self.theme_scroll + 1,
                            sub_or_zero(THEME_COUNT as int, THEME_VISIBLE_ROWS as int),
                        ) as usize,
                        ..self
                    },
                    MouseEventKind::ScrollUp => AppModel {
                        theme_scroll: sub_or_zero(self.theme_scroll as int, 1) as usize,
                        ..self
                    },
                    _ => self,
                }
            }
        }
    }

    /// The state after a mouse event over the command palette: over a listed
    /// command, moving selects it and a left click selects it, closes the palette
    /// and clears the search.
    pub open spec fn command_mouse(self, ev: MouseEvent) -> AppModel {
        let r = self.command_modal_rect;
        let list_y = self.command_list_y;
        if r.height == 0 || !r.spec_contains(ev.column, ev.row) || ev.row < list_y {
            self
        } else {
            match palette_hit(spec_filtered_commands(self.command_search), list_y as int, ev.row as int) {
                Some(idx) => match ev.kind {
                    MouseEventKind::Moved => AppModel { command_selected: idx as usize, ..self },
                    MouseEventKind::Up(MouseButton::Left) => AppModel {
                        command_selected: idx as usize,
                        mode: Mode::Normal,
                        command_search: Seq::empty(),
                        ..self
                    },
                    _ => self,
                },
                None => self,
            }
        }
    }

    /// The state after a mouse event in normal mode: the wheel scrolls by one row,
    /// and a left click on a tool-output block expands or collapses it.
    pub open spec fn normal_mouse(self, ev: MouseEvent) -> AppModel {
        match ev.kind {
            MouseEventKind::ScrollDown => AppModel {
                scroll_offset: min_int(self.scroll_offset + 1, u16::MAX as int) as u16,
                ..self
            },
            MouseEventKind::ScrollUp => AppModel {
                scroll_offset: sub_or_zero(self.scroll_offset as int, 1) as u16,
                ..self
            },
            MouseEventKind::Up(MouseButton::Left) => match rect_hit_from(
                self.tool_block_rects,
                ev.column,
                ev.row,
                0,
            ) {
                Some(k) => {
                    let idx = self.tool_block_rects[k].0 as int;
                    AppModel {
                        messages: self.messages.update(idx, toggled(self.messages[idx])),
                        ..self
                    }
                },
                None => self,
            },
            _ => self,
        }
    }

    /// The state after a mouse event while the slash menu is open: the wheel moves
    /// the selection within the matching commands; other events act as in normal
    /// mode. With no matching command nothing happens.
    pub open spec fn slash_mouse(self, ev: MouseEvent) -> AppModel {
        let cmds = spec_filtered_slash_commands(self.input);
        if cmds.len() == 0 {
            self
        } else {
            match ev.kind {
                MouseEventKind::ScrollDown => AppModel {
                    slash_selected: min_int(self.slash_selected + 1, cmds.len() - 1) as usize,
                    ..self
                },
                MouseEventKind::ScrollUp => AppModel {
                    slash_selected: sub_or_zero(self.slash_selected as int, 1) as usize,
                    ..self
                },
                _ => self.normal_mouse(ev),
            }
        }
    }

    /// The state after a mouse event, which goes to the effective mode.
    pub open spec fn mouse(self, ev: MouseEvent) -> AppModel {
        match self.effective_mode() {
            Mode::ThemePicker => self.theme_mouse(ev),
            Mode::CommandPalette => self.command_mouse(ev),
            Mode::SlashMenu => self.slash_mouse(ev),
            Mode::Normal => self.normal_mouse(ev),
        }
    }

    /// The state after an event, and whether the interface quits: key presses go
    /// to `key` (releases and repeats are ignored); mouse events record the pointer
    /// position and go to `mouse`; other events change nothing.
    pub open spec fn event(self, ev: Event) -> (AppModel, bool) {
        match ev {
            Event::Key(k) => if k.kind != KeyEventKind::Press {
                (self, false)
            } else {
                self.key(k.code, k.modifiers)
            },
            Event::Mouse(me) => (AppModel { mouse_pos: (me.column, me.row), ..self }.mouse(me), false),
            Event::Other => (self, false),
        }
    }
}

/// Whether a left click in normal mode finds, if anything, a block that exists.
pub open spec fn click_safe(m: AppModel, ev: MouseEvent) -> bool {
    ev.kind == MouseEventKind::Up(MouseButton::Left) ==> (rect_hit_from(
        m.tool_block_rects,
        ev.column,
        ev.row,
        0,
    ) matches Some(k) ==> m.tool_block_rects[k].0 < m.messages.len())
}

/// Whether a mouse event can be handled in state `m` without running out of
/// integer range or indexing past the end of the conversation.
pub open spec fn mouse_safe(m: AppModel, ev: MouseEvent) -> bool {
    match m.effective_mode() {
        Mode::ThemePicker => {
            let r = m.theme_modal_rect;
            r.height != 0 ==> {
                &&& r.y + 3 <= u16::MAX
                &&& (r.spec_contains(ev.column, ev.row) && ev.row >= r.y + 3 ==> ev.row - (r.y + 3)
                    + m.theme_scroll <= usize::MAX)
            }
        },
        Mode::CommandPalette => palette_hit_fits(
            spec_filtered_commands(m.command_search),
            m.command_list_y as int,
            ev.row as int,
        ),
        Mode::SlashMenu => {
            &&& (ev.kind == MouseEventKind::ScrollDown ==> m.slash_selected < usize::MAX)
            &&& click_safe(m, ev)
        },
        Mode::Normal => click_safe(m, ev),
    }
}

/// Whether event `ev` can be handled in state `m` without running out of integer
/// range or indexing past the end of a list.
pub open spec fn event_safe(m: AppModel, ev: Event) -> bool {
    match ev {
        Event::Key(k) => k.kind == KeyEventKind::Press ==> key_safe(m, k.code, k.modifiers),
        Event::Mouse(me) => mouse_safe(AppModel { mouse_pos: (me.column, me.row), ..m }, me),
        Event::Other => true,
    }
}

/// The states on which every event can be handled without running out of
/// integer range or indexing past the end of a list.
pub open spec fn app_wf(m: AppModel) -> bool {
    &&& (m.history_index matches Some(i) ==> i <= m.input_history.len())
    &&& m.command_selected < usize::MAX
    &&& m.slash_selected < usize::MAX
    &&& m.theme_selected < usize::MAX
    &&& m.loader_theme < THEME_COUNT
    &&& m.theme_scroll + u16::MAX + THEME_VISIBLE_ROWS <= usize::MAX
    &&& (m.theme_modal_rect.height == 0 || m.theme_modal_rect.y + 3 <= u16::MAX)
    &&& m.command_list_y + 3 * spec_commands().len() <= u16::MAX
    &&& forall|k: int|
        0 <= k < m.tool_block_rects.len() ==> (#[trigger] m.tool_block_rects[k]).0
            < m.messages.len()
}

impl App {
    /// A fresh interface: the sample conversation scrolled to the bottom, the
    /// OpenCode theme, Build mode, sidebar and scrollbar shown.
    pub fn new() -> (app: App)
        ensures
            app@ == AppModel::initial(app.loader),
    {
        let app = App {
            messages: demo_messages(),
            scroll_offset: u16::MAX,
            loader: KittLoader::new(),
            mouse_pos: (0, 0),
            tool_block_rects: Vec::new(),
            input: String::new(),
            input_history: Vec::new(),
            history_index: None,
            mode: Mode::Normal,
            command_selected: 0,
            command_search: String::new(),
            command_modal_rect: Rect::zero(),
            command_list_y: 0,
            blink_on: true,
            tick_count: 0,
            theme: theme_colors(0),
            loader_theme: LoaderTheme::opencode(),
            slash_selected: 0,
            theme_selected: 0,
            theme_saved: 0,
            theme_scroll: 0,
            theme_modal_rect: Rect::zero(),
            loader_visible_ticks: 0,
            view: ViewOptions { sidebar_visible: true, scrollbar_visible: true },
            agent_mode: AgentMode::Build,
            pending_chord: None,
        };
        assert(app.input_history@.map_values(|s: String| s@) =~= Seq::<Seq<char>>::empty());
        app
    }

    /// The palette commands that match the current search.
    pub fn filtered_commands(&self) -> (r: Vec<Command>)
        ensures
            r@ == spec_filtered_commands(self.command_search@),
    {
        filtered_commands(self.command_search.as_str())
    }

    /// The mode that takes input: normal mode turns into the slash menu while the
    /// input starts with `/`.
    pub fn effective_mode(&self) -> (mode: Mode)
        ensures
            mode == self@.effective_mode(),
    {
        if self.mode == Mode::Normal {
            match first_char(self.input.as_str()) {
                Some(c) => if c == '/' {
                    return Mode::SlashMenu;
                },
                None => {},
            }
        }
        self.mode
    }

    /// Switches to the built-in theme at `idx`, recoloring the loader too; an
    /// index past the list changes nothing. Switching to the same theme again
    /// changes nothing either.
    pub fn apply_theme(&mut self, idx: usize)
        ensures
            final(self)@ == old(self)@.apply_theme(idx as int),
            final(self)@.apply_theme(idx as int) == final(self)@,
    {
        if idx < THEME_COUNT {
            self.theme = theme_colors(idx);
            let lt = LoaderTheme::at(idx);
            self.loader_theme = lt;
            set_loader_theme(&mut self.loader, lt);
        }
    }

    /// The position in the theme list of the current loader theme, found by name:
    /// the current theme's own position, as the names are distinct.
    fn current_theme_position(&self) -> (p: usize)
        ensures
            p == self.loader_theme@,
    {
        let k = self.loader_theme.index();
        let current = self.loader_theme.name();
        let mut i: usize = 0;
        while i < THEME_COUNT
            invariant
                i <= k < THEME_COUNT,
                k == self.loader_theme@,
                current@ == builtin_theme_name(k as int),
                forall|j: int| 0 <= j < THEME_COUNT && j != k ==> #[trigger] builtin_theme_name(j) != current@,
            decreases THEME_COUNT - i,
        {
            let name = LoaderTheme::at(i).name();
            if str_eq(name, current) {
                assert(builtin_theme_name(i as int) == current@);
                return i;
            }
            assert(builtin_theme_name(i as int) != current@);
            i = i + 1;
        }
        0
    }

    /// Sends the input: see `AppModel::submit_input`.
    pub fn submit_input(&mut self)
        ensures
            final(self)@ == old(self)@.submit_input(),
    {
        let text = self.input.as_str().trim().to_owned();
        if text.as_str().is_empty() {
            return;
        }
        self.input.clear();
        let themes_cmd = "/themes";
        if str_eq(text.as_str(), themes_cmd) {
            let current = self.current_theme_position();
            self.mode = Mode::ThemePicker;
            self.theme_selected = current;
            self.theme_saved = current;
            return;
        }
        let ghost old_history = self.input_history@;
        let ghost old_messages = self.messages@;
        self.input_history.push(text.clone());
        self.history_index = None;
        self.messages.push(MessageBlock::UserMessage(text));
        self.scroll_offset = u16::MAX;
        self.loader_visible_ticks = LOADER_TICKS_AFTER_SUBMIT;
        proof {
            assert(self.input_history@ == old_history.push(text));
            assert(self.input_history@.map_values(|s: String| s@) =~= old_history.map_values(
                |s: String| s@,
            ).push(text@));
            assert(self.messages@.map_values(|m: MessageBlock| m@) =~= old_messages.map_values(
                |m: MessageBlock| m@,
            ).push(MessageView::UserMessage(text@)));
        }
    }

    /// Recalls the previous history entry: see `AppModel::history_up`.
    pub fn history_up(&mut self)
        requires
            old(self).history_index matches Some(i) ==> i <= old(self).input_history@.len(),
        ensures
            final(self)@ == old(self)@.history_up(),
    {
        if self.input_history.len() == 0 {
            return;
        }
        let idx = match self.history_index {
            None => self.input_history.len() - 1,
            Some(i) => if i == 0 {
                0
            } else {
                i - 1
            },
        };
        self.history_index = Some(idx);
        self.input = self.input_history[idx].clone();
    }

    /// Moves forward in the history: see `AppModel::history_down`.
    pub fn history_down(&mut self)
        ensures
            final(self)@ == old(self)@.history_down(),
    {
        match self.history_index {
            None => {},
            Some(i) => {
                if i >= self.input_history.len() || self.input_history.len() - i <= 1 {
                    self.history_index = None;
                    self.input.clear();
                } else {
                    self.history_index = Some(i + 1);
                    self.input = self.input_history[i + 1].clone();
                }
            },
        }
    }
}

impl App {
    /// Handles a key in the theme picker: see `AppModel::theme_key`.
    fn handle_key_theme(&mut self, code: KeyCode)
        requires
            code == KeyCode::Down ==> {
                &&& old(self).theme_selected < usize::MAX
                &&& old(self).theme_scroll + THEME_VISIBLE_ROWS <= usize::MAX
            },
        ensures
            final(self)@ == old(self)@.theme_key(code),
    {
        let count = THEME_COUNT;
        match code {
            KeyCode::Esc => {
                self.apply_theme(self.theme_saved);
                self.mode = Mode::Normal;
            },
            KeyCode::Up => {
                self.theme_selected = self.theme_selected.saturating_sub(1);
                if self.theme_selected < self.theme_scroll {
                    self.theme_scroll = self.theme_selected;
                }
                self.apply_theme(self.theme_selected);
            },
            KeyCode::Down => {
                let next = self.theme_selected + 1;
                let last = count.saturating_sub(1);
                self.theme_selected = if next < last {
                    next
                } else {
                    last
                };
                if self.theme_selected >= self.theme_scroll + THEME_VISIBLE_ROWS {
                    self.theme_scroll = self.theme_selected + 1 - THEME_VISIBLE_ROWS;
                }
                self.apply_theme(self.theme_selected);
            },
            KeyCode::Enter => {
                self.apply_theme(self.theme_selected);
                self.theme_saved = self.theme_selected;
                self.mode = Mode::Normal;
            },
            _ => {},
        }
    }

    /// Handles a key in the command palette: see `AppModel::command_key`.
    fn handle_key_command(&mut self, code: KeyCode)
        requires
            code == KeyCode::Down ==> old(self).command_selected < usize::MAX,
        ensures
            final(self)@ == old(self)@.command_key(code),
    {
        match code {
            KeyCode::Up => {
                self.command_selected = self.command_selected.saturating_sub(1);
            },
            KeyCode::Down => {
                let max = self.filtered_commands().len().saturating_sub(1);
                let next = self.command_selected + 1;
                self.command_selected = if next < max {
                    next
                } else {
                    max
                };
            },
            KeyCode::Esc | KeyCode::Enter => {
                self.mode = Mode::Normal;
                self.command_search.clear();
                self.command_selected = 0;
            },
            KeyCode::Backspace => {
                self.command_search.pop();
                self.command_selected = 0;
            },
            KeyCode::Char(c) => {
                self.command_search.push(c);
                self.command_selected = 0;
            },
            _ => {},
        }
    }

    /// Handles a key in the slash menu: see `AppModel::slash_key`.
    fn handle_key_slash(&mut self, code: KeyCode, modifiers: KeyModifiers) -> (quit: bool)
        requires
            code == KeyCode::Down ==> old(self).slash_selected < usize::MAX,
        ensures
            (final(self)@, quit) == old(self)@.slash_key(code, modifiers),
    {
        let cmds = filtered_slash_commands(self.input.as_str());
        match code {
            KeyCode::Esc => {
                self.input.clear();
                self.slash_selected = 0;
            },
            KeyCode::Up => {
                self.slash_selected = self.slash_selected.saturating_sub(1);
            },
            KeyCode::Down => {
                let max = cmds.len().saturating_sub(1);
                let next = self.slash_selected + 1;
                self.slash_selected = if next < max {
                    next
                } else {
                    max
                };
            },
            KeyCode::Enter => {
                if self.slash_selected < cmds.len() {
                    self.input = cmds[self.slash_selected].name.to_owned();
                }
                self.slash_selected = 0;
                self.submit_input();
            },
            KeyCode::Backspace => {
                self.input.pop();
                self.slash_selected = 0;
            },
            KeyCode::Char(c) => {
                if (c == 'c' || c == 'd') && modifiers.control {
                    return true;
                }
                self.input.push(c);
                self.slash_selected = 0;
            },
            _ => {},
        }
        false
    }

    /// Handles a key in normal mode: see `AppModel::normal_key`.
    fn handle_key_normal(&mut self, code: KeyCode, modifiers: KeyModifiers) -> (quit: bool)
        requires
            old(self).pending_chord is None && code == KeyCode::Up ==> (old(
                self,
            ).history_index matches Some(i) ==> i <= old(self).input_history@.len()),
        ensures
            (final(self)@, quit) == old(self)@.normal_key(code, modifiers),
    {
        let pending = self.pending_chord;
        self.pending_chord = None;
        if pending.is_some() {
            match code {
                KeyCode::Char('b') => self.view.sidebar_visible = !self.view.sidebar_visible,
                KeyCode::Char('s') => self.view.scrollbar_visible = !self.view.scrollbar_visible,
                _ => {},
            }
            return false;
        }
        match code {
            KeyCode::Esc => {
                return true;
            },
            KeyCode::Char(c) => {
                if (c == 'c' || c == 'd') && modifiers.control {
                    return true;
                } else if c == 'x' && modifiers.control {
                    self.pending_chord = Some(KeyChord::CtrlX);
                } else if c == 'p' && modifiers.control {
                    self.mode = Mode::CommandPalette;
                    self.command_search.clear();
                    self.command_selected = 0;
                } else if (c == 'j' || c == 'J') && modifiers.shift {
                    self.input.push('\n');
                } else {
                    self.history_index = None;
                    self.input.push(c);
                }
            },
            KeyCode::Tab | KeyCode::BackTab => {
                self.agent_mode = self.agent_mode.next();
            },
            KeyCode::Enter => {
                if modifiers.shift {
                    self.input.push('\n');
                } else {
                    self.submit_input();
                }
            },
            KeyCode::Backspace => {
                self.input.pop();
            },
            KeyCode::Up => self.history_up(),
            KeyCode::Down => self.history_down(),
            KeyCode::PageUp => {
                self.scroll_offset = self.scroll_offset.saturating_sub(10);
            },
            KeyCode::PageDown => {
                self.scroll_offset = self.scroll_offset.saturating_add(10);
            },
            _ => {},
        }
        false
    }

    /// Handles a key press in the effective mode: see `AppModel::key`.
    fn handle_key(&mut self, code: KeyCode, modifiers: KeyModifiers) -> (quit: bool)
        requires
            key_safe(old(self)@, code, modifiers),
        ensures
            (final(self)@, quit) == old(self)@.key(code, modifiers),
    {
        match self.effective_mode() {
            Mode::ThemePicker => {
                self.handle_key_theme(code);
                false
            },
            Mode::CommandPalette => {
                self.handle_key_command(code);
                false
            },
            Mode::SlashMenu => self.handle_key_slash(code, modifiers),
            Mode::Normal => self.handle_key_normal(code, modifiers),
        }
    }
}

impl App {
    /// Handles a mouse event over the theme picker: see `AppModel::theme_mouse`.
    fn handle_mouse_theme(&mut self, mouse: MouseEvent)
        requires
            old(self).theme_modal_rect.height != 0 ==> {
                let r = old(self).theme_modal_rect;
                &&& r.y + 3 <= u16::MAX
                &&& (r.spec_contains(mouse.column, mouse.row) && mouse.row >= r.y + 3 ==> mouse.row
                    - (r.y + 3) + old(self).theme_scroll <= usize::MAX)
            },
        ensures
            final(self)@ == old(self)@.theme_mouse(mouse),
    {
        let r = self.theme_modal_rect;
        if r.height == 0 {
            return;
        }
        let list_y = r.y + 3;
        if !r.contains(mouse.column, mouse.row) || mouse.row < list_y {
            return;
        }
        let row = (mouse.row - list_y) as usize + self.theme_scroll;
        let count = THEME_COUNT;
        if row >= count {
            return;
        }
        match mouse.kind {
            MouseEventKind::Moved => {
                self.theme_selected = row;
                self.apply_theme(row);
            },
            MouseEventKind::Up(MouseButton::Left) => {
                self.theme_selected = row;
                self.apply_theme(row);
                self.theme_saved = row;
                self.mode = Mode::Normal;
            },
            MouseEventKind::ScrollDown => {
                let max = count.saturating_sub(THEME_VISIBLE_ROWS);
                let next = self.theme_scroll + 1;
                self.theme_scroll = if next < max {
                    next
                } else {
                    max
                };
            },
            MouseEventKind::ScrollUp => {
                self.theme_scroll = self.theme_scroll.saturating_sub(1);
            },
            _ => {},
        }
    }

    /// Handles a mouse event over the command palette: see `AppModel::command_mouse`.
    fn handle_mouse_command(&mut self, mouse: MouseEvent)
        requires
            palette_hit_fits(
                spec_filtered_commands(old(self).command_search@),
                old(self).command_list_y as int,
                mouse.row as int,
            ),
        ensures
            final(self)@ == old(self)@.command_mouse(mouse),
    {
        let r = self.command_modal_rect;
        if r.height == 0 {
            return;
        }
        let list_y = self.command_list_y;
        if !r.contains(mouse.column, mouse.row) || mouse.row < list_y {
            return;
        }
        let filtered = self.filtered_commands();
        let ghost f = filtered@;
        let mut cy = list_y;
        let empty = "";
        proof {
            reveal_strlit("");
            assert(empty@ =~= Seq::<char>::empty());
        }
        let mut last_section: &str = empty;
        let mut target: Option<usize> = None;
        let mut i: usize = 0;
        while i < filtered.len()
            invariant_except_break
                i <= f.len(),
                f == filtered@,
                f == spec_filtered_commands(self.command_search@),
                palette_hit_fits(f, list_y as int, mouse.row as int),
                (cy as int, last_section@) == palette_walk(f, list_y as int, i as int),
                forall|k: int| 0 <= k < i ==> palette_item_row(f, list_y as int, k) != mouse.row,
                target is None,
                palette_hit(f, list_y as int, mouse.row as int) == palette_hit_from(
                    f,
                    list_y as int,
                    mouse.row as int,
                    i as int,
                ),
            ensures
                target matches Some(t) ==> palette_hit(f, list_y as int, mouse.row as int) == Some(
                    t as int,
                ),
                target is None ==> palette_hit(f, list_y as int, mouse.row as int) is None,
            decreases f.len() - i,
        {
            let cmd = filtered[i];
            let ghost row_i = palette_item_row(f, list_y as int, i as int);
            proof {
                assert(row_i <= u16::MAX);
            }
            if !str_eq(cmd.section, last_section) {
                if !last_section.is_empty() {
                    cy = cy + 1;
                }
                last_section = cmd.section;
                cy = cy + 1;
            }
            assert(cy == row_i);
            if cy == mouse.row {
                target = Some(i);
                break;
            }
            cy = cy + 1;
            i = i + 1;
        }
        match target {
            Some(idx) => {
                match mouse.kind {
                    MouseEventKind::Moved => {
                        self.command_selected = idx;
                    },
                    MouseEventKind::Up(MouseButton::Left) => {
                        self.command_selected = idx;
                        self.mode = Mode::Normal;
                        self.command_search.clear();
                    },
                    _ => {},
                }
            },
            None => {},
        }
    }

    /// Handles a mouse event in normal mode: see `AppModel::normal_mouse`.
    fn handle_mouse_normal(&mut self, mouse: MouseEvent)
        requires
            click_safe(old(self)@, mouse),
        ensures
            final(self)@ == old(self)@.normal_mouse(mouse),
    {
        match mouse.kind {
            MouseEventKind::ScrollDown => {
                self.scroll_offset = self.scroll_offset.saturating_add(1);
            },
            MouseEventKind::ScrollUp => {
                self.scroll_offset = self.scroll_offset.saturating_sub(1);
            },
            MouseEventKind::Up(MouseButton::Left) => {
                let mut k: usize = 0;
                while k < self.tool_block_rects.len()
                    invariant
                        k <= self.tool_block_rects@.len(),
                        self@ == old(self)@,
                        self.tool_block_rects@ == old(self).tool_block_rects@,
                        self.messages@.len() == old(self).messages@.len(),
                        mouse.kind == MouseEventKind::Up(MouseButton::Left),
                        click_safe(old(self)@, mouse),
                        rect_hit_from(self.tool_block_rects@, mouse.column, mouse.row, 0)
                            == rect_hit_from(self.tool_block_rects@, mouse.column, mouse.row, k as int),
                    decreases self.tool_block_rects@.len() - k,
                {
                    let (msg_idx, rect) = self.tool_block_rects[k];
                    if rect.contains(mouse.column, mouse.row) {
                        let ghost old_messages = self.messages@;
                        let blk = self.messages.remove(msg_idx);
                        self.messages.insert(msg_idx, toggle_collapsed(blk));
                        proof {
                            assert(self.messages@.map_values(|m: MessageBlock| m@) =~= old_messages.map_values(
                                |m: MessageBlock| m@,
                            ).update(msg_idx as int, toggled(old_messages[msg_idx as int]@)));
                        }
                        return;
                    }
                    k = k + 1;
                }
            },
            _ => {},
        }
    }

    /// Handles a mouse event while the slash menu is open: see `AppModel::slash_mouse`.
    fn handle_mouse_slash(&mut self, mouse: MouseEvent)
        requires
            mouse.kind == MouseEventKind::ScrollDown ==> old(self).slash_selected < usize::MAX,
            click_safe(old(self)@, mouse),
        ensures
            final(self)@ == old(self)@.slash_mouse(mouse),
    {
        let cmds = filtered_slash_commands(self.input.as_str());
        if cmds.len() == 0 {
            return;
        }
        match mouse.kind {
            MouseEventKind::ScrollDown => {
                let max = cmds.len() - 1;
                let next = self.slash_selected + 1;
                self.slash_selected = if next < max {
                    next
                } else {
                    max
                };
            },
            MouseEventKind::ScrollUp => {
                self.slash_selected = self.slash_selected.saturating_sub(1);
            },
            _ => self.handle_mouse_normal(mouse),
        }
    }

    /// Handles a mouse event in the effective mode: see `AppModel::mouse`.
    fn handle_mouse(&mut self, mouse: MouseEvent)
        requires
            mouse_safe(old(self)@, mouse),
        ensures
            final(self)@ == old(self)@.mouse(mouse),
    {
        match self.effective_mode() {
            Mode::ThemePicker => self.handle_mouse_theme(mouse),
            Mode::CommandPalette => self.handle_mouse_command(mouse),
            Mode::SlashMenu => self.handle_mouse_slash(mouse),
            Mode::Normal => self.handle_mouse_normal(mouse),
        }
    }
}

/// Processes one event; returns whether the interface should quit.
pub fn handle_event(app: &mut App, ev: Event) -> (quit: bool)
    requires
        event_safe(old(app)@, ev),
    ensures
        (final(app)@, quit) == old(app)@.event(ev),
{
    match ev {
        Event::Key(key) => {
            if key.kind != KeyEventKind::Press {
                return false;
            }
            app.handle_key(key.code, key.modifiers)
        },
        Event::Mouse(mouse) => {
            app.mouse_pos = (mouse.column, mouse.row);
            app.handle_mouse(mouse);
            false
        },
        Event::Other => false,
    }
}

impl AppModel {
    /// The state after one animation tick: the loader moves on one frame, the
    /// tick count goes up, the cursor
    /// blink flips every thirteenth tick, and the loader's remaining visible ticks
    /// count down to zero.
    pub open spec fn tick(self) -> AppModel {
        let count = (self.tick_count + 1) as u32;
        AppModel {
            loader: loader_ticked(self.loader),
            tick_count: count,
            blink_on: if count % 13 == 0 {
                !self.blink_on
            } else {
                self.blink_on
            },
            loader_visible_ticks: if self.loader_visible_ticks > 0 {
                (self.loader_visible_ticks - 1) as u32
            } else {
                0
            },
            ..self
        }
    }
}

impl App {
    /// Advances the interface by one animation tick: see `AppModel::tick`; the
    /// loader moves on by one frame.
    pub fn tick(&mut self)
        requires
            old(self).tick_count < u32::MAX,
        ensures
            final(self)@ == old(self)@.tick(),
    {
        self.loader.tick();
        self.tick_count = self.tick_count + 1;
        if self.tick_count.is_multiple_of(13) {
            self.blink_on = !self.blink_on;
        }
        if self.loader_visible_ticks > 0 {
            self.loader_visible_ticks = self.loader_visible_ticks - 1;
        }
    }
}

} // verus!
