//! Properties of the interface that hold across events.
use vstd::prelude::*;

use ratatui_opentui_loader::KittLoader;

use crate::app::{
    app_wf, event_safe, rect_hit_from, AgentMode, AppModel, Mode,
    THEME_VISIBLE_ROWS,
};
use crate::commands::{
    palette_hit_fits, palette_item_row, palette_walk, spec_commands,
    spec_filtered_commands, spec_filtered_slash_commands, Command,
};
use crate::event::{Event, KeyCode, KeyEventKind, KeyModifiers, MouseEvent, MouseEventKind};
use crate::messages::toggled;
use crate::theme::{spec_theme_colors, THEME_COUNT};

verus! {

/// Agent switching alternates: switching twice returns to the same agent.
pub proof fn law_agent_mode_alternates(a: AgentMode)
    ensures
        a.spec_next() != a,
        a.spec_next().spec_next() == a,
{
}

/// Expanding a tool-output block and clicking it again restores it.
pub proof fn law_toggle_twice(m: crate::messages::MessageView)
    ensures
        toggled(toggled(m)) == m,
{
}

/// At most all commands match a search.
pub proof fn lemma_filtered_commands_len(search: Seq<char>)
    ensures
        spec_filtered_commands(search).len() <= spec_commands().len(),
{
    if search.len() != 0 {
        let pred = |c: Command| crate::commands::command_matches(c, search);
        spec_commands().lemma_filter_len(pred);
    }
}

/// At most all slash commands match an input.
pub proof fn lemma_filtered_slash_len(input: Seq<char>)
    ensures
        spec_filtered_slash_commands(input).len() <= crate::commands::spec_slash_commands().len(),
{
    let pred = |c: crate::commands::SlashCommand| crate::commands::slash_matches(c, input);
    crate::commands::spec_slash_commands().lemma_filter_len(pred);
}

/// Each command of the palette takes at most three rows: a blank, a header and
/// its own row.
pub proof fn lemma_palette_walk_bound(f: Seq<Command>, list_y: int, n: int)
    requires
        0 <= n <= f.len(),
    ensures
        palette_walk(f, list_y, n).0 <= list_y + 3 * n,
        palette_walk(f, list_y, n).0 >= list_y + n,
        0 <= n < f.len() ==> palette_walk(f, list_y, n).0 <= palette_item_row(f, list_y, n)
            <= palette_walk(f, list_y, n).0 + 2,
    decreases n,
{
    if n > 0 {
        lemma_palette_walk_bound(f, list_y, n - 1);
    }
}

/// When three rows per command fit below `list_y`, hit-testing the palette never
/// leaves `u16`.
pub proof fn lemma_palette_hit_fits(f: Seq<Command>, list_y: int, row: int)
    requires
        list_y + 3 * f.len() <= u16::MAX,
    ensures
        palette_hit_fits(f, list_y, row),
{
    assert forall|j: int|
        0 <= j < f.len() && (forall|k: int| 0 <= k < j ==> palette_item_row(f, list_y, k) != row)
            implies {
        &&& #[trigger] palette_item_row(f, list_y, j) <= u16::MAX
        &&& palette_item_row(f, list_y, j) != row ==> palette_item_row(f, list_y, j) + 1
            <= u16::MAX
    } by {
        lemma_palette_walk_bound(f, list_y, j);
    }
}

/// A hit found from position `k0` lies at or after `k0` and inside the list.
pub proof fn lemma_rect_hit_range(rects: Seq<(usize, crate::geometry::Rect)>, col: u16, row: u16, k0: int)
    requires
        0 <= k0,
    ensures
        rect_hit_from(rects, col, row, k0) matches Some(k) ==> k0 <= k < rects.len(),
    decreases rects.len() - k0,
{
    if k0 < rects.len() && !rects[k0].1.spec_contains(col, row) {
        lemma_rect_hit_range(rects, col, row, k0 + 1);
    }
}

/// The interface starts in a well-formed state.
pub proof fn law_initial_wf(loader: KittLoader)
    ensures
        app_wf(AppModel::initial(loader)),
{
}

/// In a well-formed state every event can be handled without error: no integer
/// range is left and no list is indexed past its end.
pub proof fn law_wf_events_safe(m: AppModel, ev: Event)
    requires
        app_wf(m),
    ensures
        event_safe(m, ev),
{
    lemma_filtered_commands_len(m.command_search);
    lemma_palette_hit_fits(spec_filtered_commands(m.command_search), m.command_list_y as int, 0);
    match ev {
        Event::Mouse(me) => {
            lemma_palette_hit_fits(
                spec_filtered_commands(m.command_search),
                m.command_list_y as int,
                me.row as int,
            );
            lemma_rect_hit_range(m.tool_block_rects, me.column, me.row, 0);
        },
        _ => {},
    }
}

/// Submitting keeps a state well-formed.
proof fn lemma_submit_wf(m: AppModel)
    requires
        app_wf(m),
    ensures
        app_wf(m.submit_input()),
{
}

/// Every key keeps a state well-formed.
pub proof fn lemma_key_wf(m: AppModel, code: KeyCode, modifiers: KeyModifiers)
    requires
        app_wf(m),
    ensures
        app_wf(m.key(code, modifiers).0),
{
    lemma_filtered_commands_len(m.command_search);
    lemma_filtered_slash_len(m.input);
    match m.effective_mode() {
        Mode::SlashMenu => {
            if code == KeyCode::Enter {
                let cmds = spec_filtered_slash_commands(m.input);
                let input = if m.slash_selected < cmds.len() {
                    cmds[m.slash_selected as int].name@
                } else {
                    m.input
                };
                lemma_submit_wf(AppModel { input, slash_selected: 0, ..m });
            }
        },
        Mode::Normal => {
            if !m.ctrl_x_pending && code == KeyCode::Enter && !modifiers.shift {
                lemma_submit_wf(AppModel { ctrl_x_pending: false, ..m });
            }
        },
        _ => {},
    }
}

/// Every mouse event keeps a state well-formed.
pub proof fn lemma_mouse_wf(m: AppModel, ev: MouseEvent)
    requires
        app_wf(m),
    ensures
        app_wf(m.mouse(ev)),
{
    lemma_filtered_commands_len(m.command_search);
    lemma_filtered_slash_len(m.input);
    lemma_rect_hit_range(m.tool_block_rects, ev.column, ev.row, 0);
    let f = spec_filtered_commands(m.command_search);
    let hit = crate::commands::palette_hit(f, m.command_list_y as int, ev.row as int);
    lemma_palette_hit_range(f, m.command_list_y as int, ev.row as int, 0);
}

/// A hit found in the palette from position `i` lies at or after `i` and inside
/// the list.
pub proof fn lemma_palette_hit_range(f: Seq<Command>, list_y: int, row: int, i: int)
    requires
        0 <= i,
    ensures
        crate::commands::palette_hit_from(f, list_y, row, i) matches Some(k) ==> i <= k < f.len(),
    decreases f.len() - i,
{
    if i < f.len() && palette_item_row(f, list_y, i) != row {
        lemma_palette_hit_range(f, list_y, row, i + 1);
    }
}

/// Every event keeps a state well-formed; with `law_initial_wf` and
/// `law_wf_events_safe`, no sequence of events from the start runs into an error.
pub proof fn law_wf_preserved(m: AppModel, ev: Event)
    requires
        app_wf(m),
    ensures
        app_wf(m.event(ev).0),
{
    match ev {
        Event::Key(k) => {
            if k.kind == KeyEventKind::Press {
                lemma_key_wf(m, k.code, k.modifiers);
            }
        },
        Event::Mouse(me) => {
            lemma_mouse_wf(AppModel { mouse_pos: (me.column, me.row), ..m }, me);
        },
        Event::Other => {},
    }
}

/// The keys that move the theme picker's selection.
pub open spec fn is_up_or_down(code: KeyCode) -> bool {
    code == KeyCode::Up || code == KeyCode::Down
}

/// Previewing themes in the picker and cancelling restores the saved theme: Up and
/// Down keep the picker open and the saved theme unchanged, and Esc closes the
/// picker with the saved theme applied.
pub proof fn law_theme_preview_then_cancel(m: AppModel, code: KeyCode, modifiers: KeyModifiers)
    requires
        m.mode == Mode::ThemePicker,
        m.theme_saved < THEME_COUNT,
        is_up_or_down(code),
    ensures
        m.key(code, modifiers).0.mode == Mode::ThemePicker,
        m.key(code, modifiers).0.theme_saved == m.theme_saved,
        ({
            let back = m.key(code, modifiers).0.key(KeyCode::Esc, modifiers).0;
            &&& back.mode == Mode::Normal
            &&& back.theme == spec_theme_colors(m.theme_saved as int)
            &&& back.loader_theme == m.theme_saved
        }),
{
}

/// Moving through the theme picker with the keys keeps the selection among the
/// fifteen visible rows and inside the theme list.
pub proof fn law_theme_selection_visible(m: AppModel, code: KeyCode, modifiers: KeyModifiers)
    requires
        m.mode == Mode::ThemePicker,
        m.theme_scroll <= m.theme_selected < m.theme_scroll + THEME_VISIBLE_ROWS,
        m.theme_selected < THEME_COUNT,
        is_up_or_down(code),
    ensures
        ({
            let n = m.key(code, modifiers).0;
            &&& n.theme_scroll <= n.theme_selected < n.theme_scroll + THEME_VISIBLE_ROWS
            &&& n.theme_selected < THEME_COUNT
            &&& n.theme == spec_theme_colors(n.theme_selected as int)
        }),
{
}

/// Whether the palette's selection points at a listed command, or at the first
/// row when nothing is listed.
pub open spec fn palette_selection_valid(m: AppModel) -> bool {
    m.command_selected == 0 || m.command_selected < spec_filtered_commands(m.command_search).len()
}

/// Keys in the command palette keep the selection on a listed command.
pub proof fn law_palette_selection_stays_valid(m: AppModel, code: KeyCode)
    requires
        palette_selection_valid(m),
    ensures
        palette_selection_valid(m.command_key(code)),
{
}

/// Whether the slash menu's selection points at an offered command, or at the
/// first row when nothing is offered.
pub open spec fn slash_selection_valid(m: AppModel) -> bool {
    m.slash_selected == 0 || m.slash_selected < spec_filtered_slash_commands(m.input).len()
}

/// Keys and the wheel in the slash menu keep the selection on an offered command
/// while the menu stays open.
pub proof fn law_slash_selection_stays_valid(
    m: AppModel,
    code: KeyCode,
    modifiers: KeyModifiers,
    ev: MouseEvent,
)
    requires
        slash_selection_valid(m),
        code != KeyCode::Enter,
        ev.kind == MouseEventKind::ScrollDown || ev.kind == MouseEventKind::ScrollUp,
    ensures
        slash_selection_valid(m.slash_key(code, modifiers).0),
        slash_selection_valid(m.slash_mouse(ev)),
{
}

/// The theme picker and the command palette never quit the interface.
pub proof fn law_modals_never_quit(m: AppModel, code: KeyCode, modifiers: KeyModifiers)
    requires
        m.effective_mode() == Mode::ThemePicker || m.effective_mode() == Mode::CommandPalette,
    ensures
        !m.key(code, modifiers).1,
{
}

/// Typing `/` on an empty input line opens the slash menu.
pub proof fn law_slash_opens_menu(m: AppModel, modifiers: KeyModifiers)
    requires
        m.mode == Mode::Normal,
        m.input.len() == 0,
        !m.ctrl_x_pending,
    ensures
        m.key(KeyCode::Char('/'), modifiers).0.effective_mode() == Mode::SlashMenu,
        m.key(KeyCode::Char('/'), modifiers).0.input == seq!['/'],
{
    assert(m.input.push('/') =~= seq!['/']);
}

/// Esc in the slash menu clears the input and so closes the menu.
pub proof fn law_slash_escape_closes(m: AppModel, modifiers: KeyModifiers)
    requires
        m.mode == Mode::Normal,
        m.effective_mode() == Mode::SlashMenu,
    ensures
        m.key(KeyCode::Esc, modifiers).0.effective_mode() == Mode::Normal,
        !m.key(KeyCode::Esc, modifiers).1,
{
}

/// A sent message can be recalled: after submitting a line that is neither blank
/// nor `/themes`, the first step back in the history brings its trimmed text back
/// into the input.
pub proof fn law_submit_then_recall(m: AppModel)
    requires
        crate::text::trimmed(m.input).len() != 0,
        crate::text::trimmed(m.input) != "/themes"@,
    ensures
        m.submit_input().history_up().input == crate::text::trimmed(m.input),
        m.submit_input().history_up().history_index == Some(m.input_history.len() as usize),
        m.submit_input().messages.last() == crate::messages::MessageView::UserMessage(
            crate::text::trimmed(m.input),
        ),
{
}

/// `/themes` opens the theme picker on the current theme: it is selected and
/// saved, the palette and the loader stay as they are, and the input is cleared.
pub proof fn law_themes_opens_on_current(m: AppModel)
    requires
        crate::text::trimmed(m.input) == "/themes"@,
        m.loader_theme < THEME_COUNT,
    ensures
        m.submit_input() == (AppModel {
            input: Seq::empty(),
            mode: Mode::ThemePicker,
            theme_selected: m.loader_theme as usize,
            theme_saved: m.loader_theme as usize,
            ..m
        }),
        m.submit_input().theme_selected == m.loader_theme,
{
    reveal_strlit("/themes");
}

/// Stepping back into the history and forward again ends on an empty input line
/// outside the history.
pub proof fn law_history_up_then_down(m: AppModel)
    requires
        m.history_index is None,
        0 < m.input_history.len() <= usize::MAX,
    ensures
        m.history_up().history_down().history_index is None,
        m.history_up().history_down().input == Seq::<char>::empty(),
{
}

/// Paging down and back up returns to the same scroll position when neither step
/// reaches an end of the range.
pub proof fn law_page_down_up(m: AppModel, modifiers: KeyModifiers)
    requires
        m.effective_mode() == Mode::Normal,
        !m.ctrl_x_pending,
        m.scroll_offset + 10 <= u16::MAX,
    ensures
        m.key(KeyCode::PageDown, modifiers).0.key(KeyCode::PageUp, modifiers).0.scroll_offset
            == m.scroll_offset,
{
}

/// Ctrl+X followed by `b` shows or hides the sidebar and leaves no key pending;
/// doing it twice restores the view.
pub proof fn law_sidebar_chord(m: AppModel, ctrl: KeyModifiers, plain: KeyModifiers)
    requires
        m.effective_mode() == Mode::Normal,
        !m.ctrl_x_pending,
        ctrl.control,
    ensures
        ({
            let once = m.key(KeyCode::Char('x'), ctrl).0.key(KeyCode::Char('b'), plain).0;
            let twice = once.key(KeyCode::Char('x'), ctrl).0.key(KeyCode::Char('b'), plain).0;
            &&& once.view.sidebar_visible == !m.view.sidebar_visible
            &&& !once.ctrl_x_pending
            &&& twice.view == m.view
        }),
{
}

/// The state after `n` animation ticks.
pub open spec fn ticks(m: AppModel, n: nat) -> AppModel
    decreases n,
{
    if n == 0 {
        m
    } else {
        ticks(m, (n - 1) as nat).tick()
    }
}

/// After `n` ticks the loader's remaining visible ticks have gone down by `n`,
/// stopping at zero.
pub proof fn lemma_ticks_countdown(m: AppModel, n: nat)
    ensures
        ticks(m, n).loader_visible_ticks == if n <= m.loader_visible_ticks {
            m.loader_visible_ticks - n
        } else {
            0
        },
    decreases n,
{
    if n > 0 {
        lemma_ticks_countdown(m, (n - 1) as nat);
    }
}

/// After a message is sent the loader shows for 200 ticks (about eight seconds at
/// the 40 ms tick rate) and then hides.
pub proof fn law_loader_shows_after_submit(m: AppModel, n: nat)
    requires
        crate::text::trimmed(m.input).len() != 0,
        crate::text::trimmed(m.input) != "/themes"@,
    ensures
        n < 200 ==> ticks(m.submit_input(), n).loader_visible_ticks > 0,
        n >= 200 ==> ticks(m.submit_input(), n).loader_visible_ticks == 0,
{
    lemma_ticks_countdown(m.submit_input(), n);
}

/// A left click on a tool-output block flips whether it is collapsed, whatever
/// it was, and changes no other block; a second click on the same spot flips it
/// back, leaving the conversation as it was.
pub proof fn law_click_flips_tool_block(m: AppModel, ev: MouseEvent)
    requires
        m.mode == Mode::Normal,
        !(m.input.len() > 0 && m.input[0] == '/'),
        ev.kind == MouseEventKind::Up(crate::event::MouseButton::Left),
        rect_hit_from(m.tool_block_rects, ev.column, ev.row, 0) is Some,
        ({
            let k = rect_hit_from(m.tool_block_rects, ev.column, ev.row, 0)->0;
            &&& m.tool_block_rects[k].0 < m.messages.len()
            &&& m.messages[m.tool_block_rects[k].0 as int] is ToolOutput
        }),
    ensures
        ({
            let k = rect_hit_from(m.tool_block_rects, ev.column, ev.row, 0)->0;
            let idx = m.tool_block_rects[k].0 as int;
            let (once, quit1) = m.event(Event::Mouse(ev));
            let (twice, quit2) = once.event(Event::Mouse(ev));
            &&& !quit1 && !quit2
            &&& once.messages.len() == m.messages.len()
            &&& once.messages[idx] is ToolOutput
            &&& once.messages[idx]->collapsed == !m.messages[idx]->collapsed
            &&& once.messages[idx]->output == m.messages[idx]->output
            &&& once.messages[idx]->command == m.messages[idx]->command
            &&& once.messages[idx]->title == m.messages[idx]->title
            &&& forall|j: int| 0 <= j < m.messages.len() && j != idx ==> #[trigger] once.messages[j] == m.messages[j]
            &&& twice.messages == m.messages
        }),
{
    let k = rect_hit_from(m.tool_block_rects, ev.column, ev.row, 0)->0;
    let idx = m.tool_block_rects[k].0 as int;
    let (once, _) = m.event(Event::Mouse(ev));
    law_toggle_twice(m.messages[idx]);
    assert(once.messages == m.messages.update(idx, toggled(m.messages[idx])));
    assert(once.messages.update(idx, toggled(once.messages[idx])) =~= m.messages);
}

/// Backspace in the slash menu takes off exactly the last character of the
/// input: what is left, followed by that character, is the input before. After
/// typing a character, Backspace brings the input back to what it was.
pub proof fn law_slash_backspace_removes_last(m: AppModel, c: char, modifiers: KeyModifiers)
    requires
        m.effective_mode() == Mode::SlashMenu,
        m.input.len() > 0,
        !((c == 'c' || c == 'd') && modifiers.control),
    ensures
        ({
            let after = m.key(KeyCode::Backspace, modifiers).0;
            &&& after.input.len() + 1 == m.input.len()
            &&& after.input.push(m.input.last()) == m.input
        }),
        ({
            let typed = m.key(KeyCode::Char(c), modifiers).0;
            &&& typed.input == m.input.push(c)
            &&& typed.effective_mode() == Mode::SlashMenu
            &&& typed.key(KeyCode::Backspace, modifiers).0.input == m.input
        }),
        m.input.len() > 1 ==> m.key(KeyCode::Backspace, modifiers).0.effective_mode() == Mode::SlashMenu,
{
    let after = m.key(KeyCode::Backspace, modifiers).0;
    assert(after.input.push(m.input.last()) =~= m.input);
    let typed = m.key(KeyCode::Char(c), modifiers).0;
    assert(typed.input.drop_last() =~= m.input);
    assert(typed.input[0] == m.input[0]);
    if m.input.len() > 1 {
        assert(after.input[0] == m.input[0]);
    }
}

/// Up in the command palette moves the selection up by exactly one row,
/// stopping at the first; Down then Up comes back to the same row when Down
/// had a row to move to.
pub proof fn law_palette_up_moves_one(m: AppModel, code_mods: KeyModifiers)
    requires
        m.mode == Mode::CommandPalette,
    ensures
        m.command_selected > 0 ==> m.key(KeyCode::Up, code_mods).0.command_selected + 1
            == m.command_selected,
        m.command_selected == 0 ==> m.key(KeyCode::Up, code_mods).0.command_selected == 0,
        m.command_selected + 1 < spec_filtered_commands(m.command_search).len() ==> m.key(
            KeyCode::Down,
            code_mods,
        ).0.key(KeyCode::Up, code_mods).0.command_selected == m.command_selected,
        m.key(KeyCode::Up, code_mods).0.command_search == m.command_search,
        m.key(KeyCode::Up, code_mods).0.mode == Mode::CommandPalette,
{
}

} // verus!
