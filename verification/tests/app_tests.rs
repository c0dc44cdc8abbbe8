use polyphony_tui::app::{handle_event, AgentMode, App, Mode, LOADER_TICKS_AFTER_SUBMIT};
use polyphony_tui::event::{
    Event, KeyCode, KeyEvent, KeyEventKind, KeyModifiers, MouseButton, MouseEvent, MouseEventKind,
};
use polyphony_tui::messages::MessageBlock;
use polyphony_tui::theme::{theme_colors, Color};

fn mods(control: bool, shift: bool) -> KeyModifiers {
    KeyModifiers { shift, control, alt: false }
}

fn key_with(app: &mut App, code: KeyCode, m: KeyModifiers) -> bool {
    handle_event(app, Event::Key(KeyEvent { code, modifiers: m, kind: KeyEventKind::Press }))
}

fn key(app: &mut App, code: KeyCode) -> bool {
    key_with(app, code, mods(false, false))
}

fn ctrl(app: &mut App, c: char) -> bool {
    key_with(app, KeyCode::Char(c), mods(true, false))
}

fn typed(app: &mut App, text: &str) {
    for c in text.chars() {
        key(app, KeyCode::Char(c));
    }
}

fn mouse(app: &mut App, kind: MouseEventKind, column: u16, row: u16) -> bool {
    handle_event(app, Event::Mouse(MouseEvent { kind, column, row }))
}

#[test]
fn new_app_state() {
    let app = App::new();
    assert_eq!(app.messages.len(), 17);
    assert_eq!(app.scroll_offset, u16::MAX);
    assert_eq!(app.mode, Mode::Normal);
    assert_eq!(app.agent_mode, AgentMode::Build);
    assert!(app.view.sidebar_visible && app.view.scrollbar_visible);
    assert!(app.blink_on);
    assert_eq!(app.loader_theme.index(), 0);
    assert_eq!(app.theme, theme_colors(0));
    assert!(app.input.is_empty() && app.input_history.is_empty());
}

#[test]
fn submitting_sends_trimmed_text() {
    let mut app = App::new();
    typed(&mut app, "  hello world  ");
    assert!(!key(&mut app, KeyCode::Enter));
    assert!(app.input.is_empty());
    assert_eq!(app.input_history, vec!["hello world".to_string()]);
    assert!(matches!(app.messages.last(), Some(MessageBlock::UserMessage(t)) if t == "hello world"));
    assert_eq!(app.messages.len(), 18);
    assert_eq!(app.scroll_offset, u16::MAX);
    assert_eq!(app.loader_visible_ticks, LOADER_TICKS_AFTER_SUBMIT);
    assert_eq!(app.history_index, None);
}

#[test]
fn blank_input_is_not_sent() {
    let mut app = App::new();
    typed(&mut app, "   ");
    key(&mut app, KeyCode::Enter);
    assert_eq!(app.input, "   ");
    assert_eq!(app.messages.len(), 17);
    assert!(app.input_history.is_empty());
}

#[test]
fn shift_enter_and_shift_j_insert_line_breaks() {
    let mut app = App::new();
    typed(&mut app, "a");
    key_with(&mut app, KeyCode::Enter, mods(false, true));
    key_with(&mut app, KeyCode::Char('J'), mods(false, true));
    assert_eq!(app.input, "a\n\n");
    key(&mut app, KeyCode::Backspace);
    assert_eq!(app.input, "a\n");
}

#[test]
fn history_recall_walks_back_and_forward() {
    let mut app = App::new();
    typed(&mut app, "first");
    key(&mut app, KeyCode::Enter);
    typed(&mut app, "second");
    key(&mut app, KeyCode::Enter);
    key(&mut app, KeyCode::Up);
    assert_eq!(app.input, "second");
    assert_eq!(app.history_index, Some(1));
    key(&mut app, KeyCode::Up);
    assert_eq!(app.input, "first");
    key(&mut app, KeyCode::Up);
    assert_eq!(app.input, "first");
    assert_eq!(app.history_index, Some(0));
    key(&mut app, KeyCode::Down);
    assert_eq!(app.input, "second");
    key(&mut app, KeyCode::Down);
    assert_eq!(app.input, "");
    assert_eq!(app.history_index, None);
    key(&mut app, KeyCode::Down);
    assert_eq!(app.history_index, None);
}

#[test]
fn history_up_with_empty_history_does_nothing() {
    let mut app = App::new();
    typed(&mut app, "draft");
    key(&mut app, KeyCode::Up);
    assert_eq!(app.input, "draft");
    assert_eq!(app.history_index, None);
}

#[test]
fn quitting_keys() {
    let mut app = App::new();
    assert!(key(&mut app, KeyCode::Esc));
    let mut app = App::new();
    assert!(ctrl(&mut app, 'c'));
    let mut app = App::new();
    assert!(ctrl(&mut app, 'd'));
    let mut app = App::new();
    assert!(!key(&mut app, KeyCode::Char('c')));
    assert_eq!(app.input, "c");
}

#[test]
fn key_releases_are_ignored() {
    let mut app = App::new();
    let quit = handle_event(
        &mut app,
        Event::Key(KeyEvent {
            code: KeyCode::Esc,
            modifiers: mods(false, false),
            kind: KeyEventKind::Release,
        }),
    );
    assert!(!quit);
    assert!(!handle_event(&mut app, Event::Other));
}

#[test]
fn tab_alternates_agents() {
    let mut app = App::new();
    key(&mut app, KeyCode::Tab);
    assert_eq!(app.agent_mode, AgentMode::Plan);
    key(&mut app, KeyCode::BackTab);
    assert_eq!(app.agent_mode, AgentMode::Build);
    assert_eq!(AgentMode::Plan.label(), "Plan");
    assert_eq!(AgentMode::Build.label(), "Build");
    let t = theme_colors(0);
    assert_eq!(AgentMode::Build.accent(&t), t.primary);
    assert_eq!(AgentMode::Plan.accent(&t), Color::Rgb(0, 128, 128));
}

#[test]
fn ctrl_x_chords_toggle_panels() {
    let mut app = App::new();
    ctrl(&mut app, 'x');
    key(&mut app, KeyCode::Char('b'));
    assert!(!app.view.sidebar_visible);
    assert!(app.input.is_empty());
    ctrl(&mut app, 'x');
    key(&mut app, KeyCode::Char('s'));
    assert!(!app.view.scrollbar_visible);
    ctrl(&mut app, 'x');
    key(&mut app, KeyCode::Char('b'));
    assert!(app.view.sidebar_visible);
    // Another key after Ctrl+X is swallowed.
    ctrl(&mut app, 'x');
    assert!(!key(&mut app, KeyCode::Esc));
    assert!(app.input.is_empty());
}

#[test]
fn page_keys_scroll_by_ten() {
    let mut app = App::new();
    app.scroll_offset = 30;
    key(&mut app, KeyCode::PageUp);
    assert_eq!(app.scroll_offset, 20);
    key(&mut app, KeyCode::PageDown);
    assert_eq!(app.scroll_offset, 30);
    app.scroll_offset = 5;
    key(&mut app, KeyCode::PageUp);
    assert_eq!(app.scroll_offset, 0);
    app.scroll_offset = u16::MAX - 3;
    key(&mut app, KeyCode::PageDown);
    assert_eq!(app.scroll_offset, u16::MAX);
}

#[test]
fn slash_menu_follows_the_input() {
    let mut app = App::new();
    assert_eq!(app.effective_mode(), Mode::Normal);
    typed(&mut app, "/th");
    assert_eq!(app.effective_mode(), Mode::SlashMenu);
    assert_eq!(app.mode, Mode::Normal);
    key(&mut app, KeyCode::Down);
    assert_eq!(app.slash_selected, 1);
    key(&mut app, KeyCode::Down);
    assert_eq!(app.slash_selected, 1);
    key(&mut app, KeyCode::Up);
    key(&mut app, KeyCode::Up);
    assert_eq!(app.slash_selected, 0);
    key(&mut app, KeyCode::Esc);
    assert!(app.input.is_empty());
    assert_eq!(app.effective_mode(), Mode::Normal);
}

#[test]
fn slash_enter_runs_the_selected_command() {
    let mut app = App::new();
    typed(&mut app, "/he");
    key(&mut app, KeyCode::Enter);
    assert!(matches!(app.messages.last(), Some(MessageBlock::UserMessage(t)) if t == "/help"));
    assert!(app.input.is_empty());
    assert_eq!(app.slash_selected, 0);
}

#[test]
fn slash_ctrl_c_quits() {
    let mut app = App::new();
    typed(&mut app, "/");
    assert!(ctrl(&mut app, 'd'));
    let mut app = App::new();
    typed(&mut app, "/");
    assert!(!key(&mut app, KeyCode::Esc));
}

#[test]
fn themes_command_opens_the_picker_at_the_current_theme() {
    let mut app = App::new();
    app.apply_theme(5);
    typed(&mut app, "/themes");
    key(&mut app, KeyCode::Enter);
    assert_eq!(app.mode, Mode::ThemePicker);
    assert_eq!(app.theme_selected, 5);
    assert_eq!(app.theme_saved, 5);
    assert_eq!(app.messages.len(), 17);
    assert!(app.input_history.is_empty());
}

#[test]
fn theme_picker_previews_and_cancels() {
    let mut app = App::new();
    typed(&mut app, "/themes");
    key(&mut app, KeyCode::Enter);
    key(&mut app, KeyCode::Down);
    key(&mut app, KeyCode::Down);
    assert_eq!(app.theme_selected, 2);
    assert_eq!(app.theme, theme_colors(2));
    assert_eq!(app.loader_theme.index(), 2);
    key(&mut app, KeyCode::Esc);
    assert_eq!(app.mode, Mode::Normal);
    assert_eq!(app.theme, theme_colors(0));
    assert_eq!(app.loader_theme.index(), 0);
}

#[test]
fn theme_picker_enter_keeps_the_choice() {
    let mut app = App::new();
    typed(&mut app, "/themes");
    key(&mut app, KeyCode::Enter);
    key(&mut app, KeyCode::Down);
    key(&mut app, KeyCode::Enter);
    assert_eq!(app.mode, Mode::Normal);
    assert_eq!(app.theme_saved, 1);
    assert_eq!(app.theme, theme_colors(1));
}

#[test]
fn theme_picker_scrolls_to_keep_the_selection_visible() {
    let mut app = App::new();
    typed(&mut app, "/themes");
    key(&mut app, KeyCode::Enter);
    for _ in 0..20 {
        key(&mut app, KeyCode::Down);
    }
    assert_eq!(app.theme_selected, 20);
    assert_eq!(app.theme_scroll, 6);
    for _ in 0..40 {
        key(&mut app, KeyCode::Down);
    }
    assert_eq!(app.theme_selected, 33);
    assert_eq!(app.theme_scroll, 19);
    for _ in 0..20 {
        key(&mut app, KeyCode::Up);
    }
    assert_eq!(app.theme_selected, 13);
    assert_eq!(app.theme_scroll, 13);
    assert!(!ctrl(&mut app, 'c'));
}

#[test]
fn apply_theme_out_of_range_changes_nothing() {
    let mut app = App::new();
    app.apply_theme(34);
    assert_eq!(app.theme, theme_colors(0));
    assert_eq!(app.loader_theme.index(), 0);
}

#[test]
fn command_palette_search_and_selection() {
    let mut app = App::new();
    ctrl(&mut app, 'p');
    assert_eq!(app.mode, Mode::CommandPalette);
    assert_eq!(app.effective_mode(), Mode::CommandPalette);
    for _ in 0..20 {
        key(&mut app, KeyCode::Down);
    }
    assert_eq!(app.command_selected, 11);
    typed(&mut app, "ses");
    assert_eq!(app.command_search, "ses");
    assert_eq!(app.command_selected, 0);
    assert_eq!(app.filtered_commands().len(), 6);
    key(&mut app, KeyCode::Backspace);
    assert_eq!(app.command_search, "se");
    assert!(!key(&mut app, KeyCode::Esc));
    assert_eq!(app.mode, Mode::Normal);
    assert!(app.command_search.is_empty());
}

#[test]
fn typing_resets_history_position() {
    let mut app = App::new();
    typed(&mut app, "one");
    key(&mut app, KeyCode::Enter);
    key(&mut app, KeyCode::Up);
    assert_eq!(app.history_index, Some(0));
    key(&mut app, KeyCode::Char('!'));
    assert_eq!(app.history_index, None);
    assert_eq!(app.input, "one!");
}

#[test]
fn mouse_wheel_scrolls_the_conversation() {
    let mut app = App::new();
    app.scroll_offset = 10;
    mouse(&mut app, MouseEventKind::ScrollUp, 3, 4);
    assert_eq!(app.scroll_offset, 9);
    assert_eq!(app.mouse_pos, (3, 4));
    mouse(&mut app, MouseEventKind::ScrollDown, 3, 4);
    mouse(&mut app, MouseEventKind::ScrollDown, 3, 4);
    assert_eq!(app.scroll_offset, 11);
}

#[test]
fn mouse_wheel_moves_the_slash_selection() {
    let mut app = App::new();
    typed(&mut app, "/t");
    mouse(&mut app, MouseEventKind::ScrollDown, 0, 0);
    mouse(&mut app, MouseEventKind::ScrollDown, 0, 0);
    assert_eq!(app.slash_selected, 2);
    mouse(&mut app, MouseEventKind::ScrollUp, 0, 0);
    assert_eq!(app.slash_selected, 1);
}

#[test]
fn ticks_blink_the_cursor_and_count_down_the_loader() {
    let mut app = App::new();
    typed(&mut app, "go");
    key(&mut app, KeyCode::Enter);
    for _ in 0..12 {
        app.tick();
    }
    assert!(app.blink_on);
    app.tick();
    assert!(!app.blink_on);
    assert_eq!(app.tick_count, 13);
    assert_eq!(app.loader_visible_ticks, 187);
    for _ in 0..300 {
        app.tick();
    }
    assert_eq!(app.loader_visible_ticks, 0);
}
