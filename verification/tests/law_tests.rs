use polyphony_tui::app::{handle_event, App, Mode};
use polyphony_tui::commands::{filtered_commands, filtered_slash_commands};
use polyphony_tui::event::{Event, KeyCode, KeyEvent, KeyEventKind, KeyModifiers};
use polyphony_tui::messages::{message_height, wrapped_line_count, MessageBlock};
use polyphony_tui::theme::theme_colors;

fn slash_names(input: &str) -> Vec<&'static str> {
    filtered_slash_commands(input).iter().map(|c| c.name).collect()
}

fn command_names(search: &str) -> Vec<&'static str> {
    filtered_commands(search).iter().map(|c| c.name).collect()
}

fn tool(lines: Vec<String>) -> MessageBlock {
    MessageBlock::ToolOutput {
        title: "t".to_string(),
        command: "make".to_string(),
        output: lines,
        collapsed: true,
    }
}

#[test]
fn joined_text_rows_add_up() {
    assert_eq!(wrapped_line_count("ab", 1), 2);
    assert_eq!(wrapped_line_count("cde", 1), 3);
    assert_eq!(wrapped_line_count("ab\ncde", 1), 5);
    assert_eq!(wrapped_line_count("abcdefg\n\nxy", 3), 3 + 1 + 1);
}

#[test]
fn wider_text_needs_no_more_rows() {
    let text = "a fairly long line of text that wraps\nand a second one";
    let mut last = wrapped_line_count(text, 1);
    for w in 2..60u16 {
        let n = wrapped_line_count(text, w);
        assert!(n <= last);
        last = n;
    }
    assert_eq!(wrapped_line_count(text, 60), 2);
}

#[test]
fn block_height_does_not_grow_with_width() {
    let msg = MessageBlock::AssistantText("word ".repeat(40));
    let mut last = message_height(&msg, 6);
    for w in 7..120u16 {
        let h = message_height(&msg, w);
        assert!(h <= last);
        last = h;
    }
}

#[test]
fn hidden_lines_of_a_collapsed_block_do_not_count() {
    let first: Vec<String> = (0..10).map(|i| format!("line {i}")).collect();
    let mut a = first.clone();
    a.push("short".to_string());
    let mut b = first;
    for _ in 0..5 {
        b.push("a much longer hidden line that would wrap many times over".repeat(3));
    }
    assert_eq!(message_height(&tool(a), 20), message_height(&tool(b), 20));
}

#[test]
fn filters_ignore_case() {
    assert_eq!(slash_names("/TH"), slash_names("/th"));
    assert_eq!(slash_names("/TH"), vec!["/themes", "/thinking"]);
    assert_eq!(command_names("SESSION"), command_names("session"));
    assert!(!command_names("Session").is_empty());
}

#[test]
fn filters_narrow_as_the_query_grows() {
    let shorter = slash_names("/t");
    let longer = slash_names("/ti");
    assert!(longer.len() <= shorter.len());
    assert!(longer.iter().all(|n| shorter.contains(n)));
    let shorter = command_names("se");
    let longer = command_names("ses");
    assert!(longer.len() <= shorter.len());
    assert!(longer.iter().all(|n| shorter.contains(n)));
}

#[test]
fn themes_command_opens_on_the_current_theme() {
    let mut app = App::new();
    app.apply_theme(12);
    app.input = "  /themes ".to_string();
    handle_event(
        &mut app,
        Event::Key(KeyEvent {
            code: KeyCode::Enter,
            modifiers: KeyModifiers { shift: false, control: false, alt: false },
            kind: KeyEventKind::Press,
        }),
    );
    assert_eq!(app.mode, Mode::ThemePicker);
    assert_eq!(app.theme_selected, 12);
    assert_eq!(app.theme_saved, 12);
    assert_eq!(app.loader_theme.index(), 12);
}

#[test]
fn applying_a_theme_twice_is_applying_it_once() {
    let mut app = App::new();
    app.apply_theme(7);
    assert_eq!(app.theme, theme_colors(7));
    app.apply_theme(7);
    assert_eq!(app.theme, theme_colors(7));
    assert_eq!(app.loader_theme.index(), 7);
    app.apply_theme(99);
    assert_eq!(app.theme, theme_colors(7));
    assert_eq!(app.loader_theme.index(), 7);
}
