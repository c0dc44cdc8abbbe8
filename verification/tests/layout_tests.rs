use polyphony_tui::app::{handle_event, App, Mode, ViewOptions};
use polyphony_tui::blocks::{
    assistant_text_area, block_area, inline_result_row, split_on_newlines, tool_output_lines,
    ToolLine,
};
use polyphony_tui::commands::commands;
use polyphony_tui::event::{Event, KeyCode, KeyEvent, KeyEventKind, KeyModifiers, MouseButton, MouseEvent, MouseEventKind};
use polyphony_tui::frame::{frame_layout, padded_areas, scrollbar_x, thumb_geometry};
use polyphony_tui::geometry::Rect;
use polyphony_tui::loader::LoaderTheme;
use polyphony_tui::menus::{slash_menu_layout, theme_modal_layout};
use polyphony_tui::messages::{message_height, MessageBlock};
use polyphony_tui::palette::{palette_layout, PaletteEntry};
use polyphony_tui::viewport::{block_heights, checked_message_height, place_blocks};

fn press(app: &mut App, code: KeyCode, control: bool) -> bool {
    handle_event(
        app,
        Event::Key(KeyEvent {
            code,
            modifiers: KeyModifiers { shift: false, control, alt: false },
            kind: KeyEventKind::Press,
        }),
    )
}

#[test]
fn rect_operations() {
    let r = Rect::new(10, 20, 5, 4);
    assert_eq!(r, Rect { x: 10, y: 20, width: 5, height: 4 });
    assert!(r.contains(10, 20));
    assert!(r.contains(14, 23));
    assert!(!r.contains(15, 23));
    assert!(!r.contains(14, 24));
    assert_eq!(Rect::new(u16::MAX - 2, 0, 10, 1).width, 2);
    assert!(Rect::zero().is_empty());
    assert_eq!(r.inner(2, 1), Rect { x: 12, y: 21, width: 1, height: 2 });
    assert_eq!(r.inner(3, 0), Rect::zero());
}

#[test]
fn blocks_scrolled_to_the_bottom() {
    let heights = vec![4u16, 3, 5];
    let view = Rect::new(2, 1, 30, 6);
    let (scroll, ps) = place_blocks(&heights, u16::MAX, view, 26);
    assert_eq!(scroll, 6);
    assert_eq!(ps.len(), 2);
    assert_eq!(ps[0].index, 1);
    assert_eq!(ps[0].clip_top, 2);
    assert_eq!(ps[0].dest, Rect::new(2, 1, 26, 1));
    assert_eq!(ps[1].index, 2);
    assert_eq!(ps[1].clip_top, 0);
    assert_eq!(ps[1].dest, Rect::new(2, 2, 26, 5));
    // The newest block ends on the view's last row.
    assert_eq!(ps[1].dest.y + ps[1].dest.height, view.y + view.height);
}

#[test]
fn blocks_from_the_top_when_they_fit() {
    let heights = vec![2u16, 2];
    let (scroll, ps) = place_blocks(&heights, 40, Rect::new(0, 0, 10, 10), 10);
    assert_eq!(scroll, 0);
    assert_eq!(ps.len(), 2);
    assert_eq!(ps[0].dest, Rect::new(0, 0, 10, 2));
    assert_eq!(ps[1].dest, Rect::new(0, 2, 10, 2));
}

#[test]
fn blocks_cut_at_the_bottom_of_the_view() {
    let heights = vec![3u16, 3, 3];
    let (scroll, ps) = place_blocks(&heights, 1, Rect::new(0, 0, 10, 4), 10);
    assert_eq!(scroll, 1);
    assert_eq!(ps.len(), 2);
    assert_eq!(ps[0].clip_top, 1);
    assert_eq!(ps[0].dest.height, 2);
    assert_eq!(ps[1].dest, Rect::new(0, 2, 10, 2));
}

#[test]
fn heights_are_checked() {
    let msgs = vec![
        MessageBlock::AssistantText("hello".to_string()),
        MessageBlock::Error("x".to_string()),
    ];
    assert_eq!(block_heights(&msgs, 20), Some(vec![3, 3]));
    // 65534 rows plus the two frame rows leave u16.
    let big = MessageBlock::AssistantText("a".repeat(65_534));
    assert_eq!(checked_message_height(&big, 4), None);
    // The row count is cut to 16 bits before the frame rows are added.
    let wrapped = MessageBlock::AssistantText("a".repeat(70_000));
    assert_eq!(checked_message_height(&wrapped, 4), Some(4466));
    assert_eq!(
        checked_message_height(&MessageBlock::UserMessage("hi".to_string()), 20),
        Some(message_height(&MessageBlock::UserMessage("hi".to_string()), 20))
    );
    let many: Vec<MessageBlock> =
        (0..30_000).map(|_| MessageBlock::Error("e".to_string())).collect();
    assert_eq!(block_heights(&many, 20), None);
}

#[test]
fn layout_records_tool_blocks_for_clicks() {
    let mut app = App::new();
    let view = Rect::new(2, 0, 60, 30);
    let placed = app.layout_messages(view, 56).expect("heights fit");
    assert!(!placed.is_empty());
    assert!(app.scroll_offset < u16::MAX);
    let total: u16 = app.messages.iter().map(|m| message_height(m, 56)).sum();
    assert_eq!(app.scroll_offset, total - 30);
    for (p, hovered) in &placed {
        assert!(p.dest.y >= view.y && p.dest.y + p.dest.height <= view.y + view.height);
        assert!(!hovered);
    }
    // The newest block is on screen.
    assert_eq!(placed.last().unwrap().0.index, app.messages.len() - 1);
    // Every click target is a tool-output block of the conversation.
    for (i, _) in &app.tool_block_rects {
        assert!(*i < app.messages.len());
        assert!(matches!(app.messages[*i], MessageBlock::ToolOutput { .. }));
    }
    // Clicking the last tool block on screen expands it.
    let (idx, rect) = *app.tool_block_rects.last().expect("a tool block is visible");
    let before = matches!(app.messages[idx], MessageBlock::ToolOutput { collapsed: true, .. });
    handle_event(
        &mut app,
        Event::Mouse(MouseEvent { kind: MouseEventKind::Up(MouseButton::Left), column: rect.x, row: rect.y }),
    );
    let after = matches!(app.messages[idx], MessageBlock::ToolOutput { collapsed: true, .. });
    assert_eq!(before, !after);
}

#[test]
fn frame_layout_with_and_without_sidebar() {
    let area = Rect::new(0, 0, 120, 40);
    let l = frame_layout(area, ViewOptions { sidebar_visible: true, scrollbar_visible: true }).unwrap();
    let side = l.sidebar_area.unwrap();
    assert_eq!(side.width, 42);
    assert_eq!(l.main_area.width + 1 + side.width, 120);
    assert_eq!(l.input_area.height, 5);
    assert_eq!(l.status_area.height, 1);
    assert_eq!(l.messages_area.height, 40 - 1 - 5 - 1 - 1);
    assert_eq!(l.padded_messages.x, 2);
    assert_eq!(l.content_width, l.padded_messages.width - 4);
    assert_eq!(l.padded_input.width, l.input_area.width - 3);
    assert_eq!(l.slash_area.height, l.input_area.y - l.messages_area.y);
    let narrow = frame_layout(Rect::new(0, 0, 80, 30), ViewOptions { sidebar_visible: true, scrollbar_visible: false }).unwrap();
    assert!(narrow.sidebar_area.is_none());
    assert_eq!(narrow.main_area.width, 80);
    assert_eq!(narrow.padded_messages, narrow.messages_area.inner(2, 0));
    assert_eq!(narrow.content_width, narrow.padded_messages.width);
    let mid = frame_layout(Rect::new(0, 0, 90, 30), ViewOptions { sidebar_visible: true, scrollbar_visible: true }).unwrap();
    assert_eq!(mid.sidebar_area.unwrap().width, 42);
    let (pm, _, cw) = padded_areas(Rect::new(0, 0, 1, 5), Rect::new(0, 0, 2, 5), true);
    assert_eq!(pm.width, 0);
    assert_eq!(cw, 0);
}

#[test]
fn frame_layout_on_short_and_edge_screens() {
    let view = ViewOptions { sidebar_visible: true, scrollbar_visible: true };
    let l = frame_layout(Rect::new(0, 0, 120, 8), view).unwrap();
    assert_eq!(l.messages_area.height, 0);
    assert_eq!(l.input_area.height, 5);
    assert_eq!(l.status_area.height, 1);
    // A screen shorter than the fixed rows is still laid out, in the main
    // column's columns.
    let short = frame_layout(Rect::new(0, 0, 120, 4), view).unwrap();
    let main = short.main_area;
    for r in [short.messages_area, short.input_area, short.status_area] {
        assert_eq!((r.x, r.width), (main.x, main.width));
    }
    assert_eq!(short.padded_input.x, main.x + 2);
    assert!(frame_layout(Rect::new(u16::MAX - 1, 0, 1, 20), ViewOptions { sidebar_visible: false, scrollbar_visible: true }).is_none());
}

#[test]
fn scrollbar_thumb_geometry() {
    assert_eq!(thumb_geometry(10, 10, 0), None);
    assert_eq!(thumb_geometry(0, 10, 0), None);
    assert_eq!(thumb_geometry(10, 40, 0), Some((0, 2)));
    assert_eq!(thumb_geometry(10, 40, 30), Some((8, 2)));
    assert_eq!(thumb_geometry(10, 40, 15), Some((4, 2)));
    assert_eq!(thumb_geometry(10, 1000, 0), Some((0, 1)));
    assert_eq!(scrollbar_x(Rect::new(5, 0, 10, 3)), 13);
    assert_eq!(scrollbar_x(Rect::new(5, 0, 1, 3)), 5);
}

#[test]
fn palette_layout_and_clicks_agree() {
    let mut app = App::new();
    press(&mut app, KeyCode::Char('p'), true);
    let area = Rect::new(0, 0, 100, 40);
    let l = app.layout_command_palette(area).unwrap();
    assert_eq!(l.modal_rect.width, 50);
    // 4 + 12 commands + 2 sections * 2 + 1
    assert_eq!(l.modal_rect.height, 21);
    assert_eq!(l.modal_rect, Rect::new(25, 9, 50, 21));
    assert_eq!(l.inner, Rect::new(27, 10, 46, 19));
    assert_eq!(app.command_modal_rect, l.modal_rect);
    assert_eq!(app.command_list_y, l.list_y);
    assert_eq!(l.list_y, 14);
    // Header "Suggested", item, blank+header "Session", 11 items.
    let items: Vec<(usize, u16)> = l
        .entries
        .iter()
        .filter_map(|e| match e {
            PaletteEntry::Item { index, y, .. } => Some((*index, *y)),
            _ => None,
        })
        .collect();
    assert_eq!(items.len(), 12);
    assert_eq!(items[0], (0, 15));
    assert_eq!(items[1], (1, 18));
    match &l.entries[0] {
        PaletteEntry::Header { section, y } => {
            assert_eq!(*section, "Suggested");
            assert_eq!(*y, 14);
        },
        _ => panic!("expected a header"),
    }
    let show = l.entries.iter().find_map(|e| match e {
        PaletteEntry::Item { index: 10, name, shortcut, shortcut_x, shortcut_width, .. } => {
            Some((*name, *shortcut, *shortcut_x, *shortcut_width))
        },
        _ => None,
    });
    assert_eq!(show, Some(("Hide sidebar", "ctrl+x b", 27 + 46 - 9, 8)));
    for (index, y) in &items {
        handle_event(&mut app, Event::Mouse(MouseEvent { kind: MouseEventKind::Moved, column: 30, row: *y }));
        assert_eq!(app.command_selected, *index);
    }
    handle_event(&mut app, Event::Mouse(MouseEvent { kind: MouseEventKind::Up(MouseButton::Left), column: 30, row: items[3].1 }));
    assert_eq!(app.command_selected, 3);
    assert_eq!(app.mode, Mode::Normal);
}

#[test]
fn palette_layout_in_a_small_area() {
    let all = commands();
    let tiny = palette_layout(Rect::new(0, 0, 4, 4), &all, 0, false).unwrap();
    assert!(tiny.entries.is_empty());
    let short = palette_layout(Rect::new(0, 0, 80, 12), &all, 0, false).unwrap();
    assert_eq!(short.modal_rect.height, 8);
    // Only the rows that fit are laid out.
    assert!(short.entries.len() < 4);
    assert!(palette_layout(Rect::new(u16::MAX - 1, 0, 1, 40), &all, 0, false).is_none());
}

#[test]
fn slash_menu_layout_scrolls_with_the_selection() {
    let area = Rect::new(2, 0, 60, 20);
    assert!(slash_menu_layout(area, 0, 0).is_none());
    assert!(slash_menu_layout(Rect::new(0, 0, 10, 3), 5, 0).is_none());
    let l = slash_menu_layout(area, 22, 0).unwrap();
    assert_eq!(l.menu_rect, Rect::new(2, 10, 60, 10));
    assert_eq!(l.scroll, 0);
    assert_eq!(l.rows.len(), 10);
    assert!(l.rows[0].selected);
    let l = slash_menu_layout(area, 22, 15).unwrap();
    assert_eq!(l.scroll, 6);
    assert_eq!(l.rows[9].index, 15);
    assert!(l.rows[9].selected);
    assert_eq!(l.rows[9].y, 19);
    let l = slash_menu_layout(area, 3, 1).unwrap();
    assert_eq!(l.menu_rect.height, 3);
    assert_eq!(l.rows.len(), 3);
}

#[test]
fn theme_modal_layout_and_clicks_agree() {
    let mut app = App::new();
    for c in "/themes".chars() {
        press(&mut app, KeyCode::Char(c), false);
    }
    press(&mut app, KeyCode::Enter, false);
    let area = Rect::new(0, 0, 100, 40);
    let l = app.layout_theme_modal(area).unwrap();
    assert_eq!(l.modal_rect, Rect::new(32, 10, 35, 19));
    assert_eq!(l.list_y, 13);
    assert_eq!(l.rows.len(), 15);
    assert!(l.rows[0].active && l.rows[0].selected);
    assert!(!l.rows[1].active);
    assert_eq!(app.theme_modal_rect, l.modal_rect);
    let row = l.rows[4];
    handle_event(&mut app, Event::Mouse(MouseEvent { kind: MouseEventKind::Moved, column: 40, row: row.y }));
    assert_eq!(app.theme_selected, 4);
    assert_eq!(app.loader_theme.index(), 4);
    handle_event(&mut app, Event::Mouse(MouseEvent { kind: MouseEventKind::ScrollDown, column: 40, row: row.y }));
    assert_eq!(app.theme_scroll, 1);
    handle_event(&mut app, Event::Mouse(MouseEvent { kind: MouseEventKind::Up(MouseButton::Left), column: 40, row: row.y }));
    assert_eq!(app.theme_saved, 5);
    assert_eq!(app.mode, Mode::Normal);
    let l2 = theme_modal_layout(area, 30, 31, LoaderTheme::at(31)).unwrap();
    assert_eq!(l2.rows.len(), 4);
    assert!(l2.rows[1].selected && l2.rows[1].active);
}

#[test]
fn tool_block_lines() {
    let output: Vec<String> = (0..12).map(|i| format!("l{i}")).collect();
    let (lines, lit) = tool_output_lines(&"T".to_string(), &"ls".to_string(), &output, true, true);
    assert!(lit);
    assert_eq!(lines.len(), 1 + 2 + 1 + 10 + 3);
    assert!(matches!(&lines[0], ToolLine::Title(t) if t == "T"));
    assert!(matches!(&lines[2], ToolLine::Command(c) if c == "ls"));
    assert!(matches!(&lines[13], ToolLine::Output(o) if o == "l9"));
    assert!(matches!(lines[14], ToolLine::Ellipsis));
    assert!(matches!(lines[16], ToolLine::ExpandHint));
    let (lines, lit) = tool_output_lines(&"T".to_string(), &String::new(), &output, false, true);
    assert!(!lit);
    assert_eq!(lines.len(), 1 + 1 + 12);
}

#[test]
fn splitting_lines() {
    assert_eq!(split_on_newlines(""), vec![String::new()]);
    assert_eq!(split_on_newlines("a\nbc\n"), vec!["a".to_string(), "bc".to_string(), String::new()]);
    assert_eq!(split_on_newlines("x"), vec!["x".to_string()]);
}

#[test]
fn block_areas() {
    assert_eq!(block_area(Rect::new(0, 0, 10, 1)), None);
    assert_eq!(block_area(Rect::new(1, 2, 10, 5)), Some(Rect::new(1, 3, 10, 4)));
    assert_eq!(assistant_text_area(Rect::new(1, 2, 10, 5)), Some(Rect::new(4, 3, 7, 4)));
    assert_eq!(inline_result_row(Rect::new(1, 2, 10, 2)), Some(Rect::new(1, 3, 10, 1)));
    assert_eq!(inline_result_row(Rect::new(1, 2, 10, 1)), None);
}
