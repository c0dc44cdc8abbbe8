use polyphony_tui::loader::LoaderTheme;
use polyphony_tui::theme::{all_themes, theme_colors, Color, ColorTheme, THEME_COUNT};
use polyphony_tui::widgets::{InputBottomPanel, LeftBorderPanel, Padding, ThumbScrollbar};
use polyphony_tui::geometry::Rect;

#[test]
fn theme_table() {
    let all = all_themes();
    assert_eq!(all.len(), THEME_COUNT);
    for (i, (lt, ct)) in all.iter().enumerate() {
        assert_eq!(lt.index(), i);
        assert_eq!(*ct, theme_colors(i));
    }
    let opencode = theme_colors(0);
    assert_eq!(opencode.bg, Color::Rgb(10, 10, 10));
    assert_eq!(opencode.primary, Color::Rgb(250, 178, 131));
    assert_eq!(opencode.bg_hover, opencode.bg_element);
    assert_eq!(opencode.bg_user, opencode.bg_panel);
    assert_eq!(opencode.palette_bg, opencode.bg_panel);
    assert_eq!(opencode.palette_selected, Color::Rgb(0, 128, 128));
}

#[test]
fn derived_dark_themes() {
    // Rosé Pine is derived from gray level 25.
    let rosepine = theme_colors(9);
    assert_eq!(rosepine.bg, Color::Rgb(25, 25, 25));
    assert_eq!(rosepine.bg_panel, Color::Rgb(35, 35, 35));
    assert_eq!(rosepine.bg_element, Color::Rgb(45, 45, 45));
    assert_eq!(rosepine.border, Color::Rgb(55, 55, 55));
    assert_eq!(rosepine.text, Color::Rgb(220, 220, 220));
    assert_eq!(rosepine.primary, Color::Rgb(156, 207, 216));
    // Zenburn, the lightest base.
    assert_eq!(theme_colors(30).border, Color::Rgb(70, 70, 70));
}

#[test]
fn loader_theme_names() {
    assert_eq!(LoaderTheme::opencode().name(), "opencode");
    assert_eq!(LoaderTheme::at(1).name(), "dracula");
    assert_eq!(LoaderTheme::at(4).name(), "catppuccin-frappe");
    assert_eq!(LoaderTheme::at(12).name(), "one-dark");
    assert_eq!(LoaderTheme::at(33).name(), "osaka-jade");
}

#[test]
fn palettes_for_loader_themes() {
    assert_eq!(ColorTheme::from_loader_theme(LoaderTheme::at(1)), theme_colors(1));
    assert_eq!(ColorTheme::from_loader_theme(LoaderTheme::at(16)), theme_colors(16));
    assert_eq!(ColorTheme::from_loader_theme(LoaderTheme::at(4)), theme_colors(0));
    assert_eq!(ColorTheme::from_loader_theme(LoaderTheme::at(33)), theme_colors(0));
}

#[test]
fn widget_builders() {
    let p = LeftBorderPanel::new()
        .border_color(Color::Rgb(1, 2, 3))
        .content_bg(Color::Rgb(4, 5, 6))
        .padding(Padding::new(1, 2, 3, 4));
    assert_eq!(p.border_color, Color::Rgb(1, 2, 3));
    assert_eq!(p.content_bg, Some(Color::Rgb(4, 5, 6)));
    assert_eq!(p.padding, Padding { left: 1, right: 2, top: 3, bottom: 4 });
    assert_eq!(LeftBorderPanel::default(), LeftBorderPanel::new());
    let s = ThumbScrollbar::new(3, 50).track_color(Color::Reset).thumb_color(Color::Rgb(9, 9, 9)).right_padding(1);
    assert_eq!(s.right_padding, 1);
    assert_eq!(s.thumb_color, Color::Rgb(9, 9, 9));
    assert_eq!(s.thumb(Rect::new(0, 0, 10, 10)), Some((8, 0, 2)));
    assert_eq!(s.thumb(Rect::new(0, 0, 1, 10)), None);
    assert_eq!(ThumbScrollbar::new(0, 5).thumb(Rect::new(0, 0, 10, 10)), None);
}

#[test]
fn input_panel_lines_and_cursor() {
    let panel = InputBottomPanel::new("one\ntwo")
        .focused(true)
        .blink_on(true)
        .text_color(Color::Rgb(1, 1, 1))
        .muted_color(Color::Rgb(2, 2, 2))
        .label("Build", "GPT-5.5", "OpenAI")
        .label_accent(Color::Rgb(3, 3, 3));
    assert_eq!(panel.input_lines(), vec!["one".to_string(), "two".to_string()]);
    assert_eq!(panel.cursor(), ("\u{2588}", Color::Rgb(1, 1, 1)));
    assert_eq!(panel.blink_on(false).cursor().0, " ");
    assert_eq!(panel.focused(false).cursor(), ("\u{2592}", Color::Rgb(2, 2, 2)));
    let label = panel.label_line();
    assert_eq!(label.len(), 5);
    assert_eq!(label[0], ("Build", Color::Rgb(3, 3, 3)));
    assert_eq!(label[1].0, " \u{00b7} ");
    assert_eq!(label[4], ("OpenAI", Color::Rgb(2, 2, 2)));
    assert_eq!(InputBottomPanel::new("").input_lines(), vec![String::new()]);
}
