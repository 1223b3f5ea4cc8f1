//! Key-hint rendering and style resolution.

use lazyhf::args::{key_list_file, key_symbols_file};
use lazyhf::color::Color;
use lazyhf::key_config::KeyConfig;
use lazyhf::key_list::{GituiKeyEvent, KeyCode, KeyModifiers};
use lazyhf::key_symbols::KeySymbolsPatch;
use lazyhf::style::Style;
use lazyhf::theme::{Theme, ThemePatch};

fn default_config() -> KeyConfig {
    KeyConfig::init(None, None, None, None).0
}

fn hint(config: &KeyConfig, code: KeyCode, modifiers: KeyModifiers) -> String {
    config.get_hint(GituiKeyEvent::new(code, modifiers))
}

#[test]
fn hint_control_char() {
    let c = default_config();
    assert_eq!(hint(&c, KeyCode::Char('c'), KeyModifiers::control()), "^c");
}

#[test]
fn hint_enter_without_modifier() {
    let c = default_config();
    assert_eq!(hint(&c, KeyCode::Enter, KeyModifiers::none()), "\u{23ce}");
}

#[test]
fn hint_space_uses_reserved_glyph() {
    let c = default_config();
    assert_eq!(hint(&c, KeyCode::Char(' '), KeyModifiers::none()), "\u{02fd}");
}

#[test]
fn hint_function_keys_in_decimal() {
    let c = default_config();
    assert_eq!(hint(&c, KeyCode::F(5), KeyModifiers::none()), "F5");
    assert_eq!(hint(&c, KeyCode::F(0), KeyModifiers::none()), "F0");
    assert_eq!(hint(&c, KeyCode::F(12), KeyModifiers::none()), "F12");
    assert_eq!(hint(&c, KeyCode::F(250), KeyModifiers::none()), "F250");
}

#[test]
fn hint_alt_left_arrow() {
    let c = default_config();
    assert_eq!(
        hint(&c, KeyCode::Left, KeyModifiers::alt()),
        "\u{2325}\u{2190}"
    );
}

#[test]
fn hint_unmapped_code_is_empty() {
    let c = default_config();
    assert_eq!(hint(&c, KeyCode::Other, KeyModifiers::none()), "");
}

#[test]
fn hint_null_yields_only_prefix() {
    let c = default_config();
    assert_eq!(hint(&c, KeyCode::Null, KeyModifiers::shift()), "\u{21e7}");
    assert_eq!(hint(&c, KeyCode::Null, KeyModifiers::none()), "");
}

#[test]
fn hint_combined_modifiers_yield_no_prefix() {
    let c = default_config();
    let combined = KeyModifiers {
        control: true,
        shift: true,
        alt: false,
        other: false,
    };
    assert_eq!(hint(&c, KeyCode::Char('x'), combined), "x");
    let with_other = KeyModifiers {
        control: true,
        shift: false,
        alt: false,
        other: true,
    };
    assert_eq!(hint(&c, KeyCode::Char('x'), with_other), "x");
}

#[test]
fn hint_uses_overridden_symbols() {
    let mut patch = KeySymbolsPatch::empty();
    patch.enter = Some(String::from("RET"));
    patch.control = Some(String::from("C-"));
    let c = KeyConfig::init(None, None, Some(patch), None).0;
    assert_eq!(hint(&c, KeyCode::Enter, KeyModifiers::control()), "C-RET");
    assert_eq!(hint(&c, KeyCode::Left, KeyModifiers::none()), "\u{2190}");
}

fn theme_with(patch: ThemePatch) -> Theme {
    let mut theme = Theme::default();
    theme.apply(patch);
    theme
}

#[test]
fn branch_selection_with_selection_fg_overrides_both_colors() {
    let mut patch = ThemePatch::empty();
    patch.use_selection_fg = Some(true);
    patch.selection_bg = Some(Color::Rgb(1, 2, 3));
    patch.selection_fg = Some(Color::Rgb(4, 5, 6));
    patch.branch_fg = Some(Color::Rgb(7, 8, 9));
    let theme = theme_with(patch);

    let style = theme.branch(true, true);
    assert_eq!(style.bg, Some(Color::Rgb(1, 2, 3)));
    assert_eq!(style.fg, Some(Color::Rgb(4, 5, 6)));
    assert!(style.bold);
}

#[test]
fn branch_selection_without_selection_fg_changes_only_background() {
    let mut patch = ThemePatch::empty();
    patch.use_selection_fg = Some(false);
    patch.selection_bg = Some(Color::Rgb(1, 2, 3));
    patch.branch_fg = Some(Color::Rgb(7, 8, 9));
    let theme = theme_with(patch);

    let style = theme.branch(true, false);
    assert_eq!(style.bg, Some(Color::Rgb(1, 2, 3)));
    assert_eq!(style.fg, Some(Color::Rgb(7, 8, 9)));
    assert!(!style.bold);

    let unselected = theme.branch(false, false);
    assert_eq!(unselected.bg, None);
    assert_eq!(unselected.fg, Some(Color::Rgb(7, 8, 9)));
}

#[test]
fn text_styles_per_state() {
    let theme = Theme::default();
    assert_eq!(theme.text(true, false), Style::default());
    assert_eq!(theme.text(false, false).fg, Some(Color::DarkGray));
    assert_eq!(theme.text(false, true).bg, Some(Color::Blue));
    let full = theme.text(true, true);
    assert_eq!(full.fg, Some(Color::White));
    assert_eq!(full.bg, Some(Color::Blue));
}

#[test]
fn commandbar_backgrounds_by_line() {
    let mut patch = ThemePatch::empty();
    patch.cmdbar_bg = Some(Color::Indexed(17));
    patch.cmdbar_extra_lines_bg = Some(Color::Indexed(18));
    let theme = theme_with(patch);

    assert_eq!(theme.commandbar(true, 0).bg, Some(Color::Indexed(17)));
    assert_eq!(theme.commandbar(true, 1).bg, Some(Color::Indexed(18)));
    assert_eq!(theme.commandbar(false, 0).fg, Some(Color::DarkGray));
    assert_eq!(theme.commandbar(true, 0).fg, Some(Color::White));
}

#[test]
fn titles_tabs_and_tags() {
    let theme = Theme::default();

    let focused = theme.title(true);
    assert!(focused.bold);
    assert_eq!(focused.fg, Some(Color::Reset));
    assert_eq!(theme.title(false).fg, Some(Color::DarkGray));

    let selected_tab = theme.tab(true);
    assert!(selected_tab.underlined);
    assert_eq!(selected_tab.fg, Some(Color::Reset));
    assert_eq!(theme.tab(false).fg, Some(Color::DarkGray));

    let tags = theme.tags(true);
    assert!(tags.bold);
    assert_eq!(tags.fg, Some(Color::LightMagenta));
    assert_eq!(tags.bg, Some(Color::Blue));
    assert_eq!(theme.tags(false).bg, Some(Color::Reset));
}

#[test]
fn commit_and_marker_styles() {
    let theme = Theme::default();

    assert_eq!(theme.commit_hash(false).fg, Some(Color::Magenta));
    assert_eq!(theme.commit_hash(true).bg, Some(Color::Blue));
    assert_eq!(theme.commit_time(false).fg, Some(Color::LightCyan));
    assert_eq!(theme.commit_author(false).fg, Some(Color::Green));
    assert_eq!(theme.commit_unhighlighted().fg, Some(Color::DarkGray));

    assert!(theme.commit_hash_in_blame(true).bold);
    assert!(!theme.commit_hash_in_blame(false).bold);

    let marker = theme.log_marker(true);
    assert!(marker.bold);
    assert_eq!(marker.bg, Some(Color::Blue));
}

#[test]
fn remaining_styles_and_accessors() {
    let theme = Theme::default();

    assert_eq!(theme.scroll_bar_pos().fg, Some(Color::Blue));
    assert_eq!(theme.block(true), Style::default());
    assert_eq!(theme.block(false).fg, Some(Color::DarkGray));
    assert_eq!(theme.option(true).fg, Some(Color::Green));
    assert_eq!(theme.option(false).fg, Some(Color::Red));
    assert_eq!(theme.diff_hunk_marker(true).bg, Some(Color::Blue));
    assert_eq!(theme.diff_hunk_marker(false).fg, Some(Color::DarkGray));
    assert_eq!(theme.text_danger().fg, Some(Color::Red));
    assert_eq!(theme.push_gauge().fg, Some(Color::Reset));
    assert_eq!(theme.push_gauge().bg, Some(Color::Blue));
    assert_eq!(Theme::attention_block().fg, Some(Color::Yellow));
    assert_eq!(theme.file_tree_item(true, false), Style::default());
    assert_eq!(theme.file_tree_item(false, false).fg, Some(Color::Yellow));

    assert_eq!(theme.line_break(), "\u{00b6}");
    assert_eq!(theme.get_syntax(), "base16-eighties.dark");
}

#[test]
fn key_file_paths() {
    assert_eq!(key_list_file("/cfg/gitui"), "/cfg/gitui/key_bindings.ron");
    assert_eq!(key_symbols_file("/cfg/gitui"), "/cfg/gitui/key_symbols.ron");
}
