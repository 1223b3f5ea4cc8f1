//! The default/patch mechanism: diffing, applying, loading, migration.

use lazyhf::args::{get_app_config_path, join_config_path, process_cmdline, ConfigError};
use lazyhf::color::Color;
use lazyhf::key_list::{GituiKeyEvent, KeyCode, KeyModifiers, KeysList, KeysListPatch};
use lazyhf::key_symbols::{KeySymbols, KeySymbolsPatch};
use lazyhf::theme::{Theme, ThemePatch};

fn sample_patch() -> ThemePatch {
    let mut p = ThemePatch::empty();
    p.selection_bg = Some(Color::Rgb(10, 20, 30));
    p.use_selection_fg = Some(false);
    p.line_break = Some(String::from("|"));
    p
}

#[test]
fn diff_against_default_restores_value() {
    let default = Theme::default();
    let mut v = Theme::default();
    v.apply(sample_patch());

    let patch = v.diff(&default);
    let mut restored = Theme::default();
    restored.apply(patch);
    assert_eq!(restored, v);
}

#[test]
fn diff_of_default_against_itself_is_empty() {
    let default = Theme::default();
    let patch = default.diff(&Theme::default());
    assert_eq!(patch, ThemePatch::empty());
}

#[test]
fn applying_empty_patch_changes_nothing() {
    let mut theme = Theme::default();
    theme.apply(ThemePatch::empty());
    assert_eq!(theme, Theme::default());
}

#[test]
fn applying_same_patch_twice_is_idempotent() {
    let mut once = Theme::default();
    once.apply(sample_patch());

    let mut twice = Theme::default();
    twice.apply(sample_patch());
    twice.apply(sample_patch());

    assert_eq!(once, twice);
}

#[test]
fn loading_nothing_yields_default_without_migration() {
    let (theme, migration) = Theme::init(None, None);
    assert_eq!(theme, Theme::default());
    assert!(migration.is_none());
}

#[test]
fn loading_patch_applies_it_without_migration() {
    let (theme, migration) = Theme::init(Some(sample_patch()), None);
    let mut expected = Theme::default();
    expected.apply(sample_patch());
    assert_eq!(theme, expected);
    assert!(migration.is_none());
}

#[test]
fn loading_legacy_value_adopts_it_and_asks_one_migration_write() {
    let mut legacy = Theme::default();
    legacy.apply(sample_patch());

    let (theme, migration) = Theme::init(None, Some(legacy.clone()));
    assert_eq!(theme, legacy);

    let written = migration.expect("legacy load must ask for exactly one write");
    assert_eq!(written, legacy.diff(&Theme::default()));
}

#[test]
fn legacy_default_valued_file_migrates_to_empty_patch() {
    let (theme, migration) = Theme::init(None, Some(Theme::default()));
    assert_eq!(theme, Theme::default());
    assert_eq!(migration, Some(ThemePatch::empty()));
}

#[test]
fn keys_list_roundtrip_and_resolution() {
    let mut patch = KeysListPatch::empty();
    patch.tab_log = Some(GituiKeyEvent::new(KeyCode::F(2), KeyModifiers::none()));

    let (keys, migration) = KeysList::init(Some(patch), None);
    assert!(migration.is_none());
    assert_eq!(keys.tab_log, GituiKeyEvent::new(KeyCode::F(2), KeyModifiers::none()));
    assert_eq!(keys.tab_status, KeysList::default().tab_status);

    let rediffed = keys.diff(&KeysList::default());
    assert_eq!(rediffed, patch);

    let (fallback, migration) = KeysList::init(None, None);
    assert_eq!(fallback, KeysList::default());
    assert!(migration.is_none());
}

#[test]
fn key_symbols_legacy_migration() {
    let mut legacy = KeySymbols::default();
    let mut patch = KeySymbolsPatch::empty();
    patch.enter = Some(String::from("RET"));
    legacy.apply(patch);

    let (symbols, migration) = KeySymbols::init(None, Some(legacy.clone()));
    assert_eq!(symbols, legacy);
    let written = migration.expect("legacy load must ask for exactly one write");
    assert_eq!(written.enter, Some(String::from("RET")));
    assert_eq!(written.left, None);
}

#[test]
fn config_dir_under_home() {
    let dir = get_app_config_path(Some(String::from("/home/me")), None, true);
    assert_eq!(dir, Ok(String::from("/home/me/.config/gitui")));
}

#[test]
fn config_dir_under_os_config() {
    let dir = get_app_config_path(None, Some(String::from("/home/me/.config")), false);
    assert_eq!(dir, Ok(String::from("/home/me/.config/gitui")));
}

#[test]
fn missing_config_dir_is_fatal() {
    let err = get_app_config_path(None, None, true);
    assert_eq!(err, Err(ConfigError::DirectoryResolution));
    assert_eq!(
        err.unwrap_err().message(),
        String::from("failed to find os config dir.")
    );
    assert_eq!(
        get_app_config_path(Some(String::from("/root")), None, false),
        Err(ConfigError::DirectoryResolution)
    );
}

#[test]
fn cmdline_defaults_and_overrides() {
    let args = process_cmdline(None, None, false, "/cfg/gitui");
    assert_eq!(args.theme, "/cfg/gitui/theme.ron");
    assert_eq!(args.workdir, ".");
    assert!(!args.notify_watcher);

    let args = process_cmdline(
        Some(String::from("dark.ron")),
        Some(String::from("/src")),
        true,
        "/cfg/gitui",
    );
    assert_eq!(args.theme, "/cfg/gitui/dark.ron");
    assert_eq!(args.workdir, "/src");
    assert!(args.notify_watcher);

    assert_eq!(join_config_path("/a", "b.ron"), "/a/b.ron");
}
