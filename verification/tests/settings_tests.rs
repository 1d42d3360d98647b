use osu_twitchbot::args::{args_auto_update, args_theme_override};
use osu_twitchbot::logging::{
    keep_entry, log, log_debug, log_error, log_info, log_warn, LogEntry, LogLevel, MAX_LOG_ENTRIES,
};
use osu_twitchbot::preferences::{
    np_command_default, np_format_default, pp_command_default, pp_format_default, Config,
    PreferencesStore,
};
use osu_twitchbot::theme::{
    current_theme, dark_palette, light_palette, palette, set_theme_override, SystemMode, ThemeKind,
    ThemeOverride,
};

fn words(list: &[&str]) -> Vec<String> {
    list.iter().map(|s| s.to_string()).collect()
}

#[test]
fn defaults_are_the_stock_commands() {
    assert_eq!(np_command_default(), "!np");
    assert_eq!(pp_command_default(), "!pp");
    assert_eq!(
        np_format_default(),
        "{artist} - {title} [{diff}] ({creator}) {mods} | {status} {link}"
    );
    assert_eq!(
        pp_format_default(),
        "95%: {pp_95}pp | 97%: {pp_97}pp | 98%: {pp_98}pp | 99%: {pp_99}pp | 100%: {pp_100}pp {mods}"
    );
    let config = Config::with_defaults("1.2.3");
    assert_eq!(config.version, "1.2.3");
    assert!(!config.auto_connect);
    assert_eq!(config.np_command, "!np");
    assert_eq!(config.pp_command, "!pp");
    assert_eq!(config.duplicate(), config);
}

#[test]
fn missing_preferences_fall_back_to_defaults() {
    let store = PreferencesStore::load_or_default(None, "0.9.0");
    assert_eq!(store.config(), Config::with_defaults("0.9.0"));
    assert!(!store.auto_connect());
    assert_eq!(store.np_command(), "!np");
    assert_eq!(store.np_format(), np_format_default());
    assert_eq!(store.pp_command(), "!pp");
    assert_eq!(store.pp_format(), pp_format_default());
}

#[test]
fn loaded_preferences_are_kept() {
    let loaded = Config {
        version: "0.1.0".to_string(),
        auto_connect: true,
        np_command: "!song".to_string(),
        np_format: "{title}".to_string(),
        pp_command: "!perf".to_string(),
        pp_format: "{pp_100}".to_string(),
    };
    let store = PreferencesStore::load_or_default(Some(loaded.clone()), "9.9.9");
    assert_eq!(store.config(), loaded);
    assert!(store.auto_connect());
    assert_eq!(store.np_command(), "!song");
    assert_eq!(store.np_format(), "{title}");
    assert_eq!(store.pp_command(), "!perf");
    assert_eq!(store.pp_format(), "{pp_100}");
}

#[test]
fn each_setter_changes_its_field_only() {
    let mut store = PreferencesStore::load_or_default(None, "1.0.0");
    store.set_auto_connect(true);
    store.set_np_command("!now".to_string());
    store.set_np_format("{artist}".to_string());
    store.set_pp_command("!points".to_string());
    store.set_pp_format("{pp_99}".to_string());
    assert_eq!(
        store.config(),
        Config {
            version: "1.0.0".to_string(),
            auto_connect: true,
            np_command: "!now".to_string(),
            np_format: "{artist}".to_string(),
            pp_command: "!points".to_string(),
            pp_format: "{pp_99}".to_string(),
        }
    );
    store.set_auto_connect(false);
    assert!(!store.auto_connect());
    assert_eq!(store.np_command(), "!now");
}

#[test]
fn looks_are_named_in_any_case() {
    assert_eq!(ThemeOverride::from_str("light"), Some(ThemeOverride::Light));
    assert_eq!(ThemeOverride::from_str("DARK"), Some(ThemeOverride::Dark));
    assert_eq!(ThemeOverride::from_str("System"), Some(ThemeOverride::System));
    assert_eq!(ThemeOverride::from_str("auto"), Some(ThemeOverride::System));
    assert_eq!(ThemeOverride::from_str("blue"), None);
    assert_eq!(ThemeOverride::from_str(""), None);
    assert_eq!(ThemeOverride::from_str(" dark"), None);
    assert_eq!(ThemeOverride::from_lowercase("dark"), Some(ThemeOverride::Dark));
    assert_eq!(ThemeOverride::from_lowercase("DARK"), None);
}

#[test]
fn first_recorded_look_stands() {
    let mut slot = None;
    set_theme_override(&mut slot, ThemeOverride::Dark);
    assert_eq!(slot, Some(ThemeOverride::Dark));
    set_theme_override(&mut slot, ThemeOverride::Light);
    assert_eq!(slot, Some(ThemeOverride::Dark));
}

#[test]
fn look_in_use_follows_request_then_system() {
    assert_eq!(current_theme(Some(ThemeOverride::Light), SystemMode::Dark), ThemeKind::Light);
    assert_eq!(current_theme(Some(ThemeOverride::Dark), SystemMode::Light), ThemeKind::Dark);
    assert_eq!(current_theme(Some(ThemeOverride::System), SystemMode::Light), ThemeKind::Light);
    assert_eq!(current_theme(Some(ThemeOverride::System), SystemMode::Dark), ThemeKind::Dark);
    assert_eq!(current_theme(Some(ThemeOverride::System), SystemMode::Default), ThemeKind::Dark);
    assert_eq!(current_theme(None, SystemMode::Light), ThemeKind::Light);
    assert_eq!(current_theme(None, SystemMode::Default), ThemeKind::Dark);
}

#[test]
fn palettes_hold_their_colours() {
    let dark = dark_palette();
    assert_eq!(dark.bg_primary, 0x1a1a1a);
    assert_eq!(dark.accent, 0x969eff);
    assert_eq!(dark.accent_alt, 0xb08af5);
    assert_eq!(dark.status_module, 0x69b4ff);
    let light = light_palette();
    assert_eq!(light.bg_primary, 0xffffff);
    assert_eq!(light.text_primary, 0x1a1a1a);
    assert_eq!(light.accent_alt, 0x7e57c2);
    assert_eq!(light.status_error, 0xd32f2f);
    assert_eq!(palette(ThemeKind::Dark), dark);
    assert_eq!(palette(ThemeKind::Light), light);
}

#[test]
fn theme_flag_takes_the_first_valid_value() {
    assert_eq!(
        args_theme_override(&words(&["app", "--theme", "dark"])),
        (ThemeOverride::Dark, vec![])
    );
    assert_eq!(
        args_theme_override(&words(&["app", "-t", "LIGHT", "--theme", "dark"])),
        (ThemeOverride::Light, vec![])
    );
    assert_eq!(
        args_theme_override(&words(&["app", "--theme", "pink", "-t", "auto"])),
        (ThemeOverride::System, vec!["pink".to_string()])
    );
    assert_eq!(
        args_theme_override(&words(&["--theme", "--theme", "light"])),
        (ThemeOverride::Light, vec!["--theme".to_string()])
    );
}

#[test]
fn without_a_valid_theme_flag_the_system_decides() {
    assert_eq!(args_theme_override(&words(&["app"])), (ThemeOverride::System, vec![]));
    assert_eq!(args_theme_override(&words(&["app", "--theme"])), (ThemeOverride::System, vec![]));
    assert_eq!(args_theme_override(&vec![]), (ThemeOverride::System, vec![]));
    assert_eq!(
        args_theme_override(&words(&["app", "-t", "x", "-t", "y"])),
        (ThemeOverride::System, vec!["x".to_string(), "y".to_string()])
    );
    assert_eq!(args_theme_override(&words(&["dark", "--Theme", "dark"])), (ThemeOverride::System, vec![]));
}

#[test]
fn updates_are_switched_off_by_their_flag() {
    assert!(args_auto_update(&words(&["app"])));
    assert!(args_auto_update(&vec![]));
    assert!(!args_auto_update(&words(&["app", "--no-update"])));
    assert!(!args_auto_update(&words(&["--no-update", "-t", "dark"])));
    assert!(args_auto_update(&words(&["app", "--no-updates", "no-update"])));
}

#[test]
fn levels_have_words_and_ranks() {
    assert_eq!(LogLevel::Debug.to_text(), "DEBUG");
    assert_eq!(LogLevel::Info.to_text(), "INFO");
    assert_eq!(LogLevel::Warn.to_text(), "WARN");
    assert_eq!(LogLevel::Error.to_text(), "ERROR");
    assert_eq!(LogLevel::Debug.rank(), 0);
    assert_eq!(LogLevel::Error.rank(), 3);
    assert!(LogLevel::Warn.at_least(LogLevel::Info));
    assert!(LogLevel::Warn.at_least(LogLevel::Warn));
    assert!(!LogLevel::Info.at_least(LogLevel::Warn));
}

#[test]
fn entries_carry_level_module_and_message() {
    let entry = log(LogLevel::Warn, "prefs", "careful".to_string(), "12:00:00.000".to_string());
    assert_eq!(
        entry,
        LogEntry {
            timestamp: "12:00:00.000".to_string(),
            level: LogLevel::Warn,
            module: "prefs".to_string(),
            message: "careful".to_string(),
        }
    );
    assert_eq!(
        LogEntry::new(LogLevel::Warn, "prefs", "careful".to_string(), "12:00:00.000".to_string()),
        entry
    );
    assert_eq!(log_info("m", "x".to_string(), "t".to_string()).level, LogLevel::Info);
    assert_eq!(log_warn("m", "x".to_string(), "t".to_string()).level, LogLevel::Warn);
    assert_eq!(log_error("m", "x".to_string(), "t".to_string()).level, LogLevel::Error);
    let debug = log_debug("m", "x".to_string(), "t".to_string(), true).unwrap();
    assert_eq!(debug.level, LogLevel::Debug);
    assert_eq!(debug.message, "x");
    assert_eq!(log_debug("m", "x".to_string(), "t".to_string(), false), None);
}

#[test]
fn lines_pad_the_level_to_five() {
    let info = log_info("osu", "Connected".to_string(), "08:15:00.123".to_string());
    assert_eq!(info.line("1.4.0"), "08:15:00.123 v1.4.0  INFO   [osu] Connected");
    let error = log_error("twitch", "lost".to_string(), "08:15:01.000".to_string());
    assert_eq!(error.line("1.4.0"), "08:15:01.000 v1.4.0  ERROR  [twitch] lost");
    let warn = log_warn("a", "b".to_string(), "t".to_string());
    assert_eq!(warn.line(""), "t v  WARN   [a] b");
    let debug = log(LogLevel::Debug, "a", "b".to_string(), "t".to_string());
    assert_eq!(debug.line("2"), "t v2  DEBUG  [a] b");
}

#[test]
fn window_keeps_the_latest_entries() {
    let mut entries = Vec::new();
    for i in 0..MAX_LOG_ENTRIES + 3 {
        keep_entry(&mut entries, log_info("m", format!("{}", i), "t".to_string()));
    }
    assert_eq!(entries.len(), MAX_LOG_ENTRIES);
    assert_eq!(entries[0].message, "3");
    assert_eq!(entries[MAX_LOG_ENTRIES - 1].message, format!("{}", MAX_LOG_ENTRIES + 2));
    let mut few = Vec::new();
    keep_entry(&mut few, log_info("m", "a".to_string(), "t".to_string()));
    keep_entry(&mut few, log_info("m", "b".to_string(), "t".to_string()));
    assert_eq!(few.len(), 2);
    assert_eq!(few[0].message, "a");
}

#[test]
fn default_look_is_the_system_choice() {
    assert_eq!(ThemeOverride::default(), ThemeOverride::System);
}
