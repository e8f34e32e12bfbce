use windows_multitool::config::{
    load_config, settings_path_parts, CoreSettings, HiderCommand, SaveStep, SettingsRead, StoredConfig,
};
use windows_multitool::{AppConfig, CursorHiderConfig, FeatureFlags};

fn config(desktop_toggler: bool, cursor_hider: bool, timeout_seconds: u64) -> AppConfig {
    AppConfig {
        features: FeatureFlags { desktop_toggler, cursor_hider },
        cursor_hider: CursorHiderConfig { timeout_seconds },
    }
}

#[test]
fn default_config_values() {
    let c = AppConfig::default();
    assert!(c.features.desktop_toggler);
    assert!(!c.features.cursor_hider);
    assert_eq!(c.cursor_hider.timeout_seconds, 5);
}

#[test]
fn settings_path_uses_app_data() {
    let parts = settings_path_parts(Some("C:\\Users\\me\\AppData\\Roaming".to_string()));
    assert_eq!(parts, vec!["C:\\Users\\me\\AppData\\Roaming", "DesktopIconToggler", "settings.json"]);
}

#[test]
fn settings_path_falls_back_to_current_directory() {
    let parts = settings_path_parts(None);
    assert_eq!(parts, vec![".", "DesktopIconToggler", "settings.json"]);
}

#[test]
fn load_config_missing_file_gives_defaults() {
    assert_eq!(load_config(StoredConfig::Missing), Ok(AppConfig::default()));
}

#[test]
fn load_config_returns_parsed_settings() {
    let c = config(false, true, 42);
    assert_eq!(load_config(StoredConfig::Parsed(c)), Ok(c));
}

#[test]
fn load_config_unreadable_error() {
    let r = load_config(StoredConfig::Unreadable("access denied".to_string()));
    assert_eq!(r, Err("Failed to read config file: access denied".to_string()));
}

#[test]
fn load_config_unparsable_error() {
    let r = load_config(StoredConfig::Unparsable("expected value at line 1 column 1".to_string()));
    assert_eq!(r, Err("Failed to parse config: expected value at line 1 column 1".to_string()));
}

#[test]
fn save_succeeds_when_every_step_succeeds() {
    let mut step = SaveStep::begin();
    assert_eq!(step, SaveStep::CreateDirectory);
    step = step.next(Ok(()));
    assert_eq!(step, SaveStep::Serialize);
    step = step.next(Ok(()));
    assert_eq!(step, SaveStep::Write);
    step = step.next(Ok(()));
    assert_eq!(step, SaveStep::Notify);
    step = step.next(Ok(()));
    assert_eq!(step, SaveStep::Finished(Ok("Settings saved successfully".to_string())));
}

#[test]
fn save_stops_when_directory_cannot_be_created() {
    let step = SaveStep::begin().next(Err("disk full".to_string()));
    assert_eq!(step, SaveStep::Finished(Err("Failed to create config directory: disk full".to_string())));
    let again = step.next(Ok(()));
    assert_eq!(again, SaveStep::Finished(Err("Failed to create config directory: disk full".to_string())));
}

#[test]
fn save_stops_when_serialization_fails() {
    let step = SaveStep::begin().next(Ok(())).next(Err("bad value".to_string()));
    assert_eq!(step, SaveStep::Finished(Err("Failed to serialize config: bad value".to_string())));
}

#[test]
fn save_stops_when_write_fails() {
    let step = SaveStep::begin().next(Ok(())).next(Ok(())).next(Err("read-only".to_string()));
    assert_eq!(step, SaveStep::Finished(Err("Failed to write config file: read-only".to_string())));
}

#[test]
fn initial_core_settings_match_defaults() {
    let s = CoreSettings::initial();
    assert_eq!(s, CoreSettings { desktop_toggler: true, cursor_hider: false, cursor_hider_timeout: 5 });
    let r = s.reload(SettingsRead::Parsed(AppConfig::default()));
    assert_eq!(r.settings, s);
    assert_eq!(r.hider, HiderCommand::Stop);
    assert!(!r.rewrite_defaults);
}

#[test]
fn reload_applies_settings_and_starts_hider() {
    let r = CoreSettings::initial().reload(SettingsRead::Parsed(config(false, true, 3)));
    assert_eq!(r.settings, CoreSettings { desktop_toggler: false, cursor_hider: true, cursor_hider_timeout: 3 });
    assert_eq!(r.hider, HiderCommand::Start(3));
    assert!(!r.rewrite_defaults);
}

#[test]
fn reload_with_hider_off_stops_it() {
    let current = CoreSettings { desktop_toggler: true, cursor_hider: true, cursor_hider_timeout: 9 };
    let r = current.reload(SettingsRead::Parsed(config(true, false, 10)));
    assert_eq!(r.settings, CoreSettings { desktop_toggler: true, cursor_hider: false, cursor_hider_timeout: 10 });
    assert_eq!(r.hider, HiderCommand::Stop);
}

#[test]
fn reload_of_bad_file_falls_back_to_defaults() {
    let current = CoreSettings { desktop_toggler: false, cursor_hider: true, cursor_hider_timeout: 7 };
    for read in [SettingsRead::Unparsable, SettingsRead::Unreadable] {
        let r = current.reload(read);
        assert_eq!(r.settings, CoreSettings { desktop_toggler: true, cursor_hider: false, cursor_hider_timeout: 5 });
        assert_eq!(r.hider, HiderCommand::Stop);
        assert!(r.rewrite_defaults);
    }
}

#[test]
fn reload_twice_is_the_same() {
    let c = config(false, true, 12);
    let first = CoreSettings::initial().reload(SettingsRead::Parsed(c));
    let second = first.settings.reload(SettingsRead::Parsed(c));
    assert_eq!(first, second);
}
