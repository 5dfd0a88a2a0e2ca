use recordscreen::language::Language;
use recordscreen::settings::{
    is_valid_fps, settings_load_step, Settings, SettingsLoad, StoredSettings,
};

fn s(language: &str, dir: &str, fps: u32) -> Settings {
    Settings { language: language.into(), output_dir: dir.into(), fps }
}

#[test]
fn validate_accepts_good_settings() {
    assert_eq!(s("en-US", "C:\\out", 30).validate(), Ok(()));
    assert_eq!(s("zh-TW", "x", 10).validate(), Ok(()));
    assert_eq!(s("zh-TW", "x", 60).validate(), Ok(()));
}

#[test]
fn validate_reports_each_error_in_order() {
    assert_eq!(s("fr-FR", "", 0).validate(), Err("Language must be en-US or zh-TW".to_string()));
    assert_eq!(s("en-US", "", 0).validate(), Err("Output folder cannot be empty".to_string()));
    assert_eq!(
        s("en-US", "d", 9).validate(),
        Err("Frame rate must be between 10 and 60 FPS".to_string())
    );
    assert_eq!(
        s("en-US", "d", 61).validate(),
        Err("Frame rate must be between 10 and 60 FPS".to_string())
    );
}

#[test]
fn fps_range() {
    assert!(!is_valid_fps(9));
    assert!(is_valid_fps(10));
    assert!(is_valid_fps(60));
    assert!(!is_valid_fps(61));
    assert!(!is_valid_fps(u64::MAX));
}

#[test]
fn first_run_keeps_legacy_chinese() {
    let st = Settings::from_legacy_language(" zh-TW\n", "D:\\v".into());
    assert_eq!(st, s("zh-TW", "D:\\v", 30));
    assert_eq!(st.validate(), Ok(()));
    let st = Settings::from_legacy_language("", "D:\\v".into());
    assert_eq!(st, s("en-US", "D:\\v", 30));
    let st = Settings::from_legacy_language("zh-CN", "D:\\v".into());
    assert_eq!(st.language, "en-US");
}

#[test]
fn fallback_is_english() {
    assert_eq!(Settings::fallback("o".into()), s("en-US", "o", 30));
}

#[test]
fn language_codes() {
    assert_eq!(Language::from_code("zh-TW"), Language::TraditionalChinese);
    assert_eq!(Language::from_code("en-US"), Language::English);
    assert_eq!(Language::from_code("zh-tw"), Language::English);
    assert_eq!(Language::English.code(), "en-US");
    assert_eq!(Language::TraditionalChinese.code(), "zh-TW");
    for l in [Language::English, Language::TraditionalChinese] {
        assert_eq!(Language::from_code(l.code()), l);
    }
    assert_eq!(Language::English.text("Ready", "準備就緒"), "Ready");
    assert_eq!(Language::TraditionalChinese.text("Ready", "準備就緒"), "準備就緒");
}

#[test]
fn settings_load_decisions() {
    let path = "C:\\Users\\me\\AppData\\Local\\RecordScreen\\setting.json";
    assert_eq!(
        settings_load_step(path, StoredSettings::Parsed(s("zh-TW", "d", 20))),
        SettingsLoad::Loaded(s("zh-TW", "d", 20))
    );
    assert_eq!(
        settings_load_step(path, StoredSettings::Parsed(s("zh-TW", "d", 70))),
        SettingsLoad::Failed("Frame rate must be between 10 and 60 FPS".into())
    );
    assert_eq!(
        settings_load_step(path, StoredSettings::Unparsable("expected value at line 1 column 1".into())),
        SettingsLoad::Failed(format!("Could not read {path}: expected value at line 1 column 1"))
    );
    assert_eq!(settings_load_step(path, StoredSettings::Missing), SettingsLoad::StartFresh);
    assert_eq!(
        settings_load_step(path, StoredSettings::Unreadable("Access is denied.".into())),
        SettingsLoad::Failed(format!("Could not read {path}: Access is denied."))
    );
}
