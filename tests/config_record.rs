use voxtype::config::{Config, ConfigError, ConfigField};

fn sample() -> Config {
    Config {
        openai_api_key: "sk-test".to_string(),
        shortcut: "Alt+Space".to_string(),
        transcribe_model: "whisper-1".to_string(),
        post_model: "gpt-4o".to_string(),
    }
}

fn same(a: &Config, b: &Config) -> bool {
    a.openai_api_key == b.openai_api_key
        && a.shortcut == b.shortcut
        && a.transcribe_model == b.transcribe_model
        && a.post_model == b.post_model
}

#[test]
fn defaults_use_given_key() {
    let c = Config::with_defaults(Some("abc".to_string()));
    assert_eq!(c.openai_api_key, "abc");
    assert_eq!(c.shortcut, "Ctrl+Shift+Space");
    assert_eq!(c.transcribe_model, "gpt-4o-mini-transcribe");
    assert_eq!(c.post_model, "gpt-4.1-mini");
}

#[test]
fn defaults_without_key_are_empty() {
    let c = Config::with_defaults(None);
    assert_eq!(c.openai_api_key, "");
}

#[test]
fn save_then_load_gives_same_settings() {
    let c = sample();
    let rec = c.save();
    assert_eq!(rec.len(), 4);
    assert_eq!(rec[1].0, "shortcut");
    let back = Config::load(Some(&rec), None).unwrap();
    assert!(same(&c, &back));
}

#[test]
fn load_without_record_gives_defaults() {
    let c = Config::load(None, Some("k".to_string())).unwrap();
    assert!(same(&c, &Config::with_defaults(Some("k".to_string()))));
}

#[test]
fn load_reports_missing_field() {
    let mut rec = sample().save();
    rec.remove(2);
    let r = Config::load(Some(&rec), None);
    assert!(matches!(r, Err(ConfigError::MissingField(ConfigField::TranscribeModel))));
}

#[test]
fn load_reports_non_string_field() {
    let mut rec = sample().save();
    rec[0].1 = None;
    let r = Config::load(Some(&rec), None);
    assert!(matches!(r, Err(ConfigError::NotAString(ConfigField::ApiKey))));
}

#[test]
fn load_ignores_order_and_extra_keys() {
    let mut rec = sample().save();
    rec.reverse();
    rec.push(("theme".to_string(), None));
    let back = Config::load(Some(&rec), None).unwrap();
    assert!(same(&sample(), &back));
}

#[test]
fn with_shortcut_changes_only_hotkey() {
    let c = sample().with_shortcut("F9".to_string());
    assert_eq!(c.shortcut, "F9");
    assert_eq!(c.openai_api_key, "sk-test");
    assert_eq!(c.post_model, "gpt-4o");
}
