use chat_broker::settings::parse_settings;
use chat_broker::settings::save_settings;
use chat_broker::settings::SettingsError;
use chat_broker::settings::SettingsStore;

#[test]
fn exit_flag_stores_the_inversion() {
    let mut store = SettingsStore::new();
    assert_eq!(store.exit_prevented(), false);
    store.set_exit_prevention(true);
    assert_eq!(store.exit_prevented(), false);
    store.set_exit_prevention(false);
    assert_eq!(store.exit_prevented(), true);
}

#[test]
fn saved_text_is_exact() {
    assert_eq!(
        save_settings("base-model", true),
        "{\"model\":\"base-model\",\"prevent_exit\":true}"
    );
    assert_eq!(save_settings("m2", false), "{\"model\":\"m2\",\"prevent_exit\":false}");
}

#[test]
fn saved_text_escapes_the_model() {
    let text = save_settings("a\"b\\c\nd", false);
    assert_eq!(text, "{\"model\":\"a\\\"b\\\\c\\u000ad\",\"prevent_exit\":false}");
    let back = parse_settings(text.as_str()).unwrap();
    assert_eq!(back.model, "a\"b\\c\nd");
    assert_eq!(back.prevent_exit, false);
}

#[test]
fn settings_round_trip() {
    let text = save_settings("pplx-70b-online", true);
    let back = parse_settings(text.as_str()).unwrap();
    assert_eq!(back.model, "pplx-70b-online");
    assert_eq!(back.prevent_exit, true);
}

#[test]
fn malformed_settings_are_reported() {
    assert!(matches!(parse_settings(""), Err(SettingsError::Malformed)));
    assert!(parse_settings("{ \"model\": \"x\", \"prevent_exit\": true }").is_err());
    assert!(parse_settings("{\"model\":\"x\",\"prevent_exit\":tru}").is_err());
    assert!(parse_settings("{\"model\":\"x\"}").is_err());
    assert_eq!(
        SettingsError::Malformed.message(),
        "settings text is not a valid settings object"
    );
}

#[test]
fn absent_file_adopts_and_persists_defaults() {
    let mut store = SettingsStore::new();
    let mut disk: Option<String> = None;
    let first = store.load_settings(disk.as_deref(), "base-model", true).unwrap();
    assert!(first.created);
    assert_eq!(first.settings.model, "base-model");
    assert_eq!(first.settings.prevent_exit, true);
    assert_eq!(first.json, "{\"model\":\"base-model\",\"prevent_exit\":true}");
    assert_eq!(store.exit_prevented(), true);
    disk = Some(first.json.clone());
    let second = store.load_settings(disk.as_deref(), "other", false).unwrap();
    assert!(!second.created);
    assert_eq!(second.settings.model, "base-model");
    assert_eq!(second.settings.prevent_exit, true);
    assert_eq!(store.exit_prevented(), true);
}

#[test]
fn malformed_load_keeps_the_cached_flag() {
    let mut store = SettingsStore::new();
    store.set_exit_prevention(false);
    assert_eq!(store.exit_prevented(), true);
    let r = store.load_settings(Some("nonsense"), "d", false);
    assert!(r.is_err());
    assert_eq!(store.exit_prevented(), true);
}

#[test]
fn unicode_model_round_trips() {
    let text = save_settings("modèle-λ", true);
    assert_eq!(text, "{\"model\":\"modèle-λ\",\"prevent_exit\":true}");
    let back = parse_settings(text.as_str()).unwrap();
    assert_eq!(back.model, "modèle-λ");
    assert!(back.prevent_exit);
}
