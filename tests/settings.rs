use assistant_core::codec::{decode_base64, decode_secret, encode_base64, encode_secret};
use assistant_core::json::JsonValue;
use assistant_core::settings::{
    apply_patch, load_settings, settle_rebind, shortcut_changed, load_settings_text, to_document, Dialect, Settings,
    SettingsPatch, DEFAULT_ENDPOINT, DEFAULT_MODEL, DEFAULT_SHORTCUT, DEFAULT_SYSTEM_PROMPT,
    SECRET_PLACEHOLDER,
};
use assistant_core::shortcut::ShortcutError;
use assistant_core::validate::ValidationError;

fn sample() -> Settings {
    Settings {
        secret: "sk-secret-ü".to_string(),
        endpoint_url: "https://llm.example.com/v1/chat".to_string(),
        model_id: "model-7b".to_string(),
        shortcut: "Alt+Space".to_string(),
        system_prompt: "Be brief.".to_string(),
        dialect: Dialect::Compatible,
    }
}

fn same_fields(a: &Settings, b: &Settings) {
    assert_eq!(a.secret, b.secret);
    assert_eq!(a.endpoint_url, b.endpoint_url);
    assert_eq!(a.model_id, b.model_id);
    assert_eq!(a.shortcut, b.shortcut);
    assert_eq!(a.system_prompt, b.system_prompt);
    assert_eq!(a.dialect, b.dialect);
}

fn stored_secret(doc: &JsonValue) -> String {
    match doc {
        JsonValue::Object(members) => {
            for (k, v) in members {
                if k == "secret" {
                    if let JsonValue::Str(s) = v {
                        return s.clone();
                    }
                }
            }
            panic!("no secret stored")
        },
        _ => panic!("not an object"),
    }
}

#[test]
fn base64_known_values() {
    assert_eq!(encode_base64(b"hello"), "aGVsbG8=");
    assert_eq!(encode_base64(b"hi"), "aGk=");
    assert_eq!(encode_base64(b"abc"), "YWJj");
    assert_eq!(encode_base64(b""), "");
    assert_eq!(decode_base64("aGVsbG8="), Some(b"hello".to_vec()));
    assert_eq!(decode_base64("aGk="), Some(b"hi".to_vec()));
}

#[test]
fn base64_malformed_refused() {
    assert_eq!(decode_base64("abc"), None);
    assert_eq!(decode_base64("a=bc"), None);
    assert_eq!(decode_base64("!!!!"), None);
    assert_eq!(decode_base64("aGk=aGk="), None);
}

#[test]
fn secret_round_trip() {
    let e = encode_secret("sk-ü€𝄞");
    assert_ne!(e, "sk-ü€𝄞");
    assert_eq!(decode_secret(&e), Some("sk-ü€𝄞".to_string()));
    assert_eq!(decode_secret("/w=="), None);
}

#[test]
fn defaults_are_complete() {
    let d = Settings::defaults();
    assert_eq!(d.secret, SECRET_PLACEHOLDER);
    assert_eq!(d.endpoint_url, DEFAULT_ENDPOINT);
    assert_eq!(d.model_id, DEFAULT_MODEL);
    assert_eq!(d.shortcut, DEFAULT_SHORTCUT);
    assert_eq!(d.system_prompt, DEFAULT_SYSTEM_PROMPT);
    assert_eq!(d.dialect, Dialect::Standard);
}

#[test]
fn save_then_load_round_trip() {
    let s = sample();
    let doc = to_document(&s);
    assert_ne!(stored_secret(&doc), s.secret);
    let loaded = load_settings(Some(&doc));
    assert!(!loaded.rewrite);
    same_fields(&loaded.settings, &s);
}

#[test]
fn missing_store_gives_defaults() {
    let loaded = load_settings_text(None);
    same_fields(&loaded.settings, &Settings::defaults());
    assert!(!loaded.rewrite);
}

#[test]
fn unparsable_store_gives_defaults() {
    let loaded = load_settings_text(Some("{not json"));
    same_fields(&loaded.settings, &Settings::defaults());
    let loaded = load_settings_text(Some("[1,2]"));
    same_fields(&loaded.settings, &Settings::defaults());
}

#[test]
fn empty_model_repaired_alone() {
    let text = format!(
        r#"{{"secret":"{}","api_url":"https://llm.example.com/v1/chat","model_name":"","shortcut":"Alt+Space","system_prompt":"Be brief.","api_type":"compatible","other":1}}"#,
        encode_secret("sk-secret-ü")
    );
    let loaded = load_settings_text(Some(&text));
    let mut expected = sample();
    expected.model_id = DEFAULT_MODEL.to_string();
    same_fields(&loaded.settings, &expected);
    assert!(!loaded.rewrite);
}

#[test]
fn missing_fields_take_defaults() {
    let loaded = load_settings_text(Some(r#"{"shortcut":"F9","api_type":"weird"}"#));
    let mut expected = Settings::defaults();
    expected.shortcut = "F9".to_string();
    same_fields(&loaded.settings, &expected);
}

#[test]
fn corrupted_secret_self_heals() {
    let text = r#"{"secret":"%%%not-base64","model_name":"m1"}"#;
    let loaded = load_settings_text(Some(text));
    assert_eq!(loaded.settings.secret, SECRET_PLACEHOLDER);
    assert_eq!(loaded.settings.model_id, "m1");
    assert!(loaded.rewrite);
    let doc = to_document(&loaded.settings);
    let again = load_settings(Some(&doc));
    assert!(!again.rewrite);
    same_fields(&again.settings, &loaded.settings);
}

#[test]
fn patch_applies_given_fields() {
    let current = sample();
    let patch = SettingsPatch {
        secret: None,
        endpoint_url: Some("https://other.example.org/chat".to_string()),
        model_id: None,
        shortcut: Some("Ctrl+K".to_string()),
        system_prompt: None,
        dialect: Some(Dialect::Standard),
    };
    let s = apply_patch(&current, patch).expect("patch");
    assert_eq!(s.endpoint_url, "https://other.example.org/chat");
    assert_eq!(s.shortcut, "Ctrl+K");
    assert_eq!(s.dialect, Dialect::Standard);
    assert_eq!(s.secret, current.secret);
    assert_eq!(s.model_id, current.model_id);
}

#[test]
fn patch_refusals() {
    let current = sample();
    let bad_url = SettingsPatch {
        secret: None,
        endpoint_url: Some("http://10.1.2.3/".to_string()),
        model_id: None,
        shortcut: None,
        system_prompt: None,
        dialect: None,
    };
    assert_eq!(apply_patch(&current, bad_url).err(), Some(ValidationError::UnsafeUrl));
    let bad_model = SettingsPatch {
        secret: None,
        endpoint_url: None,
        model_id: Some("a b".to_string()),
        shortcut: None,
        system_prompt: None,
        dialect: None,
    };
    assert_eq!(apply_patch(&current, bad_model).err(), Some(ValidationError::InvalidModelId));
    let empty_secret = SettingsPatch {
        secret: Some(String::new()),
        endpoint_url: None,
        model_id: None,
        shortcut: None,
        system_prompt: None,
        dialect: None,
    };
    assert_eq!(apply_patch(&current, empty_secret).err(), Some(ValidationError::EmptyField));
}

#[test]
fn dialect_names() {
    assert_eq!(Dialect::Standard.name(), "openai");
    assert_eq!(Dialect::parse("compatible"), Some(Dialect::Compatible));
    assert_eq!(Dialect::parse("x"), None);
}

fn shortcut_patch(spec: Option<&str>) -> SettingsPatch {
    SettingsPatch {
        secret: None,
        endpoint_url: None,
        model_id: None,
        shortcut: spec.map(|x| x.to_string()),
        system_prompt: None,
        dialect: None,
    }
}

#[test]
fn shortcut_change_detected() {
    let current = sample();
    assert!(shortcut_changed(&current, &shortcut_patch(Some("Ctrl+K"))));
    assert!(!shortcut_changed(&current, &shortcut_patch(Some("Alt+Space"))));
    assert!(!shortcut_changed(&current, &shortcut_patch(None)));
}

#[test]
fn failed_rebind_keeps_previous_shortcut() {
    let mut patched = sample();
    patched.shortcut = "Ctrl+K".to_string();
    patched.model_id = "new-model".to_string();
    let err = ShortcutError::RegistrationFailed("taken".to_string());
    let (saved, result) = settle_rebind(patched, "Alt+Space".to_string(), Err(err));
    assert_eq!(saved.shortcut, "Alt+Space");
    assert_eq!(saved.model_id, "new-model");
    assert_eq!(result, Err(ShortcutError::RegistrationFailed("taken".to_string())));
}

#[test]
fn successful_rebind_keeps_patch() {
    let mut patched = sample();
    patched.shortcut = "Ctrl+K".to_string();
    let (saved, result) = settle_rebind(patched, "Alt+Space".to_string(), Ok(()));
    assert_eq!(saved.shortcut, "Ctrl+K");
    assert_eq!(result, Ok(()));
}
