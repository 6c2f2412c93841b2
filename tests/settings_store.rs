use no_ponto::settings::{
    load_settings, save_settings, settings_from_document, settings_from_json,
    settings_to_document, DecodeFailure, Field, Settings, SettingsError,
};

fn sample() -> Settings {
    Settings {
        auto_import_enabled: true,
        auto_import_interval: 45,
        alarm_enabled: true,
        notification_enabled: false,
        pontomais_login: "ana@example.com".to_string(),
        pontomais_password: "s3cr\"et ç".to_string(),
    }
}

fn with_interval(n: u32) -> Settings {
    Settings { auto_import_interval: n, ..Settings::default() }
}

#[test]
fn missing_file_gives_defaults() {
    let s = load_settings(None).unwrap();
    assert_eq!(s.auto_import_enabled, false);
    assert_eq!(s.auto_import_interval, 10);
    assert_eq!(s.alarm_enabled, false);
    assert_eq!(s.notification_enabled, false);
    assert_eq!(s.pontomais_login, "");
    assert_eq!(s.pontomais_password, "");
    assert_eq!(s, Settings::default());
}

#[test]
fn save_then_load_gives_back_all_fields() {
    let s = sample();
    let text = save_settings(s.clone()).unwrap();
    let back = load_settings(Some(&text)).unwrap();
    assert_eq!(back, s);
}

#[test]
fn save_then_load_extremes() {
    for s in [
        Settings::default(),
        with_interval(0),
        with_interval(u32::MAX),
        Settings {
            auto_import_enabled: true,
            alarm_enabled: true,
            notification_enabled: true,
            pontomais_login: "\n\t{}[]".to_string(),
            pontomais_password: "日本語 🙂".to_string(),
            ..Settings::default()
        },
    ] {
        let text = save_settings(s.clone()).unwrap();
        assert_eq!(load_settings(Some(&text)).unwrap(), s);
    }
}

#[test]
fn saved_text_is_indented_camel_case_json() {
    let text = save_settings(sample()).unwrap();
    assert!(text.contains('\n'));
    for key in [
        "\"autoImportEnabled\": true",
        "\"autoImportInterval\": 45",
        "\"alarmEnabled\": true",
        "\"notificationEnabled\": false",
        "\"pontomaisLogin\": \"ana@example.com\"",
    ] {
        assert!(text.contains(key), "{key} missing in {text}");
    }
}

#[test]
fn truncated_file_is_a_deserialization_error() {
    let text = save_settings(sample()).unwrap();
    let cut = &text[..text.len() / 2];
    let r = load_settings(Some(cut));
    assert!(matches!(
        r,
        Err(SettingsError::Deserialization(DecodeFailure::Syntax(_)))
    ));
    assert!(matches!(
        load_settings(Some("")),
        Err(SettingsError::Deserialization(DecodeFailure::Syntax(_)))
    ));
}

#[test]
fn second_save_leaves_no_trace_of_the_first() {
    let first = save_settings(with_interval(99)).unwrap();
    assert!(first.contains("99"));
    let second = save_settings(with_interval(5)).unwrap();
    assert!(!second.contains("99"));
    assert_eq!(load_settings(Some(&second)).unwrap().auto_import_interval, 5);
}

#[test]
fn non_object_document_is_rejected() {
    assert!(matches!(
        settings_from_json("42"),
        Err(SettingsError::Deserialization(DecodeFailure::NotAnObject))
    ));
    assert!(matches!(
        settings_from_json("null"),
        Err(SettingsError::Deserialization(DecodeFailure::NotAnObject))
    ));
}

#[test]
fn missing_member_is_rejected() {
    let text = r#"{"autoImportEnabled": true, "autoImportInterval": 3,
        "notificationEnabled": true, "pontomaisLogin": "a", "pontomaisPassword": "b"}"#;
    assert!(matches!(
        settings_from_json(text),
        Err(SettingsError::Deserialization(DecodeFailure::MissingField(Field::AlarmEnabled)))
    ));
}

#[test]
fn member_of_wrong_type_is_rejected() {
    let text = r#"{"autoImportEnabled": false, "autoImportInterval": "10", "alarmEnabled": false,
        "notificationEnabled": false, "pontomaisLogin": "", "pontomaisPassword": ""}"#;
    assert!(matches!(
        settings_from_json(text),
        Err(SettingsError::Deserialization(DecodeFailure::WrongType(Field::AutoImportInterval)))
    ));
    let text = r#"{"autoImportEnabled": 1, "autoImportInterval": 10, "alarmEnabled": false,
        "notificationEnabled": false, "pontomaisLogin": "", "pontomaisPassword": ""}"#;
    assert!(matches!(
        settings_from_json(text),
        Err(SettingsError::Deserialization(DecodeFailure::WrongType(Field::AutoImportEnabled)))
    ));
    let text = r#"{"autoImportEnabled": false, "autoImportInterval": -1, "alarmEnabled": false,
        "notificationEnabled": false, "pontomaisLogin": "", "pontomaisPassword": null}"#;
    assert!(matches!(
        settings_from_json(text),
        Err(SettingsError::Deserialization(DecodeFailure::WrongType(Field::AutoImportInterval)))
    ));
}

#[test]
fn interval_beyond_u32_is_rejected() {
    let text = r#"{"autoImportEnabled": false, "autoImportInterval": 4294967296, "alarmEnabled": false,
        "notificationEnabled": false, "pontomaisLogin": "", "pontomaisPassword": ""}"#;
    assert!(matches!(
        settings_from_json(text),
        Err(SettingsError::Deserialization(DecodeFailure::OutOfRange(Field::AutoImportInterval)))
    ));
}

#[test]
fn unknown_members_are_ignored() {
    let text = r#"{"autoImportEnabled": true, "autoImportInterval": 7, "alarmEnabled": false,
        "notificationEnabled": true, "pontomaisLogin": "x", "pontomaisPassword": "y", "theme": "dark"}"#;
    let s = settings_from_json(text).unwrap();
    assert_eq!(
        s,
        Settings {
            auto_import_enabled: true,
            auto_import_interval: 7,
            alarm_enabled: false,
            notification_enabled: true,
            pontomais_login: "x".to_string(),
            pontomais_password: "y".to_string(),
        }
    );
}

#[test]
fn document_holds_each_field() {
    let v = settings_to_document(sample());
    let m = v.as_object().unwrap();
    assert_eq!(m.len(), 6);
    assert_eq!(m["autoImportEnabled"].as_bool(), Some(true));
    assert_eq!(m["autoImportInterval"].as_u64(), Some(45));
    assert_eq!(m["alarmEnabled"].as_bool(), Some(true));
    assert_eq!(m["notificationEnabled"].as_bool(), Some(false));
    assert_eq!(m["pontomaisLogin"].as_str(), Some("ana@example.com"));
    assert_eq!(m["pontomaisPassword"].as_str(), Some("s3cr\"et ç"));
    assert_eq!(settings_from_document(&v).unwrap(), sample());
}

#[test]
fn field_names_are_camel_case() {
    assert_eq!(Field::AutoImportEnabled.name(), "autoImportEnabled");
    assert_eq!(Field::AutoImportInterval.name(), "autoImportInterval");
    assert_eq!(Field::AlarmEnabled.name(), "alarmEnabled");
    assert_eq!(Field::NotificationEnabled.name(), "notificationEnabled");
    assert_eq!(Field::PontomaisLogin.name(), "pontomaisLogin");
    assert_eq!(Field::PontomaisPassword.name(), "pontomaisPassword");
}

#[test]
fn settings_equality_compares_every_field() {
    let a = sample();
    let mut b = sample();
    assert_eq!(a, b);
    b.pontomais_password = "other".to_string();
    assert_ne!(a, b);
}

#[test]
fn saved_members_keep_declared_order() {
    let text = save_settings(sample()).unwrap();
    let keys = [
        "autoImportEnabled",
        "autoImportInterval",
        "alarmEnabled",
        "notificationEnabled",
        "pontomaisLogin",
        "pontomaisPassword",
    ];
    let at: Vec<usize> = keys.iter().map(|k| text.find(&format!("\"{k}\"")).unwrap()).collect();
    assert!(at.windows(2).all(|w| w[0] < w[1]), "{text}");
}

#[test]
fn equal_settings_save_to_equal_text() {
    let a = save_settings(sample()).unwrap();
    let b = save_settings(sample()).unwrap();
    assert_eq!(a, b);
    let expected = "{\n  \"autoImportEnabled\": false,\n  \"autoImportInterval\": 10,\n  \"alarmEnabled\": false,\n  \"notificationEnabled\": false,\n  \"pontomaisLogin\": \"\",\n  \"pontomaisPassword\": \"\"\n}";
    assert_eq!(save_settings(Settings::default()).unwrap(), expected);
}
