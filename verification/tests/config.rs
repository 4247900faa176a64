use transmission::client::{SettingKey, SettingValue};
use transmission::ClientConfig;

#[test]
fn config_defaults() {
    let c = ClientConfig::new();
    assert!(!c.is_complete());
    assert!(c.app_name.is_none());
    assert!(c.config_dir.is_none());
    assert!(c.download_dir.is_none());
    assert!(c.use_utp);
    assert_eq!(c.log_level, 1);
    assert!(!c.rpc_enabled);
    assert!(c.rpc_url.is_none());
    assert!(c.rpc_port.is_none());
}

#[test]
fn config_complete_when_required_fields_set() {
    let c = ClientConfig::new()
        .app_name("testing")
        .config_dir("/tmp/tr-test")
        .download_dir("/tmp/tr-test");
    assert!(c.is_complete());
    assert_eq!(c.app_name.as_deref(), Some("testing"));
    assert_eq!(c.config_dir.as_deref(), Some("/tmp/tr-test"));
    assert_eq!(c.download_dir.as_deref(), Some("/tmp/tr-test"));
}

#[test]
fn config_incomplete_when_any_required_field_missing() {
    assert!(!ClientConfig::new().app_name("t").config_dir("/c").is_complete());
    assert!(!ClientConfig::new().app_name("t").download_dir("/d").is_complete());
    assert!(!ClientConfig::new().config_dir("/c").download_dir("/d").is_complete());
}

#[test]
fn config_setters_keep_other_fields() {
    let c = ClientConfig::new()
        .app_name("app")
        .use_utp(false)
        .log_level(4)
        .rpc_enabled(true)
        .rpc_url(String::from("http://localhost"))
        .rpc_port(String::from("9091"));
    assert_eq!(c.app_name.as_deref(), Some("app"));
    assert!(!c.use_utp);
    assert_eq!(c.log_level, 4);
    assert!(c.rpc_enabled);
    assert_eq!(c.rpc_url.as_deref(), Some("http://localhost"));
    assert_eq!(c.rpc_port.as_deref(), Some("9091"));
}

#[test]
fn settings_without_rpc() {
    let c = ClientConfig::new()
        .app_name("t")
        .config_dir("/c")
        .download_dir("/d")
        .use_utp(false)
        .log_level(3);
    let s = c.settings();
    assert_eq!(s.len(), 4);
    assert!(matches!(s[0].key, SettingKey::DownloadDir));
    match &s[0].value {
        SettingValue::Text(t) => assert_eq!(t, "/d"),
        _ => panic!("download dir should be a text setting"),
    }
    assert!(matches!(s[1].key, SettingKey::UtpEnabled));
    match &s[1].value {
        SettingValue::Flag(b) => assert!(!b),
        _ => panic!("utp should be a flag setting"),
    }
    assert!(matches!(s[2].key, SettingKey::MessageLevel));
    match &s[2].value {
        SettingValue::Number(n) => assert_eq!(*n, 3),
        _ => panic!("log level should be a number setting"),
    }
    assert!(matches!(s[3].key, SettingKey::RpcEnabled));
    match &s[3].value {
        SettingValue::Flag(b) => assert!(!b),
        _ => panic!("rpc should be a flag setting"),
    }
}

#[test]
fn settings_with_rpc() {
    let c = ClientConfig::new()
        .app_name("t")
        .rpc_enabled(true)
        .rpc_url(String::from("http://localhost"))
        .rpc_port(String::from("9091"));
    let s = c.settings();
    assert_eq!(s.len(), 5);
    assert!(matches!(s[0].key, SettingKey::UtpEnabled));
    assert!(matches!(s[1].key, SettingKey::MessageLevel));
    assert!(matches!(s[2].key, SettingKey::RpcEnabled));
    match &s[2].value {
        SettingValue::Flag(b) => assert!(b),
        _ => panic!("rpc should be a flag setting"),
    }
    assert!(matches!(s[3].key, SettingKey::RpcUrl));
    match &s[3].value {
        SettingValue::Text(t) => assert_eq!(t, "http://localhost"),
        _ => panic!("rpc url should be a text setting"),
    }
    assert!(matches!(s[4].key, SettingKey::RpcPort));
    match &s[4].value {
        SettingValue::Text(t) => assert_eq!(t, "9091"),
        _ => panic!("rpc port should be a text setting"),
    }
}

#[test]
fn settings_skip_rpc_details_when_rpc_disabled() {
    let c = ClientConfig::new()
        .app_name("t")
        .rpc_url(String::from("http://localhost"))
        .rpc_port(String::from("9091"));
    let s = c.settings();
    assert_eq!(s.len(), 3);
    assert!(matches!(s[0].key, SettingKey::UtpEnabled));
    assert!(matches!(s[1].key, SettingKey::MessageLevel));
    assert!(matches!(s[2].key, SettingKey::RpcEnabled));
}
