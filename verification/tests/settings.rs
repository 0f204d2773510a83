use indicators::error::ConfigError;
use indicators::settings::{settings_sources, Settings};

#[test]
fn test_settings_load() {
    let settings = Settings::new();
    assert!(
        settings.is_ok(),
        "Settings failed to load: {:?}",
        settings.err()
    );
    let settings = settings.unwrap();

    // Check the default url
    assert_eq!(settings.url, "http://[::]:50051");
}

#[test]
fn settings_from_found_url() {
    let s = Settings::from_lookup(Ok("http://[::1]:50051".to_string())).unwrap();
    assert_eq!(s.url, "http://[::1]:50051");
}

#[test]
fn settings_from_failed_lookup() {
    match Settings::from_lookup(Err("configuration property \"url\" not found".to_string())) {
        Err(ConfigError::Load(m)) => assert_eq!(m, "configuration property \"url\" not found"),
        other => panic!("unexpected {:?}", other),
    }
}

#[test]
fn settings_read_from() {
    let s = settings_sources();
    assert_eq!(s.file, "config/default");
    assert!(!s.file_required);
    assert_eq!(s.default_url, "http://[::]:50051");
    assert_eq!(s.env_prefix, "APP");
    assert_eq!(s.env_separator, "__");
    assert_eq!(s.key, "url");
}
