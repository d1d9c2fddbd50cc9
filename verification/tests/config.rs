use ota_signer::config::{Config, SWEEP_INTERVAL_SECONDS};
use ota_signer::error::{ConfigError, Setting};
use ota_signer::signing::SIGNER_TIMEOUT_SECONDS;

fn value(text: &str) -> Option<String> {
    Some(text.to_string())
}

fn load_without(missing: Setting) -> Result<Config, ConfigError> {
    let unless = |setting: Setting, text: &str| if setting == missing { None } else { value(text) };
    Config::load(
        unless(Setting::Port, "8080"),
        unless(Setting::PublicPath, "/srv/public"),
        unless(Setting::WorkPath, "/srv/work"),
        unless(Setting::ProfilePath, "/keys/app.mobileprovision"),
        unless(Setting::KeyPath, "/keys/key.p12"),
        unless(Setting::ValidUdids, "device-1, device-2"),
    )
}

fn error_of(loaded: Result<Config, ConfigError>) -> ConfigError {
    match loaded {
        Ok(_) => panic!("the configuration was accepted"),
        Err(e) => e,
    }
}

#[test]
fn complete_settings_are_accepted() {
    let config = match Config::load(
        value("8080"),
        value("/srv/public"),
        value("/srv/work"),
        value("/keys/app.mobileprovision"),
        value("/keys/key.p12"),
        value("device-1, device-2"),
    ) {
        Ok(config) => config,
        Err(e) => panic!("{:?}", e),
    };
    assert_eq!(config.port, "8080");
    assert_eq!(config.public_path, "/srv/public");
    assert_eq!(config.work_path, "/srv/work");
    assert_eq!(config.profile_path, "/keys/app.mobileprovision");
    assert_eq!(config.key_path, "/keys/key.p12");
    assert!(config.allowlist.is_authorized("DEVICE-1"));
    assert!(config.allowlist.is_authorized(" device-2"));
    assert!(!config.allowlist.is_authorized("device-3"));
    assert_eq!(config.bind_address(), ":::8080");
}

#[test]
fn each_missing_setting_is_reported() {
    for setting in [
        Setting::Port,
        Setting::PublicPath,
        Setting::WorkPath,
        Setting::ProfilePath,
        Setting::KeyPath,
        Setting::ValidUdids,
    ] {
        assert_eq!(error_of(load_without(setting)), ConfigError::Missing(setting));
    }
}

#[test]
fn the_first_missing_setting_is_reported() {
    let loaded = Config::load(value("1"), None, value("w"), None, None, value(""));
    assert_eq!(error_of(loaded), ConfigError::Missing(Setting::PublicPath));
    let loaded = Config::load(None, None, None, None, None, None);
    assert_eq!(error_of(loaded), ConfigError::Missing(Setting::Port));
}

#[test]
fn an_allow_list_without_devices_is_refused() {
    let loaded = Config::load(value("1"), value("p"), value("w"), value("m"), value("k"), value(" , "));
    assert_eq!(error_of(loaded), ConfigError::NoValidUdids);
}

#[test]
fn messages_of_configuration_errors() {
    assert_eq!(ConfigError::Missing(Setting::Port).message(), "PORT not set");
    assert_eq!(ConfigError::Missing(Setting::PublicPath).message(), "PUBLIC_PATH not set");
    assert_eq!(ConfigError::Missing(Setting::WorkPath).message(), "WORK_PATH not set");
    assert_eq!(ConfigError::Missing(Setting::ProfilePath).message(), "OTAPROV_PATH not set");
    assert_eq!(ConfigError::Missing(Setting::KeyPath).message(), "KEY_PATH not set");
    assert_eq!(ConfigError::Missing(Setting::ValidUdids).message(), "VALID_UDIDS not set");
    assert_eq!(
        ConfigError::NoValidUdids.message(),
        "No valid UDIDs found. Please define VALID_UDIDS."
    );
}

#[test]
fn names_of_the_settings() {
    assert_eq!(Setting::Port.name(), "PORT");
    assert_eq!(Setting::ValidUdids.name(), "VALID_UDIDS");
}

#[test]
fn intervals() {
    assert_eq!(SWEEP_INTERVAL_SECONDS, 6 * 60 * 60);
    assert_eq!(SIGNER_TIMEOUT_SECONDS, 600);
}
