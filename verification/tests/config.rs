//! Configuration tests: credential handling, verbosity mapping, and folding
//! command-line requests into a configuration.

use fine_offset::config::{CliArgs, Config, ConfigError, Credentials, LogLevel, MqttConfig};
use fine_offset::integrity::checksum;

fn no_args() -> CliArgs {
    CliArgs {
        quiet: false,
        debug: 0,
        rtl_433_bin: None,
        mqtt_broker: None,
        mqtt_user: None,
        keyring_password: false,
        config_password: false,
        ignores: Vec::new(),
    }
}

#[test]
fn username_empty_means_absent() {
    let c = Credentials::ConfigFile(String::new(), "secret".to_string());
    assert!(c.username().is_none());
    let c = Credentials::ConfigFile("alice".to_string(), "secret".to_string());
    assert_eq!(c.username(), Some("alice".to_string()));
    let c = Credentials::Keyring(String::new());
    assert!(c.username().is_none());
    let c = Credentials::Keyring("bob".to_string());
    assert_eq!(c.username(), Some("bob".to_string()));
}

#[test]
fn configfile_password_empty_means_absent() {
    let c = Credentials::ConfigFile("alice".to_string(), String::new());
    assert_eq!(c.password().unwrap(), None);
    let c = Credentials::ConfigFile("alice".to_string(), "secret".to_string());
    assert_eq!(c.password().unwrap(), Some("secret".to_string()));
}

#[test]
fn get_needs_both_parts() {
    let c = Credentials::ConfigFile("alice".to_string(), "secret".to_string());
    assert_eq!(c.get(), Some(("alice".to_string(), "secret".to_string())));
    let c = Credentials::ConfigFile("alice".to_string(), String::new());
    assert!(c.get().is_none());
    let c = Credentials::ConfigFile(String::new(), "secret".to_string());
    assert!(c.get().is_none());
}

#[test]
fn update_username_keeps_variant_and_password() {
    let c = Credentials::ConfigFile("alice".to_string(), "secret".to_string());
    let c2 = c.update_username("carol");
    assert_eq!(c2.username(), Some("carol".to_string()));
    assert_eq!(c2.password().unwrap(), Some("secret".to_string()));
    let k = Credentials::Keyring("bob".to_string());
    let k2 = k.update_username("dave");
    assert_eq!(k2.username(), Some("dave".to_string()));
    assert!(matches!(k2, Credentials::Keyring(_)));
}

#[test]
fn update_password_on_configfile() {
    let c = Credentials::ConfigFile("alice".to_string(), "old".to_string());
    let c2 = c.update_password("new").unwrap();
    assert_eq!(c2.password().unwrap(), Some("new".to_string()));
    assert_eq!(c2.username(), Some("alice".to_string()));
}

#[test]
fn as_configfile_is_identity_on_configfile() {
    let c = Credentials::ConfigFile("alice".to_string(), "secret".to_string());
    let c2 = c.as_configfile();
    assert_eq!(c2.username(), Some("alice".to_string()));
    assert_eq!(c2.password().unwrap(), Some("secret".to_string()));
}

#[test]
fn default_credentials_are_empty_configfile() {
    let c = Credentials::default();
    assert!(c.username().is_none());
    assert_eq!(c.password().unwrap(), None);
    assert!(c.get().is_none());
}

#[test]
fn mqtt_config_new_has_no_credentials() {
    let m = MqttConfig::new("localhost:1883".to_string());
    assert_eq!(m.broker, "localhost:1883");
    assert!(m.credentials.is_none());
}

#[test]
fn log_level_mapping() {
    let mut conf = Config::default();
    assert_eq!(conf.get_log_level(), LogLevel::Error);
    conf.output_level = Some(0);
    assert_eq!(conf.get_log_level(), LogLevel::Off);
    conf.output_level = Some(1);
    assert_eq!(conf.get_log_level(), LogLevel::Error);
    conf.output_level = Some(2);
    assert_eq!(conf.get_log_level(), LogLevel::Warn);
    conf.output_level = Some(3);
    assert_eq!(conf.get_log_level(), LogLevel::Info);
    conf.output_level = Some(4);
    assert_eq!(conf.get_log_level(), LogLevel::Debug);
    conf.output_level = Some(9);
    assert_eq!(conf.get_log_level(), LogLevel::Trace);
}

#[test]
fn quiet_and_debug_set_the_level() {
    let mut conf = Config::default();
    let mut args = no_args();
    args.quiet = true;
    conf.update_from_args(&args).unwrap();
    assert_eq!(conf.output_level, Some(0));

    let mut conf = Config::default();
    let mut args = no_args();
    args.debug = 2;
    conf.update_from_args(&args).unwrap();
    assert_eq!(conf.output_level, Some(3));

    // Absent flags leave a configured level alone.
    let mut args2 = no_args();
    args2.rtl_433_bin = Some("/usr/bin/rtl_433".to_string());
    conf.update_from_args(&args2).unwrap();
    assert_eq!(conf.output_level, Some(3));
    assert_eq!(conf.rtl_433, Some("/usr/bin/rtl_433".to_string()));
}

#[test]
fn broker_argument_creates_mqtt_config() {
    let mut conf = Config::default();
    let mut args = no_args();
    args.mqtt_broker = Some("broker:1883".to_string());
    args.mqtt_user = Some("alice".to_string());
    conf.update_from_args(&args).unwrap();
    let mqtt = conf.mqtt.expect("mqtt settings were created");
    assert_eq!(mqtt.broker, "broker:1883");
    let cred = mqtt.credentials.expect("credentials were created");
    assert_eq!(cred.username(), Some("alice".to_string()));
    assert!(matches!(cred, Credentials::ConfigFile(_, _)));
}

#[test]
fn credentials_without_broker_are_refused() {
    let mut conf = Config::default();
    let mut args = no_args();
    args.mqtt_user = Some("alice".to_string());
    assert_eq!(
        conf.update_from_args(&args).unwrap_err(),
        ConfigError::MqttMissingBroker
    );
    assert!(conf.mqtt.is_none());
}

#[test]
fn broker_argument_overwrites_broker() {
    let mut conf = Config::default();
    conf.mqtt = Some(MqttConfig::new("old:1883".to_string()));
    let mut args = no_args();
    args.mqtt_broker = Some("new:1883".to_string());
    conf.update_from_args(&args).unwrap();
    assert_eq!(conf.mqtt.unwrap().broker, "new:1883");
}

#[test]
fn config_password_mode_converts_credentials() {
    let mut conf = Config::default();
    let mut mqtt = MqttConfig::new("broker:1883".to_string());
    mqtt.credentials = Some(Credentials::ConfigFile(
        "alice".to_string(),
        "secret".to_string(),
    ));
    conf.mqtt = Some(mqtt);
    let mut args = no_args();
    args.config_password = true;
    conf.update_from_args(&args).unwrap();
    let cred = conf.mqtt.unwrap().credentials.unwrap();
    assert!(matches!(cred, Credentials::ConfigFile(_, _)));
    assert_eq!(cred.password().unwrap(), Some("secret".to_string()));
}

#[test]
fn ignores_accumulate_without_duplicates() {
    let mut conf = Config::default();
    conf.sensor_ignores = vec!["a/1".to_string()];
    let mut args = no_args();
    args.ignores = vec![
        "b/2".to_string(),
        "a/1".to_string(),
        "b/2".to_string(),
        "c/3".to_string(),
    ];
    conf.update_from_args(&args).unwrap();
    assert_eq!(
        conf.sensor_ignores,
        vec!["a/1".to_string(), "b/2".to_string(), "c/3".to_string()]
    );
}

#[test]
fn checksum_is_the_wrapping_byte_sum() {
    assert_eq!(checksum(&[]), 0);
    assert_eq!(checksum(&[0x01, 0x02, 0x03]), 6);
    assert_eq!(checksum(&[0xff, 0x01]), 0);
    assert_eq!(checksum(&[0x30, 0xc3, 0x82, 0x0a, 0x5e, 0xdf]), 0xbc);
}
