use myowndesk::config::{mode_of, ClientConfig, ConfigError, DeviceConfig, Mode, ServerConfig};
use myowndesk::hex_text::HexError;
use myowndesk::relay_config::{config_path, default_listen_address, KeyError, RelayConfig};

fn client_config(id: &str, key: &str) -> ClientConfig {
    ClientConfig {
        server: ServerConfig { address: "127.0.0.1:21117".to_string() },
        device: DeviceConfig { id: id.to_string(), pre_shared_key: key.to_string() },
    }
}

fn relay_config(key: Option<&str>) -> RelayConfig {
    RelayConfig {
        listen_address: "127.0.0.1:1".to_string(),
        pre_shared_key: key.map(|k| k.to_string()),
        heartbeat_interval_secs: 5,
        heartbeat_timeout_secs: 7,
    }
}

#[test]
fn test_config_load_not_exists() {
    let (config, save) = ClientConfig::load::<()>(Ok(None)).unwrap();
    assert_eq!(config.server.address, "127.0.0.1:21117");
    assert!(config.device.id.is_empty());
    assert!(config.device.pre_shared_key.is_empty());
    assert!(save);
    let (again, save) = ClientConfig::load::<()>(Ok(Some(config))).unwrap();
    assert_eq!(again.server.address, "127.0.0.1:21117");
    assert!(!save);
}

#[test]
fn a_file_that_cannot_be_read_is_an_error() {
    assert_eq!(ClientConfig::load(Err("no settings")).err(), Some("no settings"));
}

#[test]
fn settings_that_exist_are_kept() {
    let found = Ok(Some(client_config("van-laptop", "aabb")));
    let (config, save) = ClientConfig::load::<()>(found).unwrap();
    assert_eq!(config.device.id, "van-laptop");
    assert_eq!(config.device.pre_shared_key, "aabb");
    assert!(!save);
}

#[test]
fn test_resolve_device_id_uses_config() {
    let config = client_config("my-pc", "key");
    assert_eq!(config.resolve_device_id(None, None), "my-pc");
    assert_eq!(config.resolve_device_id(Some("host".to_string()), None), "my-pc");
}

#[test]
fn test_resolve_device_id_empty_fallback() {
    let config = client_config("", "key");
    let id = config.resolve_device_id(None, None);
    assert!(!id.is_empty(), "设备 ID 不应为空");
    assert_eq!(id, "unknown");
}

#[test]
fn a_blank_id_falls_back_to_the_machine() {
    let config = client_config(" \t\u{a0}\u{3000}\n", "key");
    let pc = Some("PC".to_string());
    let host = Some("host".to_string());
    assert_eq!(config.resolve_device_id(pc.clone(), host.clone()), "PC");
    assert_eq!(config.resolve_device_id(None, host), "host");
    assert_eq!(config.resolve_device_id(pc, None), "PC");
}

#[test]
fn white_space_around_an_id_is_dropped() {
    let config = client_config("\u{2003} my pc \r\n", "key");
    assert_eq!(config.resolve_device_id(None, None), "my pc");
}

#[test]
fn a_service_needs_a_key() {
    match client_config("a", "").service_plan(None, None) {
        Err(e) => assert_eq!(e, ConfigError::NoKey),
        Ok(_) => panic!("there is no key"),
    }
    let plan = client_config("a", "00").service_plan(None, None).unwrap();
    assert_eq!(plan.server_address, "127.0.0.1:21117");
    assert_eq!(plan.device_id, "a");
    assert_eq!(plan.pre_shared_key, "00");
}

#[test]
fn a_viewer_needs_a_key_and_a_target() {
    let target = "van-pc".to_string();
    assert!(matches!(
        client_config("a", "").viewer_plan(None, None, target.clone()),
        Err(ConfigError::NoKey)
    ));
    assert!(matches!(
        client_config("a", "00").viewer_plan(None, None, String::new()),
        Err(ConfigError::NoTarget)
    ));
    let plan = client_config("a", "00").viewer_plan(None, None, target).unwrap();
    assert_eq!(plan.device_id, "a-gui");
    assert_eq!(plan.target_device_id, "van-pc");
}

#[test]
fn the_argument_chooses_the_mode() {
    assert_eq!(mode_of(Some("--service".to_string())), Mode::Service);
    assert_eq!(mode_of(Some("--gui".to_string())), Mode::Gui);
    assert_eq!(mode_of(None), Mode::Gui);
}

#[test]
fn a_relay_without_settings_gets_default_ones() {
    let loaded = RelayConfig::load_or_create(None);
    assert!(loaded.save);
    assert_eq!(loaded.config.listen_address, "0.0.0.0:21117");
    assert_eq!(loaded.config.heartbeat_interval_secs, 10);
    assert_eq!(loaded.config.heartbeat_timeout_secs, 30);
    let key = loaded.config.pre_shared_key.clone().unwrap();
    assert_eq!(key.len(), 64);
    assert_eq!(loaded.config.key_bytes().unwrap().len(), 32);
    assert_eq!(default_listen_address(), "0.0.0.0:21117");
}

#[test]
fn a_missing_key_is_generated() {
    for found in [relay_config(None), relay_config(Some(""))] {
        assert!(found.needs_key());
        let loaded = RelayConfig::load_or_create(Some(found));
        assert!(loaded.save);
        assert_eq!(loaded.config.listen_address, "127.0.0.1:1");
        assert_eq!(loaded.config.heartbeat_interval_secs, 5);
        assert_eq!(loaded.config.heartbeat_timeout_secs, 7);
        assert!(!loaded.config.needs_key());
    }
}

#[test]
fn a_key_that_exists_is_kept() {
    let loaded = RelayConfig::load_or_create(Some(relay_config(Some("ab"))));
    assert!(!loaded.save);
    assert_eq!(loaded.config.pre_shared_key.unwrap(), "ab");
}

#[test]
fn settings_are_completed_with_the_given_key() {
    let loaded = RelayConfig::complete(Some(relay_config(None)), "cd".to_string());
    assert_eq!(loaded.config.pre_shared_key.unwrap(), "cd");
    let loaded = RelayConfig::complete(Some(relay_config(Some("ab"))), "cd".to_string());
    assert_eq!(loaded.config.pre_shared_key.unwrap(), "ab");
}

#[test]
fn generated_keys_differ_and_are_lower_case() {
    let a = RelayConfig::generate_key();
    let b = RelayConfig::generate_key();
    assert_ne!(a, b);
    assert!(a.chars().all(|c| c.is_ascii_digit() || ('a'..='f').contains(&c)));
}

#[test]
fn a_key_reads_back_as_it_was_written() {
    let mut bytes = vec![0x00, 0x01, 0x7f, 0x80, 0xab, 0xff];
    assert_eq!(RelayConfig::key_text(&bytes), "00017f80abff");
    bytes.extend(vec![0xcd; 26]);
    let text = RelayConfig::key_text(&bytes);
    assert_eq!(text, "00017f80abff".to_string() + &"cd".repeat(26));
    assert_eq!(relay_config(Some(&text)).key_bytes(), Ok(bytes.clone()));
    assert_eq!(relay_config(Some(&text.to_uppercase())).key_bytes(), Ok(bytes));
}

#[test]
fn a_key_has_thirty_two_bytes() {
    assert_eq!(relay_config(Some("aabb")).key_bytes(), Err(KeyError::BadLength(2)));
    assert_eq!(
        relay_config(Some(&"ab".repeat(33))).key_bytes(),
        Err(KeyError::BadLength(33))
    );
    assert_eq!(relay_config(Some(&"ab".repeat(32))).key_bytes(), Ok(vec![0xab; 32]));
}

#[test]
fn a_relay_without_a_key_cannot_start() {
    assert_eq!(relay_config(None).key_bytes(), Err(KeyError::NotSet));
    assert_eq!(relay_config(Some("")).key_bytes(), Err(KeyError::NotSet));
}

#[test]
fn a_key_has_to_be_hexadecimal() {
    assert_eq!(
        relay_config(Some("abc")).key_bytes(),
        Err(KeyError::BadFormat(HexError::OddLength))
    );
    assert_eq!(
        relay_config(Some("abxg")).key_bytes(),
        Err(KeyError::BadFormat(HexError::InvalidCharacter { c: 'x', index: 2 }))
    );
}

#[test]
fn the_first_argument_names_the_settings_file() {
    assert_eq!(config_path(None), "relay.toml");
    assert_eq!(config_path(Some("-v".to_string())), "relay.toml");
    assert_eq!(config_path(Some("other.toml".to_string())), "other.toml");
    assert_eq!(config_path(Some(String::new())), "");
}
