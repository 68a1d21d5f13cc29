use base64::engine::general_purpose::STANDARD;
use base64::Engine;
use icloud_auth::attestation::HardwareConfig;
use icloud_auth::bridge::{
    clean_hardware_key, create_config_from_hardware_key, OsConfig, WrappedOSConfig,
};
use icloud_auth::document::PlistValue;
use icloud_auth::local_config::{HardwareInfo, LocalMacOSConfig, RawHardwareInfo};
use icloud_auth::macos::{MacOSConfig, ValidationSource};

fn config_bytes(value: &serde_json::Value) -> Vec<u8> {
    value.as_array().unwrap().iter().map(|b| b.as_u64().unwrap() as u8).collect()
}

fn config_text(value: &serde_json::Value, key: &str) -> String {
    value.get(key).unwrap().as_str().unwrap().to_string()
}

fn config_from_json(value: &serde_json::Value) -> Option<HardwareConfig> {
    let mac = config_bytes(value.get("io_mac_address")?);
    Some(HardwareConfig {
        product_name: config_text(value, "product_name"),
        io_mac_address: mac.try_into().ok()?,
        platform_serial_number: config_text(value, "platform_serial_number"),
        platform_uuid: config_text(value, "platform_uuid"),
        root_disk_uuid: config_text(value, "root_disk_uuid"),
        board_id: config_text(value, "board_id"),
        os_build_num: config_text(value, "os_build_num"),
        platform_serial_number_enc: config_bytes(value.get("platform_serial_number_enc")?),
        platform_uuid_enc: config_bytes(value.get("platform_uuid_enc")?),
        root_disk_uuid_enc: config_bytes(value.get("root_disk_uuid_enc")?),
        rom: config_bytes(value.get("rom")?),
        rom_enc: config_bytes(value.get("rom_enc")?),
        mlb: config_text(value, "mlb"),
        mlb_enc: config_bytes(value.get("mlb_enc")?),
    })
}

fn config_json_bytes(bytes: &[u8]) -> serde_json::Value {
    serde_json::Value::Array(bytes.iter().map(|b| serde_json::Value::from(*b)).collect())
}

fn config_to_json(hw: &HardwareConfig) -> serde_json::Value {
    let mut map = serde_json::Map::new();
    map.insert("product_name".to_string(), serde_json::Value::from(hw.product_name.clone()));
    map.insert("io_mac_address".to_string(), config_json_bytes(&hw.io_mac_address));
    map.insert(
        "platform_serial_number".to_string(),
        serde_json::Value::from(hw.platform_serial_number.clone()),
    );
    map.insert("platform_uuid".to_string(), serde_json::Value::from(hw.platform_uuid.clone()));
    map.insert("root_disk_uuid".to_string(), serde_json::Value::from(hw.root_disk_uuid.clone()));
    map.insert("board_id".to_string(), serde_json::Value::from(hw.board_id.clone()));
    map.insert("os_build_num".to_string(), serde_json::Value::from(hw.os_build_num.clone()));
    map.insert(
        "platform_serial_number_enc".to_string(),
        config_json_bytes(&hw.platform_serial_number_enc),
    );
    map.insert("platform_uuid_enc".to_string(), config_json_bytes(&hw.platform_uuid_enc));
    map.insert("root_disk_uuid_enc".to_string(), config_json_bytes(&hw.root_disk_uuid_enc));
    map.insert("rom".to_string(), config_json_bytes(&hw.rom));
    map.insert("rom_enc".to_string(), config_json_bytes(&hw.rom_enc));
    map.insert("mlb".to_string(), serde_json::Value::from(hw.mlb.clone()));
    map.insert("mlb_enc".to_string(), config_json_bytes(&hw.mlb_enc));
    serde_json::Value::Object(map)
}

fn config_pasted(json: &[u8]) -> String {
    let text = STANDARD.encode(json);
    let mut pasted = String::new();
    for (i, c) in text.chars().enumerate() {
        if i > 0 && i % 64 == 0 {
            pasted.push('\n');
        }
        pasted.push(c);
    }
    pasted.push_str(" \n");
    pasted
}

fn config_inner(wrapped: WrappedOSConfig) -> HardwareConfig {
    match wrapped.config {
        OsConfig::HardwareKey(config) => {
            assert_eq!(config.device_id, config.inner.platform_uuid.to_uppercase());
            config.inner
        }
        _ => panic!("expected a configuration from a hardware key"),
    }
}

fn config_b64(s: &str) -> Vec<u8> {
    STANDARD.decode(s).unwrap()
}

fn config_sample_hw() -> HardwareConfig {
    HardwareConfig {
        product_name: "MacBookAir8,1".into(),
        io_mac_address: [0xa4, 0x83, 0xe7, 0x11, 0x47, 0x1c],
        platform_serial_number: "C02YT1YMJK7M".into(),
        platform_uuid: "11D299A5-CF0B-544D-BAD3-7AC7A6E452D7".into(),
        root_disk_uuid: "FCDB63B5-D208-4AEE-B368-3DE952B911FF".into(),
        board_id: "Mac-827FAC58A8FDFA22".into(),
        os_build_num: "22G513".into(),
        platform_serial_number_enc: config_b64("c3kZ7+WofxcjaBTInJCwSV0="),
        platform_uuid_enc: config_b64("jGguP3mQH+Vw6dMAWrqZOnk="),
        root_disk_uuid_enc: config_b64("VvJODAsuSRdGQlhB5kPgf2M="),
        rom: config_b64("V9BNndaG"),
        rom_enc: config_b64("wWF12gciXzN/96bIt/ufTB0="),
        mlb: "C02923200KVKN3YAG".into(),
        mlb_enc: config_b64("CKp4ROiInBYAdvnbrbNjjkM="),
    }
}

#[test]
fn test_hardware_config_apple_silicon() {
    let json = r#"{
        "product_name": "Mac14,14",
        "io_mac_address": [164, 252, 20, 17, 24, 231],
        "platform_serial_number": "GYD6Q9YDH4",
        "platform_uuid": "4E2CDE99-F091-5723-980B-482821B8A20A",
        "root_disk_uuid": "10B6A4C2-D5EB-4CDC-9C60-31325B64AAAE",
        "board_id": "Mac14,14",
        "os_build_num": "25B78",
        "platform_serial_number_enc": [],
        "platform_uuid_enc": [],
        "root_disk_uuid_enc": [],
        "rom": [164, 252, 20, 17, 24, 231],
        "rom_enc": [],
        "mlb": "H28328500MN21G6AR",
        "mlb_enc": []
    }"#;

    let pasted = config_pasted(json.as_bytes());
    let key = clean_hardware_key(&pasted).expect("deser failed");
    let value: serde_json::Value = serde_json::from_slice(&key).expect("deser failed");
    let read = config_from_json(&value).expect("deser failed");
    let hw = config_inner(create_config_from_hardware_key(read, None, None, None));
    assert_eq!(hw.product_name, "Mac14,14");
    assert_eq!(hw.platform_serial_number, "GYD6Q9YDH4");
    assert_eq!(hw.mlb, "H28328500MN21G6AR");
    assert_eq!(hw.rom.len(), 6);
    assert!(hw.platform_serial_number_enc.is_empty());
    assert!(hw.mlb_enc.is_empty());
    assert!(hw.rom_enc.is_empty());
    println!("Apple Silicon HardwareConfig deserialized OK: {}", hw.product_name);
}

#[test]
fn test_hardware_config_json_roundtrip() {
    let hw = config_sample_hw();
    let json = serde_json::to_vec(&config_to_json(&hw)).unwrap();
    let key = clean_hardware_key(&config_pasted(&json)).unwrap();
    assert_eq!(key, json);
    let value: serde_json::Value = serde_json::from_slice(&key).unwrap();
    let read = config_from_json(&value).unwrap();
    let decoded = config_inner(create_config_from_hardware_key(read, None, None, None));
    assert_eq!(decoded.platform_serial_number, "C02YT1YMJK7M");
    assert_eq!(decoded.io_mac_address, [0xa4, 0x83, 0xe7, 0x11, 0x47, 0x1c]);
    assert_eq!(decoded.product_name, "MacBookAir8,1");
    assert_eq!(decoded.board_id, "Mac-827FAC58A8FDFA22");
    assert_eq!(decoded.mlb, "C02923200KVKN3YAG");
    println!("JSON roundtrip OK");
}

fn config_report() -> RawHardwareInfo {
    RawHardwareInfo {
        product_name: Some("Mac14,14".to_string()),
        serial_number: Some("GYD6Q9YDH4".to_string()),
        platform_uuid: Some("4E2CDE99-F091-5723-980B-482821B8A20A".to_string()),
        board_id: Some("Mac14,14".to_string()),
        os_build_num: Some("25B78".to_string()),
        os_version: Some("26.1".to_string()),
        rom: vec![164, 252, 20, 17, 24, 231],
        mlb: Some("H28328500MN21G6AR".to_string()),
        mac_address: vec![164, 252, 20, 17, 24, 231],
        root_disk_uuid: Some("10B6A4C2-D5EB-4CDC-9C60-31325B64AAAE".to_string()),
        error: None,
    }
}

fn config_empty_report() -> RawHardwareInfo {
    RawHardwareInfo {
        product_name: None,
        serial_number: None,
        platform_uuid: None,
        board_id: None,
        os_build_num: None,
        os_version: None,
        rom: vec![],
        mlb: None,
        mac_address: vec![],
        root_disk_uuid: None,
        error: None,
    }
}

#[test]
fn test_hardware_info_read() {
    let info = HardwareInfo::read(config_report()).expect("Failed to read hardware info");
    println!("Product: {}", info.product_name);
    println!("Serial: {}", info.serial_number);
    println!("UUID: {}", info.platform_uuid);
    println!("Build: {}", info.os_build_num);
    println!("Version: {}", info.os_version);
    println!("ROM: {} bytes", info.rom.len());
    println!("MLB: {}", info.mlb);
    println!("MAC: {:02x?}", info.mac_address);

    assert!(!info.product_name.is_empty(), "product name should not be empty");
    assert!(!info.serial_number.is_empty(), "serial number should not be empty");
    assert!(!info.os_version.is_empty(), "os version should not be empty");
}

#[test]
fn hardware_report_fields_are_kept() {
    let info = HardwareInfo::read(config_report()).unwrap();
    assert_eq!(info.product_name, "Mac14,14");
    assert_eq!(info.serial_number, "GYD6Q9YDH4");
    assert_eq!(info.platform_uuid, "4E2CDE99-F091-5723-980B-482821B8A20A");
    assert_eq!(info.board_id, "Mac14,14");
    assert_eq!(info.os_build_num, "25B78");
    assert_eq!(info.os_version, "26.1");
    assert_eq!(info.rom, vec![164, 252, 20, 17, 24, 231]);
    assert_eq!(info.mlb, "H28328500MN21G6AR");
    assert_eq!(info.mac_address, [164, 252, 20, 17, 24, 231]);
    assert_eq!(info.root_disk_uuid, "10B6A4C2-D5EB-4CDC-9C60-31325B64AAAE");
}

#[test]
fn missing_hardware_fields_take_their_fallbacks() {
    let info = HardwareInfo::read_with(config_empty_report(), "fallback-uuid".to_string()).unwrap();
    assert_eq!(info.product_name, "Mac");
    assert_eq!(info.serial_number, "");
    assert_eq!(info.platform_uuid, "fallback-uuid");
    assert_eq!(info.board_id, "");
    assert_eq!(info.os_build_num, "25B78");
    assert_eq!(info.os_version, "26.1");
    assert!(info.rom.is_empty());
    assert_eq!(info.mlb, "");
    assert_eq!(info.mac_address, [0; 6]);
    assert_eq!(info.root_disk_uuid, "");

    let drawn = HardwareInfo::read(config_empty_report()).unwrap();
    assert_eq!(drawn.platform_uuid.len(), 36);
    assert_eq!(drawn.platform_uuid, drawn.platform_uuid.to_lowercase());
    let again = HardwareInfo::read(config_empty_report()).unwrap();
    assert_ne!(drawn.platform_uuid, again.platform_uuid);
}

#[test]
fn mac_address_needs_exactly_six_bytes() {
    for len in [0usize, 5, 7, 12] {
        let mut report = config_report();
        report.mac_address = vec![1; len];
        assert_eq!(HardwareInfo::read(report).unwrap().mac_address, [0; 6]);
    }
}

#[test]
fn a_failed_hardware_report_is_an_error() {
    let mut report = config_report();
    report.error = Some("IOKit unavailable".to_string());
    assert_eq!(HardwareInfo::read(report).unwrap_err(), "IOKit unavailable");
    assert_eq!(
        LocalMacOSConfig::new(Err("IOKit unavailable".to_string())).unwrap_err(),
        "IOKit unavailable"
    );
}

fn config_local() -> LocalMacOSConfig {
    LocalMacOSConfig::new_with(
        HardwareInfo::read(config_report()).unwrap(),
        "4e2cde99-f091-5723-980b-482821b8a20a".to_string(),
    )
}

#[test]
fn local_config_values() {
    let drawn = LocalMacOSConfig::new(HardwareInfo::read(config_report())).unwrap();
    assert_eq!(drawn.device_id.len(), 36);
    assert_eq!(drawn.device_id, drawn.device_id.to_uppercase());
    assert_eq!(drawn.protocol_version, 1640);
    assert_eq!(drawn.icloud_ua, "com.apple.iCloudHelper/282 CFNetwork/1408.0.4 Darwin/22.5.0");
    assert_eq!(drawn.aoskit_version, "com.apple.AOSKit/282 (com.apple.accountsd/113)");

    let config = drawn.with_device_id("DEVICE".to_string());
    assert_eq!(config.device_id, "DEVICE");
    assert_eq!(config.protocol_version, 1640);
    assert_eq!(config.hw.serial_number, "GYD6Q9YDH4");
    assert_eq!(config.get_udid(), "DEVICE");
    assert_eq!(config.get_device_uuid(), "DEVICE");
}

#[test]
fn local_config_texts() {
    let config = config_local();
    assert_eq!(
        config.get_normal_ua("com.apple.iCloudHelper/282 CFNetwork"),
        Some("com.apple.iCloudHelper/282 CFNetwork com.apple.iCloudHelper/282".to_string())
    );
    assert_eq!(config.get_normal_ua("item"), Some("item com.apple.iCloudHelper/282".to_string()));
    assert_eq!(config.get_aoskit_version(), "com.apple.AOSKit/282 (com.apple.accountsd/113)");
    assert_eq!(
        config.get_mme_clientinfo("com.apple.AuthKit/1 (com.apple.akd/1.0)"),
        "<Mac14,14> <macOS;26.1;25B78> <com.apple.AuthKit/1 (com.apple.akd/1.0)>"
    );
    assert_eq!(config.get_version_ua(), "[macOS,26.1,25B78,Mac14,14]");
    assert_eq!(config.get_activation_device(), "MacOS");
    assert_eq!(config.get_device_name(), "Mac-GYD6Q9YDH4");
    assert_eq!(config.get_protocol_version(), 1640);
    assert_eq!(config.get_serial_number(), "GYD6Q9YDH4");
    assert_eq!(config.get_login_url(), "https://setup.icloud.com/setup/prefpane/loginDelegates");
    let register = config.get_register_meta();
    assert_eq!(register.hardware_version, "Mac14,14");
    assert_eq!(register.os_version, "macOS,26.1,25B78");
    assert_eq!(register.software_version, "25B78");
    let debug = config.get_debug_meta();
    assert_eq!(debug.user_version, "26.1");
    assert_eq!(debug.hardware_version, "Mac14,14");
    assert_eq!(debug.serial_number, "GYD6Q9YDH4");
    assert_eq!(
        config.get_gsa_hardware_headers(),
        vec![
            ("X-Apple-I-MLB".to_string(), "H28328500MN21G6AR".to_string()),
            ("X-Apple-I-ROM".to_string(), "a4fc141118e7".to_string()),
            ("X-Apple-I-SRL-NO".to_string(), "GYD6Q9YDH4".to_string()),
        ]
    );
}

#[test]
fn local_activation_info_keeps_the_device_id_as_it_is() {
    let config = config_local();
    let info = config.build_activation_info(vec![1, 2, 3]);
    assert_eq!(info.activation_randomness.len(), 36);
    assert_eq!(info.activation_randomness, info.activation_randomness.to_uppercase());
    assert_eq!(info.activation_state, "Unactivated");
    assert_eq!(info.build_version, "25B78");
    assert_eq!(info.device_cert_request, vec![1, 2, 3]);
    assert_eq!(info.device_class, "MacOS");
    assert_eq!(info.product_type, "Mac14,14");
    assert_eq!(info.product_version, "26.1");
    assert_eq!(info.serial_number, "GYD6Q9YDH4");
    assert_eq!(info.unique_device_id, "4e2cde99-f091-5723-980b-482821b8a20a");
    let given = config.build_activation_info_with(vec![], "RANDOM".to_string());
    assert_eq!(given.activation_randomness, "RANDOM");
}

fn config_private(entries: &icloud_auth::document::Dictionary) -> Vec<(String, String)> {
    entries
        .entries
        .iter()
        .map(|(k, v)| {
            let text = match v {
                PlistValue::String(s) => s.clone(),
                PlistValue::Integer(i) => format!("#{}", i),
                _ => panic!("unexpected value"),
            };
            (k.clone(), text)
        })
        .collect()
}

fn config_expected_private(build: &str, version: &str, device: &str) -> Vec<(String, String)> {
    vec![
        ("ap", "0"), ("d", "778000000.123456"), ("dt", "#1"), ("gt", "0"), ("h", "1"),
        ("m", "0"), ("p", "0"), ("pb", build), ("pn", "macOS"), ("pv", version), ("s", "0"),
        ("t", "0"), ("u", device), ("v", "1"),
    ]
    .into_iter()
    .map(|(k, v)| (k.to_string(), v.to_string()))
    .collect()
}

#[test]
fn local_private_data() {
    let config = config_local();
    assert_eq!(
        config_private(&config.get_private_data("778000000.123456")),
        config_expected_private("25B78", "26.1", "4E2CDE99-F091-5723-980B-482821B8A20A")
    );
}

fn config_macos() -> MacOSConfig {
    MacOSConfig {
        inner: config_sample_hw(),
        version: "13.6.4".to_string(),
        protocol_version: 1660,
        device_id: "11d299a5-cf0b-544d-bad3-7ac7a6e452d7".to_string(),
        icloud_ua: "com.apple.iCloudHelper/282 CFNetwork/1408.0.4 Darwin/22.5.0".to_string(),
        aoskit_version: "com.apple.AOSKit/282 (com.apple.accountsd/113)".to_string(),
        udid: None,
        nac_relay_url: None,
        relay_token: None,
        relay_cert_fp: None,
    }
}

#[test]
fn macos_config_texts() {
    let mut config = config_macos();
    assert_eq!(config.get_udid(), None);
    config.udid = Some("UDID".to_string());
    assert_eq!(config.get_udid(), Some("UDID".to_string()));
    assert_eq!(config.get_normal_ua("item"), Some("item com.apple.iCloudHelper/282".to_string()));
    config.icloud_ua = "oneword".to_string();
    assert_eq!(config.get_normal_ua("item"), None);
    assert_eq!(config.get_aoskit_version(), "com.apple.AOSKit/282 (com.apple.accountsd/113)");
    assert_eq!(
        config.get_mme_clientinfo("com.apple.akd/1.0"),
        "<MacBookAir8,1> <macOS;13.6.4;22G513> <com.apple.akd/1.0>"
    );
    assert_eq!(config.get_version_ua(), "[macOS,13.6.4,22G513,MacBookAir8,1]");
    assert_eq!(config.get_activation_device(), "MacOS");
    assert_eq!(config.get_device_uuid(), "11d299a5-cf0b-544d-bad3-7ac7a6e452d7");
    assert_eq!(config.get_device_name(), "Mac-C02YT1YMJK7M");
    assert_eq!(config.get_protocol_version(), 1660);
    assert_eq!(config.get_serial_number(), "C02YT1YMJK7M");
    assert_eq!(config.get_login_url(), "https://setup.icloud.com/setup/prefpane/loginDelegates");
    let register = config.get_register_meta();
    assert_eq!(register.hardware_version, "MacBookAir8,1");
    assert_eq!(register.os_version, "macOS,13.6.4,22G513");
    assert_eq!(register.software_version, "22G513");
    let debug = config.get_debug_meta();
    assert_eq!(debug.user_version, "13.6.4");
    assert_eq!(debug.hardware_version, "MacBookAir8,1");
    assert_eq!(debug.serial_number, "C02YT1YMJK7M");
    assert_eq!(
        config.get_gsa_hardware_headers(),
        vec![
            ("X-Apple-I-MLB".to_string(), "C02923200KVKN3YAG".to_string()),
            ("X-Apple-I-ROM".to_string(), "57d04d9dd686".to_string()),
            ("X-Apple-I-SRL-NO".to_string(), "C02YT1YMJK7M".to_string()),
        ]
    );
}

#[test]
fn macos_activation_info_has_the_device_id_in_upper_case() {
    let config = config_macos();
    let info = config.build_activation_info(vec![9]);
    assert_eq!(info.activation_randomness.len(), 36);
    assert_eq!(info.activation_randomness, info.activation_randomness.to_uppercase());
    assert_eq!(info.activation_state, "Unactivated");
    assert_eq!(info.build_version, "22G513");
    assert_eq!(info.device_cert_request, vec![9]);
    assert_eq!(info.device_class, "MacOS");
    assert_eq!(info.product_type, "MacBookAir8,1");
    assert_eq!(info.product_version, "13.6.4");
    assert_eq!(info.serial_number, "C02YT1YMJK7M");
    assert_eq!(info.unique_device_id, "11D299A5-CF0B-544D-BAD3-7AC7A6E452D7");
    let other = config.build_activation_info(vec![9]);
    assert_ne!(info.activation_randomness, other.activation_randomness);
}

#[test]
fn macos_private_data() {
    let config = config_macos();
    assert_eq!(
        config_private(&config.get_private_data("778000000.123456")),
        config_expected_private("22G513", "13.6.4", "11D299A5-CF0B-544D-BAD3-7AC7A6E452D7")
    );
}

#[test]
fn validation_data_comes_from_the_relay_where_one_is_configured() {
    let mut config = config_macos();
    assert!(matches!(config.generate_validation_data(), ValidationSource::Handshake));
    config.relay_token = Some("secret".to_string());
    assert!(matches!(config.generate_validation_data(), ValidationSource::Handshake));
    config.nac_relay_url = Some("https://relay.example/nac".to_string());
    match config.generate_validation_data() {
        ValidationSource::Relay { url, authorization } => {
            assert_eq!(url, "https://relay.example/nac");
            assert_eq!(authorization, Some("Bearer secret".to_string()));
        }
        _ => panic!("expected the relay"),
    }
    config.relay_token = None;
    match config.generate_validation_data() {
        ValidationSource::Relay { url, authorization } => {
            assert_eq!(url, "https://relay.example/nac");
            assert_eq!(authorization, None);
        }
        _ => panic!("expected the relay"),
    }
}
