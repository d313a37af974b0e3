use esp_wmata_pids::config::{
    API_KEY_MAX_LEN, API_KEY_OFFSET, PASS_MAX_LEN, PASS_OFFSET, PAYLOAD_SZ, SSID_MAX_LEN,
    SSID_OFFSET,
};
use esp_wmata_pids::{config_offset, resolve_config, Config, ConfigError, CONFIG_SZ};

fn block_of(cfg: &Config) -> [u8; CONFIG_SZ] {
    let mut buf = [0u8; CONFIG_SZ];
    assert_eq!(cfg.to_bytes(&mut buf), Ok(CONFIG_SZ));
    buf
}

/// A block whose checksum is right for its payload.
fn sealed(mut buf: [u8; CONFIG_SZ]) -> [u8; CONFIG_SZ] {
    let crc = crc32fast::hash(&buf[..PAYLOAD_SZ]);
    buf[PAYLOAD_SZ..].copy_from_slice(&crc.to_le_bytes());
    buf
}

#[test]
fn scenario_record_round_trips() {
    let cfg = Config::new("home", "secretpw", "key123").unwrap();
    let buf = block_of(&cfg);
    let crc = crc32fast::hash(&buf[..PAYLOAD_SZ]);
    assert_eq!(&buf[PAYLOAD_SZ..], &crc.to_le_bytes());
    let back = Config::from_bytes(&buf).unwrap();
    assert_eq!(back.version(), 1);
    assert_eq!(back.ssid(), "home");
    assert_eq!(back.pass(), "secretpw");
    assert_eq!(back.api_key(), "key123");
}

#[test]
fn layout_is_fixed_width_and_zero_padded() {
    let cfg = Config::new("home", "secretpw", "key123").unwrap();
    let buf = block_of(&cfg);
    assert_eq!(CONFIG_SZ, 136);
    assert_eq!(&buf[..4], &[1, 4, 8, 6]);
    assert_eq!(&buf[SSID_OFFSET..SSID_OFFSET + 4], b"home");
    assert!(buf[SSID_OFFSET + 4..PASS_OFFSET].iter().all(|b| *b == 0));
    assert_eq!(&buf[PASS_OFFSET..PASS_OFFSET + 8], b"secretpw");
    assert!(buf[PASS_OFFSET + 8..API_KEY_OFFSET].iter().all(|b| *b == 0));
    assert_eq!(&buf[API_KEY_OFFSET..API_KEY_OFFSET + 6], b"key123");
    assert!(buf[API_KEY_OFFSET + 6..PAYLOAD_SZ].iter().all(|b| *b == 0));
}

#[test]
fn round_trip_at_maximum_lengths() {
    let ssid = "s".repeat(SSID_MAX_LEN);
    let pass = "p".repeat(PASS_MAX_LEN);
    let key = "k".repeat(API_KEY_MAX_LEN);
    let cfg = Config::new(&ssid, &pass, &key).unwrap();
    let back = Config::from_bytes(&block_of(&cfg)).unwrap();
    assert_eq!(back.ssid(), ssid);
    assert_eq!(back.pass(), pass);
    assert_eq!(back.api_key(), key);
}

#[test]
fn round_trip_empty_and_multibyte_fields() {
    let cfg = Config::new("", "pässwörd", "ключ").unwrap();
    let back = Config::from_bytes(&block_of(&cfg)).unwrap();
    assert_eq!(back.ssid(), "");
    assert_eq!(back.pass(), "pässwörd");
    assert_eq!(back.api_key(), "ключ");
}

#[test]
fn oversized_fields_are_rejected() {
    let ok_ssid = "s".repeat(32);
    let ok_pass = "p".repeat(64);
    let ok_key = "k".repeat(32);
    assert!(matches!(
        Config::new(&"s".repeat(33), &ok_pass, &ok_key),
        Err(ConfigError::BadArgs)
    ));
    assert!(matches!(
        Config::new(&ok_ssid, &"p".repeat(65), &ok_key),
        Err(ConfigError::BadArgs)
    ));
    assert!(matches!(
        Config::new(&ok_ssid, &ok_pass, &"k".repeat(33)),
        Err(ConfigError::BadArgs)
    ));
    // 17 two-byte characters are 34 bytes.
    assert!(matches!(
        Config::new(&"é".repeat(17), &ok_pass, &ok_key),
        Err(ConfigError::BadArgs)
    ));
}

#[test]
fn every_single_bit_flip_is_detected() {
    let cfg = Config::new("home", "secretpw", "key123").unwrap();
    let buf = block_of(&cfg);
    for bit in 0..CONFIG_SZ * 8 {
        let mut bad = buf;
        bad[bit / 8] ^= 1 << (bit % 8);
        assert!(
            matches!(Config::from_bytes(&bad), Err(ConfigError::BadChecksum)),
            "bit {bit}"
        );
    }
}

#[test]
fn all_zero_region_fails_checksum() {
    let zeros = [0u8; CONFIG_SZ];
    assert!(matches!(Config::from_bytes(&zeros), Err(ConfigError::BadChecksum)));
}

#[test]
fn all_zero_region_falls_back_to_supplied_credentials() {
    let zeros = [0u8; CONFIG_SZ];
    let boot = resolve_config(Config::from_bytes(&zeros).ok(), "fallback", "pw", "apikey").unwrap();
    assert!(boot.needs_save);
    assert_eq!(boot.config.ssid(), "fallback");
    assert_eq!(boot.config.pass(), "pw");
    assert_eq!(boot.config.api_key(), "apikey");
    assert_eq!(boot.config.version(), 1);
}

#[test]
fn loaded_record_is_kept_at_boot() {
    let cfg = Config::new("home", "secretpw", "key123").unwrap();
    let buf = block_of(&cfg);
    let boot = resolve_config(Config::from_bytes(&buf).ok(), "fallback", "pw", "apikey").unwrap();
    assert!(!boot.needs_save);
    assert_eq!(boot.config.ssid(), "home");
}

#[test]
fn oversized_fallback_is_rejected_at_boot() {
    let zeros = [0u8; CONFIG_SZ];
    let long = "x".repeat(33);
    assert!(matches!(
        resolve_config(Config::from_bytes(&zeros).ok(), &long, "pw", "key"),
        Err(ConfigError::BadArgs)
    ));
}

#[test]
fn short_buffers_are_rejected() {
    let cfg = Config::new("home", "secretpw", "key123").unwrap();
    let mut small = [7u8; CONFIG_SZ - 1];
    assert_eq!(cfg.to_bytes(&mut small), Err(ConfigError::BufferTooSmall));
    assert!(small.iter().all(|b| *b == 7));
    assert!(matches!(
        Config::from_bytes(&small),
        Err(ConfigError::BufferTooSmall)
    ));
    assert!(matches!(Config::from_bytes(&[]), Err(ConfigError::BufferTooSmall)));
}

#[test]
fn longer_buffer_keeps_trailing_bytes() {
    let cfg = Config::new("home", "secretpw", "key123").unwrap();
    let mut big = [0xAAu8; CONFIG_SZ + 8];
    assert_eq!(cfg.to_bytes(&mut big), Ok(CONFIG_SZ));
    assert!(big[CONFIG_SZ..].iter().all(|b| *b == 0xAA));
    let back = Config::from_bytes(&big).unwrap();
    assert_eq!(back.ssid(), "home");
}

#[test]
fn oversized_stored_length_is_a_decode_error() {
    let mut raw = [0u8; CONFIG_SZ];
    raw[0] = 1;
    raw[1] = 33;
    assert!(matches!(Config::from_bytes(&sealed(raw)), Err(ConfigError::Decode)));
    let mut raw = [0u8; CONFIG_SZ];
    raw[2] = 65;
    assert!(matches!(Config::from_bytes(&sealed(raw)), Err(ConfigError::Decode)));
    let mut raw = [0u8; CONFIG_SZ];
    raw[3] = 33;
    assert!(matches!(Config::from_bytes(&sealed(raw)), Err(ConfigError::Decode)));
}

#[test]
fn invalid_text_is_a_utf8_error() {
    let mut raw = [0u8; CONFIG_SZ];
    raw[1] = 2;
    raw[SSID_OFFSET] = 0xC3;
    raw[SSID_OFFSET + 1] = 0x28;
    assert!(matches!(Config::from_bytes(&sealed(raw)), Err(ConfigError::Utf8)));
    let mut raw = [0u8; CONFIG_SZ];
    raw[3] = 1;
    raw[API_KEY_OFFSET] = 0xFF;
    assert!(matches!(Config::from_bytes(&sealed(raw)), Err(ConfigError::Utf8)));
}

#[test]
fn stored_version_is_preserved() {
    let mut raw = [0u8; CONFIG_SZ];
    raw[0] = 7;
    raw[1] = 2;
    raw[SSID_OFFSET] = b'a';
    raw[SSID_OFFSET + 1] = b'b';
    let back = Config::from_bytes(&sealed(raw)).unwrap();
    assert_eq!(back.version(), 7);
    assert_eq!(back.ssid(), "ab");
}

#[test]
fn decoding_with_a_given_checksum() {
    let cfg = Config::new("home", "secretpw", "key123").unwrap();
    let buf = block_of(&cfg);
    let stored = u32::from_le_bytes(buf[PAYLOAD_SZ..].try_into().unwrap());
    let back = Config::from_bytes_with_checksum(&buf, stored).unwrap();
    assert_eq!(back.pass(), "secretpw");
    assert!(matches!(
        Config::from_bytes_with_checksum(&buf, stored ^ 1),
        Err(ConfigError::BadChecksum)
    ));
    assert!(matches!(
        Config::from_bytes_with_checksum(&[0u8; CONFIG_SZ], 0),
        Ok(_)
    ));
}

#[test]
fn record_sits_in_the_last_sector() {
    assert_eq!(config_offset(4 * 1024 * 1024, 4096), Some(4 * 1024 * 1024 - 4096));
    assert_eq!(config_offset(4096, 4096), Some(0));
    assert_eq!(config_offset(4095, 4096), None);
    assert_eq!(config_offset(4096, 100), None);
    assert_eq!(config_offset(136, 136), Some(0));
}
