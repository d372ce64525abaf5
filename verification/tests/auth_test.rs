use myowndesk::auth::{compute_token, verify_token};

#[test]
fn test_compute_and_verify() {
    let key = b"my_secret_key_32_bytes_long!!";
    let device_id = "van-pc";
    let token = compute_token(key, device_id);
    assert!(verify_token(key, device_id, &token));
}

#[test]
fn test_verify_wrong_key() {
    let key = b"my_secret_key_32_bytes_long!!";
    let wrong_key = b"wrong_secret_key_32_bytes_long";
    let device_id = "van-pc";
    let token = compute_token(key, device_id);
    assert!(!verify_token(wrong_key, device_id, &token));
}

#[test]
fn test_verify_wrong_device() {
    let key = b"my_secret_key_32_bytes_long!!";
    let token = compute_token(key, "van-pc");
    assert!(!verify_token(key, "van-laptop", &token));
}

#[test]
fn test_verify_wrong_length_token() {
    let key = b"my_secret_key_32_bytes_long!!";
    assert!(!verify_token(key, "van-pc", b"short"));
}

#[test]
fn token_is_hmac_sha256_of_the_id() {
    let token = compute_token(b"Jefe", "what do ya want for nothing?");
    let expected: [u8; 32] = [
        0x5b, 0xdc, 0xc1, 0x46, 0xbf, 0x60, 0x75, 0x4e, 0x6a, 0x04, 0x24, 0x26, 0x08, 0x95, 0x75,
        0xc7, 0x5a, 0x00, 0x3f, 0x08, 0x9d, 0x27, 0x39, 0x83, 0x9d, 0xec, 0x58, 0xb9, 0x64, 0xec,
        0x38, 0x43,
    ];
    assert_eq!(token, expected.to_vec());
    assert!(verify_token(b"Jefe", "what do ya want for nothing?", &expected));
}

#[test]
fn token_with_one_wrong_byte_is_refused() {
    let mut token = compute_token(b"key", "van-pc");
    assert_eq!(token.len(), 32);
    token[31] ^= 1;
    assert!(!verify_token(b"key", "van-pc", &token));
}
