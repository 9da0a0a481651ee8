use timer_lib::activation::{
    activate_with_code, activation_code_from_random, ensure_activated, format_code, generate_activation_code,
    generate_activation_codes, normalize_code, verify_code,
};
use timer_lib::config::ConfigManager;

const TEST_SECRET: [u8; 32] = [7u8; 32];

#[test]
fn test_generate_and_verify() {
    let code = generate_activation_code(&TEST_SECRET);
    assert!(verify_code(&TEST_SECRET, &code).is_ok());
}

#[test]
fn code_shape_and_normalisation() {
    let code = activation_code_from_random(&TEST_SECRET, &[1, 2, 3, 4]);
    assert_eq!(code.len(), 19);
    assert_eq!(code.matches('-').count(), 3);
    assert_eq!(format_code("ABCDEFGHIJKLMNOP"), "ABCD-EFGH-IJKL-MNOP");
    assert_eq!(normalize_code(" abcd-efgh "), "ABCDEFGH");
    let lower = code.to_lowercase();
    assert!(verify_code(&TEST_SECRET, &lower).is_ok());
}

#[test]
fn code_refusals() {
    assert_eq!(verify_code(&TEST_SECRET, "ABCD").unwrap_err(), "激活码长度应为16位");
    assert_eq!(verify_code(&TEST_SECRET, "1111-1111-1111-1111").unwrap_err(), "激活码格式不正确");
    let code = activation_code_from_random(&TEST_SECRET, &[9, 9, 9, 9]);
    let other_secret = [8u8; 32];
    assert_eq!(verify_code(&other_secret, &code).unwrap_err(), "激活码无效");
}

#[test]
fn activation_once_per_installation() {
    let mut manager = ConfigManager::new("config.json".to_string(), None);
    assert!(ensure_activated(&manager).is_err());
    assert_eq!(activate_with_code(&mut manager, &TEST_SECRET, "  ").unwrap_err(), "请输入激活码");
    let code = generate_activation_code(&TEST_SECRET);
    let result = activate_with_code(&mut manager, &TEST_SECRET, &code).unwrap();
    assert!(result.activated);
    assert_eq!(result.message, "激活成功");
    assert!(ensure_activated(&manager).is_ok());
    assert_eq!(activate_with_code(&mut manager, &TEST_SECRET, &code).unwrap_err(), "软件已激活");
}

#[test]
fn batch_generation_needs_password() {
    assert_eq!(generate_activation_codes(&TEST_SECRET, "bad", "good").unwrap_err(), "口令错误");
    let codes = generate_activation_codes(&TEST_SECRET, "good", "good").unwrap();
    assert_eq!(codes.len(), 5);
    for code in &codes {
        assert!(verify_code(&TEST_SECRET, code).is_ok());
    }
}

#[test]
fn code_fingerprint_is_sha256_hex_of_normalized_code() {
    assert_eq!(
        timer_lib::activation::hash_code("abcd-efgh"),
        "9ac2197d9258257b1ae8463e4214e4cd0a578bc1517f2415928b91be4283fc48"
    );
}

#[test]
fn build_secret_must_be_32_hex_bytes() {
    let hex = "00".repeat(32);
    assert_eq!(timer_lib::activation::activation_secret_bytes(&hex), Some(vec![0u8; 32]));
    assert_eq!(timer_lib::activation::activation_secret_bytes("0011"), None);
    assert_eq!(timer_lib::activation::activation_secret_bytes("zz"), None);
}

#[test]
fn issued_code_accepted_without_dashes() {
    let code = generate_activation_code(&TEST_SECRET);
    let bare = code.replace('-', "");
    assert!(verify_code(&TEST_SECRET, &bare).is_ok());
    assert!(verify_code(&TEST_SECRET, &bare.to_lowercase()).is_ok());
}

#[test]
fn issued_code_accepted_with_surrounding_white_space() {
    let code = generate_activation_code(&TEST_SECRET);
    let padded = format!("  {}\t\n", code);
    assert!(verify_code(&TEST_SECRET, &padded).is_ok());
    let padded_lower = format!("\u{3000}{} ", code.to_lowercase());
    assert!(verify_code(&TEST_SECRET, &padded_lower).is_ok());
}
