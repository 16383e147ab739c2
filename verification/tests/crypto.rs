use image_recognition::utils::crypto::{
    can_mask, decrypt, decrypt_or_empty, encrypt, encrypt_with_nonce, mask_api_key,
};

#[test]
fn test_encrypt_decrypt() {
    let plaintext = "test-api-key-12345";
    let encrypted = encrypt(plaintext).expect("Encryption failed");
    let decrypted = decrypt(&encrypted).unwrap();
    assert_eq!(plaintext, decrypted);
}

#[test]
fn test_mask_api_key() {
    assert_eq!(mask_api_key("sk-1234567890abcdef"), "sk-1********cdef");
    assert_eq!(mask_api_key("short"), "*****");
}

#[test]
fn mask_keeps_nothing_of_a_key_of_eight_bytes() {
    assert_eq!(mask_api_key("12345678"), "********");
    assert_eq!(mask_api_key(""), "");
    assert_eq!(mask_api_key("123456789"), "1234*6789");
}

#[test]
fn mask_is_refused_where_a_character_would_be_cut() {
    assert!(can_mask("sk-1234567890abcdef"));
    assert!(can_mask("ääää12345"));
    assert_eq!(mask_api_key("ääää12345"), "ää*****2345");
    assert!(!can_mask("abcä1234567"));
    assert!(!can_mask("1234567ä890"));
}

#[test]
fn sealing_with_a_nonce_is_repeatable_and_opens_again() {
    let nonce = [7u8; 12];
    let first = encrypt_with_nonce("secret", &nonce).unwrap();
    let second = encrypt_with_nonce("secret", &nonce).unwrap();
    assert_eq!(first, second);
    assert_ne!(first, "secret");
    assert_eq!(decrypt(&first).unwrap(), "secret");
    let other = encrypt_with_nonce("secret", &[8u8; 12]).unwrap();
    assert_ne!(first, other);
}

#[test]
fn decrypt_reports_each_failure() {
    assert!(decrypt("not base64!").is_err());
    assert_eq!(decrypt("AAAA").unwrap_err(), "Invalid encrypted data");
    assert_eq!(decrypt("AAAAAAAAAAAAAAAAAAAAAAAAAAAAAAAAAAAAAAAA").unwrap_err(), "Decryption failed");
    assert_eq!(decrypt_or_empty("AAAA"), "");
}

#[test]
fn two_seals_of_one_text_differ() {
    let a = encrypt("same").unwrap();
    let b = encrypt("same").unwrap();
    assert_ne!(a, b);
    assert_eq!(decrypt(&a).unwrap(), decrypt(&b).unwrap());
}
