use fileshare::cipher::{decrypt_file_with_password, encrypt_file_with_password};
use fileshare::error::CryptoError;

#[test]
fn round_trip_preserves_plaintext() {
    let plaintext = b"ten bytes!".to_vec();
    let blob = encrypt_file_with_password(plaintext.clone(), "secret").ok().unwrap();
    assert_eq!(blob.len(), plaintext.len() + 44);
    let decrypted = decrypt_file_with_password(&blob, "secret").ok().unwrap();
    assert_eq!(decrypted, plaintext);
}

#[test]
fn round_trip_empty_plaintext() {
    let blob = encrypt_file_with_password(Vec::new(), "pw").ok().unwrap();
    assert_eq!(blob.len(), 44);
    let decrypted = decrypt_file_with_password(&blob, "pw").ok().unwrap();
    assert!(decrypted.is_empty());
}

#[test]
fn wrong_password_fails() {
    let blob = encrypt_file_with_password(b"attack at dawn".to_vec(), "right").ok().unwrap();
    let r = decrypt_file_with_password(&blob, "wrong");
    assert!(r.is_err());
}

fn assert_each_flip_fails(blob: &[u8], range: std::ops::Range<usize>) {
    for i in range {
        let mut tampered = blob.to_vec();
        tampered[i] ^= 0x01;
        assert!(
            decrypt_file_with_password(&tampered, "pw").is_err(),
            "flip of byte {} was not detected",
            i
        );
    }
}

#[test]
fn tampering_any_salt_byte_fails() {
    let blob = encrypt_file_with_password(b"x".to_vec(), "pw").ok().unwrap();
    assert_each_flip_fails(&blob, 0..16);
}

#[test]
fn tampering_any_nonce_byte_fails() {
    let blob = encrypt_file_with_password(b"x".to_vec(), "pw").ok().unwrap();
    assert_each_flip_fails(&blob, 16..28);
}

#[test]
fn tampering_any_ciphertext_or_tag_byte_fails() {
    let blob = encrypt_file_with_password(b"x".to_vec(), "pw").ok().unwrap();
    let len = blob.len();
    assert_each_flip_fails(&blob, 28..len);
}

#[test]
fn truncated_input_rejected_before_crypto() {
    let r = decrypt_file_with_password(&[0u8; 27], "pw");
    assert_eq!(r.err().unwrap(), CryptoError::TruncatedInput);
    let r2 = decrypt_file_with_password(&[], "pw");
    assert_eq!(r2.err().unwrap(), CryptoError::TruncatedInput);
}
