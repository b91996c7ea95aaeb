//! Password-derived authenticated encryption of file payloads.
//!
//! A payload is encrypted with AES-256-GCM under a key derived from the
//! upload password and a fresh random salt by Argon2id; a fresh random
//! nonce completes the header.  The blob layout is flat:
//! `salt(16) || nonce(12) || ciphertext+tag`.  Decryption splits the blob
//! at those fixed offsets, re-derives the key from the supplied password
//! and the extracted salt, and authenticates the ciphertext, so a wrong
//! password or a tampered blob fails instead of yielding garbage.
//!
//! The round trip is stated in the contracts: `encrypt_file_with_password`
//! ensures that its output blob decrypts, under the same password, to
//! exactly the plaintext that went in, and `decrypt_file_with_password`
//! ensures it returns exactly that decryption.

use vstd::prelude::*;
use vstd::slice::slice_subrange;

use crate::error::CryptoError;

verus! {

/// Bytes of key-derivation salt at the head of a blob.
pub const SALT_LEN: usize = 16;

/// Bytes of AES-GCM nonce after the salt.
pub const NONCE_LEN: usize = 12;

/// Bytes of header (salt plus nonce) before the ciphertext.
pub const HEADER_LEN: usize = 28;

/// Bytes of authentication tag appended to the ciphertext.
pub const TAG_LEN: usize = 16;

/// Bytes of the derived AES-256 key.
pub const KEY_LEN: usize = 32;

/// The longest plaintext AES-GCM accepts: 2^36 - 32 bytes.
pub const PLAINTEXT_MAX: u64 = 68719476704;

/// The 32-byte key that Argon2id with its default parameters derives from
/// a password and a salt.
pub uninterp spec fn argon2_key_of(password: Seq<char>, salt: Seq<u8>) -> Seq<u8>;

/// The ciphertext-plus-tag that AES-256-GCM produces for a key, a nonce,
/// and a plaintext.
pub uninterp spec fn aes256gcm_seal(key: Seq<u8>, nonce: Seq<u8>, plaintext: Seq<u8>) -> Seq<u8>;

/// What AES-256-GCM decryption yields for a key, a nonce, and a
/// ciphertext-plus-tag: the plaintext, or nothing when authentication
/// fails.
pub uninterp spec fn aes256gcm_open(key: Seq<u8>, nonce: Seq<u8>, ciphertext: Seq<u8>) -> Option<
    Seq<u8>,
>;

/// Relies on `getrandom::fill`: fills a buffer from the operating system's
/// cryptographically secure randomness source.  Nothing is promised of the
/// bytes themselves.
#[verifier::external_body]
pub(crate) fn os_random_bytes(n: usize) -> (r: Result<Vec<u8>, CryptoError>)
    ensures
        r matches Ok(b) ==> b@.len() == n,
        r matches Err(e) ==> e == CryptoError::RandomSource,
{
    let mut buf = vec![0u8; n];
    getrandom::fill(&mut buf).map_err(|_| CryptoError::RandomSource)?;
    Ok(buf)
}

/// Relies on `argon2::Argon2::hash_password_into` with the default
/// Argon2id parameters: the output is a function of the password bytes and
/// the salt alone.  It fails only on an out-of-range salt or password
/// length or when its work memory cannot be allocated; nothing is promised
/// of those cases.
#[verifier::external_body]
pub fn derive_key_from_password(password: &str, salt: &[u8]) -> (r: Result<Vec<u8>, CryptoError>)
    ensures
        r matches Ok(k) ==> k@ == argon2_key_of(password@, salt@) && k@.len() == 32,
        r matches Err(e) ==> e == CryptoError::KeyDerivation,
{
    let mut key = vec![0u8; KEY_LEN];
    argon2::Argon2::default()
        .hash_password_into(password.as_bytes(), salt, &mut key)
        .map_err(|_| CryptoError::KeyDerivation)?;
    Ok(key)
}

/// Relies on `aes_gcm::Aes256Gcm` through `aead::Aead::encrypt`: the
/// ciphertext-plus-tag is a function of key, nonce, and plaintext alone;
/// it is 16 bytes longer than the plaintext; decrypting it with the same
/// key and nonce yields the plaintext again; and encryption succeeds for
/// every plaintext no longer than `PLAINTEXT_MAX`.
#[verifier::external_body]
fn aead_encrypt(key: &[u8], nonce: &[u8], plaintext: &[u8]) -> (r: Result<Vec<u8>, CryptoError>)
    requires
        key@.len() == 32,
        nonce@.len() == 12,
        plaintext@.len() <= PLAINTEXT_MAX,
    ensures
        r is Ok,
        r matches Ok(c) ==> {
            &&& c@ == aes256gcm_seal(key@, nonce@, plaintext@)
            &&& c@.len() == plaintext@.len() + 16
            &&& aes256gcm_open(key@, nonce@, c@) == Some(plaintext@)
        },
{
    let key_arr: [u8; 32] = key.try_into().map_err(|_| CryptoError::EncryptFailure)?;
    let nonce_arr: [u8; 12] = nonce.try_into().map_err(|_| CryptoError::EncryptFailure)?;
    let cipher = <aes_gcm::Aes256Gcm as aes_gcm::KeyInit>::new(&key_arr.into());
    aes_gcm::aead::Aead::encrypt(&cipher, &nonce_arr.into(), plaintext).map_err(
        |_| CryptoError::EncryptFailure,
    )
}

/// Relies on `aes_gcm::Aes256Gcm` through `aead::Aead::decrypt`: the
/// outcome is a function of key, nonce, and ciphertext alone, and an
/// inauthentic ciphertext is rejected rather than decrypted.
#[verifier::external_body]
fn aead_decrypt(key: &[u8], nonce: &[u8], ciphertext: &[u8]) -> (r: Result<Vec<u8>, CryptoError>)
    requires
        key@.len() == 32,
        nonce@.len() == 12,
    ensures
        match aes256gcm_open(key@, nonce@, ciphertext@) {
            Some(p) => r matches Ok(q) && q@ == p,
            None => r == Err::<Vec<u8>, CryptoError>(CryptoError::DecryptFailure),
        },
{
    let key_arr: [u8; 32] = key.try_into().map_err(|_| CryptoError::DecryptFailure)?;
    let nonce_arr: [u8; 12] = nonce.try_into().map_err(|_| CryptoError::DecryptFailure)?;
    let cipher = <aes_gcm::Aes256Gcm as aes_gcm::KeyInit>::new(&key_arr.into());
    aes_gcm::aead::Aead::decrypt(&cipher, &nonce_arr.into(), ciphertext).map_err(
        |_| CryptoError::DecryptFailure,
    )
}

/// What decrypting a blob with a password yields, as a function of the
/// blob layout: bytes 0..16 are the key-derivation salt, bytes 16..28 the
/// nonce, and the rest the ciphertext with its tag.  A blob shorter than
/// the 28-byte header decrypts to nothing.
pub open spec fn decrypted_blob(blob: Seq<u8>, password: Seq<char>) -> Option<Seq<u8>> {
    if blob.len() < 28 {
        None
    } else {
        aes256gcm_open(
            argon2_key_of(password, blob.subrange(0, 16)),
            blob.subrange(16, 28),
            blob.subrange(28, blob.len() as int),
        )
    }
}

/// Encrypts data with a password-derived key.  The output is
/// `salt || nonce || ciphertext+tag`, and — the round-trip law — it
/// decrypts under the same password to exactly the input plaintext.
/// Failure is possible only when the randomness source or the
/// key-derivation function fails.
pub fn encrypt_file_with_password(input_data_as_bytes: Vec<u8>, password: &str) -> (r: Result<
    Vec<u8>,
    CryptoError,
>)
    requires
        input_data_as_bytes@.len() <= PLAINTEXT_MAX,
    ensures
        r matches Ok(blob) ==> {
            &&& blob@.len() == input_data_as_bytes@.len() + 44
            &&& decrypted_blob(blob@, password@) == Some(input_data_as_bytes@)
        },
        r matches Err(e) ==> e == CryptoError::RandomSource || e == CryptoError::KeyDerivation,
{
    let salt = match os_random_bytes(SALT_LEN) {
        Ok(b) => b,
        Err(e) => { return Err(e); },
    };
    let nonce = match os_random_bytes(NONCE_LEN) {
        Ok(b) => b,
        Err(e) => { return Err(e); },
    };
    let key = match derive_key_from_password(password, salt.as_slice()) {
        Ok(k) => k,
        Err(e) => { return Err(e); },
    };
    let ciphertext = match aead_encrypt(
        key.as_slice(),
        nonce.as_slice(),
        input_data_as_bytes.as_slice(),
    ) {
        Ok(c) => c,
        Err(e) => { return Err(e); },
    };

    let mut output: Vec<u8> = Vec::new();
    output.extend_from_slice(salt.as_slice());
    output.extend_from_slice(nonce.as_slice());
    output.extend_from_slice(ciphertext.as_slice());

    proof {
        assert(output@ == salt@ + nonce@ + ciphertext@);
        assert(output@.subrange(0, 16) =~= salt@);
        assert(output@.subrange(16, 28) =~= nonce@);
        assert(output@.subrange(28, output@.len() as int) =~= ciphertext@);
    }
    Ok(output)
}

/// Decrypts a blob produced by `encrypt_file_with_password`, returning
/// exactly the plaintext the blob's layout and the password determine.  A
/// blob shorter than the fixed header is rejected before any cryptography;
/// a wrong password or a tampered blob fails authentication.
pub fn decrypt_file_with_password(encrypted_data: &[u8], password: &str) -> (r: Result<
    Vec<u8>,
    CryptoError,
>)
    ensures
        r matches Ok(p) ==> decrypted_blob(encrypted_data@, password@) == Some(p@),
        r matches Err(e) ==> {
            &&& (e == CryptoError::TruncatedInput <==> encrypted_data@.len() < 28)
            &&& (e == CryptoError::DecryptFailure ==> decrypted_blob(
                encrypted_data@,
                password@,
            ) is None)
            &&& (e == CryptoError::TruncatedInput || e == CryptoError::DecryptFailure || e
                == CryptoError::KeyDerivation)
        },
        encrypted_data@.len() < 28 ==> r == Err::<Vec<u8>, CryptoError>(CryptoError::TruncatedInput),
{
    if encrypted_data.len() < HEADER_LEN {
        return Err(CryptoError::TruncatedInput);
    }
    let salt = slice_subrange(encrypted_data, 0, SALT_LEN);
    let nonce = slice_subrange(encrypted_data, SALT_LEN, HEADER_LEN);
    let ciphertext = slice_subrange(encrypted_data, HEADER_LEN, encrypted_data.len());

    let key = match derive_key_from_password(password, salt) {
        Ok(k) => k,
        Err(_) => { return Err(CryptoError::KeyDerivation); },
    };
    match aead_decrypt(key.as_slice(), nonce, ciphertext) {
        Ok(p) => Ok(p),
        Err(_) => Err(CryptoError::DecryptFailure),
    }
}

} // verus!
