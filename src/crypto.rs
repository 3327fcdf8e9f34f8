use vstd::prelude::*;

use aes_gcm::aead::Aead;
use aes_gcm::KeyInit;
use base64::Engine;
use cbc::cipher::KeyIvInit;
use hmac::Mac;
use rand::RngCore;
use sha2::Digest;

verus! {

/// SHA-256 of a byte string.
pub uninterp spec fn sha256_of(data: Seq<u8>) -> Seq<u8>;

/// HMAC-SHA256 of `msg` under `key`.
pub uninterp spec fn hmac_sha256_of(key: Seq<u8>, msg: Seq<u8>) -> Seq<u8>;

/// 32 bytes of PBKDF2-HMAC-SHA256 of `password` with `salt` over `rounds` rounds.
pub uninterp spec fn pbkdf2_sha256_of(password: Seq<u8>, salt: Seq<u8>, rounds: u32) -> Seq<u8>;

/// AES-256-CBC decryption with PKCS#7 unpadding; `None` when the key, IV or padding is invalid.
pub uninterp spec fn aes256_cbc_decrypt_of(key: Seq<u8>, iv: Seq<u8>, data: Seq<u8>) -> Option<Seq<u8>>;

/// AES-256-GCM (16-byte nonce, 16-byte appended tag) opening; `None` when authentication fails.
pub uninterp spec fn aes256_gcm_open_of(key: Seq<u8>, nonce: Seq<u8>, aad: Seq<u8>, sealed: Seq<u8>) -> Option<Seq<u8>>;

/// Standard, padded base64 text of a byte string.
pub uninterp spec fn base64_of(data: Seq<u8>) -> Seq<char>;

/// The bytes that standard, padded base64 text stands for; `None` when it is not valid base64.
pub uninterp spec fn base64_decode_of(text: Seq<char>) -> Option<Seq<u8>>;

/// The lowercase hexadecimal digit of a value below 16.
pub open spec fn hex_digit(n: u8) -> char {
    seq!['0', '1', '2', '3', '4', '5', '6', '7', '8', '9', 'a', 'b', 'c', 'd', 'e', 'f'][n as int]
}

/// Lowercase hexadecimal text of a byte string, two digits per byte.
pub open spec fn hex_of(b: Seq<u8>) -> Seq<char>
    decreases b.len(),
{
    if b.len() == 0 {
        seq![]
    } else {
        hex_of(b.drop_last()) + seq![hex_digit(b.last() / 16), hex_digit(b.last() % 16)]
    }
}

/// The canonical, hyphenated, lowercase UUID text of 16 bytes.
pub open spec fn uuid_text(b: Seq<u8>) -> Seq<char> {
    let h = hex_of(b);
    h.subrange(0, 8) + seq!['-'] + h.subrange(8, 12) + seq!['-'] + h.subrange(12, 16) + seq!['-']
        + h.subrange(16, 20) + seq!['-'] + h.subrange(20, 32)
}

pub proof fn lemma_hex_len(b: Seq<u8>)
    ensures
        hex_of(b).len() == 2 * b.len(),
    decreases b.len(),
{
    if b.len() > 0 {
        lemma_hex_len(b.drop_last());
    }
}

/// Relies on sha2's `Sha256::digest`: a 32-byte digest that depends on the input alone.
#[verifier::external_body]
pub fn sha256(data: &[u8]) -> (r: Vec<u8>)
    ensures
        r@ == sha256_of(data@),
        r@.len() == 32,
{
    sha2::Sha256::digest(data).to_vec()
}

/// Relies on hmac's `Hmac<Sha256>`: keys of any length are accepted, the tag is 32 bytes.
#[verifier::external_body]
pub fn hmac_sha256(key: &[u8], msg: &[u8]) -> (r: Vec<u8>)
    ensures
        r@ == hmac_sha256_of(key@, msg@),
        r@.len() == 32,
{
    let mut mac = <hmac::Hmac<sha2::Sha256> as Mac>::new_from_slice(key).expect("any key length");
    mac.update(msg);
    mac.finalize().into_bytes().to_vec()
}

/// Relies on pbkdf2's `pbkdf2_hmac::<Sha256>` filling a 32-byte buffer.
#[verifier::external_body]
pub fn pbkdf2_sha256(password: &[u8], salt: &[u8], rounds: u32) -> (r: Vec<u8>)
    ensures
        r@ == pbkdf2_sha256_of(password@, salt@, rounds),
        r@.len() == 32,
{
    let mut out = [0u8; 32];
    pbkdf2::pbkdf2_hmac::<sha2::Sha256>(password, salt, rounds, &mut out);
    out.to_vec()
}

/// Relies on cbc's `Decryptor<Aes256>` with `decrypt_padded_vec_mut::<Pkcs7>`.
#[verifier::external_body]
pub fn aes256_cbc_decrypt(key: &[u8], iv: &[u8], data: &[u8]) -> (r: Option<Vec<u8>>)
    ensures
        match aes256_cbc_decrypt_of(key@, iv@, data@) {
            Some(p) => r is Some && r->0@ == p,
            None => r is None,
        },
{
    let dec = cbc::Decryptor::<aes::Aes256>::new_from_slices(key, iv).ok()?;
    cbc::cipher::BlockDecryptMut::decrypt_padded_vec_mut::<cbc::cipher::block_padding::Pkcs7>(dec, data).ok()
}

/// Relies on aes-gcm's `AesGcm<Aes256, U16>::decrypt` with the tag appended to the ciphertext.
#[verifier::external_body]
pub fn aes256_gcm_open(key: &[u8], nonce: &[u8], aad: &[u8], sealed: &[u8]) -> (r: Option<Vec<u8>>)
    requires
        key@.len() == 32,
        nonce@.len() == 16,
    ensures
        match aes256_gcm_open_of(key@, nonce@, aad@, sealed@) {
            Some(p) => r is Some && r->0@ == p,
            None => r is None,
        },
{
    let cipher = aes_gcm::AesGcm::<aes::Aes256, aes_gcm::aead::consts::U16>::new_from_slice(key).ok()?;
    let payload = aes_gcm::aead::Payload { msg: sealed, aad };
    cipher.decrypt(aes_gcm::Nonce::<aes_gcm::aead::consts::U16>::from_slice(nonce), payload).ok()
}

/// Relies on base64's `STANDARD` engine `encode`.
#[verifier::external_body]
pub fn base64_encode(data: &[u8]) -> (r: String)
    ensures
        r@ == base64_of(data@),
{
    base64::engine::general_purpose::STANDARD.encode(data)
}

/// Relies on base64's `STANDARD` engine `decode`.
#[verifier::external_body]
pub fn base64_decode(text: &str) -> (r: Option<Vec<u8>>)
    ensures
        match base64_decode_of(text@) {
            Some(b) => r is Some && r->0@ == b,
            None => r is None,
        },
{
    base64::engine::general_purpose::STANDARD.decode(text).ok()
}

/// Relies on hex's `encode`: two lowercase digits per byte, most significant first.
#[verifier::external_body]
pub fn hex_encode(data: &[u8]) -> (r: String)
    ensures
        r@ == hex_of(data@),
{
    hex::encode(data)
}

/// Relies on uuid's `Uuid::from_bytes` and its `Display`, the hyphenated lowercase form.
#[verifier::external_body]
pub fn uuid_string(bytes: [u8; 16]) -> (r: String)
    ensures
        r@ == uuid_text(bytes@),
{
    uuid::Uuid::from_bytes(bytes).to_string()
}

/// Relies on rand's thread-local generator filling a buffer; nothing is known of the bytes.
#[verifier::external_body]
pub fn random_bytes(n: usize) -> (r: Vec<u8>)
    ensures
        r@.len() == n,
{
    let mut buf = vec![0u8; n];
    rand::rng().fill_bytes(&mut buf);
    buf
}

/// Relies on rand's `random` for a 16-byte array; nothing is known of the bytes.
#[verifier::external_body]
pub fn random_16() -> (r: [u8; 16]) {
    rand::random::<[u8; 16]>()
}

} // verus!
