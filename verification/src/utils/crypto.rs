//! Credentials at rest: sealing with AES-256-GCM under the application's
//! key, and the masked form that lists show.

use crate::utils::codec::{
    base64_bytes, base64_decode, base64_encode, base64_text, string_from_utf8, utf8_error_text,
};
use vstd::prelude::*;
use vstd::slice::slice_subrange;
use vstd::string::*;
use vstd::utf8::{
    decode_utf8, encode_utf8, is_char_boundary, valid_utf8, valid_utf8_concat, valid_utf8_split,
};

verus! {

/// The number of bytes of a nonce.
pub open spec fn nonce_len() -> nat {
    12
}

/// The key that seals every credential: the 32 bytes of the passphrase.
pub open spec fn key_bytes() -> Seq<u8> {
    "image-recognition-app-secret-key".spec_bytes()
}

/// What AES-256-GCM makes of `plaintext` under `key` and `nonce`: the
/// ciphertext followed by its tag, or nothing where the cipher refuses.
pub uninterp spec fn sealed(key: Seq<u8>, nonce: Seq<u8>, plaintext: Seq<u8>) -> Option<Seq<u8>>;

/// What AES-256-GCM recovers from `ciphertext` under `key` and `nonce`: the
/// plaintext, or nothing where the tag does not match.
pub uninterp spec fn opened(key: Seq<u8>, nonce: Seq<u8>, ciphertext: Seq<u8>) -> Option<Seq<u8>>;

/// Seals with `Aead::encrypt` of an `Aes256Gcm` made from `key`. The result
/// is a function of the three byte strings and gets the name [`sealed`].
/// A key of another length than 32 bytes, or a nonce of another length than
/// 12, would make the outside code fail: `requires` leaves them out.
#[verifier::external_body]
fn aes_gcm_seal(key: &[u8], nonce: &[u8], plaintext: &[u8]) -> (ciphertext: Option<Vec<u8>>)
    requires
        key@.len() == 32,
        nonce@.len() == 12,
    ensures
        match ciphertext {
            Some(bytes) => sealed(key@, nonce@, plaintext@) == Some(bytes@),
            None => sealed(key@, nonce@, plaintext@) is None,
        },
{
    let cipher = <aes_gcm::Aes256Gcm as aes_gcm::KeyInit>::new_from_slice(key).ok()?;
    aes_gcm::aead::Aead::encrypt(&cipher, aes_gcm::Nonce::from_slice(nonce), plaintext).ok()
}

/// Opens with `Aead::decrypt` of an `Aes256Gcm` made from `key`. The result
/// is a function of the three byte strings and gets the name [`opened`].
#[verifier::external_body]
fn aes_gcm_open(key: &[u8], nonce: &[u8], ciphertext: &[u8]) -> (plaintext: Option<Vec<u8>>)
    requires
        key@.len() == 32,
        nonce@.len() == 12,
    ensures
        match plaintext {
            Some(bytes) => opened(key@, nonce@, ciphertext@) == Some(bytes@),
            None => opened(key@, nonce@, ciphertext@) is None,
        },
{
    let cipher = <aes_gcm::Aes256Gcm as aes_gcm::KeyInit>::new_from_slice(key).ok()?;
    aes_gcm::aead::Aead::decrypt(&cipher, aes_gcm::Nonce::from_slice(nonce), ciphertext).ok()
}

/// Twelve bytes from `rand::thread_rng`, filled by `Rng::fill`. Nothing is
/// known of them but their number.
#[verifier::external_body]
fn random_nonce() -> (nonce: [u8; 12]) {
    let mut nonce = [0u8; 12];
    rand::Rng::fill(&mut rand::thread_rng(), &mut nonce);
    nonce
}

/// The key as bytes.
fn encryption_key() -> (key: &'static [u8])
    ensures
        key@ == key_bytes(),
        key@.len() == 32,
{
    let passphrase = "image-recognition-app-secret-key";
    proof {
        reveal_strlit("image-recognition-app-secret-key");
        vstd::string::is_ascii_spec_bytes(passphrase);
    }
    passphrase.as_bytes()
}

/// The stored form of `plaintext` sealed with the nonce `nonce`: the base64
/// text of the nonce followed by the ciphertext.
pub open spec fn sealed_text(plaintext: Seq<char>, nonce: Seq<u8>) -> Option<Seq<char>> {
    match sealed(key_bytes(), nonce, encode_utf8(plaintext)) {
        Some(ciphertext) => Some(base64_text(nonce + ciphertext)),
        None => None,
    }
}

/// Seals `plaintext` with the nonce `nonce`.
pub fn encrypt_with_nonce(plaintext: &str, nonce: &[u8; 12]) -> (stored: Option<String>)
    ensures
        match stored {
            Some(text) => sealed_text(plaintext@, nonce@) == Some(text@),
            None => sealed_text(plaintext@, nonce@) is None,
        },
{
    let key = encryption_key();
    match aes_gcm_seal(key, nonce.as_slice(), plaintext.as_bytes()) {
        Some(ciphertext) => {
            let mut combined: Vec<u8> = Vec::new();
            let mut i: usize = 0;
            while i < 12
                invariant
                    i <= 12,
                    combined@ == nonce@.take(i as int),
                decreases 12 - i,
            {
                combined.push(nonce[i]);
                i += 1;
            }
            assert(nonce@.take(12) =~= nonce@);
            let mut tail = ciphertext;
            combined.append(&mut tail);
            Some(base64_encode(combined.as_slice()))
        },
        None => None,
    }
}

/// Seals a credential under a fresh random nonce. Returns nothing where
/// the cipher refuses the plaintext.
pub fn encrypt(plaintext: &str) -> (stored: Option<String>)
    ensures
        match stored {
            Some(text) => exists|nonce: Seq<u8>|
                nonce.len() == nonce_len() && #[trigger] sealed_text(plaintext@, nonce) == Some(
                    text@,
                ),
            None => exists|nonce: Seq<u8>|
                nonce.len() == nonce_len() && #[trigger] sealed_text(plaintext@, nonce) is None,
        },
{
    let nonce = random_nonce();
    let stored = encrypt_with_nonce(plaintext, &nonce);
    stored
}

/// The plaintext of the stored form `encrypted`, or the message of what is
/// wrong with it: the decoder's own message where the text is no base64,
/// a fixed message where the bytes are too few to hold a nonce or where the
/// cipher rejects them, and the converter's own message where the plaintext
/// is no UTF-8.
pub open spec fn decrypted(encrypted: Seq<char>) -> Result<Seq<char>, Seq<char>> {
    match base64_bytes(encrypted) {
        Err(e) => Err(e),
        Ok(combined) => if combined.len() < 12 {
            Err("Invalid encrypted data"@)
        } else {
            match opened(key_bytes(), combined.take(12), combined.skip(12)) {
                None => Err("Decryption failed"@),
                Some(plaintext) => if valid_utf8(plaintext) {
                    Ok(decode_utf8(plaintext))
                } else {
                    Err(utf8_error_text(plaintext))
                },
            }
        },
    }
}

/// The characters of a text result, on either side.
pub open spec fn result_text(r: Result<String, String>) -> Result<Seq<char>, Seq<char>> {
    match r {
        Ok(text) => Ok(text@),
        Err(e) => Err(e@),
    }
}

/// Opens a stored credential.
pub fn decrypt(encrypted: &str) -> (plaintext: Result<String, String>)
    ensures
        result_text(plaintext) == decrypted(encrypted@),
{
    let combined = match base64_decode(encrypted) {
        Ok(bytes) => bytes,
        Err(e) => {
            return Err(e);
        },
    };
    if combined.len() < 12 {
        return Err(String::from_str("Invalid encrypted data"));
    }
    let nonce = slice_subrange(combined.as_slice(), 0, 12);
    let ciphertext = slice_subrange(combined.as_slice(), 12, combined.len());
    match aes_gcm_open(encryption_key(), nonce, ciphertext) {
        Some(bytes) => string_from_utf8(bytes),
        None => Err(String::from_str("Decryption failed")),
    }
}

/// The plaintext of a stored credential, or the empty text where it cannot
/// be opened.
pub open spec fn decrypted_or_empty(encrypted: Seq<char>) -> Seq<char> {
    match decrypted(encrypted) {
        Ok(text) => text,
        Err(_) => Seq::empty(),
    }
}

/// Opens a stored credential, giving the empty text where it cannot be
/// opened.
pub fn decrypt_or_empty(encrypted: &str) -> (plaintext: String)
    ensures
        plaintext@ == decrypted_or_empty(encrypted@),
{
    match decrypt(encrypted) {
        Ok(text) => text,
        Err(_) => String::new(),
    }
}

/// Whether a key can be masked: a key of more than eight bytes must not
/// have a character that lies across its fourth byte or across its fourth
/// byte from the end.
pub open spec fn maskable(api_key: Seq<char>) -> bool {
    let bytes = encode_utf8(api_key);
    bytes.len() > 8 ==> is_char_boundary(bytes, 4) && is_char_boundary(bytes, bytes.len() - 4)
}

/// `count` asterisks.
pub open spec fn stars(count: nat) -> Seq<u8> {
    Seq::new(count, |i: int| 0x2au8)
}

/// The number of asterisks between the two ends of a masked key of
/// `len` bytes: one for each byte between, and eight at most.
pub open spec fn hidden_len(len: nat) -> nat {
    if len - 8 > 8 {
        8
    } else {
        (len - 8) as nat
    }
}

/// The masked form of a key, as bytes: a key of up to eight bytes is all
/// asterisks; a longer key keeps its first four and its last four bytes,
/// with an asterisk for each byte between, eight at most.
pub open spec fn masked_bytes(bytes: Seq<u8>) -> Seq<u8> {
    if bytes.len() <= 8 {
        stars(bytes.len())
    } else {
        bytes.take(4) + stars(hidden_len(bytes.len())) + bytes.skip(bytes.len() - 4)
    }
}

/// A run of asterisks is valid UTF-8.
proof fn lemma_stars_valid(count: nat)
    ensures
        valid_utf8(stars(count)),
    decreases count,
{
    if count > 0 {
        lemma_stars_valid((count - 1) as nat);
        let s = stars(count);
        assert(vstd::utf8::pop_first_scalar(s) =~= stars((count - 1) as nat));
    }
}

/// Whether [`mask_api_key`] accepts the key.
pub fn can_mask(api_key: &str) -> (accepted: bool)
    ensures
        accepted == maskable(api_key@),
{
    let n = api_key.as_bytes().len();
    if n <= 8 {
        true
    } else {
        api_key.is_char_boundary(4) && api_key.is_char_boundary(n - 4)
    }
}

/// Masks a key for display: its first four and its last four bytes stay,
/// with an asterisk for each byte between, eight at most; a key of up to
/// eight bytes is masked whole.
pub fn mask_api_key(api_key: &str) -> (masked: String)
    requires
        maskable(api_key@),
    ensures
        encode_utf8(masked@) == masked_bytes(encode_utf8(api_key@)),
{
    let bytes = api_key.as_bytes();
    let n = bytes.len();
    let mut out: Vec<u8> = Vec::new();
    let middle: usize = if n <= 8 {
        n
    } else {
        let mut i: usize = 0;
        while i < 4
            invariant
                i <= 4,
                n > 8,
                n == bytes@.len(),
                out@ == bytes@.take(i as int),
            decreases 4 - i,
        {
            out.push(bytes[i]);
            i += 1;
        }
        if n - 8 > 8 {
            8
        } else {
            n - 8
        }
    };
    let ghost head = out@;
    let mut k: usize = 0;
    while k < middle
        invariant
            k <= middle,
            out@ == head + stars(k as nat),
        decreases middle - k,
    {
        out.push(0x2au8);
        k += 1;
    }
    if n > 8 {
        let mut j: usize = n - 4;
        while j < n
            invariant
                n - 4 <= j <= n,
                n > 8,
                n == bytes@.len(),
                out@ == head + stars(middle as nat) + bytes@.subrange(n - 4, j as int),
            decreases n - j,
        {
            out.push(bytes[j]);
            j += 1;
        }
    }
    proof {
        let all = bytes@;
        vstd::utf8::encode_utf8_valid_utf8(api_key@);
        lemma_stars_valid(middle as nat);
        if n > 8 {
            valid_utf8_split(all, 4);
            valid_utf8_split(all, n - 4);
            valid_utf8_concat(all.take(4), stars(middle as nat));
            valid_utf8_concat(all.take(4) + stars(middle as nat), all.skip(n - 4));
        }
        vstd::utf8::decode_utf8_encode_utf8(out@);
    }
    match string_from_utf8(out) {
        Ok(masked) => masked,
        Err(_) => {
            assert(false);
            String::new()
        },
    }
}

} // verus!
