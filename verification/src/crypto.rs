//! Sealing a text under a password: AES-256-GCM under the SHA-256 of the
//! password, the nonce and the ciphertext written in base64 with a colon
//! between them.

use aes_gcm::aead::Aead;
use aes_gcm::aead::KeyInit;
use aes_gcm::Aes256Gcm;
use aes_gcm::Key;
use aes_gcm::Nonce;
use rand::RngCore;
use sha2::Digest;
use sha2::Sha256;
use vstd::prelude::*;
use vstd::string::StringExecFns;
use vstd::string::StringSliceAdditionalSpecFns;
use vstd::utf8::decode_utf8;
use vstd::utf8::encode_utf8;
use vstd::utf8::valid_utf8;

use crate::text::chars_of;
use crate::text::find_from;
use crate::text::position_from;
use crate::text::text_between;

verus! {

/// The length of a nonce, in bytes.
pub const NONCE_LEN: usize = 12;

/// The length of a key, in bytes.
pub const KEY_LEN: usize = 32;

/// The longest plaintext that the cipher takes, in bytes.
pub const MAX_PLAIN_LEN: u64 = 0x10_0000_0000;

/// Why a text could not be sealed or opened.
#[derive(Clone, Copy, Debug, PartialEq, Eq, Structural)]
pub enum CryptoError {
    /// The sealed text holds no colon.
    NoSeparator,
    /// A part of the sealed text is not base64.
    BadEncoding,
    /// The nonce is not twelve bytes long.
    BadNonce,
    /// The cipher refused: the password is wrong or the text was altered.
    Rejected,
    /// What was opened is not UTF-8.
    NotText,
    /// The text is too long for the cipher.
    TooLong,
}

/// The SHA-256 digest of a byte string.
pub uninterp spec fn sha256_of(data: Seq<u8>) -> Seq<u8>;

/// What AES-256-GCM makes of a plaintext under a key and a nonce, with no
/// associated data: the ciphertext with its tag, or nothing where it refuses.
pub uninterp spec fn sealed(key: Seq<u8>, nonce: Seq<u8>, plain: Seq<u8>) -> Option<Seq<u8>>;

/// What AES-256-GCM makes of a ciphertext under a key and a nonce, with no
/// associated data: the plaintext, or nothing where the tag does not match.
pub uninterp spec fn opened(key: Seq<u8>, nonce: Seq<u8>, cipher: Seq<u8>) -> Option<Seq<u8>>;

/// The base64 form of a byte string, standard alphabet, padded.
pub uninterp spec fn base64_of(data: Seq<u8>) -> Seq<char>;

/// The bytes that a base64 text stands for, or nothing where it is no
/// base64.
pub uninterp spec fn base64_decoded(text: Seq<char>) -> Option<Seq<u8>>;

/// `Sha256` of sha2, fed once and finalised: the digest of the bytes, 32
/// bytes long.
#[verifier::external_body]
fn sha256(data: &[u8]) -> (digest: Vec<u8>)
    ensures
        digest@ == sha256_of(data@),
        digest@.len() == KEY_LEN,
{
    let mut hasher = Sha256::new();
    hasher.update(data);
    hasher.finalize().to_vec()
}

/// `Aes256Gcm::encrypt` of aes-gcm on a plain byte string. Key and nonce must
/// have their lengths: `from_slice` panics on any other. The cipher refuses
/// only a plaintext longer than it takes.
#[verifier::external_body]
fn seal(key: &[u8], nonce: &[u8], plain: &[u8]) -> (cipher: Option<Vec<u8>>)
    requires
        key@.len() == KEY_LEN,
        nonce@.len() == NONCE_LEN,
    ensures
        cipher matches Some(c) ==> sealed(key@, nonce@, plain@) == Some(c@),
        cipher is None ==> sealed(key@, nonce@, plain@) is None,
        plain@.len() <= MAX_PLAIN_LEN ==> cipher is Some,
{
    match Aes256Gcm::new(Key::<Aes256Gcm>::from_slice(key)).encrypt(Nonce::from_slice(nonce), plain) {
        Ok(cipher) => Some(cipher),
        Err(_) => None,
    }
}

/// `Aes256Gcm::decrypt` of aes-gcm on a plain byte string. Key and nonce must
/// have their lengths: `from_slice` panics on any other.
#[verifier::external_body]
fn open(key: &[u8], nonce: &[u8], cipher: &[u8]) -> (plain: Option<Vec<u8>>)
    requires
        key@.len() == KEY_LEN,
        nonce@.len() == NONCE_LEN,
    ensures
        plain matches Some(p) ==> opened(key@, nonce@, cipher@) == Some(p@),
        plain is None ==> opened(key@, nonce@, cipher@) is None,
{
    match Aes256Gcm::new(Key::<Aes256Gcm>::from_slice(key)).decrypt(Nonce::from_slice(nonce), cipher) {
        Ok(plain) => Some(plain),
        Err(_) => None,
    }
}

/// `base64::encode`: the base64 form of the bytes.
#[verifier::external_body]
#[allow(deprecated)]
fn to_base64(data: &[u8]) -> (text: String)
    ensures
        text@ == base64_of(data@),
{
    base64::encode(data)
}

/// `base64::decode`: the bytes behind a base64 text, or `None` where it
/// reports an error.
#[verifier::external_body]
#[allow(deprecated)]
fn from_base64(text: &str) -> (data: Option<Vec<u8>>)
    ensures
        data matches Some(d) ==> base64_decoded(text@) == Some(d@),
        data is None ==> base64_decoded(text@) is None,
{
    match base64::decode(text) {
        Ok(data) => Some(data),
        Err(_) => None,
    }
}

/// `RngCore::fill_bytes` on rand's thread-local generator: `len` bytes, of
/// which nothing more is known.
#[verifier::external_body]
fn random_bytes(len: usize) -> (bytes: Vec<u8>)
    ensures
        bytes@.len() == len,
{
    let mut bytes = vec![0u8; len];
    rand::thread_rng().fill_bytes(&mut bytes);
    bytes
}

/// `String::from_utf8`: the text that the bytes encode, or `None` where they
/// are not UTF-8.
#[verifier::external_body]
fn text_of_bytes(bytes: Vec<u8>) -> (decoded: Option<String>)
    ensures
        decoded matches Some(t) ==> valid_utf8(bytes@) && t@ == decode_utf8(bytes@),
        decoded is None ==> !valid_utf8(bytes@),
{
    match String::from_utf8(bytes) {
        Ok(text) => Some(text),
        Err(_) => None,
    }
}

/// The key that a password stands for.
pub open spec fn key_of(password: Seq<char>) -> Seq<u8> {
    sha256_of(encode_utf8(password))
}

/// A nonce and a ciphertext as one text.
pub open spec fn envelope(nonce: Seq<u8>, cipher: Seq<u8>) -> Seq<char> {
    base64_of(nonce) + ":"@ + base64_of(cipher)
}

/// The sealed form of `data` under `password` with the given nonce.
pub open spec fn encrypted_with(data: Seq<char>, password: Seq<char>, nonce: Seq<u8>) -> Result<
    Seq<char>,
    CryptoError,
> {
    if nonce.len() != NONCE_LEN {
        Err(CryptoError::BadNonce)
    } else {
        match sealed(key_of(password), nonce, encode_utf8(data)) {
            Some(cipher) => Ok(envelope(nonce, cipher)),
            None => Err(CryptoError::TooLong),
        }
    }
}

/// What opening `data` under `password` gives. The text up to the first
/// colon is the nonce, the text from there to the next colon, or to the end,
/// the ciphertext; anything behind a second colon is not read.
pub open spec fn decrypted(data: Seq<char>, password: Seq<char>) -> Result<Seq<char>, CryptoError> {
    let first = position_from(data, ':', 0);
    let second = position_from(data, ':', first + 1);
    match base64_decoded(data.subrange(0, first)) {
        None => Err(CryptoError::BadEncoding),
        Some(nonce) => if first >= data.len() {
            Err(CryptoError::NoSeparator)
        } else {
            match base64_decoded(data.subrange(first + 1, second)) {
                None => Err(CryptoError::BadEncoding),
                Some(cipher) => if nonce.len() != NONCE_LEN {
                    Err(CryptoError::BadNonce)
                } else {
                    match opened(key_of(password), nonce, cipher) {
                        None => Err(CryptoError::Rejected),
                        Some(plain) => if valid_utf8(plain) {
                            Ok(decode_utf8(plain))
                        } else {
                            Err(CryptoError::NotText)
                        },
                    }
                },
            }
        },
    }
}

/// A result as contracts see it.
pub open spec fn text_result(result: Result<String, CryptoError>) -> Result<Seq<char>, CryptoError> {
    match result {
        Ok(text) => Ok(text@),
        Err(e) => Err(e),
    }
}

/// Seals `data` under `password` with the given nonce. A nonce of twelve
/// bytes and a text that the cipher takes always give a sealed text.
pub fn encrypt_with(data: &str, password: &str, nonce: &[u8]) -> (result: Result<
    String,
    CryptoError,
>)
    ensures
        text_result(result) == encrypted_with(data@, password@, nonce@),
        nonce@.len() == NONCE_LEN && encode_utf8(data@).len() <= MAX_PLAIN_LEN ==> result is Ok,
{
    if nonce.len() != NONCE_LEN {
        return Err(CryptoError::BadNonce);
    }
    let key = sha256(password.as_bytes());
    match seal(key.as_slice(), nonce, data.as_bytes()) {
        Some(cipher) => {
            let mut out = to_base64(nonce);
            out.append(":");
            out.append(to_base64(cipher.as_slice()).as_str());
            Ok(out)
        },
        None => Err(CryptoError::TooLong),
    }
}

/// Seals `data` under `password` with a nonce drawn at random. The result is
/// what some nonce of the right length gives. The text must be one that the
/// cipher takes.
pub fn encrypt(data: &str, password: &str) -> (text: String)
    requires
        encode_utf8(data@).len() <= MAX_PLAIN_LEN,
    ensures
        exists|nonce: Seq<u8>|
            nonce.len() == NONCE_LEN && #[trigger] encrypted_with(data@, password@, nonce) == Ok::<
                Seq<char>,
                CryptoError,
            >(text@),
{
    let nonce = random_bytes(NONCE_LEN);
    match encrypt_with(data, password, nonce.as_slice()) {
        Ok(text) => text,
        Err(_) => vstd::pervasive::unreached(),
    }
}

/// Takes a sealed text apart and opens it.
fn open_sealed(data: &str, password: &str) -> (result: Result<String, CryptoError>)
    ensures
        text_result(result) == decrypted(data@, password@),
{
    let chars = chars_of(data);
    let first = find_from(&chars, ':', 0);
    let nonce = match from_base64(text_between(&chars, 0, first).as_str()) {
        Some(nonce) => nonce,
        None => {
            return Err(CryptoError::BadEncoding);
        },
    };
    if first >= chars.len() {
        return Err(CryptoError::NoSeparator);
    }
    let second = find_from(&chars, ':', first + 1);
    let cipher = match from_base64(text_between(&chars, first + 1, second).as_str()) {
        Some(cipher) => cipher,
        None => {
            return Err(CryptoError::BadEncoding);
        },
    };
    if nonce.len() != NONCE_LEN {
        return Err(CryptoError::BadNonce);
    }
    let key = sha256(password.as_bytes());
    match open(key.as_slice(), nonce.as_slice(), cipher.as_slice()) {
        None => Err(CryptoError::Rejected),
        Some(plain) => match text_of_bytes(plain) {
            Some(text) => Ok(text),
            None => Err(CryptoError::NotText),
        },
    }
}

/// Opens a sealed text under `password`. The text must be one that opens
/// under it: well formed, sealed under this password, and unaltered.
pub fn decrypt(data: &str, password: &str) -> (text: String)
    requires
        decrypted(data@, password@) is Ok,
    ensures
        decrypted(data@, password@) == Ok::<Seq<char>, CryptoError>(text@),
{
    match open_sealed(data, password) {
        Ok(text) => text,
        Err(_) => vstd::pervasive::unreached(),
    }
}

/// Opens a sealed text under `password` if it can be opened, and says why
/// where it cannot. The text is tested first and opened only if it passed.
pub fn try_decrypt(data: &str, password: &str) -> (result: Result<String, CryptoError>)
    ensures
        text_result(result) == decrypted(data@, password@),
{
    match open_sealed(data, password) {
        Ok(_) => Ok(decrypt(data, password)),
        Err(e) => Err(e),
    }
}

} // verus!
