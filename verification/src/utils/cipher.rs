//! The primitives under the service's tokens: orion's authenticated encryption
//! (XChaCha20-Poly1305) and the standard base64 alphabet.
use base64::Engine;
use vstd::prelude::*;

verus! {

/// `orion::aead::SecretKey`, carried as an opaque value.
#[verifier::external_type_specification]
#[verifier::external_body]
pub struct ExSecretKey(orion::aead::SecretKey);

/// The largest plaintext that orion's AEAD accepts: `(u32::MAX as u64) * 64` bytes.
pub const AEAD_PLAINTEXT_MAX: u64 = 274877906880;

/// What orion's `aead::open` gives back for a ciphertext (nonce, sealed data
/// and tag) under the key with the given bytes, or `None` where it fails.
pub uninterp spec fn aead_opened(key: Seq<u8>, sealed: Seq<u8>) -> Option<Seq<u8>>;

/// The character of a six-bit value (0 to 63) in the standard base64 alphabet:
/// `A`–`Z`, `a`–`z`, `0`–`9`, `+`, `/`.
pub open spec fn base64_digit(value: int) -> char {
    if value < 26 {
        (65 + value) as char
    } else if value < 52 {
        (97 + value - 26) as char
    } else if value < 62 {
        (48 + value - 52) as char
    } else if value == 62 {
        '+'
    } else {
        '/'
    }
}

/// The standard base64 text of some bytes (RFC 4648, with padding): every three
/// bytes become four characters of six bits each, high bits first; a last group
/// of one or two bytes is filled with zero bits and padded with `=` to four.
pub open spec fn standard_base64_encoding(bytes: Seq<u8>) -> Seq<char>
    decreases bytes.len(),
{
    if bytes.len() == 0 {
        Seq::empty()
    } else if bytes.len() == 1 {
        let b0 = bytes[0] as int;
        seq![base64_digit(b0 / 4), base64_digit((b0 % 4) * 16), '=', '=']
    } else if bytes.len() == 2 {
        let (b0, b1) = (bytes[0] as int, bytes[1] as int);
        seq![base64_digit(b0 / 4), base64_digit((b0 % 4) * 16 + b1 / 16), base64_digit((b1 % 16) * 4), '=']
    } else {
        let (b0, b1, b2) = (bytes[0] as int, bytes[1] as int, bytes[2] as int);
        seq![
            base64_digit(b0 / 4),
            base64_digit((b0 % 4) * 16 + b1 / 16),
            base64_digit((b1 % 16) * 4 + b2 / 64),
            base64_digit(b2 % 64),
        ] + standard_base64_encoding(bytes.subrange(3, bytes.len() as int))
    }
}

/// What the standard base64 engine decodes from a text: the bytes, or the
/// text of the decoding error.
pub uninterp spec fn standard_base64_decoding(text: Seq<char>) -> Result<Seq<u8>, Seq<char>>;

/// The text of orion's `UnknownCryptoError`.
pub open spec fn crypto_error_text() -> Seq<char> {
    "UnknownCryptoError"@
}

/// Whether orion's `aead::seal` accepts a key of these bytes and a plaintext
/// of this length.
pub open spec fn seal_accepts(key: Seq<u8>, plaintext_len: nat) -> bool {
    &&& key.len() == 32
    &&& 0 < plaintext_len <= AEAD_PLAINTEXT_MAX
    &&& plaintext_len + 40 <= usize::MAX
}

/// The text decodes, under the standard base64 engine, to exactly these bytes.
pub open spec fn base64_decodes_to(text: Seq<char>, bytes: Seq<u8>) -> bool {
    standard_base64_decoding(text) == Ok::<Seq<u8>, Seq<char>>(bytes)
}

/// An orion secret key together with the bytes it was made from.
pub struct AeadKey {
    key: orion::aead::SecretKey,
    material: Vec<u8>,
}

impl AeadKey {
    /// The bytes the key was made from.
    pub closed spec fn bytes(&self) -> Seq<u8> {
        self.material@
    }
}

/// `orion::aead::SecretKey::from_slice`: a key from the given bytes. It fails,
/// with `UnknownCryptoError`, exactly on an empty slice or one longer than
/// `isize::MAX` bytes.
#[verifier::external_body]
pub(crate) fn aead_key_from_slice(bytes: &[u8]) -> (r: Result<AeadKey, String>)
    ensures
        r is Ok <==> 0 < bytes@.len() <= isize::MAX,
        r matches Ok(key) ==> key.bytes() == bytes@,
        r matches Err(text) ==> text@ == crypto_error_text(),
{
    match orion::aead::SecretKey::from_slice(bytes) {
        Ok(key) => Ok(AeadKey { key, material: bytes.to_vec() }),
        Err(e) => Err(e.to_string()),
    }
}

/// `orion::aead::seal`: encrypts and authenticates `plaintext` under a fresh
/// random nonce. It fails, with `UnknownCryptoError`, exactly when the key is not
/// 32 bytes, the plaintext is empty or longer than `AEAD_PLAINTEXT_MAX`, or the
/// output length would overflow. The output is the 24-byte nonce, the ciphertext
/// and the 16-byte tag, and `open` with the same key gives the plaintext back.
/// Which nonce is drawn is left unsaid (it is random); orion panics if the
/// operating system cannot supply random bytes.
#[verifier::external_body]
pub(crate) fn aead_seal(key: &AeadKey, plaintext: &[u8]) -> (r: Result<Vec<u8>, String>)
    ensures
        r is Ok <==> seal_accepts(key.bytes(), plaintext@.len()),
        r matches Ok(sealed) ==> sealed@.len() == plaintext@.len() + 40 && aead_opened(key.bytes(), sealed@)
            == Some(plaintext@),
        r matches Err(text) ==> text@ == crypto_error_text(),
{
    orion::aead::seal(&key.key, plaintext).map_err(|e| e.to_string())
}

/// `orion::aead::open`: checks the tag and decrypts. It fails, with
/// `UnknownCryptoError`, when the key is not 32 bytes, the input is not longer
/// than 40 bytes, or the tag does not match.
#[verifier::external_body]
pub(crate) fn aead_open(key: &AeadKey, sealed: &[u8]) -> (r: Result<Vec<u8>, String>)
    ensures
        r is Ok <==> aead_opened(key.bytes(), sealed@) is Some,
        r matches Ok(plaintext) ==> aead_opened(key.bytes(), sealed@) == Some(plaintext@),
        key.bytes().len() != 32 || sealed@.len() <= 40 ==> r is Err,
        r matches Ok(plaintext) ==> plaintext@.len() + 40 == sealed@.len(),
        r matches Err(text) ==> text@ == crypto_error_text(),
{
    orion::aead::open(&key.key, sealed).map_err(|e| e.to_string())
}

/// `base64::engine::general_purpose::STANDARD.encode`: the standard base64 text
/// of `bytes`, which the same engine decodes back to `bytes`.
#[verifier::external_body]
pub(crate) fn base64_encode(bytes: &[u8]) -> (r: String)
    ensures
        r@ == standard_base64_encoding(bytes@),
        base64_decodes_to(r@, bytes@),
{
    base64::engine::general_purpose::STANDARD.encode(bytes)
}

/// `base64::engine::general_purpose::STANDARD.decode`: the bytes of a base64
/// text, or the display text of the `DecodeError`.
#[verifier::external_body]
pub(crate) fn base64_decode(text: &str) -> (r: Result<Vec<u8>, String>)
    ensures
        match r {
            Ok(bytes) => base64_decodes_to(text@, bytes@),
            Err(message) => standard_base64_decoding(text@) == Err::<Seq<u8>, Seq<char>>(message@),
        },
{
    base64::engine::general_purpose::STANDARD.decode(text).map_err(|e| e.to_string())
}

} // verus!
