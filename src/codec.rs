//! Text encodings of the modem's public key and of the ciphertext, and the
//! RSA encryption itself.
use vstd::prelude::*;
use vstd::string::StringSliceAdditionalSpecFns;
use base64::Engine;

verus! {

/// What standard, padded base64 decoding makes of these bytes, if they are
/// well-formed base64.
pub uninterp spec fn base64_decoding(text: Seq<u8>) -> Option<Seq<u8>>;

/// The standard, padded base64 text of these bytes.
pub uninterp spec fn base64_encoding(bytes: Seq<u8>) -> Seq<char>;

/// Relies on base64's STANDARD engine `decode`: a function of its input,
/// which fails on text that the engine does not accept as base64.
#[verifier::external_body]
pub(crate) fn base64_decode(text: &str) -> (r: Option<Vec<u8>>)
    ensures
        match r {
            Some(b) => base64_decoding(text.spec_bytes()) == Some(b@),
            None => base64_decoding(text.spec_bytes()) is None,
        },
{
    base64::engine::general_purpose::STANDARD.decode(text).ok()
}

/// Relies on base64's STANDARD engine `encode`: a function of its input.
#[verifier::external_body]
pub(crate) fn base64_encode(bytes: &[u8]) -> (r: String)
    ensures
        r@ == base64_encoding(bytes@),
{
    base64::engine::general_purpose::STANDARD.encode(bytes)
}

/// The value of a hexadecimal digit, in either case.
pub open spec fn hex_digit(c: u8) -> Option<u8> {
    if 0x30 <= c <= 0x39 {
        Some((c - 0x30) as u8)
    } else if 0x41 <= c <= 0x46 {
        Some((c - 0x41 + 10) as u8)
    } else if 0x61 <= c <= 0x66 {
        Some((c - 0x61 + 10) as u8)
    } else {
        None
    }
}

/// The bytes that a hexadecimal text stands for: two digits per byte, the
/// high one first; `None` for an odd length or a character that is no digit.
pub open spec fn hex_decoding(text: Seq<u8>) -> Option<Seq<u8>> {
    if text.len() % 2 == 0 && forall|i: int| 0 <= i < text.len() ==> (#[trigger] hex_digit(text[i])) is Some {
        Some(
            Seq::new(
                text.len() / 2,
                |i: int| (hex_digit(text[2 * i])->Some_0 * 16 + hex_digit(text[2 * i + 1])->Some_0) as u8,
            ),
        )
    } else {
        None
    }
}

/// Relies on hex::decode, which reads two digits of either case per byte and
/// fails on an odd length or on any other character.
#[verifier::external_body]
pub(crate) fn hex_decode(text: &str) -> (r: Option<Vec<u8>>)
    ensures
        match r {
            Some(b) => hex_decoding(text.spec_bytes()) == Some(b@),
            None => hex_decoding(text.spec_bytes()) is None,
        },
{
    hex::decode(text).ok()
}

/// The modulus as the modem sends it: base64, or else hexadecimal.
pub open spec fn modulus_decoding(text: Seq<u8>) -> Option<Seq<u8>> {
    match base64_decoding(text) {
        Some(b) => Some(b),
        None => hex_decoding(text),
    }
}

/// The exponent as the modem sends it: hexadecimal, or else base64.
pub open spec fn exponent_decoding(text: Seq<u8>) -> Option<Seq<u8>> {
    match hex_decoding(text) {
        Some(b) => Some(b),
        None => base64_decoding(text),
    }
}

/// Decodes the key's modulus, trying base64 first and hexadecimal second.
pub fn decode_modulus(text: &str) -> (r: Option<Vec<u8>>)
    ensures
        match r {
            Some(b) => modulus_decoding(text.spec_bytes()) == Some(b@),
            None => modulus_decoding(text.spec_bytes()) is None,
        },
{
    match base64_decode(text) {
        Some(b) => Some(b),
        None => hex_decode(text),
    }
}

/// Decodes the key's exponent, trying hexadecimal first and base64 second.
pub fn decode_exponent(text: &str) -> (r: Option<Vec<u8>>)
    ensures
        match r {
            Some(b) => exponent_decoding(text.spec_bytes()) == Some(b@),
            None => exponent_decoding(text.spec_bytes()) is None,
        },
{
    match hex_decode(text) {
        Some(b) => Some(b),
        None => base64_decode(text),
    }
}

#[verifier::external_type_specification]
#[verifier::external_body]
pub struct ExBigNum(openssl::bn::BigNum);

#[verifier::external_type_specification]
#[verifier::external_body]
#[verifier::reject_recursive_types(T)]
pub struct ExRsa<T>(openssl::rsa::Rsa<T>);

#[verifier::external_type_specification]
#[verifier::external_body]
pub struct ExPublic(openssl::pkey::Public);

#[verifier::external_type_specification]
#[verifier::external_body]
pub struct ExErrorStack(openssl::error::ErrorStack);

/// Relies on openssl's BigNum::from_slice: reads big-endian bytes as an
/// unsigned number; it asserts that there are at most `i32::MAX` of them.
#[verifier::external_body]
fn bignum_from_bytes(bytes: &[u8]) -> (r: Result<openssl::bn::BigNum, openssl::error::ErrorStack>)
    requires
        bytes@.len() <= i32::MAX,
{
    openssl::bn::BigNum::from_slice(bytes)
}

/// Relies on openssl's Rsa::from_public_components: a public key from a
/// modulus and an exponent.
#[verifier::external_body]
fn rsa_public_key(n: openssl::bn::BigNum, e: openssl::bn::BigNum) -> (r: Result<
    openssl::rsa::Rsa<openssl::pkey::Public>,
    openssl::error::ErrorStack,
>) {
    openssl::rsa::Rsa::from_public_components(n, e)
}

/// Relies on openssl's Rsa::size and Rsa::public_encrypt with PKCS#1 v1.5
/// padding: the output buffer is the size of the modulus, so the call does
/// not panic; only the bytes written are kept. The padding is random, so
/// nothing is stated of the ciphertext.
#[verifier::external_body]
fn rsa_encrypt_pkcs1(key: &openssl::rsa::Rsa<openssl::pkey::Public>, payload: &[u8]) -> (r: Result<
    Vec<u8>,
    openssl::error::ErrorStack,
>)
    requires
        payload@.len() <= i32::MAX,
{
    let mut out = vec![0u8; key.size() as usize];
    let written = key.public_encrypt(payload, &mut out, openssl::rsa::Padding::PKCS1)?;
    out.truncate(written);
    Ok(out)
}

/// Both decoded parts of the key are short enough to be read as numbers.
pub open spec fn key_fits(modulus: Seq<u8>, exponent: Seq<u8>) -> bool {
    modulus_decoding(modulus)->Some_0.len() <= i32::MAX && exponent_decoding(exponent)->Some_0.len()
        <= i32::MAX
}

/// The error that the library itself reports for a key and a payload,
/// before openssl is asked; `None` where openssl decides.
pub open spec fn encrypt_failure(modulus: Seq<u8>, exponent: Seq<u8>, payload: Seq<u8>) -> Option<
    EncryptError,
> {
    if modulus_decoding(modulus) is None {
        Some(EncryptError::Modulus)
    } else if exponent_decoding(exponent) is None {
        Some(EncryptError::Exponent)
    } else if !key_fits(modulus, exponent) {
        Some(EncryptError::KeyTooLong)
    } else if payload.len() > i32::MAX {
        Some(EncryptError::PayloadTooLong)
    } else {
        None
    }
}

/// Why a payload could not be encrypted.
#[derive(Clone, Copy, Debug, PartialEq, Eq, Structural)]
pub enum EncryptError {
    /// The modulus is neither base64 nor hexadecimal.
    Modulus,
    /// The exponent is neither hexadecimal nor base64.
    Exponent,
    /// The modulus or the exponent is longer than `i32::MAX` bytes.
    KeyTooLong,
    /// The payload is longer than the cipher accepts.
    PayloadTooLong,
    /// The key or the encryption was refused.
    Crypto,
}

/// Encrypts `payload` under the RSA key given by its encoded modulus and
/// exponent, with PKCS#1 v1.5 padding, and returns the ciphertext in base64.
pub fn encrypt_with_key_text(modulus: &str, exponent: &str, payload: &str) -> (r: Result<
    String,
    EncryptError,
>)
    ensures
        match encrypt_failure(modulus.spec_bytes(), exponent.spec_bytes(), payload.spec_bytes()) {
            Some(err) => r == Err::<String, EncryptError>(err),
            None => r is Ok || r == Err::<String, EncryptError>(EncryptError::Crypto),
        },
        r matches Ok(text) ==> exists|c: Seq<u8>| text@ == base64_encoding(c),
{
    let n = match decode_modulus(modulus) {
        Some(b) => b,
        None => return Err(EncryptError::Modulus),
    };
    let e = match decode_exponent(exponent) {
        Some(b) => b,
        None => return Err(EncryptError::Exponent),
    };
    if n.len() > i32::MAX as usize || e.len() > i32::MAX as usize {
        return Err(EncryptError::KeyTooLong);
    }
    let bytes = payload.as_bytes();
    if bytes.len() > i32::MAX as usize {
        return Err(EncryptError::PayloadTooLong);
    }
    let n = match bignum_from_bytes(n.as_slice()) {
        Ok(v) => v,
        Err(_) => return Err(EncryptError::Crypto),
    };
    let e = match bignum_from_bytes(e.as_slice()) {
        Ok(v) => v,
        Err(_) => return Err(EncryptError::Crypto),
    };
    let key = match rsa_public_key(n, e) {
        Ok(k) => k,
        Err(_) => return Err(EncryptError::Crypto),
    };
    match rsa_encrypt_pkcs1(&key, bytes) {
        Ok(c) => Ok(base64_encode(c.as_slice())),
        Err(_) => Err(EncryptError::Crypto),
    }
}

} // verus!
