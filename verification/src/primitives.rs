//! The cryptographic primitives, each reached through one small function whose
//! contract is taken on trust from the crate that implements it.

use vstd::prelude::*;
use aes_gcm::aead::{Aead, AeadCore, KeyInit, OsRng};
use aes_gcm::Aes256Gcm;

verus! {

/// `kyberlib::KyberLibError`, carried through and never looked into.
#[verifier::external_type_specification]
#[verifier::external_body]
pub struct ExKyberLibError(kyberlib::KyberLibError);

/// `crystals_dilithium::Error`, carried through and never looked into.
#[verifier::external_type_specification]
#[verifier::external_body]
pub struct ExDilithiumError(crystals_dilithium::Error);

/// `aes_gcm::Error`, carried through and never looked into.
#[verifier::external_type_specification]
#[verifier::external_body]
pub struct ExAeadError(aes_gcm::Error);

/// Whether Dilithium5 accepts `signature` for `message` under the
/// verification key `key`.
pub uninterp spec fn dilithium_verifies(key: Seq<u8>, message: Seq<u8>, signature: Seq<u8>) -> bool;

/// The deterministic Dilithium5 signature of `message` under the signing key
/// `key`.
pub uninterp spec fn dilithium_signature(key: Seq<u8>, message: Seq<u8>) -> Seq<u8>;

/// What Kyber768 decapsulation of `ciphertext` with the secret key `key`
/// yields: `None` where it rejects its input.
pub uninterp spec fn kyber_decapsulated(key: Seq<u8>, ciphertext: Seq<u8>) -> Option<Seq<u8>>;

/// The AES-256-GCM ciphertext, tag included, of `plaintext` under `key` and
/// `nonce`, with no associated data.
pub uninterp spec fn aead_sealed(key: Seq<u8>, nonce: Seq<u8>, plaintext: Seq<u8>) -> Seq<u8>;

/// What AES-256-GCM decryption of `ciphertext` under `key` and `nonce` yields,
/// with no associated data: `None` where it is refused, as it is for a tag
/// that does not verify.
pub uninterp spec fn aead_opened(key: Seq<u8>, nonce: Seq<u8>, ciphertext: Seq<u8>) -> Option<Seq<u8>>;

/// Calls `dilithium5::PublicKey::from_bytes` and then `PublicKey::verify`.
///
/// Trusted: the answer depends on the three byte strings alone. A key that
/// the crate refuses to load verifies nothing.
#[verifier::external_body]
pub(crate) fn signature_verifies(key: &[u8; 2592], message: &[u8], signature: &[u8]) -> (ok: bool)
    ensures
        ok == dilithium_verifies(key@, message@, signature@),
{
    match crystals_dilithium::dilithium5::PublicKey::from_bytes(key) {
        Ok(public) => public.verify(message, signature),
        Err(_) => false,
    }
}

/// Calls `dilithium5::SecretKey::from_bytes` and then `SecretKey::sign`.
///
/// Trusted: loading fails only on a wrong length, which the parameter's type
/// excludes, and signing is the deterministic variant, so the signature
/// depends on key and message alone.
#[verifier::external_body]
pub(crate) fn sign_message(key: &[u8; 4864], message: &[u8]) -> (r: Result<[u8; 4595], crystals_dilithium::Error>)
    ensures
        match r {
            Ok(signature) => signature@ == dilithium_signature(key@, message@),
            Err(_) => false,
        },
{
    match crystals_dilithium::dilithium5::SecretKey::from_bytes(key) {
        Ok(secret) => Ok(secret.sign(message)),
        Err(e) => Err(e),
    }
}

/// Calls `kyberlib::keypair` with the thread-local generator of `rand`.
///
/// Nothing is claimed of the outcome: the key pair is random, and the call
/// fails where the generator does.
#[verifier::external_body]
pub(crate) fn kem_keypair() -> (r: Result<([u8; 1184], [u8; 2400]), kyberlib::KyberLibError>) {
    let mut rng = rand::thread_rng();
    match kyberlib::keypair(&mut rng) {
        Ok(keys) => Ok((keys.public, keys.secret)),
        Err(e) => Err(e),
    }
}

/// Calls `kyberlib::encapsulate` with the thread-local generator of `rand`.
///
/// Nothing is claimed of the outcome: ciphertext and secret are random, and
/// the call fails where the generator does.
#[verifier::external_body]
pub(crate) fn kem_encapsulate(public: &[u8; 1184]) -> (r: Result<([u8; 1088], [u8; 32]), kyberlib::KyberLibError>) {
    let mut rng = rand::thread_rng();
    kyberlib::encapsulate(public, &mut rng)
}

/// Calls `kyberlib::decapsulate`.
///
/// Trusted: the call is refused exactly when the ciphertext is not 1088 bytes
/// long (the key's length is fixed by its type), and otherwise returns a
/// secret that depends on key and ciphertext alone. A ciphertext that was not
/// made for this key is not refused.
#[verifier::external_body]
pub(crate) fn kem_decapsulate(ciphertext: &[u8], secret: &[u8; 2400]) -> (r: Result<[u8; 32], kyberlib::KyberLibError>)
    ensures
        r is Ok <==> ciphertext@.len() == 1088,
        match r {
            Ok(shared) => kyber_decapsulated(secret@, ciphertext@) == Some(shared@),
            Err(_) => kyber_decapsulated(secret@, ciphertext@) is None,
        },
{
    kyberlib::decapsulate(ciphertext, secret)
}

/// Calls `Aes256Gcm::generate_nonce` with the operating system's generator.
///
/// Nothing is claimed of the twelve bytes: they are random.
#[verifier::external_body]
pub(crate) fn fresh_nonce() -> (nonce: [u8; 12]) {
    Aes256Gcm::generate_nonce(&mut OsRng).into()
}

/// Calls `Aes256Gcm::new` and then `Aead::encrypt`.
///
/// Trusted: the call is refused exactly when the plaintext is longer than
/// 2^36 bytes; otherwise the ciphertext depends on key, nonce and plaintext
/// alone, and decryption under the same key and nonce gives the plaintext
/// back.
#[verifier::external_body]
pub(crate) fn aead_encrypt(key: &[u8; 32], nonce: &[u8; 12], plaintext: &[u8]) -> (r: Result<Vec<u8>, aes_gcm::Error>)
    ensures
        r is Ok <==> plaintext@.len() <= 0x10_0000_0000,
        r matches Ok(sealed) ==> sealed@ == aead_sealed(key@, nonce@, plaintext@) && aead_opened(
            key@,
            nonce@,
            sealed@,
        ) == Some(plaintext@),
{
    let cipher = Aes256Gcm::new(key.into());
    cipher.encrypt(nonce.into(), plaintext)
}

/// Calls `Aes256Gcm::new` and then `Aead::decrypt`.
///
/// Trusted: whether the call succeeds, and the plaintext it then returns,
/// depend on key, nonce and ciphertext alone.
#[verifier::external_body]
pub(crate) fn aead_decrypt(key: &[u8; 32], nonce: &[u8; 12], ciphertext: &[u8]) -> (r: Result<Vec<u8>, aes_gcm::Error>)
    ensures
        match r {
            Ok(plain) => aead_opened(key@, nonce@, ciphertext@) == Some(plain@),
            Err(_) => aead_opened(key@, nonce@, ciphertext@) is None,
        },
{
    let cipher = Aes256Gcm::new(key.into());
    cipher.decrypt(nonce.into(), ciphertext)
}

} // verus!
