//! An authenticated key exchange between a responder that holds a long-term
//! signing key and an initiator that trusts the matching verification key,
//! followed by an authenticated-encryption channel keyed by the agreed secret.
//!
//! The responder signs a fresh KEM public key (Dilithium5), the initiator
//! verifies it and encapsulates against it (Kyber768), and both sides then
//! seal and open messages with AES-256-GCM.

pub mod primitives;
pub mod shared;
pub mod keytext;
pub mod wire;
pub mod client;
pub mod server;

pub use client::Client;
pub use server::Server;
pub use shared::{
    decrypt_message, encrypt_message, seal_with_nonce, CipherText, HandshakeError, KemPublicKey,
    KemSecretKey, Nonce, SessionState, SessionView, SharedSecret, Signature, SigningKey,
    VerificationKey,
};
pub use keytext::read_key;
pub use wire::{decode_frame, decode_message1, encode_frame, encode_message1};
