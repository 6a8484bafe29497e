//! What both peers share: the byte-string types of the wire, the session
//! state, the errors, and the sealed channel.

use vstd::prelude::*;
use crate::primitives::{aead_decrypt, aead_encrypt, aead_opened, aead_sealed, fresh_nonce};

verus! {

/// The symmetric key that a finished handshake leaves on both sides.
pub type SharedSecret = [u8; 32];

/// The second handshake message: the KEM ciphertext.
pub type CipherText = [u8; 1088];

/// The per-message value that the channel sends along with each ciphertext.
pub type Nonce = [u8; 12];

/// The ephemeral KEM public key that the first handshake message carries.
pub type KemPublicKey = [u8; 1184];

/// The ephemeral KEM secret key, which never leaves the responder.
pub type KemSecretKey = [u8; 2400];

/// The responder's signature over the raw bytes of its KEM public key.
pub type Signature = [u8; 4595];

/// The responder's long-term verification key, known to the initiator.
pub type VerificationKey = [u8; 2592];

/// The responder's long-term signing key.
pub type SigningKey = [u8; 4864];

/// The longest plaintext, in bytes, that one channel message can carry.
pub const MAX_PLAINTEXT_BYTES: u64 = 0x10_0000_0000;

/// Every way in which an operation of this library can fail.
#[derive(Clone, Copy, Debug, PartialEq, Eq, Structural)]
pub enum HandshakeError {
    /// The signature over the KEM public key did not verify.
    AuthenticationFailure,
    /// The KEM ciphertext was malformed.
    DecapsulationFailure,
    /// A handshake step was asked for in a state that does not allow it.
    ProtocolStateError,
    /// A channel operation was asked for before a secret was established.
    MissingSessionSecret,
    /// The authentication tag of a channel message did not verify.
    ChannelDecryptionFailure,
    /// Key material had the wrong length or was not well formed.
    KeyLoadError,
    /// The KEM could not generate a key pair or encapsulate.
    KemFailure,
    /// The plaintext is longer than one channel message can carry.
    MessageTooLong,
}

/// Where one peer stands in the handshake.
#[derive(Clone, Copy)]
pub enum SessionState {
    /// No handshake has begun.
    Uninitialized,
    /// The first message is out; the ephemeral secret key waits for the second.
    AwaitingCounterpartMessage(KemSecretKey),
    /// The handshake is over and the channel is keyed.
    Established(SharedSecret),
}

/// A session state with its key material as byte sequences.
pub enum SessionView {
    Uninitialized,
    AwaitingCounterpartMessage(Seq<u8>),
    Established(Seq<u8>),
}

impl View for SessionState {
    type V = SessionView;

    open spec fn view(&self) -> SessionView {
        match *self {
            SessionState::Uninitialized => SessionView::Uninitialized,
            SessionState::AwaitingCounterpartMessage(key) => SessionView::AwaitingCounterpartMessage(
                key@,
            ),
            SessionState::Established(secret) => SessionView::Established(secret@),
        }
    }
}

/// The secret that keys the channel, where the session has one.
pub open spec fn session_secret(session: SessionView) -> Option<Seq<u8>> {
    match session {
        SessionView::Established(secret) => Some(secret),
        _ => None,
    }
}

/// Copies a slice of exactly `N` bytes into an array.
pub(crate) fn array_from_slice<const N: usize>(bytes: &[u8]) -> (out: [u8; N])
    requires
        bytes@.len() == N,
    ensures
        out@ == bytes@,
{
    let mut out = [0u8; N];
    let mut i: usize = 0;
    while i < N
        invariant
            i <= N,
            bytes@.len() == N,
            out@.len() == N,
            forall|j: int| 0 <= j < i ==> out@[j] == bytes@[j],
        decreases N - i,
    {
        out[i] = bytes[i];
        i += 1;
    }
    assert(out@ =~= bytes@);
    out
}

/// What sealing `plaintext` under `secret` with `nonce` must return.
pub open spec fn sealing_outcome(
    secret: Seq<u8>,
    nonce: Seq<u8>,
    plaintext: Seq<u8>,
) -> Result<(Seq<u8>, Seq<u8>), HandshakeError> {
    if plaintext.len() <= MAX_PLAINTEXT_BYTES {
        Ok((nonce, aead_sealed(secret, nonce, plaintext)))
    } else {
        Err(HandshakeError::MessageTooLong)
    }
}

/// What opening `ciphertext` under `secret` with `nonce` must return.
pub open spec fn opening_outcome(secret: Seq<u8>, nonce: Seq<u8>, ciphertext: Seq<u8>) -> Result<
    Seq<u8>,
    HandshakeError,
> {
    match aead_opened(secret, nonce, ciphertext) {
        Some(plaintext) => Ok(plaintext),
        None => Err(HandshakeError::ChannelDecryptionFailure),
    }
}

/// A result of sealing, with nonce and ciphertext as byte sequences.
pub open spec fn sealed_view(r: Result<(Nonce, Vec<u8>), HandshakeError>) -> Result<
    (Seq<u8>, Seq<u8>),
    HandshakeError,
> {
    match r {
        Ok((nonce, ciphertext)) => Ok((nonce@, ciphertext@)),
        Err(e) => Err(e),
    }
}

/// A result of opening, with the plaintext as a byte sequence.
pub open spec fn opened_view(r: Result<Vec<u8>, HandshakeError>) -> Result<
    Seq<u8>,
    HandshakeError,
> {
    match r {
        Ok(plaintext) => Ok(plaintext@),
        Err(e) => Err(e),
    }
}

/// Whether `r` is a nonce and a ciphertext that open to `plaintext` under
/// `secret`, the ciphertext being the sealing of `plaintext` with that nonce.
pub open spec fn seals(
    r: Result<(Nonce, Vec<u8>), HandshakeError>,
    secret: Seq<u8>,
    plaintext: Seq<u8>,
) -> bool {
    match r {
        Ok((nonce, ciphertext)) => {
            &&& plaintext.len() <= MAX_PLAINTEXT_BYTES
            &&& ciphertext@ == aead_sealed(secret, nonce@, plaintext)
            &&& opening_outcome(secret, nonce@, ciphertext@) == Ok::<Seq<u8>, HandshakeError>(
                plaintext,
            )
        },
        Err(e) => e == HandshakeError::MessageTooLong && plaintext.len() > MAX_PLAINTEXT_BYTES,
    }
}

/// Round trip: whatever nonce and ciphertext sealing returned for
/// `plaintext` under `secret`, opening them under the same secret returns
/// `plaintext`.
pub proof fn lemma_round_trip(
    secret: Seq<u8>,
    plaintext: Seq<u8>,
    sealed: Result<(Nonce, Vec<u8>), HandshakeError>,
    nonce: Nonce,
    ciphertext: Vec<u8>,
)
    requires
        seals(sealed, secret, plaintext),
        sealed == Ok::<(Nonce, Vec<u8>), HandshakeError>((nonce, ciphertext)),
    ensures
        opening_outcome(secret, nonce@, ciphertext@) == Ok::<Seq<u8>, HandshakeError>(plaintext),
{
}

/// Seals `plaintext` under `secret` with the nonce that the caller supplies.
///
/// A nonce must never be used twice under one secret: `encrypt_message`
/// draws a fresh one for each call and is the function to use.
pub fn seal_with_nonce(plaintext: &[u8], secret: &SharedSecret, nonce: Nonce) -> (r: Result<
    (Nonce, Vec<u8>),
    HandshakeError,
>)
    ensures
        sealed_view(r) == sealing_outcome(secret@, nonce@, plaintext@),
        seals(r, secret@, plaintext@),
        r matches Ok((used, _)) ==> used == nonce,
{
    match aead_encrypt(secret, &nonce, plaintext) {
        Ok(ciphertext) => Ok((nonce, ciphertext)),
        Err(_) => Err(HandshakeError::MessageTooLong),
    }
}

/// Seals `plaintext` under `secret` with a fresh random nonce.
///
/// Whatever nonce is drawn, the ciphertext is the sealing of the plaintext
/// with it, and opening the pair under the same secret gives the plaintext
/// back. Only a plaintext over the channel's limit is refused.
pub fn encrypt_message(plaintext: &[u8], secret: &SharedSecret) -> (r: Result<
    (Nonce, Vec<u8>),
    HandshakeError,
>)
    ensures
        seals(r, secret@, plaintext@),
{
    let nonce = fresh_nonce();
    seal_with_nonce(plaintext, secret, nonce)
}

/// Opens `ciphertext` under `secret` with `nonce`: the plaintext where the
/// tag verifies, and `ChannelDecryptionFailure`, with no plaintext at all,
/// where it does not.
pub fn decrypt_message(ciphertext: &[u8], nonce: Nonce, secret: &SharedSecret) -> (r: Result<
    Vec<u8>,
    HandshakeError,
>)
    ensures
        opened_view(r) == opening_outcome(secret@, nonce@, ciphertext@),
{
    match aead_decrypt(secret, &nonce, ciphertext) {
        Ok(plaintext) => Ok(plaintext),
        Err(_) => Err(HandshakeError::ChannelDecryptionFailure),
    }
}

} // verus!
