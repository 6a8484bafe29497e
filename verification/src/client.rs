//! The initiator: it trusts the responder's verification key, checks the
//! first handshake message against it, and answers with a KEM ciphertext.

use vstd::prelude::*;
use crate::primitives::{dilithium_verifies, kem_encapsulate, signature_verifies};
use crate::shared::{
    array_from_slice, decrypt_message, encrypt_message, opened_view, opening_outcome, seals,
    session_secret, CipherText, HandshakeError, KemPublicKey, Nonce, SessionState, SessionView,
    SharedSecret, Signature, VerificationKey,
};

verus! {

/// The initiator's side of one connection.
pub struct Client {
    pk: VerificationKey,
    session: SessionState,
}

/// Whether an initiator in `session`, trusting `key`, goes on to encapsulate
/// against `public` when it comes with `signature`, and the error with which
/// it refuses otherwise.
pub open spec fn initiator_admits(
    session: SessionView,
    key: Seq<u8>,
    public: Seq<u8>,
    signature: Seq<u8>,
) -> Result<(), HandshakeError> {
    if session != SessionView::Uninitialized {
        Err(HandshakeError::ProtocolStateError)
    } else if !dilithium_verifies(key, public, signature) {
        Err(HandshakeError::AuthenticationFailure)
    } else {
        Ok(())
    }
}

impl Client {
    /// The responder's verification key that this initiator trusts.
    pub closed spec fn verification_key(&self) -> Seq<u8> {
        self.pk@
    }

    /// Where this initiator stands in the handshake.
    pub closed spec fn session(&self) -> SessionView {
        self.session@
    }

    /// An initiator that trusts the verification key `key` and has no session
    /// yet. A key of any length but 2592 bytes is a `KeyLoadError`.
    pub fn new(key: &[u8]) -> (r: Result<Client, HandshakeError>)
        ensures
            match r {
                Ok(client) => {
                    &&& key@.len() == 2592
                    &&& client.verification_key() == key@
                    &&& client.session() == SessionView::Uninitialized
                },
                Err(e) => e == HandshakeError::KeyLoadError && key@.len() != 2592,
            },
    {
        if key.len() != 2592 {
            return Err(HandshakeError::KeyLoadError);
        }
        Ok(Client { pk: array_from_slice(key), session: SessionState::Uninitialized })
    }

    /// Whether `sig` is the responder's signature of `msg`.
    pub fn verify(&self, sig: Signature, msg: &[u8]) -> (ok: bool)
        ensures
            ok == dilithium_verifies(self.verification_key(), msg@, sig@),
    {
        signature_verifies(&self.pk, msg, sig.as_slice())
    }

    /// Whether the session is established.
    pub fn is_established(&self) -> (b: bool)
        ensures
            b == (self.session() is Established),
    {
        match self.session {
            SessionState::Established(_) => true,
            _ => false,
        }
    }

    /// The shared secret, once the session is established.
    pub fn shared_secret(&self) -> (r: Option<SharedSecret>)
        ensures
            match r {
                Some(secret) => session_secret(self.session()) == Some(secret@),
                None => session_secret(self.session()) is None,
            },
    {
        match self.session {
            SessionState::Established(secret) => Some(secret),
            _ => None,
        }
    }

    /// Decides on the first handshake message without acting on it: `Ok` where
    /// the session is fresh and the signature over `pk` verifies.
    pub fn admits(&self, pk: &KemPublicKey, sig: &Signature) -> (r: Result<(), HandshakeError>)
        ensures
            r == initiator_admits(self.session(), self.verification_key(), pk@, sig@),
    {
        match self.session {
            SessionState::Uninitialized => {
                if signature_verifies(&self.pk, pk.as_slice(), sig.as_slice()) {
                    Ok(())
                } else {
                    Err(HandshakeError::AuthenticationFailure)
                }
            },
            _ => Err(HandshakeError::ProtocolStateError),
        }
    }

    /// Takes the outcome of an encapsulation into a fresh session: its secret
    /// establishes the session and its ciphertext is returned for the
    /// responder. A failed encapsulation is a `KemFailure`, and a session
    /// that is not fresh a `ProtocolStateError`; both leave the session as it
    /// was. This is the last step of `accept_pk_and_sig`, which checks the
    /// signature before it encapsulates.
    pub fn conclude(
        &mut self,
        encapsulated: Result<(CipherText, SharedSecret), kyberlib::KyberLibError>,
    ) -> (r: Result<CipherText, HandshakeError>)
        ensures
            final(self).verification_key() == old(self).verification_key(),
            old(self).session() != SessionView::Uninitialized ==> r == Err::<
                CipherText,
                HandshakeError,
            >(HandshakeError::ProtocolStateError) && final(self).session() == old(self).session(),
            old(self).session() == SessionView::Uninitialized ==> match encapsulated {
                Ok((ciphertext, secret)) => r == Ok::<CipherText, HandshakeError>(ciphertext)
                    && final(self).session() == SessionView::Established(secret@),
                Err(_) => r == Err::<CipherText, HandshakeError>(HandshakeError::KemFailure)
                    && final(self).session() == old(self).session(),
            },
    {
        match self.session {
            SessionState::Uninitialized => match encapsulated {
                Ok((ciphertext, secret)) => {
                    self.session = SessionState::Established(secret);
                    Ok(ciphertext)
                },
                Err(_) => Err(HandshakeError::KemFailure),
            },
            _ => Err(HandshakeError::ProtocolStateError),
        }
    }

    /// Handles the first handshake message, the KEM public key `pk` with the
    /// signature `sig` over its bytes.
    ///
    /// A session that is not fresh refuses it with `ProtocolStateError`, and a
    /// signature that does not verify with `AuthenticationFailure`; only then
    /// is a secret encapsulated against `pk`. The session is established
    /// exactly when the call returns the ciphertext, and is unchanged on
    /// every error.
    pub fn accept_pk_and_sig(&mut self, pk: KemPublicKey, sig: Signature) -> (r: Result<
        CipherText,
        HandshakeError,
    >)
        ensures
            final(self).verification_key() == old(self).verification_key(),
            r is Ok ==> old(self).session() == SessionView::Uninitialized && dilithium_verifies(
                old(self).verification_key(),
                pk@,
                sig@,
            ),
            match initiator_admits(old(self).session(), old(self).verification_key(), pk@, sig@) {
                Err(e) => r == Err::<CipherText, HandshakeError>(e) && final(self).session() == old(
                    self,
                ).session(),
                Ok(_) => match r {
                    Ok(_) => final(self).session() is Established,
                    Err(e) => e == HandshakeError::KemFailure && final(self).session() == old(
                        self,
                    ).session(),
                },
            },
    {
        match self.admits(&pk, &sig) {
            Err(e) => Err(e),
            Ok(_) => {
                let encapsulated = kem_encapsulate(&pk);
                self.conclude(encapsulated)
            },
        }
    }

    /// Seals `plaintext` for the responder. Before the session is established
    /// this is a `MissingSessionSecret`.
    pub fn encrypt_message(&self, plaintext: &[u8]) -> (r: Result<(Nonce, Vec<u8>), HandshakeError>)
        ensures
            match session_secret(self.session()) {
                Some(secret) => seals(r, secret, plaintext@),
                None => r == Err::<(Nonce, Vec<u8>), HandshakeError>(
                    HandshakeError::MissingSessionSecret,
                ),
            },
    {
        match &self.session {
            SessionState::Established(secret) => encrypt_message(plaintext, secret),
            _ => Err(HandshakeError::MissingSessionSecret),
        }
    }

    /// Opens a message of the responder. Before the session is established
    /// this is a `MissingSessionSecret`.
    pub fn decrypt_message(&self, ciphertext: &[u8], nonce: Nonce) -> (r: Result<
        Vec<u8>,
        HandshakeError,
    >)
        ensures
            opened_view(r) == match session_secret(self.session()) {
                Some(secret) => opening_outcome(secret, nonce@, ciphertext@),
                None => Err(HandshakeError::MissingSessionSecret),
            },
    {
        match &self.session {
            SessionState::Established(secret) => decrypt_message(ciphertext, nonce, secret),
            _ => Err(HandshakeError::MissingSessionSecret),
        }
    }
}

} // verus!
