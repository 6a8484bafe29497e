//! The responder: it holds the long-term signing key, opens each handshake
//! with a signed ephemeral KEM public key, and recovers the shared secret
//! from the initiator's ciphertext.

use vstd::prelude::*;
use crate::primitives::{
    dilithium_signature, kem_decapsulate, kem_keypair, kyber_decapsulated, sign_message,
};
use crate::shared::{
    array_from_slice, decrypt_message, encrypt_message, opened_view, opening_outcome, seals,
    session_secret, HandshakeError, KemPublicKey, KemSecretKey, Nonce, SessionState, SessionView,
    SharedSecret, Signature, SigningKey,
};

verus! {

/// The responder's side of one connection.
pub struct Server {
    dil_sk: SigningKey,
    session: SessionState,
}

/// The session in which a responder in `session` finds itself after it was
/// asked to open a handshake with the ephemeral secret key `secret`: only
/// an established session stays as it is.
pub open spec fn responder_begins(session: SessionView, secret: Seq<u8>) -> SessionView {
    if session is Established {
        session
    } else {
        SessionView::AwaitingCounterpartMessage(secret)
    }
}

/// The session in which a responder in `session` finds itself after the
/// second handshake message `ciphertext`, and what it reports.
pub open spec fn responder_accepts(session: SessionView, ciphertext: Seq<u8>) -> (
    SessionView,
    Result<(), HandshakeError>,
) {
    match session {
        SessionView::AwaitingCounterpartMessage(key) => match kyber_decapsulated(key, ciphertext) {
            Some(secret) => (SessionView::Established(secret), Ok(())),
            None => (SessionView::Uninitialized, Err(HandshakeError::DecapsulationFailure)),
        },
        _ => (session, Err(HandshakeError::ProtocolStateError)),
    }
}

/// The session that is left when a responder in `session` gives up a
/// handshake: the ephemeral secret key is gone, anything else stays.
pub open spec fn responder_abandons(session: SessionView) -> SessionView {
    match session {
        SessionView::AwaitingCounterpartMessage(_) => SessionView::Uninitialized,
        _ => session,
    }
}

/// Agreement: where the ciphertext that the initiator sent decapsulates,
/// under the responder's retained key, to the secret that the initiator
/// holds, the second message leaves the responder established with that
/// same secret.
pub proof fn lemma_agreement(key: Seq<u8>, ciphertext: Seq<u8>, initiator: SessionView)
    requires
        session_secret(initiator) is Some,
        kyber_decapsulated(key, ciphertext) == session_secret(initiator),
    ensures
        responder_accepts(SessionView::AwaitingCounterpartMessage(key), ciphertext) == (
            initiator,
            Ok::<(), HandshakeError>(()),
        ),
{
}

/// An established session is final: no handshake step of the responder
/// changes it, and each step that would set a secret is refused.
pub proof fn lemma_established_is_final(session: SessionView, key: Seq<u8>, ciphertext: Seq<u8>)
    requires
        session is Established,
    ensures
        responder_begins(session, key) == session,
        responder_accepts(session, ciphertext) == (
            session,
            Err::<(), HandshakeError>(HandshakeError::ProtocolStateError),
        ),
        responder_abandons(session) == session,
{
}

/// The ephemeral secret key does not outlive the second message: whatever
/// the ciphertext, no state after it still holds a key.
pub proof fn lemma_key_is_discarded(session: SessionView, ciphertext: Seq<u8>)
    requires
        session is AwaitingCounterpartMessage,
    ensures
        !(responder_accepts(session, ciphertext).0 is AwaitingCounterpartMessage),
        !(responder_abandons(session) is AwaitingCounterpartMessage),
{
}

impl Server {
    /// The long-term signing key.
    pub closed spec fn signing_key(&self) -> Seq<u8> {
        self.dil_sk@
    }

    /// Where this responder stands in the handshake.
    pub closed spec fn session(&self) -> SessionView {
        self.session@
    }

    /// A responder with the signing key `key` and no session yet. A key of
    /// any length but 4864 bytes is a `KeyLoadError`.
    pub fn new(key: &[u8]) -> (r: Result<Server, HandshakeError>)
        ensures
            match r {
                Ok(server) => {
                    &&& key@.len() == 4864
                    &&& server.signing_key() == key@
                    &&& server.session() == SessionView::Uninitialized
                },
                Err(e) => e == HandshakeError::KeyLoadError && key@.len() != 4864,
            },
    {
        if key.len() != 4864 {
            return Err(HandshakeError::KeyLoadError);
        }
        Ok(Server { dil_sk: array_from_slice(key), session: SessionState::Uninitialized })
    }

    /// Whether the session is established.
    pub fn is_established(&self) -> (b: bool)
        ensures
            b == (self.session() is Established),
    {
        match self.session {
            SessionState::Established(_) => true,
            _ => false,
        }
    }

    /// Whether the first message is out and the second is awaited.
    pub fn is_awaiting(&self) -> (b: bool)
        ensures
            b == (self.session() is AwaitingCounterpartMessage),
    {
        match self.session {
            SessionState::AwaitingCounterpartMessage(_) => true,
            _ => false,
        }
    }

    /// The shared secret, once the session is established.
    pub fn shared_secret(&self) -> (r: Option<SharedSecret>)
        ensures
            match r {
                Some(secret) => session_secret(self.session()) == Some(secret@),
                None => session_secret(self.session()) is None,
            },
    {
        match self.session {
            SessionState::Established(secret) => Some(secret),
            _ => None,
        }
    }

    /// The signature of `msg` under the long-term key. The key has the length
    /// that signing asks for, so this does not fail.
    pub fn sign(&self, msg: &[u8]) -> (r: Result<Signature, HandshakeError>)
        ensures
            match r {
                Ok(signature) => signature@ == dilithium_signature(self.signing_key(), msg@),
                Err(_) => false,
            },
    {
        match sign_message(&self.dil_sk, msg) {
            Ok(signature) => Ok(signature),
            Err(_) => Err(HandshakeError::KeyLoadError),
        }
    }

    /// Retains the secret half of the ephemeral key pair that the caller
    /// supplies and returns the public half, which is to be signed and sent.
    /// A key that was retained before is dropped. An established session
    /// refuses with `ProtocolStateError` and stays as it is.
    ///
    /// `generate_pk_and_sig` draws a fresh key pair and is the function to
    /// use; a key pair must not serve two handshakes.
    pub fn retain_kyber_keys(&mut self, public: KemPublicKey, secret: KemSecretKey) -> (r: Result<
        KemPublicKey,
        HandshakeError,
    >)
        ensures
            final(self).signing_key() == old(self).signing_key(),
            final(self).session() == responder_begins(old(self).session(), secret@),
            r == if old(self).session() is Established {
                Err::<KemPublicKey, HandshakeError>(HandshakeError::ProtocolStateError)
            } else {
                Ok::<KemPublicKey, HandshakeError>(public)
            },
    {
        match self.session {
            SessionState::Established(_) => Err(HandshakeError::ProtocolStateError),
            _ => {
                self.session = SessionState::AwaitingCounterpartMessage(secret);
                Ok(public)
            },
        }
    }

    /// Draws a fresh ephemeral KEM key pair, retains the secret half and
    /// returns the public half.
    ///
    /// An established session refuses with `ProtocolStateError`, and a KEM
    /// that cannot generate a key pair is a `KemFailure`; both leave the
    /// session as it was. Otherwise the session awaits the second message.
    fn generate_kyber_keys(&mut self) -> (r: Result<KemPublicKey, HandshakeError>)
        ensures
            final(self).signing_key() == old(self).signing_key(),
            match r {
                Ok(_) => {
                    &&& !(old(self).session() is Established)
                    &&& final(self).session() is AwaitingCounterpartMessage
                },
                Err(e) => {
                    &&& final(self).session() == old(self).session()
                    &&& e == if old(self).session() is Established {
                        HandshakeError::ProtocolStateError
                    } else {
                        HandshakeError::KemFailure
                    }
                },
            },
    {
        match self.session {
            SessionState::Established(_) => Err(HandshakeError::ProtocolStateError),
            _ => match kem_keypair() {
                Ok((public, secret)) => self.retain_kyber_keys(public, secret),
                Err(_) => Err(HandshakeError::KemFailure),
            },
        }
    }

    /// Opens a handshake: draws a fresh ephemeral KEM key pair, retains the
    /// secret half and returns the public half with the signature over its
    /// bytes, which together are the first message.
    ///
    /// An established session refuses with `ProtocolStateError`, and a KEM
    /// that cannot generate a key pair is a `KemFailure`; both leave the
    /// session as it was. Otherwise the call succeeds and the session awaits
    /// the second message.
    pub fn generate_pk_and_sig(&mut self) -> (r: Result<(KemPublicKey, Signature), HandshakeError>)
        ensures
            final(self).signing_key() == old(self).signing_key(),
            match r {
                Ok((public, signature)) => {
                    &&& !(old(self).session() is Established)
                    &&& final(self).session() is AwaitingCounterpartMessage
                    &&& signature@ == dilithium_signature(old(self).signing_key(), public@)
                },
                Err(e) => {
                    &&& final(self).session() == old(self).session()
                    &&& e == if old(self).session() is Established {
                        HandshakeError::ProtocolStateError
                    } else {
                        HandshakeError::KemFailure
                    }
                },
            },
    {
        match self.generate_kyber_keys() {
            Ok(public) => match self.sign(public.as_slice()) {
                Ok(signature) => Ok((public, signature)),
                Err(e) => Err(e),
            },
            Err(e) => Err(e),
        }
    }

    /// Handles the second handshake message.
    ///
    /// Only a session that awaits it takes it; any other refuses with
    /// `ProtocolStateError` and stays as it is. A ciphertext of any length
    /// but 1088 bytes is a `DecapsulationFailure`, which ends the attempt.
    /// Any other ciphertext establishes the session with the secret that
    /// decapsulation yields. In both cases the ephemeral secret key is gone.
    pub fn accept_ciphertext(&mut self, ciphertext: &[u8]) -> (r: Result<(), HandshakeError>)
        ensures
            final(self).signing_key() == old(self).signing_key(),
            (final(self).session(), r) == responder_accepts(old(self).session(), ciphertext@),
            old(self).session() is AwaitingCounterpartMessage ==> (r is Ok <==> ciphertext@.len()
                == 1088),
    {
        match &self.session {
            SessionState::AwaitingCounterpartMessage(key) => match kem_decapsulate(ciphertext, key) {
                Ok(secret) => {
                    self.session = SessionState::Established(secret);
                    Ok(())
                },
                Err(_) => {
                    self.session = SessionState::Uninitialized;
                    Err(HandshakeError::DecapsulationFailure)
                },
            },
            _ => Err(HandshakeError::ProtocolStateError),
        }
    }

    /// Gives up a handshake whose second message will not come: the retained
    /// ephemeral secret key is dropped. Any other session stays as it is.
    pub fn abandon(&mut self)
        ensures
            final(self).signing_key() == old(self).signing_key(),
            final(self).session() == responder_abandons(old(self).session()),
    {
        match self.session {
            SessionState::AwaitingCounterpartMessage(_) => {
                self.session = SessionState::Uninitialized;
            },
            _ => {},
        }
    }

    /// Seals `plaintext` for the initiator. Before the session is established
    /// this is a `MissingSessionSecret`.
    pub fn encrypt_message(&self, plaintext: &[u8]) -> (r: Result<(Nonce, Vec<u8>), HandshakeError>)
        ensures
            match session_secret(self.session()) {
                Some(secret) => seals(r, secret, plaintext@),
                None => r == Err::<(Nonce, Vec<u8>), HandshakeError>(
                    HandshakeError::MissingSessionSecret,
                ),
            },
    {
        match &self.session {
            SessionState::Established(secret) => encrypt_message(plaintext, secret),
            _ => Err(HandshakeError::MissingSessionSecret),
        }
    }

    /// Opens a message of the initiator. Before the session is established
    /// this is a `MissingSessionSecret`.
    pub fn decrypt_message(&self, ciphertext: &[u8], nonce: Nonce) -> (r: Result<
        Vec<u8>,
        HandshakeError,
    >)
        ensures
            opened_view(r) == match session_secret(self.session()) {
                Some(secret) => opening_outcome(secret, nonce@, ciphertext@),
                None => Err(HandshakeError::MissingSessionSecret),
            },
    {
        match &self.session {
            SessionState::Established(secret) => decrypt_message(ciphertext, nonce, secret),
            _ => Err(HandshakeError::MissingSessionSecret),
        }
    }
}

} // verus!
