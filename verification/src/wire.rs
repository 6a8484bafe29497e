//! The byte forms in which the handshake and the channel go over a
//! transport: the first message is the KEM public key followed by the
//! signature, and a channel frame is the nonce followed by the ciphertext.
//! The second message is the KEM ciphertext as it is.

use vstd::prelude::*;
use vstd::slice::{slice_subrange, slice_to_vec};
use crate::shared::{array_from_slice, HandshakeError, KemPublicKey, Nonce, Signature};

verus! {

/// The length of the first handshake message.
pub const MESSAGE1_BYTES: usize = 5779;

/// The first message that carries `public` and `signature`.
pub open spec fn message1_bytes(public: Seq<u8>, signature: Seq<u8>) -> Seq<u8> {
    public + signature
}

/// The public key and the signature that `bytes` carry as a first message. A
/// message of any other length than 5779 bytes carries nothing that could
/// be authenticated.
pub open spec fn message1_parts(bytes: Seq<u8>) -> Result<(Seq<u8>, Seq<u8>), HandshakeError> {
    if bytes.len() == 5779 {
        Ok((bytes.subrange(0, 1184), bytes.subrange(1184, 5779)))
    } else {
        Err(HandshakeError::AuthenticationFailure)
    }
}

/// The channel frame that carries `ciphertext` with its `nonce`.
pub open spec fn frame_bytes(nonce: Seq<u8>, ciphertext: Seq<u8>) -> Seq<u8> {
    nonce + ciphertext
}

/// The nonce and the ciphertext that `bytes` carry as a channel frame. A
/// frame too short to hold a nonce cannot be opened.
pub open spec fn frame_parts(bytes: Seq<u8>) -> Result<(Seq<u8>, Seq<u8>), HandshakeError> {
    if bytes.len() >= 12 {
        Ok((bytes.subrange(0, 12), bytes.subrange(12, bytes.len() as int)))
    } else {
        Err(HandshakeError::ChannelDecryptionFailure)
    }
}

/// A decoded first message, with its parts as byte sequences.
pub open spec fn message1_view(r: Result<(KemPublicKey, Signature), HandshakeError>) -> Result<
    (Seq<u8>, Seq<u8>),
    HandshakeError,
> {
    match r {
        Ok((public, signature)) => Ok((public@, signature@)),
        Err(e) => Err(e),
    }
}

/// A first message that was encoded from a public key and a signature
/// decodes to the two of them.
pub proof fn lemma_message1_round_trip(public: Seq<u8>, signature: Seq<u8>)
    requires
        public.len() == 1184,
        signature.len() == 4595,
    ensures
        message1_parts(message1_bytes(public, signature)) == Ok::<
            (Seq<u8>, Seq<u8>),
            HandshakeError,
        >((public, signature)),
{
    let bytes = message1_bytes(public, signature);
    assert(bytes.subrange(0, 1184) =~= public);
    assert(bytes.subrange(1184, 5779) =~= signature);
}

/// A frame that was encoded from a nonce and a ciphertext decodes to the two
/// of them.
pub proof fn lemma_frame_round_trip(nonce: Seq<u8>, ciphertext: Seq<u8>)
    requires
        nonce.len() == 12,
    ensures
        frame_parts(frame_bytes(nonce, ciphertext)) == Ok::<(Seq<u8>, Seq<u8>), HandshakeError>(
            (nonce, ciphertext),
        ),
{
    let bytes = frame_bytes(nonce, ciphertext);
    assert(bytes.subrange(0, 12) =~= nonce);
    assert(bytes.subrange(12, bytes.len() as int) =~= ciphertext);
}

/// Nothing is lost in a frame or a first message: what decodes is what was
/// encoded from its parts.
pub proof fn lemma_parts_make_the_whole(bytes: Seq<u8>)
    ensures
        message1_parts(bytes) matches Ok((public, signature)) ==> message1_bytes(public, signature)
            == bytes,
        frame_parts(bytes) matches Ok((nonce, ciphertext)) ==> frame_bytes(nonce, ciphertext)
            == bytes,
{
    if bytes.len() == 5779 {
        assert(bytes.subrange(0, 1184) + bytes.subrange(1184, 5779) =~= bytes);
    }
    if bytes.len() >= 12 {
        assert(bytes.subrange(0, 12) + bytes.subrange(12, bytes.len() as int) =~= bytes);
    }
}

fn append(out: &mut Vec<u8>, bytes: &[u8])
    ensures
        final(out)@ == old(out)@ + bytes@,
{
    let ghost before = out@;
    let mut i: usize = 0;
    while i < bytes.len()
        invariant
            i <= bytes.len(),
            out@ == before + bytes@.subrange(0, i as int),
        decreases bytes.len() - i,
    {
        out.push(bytes[i]);
        i += 1;
        assert(out@ =~= before + bytes@.subrange(0, i as int));
    }
    assert(bytes@.subrange(0, bytes@.len() as int) =~= bytes@);
}

/// The first handshake message: the KEM public key, then the signature.
pub fn encode_message1(public: &KemPublicKey, signature: &Signature) -> (out: Vec<u8>)
    ensures
        out@ == message1_bytes(public@, signature@),
{
    let mut out = slice_to_vec(public.as_slice());
    append(&mut out, signature.as_slice());
    out
}

/// Takes a first handshake message apart. A message of any other length than
/// 5779 bytes is an `AuthenticationFailure`.
pub fn decode_message1(bytes: &[u8]) -> (r: Result<(KemPublicKey, Signature), HandshakeError>)
    ensures
        message1_view(r) == message1_parts(bytes@),
{
    if bytes.len() != MESSAGE1_BYTES {
        return Err(HandshakeError::AuthenticationFailure);
    }
    let public: KemPublicKey = array_from_slice(slice_subrange(bytes, 0, 1184));
    let signature: Signature = array_from_slice(slice_subrange(bytes, 1184, 5779));
    Ok((public, signature))
}

/// A channel frame: the nonce, then the ciphertext with its tag.
pub fn encode_frame(nonce: &Nonce, ciphertext: &[u8]) -> (out: Vec<u8>)
    ensures
        out@ == frame_bytes(nonce@, ciphertext@),
{
    let mut out = slice_to_vec(nonce.as_slice());
    append(&mut out, ciphertext);
    out
}

/// Takes a channel frame apart. A frame of fewer than 12 bytes is a
/// `ChannelDecryptionFailure`.
pub fn decode_frame(bytes: &[u8]) -> (r: Result<(Nonce, Vec<u8>), HandshakeError>)
    ensures
        crate::shared::sealed_view(r) == frame_parts(bytes@),
{
    if bytes.len() < 12 {
        return Err(HandshakeError::ChannelDecryptionFailure);
    }
    let nonce: Nonce = array_from_slice(slice_subrange(bytes, 0, 12));
    let ciphertext = slice_to_vec(slice_subrange(bytes, 12, bytes.len()));
    Ok((nonce, ciphertext))
}

} // verus!
