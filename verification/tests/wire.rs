use kyber_playground::{
    decode_frame, decode_message1, decrypt_message, encode_frame, encode_message1,
    encrypt_message, HandshakeError,
};

#[test]
fn first_message_is_public_key_then_signature() {
    let mut pk = [0u8; 1184];
    let mut sig = [0u8; 4595];
    for i in 0..1184 {
        pk[i] = (i % 251) as u8;
    }
    for i in 0..4595 {
        sig[i] = (i % 241) as u8;
    }
    let bytes = encode_message1(&pk, &sig);
    assert_eq!(bytes.len(), 5779);
    assert_eq!(&bytes[..1184], &pk[..]);
    assert_eq!(&bytes[1184..], &sig[..]);
    let (pk2, sig2) = decode_message1(&bytes).unwrap();
    assert_eq!(pk2, pk);
    assert_eq!(sig2, sig);
}

#[test]
fn first_message_of_another_length_is_an_authentication_failure() {
    assert_eq!(decode_message1(&[]), Err(HandshakeError::AuthenticationFailure));
    assert_eq!(decode_message1(&[0u8; 5778]), Err(HandshakeError::AuthenticationFailure));
    assert_eq!(decode_message1(&[0u8; 5780]), Err(HandshakeError::AuthenticationFailure));
    assert!(decode_message1(&[0u8; 5779]).is_ok());
}

#[test]
fn frame_is_nonce_then_ciphertext() {
    let nonce = [1u8, 2, 3, 4, 5, 6, 7, 8, 9, 10, 11, 12];
    let bytes = encode_frame(&nonce, &[13, 14, 15]);
    assert_eq!(bytes, vec![1u8, 2, 3, 4, 5, 6, 7, 8, 9, 10, 11, 12, 13, 14, 15]);
    assert_eq!(decode_frame(&bytes), Ok((nonce, vec![13u8, 14, 15])));
    assert_eq!(encode_frame(&nonce, &[]), nonce.to_vec());
    assert_eq!(decode_frame(&nonce), Ok((nonce, vec![])));
}

#[test]
fn frame_shorter_than_a_nonce_is_a_decryption_failure() {
    assert_eq!(decode_frame(&[]), Err(HandshakeError::ChannelDecryptionFailure));
    assert_eq!(decode_frame(&[0u8; 11]), Err(HandshakeError::ChannelDecryptionFailure));
}

#[test]
fn sealed_message_survives_its_frame() {
    let secret = [0x11u8; 32];
    let (n, c) = encrypt_message(b"Hi!", &secret).unwrap();
    let frame = encode_frame(&n, &c);
    assert_eq!(frame.len(), 12 + 3 + 16);
    let (n2, c2) = decode_frame(&frame).unwrap();
    assert_eq!(decrypt_message(&c2, n2, &secret).unwrap(), b"Hi!".to_vec());
}
