use ptls::crypto::encryption::Decrypt;
use ptls::crypto::hash_functions::HashFunction;
use ptls::crypto::signature::Signing;
use ptls::sub_protocol::ContentType;
use ptls::tunnel::{
    Received, ServerAction, SignedPublicKey, Tunnel, TunnelError, TunnelState,
};
use rsa::{RsaPrivateKey, RsaPublicKey};

fn random_private_key(bits: usize) -> RsaPrivateKey {
    RsaPrivateKey::new(&mut rand::thread_rng(), bits).unwrap()
}

// Builds a tunnel over a fresh key, with the chosen hash for both the
// padding and the signature.
fn tunnel_with(bits: usize, hash: HashFunction) -> (Tunnel, RsaPublicKey) {
    let private_key = random_private_key(bits);
    let public_key = RsaPublicKey::from(&private_key);
    let decrypt = Decrypt::try_new(&hash, private_key.clone()).unwrap();
    let signing = Signing::try_new(&hash, private_key).unwrap();
    (Tunnel::new(decrypt, signing), public_key)
}

fn tunnel_pair() -> (Tunnel, RsaPublicKey, Tunnel, RsaPublicKey) {
    let (server, server_public) = tunnel_with(512, HashFunction::Sha224);
    let (peer, peer_public) = tunnel_with(512, HashFunction::Sha224);
    (server, server_public, peer, peer_public)
}

#[test]
fn full_handshake() {
    let (mut server, server_public, mut peer, _) = tunnel_pair();

    server.set_signed_public_key(SignedPublicKey {
        public_key: server_public,
        expires_at: 0,
        trusted_authority_id: 0,
        signature: vec![],
    });

    let client_hello = peer.client_hello_record().unwrap();
    let server_hello = match server
        .server_handshake_step(ContentType::Handshake, client_hello)
        .unwrap()
    {
        ServerAction::Reply(reply) => reply,
        ServerAction::Complete => panic!("expected a ServerHello reply"),
    };
    let finished = peer
        .process_server_hello(ContentType::Handshake, server_hello)
        .unwrap();
    assert!(matches!(
        server
            .server_handshake_step(ContentType::Handshake, finished)
            .unwrap(),
        ServerAction::Complete
    ));

    assert_eq!(server.state(), TunnelState::Application);
    assert_eq!(peer.state(), TunnelState::Application);

    // Both directions round-trip application data.
    let to_server = peer.prepare_send(b"from peer").unwrap();
    match server
        .process_record(ContentType::ApplicationData, to_server)
        .unwrap()
    {
        Received::Data(data) => assert_eq!(data, b"from peer"),
        _ => panic!("expected application data"),
    }
    let to_peer = server.prepare_send(b"from server").unwrap();
    match peer
        .process_record(ContentType::ApplicationData, to_peer)
        .unwrap()
    {
        Received::Data(data) => assert_eq!(data, b"from server"),
        _ => panic!("expected application data"),
    }
}

#[test]
fn abbreviated_handshake() {
    let (mut server, server_public, mut peer, _) = tunnel_pair();

    // The client knows the server's public key a priori.
    peer.set_peer_public_key(server_public, &HashFunction::Sha224, &HashFunction::Sha224)
        .unwrap();

    let hello = peer.encrypted_client_hello_record().unwrap();
    assert!(matches!(
        server
            .server_handshake_step(ContentType::Handshake, hello)
            .unwrap(),
        ServerAction::Complete
    ));
    assert_eq!(server.state(), TunnelState::Application);
    assert_eq!(peer.state(), TunnelState::Application);

    // One ApplicationData record moves data end to end.
    let record = peer.prepare_send(b"reconnect payload").unwrap();
    match server
        .process_record(ContentType::ApplicationData, record)
        .unwrap()
    {
        Received::Data(data) => assert_eq!(data, b"reconnect payload"),
        _ => panic!("expected application data"),
    }
}

#[test]
fn fatal_on_misordered_application_data() {
    let (mut server, _, _, _) = tunnel_pair();

    let result = server.server_handshake_step(ContentType::ApplicationData, vec![1, 2, 3]);
    assert!(matches!(
        result,
        Err(TunnelError::InappropriateMessage {
            got: ContentType::ApplicationData,
            ..
        })
    ));
    assert_eq!(server.state(), TunnelState::Terminated);

    // Subsequent calls short-circuit.
    assert!(matches!(
        server.server_handshake_step(ContentType::Handshake, vec![0]),
        Err(TunnelError::SocketDied)
    ));
    assert!(matches!(
        server.prepare_send(b"late"),
        Err(TunnelError::SocketDied)
    ));
}

#[test]
fn encrypted_tunnel() {
    let (mut server, server_public, mut peer, peer_public) = tunnel_pair();

    server
        .set_peer_public_key(peer_public, &HashFunction::Sha224, &HashFunction::Sha224)
        .unwrap();
    peer.set_peer_public_key(server_public, &HashFunction::Sha224, &HashFunction::Sha224)
        .unwrap();

    let payload = vec![1, 2, 3, 4, 5];
    let encrypted = server.encrypt(&payload).unwrap();
    assert_eq!(peer.decrypt(&encrypted).unwrap(), payload);
}

#[test]
fn encrypted_recursive_tunnel() {
    let (mut tunnel, public_key) = tunnel_with(512, HashFunction::Sha224);
    tunnel
        .set_peer_public_key(public_key, &HashFunction::Sha224, &HashFunction::Sha224)
        .unwrap();

    let payload = vec![1, 2, 3, 4, 5];
    let encrypted = tunnel.encrypt(&payload).unwrap();
    assert_eq!(tunnel.decrypt(&encrypted).unwrap(), payload);
}

#[test]
fn encryption_oaep_sha256() {
    let (mut tunnel, public_key) = tunnel_with(1024, HashFunction::Sha256);
    tunnel
        .set_peer_public_key(public_key, &HashFunction::Sha256, &HashFunction::Sha256)
        .unwrap();

    let test_payload = [0, 1, 2, 3, 4, 5, 6, 7].repeat(32);
    let encrypted = tunnel.encrypt(&test_payload).unwrap();
    assert_eq!(test_payload, tunnel.decrypt(&encrypted).unwrap());
}

#[test]
#[should_panic]
fn encryption_excessive_padding() {
    let (mut tunnel, public_key) = tunnel_with(1024, HashFunction::Sha256);
    tunnel
        .set_peer_public_key(public_key, &HashFunction::Sha512, &HashFunction::Sha512)
        .unwrap();
}

#[test]
fn oaep_sha256() {
    let (mut tunnel, public_key) = tunnel_with(1024, HashFunction::Sha256);
    tunnel
        .set_peer_public_key(public_key, &HashFunction::Sha256, &HashFunction::Sha256)
        .unwrap();

    let payload = b"a message to authenticate";
    let signature = tunnel.sign(payload).unwrap();
    tunnel.verify(payload, &signature).unwrap();

    let other = tunnel.sign(b"some other message").unwrap();
    assert!(tunnel.verify(payload, &other).is_err());
}

#[test]
#[should_panic]
fn signature_excessive_padding() {
    Signing::try_new(&HashFunction::Sha512, random_private_key(512)).unwrap();
}

#[test]
fn send_before_handshake_not_ready() {
    let (mut tunnel, _) = tunnel_with(512, HashFunction::Sha224);
    assert!(matches!(
        tunnel.prepare_send(b"early"),
        Err(TunnelError::NotReady)
    ));
    assert!(matches!(
        tunnel.process_record(ContentType::ApplicationData, vec![1]),
        Err(TunnelError::NotReady)
    ));
}

#[test]
fn encrypt_without_peer_key() {
    let (tunnel, _) = tunnel_with(512, HashFunction::Sha224);
    assert!(matches!(
        tunnel.encrypt(b"data"),
        Err(TunnelError::NoPublicKey)
    ));
    assert!(matches!(
        tunnel.verify(b"data", b"signature"),
        Err(TunnelError::NoPublicKey)
    ));
}

#[test]
fn abbreviated_handshake_needs_peer_key() {
    let (mut tunnel, _) = tunnel_with(512, HashFunction::Sha224);
    assert!(matches!(
        tunnel.encrypted_client_hello_record(),
        Err(TunnelError::NoPublicKey)
    ));
    assert_eq!(tunnel.state(), TunnelState::Handshake);
}

#[test]
fn empty_send_rejected() {
    let (mut server, server_public, mut peer, _) = tunnel_pair();
    peer.set_peer_public_key(server_public, &HashFunction::Sha224, &HashFunction::Sha224)
        .unwrap();
    let hello = peer.encrypted_client_hello_record().unwrap();
    server
        .server_handshake_step(ContentType::Handshake, hello)
        .unwrap();

    assert!(matches!(
        peer.prepare_send(&[]),
        Err(TunnelError::IoWrapper(
            ptls::io_wrapper::IoWrapperError::NoPayload
        ))
    ));
    // A reportable send error leaves the tunnel usable.
    assert_eq!(peer.state(), TunnelState::Application);
}

#[test]
fn unencrypted_alert_ignored_after_handshake() {
    let (mut server, server_public, mut peer, _) = tunnel_pair();
    peer.set_peer_public_key(server_public, &HashFunction::Sha224, &HashFunction::Sha224)
        .unwrap();
    let hello = peer.encrypted_client_hello_record().unwrap();
    server
        .server_handshake_step(ContentType::Handshake, hello)
        .unwrap();

    // Flags byte 0: unencrypted, non-fatal.
    let result = server.process_record(ContentType::Alert, vec![0, 1, 2, 3]);
    assert!(matches!(result, Ok(Received::Ignored)));
    assert_eq!(server.state(), TunnelState::Application);
}

#[test]
fn handshake_record_fatal_after_handshake() {
    let (mut server, server_public, mut peer, _) = tunnel_pair();
    peer.set_peer_public_key(server_public, &HashFunction::Sha224, &HashFunction::Sha224)
        .unwrap();
    let hello = peer.encrypted_client_hello_record().unwrap();
    server
        .server_handshake_step(ContentType::Handshake, hello)
        .unwrap();

    let result = server.process_record(ContentType::Handshake, vec![0, 1]);
    assert!(matches!(
        result,
        Err(TunnelError::InappropriateMessage {
            got: ContentType::Handshake,
            ..
        })
    ));
    assert_eq!(server.state(), TunnelState::Terminated);
}

#[test]
fn finished_before_client_hello_is_fatal() {
    let (mut server, _, _, _) = tunnel_pair();
    let result = server.server_handshake_step(
        ContentType::Handshake,
        vec![3, 1, 2, 3],
    );
    assert!(result.is_err());
    assert_eq!(server.state(), TunnelState::Terminated);
}

#[test]
fn corrupted_nonce_signature_is_fatal() {
    let (mut server, server_public, mut peer, _) = tunnel_pair();
    peer.set_peer_public_key(server_public, &HashFunction::Sha224, &HashFunction::Sha224)
        .unwrap();
    let mut hello = peer.encrypted_client_hello_record().unwrap();
    // Corrupt one ciphertext byte: the server cannot decrypt the hello.
    let last = hello.len() - 1;
    hello[last] ^= 0xFF;
    let result = server.server_handshake_step(ContentType::Handshake, hello);
    assert!(result.is_err());
    assert_eq!(server.state(), TunnelState::Terminated);
}
