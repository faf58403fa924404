use ptls::payload::{max_payload_size, Header, Payload, PtlsPayload, PtlsPayloadType};
use ptls::sub_protocol::alert::{alert_flags, read_alert_flags};
use ptls::sub_protocol::handshake::{
    ClientHello, EncryptedClientHello, Finished, HandshakeContentType, HandshakeError, ServerHello,
};
use ptls::sub_protocol::{Alert, ContentType};
use ptls::io_wrapper::IoWrapperError;

#[test]
fn error_from() {
    let io_error = std::io::Error::last_os_error();
    let _tunnel_erorr = IoWrapperError::from(io_error);
}

#[test]
fn alert_equality() {
    assert_eq!(Alert::InvalidRandom, Alert::InvalidRandom);
    assert_eq!(
        Alert::InappropriateMessage {
            expected_types: vec![ContentType::Handshake],
            got: ContentType::ApplicationData
        },
        Alert::InappropriateMessage {
            expected_types: vec![ContentType::Handshake],
            got: ContentType::ApplicationData
        },
    );
    assert_eq!(
        Alert::HandshakeError(HandshakeError::InvalidRandom),
        Alert::HandshakeError(HandshakeError::InvalidRandom)
    );
}

#[test]
fn client_hello_round_trip() {
    let message = ClientHello {
        public_key: vec![1, 2, 3, 4],
        signature_hf: 1,
        padding_hf: 2,
    };
    let bytes = message.serialize();
    let decoded = ClientHello::deserialize(&bytes).unwrap();
    assert_eq!(decoded.public_key, vec![1, 2, 3, 4]);
    assert_eq!(decoded.signature_hf, 1);
    assert_eq!(decoded.padding_hf, 2);
}

#[test]
fn client_hello_exact_bytes() {
    let message = ClientHello {
        public_key: vec![0xAB, 0xCD],
        signature_hf: 1,
        padding_hf: 3,
    };
    assert_eq!(
        message.serialize(),
        vec![2, 0, 0, 0, 0, 0, 0, 0, 0xAB, 0xCD, 1, 3]
    );
}

#[test]
fn client_hello_truncated() {
    let message = ClientHello {
        public_key: vec![1, 2, 3, 4],
        signature_hf: 1,
        padding_hf: 2,
    };
    let bytes = message.serialize();
    assert!(ClientHello::deserialize(&bytes[..bytes.len() - 1]).is_none());
}

#[test]
fn encrypted_client_hello_round_trip() {
    let message = EncryptedClientHello {
        public_key: vec![9; 40],
        signature_hf: 0,
        padding_hf: 1,
        random: vec![1, 2, 3, 4, 5, 6, 7, 8],
        random_signature: vec![0xFE; 64],
    };
    let bytes = message.serialize();
    let decoded = EncryptedClientHello::deserialize(&bytes).unwrap();
    assert_eq!(decoded.public_key, vec![9; 40]);
    assert_eq!(decoded.signature_hf, 0);
    assert_eq!(decoded.padding_hf, 1);
    assert_eq!(decoded.random, vec![1, 2, 3, 4, 5, 6, 7, 8]);
    assert_eq!(decoded.random_signature, vec![0xFE; 64]);
}

#[test]
fn server_hello_round_trip() {
    let message = ServerHello {
        public_key: vec![7; 20],
        expires_at: -12345,
        signature_hf: 3,
        padding_hf: 2,
        trusted_authority_id: 0xDEADBEEF,
        signature: vec![5; 16],
    };
    let bytes = message.serialize();
    let decoded = ServerHello::deserialize(&bytes).unwrap();
    assert_eq!(decoded.public_key, vec![7; 20]);
    assert_eq!(decoded.expires_at, -12345);
    assert_eq!(decoded.signature_hf, 3);
    assert_eq!(decoded.padding_hf, 2);
    assert_eq!(decoded.trusted_authority_id, 0xDEADBEEF);
    assert_eq!(decoded.signature, vec![5; 16]);
}

#[test]
fn finished_round_trip() {
    let message = Finished {
        random: vec![8; 8],
        random_signature: vec![1, 2, 3],
    };
    let bytes = message.serialize();
    let decoded = Finished::deserialize(&bytes).unwrap();
    assert_eq!(decoded.random, vec![8; 8]);
    assert_eq!(decoded.random_signature, vec![1, 2, 3]);
}

#[test]
fn handshake_content_type_ids() {
    assert_eq!(HandshakeContentType::ClientHello.id(), 0);
    assert_eq!(HandshakeContentType::EncryptedClientHello.id(), 1);
    assert_eq!(HandshakeContentType::ServerHello.id(), 2);
    assert_eq!(HandshakeContentType::Finished.id(), 3);
    assert!(matches!(
        HandshakeContentType::try_from(4),
        Err(HandshakeError::InvalidContentType)
    ));
}

#[test]
fn content_type_ids() {
    assert_eq!(ContentType::Handshake.id(), 0);
    assert_eq!(ContentType::ApplicationData.id(), 1);
    assert_eq!(ContentType::Alert.id(), 2);
    assert_eq!(ContentType::try_from(1), Some(ContentType::ApplicationData));
    assert_eq!(ContentType::try_from(3), None);
}

#[test]
fn alert_round_trip() {
    let alerts = vec![
        Alert::HandshakeError(HandshakeError::InvalidSignature),
        Alert::InvalidRandom,
        Alert::DecryptError,
        Alert::InappropriateMessage {
            expected_types: vec![ContentType::Handshake, ContentType::Alert],
            got: ContentType::ApplicationData,
        },
        Alert::KeyUpdate {
            new_public_key: vec![1, 2, 3, 4, 5],
        },
    ];
    for alert in alerts {
        let bytes = alert.serialize();
        let decoded = Alert::deserialize(&bytes).unwrap();
        assert_eq!(decoded, alert);
    }
}

#[test]
fn alert_rejects_unknown_tag() {
    assert!(Alert::deserialize(&[9]).is_none());
    assert!(Alert::deserialize(&[4, 1, 0]).is_none());
    assert!(Alert::deserialize(&[]).is_none());
}

#[test]
fn alert_flags_round_trip() {
    for &is_encrypted in &[false, true] {
        for &is_fatal in &[false, true] {
            let flags = alert_flags(is_encrypted, is_fatal);
            assert_eq!(read_alert_flags(flags), (is_encrypted, is_fatal));
        }
    }
    assert_eq!(alert_flags(true, false), 1);
    assert_eq!(alert_flags(false, true), 2);
}

#[test]
fn max_payload_size_values() {
    // A 64-byte block: 1023 blocks of 53 payload bytes, less the header.
    assert_eq!(max_payload_size(64), 53 * 1023 - 5);
    assert_eq!(max_payload_size(128), 117 * 511 - 5);
}

#[test]
fn ptls_payload_new() {
    let payload = PtlsPayload::new(vec![1, 2, 3], PtlsPayloadType::EncryptedTraffic);
    assert_eq!(payload.version, 0);
    assert_eq!(payload.length, 3);
    assert_eq!(payload.payload, vec![1, 2, 3]);
    assert!(matches!(payload.content_type, PtlsPayloadType::EncryptedTraffic));
}

#[test]
fn ptls_payload_type_ids() {
    assert_eq!(PtlsPayloadType::try_from(0), Some(PtlsPayloadType::PublicKey));
    assert_eq!(
        PtlsPayloadType::try_from(1),
        Some(PtlsPayloadType::EncryptedTraffic)
    );
    assert_eq!(PtlsPayloadType::try_from(2), None);
}

#[test]
fn payload_into_owned() {
    let bytes = [1u8, 2, 3];
    let payload = Payload {
        header: Header {
            version: 0,
            content_type: ContentType::ApplicationData,
            length: 3,
        },
        payload: &bytes,
    };
    let owned = payload.into_owned();
    assert_eq!(owned.payload, vec![1, 2, 3]);
    assert_eq!(owned.header.length, 3);
    assert_eq!(owned.header.content_type, ContentType::ApplicationData);
}
