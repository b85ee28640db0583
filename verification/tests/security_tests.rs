use wifi_prov::security::{
    key_vec, proof_vec, xor_apply, ProtocommSecurity, Sec0, Sec1, SecuritySession,
};

fn pop_session(pop: &str) -> SecuritySession {
    SecuritySession::new(ProtocommSecurity::Sec1(Sec1 {
        pop: Some(pop.to_string()),
    }))
}

#[test]
fn open_variant_is_established_and_identity() {
    let s = SecuritySession::new(ProtocommSecurity::Sec0(Sec0));
    assert!(s.established());
    let mut data = vec![1u8, 2, 3];
    assert!(s.decrypt(&mut data));
    assert_eq!(data, vec![1u8, 2, 3]);
    let mut data2 = vec![9u8, 8];
    assert!(s.encrypt(&mut data2));
    assert_eq!(data2, vec![9u8, 8]);
}

#[test]
fn open_variant_handshake_acks_empty() {
    let mut s = SecuritySession::new(ProtocommSecurity::Sec0(Sec0));
    let r = s.security_handler("prov-session", vec![1, 2, 3]);
    assert!(r.is_empty());
}

#[test]
fn authenticated_handshake_establishes() {
    let mut s = pop_session("abc123");
    assert!(!s.established());
    let client_share = vec![1u8, 2, 3, 4];
    let server_share = s.security_handler("prov-session", client_share.clone());
    assert_eq!(server_share.len(), 32);
    assert!(!s.established());
    let pop_bytes = b"abc123".to_vec();
    let proof = proof_vec(&client_share, &server_share, &pop_bytes);
    let confirm = s.security_handler("prov-session", proof);
    assert_eq!(confirm, vec![1u8]);
    assert!(s.established());
}

#[test]
fn wrong_proof_resets_session() {
    let mut s = pop_session("abc123");
    let client_share = vec![7u8; 16];
    let _server_share = s.security_handler("prov-session", client_share);
    let confirm = s.security_handler("prov-session", vec![0u8; 32]);
    assert_eq!(confirm, vec![0u8]);
    assert!(!s.established());
}

#[test]
fn round_trip_encrypt_decrypt() {
    let mut s = pop_session("secret");
    let client_share = vec![10u8, 20, 30];
    let server_share = s.security_handler("prov-session", client_share.clone());
    let pop_bytes = b"secret".to_vec();
    let proof = proof_vec(&client_share, &server_share, &pop_bytes);
    s.security_handler("prov-session", proof);
    assert!(s.established());

    let plain = vec![0u8, 1, 2, 3, 250, 251, 252, 253, 254, 255];
    let mut buf = plain.clone();
    assert!(s.encrypt(&mut buf));
    assert_ne!(buf, plain);
    assert!(s.decrypt(&mut buf));
    assert_eq!(buf, plain);

    // The other direction: decrypt first, then encrypt.
    let mut buf2 = plain.clone();
    assert!(s.decrypt(&mut buf2));
    assert!(s.encrypt(&mut buf2));
    assert_eq!(buf2, plain);
}

#[test]
fn client_side_key_matches_session() {
    let mut s = pop_session("pw");
    let client_share = vec![5u8, 6, 7, 8, 9];
    let server_share = s.security_handler("prov-session", client_share.clone());
    let pop_bytes = b"pw".to_vec();
    let proof = proof_vec(&client_share, &server_share, &pop_bytes);
    s.security_handler("prov-session", proof);

    let key = key_vec(&client_share, &server_share, &pop_bytes);
    let plain = b"hello world".to_vec();
    let mut ct = plain.clone();
    assert!(s.encrypt(&mut ct));
    let decoded = xor_apply(&ct, &key);
    assert_eq!(decoded, plain);
}
