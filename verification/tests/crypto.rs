use credential_exchange::authenticator::crypto::agility::{AeadAlg, KdfAlg, KemAlg, Suite, TAG_LEN};
use credential_exchange::authenticator::crypto::{
    aad, decrypt, encrypt, gen_key_pair, info, match_algorithm, opened_or_error, psk,
    seal_input, sealed_or_error, secrets_of,
};
use credential_exchange::authenticator::error::AuthenticatorError;
use credential_exchange::authenticator::protocol::hpke_format::HPKEMode;
use credential_exchange::authenticator::protocol::hpke_format::HPKEMode::{Auth, AuthPsk, Base, Psk};

const KEMS: [(u16, usize, usize); 4] = [(0x10, 32, 65), (0x11, 48, 97), (0x12, 66, 133), (0x20, 32, 32)];

#[test]
fn registry_resolves_every_identifier_on_its_own_axis() {
    assert_eq!(AeadAlg::try_from_u16(0x01), Some(AeadAlg::AesGcm128));
    assert_eq!(AeadAlg::try_from_u16(0x02), Some(AeadAlg::AesGcm256));
    assert_eq!(AeadAlg::try_from_u16(0x03), Some(AeadAlg::ChaCha20Poly1305));
    assert_eq!(KdfAlg::try_from_u16(0x01), Some(KdfAlg::HkdfSha256));
    assert_eq!(KdfAlg::try_from_u16(0x02), Some(KdfAlg::HkdfSha384));
    assert_eq!(KdfAlg::try_from_u16(0x03), Some(KdfAlg::HkdfSha512));
    assert_eq!(KemAlg::try_from_u16(0x10), Some(KemAlg::DhP256HkdfSha256));
    assert_eq!(KemAlg::try_from_u16(0x11), Some(KemAlg::DhP384HkdfSha384));
    assert_eq!(KemAlg::try_from_u16(0x12), Some(KemAlg::DhP521HkdfSha512));
    assert_eq!(KemAlg::try_from_u16(0x20), Some(KemAlg::X25519HkdfSha256));
}

#[test]
fn registry_knows_no_other_identifier() {
    for id in [0x00u16, 0x04, 0x0f, 0x13, 0x21, 0xff, 0xffff] {
        assert_eq!(AeadAlg::try_from_u16(id), None);
        assert_eq!(KemAlg::try_from_u16(id), None);
    }
    for id in [0x00u16, 0x04, 0x10, 0x20, 0xffff] {
        assert_eq!(KdfAlg::try_from_u16(id), None);
    }
    assert_eq!(AeadAlg::try_from_u16(0x10), None);
    assert_eq!(KemAlg::try_from_u16(0x01), None);
}

#[test]
fn registry_identifiers_go_there_and_back() {
    for id in 0..=u16::MAX {
        if let Some(alg) = AeadAlg::try_from_u16(id) {
            assert_eq!(alg.to_u16(), id);
        }
        if let Some(alg) = KdfAlg::try_from_u16(id) {
            assert_eq!(alg.to_u16(), id);
        }
        if let Some(alg) = KemAlg::try_from_u16(id) {
            assert_eq!(alg.to_u16(), id);
        }
    }
    assert_eq!(AeadAlg::ChaCha20Poly1305.to_u16(), 0x03);
    assert_eq!(KdfAlg::HkdfSha512.to_u16(), 0x03);
    assert_eq!(KemAlg::X25519HkdfSha256.to_u16(), 0x20);
    assert_eq!(KemAlg::DhP521HkdfSha512.to_u16(), 0x12);
}

#[test]
fn registry_digest_and_tag_lengths() {
    assert_eq!(KdfAlg::HkdfSha256.get_digest_len(), 32);
    assert_eq!(KdfAlg::HkdfSha384.get_digest_len(), 48);
    assert_eq!(KdfAlg::HkdfSha512.get_digest_len(), 64);
    assert_eq!(TAG_LEN, 16);
}

#[test]
fn suite_resolution_needs_all_three_identifiers() {
    let suite = match_algorithm(0x11, 0x02, 0x03).unwrap();
    assert_eq!(
        suite,
        Suite {
            aead: AeadAlg::ChaCha20Poly1305,
            kdf: KdfAlg::HkdfSha384,
            kem: KemAlg::DhP384HkdfSha384
        }
    );
    assert!(matches!(match_algorithm(0xffff, 0x01, 0x01), Err(AuthenticatorError::UnsupportedAlgorithm)));
    assert!(matches!(match_algorithm(0x10, 0x04, 0x01), Err(AuthenticatorError::UnsupportedAlgorithm)));
    assert!(matches!(match_algorithm(0x10, 0x01, 0x00), Err(AuthenticatorError::UnsupportedAlgorithm)));
    assert!(matches!(match_algorithm(0x01, 0x10, 0x01), Err(AuthenticatorError::UnsupportedAlgorithm)));
}

#[test]
fn unregistered_mechanism_gets_no_key_pair() {
    assert!(matches!(gen_key_pair(0xffff), Err(AuthenticatorError::UnsupportedAlgorithm)));
    assert!(matches!(gen_key_pair(0x21), Err(AuthenticatorError::UnsupportedAlgorithm)));
    assert!(matches!(gen_key_pair(0x01), Err(AuthenticatorError::UnsupportedAlgorithm)));
}

#[test]
fn key_pairs_have_the_lengths_of_their_mechanism() {
    for (kem, sk_len, pk_len) in KEMS {
        let (sk, pk) = gen_key_pair(kem).unwrap();
        assert_eq!(sk.len(), sk_len);
        assert_eq!(pk.len(), pk_len);
    }
}

#[test]
fn key_pairs_are_fresh_on_every_call() {
    for (kem, _, _) in KEMS {
        let first = gen_key_pair(kem).unwrap();
        let second = gen_key_pair(kem).unwrap();
        assert_ne!(first.0, second.0);
        assert_ne!(first.1, second.1);
    }
}

#[test]
fn fixed_strings_of_the_exchange() {
    assert_eq!(&info()[..], b"information");
    assert_eq!(&aad()[..], b"information aad");
    for (kdf, len) in [(KdfAlg::HkdfSha256, 32), (KdfAlg::HkdfSha384, 48), (KdfAlg::HkdfSha512, 64)] {
        let bundle = psk(kdf);
        assert_eq!(bundle.psk, vec![0u8; len]);
        assert_eq!(&bundle.psk_id[..], b"preshared key attempt #5, take 2. action");
        assert_eq!(bundle.psk_id.len(), 40);
    }
}

#[test]
fn encryption_round_trip_in_every_mode_and_mechanism() {
    let data = b"a credential, compressed or not";
    for (kem, _, pk_len) in KEMS {
        let recipient = gen_key_pair(kem).unwrap();
        let sender = gen_key_pair(kem).unwrap();
        for mode in [Base, Psk, Auth, AuthPsk] {
            let (cipher, enc) = encrypt(kem, 0x01, 0x02, data, &recipient.1, &mode, &sender).unwrap();
            assert_eq!(cipher.len(), data.len() + 16);
            assert_eq!(enc.len(), pk_len);
            assert_ne!(&cipher[..data.len()], &data[..]);
            let plain = decrypt(
                kem,
                0x01,
                0x02,
                &cipher,
                &recipient.0,
                &recipient.1,
                &enc,
                &mode,
                &Some(sender.1.clone()),
            )
            .unwrap();
            assert_eq!(plain, data.to_vec());
        }
    }
}

#[test]
fn encryption_of_nothing_is_one_tag() {
    let recipient = gen_key_pair(0x20).unwrap();
    let nobody = (vec![], vec![]);
    let (cipher, enc) = encrypt(0x20, 0x01, 0x01, &[], &recipient.1, &Base, &nobody).unwrap();
    assert_eq!(cipher.len(), 16);
    let plain = decrypt(0x20, 0x01, 0x01, &cipher, &recipient.0, &recipient.1, &enc, &Base, &None).unwrap();
    assert_eq!(plain, Vec::<u8>::new());
}

#[test]
fn encryption_draws_fresh_randomness() {
    let recipient = gen_key_pair(0x20).unwrap();
    let nobody = (vec![], vec![]);
    let first = encrypt(0x20, 0x01, 0x01, b"same", &recipient.1, &Base, &nobody).unwrap();
    let second = encrypt(0x20, 0x01, 0x01, b"same", &recipient.1, &Base, &nobody).unwrap();
    assert_ne!(first.1, second.1);
    assert_ne!(first.0, second.0);
}

#[test]
fn unauthenticated_modes_ignore_the_sender_keys() {
    let recipient = gen_key_pair(0x10).unwrap();
    let garbage = (vec![1, 2, 3], vec![4, 5]);
    for mode in [Base, Psk] {
        let (cipher, enc) = encrypt(0x10, 0x03, 0x03, b"data", &recipient.1, &mode, &garbage).unwrap();
        let with_key = decrypt(
            0x10, 0x03, 0x03, &cipher, &recipient.0, &recipient.1, &enc, &mode,
            &Some(vec![9, 9, 9]),
        );
        assert_eq!(with_key.unwrap(), b"data".to_vec());
        let without = decrypt(0x10, 0x03, 0x03, &cipher, &recipient.0, &recipient.1, &enc, &mode, &None);
        assert_eq!(without.unwrap(), b"data".to_vec());
    }
}

#[test]
fn unregistered_identifiers_are_refused_before_anything_else() {
    let recipient = gen_key_pair(0x20).unwrap();
    let nobody = (vec![], vec![]);
    for (kem, kdf, aead) in [(0xffffu16, 1u16, 1u16), (0x20, 0xffff, 1), (0x20, 1, 0xffff), (0x21, 1, 1)] {
        let sealed = encrypt(kem, kdf, aead, b"data", &recipient.1, &Base, &nobody);
        assert!(matches!(sealed, Err(AuthenticatorError::UnsupportedAlgorithm)));
        let opened = decrypt(kem, kdf, aead, &[0u8; 32], &recipient.0, &recipient.1, &[0u8; 32], &Auth, &None);
        assert!(matches!(opened, Err(AuthenticatorError::UnsupportedAlgorithm)));
    }
}

#[test]
fn malformed_keys_fail_the_encryption() {
    let recipient = gen_key_pair(0x10).unwrap();
    let sender = gen_key_pair(0x10).unwrap();
    let short = encrypt(0x10, 0x01, 0x01, b"data", &recipient.1[..64], &Base, &sender);
    match short {
        Err(AuthenticatorError::CryptoError(detail)) => assert_eq!(detail, "encryption failed"),
        other => panic!("unexpected outcome: {:?}", other),
    }
    let not_a_point = encrypt(0x10, 0x01, 0x01, b"data", &[4u8; 65], &Base, &sender);
    assert!(matches!(not_a_point, Err(AuthenticatorError::CryptoError(_))));
    let bad_sender = (sender.0.clone(), vec![0u8; 65]);
    let unauthenticated = encrypt(0x10, 0x01, 0x01, b"data", &recipient.1, &Auth, &bad_sender);
    assert!(matches!(unauthenticated, Err(AuthenticatorError::CryptoError(_))));
    let other_curve = gen_key_pair(0x20).unwrap();
    let mismatch = encrypt(0x10, 0x01, 0x01, b"data", &recipient.1, &AuthPsk, &other_curve);
    assert!(matches!(mismatch, Err(AuthenticatorError::CryptoError(_))));
}

/// Checks that decryption fails with the one cryptographic failure.
fn assert_fails_to_open(outcome: Result<Vec<u8>, AuthenticatorError>) {
    match outcome {
        Err(AuthenticatorError::CryptoError(detail)) => assert_eq!(detail, "decryption failed"),
        other => panic!("unexpected outcome: {:?}", other),
    }
}

/// Flips every byte of the ciphertext, tag included, and of the encapsulated
/// key, one at a time, and checks that decryption fails each time.
fn tamper_everywhere(kem: u16, kdf: u16, aead: u16, mode: HPKEMode) {
    let data = b"sixteen byte msg and a little more";
    let recipient = gen_key_pair(kem).unwrap();
    let sender = gen_key_pair(kem).unwrap();
    let pke = Some(sender.1.clone());
    let (cipher, enc) = encrypt(kem, kdf, aead, data, &recipient.1, &mode, &sender).unwrap();
    let intact = decrypt(kem, kdf, aead, &cipher, &recipient.0, &recipient.1, &enc, &mode, &pke);
    assert_eq!(intact.unwrap(), data.to_vec());

    for flip in [0x01u8, 0x80, 0xff] {
        for i in 0..cipher.len() {
            let mut tampered = cipher.clone();
            tampered[i] ^= flip;
            assert_fails_to_open(decrypt(
                kem, kdf, aead, &tampered, &recipient.0, &recipient.1, &enc, &mode, &pke,
            ));
        }
        for i in 0..enc.len() {
            let mut tampered = enc.clone();
            tampered[i] ^= flip;
            assert_fails_to_open(decrypt(
                kem, kdf, aead, &cipher, &recipient.0, &recipient.1, &tampered, &mode, &pke,
            ));
        }
    }
}

#[test]
fn tampering_is_detected_x25519() {
    tamper_everywhere(0x20, 0x01, 0x01, Base);
    tamper_everywhere(0x20, 0x02, 0x03, AuthPsk);
}

#[test]
fn tampering_is_detected_p256() {
    tamper_everywhere(0x10, 0x01, 0x02, Auth);
}

#[test]
fn tampering_is_detected_p384() {
    tamper_everywhere(0x11, 0x02, 0x02, Psk);
}

#[test]
fn tampering_is_detected_p521() {
    tamper_everywhere(0x12, 0x03, 0x03, Base);
}

#[test]
fn truncated_input_fails_to_decrypt() {
    let recipient = gen_key_pair(0x20).unwrap();
    let nobody = (vec![], vec![]);
    let (cipher, enc) = encrypt(0x20, 0x01, 0x01, b"data", &recipient.1, &Base, &nobody).unwrap();
    for len in [0, 1, 15, 16, cipher.len() - 1] {
        assert_fails_to_open(decrypt(
            0x20, 0x01, 0x01, &cipher[..len], &recipient.0, &recipient.1, &enc, &Base, &None,
        ));
    }
    assert_fails_to_open(decrypt(
        0x20, 0x01, 0x01, &cipher, &recipient.0, &recipient.1, &enc[..31], &Base, &None,
    ));
    assert_fails_to_open(decrypt(
        0x20, 0x01, 0x01, &cipher, &recipient.0[..31], &recipient.1, &enc, &Base, &None,
    ));
    assert_fails_to_open(decrypt(
        0x20, 0x01, 0x01, &cipher, &recipient.0, &recipient.1[..31], &enc, &Base, &None,
    ));
}

#[test]
fn wrong_secrets_fail_to_decrypt() {
    let recipient = gen_key_pair(0x20).unwrap();
    let sender = gen_key_pair(0x20).unwrap();
    let stranger = gen_key_pair(0x20).unwrap();
    let pke = Some(sender.1.clone());
    let (cipher, enc) = encrypt(0x20, 0x01, 0x01, b"data", &recipient.1, &Auth, &sender).unwrap();

    assert_fails_to_open(decrypt(
        0x20, 0x01, 0x01, &cipher, &stranger.0, &stranger.1, &enc, &Auth, &pke,
    ));
    assert_fails_to_open(decrypt(
        0x20, 0x01, 0x01, &cipher, &recipient.0, &recipient.1, &enc, &Auth,
        &Some(stranger.1.clone()),
    ));
    assert_fails_to_open(decrypt(
        0x20, 0x01, 0x01, &cipher, &recipient.0, &recipient.1, &enc, &Auth, &None,
    ));
    assert_fails_to_open(decrypt(
        0x20, 0x01, 0x01, &cipher, &recipient.0, &recipient.1, &enc, &AuthPsk, &None,
    ));
    for mode in [Base, Psk, AuthPsk] {
        assert_fails_to_open(decrypt(
            0x20, 0x01, 0x01, &cipher, &recipient.0, &recipient.1, &enc, &mode, &pke,
        ));
    }
    assert_fails_to_open(decrypt(
        0x20, 0x02, 0x01, &cipher, &recipient.0, &recipient.1, &enc, &Auth, &pke,
    ));
    assert_fails_to_open(decrypt(
        0x20, 0x01, 0x02, &cipher, &recipient.0, &recipient.1, &enc, &Auth, &pke,
    ));
}

#[test]
fn outcomes_of_sealing_and_opening_become_results() {
    let sealed = sealed_or_error(Some((vec![1, 2], vec![3]))).unwrap();
    assert_eq!(sealed, (vec![1, 2], vec![3]));
    match sealed_or_error(None) {
        Err(AuthenticatorError::CryptoError(detail)) => assert_eq!(detail, "encryption failed"),
        other => panic!("unexpected outcome: {:?}", other),
    }
    assert_eq!(opened_or_error(Some(vec![7, 8])).unwrap(), vec![7, 8]);
    assert_fails_to_open(opened_or_error(None));
}

#[test]
fn modes_say_whether_the_sender_is_authenticated() {
    assert!(!Base.is_authenticated());
    assert!(!Psk.is_authenticated());
    assert!(Auth.is_authenticated());
    assert!(AuthPsk.is_authenticated());
}

#[test]
fn modes_bring_in_their_secrets_and_no_others() {
    let key_pair = (vec![1u8, 2, 3], vec![4u8, 5]);
    for kdf in [KdfAlg::HkdfSha256, KdfAlg::HkdfSha384, KdfAlg::HkdfSha512] {
        let base = secrets_of(Base, kdf, &key_pair);
        assert!(base.sender.is_none());
        assert!(base.bundle.is_none());

        let preshared = secrets_of(Psk, kdf, &key_pair);
        assert!(preshared.sender.is_none());
        let bundle = preshared.bundle.expect("bundle");
        assert_eq!(bundle.psk, vec![0u8; kdf.get_digest_len()]);
        assert_eq!(&bundle.psk_id[..], b"preshared key attempt #5, take 2. action");

        let authenticated = secrets_of(Auth, kdf, &key_pair);
        assert_eq!(authenticated.sender, Some(&key_pair));
        assert!(authenticated.bundle.is_none());

        let both = secrets_of(AuthPsk, kdf, &key_pair);
        assert_eq!(both.sender, Some(&key_pair));
        let bundle = both.bundle.expect("bundle");
        assert_eq!(bundle.psk, vec![0u8; kdf.get_digest_len()]);
        assert_eq!(&bundle.psk_id[..], b"preshared key attempt #5, take 2. action");
    }
}

#[test]
fn sealing_input_holds_what_it_is_given_and_the_fixed_strings() {
    let suite = Suite {
        aead: AeadAlg::AesGcm256,
        kdf: KdfAlg::HkdfSha384,
        kem: KemAlg::DhP521HkdfSha512,
    };
    let key_pair = (vec![1u8, 2, 3], vec![4u8, 5]);
    let input = seal_input(suite, AuthPsk, &key_pair, b"recipient", b"data");
    assert_eq!(input.suite, suite);
    assert_eq!(input.pk_recip, b"recipient");
    assert_eq!(input.plaintext, b"data");
    assert_eq!(&input.info[..], b"information");
    assert_eq!(&input.aad[..], b"information aad");
    assert_eq!(input.secrets.sender, Some(&key_pair));
    assert_eq!(input.secrets.bundle.expect("bundle").psk, vec![0u8; 48]);

    let plain = seal_input(suite, Base, &key_pair, b"", b"");
    assert!(plain.secrets.sender.is_none());
    assert!(plain.secrets.bundle.is_none());
    assert_eq!(plain.pk_recip, b"");
    assert_eq!(plain.plaintext, b"");
    assert_eq!(&plain.info[..], b"information");
    assert_eq!(&plain.aad[..], b"information aad");
}

#[test]
fn pre_shared_key_takes_part_in_its_modes() {
    // What is sealed with the pre-shared key opens only with it, and what is
    // sealed without it opens only without it.
    let recipient = gen_key_pair(0x20).unwrap();
    let sender = gen_key_pair(0x20).unwrap();
    let pke = Some(sender.1.clone());
    for (sealed_in, opens_in, fails_in) in [(Base, Base, Psk), (Psk, Psk, Base), (Auth, Auth, AuthPsk), (AuthPsk, AuthPsk, Auth)] {
        let (cipher, enc) = encrypt(0x20, 0x02, 0x01, b"data", &recipient.1, &sealed_in, &sender).unwrap();
        let opened = decrypt(0x20, 0x02, 0x01, &cipher, &recipient.0, &recipient.1, &enc, &opens_in, &pke);
        assert_eq!(opened.unwrap(), b"data".to_vec());
        assert_fails_to_open(decrypt(
            0x20, 0x02, 0x01, &cipher, &recipient.0, &recipient.1, &enc, &fails_in, &pke,
        ));
    }
}
