use credential_exchange::authenticator::error::AuthenticatorError;
use credential_exchange::authenticator::negotiation::{
    first_common_archive, first_common_hpke, lists_archive, lists_params,
};
use credential_exchange::authenticator::pin::PinInner;
use credential_exchange::authenticator::protocol::archive::ArchiveAlgorithm;
use credential_exchange::authenticator::protocol::hpke_format::HPKEMode;
use credential_exchange::authenticator::protocol::hpke_format::HPKEMode::{Auth, AuthPsk, Base, Psk};
use credential_exchange::authenticator::protocol::hpke_format::{HPKEParameters, JWKS};
use credential_exchange::authenticator::Authenticator;

fn params(mode: HPKEMode, kem: u16, kdf: u16, aead: u16, pk: &str) -> HPKEParameters {
    HPKEParameters {
        mode,
        kem,
        kdf,
        aead,
        key: JWKS { enc: None, pk: Some(pk.to_string()) },
    }
}

#[test]
fn parameters_are_equal_whatever_key_material_they_carry() {
    let a = params(Auth, 0x10, 1, 1, "first");
    let b = params(Auth, 0x10, 1, 1, "second");
    let mut c = params(Auth, 0x10, 1, 1, "first");
    c.key = JWKS { enc: Some("enc".to_string()), pk: None };
    assert!(a == b);
    assert!(a == c);
    assert!(a != params(Base, 0x10, 1, 1, "first"));
    assert!(a != params(Auth, 0x11, 1, 1, "first"));
    assert!(a != params(Auth, 0x10, 2, 1, "first"));
    assert!(a != params(Auth, 0x10, 1, 2, "first"));
}

#[test]
fn negotiation_takes_the_first_offer_that_is_supported() {
    let offered = vec![
        params(Base, 0x20, 1, 1, "key-a"),
        params(Auth, 0x11, 2, 2, "key-b"),
        params(Psk, 0x10, 1, 3, "key-c"),
        params(Auth, 0x11, 2, 2, "key-d"),
    ];
    let supported = vec![
        params(Psk, 0x10, 1, 3, "own-a"),
        params(Auth, 0x11, 2, 2, "own-b"),
    ];
    let chosen = first_common_hpke(&offered, &supported).unwrap();
    assert_eq!(chosen.mode, Auth);
    assert_eq!((chosen.kem, chosen.kdf, chosen.aead), (0x11, 2, 2));
    assert_eq!(chosen.key.pk, Some("key-b".to_string()));
    assert_eq!(chosen.key.enc, None);
}

#[test]
fn negotiation_ignores_the_order_of_the_responder() {
    let offered = vec![
        params(Base, 0x20, 1, 1, "key-a"),
        params(Auth, 0x11, 2, 2, "key-b"),
        params(Psk, 0x10, 1, 3, "key-c"),
    ];
    let a = params(Psk, 0x10, 1, 3, "own-a");
    let b = params(Auth, 0x11, 2, 2, "own-b");
    let c = params(AuthPsk, 0x12, 3, 3, "own-c");
    let orders: [[&HPKEParameters; 3]; 6] =
        [[&a, &b, &c], [&a, &c, &b], [&b, &a, &c], [&b, &c, &a], [&c, &a, &b], [&c, &b, &a]];
    for order in orders {
        let supported: Vec<HPKEParameters> = order.iter().map(|p| (*p).clone()).collect();
        let chosen = first_common_hpke(&offered, &supported).unwrap();
        assert_eq!(chosen.mode, Auth);
        assert_eq!((chosen.kem, chosen.kdf, chosen.aead), (0x11, 2, 2));
        assert_eq!(chosen.key.pk, Some("key-b".to_string()));
    }
    let doubled = vec![c.clone(), b.clone(), b.clone(), a.clone(), c.clone()];
    let chosen = first_common_hpke(&offered, &doubled).unwrap();
    assert_eq!(chosen.key.pk, Some("key-b".to_string()));
}

#[test]
fn negotiation_follows_the_order_of_the_proposer() {
    let supported = vec![params(Psk, 0x10, 1, 3, "own-a"), params(Auth, 0x11, 2, 2, "own-b")];
    let one = vec![params(Psk, 0x10, 1, 3, "key-a"), params(Auth, 0x11, 2, 2, "key-b")];
    let other = vec![params(Auth, 0x11, 2, 2, "key-b"), params(Psk, 0x10, 1, 3, "key-a")];
    assert_eq!(first_common_hpke(&one, &supported).unwrap().key.pk, Some("key-a".to_string()));
    assert_eq!(first_common_hpke(&other, &supported).unwrap().key.pk, Some("key-b".to_string()));
}

#[test]
fn negotiation_without_a_common_tuple_gives_nothing() {
    let offered = vec![params(Base, 0x20, 1, 1, "key-a"), params(Auth, 0x11, 2, 2, "key-b")];
    let supported = vec![
        params(Psk, 0x20, 1, 1, "own-a"),
        params(Base, 0x10, 1, 1, "own-b"),
        params(Base, 0x20, 2, 1, "own-c"),
        params(Base, 0x20, 1, 2, "own-d"),
    ];
    assert!(first_common_hpke(&offered, &supported).is_none());
    assert!(first_common_hpke(&[], &supported).is_none());
    assert!(first_common_hpke(&offered, &[]).is_none());
    assert!(first_common_hpke(&[], &[]).is_none());
}

#[test]
fn lists_are_searched_by_mode_and_algorithms() {
    let list = vec![params(Psk, 0x10, 1, 3, "own-a"), params(Auth, 0x11, 2, 2, "own-b")];
    assert!(lists_params(&list, &params(Auth, 0x11, 2, 2, "anything")));
    assert!(lists_params(&list, &params(Psk, 0x10, 1, 3, "anything")));
    assert!(!lists_params(&list, &params(Psk, 0x11, 2, 2, "own-b")));
    assert!(!lists_params(&[], &params(Psk, 0x10, 1, 3, "own-a")));
    assert!(lists_archive(&[ArchiveAlgorithm::Deflate], ArchiveAlgorithm::Deflate));
    assert!(!lists_archive(&[], ArchiveAlgorithm::Deflate));
}

#[test]
fn compression_is_chosen_from_the_responder_list() {
    let deflate = [ArchiveAlgorithm::Deflate];
    let twice = [ArchiveAlgorithm::Deflate, ArchiveAlgorithm::Deflate];
    assert_eq!(first_common_archive(&deflate, &deflate), Some(ArchiveAlgorithm::Deflate));
    assert_eq!(first_common_archive(&twice, &deflate), Some(ArchiveAlgorithm::Deflate));
    assert_eq!(first_common_archive(&deflate, &twice), Some(ArchiveAlgorithm::Deflate));
    assert_eq!(first_common_archive(&[], &deflate), None);
    assert_eq!(first_common_archive(&deflate, &[]), None);
    assert_eq!(first_common_archive(&[], &[]), None);
}

#[test]
fn authenticator_negotiates_both_axes() {
    let responder = Authenticator {
        inner: PinInner::default(),
    };
    let offered = vec![
        params(Base, 0x10, 1, 1, "key-a"),
        params(Auth, 0x20, 1, 1, "key-b"),
        params(Auth, 0x12, 1, 1, "key-c"),
        params(Auth, 0x10, 1, 1, "key-d"),
    ];
    let (chosen, archive) = responder
        .match_algorithm(&offered, &[ArchiveAlgorithm::Deflate])
        .unwrap();
    assert_eq!(chosen.kem, 0x12);
    assert_eq!(chosen.key.pk, Some("key-c".to_string()));
    assert_eq!(archive, ArchiveAlgorithm::Deflate);

    let no_compression = responder.match_algorithm(&offered, &[]);
    assert!(matches!(no_compression, Err(AuthenticatorError::UnsupportedAlgorithm)));
    let no_parameters = responder.match_algorithm(&offered[..2], &[ArchiveAlgorithm::Deflate]);
    assert!(matches!(no_parameters, Err(AuthenticatorError::UnsupportedAlgorithm)));
}
