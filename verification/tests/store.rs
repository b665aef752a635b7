use credential_exchange::authenticator::inner::InnerAuthenticator;
use credential_exchange::authenticator::pin::{PinInner, DEFAULT_AEAD, DEFAULT_KDF, SUPPORTED_KEMS};
use credential_exchange::authenticator::protocol::archive::ArchiveAlgorithm;
use credential_exchange::authenticator::protocol::credential::{Credential, StructuredSingleFileCredential};
use credential_exchange::authenticator::protocol::hpke_format::HPKEMode::{Auth, AuthPsk, Base, Psk};
use base64::prelude::BASE64_URL_SAFE;
use base64::Engine;

#[test]
fn credential_hands_out_what_it_holds() {
    let credential = StructuredSingleFileCredential::new("www.example.com".to_string(), vec![1, 2, 3]);
    assert_eq!(credential.rp_id, "www.example.com");
    assert_eq!(credential.credential, vec![1, 2, 3]);
    assert_eq!(credential.get_rp_id(), "www.example.com");
    assert_eq!(credential.get_credential(), vec![1, 2, 3]);
}

#[test]
fn record_is_the_identifier_a_line_feed_and_the_credential() {
    let credential = StructuredSingleFileCredential::new("www.example.com".to_string(), b"secret\nbytes\0".to_vec());
    assert_eq!(credential.to_bytes(), b"www.example.com\nsecret\nbytes\0".to_vec());
    let empty = StructuredSingleFileCredential::new(String::new(), vec![]);
    assert_eq!(empty.to_bytes(), b"\n".to_vec());
    let unicode = StructuredSingleFileCredential::new("münchen.example".to_string(), vec![0xff]);
    assert_eq!(unicode.to_bytes(), [&"münchen.example\n".as_bytes()[..], &[0xff]].concat());
}

#[test]
fn record_is_read_back() {
    let read = StructuredSingleFileCredential::from_bytes(b"www.example.com\nsecret\nbytes\0").unwrap();
    assert_eq!(read.rp_id, "www.example.com");
    assert_eq!(read.credential, b"secret\nbytes\0".to_vec());

    let binary = StructuredSingleFileCredential::from_bytes(&[b'r', b'p', b'\n', 0xff, 0xfe, 0x00]).unwrap();
    assert_eq!(binary.rp_id, "rp");
    assert_eq!(binary.credential, vec![0xff, 0xfe, 0x00]);
}

#[test]
fn record_identifier_loses_the_white_space_at_its_end_only() {
    let read = StructuredSingleFileCredential::from_bytes(b"www.example.com \t\r\n payload ").unwrap();
    assert_eq!(read.rp_id, "www.example.com");
    assert_eq!(read.credential, b" payload ".to_vec());

    let leading = StructuredSingleFileCredential::from_bytes(b"  rp id\nx").unwrap();
    assert_eq!(leading.rp_id, "  rp id");

    let unicode_space = StructuredSingleFileCredential::from_bytes("rp\u{2003}\u{a0}\nx".as_bytes()).unwrap();
    assert_eq!(unicode_space.rp_id, "rp");

    let blank = StructuredSingleFileCredential::from_bytes(b" \t \ncredential").unwrap();
    assert_eq!(blank.rp_id, "");
    assert_eq!(blank.credential, b"credential".to_vec());
}

#[test]
fn record_without_a_line_feed_is_all_identifier() {
    let read = StructuredSingleFileCredential::from_bytes(b"www.example.com").unwrap();
    assert_eq!(read.rp_id, "www.example.com");
    assert_eq!(read.credential, Vec::<u8>::new());
    let empty = StructuredSingleFileCredential::from_bytes(b"").unwrap();
    assert_eq!(empty.rp_id, "");
    assert_eq!(empty.credential, Vec::<u8>::new());
    let only_feed = StructuredSingleFileCredential::from_bytes(b"\n").unwrap();
    assert_eq!(only_feed.rp_id, "");
    assert_eq!(only_feed.credential, Vec::<u8>::new());
}

#[test]
fn record_with_a_first_line_that_is_not_text_is_refused() {
    for bad in [&[0xffu8, b'\n', b'x'][..], &[b'r', 0xc3, b'\n'][..], &[0xc3, 0x28][..], &[0xed, 0xa0, 0x80, b'\n'][..]] {
        match StructuredSingleFileCredential::from_bytes(bad) {
            Err(detail) => assert_eq!(detail, "stream did not contain valid UTF-8"),
            Ok(read) => panic!("read {:?}", read),
        }
    }
}

#[test]
fn record_round_trip() {
    for (rp_id, credential) in [
        ("www.example.com", &b"abc"[..]),
        ("", &b""[..]),
        ("münchen.example", &[0u8, 10, 13, 255][..]),
        ("  inner space kept", &b"\n\n"[..]),
    ] {
        let written = StructuredSingleFileCredential::new(rp_id.to_string(), credential.to_vec()).to_bytes();
        let read = StructuredSingleFileCredential::from_bytes(&written).unwrap();
        assert_eq!(read.rp_id, rp_id);
        assert_eq!(read.credential, credential.to_vec());
    }
}

#[test]
fn new_identity_announces_one_suite() {
    for (kem, sk_len, pk_len) in [(0x10u16, 32, 65), (0x11, 48, 97), (0x12, 66, 133), (0x20, 32, 32)] {
        for mode in [Base, Psk, Auth, AuthPsk] {
            let pin = PinInner::new(kem, 2, 3, &mode);
            assert_eq!(pin.keys.len(), 1);
            let (sk, pk) = pin.keys.get(&kem).unwrap();
            assert_eq!(sk.len(), sk_len);
            assert_eq!(pk.len(), pk_len);
            assert_eq!(pin.algorithms.len(), 1);
            let p = &pin.algorithms[0];
            assert_eq!((p.mode, p.kem, p.kdf, p.aead), (mode, kem, 2, 3));
            assert_eq!(p.key.enc, None);
            assert_eq!(p.key.pk, Some(BASE64_URL_SAFE.encode(pk)));
            assert!(pin.records.is_empty());
            assert_eq!(pin.key_pair(kem), Some((sk.clone(), pk.clone())));
            assert_eq!(pin.key_pair(kem + 1), None);
        }
    }
}

#[test]
fn default_identity_announces_the_three_nist_curves() {
    assert_eq!(SUPPORTED_KEMS, [0x10, 0x11, 0x12]);
    assert_eq!((DEFAULT_KDF, DEFAULT_AEAD), (1, 1));
    let pin = PinInner::default();
    assert_eq!(pin.keys.len(), 3);
    assert_eq!(pin.algorithms.len(), 3);
    assert!(pin.records.is_empty());
    for (i, kem) in SUPPORTED_KEMS.into_iter().enumerate() {
        let (_, pk) = pin.keys.get(&kem).unwrap();
        let p = &pin.algorithms[i];
        assert_eq!((p.mode, p.kem, p.kdf, p.aead), (Auth, kem, 1, 1));
        assert_eq!(p.key.enc, None);
        assert_eq!(p.key.pk, Some(BASE64_URL_SAFE.encode(pk)));
    }
    assert_eq!(pin.key_pair(0x20), None);
    let (hpke, archive) = pin.support_algorithms();
    assert_eq!(archive, vec![ArchiveAlgorithm::Deflate]);
    assert_eq!(hpke.len(), 3);
    for i in 0..3 {
        assert!(hpke[i] == pin.algorithms[i]);
        assert_eq!(hpke[i].key.pk, pin.algorithms[i].key.pk);
        assert_eq!(hpke[i].key.enc, None);
    }
}

#[test]
fn store_lists_the_records_that_parse() {
    let mut pin = PinInner::new(0x20, 1, 1, &Base);
    assert!(pin.get_cred_lis().is_empty());
    assert!(pin.get_credentials().unwrap().is_empty());
    pin.records = vec![
        ("a.cx".to_string(), b"first.example\none".to_vec()),
        ("broken.cx".to_string(), vec![0xff, b'\n', b'x']),
        ("b.cx".to_string(), b"second.example \ntwo".to_vec()),
        ("c.cx".to_string(), b"first.example\nthree".to_vec()),
    ];
    let listed = pin.get_cred_lis();
    assert_eq!(listed.len(), 3);
    let names: Vec<&str> = listed.iter().map(|(name, _)| name.as_str()).collect();
    assert_eq!(names, vec!["a.cx", "b.cx", "c.cx"]);
    assert_eq!(listed[1].1.rp_id, "second.example");
    assert_eq!(listed[1].1.credential, b"two".to_vec());

    let credentials = pin.get_credentials().unwrap();
    let ids: Vec<String> = credentials.iter().map(|c| c.get_rp_id()).collect();
    assert_eq!(ids, vec!["first.example", "second.example", "first.example"]);
    assert_eq!(credentials[2].get_credential(), b"three".to_vec());
}

#[test]
fn stored_credential_becomes_a_named_record() {
    let mut pin = PinInner::new(0x20, 1, 1, &Base);
    pin.records = vec![("a.cx".to_string(), b"first.example\none".to_vec())];
    let keys_before = pin.key_pair(0x20);
    let added = StructuredSingleFileCredential::new("new.example".to_string(), vec![0, 1, 2]);
    pin.store_credential(added).unwrap();
    assert_eq!(pin.records.len(), 2);
    assert_eq!(pin.records[0], ("a.cx".to_string(), b"first.example\none".to_vec()));
    let (name, bytes) = &pin.records[1];
    assert_eq!(bytes, &b"new.example\n\x00\x01\x02".to_vec());
    assert_eq!(name.len(), 9);
    assert!(name.ends_with(".cx"));
    assert!(name[..6].bytes().all(|b| b.is_ascii_alphanumeric()));
    assert_eq!(pin.key_pair(0x20), keys_before);
    assert_eq!(pin.algorithms.len(), 1);

    let credentials = pin.get_credentials().unwrap();
    assert_eq!(credentials.len(), 2);
    assert_eq!(credentials[1].get_rp_id(), "new.example");
    assert_eq!(credentials[1].get_credential(), vec![0, 1, 2]);

    let again = StructuredSingleFileCredential::new("new.example".to_string(), vec![0, 1, 2]);
    pin.store_credential(again).unwrap();
    assert_ne!(pin.records[1].0, pin.records[2].0);
}

/// Whether `c` has the Unicode property `White_Space`.
fn is_white_space(c: char) -> bool {
    matches!(
        c as u32,
        0x0009..=0x000d
            | 0x0020
            | 0x0085
            | 0x00a0
            | 0x1680
            | 0x2000..=0x200a
            | 0x2028
            | 0x2029
            | 0x202f
            | 0x205f
            | 0x3000
    )
}

#[test]
fn record_identifier_is_trimmed_of_every_white_space_character_and_no_other() {
    let mut white = 0;
    for code in 0..=0x10ffffu32 {
        let Some(c) = char::from_u32(code) else {
            continue;
        };
        let line = format!("rp{}", c);
        let read = StructuredSingleFileCredential::from_bytes(line.as_bytes()).unwrap();
        if is_white_space(c) {
            white += 1;
            assert_eq!(read.rp_id, "rp", "U+{:04X} is white space", code);
        } else {
            assert_eq!(read.rp_id, line, "U+{:04X} is no white space", code);
        }
        if c == '\n' {
            assert_eq!(read.credential, Vec::<u8>::new());
        }
    }
    assert_eq!(white, 25);
}
