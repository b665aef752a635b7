use credential_exchange::authenticator::error::AuthenticatorError;
use credential_exchange::authenticator::protocol::archive::ArchiveAlgorithm;
use credential_exchange::authenticator::protocol::hpke_format::HPKEMode::{Auth, Base};
use credential_exchange::authenticator::protocol::hpke_format::{HPKEParameters, JWKS};
use credential_exchange::authenticator::protocol::request::{ExportRequest, ResponseMode};
use rand::RngCore;

fn blank() -> HPKEParameters {
    HPKEParameters {
        mode: Auth,
        kem: 0x10,
        kdf: 1,
        aead: 1,
        key: JWKS { enc: None, pk: None },
    }
}

#[test]
fn key_material_is_encoded_field_by_field() {
    let mut p = blank();
    p.encode_jwk(Some(vec![0xfb, 0xff, 0xfe]), Some(b"hello world~".to_vec()));
    assert_eq!(p.key.enc, Some("-__-".to_string()));
    assert_eq!(p.key.pk, Some("aGVsbG8gd29ybGR-".to_string()));
    assert_eq!((p.mode, p.kem, p.kdf, p.aead), (Auth, 0x10, 1, 1));

    p.encode_jwk(Some(vec![0xff]), None);
    assert_eq!(p.key.enc, Some("_w==".to_string()));
    assert_eq!(p.key.pk, None);

    p.encode_jwk(None, Some(vec![]));
    assert_eq!(p.key.enc, None);
    assert_eq!(p.key.pk, Some("".to_string()));

    p.encode_jwk(None, None);
    assert_eq!(p.key.enc, None);
    assert_eq!(p.key.pk, None);
}

#[test]
fn key_material_is_decoded_field_by_field() {
    let mut p = blank();
    p.key = JWKS { enc: Some("-__-".to_string()), pk: Some("aGVsbG8gd29ybGR-".to_string()) };
    let key = p.decode_jwk().unwrap();
    assert_eq!(key.enc, Some(vec![0xfb, 0xff, 0xfe]));
    assert_eq!(key.pk, Some(b"hello world~".to_vec()));

    p.key = JWKS { enc: None, pk: Some("_w==".to_string()) };
    let key = p.decode_jwk().unwrap();
    assert_eq!(key.enc, None);
    assert_eq!(key.pk, Some(vec![0xff]));

    p.key = JWKS { enc: Some("".to_string()), pk: None };
    let key = p.decode_jwk().unwrap();
    assert_eq!(key.enc, Some(vec![]));
    assert_eq!(key.pk, None);

    p.key = JWKS { enc: None, pk: None };
    let key = p.decode_jwk().unwrap();
    assert_eq!(key.enc, None);
    assert_eq!(key.pk, None);
}

#[test]
fn key_material_round_trip_is_lossless() {
    let mut rng = rand::thread_rng();
    for len in [0usize, 1, 2, 3, 4, 31, 32, 33, 65, 97, 133, 1000] {
        let mut enc = vec![0u8; len];
        let mut pk = vec![0u8; len / 2];
        rng.fill_bytes(&mut enc);
        rng.fill_bytes(&mut pk);
        for (e, k) in [
            (Some(enc.clone()), Some(pk.clone())),
            (Some(enc.clone()), None),
            (None, Some(pk.clone())),
            (None, None),
        ] {
            let mut p = blank();
            p.encode_jwk(e.clone(), k.clone());
            let key = p.decode_jwk().unwrap();
            assert_eq!(key.enc, e);
            assert_eq!(key.pk, k);
        }
    }
}

#[test]
fn malformed_key_material_is_a_coding_error() {
    for (enc, pk) in [
        (Some("not base64!"), None),
        (None, Some("A")),
        (Some("AQID"), Some("_w=")),
        (Some("+/+/"), Some("AQID")),
        (Some("AQID"), Some("AQI D")),
    ] {
        let mut p = blank();
        p.key = JWKS { enc: enc.map(str::to_string), pk: pk.map(str::to_string) };
        match p.decode_jwk() {
            Err(AuthenticatorError::CodeError(detail)) => assert_eq!(detail, "Decode error"),
            Ok(_) => panic!("decoded {:?} {:?}", enc, pk),
            Err(other) => panic!("unexpected error: {:?}", other),
        }
    }
}

#[test]
fn duplicates_have_the_same_value() {
    let mut p = blank();
    p.mode = Base;
    p.key = JWKS { enc: Some("e".to_string()), pk: None };
    let copy = p.duplicate();
    assert_eq!((copy.mode, copy.kem, copy.kdf, copy.aead), (Base, 0x10, 1, 1));
    assert_eq!(copy.key.enc, Some("e".to_string()));
    assert_eq!(copy.key.pk, None);
    let key = JWKS { enc: None, pk: Some("k".to_string()) }.duplicate();
    assert_eq!(key.enc, None);
    assert_eq!(key.pk, Some("k".to_string()));
}

#[test]
fn compression_round_trip() {
    let alg = ArchiveAlgorithm::Deflate;
    let mut random = vec![0u8; 5000];
    rand::thread_rng().fill_bytes(&mut random);
    let cases: Vec<Vec<u8>> = vec![
        vec![],
        vec![0],
        b"a".to_vec(),
        b"hello hello hello hello hello hello".to_vec(),
        vec![0u8; 100_000],
        (0..=255u8).collect(),
        random,
    ];
    for data in cases {
        let packed = alg.compress(&data).unwrap();
        assert_eq!(alg.decompress(&packed).unwrap(), data);
    }
}

#[test]
fn compression_shrinks_what_repeats() {
    let alg = ArchiveAlgorithm::Deflate;
    let data = vec![b'x'; 10_000];
    let packed = alg.compress(&data).unwrap();
    assert!(packed.len() < 100);
    assert_ne!(packed, data);
    let empty = alg.compress(&[]).unwrap();
    assert!(!empty.is_empty());
}

#[test]
fn compression_writes_raw_deflate() {
    let alg = ArchiveAlgorithm::Deflate;
    // A stored block: final, length 3, its complement, the bytes.
    let stored = [0x01, 0x03, 0x00, 0xfc, 0xff, b'a', b'b', b'c'];
    assert_eq!(alg.decompress(&stored).unwrap(), b"abc".to_vec());
    // The empty stream in a fixed Huffman block.
    assert_eq!(alg.decompress(&[0x03, 0x00]).unwrap(), Vec::<u8>::new());
}

#[test]
fn malformed_streams_do_not_decompress() {
    let alg = ArchiveAlgorithm::Deflate;
    for bad in [&[0xffu8, 0xff, 0xff, 0xff][..], &[0x01, 0x03, 0x00, 0x00, 0x00, b'a'][..], &[0x07][..]] {
        match alg.decompress(bad) {
            Err(detail) => assert_eq!(detail, "zip error"),
            Ok(bytes) => panic!("decompressed to {:?}", bytes),
        }
    }
}

#[test]
fn new_request_is_of_version_zero() {
    let offered = blank();
    let request = ExportRequest::new(
        vec![offered],
        ResponseMode::Indirect,
        "rp".to_string(),
        vec![ArchiveAlgorithm::Deflate],
        Some(vec!["passkey".to_string()]),
        None,
    );
    assert_eq!(request.version, 0);
    assert_eq!(request.hpke_parameters.len(), 1);
    assert_eq!(request.hpke_parameters[0].kem, 0x10);
    assert_eq!(request.archive, vec![ArchiveAlgorithm::Deflate]);
    assert_eq!(request.mode, ResponseMode::Indirect);
    assert_eq!(request.importer, "rp");
    assert_eq!(request.credential_types, Some(vec!["passkey".to_string()]));
    assert_eq!(request.known_extensions, None);
}

#[test]
fn errors_render_their_kind_and_detail() {
    let cases = [
        (AuthenticatorError::InnerAuthenticatorError("x".to_string()), "内部验证器错误 x"),
        (AuthenticatorError::RequestNotAllowed("x".to_string()), "不支持的请求：x"),
        (AuthenticatorError::InternalError("x".to_string()), "内部验证器错误 x"),
        (AuthenticatorError::UnsupportedAlgorithm, "不支持的算法"),
        (AuthenticatorError::CryptoError("x y".to_string()), "加密过程出现错误: x y"),
        (AuthenticatorError::CodeError("".to_string()), "编码过程出现错误 "),
        (AuthenticatorError::CredentialNotFound, "没有找到相应的凭证"),
    ];
    for (error, text) in cases {
        assert_eq!(error.message(), text);
    }
}
