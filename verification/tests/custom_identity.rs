use credential_exchange::authenticator::crypto::gen_key_pair;
use credential_exchange::authenticator::error::AuthenticatorError;
use credential_exchange::authenticator::inner::InnerAuthenticator;
use credential_exchange::authenticator::pin::PinInner;
use credential_exchange::authenticator::protocol::archive::ArchiveAlgorithm;
use credential_exchange::authenticator::protocol::credential::Credential;
use credential_exchange::authenticator::protocol::hpke_format::HPKEMode::AuthPsk;
use credential_exchange::authenticator::protocol::hpke_format::{HPKEParameters, JWKS};
use credential_exchange::authenticator::Authenticator;
use base64::prelude::BASE64_URL_SAFE;
use base64::Engine;

/// A credential of another shape than the library's own.
struct Passkey {
    site: &'static str,
    secret: u64,
}

impl Credential for Passkey {
    fn get_credential(&self) -> Vec<u8> {
        self.secret.to_be_bytes().to_vec()
    }

    fn get_rp_id(&self) -> String {
        self.site.to_string()
    }
}

/// An identity with one key pair and a store that can be made to fail.
struct Vault {
    sk: Vec<u8>,
    pk: Vec<u8>,
    locked: bool,
    stored: Vec<Vec<u8>>,
}

impl InnerAuthenticator for Vault {
    type Stored = Passkey;

    fn support_algorithms(&self) -> (Vec<HPKEParameters>, Vec<ArchiveAlgorithm>) {
        let offered = HPKEParameters {
            mode: AuthPsk,
            kem: 0x20,
            kdf: 0x03,
            aead: 0x03,
            key: JWKS { enc: None, pk: Some(BASE64_URL_SAFE.encode(&self.pk)) },
        };
        (vec![offered], vec![ArchiveAlgorithm::Deflate])
    }

    fn get_credentials(&self) -> Result<Vec<Passkey>, AuthenticatorError> {
        if self.locked {
            return Err(AuthenticatorError::InnerAuthenticatorError("locked".to_string()));
        }
        Ok(vec![
            Passkey { site: "a.example", secret: 1 },
            Passkey { site: "b.example", secret: 0x0102030405060708 },
        ])
    }

    fn store_credential<C: Credential>(&mut self, credential: C) -> Result<(), AuthenticatorError> {
        self.stored.push(credential.get_credential());
        Ok(())
    }

    fn key_pair(&self, kem: u16) -> Option<(Vec<u8>, Vec<u8>)> {
        if kem == 0x20 {
            Some((self.sk.clone(), self.pk.clone()))
        } else {
            None
        }
    }
}

fn vault(locked: bool) -> Authenticator<Vault> {
    let (sk, pk) = gen_key_pair(0x20).unwrap();
    Authenticator {
        inner: Vault { sk, pk, locked, stored: vec![] },
    }
}

#[test]
fn identity_of_another_kind_exports_its_credentials() {
    let importer = vault(false);
    let exporter = vault(false);
    let request = importer.construct_export_request("b.example".to_string());
    let response = exporter.handle_request(request).unwrap();
    assert_eq!(response.hpke_parameters.mode, AuthPsk);
    assert_eq!(
        response.hpke_parameters.key.pk,
        Some(BASE64_URL_SAFE.encode(&exporter.inner.pk))
    );
    let recovered = importer.handle_response(response).unwrap();
    assert_eq!(recovered, vec![1, 2, 3, 4, 5, 6, 7, 8]);
}

#[test]
fn failure_of_the_store_is_passed_on() {
    let importer = vault(false);
    let exporter = vault(true);
    let request = importer.construct_export_request("b.example".to_string());
    match exporter.handle_request(request) {
        Err(AuthenticatorError::InnerAuthenticatorError(detail)) => assert_eq!(detail, "locked"),
        other => panic!("unexpected outcome: {:?}", other),
    }
}

#[test]
fn negotiation_fails_before_the_store_is_asked() {
    let importer = Authenticator {
        inner: PinInner::default(),
    };
    let exporter = vault(true);
    let request = importer.construct_export_request("b.example".to_string());
    let refused = exporter.handle_request(request);
    assert!(matches!(refused, Err(AuthenticatorError::UnsupportedAlgorithm)));
}

#[test]
fn identity_of_another_kind_stores_what_it_is_given() {
    let mut identity = vault(false);
    identity
        .inner
        .store_credential(Passkey { site: "c.example", secret: 7 })
        .unwrap();
    assert_eq!(identity.inner.stored, vec![vec![0, 0, 0, 0, 0, 0, 0, 7]]);
}
