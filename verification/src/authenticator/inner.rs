//! What an authenticator needs from the identity behind it: the algorithms it
//! supports, its long-lived key pairs, and its store of credentials.

use vstd::prelude::*;
use crate::authenticator::error::AuthenticatorError;
use crate::authenticator::protocol::archive::ArchiveAlgorithm;
use crate::authenticator::protocol::credential::Credential;
use crate::authenticator::protocol::hpke_format::{HPKEParameters, HPKEParametersView};
use crate::authenticator::protocol::request::params_view;

verus! {

/// The identity behind an authenticator.
///
/// The supported algorithms and the key pairs are part of the identity: asking
/// twice gives the same answer. The store is not: what `get_credentials`
/// returns may change between calls, and nothing is promised of it.
///
/// A verified implementation says what the identity supports and holds; one
/// that is not verified can leave the three specification functions as they
/// stand.
pub trait InnerAuthenticator {
    /// The kind of credential that the store hands out.
    type Stored: Credential;

    /// The HPKE parameters that the identity supports, the preferred first.
    /// Left open here.
    open spec fn supported_hpke(&self) -> Seq<HPKEParametersView> {
        arbitrary()
    }

    /// The compression algorithms that the identity supports, the preferred
    /// first. Left open here.
    open spec fn supported_archive(&self) -> Seq<ArchiveAlgorithm> {
        arbitrary()
    }

    /// The long-lived key pairs of the identity, by the identifier of their key
    /// encapsulation mechanism: the private key, then the public key. Left open
    /// here.
    open spec fn keys(&self) -> Map<u16, (Seq<u8>, Seq<u8>)> {
        arbitrary()
    }

    /// The HPKE parameters and the compression algorithms that the identity
    /// supports.
    fn support_algorithms(&self) -> (r: (Vec<HPKEParameters>, Vec<ArchiveAlgorithm>))
        ensures
            params_view(r.0@) == self.supported_hpke(),
            r.1@ == self.supported_archive(),
    ;

    /// The credentials in the store.
    fn get_credentials(&self) -> (r: Result<Vec<Self::Stored>, AuthenticatorError>)
    ;

    /// Puts a credential into the store. The algorithms and the keys of the
    /// identity stay as they are.
    fn store_credential<C: Credential>(&mut self, credential: C) -> (r: Result<
        (),
        AuthenticatorError,
    >)
        ensures
            final(self).supported_hpke() == old(self).supported_hpke(),
            final(self).supported_archive() == old(self).supported_archive(),
            final(self).keys() == old(self).keys(),
    ;

    /// The key pair for a key encapsulation mechanism, if the identity has
    /// one: the private key, then the public key.
    fn key_pair(&self, kem: u16) -> (r: Option<(Vec<u8>, Vec<u8>)>)
        ensures
            match r {
                Some(pair) => self.keys().contains_key(kem) && self.keys()[kem] == (
                    pair.0@,
                    pair.1@,
                ),
                None => !self.keys().contains_key(kem),
            },
    ;
}

} // verus!
