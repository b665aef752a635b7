//! An identity that is kept in memory: its key pairs, the parameters it
//! announces, and the records of its credential store.
//!
//! The store is a list of records, each with a name. The program around the
//! library reads them from wherever they are kept and writes back what is
//! added.

use std::collections::HashMap;
use vstd::prelude::*;
use vstd::slice::slice_to_vec;
use vstd::string::StringExecFns;
use rand::Rng;
use crate::authenticator::crypto::agility::KemAlg;
use crate::authenticator::crypto::gen_key_pair;
use crate::authenticator::error::AuthenticatorError;
use crate::authenticator::inner::InnerAuthenticator;
use crate::authenticator::negotiation::{lemma_negotiation_takes_first_common, negotiated_hpke};
use crate::authenticator::protocol::archive::ArchiveAlgorithm;
use crate::authenticator::protocol::base64url::{encode, encoded};
use crate::authenticator::protocol::credential::{
    parsed, record, Credential, CredentialView, StructuredSingleFileCredential,
};
use crate::authenticator::protocol::hpke_format::{
    HPKEMode, HPKEParameters, HPKEParametersView, JWKSView, JWKS,
};
use crate::authenticator::protocol::request::params_view;

verus! {

#[verifier::external_type_specification]
#[verifier::external_body]
pub struct ExThreadRng(rand::rngs::ThreadRng);

/// The key encapsulation mechanisms of the default identity.
pub const SUPPORTED_KEMS: [u16; 3] = [0x10, 0x11, 0x12];

/// The key derivation function of the default identity.
pub const DEFAULT_KDF: u16 = 1;

/// The cipher of the default identity.
pub const DEFAULT_AEAD: u16 = 1;

/// The number of random characters in the name of a record that is added.
pub const NAME_LEN: usize = 6;

/// An identity in memory.
pub struct PinInner {
    /// The key pairs by the identifier of their mechanism: the private key,
    /// then the public key.
    pub keys: HashMap<u16, (Vec<u8>, Vec<u8>)>,
    /// The parameters that the identity announces. Each carries the public
    /// key for its mechanism.
    pub algorithms: Vec<HPKEParameters>,
    /// The records of the store: the name of each, then its bytes.
    pub records: Vec<(String, Vec<u8>)>,
}

/// The parameters with which an identity announces a suite in a mode: no
/// encapsulated key, and its public key for the mechanism.
pub open spec fn announced(
    mode: HPKEMode,
    kem: u16,
    kdf: u16,
    aead: u16,
    pk: Seq<u8>,
) -> HPKEParametersView {
    HPKEParametersView { mode, kem, kdf, aead, key: JWKSView { enc: None, pk: Some(encoded(pk)) } }
}

/// The mathematical value of the key pairs.
pub open spec fn key_views(keys: Map<u16, (Vec<u8>, Vec<u8>)>) -> Map<u16, (Seq<u8>, Seq<u8>)> {
    Map::new(|kem: u16| keys.contains_key(kem), |kem: u16| (keys[kem].0@, keys[kem].1@))
}

/// Whether the key pair under `kem` has the lengths that the mechanism fixes.
pub open spec fn holds_key(keys: Map<u16, (Seq<u8>, Seq<u8>)>, kem: u16) -> bool {
    &&& keys.contains_key(kem)
    &&& KemAlg::of_id(kem) matches Some(alg)
    &&& keys[kem].0.len() == alg.private_key_len()
    &&& keys[kem].1.len() == alg.public_key_len()
}

/// The credentials that a list of records holds, each with the name of its
/// record, in the order of the records. A record that does not parse is left
/// out.
pub open spec fn readable(records: Seq<(String, Vec<u8>)>) -> Seq<(Seq<char>, CredentialView)>
    decreases records.len(),
{
    if records.len() == 0 {
        seq![]
    } else {
        let rest = readable(records.drop_last());
        match parsed(records.last().1@) {
            Some(credential) => rest.push((records.last().0@, credential)),
            None => rest,
        }
    }
}

/// The mathematical value of a list of named credentials.
pub open spec fn named_view(list: Seq<(String, StructuredSingleFileCredential)>) -> Seq<
    (Seq<char>, CredentialView),
> {
    Seq::new(list.len(), |i: int| (list[i].0@, list[i].1@))
}

/// The mathematical value of a list of credentials.
pub open spec fn credentials_view(list: Seq<StructuredSingleFileCredential>) -> Seq<
    CredentialView,
> {
    Seq::new(list.len(), |i: int| list[i]@)
}

/// A list of named credentials without the names.
pub open spec fn unnamed(list: Seq<(Seq<char>, CredentialView)>) -> Seq<CredentialView> {
    Seq::new(list.len(), |i: int| list[i].1)
}

/// Whether `c` is an ASCII letter or digit.
pub open spec fn is_alphanumeric(c: char) -> bool {
    let code = c as u32;
    ||| 0x30 <= code <= 0x39
    ||| 0x41 <= code <= 0x5a
    ||| 0x61 <= code <= 0x7a
}

/// Whether `name` is a name that the store gives to a record it adds: six
/// ASCII letters or digits, then `.cx`.
pub open spec fn is_record_name(name: Seq<char>) -> bool {
    &&& name.len() == NAME_LEN + 3
    &&& forall|i: int| 0 <= i < NAME_LEN ==> is_alphanumeric(#[trigger] name[i])
    &&& name.subrange(NAME_LEN as int, NAME_LEN + 3) == ".cx"@
}

/// `rand::thread_rng`: the generator of the current thread. Nothing is
/// claimed of it. It panics where the system gives no entropy to seed it.
#[verifier::external_body]
fn thread_rng() -> rand::rngs::ThreadRng {
    rand::thread_rng()
}

/// `Rng::sample` with the distribution `Alphanumeric` of `rand`. Claimed, as
/// the distribution documents: the byte is an ASCII letter or digit.
#[verifier::external_body]
fn sample_alphanumeric(rng: &mut rand::rngs::ThreadRng) -> (b: u8)
    ensures
        is_alphanumeric(b as char),
{
    rng.sample(rand::distributions::Alphanumeric)
}

/// `String::push` of std. Claimed, as its documentation has it: the
/// character is appended.
#[verifier::external_body]
fn push_char(text: &mut String, c: char)
    ensures
        final(text)@ == old(text)@.push(c),
{
    text.push(c)
}

/// Makes up a name for a record: six random letters or digits, then `.cx`.
fn random_record_name() -> (name: String)
    ensures
        is_record_name(name@),
{
    let mut rng = thread_rng();
    let mut name = String::new();
    let mut i: usize = 0;
    while i < NAME_LEN
        invariant
            i <= NAME_LEN,
            name@.len() == i,
            forall|j: int| 0 <= j < i ==> is_alphanumeric(#[trigger] name@[j]),
        decreases NAME_LEN - i,
    {
        let b = sample_alphanumeric(&mut rng);
        push_char(&mut name, b as char);
        i = i + 1;
    }
    let ghost stem = name@;
    name.append(".cx");
    proof {
        reveal_strlit(".cx");
        assert(name@.subrange(NAME_LEN as int, NAME_LEN + 3) =~= ".cx"@);
        assert forall|j: int| 0 <= j < NAME_LEN implies is_alphanumeric(#[trigger] name@[j]) by {
            assert(name@[j] == stem[j]);
        }
    }
    name
}

impl PinInner {
    /// Whether the identity holds together: it has a key pair for the
    /// mechanism of everything it announces, and announces that key pair's
    /// public key with it.
    pub open spec fn well_formed(&self) -> bool {
        forall|i: int|
            0 <= i < self.algorithms@.len() ==> key_views(self.keys@).contains_key(
                (#[trigger] self.algorithms@[i]).kem,
            ) && self.algorithms@[i]@.key == (JWKSView {
                enc: None,
                pk: Some(encoded(key_views(self.keys@)[self.algorithms@[i].kem].1)),
            })
    }

    /// The default identity: a fresh key pair for each of the mechanisms in
    /// [`SUPPORTED_KEMS`], announced in that order in authenticated mode with
    /// the default key derivation function and cipher, and an empty store.
    pub fn default() -> (pin: PinInner)
        ensures
            pin.algorithms@.len() == SUPPORTED_KEMS@.len(),
            forall|i: int|
                #![trigger SUPPORTED_KEMS@[i]]
                #![trigger pin.algorithms@[i]]
                0 <= i < SUPPORTED_KEMS@.len() ==> holds_key(pin.keys(), SUPPORTED_KEMS@[i])
                    && pin.algorithms@[i]@ == announced(
                    HPKEMode::Auth,
                    SUPPORTED_KEMS@[i],
                    DEFAULT_KDF,
                    DEFAULT_AEAD,
                    pin.keys()[SUPPORTED_KEMS@[i]].1,
                ),
            forall|kem: u16| pin.keys().contains_key(kem) ==> SUPPORTED_KEMS@.contains(kem),
            pin.records@.len() == 0,
            pin.well_formed(),
    {
        broadcast use vstd::std_specs::hash::group_hash_axioms;

        let mut keys: HashMap<u16, (Vec<u8>, Vec<u8>)> = HashMap::new();
        let mut algorithms: Vec<HPKEParameters> = Vec::new();
        let mut i: usize = 0;
        while i < SUPPORTED_KEMS.len()
            invariant
                i <= SUPPORTED_KEMS@.len(),
                SUPPORTED_KEMS@ == seq![0x10u16, 0x11u16, 0x12u16],
                algorithms@.len() == i,
                forall|j: int|
                    #![trigger SUPPORTED_KEMS@[j]]
                    #![trigger algorithms@[j]]
                    0 <= j < i ==> holds_key(key_views(keys@), SUPPORTED_KEMS@[j]) && algorithms@[j]@
                        == announced(
                        HPKEMode::Auth,
                        SUPPORTED_KEMS@[j],
                        DEFAULT_KDF,
                        DEFAULT_AEAD,
                        key_views(keys@)[SUPPORTED_KEMS@[j]].1,
                    ),
                forall|kem: u16|
                    keys@.contains_key(kem) ==> exists|j: int|
                        0 <= j < i && SUPPORTED_KEMS@[j] == kem,
            decreases SUPPORTED_KEMS@.len() - i,
        {
            let kem = SUPPORTED_KEMS[i];
            let (sk, pk) = gen_key_pair(kem).unwrap();
            let text = encode(pk.as_slice());
            let ghost before = keys@;
            keys.insert(kem, (sk, pk));
            algorithms.push(
                HPKEParameters {
                    kem,
                    mode: HPKEMode::Auth,
                    kdf: DEFAULT_KDF,
                    aead: DEFAULT_AEAD,
                    key: JWKS { enc: None, pk: Some(text) },
                },
            );
            proof {
                assert forall|j: int| 0 <= j < i implies key_views(keys@)[SUPPORTED_KEMS@[j]]
                    == key_views(before)[SUPPORTED_KEMS@[j]] by {
                    assert(SUPPORTED_KEMS@[j] != kem);
                }
                assert forall|other: u16| keys@.contains_key(other) implies exists|j: int|
                    0 <= j < i + 1 && SUPPORTED_KEMS@[j] == other by {
                    if other == kem {
                        assert(SUPPORTED_KEMS@[i as int] == other);
                    } else {
                        let j = choose|j: int| 0 <= j < i && SUPPORTED_KEMS@[j] == other;
                        assert(SUPPORTED_KEMS@[j] == other);
                    }
                }
            }
            i = i + 1;
        }
        PinInner { keys, algorithms, records: Vec::new() }
    }

    /// An identity with one fresh key pair, for the mechanism `kem`, that
    /// announces one set of parameters: `mode`, `kem`, `kdf` and `aead`. Its
    /// store is empty. The mechanism has to be registered, or no key could be
    /// drawn for it.
    pub fn new(kem: u16, kdf: u16, aead: u16, mode: &HPKEMode) -> (pin: Self)
        requires
            KemAlg::of_id(kem) is Some,
        ensures
            holds_key(pin.keys(), kem),
            forall|other: u16| pin.keys().contains_key(other) ==> other == kem,
            pin.algorithms@.len() == 1,
            pin.algorithms@[0]@ == announced(*mode, kem, kdf, aead, pin.keys()[kem].1),
            pin.records@.len() == 0,
            pin.well_formed(),
    {
        broadcast use vstd::std_specs::hash::group_hash_axioms;

        let mut keys: HashMap<u16, (Vec<u8>, Vec<u8>)> = HashMap::new();
        let (sk, pk) = gen_key_pair(kem).unwrap();
        let text = encode(pk.as_slice());
        keys.insert(kem, (sk, pk));
        let mut algorithms: Vec<HPKEParameters> = Vec::new();
        algorithms.push(
            HPKEParameters { kem, mode: *mode, kdf, aead, key: JWKS { enc: None, pk: Some(text) } },
        );
        PinInner { keys, algorithms, records: Vec::new() }
    }

    /// The credentials in the store, each with the name of its record, in the
    /// order of the records. Records that do not parse are passed over.
    pub fn get_cred_lis(&self) -> (creds: Vec<(String, StructuredSingleFileCredential)>)
        ensures
            named_view(creds@) == readable(self.records@),
    {
        let mut creds: Vec<(String, StructuredSingleFileCredential)> = Vec::new();
        let mut i: usize = 0;
        assert(self.records@.subrange(0, 0) =~= Seq::empty());
        assert(named_view(creds@) =~= readable(self.records@.subrange(0, 0)));
        while i < self.records.len()
            invariant
                i <= self.records@.len(),
                named_view(creds@) == readable(self.records@.subrange(0, i as int)),
            decreases self.records@.len() - i,
        {
            let ghost so_far = named_view(creds@);
            assert(self.records@.subrange(0, i + 1).drop_last() =~= self.records@.subrange(
                0,
                i as int,
            ));
            if let Ok(credential) = StructuredSingleFileCredential::from_bytes(
                self.records[i].1.as_slice(),
            ) {
                creds.push((self.records[i].0.clone(), credential));
                assert(named_view(creds@) =~= so_far.push(
                    (self.records@[i as int].0@, credential@),
                ));
            }
            i = i + 1;
        }
        assert(self.records@.subrange(0, i as int) =~= self.records@);
        creds
    }
}

/// A well-formed identity has a key pair for the mechanism of whatever
/// negotiation makes it settle on, so an export never fails for want of one.
pub proof fn lemma_negotiated_mechanism_has_key(pin: PinInner, offered: Seq<HPKEParametersView>)
    requires
        pin.well_formed(),
    ensures
        negotiated_hpke(offered, pin.supported_hpke()) matches Some(chosen)
            ==> pin.keys().contains_key(chosen.kem),
{
    lemma_negotiation_takes_first_common(offered, pin.supported_hpke());
    if let Some(chosen) = negotiated_hpke(offered, pin.supported_hpke()) {
        let supported = pin.supported_hpke();
        let i = choose|i: int| 0 <= i < supported.len() && #[trigger] supported[i].matches(chosen);
        assert(supported[i] == pin.algorithms@[i]@);
    }
}

impl InnerAuthenticator for PinInner {
    type Stored = StructuredSingleFileCredential;

    open spec fn supported_hpke(&self) -> Seq<HPKEParametersView> {
        params_view(self.algorithms@)
    }

    open spec fn supported_archive(&self) -> Seq<ArchiveAlgorithm> {
        seq![ArchiveAlgorithm::Deflate]
    }

    open spec fn keys(&self) -> Map<u16, (Seq<u8>, Seq<u8>)> {
        key_views(self.keys@)
    }

    fn support_algorithms(&self) -> (r: (Vec<HPKEParameters>, Vec<ArchiveAlgorithm>)) {
        let mut algorithms: Vec<HPKEParameters> = Vec::new();
        let mut i: usize = 0;
        while i < self.algorithms.len()
            invariant
                i <= self.algorithms@.len(),
                algorithms@.len() == i,
                forall|j: int| 0 <= j < i ==> (#[trigger] algorithms@[j])@ == self.algorithms@[j]@,
            decreases self.algorithms@.len() - i,
        {
            algorithms.push(self.algorithms[i].duplicate());
            i = i + 1;
        }
        assert(params_view(algorithms@) =~= params_view(self.algorithms@));
        let mut archive: Vec<ArchiveAlgorithm> = Vec::new();
        archive.push(ArchiveAlgorithm::Deflate);
        assert(archive@ =~= seq![ArchiveAlgorithm::Deflate]);
        (algorithms, archive)
    }

    /// The credentials that the records of the store hold, in the order of the
    /// records. This never fails.
    fn get_credentials(&self) -> (r: Result<
        Vec<StructuredSingleFileCredential>,
        AuthenticatorError,
    >)
        ensures
            r matches Ok(credentials) && credentials_view(credentials@) == unnamed(
                readable(self.records@),
            ),
    {
        let mut named = self.get_cred_lis();
        let ghost all = named_view(named@);
        let mut credentials: Vec<StructuredSingleFileCredential> = Vec::new();
        let mut i: usize = 0;
        while i < named.len()
            invariant
                i <= named@.len(),
                named_view(named@) == all,
                credentials@.len() == i,
                forall|j: int| 0 <= j < i ==> (#[trigger] credentials@[j])@ == all[j].1,
            decreases named@.len() - i,
        {
            assert(named_view(named@)[i as int] == all[i as int]);
            let credential = StructuredSingleFileCredential::new(
                named[i].1.get_rp_id(),
                named[i].1.get_credential(),
            );
            credentials.push(credential);
            i = i + 1;
        }
        assert(credentials_view(credentials@) =~= unnamed(all));
        Ok(credentials)
    }

    /// Adds the record of the credential to the store, under a name made up
    /// for it. This never fails.
    fn store_credential<C: Credential>(&mut self, credential: C) -> (r: Result<
        (),
        AuthenticatorError,
    >)
        ensures
            r is Ok,
            final(self).records@.len() == old(self).records@.len() + 1,
            final(self).records@.drop_last() == old(self).records@,
            is_record_name(final(self).records@.last().0@),
            final(self).records@.last().1@ == record(
                CredentialView {
                    rp_id: credential.rp_id_text(),
                    credential: credential.credential_bytes(),
                },
            ),
            final(self).keys@ == old(self).keys@,
            final(self).algorithms@ == old(self).algorithms@,
            old(self).well_formed() ==> final(self).well_formed(),
    {
        let stored = StructuredSingleFileCredential::new(
            credential.get_rp_id(),
            credential.get_credential(),
        );
        let name = random_record_name();
        let ghost before = self.records@;
        self.records.push((name, stored.to_bytes()));
        assert(self.records@.drop_last() =~= before);
        Ok(())
    }

    fn key_pair(&self, kem: u16) -> (r: Option<(Vec<u8>, Vec<u8>)>) {
        broadcast use vstd::std_specs::hash::group_hash_axioms;

        match self.keys.get(&kem) {
            Some(pair) => Some((slice_to_vec(pair.0.as_slice()), slice_to_vec(pair.1.as_slice()))),
            None => None,
        }
    }
}

} // verus!
