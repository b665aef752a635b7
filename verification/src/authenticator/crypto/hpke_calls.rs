//! The calls into the `hpke` crate, and the way to them from a suite that is
//! chosen at run time.
//!
//! The algorithms of `hpke` are types. The first half of this file holds one
//! function for each mode and direction that hands bytes to the instance of
//! `hpke` that three type arguments name; what is stated of such a call is
//! believed, not proved. A sealing function takes the secrets of its mode
//! beside the input, and can only be called where they are the secrets that
//! the input holds, and all of them.
//!
//! The second half picks the instance: every suite has an arm of its own in
//! each of the functions there, and each arm is held to name the types that
//! implement its suite.

use vstd::prelude::*;
use hpke::{Deserializable, Serializable};
use rand::SeedableRng;
use hpke::aead::{AesGcm128, AesGcm256, ChaCha20Poly1305};
use hpke::kdf::{HkdfSha256, HkdfSha384, HkdfSha512};
use hpke::kem::{DhP256HkdfSha256, DhP384HkdfSha384, DhP521HkdfSha512, X25519HkdfSha256};
use crate::authenticator::crypto::agility::{
    AeadAlg, AeadChoice, KdfAlg, KdfChoice, KemAlg, KemChoice, Suite, TAG_LEN,
};
use crate::authenticator::crypto::PskBundle;

verus! {

#[verifier::external_type_specification]
#[verifier::external_body]
pub struct ExHpkeError(hpke::HpkeError);

#[verifier::external_type_specification]
#[verifier::external_body]
pub struct ExStdRng(rand::rngs::StdRng);

/// The secrets of the sender that go into a sealing: its key pair (private
/// key, then public key) where the mode authenticates the sender, and the
/// pre-shared key with its identifier where the mode uses one.
pub struct SealSecrets<'a> {
    pub sender: Option<&'a (Vec<u8>, Vec<u8>)>,
    pub bundle: Option<PskBundle>,
}

/// All that goes into a sealing.
pub struct SealInput<'a> {
    /// The suite to seal under.
    pub suite: Suite,
    /// The secrets of the sender.
    pub secrets: SealSecrets<'a>,
    /// The public key of the recipient.
    pub pk_recip: &'a [u8],
    /// The application info.
    pub info: [u8; 11],
    /// The bytes to encrypt.
    pub plaintext: &'a [u8],
    /// The associated data.
    pub aad: [u8; 15],
}

/// The mathematical value of a key pair that may be absent.
pub open spec fn pair_view(pair: Option<&(Vec<u8>, Vec<u8>)>) -> Option<(Seq<u8>, Seq<u8>)> {
    match pair {
        Some(keys) => Some((keys.0@, keys.1@)),
        None => None,
    }
}

/// The mathematical value of a pre-shared key bundle that may be absent: the
/// key, then its identifier.
pub open spec fn bundle_view(bundle: Option<PskBundle>) -> Option<(Seq<u8>, Seq<u8>)> {
    match bundle {
        Some(b) => Some((b.psk@, b.psk_id@)),
        None => None,
    }
}

/// The mathematical value of a [`SealInput`].
pub struct SealView {
    pub suite: Suite,
    pub sender: Option<(Seq<u8>, Seq<u8>)>,
    pub psk: Option<(Seq<u8>, Seq<u8>)>,
    pub pk_recip: Seq<u8>,
    pub info: Seq<u8>,
    pub plaintext: Seq<u8>,
    pub aad: Seq<u8>,
}

impl View for SealInput<'_> {
    type V = SealView;

    open spec fn view(&self) -> SealView {
        SealView {
            suite: self.suite,
            sender: pair_view(self.secrets.sender),
            psk: bundle_view(self.secrets.bundle),
            pk_recip: self.pk_recip@,
            info: self.info@,
            plaintext: self.plaintext@,
            aad: self.aad@,
        }
    }
}

/// What a recipient hands to the engine: the suite, and the bytes that go in.
/// The sender's public key counts only in the authenticated modes, the bundle
/// only in the pre-shared-key modes.
pub(crate) struct OpenInput<'a> {
    pub(crate) suite: Suite,
    pub(crate) sender: &'a [u8],
    pub(crate) bundle: &'a PskBundle,
    pub(crate) sk_recip: &'a [u8],
    pub(crate) pk_recip: &'a [u8],
    pub(crate) enc: &'a [u8],
    pub(crate) info: &'a [u8],
    pub(crate) ciphertext: &'a [u8],
    pub(crate) aad: &'a [u8],
}

/// What `hpke::single_shot_open` returns for a suite, a mode and keys given as
/// bytes: the plaintext, or nothing where it fails. The suite is given by its
/// three identifiers. `sender` is the sender's public key, present in the two
/// authenticated modes; `psk` is the pre-shared key and its identifier, present
/// in the two pre-shared-key modes. The keys are parsed with `from_bytes`, the
/// recipient's public key among them, and a key that does not parse counts as
/// failure.
pub uninterp spec fn opened(
    kem: u16,
    kdf: u16,
    aead: u16,
    sender: Option<Seq<u8>>,
    psk: Option<(Seq<u8>, Seq<u8>)>,
    sk_recip: Seq<u8>,
    pk_recip: Seq<u8>,
    enc: Seq<u8>,
    info: Seq<u8>,
    ciphertext: Seq<u8>,
    aad: Seq<u8>,
) -> Option<Seq<u8>>;

/// What holds of every sealing that succeeds: the ciphertext is one tag longer
/// than the plaintext, and the encapsulated key is as long as a public key of
/// the mechanism.
pub open spec fn sealed_fits(kem: KemAlg, plaintext_len: nat, sealed: (Vec<u8>, Vec<u8>)) -> bool {
    &&& sealed.0@.len() == plaintext_len + TAG_LEN
    &&& sealed.1@.len() == kem.public_key_len()
}

/// Whether three types implement the three algorithms of `suite`.
pub open spec fn implements<A: AeadChoice, K: KdfChoice, M: KemChoice>(suite: Suite) -> bool {
    suite == (Suite { aead: A::alg(), kdf: K::alg(), kem: M::alg() })
}

/// Whether the keys that every sealing parses have the lengths that the
/// mechanism fixes.
pub open spec fn seal_sized(kem: KemAlg, pk_recip: Seq<u8>) -> bool {
    pk_recip.len() == kem.public_key_len()
}

/// Whether a key pair, private key first, has the lengths that the mechanism
/// fixes.
pub open spec fn pair_sized(kem: KemAlg, sk: Seq<u8>, pk: Seq<u8>) -> bool {
    &&& sk.len() == kem.private_key_len()
    &&& pk.len() == kem.public_key_len()
}

/// Whether what every opening parses has the lengths that the mechanism
/// fixes, and the ciphertext is long enough to hold a tag.
pub open spec fn open_sized(
    kem: KemAlg,
    sk_recip: Seq<u8>,
    pk_recip: Seq<u8>,
    enc: Seq<u8>,
    ciphertext: Seq<u8>,
) -> bool {
    &&& pair_sized(kem, sk_recip, pk_recip)
    &&& enc.len() == kem.public_key_len()
    &&& ciphertext.len() >= TAG_LEN
}

/// Whether the result of a call is the named outcome.
pub open spec fn opens_to(r: Result<Vec<u8>, hpke::HpkeError>, outcome: Option<Seq<u8>>) -> bool {
    match r {
        Ok(plaintext) => outcome == Some(plaintext@),
        Err(_) => outcome is None,
    }
}

/// `StdRng::from_entropy` of `rand`: a generator seeded from the operating
/// system. Nothing is claimed of it. It panics where the system gives no
/// entropy.
#[verifier::external_body]
pub(crate) fn entropy_rng() -> rand::rngs::StdRng {
    rand::rngs::StdRng::from_entropy()
}

/// `Kem::gen_keypair` of `hpke`, with both keys serialised by `to_bytes`:
/// the private key, then the public key. Claimed: the two have the lengths
/// that the mechanism fixes, which are the sizes of the arrays that `to_bytes`
/// returns. (For the curves of NIST, `gen_keypair` panics where 256 candidate
/// keys in a row are out of range, which no run will see.)
#[verifier::external_body]
fn kem_keypair<M: hpke::Kem + KemChoice>(csprng: &mut rand::rngs::StdRng) -> (pair: (
    Vec<u8>,
    Vec<u8>,
))
    ensures
        pair.0@.len() == M::alg().private_key_len(),
        pair.1@.len() == M::alg().public_key_len(),
{
    let (sk, pk) = M::gen_keypair(csprng);
    (sk.to_bytes().to_vec(), pk.to_bytes().to_vec())
}

/// What a sealing fails on before anything is encrypted, as far as lengths
/// tell: a public key of the recipient, or a key of the sender where the
/// sender takes part, of another length than the mechanism fixes.
pub open spec fn missized(input: SealView) -> bool {
    ||| !seal_sized(input.suite.kem, input.pk_recip)
    ||| input.sender matches Some(pair) && !pair_sized(input.suite.kem, pair.0, pair.1)
}

/// `hpke::single_shot_seal` in base mode, to a public key parsed with
/// `from_bytes`. Returns the ciphertext, then the encapsulated key.
///
/// Claimed of a success: the ciphertext is the plaintext's length plus one
/// tag, and the encapsulated key has the length of a public key of the
/// mechanism. Claimed of a key of another length than the mechanism fixes:
/// the call fails, since `from_bytes` refuses the key.
///
/// The three types have to be those that implement the suite of the input, the
/// input has to hold no secrets, and the plaintext's length is bounded because
/// `seal` adds the two lengths.
#[verifier::external_body]
fn seal_base<A: hpke::aead::Aead + AeadChoice, K: hpke::kdf::Kdf + KdfChoice, M: hpke::Kem + KemChoice>(
    input: &SealInput,
    csprng: &mut rand::rngs::StdRng,
) -> (r: Result<(Vec<u8>, Vec<u8>), hpke::HpkeError>)
    requires
        implements::<A, K, M>(input.suite),
        input.plaintext@.len() + TAG_LEN <= usize::MAX,
        input@.sender is None,
        input@.psk is None,
    ensures
        r matches Ok(sealed) ==> sealed_fits(input.suite.kem, input.plaintext@.len(), sealed),
        missized(input@) ==> r is Err,
{
    let pk = M::PublicKey::from_bytes(input.pk_recip)?;
    let mode = hpke::OpModeS::Base;
    let (enc, ct) =
        hpke::single_shot_seal::<A, K, M, _>(&mode, &pk, &input.info, input.plaintext, &input.aad, csprng)?;
    Ok((ct, enc.to_bytes().to_vec()))
}

/// `hpke::single_shot_seal` in pre-shared-key mode, with `bundle`, which has
/// to be the bundle of the input, the only secret it holds. The claims are
/// those of [`seal_base`].
#[verifier::external_body]
fn seal_psk<A: hpke::aead::Aead + AeadChoice, K: hpke::kdf::Kdf + KdfChoice, M: hpke::Kem + KemChoice>(
    input: &SealInput,
    bundle: &PskBundle,
    csprng: &mut rand::rngs::StdRng,
) -> (r: Result<(Vec<u8>, Vec<u8>), hpke::HpkeError>)
    requires
        implements::<A, K, M>(input.suite),
        input.plaintext@.len() + TAG_LEN <= usize::MAX,
        input@.sender is None,
        input@.psk == Some((bundle.psk@, bundle.psk_id@)),
    ensures
        r matches Ok(sealed) ==> sealed_fits(input.suite.kem, input.plaintext@.len(), sealed),
        missized(input@) ==> r is Err,
{
    let pk = M::PublicKey::from_bytes(input.pk_recip)?;
    let mode = hpke::OpModeS::Psk(hpke::PskBundle { psk: &bundle.psk, psk_id: &bundle.psk_id });
    let (enc, ct) =
        hpke::single_shot_seal::<A, K, M, _>(&mode, &pk, &input.info, input.plaintext, &input.aad, csprng)?;
    Ok((ct, enc.to_bytes().to_vec()))
}

/// `hpke::single_shot_seal` in authenticated mode, with `sender`, parsed with
/// `from_bytes`, which has to be the key pair of the input, the only secret it
/// holds. The claims are those of [`seal_base`], and the one on lengths holds
/// of the sender's two keys too.
#[verifier::external_body]
fn seal_auth<A: hpke::aead::Aead + AeadChoice, K: hpke::kdf::Kdf + KdfChoice, M: hpke::Kem + KemChoice>(
    input: &SealInput,
    sender: &(Vec<u8>, Vec<u8>),
    csprng: &mut rand::rngs::StdRng,
) -> (r: Result<(Vec<u8>, Vec<u8>), hpke::HpkeError>)
    requires
        implements::<A, K, M>(input.suite),
        input.plaintext@.len() + TAG_LEN <= usize::MAX,
        input@.sender == Some((sender.0@, sender.1@)),
        input@.psk is None,
    ensures
        r matches Ok(sealed) ==> sealed_fits(input.suite.kem, input.plaintext@.len(), sealed),
        missized(input@) ==> r is Err,
{
    let pk = M::PublicKey::from_bytes(input.pk_recip)?;
    let sk = M::PrivateKey::from_bytes(&sender.0)?;
    let mode = hpke::OpModeS::Auth((sk, M::PublicKey::from_bytes(&sender.1)?));
    let (enc, ct) =
        hpke::single_shot_seal::<A, K, M, _>(&mode, &pk, &input.info, input.plaintext, &input.aad, csprng)?;
    Ok((ct, enc.to_bytes().to_vec()))
}

/// `hpke::single_shot_seal` in authenticated pre-shared-key mode, with
/// `sender` and `bundle`, which have to be the two secrets of the input. The
/// claims are those of [`seal_auth`].
#[verifier::external_body]
fn seal_auth_psk<A: hpke::aead::Aead + AeadChoice, K: hpke::kdf::Kdf + KdfChoice, M: hpke::Kem + KemChoice>(
    input: &SealInput,
    sender: &(Vec<u8>, Vec<u8>),
    bundle: &PskBundle,
    csprng: &mut rand::rngs::StdRng,
) -> (r: Result<(Vec<u8>, Vec<u8>), hpke::HpkeError>)
    requires
        implements::<A, K, M>(input.suite),
        input.plaintext@.len() + TAG_LEN <= usize::MAX,
        input@.sender == Some((sender.0@, sender.1@)),
        input@.psk == Some((bundle.psk@, bundle.psk_id@)),
    ensures
        r matches Ok(sealed) ==> sealed_fits(input.suite.kem, input.plaintext@.len(), sealed),
        missized(input@) ==> r is Err,
{
    let pk = M::PublicKey::from_bytes(input.pk_recip)?;
    let sk = M::PrivateKey::from_bytes(&sender.0)?;
    let keys = (sk, M::PublicKey::from_bytes(&sender.1)?);
    let bundle = hpke::PskBundle { psk: &bundle.psk, psk_id: &bundle.psk_id };
    let mode = hpke::OpModeS::AuthPsk(keys, bundle);
    let (enc, ct) =
        hpke::single_shot_seal::<A, K, M, _>(&mode, &pk, &input.info, input.plaintext, &input.aad, csprng)?;
    Ok((ct, enc.to_bytes().to_vec()))
}

/// `hpke::single_shot_open` in base mode, on keys parsed with `from_bytes`.
/// The recipient's public key is parsed too, and then left aside.
///
/// Claimed: the result is what [`opened`] names. A plaintext is one tag
/// shorter than the ciphertext. The call fails where a key or the encapsulated
/// key has another length than the mechanism fixes, since `from_bytes` refuses
/// it, and where the ciphertext is shorter than a tag.
///
/// The three types have to be those that implement the suite of the input.
#[verifier::external_body]
fn open_base<A: hpke::aead::Aead + AeadChoice, K: hpke::kdf::Kdf + KdfChoice, M: hpke::Kem + KemChoice>(input: &OpenInput) -> (r: Result<Vec<u8>, hpke::HpkeError>)
    requires
        implements::<A, K, M>(input.suite),
    ensures
        opens_to(
            r,
            opened(
                input.suite.kem.id(),
                input.suite.kdf.id(),
                input.suite.aead.id(),
                None,
                None,
                input.sk_recip@,
                input.pk_recip@,
                input.enc@,
                input.info@,
                input.ciphertext@,
                input.aad@,
            ),
        ),
        r matches Ok(plaintext) ==> plaintext@.len() + TAG_LEN == input.ciphertext@.len(),
        !open_sized(input.suite.kem, input.sk_recip@, input.pk_recip@, input.enc@, input.ciphertext@) ==> r is Err,
{
    let sk = M::PrivateKey::from_bytes(input.sk_recip)?;
    M::PublicKey::from_bytes(input.pk_recip)?;
    let enc = M::EncappedKey::from_bytes(input.enc)?;
    let mode = hpke::OpModeR::Base;
    hpke::single_shot_open::<A, K, M>(&mode, &sk, &enc, input.info, input.ciphertext, input.aad)
}

/// `hpke::single_shot_open` in pre-shared-key mode. The claims are those of
/// [`open_base`].
#[verifier::external_body]
fn open_psk<A: hpke::aead::Aead + AeadChoice, K: hpke::kdf::Kdf + KdfChoice, M: hpke::Kem + KemChoice>(input: &OpenInput) -> (r: Result<Vec<u8>, hpke::HpkeError>)
    requires
        implements::<A, K, M>(input.suite),
    ensures
        opens_to(
            r,
            opened(
                input.suite.kem.id(),
                input.suite.kdf.id(),
                input.suite.aead.id(),
                None,
                Some((input.bundle.psk@, input.bundle.psk_id@)),
                input.sk_recip@,
                input.pk_recip@,
                input.enc@,
                input.info@,
                input.ciphertext@,
                input.aad@,
            ),
        ),
        r matches Ok(plaintext) ==> plaintext@.len() + TAG_LEN == input.ciphertext@.len(),
        !open_sized(input.suite.kem, input.sk_recip@, input.pk_recip@, input.enc@, input.ciphertext@) ==> r is Err,
{
    let sk = M::PrivateKey::from_bytes(input.sk_recip)?;
    M::PublicKey::from_bytes(input.pk_recip)?;
    let enc = M::EncappedKey::from_bytes(input.enc)?;
    let bundle = hpke::PskBundle { psk: &input.bundle.psk, psk_id: &input.bundle.psk_id };
    let mode = hpke::OpModeR::Psk(bundle);
    hpke::single_shot_open::<A, K, M>(&mode, &sk, &enc, input.info, input.ciphertext, input.aad)
}

/// `hpke::single_shot_open` in authenticated mode, with the sender's public
/// key parsed with `from_bytes`. The claims are those of [`open_base`], and
/// the one on lengths holds of the sender's key too.
#[verifier::external_body]
fn open_auth<A: hpke::aead::Aead + AeadChoice, K: hpke::kdf::Kdf + KdfChoice, M: hpke::Kem + KemChoice>(input: &OpenInput) -> (r: Result<Vec<u8>, hpke::HpkeError>)
    requires
        implements::<A, K, M>(input.suite),
    ensures
        opens_to(
            r,
            opened(
                input.suite.kem.id(),
                input.suite.kdf.id(),
                input.suite.aead.id(),
                Some(input.sender@),
                None,
                input.sk_recip@,
                input.pk_recip@,
                input.enc@,
                input.info@,
                input.ciphertext@,
                input.aad@,
            ),
        ),
        r matches Ok(plaintext) ==> plaintext@.len() + TAG_LEN == input.ciphertext@.len(),
        !open_sized(input.suite.kem, input.sk_recip@, input.pk_recip@, input.enc@, input.ciphertext@) ==> r is Err,
        input.sender@.len() != input.suite.kem.public_key_len() ==> r is Err,
{
    let sk = M::PrivateKey::from_bytes(input.sk_recip)?;
    M::PublicKey::from_bytes(input.pk_recip)?;
    let enc = M::EncappedKey::from_bytes(input.enc)?;
    let mode = hpke::OpModeR::Auth(M::PublicKey::from_bytes(input.sender)?);
    hpke::single_shot_open::<A, K, M>(&mode, &sk, &enc, input.info, input.ciphertext, input.aad)
}

/// `hpke::single_shot_open` in authenticated pre-shared-key mode. The claims
/// are those of [`open_auth`].
#[verifier::external_body]
fn open_auth_psk<A: hpke::aead::Aead + AeadChoice, K: hpke::kdf::Kdf + KdfChoice, M: hpke::Kem + KemChoice>(input: &OpenInput) -> (r: Result<Vec<u8>, hpke::HpkeError>)
    requires
        implements::<A, K, M>(input.suite),
    ensures
        opens_to(
            r,
            opened(
                input.suite.kem.id(),
                input.suite.kdf.id(),
                input.suite.aead.id(),
                Some(input.sender@),
                Some((input.bundle.psk@, input.bundle.psk_id@)),
                input.sk_recip@,
                input.pk_recip@,
                input.enc@,
                input.info@,
                input.ciphertext@,
                input.aad@,
            ),
        ),
        r matches Ok(plaintext) ==> plaintext@.len() + TAG_LEN == input.ciphertext@.len(),
        !open_sized(input.suite.kem, input.sk_recip@, input.pk_recip@, input.enc@, input.ciphertext@) ==> r is Err,
        input.sender@.len() != input.suite.kem.public_key_len() ==> r is Err,
{
    let sk = M::PrivateKey::from_bytes(input.sk_recip)?;
    M::PublicKey::from_bytes(input.pk_recip)?;
    let enc = M::EncappedKey::from_bytes(input.enc)?;
    let sender = M::PublicKey::from_bytes(input.sender)?;
    let bundle = hpke::PskBundle { psk: &input.bundle.psk, psk_id: &input.bundle.psk_id };
    let mode = hpke::OpModeR::AuthPsk(sender, bundle);
    hpke::single_shot_open::<A, K, M>(&mode, &sk, &enc, input.info, input.ciphertext, input.aad)
}

/// Draws a key pair for a mechanism: the private key, then the public key.
pub(crate) fn keypair_for(kem: KemAlg, csprng: &mut rand::rngs::StdRng) -> (pair: (
    Vec<u8>,
    Vec<u8>,
))
    ensures
        pair.0@.len() == kem.private_key_len(),
        pair.1@.len() == kem.public_key_len(),
{
    match kem {
        KemAlg::DhP256HkdfSha256 => kem_keypair::<DhP256HkdfSha256>(csprng),
        KemAlg::DhP384HkdfSha384 => kem_keypair::<DhP384HkdfSha384>(csprng),
        KemAlg::DhP521HkdfSha512 => kem_keypair::<DhP521HkdfSha512>(csprng),
        KemAlg::X25519HkdfSha256 => kem_keypair::<X25519HkdfSha256>(csprng),
    }
}

/// Seals in base mode under the suite of the input.
pub(crate) fn seal_base_under(
    input: &SealInput,
    csprng: &mut rand::rngs::StdRng,
) -> (r: Result<(Vec<u8>, Vec<u8>), hpke::HpkeError>)
    requires
        input.plaintext@.len() + TAG_LEN <= usize::MAX,
        input@.sender is None,
        input@.psk is None,
    ensures
        r matches Ok(sealed) ==> sealed_fits(input.suite.kem, input.plaintext@.len(), sealed),
        missized(input@) ==> r is Err,
{
    match (input.suite.aead, input.suite.kdf, input.suite.kem) {
        (AeadAlg::AesGcm128, KdfAlg::HkdfSha256, KemAlg::DhP256HkdfSha256) => seal_base::<AesGcm128, HkdfSha256, DhP256HkdfSha256>(input, csprng),
        (AeadAlg::AesGcm128, KdfAlg::HkdfSha256, KemAlg::DhP384HkdfSha384) => seal_base::<AesGcm128, HkdfSha256, DhP384HkdfSha384>(input, csprng),
        (AeadAlg::AesGcm128, KdfAlg::HkdfSha256, KemAlg::DhP521HkdfSha512) => seal_base::<AesGcm128, HkdfSha256, DhP521HkdfSha512>(input, csprng),
        (AeadAlg::AesGcm128, KdfAlg::HkdfSha256, KemAlg::X25519HkdfSha256) => seal_base::<AesGcm128, HkdfSha256, X25519HkdfSha256>(input, csprng),
        (AeadAlg::AesGcm128, KdfAlg::HkdfSha384, KemAlg::DhP256HkdfSha256) => seal_base::<AesGcm128, HkdfSha384, DhP256HkdfSha256>(input, csprng),
        (AeadAlg::AesGcm128, KdfAlg::HkdfSha384, KemAlg::DhP384HkdfSha384) => seal_base::<AesGcm128, HkdfSha384, DhP384HkdfSha384>(input, csprng),
        (AeadAlg::AesGcm128, KdfAlg::HkdfSha384, KemAlg::DhP521HkdfSha512) => seal_base::<AesGcm128, HkdfSha384, DhP521HkdfSha512>(input, csprng),
        (AeadAlg::AesGcm128, KdfAlg::HkdfSha384, KemAlg::X25519HkdfSha256) => seal_base::<AesGcm128, HkdfSha384, X25519HkdfSha256>(input, csprng),
        (AeadAlg::AesGcm128, KdfAlg::HkdfSha512, KemAlg::DhP256HkdfSha256) => seal_base::<AesGcm128, HkdfSha512, DhP256HkdfSha256>(input, csprng),
        (AeadAlg::AesGcm128, KdfAlg::HkdfSha512, KemAlg::DhP384HkdfSha384) => seal_base::<AesGcm128, HkdfSha512, DhP384HkdfSha384>(input, csprng),
        (AeadAlg::AesGcm128, KdfAlg::HkdfSha512, KemAlg::DhP521HkdfSha512) => seal_base::<AesGcm128, HkdfSha512, DhP521HkdfSha512>(input, csprng),
        (AeadAlg::AesGcm128, KdfAlg::HkdfSha512, KemAlg::X25519HkdfSha256) => seal_base::<AesGcm128, HkdfSha512, X25519HkdfSha256>(input, csprng),
        (AeadAlg::AesGcm256, KdfAlg::HkdfSha256, KemAlg::DhP256HkdfSha256) => seal_base::<AesGcm256, HkdfSha256, DhP256HkdfSha256>(input, csprng),
        (AeadAlg::AesGcm256, KdfAlg::HkdfSha256, KemAlg::DhP384HkdfSha384) => seal_base::<AesGcm256, HkdfSha256, DhP384HkdfSha384>(input, csprng),
        (AeadAlg::AesGcm256, KdfAlg::HkdfSha256, KemAlg::DhP521HkdfSha512) => seal_base::<AesGcm256, HkdfSha256, DhP521HkdfSha512>(input, csprng),
        (AeadAlg::AesGcm256, KdfAlg::HkdfSha256, KemAlg::X25519HkdfSha256) => seal_base::<AesGcm256, HkdfSha256, X25519HkdfSha256>(input, csprng),
        (AeadAlg::AesGcm256, KdfAlg::HkdfSha384, KemAlg::DhP256HkdfSha256) => seal_base::<AesGcm256, HkdfSha384, DhP256HkdfSha256>(input, csprng),
        (AeadAlg::AesGcm256, KdfAlg::HkdfSha384, KemAlg::DhP384HkdfSha384) => seal_base::<AesGcm256, HkdfSha384, DhP384HkdfSha384>(input, csprng),
        (AeadAlg::AesGcm256, KdfAlg::HkdfSha384, KemAlg::DhP521HkdfSha512) => seal_base::<AesGcm256, HkdfSha384, DhP521HkdfSha512>(input, csprng),
        (AeadAlg::AesGcm256, KdfAlg::HkdfSha384, KemAlg::X25519HkdfSha256) => seal_base::<AesGcm256, HkdfSha384, X25519HkdfSha256>(input, csprng),
        (AeadAlg::AesGcm256, KdfAlg::HkdfSha512, KemAlg::DhP256HkdfSha256) => seal_base::<AesGcm256, HkdfSha512, DhP256HkdfSha256>(input, csprng),
        (AeadAlg::AesGcm256, KdfAlg::HkdfSha512, KemAlg::DhP384HkdfSha384) => seal_base::<AesGcm256, HkdfSha512, DhP384HkdfSha384>(input, csprng),
        (AeadAlg::AesGcm256, KdfAlg::HkdfSha512, KemAlg::DhP521HkdfSha512) => seal_base::<AesGcm256, HkdfSha512, DhP521HkdfSha512>(input, csprng),
        (AeadAlg::AesGcm256, KdfAlg::HkdfSha512, KemAlg::X25519HkdfSha256) => seal_base::<AesGcm256, HkdfSha512, X25519HkdfSha256>(input, csprng),
        (AeadAlg::ChaCha20Poly1305, KdfAlg::HkdfSha256, KemAlg::DhP256HkdfSha256) => seal_base::<ChaCha20Poly1305, HkdfSha256, DhP256HkdfSha256>(input, csprng),
        (AeadAlg::ChaCha20Poly1305, KdfAlg::HkdfSha256, KemAlg::DhP384HkdfSha384) => seal_base::<ChaCha20Poly1305, HkdfSha256, DhP384HkdfSha384>(input, csprng),
        (AeadAlg::ChaCha20Poly1305, KdfAlg::HkdfSha256, KemAlg::DhP521HkdfSha512) => seal_base::<ChaCha20Poly1305, HkdfSha256, DhP521HkdfSha512>(input, csprng),
        (AeadAlg::ChaCha20Poly1305, KdfAlg::HkdfSha256, KemAlg::X25519HkdfSha256) => seal_base::<ChaCha20Poly1305, HkdfSha256, X25519HkdfSha256>(input, csprng),
        (AeadAlg::ChaCha20Poly1305, KdfAlg::HkdfSha384, KemAlg::DhP256HkdfSha256) => seal_base::<ChaCha20Poly1305, HkdfSha384, DhP256HkdfSha256>(input, csprng),
        (AeadAlg::ChaCha20Poly1305, KdfAlg::HkdfSha384, KemAlg::DhP384HkdfSha384) => seal_base::<ChaCha20Poly1305, HkdfSha384, DhP384HkdfSha384>(input, csprng),
        (AeadAlg::ChaCha20Poly1305, KdfAlg::HkdfSha384, KemAlg::DhP521HkdfSha512) => seal_base::<ChaCha20Poly1305, HkdfSha384, DhP521HkdfSha512>(input, csprng),
        (AeadAlg::ChaCha20Poly1305, KdfAlg::HkdfSha384, KemAlg::X25519HkdfSha256) => seal_base::<ChaCha20Poly1305, HkdfSha384, X25519HkdfSha256>(input, csprng),
        (AeadAlg::ChaCha20Poly1305, KdfAlg::HkdfSha512, KemAlg::DhP256HkdfSha256) => seal_base::<ChaCha20Poly1305, HkdfSha512, DhP256HkdfSha256>(input, csprng),
        (AeadAlg::ChaCha20Poly1305, KdfAlg::HkdfSha512, KemAlg::DhP384HkdfSha384) => seal_base::<ChaCha20Poly1305, HkdfSha512, DhP384HkdfSha384>(input, csprng),
        (AeadAlg::ChaCha20Poly1305, KdfAlg::HkdfSha512, KemAlg::DhP521HkdfSha512) => seal_base::<ChaCha20Poly1305, HkdfSha512, DhP521HkdfSha512>(input, csprng),
        (AeadAlg::ChaCha20Poly1305, KdfAlg::HkdfSha512, KemAlg::X25519HkdfSha256) => seal_base::<ChaCha20Poly1305, HkdfSha512, X25519HkdfSha256>(input, csprng),
    }
}

/// Seals in pre-shared-key mode under the suite of the input.
pub(crate) fn seal_psk_under(
    input: &SealInput,
    bundle: &PskBundle,
    csprng: &mut rand::rngs::StdRng,
) -> (r: Result<(Vec<u8>, Vec<u8>), hpke::HpkeError>)
    requires
        input.plaintext@.len() + TAG_LEN <= usize::MAX,
        input@.sender is None,
        input@.psk == Some((bundle.psk@, bundle.psk_id@)),
    ensures
        r matches Ok(sealed) ==> sealed_fits(input.suite.kem, input.plaintext@.len(), sealed),
        missized(input@) ==> r is Err,
{
    match (input.suite.aead, input.suite.kdf, input.suite.kem) {
        (AeadAlg::AesGcm128, KdfAlg::HkdfSha256, KemAlg::DhP256HkdfSha256) => seal_psk::<AesGcm128, HkdfSha256, DhP256HkdfSha256>(input, bundle, csprng),
        (AeadAlg::AesGcm128, KdfAlg::HkdfSha256, KemAlg::DhP384HkdfSha384) => seal_psk::<AesGcm128, HkdfSha256, DhP384HkdfSha384>(input, bundle, csprng),
        (AeadAlg::AesGcm128, KdfAlg::HkdfSha256, KemAlg::DhP521HkdfSha512) => seal_psk::<AesGcm128, HkdfSha256, DhP521HkdfSha512>(input, bundle, csprng),
        (AeadAlg::AesGcm128, KdfAlg::HkdfSha256, KemAlg::X25519HkdfSha256) => seal_psk::<AesGcm128, HkdfSha256, X25519HkdfSha256>(input, bundle, csprng),
        (AeadAlg::AesGcm128, KdfAlg::HkdfSha384, KemAlg::DhP256HkdfSha256) => seal_psk::<AesGcm128, HkdfSha384, DhP256HkdfSha256>(input, bundle, csprng),
        (AeadAlg::AesGcm128, KdfAlg::HkdfSha384, KemAlg::DhP384HkdfSha384) => seal_psk::<AesGcm128, HkdfSha384, DhP384HkdfSha384>(input, bundle, csprng),
        (AeadAlg::AesGcm128, KdfAlg::HkdfSha384, KemAlg::DhP521HkdfSha512) => seal_psk::<AesGcm128, HkdfSha384, DhP521HkdfSha512>(input, bundle, csprng),
        (AeadAlg::AesGcm128, KdfAlg::HkdfSha384, KemAlg::X25519HkdfSha256) => seal_psk::<AesGcm128, HkdfSha384, X25519HkdfSha256>(input, bundle, csprng),
        (AeadAlg::AesGcm128, KdfAlg::HkdfSha512, KemAlg::DhP256HkdfSha256) => seal_psk::<AesGcm128, HkdfSha512, DhP256HkdfSha256>(input, bundle, csprng),
        (AeadAlg::AesGcm128, KdfAlg::HkdfSha512, KemAlg::DhP384HkdfSha384) => seal_psk::<AesGcm128, HkdfSha512, DhP384HkdfSha384>(input, bundle, csprng),
        (AeadAlg::AesGcm128, KdfAlg::HkdfSha512, KemAlg::DhP521HkdfSha512) => seal_psk::<AesGcm128, HkdfSha512, DhP521HkdfSha512>(input, bundle, csprng),
        (AeadAlg::AesGcm128, KdfAlg::HkdfSha512, KemAlg::X25519HkdfSha256) => seal_psk::<AesGcm128, HkdfSha512, X25519HkdfSha256>(input, bundle, csprng),
        (AeadAlg::AesGcm256, KdfAlg::HkdfSha256, KemAlg::DhP256HkdfSha256) => seal_psk::<AesGcm256, HkdfSha256, DhP256HkdfSha256>(input, bundle, csprng),
        (AeadAlg::AesGcm256, KdfAlg::HkdfSha256, KemAlg::DhP384HkdfSha384) => seal_psk::<AesGcm256, HkdfSha256, DhP384HkdfSha384>(input, bundle, csprng),
        (AeadAlg::AesGcm256, KdfAlg::HkdfSha256, KemAlg::DhP521HkdfSha512) => seal_psk::<AesGcm256, HkdfSha256, DhP521HkdfSha512>(input, bundle, csprng),
        (AeadAlg::AesGcm256, KdfAlg::HkdfSha256, KemAlg::X25519HkdfSha256) => seal_psk::<AesGcm256, HkdfSha256, X25519HkdfSha256>(input, bundle, csprng),
        (AeadAlg::AesGcm256, KdfAlg::HkdfSha384, KemAlg::DhP256HkdfSha256) => seal_psk::<AesGcm256, HkdfSha384, DhP256HkdfSha256>(input, bundle, csprng),
        (AeadAlg::AesGcm256, KdfAlg::HkdfSha384, KemAlg::DhP384HkdfSha384) => seal_psk::<AesGcm256, HkdfSha384, DhP384HkdfSha384>(input, bundle, csprng),
        (AeadAlg::AesGcm256, KdfAlg::HkdfSha384, KemAlg::DhP521HkdfSha512) => seal_psk::<AesGcm256, HkdfSha384, DhP521HkdfSha512>(input, bundle, csprng),
        (AeadAlg::AesGcm256, KdfAlg::HkdfSha384, KemAlg::X25519HkdfSha256) => seal_psk::<AesGcm256, HkdfSha384, X25519HkdfSha256>(input, bundle, csprng),
        (AeadAlg::AesGcm256, KdfAlg::HkdfSha512, KemAlg::DhP256HkdfSha256) => seal_psk::<AesGcm256, HkdfSha512, DhP256HkdfSha256>(input, bundle, csprng),
        (AeadAlg::AesGcm256, KdfAlg::HkdfSha512, KemAlg::DhP384HkdfSha384) => seal_psk::<AesGcm256, HkdfSha512, DhP384HkdfSha384>(input, bundle, csprng),
        (AeadAlg::AesGcm256, KdfAlg::HkdfSha512, KemAlg::DhP521HkdfSha512) => seal_psk::<AesGcm256, HkdfSha512, DhP521HkdfSha512>(input, bundle, csprng),
        (AeadAlg::AesGcm256, KdfAlg::HkdfSha512, KemAlg::X25519HkdfSha256) => seal_psk::<AesGcm256, HkdfSha512, X25519HkdfSha256>(input, bundle, csprng),
        (AeadAlg::ChaCha20Poly1305, KdfAlg::HkdfSha256, KemAlg::DhP256HkdfSha256) => seal_psk::<ChaCha20Poly1305, HkdfSha256, DhP256HkdfSha256>(input, bundle, csprng),
        (AeadAlg::ChaCha20Poly1305, KdfAlg::HkdfSha256, KemAlg::DhP384HkdfSha384) => seal_psk::<ChaCha20Poly1305, HkdfSha256, DhP384HkdfSha384>(input, bundle, csprng),
        (AeadAlg::ChaCha20Poly1305, KdfAlg::HkdfSha256, KemAlg::DhP521HkdfSha512) => seal_psk::<ChaCha20Poly1305, HkdfSha256, DhP521HkdfSha512>(input, bundle, csprng),
        (AeadAlg::ChaCha20Poly1305, KdfAlg::HkdfSha256, KemAlg::X25519HkdfSha256) => seal_psk::<ChaCha20Poly1305, HkdfSha256, X25519HkdfSha256>(input, bundle, csprng),
        (AeadAlg::ChaCha20Poly1305, KdfAlg::HkdfSha384, KemAlg::DhP256HkdfSha256) => seal_psk::<ChaCha20Poly1305, HkdfSha384, DhP256HkdfSha256>(input, bundle, csprng),
        (AeadAlg::ChaCha20Poly1305, KdfAlg::HkdfSha384, KemAlg::DhP384HkdfSha384) => seal_psk::<ChaCha20Poly1305, HkdfSha384, DhP384HkdfSha384>(input, bundle, csprng),
        (AeadAlg::ChaCha20Poly1305, KdfAlg::HkdfSha384, KemAlg::DhP521HkdfSha512) => seal_psk::<ChaCha20Poly1305, HkdfSha384, DhP521HkdfSha512>(input, bundle, csprng),
        (AeadAlg::ChaCha20Poly1305, KdfAlg::HkdfSha384, KemAlg::X25519HkdfSha256) => seal_psk::<ChaCha20Poly1305, HkdfSha384, X25519HkdfSha256>(input, bundle, csprng),
        (AeadAlg::ChaCha20Poly1305, KdfAlg::HkdfSha512, KemAlg::DhP256HkdfSha256) => seal_psk::<ChaCha20Poly1305, HkdfSha512, DhP256HkdfSha256>(input, bundle, csprng),
        (AeadAlg::ChaCha20Poly1305, KdfAlg::HkdfSha512, KemAlg::DhP384HkdfSha384) => seal_psk::<ChaCha20Poly1305, HkdfSha512, DhP384HkdfSha384>(input, bundle, csprng),
        (AeadAlg::ChaCha20Poly1305, KdfAlg::HkdfSha512, KemAlg::DhP521HkdfSha512) => seal_psk::<ChaCha20Poly1305, HkdfSha512, DhP521HkdfSha512>(input, bundle, csprng),
        (AeadAlg::ChaCha20Poly1305, KdfAlg::HkdfSha512, KemAlg::X25519HkdfSha256) => seal_psk::<ChaCha20Poly1305, HkdfSha512, X25519HkdfSha256>(input, bundle, csprng),
    }
}

/// Seals in authenticated mode under the suite of the input.
pub(crate) fn seal_auth_under(
    input: &SealInput,
    sender: &(Vec<u8>, Vec<u8>),
    csprng: &mut rand::rngs::StdRng,
) -> (r: Result<(Vec<u8>, Vec<u8>), hpke::HpkeError>)
    requires
        input.plaintext@.len() + TAG_LEN <= usize::MAX,
        input@.sender == Some((sender.0@, sender.1@)),
        input@.psk is None,
    ensures
        r matches Ok(sealed) ==> sealed_fits(input.suite.kem, input.plaintext@.len(), sealed),
        missized(input@) ==> r is Err,
{
    match (input.suite.aead, input.suite.kdf, input.suite.kem) {
        (AeadAlg::AesGcm128, KdfAlg::HkdfSha256, KemAlg::DhP256HkdfSha256) => seal_auth::<AesGcm128, HkdfSha256, DhP256HkdfSha256>(input, sender, csprng),
        (AeadAlg::AesGcm128, KdfAlg::HkdfSha256, KemAlg::DhP384HkdfSha384) => seal_auth::<AesGcm128, HkdfSha256, DhP384HkdfSha384>(input, sender, csprng),
        (AeadAlg::AesGcm128, KdfAlg::HkdfSha256, KemAlg::DhP521HkdfSha512) => seal_auth::<AesGcm128, HkdfSha256, DhP521HkdfSha512>(input, sender, csprng),
        (AeadAlg::AesGcm128, KdfAlg::HkdfSha256, KemAlg::X25519HkdfSha256) => seal_auth::<AesGcm128, HkdfSha256, X25519HkdfSha256>(input, sender, csprng),
        (AeadAlg::AesGcm128, KdfAlg::HkdfSha384, KemAlg::DhP256HkdfSha256) => seal_auth::<AesGcm128, HkdfSha384, DhP256HkdfSha256>(input, sender, csprng),
        (AeadAlg::AesGcm128, KdfAlg::HkdfSha384, KemAlg::DhP384HkdfSha384) => seal_auth::<AesGcm128, HkdfSha384, DhP384HkdfSha384>(input, sender, csprng),
        (AeadAlg::AesGcm128, KdfAlg::HkdfSha384, KemAlg::DhP521HkdfSha512) => seal_auth::<AesGcm128, HkdfSha384, DhP521HkdfSha512>(input, sender, csprng),
        (AeadAlg::AesGcm128, KdfAlg::HkdfSha384, KemAlg::X25519HkdfSha256) => seal_auth::<AesGcm128, HkdfSha384, X25519HkdfSha256>(input, sender, csprng),
        (AeadAlg::AesGcm128, KdfAlg::HkdfSha512, KemAlg::DhP256HkdfSha256) => seal_auth::<AesGcm128, HkdfSha512, DhP256HkdfSha256>(input, sender, csprng),
        (AeadAlg::AesGcm128, KdfAlg::HkdfSha512, KemAlg::DhP384HkdfSha384) => seal_auth::<AesGcm128, HkdfSha512, DhP384HkdfSha384>(input, sender, csprng),
        (AeadAlg::AesGcm128, KdfAlg::HkdfSha512, KemAlg::DhP521HkdfSha512) => seal_auth::<AesGcm128, HkdfSha512, DhP521HkdfSha512>(input, sender, csprng),
        (AeadAlg::AesGcm128, KdfAlg::HkdfSha512, KemAlg::X25519HkdfSha256) => seal_auth::<AesGcm128, HkdfSha512, X25519HkdfSha256>(input, sender, csprng),
        (AeadAlg::AesGcm256, KdfAlg::HkdfSha256, KemAlg::DhP256HkdfSha256) => seal_auth::<AesGcm256, HkdfSha256, DhP256HkdfSha256>(input, sender, csprng),
        (AeadAlg::AesGcm256, KdfAlg::HkdfSha256, KemAlg::DhP384HkdfSha384) => seal_auth::<AesGcm256, HkdfSha256, DhP384HkdfSha384>(input, sender, csprng),
        (AeadAlg::AesGcm256, KdfAlg::HkdfSha256, KemAlg::DhP521HkdfSha512) => seal_auth::<AesGcm256, HkdfSha256, DhP521HkdfSha512>(input, sender, csprng),
        (AeadAlg::AesGcm256, KdfAlg::HkdfSha256, KemAlg::X25519HkdfSha256) => seal_auth::<AesGcm256, HkdfSha256, X25519HkdfSha256>(input, sender, csprng),
        (AeadAlg::AesGcm256, KdfAlg::HkdfSha384, KemAlg::DhP256HkdfSha256) => seal_auth::<AesGcm256, HkdfSha384, DhP256HkdfSha256>(input, sender, csprng),
        (AeadAlg::AesGcm256, KdfAlg::HkdfSha384, KemAlg::DhP384HkdfSha384) => seal_auth::<AesGcm256, HkdfSha384, DhP384HkdfSha384>(input, sender, csprng),
        (AeadAlg::AesGcm256, KdfAlg::HkdfSha384, KemAlg::DhP521HkdfSha512) => seal_auth::<AesGcm256, HkdfSha384, DhP521HkdfSha512>(input, sender, csprng),
        (AeadAlg::AesGcm256, KdfAlg::HkdfSha384, KemAlg::X25519HkdfSha256) => seal_auth::<AesGcm256, HkdfSha384, X25519HkdfSha256>(input, sender, csprng),
        (AeadAlg::AesGcm256, KdfAlg::HkdfSha512, KemAlg::DhP256HkdfSha256) => seal_auth::<AesGcm256, HkdfSha512, DhP256HkdfSha256>(input, sender, csprng),
        (AeadAlg::AesGcm256, KdfAlg::HkdfSha512, KemAlg::DhP384HkdfSha384) => seal_auth::<AesGcm256, HkdfSha512, DhP384HkdfSha384>(input, sender, csprng),
        (AeadAlg::AesGcm256, KdfAlg::HkdfSha512, KemAlg::DhP521HkdfSha512) => seal_auth::<AesGcm256, HkdfSha512, DhP521HkdfSha512>(input, sender, csprng),
        (AeadAlg::AesGcm256, KdfAlg::HkdfSha512, KemAlg::X25519HkdfSha256) => seal_auth::<AesGcm256, HkdfSha512, X25519HkdfSha256>(input, sender, csprng),
        (AeadAlg::ChaCha20Poly1305, KdfAlg::HkdfSha256, KemAlg::DhP256HkdfSha256) => seal_auth::<ChaCha20Poly1305, HkdfSha256, DhP256HkdfSha256>(input, sender, csprng),
        (AeadAlg::ChaCha20Poly1305, KdfAlg::HkdfSha256, KemAlg::DhP384HkdfSha384) => seal_auth::<ChaCha20Poly1305, HkdfSha256, DhP384HkdfSha384>(input, sender, csprng),
        (AeadAlg::ChaCha20Poly1305, KdfAlg::HkdfSha256, KemAlg::DhP521HkdfSha512) => seal_auth::<ChaCha20Poly1305, HkdfSha256, DhP521HkdfSha512>(input, sender, csprng),
        (AeadAlg::ChaCha20Poly1305, KdfAlg::HkdfSha256, KemAlg::X25519HkdfSha256) => seal_auth::<ChaCha20Poly1305, HkdfSha256, X25519HkdfSha256>(input, sender, csprng),
        (AeadAlg::ChaCha20Poly1305, KdfAlg::HkdfSha384, KemAlg::DhP256HkdfSha256) => seal_auth::<ChaCha20Poly1305, HkdfSha384, DhP256HkdfSha256>(input, sender, csprng),
        (AeadAlg::ChaCha20Poly1305, KdfAlg::HkdfSha384, KemAlg::DhP384HkdfSha384) => seal_auth::<ChaCha20Poly1305, HkdfSha384, DhP384HkdfSha384>(input, sender, csprng),
        (AeadAlg::ChaCha20Poly1305, KdfAlg::HkdfSha384, KemAlg::DhP521HkdfSha512) => seal_auth::<ChaCha20Poly1305, HkdfSha384, DhP521HkdfSha512>(input, sender, csprng),
        (AeadAlg::ChaCha20Poly1305, KdfAlg::HkdfSha384, KemAlg::X25519HkdfSha256) => seal_auth::<ChaCha20Poly1305, HkdfSha384, X25519HkdfSha256>(input, sender, csprng),
        (AeadAlg::ChaCha20Poly1305, KdfAlg::HkdfSha512, KemAlg::DhP256HkdfSha256) => seal_auth::<ChaCha20Poly1305, HkdfSha512, DhP256HkdfSha256>(input, sender, csprng),
        (AeadAlg::ChaCha20Poly1305, KdfAlg::HkdfSha512, KemAlg::DhP384HkdfSha384) => seal_auth::<ChaCha20Poly1305, HkdfSha512, DhP384HkdfSha384>(input, sender, csprng),
        (AeadAlg::ChaCha20Poly1305, KdfAlg::HkdfSha512, KemAlg::DhP521HkdfSha512) => seal_auth::<ChaCha20Poly1305, HkdfSha512, DhP521HkdfSha512>(input, sender, csprng),
        (AeadAlg::ChaCha20Poly1305, KdfAlg::HkdfSha512, KemAlg::X25519HkdfSha256) => seal_auth::<ChaCha20Poly1305, HkdfSha512, X25519HkdfSha256>(input, sender, csprng),
    }
}

/// Seals in authenticated pre-shared-key mode under the suite of the input.
pub(crate) fn seal_auth_psk_under(
    input: &SealInput,
    sender: &(Vec<u8>, Vec<u8>),
    bundle: &PskBundle,
    csprng: &mut rand::rngs::StdRng,
) -> (r: Result<(Vec<u8>, Vec<u8>), hpke::HpkeError>)
    requires
        input.plaintext@.len() + TAG_LEN <= usize::MAX,
        input@.sender == Some((sender.0@, sender.1@)),
        input@.psk == Some((bundle.psk@, bundle.psk_id@)),
    ensures
        r matches Ok(sealed) ==> sealed_fits(input.suite.kem, input.plaintext@.len(), sealed),
        missized(input@) ==> r is Err,
{
    match (input.suite.aead, input.suite.kdf, input.suite.kem) {
        (AeadAlg::AesGcm128, KdfAlg::HkdfSha256, KemAlg::DhP256HkdfSha256) => seal_auth_psk::<AesGcm128, HkdfSha256, DhP256HkdfSha256>(input, sender, bundle, csprng),
        (AeadAlg::AesGcm128, KdfAlg::HkdfSha256, KemAlg::DhP384HkdfSha384) => seal_auth_psk::<AesGcm128, HkdfSha256, DhP384HkdfSha384>(input, sender, bundle, csprng),
        (AeadAlg::AesGcm128, KdfAlg::HkdfSha256, KemAlg::DhP521HkdfSha512) => seal_auth_psk::<AesGcm128, HkdfSha256, DhP521HkdfSha512>(input, sender, bundle, csprng),
        (AeadAlg::AesGcm128, KdfAlg::HkdfSha256, KemAlg::X25519HkdfSha256) => seal_auth_psk::<AesGcm128, HkdfSha256, X25519HkdfSha256>(input, sender, bundle, csprng),
        (AeadAlg::AesGcm128, KdfAlg::HkdfSha384, KemAlg::DhP256HkdfSha256) => seal_auth_psk::<AesGcm128, HkdfSha384, DhP256HkdfSha256>(input, sender, bundle, csprng),
        (AeadAlg::AesGcm128, KdfAlg::HkdfSha384, KemAlg::DhP384HkdfSha384) => seal_auth_psk::<AesGcm128, HkdfSha384, DhP384HkdfSha384>(input, sender, bundle, csprng),
        (AeadAlg::AesGcm128, KdfAlg::HkdfSha384, KemAlg::DhP521HkdfSha512) => seal_auth_psk::<AesGcm128, HkdfSha384, DhP521HkdfSha512>(input, sender, bundle, csprng),
        (AeadAlg::AesGcm128, KdfAlg::HkdfSha384, KemAlg::X25519HkdfSha256) => seal_auth_psk::<AesGcm128, HkdfSha384, X25519HkdfSha256>(input, sender, bundle, csprng),
        (AeadAlg::AesGcm128, KdfAlg::HkdfSha512, KemAlg::DhP256HkdfSha256) => seal_auth_psk::<AesGcm128, HkdfSha512, DhP256HkdfSha256>(input, sender, bundle, csprng),
        (AeadAlg::AesGcm128, KdfAlg::HkdfSha512, KemAlg::DhP384HkdfSha384) => seal_auth_psk::<AesGcm128, HkdfSha512, DhP384HkdfSha384>(input, sender, bundle, csprng),
        (AeadAlg::AesGcm128, KdfAlg::HkdfSha512, KemAlg::DhP521HkdfSha512) => seal_auth_psk::<AesGcm128, HkdfSha512, DhP521HkdfSha512>(input, sender, bundle, csprng),
        (AeadAlg::AesGcm128, KdfAlg::HkdfSha512, KemAlg::X25519HkdfSha256) => seal_auth_psk::<AesGcm128, HkdfSha512, X25519HkdfSha256>(input, sender, bundle, csprng),
        (AeadAlg::AesGcm256, KdfAlg::HkdfSha256, KemAlg::DhP256HkdfSha256) => seal_auth_psk::<AesGcm256, HkdfSha256, DhP256HkdfSha256>(input, sender, bundle, csprng),
        (AeadAlg::AesGcm256, KdfAlg::HkdfSha256, KemAlg::DhP384HkdfSha384) => seal_auth_psk::<AesGcm256, HkdfSha256, DhP384HkdfSha384>(input, sender, bundle, csprng),
        (AeadAlg::AesGcm256, KdfAlg::HkdfSha256, KemAlg::DhP521HkdfSha512) => seal_auth_psk::<AesGcm256, HkdfSha256, DhP521HkdfSha512>(input, sender, bundle, csprng),
        (AeadAlg::AesGcm256, KdfAlg::HkdfSha256, KemAlg::X25519HkdfSha256) => seal_auth_psk::<AesGcm256, HkdfSha256, X25519HkdfSha256>(input, sender, bundle, csprng),
        (AeadAlg::AesGcm256, KdfAlg::HkdfSha384, KemAlg::DhP256HkdfSha256) => seal_auth_psk::<AesGcm256, HkdfSha384, DhP256HkdfSha256>(input, sender, bundle, csprng),
        (AeadAlg::AesGcm256, KdfAlg::HkdfSha384, KemAlg::DhP384HkdfSha384) => seal_auth_psk::<AesGcm256, HkdfSha384, DhP384HkdfSha384>(input, sender, bundle, csprng),
        (AeadAlg::AesGcm256, KdfAlg::HkdfSha384, KemAlg::DhP521HkdfSha512) => seal_auth_psk::<AesGcm256, HkdfSha384, DhP521HkdfSha512>(input, sender, bundle, csprng),
        (AeadAlg::AesGcm256, KdfAlg::HkdfSha384, KemAlg::X25519HkdfSha256) => seal_auth_psk::<AesGcm256, HkdfSha384, X25519HkdfSha256>(input, sender, bundle, csprng),
        (AeadAlg::AesGcm256, KdfAlg::HkdfSha512, KemAlg::DhP256HkdfSha256) => seal_auth_psk::<AesGcm256, HkdfSha512, DhP256HkdfSha256>(input, sender, bundle, csprng),
        (AeadAlg::AesGcm256, KdfAlg::HkdfSha512, KemAlg::DhP384HkdfSha384) => seal_auth_psk::<AesGcm256, HkdfSha512, DhP384HkdfSha384>(input, sender, bundle, csprng),
        (AeadAlg::AesGcm256, KdfAlg::HkdfSha512, KemAlg::DhP521HkdfSha512) => seal_auth_psk::<AesGcm256, HkdfSha512, DhP521HkdfSha512>(input, sender, bundle, csprng),
        (AeadAlg::AesGcm256, KdfAlg::HkdfSha512, KemAlg::X25519HkdfSha256) => seal_auth_psk::<AesGcm256, HkdfSha512, X25519HkdfSha256>(input, sender, bundle, csprng),
        (AeadAlg::ChaCha20Poly1305, KdfAlg::HkdfSha256, KemAlg::DhP256HkdfSha256) => seal_auth_psk::<ChaCha20Poly1305, HkdfSha256, DhP256HkdfSha256>(input, sender, bundle, csprng),
        (AeadAlg::ChaCha20Poly1305, KdfAlg::HkdfSha256, KemAlg::DhP384HkdfSha384) => seal_auth_psk::<ChaCha20Poly1305, HkdfSha256, DhP384HkdfSha384>(input, sender, bundle, csprng),
        (AeadAlg::ChaCha20Poly1305, KdfAlg::HkdfSha256, KemAlg::DhP521HkdfSha512) => seal_auth_psk::<ChaCha20Poly1305, HkdfSha256, DhP521HkdfSha512>(input, sender, bundle, csprng),
        (AeadAlg::ChaCha20Poly1305, KdfAlg::HkdfSha256, KemAlg::X25519HkdfSha256) => seal_auth_psk::<ChaCha20Poly1305, HkdfSha256, X25519HkdfSha256>(input, sender, bundle, csprng),
        (AeadAlg::ChaCha20Poly1305, KdfAlg::HkdfSha384, KemAlg::DhP256HkdfSha256) => seal_auth_psk::<ChaCha20Poly1305, HkdfSha384, DhP256HkdfSha256>(input, sender, bundle, csprng),
        (AeadAlg::ChaCha20Poly1305, KdfAlg::HkdfSha384, KemAlg::DhP384HkdfSha384) => seal_auth_psk::<ChaCha20Poly1305, HkdfSha384, DhP384HkdfSha384>(input, sender, bundle, csprng),
        (AeadAlg::ChaCha20Poly1305, KdfAlg::HkdfSha384, KemAlg::DhP521HkdfSha512) => seal_auth_psk::<ChaCha20Poly1305, HkdfSha384, DhP521HkdfSha512>(input, sender, bundle, csprng),
        (AeadAlg::ChaCha20Poly1305, KdfAlg::HkdfSha384, KemAlg::X25519HkdfSha256) => seal_auth_psk::<ChaCha20Poly1305, HkdfSha384, X25519HkdfSha256>(input, sender, bundle, csprng),
        (AeadAlg::ChaCha20Poly1305, KdfAlg::HkdfSha512, KemAlg::DhP256HkdfSha256) => seal_auth_psk::<ChaCha20Poly1305, HkdfSha512, DhP256HkdfSha256>(input, sender, bundle, csprng),
        (AeadAlg::ChaCha20Poly1305, KdfAlg::HkdfSha512, KemAlg::DhP384HkdfSha384) => seal_auth_psk::<ChaCha20Poly1305, HkdfSha512, DhP384HkdfSha384>(input, sender, bundle, csprng),
        (AeadAlg::ChaCha20Poly1305, KdfAlg::HkdfSha512, KemAlg::DhP521HkdfSha512) => seal_auth_psk::<ChaCha20Poly1305, HkdfSha512, DhP521HkdfSha512>(input, sender, bundle, csprng),
        (AeadAlg::ChaCha20Poly1305, KdfAlg::HkdfSha512, KemAlg::X25519HkdfSha256) => seal_auth_psk::<ChaCha20Poly1305, HkdfSha512, X25519HkdfSha256>(input, sender, bundle, csprng),
    }
}

/// Opens in base mode under the suite of the input.
pub(crate) fn open_base_under(input: &OpenInput) -> (r: Result<Vec<u8>, hpke::HpkeError>)
    ensures
        opens_to(
            r,
            opened(
                input.suite.kem.id(),
                input.suite.kdf.id(),
                input.suite.aead.id(),
                None,
                None,
                input.sk_recip@,
                input.pk_recip@,
                input.enc@,
                input.info@,
                input.ciphertext@,
                input.aad@,
            ),
        ),
        r matches Ok(plaintext) ==> plaintext@.len() + TAG_LEN == input.ciphertext@.len(),
        !open_sized(input.suite.kem, input.sk_recip@, input.pk_recip@, input.enc@, input.ciphertext@) ==> r is Err,
{
    match (input.suite.aead, input.suite.kdf, input.suite.kem) {
        (AeadAlg::AesGcm128, KdfAlg::HkdfSha256, KemAlg::DhP256HkdfSha256) => open_base::<AesGcm128, HkdfSha256, DhP256HkdfSha256>(input),
        (AeadAlg::AesGcm128, KdfAlg::HkdfSha256, KemAlg::DhP384HkdfSha384) => open_base::<AesGcm128, HkdfSha256, DhP384HkdfSha384>(input),
        (AeadAlg::AesGcm128, KdfAlg::HkdfSha256, KemAlg::DhP521HkdfSha512) => open_base::<AesGcm128, HkdfSha256, DhP521HkdfSha512>(input),
        (AeadAlg::AesGcm128, KdfAlg::HkdfSha256, KemAlg::X25519HkdfSha256) => open_base::<AesGcm128, HkdfSha256, X25519HkdfSha256>(input),
        (AeadAlg::AesGcm128, KdfAlg::HkdfSha384, KemAlg::DhP256HkdfSha256) => open_base::<AesGcm128, HkdfSha384, DhP256HkdfSha256>(input),
        (AeadAlg::AesGcm128, KdfAlg::HkdfSha384, KemAlg::DhP384HkdfSha384) => open_base::<AesGcm128, HkdfSha384, DhP384HkdfSha384>(input),
        (AeadAlg::AesGcm128, KdfAlg::HkdfSha384, KemAlg::DhP521HkdfSha512) => open_base::<AesGcm128, HkdfSha384, DhP521HkdfSha512>(input),
        (AeadAlg::AesGcm128, KdfAlg::HkdfSha384, KemAlg::X25519HkdfSha256) => open_base::<AesGcm128, HkdfSha384, X25519HkdfSha256>(input),
        (AeadAlg::AesGcm128, KdfAlg::HkdfSha512, KemAlg::DhP256HkdfSha256) => open_base::<AesGcm128, HkdfSha512, DhP256HkdfSha256>(input),
        (AeadAlg::AesGcm128, KdfAlg::HkdfSha512, KemAlg::DhP384HkdfSha384) => open_base::<AesGcm128, HkdfSha512, DhP384HkdfSha384>(input),
        (AeadAlg::AesGcm128, KdfAlg::HkdfSha512, KemAlg::DhP521HkdfSha512) => open_base::<AesGcm128, HkdfSha512, DhP521HkdfSha512>(input),
        (AeadAlg::AesGcm128, KdfAlg::HkdfSha512, KemAlg::X25519HkdfSha256) => open_base::<AesGcm128, HkdfSha512, X25519HkdfSha256>(input),
        (AeadAlg::AesGcm256, KdfAlg::HkdfSha256, KemAlg::DhP256HkdfSha256) => open_base::<AesGcm256, HkdfSha256, DhP256HkdfSha256>(input),
        (AeadAlg::AesGcm256, KdfAlg::HkdfSha256, KemAlg::DhP384HkdfSha384) => open_base::<AesGcm256, HkdfSha256, DhP384HkdfSha384>(input),
        (AeadAlg::AesGcm256, KdfAlg::HkdfSha256, KemAlg::DhP521HkdfSha512) => open_base::<AesGcm256, HkdfSha256, DhP521HkdfSha512>(input),
        (AeadAlg::AesGcm256, KdfAlg::HkdfSha256, KemAlg::X25519HkdfSha256) => open_base::<AesGcm256, HkdfSha256, X25519HkdfSha256>(input),
        (AeadAlg::AesGcm256, KdfAlg::HkdfSha384, KemAlg::DhP256HkdfSha256) => open_base::<AesGcm256, HkdfSha384, DhP256HkdfSha256>(input),
        (AeadAlg::AesGcm256, KdfAlg::HkdfSha384, KemAlg::DhP384HkdfSha384) => open_base::<AesGcm256, HkdfSha384, DhP384HkdfSha384>(input),
        (AeadAlg::AesGcm256, KdfAlg::HkdfSha384, KemAlg::DhP521HkdfSha512) => open_base::<AesGcm256, HkdfSha384, DhP521HkdfSha512>(input),
        (AeadAlg::AesGcm256, KdfAlg::HkdfSha384, KemAlg::X25519HkdfSha256) => open_base::<AesGcm256, HkdfSha384, X25519HkdfSha256>(input),
        (AeadAlg::AesGcm256, KdfAlg::HkdfSha512, KemAlg::DhP256HkdfSha256) => open_base::<AesGcm256, HkdfSha512, DhP256HkdfSha256>(input),
        (AeadAlg::AesGcm256, KdfAlg::HkdfSha512, KemAlg::DhP384HkdfSha384) => open_base::<AesGcm256, HkdfSha512, DhP384HkdfSha384>(input),
        (AeadAlg::AesGcm256, KdfAlg::HkdfSha512, KemAlg::DhP521HkdfSha512) => open_base::<AesGcm256, HkdfSha512, DhP521HkdfSha512>(input),
        (AeadAlg::AesGcm256, KdfAlg::HkdfSha512, KemAlg::X25519HkdfSha256) => open_base::<AesGcm256, HkdfSha512, X25519HkdfSha256>(input),
        (AeadAlg::ChaCha20Poly1305, KdfAlg::HkdfSha256, KemAlg::DhP256HkdfSha256) => open_base::<ChaCha20Poly1305, HkdfSha256, DhP256HkdfSha256>(input),
        (AeadAlg::ChaCha20Poly1305, KdfAlg::HkdfSha256, KemAlg::DhP384HkdfSha384) => open_base::<ChaCha20Poly1305, HkdfSha256, DhP384HkdfSha384>(input),
        (AeadAlg::ChaCha20Poly1305, KdfAlg::HkdfSha256, KemAlg::DhP521HkdfSha512) => open_base::<ChaCha20Poly1305, HkdfSha256, DhP521HkdfSha512>(input),
        (AeadAlg::ChaCha20Poly1305, KdfAlg::HkdfSha256, KemAlg::X25519HkdfSha256) => open_base::<ChaCha20Poly1305, HkdfSha256, X25519HkdfSha256>(input),
        (AeadAlg::ChaCha20Poly1305, KdfAlg::HkdfSha384, KemAlg::DhP256HkdfSha256) => open_base::<ChaCha20Poly1305, HkdfSha384, DhP256HkdfSha256>(input),
        (AeadAlg::ChaCha20Poly1305, KdfAlg::HkdfSha384, KemAlg::DhP384HkdfSha384) => open_base::<ChaCha20Poly1305, HkdfSha384, DhP384HkdfSha384>(input),
        (AeadAlg::ChaCha20Poly1305, KdfAlg::HkdfSha384, KemAlg::DhP521HkdfSha512) => open_base::<ChaCha20Poly1305, HkdfSha384, DhP521HkdfSha512>(input),
        (AeadAlg::ChaCha20Poly1305, KdfAlg::HkdfSha384, KemAlg::X25519HkdfSha256) => open_base::<ChaCha20Poly1305, HkdfSha384, X25519HkdfSha256>(input),
        (AeadAlg::ChaCha20Poly1305, KdfAlg::HkdfSha512, KemAlg::DhP256HkdfSha256) => open_base::<ChaCha20Poly1305, HkdfSha512, DhP256HkdfSha256>(input),
        (AeadAlg::ChaCha20Poly1305, KdfAlg::HkdfSha512, KemAlg::DhP384HkdfSha384) => open_base::<ChaCha20Poly1305, HkdfSha512, DhP384HkdfSha384>(input),
        (AeadAlg::ChaCha20Poly1305, KdfAlg::HkdfSha512, KemAlg::DhP521HkdfSha512) => open_base::<ChaCha20Poly1305, HkdfSha512, DhP521HkdfSha512>(input),
        (AeadAlg::ChaCha20Poly1305, KdfAlg::HkdfSha512, KemAlg::X25519HkdfSha256) => open_base::<ChaCha20Poly1305, HkdfSha512, X25519HkdfSha256>(input),
    }
}

/// Opens in pre-shared-key mode under the suite of the input.
pub(crate) fn open_psk_under(input: &OpenInput) -> (r: Result<Vec<u8>, hpke::HpkeError>)
    ensures
        opens_to(
            r,
            opened(
                input.suite.kem.id(),
                input.suite.kdf.id(),
                input.suite.aead.id(),
                None,
                Some((input.bundle.psk@, input.bundle.psk_id@)),
                input.sk_recip@,
                input.pk_recip@,
                input.enc@,
                input.info@,
                input.ciphertext@,
                input.aad@,
            ),
        ),
        r matches Ok(plaintext) ==> plaintext@.len() + TAG_LEN == input.ciphertext@.len(),
        !open_sized(input.suite.kem, input.sk_recip@, input.pk_recip@, input.enc@, input.ciphertext@) ==> r is Err,
{
    match (input.suite.aead, input.suite.kdf, input.suite.kem) {
        (AeadAlg::AesGcm128, KdfAlg::HkdfSha256, KemAlg::DhP256HkdfSha256) => open_psk::<AesGcm128, HkdfSha256, DhP256HkdfSha256>(input),
        (AeadAlg::AesGcm128, KdfAlg::HkdfSha256, KemAlg::DhP384HkdfSha384) => open_psk::<AesGcm128, HkdfSha256, DhP384HkdfSha384>(input),
        (AeadAlg::AesGcm128, KdfAlg::HkdfSha256, KemAlg::DhP521HkdfSha512) => open_psk::<AesGcm128, HkdfSha256, DhP521HkdfSha512>(input),
        (AeadAlg::AesGcm128, KdfAlg::HkdfSha256, KemAlg::X25519HkdfSha256) => open_psk::<AesGcm128, HkdfSha256, X25519HkdfSha256>(input),
        (AeadAlg::AesGcm128, KdfAlg::HkdfSha384, KemAlg::DhP256HkdfSha256) => open_psk::<AesGcm128, HkdfSha384, DhP256HkdfSha256>(input),
        (AeadAlg::AesGcm128, KdfAlg::HkdfSha384, KemAlg::DhP384HkdfSha384) => open_psk::<AesGcm128, HkdfSha384, DhP384HkdfSha384>(input),
        (AeadAlg::AesGcm128, KdfAlg::HkdfSha384, KemAlg::DhP521HkdfSha512) => open_psk::<AesGcm128, HkdfSha384, DhP521HkdfSha512>(input),
        (AeadAlg::AesGcm128, KdfAlg::HkdfSha384, KemAlg::X25519HkdfSha256) => open_psk::<AesGcm128, HkdfSha384, X25519HkdfSha256>(input),
        (AeadAlg::AesGcm128, KdfAlg::HkdfSha512, KemAlg::DhP256HkdfSha256) => open_psk::<AesGcm128, HkdfSha512, DhP256HkdfSha256>(input),
        (AeadAlg::AesGcm128, KdfAlg::HkdfSha512, KemAlg::DhP384HkdfSha384) => open_psk::<AesGcm128, HkdfSha512, DhP384HkdfSha384>(input),
        (AeadAlg::AesGcm128, KdfAlg::HkdfSha512, KemAlg::DhP521HkdfSha512) => open_psk::<AesGcm128, HkdfSha512, DhP521HkdfSha512>(input),
        (AeadAlg::AesGcm128, KdfAlg::HkdfSha512, KemAlg::X25519HkdfSha256) => open_psk::<AesGcm128, HkdfSha512, X25519HkdfSha256>(input),
        (AeadAlg::AesGcm256, KdfAlg::HkdfSha256, KemAlg::DhP256HkdfSha256) => open_psk::<AesGcm256, HkdfSha256, DhP256HkdfSha256>(input),
        (AeadAlg::AesGcm256, KdfAlg::HkdfSha256, KemAlg::DhP384HkdfSha384) => open_psk::<AesGcm256, HkdfSha256, DhP384HkdfSha384>(input),
        (AeadAlg::AesGcm256, KdfAlg::HkdfSha256, KemAlg::DhP521HkdfSha512) => open_psk::<AesGcm256, HkdfSha256, DhP521HkdfSha512>(input),
        (AeadAlg::AesGcm256, KdfAlg::HkdfSha256, KemAlg::X25519HkdfSha256) => open_psk::<AesGcm256, HkdfSha256, X25519HkdfSha256>(input),
        (AeadAlg::AesGcm256, KdfAlg::HkdfSha384, KemAlg::DhP256HkdfSha256) => open_psk::<AesGcm256, HkdfSha384, DhP256HkdfSha256>(input),
        (AeadAlg::AesGcm256, KdfAlg::HkdfSha384, KemAlg::DhP384HkdfSha384) => open_psk::<AesGcm256, HkdfSha384, DhP384HkdfSha384>(input),
        (AeadAlg::AesGcm256, KdfAlg::HkdfSha384, KemAlg::DhP521HkdfSha512) => open_psk::<AesGcm256, HkdfSha384, DhP521HkdfSha512>(input),
        (AeadAlg::AesGcm256, KdfAlg::HkdfSha384, KemAlg::X25519HkdfSha256) => open_psk::<AesGcm256, HkdfSha384, X25519HkdfSha256>(input),
        (AeadAlg::AesGcm256, KdfAlg::HkdfSha512, KemAlg::DhP256HkdfSha256) => open_psk::<AesGcm256, HkdfSha512, DhP256HkdfSha256>(input),
        (AeadAlg::AesGcm256, KdfAlg::HkdfSha512, KemAlg::DhP384HkdfSha384) => open_psk::<AesGcm256, HkdfSha512, DhP384HkdfSha384>(input),
        (AeadAlg::AesGcm256, KdfAlg::HkdfSha512, KemAlg::DhP521HkdfSha512) => open_psk::<AesGcm256, HkdfSha512, DhP521HkdfSha512>(input),
        (AeadAlg::AesGcm256, KdfAlg::HkdfSha512, KemAlg::X25519HkdfSha256) => open_psk::<AesGcm256, HkdfSha512, X25519HkdfSha256>(input),
        (AeadAlg::ChaCha20Poly1305, KdfAlg::HkdfSha256, KemAlg::DhP256HkdfSha256) => open_psk::<ChaCha20Poly1305, HkdfSha256, DhP256HkdfSha256>(input),
        (AeadAlg::ChaCha20Poly1305, KdfAlg::HkdfSha256, KemAlg::DhP384HkdfSha384) => open_psk::<ChaCha20Poly1305, HkdfSha256, DhP384HkdfSha384>(input),
        (AeadAlg::ChaCha20Poly1305, KdfAlg::HkdfSha256, KemAlg::DhP521HkdfSha512) => open_psk::<ChaCha20Poly1305, HkdfSha256, DhP521HkdfSha512>(input),
        (AeadAlg::ChaCha20Poly1305, KdfAlg::HkdfSha256, KemAlg::X25519HkdfSha256) => open_psk::<ChaCha20Poly1305, HkdfSha256, X25519HkdfSha256>(input),
        (AeadAlg::ChaCha20Poly1305, KdfAlg::HkdfSha384, KemAlg::DhP256HkdfSha256) => open_psk::<ChaCha20Poly1305, HkdfSha384, DhP256HkdfSha256>(input),
        (AeadAlg::ChaCha20Poly1305, KdfAlg::HkdfSha384, KemAlg::DhP384HkdfSha384) => open_psk::<ChaCha20Poly1305, HkdfSha384, DhP384HkdfSha384>(input),
        (AeadAlg::ChaCha20Poly1305, KdfAlg::HkdfSha384, KemAlg::DhP521HkdfSha512) => open_psk::<ChaCha20Poly1305, HkdfSha384, DhP521HkdfSha512>(input),
        (AeadAlg::ChaCha20Poly1305, KdfAlg::HkdfSha384, KemAlg::X25519HkdfSha256) => open_psk::<ChaCha20Poly1305, HkdfSha384, X25519HkdfSha256>(input),
        (AeadAlg::ChaCha20Poly1305, KdfAlg::HkdfSha512, KemAlg::DhP256HkdfSha256) => open_psk::<ChaCha20Poly1305, HkdfSha512, DhP256HkdfSha256>(input),
        (AeadAlg::ChaCha20Poly1305, KdfAlg::HkdfSha512, KemAlg::DhP384HkdfSha384) => open_psk::<ChaCha20Poly1305, HkdfSha512, DhP384HkdfSha384>(input),
        (AeadAlg::ChaCha20Poly1305, KdfAlg::HkdfSha512, KemAlg::DhP521HkdfSha512) => open_psk::<ChaCha20Poly1305, HkdfSha512, DhP521HkdfSha512>(input),
        (AeadAlg::ChaCha20Poly1305, KdfAlg::HkdfSha512, KemAlg::X25519HkdfSha256) => open_psk::<ChaCha20Poly1305, HkdfSha512, X25519HkdfSha256>(input),
    }
}

/// Opens in authenticated mode under the suite of the input.
pub(crate) fn open_auth_under(input: &OpenInput) -> (r: Result<Vec<u8>, hpke::HpkeError>)
    ensures
        opens_to(
            r,
            opened(
                input.suite.kem.id(),
                input.suite.kdf.id(),
                input.suite.aead.id(),
                Some(input.sender@),
                None,
                input.sk_recip@,
                input.pk_recip@,
                input.enc@,
                input.info@,
                input.ciphertext@,
                input.aad@,
            ),
        ),
        r matches Ok(plaintext) ==> plaintext@.len() + TAG_LEN == input.ciphertext@.len(),
        !open_sized(input.suite.kem, input.sk_recip@, input.pk_recip@, input.enc@, input.ciphertext@) ==> r is Err,
        input.sender@.len() != input.suite.kem.public_key_len() ==> r is Err,
{
    match (input.suite.aead, input.suite.kdf, input.suite.kem) {
        (AeadAlg::AesGcm128, KdfAlg::HkdfSha256, KemAlg::DhP256HkdfSha256) => open_auth::<AesGcm128, HkdfSha256, DhP256HkdfSha256>(input),
        (AeadAlg::AesGcm128, KdfAlg::HkdfSha256, KemAlg::DhP384HkdfSha384) => open_auth::<AesGcm128, HkdfSha256, DhP384HkdfSha384>(input),
        (AeadAlg::AesGcm128, KdfAlg::HkdfSha256, KemAlg::DhP521HkdfSha512) => open_auth::<AesGcm128, HkdfSha256, DhP521HkdfSha512>(input),
        (AeadAlg::AesGcm128, KdfAlg::HkdfSha256, KemAlg::X25519HkdfSha256) => open_auth::<AesGcm128, HkdfSha256, X25519HkdfSha256>(input),
        (AeadAlg::AesGcm128, KdfAlg::HkdfSha384, KemAlg::DhP256HkdfSha256) => open_auth::<AesGcm128, HkdfSha384, DhP256HkdfSha256>(input),
        (AeadAlg::AesGcm128, KdfAlg::HkdfSha384, KemAlg::DhP384HkdfSha384) => open_auth::<AesGcm128, HkdfSha384, DhP384HkdfSha384>(input),
        (AeadAlg::AesGcm128, KdfAlg::HkdfSha384, KemAlg::DhP521HkdfSha512) => open_auth::<AesGcm128, HkdfSha384, DhP521HkdfSha512>(input),
        (AeadAlg::AesGcm128, KdfAlg::HkdfSha384, KemAlg::X25519HkdfSha256) => open_auth::<AesGcm128, HkdfSha384, X25519HkdfSha256>(input),
        (AeadAlg::AesGcm128, KdfAlg::HkdfSha512, KemAlg::DhP256HkdfSha256) => open_auth::<AesGcm128, HkdfSha512, DhP256HkdfSha256>(input),
        (AeadAlg::AesGcm128, KdfAlg::HkdfSha512, KemAlg::DhP384HkdfSha384) => open_auth::<AesGcm128, HkdfSha512, DhP384HkdfSha384>(input),
        (AeadAlg::AesGcm128, KdfAlg::HkdfSha512, KemAlg::DhP521HkdfSha512) => open_auth::<AesGcm128, HkdfSha512, DhP521HkdfSha512>(input),
        (AeadAlg::AesGcm128, KdfAlg::HkdfSha512, KemAlg::X25519HkdfSha256) => open_auth::<AesGcm128, HkdfSha512, X25519HkdfSha256>(input),
        (AeadAlg::AesGcm256, KdfAlg::HkdfSha256, KemAlg::DhP256HkdfSha256) => open_auth::<AesGcm256, HkdfSha256, DhP256HkdfSha256>(input),
        (AeadAlg::AesGcm256, KdfAlg::HkdfSha256, KemAlg::DhP384HkdfSha384) => open_auth::<AesGcm256, HkdfSha256, DhP384HkdfSha384>(input),
        (AeadAlg::AesGcm256, KdfAlg::HkdfSha256, KemAlg::DhP521HkdfSha512) => open_auth::<AesGcm256, HkdfSha256, DhP521HkdfSha512>(input),
        (AeadAlg::AesGcm256, KdfAlg::HkdfSha256, KemAlg::X25519HkdfSha256) => open_auth::<AesGcm256, HkdfSha256, X25519HkdfSha256>(input),
        (AeadAlg::AesGcm256, KdfAlg::HkdfSha384, KemAlg::DhP256HkdfSha256) => open_auth::<AesGcm256, HkdfSha384, DhP256HkdfSha256>(input),
        (AeadAlg::AesGcm256, KdfAlg::HkdfSha384, KemAlg::DhP384HkdfSha384) => open_auth::<AesGcm256, HkdfSha384, DhP384HkdfSha384>(input),
        (AeadAlg::AesGcm256, KdfAlg::HkdfSha384, KemAlg::DhP521HkdfSha512) => open_auth::<AesGcm256, HkdfSha384, DhP521HkdfSha512>(input),
        (AeadAlg::AesGcm256, KdfAlg::HkdfSha384, KemAlg::X25519HkdfSha256) => open_auth::<AesGcm256, HkdfSha384, X25519HkdfSha256>(input),
        (AeadAlg::AesGcm256, KdfAlg::HkdfSha512, KemAlg::DhP256HkdfSha256) => open_auth::<AesGcm256, HkdfSha512, DhP256HkdfSha256>(input),
        (AeadAlg::AesGcm256, KdfAlg::HkdfSha512, KemAlg::DhP384HkdfSha384) => open_auth::<AesGcm256, HkdfSha512, DhP384HkdfSha384>(input),
        (AeadAlg::AesGcm256, KdfAlg::HkdfSha512, KemAlg::DhP521HkdfSha512) => open_auth::<AesGcm256, HkdfSha512, DhP521HkdfSha512>(input),
        (AeadAlg::AesGcm256, KdfAlg::HkdfSha512, KemAlg::X25519HkdfSha256) => open_auth::<AesGcm256, HkdfSha512, X25519HkdfSha256>(input),
        (AeadAlg::ChaCha20Poly1305, KdfAlg::HkdfSha256, KemAlg::DhP256HkdfSha256) => open_auth::<ChaCha20Poly1305, HkdfSha256, DhP256HkdfSha256>(input),
        (AeadAlg::ChaCha20Poly1305, KdfAlg::HkdfSha256, KemAlg::DhP384HkdfSha384) => open_auth::<ChaCha20Poly1305, HkdfSha256, DhP384HkdfSha384>(input),
        (AeadAlg::ChaCha20Poly1305, KdfAlg::HkdfSha256, KemAlg::DhP521HkdfSha512) => open_auth::<ChaCha20Poly1305, HkdfSha256, DhP521HkdfSha512>(input),
        (AeadAlg::ChaCha20Poly1305, KdfAlg::HkdfSha256, KemAlg::X25519HkdfSha256) => open_auth::<ChaCha20Poly1305, HkdfSha256, X25519HkdfSha256>(input),
        (AeadAlg::ChaCha20Poly1305, KdfAlg::HkdfSha384, KemAlg::DhP256HkdfSha256) => open_auth::<ChaCha20Poly1305, HkdfSha384, DhP256HkdfSha256>(input),
        (AeadAlg::ChaCha20Poly1305, KdfAlg::HkdfSha384, KemAlg::DhP384HkdfSha384) => open_auth::<ChaCha20Poly1305, HkdfSha384, DhP384HkdfSha384>(input),
        (AeadAlg::ChaCha20Poly1305, KdfAlg::HkdfSha384, KemAlg::DhP521HkdfSha512) => open_auth::<ChaCha20Poly1305, HkdfSha384, DhP521HkdfSha512>(input),
        (AeadAlg::ChaCha20Poly1305, KdfAlg::HkdfSha384, KemAlg::X25519HkdfSha256) => open_auth::<ChaCha20Poly1305, HkdfSha384, X25519HkdfSha256>(input),
        (AeadAlg::ChaCha20Poly1305, KdfAlg::HkdfSha512, KemAlg::DhP256HkdfSha256) => open_auth::<ChaCha20Poly1305, HkdfSha512, DhP256HkdfSha256>(input),
        (AeadAlg::ChaCha20Poly1305, KdfAlg::HkdfSha512, KemAlg::DhP384HkdfSha384) => open_auth::<ChaCha20Poly1305, HkdfSha512, DhP384HkdfSha384>(input),
        (AeadAlg::ChaCha20Poly1305, KdfAlg::HkdfSha512, KemAlg::DhP521HkdfSha512) => open_auth::<ChaCha20Poly1305, HkdfSha512, DhP521HkdfSha512>(input),
        (AeadAlg::ChaCha20Poly1305, KdfAlg::HkdfSha512, KemAlg::X25519HkdfSha256) => open_auth::<ChaCha20Poly1305, HkdfSha512, X25519HkdfSha256>(input),
    }
}

/// Opens in authenticated pre-shared-key mode under the suite of the input.
pub(crate) fn open_auth_psk_under(input: &OpenInput) -> (r: Result<Vec<u8>, hpke::HpkeError>)
    ensures
        opens_to(
            r,
            opened(
                input.suite.kem.id(),
                input.suite.kdf.id(),
                input.suite.aead.id(),
                Some(input.sender@),
                Some((input.bundle.psk@, input.bundle.psk_id@)),
                input.sk_recip@,
                input.pk_recip@,
                input.enc@,
                input.info@,
                input.ciphertext@,
                input.aad@,
            ),
        ),
        r matches Ok(plaintext) ==> plaintext@.len() + TAG_LEN == input.ciphertext@.len(),
        !open_sized(input.suite.kem, input.sk_recip@, input.pk_recip@, input.enc@, input.ciphertext@) ==> r is Err,
        input.sender@.len() != input.suite.kem.public_key_len() ==> r is Err,
{
    match (input.suite.aead, input.suite.kdf, input.suite.kem) {
        (AeadAlg::AesGcm128, KdfAlg::HkdfSha256, KemAlg::DhP256HkdfSha256) => open_auth_psk::<AesGcm128, HkdfSha256, DhP256HkdfSha256>(input),
        (AeadAlg::AesGcm128, KdfAlg::HkdfSha256, KemAlg::DhP384HkdfSha384) => open_auth_psk::<AesGcm128, HkdfSha256, DhP384HkdfSha384>(input),
        (AeadAlg::AesGcm128, KdfAlg::HkdfSha256, KemAlg::DhP521HkdfSha512) => open_auth_psk::<AesGcm128, HkdfSha256, DhP521HkdfSha512>(input),
        (AeadAlg::AesGcm128, KdfAlg::HkdfSha256, KemAlg::X25519HkdfSha256) => open_auth_psk::<AesGcm128, HkdfSha256, X25519HkdfSha256>(input),
        (AeadAlg::AesGcm128, KdfAlg::HkdfSha384, KemAlg::DhP256HkdfSha256) => open_auth_psk::<AesGcm128, HkdfSha384, DhP256HkdfSha256>(input),
        (AeadAlg::AesGcm128, KdfAlg::HkdfSha384, KemAlg::DhP384HkdfSha384) => open_auth_psk::<AesGcm128, HkdfSha384, DhP384HkdfSha384>(input),
        (AeadAlg::AesGcm128, KdfAlg::HkdfSha384, KemAlg::DhP521HkdfSha512) => open_auth_psk::<AesGcm128, HkdfSha384, DhP521HkdfSha512>(input),
        (AeadAlg::AesGcm128, KdfAlg::HkdfSha384, KemAlg::X25519HkdfSha256) => open_auth_psk::<AesGcm128, HkdfSha384, X25519HkdfSha256>(input),
        (AeadAlg::AesGcm128, KdfAlg::HkdfSha512, KemAlg::DhP256HkdfSha256) => open_auth_psk::<AesGcm128, HkdfSha512, DhP256HkdfSha256>(input),
        (AeadAlg::AesGcm128, KdfAlg::HkdfSha512, KemAlg::DhP384HkdfSha384) => open_auth_psk::<AesGcm128, HkdfSha512, DhP384HkdfSha384>(input),
        (AeadAlg::AesGcm128, KdfAlg::HkdfSha512, KemAlg::DhP521HkdfSha512) => open_auth_psk::<AesGcm128, HkdfSha512, DhP521HkdfSha512>(input),
        (AeadAlg::AesGcm128, KdfAlg::HkdfSha512, KemAlg::X25519HkdfSha256) => open_auth_psk::<AesGcm128, HkdfSha512, X25519HkdfSha256>(input),
        (AeadAlg::AesGcm256, KdfAlg::HkdfSha256, KemAlg::DhP256HkdfSha256) => open_auth_psk::<AesGcm256, HkdfSha256, DhP256HkdfSha256>(input),
        (AeadAlg::AesGcm256, KdfAlg::HkdfSha256, KemAlg::DhP384HkdfSha384) => open_auth_psk::<AesGcm256, HkdfSha256, DhP384HkdfSha384>(input),
        (AeadAlg::AesGcm256, KdfAlg::HkdfSha256, KemAlg::DhP521HkdfSha512) => open_auth_psk::<AesGcm256, HkdfSha256, DhP521HkdfSha512>(input),
        (AeadAlg::AesGcm256, KdfAlg::HkdfSha256, KemAlg::X25519HkdfSha256) => open_auth_psk::<AesGcm256, HkdfSha256, X25519HkdfSha256>(input),
        (AeadAlg::AesGcm256, KdfAlg::HkdfSha384, KemAlg::DhP256HkdfSha256) => open_auth_psk::<AesGcm256, HkdfSha384, DhP256HkdfSha256>(input),
        (AeadAlg::AesGcm256, KdfAlg::HkdfSha384, KemAlg::DhP384HkdfSha384) => open_auth_psk::<AesGcm256, HkdfSha384, DhP384HkdfSha384>(input),
        (AeadAlg::AesGcm256, KdfAlg::HkdfSha384, KemAlg::DhP521HkdfSha512) => open_auth_psk::<AesGcm256, HkdfSha384, DhP521HkdfSha512>(input),
        (AeadAlg::AesGcm256, KdfAlg::HkdfSha384, KemAlg::X25519HkdfSha256) => open_auth_psk::<AesGcm256, HkdfSha384, X25519HkdfSha256>(input),
        (AeadAlg::AesGcm256, KdfAlg::HkdfSha512, KemAlg::DhP256HkdfSha256) => open_auth_psk::<AesGcm256, HkdfSha512, DhP256HkdfSha256>(input),
        (AeadAlg::AesGcm256, KdfAlg::HkdfSha512, KemAlg::DhP384HkdfSha384) => open_auth_psk::<AesGcm256, HkdfSha512, DhP384HkdfSha384>(input),
        (AeadAlg::AesGcm256, KdfAlg::HkdfSha512, KemAlg::DhP521HkdfSha512) => open_auth_psk::<AesGcm256, HkdfSha512, DhP521HkdfSha512>(input),
        (AeadAlg::AesGcm256, KdfAlg::HkdfSha512, KemAlg::X25519HkdfSha256) => open_auth_psk::<AesGcm256, HkdfSha512, X25519HkdfSha256>(input),
        (AeadAlg::ChaCha20Poly1305, KdfAlg::HkdfSha256, KemAlg::DhP256HkdfSha256) => open_auth_psk::<ChaCha20Poly1305, HkdfSha256, DhP256HkdfSha256>(input),
        (AeadAlg::ChaCha20Poly1305, KdfAlg::HkdfSha256, KemAlg::DhP384HkdfSha384) => open_auth_psk::<ChaCha20Poly1305, HkdfSha256, DhP384HkdfSha384>(input),
        (AeadAlg::ChaCha20Poly1305, KdfAlg::HkdfSha256, KemAlg::DhP521HkdfSha512) => open_auth_psk::<ChaCha20Poly1305, HkdfSha256, DhP521HkdfSha512>(input),
        (AeadAlg::ChaCha20Poly1305, KdfAlg::HkdfSha256, KemAlg::X25519HkdfSha256) => open_auth_psk::<ChaCha20Poly1305, HkdfSha256, X25519HkdfSha256>(input),
        (AeadAlg::ChaCha20Poly1305, KdfAlg::HkdfSha384, KemAlg::DhP256HkdfSha256) => open_auth_psk::<ChaCha20Poly1305, HkdfSha384, DhP256HkdfSha256>(input),
        (AeadAlg::ChaCha20Poly1305, KdfAlg::HkdfSha384, KemAlg::DhP384HkdfSha384) => open_auth_psk::<ChaCha20Poly1305, HkdfSha384, DhP384HkdfSha384>(input),
        (AeadAlg::ChaCha20Poly1305, KdfAlg::HkdfSha384, KemAlg::DhP521HkdfSha512) => open_auth_psk::<ChaCha20Poly1305, HkdfSha384, DhP521HkdfSha512>(input),
        (AeadAlg::ChaCha20Poly1305, KdfAlg::HkdfSha384, KemAlg::X25519HkdfSha256) => open_auth_psk::<ChaCha20Poly1305, HkdfSha384, X25519HkdfSha256>(input),
        (AeadAlg::ChaCha20Poly1305, KdfAlg::HkdfSha512, KemAlg::DhP256HkdfSha256) => open_auth_psk::<ChaCha20Poly1305, HkdfSha512, DhP256HkdfSha256>(input),
        (AeadAlg::ChaCha20Poly1305, KdfAlg::HkdfSha512, KemAlg::DhP384HkdfSha384) => open_auth_psk::<ChaCha20Poly1305, HkdfSha512, DhP384HkdfSha384>(input),
        (AeadAlg::ChaCha20Poly1305, KdfAlg::HkdfSha512, KemAlg::DhP521HkdfSha512) => open_auth_psk::<ChaCha20Poly1305, HkdfSha512, DhP521HkdfSha512>(input),
        (AeadAlg::ChaCha20Poly1305, KdfAlg::HkdfSha512, KemAlg::X25519HkdfSha256) => open_auth_psk::<ChaCha20Poly1305, HkdfSha512, X25519HkdfSha256>(input),
    }
}

} // verus!
