//! The exchange engine: one-shot HPKE encryption and decryption under a suite
//! and a mode that are both chosen at run time.
//!
//! The cryptography itself is done by the `hpke` crate, whose algorithms are
//! types. The functions here resolve three identifiers to a suite, decide which
//! secrets the mode brings in, and hand plain bytes to the instance of `hpke`
//! that the suite names.
//!
//! Sealing draws randomness, so what comes out of it cannot be said
//! beforehand. What goes into it can: [`seal_input`] puts it together, and
//! says exactly what it is.

pub mod agility;
pub mod hpke_calls;

use vstd::prelude::*;
use vstd::slice::slice_to_vec;
use vstd::string::StringExecFns;
use crate::authenticator::crypto::agility::{AeadAlg, KdfAlg, KemAlg, Suite, TAG_LEN};
use crate::authenticator::crypto::hpke_calls::{
    bundle_view, entropy_rng, keypair_for, open_auth_psk_under, open_auth_under, open_base_under,
    open_psk_under, open_sized, opened, missized, pair_sized, pair_view, seal_auth_psk_under,
    seal_auth_under, seal_base_under, seal_psk_under, seal_sized, sealed_fits, OpenInput,
    SealInput, SealSecrets, SealView,
};
use crate::authenticator::error::{AuthenticatorError, ErrorView};
use crate::authenticator::protocol::hpke_format::{bytes_view, HPKEMode};

verus! {

/// The application info that binds every exchange: the ASCII text
/// `information`.
pub open spec fn info_bytes() -> Seq<u8> {
    seq![105u8, 110, 102, 111, 114, 109, 97, 116, 105, 111, 110]
}

/// The associated data that every exchange authenticates: the ASCII text
/// `information aad`.
pub open spec fn aad_bytes() -> Seq<u8> {
    seq![105u8, 110, 102, 111, 114, 109, 97, 116, 105, 111, 110, 32, 97, 97, 100]
}

/// The identifier of the pre-shared key: the ASCII text
/// `preshared key attempt #5, take 2. action`.
pub open spec fn psk_id_bytes() -> Seq<u8> {
    seq![
        112u8, 114, 101, 115, 104, 97, 114, 101, 100, 32, 107, 101, 121, 32, 97, 116, 116, 101,
        109, 112, 116, 32, 35, 53, 44, 32, 116, 97, 107, 101, 32, 50, 46, 32, 97, 99, 116, 105,
        111, 110,
    ]
}

/// The pre-shared key for a key derivation function: as many zero bytes as its
/// digest is long.
pub open spec fn psk_bytes(kdf: KdfAlg) -> Seq<u8> {
    Seq::new(kdf.digest_len(), |i: int| 0u8)
}

/// The detail of every failed encryption.
pub open spec fn seal_failure() -> Seq<char> {
    "encryption failed"@
}

/// The detail of every failed decryption. It is the same whatever went wrong.
pub open spec fn open_failure() -> Seq<char> {
    "decryption failed"@
}

/// A pre-shared key and the bytes that identify it.
pub struct PskBundle {
    pub psk: Vec<u8>,
    pub psk_id: Vec<u8>,
}

/// The application info of every exchange.
pub fn info() -> (bytes: [u8; 11])
    ensures
        bytes@ == info_bytes(),
{
    [105, 110, 102, 111, 114, 109, 97, 116, 105, 111, 110]
}

/// The associated data of every exchange.
pub fn aad() -> (bytes: [u8; 15])
    ensures
        bytes@ == aad_bytes(),
{
    [105, 110, 102, 111, 114, 109, 97, 116, 105, 111, 110, 32, 97, 97, 100]
}

/// The pre-shared key bundle that goes with a key derivation function.
pub fn psk(kdf_alg: KdfAlg) -> (bundle: PskBundle)
    ensures
        bundle.psk@ == psk_bytes(kdf_alg),
        bundle.psk_id@ == psk_id_bytes(),
{
    let id: [u8; 40] = [
        112, 114, 101, 115, 104, 97, 114, 101, 100, 32, 107, 101, 121, 32, 97, 116, 116, 101, 109,
        112, 116, 32, 35, 53, 44, 32, 116, 97, 107, 101, 32, 50, 46, 32, 97, 99, 116, 105, 111,
        110,
    ];
    let key: Vec<u8> = vec![0u8; kdf_alg.get_digest_len()];
    assert(key@ =~= psk_bytes(kdf_alg));
    PskBundle { psk: key, psk_id: slice_to_vec(id.as_slice()) }
}

/// The sender's public key as the mode brings it in.
pub open spec fn sender_key(mode: HPKEMode, sender: Seq<u8>) -> Option<Seq<u8>> {
    if mode.authenticates_sender() {
        Some(sender)
    } else {
        None
    }
}

/// The pre-shared key and its identifier as the mode brings them in.
pub open spec fn preshared(mode: HPKEMode, psk: Seq<u8>, psk_id: Seq<u8>) -> Option<
    (Seq<u8>, Seq<u8>),
> {
    if mode.uses_psk() {
        Some((psk, psk_id))
    } else {
        None
    }
}

/// The secrets that a mode brings into a sealing under a key derivation
/// function `kdf`: none in `Base`, the fixed pre-shared key of `kdf` in `Psk`,
/// the sender's key pair in `Auth`, both in `AuthPsk`. Each is a pair: the
/// private key and the public key, the pre-shared key and its identifier.
pub open spec fn secrets(mode: HPKEMode, kdf: KdfAlg, sk: Seq<u8>, pk: Seq<u8>) -> (
    Option<(Seq<u8>, Seq<u8>)>,
    Option<(Seq<u8>, Seq<u8>)>,
) {
    (
        if mode.authenticates_sender() {
            Some((sk, pk))
        } else {
            None
        },
        preshared(mode, psk_bytes(kdf), psk_id_bytes()),
    )
}

/// What goes into the sealing of `data` to the public key `pki`: the suite,
/// the secrets that the mode brings in, the key, the data, and the fixed
/// application info and associated data.
pub open spec fn sealing(
    suite: Suite,
    mode: HPKEMode,
    key_pair: (Seq<u8>, Seq<u8>),
    pki: Seq<u8>,
    data: Seq<u8>,
) -> SealView {
    SealView {
        suite,
        sender: secrets(mode, suite.kdf, key_pair.0, key_pair.1).0,
        psk: secrets(mode, suite.kdf, key_pair.0, key_pair.1).1,
        pk_recip: pki,
        info: info_bytes(),
        plaintext: data,
        aad: aad_bytes(),
    }
}

/// Picks the secrets that a mode brings into a sealing.
pub fn secrets_of<'a>(mode: HPKEMode, kdf: KdfAlg, key_pair: &'a (Vec<u8>, Vec<u8>)) -> (s:
    SealSecrets<'a>)
    ensures
        (pair_view(s.sender), bundle_view(s.bundle)) == secrets(mode, kdf, key_pair.0@, key_pair.1@),
{
    let sender = match mode {
        HPKEMode::Auth => Some(key_pair),
        HPKEMode::AuthPsk => Some(key_pair),
        _ => None,
    };
    let bundle = match mode {
        HPKEMode::Psk => Some(psk(kdf)),
        HPKEMode::AuthPsk => Some(psk(kdf)),
        _ => None,
    };
    SealSecrets { sender, bundle }
}

/// Puts together what goes into the sealing of `data` to the public key `pki`
/// under `suite` and in `mode`, with `key_pair` as the sender's.
pub fn seal_input<'a>(
    suite: Suite,
    mode: HPKEMode,
    key_pair: &'a (Vec<u8>, Vec<u8>),
    pki: &'a [u8],
    data: &'a [u8],
) -> (input: SealInput<'a>)
    ensures
        input@ == sealing(suite, mode, (key_pair.0@, key_pair.1@), pki@, data@),
{
    SealInput {
        suite,
        secrets: secrets_of(mode, suite.kdf, key_pair),
        pk_recip: pki,
        info: info(),
        plaintext: data,
        aad: aad(),
    }
}

/// Seals in the mode that the secrets of the input make up: base mode without
/// secrets, pre-shared-key mode with a bundle, authenticated mode with the
/// sender's key pair, and the mode of both with both. Returns nothing where
/// `hpke` fails.
fn seal_in_mode(input: &SealInput, csprng: &mut rand::rngs::StdRng) -> (r: Option<
    (Vec<u8>, Vec<u8>),
>)
    requires
        input.plaintext@.len() + TAG_LEN <= usize::MAX,
    ensures
        r matches Some(sealed) ==> sealed_fits(input.suite.kem, input.plaintext@.len(), sealed),
        missized(input@) ==> r is None,
{
    let outcome = match (input.secrets.sender, &input.secrets.bundle) {
        (None, None) => seal_base_under(input, csprng),
        (None, Some(bundle)) => seal_psk_under(input, bundle, csprng),
        (Some(sender), None) => seal_auth_under(input, sender, csprng),
        (Some(sender), Some(bundle)) => seal_auth_psk_under(input, sender, bundle, csprng),
    };
    match outcome {
        Ok(sealed) => Some(sealed),
        Err(_) => None,
    }
}

/// Opens in a mode that is chosen at run time, with the secrets that the mode
/// calls for. Returns nothing where `hpke` fails.
fn open_in_mode(mode: HPKEMode, input: &OpenInput) -> (r: Option<Vec<u8>>)
    ensures
        bytes_view(r) == opened(
            input.suite.kem.id(),
            input.suite.kdf.id(),
            input.suite.aead.id(),
            sender_key(mode, input.sender@),
            preshared(mode, input.bundle.psk@, input.bundle.psk_id@),
            input.sk_recip@,
            input.pk_recip@,
            input.enc@,
            input.info@,
            input.ciphertext@,
            input.aad@,
        ),
        r matches Some(plaintext) ==> plaintext@.len() + TAG_LEN == input.ciphertext@.len(),
        !open_sized(input.suite.kem, input.sk_recip@, input.pk_recip@, input.enc@, input.ciphertext@)
            ==> r is None,
        mode.authenticates_sender() && input.sender@.len() != input.suite.kem.public_key_len()
            ==> r is None,
{
    let outcome = match mode {
        HPKEMode::Base => open_base_under(input),
        HPKEMode::Psk => open_psk_under(input),
        HPKEMode::Auth => open_auth_under(input),
        HPKEMode::AuthPsk => open_auth_psk_under(input),
    };
    match outcome {
        Ok(plaintext) => Some(plaintext),
        Err(_) => None,
    }
}

/// Resolves three identifiers to a suite. Each is looked up on its own axis,
/// and one that is not registered fails the whole resolution.
pub fn match_algorithm(kem: u16, kdf: u16, aead: u16) -> (r: Result<Suite, AuthenticatorError>)
    ensures
        match r {
            Ok(suite) => Suite::of_ids(kem, kdf, aead) == Some(suite),
            Err(e) => Suite::of_ids(kem, kdf, aead) is None && e@
                == ErrorView::UnsupportedAlgorithm,
        },
{
    match (AeadAlg::try_from_u16(aead), KdfAlg::try_from_u16(kdf), KemAlg::try_from_u16(kem)) {
        (Some(aead), Some(kdf), Some(kem)) => Ok(Suite { aead, kdf, kem }),
        _ => Err(AuthenticatorError::UnsupportedAlgorithm),
    }
}

/// Generates a fresh key pair for a key encapsulation mechanism: the private
/// key, then the public key. Each call draws its own randomness. An
/// identifier that is not registered is refused before any key is drawn.
pub fn gen_key_pair(kem: u16) -> (r: Result<(Vec<u8>, Vec<u8>), AuthenticatorError>)
    ensures
        match r {
            Ok(pair) => KemAlg::of_id(kem) matches Some(alg) && pair.0@.len()
                == alg.private_key_len() && pair.1@.len() == alg.public_key_len(),
            Err(e) => KemAlg::of_id(kem) is None && e@ == ErrorView::UnsupportedAlgorithm,
        },
{
    match KemAlg::try_from_u16(kem) {
        None => Err(AuthenticatorError::UnsupportedAlgorithm),
        Some(alg) => {
            let mut csprng = entropy_rng();
            Ok(keypair_for(alg, &mut csprng))
        },
    }
}

/// What [`encrypt`] returns for what the sealing gave: the ciphertext and the
/// encapsulated key, or a cryptographic failure.
pub fn sealed_or_error(outcome: Option<(Vec<u8>, Vec<u8>)>) -> (r: Result<
    (Vec<u8>, Vec<u8>),
    AuthenticatorError,
>)
    ensures
        match outcome {
            Some(sealed) => r == Ok::<(Vec<u8>, Vec<u8>), AuthenticatorError>(sealed),
            None => r matches Err(e) && e@ == ErrorView::CryptoError(seal_failure()),
        },
{
    match outcome {
        Some(sealed) => Ok(sealed),
        None => Err(AuthenticatorError::CryptoError(String::from_str("encryption failed"))),
    }
}

/// Encrypts `data` to the public key `pki` under the suite that the three
/// identifiers name. Returns the ciphertext and the encapsulated key.
///
/// `Base` brings in no secret of the sender, `Psk` the fixed pre-shared key of
/// the key derivation function, `Auth` the sender's `key_pair` (private key,
/// then public key), `AuthPsk` both. Every call draws fresh randomness, so two
/// calls on the same input differ.
pub fn encrypt(
    kem_flag: u16,
    kdf_flag: u16,
    aead_flag: u16,
    data: &[u8],
    pki: &[u8],
    mode: &HPKEMode,
    key_pair: &(Vec<u8>, Vec<u8>),
) -> (r: Result<(Vec<u8>, Vec<u8>), AuthenticatorError>)
    ensures
        match Suite::of_ids(kem_flag, kdf_flag, aead_flag) {
            None => r matches Err(e) && e@ == ErrorView::UnsupportedAlgorithm,
            Some(suite) => match r {
                Ok(sealed) => sealed_fits(suite.kem, data@.len(), sealed) && seal_sized(
                    suite.kem,
                    pki@,
                ) && (mode.authenticates_sender() ==> pair_sized(
                    suite.kem,
                    key_pair.0@,
                    key_pair.1@,
                )),
                Err(e) => e@ == ErrorView::CryptoError(seal_failure()),
            },
        },
{
    let suite = match_algorithm(kem_flag, kdf_flag, aead_flag)?;
    if data.len() > usize::MAX - TAG_LEN {
        return sealed_or_error(None);
    }
    let input = seal_input(suite, *mode, key_pair, pki, data);
    let mut csprng = entropy_rng();
    sealed_or_error(seal_in_mode(&input, &mut csprng))
}

/// What [`decrypt`] returns: the plaintext that `hpke` opens, or the error.
///
/// An identifier that is not registered is an unsupported algorithm. Anything
/// else that goes wrong is one and the same cryptographic failure: a sender key
/// that an authenticated mode lacks, a key that does not parse, a ciphertext
/// or an encapsulated key that does not authenticate.
pub open spec fn decrypted(
    kem_flag: u16,
    kdf_flag: u16,
    aead_flag: u16,
    ciphertext: Seq<u8>,
    ski: Seq<u8>,
    pki: Seq<u8>,
    encapsulated_key: Seq<u8>,
    mode: HPKEMode,
    pke: Option<Seq<u8>>,
) -> Result<Seq<u8>, ErrorView> {
    match Suite::of_ids(kem_flag, kdf_flag, aead_flag) {
        None => Err(ErrorView::UnsupportedAlgorithm),
        Some(suite) => if mode.authenticates_sender() && pke is None {
            Err(ErrorView::CryptoError(open_failure()))
        } else {
            match opened(
                kem_flag,
                kdf_flag,
                aead_flag,
                if mode.authenticates_sender() {
                    pke
                } else {
                    None
                },
                preshared(mode, psk_bytes(suite.kdf), psk_id_bytes()),
                ski,
                pki,
                encapsulated_key,
                info_bytes(),
                ciphertext,
                aad_bytes(),
            ) {
                Some(plaintext) => Ok(plaintext),
                None => Err(ErrorView::CryptoError(open_failure())),
            }
        },
    }
}

/// Decryption fails in one way only. Once the three identifiers are resolved,
/// whatever goes wrong gives the same error with the same detail, so that a
/// failure tells nothing of its cause: not whether a key was wrong, nor
/// whether the ciphertext, the encapsulated key or the tag was altered.
pub proof fn lemma_decryption_fails_in_one_way(
    kem_flag: u16,
    kdf_flag: u16,
    aead_flag: u16,
    ciphertext: Seq<u8>,
    ski: Seq<u8>,
    pki: Seq<u8>,
    encapsulated_key: Seq<u8>,
    mode: HPKEMode,
    pke: Option<Seq<u8>>,
)
    ensures
        decrypted(
            kem_flag,
            kdf_flag,
            aead_flag,
            ciphertext,
            ski,
            pki,
            encapsulated_key,
            mode,
            pke,
        ) matches Err(e) ==> if Suite::of_ids(kem_flag, kdf_flag, aead_flag) is Some {
            e == ErrorView::CryptoError(open_failure())
        } else {
            e == ErrorView::UnsupportedAlgorithm
        },
{
}

/// The mathematical value of a result that holds bytes.
pub open spec fn bytes_result(r: Result<Vec<u8>, AuthenticatorError>) -> Result<
    Seq<u8>,
    ErrorView,
> {
    match r {
        Ok(bytes) => Ok(bytes@),
        Err(e) => Err(e@),
    }
}

/// What [`decrypt`] returns for what the opening gave: the plaintext, or the
/// one cryptographic failure.
pub fn opened_or_error(outcome: Option<Vec<u8>>) -> (r: Result<Vec<u8>, AuthenticatorError>)
    ensures
        match outcome {
            Some(plaintext) => r == Ok::<Vec<u8>, AuthenticatorError>(plaintext),
            None => r matches Err(e) && e@ == ErrorView::CryptoError(open_failure()),
        },
{
    match outcome {
        Some(plaintext) => Ok(plaintext),
        None => Err(AuthenticatorError::CryptoError(String::from_str("decryption failed"))),
    }
}

/// Decrypts `ciphertext` with the recipient's key pair (`ski`, `pki`) and the
/// encapsulated key, under the suite that the three identifiers name.
///
/// `pke` is the sender's public key. The authenticated modes need it; the
/// others ignore it.
pub fn decrypt(
    kem_flag: u16,
    kdf_flag: u16,
    aead_flag: u16,
    ciphertext: &[u8],
    ski: &[u8],
    pki: &[u8],
    encapsulated_key: &[u8],
    mode: &HPKEMode,
    pke: &Option<Vec<u8>>,
) -> (r: Result<Vec<u8>, AuthenticatorError>)
    ensures
        bytes_result(r) == decrypted(
            kem_flag,
            kdf_flag,
            aead_flag,
            ciphertext@,
            ski@,
            pki@,
            encapsulated_key@,
            *mode,
            match *pke {
                Some(key) => Some(key@),
                None => None,
            },
        ),
        r matches Ok(plaintext) ==> {
            &&& plaintext@.len() + TAG_LEN == ciphertext@.len()
            &&& Suite::of_ids(kem_flag, kdf_flag, aead_flag) matches Some(suite)
            &&& open_sized(suite.kem, ski@, pki@, encapsulated_key@, ciphertext@)
            &&& mode.authenticates_sender() ==> (*pke matches Some(key) && key@.len()
                == suite.kem.public_key_len())
        },
{
    let suite = match_algorithm(kem_flag, kdf_flag, aead_flag)?;
    proof {
        agility::lemma_of_id_injective(kem_flag);
        agility::lemma_of_id_injective(kdf_flag);
        agility::lemma_of_id_injective(aead_flag);
    }
    let none: [u8; 0] = [];
    let sender: &[u8] = match pke {
        Some(key) => key.as_slice(),
        None => {
            if mode.is_authenticated() {
                return opened_or_error(None);
            }
            none.as_slice()
        },
    };
    let bundle = psk(suite.kdf);
    let info = info();
    let aad = aad();
    let input = OpenInput {
        suite,
        sender,
        bundle: &bundle,
        sk_recip: ski,
        pk_recip: pki,
        enc: encapsulated_key,
        info: info.as_slice(),
        ciphertext,
        aad: aad.as_slice(),
    };
    opened_or_error(open_in_mode(*mode, &input))
}

} // verus!
