//! The authenticator: negotiation, the exchange engine and the handlers of
//! requests and responses.
//!
//! An importer builds an [`ExportRequest`]. An exporter handles it and answers
//! with an [`ExportResponse`] that carries the credential, compressed and
//! encrypted. The importer handles the response and recovers the credential.
//! Messages are values here; writing them to text and reading them back is left
//! to the program around the library.

pub mod crypto;
pub mod error;
pub mod inner;
pub mod negotiation;
pub mod pin;
pub mod protocol;

use vstd::prelude::*;
use vstd::string::StringExecFns;
use crate::authenticator::crypto::agility::{Suite, TAG_LEN};
use crate::authenticator::crypto::hpke_calls::{pair_sized, sealed_fits};
use crate::authenticator::crypto::{bytes_result, decrypt, decrypted, encrypt, seal_failure};
use crate::authenticator::error::{AuthenticatorError, ErrorView};
use crate::authenticator::inner::InnerAuthenticator;
use crate::authenticator::negotiation::{
    first_common_archive, first_common_hpke, first_kept, negotiated,
};
use crate::authenticator::protocol::archive::{compressed, decompressed, ArchiveAlgorithm};
use crate::authenticator::protocol::base64url::{decode, decoded, encode, encoded, MAX_ENCODABLE};
use crate::authenticator::protocol::credential::Credential;
use crate::authenticator::protocol::hpke_format::{
    decoded_key, HPKEMode, HPKEParameters, HPKEParametersView, JWKSView,
};
use crate::authenticator::protocol::request::{
    params_view, ExportRequest, ExportRequestView, ResponseMode,
};
use crate::authenticator::protocol::response::{ExportResponse, ExportResponseView};

verus! {

/// An authenticator, on top of the identity that it acts for.
pub struct Authenticator<T: InnerAuthenticator> {
    pub inner: T,
}

/// The detail of the error for an identity that lacks the key pair asked for.
pub open spec fn no_key_pair() -> Seq<char> {
    "Key pair not found"@
}

/// The detail of the error for offered parameters that carry no public key.
pub open spec fn no_public_key() -> Seq<char> {
    "missing public key"@
}

/// The detail of the error for a response that carries no encapsulated key.
pub open spec fn no_encapsulated_key() -> Seq<char> {
    "missing encapsulated key"@
}

/// The detail of the error for a payload that is not valid base64.
pub open spec fn bad_payload() -> Seq<char> {
    "Base64 Decode Error Occurred"@
}

/// The detail of the error for a credential that does not decompress.
pub open spec fn bad_archive() -> Seq<char> {
    "Unzip Decoded error"@
}

/// The detail of the error for bytes that are too long to be written as text.
pub open spec fn too_long() -> Seq<char> {
    "too long to encode"@
}

/// The response that an exporter assembles: version 0, the chosen parameters
/// with the encapsulated key and, in the authenticated modes and only there,
/// the exporter's public key, the chosen compression, the relying party, and
/// the ciphertext as the payload.
pub open spec fn assembled(
    chosen: HPKEParametersView,
    archive: ArchiveAlgorithm,
    exporter: Seq<char>,
    own_pk: Seq<u8>,
    cipher: Seq<u8>,
    enc: Seq<u8>,
) -> ExportResponseView {
    ExportResponseView {
        version: 0,
        hpke_parameters: HPKEParametersView {
            key: JWKSView {
                enc: Some(encoded(enc)),
                pk: if chosen.mode.authenticates_sender() {
                    Some(encoded(own_pk))
                } else {
                    None
                },
            },
            ..chosen
        },
        archive,
        exporter,
        payload: encoded(cipher),
    }
}

/// What an assembled response carries beside the ciphertext: the encapsulated
/// key always, the exporter's public key in the authenticated modes, and no
/// public key in the others.
pub proof fn lemma_assembled_key_material(
    chosen: HPKEParametersView,
    archive: ArchiveAlgorithm,
    exporter: Seq<char>,
    own_pk: Seq<u8>,
    cipher: Seq<u8>,
    enc: Seq<u8>,
)
    ensures
        assembled(chosen, archive, exporter, own_pk, cipher, enc).hpke_parameters.key.enc is Some,
        assembled(chosen, archive, exporter, own_pk, cipher, enc).hpke_parameters.key.pk is Some
            <==> chosen.mode == HPKEMode::Auth || chosen.mode == HPKEMode::AuthPsk,
        assembled(chosen, archive, exporter, own_pk, cipher, enc).hpke_parameters.matches(chosen),
{
}

/// The credential that a response gives to an identity with the key pairs
/// `keys`, or the error that stops the recovery.
///
/// The payload is decoded, the identity's key pair for the stated mechanism is
/// looked up, the key material is decoded, the payload is decrypted, and the
/// plaintext is decompressed. The first step that fails decides the error.
pub open spec fn recovered(
    response: ExportResponseView,
    keys: Map<u16, (Seq<u8>, Seq<u8>)>,
) -> Result<Seq<u8>, ErrorView> {
    let params = response.hpke_parameters;
    match decoded(response.payload) {
        None => Err(ErrorView::CodeError(bad_payload())),
        Some(cipher) => if !keys.contains_key(params.kem) {
            Err(ErrorView::InnerAuthenticatorError(no_key_pair()))
        } else {
            match decoded_key(params.key) {
                Err(e) => Err(e),
                Ok(key) => match key.enc {
                    None => Err(ErrorView::CodeError(no_encapsulated_key())),
                    Some(enc) => match decrypted(
                        params.kem,
                        params.kdf,
                        params.aead,
                        cipher,
                        keys[params.kem].0,
                        keys[params.kem].1,
                        enc,
                        params.mode,
                        key.pk,
                    ) {
                        Err(e) => Err(e),
                        Ok(packed) => match decompressed(response.archive, packed) {
                            Ok(credential) => Ok(credential),
                            Err(_) => Err(ErrorView::CodeError(bad_archive())),
                        },
                    },
                },
            }
        },
    }
}

/// The first of `credentials` that belongs to the relying party `rp_id`.
pub open spec fn credential_of<C: Credential>(credentials: Seq<C>, rp_id: Seq<char>) -> Option<C> {
    first_kept(credentials, |c: C| c.rp_id_text() == rp_id)
}

/// An importer recovers from an assembled response exactly what the exporter
/// put in, wherever the coding, the encryption and the compression undo
/// themselves on the values at hand.
///
/// The three conditions are properties of base64, of HPKE and of DEFLATE, and
/// are taken as given here: decoding the text of the ciphertext, of the
/// encapsulated key and, in the authenticated modes, of the exporter's public
/// key gives the bytes back; the ciphertext opens to `packed` under the
/// importer's key pair, with the exporter's public key as the sender's in the
/// authenticated modes; and `packed` decompresses to `credential`. What is
/// proved is that the response carries every value where the importer looks
/// for it.
pub proof fn lemma_recovery_reads_what_assembly_wrote(
    chosen: HPKEParametersView,
    archive: ArchiveAlgorithm,
    exporter: Seq<char>,
    own_pk: Seq<u8>,
    cipher: Seq<u8>,
    enc: Seq<u8>,
    keys: Map<u16, (Seq<u8>, Seq<u8>)>,
    packed: Seq<u8>,
    credential: Seq<u8>,
)
    requires
        decoded(encoded(cipher)) == Some(cipher),
        decoded(encoded(enc)) == Some(enc),
        chosen.mode.authenticates_sender() ==> decoded(encoded(own_pk)) == Some(own_pk),
        keys.contains_key(chosen.kem),
        decrypted(
            chosen.kem,
            chosen.kdf,
            chosen.aead,
            cipher,
            keys[chosen.kem].0,
            keys[chosen.kem].1,
            enc,
            chosen.mode,
            if chosen.mode.authenticates_sender() {
                Some(own_pk)
            } else {
                None
            },
        ) == Ok::<Seq<u8>, ErrorView>(packed),
        decompressed(archive, packed) == Ok::<Seq<u8>, Seq<char>>(credential),
    ensures
        recovered(assembled(chosen, archive, exporter, own_pk, cipher, enc), keys) == Ok::<
            Seq<u8>,
            ErrorView,
        >(credential),
{
}

/// Finds the credential of a relying party: the index of the first one in
/// `credentials` whose identifier is `rp_id`.
pub fn find_credential<C: Credential>(credentials: &Vec<C>, rp_id: &String) -> (found: Option<
    usize,
>)
    ensures
        match found {
            Some(i) => i < credentials@.len() && credential_of(credentials@, rp_id@) == Some(
                credentials@[i as int],
            ) && credentials@[i as int].rp_id_text() == rp_id@ && forall|j: int|
                0 <= j < i ==> (#[trigger] credentials@[j]).rp_id_text() != rp_id@,
            None => credential_of(credentials@, rp_id@) is None && forall|j: int|
                0 <= j < credentials@.len() ==> (#[trigger] credentials@[j]).rp_id_text() != rp_id@,
        },
{
    let ghost keep = |c: C| c.rp_id_text() == rp_id@;
    let mut i: usize = 0;
    assert(credentials@.skip(0) =~= credentials@);
    while i < credentials.len()
        invariant
            i <= credentials@.len(),
            keep == |c: C| c.rp_id_text() == rp_id@,
            first_kept(credentials@, keep) == first_kept(credentials@.skip(i as int), keep),
            forall|j: int| 0 <= j < i ==> (#[trigger] credentials@[j]).rp_id_text() != rp_id@,
        decreases credentials@.len() - i,
    {
        assert(credentials@.skip(i as int).drop_first() =~= credentials@.skip(i + 1));
        let id = credentials[i].get_rp_id();
        if id == *rp_id {
            return Some(i);
        }
        i = i + 1;
    }
    None
}

/// The bytes that an export encrypts: the credential of the relying party,
/// compressed. There are none where the store holds no such credential or it
/// does not compress.
pub open spec fn packed<C: Credential>(
    archive: ArchiveAlgorithm,
    importer: Seq<char>,
    credentials: Seq<C>,
) -> Option<Seq<u8>> {
    match credential_of(credentials, importer) {
        None => None,
        Some(credential) => match compressed(archive, credential.credential_bytes()) {
            Ok(bytes) => Some(bytes),
            Err(_) => None,
        },
    }
}

/// The error that stops an export before anything is encrypted, if there is
/// one. In this order: the store holds no credential of the relying party; the
/// credential does not compress; the key material of the chosen parameters
/// does not decode, or holds no public key; the identity has no key pair for
/// the mechanism; an identifier of the chosen parameters is not registered.
pub open spec fn refusal<C: Credential>(
    chosen: HPKEParametersView,
    archive: ArchiveAlgorithm,
    importer: Seq<char>,
    credentials: Seq<C>,
    keys: Map<u16, (Seq<u8>, Seq<u8>)>,
) -> Option<ErrorView> {
    match credential_of(credentials, importer) {
        None => Some(ErrorView::CredentialNotFound),
        Some(credential) => match compressed(archive, credential.credential_bytes()) {
            Err(message) => Some(ErrorView::CodeError(message)),
            Ok(_) => match decoded_key(chosen.key) {
                Err(e) => Some(e),
                Ok(key) => if key.pk is None {
                    Some(ErrorView::CodeError(no_public_key()))
                } else if !keys.contains_key(chosen.kem) {
                    Some(ErrorView::InnerAuthenticatorError(no_key_pair()))
                } else if Suite::of_ids(chosen.kem, chosen.kdf, chosen.aead) is None {
                    Some(ErrorView::UnsupportedAlgorithm)
                } else {
                    None
                },
            },
        },
    }
}

/// Whether `response` is a response to the relying party `importer` under the
/// parameters `chosen` and the compression `archive`, from an identity with
/// the key pairs `keys`: of version 0, with the mode and the algorithms of
/// `chosen`, with an encapsulated key, with the identity's public key in the
/// authenticated modes and with no public key in the others.
pub open spec fn answers(
    response: ExportResponseView,
    chosen: HPKEParametersView,
    archive: ArchiveAlgorithm,
    importer: Seq<char>,
    keys: Map<u16, (Seq<u8>, Seq<u8>)>,
) -> bool {
    &&& response.version == 0
    &&& response.hpke_parameters.matches(chosen)
    &&& response.archive == archive
    &&& response.exporter == importer
    &&& exists|enc: Seq<u8>|
        response.hpke_parameters.key.enc == Some(#[trigger] encoded(enc)) && (Suite::of_ids(
            chosen.kem,
            chosen.kdf,
            chosen.aead,
        ) matches Some(suite) ==> enc.len() == suite.kem.public_key_len())
    &&& response.hpke_parameters.key.pk == if chosen.mode.authenticates_sender() {
        Some(encoded(keys[chosen.kem].1))
    } else {
        None
    }
}

/// Whether `payload` is the text of a ciphertext: of bytes that hold a tag at
/// least.
pub open spec fn holds_ciphertext(payload: Seq<char>) -> bool {
    exists|cipher: Seq<u8>| payload == #[trigger] encoded(cipher) && cipher.len() >= TAG_LEN
}

/// Whether `payload` is the text of a ciphertext of `packed_len` bytes of
/// plaintext.
pub open spec fn carries(payload: Seq<char>, packed_len: nat) -> bool {
    exists|cipher: Seq<u8>|
        payload == #[trigger] encoded(cipher) && cipher.len() == packed_len + TAG_LEN
}

/// Whether the parts of a response are short enough to be written as text:
/// the ciphertext, the encapsulated key and, where the mode brings it in, the
/// exporter's public key.
pub open spec fn writable(mode: HPKEMode, own_pk: Seq<u8>, cipher: Seq<u8>, enc: Seq<u8>) -> bool {
    &&& cipher.len() <= MAX_ENCODABLE
    &&& enc.len() <= MAX_ENCODABLE
    &&& mode.authenticates_sender() ==> own_pk.len() <= MAX_ENCODABLE
}

/// Assembles the response of an exporter from the chosen parameters and
/// compression, the relying party, the exporter's public key, the ciphertext
/// and the encapsulated key. Fails only where a part is too long to be written
/// as text.
pub fn assemble_response(
    chosen: HPKEParameters,
    archive: ArchiveAlgorithm,
    exporter: String,
    own_pk: Vec<u8>,
    cipher: &[u8],
    enc: Vec<u8>,
) -> (r: Result<ExportResponse, AuthenticatorError>)
    ensures
        if writable(chosen.mode, own_pk@, cipher@, enc@) {
            r matches Ok(response) && response@ == assembled(
                chosen@,
                archive,
                exporter@,
                own_pk@,
                cipher@,
                enc@,
            )
        } else {
            r matches Err(e) && e@ == ErrorView::CodeError(too_long())
        },
{
    let authenticated = chosen.mode.is_authenticated();
    if cipher.len() > MAX_ENCODABLE || enc.len() > MAX_ENCODABLE || (authenticated && own_pk.len()
        > MAX_ENCODABLE) {
        return Err(AuthenticatorError::CodeError(String::from_str("too long to encode")));
    }
    let mut hpke_parameters = chosen;
    let pk = if authenticated {
        Some(own_pk)
    } else {
        None
    };
    hpke_parameters.encode_jwk(Some(enc), pk);
    Ok(
        ExportResponse {
            version: 0,
            hpke_parameters,
            archive,
            exporter,
            payload: encode(cipher),
        },
    )
}

impl<T: InnerAuthenticator> Authenticator<T> {
    /// Builds the request with which this identity asks for the credential of
    /// the relying party `rp_id`: version 0, everything that the identity
    /// supports, direct delivery.
    pub fn construct_export_request(&self, rp_id: String) -> (request: ExportRequest)
        ensures
            request@ == (ExportRequestView {
                version: 0,
                hpke_parameters: self.inner.supported_hpke(),
                archive: self.inner.supported_archive(),
                mode: ResponseMode::Direct,
                importer: rp_id@,
                credential_types: None,
                known_extensions: None,
            }),
    {
        let (hpke_params, archive_algs) = self.inner.support_algorithms();
        ExportRequest::new(hpke_params, ResponseMode::Direct, rp_id, archive_algs, None, None)
    }

    /// Negotiates with a proposer that offers `recv_hpke` and `recv_archive`.
    ///
    /// The HPKE parameters are the first entry of `recv_hpke` whose mode and
    /// algorithms this identity supports. The compression is the first of this
    /// identity's algorithms that `recv_archive` holds. Where either has no
    /// common choice, the algorithm is unsupported.
    pub fn match_algorithm(
        &self,
        recv_hpke: &[HPKEParameters],
        recv_archive: &[ArchiveAlgorithm],
    ) -> (r: Result<(HPKEParameters, ArchiveAlgorithm), AuthenticatorError>)
        ensures
            match r {
                Ok(chosen) => negotiated(
                    params_view(recv_hpke@),
                    recv_archive@,
                    self.inner.supported_hpke(),
                    self.inner.supported_archive(),
                ) == Some((chosen.0@, chosen.1)),
                Err(e) => e@ == ErrorView::UnsupportedAlgorithm && negotiated(
                    params_view(recv_hpke@),
                    recv_archive@,
                    self.inner.supported_hpke(),
                    self.inner.supported_archive(),
                ) is None,
            },
    {
        let supported = self.inner.support_algorithms();
        let hpke = match first_common_hpke(recv_hpke, supported.0.as_slice()) {
            Some(hpke) => hpke,
            None => {
                return Err(AuthenticatorError::UnsupportedAlgorithm);
            },
        };
        let archive = match first_common_archive(recv_archive, supported.1.as_slice()) {
            Some(archive) => archive,
            None => {
                return Err(AuthenticatorError::UnsupportedAlgorithm);
            },
        };
        Ok((hpke, archive))
    }

    /// Encrypts `data` to the public key `pk` under `params`, with this
    /// identity's key pair for the mechanism. Returns the ciphertext and the
    /// encapsulated key.
    fn perform_encryption(&self, params: &HPKEParameters, data: &[u8], pk: &[u8]) -> (r: Result<
        (Vec<u8>, Vec<u8>),
        AuthenticatorError,
    >)
        ensures
            !self.inner.keys().contains_key(params.kem) ==> (r matches Err(e) && e@
                == ErrorView::InnerAuthenticatorError(no_key_pair())),
            self.inner.keys().contains_key(params.kem) ==> match Suite::of_ids(
                params.kem,
                params.kdf,
                params.aead,
            ) {
                None => r matches Err(e) && e@ == ErrorView::UnsupportedAlgorithm,
                Some(suite) => match r {
                    Ok(sealed) => sealed_fits(suite.kem, data@.len(), sealed) && (
                    params.mode.authenticates_sender() ==> pair_sized(
                        suite.kem,
                        self.inner.keys()[params.kem].0,
                        self.inner.keys()[params.kem].1,
                    )),
                    Err(e) => e@ == ErrorView::CryptoError(seal_failure()),
                },
            },
    {
        match self.inner.key_pair(params.kem) {
            None => Err(
                AuthenticatorError::InnerAuthenticatorError(String::from_str("Key pair not found")),
            ),
            Some(key_pair) => encrypt(
                params.kem,
                params.kdf,
                params.aead,
                data,
                pk,
                &params.mode,
                &key_pair,
            ),
        }
    }

    /// Decrypts `cipher` under `params` with the key pair (`sk`, `pk`) and the
    /// encapsulated key `enc`. The sender's public key is taken from the key
    /// material of `params`.
    fn perform_decryption(
        &self,
        params: &HPKEParameters,
        cipher: &[u8],
        sk: &[u8],
        pk: &[u8],
        enc: &[u8],
    ) -> (r: Result<Vec<u8>, AuthenticatorError>)
        ensures
            bytes_result(r) == match decoded_key(params@.key) {
                Err(e) => Err(e),
                Ok(key) => decrypted(
                    params.kem,
                    params.kdf,
                    params.aead,
                    cipher@,
                    sk@,
                    pk@,
                    enc@,
                    params.mode,
                    key.pk,
                ),
            },
    {
        let decoded_jwk = params.decode_jwk()?;
        decrypt(
            params.kem,
            params.kdf,
            params.aead,
            cipher,
            sk,
            pk,
            enc,
            &params.mode,
            &decoded_jwk.pk,
        )
    }

    /// Exports the credential of the relying party `importer` out of
    /// `credentials`, under parameters and a compression that were negotiated:
    /// compresses it, encrypts it to the public key that the importer put into
    /// the chosen parameters, and assembles the response.
    ///
    /// [`refusal`] says which inputs are refused, and with which error. On
    /// the others the outcome lies with the encryption: a response, or a
    /// cryptographic failure. The only other failure is a ciphertext too long
    /// to be written as text.
    pub fn export_with<C: Credential>(
        &self,
        chosen: HPKEParameters,
        archive: ArchiveAlgorithm,
        importer: String,
        credentials: &Vec<C>,
    ) -> (r: Result<ExportResponse, AuthenticatorError>)
        ensures
            match refusal(chosen@, archive, importer@, credentials@, self.inner.keys()) {
                Some(e) => r matches Err(x) && x@ == e,
                None => packed(archive, importer@, credentials@) matches Some(bytes) && match r {
                    Ok(response) => answers(
                        response@,
                        chosen@,
                        archive,
                        importer@,
                        self.inner.keys(),
                    ) && carries(response@.payload, bytes.len()),
                    Err(e) => if bytes.len() + TAG_LEN <= MAX_ENCODABLE {
                        e@ == ErrorView::CryptoError(seal_failure())
                    } else {
                        e@ == ErrorView::CryptoError(seal_failure()) || e@ == ErrorView::CodeError(
                            too_long(),
                        )
                    },
                },
            },
    {
        let credential = match find_credential(credentials, &importer) {
            Some(i) => &credentials[i],
            None => {
                return Err(AuthenticatorError::CredentialNotFound);
            },
        };
        let data = match archive.compress(credential.get_credential().as_slice()) {
            Ok(data) => data,
            Err(e) => {
                return Err(AuthenticatorError::CodeError(e));
            },
        };
        let pk = match chosen.decode_jwk()?.pk {
            Some(pk) => pk,
            None => {
                return Err(AuthenticatorError::CodeError(String::from_str("missing public key")));
            },
        };
        let (cipher, encapped_key) = self.perform_encryption(
            &chosen,
            data.as_slice(),
            pk.as_slice(),
        )?;
        let own_pk = match self.inner.key_pair(chosen.kem) {
            Some(key_pair) => key_pair.1,
            None => {
                return Err(
                    AuthenticatorError::InnerAuthenticatorError(
                        String::from_str("Key pair not found"),
                    ),
                );
            },
        };
        assemble_response(chosen, archive, importer, own_pk, cipher.as_slice(), encapped_key)
    }

    /// Answers a request: negotiates, asks the store for its credentials, and
    /// exports the credential of the relying party that the request names.
    ///
    /// Where negotiation finds no common choice, the algorithm is unsupported,
    /// and the store is not asked. A response, where there is one, is of
    /// version 0, names the negotiated parameters and compression and the
    /// relying party of the request, and carries the encapsulated key, of the
    /// length that the mechanism fixes, and a ciphertext as its payload. It
    /// carries this identity's public key in the authenticated modes and no
    /// public key in the others.
    pub fn handle_request(&self, request: ExportRequest) -> (r: Result<
        ExportResponse,
        AuthenticatorError,
    >)
        ensures
            negotiated(
                request@.hpke_parameters,
                request@.archive,
                self.inner.supported_hpke(),
                self.inner.supported_archive(),
            ) is None ==> (r matches Err(e) && e@ == ErrorView::UnsupportedAlgorithm),
            r matches Ok(response) ==> {
                &&& negotiated(
                    request@.hpke_parameters,
                    request@.archive,
                    self.inner.supported_hpke(),
                    self.inner.supported_archive(),
                ) matches Some(chosen)
                &&& Suite::of_ids(chosen.0.kem, chosen.0.kdf, chosen.0.aead) is Some
                &&& self.inner.keys().contains_key(chosen.0.kem)
                &&& answers(
                    response@,
                    chosen.0,
                    chosen.1,
                    request@.importer,
                    self.inner.keys(),
                )
                &&& holds_ciphertext(response@.payload)
                &&& response@.hpke_parameters.key.enc is Some
                &&& response@.hpke_parameters.key.pk is Some
                    <==> chosen.0.mode.authenticates_sender()
            },
    {
        let (chosen, archive) = self.match_algorithm(
            request.hpke_parameters.as_slice(),
            request.archive.as_slice(),
        )?;
        let credentials = self.inner.get_credentials()?;
        self.export_with(chosen, archive, request.importer, &credentials)
    }

    /// Takes in a response: decodes the payload, decrypts it with this
    /// identity's key pair for the mechanism that the response states, and
    /// decompresses the plaintext. Returns the credential.
    pub fn handle_response(&self, response: ExportResponse) -> (r: Result<
        Vec<u8>,
        AuthenticatorError,
    >)
        ensures
            bytes_result(r) == recovered(response@, self.inner.keys()),
    {
        let cipher = match decode(response.payload.as_str()) {
            Ok(cipher) => cipher,
            Err(_) => {
                return Err(
                    AuthenticatorError::CodeError(String::from_str("Base64 Decode Error Occurred")),
                );
            },
        };
        let params = &response.hpke_parameters;
        let (sk, pk) = match self.inner.key_pair(params.kem) {
            Some(key_pair) => key_pair,
            None => {
                return Err(
                    AuthenticatorError::InnerAuthenticatorError(
                        String::from_str("Key pair not found"),
                    ),
                );
            },
        };
        let enc = match params.decode_jwk()?.enc {
            Some(enc) => enc,
            None => {
                return Err(
                    AuthenticatorError::CodeError(String::from_str("missing encapsulated key")),
                );
            },
        };
        let decrypted_text = self.perform_decryption(
            params,
            cipher.as_slice(),
            sk.as_slice(),
            pk.as_slice(),
            enc.as_slice(),
        )?;
        match response.archive.decompress(decrypted_text.as_slice()) {
            Ok(credential) => Ok(credential),
            Err(_) => Err(AuthenticatorError::CodeError(String::from_str("Unzip Decoded error"))),
        }
    }
}

} // verus!
