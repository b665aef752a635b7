//! HPKE parameters as they stand in a message, and the coding of the key
//! material that travels with them.

use vstd::prelude::*;
use vstd::std_specs::cmp::PartialEqSpecImpl;
use vstd::string::StringExecFns;
use crate::authenticator::error::{AuthenticatorError, ErrorView};
use crate::authenticator::protocol::base64url::{decode, decoded, encode, encoded, MAX_ENCODABLE};

verus! {

/// The authentication mode of an exchange.
#[derive(Clone, Copy, Debug, PartialEq, Eq, Structural)]
pub enum HPKEMode {
    /// The sender proves nothing about itself.
    Base,
    /// Both sides mix in a pre-shared key.
    Psk,
    /// The sender authenticates with its static key pair.
    Auth,
    /// Both of the above.
    AuthPsk,
}

impl HPKEMode {
    /// Whether the sender's static key pair takes part.
    pub open spec fn authenticates_sender(self) -> bool {
        self == HPKEMode::Auth || self == HPKEMode::AuthPsk
    }

    /// Whether the pre-shared key takes part.
    pub open spec fn uses_psk(self) -> bool {
        self == HPKEMode::Psk || self == HPKEMode::AuthPsk
    }

    /// Whether the sender's static key pair takes part.
    pub fn is_authenticated(&self) -> (b: bool)
        ensures
            b == self.authenticates_sender(),
    {
        match self {
            HPKEMode::Auth => true,
            HPKEMode::AuthPsk => true,
            _ => false,
        }
    }
}

/// Key material as bytes: the encapsulated key and the peer's public key.
pub struct JWK {
    pub enc: Option<Vec<u8>>,
    pub pk: Option<Vec<u8>>,
}

/// Key material as it is written in a message: each field that is present is
/// text in base64.
#[derive(Debug, Clone)]
pub struct JWKS {
    pub enc: Option<String>,
    pub pk: Option<String>,
}

/// One set of HPKE parameters. With empty key material it announces a
/// capability; with key material filled in it is the parameter block of a
/// message.
#[derive(Debug, Clone)]
pub struct HPKEParameters {
    pub mode: HPKEMode,
    pub kem: u16,
    pub kdf: u16,
    pub aead: u16,
    pub key: JWKS,
}

/// The mathematical value of a [`JWK`].
pub struct JWKView {
    pub enc: Option<Seq<u8>>,
    pub pk: Option<Seq<u8>>,
}

/// The mathematical value of a [`JWKS`].
pub struct JWKSView {
    pub enc: Option<Seq<char>>,
    pub pk: Option<Seq<char>>,
}

/// The mathematical value of an [`HPKEParameters`].
pub struct HPKEParametersView {
    pub mode: HPKEMode,
    pub kem: u16,
    pub kdf: u16,
    pub aead: u16,
    pub key: JWKSView,
}

/// The mathematical value of bytes that may be absent.
pub open spec fn bytes_view(field: Option<Vec<u8>>) -> Option<Seq<u8>> {
    match field {
        Some(bytes) => Some(bytes@),
        None => None,
    }
}

/// The mathematical value of text that may be absent.
pub open spec fn text_view(field: Option<String>) -> Option<Seq<char>> {
    match field {
        Some(text) => Some(text@),
        None => None,
    }
}

impl View for JWK {
    type V = JWKView;

    open spec fn view(&self) -> JWKView {
        JWKView { enc: bytes_view(self.enc), pk: bytes_view(self.pk) }
    }
}

impl View for JWKS {
    type V = JWKSView;

    open spec fn view(&self) -> JWKSView {
        JWKSView { enc: text_view(self.enc), pk: text_view(self.pk) }
    }
}

impl View for HPKEParameters {
    type V = HPKEParametersView;

    open spec fn view(&self) -> HPKEParametersView {
        HPKEParametersView {
            mode: self.mode,
            kem: self.kem,
            kdf: self.kdf,
            aead: self.aead,
            key: self.key@,
        }
    }
}

impl HPKEParametersView {
    /// Whether two parameter sets name the same mode and the same three
    /// algorithms. This is what negotiation compares; the key material plays
    /// no part.
    pub open spec fn matches(self, other: HPKEParametersView) -> bool {
        &&& self.mode == other.mode
        &&& self.kdf == other.kdf
        &&& self.aead == other.aead
        &&& self.kem == other.kem
    }
}

impl PartialEq for HPKEParameters {
    /// Two parameter sets are equal when they name the same mode and the same
    /// three algorithms, whatever key material they carry.
    fn eq(&self, other: &Self) -> (same: bool) {
        self.mode == other.mode && self.kdf == other.kdf && self.aead == other.aead && self.kem
            == other.kem
    }
}

impl PartialEqSpecImpl for HPKEParameters {
    open spec fn obeys_eq_spec() -> bool {
        true
    }

    open spec fn eq_spec(&self, other: &Self) -> bool {
        self@.matches(other@)
    }
}

/// The detail of the error for key material that is not valid base64.
pub open spec fn decode_failure() -> Seq<char> {
    "Decode error"@
}

/// One field decoded: absent stays absent, present text becomes the bytes it
/// encodes. Nothing where present text is not a valid encoding.
pub open spec fn decoded_field(field: Option<Seq<char>>) -> Option<Option<Seq<u8>>> {
    match field {
        None => Some(None),
        Some(text) => match decoded(text) {
            Some(bytes) => Some(Some(bytes)),
            None => None,
        },
    }
}

/// One field encoded: absent stays absent, present bytes become their text.
pub open spec fn encoded_field(field: Option<Seq<u8>>) -> Option<Seq<char>> {
    match field {
        None => None,
        Some(bytes) => Some(encoded(bytes)),
    }
}

/// Key material decoded field by field. A present field that does not decode
/// fails the whole.
pub open spec fn decoded_key(key: JWKSView) -> Result<JWKView, ErrorView> {
    match (decoded_field(key.enc), decoded_field(key.pk)) {
        (Some(enc), Some(pk)) => Ok(JWKView { enc, pk }),
        _ => Err(ErrorView::CodeError(decode_failure())),
    }
}

/// Decoding neither adds a field nor removes one: where it succeeds, each
/// field is present after it if and only if it was present before.
pub proof fn lemma_decoding_keeps_fields(key: JWKSView)
    ensures
        decoded_key(key) matches Ok(bytes) ==> (bytes.enc is Some <==> key.enc is Some) && (
        bytes.pk is Some <==> key.pk is Some),
        decoded_key(key) is Err <==> (key.enc matches Some(text) && decoded(text) is None) || (
        key.pk matches Some(text) && decoded(text) is None),
{
}

/// Decoding undoes encoding, field by field, wherever base64 decoding undoes
/// base64 encoding on the bytes of the fields that are present. That it does
/// so on all bytes is a property of the base64 coding, which is taken as given
/// here.
pub proof fn lemma_decoding_undoes_encoding(enc: Option<Seq<u8>>, pk: Option<Seq<u8>>)
    requires
        enc matches Some(bytes) ==> decoded(encoded(bytes)) == Some(bytes),
        pk matches Some(bytes) ==> decoded(encoded(bytes)) == Some(bytes),
    ensures
        decoded_key(JWKSView { enc: encoded_field(enc), pk: encoded_field(pk) }) == Ok::<
            JWKView,
            ErrorView,
        >(JWKView { enc, pk }),
{
}

/// Encoding neither adds a field nor removes one.
pub proof fn lemma_encoding_keeps_fields(field: Option<Seq<u8>>)
    ensures
        encoded_field(field) is Some <==> field is Some,
{
}

/// Whether a field is short enough to be encoded.
pub open spec fn encodable(field: Option<Vec<u8>>) -> bool {
    field matches Some(bytes) ==> bytes@.len() <= MAX_ENCODABLE
}

/// Decodes one field.
fn decode_field(field: &Option<String>) -> (r: Option<Option<Vec<u8>>>)
    ensures
        match r {
            Some(bytes) => decoded_field(text_view(*field)) == Some(bytes_view(bytes)),
            None => decoded_field(text_view(*field)) is None,
        },
{
    match field {
        None => Some(None),
        Some(text) => match decode(text.as_str()) {
            Ok(bytes) => Some(Some(bytes)),
            Err(_) => None,
        },
    }
}

/// Encodes one field.
fn encode_field(field: Option<Vec<u8>>) -> (r: Option<String>)
    requires
        encodable(field),
    ensures
        text_view(r) == encoded_field(bytes_view(field)),
{
    match field {
        None => None,
        Some(bytes) => Some(encode(bytes.as_slice())),
    }
}

impl JWKS {
    /// A copy with the same value.
    pub fn duplicate(&self) -> (copy: JWKS)
        ensures
            copy@ == self@,
    {
        let enc = match &self.enc {
            Some(text) => Some(text.clone()),
            None => None,
        };
        let pk = match &self.pk {
            Some(text) => Some(text.clone()),
            None => None,
        };
        JWKS { enc, pk }
    }
}

impl HPKEParameters {
    /// A copy with the same value.
    pub fn duplicate(&self) -> (copy: HPKEParameters)
        ensures
            copy@ == self@,
    {
        HPKEParameters {
            mode: self.mode,
            kem: self.kem,
            kdf: self.kdf,
            aead: self.aead,
            key: self.key.duplicate(),
        }
    }

    /// Decodes the key material. Each field that is present is decoded on its
    /// own, and absent fields stay absent. A present field that is not valid
    /// base64 is a coding error.
    pub fn decode_jwk(&self) -> (r: Result<JWK, AuthenticatorError>)
        ensures
            match r {
                Ok(key) => decoded_key(self@.key) == Ok::<JWKView, ErrorView>(key@),
                Err(e) => decoded_key(self@.key) == Err::<JWKView, ErrorView>(e@),
            },
    {
        let enc = decode_field(&self.key.enc);
        let pk = decode_field(&self.key.pk);
        match (enc, pk) {
            (Some(enc), Some(pk)) => Ok(JWK { enc, pk }),
            _ => Err(AuthenticatorError::CodeError(String::from_str("Decode error"))),
        }
    }

    /// Replaces the key material by the encoding of `key`, the encapsulated
    /// key, and of `pk`, the public key. Each field that is present is encoded
    /// on its own, and absent fields stay absent. The mode and the algorithms
    /// stay as they are.
    pub fn encode_jwk(&mut self, key: Option<Vec<u8>>, pk: Option<Vec<u8>>)
        requires
            encodable(key),
            encodable(pk),
        ensures
            final(self)@ == (HPKEParametersView {
                key: JWKSView {
                    enc: encoded_field(bytes_view(key)),
                    pk: encoded_field(bytes_view(pk)),
                },
                ..old(self)@
            }),
    {
        let enc = encode_field(key);
        let pk = encode_field(pk);
        self.key = JWKS { enc, pk };
    }
}

} // verus!
