//! The algorithm registry: from the 16-bit identifiers of RFC 9180 to the
//! algorithms this library implements, and back.

use vstd::prelude::*;

verus! {

/// An authenticated cipher.
#[derive(Clone, Copy, Debug, PartialEq, Eq, Structural)]
pub enum AeadAlg {
    AesGcm128,
    AesGcm256,
    ChaCha20Poly1305,
}

/// A key derivation function.
#[derive(Clone, Copy, Debug, PartialEq, Eq, Structural)]
pub enum KdfAlg {
    HkdfSha256,
    HkdfSha384,
    HkdfSha512,
}

/// A key encapsulation mechanism.
#[derive(Clone, Copy, Debug, PartialEq, Eq, Structural)]
pub enum KemAlg {
    DhP256HkdfSha256,
    DhP384HkdfSha384,
    DhP521HkdfSha512,
    X25519HkdfSha256,
}

/// The length in bytes of the tag that every supported cipher appends.
pub const TAG_LEN: usize = 16;

impl AeadAlg {
    /// The cipher registered under `id`, if there is one.
    pub open spec fn of_id(id: u16) -> Option<AeadAlg> {
        if id == 0x01 {
            Some(AeadAlg::AesGcm128)
        } else if id == 0x02 {
            Some(AeadAlg::AesGcm256)
        } else if id == 0x03 {
            Some(AeadAlg::ChaCha20Poly1305)
        } else {
            None
        }
    }

    /// The identifier under which the cipher is registered.
    pub open spec fn id(self) -> u16 {
        match self {
            AeadAlg::AesGcm128 => 0x01,
            AeadAlg::AesGcm256 => 0x02,
            AeadAlg::ChaCha20Poly1305 => 0x03,
        }
    }

    /// Looks a cipher up by its identifier.
    pub fn try_from_u16(id: u16) -> (alg: Option<AeadAlg>)
        ensures
            alg == Self::of_id(id),
    {
        if id == 0x01 {
            Some(AeadAlg::AesGcm128)
        } else if id == 0x02 {
            Some(AeadAlg::AesGcm256)
        } else if id == 0x03 {
            Some(AeadAlg::ChaCha20Poly1305)
        } else {
            None
        }
    }

    /// The cipher's identifier.
    pub fn to_u16(self) -> (id: u16)
        ensures
            id == self.id(),
    {
        match self {
            AeadAlg::AesGcm128 => 0x01,
            AeadAlg::AesGcm256 => 0x02,
            AeadAlg::ChaCha20Poly1305 => 0x03,
        }
    }
}

impl KdfAlg {
    /// The function registered under `id`, if there is one.
    pub open spec fn of_id(id: u16) -> Option<KdfAlg> {
        if id == 0x01 {
            Some(KdfAlg::HkdfSha256)
        } else if id == 0x02 {
            Some(KdfAlg::HkdfSha384)
        } else if id == 0x03 {
            Some(KdfAlg::HkdfSha512)
        } else {
            None
        }
    }

    /// The identifier under which the function is registered.
    pub open spec fn id(self) -> u16 {
        match self {
            KdfAlg::HkdfSha256 => 0x01,
            KdfAlg::HkdfSha384 => 0x02,
            KdfAlg::HkdfSha512 => 0x03,
        }
    }

    /// The length in bytes of the digest the function is built on.
    pub open spec fn digest_len(self) -> nat {
        match self {
            KdfAlg::HkdfSha256 => 32,
            KdfAlg::HkdfSha384 => 48,
            KdfAlg::HkdfSha512 => 64,
        }
    }

    /// Looks a key derivation function up by its identifier.
    pub fn try_from_u16(id: u16) -> (alg: Option<KdfAlg>)
        ensures
            alg == Self::of_id(id),
    {
        if id == 0x01 {
            Some(KdfAlg::HkdfSha256)
        } else if id == 0x02 {
            Some(KdfAlg::HkdfSha384)
        } else if id == 0x03 {
            Some(KdfAlg::HkdfSha512)
        } else {
            None
        }
    }

    /// The function's identifier.
    pub fn to_u16(self) -> (id: u16)
        ensures
            id == self.id(),
    {
        match self {
            KdfAlg::HkdfSha256 => 0x01,
            KdfAlg::HkdfSha384 => 0x02,
            KdfAlg::HkdfSha512 => 0x03,
        }
    }

    /// The digest length in bytes.
    pub fn get_digest_len(self) -> (len: usize)
        ensures
            len == self.digest_len(),
    {
        match self {
            KdfAlg::HkdfSha256 => 32,
            KdfAlg::HkdfSha384 => 48,
            KdfAlg::HkdfSha512 => 64,
        }
    }
}

impl KemAlg {
    /// The mechanism registered under `id`, if there is one.
    pub open spec fn of_id(id: u16) -> Option<KemAlg> {
        if id == 0x10 {
            Some(KemAlg::DhP256HkdfSha256)
        } else if id == 0x11 {
            Some(KemAlg::DhP384HkdfSha384)
        } else if id == 0x12 {
            Some(KemAlg::DhP521HkdfSha512)
        } else if id == 0x20 {
            Some(KemAlg::X25519HkdfSha256)
        } else {
            None
        }
    }

    /// The identifier under which the mechanism is registered.
    pub open spec fn id(self) -> u16 {
        match self {
            KemAlg::DhP256HkdfSha256 => 0x10,
            KemAlg::DhP384HkdfSha384 => 0x11,
            KemAlg::DhP521HkdfSha512 => 0x12,
            KemAlg::X25519HkdfSha256 => 0x20,
        }
    }

    /// The length in bytes of a public key, and of an encapsulated key, which
    /// is a public key too.
    pub open spec fn public_key_len(self) -> nat {
        match self {
            KemAlg::DhP256HkdfSha256 => 65,
            KemAlg::DhP384HkdfSha384 => 97,
            KemAlg::DhP521HkdfSha512 => 133,
            KemAlg::X25519HkdfSha256 => 32,
        }
    }

    /// The length in bytes of a private key.
    pub open spec fn private_key_len(self) -> nat {
        match self {
            KemAlg::DhP256HkdfSha256 => 32,
            KemAlg::DhP384HkdfSha384 => 48,
            KemAlg::DhP521HkdfSha512 => 66,
            KemAlg::X25519HkdfSha256 => 32,
        }
    }

    /// Looks a key encapsulation mechanism up by its identifier.
    pub fn try_from_u16(id: u16) -> (alg: Option<KemAlg>)
        ensures
            alg == Self::of_id(id),
    {
        if id == 0x10 {
            Some(KemAlg::DhP256HkdfSha256)
        } else if id == 0x11 {
            Some(KemAlg::DhP384HkdfSha384)
        } else if id == 0x12 {
            Some(KemAlg::DhP521HkdfSha512)
        } else if id == 0x20 {
            Some(KemAlg::X25519HkdfSha256)
        } else {
            None
        }
    }

    /// The mechanism's identifier.
    pub fn to_u16(self) -> (id: u16)
        ensures
            id == self.id(),
    {
        match self {
            KemAlg::DhP256HkdfSha256 => 0x10,
            KemAlg::DhP384HkdfSha384 => 0x11,
            KemAlg::DhP521HkdfSha512 => 0x12,
            KemAlg::X25519HkdfSha256 => 0x20,
        }
    }
}

/// A type that implements one of the registered ciphers.
pub trait AeadChoice {
    /// The registry entry that the type implements.
    spec fn alg() -> AeadAlg;
}

/// A type that implements one of the registered key derivation functions.
pub trait KdfChoice {
    /// The registry entry that the type implements.
    spec fn alg() -> KdfAlg;
}

/// A type that implements one of the registered key encapsulation mechanisms.
pub trait KemChoice {
    /// The registry entry that the type implements.
    spec fn alg() -> KemAlg;
}

#[verifier::external_type_specification]
#[verifier::external_body]
pub struct ExAesGcm128(hpke::aead::AesGcm128);

#[verifier::external_type_specification]
#[verifier::external_body]
pub struct ExAesGcm256(hpke::aead::AesGcm256);

#[verifier::external_type_specification]
#[verifier::external_body]
pub struct ExChaCha20Poly1305(hpke::aead::ChaCha20Poly1305);

#[verifier::external_type_specification]
#[verifier::external_body]
pub struct ExHkdfSha256(hpke::kdf::HkdfSha256);

#[verifier::external_type_specification]
#[verifier::external_body]
pub struct ExHkdfSha384(hpke::kdf::HkdfSha384);

#[verifier::external_type_specification]
#[verifier::external_body]
pub struct ExHkdfSha512(hpke::kdf::HkdfSha512);

#[verifier::external_type_specification]
#[verifier::external_body]
pub struct ExDhP256HkdfSha256(hpke::kem::DhP256HkdfSha256);

#[verifier::external_type_specification]
#[verifier::external_body]
pub struct ExDhP384HkdfSha384(hpke::kem::DhP384HkdfSha384);

#[verifier::external_type_specification]
#[verifier::external_body]
pub struct ExDhP521HkdfSha512(hpke::kem::DhP521HkdfSha512);

#[verifier::external_type_specification]
#[verifier::external_body]
pub struct ExX25519HkdfSha256(hpke::kem::X25519HkdfSha256);

impl AeadChoice for hpke::aead::AesGcm128 {
    open spec fn alg() -> AeadAlg {
        AeadAlg::AesGcm128
    }
}

impl AeadChoice for hpke::aead::AesGcm256 {
    open spec fn alg() -> AeadAlg {
        AeadAlg::AesGcm256
    }
}

impl AeadChoice for hpke::aead::ChaCha20Poly1305 {
    open spec fn alg() -> AeadAlg {
        AeadAlg::ChaCha20Poly1305
    }
}

impl KdfChoice for hpke::kdf::HkdfSha256 {
    open spec fn alg() -> KdfAlg {
        KdfAlg::HkdfSha256
    }
}

impl KdfChoice for hpke::kdf::HkdfSha384 {
    open spec fn alg() -> KdfAlg {
        KdfAlg::HkdfSha384
    }
}

impl KdfChoice for hpke::kdf::HkdfSha512 {
    open spec fn alg() -> KdfAlg {
        KdfAlg::HkdfSha512
    }
}

impl KemChoice for hpke::kem::DhP256HkdfSha256 {
    open spec fn alg() -> KemAlg {
        KemAlg::DhP256HkdfSha256
    }
}

impl KemChoice for hpke::kem::DhP384HkdfSha384 {
    open spec fn alg() -> KemAlg {
        KemAlg::DhP384HkdfSha384
    }
}

impl KemChoice for hpke::kem::DhP521HkdfSha512 {
    open spec fn alg() -> KemAlg {
        KemAlg::DhP521HkdfSha512
    }
}

impl KemChoice for hpke::kem::X25519HkdfSha256 {
    open spec fn alg() -> KemAlg {
        KemAlg::X25519HkdfSha256
    }
}

/// A cipher suite: one algorithm on each axis.
#[derive(Clone, Copy, Debug, PartialEq, Eq, Structural)]
pub struct Suite {
    pub aead: AeadAlg,
    pub kdf: KdfAlg,
    pub kem: KemAlg,
}

impl Suite {
    /// The suite that three identifiers name. Each identifier is looked up on
    /// its own axis; there is a suite only if all three are registered.
    pub open spec fn of_ids(kem: u16, kdf: u16, aead: u16) -> Option<Suite> {
        match (AeadAlg::of_id(aead), KdfAlg::of_id(kdf), KemAlg::of_id(kem)) {
            (Some(aead), Some(kdf), Some(kem)) => Some(Suite { aead, kdf, kem }),
            _ => None,
        }
    }
}

/// Every algorithm is registered under its own identifier.
pub proof fn lemma_id_round_trip(aead: AeadAlg, kdf: KdfAlg, kem: KemAlg)
    ensures
        AeadAlg::of_id(aead.id()) == Some(aead),
        KdfAlg::of_id(kdf.id()) == Some(kdf),
        KemAlg::of_id(kem.id()) == Some(kem),
        Suite::of_ids(kem.id(), kdf.id(), aead.id()) == Some(Suite { aead, kdf, kem }),
{
}

/// An identifier names at most one algorithm, and that algorithm carries it.
pub proof fn lemma_of_id_injective(id: u16)
    ensures
        AeadAlg::of_id(id) matches Some(a) ==> a.id() == id,
        KdfAlg::of_id(id) matches Some(k) ==> k.id() == id,
        KemAlg::of_id(id) matches Some(m) ==> m.id() == id,
{
}

} // verus!
