//! Credential exchange between an exporting and an importing authenticator.
//!
//! A credential travels encrypted under HPKE (RFC 9180). The key encapsulation,
//! key derivation and authenticated encryption algorithms are chosen at run
//! time by their 16-bit identifiers, and the exchange runs in one of four
//! authentication modes.

pub mod authenticator;
