//! The messages of the exchange and what they carry.

pub mod archive;
pub mod base64url;
pub mod credential;
pub mod hpke_format;
pub mod request;
pub mod response;
