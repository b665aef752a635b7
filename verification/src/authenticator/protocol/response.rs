//! The message that carries an exported credential.

use vstd::prelude::*;
use crate::authenticator::protocol::archive::ArchiveAlgorithm;
use crate::authenticator::protocol::hpke_format::{HPKEParameters, HPKEParametersView};

verus! {

/// The response to an export request.
#[derive(Debug, Clone)]
pub struct ExportResponse {
    /// The protocol version, 0.
    pub version: u16,
    /// The parameters the exporter chose, with the encapsulated key and, in
    /// the authenticated modes, the exporter's public key.
    pub hpke_parameters: HPKEParameters,
    /// The compression the exporter chose.
    pub archive: ArchiveAlgorithm,
    /// The relying party of the credential.
    pub exporter: String,
    /// The encrypted credential, in base64.
    pub payload: String,
}

/// The mathematical value of an [`ExportResponse`].
pub struct ExportResponseView {
    pub version: u16,
    pub hpke_parameters: HPKEParametersView,
    pub archive: ArchiveAlgorithm,
    pub exporter: Seq<char>,
    pub payload: Seq<char>,
}

impl View for ExportResponse {
    type V = ExportResponseView;

    open spec fn view(&self) -> ExportResponseView {
        ExportResponseView {
            version: self.version,
            hpke_parameters: self.hpke_parameters@,
            archive: self.archive,
            exporter: self.exporter@,
            payload: self.payload@,
        }
    }
}

} // verus!
