//! The message with which an importer asks for a credential.

use vstd::prelude::*;
use crate::authenticator::protocol::archive::ArchiveAlgorithm;
use crate::authenticator::protocol::hpke_format::{HPKEParameters, HPKEParametersView};

verus! {

/// How the importer wants the response delivered. Only `Direct` is acted on;
/// the other two are carried through.
#[derive(Debug, Clone, Copy, PartialEq, Eq, Structural)]
pub enum ResponseMode {
    Direct,
    Indirect,
    Self_,
}

/// A request to export a credential.
#[derive(Debug)]
pub struct ExportRequest {
    /// The protocol version, 0.
    pub version: u16,
    /// The HPKE parameters that the importer offers, the preferred first. Each
    /// carries the importer's public key for its mechanism.
    pub hpke_parameters: Vec<HPKEParameters>,
    /// The compression algorithms that the importer offers.
    pub archive: Vec<ArchiveAlgorithm>,
    pub mode: ResponseMode,
    /// The relying party whose credential is asked for.
    pub importer: String,
    pub credential_types: Option<Vec<String>>,
    pub known_extensions: Option<Vec<String>>,
}

/// The mathematical value of a list of parameter sets.
pub open spec fn params_view(list: Seq<HPKEParameters>) -> Seq<HPKEParametersView> {
    Seq::new(list.len(), |i: int| list[i]@)
}

/// The mathematical value of a list of texts.
pub open spec fn texts_view(list: Seq<String>) -> Seq<Seq<char>> {
    Seq::new(list.len(), |i: int| list[i]@)
}

/// The mathematical value of a list of texts that may be absent.
pub open spec fn hints_view(hints: Option<Vec<String>>) -> Option<Seq<Seq<char>>> {
    match hints {
        Some(list) => Some(texts_view(list@)),
        None => None,
    }
}

/// The mathematical value of an [`ExportRequest`].
pub struct ExportRequestView {
    pub version: u16,
    pub hpke_parameters: Seq<HPKEParametersView>,
    pub archive: Seq<ArchiveAlgorithm>,
    pub mode: ResponseMode,
    pub importer: Seq<char>,
    pub credential_types: Option<Seq<Seq<char>>>,
    pub known_extensions: Option<Seq<Seq<char>>>,
}

impl View for ExportRequest {
    type V = ExportRequestView;

    open spec fn view(&self) -> ExportRequestView {
        ExportRequestView {
            version: self.version,
            hpke_parameters: params_view(self.hpke_parameters@),
            archive: self.archive@,
            mode: self.mode,
            importer: self.importer@,
            credential_types: hints_view(self.credential_types),
            known_extensions: hints_view(self.known_extensions),
        }
    }
}

impl ExportRequest {
    /// A request of version 0 that holds what is given.
    pub fn new(
        hpke_parameters: Vec<HPKEParameters>,
        mode: ResponseMode,
        importer: String,
        archive: Vec<ArchiveAlgorithm>,
        credential_types: Option<Vec<String>>,
        known_extensions: Option<Vec<String>>,
    ) -> (request: ExportRequest)
        ensures
            request@ == (ExportRequestView {
                version: 0,
                hpke_parameters: params_view(hpke_parameters@),
                archive: archive@,
                mode,
                importer: importer@,
                credential_types: hints_view(credential_types),
                known_extensions: hints_view(known_extensions),
            }),
    {
        ExportRequest {
            version: 0,
            hpke_parameters,
            archive,
            mode,
            importer,
            credential_types,
            known_extensions,
        }
    }
}

} // verus!
