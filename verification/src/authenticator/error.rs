//! The failures an authenticator reports.

use vstd::prelude::*;
use vstd::string::StringExecFns;

verus! {

/// What can go wrong in an exchange.
#[derive(Debug)]
pub enum AuthenticatorError {
    /// The inner authenticator reported a failure of its own.
    InnerAuthenticatorError(String),
    /// The request asks for something this authenticator does not do.
    RequestNotAllowed(String),
    /// A message could not be read or written, or a collaborator failed.
    InternalError(String),
    /// An identifier names no implementation, or the two parties share no
    /// algorithm.
    UnsupportedAlgorithm,
    /// Key generation, encapsulation, sealing or opening failed.
    CryptoError(String),
    /// Text or compressed data was malformed.
    CodeError(String),
    /// The store holds no credential for the relying party asked for.
    CredentialNotFound,
}

/// The mathematical value of an [`AuthenticatorError`].
pub enum ErrorView {
    InnerAuthenticatorError(Seq<char>),
    RequestNotAllowed(Seq<char>),
    InternalError(Seq<char>),
    UnsupportedAlgorithm,
    CryptoError(Seq<char>),
    CodeError(Seq<char>),
    CredentialNotFound,
}

impl View for AuthenticatorError {
    type V = ErrorView;

    open spec fn view(&self) -> ErrorView {
        match self {
            AuthenticatorError::InnerAuthenticatorError(s) => ErrorView::InnerAuthenticatorError(s@),
            AuthenticatorError::RequestNotAllowed(s) => ErrorView::RequestNotAllowed(s@),
            AuthenticatorError::InternalError(s) => ErrorView::InternalError(s@),
            AuthenticatorError::UnsupportedAlgorithm => ErrorView::UnsupportedAlgorithm,
            AuthenticatorError::CryptoError(s) => ErrorView::CryptoError(s@),
            AuthenticatorError::CodeError(s) => ErrorView::CodeError(s@),
            AuthenticatorError::CredentialNotFound => ErrorView::CredentialNotFound,
        }
    }
}

impl ErrorView {
    /// The text shown for an error: a fixed phrase for its kind, followed by
    /// the detail it carries, if any.
    pub open spec fn message(self) -> Seq<char> {
        match self {
            ErrorView::InnerAuthenticatorError(e) => "内部验证器错误 "@ + e,
            ErrorView::RequestNotAllowed(e) => "不支持的请求："@ + e,
            ErrorView::InternalError(e) => "内部验证器错误 "@ + e,
            ErrorView::UnsupportedAlgorithm => "不支持的算法"@,
            ErrorView::CryptoError(e) => "加密过程出现错误: "@ + e,
            ErrorView::CodeError(e) => "编码过程出现错误 "@ + e,
            ErrorView::CredentialNotFound => "没有找到相应的凭证"@,
        }
    }
}

impl AuthenticatorError {
    /// Renders the error for a reader.
    pub fn message(&self) -> (text: String)
        ensures
            text@ == self@.message(),
    {
        match self {
            AuthenticatorError::InnerAuthenticatorError(e) => String::from_str("内部验证器错误 ").concat(
                e.as_str(),
            ),
            AuthenticatorError::RequestNotAllowed(e) => String::from_str("不支持的请求：").concat(
                e.as_str(),
            ),
            AuthenticatorError::InternalError(e) => String::from_str("内部验证器错误 ").concat(
                e.as_str(),
            ),
            AuthenticatorError::UnsupportedAlgorithm => String::from_str("不支持的算法"),
            AuthenticatorError::CryptoError(e) => String::from_str("加密过程出现错误: ").concat(
                e.as_str(),
            ),
            AuthenticatorError::CodeError(e) => String::from_str("编码过程出现错误 ").concat(
                e.as_str(),
            ),
            AuthenticatorError::CredentialNotFound => String::from_str("没有找到相应的凭证"),
        }
    }
}

} // verus!
