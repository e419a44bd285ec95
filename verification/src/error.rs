//! The errors that an operation can end in.

use vstd::prelude::*;

verus! {

/// Why a request produced no usable reply.
#[derive(Clone, Copy, Debug, PartialEq, Eq, Structural)]
pub enum RequestError {
    /// The operation needs a credential and the client holds none. Nothing was
    /// sent.
    MissingCredential,
    /// The transport failed before a reply arrived.
    Network,
    /// No reply arrived within the time limit.
    Timeout,
    /// A reply arrived, with this HTTP status outside 200..=299.
    Status(u16),
}

/// What is wrong with the value at the path of a [`DecodeError`].
#[derive(Clone, Copy, Debug, PartialEq, Eq, Structural)]
pub enum DecodeErrorKind {
    /// The reply's body is no JSON document.
    NotJson,
    /// An object lacks a field that must be there.
    Missing,
    /// An object holds a field more than once.
    Repeated,
    /// The value is of another JSON type than the field's.
    WrongType,
    /// The value is an integer outside the range of the field's type.
    OutOfRange,
}

/// A reply's body does not have the expected shape.
#[derive(Clone, Debug, PartialEq, Eq)]
pub struct DecodeError {
    /// Where in the body the offending value stands, such as
    /// `appnews.newsitems[3].date`; empty for the body as a whole.
    pub path: String,
    pub kind: DecodeErrorKind,
}

/// A [`DecodeError`] as a mathematical value.
pub struct DecodeErrorView {
    pub path: Seq<char>,
    pub kind: DecodeErrorKind,
}

impl DeepView for DecodeError {
    type V = DecodeErrorView;

    open spec fn deep_view(&self) -> DecodeErrorView {
        DecodeErrorView { path: self.path@, kind: self.kind }
    }
}

/// Any failure of the client.
#[derive(Clone, Debug, PartialEq, Eq)]
pub enum ApiError {
    /// The transport could not be set up when the client was built.
    TransportInit,
    Request(RequestError),
    Decode(DecodeError),
}

/// An [`ApiError`] as a mathematical value.
pub enum ApiErrorView {
    TransportInit,
    Request(RequestError),
    Decode(DecodeErrorView),
}

impl DeepView for ApiError {
    type V = ApiErrorView;

    open spec fn deep_view(&self) -> ApiErrorView {
        match self {
            ApiError::TransportInit => ApiErrorView::TransportInit,
            ApiError::Request(e) => ApiErrorView::Request(*e),
            ApiError::Decode(e) => ApiErrorView::Decode(e.deep_view()),
        }
    }
}

} // verus!
