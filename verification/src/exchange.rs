//! What passes between the client and whoever carries its requests.
//!
//! The client does no I/O of its own. An operation is a step function: asked
//! without a reply, it says which URL to fetch; handed the outcome of that one
//! round trip, it gives the operation's result.

use vstd::prelude::*;
use crate::decode::failure;
use crate::error::{ApiError, ApiErrorView, DecodeError, DecodeErrorKind, RequestError};
use crate::json::Json;

verus! {

/// The outcome of one round trip to the service.
#[derive(Debug, PartialEq, Eq)]
pub enum Exchange {
    /// No reply arrived: the transport failed, or the time limit ran out.
    Failed { timed_out: bool },
    /// A reply arrived with this HTTP status. `body` is the reply's body,
    /// parsed; `None` where the body is no JSON document.
    Replied { status: u16, body: Option<Json> },
}

/// What an operation wants next.
#[derive(Debug, PartialEq, Eq)]
pub enum Step<T> {
    /// Fetch this URL with a GET request, once, and hand back the outcome.
    Send(String),
    /// The operation is over, with this result.
    Done(Result<T, ApiError>),
}

/// A [`Step`] as a mathematical value.
pub enum StepView<V> {
    Send(Seq<char>),
    Done(Result<V, ApiErrorView>),
}

impl<T: DeepView> DeepView for Step<T> {
    type V = StepView<T::V>;

    open spec fn deep_view(&self) -> StepView<T::V> {
        match self {
            Step::Send(url) => StepView::Send(url@),
            Step::Done(Ok(value)) => StepView::Done(Ok(value.deep_view())),
            Step::Done(Err(e)) => StepView::Done(Err(e.deep_view())),
        }
    }
}

/// Whether an HTTP status reports success.
pub open spec fn status_is_success(status: u16) -> bool {
    200 <= status <= 299
}

impl Exchange {
    /// The body of a reply that can be decoded, or the error that the
    /// exchange amounts to: a request error where no reply arrived or its
    /// status reports no success, a decode error where the body is no JSON.
    pub open spec fn settled(self) -> Result<Json, ApiErrorView> {
        match self {
            Exchange::Failed { timed_out } => if timed_out {
                Err(ApiErrorView::Request(RequestError::Timeout))
            } else {
                Err(ApiErrorView::Request(RequestError::Network))
            },
            Exchange::Replied { status, body } => if !status_is_success(status) {
                Err(ApiErrorView::Request(RequestError::Status(status)))
            } else {
                match body {
                    Some(json) => Ok(json),
                    None => Err(
                        ApiErrorView::Decode(failure(Seq::empty(), DecodeErrorKind::NotJson)),
                    ),
                }
            },
        }
    }

    /// Tells a reply that can be decoded from an exchange that failed.
    pub fn settle(self) -> (r: Result<Json, ApiError>)
        ensures
            match r {
                Ok(json) => self.settled() == Ok::<Json, ApiErrorView>(json),
                Err(e) => self.settled() == Err::<Json, ApiErrorView>(e.deep_view()),
            },
    {
        match self {
            Exchange::Failed { timed_out } => {
                if timed_out {
                    Err(ApiError::Request(RequestError::Timeout))
                } else {
                    Err(ApiError::Request(RequestError::Network))
                }
            },
            Exchange::Replied { status, body } => {
                if status < 200 || status > 299 {
                    Err(ApiError::Request(RequestError::Status(status)))
                } else {
                    match body {
                        Some(json) => Ok(json),
                        None => {
                            let path: String = String::new();
                            Err(
                                ApiError::Decode(
                                    DecodeError { path, kind: DecodeErrorKind::NotJson },
                                ),
                            )
                        },
                    }
                }
            },
        }
    }
}

} // verus!
