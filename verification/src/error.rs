//! The failures that an operation can report, and the classification of a
//! response status into one of them.

use vstd::prelude::*;

verus! {

/// What kind of failure a non-success status stands for.
#[derive(Debug, Clone, Copy, PartialEq, Eq, Structural)]
pub enum HttpErrorKind {
    /// Status 404: the resource does not exist.
    NotFound,
    /// Any other status from 400 to 499.
    ClientError,
    /// A status from 500 to 599.
    ServerError,
    /// A status that is neither a success nor in 400 to 599.
    Unexpected,
}

/// One failure of one operation.
#[derive(Debug, Clone, PartialEq, Eq)]
pub enum Error {
    /// The request never produced a status; the text is the cause.
    Transport(String),
    /// The server answered with a status outside 200 to 299.
    Http { status: u16, kind: HttpErrorKind, raw_body: String },
    /// A success body could not be decoded; the raw body and the parser's
    /// diagnostic are kept.
    Decode { raw_body: String, diagnostic: String },
    /// A date did not fit the fixed `YYYY-MM-DD` form; the text is the
    /// offending input.
    MalformedDate(String),
    /// A local precondition failed before any request was built.
    Validation(String),
}

/// Whether a status is a success: 200 to 299.
pub open spec fn is_success(status: u16) -> bool {
    200 <= status <= 299
}

/// The kind that a non-success status is classified as.
pub open spec fn kind_of_status(status: u16) -> HttpErrorKind {
    if status == 404 {
        HttpErrorKind::NotFound
    } else if 400 <= status <= 499 {
        HttpErrorKind::ClientError
    } else if 500 <= status <= 599 {
        HttpErrorKind::ServerError
    } else {
        HttpErrorKind::Unexpected
    }
}

/// Tells whether `status` is a success.
pub fn status_is_success(status: u16) -> (success: bool)
    ensures
        success == is_success(status),
{
    200 <= status && status <= 299
}

impl HttpErrorKind {
    /// Classifies a status: nothing for a success, else the kind by the
    /// status alone.
    pub fn of_status(status: u16) -> (kind: Option<HttpErrorKind>)
        ensures
            is_success(status) <==> kind.is_none(),
            !is_success(status) ==> kind == Some(kind_of_status(status)),
    {
        if status_is_success(status) {
            None
        } else if status == 404 {
            Some(HttpErrorKind::NotFound)
        } else if 400 <= status && status <= 499 {
            Some(HttpErrorKind::ClientError)
        } else if 500 <= status && status <= 599 {
            Some(HttpErrorKind::ServerError)
        } else {
            Some(HttpErrorKind::Unexpected)
        }
    }
}

impl Error {
    /// The failure for a response with a non-success status. The body is
    /// attached as it came, whatever it holds.
    pub fn from_response(status: u16, raw_body: String) -> (error: Error)
        requires
            !is_success(status),
        ensures
            error == (Error::Http { status, kind: kind_of_status(status), raw_body }),
    {
        match HttpErrorKind::of_status(status) {
            Some(kind) => Error::Http { status, kind, raw_body },
            None => Error::Http { status, kind: HttpErrorKind::Unexpected, raw_body },
        }
    }

    /// The failure for a success body that did not decode.
    pub fn decode_failure(raw_body: String, diagnostic: String) -> (error: Error)
        ensures
            error == (Error::Decode { raw_body, diagnostic }),
    {
        Error::Decode { raw_body, diagnostic }
    }

    /// The failure for a request that the transport could not complete.
    pub fn transport_failure(cause: String) -> (error: Error)
        ensures
            error == Error::Transport(cause),
    {
        Error::Transport(cause)
    }

    /// Whether this is an `Http` failure of the given kind.
    pub fn is_http_kind(&self, kind: HttpErrorKind) -> (yes: bool)
        ensures
            yes == (self matches Error::Http { kind: k, .. } && k == kind),
    {
        match self {
            Error::Http { kind: k, .. } => *k == kind,
            _ => false,
        }
    }
}

/// A success status is never classified as a failure, and every other
/// status is classified by its number alone: 404 as not found, the rest of
/// 400 to 499 as a client error, 500 to 599 as a server error.
pub proof fn lemma_classification(status: u16)
    ensures
        is_success(status) ==> !(400 <= status),
        status == 404 ==> kind_of_status(status) == HttpErrorKind::NotFound,
        400 <= status <= 499 && status != 404 ==> kind_of_status(status)
            == HttpErrorKind::ClientError,
        500 <= status <= 599 ==> kind_of_status(status) == HttpErrorKind::ServerError,
{
}

} // verus!
