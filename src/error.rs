use vstd::prelude::*;

verus! {

/// The coarse class of a failure, which decides the HTTP status.
#[derive(Clone, Copy, Debug, PartialEq, Eq, Structural)]
pub enum ErrorKind {
    BadRequest,
    Unauthorized,
    UpstreamError,
    InternalError,
}

/// A failure of the relay, with a message for the caller.
#[derive(Clone, Debug, PartialEq)]
pub enum RelayError {
    /// Malformed body, unparseable JSON or an invalid mailbox.
    BadRequest(String),
    /// Missing or incorrect API key, or a sender outside the allowlist.
    Unauthorized(String),
    /// The upstream SMTP server failed or refused the message.
    UpstreamError(String),
    /// A failure of the gateway itself.
    InternalError(String),
}

/// The HTTP status that answers a failure of the given kind.
pub open spec fn kind_status(k: ErrorKind) -> u16 {
    match k {
        ErrorKind::BadRequest => 400,
        ErrorKind::Unauthorized => 401,
        ErrorKind::UpstreamError => 502,
        ErrorKind::InternalError => 500,
    }
}

impl RelayError {
    pub open spec fn spec_kind(&self) -> ErrorKind {
        match self {
            RelayError::BadRequest(_) => ErrorKind::BadRequest,
            RelayError::Unauthorized(_) => ErrorKind::Unauthorized,
            RelayError::UpstreamError(_) => ErrorKind::UpstreamError,
            RelayError::InternalError(_) => ErrorKind::InternalError,
        }
    }

    pub open spec fn spec_message(&self) -> Seq<char> {
        match self {
            RelayError::BadRequest(m) => m@,
            RelayError::Unauthorized(m) => m@,
            RelayError::UpstreamError(m) => m@,
            RelayError::InternalError(m) => m@,
        }
    }

    pub fn kind(&self) -> (r: ErrorKind)
        ensures
            r == self.spec_kind(),
    {
        match self {
            RelayError::BadRequest(_) => ErrorKind::BadRequest,
            RelayError::Unauthorized(_) => ErrorKind::Unauthorized,
            RelayError::UpstreamError(_) => ErrorKind::UpstreamError,
            RelayError::InternalError(_) => ErrorKind::InternalError,
        }
    }

    /// The HTTP status code of this failure.
    pub fn status_code(&self) -> (r: u16)
        ensures
            r == kind_status(self.spec_kind()),
    {
        match self {
            RelayError::BadRequest(_) => 400,
            RelayError::Unauthorized(_) => 401,
            RelayError::UpstreamError(_) => 502,
            RelayError::InternalError(_) => 500,
        }
    }

    /// The human-readable message of this failure.
    pub fn message(&self) -> (r: String)
        ensures
            r@ == self.spec_message(),
    {
        match self {
            RelayError::BadRequest(m) => m.clone(),
            RelayError::Unauthorized(m) => m.clone(),
            RelayError::UpstreamError(m) => m.clone(),
            RelayError::InternalError(m) => m.clone(),
        }
    }
}

} // verus!
