//! The error taxonomy of the service layer.
//!
//! Every failure a request can end in is one of three kinds: the caller
//! supplied an identity that is not known, name generation yielded no
//! usable candidate, or the persistent store reported an I/O failure.
//! Each carries a stable reason string and maps to a fixed HTTP status.

use vstd::prelude::*;

verus! {

/// Status code for a request the caller got wrong.
pub const STATUS_BAD_REQUEST: u16 = 400;

/// Status code for an internal failure.
pub const STATUS_INTERNAL_ERROR: u16 = 500;

/// A terminal failure of an ingestion or query request.
#[derive(Debug, PartialEq, Eq)]
pub enum ServiceError {
    /// The caller supplied this identity, and it is not among the known
    /// users.
    NotFound(String),
    /// The name generator ran out of usable candidates.
    Exhausted,
    /// The persistent store failed; carries the store's own description.
    Store(String),
}

impl ServiceError {
    /// The stable reason string of this error.
    pub open spec fn spec_message(self) -> Seq<char> {
        match self {
            ServiceError::NotFound(user) => "user not found - "@ + user@,
            ServiceError::Exhausted => "generate name error"@,
            ServiceError::Store(text) => text@,
        }
    }

    /// The HTTP status this error surfaces as: an unknown identity is the
    /// caller's error, everything else is internal.
    pub open spec fn spec_status(self) -> u16 {
        match self {
            ServiceError::NotFound(_) => STATUS_BAD_REQUEST,
            _ => STATUS_INTERNAL_ERROR,
        }
    }

    /// Renders the stable reason string.
    pub fn message(&self) -> (m: String)
        ensures
            m@ == self.spec_message(),
    {
        match self {
            ServiceError::NotFound(user) => {
                let mut m = "user not found - ".to_owned();
                m.append(user.as_str());
                m
            },
            ServiceError::Exhausted => "generate name error".to_owned(),
            ServiceError::Store(text) => text.clone(),
        }
    }

    /// The HTTP status this error surfaces as.
    pub fn http_status(&self) -> (s: u16)
        ensures
            s == self.spec_status(),
    {
        match self {
            ServiceError::NotFound(_) => STATUS_BAD_REQUEST,
            _ => STATUS_INTERNAL_ERROR,
        }
    }
}

} // verus!
