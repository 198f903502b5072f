//! The errors that a request can end in, and the HTTP status each one is answered with.
use vstd::prelude::*;

use drova_sdk::requester::Error as DrovaError;

verus! {

/// The error type of `drova_sdk`'s requester, carried through unchanged.
#[verifier::external_type_specification]
#[verifier::external_body]
pub struct ExDrovaError(DrovaError);

/// Why a request failed.
pub enum AppError {
    /// The page could not be fetched, read or rendered.
    Drova(DrovaError),
    /// The request itself is at fault.
    BadRequest(String),
    /// The remote server, or what it sent, is at fault.
    Upstream(String),
}

/// The HTTP status that answers an error: `400` for a bad request, `502` otherwise.
pub open spec fn error_status(e: AppError) -> u16 {
    match e {
        AppError::Drova(_) => 502,
        AppError::BadRequest(_) => 400,
        AppError::Upstream(_) => 502,
    }
}

/// The `Debug` text of a `drova_sdk` error (its derived `Debug` impl).
pub uninterp spec fn drova_debug_text(error: DrovaError) -> Seq<char>;

/// The message of an error: the one it carries, or the `Debug` text of the
/// `drova_sdk` error.
pub open spec fn error_message(e: AppError) -> Seq<char> {
    match e {
        AppError::Drova(d) => drova_debug_text(d),
        AppError::BadRequest(m) => m@,
        AppError::Upstream(m) => m@,
    }
}

/// `Debug` formatting of a `drova_sdk` error (`format!("{:?}", error)`).
#[verifier::external_body]
fn drova_error_debug(error: &DrovaError) -> (s: String)
    ensures
        s@ == drova_debug_text(*error),
{
    format!("{error:?}")
}

impl From<DrovaError> for AppError {
    fn from(error: DrovaError) -> (r: Self) {
        AppError::Drova(error)
    }
}

impl vstd::std_specs::convert::FromSpecImpl<DrovaError> for AppError {
    open spec fn obeys_from_spec() -> bool {
        true
    }

    open spec fn from_spec(error: DrovaError) -> Self {
        AppError::Drova(error)
    }
}

impl AppError {
    /// The HTTP status that answers this error.
    pub fn status(&self) -> (s: u16)
        ensures
            s == error_status(*self),
    {
        match self {
            AppError::Drova(_) => 502,
            AppError::BadRequest(_) => 400,
            AppError::Upstream(_) => 502,
        }
    }

    /// The text reported for this error: the message it carries, or the `Debug`
    /// form of the `drova_sdk` error.
    pub fn message(&self) -> (m: String)
        ensures
            m@ == error_message(*self),
    {
        match self {
            AppError::Drova(error) => drova_error_debug(error),
            AppError::BadRequest(message) => message.clone(),
            AppError::Upstream(message) => message.clone(),
        }
    }
}

} // verus!
