//! The failures this crate reports.

use vstd::prelude::*;

verus! {

/// What kind of failure an operation ended in.
#[derive(Debug, Clone, Copy, PartialEq, Eq, Structural)]
pub enum ErrorType {
    /// The entity or row asked for does not exist.
    NoneError,
    /// A store or the judging service failed, or an answer could not be read.
    SystemError,
    /// The caller has no identity.
    Unauthorized,
    /// The caller's role does not allow the operation.
    Forbidden,
    /// The caller's data breaks a rule.
    BadRequest,
}

/// A failure: its kind, and a message for the caller.
#[derive(Debug, PartialEq, Eq)]
pub struct Error {
    pub error_type: ErrorType,
    pub error: String,
}

impl Error {
    pub fn new(error_type: ErrorType, error: &str) -> (e: Self)
        ensures
            e.error_type == error_type,
            e.error@ == error@,
    {
        Self { error_type, error: error.to_owned() }
    }

    pub fn none_error(error: &str) -> (e: Self)
        ensures
            e.error_type == ErrorType::NoneError,
            e.error@ == error@,
    {
        Self::new(ErrorType::NoneError, error)
    }

    pub fn system_error(error: &str) -> (e: Self)
        ensures
            e.error_type == ErrorType::SystemError,
            e.error@ == error@,
    {
        Self::new(ErrorType::SystemError, error)
    }

    /// The label that a failure of this kind is shown under.
    pub open spec fn label(t: ErrorType) -> Seq<char> {
        match t {
            ErrorType::NoneError => "NoneError : "@,
            ErrorType::SystemError => "SystemError : "@,
            ErrorType::Unauthorized => "Unauthorized  : "@,
            ErrorType::Forbidden => "Forbidden  : "@,
            ErrorType::BadRequest => "Bad Request  : "@,
        }
    }

    /// The failure as one line of text: the kind's label, then the message.
    pub fn describe(&self) -> (s: String)
        ensures
            s@ == Self::label(self.error_type) + self.error@,
    {
        let label = match self.error_type {
            ErrorType::NoneError => "NoneError : ",
            ErrorType::SystemError => "SystemError : ",
            ErrorType::Unauthorized => "Unauthorized  : ",
            ErrorType::Forbidden => "Forbidden  : ",
            ErrorType::BadRequest => "Bad Request  : ",
        };
        let mut s = String::from_str(label);
        s.append(self.error.as_str());
        s
    }

    /// The HTTP status a failure of this kind answers with.
    pub fn status_code(&self) -> (code: u16)
        ensures
            code == match self.error_type {
                ErrorType::NoneError => 404u16,
                ErrorType::SystemError => 500u16,
                ErrorType::Unauthorized => 403u16,
                ErrorType::Forbidden => 403u16,
                ErrorType::BadRequest => 400u16,
            },
    {
        match self.error_type {
            ErrorType::NoneError => 404,
            ErrorType::SystemError => 500,
            ErrorType::Unauthorized => 403,
            ErrorType::Forbidden => 403,
            ErrorType::BadRequest => 400,
        }
    }
}

} // verus!
