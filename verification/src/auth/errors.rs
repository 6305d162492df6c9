//! The failures of issuing and checking tokens.

use vstd::prelude::*;

verus! {

/// A type alias for `Result<T, auth::Error>`.
pub type Result<T> = std::result::Result<T, Error>;

/// The ways in which issuing or checking a token can fail.
#[derive(Clone, Copy, Debug, PartialEq, Eq, Structural)]
pub enum ErrorKind {
    /// The claims could not be turned into a document to sign.
    Serialization,
    /// The key does not fit the declared algorithm, or signing failed.
    Signing,
    /// The signature does not match the token under the expected algorithm.
    SignatureInvalid,
    /// The token does not have the expected structure.
    Malformed,
    /// The time bounds of the token do not hold now.
    ExpiredOrNotYetValid,
    /// The identity token does not carry the hash of the access token.
    BindingMismatch,
    /// The access token is too long to be hashed on this machine.
    Encoding,
}

/// A failure, by its kind and with a message for people.
#[derive(Clone, Debug, Eq, PartialEq)]
pub struct Error {
    pub kind: ErrorKind,
    pub message: String,
}

/// An error as contracts see it: its kind and the text of its message.
pub struct ErrorView {
    pub kind: ErrorKind,
    pub message: Seq<char>,
}

impl View for Error {
    type V = ErrorView;

    open spec fn view(&self) -> ErrorView {
        ErrorView { kind: self.kind, message: self.message@ }
    }
}

impl Error {
    /// An error of the given kind whose message is what `err` displays as: for
    /// a text, the text itself.
    pub fn from<T: std::fmt::Display + ?Sized>(kind: ErrorKind, err: &T) -> (error: Self)
        ensures
            error.kind == kind,
            vstd::string::to_string_from_display_ensures::<T>(err, error.message),
    {
        Error { kind, message: err.to_string() }
    }

    /// An error of the given kind with the given message.
    pub fn new(kind: ErrorKind, message: &str) -> (error: Self)
        ensures
            error@ == (ErrorView { kind, message: message@ }),
    {
        Error { kind, message: message.to_owned() }
    }

    /// The kinds with which a verifier turns a pair of tokens away for what they
    /// hold, as opposed to failures of the machinery.
    pub fn is_rejection(&self) -> (rejected: bool)
        ensures
            rejected == (self.kind == ErrorKind::SignatureInvalid || self.kind
                == ErrorKind::Malformed || self.kind == ErrorKind::ExpiredOrNotYetValid
                || self.kind == ErrorKind::BindingMismatch),
    {
        match self.kind {
            ErrorKind::SignatureInvalid
            | ErrorKind::Malformed
            | ErrorKind::ExpiredOrNotYetValid
            | ErrorKind::BindingMismatch => true,
            _ => false,
        }
    }
}

} // verus!
