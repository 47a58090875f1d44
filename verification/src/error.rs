//! The typed failures every ledger operation reports.

use vstd::prelude::*;

verus! {

/// The four classes of failure.
#[derive(Clone, Copy, Debug, PartialEq, Eq, Structural)]
pub enum ErrorKind {
    /// A referenced entity, or the contract, is absent.
    NotFound,
    /// A change was attempted on an order that is already settled.
    AlreadyPaid,
    /// The request is malformed or breaks a rule of the protocol.
    InvalidPayload,
    /// A password does not match.
    Unauthorized,
}

/// What a failure is in contracts: its class and its exact message.
pub struct Failure {
    pub kind: ErrorKind,
    pub text: Seq<char>,
}

/// A failure returned by a ledger operation.
#[derive(Clone, Debug, PartialEq, Eq)]
pub enum Error {
    NotFound { msg: String },
    AlreadyPaid { msg: String },
    InvalidPayload { msg: String },
    Unauthorized { msg: String },
}

impl View for Error {
    type V = Failure;

    open spec fn view(&self) -> Failure {
        match *self {
            Error::NotFound { msg } => Failure { kind: ErrorKind::NotFound, text: msg@ },
            Error::AlreadyPaid { msg } => Failure { kind: ErrorKind::AlreadyPaid, text: msg@ },
            Error::InvalidPayload { msg } => Failure {
                kind: ErrorKind::InvalidPayload,
                text: msg@,
            },
            Error::Unauthorized { msg } => Failure { kind: ErrorKind::Unauthorized, text: msg@ },
        }
    }
}

/// The failure of class `kind` with message `text`.
pub open spec fn failure(kind: ErrorKind, text: Seq<char>) -> Failure {
    Failure { kind, text }
}

impl Error {
    /// Builds the error of class `kind` that carries `msg`.
    pub fn new(kind: ErrorKind, msg: String) -> (e: Error)
        ensures
            e@ == failure(kind, msg@),
    {
        match kind {
            ErrorKind::NotFound => Error::NotFound { msg },
            ErrorKind::AlreadyPaid => Error::AlreadyPaid { msg },
            ErrorKind::InvalidPayload => Error::InvalidPayload { msg },
            ErrorKind::Unauthorized => Error::Unauthorized { msg },
        }
    }

    /// The class of this error.
    pub fn kind(&self) -> (k: ErrorKind)
        ensures
            k == self@.kind,
    {
        match self {
            Error::NotFound { .. } => ErrorKind::NotFound,
            Error::AlreadyPaid { .. } => ErrorKind::AlreadyPaid,
            Error::InvalidPayload { .. } => ErrorKind::InvalidPayload,
            Error::Unauthorized { .. } => ErrorKind::Unauthorized,
        }
    }

    /// The message of this error.
    pub fn message(&self) -> (m: &String)
        ensures
            m@ == self@.text,
    {
        match self {
            Error::NotFound { msg } => msg,
            Error::AlreadyPaid { msg } => msg,
            Error::InvalidPayload { msg } => msg,
            Error::Unauthorized { msg } => msg,
        }
    }
}

} // verus!
