//! Errors that a submission reports to its caller.
use vstd::prelude::*;

verus! {

/// The two ways in which a submitted unit can fail.
#[derive(Debug, Clone, Copy, PartialEq, Eq, Structural)]
pub enum DecodeErrorKind {
    /// The engine refused the unit: nothing was consumed, and the caller may
    /// retry or skip it.
    IngestionRejected,
    /// The engine failed while producing output: its buffered state is
    /// suspect until a flush or a new session.
    DecodeFault,
}

/// An error of one submission, with its kind and a message.
#[derive(Debug, Clone, PartialEq, Eq)]
pub enum Dav1dError {
    DecodeError { kind: DecodeErrorKind, name: String },
}

/// The message of a refused unit.
pub open spec fn rejected_message() -> Seq<char> {
    "Data can't be consumed"@
}

/// The message of a fault while draining.
pub open spec fn fault_message() -> Seq<char> {
    "Invalid data"@
}

impl Dav1dError {
    pub open spec fn spec_kind(&self) -> DecodeErrorKind {
        match self {
            Dav1dError::DecodeError { kind, .. } => *kind,
        }
    }

    pub open spec fn spec_name(&self) -> Seq<char> {
        match self {
            Dav1dError::DecodeError { name, .. } => name@,
        }
    }

    /// The error of a unit that the engine refused.
    pub fn ingestion_rejected() -> (e: Dav1dError)
        ensures
            e.spec_kind() == DecodeErrorKind::IngestionRejected,
            e.spec_name() == rejected_message(),
    {
        Dav1dError::DecodeError {
            kind: DecodeErrorKind::IngestionRejected,
            name: "Data can't be consumed".to_owned(),
        }
    }

    /// The error of a fault while draining.
    pub fn decode_fault() -> (e: Dav1dError)
        ensures
            e.spec_kind() == DecodeErrorKind::DecodeFault,
            e.spec_name() == fault_message(),
    {
        Dav1dError::DecodeError { kind: DecodeErrorKind::DecodeFault, name: "Invalid data".to_owned() }
    }

    /// Which of the two failures this is.
    pub fn kind(&self) -> (k: DecodeErrorKind)
        ensures
            k == self.spec_kind(),
    {
        match self {
            Dav1dError::DecodeError { kind, .. } => *kind,
        }
    }

    /// The message that describes the failure.
    pub fn name(&self) -> (s: &str)
        ensures
            s@ == self.spec_name(),
    {
        match self {
            Dav1dError::DecodeError { name, .. } => name.as_str(),
        }
    }
}

} // verus!
