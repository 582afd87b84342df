//! The errors of this crate.

use vstd::prelude::*;

use crate::action::{ActionType, ScopedEntryDefIndex};
use crate::hash::HashKind;

verus! {

/// Every way an operation of this crate can fail. All of them are final: no
/// operation retries, and none hands back a partial result beside an error.
#[derive(Clone, Debug, PartialEq, Eq)]
#[allow(inconsistent_fields)]
pub enum Error {
    /// The text is not the encoding of an action, entry or external hash.
    InvalidHashString,
    /// More than one encoding accepted the text.
    AmbiguousHash,
    /// A hash was narrowed to a kind that its tag does not have.
    HashKindMismatch { expected: HashKind, actual: HashKind },
    /// A fetched action is not of the type that was asked for.
    ActionTypeMismatch { expected: ActionType, actual: ActionType },
    /// An action that should create an entry is neither a create nor an update.
    NotACreationAction { actual: ActionType },
    /// An external hash names nothing that the record store could hold.
    ResolutionUnsupported,
    /// The payload's bytes do not have the shape of the requested type.
    DeserializationMismatch { detail: String },
    /// The action declares no application entry type.
    NotAppEntry,
    /// No entry type is registered under the key of the entry definition.
    NoMatchingRegisteredType { descriptor: ScopedEntryDefIndex },
    /// A revision chain holds an action that is neither a create nor an update.
    WrongActionKindInChain { actual: ActionType },
    /// The record store has nothing valid under the requested hash.
    RecordNotFound,
    /// A revision chain has more actions than the walk along it may note.
    ChainTooLong,
}

/// How a payload decoder can fail.
#[derive(Clone, Debug, PartialEq, Eq)]
pub enum DecodeFailure {
    /// The codec could not read the bytes as the requested type.
    Deserialize(String),
    /// Anything else; reported unchanged.
    Other(Error),
}

/// What a decoder's failure is reported as: the codec's own account of a
/// mismatch is folded into `DeserializationMismatch`, every other failure is
/// handed on as it is.
pub open spec fn normalized_failure(failure: DecodeFailure) -> Error {
    match failure {
        DecodeFailure::Deserialize(detail) => Error::DeserializationMismatch { detail },
        DecodeFailure::Other(error) => error,
    }
}

/// What a decoder's outcome is reported as: a value unchanged, a failure by
/// [`normalized_failure`].
pub open spec fn normalized<T>(decoded: Result<T, DecodeFailure>) -> Result<T, Error> {
    match decoded {
        Ok(value) => Ok(value),
        Err(failure) => Err(normalized_failure(failure)),
    }
}

/// Folds a decoder's failure into this crate's errors.
pub fn convert_deserialize_error(failure: DecodeFailure) -> (error: Error)
    ensures
        error == normalized_failure(failure),
{
    match failure {
        DecodeFailure::Deserialize(detail) => Error::DeserializationMismatch { detail },
        DecodeFailure::Other(error) => error,
    }
}

} // verus!
