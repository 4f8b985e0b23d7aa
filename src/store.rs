use vstd::prelude::*;

use crate::error::GameError;
use crate::meta::Meta;

verus! {

/// What reading one named document of the session root gave.
#[derive(Clone, Debug, PartialEq, Eq)]
pub enum Fetched<T> {
    /// The document was there and well formed.
    Found(T),
    /// There is no such document.
    Missing,
    /// The document is there but does not parse, with the parser's reason.
    Malformed(String),
    /// The storage failed for another reason than absence, with its reason.
    Unreadable(String),
}

/// Whether a path of the session root exists; `Err` holds the reason the
/// storage could not tell.
pub type Probe = Result<bool, String>;

/// A strict read: the document itself decides the outcome.
pub open spec fn strict_outcome<T>(doc: Fetched<T>) -> Result<T, GameError> {
    match doc {
        Fetched::Found(v) => Ok(v),
        Fetched::Missing => Err(GameError::CorruptState),
        Fetched::Malformed(_) => Err(GameError::CorruptState),
        Fetched::Unreadable(e) => Err(GameError::IoError(e)),
    }
}

/// What the absence or malformation of a document that the session should hold means,
/// judged by the metadata: a corrupt store where the metadata is sound, a session that
/// was never made where the metadata is absent too, and otherwise the metadata's own
/// failure.
pub open spec fn absence_outcome(meta: Fetched<Meta>) -> GameError {
    match meta {
        Fetched::Found(_) => GameError::CorruptRecord,
        Fetched::Missing => GameError::NotInitialized,
        Fetched::Malformed(_) => GameError::CorruptState,
        Fetched::Unreadable(e) => GameError::IoError(e),
    }
}

/// A lenient read: where the document is missing or malformed, the metadata decides
/// what that means.
pub open spec fn lenient_outcome<T>(doc: Fetched<T>, meta: Fetched<Meta>) -> Result<T, GameError> {
    match doc {
        Fetched::Found(v) => Ok(v),
        Fetched::Unreadable(e) => Err(GameError::IoError(e)),
        _ => Err(absence_outcome(meta)),
    }
}

/// What a probe of the session root gives.
pub open spec fn root_outcome(root: Probe) -> Result<(), GameError> {
    match root {
        Ok(true) => Ok(()),
        Ok(false) => Err(GameError::NotInitialized),
        Err(e) => Err(GameError::IoError(e)),
    }
}

/// What a probe of the character folder gives: its absence is judged by the metadata.
pub open spec fn folder_outcome(folder: Probe, meta: Fetched<Meta>) -> Result<(), GameError> {
    match folder {
        Ok(true) => Ok(()),
        Ok(false) => Err(absence_outcome(meta)),
        Err(e) => Err(GameError::IoError(e)),
    }
}

/// What a missing or malformed document means, judged by the metadata.
pub fn judge_absence(meta: &Fetched<Meta>) -> (r: GameError)
    ensures
        r == absence_outcome(*meta),
{
    match meta {
        Fetched::Found(_) => GameError::CorruptRecord,
        Fetched::Missing => GameError::NotInitialized,
        Fetched::Malformed(_) => GameError::CorruptState,
        Fetched::Unreadable(e) => GameError::IoError(e.clone()),
    }
}

/// Reads a document that must be there: absence and malformation are both
/// reported as a corrupt session.
pub fn require_file_strict<T>(doc: Fetched<T>) -> (r: Result<T, GameError>)
    ensures
        r == strict_outcome(doc),
{
    match doc {
        Fetched::Found(v) => Ok(v),
        Fetched::Missing => Err(GameError::CorruptState),
        Fetched::Malformed(_) => Err(GameError::CorruptState),
        Fetched::Unreadable(e) => Err(GameError::IoError(e)),
    }
}

/// Reads a record whose absence or malformation is judged by the metadata: a corrupt
/// record if the metadata is sound, an uninitialised session if it is absent too, and
/// the metadata's own failure otherwise.
pub fn require_file<T>(doc: Fetched<T>, meta: &Fetched<Meta>) -> (r: Result<T, GameError>)
    ensures
        r == lenient_outcome(doc, *meta),
{
    match doc {
        Fetched::Found(v) => Ok(v),
        Fetched::Unreadable(e) => Err(GameError::IoError(e)),
        _ => Err(judge_absence(meta)),
    }
}

/// Reads the metadata strictly: it is the check that tells a corrupt session apart.
pub fn require_meta(meta: Fetched<Meta>) -> (r: Result<Meta, GameError>)
    ensures
        r == strict_outcome(meta),
{
    require_file_strict(meta)
}

/// Fails unless the session root exists.
pub fn require_root(root: &Probe) -> (r: Result<(), GameError>)
    ensures
        r == root_outcome(*root),
{
    match root {
        Ok(true) => Ok(()),
        Ok(false) => Err(GameError::NotInitialized),
        Err(e) => Err(GameError::IoError(e.clone())),
    }
}

/// Fails unless the character folder exists; its absence is judged by the metadata.
pub fn require_char(folder: &Probe, meta: &Fetched<Meta>) -> (r: Result<(), GameError>)
    ensures
        r == folder_outcome(*folder, *meta),
{
    match folder {
        Ok(true) => Ok(()),
        Ok(false) => Err(judge_absence(meta)),
        Err(e) => Err(GameError::IoError(e.clone())),
    }
}

} // verus!
