use vstd::prelude::*;

verus! {

/// Everything an operation on the dungeon can fail with.
#[derive(Clone, Debug, PartialEq, Eq)]
pub enum GameError {
    /// The session root is absent.
    NotInitialized,
    /// A session root already exists where a new one was to be made.
    DungeonExists,
    /// A character of this name is already registered.
    AlreadyExists(String),
    /// A generator session is already checked out.
    AlreadyActive,
    /// A document that must always be readable (metadata, generator state) is missing or malformed.
    CorruptState,
    /// A record is missing or malformed while the metadata is sound.
    CorruptRecord,
    /// The named character is not in the registry.
    NotFound(String),
    /// The named character has no health left.
    CharacterDead(String),
    /// Another character has already gone into the dungeon.
    AlreadyAdventuring(String),
    /// There is no active character.
    NoOneActive,
    /// Every name drawn was already taken.
    NameSpaceExhausted,
    /// The storage failed, with the reason it gave.
    IoError(String),
    /// The session is in a state that no sequence of operations produces.
    InvalidTransition,
    /// Rebuilding the dungeon from its seed failed.
    ResetFailed,
}

} // verus!
