use vstd::prelude::*;

use crate::character::CharacterObj;
use crate::commands::Wait;
use crate::error::GameError;
use crate::meta::{Meta, MetaStatus};
use crate::store::{
    lenient_outcome, require_file, require_meta, require_root, root_outcome, strict_outcome,
    Fetched, Probe,
};

verus! {

/// What a successful wait leads to.
#[derive(Clone, Debug, PartialEq, Eq)]
pub enum WaitOutcome {
    /// The character was already the one waiting: nothing is to be stored.
    AlreadyWaiting(String),
    /// The character now waits outside the dungeon: `meta` is to be stored, and
    /// `replaced` is the character that waited before, if any.
    Waiting { meta: Meta, replaced: Option<String> },
}

/// The metadata after `name` steps up to wait outside the dungeon.
pub open spec fn waiting_meta(m: Meta, name: String) -> Meta {
    Meta { seed: m.seed, status: MetaStatus::OutsideTheDungeon, current: Some(name) }
}

/// The outcome of waiting `name`, given the probe of the session root, the character's
/// record and the metadata.
pub open spec fn wait_result(
    name: String,
    root: Probe,
    record: Fetched<CharacterObj>,
    meta: Fetched<Meta>,
) -> Result<WaitOutcome, GameError> {
    match root_outcome(root) {
        Err(e) => Err(e),
        Ok(_) => match lenient_outcome(record, meta) {
            Err(_) => Err(GameError::NotFound(name)),
            Ok(c) => if !c.alive() {
                Err(GameError::CharacterDead(c.name))
            } else {
                match strict_outcome(meta) {
                    Err(e) => Err(e),
                    Ok(m) => match m.current {
                        None => Ok(WaitOutcome::Waiting { meta: waiting_meta(m, name), replaced: None }),
                        Some(cur) => if cur@ == name@ {
                            Ok(WaitOutcome::AlreadyWaiting(cur))
                        } else if m.status != MetaStatus::OutsideTheDungeon {
                            Err(GameError::AlreadyAdventuring(cur))
                        } else {
                            Ok(WaitOutcome::Waiting { meta: waiting_meta(m, name), replaced: Some(cur) })
                        },
                    },
                }
            },
        },
    }
}

/// Puts the named character at the mouth of the dungeon. The session must exist and
/// the character be registered and alive. Waiting the one already waiting changes
/// nothing; one that waits may be replaced until someone goes in, after which the
/// wait fails with `AlreadyAdventuring`.
pub fn wait_character(wait: &Wait, root: &Probe, record: Fetched<CharacterObj>, meta: Fetched<Meta>) -> (r:
    Result<WaitOutcome, GameError>)
    ensures
        r == wait_result(wait.name, *root, record, meta),
{
    require_root(root)?;
    let char_obj = match require_file(record, &meta) {
        Ok(c) => c,
        Err(_) => return Err(GameError::NotFound(wait.name.clone())),
    };
    if !char_obj.is_alive() {
        return Err(GameError::CharacterDead(char_obj.name));
    }
    let m = require_meta(meta)?;
    match m.current {
        Some(character) => {
            if character == wait.name {
                Ok(WaitOutcome::AlreadyWaiting(character))
            } else if m.status != MetaStatus::OutsideTheDungeon {
                Err(GameError::AlreadyAdventuring(character))
            } else {
                let meta = Meta {
                    seed: m.seed,
                    status: MetaStatus::OutsideTheDungeon,
                    current: Some(wait.name.clone()),
                };
                Ok(WaitOutcome::Waiting { meta, replaced: Some(character) })
            }
        },
        None => {
            let meta = Meta {
                seed: m.seed,
                status: MetaStatus::OutsideTheDungeon,
                current: Some(wait.name.clone()),
            };
            Ok(WaitOutcome::Waiting { meta, replaced: None })
        },
    }
}

/// A successful retreat: the metadata to store, who ran, and from which phase.
#[derive(Clone, Debug, PartialEq, Eq)]
pub struct Ran {
    pub meta: Meta,
    pub name: String,
    pub from: MetaStatus,
}

/// The outcome of running away, given the probe of the session root and the metadata.
pub open spec fn run_result(root: Probe, meta: Fetched<Meta>) -> Result<Ran, GameError> {
    match root_outcome(root) {
        Err(e) => Err(e),
        Ok(_) => match strict_outcome(meta) {
            Err(e) => Err(e),
            Ok(m) => match m.current {
                None => Err(GameError::NoOneActive),
                Some(c) => if m.status == MetaStatus::HelpWanted {
                    Err(GameError::InvalidTransition)
                } else {
                    Ok(
                        Ran {
                            meta: Meta { seed: m.seed, status: MetaStatus::HelpWanted, current: None },
                            name: c,
                            from: m.status,
                        },
                    )
                },
            },
        },
    }
}

/// The active character flees: no one is in play afterwards and help is wanted again.
/// Fails with `NoOneActive` when no one is in play; a character in play while help is
/// wanted is a state no operation makes, reported as `InvalidTransition`.
pub fn run_away(root: &Probe, meta: Fetched<Meta>) -> (r: Result<Ran, GameError>)
    ensures
        r == run_result(*root, meta),
{
    require_root(root)?;
    let m = require_meta(meta)?;
    match m.current {
        None => Err(GameError::NoOneActive),
        Some(name) => {
            if m.status == MetaStatus::HelpWanted {
                Err(GameError::InvalidTransition)
            } else {
                Ok(
                    Ran {
                        meta: Meta { seed: m.seed, status: MetaStatus::HelpWanted, current: None },
                        name,
                        from: m.status,
                    },
                )
            }
        },
    }
}

/// The state of the session as shown: the phase and the character in play, if any.
#[derive(Clone, Debug, PartialEq, Eq)]
pub struct StatusReport {
    pub phase: MetaStatus,
    pub current: Option<CharacterObj>,
}

/// The outcome of a status query, given the metadata and the record of the character
/// it names as in play (ignored when it names none).
pub open spec fn status_result(meta: Fetched<Meta>, record: Fetched<CharacterObj>) -> Result<
    StatusReport,
    GameError,
> {
    match strict_outcome(meta) {
        Err(e) => Err(e),
        Ok(m) => match m.current {
            None => Ok(StatusReport { phase: m.status, current: None }),
            Some(_) => match lenient_outcome(record, meta) {
                Err(e) => Err(e),
                Ok(c) => Ok(StatusReport { phase: m.status, current: Some(c) }),
            },
        },
    }
}

/// Reports the phase and resolves the character in play. A reference to a record that
/// cannot be read is reported as a corruption, never as no one being in play.
pub fn print_status(meta: &Fetched<Meta>, record: Fetched<CharacterObj>) -> (r: Result<
    StatusReport,
    GameError,
>)
    ensures
        r == status_result(*meta, record),
{
    match meta {
        Fetched::Found(m) => {
            if m.current.is_some() {
                let c = require_file(record, meta)?;
                Ok(StatusReport { phase: m.status, current: Some(c) })
            } else {
                Ok(StatusReport { phase: m.status, current: None })
            }
        },
        Fetched::Missing => Err(GameError::CorruptState),
        Fetched::Malformed(_) => Err(GameError::CorruptState),
        Fetched::Unreadable(e) => Err(GameError::IoError(e.clone())),
    }
}

} // verus!
