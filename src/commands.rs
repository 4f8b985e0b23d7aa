use vstd::prelude::*;

verus! {

/// Arguments of character creation: the name to give, or none to draw one.
#[derive(Clone, Debug, PartialEq, Eq)]
pub struct New {
    pub name: Option<String>,
}

/// Arguments of the character listing: whether to show every column.
#[derive(Clone, Debug, PartialEq, Eq)]
pub struct List {
    pub all: bool,
}

/// Arguments of waiting: the character that steps up.
#[derive(Clone, Debug, PartialEq, Eq)]
pub struct Wait {
    pub name: String,
}

/// The character subcommands.
#[derive(Clone, Debug, PartialEq, Eq)]
pub enum Subcommands {
    New(New),
    List(List),
    Wait(Wait),
}

/// The character command group.
#[derive(Clone, Debug, PartialEq, Eq)]
pub struct Character {
    pub command: Subcommands,
}

/// Arguments of initialisation.
#[derive(Clone, Debug, PartialEq, Eq)]
pub struct Init {
    /// Remove an existing dungeon before making the new one.
    pub force: bool,
    /// Rebuild the dungeon from its stored seed.
    pub reset: bool,
    /// The seed to make the dungeon from.
    pub seed: Option<u64>,
}

/// How fast narration is told.
#[derive(Clone, Copy, Debug, PartialEq, Eq, Structural)]
pub enum NarrateSpeed {
    Slow,
    Fast,
    Norm,
}

impl NarrateSpeed {
    /// The pause after each word, in milliseconds.
    pub fn delay_ms(&self) -> (r: u64)
        ensures
            *self == NarrateSpeed::Slow ==> r == 80,
            *self == NarrateSpeed::Norm ==> r == 40,
            *self == NarrateSpeed::Fast ==> r == 20,
    {
        match self {
            NarrateSpeed::Slow => 80,
            NarrateSpeed::Norm => 40,
            NarrateSpeed::Fast => 20,
        }
    }
}

/// Arguments of opening the door: narration speed and line width.
#[derive(Clone, Debug, PartialEq, Eq)]
pub struct Door {
    pub narrate_speed: Option<NarrateSpeed>,
    pub wrapping: Option<usize>,
}

/// Every command of the tool.
#[derive(Clone, Debug, PartialEq, Eq)]
pub enum Commands {
    Init(Init),
    Clean,
    List(List),
    Nc(New),
    Wait(Wait),
    Run,
    Status,
    Character(Character),
    Door(Door),
    Logo,
}

} // verus!
