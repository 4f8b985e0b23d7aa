use vstd::prelude::*;

verus! {

/// How far the adventure has got.
#[derive(Clone, Copy, Debug, PartialEq, Eq, Structural)]
pub enum MetaStatus {
    HelpWanted,
    OutsideTheDungeon,
    InTheDungeon,
    InCombat,
}

impl MetaStatus {
    /// The headline under which the phase is shown.
    pub fn title(&self) -> (r: &'static str)
        ensures
            *self == MetaStatus::HelpWanted ==> r@ == "* Help Wanted! *"@,
            *self == MetaStatus::OutsideTheDungeon ==> r@ == "Outside the dungeon"@,
            *self == MetaStatus::InTheDungeon ==> r@ == "In the dungeon"@,
            *self == MetaStatus::InCombat ==> r@ == "IN COMBAT"@,
    {
        match self {
            MetaStatus::HelpWanted => "* Help Wanted! *",
            MetaStatus::OutsideTheDungeon => "Outside the dungeon",
            MetaStatus::InTheDungeon => "In the dungeon",
            MetaStatus::InCombat => "IN COMBAT",
        }
    }

    /// The line shown under the headline, where the phase has one.
    pub fn detail(&self) -> (r: Option<&'static str>)
        ensures
            *self == MetaStatus::HelpWanted ==> r is Some && r->0@
                == "Looking for capable adventurers to subdue the dungeon."@,
            *self == MetaStatus::OutsideTheDungeon ==> r is Some && r->0@
                == "Preparing for the dive..."@,
            *self == MetaStatus::InTheDungeon ==> r is None,
            *self == MetaStatus::InCombat ==> r is None,
    {
        match self {
            MetaStatus::HelpWanted => Some("Looking for capable adventurers to subdue the dungeon."),
            MetaStatus::OutsideTheDungeon => Some("Preparing for the dive..."),
            MetaStatus::InTheDungeon => None,
            MetaStatus::InCombat => None,
        }
    }
}

/// The session-wide record: the seed the dungeon was made from, the phase,
/// and the name of the character in play, if any.
#[derive(Clone, Debug, PartialEq, Eq)]
pub struct Meta {
    pub seed: u64,
    pub status: MetaStatus,
    pub current: Option<String>,
}

impl Meta {
    /// A fresh session: waiting outside with no one in play.
    pub fn new(seed: u64) -> (r: Meta)
        ensures
            r.seed == seed,
            r.status == MetaStatus::OutsideTheDungeon,
            r.current is None,
    {
        Meta { seed, status: MetaStatus::OutsideTheDungeon, current: None }
    }
}

} // verus!
