use vstd::prelude::*;

use crate::commands::Init;
use crate::error::GameError;
use crate::meta::{Meta, MetaStatus};
use crate::rng::{create_rand, pcg_seeded};
use crate::store::{require_meta, require_root, root_outcome, strict_outcome, Fetched, Probe};

verus! {

/// What initialisation is to do: remove the old session root first if `destroy`, then
/// make the root and the character folder, and store `state` as the generator and
/// `meta` as the metadata. `seed` is the seed both come from.
#[derive(Clone, Debug, PartialEq, Eq)]
pub struct InitPlan {
    pub destroy: bool,
    pub seed: u64,
    pub state: u128,
    pub meta: Meta,
}

/// Whether `r` is a plan that makes a dungeon from `seed` and destroys the old one
/// exactly when `destroy`.
pub open spec fn plans(r: InitPlan, destroy: bool, seed: u64) -> bool {
    &&& r.destroy == destroy
    &&& r.seed == seed
    &&& r.state == pcg_seeded(seed)
    &&& r.meta.seed == seed
    &&& r.meta.status == MetaStatus::OutsideTheDungeon
    &&& r.meta.current is None
}

/// Plans a new dungeon from the seed given, or a fresh one. An existing dungeon is
/// replaced only when forced or reset, and otherwise makes it fail with `DungeonExists`.
pub fn create(init: &Init, root: &Probe) -> (r: Result<InitPlan, GameError>)
    ensures
        root is Err ==> r == Err::<InitPlan, GameError>(GameError::IoError(root->Err_0)),
        *root == Ok::<bool, String>(true) && !init.force && !init.reset ==> r
            == Err::<InitPlan, GameError>(GameError::DungeonExists),
        root is Ok && (root->Ok_0 ==> init.force || init.reset) ==> r is Ok && plans(
            r->Ok_0,
            root->Ok_0,
            r->Ok_0.seed,
        ) && (init.seed is Some ==> r->Ok_0.seed == init.seed->Some_0),
{
    let destroy = match root {
        Err(e) => return Err(GameError::IoError(e.clone())),
        Ok(exists) => *exists,
    };
    if destroy && !init.force && !init.reset {
        return Err(GameError::DungeonExists);
    }
    let (seed, state) = create_rand(init.seed);
    Ok(InitPlan { destroy, seed, state, meta: Meta::new(seed) })
}

/// Rebuilds the dungeon from the seed in its metadata: the seed is written into `init`
/// and the dungeon planned anew from it. Fails when the session root or the metadata
/// does, and with `ResetFailed` when the plan does.
pub fn reset(init: &mut Init, root: &Probe, meta: Fetched<Meta>) -> (r: Result<InitPlan, GameError>)
    ensures
        root_outcome(*root) is Err ==> r == Err::<InitPlan, GameError>(root_outcome(*root)->Err_0)
            && *final(init) == *old(init),
        root_outcome(*root) is Ok ==> match strict_outcome(meta) {
            Err(e) => r == Err::<InitPlan, GameError>(e) && *final(init) == *old(init),
            Ok(m) => {
                &&& final(init).seed == Some(m.seed)
                &&& final(init).force == old(init).force
                &&& final(init).reset == old(init).reset
                &&& (old(init).force || old(init).reset) ==> r is Ok && plans(r->Ok_0, true, m.seed)
                &&& !(old(init).force || old(init).reset) ==> r == Err::<InitPlan, GameError>(
                    GameError::ResetFailed,
                )
            },
        },
{
    require_root(root)?;
    let m = require_meta(meta)?;
    init.seed = Some(m.seed);
    match create(init, root) {
        Ok(plan) => Ok(plan),
        Err(_) => Err(GameError::ResetFailed),
    }
}

} // verus!
