use vstd::prelude::*;

use crate::character::CharacterObj;
use crate::commands::New;
use crate::dungeon::{plans, InitPlan};
use crate::error::GameError;
use crate::meta::{Meta, MetaStatus};
use crate::registry::{create_new_result, is_taken, Created};
use crate::rng::{id_draw, name_attempt, name_search, WordLists, ID_SIZE, MAX_RETRIES};
use crate::session::{run_result, wait_result, WaitOutcome};
use crate::store::{root_outcome, folder_outcome, Fetched, Probe};

verus! {

/// `n` identifiers drawn in a row from `state`, and the state after.
pub open spec fn id_series(state: u128, n: nat) -> (Seq<Seq<char>>, u128)
    decreases n,
{
    if n == 0 {
        (Seq::empty(), state)
    } else {
        let (ids, mid) = id_series(state, (n - 1) as nat);
        let (id, after) = id_draw(mid, ID_SIZE as nat);
        (ids.push(id), after)
    }
}

/// Two dungeons planned from the same seed start their generators at the same
/// checkpoint, and from it the same identifiers and the same names are drawn, in the
/// same order.
pub proof fn lemma_seed_replay(
    seed: u64,
    a: InitPlan,
    destroy_a: bool,
    b: InitPlan,
    destroy_b: bool,
    n: nat,
    words: WordLists,
    names: Seq<String>,
)
    requires
        plans(a, destroy_a, seed),
        plans(b, destroy_b, seed),
    ensures
        a.state == b.state,
        id_series(a.state, n) == id_series(b.state, n),
        name_search(a.state, words, names, MAX_RETRIES as nat) == name_search(
            b.state,
            words,
            names,
            MAX_RETRIES as nat,
        ),
{
}

/// Storing the generator after some draws and resuming from the stored state continues
/// the same sequence: `a` identifiers, then `b` more from the checkpoint, are the
/// `a + b` identifiers drawn in one go, ending in the same state.
pub proof fn lemma_checkpoint_resume(state: u128, a: nat, b: nat)
    ensures
        ({
            let (first, checkpoint) = id_series(state, a);
            let (rest, end) = id_series(checkpoint, b);
            id_series(state, a + b) == (first + rest, end)
        }),
    decreases b,
{
    let (first, checkpoint) = id_series(state, a);
    if b == 0 {
        assert(first + Seq::<Seq<char>>::empty() =~= first);
    } else {
        lemma_checkpoint_resume(state, a, (b - 1) as nat);
        let (rest, mid) = id_series(checkpoint, (b - 1) as nat);
        let (id, end) = id_draw(mid, ID_SIZE as nat);
        assert(id_series(state, (a + b - 1) as nat) == (first + rest, mid));
        assert(id_series(checkpoint, b) == (rest.push(id), end));
        assert((first + rest).push(id) =~= first + rest.push(id));
    }
}

/// Waiting a character twice in a row succeeds both times, and the second wait finds
/// the character already waiting and changes nothing; a wait that finds it already
/// waiting leaves the metadata as it was.
pub proof fn lemma_wait_idempotent(name: String, root: Probe, record: Fetched<CharacterObj>, m: Meta)
    requires
        wait_result(name, root, record, Fetched::Found(m)) is Ok,
    ensures
        match wait_result(name, root, record, Fetched::Found(m)) {
            Ok(WaitOutcome::Waiting { meta: m1, replaced: _ }) => wait_result(
                name,
                root,
                record,
                Fetched::Found(m1),
            ) == Ok::<WaitOutcome, GameError>(WaitOutcome::AlreadyWaiting(name)),
            Ok(WaitOutcome::AlreadyWaiting(c)) => m.current == Some(c) && c@ == name@,
            Err(_) => false,
        },
{
}

/// Waiting a dead character fails with `CharacterDead` whatever the phase and whoever
/// is in play.
pub proof fn lemma_wait_dead(name: String, root: Probe, c: CharacterObj, meta: Fetched<Meta>)
    requires
        root_outcome(root) is Ok,
        !c.alive(),
    ensures
        wait_result(name, root, Fetched::Found(c), meta) == Err::<WaitOutcome, GameError>(
            GameError::CharacterDead(c.name),
        ),
{
}

/// Running away after a wait that put a character outside succeeds, whatever the phase
/// was before the wait: no one is in play afterwards and help is wanted again.
pub proof fn lemma_run_after_wait(name: String, root: Probe, record: Fetched<CharacterObj>, m: Meta)
    requires
        wait_result(name, root, record, Fetched::Found(m)) is Ok,
        wait_result(name, root, record, Fetched::Found(m))->Ok_0 is Waiting,
    ensures
        ({
            let m1 = wait_result(name, root, record, Fetched::Found(m))->Ok_0->Waiting_meta;
            &&& run_result(root, Fetched::Found(m1)) is Ok
            &&& run_result(root, Fetched::Found(m1))->Ok_0.meta.current is None
            &&& run_result(root, Fetched::Found(m1))->Ok_0.meta.status == MetaStatus::HelpWanted
            &&& run_result(root, Fetched::Found(m1))->Ok_0.meta.seed == m.seed
            &&& run_result(root, Fetched::Found(m1))->Ok_0.name == name
        }),
{
}

/// Running away while someone is in play clears the character and wants help again,
/// from every phase in which someone can be in play.
pub proof fn lemma_run_clears(root: Probe, m: Meta)
    requires
        root_outcome(root) is Ok,
        m.current is Some,
        m.status != MetaStatus::HelpWanted,
    ensures
        run_result(root, Fetched::Found(m)) is Ok,
        run_result(root, Fetched::Found(m))->Ok_0.meta == (Meta {
            seed: m.seed,
            status: MetaStatus::HelpWanted,
            current: None,
        }),
        run_result(root, Fetched::Found(m))->Ok_0.from == m.status,
{
}

/// Creating a character under a registered name fails with `AlreadyExists` and yields
/// no record to store.
pub proof fn lemma_create_existing(
    r: Created,
    new: New,
    root: Probe,
    folder: Probe,
    meta: Fetched<Meta>,
    rand: Fetched<u128>,
    names: Seq<String>,
    words: WordLists,
)
    requires
        new.name is Some,
        is_taken(names, new.name->Some_0@),
        create_new_result(r, new, root, folder, meta, false, rand, names, words),
        root_outcome(root) is Ok,
        folder_outcome(folder, meta) is Ok,
        rand is Found,
    ensures
        r.result is Err,
        r.result->Err_0 is AlreadyExists,
        r.result->Err_0->AlreadyExists_0@ == new.name->Some_0@,
{
}

/// A drawn name is never a registered one.
pub proof fn lemma_drawn_name_free(state: u128, words: WordLists, names: Seq<String>, tries: nat)
    ensures
        name_search(state, words, names, tries).0 matches Some(n) ==> !is_taken(names, n),
    decreases tries,
{
    if tries > 0 {
        let (_, after) = name_attempt(state, words);
        lemma_drawn_name_free(after, words, names, (tries - 1) as nat);
    }
}

/// A character created under a drawn name is never one already registered.
pub proof fn lemma_created_name_free(
    r: Created,
    new: New,
    root: Probe,
    folder: Probe,
    meta: Fetched<Meta>,
    was_active: bool,
    rand: Fetched<u128>,
    names: Seq<String>,
    words: WordLists,
)
    requires
        new.name is None,
        create_new_result(r, new, root, folder, meta, was_active, rand, names, words),
        r.result is Ok,
    ensures
        !is_taken(names, r.result->Ok_0.name@),
{
    if let Fetched::Found(start) = rand {
        lemma_drawn_name_free(start, words, names, MAX_RETRIES as nat);
    }
}

} // verus!
