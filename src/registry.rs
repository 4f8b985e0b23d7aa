use vstd::prelude::*;

use crate::character::{attribute_draws, attributes_drawn, create_character, fresh_stats, CharacterObj};
use crate::commands::New;
use crate::error::GameError;
use crate::meta::Meta;
use crate::rng::{
    all_taken, id_alphabet, id_draw, is_word_pair, name_search, RandomState, SessionLock, WordLists, ID_SIZE,
    MAX_RETRIES,
};
use crate::store::{folder_outcome, require_char, require_root, root_outcome, strict_outcome, Fetched, Probe};

verus! {

/// The character views of a list of names.
pub open spec fn views(names: Seq<String>) -> Seq<Seq<char>> {
    names.map_values(|n: String| n@)
}

/// Whether `name` is one of `names`.
pub open spec fn is_taken(names: Seq<String>, name: Seq<char>) -> bool {
    views(names).contains(name)
}

/// Whether a character named `name` is registered, `names` being the registered names.
pub fn check_character(names: &Vec<String>, name: &String) -> (r: bool)
    ensures
        r == is_taken(names@, name@),
{
    let mut i: usize = 0;
    while i < names.len()
        invariant
            i <= names@.len(),
            forall|k: int| 0 <= k < i ==> names@[k]@ != name@,
        decreases names@.len() - i,
    {
        if names[i] == *name {
            assert(views(names@)[i as int] == name@);
            return true;
        }
        i = i + 1;
    }
    assert(!views(names@).contains(name@)) by {
        if views(names@).contains(name@) {
            let k = choose|k: int| 0 <= k < views(names@).len() && views(names@)[k] == name@;
            assert(names@[k]@ == name@);
        }
    }
    false
}

/// The outcome of creating a character: the generator state to store back, if the
/// generator was checked out (it is stored whatever the result), and the new record,
/// which is to be stored under its name.
#[derive(Debug, PartialEq, Eq)]
pub struct Created {
    pub checkpoint: Option<u128>,
    pub result: Result<CharacterObj, GameError>,
}

/// The name a creation goes by, drawn from `state` when none is given, and the state after.
pub open spec fn chosen_name(new: New, state: u128, words: WordLists, names: Seq<String>) -> (
    Option<Seq<char>>,
    u128,
) {
    match new.name {
        Some(n) => (Some(n@), state),
        None => name_search(state, words, names, MAX_RETRIES as nat),
    }
}

/// Whether `r` is what creating a character gives once the generator, whose stored
/// state is `start`, is checked out.
pub open spec fn created_from(
    r: Created,
    new: New,
    start: u128,
    names: Seq<String>,
    words: WordLists,
) -> bool {
    let (name, s1) = chosen_name(new, start, words, names);
    match name {
        None => r.checkpoint == Some(s1) && r.result == Err::<CharacterObj, GameError>(
            GameError::NameSpaceExhausted,
        ),
        Some(n) => {
            let (id, s2) = id_draw(s1, ID_SIZE as nat);
            if is_taken(names, n) {
                r.checkpoint == Some(s2) && r.result is Err && r.result->Err_0 is AlreadyExists
                    && r.result->Err_0->AlreadyExists_0@ == n
            } else {
                let (d, s3) = attribute_draws(s2, 5);
                &&& r.checkpoint == Some(s3)
                &&& r.result is Ok
                &&& r.result->Ok_0.id@ == id
                &&& r.result->Ok_0.name@ == n
                &&& fresh_stats(r.result->Ok_0.stats, d)
                &&& attributes_drawn(r.result->Ok_0.stats)
            }
        },
    }
}

/// Whether `r` is what creating a character gives: the session root and the character
/// folder must exist and no generator session be out; then the generator is checked out.
pub open spec fn create_new_result(
    r: Created,
    new: New,
    root: Probe,
    folder: Probe,
    meta: Fetched<Meta>,
    was_active: bool,
    rand: Fetched<u128>,
    names: Seq<String>,
    words: WordLists,
) -> bool {
    if root_outcome(root) is Err {
        r.checkpoint is None && r.result == Err::<CharacterObj, GameError>(root_outcome(root)->Err_0)
    } else if folder_outcome(folder, meta) is Err {
        r.checkpoint is None && r.result == Err::<CharacterObj, GameError>(
            folder_outcome(folder, meta)->Err_0,
        )
    } else if was_active {
        r.checkpoint is None && r.result == Err::<CharacterObj, GameError>(GameError::AlreadyActive)
    } else {
        match strict_outcome(rand) {
            Err(e) => r.checkpoint is None && r.result == Err::<CharacterObj, GameError>(e),
            Ok(start) => created_from(r, new, start, names, words),
        }
    }
}

/// Creates a character with the given name, or a drawn one that is not registered,
/// with a drawn identifier and fresh vitals. Fails with `AlreadyExists` when the name is
/// registered (`names` holds the registered names). The word lists are drawn from only
/// when no name is given. The generator session is released
/// before returning.
pub fn create_new(
    new: &New,
    root: &Probe,
    folder: &Probe,
    meta: &Fetched<Meta>,
    lock: &mut SessionLock,
    rand: Fetched<u128>,
    names: &Vec<String>,
    words: &WordLists,
) -> (r: Created)
    requires
        new.name is None ==> words.wf(),
    ensures
        create_new_result(r, *new, *root, *folder, *meta, old(lock).is_active(), rand, names@, *words),
        final(lock).is_active() == old(lock).is_active(),
        new.name is None && all_taken(*words, names@) && root_outcome(*root) is Ok && folder_outcome(
            *folder,
            *meta,
        ) is Ok && !old(lock).is_active() && rand is Found ==> r.result == Err::<CharacterObj, GameError>(
            GameError::NameSpaceExhausted,
        ),
        r.result is Ok && new.name is None ==> is_word_pair(*words, r.result->Ok_0.name@),
        r.result is Ok ==> forall|k: int|
            0 <= k < r.result->Ok_0.id@.len() ==> id_alphabet().contains(
                #[trigger] r.result->Ok_0.id@[k] as u8,
            ),
{
    if let Err(e) = require_root(root) {
        return Created { checkpoint: None, result: Err(e) };
    }
    if let Err(e) = require_char(folder, meta) {
        return Created { checkpoint: None, result: Err(e) };
    }
    let mut state = match RandomState::single_use(lock, rand) {
        Ok(s) => s,
        Err(e) => return Created { checkpoint: None, result: Err(e) },
    };
    let result = draw_character(new, &mut state, names, words);
    let checkpoint = state.release(lock);
    Created { checkpoint: Some(checkpoint), result }
}

/// The part of creation that draws from a checked-out generator.
fn draw_character(new: &New, state: &mut RandomState, names: &Vec<String>, words: &WordLists) -> (r:
    Result<CharacterObj, GameError>)
    requires
        new.name is None ==> words.wf(),
    ensures
        created_from(Created { checkpoint: Some(final(state)@), result: r }, *new, old(state)@, names@, *words),
        new.name is None && all_taken(*words, names@) ==> r == Err::<CharacterObj, GameError>(
            GameError::NameSpaceExhausted,
        ),
        r is Ok && new.name is None ==> is_word_pair(*words, r->Ok_0.name@),
        r is Ok ==> forall|k: int|
            0 <= k < r->Ok_0.id@.len() ==> id_alphabet().contains(
                #[trigger] r->Ok_0.id@[k] as u8,
            ),
{
    let name = match &new.name {
        Some(s) => s.clone(),
        None => state.generate_name(words, names)?,
    };
    let id = state.generate_id();
    if check_character(names, &name) {
        return Err(GameError::AlreadyExists(name));
    }
    Ok(create_character(id, name, state))
}

/// The records that were read, in order.
pub open spec fn readable(records: Seq<Fetched<CharacterObj>>) -> Seq<CharacterObj>
    decreases records.len(),
{
    if records.len() == 0 {
        Seq::empty()
    } else {
        let rest = readable(records.drop_first());
        match records[0] {
            Fetched::Found(c) => seq![c] + rest,
            _ => rest,
        }
    }
}

/// Whether the document was read.
pub open spec fn is_found(f: Fetched<CharacterObj>) -> bool {
    f is Found
}

/// A listing of the registry: the records that could be read, in order, and how many
/// could not, which are skipped with a warning.
#[derive(Clone, Debug, PartialEq, Eq)]
pub struct Listing {
    pub characters: Vec<CharacterObj>,
    pub skipped: usize,
}

/// Lists the registry from its records as read. A record that cannot be read is
/// skipped, never failing the listing; the listing fails only when the session root or
/// the character folder does.
pub fn list_characters(root: &Probe, folder: &Probe, meta: &Fetched<Meta>, records: Vec<
    Fetched<CharacterObj>,
>) -> (r: Result<Listing, GameError>)
    ensures
        root_outcome(*root) is Err ==> r == Err::<Listing, GameError>(root_outcome(*root)->Err_0),
        root_outcome(*root) is Ok && folder_outcome(*folder, *meta) is Err ==> r == Err::<
            Listing,
            GameError,
        >(folder_outcome(*folder, *meta)->Err_0),
        root_outcome(*root) is Ok && folder_outcome(*folder, *meta) is Ok ==> r is Ok
            && r->Ok_0.characters@ == readable(records@)
            && r->Ok_0.skipped == records@.len() - readable(records@).len(),
{
    require_root(root)?;
    require_char(folder, meta)?;
    let ghost all = records@;
    let total = records.len();
    let mut records = records;
    let mut characters: Vec<CharacterObj> = Vec::new();
    let mut skipped: usize = 0;
    while records.len() > 0
        invariant
            readable(all) == characters@ + readable(records@),
            all.len() == characters@.len() + skipped + records@.len(),
            all.len() == total,
        decreases records@.len(),
    {
        let ghost before = records@;
        let f = records.remove(0);
        assert(records@ == before.drop_first());
        match f {
            Fetched::Found(c) => {
                characters.push(c);
                assert(readable(all) == characters@ + readable(records@));
            },
            _ => {
                skipped = skipped + 1;
            },
        }
    }
    Ok(Listing { characters, skipped })
}

} // verus!
