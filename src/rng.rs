use vstd::prelude::*;

use rand::seq::IteratorRandom;
use rand::seq::SliceRandom;
use rand::Rng;
use rand::SeedableRng;
use rand_pcg::Pcg64Mcg;

use crate::error::GameError;
use crate::registry::{check_character, is_taken};
use crate::store::{strict_outcome, Fetched};

verus! {

/// The state of a `Pcg64Mcg` generator seeded with `seed_from_u64(seed)`.
pub uninterp spec fn pcg_seeded(seed: u64) -> u128;

/// The generator state after `gen_range(low..high)` on a `Pcg64Mcg` with the given state,
/// and the value drawn.
pub uninterp spec fn pcg_gen_range(state: u128, low: i32, high: i32) -> (u128, i32);

/// The generator state after `choose` over a byte slice on a `Pcg64Mcg` with the given
/// state, and the byte chosen.
pub uninterp spec fn pcg_choose(state: u128, items: Seq<u8>) -> (u128, u8);

/// The generator state after `choose_stable` over an iterator of `len` items on a
/// `Pcg64Mcg` with the given state, and the position chosen.
pub uninterp spec fn pcg_choose_stable(state: u128, len: nat) -> (u128, nat);

/// Relies on `rand_pcg::Pcg64Mcg` through `SeedableRng::seed_from_u64`: the state that
/// a generator seeded from `seed` starts in, a function of the seed alone. The state is
/// read back through the generator's serde form, `{"state": n}`, the one way the crate
/// gives it out; `Pcg64Mcg::new` takes it in again.
#[verifier::external_body]
fn pcg_seed(seed: u64) -> (r: u128)
    ensures
        r == pcg_seeded(seed),
{
    let g = Pcg64Mcg::seed_from_u64(seed);
    let text = serde_json::to_string(&g).unwrap();
    let doc: std::collections::BTreeMap<String, u128> = serde_json::from_str(&text).unwrap();
    doc["state"]
}

/// Relies on `rand::Rng::gen_range` over a `Pcg64Mcg`: a value in `low..high`, which
/// with the generator's next state depends on the state and the bounds alone. The state
/// goes in and out as for `pcg_seed`.
#[verifier::external_body]
fn pcg_range(state: u128, low: i32, high: i32) -> (r: (u128, i32))
    requires
        low < high,
    ensures
        r == pcg_gen_range(state, low, high),
        low <= r.1 < high,
{
    let mut g = Pcg64Mcg::new(state);
    let v = g.gen_range(low..high);
    let text = serde_json::to_string(&g).unwrap();
    let doc: std::collections::BTreeMap<String, u128> = serde_json::from_str(&text).unwrap();
    (doc["state"], v)
}

/// Relies on `rand::seq::SliceRandom::choose` over a `Pcg64Mcg`: one item of a non-empty
/// slice, which with the generator's next state depends on the state and the items alone.
/// The state goes in and out as for `pcg_seed`.
#[verifier::external_body]
fn pcg_pick(state: u128, items: &[u8]) -> (r: (u128, u8))
    requires
        items@.len() > 0,
    ensures
        r == pcg_choose(state, items@),
        items@.contains(r.1),
{
    let mut g = Pcg64Mcg::new(state);
    let v = *items.choose(&mut g).unwrap();
    let text = serde_json::to_string(&g).unwrap();
    let doc: std::collections::BTreeMap<String, u128> = serde_json::from_str(&text).unwrap();
    (doc["state"], v)
}

/// Relies on `rand::seq::IteratorRandom::choose_stable` over a `Pcg64Mcg`: a position
/// below `len`, which with the generator's next state depends on the state and the
/// length alone (the method is documented to make the same requests for any iterator
/// of a given length). The state goes in and out as for `pcg_seed`.
#[verifier::external_body]
fn pcg_pick_stable(state: u128, len: usize) -> (r: (u128, usize))
    requires
        len > 0,
    ensures
        (r.0, r.1 as nat) == pcg_choose_stable(state, len as nat),
        r.1 < len,
{
    let mut g = Pcg64Mcg::new(state);
    let v = (0..len).choose_stable(&mut g).unwrap();
    let text = serde_json::to_string(&g).unwrap();
    let doc: std::collections::BTreeMap<String, u128> = serde_json::from_str(&text).unwrap();
    (doc["state"], v)
}

/// Relies on `rand::thread_rng().gen::<u64>()`: a seed of no promised value.
#[verifier::external_body]
fn fresh_seed() -> (r: u64) {
    rand::thread_rng().gen::<u64>()
}

/// How many symbols an identifier has.
pub const ID_SIZE: usize = 8;

/// How many draws of a name are made before the word lists count as exhausted.
pub const MAX_RETRIES: u32 = 100;

/// The symbols identifiers are drawn from: the lower-case letters, then the digits.
pub open spec fn id_alphabet() -> Seq<u8> {
    Seq::new(36, |i: int| if i < 26 { (97 + i) as u8 } else { (48 + i - 26) as u8 })
}

/// The symbols identifiers are drawn from, as bytes.
pub fn id_alphabet_bytes() -> (r: Vec<u8>)
    ensures
        r@ == id_alphabet(),
{
    let mut r: Vec<u8> = Vec::new();
    let mut c: u8 = 97;
    while c <= 122
        invariant
            97 <= c <= 123,
            r@ == id_alphabet().take(c - 97),
        decreases 123 - c,
    {
        r.push(c);
        c = c + 1;
        assert(r@ =~= id_alphabet().take(c - 97));
    }
    let mut d: u8 = 48;
    while d <= 57
        invariant
            48 <= d <= 58,
            r@ == id_alphabet().take(26 + d - 48),
        decreases 58 - d,
    {
        r.push(d);
        d = d + 1;
        assert(r@ =~= id_alphabet().take(26 + d - 48));
    }
    assert(r@ =~= id_alphabet());
    r
}

/// The identifier drawn as `n` symbols from the given state, and the state after.
pub open spec fn id_draw(state: u128, n: nat) -> (Seq<char>, u128)
    decreases n,
{
    if n == 0 {
        (Seq::empty(), state)
    } else {
        let (prefix, mid) = id_draw(state, (n - 1) as nat);
        let (after, b) = pcg_choose(mid, id_alphabet());
        (prefix.push(b as char), after)
    }
}

/// The two word lists names are made of: an adjective followed by an animal.
#[derive(Clone, Debug, PartialEq, Eq)]
pub struct WordLists {
    pub adjectives: Vec<String>,
    pub animals: Vec<String>,
}

impl WordLists {
    /// Both lists have a word to draw.
    pub open spec fn wf(&self) -> bool {
        self.adjectives@.len() > 0 && self.animals@.len() > 0
    }
}

/// Whether every adjective followed by every animal is one of `names`.
pub open spec fn all_taken(words: WordLists, names: Seq<String>) -> bool {
    forall|i: int, j: int|
        0 <= i < words.adjectives@.len() && 0 <= j < words.animals@.len() ==> #[trigger] is_taken(
            names,
            words.adjectives@[i]@ + words.animals@[j]@,
        )
}

/// Whether `name` is an adjective of the lists followed by an animal of the lists.
pub open spec fn is_word_pair(words: WordLists, name: Seq<char>) -> bool {
    exists|i: int, j: int|
        0 <= i < words.adjectives@.len() && 0 <= j < words.animals@.len() && name
            == #[trigger] words.adjectives@[i]@ + #[trigger] words.animals@[j]@
}

/// The name drawn in one attempt from the given state, and the state after.
pub open spec fn name_attempt(state: u128, words: WordLists) -> (Seq<char>, u128) {
    let (mid, i) = pcg_choose_stable(state, words.adjectives@.len());
    let (after, j) = pcg_choose_stable(mid, words.animals@.len());
    (words.adjectives@[i as int]@ + words.animals@[j as int]@, after)
}

/// The first name drawn within `tries` attempts that is not in `names`, if any, and
/// the state after the last attempt.
pub open spec fn name_search(state: u128, words: WordLists, names: Seq<String>, tries: nat) -> (
    Option<Seq<char>>,
    u128,
)
    decreases tries,
{
    if tries == 0 {
        (None, state)
    } else {
        let (name, after) = name_attempt(state, words);
        if is_taken(names, name) {
            name_search(after, words, names, (tries - 1) as nat)
        } else {
            (Some(name), after)
        }
    }
}

/// Picks the seed of a new dungeon, the one given or else a fresh one, and the state
/// the generator starts in: the seed, then the state.
pub fn create_rand(seed: Option<u64>) -> (r: (u64, u128))
    ensures
        seed is Some ==> r.0 == seed->0,
        r.1 == pcg_seeded(r.0),
{
    let s = match seed {
        Some(s) => s,
        None => fresh_seed(),
    };
    (s, pcg_seed(s))
}

/// The process-wide guard that lets one generator session be checked out at a time.
#[derive(Debug)]
pub struct SessionLock {
    active: bool,
}

impl SessionLock {
    /// Whether a generator session is checked out.
    pub closed spec fn is_active(&self) -> bool {
        self.active
    }

    /// A guard with no session checked out.
    pub fn new() -> (r: SessionLock)
        ensures
            !r.is_active(),
    {
        SessionLock { active: false }
    }

    /// Whether a generator session is checked out.
    pub fn active(&self) -> (r: bool)
        ensures
            r == self.is_active(),
    {
        self.active
    }
}

/// A checked-out generator: its state, read from the session root, advances with each
/// draw and is handed back for storage when the session is released.
#[derive(Debug)]
pub struct RandomState {
    state: u128,
}

impl RandomState {
    /// The generator's state.
    pub closed spec fn view(&self) -> u128 {
        self.state
    }

    /// Checks out the generator whose stored state is `doc`. Fails with `AlreadyActive`
    /// while another session is out, and as a strict read fails when `doc` does.
    pub fn single_use(lock: &mut SessionLock, doc: Fetched<u128>) -> (r: Result<RandomState, GameError>)
        ensures
            old(lock).is_active() ==> r == Err::<RandomState, GameError>(GameError::AlreadyActive)
                && final(lock).is_active(),
            !old(lock).is_active() ==> match strict_outcome(doc) {
                Ok(s) => r is Ok && r->Ok_0@ == s && final(lock).is_active(),
                Err(e) => r == Err::<RandomState, GameError>(e) && !final(lock).is_active(),
            },
    {
        if lock.active {
            return Err(GameError::AlreadyActive);
        }
        match doc {
            Fetched::Found(state) => {
                lock.active = true;
                Ok(RandomState { state })
            },
            Fetched::Missing => Err(GameError::CorruptState),
            Fetched::Malformed(_) => Err(GameError::CorruptState),
            Fetched::Unreadable(e) => Err(GameError::IoError(e)),
        }
    }

    /// Ends the session: the state to store back, and the guard freed.
    pub fn release(self, lock: &mut SessionLock) -> (r: u128)
        ensures
            r == self@,
            !final(lock).is_active(),
    {
        lock.active = false;
        self.state
    }

    /// Draws a value in `low..high`.
    pub fn gen_range(&mut self, low: i32, high: i32) -> (r: i32)
        requires
            low < high,
        ensures
            (final(self)@, r) == pcg_gen_range(old(self)@, low, high),
            low <= r < high,
    {
        let (after, v) = pcg_range(self.state, low, high);
        self.state = after;
        v
    }

    /// Draws an identifier of `ID_SIZE` symbols of the alphabet.
    pub fn generate_id(&mut self) -> (r: String)
        ensures
            (r@, final(self)@) == id_draw(old(self)@, ID_SIZE as nat),
            r@.len() == ID_SIZE,
            forall|k: int| 0 <= k < r@.len() ==> id_alphabet().contains(#[trigger] r@[k] as u8),
    {
        let alphabet = id_alphabet_bytes();
        let mut ret = String::new();
        let mut i: usize = 0;
        while i < ID_SIZE
            invariant
                i <= ID_SIZE,
                alphabet@ == id_alphabet(),
                (ret@, self@) == id_draw(old(self)@, i as nat),
                ret@.len() == i,
                forall|k: int| 0 <= k < ret@.len() ==> id_alphabet().contains(#[trigger] ret@[k] as u8),
            decreases ID_SIZE - i,
        {
            let (next, b) = pcg_pick(self.state, alphabet.as_slice());
            self.state = next;
            ret.push(b as char);
            i = i + 1;
        }
        ret
    }

    /// Draws a name from the word lists that is not in `names`, retrying up to
    /// `MAX_RETRIES` times; fails with `NameSpaceExhausted` when every draw was taken.
    pub fn generate_name(&mut self, words: &WordLists, names: &Vec<String>) -> (r: Result<String, GameError>)
        requires
            words.wf(),
        ensures
            ({
                let (found, after) = name_search(old(self)@, *words, names@, MAX_RETRIES as nat);
                &&& final(self)@ == after
                &&& found is Some ==> r is Ok && r->Ok_0@ == found->0
                &&& found is None ==> r == Err::<String, GameError>(GameError::NameSpaceExhausted)
            }),
            all_taken(*words, names@) ==> r == Err::<String, GameError>(GameError::NameSpaceExhausted),
            r is Ok ==> is_word_pair(*words, r->Ok_0@),
    {
        let mut i: u32 = 0;
        while i < MAX_RETRIES
            invariant
                i <= MAX_RETRIES,
                words.wf(),
                name_search(old(self)@, *words, names@, MAX_RETRIES as nat)
                    == name_search(self@, *words, names@, (MAX_RETRIES - i) as nat),
            decreases MAX_RETRIES - i,
        {
            let (mid, a) = pcg_pick_stable(self.state, words.adjectives.len());
            let (after, b) = pcg_pick_stable(mid, words.animals.len());
            self.state = after;
            let mut name = words.adjectives[a].clone();
            name.push_str(words.animals[b].as_str());
            assert(all_taken(*words, names@) ==> is_taken(names@, name@));
            assert(name@ == words.adjectives@[a as int]@ + words.animals@[b as int]@);
            if !check_character(names, &name) {
                return Ok(name);
            }
            i = i + 1;
        }
        Err(GameError::NameSpaceExhausted)
    }
}

} // verus!
