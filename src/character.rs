use vstd::prelude::*;

use crate::rng::{pcg_gen_range, RandomState};

verus! {

/// The health a new character starts with.
pub const START_HEALTH: i32 = 100;

/// A moment as seconds since 1970-01-01T00:00:00 on the local wall clock, and the
/// nanoseconds past that second.
#[derive(Clone, Copy, Debug, PartialEq, Eq, Structural)]
pub struct Timestamp {
    pub secs: i64,
    pub nanos: u32,
}

/// Relies on `chrono::Local::now().naive_local()`: the local wall-clock time, of which
/// nothing is promised.
#[verifier::external_body]
fn local_now() -> (r: Timestamp) {
    let now = chrono::Local::now().naive_local().and_utc();
    Timestamp { secs: now.timestamp(), nanos: now.timestamp_subsec_nanos() }
}

/// The condition shown in a listing.
#[derive(Clone, Copy, Debug, PartialEq, Eq, Structural)]
pub enum CharacterStatus {
    Healthy,
}

impl CharacterStatus {
    /// The word shown for the condition.
    pub fn label(&self) -> (r: &'static str)
        ensures
            r@ == "HEALTHY"@,
    {
        match self {
            CharacterStatus::Healthy => "HEALTHY",
        }
    }
}

/// The health pool: its maximum, what is left, and a temporary bonus on top.
#[derive(Clone, Copy, Debug, PartialEq, Eq, Structural)]
pub struct HealthStat {
    pub max: i32,
    pub curr: i32,
    pub temp: i32,
}

impl HealthStat {
    /// A full pool of `max` with no bonus.
    pub fn new(max: i32) -> (r: HealthStat)
        ensures
            r == (HealthStat { max, curr: max, temp: 0 }),
    {
        HealthStat { max, curr: max, temp: 0 }
    }
}

/// The health one heart stands for.
pub const HEART_STEP: i32 = 5;

/// How many hearts of `HEART_STEP` it takes to go from `from` up to `to`.
pub open spec fn steps(from: int, to: int) -> nat {
    if from < to {
        ((to - from + HEART_STEP - 1) / HEART_STEP as int) as nat
    } else {
        0
    }
}

/// A health bar: full hearts for the health left, bonus hearts for the temporary bonus
/// on top, and empty hearts up to the maximum.
#[derive(Clone, Copy, Debug, PartialEq, Eq, Structural)]
pub struct HeartBar {
    pub full: u32,
    pub bonus: u32,
    pub empty: u32,
}

/// The bar for a health pool, one heart per started `HEART_STEP`.
pub open spec fn heart_bar(h: HealthStat) -> (nat, nat, nat) {
    let full = steps(0, h.curr as int);
    let bonus = steps(HEART_STEP * full, h.curr + h.temp);
    let empty = steps(HEART_STEP * (full + bonus), h.max as int);
    (full, bonus, empty)
}

impl HealthStat {
    /// The hearts that show this pool.
    pub fn hearts(&self) -> (r: HeartBar)
        ensures
            (r.full as nat, r.bonus as nat, r.empty as nat) == heart_bar(*self),
    {
        let step = HEART_STEP as i64;
        let curr = self.curr as i64;
        let top = curr + self.temp as i64;
        let max = self.max as i64;
        let full: i64 = if 0 < curr { (curr + step - 1) / step } else { 0 };
        let mut at: i64 = step * full;
        let bonus: i64 = if at < top { (top - at + step - 1) / step } else { 0 };
        at = at + step * bonus;
        let empty: i64 = if at < max { (max - at + step - 1) / step } else { 0 };
        HeartBar { full: full as u32, bonus: bonus as u32, empty: empty as u32 }
    }
}

/// A secondary attribute: its base value and the timed modifiers on it, each a
/// change and the turns it lasts.
#[derive(Clone, Debug, PartialEq, Eq)]
pub struct RegStat {
    pub max: i32,
    pub temp: Vec<(i32, i32)>,
}

impl RegStat {
    /// An attribute of base `max` with no modifiers.
    pub fn new(max: i32) -> (r: RegStat)
        ensures
            r.max == max,
            r.temp@ == Seq::<(i32, i32)>::empty(),
    {
        RegStat { max, temp: Vec::new() }
    }
}

/// The sum of the changes of the modifiers.
pub open spec fn modifier_sum(temp: Seq<(i32, i32)>) -> int
    decreases temp.len(),
{
    if temp.len() == 0 {
        0
    } else {
        modifier_sum(temp.drop_last()) + temp.last().0
    }
}

impl RegStat {
    /// The value with every modifier applied.
    pub open spec fn value(&self) -> int {
        self.max + modifier_sum(self.temp@)
    }

    /// The value with every modifier applied.
    pub fn current(&self) -> (r: i128)
        ensures
            r == self.value(),
    {
        let mut sum: i128 = self.max as i128;
        let mut i: usize = 0;
        while i < self.temp.len()
            invariant
                i <= self.temp@.len(),
                sum == self.max + modifier_sum(self.temp@.take(i as int)),
                -0x8000_0000 * (i + 1) <= sum <= 0x7fff_ffff * (i + 1),
            decreases self.temp@.len() - i,
        {
            assert(self.temp@.take(i + 1).drop_last() =~= self.temp@.take(i as int));
            sum = sum + self.temp[i].0 as i128;
            i = i + 1;
        }
        assert(self.temp@.take(i as int) =~= self.temp@);
        sum
    }
}

/// A character's vitals.
#[derive(Clone, Debug, PartialEq, Eq)]
pub struct CharacterStats {
    pub health: HealthStat,
    pub power: RegStat,
    pub block: RegStat,
    pub magic: RegStat,
    pub faith: RegStat,
    pub speed: RegStat,
}

/// The `n` attribute values drawn in turn from `1..20` from the given state, and the
/// state after.
pub open spec fn attribute_draws(state: u128, n: nat) -> (Seq<i32>, u128)
    decreases n,
{
    if n == 0 {
        (Seq::empty(), state)
    } else {
        let (prefix, mid) = attribute_draws(state, (n - 1) as nat);
        let (after, v) = pcg_gen_range(mid, 1, 20);
        (prefix.push(v), after)
    }
}

/// Fresh vitals whose attributes are `d`, in the order power, block, magic, faith, speed.
pub open spec fn fresh_stats(r: CharacterStats, d: Seq<i32>) -> bool {
    &&& r.health == HealthStat { max: START_HEALTH, curr: START_HEALTH, temp: 0 }
    &&& r.power.max == d[0] && r.power.temp@.len() == 0
    &&& r.block.max == d[1] && r.block.temp@.len() == 0
    &&& r.magic.max == d[2] && r.magic.temp@.len() == 0
    &&& r.faith.max == d[3] && r.faith.temp@.len() == 0
    &&& r.speed.max == d[4] && r.speed.temp@.len() == 0
}

/// Whether each attribute lies in `1..20`, the range they are drawn from.
pub open spec fn attributes_drawn(r: CharacterStats) -> bool {
    &&& 1 <= r.power.max < 20
    &&& 1 <= r.block.max < 20
    &&& 1 <= r.magic.max < 20
    &&& 1 <= r.faith.max < 20
    &&& 1 <= r.speed.max < 20
}

impl CharacterStats {
    /// Fresh vitals: full health and five attributes drawn from `1..20`.
    pub fn from_rng(rng: &mut RandomState) -> (r: CharacterStats)
        ensures
            ({
                let (d, after) = attribute_draws(old(rng)@, 5);
                final(rng)@ == after && fresh_stats(r, d)
            }),
            attributes_drawn(r),
    {
        let ghost start = rng@;
        assert(attribute_draws(start, 0) == (Seq::<i32>::empty(), start));
        let power = rng.gen_range(1, 20);
        assert(attribute_draws(start, 1).0 =~= seq![power] && attribute_draws(start, 1).1 == rng@);
        let block = rng.gen_range(1, 20);
        assert(attribute_draws(start, 2).0 =~= seq![power, block] && attribute_draws(start, 2).1 == rng@);
        let magic = rng.gen_range(1, 20);
        assert(attribute_draws(start, 3).0 =~= seq![power, block, magic] && attribute_draws(start, 3).1 == rng@);
        let faith = rng.gen_range(1, 20);
        assert(attribute_draws(start, 4).0 =~= seq![power, block, magic, faith] && attribute_draws(start, 4).1 == rng@);
        let speed = rng.gen_range(1, 20);
        assert(attribute_draws(start, 5).0 =~= seq![power, block, magic, faith, speed] && attribute_draws(start, 5).1 == rng@);
        CharacterStats {
            health: HealthStat::new(START_HEALTH),
            power: RegStat::new(power),
            block: RegStat::new(block),
            magic: RegStat::new(magic),
            faith: RegStat::new(faith),
            speed: RegStat::new(speed),
        }
    }
}

/// A character record, stored under its name.
#[derive(Clone, Debug, PartialEq, Eq)]
pub struct CharacterObj {
    pub id: String,
    pub name: String,
    pub status: CharacterStatus,
    pub created: Timestamp,
    pub stats: CharacterStats,
}

impl CharacterObj {
    /// Alive while any health is left.
    pub open spec fn alive(&self) -> bool {
        self.stats.health.curr > 0
    }

    /// Whether any health is left.
    pub fn is_alive(&self) -> (r: bool)
        ensures
            r == self.alive(),
    {
        self.stats.health.curr > 0
    }

    /// The name the record is stored under.
    pub fn get_name(&self) -> (r: &str)
        ensures
            r@ == self.name@,
    {
        self.name.as_str()
    }

    /// The word that tells the living from the dead, the second padded to the first's width.
    pub fn get_life_string(&self) -> (r: &'static str)
        ensures
            self.alive() ==> r@ == "ALIVE"@,
            !self.alive() ==> r@ == " DEAD"@,
    {
        if self.is_alive() {
            "ALIVE"
        } else {
            " DEAD"
        }
    }
}

/// Makes the record of a new character: the given identity, the time now, and fresh
/// vitals drawn from `rng`.
pub fn create_character(id: String, name: String, rng: &mut RandomState) -> (r: CharacterObj)
    ensures
        r.id == id,
        r.name == name,
        r.status == CharacterStatus::Healthy,
        ({
            let (d, after) = attribute_draws(old(rng)@, 5);
            final(rng)@ == after && fresh_stats(r.stats, d)
        }),
        attributes_drawn(r.stats),
{
    let created = local_now();
    let stats = CharacterStats::from_rng(rng);
    CharacterObj { id, name, status: CharacterStatus::Healthy, created, stats }
}

} // verus!
