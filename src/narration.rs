use vstd::prelude::*;

use vstd::utf8::encode_utf8;

use crate::commands::{Door, NarrateSpeed};

verus! {

/// The line width narration uses when none is given.
pub const DEFAULT_WRAPPING: usize = 75;

/// How a narration is told: the speed, and the width after which a line is broken.
#[derive(Clone, Copy, Debug, PartialEq, Eq)]
pub struct Narration {
    pub speed: NarrateSpeed,
    pub wrapping: usize,
}

/// The narration behind the door: at normal speed and 75 columns unless told otherwise.
pub fn process_door(door: &Door) -> (r: Narration)
    ensures
        r.speed == (match door.narrate_speed {
            Some(s) => s,
            None => NarrateSpeed::Norm,
        }),
        r.wrapping == (match door.wrapping {
            Some(w) => w,
            None => DEFAULT_WRAPPING,
        }),
{
    let speed = match &door.narrate_speed {
        Some(s) => *s,
        None => NarrateSpeed::Norm,
    };
    let wrapping = match &door.wrapping {
        Some(v) => *v,
        None => DEFAULT_WRAPPING,
    };
    Narration { speed, wrapping }
}

/// The length of a word in bytes, as `str::len` gives it.
pub open spec fn byte_len(w: String) -> nat {
    (encode_utf8(w@).len() as usize) as nat
}

/// Where lines break when words of the given lengths are told in turn, `count` bytes
/// into the current line: a word that would take the line past `wrapping` starts a
/// new line.
pub open spec fn breaks_from(lens: Seq<nat>, count: nat, wrapping: nat) -> Seq<bool>
    decreases lens.len(),
{
    if lens.len() == 0 {
        Seq::empty()
    } else {
        let b = count + lens[0] > wrapping;
        let next = (if b { 0 } else { count }) + lens[0];
        seq![b] + breaks_from(lens.drop_first(), next, wrapping)
    }
}

/// The byte lengths of the words.
pub open spec fn word_lens(words: Seq<String>) -> Seq<nat> {
    words.map_values(|w: String| byte_len(w))
}

/// For each word told in turn, whether a new line starts before it: one does when the
/// word would take the line past `wrapping` bytes.
pub fn line_breaks(words: &Vec<String>, wrapping: usize) -> (r: Vec<bool>)
    ensures
        r@ == breaks_from(word_lens(words@), 0, wrapping as nat),
{
    let mut r: Vec<bool> = Vec::new();
    let mut count: usize = 0;
    let mut i: usize = 0;
    assert(word_lens(words@).skip(0) =~= word_lens(words@));
    assert(r@ + breaks_from(word_lens(words@).skip(0), 0, wrapping as nat) =~= breaks_from(
        word_lens(words@),
        0,
        wrapping as nat,
    ));
    while i < words.len()
        invariant
            i <= words@.len(),
            breaks_from(word_lens(words@), 0, wrapping as nat) == r@ + breaks_from(
                word_lens(words@).skip(i as int),
                count as nat,
                wrapping as nat,
            ),
        decreases words@.len() - i,
    {
        let word = words[i].as_str();
        let len = word.len();
        assert(word@ == words@[i as int]@);
        assert(len as nat == byte_len(words@[i as int]));
        let ghost rest = word_lens(words@).skip(i as int);
        let ghost before = r@;
        let ghost old_count = count as nat;
        assert(rest[0] == len as nat);
        assert(rest.drop_first() =~= word_lens(words@).skip(i + 1));
        let b = (count as u128) + (len as u128) > (wrapping as u128);
        if b {
            count = len;
        } else {
            count = count + len;
        }
        r.push(b);
        assert(breaks_from(rest, old_count, wrapping as nat) == seq![b] + breaks_from(
            rest.drop_first(),
            count as nat,
            wrapping as nat,
        ));
        assert(before + (seq![b] + breaks_from(rest.drop_first(), count as nat, wrapping as nat))
            =~= r@ + breaks_from(rest.drop_first(), count as nat, wrapping as nat));
        i = i + 1;
    }
    assert(word_lens(words@).skip(i as int) =~= Seq::<nat>::empty());
    r
}

} // verus!
