//! Decoding of raw command characters into cardinal directions: `'N'`,
//! `'S'`, `'E'` and `'W'` map to their directions, and every other character
//! is silently dropped — it contributes nothing to the output sequence and
//! is not an error.

use vstd::prelude::*;

use crate::cardinal::Cardinals;

verus! {

/// The direction a single command character decodes to, or `None` for a
/// character outside the recognised four.
pub open spec fn spec_char_to_cardinal(c: char) -> Option<Cardinals> {
    if c == 'N' {
        Some(Cardinals::North)
    } else if c == 'S' {
        Some(Cardinals::South)
    } else if c == 'E' {
        Some(Cardinals::East)
    } else if c == 'W' {
        Some(Cardinals::West)
    } else {
        None
    }
}

/// The direction sequence a character sequence decodes to: each recognised
/// character contributes its direction in input order, and unrecognised
/// characters are dropped.
pub open spec fn spec_decode(s: Seq<char>) -> Seq<Cardinals>
    decreases s.len(),
{
    if s.len() == 0 {
        Seq::empty()
    } else {
        let front = spec_decode(s.drop_last());
        match spec_char_to_cardinal(s.last()) {
            Some(c) => front.push(c),
            None => front,
        }
    }
}

/// Decodes an ordered sequence of command characters into the ordered
/// sequence of cardinal directions they stand for, dropping every
/// unrecognised character.
pub fn char_to_cardinals(commands: Vec<char>) -> (cardinals: Vec<Cardinals>)
    ensures
        cardinals@ == spec_decode(commands@),
{
    let mut cardinals: Vec<Cardinals> = Vec::new();
    let mut i: usize = 0;
    while i < commands.len()
        invariant
            i <= commands@.len(),
            cardinals@ == spec_decode(commands@.take(i as int)),
        decreases commands@.len() - i,
    {
        let com = commands[i];
        match com {
            'N' => cardinals.push(Cardinals::North),
            'S' => cardinals.push(Cardinals::South),
            'E' => cardinals.push(Cardinals::East),
            'W' => cardinals.push(Cardinals::West),
            _ => (),
        }
        proof {
            assert(commands@.take(i + 1 as int).drop_last() =~= commands@.take(i as int));
            assert(commands@.take(i + 1 as int).last() == commands@[i as int]);
        }
        i += 1;
    }
    proof {
        assert(commands@.take(commands@.len() as int) =~= commands@);
    }
    cardinals
}

} // verus!
