//! Tile names of the mjai protocol.

use vstd::prelude::*;
use crate::text::{decimal, digit};
use riichienv_core::parser::{mjai_to_tid, tid_to_mjai};

verus! {

/// The letters of the honours, in the order of their tile numbers.
pub open spec fn honours() -> Seq<char> {
    seq!['E', 'S', 'W', 'N', 'P', 'F', 'C']
}

/// The letter of the suit that starts at tile number `36 * k`.
pub open spec fn suit(k: int) -> char {
    if k == 0 {
        'm'
    } else if k == 1 {
        'p'
    } else {
        's'
    }
}

/// The mjai name of a tile number. Each kind has four numbers; the suits start at 0, 36 and 72 and
/// the honours at 108; the first number of each suit's five is the red five. Numbers past the
/// honours, which no tile has, are counted on with the letter z.
pub open spec fn tile_name(tid: u8) -> Seq<char> {
    if tid == 16 || tid == 52 || tid == 88 {
        seq!['5', suit(tid as int / 36), 'r']
    } else if tid < 108 {
        seq![digit((tid as nat % 36) / 4 + 1), suit(tid as int / 36)]
    } else {
        let n = (tid - 108) as nat / 4;
        if n < 7 {
            seq![honours()[n as int]]
        } else {
            decimal(n + 1).push('z')
        }
    }
}

/// The first tile number of the suit with the letter `c`, none where `c` is no suit.
pub open spec fn suit_start(c: char) -> Option<u8> {
    if c == 'm' {
        Some(0u8)
    } else if c == 'p' {
        Some(36u8)
    } else if c == 's' {
        Some(72u8)
    } else {
        None
    }
}

/// The tile number that a mjai name is read as: an honour's letter as its first number; a red five
/// as its number; else a digit and a suit's letter, whatever follows them, where 0 stands for the
/// red five, 5 for the first five that is not red, and z counts the honours from 1.
pub open spec fn tile_number(name: Seq<char>) -> Option<u8> {
    if name.len() == 1 && honours().contains(name[0]) {
        Some((108 + 4 * honours().index_of(name[0])) as u8)
    } else if name.len() < 2 || !('0' <= name[0] <= '9') {
        None
    } else {
        let n = name[0] as int - '0' as int;
        match suit_start(name[1]) {
            Some(start) => if n == 0 || name =~= seq!['5', name[1], 'r'] {
                Some((start + 16) as u8)
            } else if n == 5 {
                Some((start + 17) as u8)
            } else {
                Some((start + 4 * (n - 1)) as u8)
            },
            None => if name[1] == 'z' && n > 0 {
                Some((108 + 4 * (n - 1)) as u8)
            } else {
                None
            },
        }
    }
}

/// `riichienv_core::parser::tid_to_mjai`: the mjai name of a tile number, for every number.
pub assume_specification[ riichienv_core::parser::tid_to_mjai ](tid: u8) -> (r: String)
    ensures
        r@ == tile_name(tid),
;

/// `riichienv_core::parser::mjai_to_tid`: the tile number of a mjai name, none where the text is no
/// name.
pub assume_specification[ riichienv_core::parser::mjai_to_tid ](mjai: &str) -> (r: Option<u8>)
    ensures
        r == tile_number(mjai@),
;

/// The names of a list of tiles.
pub open spec fn tile_names(tiles: Seq<u8>) -> Seq<Seq<char>> {
    tiles.map_values(|t: u8| tile_name(t))
}

/// The names of a list of tiles.
pub fn tile_texts(tiles: &Vec<u8>) -> (r: Vec<String>)
    ensures
        r.deep_view() == tile_names(tiles@),
{
    let mut r: Vec<String> = Vec::new();
    let mut i: usize = 0;
    while i < tiles.len()
        invariant
            i <= tiles.len(),
            r.len() == i,
            forall|k: int| 0 <= k < i ==> #[trigger] r[k]@ == tile_name(tiles[k]),
        decreases tiles.len() - i,
    {
        r.push(tid_to_mjai(tiles[i]));
        i += 1;
    }
    proof {
        assert(r.deep_view() =~= tile_names(tiles@));
    }
    r
}

} // verus!
