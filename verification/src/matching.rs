//! Whether a tile or a set of tiles that a bot names is the one that an action holds.

use vstd::prelude::*;
use crate::action::{Action, ActionView};
use crate::bag::{same_numbers, same_texts};
use crate::text::same_text;
use crate::tile::{tile_name, tile_names, tile_number, tile_texts};
use riichienv_core::parser::{mjai_to_tid, tid_to_mjai};

verus! {

/// Whether the tile number `tile` goes by the name `pai`: its own name, or any name that is read as
/// a tile of the same kind, so that a red five and a plain one stand for each other.
pub open spec fn tile_goes_by(tile: u8, pai: Seq<char>) -> bool {
    ||| tile_name(tile) == pai
    ||| tile_number(pai) is Some && tile_number(pai)->0 / 4 == tile / 4
}

/// Whether the action has a tile and it goes by the name `pai`.
pub open spec fn holds_tile(a: ActionView, pai: Seq<char>) -> bool {
    a.tile is Some && tile_goes_by(a.tile->0, pai)
}

/// Whether the action's tile is the one that `pai` names.
pub fn action_tile_matches(action: &Action, pai: &str) -> (r: bool)
    ensures
        r == holds_tile(action@, pai@),
{
    match action.tile {
        None => false,
        Some(tile) => {
            if same_text(tid_to_mjai(tile).as_str(), pai) {
                return true;
            }
            match mjai_to_tid(pai) {
                Some(candidate) => candidate / 4 == tile / 4,
                None => false,
            }
        },
    }
}

/// The kinds of a list of tile numbers.
pub open spec fn kinds(tiles: Seq<u8>) -> Seq<u8> {
    tiles.map_values(|t: u8| t / 4)
}

/// The kinds of the tiles that a list of names is read as, without the names that are read as none.
pub open spec fn kinds_read(names: Seq<Seq<char>>) -> Seq<u8>
    decreases names.len(),
{
    if names.len() == 0 {
        Seq::empty()
    } else {
        match tile_number(names.last()) {
            Some(t) => kinds_read(names.drop_last()).push(t / 4),
            None => kinds_read(names.drop_last()),
        }
    }
}

/// Whether the action consumes the tiles of `names`, in whatever order: the same names, or names
/// that are read as tiles of the same kinds.
pub open spec fn consumes(a: ActionView, names: Seq<Seq<char>>) -> bool {
    ||| tile_names(a.consume_tiles).to_multiset() == names.to_multiset()
    ||| kinds(a.consume_tiles).to_multiset() == kinds_read(names).to_multiset()
}

/// Whether the action consumes the tiles that `consumed` names.
pub fn consumed_matches<const N: usize>(action: &Action, consumed: &[String; N]) -> (r: bool)
    ensures
        r == consumes(action@, consumed.deep_view()),
{
    let mut bot_tiles: Vec<String> = Vec::new();
    let mut bot_kinds: Vec<u8> = Vec::new();
    let ghost names = consumed.deep_view();
    let mut i: usize = 0;
    while i < N
        invariant
            i <= N,
            names == consumed.deep_view(),
            names.len() == N,
            bot_tiles.deep_view() == names.take(i as int),
            bot_kinds@ == kinds_read(names.take(i as int)),
        decreases N - i,
    {
        let ghost before = bot_tiles.deep_view();
        let name = consumed[i].clone();
        proof {
            assert(names.take(i + 1).drop_last() =~= names.take(i as int));
            assert(names.take(i + 1).last() == name@);
            assert(names.take(i + 1) =~= names.take(i as int).push(name@));
        }
        if let Some(t) = mjai_to_tid(name.as_str()) {
            bot_kinds.push(t / 4);
        }
        bot_tiles.push(name);
        proof {
            assert(bot_tiles.deep_view() =~= before.push(name@));
        }
        i += 1;
    }
    proof {
        assert(names.take(N as int) =~= names);
    }
    if same_texts(&tile_texts(&action.consume_tiles), &bot_tiles) {
        return true;
    }
    let mut action_kinds: Vec<u8> = Vec::new();
    let mut k: usize = 0;
    while k < action.consume_tiles.len()
        invariant
            k <= action.consume_tiles.len(),
            action_kinds@ == kinds(action.consume_tiles@.take(k as int)),
        decreases action.consume_tiles.len() - k,
    {
        action_kinds.push(action.consume_tiles[k] / 4);
        k += 1;
        proof {
            assert(action_kinds@ =~= kinds(action.consume_tiles@.take(k as int)));
        }
    }
    proof {
        assert(action.consume_tiles@.take(k as int) =~= action.consume_tiles@);
    }
    same_numbers(&action_kinds, &bot_kinds)
}

} // verus!
