//! How tiles and the names that bots give them hang together.

use vstd::prelude::*;
use vstd::multiset::Multiset;
use crate::action::ActionView;
use crate::event::EventView;
use crate::matching::{consumes, kinds, kinds_read, tile_goes_by};
use crate::response::{asks_for, first_asked, law_asked_is_legal};
use crate::text::digit;
use crate::tile::{honours, suit_start, tile_name, tile_names, tile_number};

verus! {

/// The number of tiles.
pub const TILES: u8 = 136;

/// The name of a tile is read as a tile of the same kind, and that of a red five as that very tile.
pub proof fn law_name_is_read_back(tid: u8)
    requires
        tid < TILES,
    ensures
        tile_number(tile_name(tid)) matches Some(read) && {
            &&& read < TILES
            &&& read / 4 == tid / 4
            &&& tid == 16 || tid == 52 || tid == 88 ==> read == tid
        },
{
    let name = tile_name(tid);
    if tid < 108 {
        let n = (tid as nat % 36) / 4 + 1;
        assert(digit(n) as int == 48 + n);
        assert(name[0] as int == 48 + n);
        assert(name.len() >= 2);
        let start = suit_start(name[1])->0;
        assert(start == 36 * (tid as int / 36));
        if tid == 16 || tid == 52 || tid == 88 {
            assert(name =~= seq!['5', name[1], 'r']);
        } else {
            assert(name.len() == 2);
        }
    } else {
        let n = (tid - 108) as int / 4;
        assert(name[0] == honours()[n]);
        assert(honours().contains(name[0]));
        let k = honours().index_of(name[0]);
        assert(honours()[k] == honours()[n] && 0 <= k < 7);
        assert(k == n);
    }
}

/// A tile goes by the name of another exactly if the two are of the same kind: a red five and a
/// plain one stand for each other, and nothing else does.
pub proof fn law_names_stand_for_kinds(tid: u8, other: u8)
    requires
        tid < TILES,
        other < TILES,
    ensures
        tile_goes_by(tid, tile_name(other)) <==> tid / 4 == other / 4,
{
    law_name_is_read_back(tid);
    law_name_is_read_back(other);
}

proof fn lemma_kinds_read(tiles: Seq<u8>)
    requires
        forall|i: int| 0 <= i < tiles.len() ==> (#[trigger] tiles[i]) < TILES,
    ensures
        kinds_read(tile_names(tiles)) == kinds(tiles),
    decreases tiles.len(),
{
    if tiles.len() == 0 {
        assert(kinds_read(tile_names(tiles)) =~= kinds(tiles));
    } else {
        let front = tiles.drop_last();
        lemma_kinds_read(front);
        law_name_is_read_back(tiles.last());
        assert(tile_names(tiles).drop_last() =~= tile_names(front));
        assert(tile_names(tiles).last() == tile_name(tiles.last()));
        assert(kinds(tiles) =~= kinds(front).push(tiles.last() / 4));
    }
}

/// The kinds that a name adds to those read.
spec fn kind_read(name: Seq<char>) -> Multiset<u8> {
    match tile_number(name) {
        Some(t) => Multiset::singleton(t / 4),
        None => Multiset::empty(),
    }
}

proof fn lemma_read_last(names: Seq<Seq<char>>)
    requires
        names.len() > 0,
    ensures
        kinds_read(names).to_multiset() == kinds_read(names.drop_last()).to_multiset().add(
            kind_read(names.last()),
        ),
{
    broadcast use vstd::seq_lib::group_to_multiset_ensures;

    let front = kinds_read(names.drop_last());
    match tile_number(names.last()) {
        Some(t) => {
            assert(kinds_read(names) == front.push(t / 4));
            assert(front.push(t / 4).to_multiset() =~= front.to_multiset().add(
                Multiset::singleton(t / 4),
            ));
        },
        None => {
            assert(front.to_multiset() =~= front.to_multiset().add(Multiset::empty()));
        },
    }
}

proof fn lemma_read_remove(names: Seq<Seq<char>>, j: int)
    requires
        0 <= j < names.len(),
    ensures
        kinds_read(names).to_multiset() == kinds_read(names.remove(j)).to_multiset().add(
            kind_read(names[j]),
        ),
    decreases names.len(),
{
    lemma_read_last(names);
    let n = names.len() - 1;
    if j == n {
        assert(names.remove(j) =~= names.drop_last());
    } else {
        let front = names.drop_last();
        lemma_read_remove(front, j);
        let less = names.remove(j);
        assert(less.drop_last() =~= front.remove(j));
        assert(less.last() == names.last());
        lemma_read_last(less);
        assert(kinds_read(front.remove(j)).to_multiset().add(kind_read(names[j])).add(
            kind_read(names.last()),
        ) =~= kinds_read(front.remove(j)).to_multiset().add(kind_read(names.last())).add(
            kind_read(names[j]),
        ));
    }
}

proof fn lemma_same_names_same_kinds(a: Seq<Seq<char>>, b: Seq<Seq<char>>)
    requires
        a.to_multiset() == b.to_multiset(),
    ensures
        kinds_read(a).to_multiset() == kinds_read(b).to_multiset(),
    decreases a.len(),
{
    broadcast use vstd::seq_lib::group_to_multiset_ensures;

    a.to_multiset_ensures();
    b.to_multiset_ensures();
    assert(a.len() == b.len());
    if a.len() > 0 {
        let n = a.len() - 1;
        assert(a.to_multiset().count(a[n]) > 0);
        assert(b.contains(a[n]));
        let j = b.index_of(a[n]);
        lemma_read_remove(a, n);
        lemma_read_remove(b, j);
        assert(a.remove(n).to_multiset() =~= b.remove(j).to_multiset());
        lemma_same_names_same_kinds(a.remove(n), b.remove(j));
    }
}

/// An action consumes the tiles that a list of tiles names exactly if both hold the same kinds, each
/// as often, in whatever order.
pub proof fn law_consumed_kinds(a: ActionView, tiles: Seq<u8>)
    requires
        forall|i: int| 0 <= i < tiles.len() ==> (#[trigger] tiles[i]) < TILES,
        forall|i: int| 0 <= i < a.consume_tiles.len() ==> (#[trigger] a.consume_tiles[i]) < TILES,
    ensures
        consumes(a, tile_names(tiles)) <==> kinds(a.consume_tiles).to_multiset() == kinds(
            tiles,
        ).to_multiset(),
{
    lemma_kinds_read(tiles);
    lemma_kinds_read(a.consume_tiles);
    if tile_names(a.consume_tiles).to_multiset() == tile_names(tiles).to_multiset() {
        lemma_same_names_same_kinds(tile_names(a.consume_tiles), tile_names(tiles));
    }
}

/// A bot that discards a tile by its name gets a legal discard of the same kind of tile, wherever
/// there is one.
pub proof fn law_bot_can_discard(seat: u8, legal: Seq<ActionView>, i: int, tsumogiri: bool)
    requires
        0 <= i < legal.len(),
        legal[i].action_type is Discard,
        legal[i].actor == Some(seat),
        legal[i].tile is Some,
        forall|j: int|
            0 <= j < legal.len() ==> ((#[trigger] legal[j]).tile matches Some(t) ==> t < TILES),
    ensures
        ({
            let named = EventView::Dahai {
                actor: seat,
                pai: tile_name(legal[i].tile->0),
                tsumogiri,
            };
            first_asked(named, seat, legal) matches Some(a) && {
                &&& legal.contains(a)
                &&& a.action_type is Discard
                &&& a.actor == Some(seat)
                &&& a.tile matches Some(t) && t / 4 == legal[i].tile->0 / 4
            }
        }),
{
    let named = EventView::Dahai { actor: seat, pai: tile_name(legal[i].tile->0), tsumogiri };
    law_asked_is_legal(named, seat, legal);
    assert(asks_for(named, seat, legal[i]));
    let a = first_asked(named, seat, legal)->0;
    let k = choose|k: int|
        {
            &&& 0 <= k < legal.len()
            &&& #[trigger] legal[k] == a
            &&& asks_for(named, seat, a)
            &&& forall|j: int| 0 <= j < k ==> !asks_for(named, seat, #[trigger] legal[j])
        };
    assert(legal[k].tile->0 < TILES);
    assert(legal[i].tile->0 < TILES);
    law_names_stand_for_kinds(a.tile->0, legal[i].tile->0);
}

/// An answer that names another player as the one who acts asks for nothing.
pub proof fn law_bots_act_for_themselves(e: EventView, seat: u8, legal: Seq<ActionView>)
    ensures
        e matches EventView::Dahai { actor, .. } ==> actor != seat ==> first_asked(e, seat, legal)
            is None,
        e matches EventView::Reach { actor } ==> actor != seat ==> first_asked(e, seat, legal)
            is None,
        e matches EventView::Hora { actor, .. } ==> actor != seat ==> first_asked(e, seat, legal)
            is None,
        e matches EventView::Kita { actor, .. } ==> actor != seat ==> first_asked(e, seat, legal)
            is None,
        e matches EventView::Chi { actor, .. } ==> actor != seat ==> first_asked(e, seat, legal)
            is None,
        e matches EventView::Pon { actor, .. } ==> actor != seat ==> first_asked(e, seat, legal)
            is None,
        e matches EventView::Daiminkan { actor, .. } ==> actor != seat ==> first_asked(
            e,
            seat,
            legal,
        ) is None,
        e matches EventView::Ankan { actor, .. } ==> actor != seat ==> first_asked(e, seat, legal)
            is None,
        e matches EventView::Kakan { actor, .. } ==> actor != seat ==> first_asked(e, seat, legal)
            is None,
        first_asked(e, seat, legal) matches Some(a) ==> a.actor == Some(seat),
{
    law_asked_is_legal(e, seat, legal);
}

} // verus!
