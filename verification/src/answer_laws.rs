//! Which legal action an answer finds, kind by kind, and which one is taken without an answer.

use vstd::prelude::*;
use vstd::multiset::Multiset;
use crate::action::{
    fallback_of, fallback_rank, is_fallback_at, law_fallback_is_legal, ActionType, ActionView,
};
use crate::event::EventView;
use crate::matching::{consumes, holds_tile, kinds, kinds_read};
use crate::response::{
    answer_event, asks_for, bot_turn, first_asked, law_asked_is_legal, BotResponse,
};
use crate::tile::{tile_name, tile_names, tile_number};

verus! {

/// Whether `found` is the first of the actions that are `wanted`, none where none is.
pub open spec fn is_first(
    legal: Seq<ActionView>,
    found: Option<ActionView>,
    wanted: spec_fn(ActionView) -> bool,
) -> bool {
    match found {
        Some(a) => exists|i: int|
            {
                &&& 0 <= i < legal.len()
                &&& #[trigger] legal[i] == a
                &&& wanted(a)
                &&& forall|j: int| 0 <= j < i ==> !wanted(#[trigger] legal[j])
            },
        None => forall|j: int| 0 <= j < legal.len() ==> !wanted(#[trigger] legal[j]),
    }
}

/// Whether `a` is an action of the player at `seat`, of the kind `kind`.
pub open spec fn is_of(a: ActionView, seat: u8, kind: ActionType) -> bool {
    a.actor == Some(seat) && a.action_type == kind
}

/// Whether the tile of `a` has the name `pai`, or is of the kind of tile that `pai` is read as.
pub open spec fn is_on(a: ActionView, pai: Seq<char>) -> bool {
    a.tile matches Some(t) && (tile_name(t) == pai || (tile_number(pai) matches Some(u) && u / 4
        == t / 4))
}

/// How many of the items are `wanted`.
pub open spec fn how_many<T>(items: Seq<T>, wanted: spec_fn(T) -> bool) -> nat {
    items.filter(wanted).len()
}

/// How many of the tiles have the name `x`.
pub open spec fn tiles_named(tiles: Seq<u8>, x: Seq<char>) -> nat {
    how_many(tiles, |t: u8| tile_name(t) == x)
}

/// Whether a text is `x`.
pub open spec fn equal_to(x: Seq<char>) -> spec_fn(Seq<char>) -> bool {
    |n: Seq<char>| n == x
}

/// How often `x` stands among the names.
pub open spec fn times_named(names: Seq<Seq<char>>, x: Seq<char>) -> nat {
    how_many(names, equal_to(x))
}

/// How many of the tiles are of the kind `k`.
pub open spec fn tiles_of_kind(tiles: Seq<u8>, k: u8) -> nat {
    how_many(tiles, |t: u8| t / 4 == k)
}

/// How many of the names are read as a tile of the kind `k`.
pub open spec fn names_of_kind(names: Seq<Seq<char>>, k: u8) -> nat {
    how_many(names, |n: Seq<char>| tile_number(n) matches Some(t) && t / 4 == k)
}

/// Whether `a` consumes as many tiles of every name as `names` holds, or as many of every kind as
/// `names` is read as.
pub open spec fn spends(a: ActionView, names: Seq<Seq<char>>) -> bool {
    ||| forall|x: Seq<char>|
        #[trigger] tiles_named(a.consume_tiles, x) == times_named(names, x)
    ||| forall|k: u8|
        #[trigger] tiles_of_kind(a.consume_tiles, k) == names_of_kind(names, k)
}

proof fn lemma_how_many_last<T>(items: Seq<T>, wanted: spec_fn(T) -> bool)
    ensures
        items.len() == 0 ==> how_many(items, wanted) == 0,
        items.len() > 0 ==> how_many(items, wanted) == how_many(items.drop_last(), wanted) + if wanted(
            items.last(),
        ) {
            1nat
        } else {
            0nat
        },
{
    reveal(Seq::filter);
}

proof fn lemma_count_names(names: Seq<Seq<char>>, x: Seq<char>)
    ensures
        names.to_multiset().count(x) == times_named(names, x),
    decreases names.len(),
{
    broadcast use vstd::seq_lib::group_to_multiset_ensures;

    let wanted = equal_to(x);
    lemma_how_many_last(names, wanted);
    if names.len() > 0 {
        lemma_count_names(names.drop_last(), x);
        let front = names.drop_last();
        assert(names =~= front.push(names.last()));
        assert(front.push(names.last()).to_multiset() =~= front.to_multiset().insert(names.last()));
    } else {
        names.to_multiset_ensures();
        assert(names.to_multiset() =~= Multiset::empty());
    }
}

proof fn lemma_count_tile_names(tiles: Seq<u8>, x: Seq<char>)
    ensures
        tile_names(tiles).to_multiset().count(x) == tiles_named(tiles, x),
    decreases tiles.len(),
{
    broadcast use vstd::seq_lib::group_to_multiset_ensures;

    let wanted = |t: u8| tile_name(t) == x;
    lemma_how_many_last(tiles, wanted);
    if tiles.len() > 0 {
        lemma_count_tile_names(tiles.drop_last(), x);
        assert(tile_names(tiles) =~= tile_names(tiles.drop_last()).push(tile_name(tiles.last())));
    } else {
        tile_names(tiles).to_multiset_ensures();
        assert(tile_names(tiles).to_multiset() =~= Multiset::empty());
    }
}

proof fn lemma_count_kinds(tiles: Seq<u8>, k: u8)
    ensures
        kinds(tiles).to_multiset().count(k) == tiles_of_kind(tiles, k),
    decreases tiles.len(),
{
    broadcast use vstd::seq_lib::group_to_multiset_ensures;

    let wanted = |t: u8| t / 4 == k;
    lemma_how_many_last(tiles, wanted);
    if tiles.len() > 0 {
        lemma_count_kinds(tiles.drop_last(), k);
        assert(kinds(tiles) =~= kinds(tiles.drop_last()).push(tiles.last() / 4));
    } else {
        kinds(tiles).to_multiset_ensures();
        assert(kinds(tiles).to_multiset() =~= Multiset::empty());
    }
}

proof fn lemma_count_kinds_read(names: Seq<Seq<char>>, k: u8)
    ensures
        kinds_read(names).to_multiset().count(k) == names_of_kind(names, k),
    decreases names.len(),
{
    broadcast use vstd::seq_lib::group_to_multiset_ensures;

    let wanted = |n: Seq<char>| tile_number(n) matches Some(t) && t / 4 == k;
    lemma_how_many_last(names, wanted);
    if names.len() > 0 {
        lemma_count_kinds_read(names.drop_last(), k);
    } else {
        kinds_read(names).to_multiset_ensures();
        assert(kinds_read(names).to_multiset() =~= Multiset::empty());
    }
}

/// An action consumes the tiles that a list names exactly if every name, or every kind of tile, stands
/// as often on both sides. Names that are read as no tile count for no kind.
pub proof fn law_consumed_counts(a: ActionView, names: Seq<Seq<char>>)
    ensures
        consumes(a, names) <==> spends(a, names),
{
    let mine = tile_names(a.consume_tiles).to_multiset();
    let theirs = names.to_multiset();
    let my_kinds = kinds(a.consume_tiles).to_multiset();
    let their_kinds = kinds_read(names).to_multiset();
    assert forall|x: Seq<char>|
        mine.count(x) == #[trigger] tiles_named(a.consume_tiles, x) && theirs.count(x)
            == times_named(names, x) by {
        lemma_count_tile_names(a.consume_tiles, x);
        lemma_count_names(names, x);
    }
    assert forall|k: u8|
        my_kinds.count(k) == #[trigger] tiles_of_kind(a.consume_tiles, k) && their_kinds.count(k)
            == names_of_kind(names, k) by {
        lemma_count_kinds(a.consume_tiles, k);
        lemma_count_kinds_read(names, k);
    }
    if forall|x: Seq<char>| #[trigger] tiles_named(a.consume_tiles, x) == times_named(names, x) {
        assert forall|x: Seq<char>| mine.count(x) == theirs.count(x) by {
            assert(tiles_named(a.consume_tiles, x) == times_named(names, x));
        }
        assert(mine =~= theirs);
    }
    if forall|k: u8| #[trigger] tiles_of_kind(a.consume_tiles, k) == names_of_kind(names, k) {
        assert forall|k: u8| my_kinds.count(k) == their_kinds.count(k) by {
            assert(tiles_of_kind(a.consume_tiles, k) == names_of_kind(names, k));
        }
        assert(my_kinds =~= their_kinds);
    }
}

/// An action of whatever kind holds the tile that a name stands for exactly if its tile has that name
/// or is of the kind that the name is read as.
pub proof fn law_held_tile(a: ActionView, pai: Seq<char>)
    ensures
        holds_tile(a, pai) <==> is_on(a, pai),
        a.tile is None ==> !holds_tile(a, pai),
{
}

proof fn lemma_is_first(
    e: EventView,
    seat: u8,
    legal: Seq<ActionView>,
    wanted: spec_fn(ActionView) -> bool,
)
    requires
        forall|a: ActionView| #[trigger] asks_for(e, seat, a) <==> wanted(a),
    ensures
        is_first(legal, first_asked(e, seat, legal), wanted),
{
    law_asked_is_legal(e, seat, legal);
    if let Some(a) = first_asked(e, seat, legal) {
        let i = choose|i: int|
            {
                &&& 0 <= i < legal.len()
                &&& #[trigger] legal[i] == a
                &&& asks_for(e, seat, a)
                &&& forall|j: int| 0 <= j < i ==> !asks_for(e, seat, #[trigger] legal[j])
            };
        assert(legal[i] == a && wanted(a));
        assert forall|j: int| 0 <= j < i implies !wanted(#[trigger] legal[j]) by {
            assert(!asks_for(e, seat, legal[j]));
        }
    } else {
        assert forall|j: int| 0 <= j < legal.len() implies !wanted(#[trigger] legal[j]) by {
            assert(!asks_for(e, seat, legal[j]));
        }
    }
}

/// An answer that names nothing finds the seat's first pass.
pub proof fn law_nothing_finds_a_pass(seat: u8, legal: Seq<ActionView>)
    ensures
        is_first(
            legal,
            first_asked(EventView::Nothing, seat, legal),
            |a: ActionView| is_of(a, seat, ActionType::Pass),
        ),
{
    lemma_is_first(
        EventView::Nothing,
        seat,
        legal,
        |a: ActionView| is_of(a, seat, ActionType::Pass),
    );
}

/// A discard finds the seat's first discard on the tile, drawn just now or not, and one in the name of
/// another player finds nothing.
pub proof fn law_dahai_finds_a_discard(
    actor: u8,
    pai: Seq<char>,
    tsumogiri: bool,
    seat: u8,
    legal: Seq<ActionView>,
)
    ensures
        is_first(
            legal,
            first_asked(EventView::Dahai { actor, pai, tsumogiri }, seat, legal),
            |a: ActionView| actor == seat && is_of(a, seat, ActionType::Discard) && is_on(a, pai),
        ),
{
    lemma_is_first(
        EventView::Dahai { actor, pai, tsumogiri },
        seat,
        legal,
        |a: ActionView| actor == seat && is_of(a, seat, ActionType::Discard) && is_on(a, pai),
    );
}

/// A riichi finds the seat's first riichi, and one in the name of another player nothing.
pub proof fn law_reach_finds_a_riichi(actor: u8, seat: u8, legal: Seq<ActionView>)
    ensures
        is_first(
            legal,
            first_asked(EventView::Reach { actor }, seat, legal),
            |a: ActionView| actor == seat && is_of(a, seat, ActionType::Riichi),
        ),
{
    lemma_is_first(
        EventView::Reach { actor },
        seat,
        legal,
        |a: ActionView| actor == seat && is_of(a, seat, ActionType::Riichi),
    );
}

/// A win finds the seat's first win, off whomever and with whatever points and markers, and one in the
/// name of another player nothing.
pub proof fn law_hora_finds_a_win(
    actor: u8,
    target: u8,
    deltas: Option<Seq<i32>>,
    ura_markers: Option<Seq<Seq<char>>>,
    seat: u8,
    legal: Seq<ActionView>,
)
    ensures
        is_first(
            legal,
            first_asked(EventView::Hora { actor, target, deltas, ura_markers }, seat, legal),
            |a: ActionView|
                actor == seat && (is_of(a, seat, ActionType::Ron) || is_of(
                    a,
                    seat,
                    ActionType::Tsumo,
                )),
        ),
{
    lemma_is_first(
        EventView::Hora { actor, target, deltas, ura_markers },
        seat,
        legal,
        |a: ActionView|
            actor == seat && (is_of(a, seat, ActionType::Ron) || is_of(a, seat, ActionType::Tsumo)),
    );
}

/// A draw finds the seat's first declaration of nine kinds.
pub proof fn law_ryukyoku_finds_nine_kinds(
    deltas: Option<Seq<i32>>,
    seat: u8,
    legal: Seq<ActionView>,
)
    ensures
        is_first(
            legal,
            first_asked(EventView::Ryukyoku { deltas }, seat, legal),
            |a: ActionView| is_of(a, seat, ActionType::KyushuKyuhai),
        ),
{
    lemma_is_first(
        EventView::Ryukyoku { deltas },
        seat,
        legal,
        |a: ActionView| is_of(a, seat, ActionType::KyushuKyuhai),
    );
}

/// A kita finds the seat's first kita, on the tile where one is named, and one in the name of another
/// player nothing.
pub proof fn law_kita_finds_a_kita(
    actor: u8,
    pai: Option<Seq<char>>,
    seat: u8,
    legal: Seq<ActionView>,
)
    ensures
        is_first(
            legal,
            first_asked(EventView::Kita { actor, pai }, seat, legal),
            |a: ActionView|
                actor == seat && is_of(a, seat, ActionType::Kita) && (pai matches Some(p) ==> is_on(
                    a,
                    p,
                )),
        ),
{
    lemma_is_first(
        EventView::Kita { actor, pai },
        seat,
        legal,
        |a: ActionView|
            actor == seat && is_of(a, seat, ActionType::Kita) && (pai matches Some(p) ==> is_on(
                a,
                p,
            )),
    );
}

/// A chi, a pon or an open kan finds the seat's first of its kind on the tile and with the consumed
/// tiles, off whomever, and one in the name of another player nothing.
pub proof fn law_call_finds_a_call(
    actor: u8,
    target: u8,
    pai: Seq<char>,
    consumed: Seq<Seq<char>>,
    seat: u8,
    legal: Seq<ActionView>,
)
    ensures
        is_first(
            legal,
            first_asked(EventView::Chi { actor, target, pai, consumed }, seat, legal),
            |a: ActionView|
                actor == seat && is_of(a, seat, ActionType::Chi) && is_on(a, pai) && spends(
                    a,
                    consumed,
                ),
        ),
        is_first(
            legal,
            first_asked(EventView::Pon { actor, target, pai, consumed }, seat, legal),
            |a: ActionView|
                actor == seat && is_of(a, seat, ActionType::Pon) && is_on(a, pai) && spends(
                    a,
                    consumed,
                ),
        ),
        is_first(
            legal,
            first_asked(EventView::Daiminkan { actor, target, pai, consumed }, seat, legal),
            |a: ActionView|
                actor == seat && is_of(a, seat, ActionType::Daiminkan) && is_on(a, pai) && spends(
                    a,
                    consumed,
                ),
        ),
{
    assert forall|a: ActionView| consumes(a, consumed) <==> #[trigger] spends(a, consumed) by {
        law_consumed_counts(a, consumed);
    }
    lemma_is_first(
        EventView::Chi { actor, target, pai, consumed },
        seat,
        legal,
        |a: ActionView|
            actor == seat && is_of(a, seat, ActionType::Chi) && is_on(a, pai) && spends(a, consumed),
    );
    lemma_is_first(
        EventView::Pon { actor, target, pai, consumed },
        seat,
        legal,
        |a: ActionView|
            actor == seat && is_of(a, seat, ActionType::Pon) && is_on(a, pai) && spends(a, consumed),
    );
    lemma_is_first(
        EventView::Daiminkan { actor, target, pai, consumed },
        seat,
        legal,
        |a: ActionView|
            actor == seat && is_of(a, seat, ActionType::Daiminkan) && is_on(a, pai) && spends(
                a,
                consumed,
            ),
    );
}

/// A concealed kan finds the seat's first with the consumed tiles, an added kan the first on the tile
/// and with the consumed tiles, and either in the name of another player nothing.
pub proof fn law_own_kan_finds_a_kan(
    actor: u8,
    pai: Seq<char>,
    consumed: Seq<Seq<char>>,
    seat: u8,
    legal: Seq<ActionView>,
)
    ensures
        is_first(
            legal,
            first_asked(EventView::Ankan { actor, consumed }, seat, legal),
            |a: ActionView|
                actor == seat && is_of(a, seat, ActionType::Ankan) && spends(a, consumed),
        ),
        is_first(
            legal,
            first_asked(EventView::Kakan { actor, pai, consumed }, seat, legal),
            |a: ActionView|
                actor == seat && is_of(a, seat, ActionType::Kakan) && is_on(a, pai) && spends(
                    a,
                    consumed,
                ),
        ),
{
    assert forall|a: ActionView| consumes(a, consumed) <==> #[trigger] spends(a, consumed) by {
        law_consumed_counts(a, consumed);
    }
    lemma_is_first(
        EventView::Ankan { actor, consumed },
        seat,
        legal,
        |a: ActionView| actor == seat && is_of(a, seat, ActionType::Ankan) && spends(a, consumed),
    );
    lemma_is_first(
        EventView::Kakan { actor, pai, consumed },
        seat,
        legal,
        |a: ActionView|
            actor == seat && is_of(a, seat, ActionType::Kakan) && is_on(a, pai) && spends(
                a,
                consumed,
            ),
    );
}

/// An event by which no player acts finds nothing.
pub proof fn law_other_events_find_nothing(e: EventView, seat: u8, legal: Seq<ActionView>)
    requires
        e is StartGame || e is StartKyoku || e is Tsumo || e is ReachAccepted || e is Dora || e
            is EndKyoku || e is EndGame,
    ensures
        first_asked(e, seat, legal) is None,
{
    law_asked_is_legal(e, seat, legal);
}

/// The kinds of action in the order in which they are taken where nothing better is known.
pub open spec fn order_of_kinds() -> Seq<ActionType> {
    seq![
        ActionType::Pass,
        ActionType::Discard,
        ActionType::Riichi,
        ActionType::Kita,
        ActionType::Tsumo,
        ActionType::Ron,
        ActionType::KyushuKyuhai,
        ActionType::Ankan,
        ActionType::Kakan,
        ActionType::Daiminkan,
        ActionType::Pon,
        ActionType::Chi,
    ]
}

/// Whether `a` is the action at `i`, of the first kind in the order that occurs among the actions, and
/// the first of that kind.
pub open spec fn is_preferred(legal: Seq<ActionView>, a: ActionView, i: int, k: int) -> bool {
    &&& 0 <= i < legal.len()
    &&& legal[i] == a
    &&& 0 <= k < order_of_kinds().len()
    &&& order_of_kinds()[k] == a.action_type
    &&& forall|j: int, m: int|
        0 <= j < legal.len() && 0 <= m < k ==> (#[trigger] legal[j]).action_type
            != #[trigger] order_of_kinds()[m]
    &&& forall|j: int| 0 <= j < i ==> (#[trigger] legal[j]).action_type != a.action_type
}

/// Whether `a` is what is taken of the actions where nothing better is known.
pub open spec fn preferred(legal: Seq<ActionView>, a: ActionView) -> bool {
    exists|i: int, k: int| is_preferred(legal, a, i, k)
}

/// The fallback is the first action of the first kind in the order that occurs at all; there is one
/// exactly where there are actions.
pub proof fn law_fallback_order(legal: Seq<ActionView>)
    ensures
        fallback_of(legal) is None <==> legal.len() == 0,
        fallback_of(legal) matches Some(a) ==> preferred(legal, a),
{
    law_fallback_is_legal(legal);
    if let Some(a) = fallback_of(legal) {
        let i = choose|i: int| is_fallback_at(legal, i) && legal[i] == a;
        let k = fallback_rank(a.action_type);
        assert forall|t: ActionType| order_of_kinds()[#[trigger] fallback_rank(t)] == t && 0
            <= fallback_rank(t) < 12 by {}
        assert forall|j: int, m: int| 0 <= j < legal.len() && 0 <= m < k implies (
        #[trigger] legal[j]).action_type != #[trigger] order_of_kinds()[m] by {
            let t = legal[j].action_type;
            assert(fallback_rank(t) >= k);
            assert(fallback_rank(order_of_kinds()[m]) == m);
        }
        assert forall|j: int| 0 <= j < i implies (#[trigger] legal[j]).action_type
            != a.action_type by {
            assert(fallback_rank(legal[i].action_type) <= fallback_rank(legal[j].action_type));
        }
        assert(is_preferred(legal, a, i, k));
    }
}

/// A bot plays what its answer finds. Where it finds nothing, or the bot gives no answer, it plays what
/// is taken where nothing better is known.
pub proof fn law_bot_turn(resp: Option<BotResponse>, seat: u8, legal: Seq<ActionView>)
    ensures
        resp matches Some(r) ==> (first_asked(r.action@, seat, legal) matches Some(a) ==> bot_turn(
            answer_event(resp),
            seat,
            legal,
        ) == Some(a)),
        resp matches Some(r) ==> (first_asked(r.action@, seat, legal) is None && legal.len() > 0
            ==> (bot_turn(answer_event(resp), seat, legal) matches Some(a) && preferred(legal, a))),
        resp is None && legal.len() > 0 ==> (bot_turn(
            answer_event(resp),
            seat,
            legal,
        ) matches Some(a) && preferred(legal, a)),
        legal.len() == 0 ==> bot_turn(answer_event(resp), seat, legal) is None,
{
    law_fallback_order(legal);
    if let Some(r) = resp {
        law_asked_is_legal(r.action@, seat, legal);
    }
}

} // verus!
