//! Why an action can be found again by its identifier.

use vstd::prelude::*;
use crate::action::{
    actor_number, id_of, kind_name, shown, tile_part, ActionType, ActionView, ShownAction,
};
use crate::table::offered;
use crate::text::{decimal, digit, joined};
use crate::tile::{tile_name, tile_names};

verus! {

/// Whether a text holds neither of the two separators of an identifier.
spec fn plain(s: Seq<char>) -> bool {
    forall|i: int| 0 <= i < s.len() ==> (#[trigger] s[i]) != '|' && s[i] != ','
}

proof fn lemma_split_first(a: Seq<char>, b: Seq<char>, x: Seq<char>, y: Seq<char>, c: char)
    requires
        a + seq![c] + x == b + seq![c] + y,
        forall|i: int| 0 <= i < a.len() ==> (#[trigger] a[i]) != c,
        forall|i: int| 0 <= i < b.len() ==> (#[trigger] b[i]) != c,
    ensures
        a == b,
        x == y,
{
    let s = a + seq![c] + x;
    let t = b + seq![c] + y;
    assert(s[a.len() as int] == c);
    assert(t[b.len() as int] == c);
    if a.len() < b.len() {
        assert(t[a.len() as int] == b[a.len() as int]);
    }
    if b.len() < a.len() {
        assert(s[b.len() as int] == a[b.len() as int]);
    }
    assert(a =~= s.take(a.len() as int));
    assert(b =~= t.take(b.len() as int));
    assert(x =~= s.skip((a.len() + 1) as int));
    assert(y =~= t.skip((b.len() + 1) as int));
}

proof fn lemma_split_last(a: Seq<char>, b: Seq<char>, x: Seq<char>, y: Seq<char>, c: char)
    requires
        a + seq![c] + x == b + seq![c] + y,
        forall|i: int| 0 <= i < x.len() ==> (#[trigger] x[i]) != c,
        forall|i: int| 0 <= i < y.len() ==> (#[trigger] y[i]) != c,
    ensures
        a == b,
        x == y,
{
    let s = a + seq![c] + x;
    let t = b + seq![c] + y;
    assert(s[a.len() as int] == c);
    assert(t[b.len() as int] == c);
    assert(s.len() == a.len() + 1 + x.len());
    assert(t.len() == b.len() + 1 + y.len());
    if a.len() < b.len() {
        assert(s[b.len() as int] == x[b.len() - a.len() - 1]);
    }
    if b.len() < a.len() {
        assert(t[a.len() as int] == y[a.len() - b.len() - 1]);
    }
    assert(a =~= s.take(a.len() as int));
    assert(b =~= t.take(b.len() as int));
    assert(x =~= s.skip((a.len() + 1) as int));
    assert(y =~= t.skip((b.len() + 1) as int));
}

proof fn lemma_digit(d: nat)
    requires
        d < 10,
    ensures
        digit(d) as int == 48 + d,
        '0' <= digit(d) <= '9',
{
}

proof fn lemma_decimal_plain(n: nat)
    ensures
        decimal(n).len() > 0,
        decimal(n).len() == 1 <==> n < 10,
        plain(decimal(n)),
    decreases n,
{
    if n >= 10 {
        lemma_decimal_plain(n / 10);
        lemma_digit(n % 10);
    } else {
        lemma_digit(n);
    }
}

proof fn lemma_decimal_injective(a: nat, b: nat)
    requires
        decimal(a) == decimal(b),
    ensures
        a == b,
    decreases a,
{
    lemma_decimal_plain(a);
    lemma_decimal_plain(b);
    if a < 10 {
        lemma_digit(a);
        lemma_digit(b);
        assert(decimal(a)[0] == digit(a));
        assert(decimal(b)[0] == digit(b));
    } else {
        lemma_digit(a % 10);
        lemma_digit(b % 10);
        assert(decimal(a).last() == digit(a % 10));
        assert(decimal(b).last() == digit(b % 10));
        assert(decimal(a).drop_last() =~= decimal(a / 10));
        assert(decimal(b).drop_last() =~= decimal(b / 10));
        lemma_decimal_injective(a / 10, b / 10);
    }
}

proof fn lemma_tile_name_plain(tid: u8)
    ensures
        tile_name(tid).len() > 0,
        plain(tile_name(tid)),
{
    if tid < 108 {
        lemma_digit((tid as nat % 36) / 4 + 1);
    } else {
        lemma_decimal_plain((tid - 108) as nat / 4 + 1);
    }
}

proof fn lemma_kind_names(t: ActionType, u: ActionType)
    ensures
        plain(kind_name(t)),
        kind_name(t) == kind_name(u) ==> t == u,
{
    reveal_strlit("Discard");
    reveal_strlit("Chi");
    reveal_strlit("Pon");
    reveal_strlit("Daiminkan");
    reveal_strlit("Ron");
    reveal_strlit("Riichi");
    reveal_strlit("Tsumo");
    reveal_strlit("Pass");
    reveal_strlit("Ankan");
    reveal_strlit("Kakan");
    reveal_strlit("KyushuKyuhai");
    reveal_strlit("Kita");
    assert(kind_name(t) == kind_name(u) ==> kind_name(t).len() == kind_name(u).len()
        && kind_name(t)[0] == kind_name(u)[0]);
}

spec fn all_plain(names: Seq<Seq<char>>) -> bool {
    forall|i: int| 0 <= i < names.len() ==> (#[trigger] names[i]).len() > 0 && plain(names[i])
}

proof fn lemma_joined_shape(names: Seq<Seq<char>>)
    requires
        all_plain(names),
    ensures
        names.len() == 0 <==> joined(names, ","@).len() == 0,
        names.len() <= 1 ==> plain(joined(names, ","@)),
        names.len() > 1 ==> !plain(joined(names, ","@)),
        names.len() > 1 ==> joined(names, ","@) == joined(names.drop_last(), ","@) + seq![',']
            + names.last(),
{
    reveal_strlit(",");
    assert(","@ =~= seq![',']);
    if names.len() > 1 {
        let front = joined(names.drop_last(), ","@);
        assert(joined(names, ","@)[front.len() as int] == ',');
    }
}

proof fn lemma_joined_injective(a: Seq<Seq<char>>, b: Seq<Seq<char>>)
    requires
        all_plain(a),
        all_plain(b),
        joined(a, ","@) == joined(b, ","@),
    ensures
        a == b,
    decreases a.len(),
{
    lemma_joined_shape(a);
    lemma_joined_shape(b);
    if a.len() == 0 {
        assert(a =~= b);
    } else if a.len() == 1 {
        assert(b.len() == 1);
        assert(a =~= b);
    } else {
        assert(all_plain(a.drop_last()));
        assert(all_plain(b.drop_last()));
        lemma_split_last(
            joined(a.drop_last(), ","@),
            joined(b.drop_last(), ","@),
            a.last(),
            b.last(),
            ',',
        );
        lemma_joined_injective(a.drop_last(), b.drop_last());
        assert(a =~= a.drop_last().push(a.last()));
        assert(b =~= b.drop_last().push(b.last()));
    }
}

proof fn lemma_id_parts(a: ActionView)
    ensures
        id_of(a) == kind_name(a.action_type) + seq!['|'] + (decimal(actor_number(a)) + seq!['|'] + (
        tile_part(a.tile) + seq!['|'] + joined(tile_names(a.consume_tiles), ","@))),
        plain(decimal(actor_number(a))),
        plain(tile_part(a.tile)),
        a.tile is None <==> tile_part(a.tile).len() == 0,
        all_plain(tile_names(a.consume_tiles)),
{
    reveal_strlit("|");
    assert("|"@ =~= seq!['|']);
    lemma_decimal_plain(actor_number(a));
    if a.tile is Some {
        lemma_tile_name_plain(a.tile->0);
    }
    assert forall|i: int| 0 <= i < a.consume_tiles.len() implies (#[trigger] tile_names(
        a.consume_tiles,
    )[i]).len() > 0 && plain(tile_names(a.consume_tiles)[i]) by {
        lemma_tile_name_plain(a.consume_tiles[i]);
    }
    assert(id_of(a) =~= kind_name(a.action_type) + seq!['|'] + (decimal(actor_number(a)) + seq![
        '|',
    ] + (tile_part(a.tile) + seq!['|'] + joined(tile_names(a.consume_tiles), ","@))));
}

/// Two actions have the same identifier exactly if they are of the same kind, their actors have the
/// same number, and their tiles and their consumed tiles have the same names.
pub proof fn law_id_tells_apart(a: ActionView, b: ActionView)
    ensures
        id_of(a) == id_of(b) <==> {
            &&& a.action_type == b.action_type
            &&& actor_number(a) == actor_number(b)
            &&& shown(a).tile == shown(b).tile
            &&& shown(a).consumed == shown(b).consumed
        },
{
    lemma_id_parts(a);
    lemma_id_parts(b);
    if id_of(a) == id_of(b) {
        lemma_same_id(a, b);
    }
}

proof fn lemma_same_id(a: ActionView, b: ActionView)
    requires
        id_of(a) == id_of(b),
    ensures
        a.action_type == b.action_type,
        actor_number(a) == actor_number(b),
        shown(a).tile == shown(b).tile,
        shown(a).consumed == shown(b).consumed,
{
    lemma_id_parts(a);
    lemma_id_parts(b);
    lemma_kind_names(a.action_type, b.action_type);
    lemma_kind_names(b.action_type, a.action_type);
    let tiles_a = joined(tile_names(a.consume_tiles), ","@);
    let tiles_b = joined(tile_names(b.consume_tiles), ","@);
    let rest_a = tile_part(a.tile) + seq!['|'] + tiles_a;
    let rest_b = tile_part(b.tile) + seq!['|'] + tiles_b;
    lemma_split_first(
        kind_name(a.action_type),
        kind_name(b.action_type),
        decimal(actor_number(a)) + seq!['|'] + rest_a,
        decimal(actor_number(b)) + seq!['|'] + rest_b,
        '|',
    );
    lemma_split_first(decimal(actor_number(a)), decimal(actor_number(b)), rest_a, rest_b, '|');
    lemma_split_first(tile_part(a.tile), tile_part(b.tile), tiles_a, tiles_b, '|');
    lemma_decimal_injective(actor_number(a), actor_number(b));
    lemma_joined_injective(tile_names(a.consume_tiles), tile_names(b.consume_tiles));
}

/// What an identifier finds is the first of the actions that has it; it finds nothing exactly where
/// no action has it.
pub proof fn law_offered_is_first(actions: Seq<ActionView>, id: Seq<char>)
    ensures
        offered(actions, id) matches Some(a) ==> exists|i: int|
            {
                &&& 0 <= i < actions.len()
                &&& #[trigger] actions[i] == a
                &&& id_of(a) == id
                &&& forall|j: int| 0 <= j < i ==> id_of(#[trigger] actions[j]) != id
            },
        offered(actions, id) is None <==> forall|j: int|
            0 <= j < actions.len() ==> id_of(#[trigger] actions[j]) != id,
    decreases actions.len(),
{
    if actions.len() > 0 {
        let rest = actions.drop_first();
        law_offered_is_first(rest, id);
        assert forall|j: int| 0 < j < actions.len() implies rest[j - 1] == #[trigger] actions[j] by {}
        if id_of(actions[0]) == id {
            assert(actions[0] == offered(actions, id)->0);
        } else if offered(rest, id) is Some {
            let i = choose|i: int|
                {
                    &&& 0 <= i < rest.len()
                    &&& #[trigger] rest[i] == offered(rest, id)->0
                    &&& id_of(rest[i]) == id
                    &&& forall|j: int| 0 <= j < i ==> id_of(#[trigger] rest[j]) != id
                };
            assert(actions[i + 1] == rest[i]);
            assert forall|j: int| 0 <= j < i + 1 implies id_of(#[trigger] actions[j]) != id by {
                if j > 0 {
                    assert(actions[j] == rest[j - 1]);
                }
            }
        } else {
            assert forall|j: int| 0 <= j < actions.len() implies id_of(#[trigger] actions[j]) != id by {
                if j > 0 {
                    assert(actions[j] == rest[j - 1]);
                }
            }
        }
    }
}

/// Whatever is shown to the human player can be taken: its identifier finds one of the actions, and
/// one that is shown the same way. Where an action of the seat with the number 255, which no table
/// has, stands beside one of nobody, the two may be found for each other; they are shown the same way
/// but for the actor.
pub proof fn law_shown_is_offered(actions: Seq<ActionView>, i: int)
    requires
        0 <= i < actions.len(),
    ensures
        offered(actions, shown(actions[i]).id) matches Some(a) && {
            &&& actions.contains(a)
            &&& actor_number(a) == actor_number(actions[i])
            &&& shown(a) == (ShownAction { actor: shown(a).actor, ..shown(actions[i]) })
            &&& actor_number(actions[i]) != 255 ==> shown(a) == shown(actions[i])
        },
{
    let id = shown(actions[i]).id;
    law_offered_is_first(actions, id);
    assert(id_of(actions[i]) == id);
    law_id_tells_apart(offered(actions, id)->0, actions[i]);
}

} // verus!
