//! Actions of the table: what a seat may do, how an action is shown to the human player, and the
//! action taken where nothing better is known.

use vstd::prelude::*;
use crate::mode::HUMAN_SEAT;
use crate::text::{decimal, decimal_text, join, joined};
use crate::tile::{tile_name, tile_names, tile_texts};
use riichienv_core::parser::tid_to_mjai;

verus! {

/// Whom the table waits for: the player to act, or those who may claim the last tile.
#[derive(Debug, Clone, Copy, PartialEq, Eq, Structural)]
pub enum Phase {
    WaitAct,
    WaitResponse,
}

/// The kinds of action.
#[derive(Debug, Clone, Copy, PartialEq, Eq, Structural)]
pub enum ActionType {
    Discard,
    Chi,
    Pon,
    Daiminkan,
    Ron,
    Riichi,
    Tsumo,
    Pass,
    Ankan,
    Kakan,
    KyushuKyuhai,
    Kita,
}

/// An action of one seat. Tiles are numbered from 0 to 135, four to a kind.
#[derive(Debug)]
pub struct Action {
    pub action_type: ActionType,
    pub tile: Option<u8>,
    pub consume_tiles: Vec<u8>,
    pub actor: Option<u8>,
}

/// An action as a mathematical value.
#[verifier::ext_equal]
pub struct ActionView {
    pub action_type: ActionType,
    pub tile: Option<u8>,
    pub consume_tiles: Seq<u8>,
    pub actor: Option<u8>,
}

impl View for Action {
    type V = ActionView;

    open spec fn view(&self) -> ActionView {
        ActionView {
            action_type: self.action_type,
            tile: self.tile,
            consume_tiles: self.consume_tiles@,
            actor: self.actor,
        }
    }
}

impl DeepView for Action {
    type V = ActionView;

    open spec fn deep_view(&self) -> ActionView {
        self@
    }
}

impl Clone for Action {
    fn clone(&self) -> (r: Self)
        ensures
            r@ == self@,
    {
        let consume_tiles = self.consume_tiles.clone();
        proof {
            assert(consume_tiles@ =~= self.consume_tiles@);
        }
        Action {
            action_type: self.action_type,
            tile: self.tile,
            consume_tiles,
            actor: self.actor,
        }
    }
}

/// The kinds of action, as they are shown to the human player.
#[derive(Debug, Clone, Copy, PartialEq, Eq, Structural)]
pub enum LocalActionKind {
    Discard,
    Chi,
    Pon,
    Daiminkan,
    Ron,
    Riichi,
    Tsumo,
    Pass,
    Ankan,
    Kakan,
    KyushuKyuhai,
    Kita,
}

/// An action as it is shown to the human player.
#[derive(Debug, Clone, PartialEq, Eq)]
pub struct LocalActionView {
    pub id: String,
    pub kind: LocalActionKind,
    pub actor: u8,
    pub tile: Option<String>,
    pub consumed: Vec<String>,
}

/// A shown action as a mathematical value.
#[verifier::ext_equal]
pub struct ShownAction {
    pub id: Seq<char>,
    pub kind: LocalActionKind,
    pub actor: u8,
    pub tile: Option<Seq<char>>,
    pub consumed: Seq<Seq<char>>,
}

impl View for LocalActionView {
    type V = ShownAction;

    open spec fn view(&self) -> ShownAction {
        ShownAction {
            id: self.id@,
            kind: self.kind,
            actor: self.actor,
            tile: self.tile.deep_view(),
            consumed: self.consumed.deep_view(),
        }
    }
}

impl DeepView for LocalActionView {
    type V = ShownAction;

    open spec fn deep_view(&self) -> ShownAction {
        self@
    }
}

/// The name of a kind of action in an action's identifier.
pub open spec fn kind_name(t: ActionType) -> Seq<char> {
    match t {
        ActionType::Discard => "Discard"@,
        ActionType::Chi => "Chi"@,
        ActionType::Pon => "Pon"@,
        ActionType::Daiminkan => "Daiminkan"@,
        ActionType::Ron => "Ron"@,
        ActionType::Riichi => "Riichi"@,
        ActionType::Tsumo => "Tsumo"@,
        ActionType::Pass => "Pass"@,
        ActionType::Ankan => "Ankan"@,
        ActionType::Kakan => "Kakan"@,
        ActionType::KyushuKyuhai => "KyushuKyuhai"@,
        ActionType::Kita => "Kita"@,
    }
}

fn type_text(t: ActionType) -> (r: &'static str)
    ensures
        r@ == kind_name(t),
{
    match t {
        ActionType::Discard => "Discard",
        ActionType::Chi => "Chi",
        ActionType::Pon => "Pon",
        ActionType::Daiminkan => "Daiminkan",
        ActionType::Ron => "Ron",
        ActionType::Riichi => "Riichi",
        ActionType::Tsumo => "Tsumo",
        ActionType::Pass => "Pass",
        ActionType::Ankan => "Ankan",
        ActionType::Kakan => "Kakan",
        ActionType::KyushuKyuhai => "KyushuKyuhai",
        ActionType::Kita => "Kita",
    }
}

/// The kind under which a kind of action is shown.
pub open spec fn shown_kind(t: ActionType) -> LocalActionKind {
    match t {
        ActionType::Discard => LocalActionKind::Discard,
        ActionType::Chi => LocalActionKind::Chi,
        ActionType::Pon => LocalActionKind::Pon,
        ActionType::Daiminkan => LocalActionKind::Daiminkan,
        ActionType::Ron => LocalActionKind::Ron,
        ActionType::Riichi => LocalActionKind::Riichi,
        ActionType::Tsumo => LocalActionKind::Tsumo,
        ActionType::Pass => LocalActionKind::Pass,
        ActionType::Ankan => LocalActionKind::Ankan,
        ActionType::Kakan => LocalActionKind::Kakan,
        ActionType::KyushuKyuhai => LocalActionKind::KyushuKyuhai,
        ActionType::Kita => LocalActionKind::Kita,
    }
}

/// The name of an action's tile, empty where it has none.
pub open spec fn tile_part(tile: Option<u8>) -> Seq<char> {
    match tile {
        Some(t) => tile_name(t),
        None => Seq::empty(),
    }
}

/// The number under which an identifier names the actor, 255 for nobody.
pub open spec fn actor_number(a: ActionView) -> nat {
    match a.actor {
        Some(seat) => seat as nat,
        None => 255,
    }
}

/// The identifier of an action: its kind, its actor, its tile and its consumed tiles, set apart by
/// bars.
pub open spec fn id_of(a: ActionView) -> Seq<char> {
    kind_name(a.action_type) + "|"@ + decimal(actor_number(a)) + "|"@ + tile_part(a.tile) + "|"@ + joined(tile_names(a.consume_tiles), ","@)
}

/// The identifier under which an action is offered and submitted.
pub fn action_id(action: &Action) -> (r: String)
    ensures
        r@ == id_of(action@),
{
    let tile = match action.tile {
        Some(t) => tid_to_mjai(t),
        None => String::new(),
    };
    let consumed = join(&tile_texts(&action.consume_tiles), ",");
    let actor: u8 = match action.actor {
        Some(seat) => seat,
        None => 255,
    };
    let mut r = type_text(action.action_type).to_owned();
    r.append("|");
    r.append(decimal_text(actor as usize).as_str());
    r.append("|");
    r.append(tile.as_str());
    r.append("|");
    r.append(consumed.as_str());
    r
}

/// How an action is shown to the human player.
pub open spec fn shown(a: ActionView) -> ShownAction {
    ShownAction {
        id: id_of(a),
        kind: shown_kind(a.action_type),
        actor: match a.actor {
            Some(seat) => seat,
            None => HUMAN_SEAT,
        },
        tile: match a.tile {
            Some(t) => Some(tile_name(t)),
            None => None,
        },
        consumed: tile_names(a.consume_tiles),
    }
}

/// Shows an action to the human player.
pub fn local_action_view(action: &Action) -> (r: LocalActionView)
    ensures
        r@ == shown(action@),
{
    LocalActionView {
        id: action_id(action),
        kind: match action.action_type {
            ActionType::Discard => LocalActionKind::Discard,
            ActionType::Chi => LocalActionKind::Chi,
            ActionType::Pon => LocalActionKind::Pon,
            ActionType::Daiminkan => LocalActionKind::Daiminkan,
            ActionType::Ron => LocalActionKind::Ron,
            ActionType::Riichi => LocalActionKind::Riichi,
            ActionType::Tsumo => LocalActionKind::Tsumo,
            ActionType::Pass => LocalActionKind::Pass,
            ActionType::Ankan => LocalActionKind::Ankan,
            ActionType::Kakan => LocalActionKind::Kakan,
            ActionType::KyushuKyuhai => LocalActionKind::KyushuKyuhai,
            ActionType::Kita => LocalActionKind::Kita,
        },
        actor: match action.actor {
            Some(seat) => seat,
            None => HUMAN_SEAT,
        },
        tile: match action.tile {
            Some(t) => Some(tid_to_mjai(t)),
            None => None,
        },
        consumed: tile_texts(&action.consume_tiles),
    }
}

/// How early a kind of action is taken where nothing better is known: the smaller, the earlier.
pub open spec fn fallback_rank(t: ActionType) -> int {
    match t {
        ActionType::Pass => 0,
        ActionType::Discard => 1,
        ActionType::Riichi => 2,
        ActionType::Kita => 3,
        ActionType::Tsumo => 4,
        ActionType::Ron => 5,
        ActionType::KyushuKyuhai => 6,
        ActionType::Ankan => 7,
        ActionType::Kakan => 8,
        ActionType::Daiminkan => 9,
        ActionType::Pon => 10,
        ActionType::Chi => 11,
    }
}

/// Whether the action at `i` is of the earliest kind in `legal`, and the first of that kind.
pub open spec fn is_fallback_at(legal: Seq<ActionView>, i: int) -> bool {
    &&& 0 <= i < legal.len()
    &&& forall|j: int|
        0 <= j < legal.len() ==> {
            ||| fallback_rank(legal[i].action_type) < fallback_rank(
                #[trigger] legal[j].action_type,
            )
            ||| fallback_rank(legal[i].action_type) == fallback_rank(legal[j].action_type) && i <= j
        }
}

/// The action taken where nothing better is known, none where nothing is legal.
pub open spec fn fallback_of(legal: Seq<ActionView>) -> Option<ActionView> {
    if legal.len() == 0 {
        None
    } else {
        Some(legal[choose|i: int| is_fallback_at(legal, i)])
    }
}

/// At most one action of a list is its fallback.
pub proof fn lemma_fallback_unique(legal: Seq<ActionView>, i: int, j: int)
    requires
        is_fallback_at(legal, i),
        is_fallback_at(legal, j),
    ensures
        i == j,
{
    assert(fallback_rank(legal[j].action_type) >= fallback_rank(legal[i].action_type));
    assert(fallback_rank(legal[i].action_type) >= fallback_rank(legal[j].action_type));
}

proof fn lemma_fallback_exists(legal: Seq<ActionView>) -> (i: int)
    requires
        legal.len() > 0,
    ensures
        is_fallback_at(legal, i),
    decreases legal.len(),
{
    if legal.len() == 1 {
        0
    } else {
        let rest = legal.drop_last();
        let n = legal.len() - 1;
        let i = lemma_fallback_exists(rest);
        assert forall|j: int| 0 <= j < n implies rest[j] == #[trigger] legal[j] by {}
        if fallback_rank(legal[n].action_type) < fallback_rank(legal[i].action_type) {
            assert forall|j: int| 0 <= j < n implies fallback_rank(legal[n].action_type)
                < fallback_rank(#[trigger] legal[j].action_type) by {
                assert(rest[j].action_type == legal[j].action_type);
            }
            n
        } else {
            assert forall|j: int| 0 <= j < legal.len() implies {
                ||| fallback_rank(legal[i].action_type) < fallback_rank(
                    #[trigger] legal[j].action_type,
                )
                ||| fallback_rank(legal[i].action_type) == fallback_rank(legal[j].action_type)
                    && i <= j
            } by {
                if j < n {
                    assert(rest[j].action_type == legal[j].action_type);
                }
            }
            i
        }
    }
}

/// There is a fallback exactly where something is legal. It is one of the legal actions, none of
/// them is of an earlier kind, and all before it are of a later one.
pub proof fn law_fallback_is_legal(legal: Seq<ActionView>)
    ensures
        fallback_of(legal) is Some <==> legal.len() > 0,
        fallback_of(legal) matches Some(a) ==> {
            exists|i: int| is_fallback_at(legal, i) && legal[i] == a
        },
        fallback_of(legal) matches Some(a) ==> legal.contains(a),
{
    if legal.len() > 0 {
        let i = lemma_fallback_exists(legal);
        assert(is_fallback_at(legal, choose|k: int| is_fallback_at(legal, k)));
    }
}

/// A player for whom something is to be done passes wherever passing is legal.
pub proof fn law_fallback_passes(legal: Seq<ActionView>, i: int)
    requires
        0 <= i < legal.len(),
        legal[i].action_type is Pass,
    ensures
        fallback_of(legal) is Some,
        (fallback_of(legal)->0).action_type is Pass,
{
    law_fallback_is_legal(legal);
    let k = choose|k: int| is_fallback_at(legal, k) && legal[k] == fallback_of(legal)->0;
    assert(fallback_rank(legal[i].action_type) == 0);
    assert(fallback_rank(legal[k].action_type) == 0);
}

fn rank_of(t: ActionType) -> (r: u8)
    ensures
        r == fallback_rank(t),
{
    match t {
        ActionType::Pass => 0,
        ActionType::Discard => 1,
        ActionType::Riichi => 2,
        ActionType::Kita => 3,
        ActionType::Tsumo => 4,
        ActionType::Ron => 5,
        ActionType::KyushuKyuhai => 6,
        ActionType::Ankan => 7,
        ActionType::Kakan => 8,
        ActionType::Daiminkan => 9,
        ActionType::Pon => 10,
        ActionType::Chi => 11,
    }
}

/// The action taken where nothing better is known: the first of the earliest kind.
pub fn fallback_action(legal: &[Action]) -> (r: Option<Action>)
    ensures
        r.deep_view() == fallback_of(legal.deep_view()),
{
    let ghost views = legal.deep_view();
    if legal.len() == 0 {
        return None;
    }
    let mut best: usize = 0;
    let mut i: usize = 1;
    while i < legal.len()
        invariant
            1 <= i <= legal.len(),
            best < i,
            views == legal.deep_view(),
            is_fallback_at(views.take(i as int), best as int),
        decreases legal.len() - i,
    {
        let ghost seen = views.take(i as int);
        let ghost more = views.take(i + 1);
        proof {
            assert(more =~= seen.push(views[i as int]));
        }
        if rank_of(legal[i].action_type) < rank_of(legal[best].action_type) {
            best = i;
        }
        proof {
            assert forall|j: int| 0 <= j < more.len() implies {
                ||| fallback_rank(more[best as int].action_type) < fallback_rank(
                    #[trigger] more[j].action_type,
                )
                ||| fallback_rank(more[best as int].action_type) == fallback_rank(
                    more[j].action_type,
                ) && best <= j
            } by {
                if j < i {
                    assert(more[j] == seen[j]);
                    assert(fallback_rank(seen[j].action_type) >= 0);
                }
            }
        }
        i += 1;
    }
    proof {
        assert(views.take(legal.len() as int) =~= views);
        lemma_fallback_unique(views, best as int, choose|k: int| is_fallback_at(views, k));
    }
    Some(legal[best].clone())
}

} // verus!
