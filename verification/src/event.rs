//! Events of the mjai stream, and what a seat may see of them.

use vstd::prelude::*;
use crate::text::copy_texts;

verus! {

/// An event of the mjai stream.
#[derive(Debug)]
pub enum MjaiEvent {
    Nothing,
    StartGame {
        names: Vec<String>,
        kyoku_first: Option<u8>,
        aka_flag: Option<bool>,
        id: Option<u8>,
        num_players: u8,
    },
    StartKyoku {
        bakaze: String,
        dora_marker: String,
        kyoku: u8,
        honba: u8,
        kyotaku: u32,
        oya: u8,
        scores: Vec<i32>,
        tehais: Vec<Vec<String>>,
        num_players: u8,
    },
    Tsumo { actor: u8, pai: String },
    Dahai { actor: u8, pai: String, tsumogiri: bool },
    Reach { actor: u8 },
    ReachAccepted { actor: u8 },
    Chi { actor: u8, target: u8, pai: String, consumed: [String; 2] },
    Pon { actor: u8, target: u8, pai: String, consumed: [String; 2] },
    Daiminkan { actor: u8, target: u8, pai: String, consumed: [String; 3] },
    Ankan { actor: u8, consumed: [String; 4] },
    Kakan { actor: u8, pai: String, consumed: [String; 3] },
    Kita { actor: u8, pai: Option<String> },
    Dora { dora_marker: String },
    Hora {
        actor: u8,
        target: u8,
        deltas: Option<Vec<i32>>,
        ura_markers: Option<Vec<String>>,
    },
    Ryukyoku { deltas: Option<Vec<i32>> },
    EndKyoku,
    EndGame,
}

/// An event as a mathematical value.
#[verifier::ext_equal]
pub enum EventView {
    Nothing,
    StartGame {
        names: Seq<Seq<char>>,
        kyoku_first: Option<u8>,
        aka_flag: Option<bool>,
        id: Option<u8>,
        num_players: u8,
    },
    StartKyoku {
        bakaze: Seq<char>,
        dora_marker: Seq<char>,
        kyoku: u8,
        honba: u8,
        kyotaku: u32,
        oya: u8,
        scores: Seq<i32>,
        tehais: Seq<Seq<Seq<char>>>,
        num_players: u8,
    },
    Tsumo { actor: u8, pai: Seq<char> },
    Dahai { actor: u8, pai: Seq<char>, tsumogiri: bool },
    Reach { actor: u8 },
    ReachAccepted { actor: u8 },
    Chi { actor: u8, target: u8, pai: Seq<char>, consumed: Seq<Seq<char>> },
    Pon { actor: u8, target: u8, pai: Seq<char>, consumed: Seq<Seq<char>> },
    Daiminkan { actor: u8, target: u8, pai: Seq<char>, consumed: Seq<Seq<char>> },
    Ankan { actor: u8, consumed: Seq<Seq<char>> },
    Kakan { actor: u8, pai: Seq<char>, consumed: Seq<Seq<char>> },
    Kita { actor: u8, pai: Option<Seq<char>> },
    Dora { dora_marker: Seq<char> },
    Hora {
        actor: u8,
        target: u8,
        deltas: Option<Seq<i32>>,
        ura_markers: Option<Seq<Seq<char>>>,
    },
    Ryukyoku { deltas: Option<Seq<i32>> },
    EndKyoku,
    EndGame,
}

impl View for MjaiEvent {
    type V = EventView;

    open spec fn view(&self) -> EventView {
        match self {
            MjaiEvent::Nothing => EventView::Nothing,
            MjaiEvent::StartGame { names, kyoku_first, aka_flag, id, num_players } => {
                EventView::StartGame {
                    names: names.deep_view(),
                    kyoku_first: *kyoku_first,
                    aka_flag: *aka_flag,
                    id: *id,
                    num_players: *num_players,
                }
            },
            MjaiEvent::StartKyoku {
                bakaze,
                dora_marker,
                kyoku,
                honba,
                kyotaku,
                oya,
                scores,
                tehais,
                num_players,
            } => EventView::StartKyoku {
                bakaze: bakaze@,
                dora_marker: dora_marker@,
                kyoku: *kyoku,
                honba: *honba,
                kyotaku: *kyotaku,
                oya: *oya,
                scores: scores@,
                tehais: tehais.deep_view(),
                num_players: *num_players,
            },
            MjaiEvent::Tsumo { actor, pai } => EventView::Tsumo { actor: *actor, pai: pai@ },
            MjaiEvent::Dahai { actor, pai, tsumogiri } => EventView::Dahai {
                actor: *actor,
                pai: pai@,
                tsumogiri: *tsumogiri,
            },
            MjaiEvent::Reach { actor } => EventView::Reach { actor: *actor },
            MjaiEvent::ReachAccepted { actor } => EventView::ReachAccepted { actor: *actor },
            MjaiEvent::Chi { actor, target, pai, consumed } => EventView::Chi {
                actor: *actor,
                target: *target,
                pai: pai@,
                consumed: consumed.deep_view(),
            },
            MjaiEvent::Pon { actor, target, pai, consumed } => EventView::Pon {
                actor: *actor,
                target: *target,
                pai: pai@,
                consumed: consumed.deep_view(),
            },
            MjaiEvent::Daiminkan { actor, target, pai, consumed } => EventView::Daiminkan {
                actor: *actor,
                target: *target,
                pai: pai@,
                consumed: consumed.deep_view(),
            },
            MjaiEvent::Ankan { actor, consumed } => EventView::Ankan {
                actor: *actor,
                consumed: consumed.deep_view(),
            },
            MjaiEvent::Kakan { actor, pai, consumed } => EventView::Kakan {
                actor: *actor,
                pai: pai@,
                consumed: consumed.deep_view(),
            },
            MjaiEvent::Kita { actor, pai } => EventView::Kita {
                actor: *actor,
                pai: pai.deep_view(),
            },
            MjaiEvent::Dora { dora_marker } => EventView::Dora { dora_marker: dora_marker@ },
            MjaiEvent::Hora { actor, target, deltas, ura_markers } => EventView::Hora {
                actor: *actor,
                target: *target,
                deltas: deltas.deep_view(),
                ura_markers: ura_markers.deep_view(),
            },
            MjaiEvent::Ryukyoku { deltas } => EventView::Ryukyoku { deltas: deltas.deep_view() },
            MjaiEvent::EndKyoku => EventView::EndKyoku,
            MjaiEvent::EndGame => EventView::EndGame,
        }
    }
}

impl DeepView for MjaiEvent {
    type V = EventView;

    open spec fn deep_view(&self) -> EventView {
        self@
    }
}

fn copy_scores(list: &Vec<i32>) -> (r: Vec<i32>)
    ensures
        r@ == list@,
        r.deep_view() == list.deep_view(),
{
    let r = list.clone();
    proof {
        assert(r@ =~= list@);
    }
    r
}

fn copy_hands(hands: &Vec<Vec<String>>) -> (r: Vec<Vec<String>>)
    ensures
        r.deep_view() == hands.deep_view(),
{
    let mut r: Vec<Vec<String>> = Vec::new();
    let mut i: usize = 0;
    while i < hands.len()
        invariant
            i <= hands.len(),
            r.len() == i,
            forall|k: int| 0 <= k < i ==> #[trigger] r[k].deep_view() == hands[k].deep_view(),
        decreases hands.len() - i,
    {
        r.push(copy_texts(&hands[i]));
        i += 1;
    }
    proof {
        assert(r.deep_view() =~= hands.deep_view());
    }
    r
}

fn copy_array<const N: usize>(list: &[String; N]) -> (r: [String; N])
    ensures
        r.deep_view() == list.deep_view(),
{
    let r = list.clone();
    proof {
        assert(r.deep_view() =~= list.deep_view());
    }
    r
}

fn copy_deltas(deltas: &Option<Vec<i32>>) -> (r: Option<Vec<i32>>)
    ensures
        r.deep_view() == deltas.deep_view(),
{
    match deltas {
        Some(list) => Some(copy_scores(list)),
        None => None,
    }
}

fn copy_markers(markers: &Option<Vec<String>>) -> (r: Option<Vec<String>>)
    ensures
        r.deep_view() == markers.deep_view(),
{
    match markers {
        Some(list) => Some(copy_texts(list)),
        None => None,
    }
}

fn copy_pai(pai: &Option<String>) -> (r: Option<String>)
    ensures
        r.deep_view() == pai.deep_view(),
{
    match pai {
        Some(p) => Some(p.clone()),
        None => None,
    }
}

impl Clone for MjaiEvent {
    fn clone(&self) -> (r: Self)
        ensures
            r@ == self@,
    {
        match self {
            MjaiEvent::Nothing => MjaiEvent::Nothing,
            MjaiEvent::StartGame { names, kyoku_first, aka_flag, id, num_players } => {
                MjaiEvent::StartGame {
                    names: copy_texts(names),
                    kyoku_first: *kyoku_first,
                    aka_flag: *aka_flag,
                    id: *id,
                    num_players: *num_players,
                }
            },
            MjaiEvent::StartKyoku {
                bakaze,
                dora_marker,
                kyoku,
                honba,
                kyotaku,
                oya,
                scores,
                tehais,
                num_players,
            } => MjaiEvent::StartKyoku {
                bakaze: bakaze.clone(),
                dora_marker: dora_marker.clone(),
                kyoku: *kyoku,
                honba: *honba,
                kyotaku: *kyotaku,
                oya: *oya,
                scores: copy_scores(scores),
                tehais: copy_hands(tehais),
                num_players: *num_players,
            },
            MjaiEvent::Tsumo { actor, pai } => MjaiEvent::Tsumo { actor: *actor, pai: pai.clone() },
            MjaiEvent::Dahai { actor, pai, tsumogiri } => MjaiEvent::Dahai {
                actor: *actor,
                pai: pai.clone(),
                tsumogiri: *tsumogiri,
            },
            MjaiEvent::Reach { actor } => MjaiEvent::Reach { actor: *actor },
            MjaiEvent::ReachAccepted { actor } => MjaiEvent::ReachAccepted { actor: *actor },
            MjaiEvent::Chi { actor, target, pai, consumed } => MjaiEvent::Chi {
                actor: *actor,
                target: *target,
                pai: pai.clone(),
                consumed: copy_array(consumed),
            },
            MjaiEvent::Pon { actor, target, pai, consumed } => MjaiEvent::Pon {
                actor: *actor,
                target: *target,
                pai: pai.clone(),
                consumed: copy_array(consumed),
            },
            MjaiEvent::Daiminkan { actor, target, pai, consumed } => MjaiEvent::Daiminkan {
                actor: *actor,
                target: *target,
                pai: pai.clone(),
                consumed: copy_array(consumed),
            },
            MjaiEvent::Ankan { actor, consumed } => MjaiEvent::Ankan {
                actor: *actor,
                consumed: copy_array(consumed),
            },
            MjaiEvent::Kakan { actor, pai, consumed } => MjaiEvent::Kakan {
                actor: *actor,
                pai: pai.clone(),
                consumed: copy_array(consumed),
            },
            MjaiEvent::Kita { actor, pai } => MjaiEvent::Kita { actor: *actor, pai: copy_pai(pai) },
            MjaiEvent::Dora { dora_marker } => MjaiEvent::Dora { dora_marker: dora_marker.clone() },
            MjaiEvent::Hora { actor, target, deltas, ura_markers } => MjaiEvent::Hora {
                actor: *actor,
                target: *target,
                deltas: copy_deltas(deltas),
                ura_markers: copy_markers(ura_markers),
            },
            MjaiEvent::Ryukyoku { deltas } => MjaiEvent::Ryukyoku { deltas: copy_deltas(deltas) },
            MjaiEvent::EndKyoku => MjaiEvent::EndKyoku,
            MjaiEvent::EndGame => MjaiEvent::EndGame,
        }
    }
}

/// The name that stands for a tile which a seat may not see.
pub open spec fn hidden() -> Seq<char> {
    "?"@
}

/// A hand of which nothing but the number of tiles can be seen.
pub open spec fn hidden_hand(hand: Seq<Seq<char>>) -> Seq<Seq<char>> {
    Seq::new(hand.len(), |k: int| hidden())
}

/// The hands as the player at `seat` sees them: the own one open, the others hidden.
pub open spec fn hands_for(tehais: Seq<Seq<Seq<char>>>, seat: u8) -> Seq<Seq<Seq<char>>> {
    Seq::new(
        tehais.len(),
        |i: int|
            if i == seat {
                tehais[i]
            } else {
                hidden_hand(tehais[i])
            },
    )
}

/// An event as the player at `seat` sees it: the start of a game names the seat, the start of a
/// round shows the own hand only, another player's draw is hidden, and all else is open.
pub open spec fn seen_by(event: EventView, seat: u8) -> EventView {
    match event {
        EventView::StartGame { names, kyoku_first, aka_flag, id, num_players } => {
            EventView::StartGame { names, kyoku_first, aka_flag, id: Some(seat), num_players }
        },
        EventView::StartKyoku {
            bakaze,
            dora_marker,
            kyoku,
            honba,
            kyotaku,
            oya,
            scores,
            tehais,
            num_players,
        } => EventView::StartKyoku {
            bakaze,
            dora_marker,
            kyoku,
            honba,
            kyotaku,
            oya,
            scores,
            tehais: hands_for(tehais, seat),
            num_players,
        },
        EventView::Tsumo { actor, pai } => EventView::Tsumo {
            actor,
            pai: if actor == seat {
                pai
            } else {
                hidden()
            },
        },
        _ => event,
    }
}

fn hide_hand(hand: &Vec<String>) -> (r: Vec<String>)
    ensures
        r.deep_view() == hidden_hand(hand.deep_view()),
{
    let mut r: Vec<String> = Vec::new();
    let mut k: usize = 0;
    while k < hand.len()
        invariant
            k <= hand.len(),
            r.len() == k,
            forall|m: int| 0 <= m < k ==> #[trigger] r[m]@ == hidden(),
        decreases hand.len() - k,
    {
        r.push("?".to_owned());
        k += 1;
    }
    proof {
        assert(r.deep_view() =~= hidden_hand(hand.deep_view()));
    }
    r
}

fn mask_hands(tehais: &Vec<Vec<String>>, seat: u8) -> (r: Vec<Vec<String>>)
    ensures
        r.deep_view() == hands_for(tehais.deep_view(), seat),
{
    let mut r: Vec<Vec<String>> = Vec::new();
    let mut i: usize = 0;
    while i < tehais.len()
        invariant
            i <= tehais.len(),
            r.len() == i,
            forall|k: int|
                0 <= k < i ==> #[trigger] r[k].deep_view() == hands_for(
                    tehais.deep_view(),
                    seat,
                )[k],
        decreases tehais.len() - i,
    {
        if i == seat as usize {
            r.push(copy_texts(&tehais[i]));
        } else {
            r.push(hide_hand(&tehais[i]));
        }
        i += 1;
    }
    proof {
        assert(r.deep_view() =~= hands_for(tehais.deep_view(), seat));
    }
    r
}

/// The event as the player at `seat` may see it.
pub fn event_for_seat(event: &MjaiEvent, seat: u8) -> (r: MjaiEvent)
    ensures
        r@ == seen_by(event@, seat),
{
    match event {
        MjaiEvent::StartGame { names, kyoku_first, aka_flag, num_players, .. } => {
            MjaiEvent::StartGame {
                names: copy_texts(names),
                kyoku_first: *kyoku_first,
                aka_flag: *aka_flag,
                id: Some(seat),
                num_players: *num_players,
            }
        },
        MjaiEvent::StartKyoku {
            bakaze,
            dora_marker,
            kyoku,
            honba,
            kyotaku,
            oya,
            scores,
            tehais,
            num_players,
        } => MjaiEvent::StartKyoku {
            bakaze: bakaze.clone(),
            dora_marker: dora_marker.clone(),
            kyoku: *kyoku,
            honba: *honba,
            kyotaku: *kyotaku,
            oya: *oya,
            scores: copy_scores(scores),
            tehais: mask_hands(tehais, seat),
            num_players: *num_players,
        },
        MjaiEvent::Tsumo { actor, .. } if *actor != seat => MjaiEvent::Tsumo {
            actor: *actor,
            pai: "?".to_owned(),
        },
        other => other.clone(),
    }
}

} // verus!
