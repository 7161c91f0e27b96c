//! What a player sees of the table.

use vstd::prelude::*;
use crate::action::Phase;
use crate::engine::{LocalEngine, SeatFacts, SeatView, StatusView, TableView};
use crate::mode::HUMAN_SEAT;

verus! {

/// What a player sees of a seat: the tiles of the hand only where it is the own one.
#[derive(Debug, Clone, PartialEq, Eq)]
pub struct SeatSnapshot {
    pub hand: Option<Vec<u8>>,
    pub hand_size: usize,
    pub discards: Vec<u8>,
    pub score: i32,
    pub riichi_declared: bool,
}

/// What a player sees of a seat, as a mathematical value.
#[verifier::ext_equal]
pub struct SeenSeat {
    pub hand: Option<Seq<u8>>,
    pub hand_size: nat,
    pub discards: Seq<u8>,
    pub score: i32,
    pub riichi_declared: bool,
}

impl DeepView for SeatSnapshot {
    type V = SeenSeat;

    open spec fn deep_view(&self) -> SeenSeat {
        SeenSeat {
            hand: match self.hand {
                Some(tiles) => Some(tiles@),
                None => None,
            },
            hand_size: self.hand_size as nat,
            discards: self.discards@,
            score: self.score,
            riichi_declared: self.riichi_declared,
        }
    }
}

/// What a player sees of the table.
#[derive(Debug, Clone, PartialEq, Eq)]
pub struct GameStateSnapshot {
    pub viewer: u8,
    pub is_done: bool,
    pub phase: Phase,
    pub current_player: u8,
    pub round_wind: u8,
    pub oya: u8,
    pub honba: u8,
    pub riichi_sticks: u32,
    pub dora_indicators: Vec<u8>,
    pub seats: Vec<SeatSnapshot>,
}

/// What a player sees of the table, as a mathematical value.
#[verifier::ext_equal]
pub struct SnapshotView {
    pub viewer: u8,
    pub is_done: bool,
    pub phase: Phase,
    pub current_player: u8,
    pub round_wind: u8,
    pub oya: u8,
    pub honba: u8,
    pub riichi_sticks: u32,
    pub dora_indicators: Seq<u8>,
    pub seats: Seq<SeenSeat>,
}

impl View for GameStateSnapshot {
    type V = SnapshotView;

    open spec fn view(&self) -> SnapshotView {
        SnapshotView {
            viewer: self.viewer,
            is_done: self.is_done,
            phase: self.phase,
            current_player: self.current_player,
            round_wind: self.round_wind,
            oya: self.oya,
            honba: self.honba,
            riichi_sticks: self.riichi_sticks,
            dora_indicators: self.dora_indicators@,
            seats: self.seats.deep_view(),
        }
    }
}

/// What a player sees of a seat, whose own it is or not.
pub open spec fn seen_seat(seat: SeatView, own: bool) -> SeenSeat {
    SeenSeat {
        hand: if own {
            Some(seat.hand)
        } else {
            None
        },
        hand_size: seat.hand.len(),
        discards: seat.discards,
        score: seat.score,
        riichi_declared: seat.riichi_declared,
    }
}

/// What the player at `viewer` sees of a game.
pub open spec fn seen_table(status: StatusView, table: TableView, viewer: u8) -> SnapshotView {
    SnapshotView {
        viewer,
        is_done: status.is_done,
        phase: status.phase,
        current_player: status.current_player,
        round_wind: table.round_wind,
        oya: table.oya,
        honba: table.honba,
        riichi_sticks: table.riichi_sticks,
        dora_indicators: table.dora_indicators,
        seats: Seq::new(table.seats.len(), |i: int| seen_seat(table.seats[i], i == viewer)),
    }
}

fn copy_tiles(tiles: &Vec<u8>) -> (r: Vec<u8>)
    ensures
        r@ == tiles@,
{
    let r = tiles.clone();
    proof {
        assert(r@ =~= tiles@);
    }
    r
}

fn show_seat(seat: &SeatFacts, own: bool) -> (r: SeatSnapshot)
    ensures
        r.deep_view() == seen_seat(seat.deep_view(), own),
{
    SeatSnapshot {
        hand: if own {
            Some(copy_tiles(&seat.hand))
        } else {
            None
        },
        hand_size: seat.hand.len(),
        discards: copy_tiles(&seat.discards),
        score: seat.score,
        riichi_declared: seat.riichi_declared,
    }
}

impl GameStateSnapshot {
    /// What the player at `viewer` sees of the game.
    pub fn from_state(engine: &LocalEngine, viewer: u8) -> (r: GameStateSnapshot)
        requires
            engine.in_play(),
        ensures
            r@ == seen_table(engine.status(), engine.table(), viewer),
    {
        let facts = engine.table_facts();
        let ghost table = engine.table();
        let mut seats: Vec<SeatSnapshot> = Vec::new();
        let mut i: usize = 0;
        while i < facts.seats.len()
            invariant
                i <= facts.seats.len(),
                table == facts@,
                seats.len() == i,
                forall|k: int|
                    0 <= k < i ==> #[trigger] seats[k].deep_view() == seen_seat(
                        table.seats[k],
                        k == viewer,
                    ),
            decreases facts.seats.len() - i,
        {
            seats.push(show_seat(&facts.seats[i], i == viewer as usize));
            i += 1;
        }
        let r = GameStateSnapshot {
            viewer,
            is_done: engine.is_done(),
            phase: engine.phase(),
            current_player: engine.current_player(),
            round_wind: facts.round_wind,
            oya: facts.oya,
            honba: facts.honba,
            riichi_sticks: facts.riichi_sticks,
            dora_indicators: facts.dora_indicators,
            seats,
        };
        proof {
            assert(r@.seats =~= seen_table(engine.status(), table, viewer).seats);
        }
        r
    }
}

impl LocalEngine {
    /// What the human player sees of the game.
    pub fn snapshot(&self) -> (r: GameStateSnapshot)
        requires
            self.in_play(),
        ensures
            r@ == seen_table(self.status(), self.table(), HUMAN_SEAT),
    {
        GameStateSnapshot::from_state(self, HUMAN_SEAT)
    }
}

} // verus!
