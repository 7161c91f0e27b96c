//! The rules engine: the four-player and the three-player game of `riichienv_core` behind one type.

use vstd::prelude::*;
use std::collections::HashMap;
use riichienv_core::action::Action as EngineAction;
use riichienv_core::action::ActionType as EngineActionType;
use riichienv_core::action::Phase as EnginePhase;
use riichienv_core::rule::GameRule;
use riichienv_core::state::legal_actions::GameStateLegalActions;
use riichienv_core::state::GameState;
use riichienv_core::state_3p::legal_actions::GameState3PLegalActions;
use riichienv_core::state_3p::GameState3P;
use crate::action::{Action, ActionType, ActionView, Phase};
use crate::mode::LocalGameMode;

verus! {

/// An action of the engine. Opaque: what it holds is named by `engine_action`.
#[verifier::external_type_specification]
#[verifier::external_body]
pub struct ExEngineAction(EngineAction);

/// The rule switches of the engine. Opaque: what they are is named by `rule_flags`.
#[verifier::external_type_specification]
#[verifier::external_body]
pub struct ExGameRule(riichienv_core::rule::GameRule);

/// A four-player game. Opaque: what the table reads of it is named below.
#[verifier::external_type_specification]
#[verifier::external_body]
pub struct ExGameState(riichienv_core::state::GameState);

/// A three-player game. Opaque: what the table reads of it is named below.
#[verifier::external_type_specification]
#[verifier::external_body]
pub struct ExGameState3P(riichienv_core::state_3p::GameState3P);

/// The fields of an engine's action.
pub uninterp spec fn engine_action(a: EngineAction) -> ActionView;

/// Reads the four public fields of a `riichienv_core::action::Action`, its kind by the variant of the
/// same name.
#[verifier::external_body]
fn from_engine(a: &EngineAction) -> (r: Action)
    ensures
        r@ == engine_action(*a),
{
    let action_type = match a.action_type {
        EngineActionType::Discard => ActionType::Discard,
        EngineActionType::Chi => ActionType::Chi,
        EngineActionType::Pon => ActionType::Pon,
        EngineActionType::Daiminkan => ActionType::Daiminkan,
        EngineActionType::Ron => ActionType::Ron,
        EngineActionType::Riichi => ActionType::Riichi,
        EngineActionType::Tsumo => ActionType::Tsumo,
        EngineActionType::Pass => ActionType::Pass,
        EngineActionType::Ankan => ActionType::Ankan,
        EngineActionType::Kakan => ActionType::Kakan,
        EngineActionType::KyushuKyuhai => ActionType::KyushuKyuhai,
        EngineActionType::Kita => ActionType::Kita,
    };
    Action { action_type, tile: a.tile, consume_tiles: a.consume_tiles.clone(), actor: a.actor }
}

/// Builds a `riichienv_core::action::Action` from the four fields of an action, its kind as the
/// variant of the same name.
#[verifier::external_body]
fn to_engine(a: &Action) -> (r: EngineAction)
    ensures
        engine_action(r) == a@,
{
    let action_type = match a.action_type {
        ActionType::Discard => EngineActionType::Discard,
        ActionType::Chi => EngineActionType::Chi,
        ActionType::Pon => EngineActionType::Pon,
        ActionType::Daiminkan => EngineActionType::Daiminkan,
        ActionType::Ron => EngineActionType::Ron,
        ActionType::Riichi => EngineActionType::Riichi,
        ActionType::Tsumo => EngineActionType::Tsumo,
        ActionType::Pass => EngineActionType::Pass,
        ActionType::Ankan => EngineActionType::Ankan,
        ActionType::Kakan => EngineActionType::Kakan,
        ActionType::KyushuKyuhai => EngineActionType::KyushuKyuhai,
        ActionType::Kita => EngineActionType::Kita,
    };
    EngineAction { action_type, tile: a.tile, consume_tiles: a.consume_tiles.clone(), actor: a.actor }
}

/// The rule switches of a game.
pub struct RuleFlags {
    pub allows_ron_on_ankan_for_kokushi_musou: bool,
    pub is_kokushi_musou_13machi_double: bool,
    pub is_suuankou_tanki_double: bool,
    pub is_junsei_chuurenpoutou_double: bool,
    pub is_daisuushii_double: bool,
    pub yakuman_pao_is_liability_only: bool,
    pub sanchaho_is_draw: bool,
    pub kuikae_forbidden: bool,
    pub dealer_first_discard_is_tedashi: bool,
}

/// The nine switches of a `riichienv_core::rule::GameRule`.
pub uninterp spec fn rule_flags(rule: GameRule) -> RuleFlags;

/// The Tenhou rules: three rons at once are a draw and swap calling is forbidden, all else is off.
pub open spec fn tenhou_flags() -> RuleFlags {
    RuleFlags {
        allows_ron_on_ankan_for_kokushi_musou: false,
        is_kokushi_musou_13machi_double: false,
        is_suuankou_tanki_double: false,
        is_junsei_chuurenpoutou_double: false,
        is_daisuushii_double: false,
        yakuman_pao_is_liability_only: false,
        sanchaho_is_draw: true,
        kuikae_forbidden: true,
        dealer_first_discard_is_tedashi: false,
    }
}

/// `GameRule::default_tenhou`: the Tenhou rules.
pub assume_specification[ GameRule::default_tenhou ]() -> (r: GameRule)
    ensures
        rule_flags(r) == tenhou_flags(),
;

/// What the table reads of a game to decide what comes next.
#[derive(Debug)]
pub struct EngineStatus {
    pub is_done: bool,
    pub needs_initialize_next_round: bool,
    pub phase: Phase,
    pub current_player: u8,
    pub active_players: Vec<u8>,
}

/// The status of a game as a mathematical value.
#[verifier::ext_equal]
pub struct StatusView {
    pub is_done: bool,
    pub needs_initialize_next_round: bool,
    pub phase: Phase,
    pub current_player: u8,
    pub active_players: Seq<u8>,
}

impl View for EngineStatus {
    type V = StatusView;

    open spec fn view(&self) -> StatusView {
        StatusView {
            is_done: self.is_done,
            needs_initialize_next_round: self.needs_initialize_next_round,
            phase: self.phase,
            current_player: self.current_player,
            active_players: self.active_players@,
        }
    }
}

/// Whether all the seats that a status names are below `seats`.
pub open spec fn seats_below(status: StatusView, seats: u8) -> bool {
    &&& status.current_player < seats
    &&& forall|i: int|
        0 <= i < status.active_players.len() ==> #[trigger] status.active_players[i] < seats
}

/// Whether a seat's legal actions are those of a game with the status `status`, as far as the
/// status decides: the seat's own, none once the game is over, none for a player who is not to act,
/// and at least a pass for everyone while claims are waited for.
pub open spec fn fits_status(status: StatusView, seat: u8, legal: Seq<ActionView>) -> bool {
    &&& forall|i: int| 0 <= i < legal.len() ==> (#[trigger] legal[i]).actor == Some(seat)
    &&& status.is_done ==> legal.len() == 0
    &&& status.phase is WaitAct && status.current_player != seat ==> legal.len() == 0
    &&& status.phase is WaitResponse && !status.is_done ==> legal.len() > 0 && legal.last()
        == (ActionView {
        action_type: ActionType::Pass,
        tile: None,
        consume_tiles: Seq::empty(),
        actor: Some(seat),
    })
}

/// What a player at the table has.
#[derive(Debug)]
pub struct SeatFacts {
    pub hand: Vec<u8>,
    pub discards: Vec<u8>,
    pub score: i32,
    pub riichi_declared: bool,
}

/// What a player has, as a mathematical value.
#[verifier::ext_equal]
pub struct SeatView {
    pub hand: Seq<u8>,
    pub discards: Seq<u8>,
    pub score: i32,
    pub riichi_declared: bool,
}

impl DeepView for SeatFacts {
    type V = SeatView;

    open spec fn deep_view(&self) -> SeatView {
        SeatView {
            hand: self.hand@,
            discards: self.discards@,
            score: self.score,
            riichi_declared: self.riichi_declared,
        }
    }
}

/// What lies on the table, all hands open.
#[derive(Debug)]
pub struct TableFacts {
    pub round_wind: u8,
    pub oya: u8,
    pub honba: u8,
    pub riichi_sticks: u32,
    pub dora_indicators: Vec<u8>,
    pub seats: Vec<SeatFacts>,
}

/// What lies on the table, as a mathematical value.
#[verifier::ext_equal]
pub struct TableView {
    pub round_wind: u8,
    pub oya: u8,
    pub honba: u8,
    pub riichi_sticks: u32,
    pub dora_indicators: Seq<u8>,
    pub seats: Seq<SeatView>,
}

impl View for TableFacts {
    type V = TableView;

    open spec fn view(&self) -> TableView {
        TableView {
            round_wind: self.round_wind,
            oya: self.oya,
            honba: self.honba,
            riichi_sticks: self.riichi_sticks,
            dora_indicators: self.dora_indicators@,
            seats: self.seats.deep_view(),
        }
    }
}

/// The actions of a set of players, as the engine is handed them.
pub open spec fn action_views(actions: Map<u8, EngineAction>) -> Map<u8, ActionView> {
    actions.map_values(|a: EngineAction| engine_action(a))
}

/// The actions of the seats that a table of `seats` players has.
pub open spec fn at_the_table(actions: Map<u8, ActionView>, seats: u8) -> Map<u8, ActionView> {
    Map::new(|s: u8| actions.contains_key(s) && s < seats, |s: u8| actions[s])
}

/// Whether `GameState::new` and calls of `GameState::step` lead to `s`.
pub uninterp spec fn four_in_play(s: GameState) -> bool;

/// The public fields of a four-player game that make up its status.
pub uninterp spec fn four_status(s: GameState) -> StatusView;

/// The public field `mjai_log` of a four-player game.
pub uninterp spec fn four_log(s: GameState) -> Seq<Seq<char>>;

/// The public fields of a four-player game that make up what lies on the table.
pub uninterp spec fn four_table(s: GameState) -> TableView;

/// What `_get_legal_actions_internal` gives for a seat of a four-player game.
pub uninterp spec fn four_legal(s: GameState, seat: u8) -> Seq<ActionView>;

/// Whether `GameState::new` may return `s`; it shuffles a wall.
pub uninterp spec fn four_may_open(
    game_mode: u8,
    skip_mjai_logging: bool,
    seed: Option<u64>,
    round_wind: u8,
    rule: GameRule,
    s: GameState,
) -> bool;

/// Whether `GameState::step` may turn `before` into `after`; it shuffles a wall where a round ends.
pub uninterp spec fn four_may_follow(
    before: GameState,
    actions: Map<u8, ActionView>,
    after: GameState,
) -> bool;

/// `GameState::new`, from a round of one of the four winds on: a game in play that the arguments may
/// open.
pub assume_specification[ GameState::new ](
    game_mode: u8,
    skip_mjai_logging: bool,
    seed: Option<u64>,
    round_wind: u8,
    rule: GameRule,
) -> (s: GameState)
    requires
        round_wind < 4,
    ensures
        four_may_open(game_mode, skip_mjai_logging, seed, round_wind, rule, s),
        four_in_play(s),
;

/// `GameState::step`: a game in play turns into one that may follow it on these actions. What it has
/// logged stays at the head of its log, and a game that is over is left as it is.
pub assume_specification[ GameState::step ](s: &mut GameState, actions: &HashMap<u8, EngineAction>)
    requires
        four_in_play(*old(s)),
    ensures
        four_in_play(*final(s)),
        four_may_follow(*old(s), action_views(actions@), *final(s)),
        four_log(*old(s)).is_prefix_of(four_log(*final(s))),
        four_status(*old(s)).is_done ==> *final(s) == *old(s),
;

/// Reads the public fields of a `GameState` that make up its status. Of a game in play it is claimed
/// that they name seats of the table only.
#[verifier::external_body]
fn status_four(s: &GameState) -> (r: EngineStatus)
    requires
        four_in_play(*s),
    ensures
        r@ == four_status(*s),
        seats_below(r@, 4),
{
    EngineStatus {
        is_done: s.is_done,
        needs_initialize_next_round: s.needs_initialize_next_round,
        phase: match s.phase {
            EnginePhase::WaitAct => Phase::WaitAct,
            EnginePhase::WaitResponse => Phase::WaitResponse,
        },
        current_player: s.current_player,
        active_players: s.active_players.clone(),
    }
}

/// Reads the public field `mjai_log` of a `GameState`.
#[verifier::external_body]
fn log_four(s: &GameState) -> (r: &Vec<String>)
    ensures
        r.deep_view() == four_log(*s),
{
    &s.mjai_log
}

/// Reads the public fields of a `GameState` that make up what lies on the table. It has four players.
#[verifier::external_body]
fn table_four(s: &GameState) -> (r: TableFacts)
    ensures
        r@ == four_table(*s),
        r.seats.len() == 4,
{
    TableFacts {
        round_wind: s.round_wind,
        oya: s.oya,
        honba: s.honba,
        riichi_sticks: s.riichi_sticks,
        dora_indicators: s.wall.dora_indicators.clone(),
        seats: s.players.iter().map(|p| SeatFacts {
            hand: p.hand.clone(),
            discards: p.discards.clone(),
            score: p.score,
            riichi_declared: p.riichi_declared,
        }).collect(),
    }
}

/// `GameStateLegalActions::_get_legal_actions_internal` of a `GameState`, for a seat of the table. Its
/// result is named, and fits the status of the game.
#[verifier::external_body]
fn legal_four(s: &GameState, seat: u8) -> (r: Vec<EngineAction>)
    requires
        four_in_play(*s),
        seat < 4,
    ensures
        r@.map_values(|a: EngineAction| engine_action(a)) == four_legal(*s, seat),
        fits_status(
            four_status(*s),
            seat,
            r@.map_values(|a: EngineAction| engine_action(a)),
        ),
{
    s._get_legal_actions_internal(seat)
}

/// Whether `GameState3P::new` and calls of `GameState3P::step` lead to `s`.
pub uninterp spec fn three_in_play(s: GameState3P) -> bool;

/// The public fields of a three-player game that make up its status.
pub uninterp spec fn three_status(s: GameState3P) -> StatusView;

/// The public field `mjai_log` of a three-player game.
pub uninterp spec fn three_log(s: GameState3P) -> Seq<Seq<char>>;

/// The public fields of a three-player game that make up what lies on the table.
pub uninterp spec fn three_table(s: GameState3P) -> TableView;

/// What `_get_legal_actions_internal` gives for a seat of a three-player game.
pub uninterp spec fn three_legal(s: GameState3P, seat: u8) -> Seq<ActionView>;

/// Whether `GameState3P::new` may return `s`; it shuffles a wall.
pub uninterp spec fn three_may_open(
    game_mode: u8,
    skip_mjai_logging: bool,
    seed: Option<u64>,
    round_wind: u8,
    rule: GameRule,
    s: GameState3P,
) -> bool;

/// Whether `GameState3P::step` may turn `before` into `after`; it shuffles a wall where a round ends.
pub uninterp spec fn three_may_follow(
    before: GameState3P,
    actions: Map<u8, ActionView>,
    after: GameState3P,
) -> bool;

/// `GameState3P::new`, from a round of one of the four winds on: a game in play that the arguments may
/// open.
pub assume_specification[ GameState3P::new ](
    game_mode: u8,
    skip_mjai_logging: bool,
    seed: Option<u64>,
    round_wind: u8,
    rule: GameRule,
) -> (s: GameState3P)
    requires
        round_wind < 4,
    ensures
        three_may_open(game_mode, skip_mjai_logging, seed, round_wind, rule, s),
        three_in_play(s),
;

/// `GameState3P::step`: a game in play turns into one that may follow it on these actions. What it
/// has logged stays at the head of its log, and a game that is over is left as it is.
pub assume_specification[ GameState3P::step ](
    s: &mut GameState3P,
    actions: &HashMap<u8, EngineAction>,
)
    requires
        three_in_play(*old(s)),
    ensures
        three_in_play(*final(s)),
        three_may_follow(*old(s), action_views(actions@), *final(s)),
        three_log(*old(s)).is_prefix_of(three_log(*final(s))),
        three_status(*old(s)).is_done ==> *final(s) == *old(s),
;

/// Reads the public fields of a `GameState3P` that make up its status. Of a game in play it is
/// claimed that they name seats of the table only.
#[verifier::external_body]
fn status_three(s: &GameState3P) -> (r: EngineStatus)
    requires
        three_in_play(*s),
    ensures
        r@ == three_status(*s),
        seats_below(r@, 3),
{
    EngineStatus {
        is_done: s.is_done,
        needs_initialize_next_round: s.needs_initialize_next_round,
        phase: match s.phase {
            EnginePhase::WaitAct => Phase::WaitAct,
            EnginePhase::WaitResponse => Phase::WaitResponse,
        },
        current_player: s.current_player,
        active_players: s.active_players.clone(),
    }
}

/// Reads the public field `mjai_log` of a `GameState3P`.
#[verifier::external_body]
fn log_three(s: &GameState3P) -> (r: &Vec<String>)
    ensures
        r.deep_view() == three_log(*s),
{
    &s.mjai_log
}

/// Reads the public fields of a `GameState3P` that make up what lies on the table. It has three
/// players.
#[verifier::external_body]
fn table_three(s: &GameState3P) -> (r: TableFacts)
    ensures
        r@ == three_table(*s),
        r.seats.len() == 3,
{
    TableFacts {
        round_wind: s.round_wind,
        oya: s.oya,
        honba: s.honba,
        riichi_sticks: s.riichi_sticks,
        dora_indicators: s.wall.dora_indicators.clone(),
        seats: s.players.iter().map(|p| SeatFacts {
            hand: p.hand.clone(),
            discards: p.discards.clone(),
            score: p.score,
            riichi_declared: p.riichi_declared,
        }).collect(),
    }
}

/// `GameState3PLegalActions::_get_legal_actions_internal` of a `GameState3P`, for a seat of the table.
/// Its result is named, and fits the status of the game.
#[verifier::external_body]
fn legal_three(s: &GameState3P, seat: u8) -> (r: Vec<EngineAction>)
    requires
        three_in_play(*s),
        seat < 3,
    ensures
        r@.map_values(|a: EngineAction| engine_action(a)) == three_legal(*s, seat),
        fits_status(
            three_status(*s),
            seat,
            r@.map_values(|a: EngineAction| engine_action(a)),
        ),
{
    s._get_legal_actions_internal(seat)
}

enum EngineState {
    Four(GameState),
    Three(GameState3P),
}

/// A game of the rules engine, for three or four players.
pub struct LocalEngine {
    state: EngineState,
}

impl LocalEngine {
    /// The four-player game, where it is one.
    pub closed spec fn as_four(&self) -> Option<GameState> {
        match self.state {
            EngineState::Four(s) => Some(s),
            EngineState::Three(_) => None,
        }
    }

    /// The three-player game, where it is one.
    pub closed spec fn as_three(&self) -> Option<GameState3P> {
        match self.state {
            EngineState::Four(_) => None,
            EngineState::Three(s) => Some(s),
        }
    }

    /// The number of players.
    pub closed spec fn seats(&self) -> u8 {
        match self.state {
            EngineState::Four(_) => 4,
            EngineState::Three(_) => 3,
        }
    }

    /// Whether the game was opened by the engine and changed by nothing but its steps.
    pub closed spec fn in_play(&self) -> bool {
        match self.state {
            EngineState::Four(s) => four_in_play(s),
            EngineState::Three(s) => three_in_play(s),
        }
    }

    /// What decides how the game goes on.
    pub closed spec fn status(&self) -> StatusView {
        match self.state {
            EngineState::Four(s) => four_status(s),
            EngineState::Three(s) => three_status(s),
        }
    }

    /// The lines of the game's mjai log.
    pub closed spec fn log(&self) -> Seq<Seq<char>> {
        match self.state {
            EngineState::Four(s) => four_log(s),
            EngineState::Three(s) => three_log(s),
        }
    }

    /// What lies on the table.
    pub closed spec fn table(&self) -> TableView {
        match self.state {
            EngineState::Four(s) => four_table(s),
            EngineState::Three(s) => three_table(s),
        }
    }

    /// What the player at `seat` may do.
    pub closed spec fn legal(&self, seat: u8) -> Seq<ActionView> {
        match self.state {
            EngineState::Four(s) => four_legal(s, seat),
            EngineState::Three(s) => three_legal(s, seat),
        }
    }

    /// Whether the engine may open this game for the mode: logged, with a wall of chance, from the
    /// east round on, by the Tenhou rules.
    pub closed spec fn may_open(&self, mode: LocalGameMode) -> bool {
        exists|rule: GameRule|
            {
                &&& #[trigger] rule_flags(rule) == tenhou_flags()
                &&& match self.state {
                    EngineState::Four(s) => mode.seats() == 4 && four_may_open(
                        mode.id(),
                        false,
                        None,
                        0,
                        rule,
                        s,
                    ),
                    EngineState::Three(s) => mode.seats() == 3 && three_may_open(
                        mode.id(),
                        false,
                        None,
                        0,
                        rule,
                        s,
                    ),
                }
            }
    }

    /// Whether the engine may turn this game into `after` on the actions of the players.
    pub closed spec fn may_follow(&self, actions: Map<u8, ActionView>, after: LocalEngine) -> bool {
        match (self.state, after.state) {
            (EngineState::Four(a), EngineState::Four(b)) => four_may_follow(a, actions, b),
            (EngineState::Three(a), EngineState::Three(b)) => three_may_follow(a, actions, b),
            _ => false,
        }
    }

    /// What one step of the engine on the actions of the players makes of this game: a game that
    /// may follow, of as many players and still in play, whose log goes on where the old one ended.
    /// A game that is over stays as it is.
    pub open spec fn steps_to(&self, actions: Map<u8, ActionView>, after: LocalEngine) -> bool {
        &&& self.may_follow(actions, after)
        &&& after.in_play()
        &&& after.seats() == self.seats()
        &&& self.log().is_prefix_of(after.log())
        &&& self.status().is_done ==> after == *self
    }

    /// Opens a game of the mode.
    pub fn new(mode: LocalGameMode) -> (r: LocalEngine)
        ensures
            r.may_open(mode),
            r.in_play(),
            r.seats() == mode.seats(),
    {
        let rule = GameRule::default_tenhou();
        let state = if mode.num_players() == 3 {
            EngineState::Three(GameState3P::new(mode.game_mode_id(), false, None, 0, rule))
        } else {
            EngineState::Four(GameState::new(mode.game_mode_id(), false, None, 0, rule))
        };
        LocalEngine { state }
    }

    fn read_status(&self) -> (r: EngineStatus)
        requires
            self.in_play(),
        ensures
            r@ == self.status(),
            seats_below(r@, self.seats()),
    {
        match &self.state {
            EngineState::Four(s) => status_four(s),
            EngineState::Three(s) => status_three(s),
        }
    }

    /// What lies on the table.
    pub fn table_facts(&self) -> (r: TableFacts)
        ensures
            r@ == self.table(),
            r.seats.len() == self.seats(),
    {
        match &self.state {
            EngineState::Four(s) => table_four(s),
            EngineState::Three(s) => table_three(s),
        }
    }

    /// What the player at `seat` may do.
    pub fn legal_actions(&self, seat: u8) -> (r: Vec<Action>)
        requires
            self.in_play(),
            seat < self.seats(),
        ensures
            r.deep_view() == self.legal(seat),
            fits_status(self.status(), seat, self.legal(seat)),
    {
        let found = match &self.state {
            EngineState::Four(s) => legal_four(s, seat),
            EngineState::Three(s) => legal_three(s, seat),
        };
        let mut r: Vec<Action> = Vec::new();
        let mut i: usize = 0;
        while i < found.len()
            invariant
                i <= found.len(),
                r.len() == i,
                forall|k: int| 0 <= k < i ==> #[trigger] r[k]@ == engine_action(found[k]),
            decreases found.len() - i,
        {
            r.push(from_engine(&found[i]));
            i += 1;
        }
        proof {
            assert(r.deep_view() =~= found@.map_values(|a: EngineAction| engine_action(a)));
        }
        r
    }

    /// Plays the actions of the players. Actions of seats that the table does not have are left out.
    pub fn step(&mut self, actions: &HashMap<u8, Action>)
        requires
            old(self).in_play(),
        ensures
            old(self).steps_to(
                at_the_table(actions@.map_values(|a: Action| a@), old(self).seats()),
                *final(self),
            ),
    {
        broadcast use vstd::std_specs::hash::group_hash_axioms;

        let seats: u8 = self.num_seats();
        let mut handed: HashMap<u8, EngineAction> = HashMap::new();
        let mut seat: u8 = 0;
        while seat < seats
            invariant
                seat <= seats,
                forall|k: u8|
                    #[trigger] handed@.contains_key(k) <==> k < seat && actions@.contains_key(k),
                forall|k: u8|
                    #[trigger] handed@.contains_key(k) ==> engine_action(handed@[k])
                        == actions@[k]@,
            decreases seats - seat,
        {
            if let Some(a) = actions.get(&seat) {
                handed.insert(seat, to_engine(a));
            }
            seat += 1;
        }
        proof {
            assert(action_views(handed@) =~= at_the_table(
                actions@.map_values(|a: Action| a@),
                seats,
            ));
        }
        match &mut self.state {
            EngineState::Four(s) => s.step(&handed),
            EngineState::Three(s) => s.step(&handed),
        }
    }

    /// The number of players.
    pub fn num_seats(&self) -> (r: u8)
        ensures
            r == self.seats(),
    {
        match &self.state {
            EngineState::Four(_) => 4,
            EngineState::Three(_) => 3,
        }
    }

    /// The lines of the log from number `start` on.
    pub fn logs_from(&self, start: usize) -> (r: Vec<String>)
        ensures
            r.deep_view() == if start <= self.log().len() {
                self.log().skip(start as int)
            } else {
                Seq::empty()
            },
            self.log().len() <= usize::MAX,
    {
        let log = match &self.state {
            EngineState::Four(s) => log_four(s),
            EngineState::Three(s) => log_three(s),
        };
        let mut r: Vec<String> = Vec::new();
        let mut i: usize = start;
        while i < log.len()
            invariant
                log.deep_view() == self.log(),
                start <= i,
                start <= log.len() ==> i <= log.len(),
                start > log.len() ==> i == start,
                r.len() == i - start,
                forall|k: int| 0 <= k < i - start ==> #[trigger] r[k]@ == log[start + k]@,
            decreases log.len() - i,
        {
            r.push(log[i].clone());
            i += 1;
        }
        proof {
            if start <= self.log().len() {
                assert(r.deep_view() =~= self.log().skip(start as int));
            } else {
                assert(r.deep_view() =~= Seq::empty());
            }
        }
        r
    }

    /// Whether the game is over.
    pub fn is_done(&self) -> (r: bool)
        requires
            self.in_play(),
        ensures
            r == self.status().is_done,
    {
        self.read_status().is_done
    }

    /// Whether the next round has to be dealt first.
    pub fn needs_initialize_next_round(&self) -> (r: bool)
        requires
            self.in_play(),
        ensures
            r == self.status().needs_initialize_next_round,
    {
        self.read_status().needs_initialize_next_round
    }

    /// Whom the game waits for.
    pub fn phase(&self) -> (r: Phase)
        requires
            self.in_play(),
        ensures
            r == self.status().phase,
    {
        self.read_status().phase
    }

    /// The player to act.
    pub fn current_player(&self) -> (r: u8)
        requires
            self.in_play(),
        ensures
            r == self.status().current_player,
            r < self.seats(),
    {
        self.read_status().current_player
    }

    /// The players whom the game waits for.
    pub fn active_players(&self) -> (r: Vec<u8>)
        requires
            self.in_play(),
        ensures
            r@ == self.status().active_players,
            forall|i: int| 0 <= i < r.len() ==> #[trigger] r[i] < self.seats(),
    {
        let status = self.read_status();
        proof {
            assert(seats_below(status@, self.seats()));
            assert forall|i: int| 0 <= i < status.active_players.len() implies (
            #[trigger] status.active_players[i]) < self.seats() by {
                assert(status@.active_players[i] == status.active_players[i]);
            }
        }
        status.active_players
    }
}

/// A game is either of four players or of three, and all that is read of it is read of that game.
pub proof fn law_engine_is_one_game(engine: LocalEngine)
    ensures
        engine.as_four() is Some <==> engine.as_three() is None,
        engine.as_four() matches Some(s) ==> {
            &&& engine.seats() == 4
            &&& engine.in_play() == four_in_play(s)
            &&& engine.status() == four_status(s)
            &&& engine.log() == four_log(s)
            &&& engine.table() == four_table(s)
            &&& forall|seat: u8| #[trigger] engine.legal(seat) == four_legal(s, seat)
        },
        engine.as_three() matches Some(s) ==> {
            &&& engine.seats() == 3
            &&& engine.in_play() == three_in_play(s)
            &&& engine.status() == three_status(s)
            &&& engine.log() == three_log(s)
            &&& engine.table() == three_table(s)
            &&& forall|seat: u8| #[trigger] engine.legal(seat) == three_legal(s, seat)
        },
{
}

/// A game is opened for as many players as the mode has and under the mode's number: logged, shuffled
/// by chance, from the east round on, where three rons at once are a draw, swap calling is forbidden
/// and no other switch is on.
pub proof fn law_opening_of_a_game(engine: LocalEngine, mode: LocalGameMode)
    requires
        engine.may_open(mode),
    ensures
        mode is FourEast || mode is FourHanchan ==> (engine.as_four() matches Some(s) && exists|
            rule: GameRule,
        |
            {
                &&& four_may_open(
                    if mode is FourEast {
                        1
                    } else {
                        2
                    },
                    false,
                    None,
                    0,
                    rule,
                    s,
                )
                &&& #[trigger] plays_by_tenhou(rule)
            }),
        mode is ThreeEast || mode is ThreeHanchan ==> (engine.as_three() matches Some(s) && exists|
            rule: GameRule,
        |
            {
                &&& three_may_open(
                    if mode is ThreeEast {
                        4
                    } else {
                        5
                    },
                    false,
                    None,
                    0,
                    rule,
                    s,
                )
                &&& #[trigger] plays_by_tenhou(rule)
            }),
{
    let rule = choose|rule: GameRule|
        {
            &&& #[trigger] rule_flags(rule) == tenhou_flags()
            &&& match engine.state {
                EngineState::Four(s) => mode.seats() == 4 && four_may_open(
                    mode.id(),
                    false,
                    None,
                    0,
                    rule,
                    s,
                ),
                EngineState::Three(s) => mode.seats() == 3 && three_may_open(
                    mode.id(),
                    false,
                    None,
                    0,
                    rule,
                    s,
                ),
            }
        };
    assert(plays_by_tenhou(rule));
}

/// Whether three rons at once are a draw and swap calling is forbidden, and no other switch is on.
pub open spec fn plays_by_tenhou(rule: GameRule) -> bool {
    let flags = rule_flags(rule);
    &&& flags.sanchaho_is_draw
    &&& flags.kuikae_forbidden
    &&& !flags.allows_ron_on_ankan_for_kokushi_musou
    &&& !flags.is_kokushi_musou_13machi_double
    &&& !flags.is_suuankou_tanki_double
    &&& !flags.is_junsei_chuurenpoutou_double
    &&& !flags.is_daisuushii_double
    &&& !flags.yakuman_pao_is_liability_only
    &&& !flags.dealer_first_discard_is_tedashi
}

/// A step hands the engine's own game exactly the actions that are played, and makes another game of as
/// many players of it. Nothing that was logged is lost, and a game that is over does not change.
pub proof fn law_step_of_a_game(
    before: LocalEngine,
    actions: Map<u8, ActionView>,
    after: LocalEngine,
)
    requires
        before.steps_to(actions, after),
    ensures
        before.as_four() matches Some(s) ==> (after.as_four() matches Some(t) && four_may_follow(
            s,
            actions,
            t,
        )),
        before.as_three() matches Some(s) ==> (after.as_three() matches Some(t)
            && three_may_follow(s, actions, t)),
        after.in_play(),
        before.log().len() <= after.log().len(),
        forall|i: int|
            0 <= i < before.log().len() ==> #[trigger] after.log()[i] == before.log()[i],
        before.status().is_done ==> after == before,
{
    assert(before.log() =~= after.log().take(before.log().len() as int));
}

/// Of the actions that are handed over, exactly those of seats that the table has are played.
pub proof fn law_actions_at_the_table(actions: Map<u8, ActionView>, seats: u8, s: u8)
    ensures
        at_the_table(actions, seats).contains_key(s) <==> actions.contains_key(s) && s < seats,
        at_the_table(actions, seats).contains_key(s) ==> at_the_table(actions, seats)[s]
            == actions[s],
{
}

} // verus!
