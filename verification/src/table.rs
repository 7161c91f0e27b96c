//! The table: one human seat, bots at the others, and the decision what comes next.
//!
//! A game goes on by itself until the human player has to decide. Whatever has to be done outside
//! on the way is handed back as a `TableStep`: a bot to be asked, or new lines of the log to be
//! sent on.

use vstd::prelude::*;
use std::collections::HashMap;
use crate::action::{
    action_id, fallback_action, fallback_of, id_of, law_fallback_is_legal, local_action_view, shown,
    Action, ActionView, LocalActionView, Phase,
};
use crate::auto_laws::{
    automatic, law_answer_is_played_alone, law_round_is_played_alone, plays_alone,
};
use crate::claim_laws::{
    claiming, law_claim_answer_is_played, law_submission_is_played, plays_with,
};
use crate::engine::{at_the_table, LocalEngine, StatusView};
use crate::error::LocalGameError;
use crate::event::{event_for_seat, seen_by, EventView, MjaiEvent};
use crate::mode::{LocalGameMode, HUMAN_SEAT};
use crate::response::{
    answer_event, bot_turn, bot_turn_action, law_bot_turn_is_legal, BotResponse,
};
use crate::text::{copy_texts, decimal, decimal_text, same_text};
use crate::view::{shown_game, LocalGameView};

verus! {

/// How many times in a row the table may go on without the human player.
pub const MAX_AUTO_STEPS: usize = 4_000;

/// A seat that is played by a bot, with the events that the bot has not been shown yet.
#[derive(Debug)]
pub struct LocalSeatBot {
    pub seat: u8,
    pub name: String,
    pub pending: Vec<MjaiEvent>,
}

/// A bot's seat as a mathematical value.
#[verifier::ext_equal]
pub struct SeatBotView {
    pub seat: u8,
    pub name: Seq<char>,
    pub pending: Seq<EventView>,
}

impl View for LocalSeatBot {
    type V = SeatBotView;

    open spec fn view(&self) -> SeatBotView {
        SeatBotView { seat: self.seat, name: self.name@, pending: self.pending.deep_view() }
    }
}

impl DeepView for LocalSeatBot {
    type V = SeatBotView;

    open spec fn deep_view(&self) -> SeatBotView {
        self@
    }
}

/// The actions of a set of players as mathematical values.
pub open spec fn chosen_views(chosen: Map<u8, Action>) -> Map<u8, ActionView> {
    chosen.map_values(|a: Action| a@)
}

/// Whether a bot is being asked: which one, what it may do, who is to be asked after it, and what
/// has been chosen for the other players.
enum Round {
    Idle,
    Asking { seat: u8, legal: Vec<Action>, waiting: Vec<u8>, chosen: HashMap<u8, Action> },
}

/// The state of asking as a mathematical value.
#[verifier::ext_equal]
pub enum RoundView {
    Idle,
    Asking {
        seat: u8,
        legal: Seq<ActionView>,
        waiting: Seq<u8>,
        chosen: Map<u8, ActionView>,
    },
}

impl View for Round {
    type V = RoundView;

    closed spec fn view(&self) -> RoundView {
        match self {
            Round::Idle => RoundView::Idle,
            Round::Asking { seat, legal, waiting, chosen } => RoundView::Asking {
                seat: *seat,
                legal: legal.deep_view(),
                waiting: waiting@,
                chosen: chosen_views(chosen@),
            },
        }
    }
}

/// A question to a bot: the events since it was last asked, and the last of them.
#[derive(Debug)]
pub struct BotQuestion {
    pub seat: u8,
    pub name: String,
    pub batch: Vec<MjaiEvent>,
    pub trigger: MjaiEvent,
}

/// What has to be done before the game can go on.
#[derive(Debug)]
pub enum TableStep {
    /// Ask a bot, and hand its answer to `LocalGame::answer`.
    Ask(BotQuestion),
    /// The engine has moved: send the new lines of its log on, and then go on.
    Collect,
    /// Nothing: the human player has to decide, or the game cannot go on.
    Rest,
    /// Nothing: the game has gone on too long without the human player.
    Exceeded,
}

/// What has to be done, as a mathematical value.
#[verifier::ext_equal]
pub enum StepView {
    Ask { seat: u8, name: Seq<char>, batch: Seq<EventView>, trigger: EventView },
    Collect,
    Rest,
    Exceeded,
}

impl View for TableStep {
    type V = StepView;

    open spec fn view(&self) -> StepView {
        match self {
            TableStep::Ask(q) => StepView::Ask {
                seat: q.seat,
                name: q.name@,
                batch: q.batch.deep_view(),
                trigger: q.trigger@,
            },
            TableStep::Collect => StepView::Collect,
            TableStep::Rest => StepView::Rest,
            TableStep::Exceeded => StepView::Exceeded,
        }
    }
}

/// A game at the table.
pub struct LocalGame {
    mode: LocalGameMode,
    bot_4p: String,
    bot_3p: String,
    names: Vec<String>,
    engine: LocalEngine,
    bots: Vec<LocalSeatBot>,
    latest_human_actions: Vec<Action>,
    emitted_log_len: usize,
    message: Option<String>,
    round: Round,
    budget: usize,
}

/// A game as a mathematical value.
#[verifier::ext_equal]
pub struct GameView {
    pub mode: LocalGameMode,
    pub bot_4p: Seq<char>,
    pub bot_3p: Seq<char>,
    pub names: Seq<Seq<char>>,
    pub engine: LocalEngine,
    pub bots: Seq<SeatBotView>,
    pub latest_human_actions: Seq<ActionView>,
    pub emitted_log_len: nat,
    pub message: Option<Seq<char>>,
    pub round: RoundView,
    pub budget: nat,
}

impl View for LocalGame {
    type V = GameView;

    closed spec fn view(&self) -> GameView {
        GameView {
            mode: self.mode,
            bot_4p: self.bot_4p@,
            bot_3p: self.bot_3p@,
            names: self.names.deep_view(),
            engine: self.engine,
            bots: self.bots.deep_view(),
            latest_human_actions: self.latest_human_actions.deep_view(),
            emitted_log_len: self.emitted_log_len as nat,
            message: self.message.deep_view(),
            round: self.round@,
            budget: self.budget as nat,
        }
    }
}

/// Whether the engine waits for claims on a tile.
pub open spec fn claim_window(status: StatusView) -> bool {
    status.phase is WaitResponse && !status.is_done
}

/// The seats that the engine waits for, without the human one.
pub open spec fn bot_seats(status: StatusView) -> Seq<u8> {
    status.active_players.filter(|s: u8| s != HUMAN_SEAT)
}

/// Whether the engine waits for the bot at `s`.
pub open spec fn awaited_bot(status: StatusView, s: u8) -> bool {
    status.active_players.contains(s) && s != HUMAN_SEAT
}

/// Whether what has been chosen for the seat `s` is one of its legal actions, or `s` is human.
pub open spec fn chosen_legally(engine: LocalEngine, chosen: Map<u8, ActionView>, s: u8) -> bool {
    s < engine.seats() && (s != HUMAN_SEAT ==> engine.legal(s).contains(chosen[s]))
}

/// Whether a list of seats to be asked and a set of chosen actions can stand in a game of `engine`.
pub open spec fn fit_to_ask(
    engine: LocalEngine,
    waiting: Seq<u8>,
    chosen: Map<u8, ActionView>,
) -> bool {
    &&& forall|i: int|
        0 <= i < waiting.len() ==> (#[trigger] waiting[i]) < engine.seats() && waiting[i]
            != HUMAN_SEAT
    &&& forall|s: u8| #[trigger] chosen.contains_key(s) ==> chosen_legally(engine, chosen, s)
}

impl RoundView {
    /// What holds of the state of asking in a game of `engine`: the seat that is asked is a bot's
    /// and has legal actions, and in a claim window every seat that the engine waits for has been
    /// asked, is being asked or will be.
    pub open spec fn wf(self, engine: LocalEngine) -> bool {
        match self {
            RoundView::Idle => true,
            RoundView::Asking { seat, legal, waiting, chosen } => {
                &&& seat < engine.seats()
                &&& seat != HUMAN_SEAT
                &&& legal == engine.legal(seat)
                &&& legal.len() > 0
                &&& fit_to_ask(engine, waiting, chosen)
                &&& claim_window(engine.status()) ==> forall|s: u8|
                    #[trigger] awaited_bot(engine.status(), s) ==> s == seat || chosen.contains_key(s)
                        || waiting.contains(s)
            },
        }
    }
}

impl GameView {
    /// What holds of every game at the table, whoever is being asked: the engine plays a game of the
    /// mode, every seat has a name, no line of the log is collected before it is there, and what the
    /// human player is offered are actions of the human seat.
    pub open spec fn sound(self) -> bool {
        &&& self.engine.in_play()
        &&& self.engine.seats() == self.mode.seats()
        &&& self.names.len() == self.mode.seats()
        &&& self.emitted_log_len <= self.engine.log().len()
        &&& forall|i: int|
            0 <= i < self.latest_human_actions.len() ==> (
            #[trigger] self.latest_human_actions[i]).actor == Some(HUMAN_SEAT)
    }

    /// What holds of every game at the table.
    pub open spec fn wf(self) -> bool {
        &&& self.sound()
        &&& self.round.wf(self.engine)
    }
}

/// The names of the players: the human one, and the bot's name with the number of its seat.
pub open spec fn seat_names(mode: LocalGameMode, chosen_bot: Seq<char>) -> Seq<Seq<char>> {
    Seq::new(
        mode.seats() as nat,
        |seat: int|
            if seat == HUMAN_SEAT {
                "Player"@
            } else {
                chosen_bot + " "@ + decimal(seat as nat)
            },
    )
}

/// The name of the bot that plays in a game.
pub open spec fn playing_bot(mode: LocalGameMode, bot_4p: Seq<char>, bot_3p: Seq<char>) -> Seq<char> {
    if mode.seats() == 3 {
        bot_3p
    } else {
        bot_4p
    }
}

/// The bots at all seats but the human one, with nothing to be shown yet.
pub open spec fn fresh_bots(mode: LocalGameMode, name: Seq<char>) -> Seq<SeatBotView> {
    Seq::new(
        (mode.seats() - 1) as nat,
        |i: int| SeatBotView { seat: (i + 1) as u8, name, pending: Seq::empty() },
    )
}

/// The event that opens the stream of a game.
pub open spec fn opening_event(game: GameView) -> EventView {
    EventView::StartGame {
        names: game.names,
        kyoku_first: Some(0),
        aka_flag: Some(true),
        id: Some(HUMAN_SEAT),
        num_players: game.mode.seats(),
    }
}

/// The bots after each has been fed what it may see of an event.
pub open spec fn fed(bots: Seq<SeatBotView>, event: EventView) -> Seq<SeatBotView> {
    bots.map_values(
        |b: SeatBotView| SeatBotView { pending: b.pending.push(seen_by(event, b.seat)), ..b },
    )
}

fn seat_name_texts(mode: LocalGameMode, chosen_bot: &str) -> (r: Vec<String>)
    ensures
        r.deep_view() == seat_names(mode, chosen_bot@),
{
    let n: u8 = mode.num_players();
    let mut r: Vec<String> = Vec::new();
    let mut seat: u8 = 0;
    while seat < n
        invariant
            seat <= n,
            n == mode.seats(),
            r.len() == seat,
            forall|k: int|
                0 <= k < seat ==> #[trigger] r[k]@ == seat_names(mode, chosen_bot@)[k],
        decreases n - seat,
    {
        let name = if seat == HUMAN_SEAT {
            "Player".to_owned()
        } else {
            let mut name = chosen_bot.to_owned();
            name.append(" ");
            name.append(decimal_text(seat as usize).as_str());
            name
        };
        r.push(name);
        seat += 1;
    }
    proof {
        assert(r.deep_view() =~= seat_names(mode, chosen_bot@));
    }
    r
}

impl LocalGame {
    /// Sets a game up: the engine opens it, the seats are named, and no bot sits yet.
    pub fn new(mode: LocalGameMode, bot_4p: String, bot_3p: String, chosen_bot: String) -> (r: Self)
        ensures
            r@.wf(),
            r@.engine.may_open(mode),
            r@ == (GameView {
                mode,
                bot_4p: bot_4p@,
                bot_3p: bot_3p@,
                names: seat_names(mode, chosen_bot@),
                engine: r@.engine,
                bots: Seq::empty(),
                latest_human_actions: Seq::empty(),
                emitted_log_len: 0,
                message: None,
                round: RoundView::Idle,
                budget: 0,
            }),
    {
        let engine = LocalEngine::new(mode);
        let names = seat_name_texts(mode, chosen_bot.as_str());
        let r = LocalGame {
            mode,
            bot_4p,
            bot_3p,
            names,
            engine,
            bots: Vec::new(),
            latest_human_actions: Vec::new(),
            emitted_log_len: 0,
            message: None,
            round: Round::Idle,
            budget: 0,
        };
        proof {
            assert(r@.bots =~= Seq::empty());
            assert(r@.latest_human_actions =~= Seq::empty());
        }
        r
    }

    /// The name of the bot that plays at all seats but the human one.
    pub fn bot_name(&self) -> (r: String)
        ensures
            r@ == playing_bot(self@.mode, self@.bot_4p, self@.bot_3p),
            self@.mode is ThreeEast || self@.mode is ThreeHanchan ==> r@ == self@.bot_3p,
            self@.mode is FourEast || self@.mode is FourHanchan ==> r@ == self@.bot_4p,
    {
        if self.mode.num_players() == 3 {
            self.bot_3p.clone()
        } else {
            self.bot_4p.clone()
        }
    }

    /// Seats a bot at every seat but the human one.
    pub fn seat_bots(&mut self)
        ensures
            final(self)@ == (GameView {
                bots: old(self)@.bots + fresh_bots(
                    old(self)@.mode,
                    playing_bot(old(self)@.mode, old(self)@.bot_4p, old(self)@.bot_3p),
                ),
                ..old(self)@
            }),
    {
        let name = self.bot_name();
        let n: u8 = self.mode.num_players();
        let mut bots: Vec<LocalSeatBot> = Vec::new();
        let mut seat: u8 = 1;
        while seat < n
            invariant
                1 <= seat <= n,
                n == self.mode.seats(),
                bots.len() == seat - 1,
                forall|k: int|
                    0 <= k < seat - 1 ==> #[trigger] bots[k]@ == fresh_bots(self.mode, name@)[k],
            decreases n - seat,
        {
            let bot = LocalSeatBot { seat, name: name.clone(), pending: Vec::new() };
            proof {
                assert(bot@.pending =~= Seq::empty());
            }
            bots.push(bot);
            seat += 1;
        }
        let ghost seated = bots.deep_view();
        proof {
            assert(seated =~= fresh_bots(self.mode, name@));
        }
        self.bots.append(&mut bots);
        proof {
            assert(self@.bots =~= old(self)@.bots + seated);
        }
    }

    /// Feeds every bot what it may see of an event.
    pub fn feed_bots(&mut self, event: &MjaiEvent)
        ensures
            final(self)@ == (GameView { bots: fed(old(self)@.bots, event@), ..old(self)@ }),
    {
        let ghost before = self@;
        let n: usize = self.bots.len();
        let mut i: usize = 0;
        while i < n
            invariant
                i <= n,
                n == self.bots.len(),
                n == before.bots.len(),
                forall|k: int|
                    0 <= k < n ==> #[trigger] self.bots[k]@ == if k < i {
                        fed(before.bots, event@)[k]
                    } else {
                        before.bots[k]
                    },
                self@ == (GameView { bots: self@.bots, ..before }),
            decreases n - i,
        {
            let seen = event_for_seat(event, self.bots[i].seat);
            let ghost was = self.bots[i as int]@;
            proof {
                assert(was == before.bots[i as int]);
            }
            self.bots[i].pending.push(seen);
            proof {
                assert(self.bots[i as int].pending.deep_view() =~= was.pending.push(seen@));
                assert(self.bots[i as int]@ == fed(before.bots, event@)[i as int]);
            }
            i += 1;
        }
        proof {
            assert(self@.bots =~= fed(before.bots, event@));
        }
    }

    /// The opening of the stream: every bot is fed the event, and it is handed back to be sent.
    pub fn emit_start_game(&mut self) -> (r: MjaiEvent)
        ensures
            r@ == opening_event(old(self)@),
            final(self)@ == (GameView { bots: fed(old(self)@.bots, r@), ..old(self)@ }),
    {
        let event = MjaiEvent::StartGame {
            names: copy_texts(&self.names),
            kyoku_first: Some(0),
            aka_flag: Some(true),
            id: Some(HUMAN_SEAT),
            num_players: self.mode.num_players(),
        };
        self.feed_bots(&event);
        event
    }

    /// The lines of the log that have not been collected yet.
    pub fn collect(&mut self) -> (r: Vec<String>)
        requires
            old(self)@.wf(),
        ensures
            r.deep_view() == old(self)@.engine.log().skip(old(self)@.emitted_log_len as int),
            final(self)@ == (GameView {
                emitted_log_len: old(self)@.engine.log().len(),
                ..old(self)@
            }),
            final(self)@.wf(),
    {
        let lines = self.engine.logs_from(self.emitted_log_len);
        proof {
            assert(lines.deep_view().len() == lines.len());
        }
        self.emitted_log_len = self.emitted_log_len + lines.len();
        lines
    }

    /// Feeds the bots an event of the log, and hands back what the human player may see of it.
    pub fn deliver(&mut self, event: &MjaiEvent) -> (r: MjaiEvent)
        ensures
            r@ == seen_by(event@, HUMAN_SEAT),
            final(self)@ == (GameView { bots: fed(old(self)@.bots, event@), ..old(self)@ }),
    {
        self.feed_bots(event);
        event_for_seat(event, HUMAN_SEAT)
    }
}

/// Whether the bot at index `i` is the first that sits at `seat`.
pub open spec fn is_bot_at(bots: Seq<SeatBotView>, seat: u8, i: int) -> bool {
    &&& 0 <= i < bots.len()
    &&& bots[i].seat == seat
    &&& forall|j: int| 0 <= j < i ==> (#[trigger] bots[j]).seat != seat
}

/// Whether a bot sits at `seat`.
pub open spec fn has_bot(bots: Seq<SeatBotView>, seat: u8) -> bool {
    exists|i: int| is_bot_at(bots, seat, i)
}

/// The index of the first bot that sits at `seat`.
pub open spec fn bot_index(bots: Seq<SeatBotView>, seat: u8) -> int {
    choose|i: int| is_bot_at(bots, seat, i)
}

/// How far the asking of seats comes without a bot's answer: to the first bot that has to be asked,
/// or to the end.
pub enum Poll {
    Ask { seat: u8, waiting: Seq<u8>, chosen: Map<u8, ActionView> },
    Ready { chosen: Map<u8, ActionView> },
}

/// Asks the seats of `waiting` in their order, where `chosen` holds what has been chosen so far. A
/// seat that has no legal action is passed over, and one without a bot gets the fallback.
pub open spec fn poll(
    engine: LocalEngine,
    bots: Seq<SeatBotView>,
    waiting: Seq<u8>,
    chosen: Map<u8, ActionView>,
) -> Poll
    decreases waiting.len(),
{
    if waiting.len() == 0 {
        Poll::Ready { chosen }
    } else {
        let seat = waiting[0];
        let rest = waiting.drop_first();
        if engine.legal(seat).len() == 0 {
            poll(engine, bots, rest, chosen)
        } else if !has_bot(bots, seat) {
            poll(engine, bots, rest, chosen.insert(seat, fallback_of(engine.legal(seat))->0))
        } else {
            Poll::Ask { seat, waiting: rest, chosen }
        }
    }
}

/// The last event of a batch, nothing where the batch is empty.
pub open spec fn trigger_of(batch: Seq<EventView>) -> EventView {
    if batch.len() == 0 {
        EventView::Nothing
    } else {
        batch.last()
    }
}

/// The question to the bot at `seat`: all that it has not been shown yet.
pub open spec fn question(game: GameView, seat: u8) -> StepView {
    let bot = game.bots[bot_index(game.bots, seat)];
    StepView::Ask { seat, name: bot.name, batch: bot.pending, trigger: trigger_of(bot.pending) }
}

/// The game while the bot at `seat` is being asked: its events count as shown.
pub open spec fn questioned(
    game: GameView,
    seat: u8,
    waiting: Seq<u8>,
    chosen: Map<u8, ActionView>,
) -> GameView {
    let i = bot_index(game.bots, seat);
    GameView {
        bots: game.bots.update(i, SeatBotView { pending: Seq::empty(), ..game.bots[i] }),
        round: RoundView::Asking { seat, legal: game.engine.legal(seat), waiting, chosen },
        ..game
    }
}

/// The message where nobody has anything to do.
pub open spec fn idle_message() -> Seq<char> {
    "local engine waited without any active bot"@
}

/// The message where the bot at `seat` is to act and cannot.
pub open spec fn stuck_message(seat: u8) -> Seq<char> {
    "bot at seat "@ + decimal(seat as nat) + " has no legal action"@
}

/// The game at rest with a message and nothing for the human player to decide.
pub open spec fn stalled(game: GameView, message: Seq<char>) -> GameView {
    GameView {
        latest_human_actions: Seq::empty(),
        message: Some(message),
        round: RoundView::Idle,
        ..game
    }
}

/// What asking the seats of `waiting` makes of a game, and what has to be done then: the first bot
/// is asked; where there is none, the engine plays what has been chosen, all at once; where nothing
/// has been chosen, the game rests.
pub open spec fn polled(
    game: GameView,
    waiting: Seq<u8>,
    chosen: Map<u8, ActionView>,
    after: GameView,
    step: StepView,
) -> bool {
    match poll(game.engine, game.bots, waiting, chosen) {
        Poll::Ask { seat, waiting: rest, chosen: so_far } => {
            &&& after == questioned(game, seat, rest, so_far)
            &&& step == question(game, seat)
        },
        Poll::Ready { chosen: all } => if all.is_empty() {
            &&& after == stalled(game, idle_message())
            &&& step is Rest
        } else {
            &&& game.engine.steps_to(all, after.engine)
            &&& after == (GameView { engine: after.engine, round: RoundView::Idle, ..game })
            &&& step is Collect
        },
    }
}

/// Whether the engine, from `before` to `after`, has played legal actions of the bots, in a claim
/// window those of all whom it waits for, together with what has been chosen for the human player.
pub open spec fn plays_together(
    before: LocalEngine,
    after: LocalEngine,
    chosen: Map<u8, ActionView>,
) -> bool {
    exists|all: Map<u8, ActionView>|
        {
            &&& #[trigger] before.steps_to(all, after)
            &&& claim_window(before.status()) ==> forall|s: u8|
                #[trigger] awaited_bot(before.status(), s) ==> all.contains_key(s)
            &&& forall|s: u8| #[trigger] all.contains_key(s) ==> chosen_legally(before, all, s)
            &&& all.contains_key(HUMAN_SEAT) == chosen.contains_key(HUMAN_SEAT)
            &&& chosen.contains_key(HUMAN_SEAT) ==> all[HUMAN_SEAT] == chosen[HUMAN_SEAT]
        }
}

fn last_event(batch: &Vec<MjaiEvent>) -> (r: MjaiEvent)
    ensures
        r@ == trigger_of(batch.deep_view()),
{
    if batch.len() == 0 {
        MjaiEvent::Nothing
    } else {
        batch[batch.len() - 1].clone()
    }
}

impl LocalGame {
    fn find_bot(&self, seat: u8) -> (r: Option<usize>)
        ensures
            r matches Some(i) ==> is_bot_at(self@.bots, seat, i as int),
            r is Some <==> has_bot(self@.bots, seat),
    {
        let mut i: usize = 0;
        while i < self.bots.len()
            invariant
                i <= self.bots.len(),
                forall|j: int| 0 <= j < i ==> (#[trigger] self@.bots[j]).seat != seat,
            decreases self.bots.len() - i,
        {
            proof {
                assert(self@.bots[i as int] == self.bots[i as int]@);
            }
            if self.bots[i].seat == seat {
                proof {
                    assert(is_bot_at(self@.bots, seat, i as int));
                }
                return Some(i);
            }
            i += 1;
        }
        None
    }

    fn put_question(
        &mut self,
        i: usize,
        legal: Vec<Action>,
        waiting: Vec<u8>,
        chosen: HashMap<u8, Action>,
    ) -> (r: TableStep)
        requires
            i < old(self)@.bots.len(),
            is_bot_at(old(self)@.bots, old(self)@.bots[i as int].seat, i as int),
            legal.deep_view() == old(self)@.engine.legal(old(self)@.bots[i as int].seat),
        ensures
            final(self)@ == questioned(
                old(self)@,
                old(self)@.bots[i as int].seat,
                waiting@,
                chosen_views(chosen@),
            ),
            r@ == question(old(self)@, old(self)@.bots[i as int].seat),
    {
        let ghost before = self@;
        let ghost was = self.bots[i as int]@;
        proof {
            assert(before.bots[i as int] == was);
            let k = bot_index(before.bots, was.seat);
            assert(is_bot_at(before.bots, was.seat, k));
            assert(k == i);
        }
        let seat: u8 = self.bots[i].seat;
        let name = self.bots[i].name.clone();
        let mut batch: Vec<MjaiEvent> = Vec::new();
        std::mem::swap(&mut batch, &mut self.bots[i].pending);
        let trigger = last_event(&batch);
        self.round = Round::Asking { seat, legal, waiting, chosen };
        proof {
            assert(self.bots[i as int].pending.deep_view() =~= Seq::empty());
            assert(self@.bots =~= before.bots.update(
                i as int,
                SeatBotView { pending: Seq::empty(), ..was },
            ));
        }
        TableStep::Ask(BotQuestion { seat, name, batch, trigger })
    }

    fn play(&mut self, chosen: HashMap<u8, Action>) -> (r: TableStep)
        requires
            old(self)@.engine.in_play(),
            forall|s: u8| #[trigger]
                chosen@.contains_key(s) ==> s < old(self)@.engine.seats(),
        ensures
            polled(old(self)@, Seq::empty(), chosen_views(chosen@), final(self)@, r@),
    {
        proof {
            assert(chosen_views(chosen@).dom() =~= chosen@.dom());
        }
        self.round = Round::Idle;
        if chosen.is_empty() {
            self.message = Some("local engine waited without any active bot".to_owned());
            self.latest_human_actions.clear();
            proof {
                assert(self@.latest_human_actions =~= Seq::empty());
            }
            TableStep::Rest
        } else {
            proof {
                assert(at_the_table(chosen_views(chosen@), self.engine.seats()) =~= chosen_views(
                    chosen@,
                ));
            }
            self.engine.step(&chosen);
            TableStep::Collect
        }
    }

    #[verifier::loop_isolation(false)]
    fn ask_next(&mut self, waiting: Vec<u8>, chosen: HashMap<u8, Action>) -> (r: TableStep)
        requires
            old(self)@.sound(),
            fit_to_ask(old(self)@.engine, waiting@, chosen_views(chosen@)),
            claim_window(old(self)@.engine.status()) ==> forall|s: u8|
                #[trigger] awaited_bot(old(self)@.engine.status(), s) ==> chosen_views(
                    chosen@,
                ).contains_key(s) || waiting@.contains(s),
        ensures
            polled(old(self)@, waiting@, chosen_views(chosen@), final(self)@, r@),
            final(self)@.wf(),
            r is Collect ==> plays_together(
                old(self)@.engine,
                final(self)@.engine,
                chosen_views(chosen@),
            ),
    {
        broadcast use vstd::std_specs::hash::group_hash_axioms;

        let ghost before = self@;
        let ghost first_waiting = waiting@;
        let ghost first_chosen = chosen_views(chosen@);
        let mut waiting = waiting;
        let mut chosen = chosen;
        while waiting.len() > 0
            invariant
                self@ == before,
                before.sound(),
                fit_to_ask(before.engine, waiting@, chosen_views(chosen@)),
                claim_window(before.engine.status()) ==> forall|s: u8|
                    #[trigger] awaited_bot(before.engine.status(), s) ==> chosen_views(
                        chosen@,
                    ).contains_key(s) || waiting@.contains(s),
                poll(before.engine, before.bots, first_waiting, first_chosen) == poll(
                    before.engine,
                    before.bots,
                    waiting@,
                    chosen_views(chosen@),
                ),
                chosen_views(chosen@).contains_key(HUMAN_SEAT) == first_chosen.contains_key(
                    HUMAN_SEAT,
                ),
                first_chosen.contains_key(HUMAN_SEAT) ==> chosen_views(chosen@)[HUMAN_SEAT]
                    == first_chosen[HUMAN_SEAT],
            decreases waiting.len(),
        {
            let ghost all = waiting@;
            let ghost so_far = chosen_views(chosen@);
            let seat: u8 = waiting.remove(0);
            let ghost rest = waiting@;
            proof {
                assert(rest =~= all.drop_first());
                assert forall|i: int| 0 <= i < rest.len() implies (#[trigger] rest[i])
                    < before.engine.seats() && rest[i] != HUMAN_SEAT by {
                    assert(rest[i] == all[i + 1]);
                }
                assert forall|s: u8| all.contains(s) implies s == seat || rest.contains(s) by {
                    let i = choose|i: int| 0 <= i < all.len() && all[i] == s;
                    if i > 0 {
                        assert(rest[i - 1] == s);
                    }
                }
            }
            let legal = self.engine.legal_actions(seat);
            proof {
                assert(legal.deep_view().len() == legal.len());
            }
            if legal.len() > 0 {
                match self.find_bot(seat) {
                    None => {
                        let choices = legal.as_slice();
                        let fallback = fallback_action(choices);
                        proof {
                            assert(choices.deep_view() =~= legal.deep_view());
                            law_fallback_is_legal(legal.deep_view());
                        }
                        if let Some(action) = fallback {
                            chosen.insert(seat, action);
                            proof {
                                assert(chosen_views(chosen@) =~= so_far.insert(seat, action@));
                            }
                        }
                    },
                    Some(i) => {
                        let step = self.put_question(i, legal, waiting, chosen);
                        proof {
                            assert(poll(before.engine, before.bots, all, so_far) == (Poll::Ask {
                                seat,
                                waiting: all.drop_first(),
                                chosen: so_far,
                            }));
                            assert(fit_to_ask(before.engine, rest, so_far));
                        }
                        return step;
                    },
                }
            }
        }
        let ghost all = chosen_views(chosen@);
        proof {
            assert(waiting@ =~= Seq::empty());
            assert(forall|s: u8| !waiting@.contains(s));
            assert(claim_window(before.engine.status()) ==> forall|s: u8|
                #[trigger] awaited_bot(before.engine.status(), s) ==> all.contains_key(s));
            assert forall|s: u8| #[trigger] chosen@.contains_key(s) implies s
                < before.engine.seats() by {
                assert(all.contains_key(s));
            }
        }
        let step = self.play(chosen);
        proof {
            assert(poll(before.engine, before.bots, Seq::empty(), all) == (Poll::Ready {
                chosen: all,
            }));
            if step is Collect {
                assert(before.engine.steps_to(all, self@.engine));
            }
        }
        step
    }
}

/// Whether the game waits for the human player.
pub open spec fn human_decides(status: StatusView) -> bool {
    match status.phase {
        Phase::WaitAct => status.current_player == HUMAN_SEAT,
        Phase::WaitResponse => status.active_players.contains(HUMAN_SEAT),
    }
}

/// The bots that decide together with the human player: in a claim window all that the engine
/// waits for, else none.
pub open spec fn claimants(status: StatusView) -> Seq<u8> {
    if status.phase is WaitResponse {
        bot_seats(status)
    } else {
        Seq::empty()
    }
}

/// The game when the table begins to go on by itself.
pub open spec fn set_going(game: GameView) -> GameView {
    GameView { message: None, budget: MAX_AUTO_STEPS as nat, ..game }
}

/// One round of going on without the human player, and what has to be done then.
pub open spec fn advances(game: GameView, after: GameView, step: StepView) -> bool {
    let status = game.engine.status();
    let seat = status.current_player;
    let going = GameView {
        round: RoundView::Idle,
        budget: (game.budget - 1) as nat,
        ..game
    };
    if game.budget == 0 {
        &&& after == game
        &&& step is Exceeded
    } else if status.is_done {
        &&& after == (GameView { latest_human_actions: Seq::empty(), ..going })
        &&& step is Rest
    } else if status.needs_initialize_next_round {
        &&& game.engine.steps_to(Map::empty(), after.engine)
        &&& after == (GameView { engine: after.engine, ..going })
        &&& step is Collect
    } else if human_decides(status) {
        &&& after == (GameView { latest_human_actions: game.engine.legal(HUMAN_SEAT), ..going })
        &&& step is Rest
    } else if status.phase is WaitAct {
        if game.engine.legal(seat).len() == 0 {
            &&& after == stalled(going, stuck_message(seat))
            &&& step is Rest
        } else {
            polled(going, seq![seat], Map::empty(), after, step)
        }
    } else {
        polled(going, bot_seats(status), Map::empty(), after, step)
    }
}

/// What an answer of the bot that is being asked makes of a game, and what has to be done then: its
/// turn is added to what has been chosen, and the others are asked on.
pub open spec fn answered(
    game: GameView,
    answer: Option<EventView>,
    after: GameView,
    step: StepView,
) -> bool {
    match game.round {
        RoundView::Idle => false,
        RoundView::Asking { seat, legal, waiting, chosen } => {
            &&& bot_turn(answer, seat, legal) is Some
            &&& polled(
                game,
                waiting,
                chosen.insert(seat, bot_turn(answer, seat, legal)->0),
                after,
                step,
            )
        },
    }
}

/// The first of the actions that has the identifier `id`.
pub open spec fn offered(actions: Seq<ActionView>, id: Seq<char>) -> Option<ActionView>
    decreases actions.len(),
{
    if actions.len() == 0 {
        None
    } else if id_of(actions[0]) == id {
        Some(actions[0])
    } else {
        offered(actions.drop_first(), id)
    }
}

/// What is chosen when the human player takes an action.
pub open spec fn human_choice(action: ActionView) -> Map<u8, ActionView> {
    Map::empty().insert(HUMAN_SEAT, action)
}

fn holds_seat(seats: &Vec<u8>, seat: u8) -> (r: bool)
    ensures
        r == seats@.contains(seat),
{
    let mut i: usize = 0;
    while i < seats.len()
        invariant
            i <= seats.len(),
            forall|k: int| 0 <= k < i ==> #[trigger] seats@[k] != seat,
        decreases seats.len() - i,
    {
        if seats[i] == seat {
            return true;
        }
        i += 1;
    }
    false
}

fn only_bots(active: Vec<u8>) -> (r: Vec<u8>)
    ensures
        r@ == active@.filter(|s: u8| s != HUMAN_SEAT),
{
    let mut r: Vec<u8> = Vec::new();
    let mut i: usize = 0;
    proof {
        reveal(Seq::filter);
    }
    while i < active.len()
        invariant
            i <= active.len(),
            r@ == active@.take(i as int).filter(|s: u8| s != HUMAN_SEAT),
        decreases active.len() - i,
    {
        proof {
            reveal(Seq::filter);
            assert(active@.take(i + 1).drop_last() =~= active@.take(i as int));
        }
        if active[i] != HUMAN_SEAT {
            r.push(active[i]);
        }
        i += 1;
    }
    proof {
        assert(active@.take(active.len() as int) =~= active@);
    }
    r
}

/// The seats that the engine waits for without the human one are those of the awaited bots.
pub proof fn lemma_bot_seats(status: StatusView)
    ensures
        forall|s: u8| #[trigger] awaited_bot(status, s) ==> bot_seats(status).contains(s),
        forall|i: int|
            0 <= i < bot_seats(status).len() ==> awaited_bot(status, #[trigger] bot_seats(status)[i]),
{
    broadcast use vstd::seq_lib::group_filter_ensures;

    let pred = |s: u8| s != HUMAN_SEAT;
    assert forall|s: u8| #[trigger] awaited_bot(status, s) implies bot_seats(status).contains(s) by {
        let i = choose|i: int| 0 <= i < status.active_players.len() && status.active_players[i] == s;
        assert(pred(status.active_players[i]));
    }
    assert forall|i: int| 0 <= i < bot_seats(status).len() implies awaited_bot(
        status,
        #[trigger] bot_seats(status)[i],
    ) by {
        let s = bot_seats(status)[i];
        assert(status.active_players.filter(pred).contains(s));
        status.active_players.lemma_filter_contains_rev(pred, s);
    }
}

fn find_offered(actions: &Vec<Action>, id: &str) -> (r: Option<Action>)
    ensures
        r.deep_view() == offered(actions.deep_view(), id@),
{
    let ghost views = actions.deep_view();
    let mut i: usize = 0;
    proof {
        assert(views.skip(0) =~= views);
    }
    while i < actions.len()
        invariant
            i <= actions.len(),
            views == actions.deep_view(),
            offered(views, id@) == offered(views.skip(i as int), id@),
        decreases actions.len() - i,
    {
        proof {
            assert(views.skip(i as int)[0] == actions[i as int]@);
            assert(views.skip(i as int).drop_first() =~= views.skip(i + 1));
        }
        if same_text(action_id(&actions[i]).as_str(), id) {
            return Some(actions[i].clone());
        }
        i += 1;
    }
    None
}

fn show_actions(actions: &Vec<Action>) -> (r: Vec<LocalActionView>)
    ensures
        r.deep_view() == actions.deep_view().map_values(|a: ActionView| shown(a)),
{
    let mut r: Vec<LocalActionView> = Vec::new();
    let mut i: usize = 0;
    while i < actions.len()
        invariant
            i <= actions.len(),
            r.len() == i,
            forall|k: int| 0 <= k < i ==> #[trigger] r[k]@ == shown(actions[k]@),
        decreases actions.len() - i,
    {
        r.push(local_action_view(&actions[i]));
        i += 1;
    }
    proof {
        assert(r.deep_view() =~= actions.deep_view().map_values(|a: ActionView| shown(a)));
    }
    r
}

impl LocalGame {
    /// Whether the game waits for the human player.
    pub fn human_has_decision(&self) -> (r: bool)
        requires
            self@.wf(),
        ensures
            r == human_decides(self@.engine.status()),
            self@.engine.status().phase is WaitAct ==> r == (
            self@.engine.status().current_player == HUMAN_SEAT),
            self@.engine.status().phase is WaitResponse ==> r
                == self@.engine.status().active_players.contains(HUMAN_SEAT),
    {
        match self.engine.phase() {
            Phase::WaitAct => self.engine.current_player() == HUMAN_SEAT,
            Phase::WaitResponse => holds_seat(&self.engine.active_players(), HUMAN_SEAT),
        }
    }

    fn awaited_bots(&self) -> (r: Vec<u8>)
        requires
            self@.engine.in_play(),
        ensures
            r@ == bot_seats(self@.engine.status()),
            fit_to_ask(self@.engine, r@, Map::empty()),
            forall|s: u8| #[trigger]
                awaited_bot(self@.engine.status(), s) ==> r@.contains(s),
    {
        let active = self.engine.active_players();
        let ghost all = active@;
        let r = only_bots(active);
        proof {
            let status = self@.engine.status();
            lemma_bot_seats(status);
            assert forall|i: int| 0 <= i < r.len() implies (#[trigger] r@[i])
                < self@.engine.seats() && r@[i] != HUMAN_SEAT by {
                assert(awaited_bot(status, bot_seats(status)[i]));
                assert(all.contains(r@[i]));
            }
        }
        r
    }

    /// Sets the game going: the message is cleared and the rounds are counted anew.
    pub fn begin_advance(&mut self)
        ensures
            final(self)@ == set_going(old(self)@),
    {
        self.message = None;
        self.budget = MAX_AUTO_STEPS;
    }

    /// Goes on for one round without the human player.
    pub fn advance(&mut self) -> (r: TableStep)
        requires
            old(self)@.wf(),
        ensures
            advances(old(self)@, final(self)@, r@),
            final(self)@.wf(),
            r is Collect && !old(self)@.engine.status().needs_initialize_next_round
                ==> plays_together(old(self)@.engine, final(self)@.engine, Map::empty()),
            r is Collect ==> plays_alone(old(self)@.engine, final(self)@.engine),
            r is Ask ==> automatic(final(self)@),
    {
        let step = self.advance_round();
        proof {
            law_round_is_played_alone(old(self)@, self@, step@);
        }
        step
    }

    fn advance_round(&mut self) -> (r: TableStep)
        requires
            old(self)@.wf(),
        ensures
            advances(old(self)@, final(self)@, r@),
            final(self)@.wf(),
            r is Collect && !old(self)@.engine.status().needs_initialize_next_round
                ==> plays_together(old(self)@.engine, final(self)@.engine, Map::empty()),
    {
        if self.budget == 0 {
            return TableStep::Exceeded;
        }
        self.budget = self.budget - 1;
        self.round = Round::Idle;
        if self.engine.is_done() {
            self.latest_human_actions.clear();
            proof {
                assert(self@.latest_human_actions =~= Seq::empty());
            }
            return TableStep::Rest;
        }
        let nothing: HashMap<u8, Action> = HashMap::new();
        proof {
            assert(chosen_views(nothing@) =~= Map::empty());
        }
        if self.engine.needs_initialize_next_round() {
            proof {
                assert(at_the_table(chosen_views(nothing@), self.engine.seats()) =~= Map::empty());
            }
            self.engine.step(&nothing);
            return TableStep::Collect;
        }
        if self.human_has_decision() {
            self.latest_human_actions = self.engine.legal_actions(HUMAN_SEAT);
            return TableStep::Rest;
        }
        match self.engine.phase() {
            Phase::WaitAct => {
                let seat: u8 = self.engine.current_player();
                let legal = self.engine.legal_actions(seat);
                proof {
                    assert(legal.deep_view().len() == legal.len());
                }
                if legal.len() == 0 {
                    let mut message = "bot at seat ".to_owned();
                    message.append(decimal_text(seat as usize).as_str());
                    message.append(" has no legal action");
                    self.message = Some(message);
                    self.latest_human_actions.clear();
                    proof {
                        assert(self@.latest_human_actions =~= Seq::empty());
                    }
                    return TableStep::Rest;
                }
                let mut waiting: Vec<u8> = Vec::new();
                waiting.push(seat);
                proof {
                    assert(waiting@ =~= seq![seat]);
                }
                self.ask_next(waiting, nothing)
            },
            Phase::WaitResponse => {
                let waiting = self.awaited_bots();
                self.ask_next(waiting, nothing)
            },
        }
    }

    /// Whether a bot is being asked.
    pub fn is_asking(&self) -> (r: bool)
        ensures
            r == (self@.round is Asking),
    {
        match &self.round {
            Round::Idle => false,
            Round::Asking { .. } => true,
        }
    }

    /// Takes the answer of the bot that is being asked, or its failure to answer, and asks on.
    pub fn answer(&mut self, resp: &Option<BotResponse>) -> (r: TableStep)
        requires
            old(self)@.wf(),
            old(self)@.round is Asking,
        ensures
            answered(old(self)@, answer_event(*resp), final(self)@, r@),
            r is Collect ==> plays_together(
                old(self)@.engine,
                final(self)@.engine,
                old(self)@.round->chosen,
            ),
            automatic(old(self)@) && r is Collect ==> plays_alone(
                old(self)@.engine,
                final(self)@.engine,
            ),
            automatic(old(self)@) && r is Ask ==> automatic(final(self)@),
            forall|action: ActionView| #[trigger]
                claiming(old(self)@, action) ==> {
                    &&& r is Ask || r is Collect
                    &&& r is Ask ==> claiming(final(self)@, action)
                    &&& r is Collect ==> plays_with(
                        old(self)@.engine,
                        final(self)@.engine,
                        action,
                    )
                },
            final(self)@.wf(),
    {
        broadcast use vstd::std_specs::hash::group_hash_axioms;

        let ghost before = self@;
        let mut round = Round::Idle;
        std::mem::swap(&mut round, &mut self.round);
        match round {
            Round::Asking { seat, legal, waiting, chosen } => {
                let ghost so_far = chosen_views(chosen@);
                let mut chosen = chosen;
                let choices = legal.as_slice();
                let turn = bot_turn_action(resp, choices, seat);
                proof {
                    assert(choices.deep_view() =~= legal.deep_view());
                    law_bot_turn_is_legal(answer_event(*resp), seat, legal.deep_view());
                }
                if let Some(action) = turn {
                    chosen.insert(seat, action);
                    proof {
                        assert(chosen_views(chosen@) =~= so_far.insert(seat, action@));
                    }
                }
                let step = self.ask_next(waiting, chosen);
                proof {
                    if automatic(before) {
                        law_answer_is_played_alone(before, answer_event(*resp), self@, step@);
                    }
                    assert forall|action: ActionView| #[trigger] claiming(before, action) implies {
                        &&& step is Ask || step is Collect
                        &&& step is Ask ==> claiming(self@, action)
                        &&& step is Collect ==> plays_with(before.engine, self@.engine, action)
                    } by {
                        law_claim_answer_is_played(
                            before,
                            action,
                            answer_event(*resp),
                            self@,
                            step@,
                        );
                    }
                }
                step
            },
            Round::Idle => TableStep::Rest,
        }
    }

    /// Takes an action of the human player. In a claim window the bots that the engine waits for are
    /// asked first, so that the engine decides between all claims at once.
    pub fn submit(&mut self, id: &str) -> (r: Result<TableStep, LocalGameError>)
        requires
            old(self)@.wf(),
        ensures
            match offered(old(self)@.latest_human_actions, id@) {
                None => r == Err::<TableStep, LocalGameError>(LocalGameError::ActionNotLegal)
                    && final(self)@ == old(self)@,
                Some(action) => r matches Ok(step) && {
                    &&& polled(
                        old(self)@,
                        claimants(old(self)@.engine.status()),
                        human_choice(action),
                        final(self)@,
                        step@,
                    )
                    &&& step is Collect ==> plays_together(
                        old(self)@.engine,
                        final(self)@.engine,
                        human_choice(action),
                    )
                    &&& step is Ask || step is Collect
                    &&& step is Ask ==> claiming(final(self)@, action)
                    &&& step is Collect ==> plays_with(
                        old(self)@.engine,
                        final(self)@.engine,
                        action,
                    )
                },
            },
            final(self)@.wf(),
    {
        broadcast use vstd::std_specs::hash::group_hash_axioms;

        match find_offered(&self.latest_human_actions, id) {
            None => Err(LocalGameError::ActionNotLegal),
            Some(action) => {
                let mut chosen: HashMap<u8, Action> = HashMap::new();
                chosen.insert(HUMAN_SEAT, action);
                proof {
                    assert(chosen_views(chosen@) =~= human_choice(action@));
                }
                let waiting = if self.engine.phase() == Phase::WaitResponse {
                    self.awaited_bots()
                } else {
                    Vec::new()
                };
                let step = self.ask_next(waiting, chosen);
                proof {
                    law_submission_is_played(old(self)@, action@, self@, step@);
                }
                Ok(step)
            },
        }
    }

    /// What the human player is shown of the game.
    pub fn show(&self) -> (r: LocalGameView)
        requires
            self@.wf(),
        ensures
            r@ == shown_game(self@),
    {
        LocalGameView {
            mode: self.mode,
            bot_4p: self.bot_4p.clone(),
            bot_3p: self.bot_3p.clone(),
            names: copy_texts(&self.names),
            snapshot: self.engine.snapshot(),
            legal_actions: show_actions(&self.latest_human_actions),
            message: match &self.message {
                Some(message) => Some(message.clone()),
                None => None,
            },
        }
    }
}

} // verus!
