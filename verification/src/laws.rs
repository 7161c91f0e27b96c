//! What holds of the table as a whole.

use vstd::prelude::*;
use crate::action::{fallback_of, shown, ActionView};
use crate::engine::{LocalEngine, SeatView, StatusView, TableView};
use crate::event::{hands_for, hidden, hidden_hand, seen_by, EventView};
use crate::id_laws::law_shown_is_offered;
use crate::manager::{bot_3p_for, bot_4p_for, is_prepared};
use crate::mode::{
    chosen_bot, LocalGameMode, LocalGameStartRequest, DEFAULT_3P_BOT, DEFAULT_4P_BOT, HUMAN_SEAT,
};
use crate::snapshot::seen_table;
use crate::table::{
    advances, bot_index, fed, fresh_bots, has_bot, idle_message, is_bot_at, offered,
    opening_event, playing_bot, poll, polled, question, questioned, stuck_message,
    GameView, Poll, SeatBotView, StepView, MAX_AUTO_STEPS,
};
use crate::text::{blank, decimal};
use crate::view::shown_game;

verus! {

/// Whether two events differ at most in what the player at `seat` may not see: the tiles of other
/// hands at the start of a round, the tile that another player draws, and to whom the start of a
/// game is addressed.
pub open spec fn alike_for(e: EventView, f: EventView, seat: u8) -> bool {
    match (e, f) {
        (
            EventView::StartGame { names, kyoku_first, aka_flag, num_players, .. },
            EventView::StartGame {
                names: names2,
                kyoku_first: kyoku_first2,
                aka_flag: aka_flag2,
                num_players: num_players2,
                ..
            },
        ) => {
            &&& names == names2
            &&& kyoku_first == kyoku_first2
            &&& aka_flag == aka_flag2
            &&& num_players == num_players2
        },
        (
            EventView::StartKyoku {
                bakaze,
                dora_marker,
                kyoku,
                honba,
                kyotaku,
                oya,
                scores,
                tehais,
                num_players,
            },
            EventView::StartKyoku {
                bakaze: bakaze2,
                dora_marker: dora_marker2,
                kyoku: kyoku2,
                honba: honba2,
                kyotaku: kyotaku2,
                oya: oya2,
                scores: scores2,
                tehais: tehais2,
                num_players: num_players2,
            },
        ) => {
            &&& bakaze == bakaze2
            &&& dora_marker == dora_marker2
            &&& kyoku == kyoku2
            &&& honba == honba2
            &&& kyotaku == kyotaku2
            &&& oya == oya2
            &&& scores == scores2
            &&& num_players == num_players2
            &&& tehais.len() == tehais2.len()
            &&& forall|i: int|
                0 <= i < tehais.len() ==> {
                    &&& (#[trigger] tehais[i]).len() == tehais2[i].len()
                    &&& i == seat ==> tehais[i] == tehais2[i]
                }
        },
        (
            EventView::Tsumo { actor, pai },
            EventView::Tsumo { actor: actor2, pai: pai2 },
        ) => {
            &&& actor == actor2
            &&& actor == seat ==> pai == pai2
        },
        _ => e == f,
    }
}

/// Nothing that a player may not see shows in what the player gets to see of an event: two events
/// that differ in nothing else look the same.
pub proof fn law_mask_hides(e: EventView, f: EventView, seat: u8)
    requires
        alike_for(e, f, seat),
    ensures
        seen_by(e, seat) == seen_by(f, seat),
{
    if let EventView::StartKyoku { tehais, .. } = e {
        if let EventView::StartKyoku { tehais: tehais2, .. } = f {
            assert forall|i: int| 0 <= i < tehais.len() implies #[trigger] hands_for(tehais, seat)[i]
                == hands_for(tehais2, seat)[i] by {
                assert(tehais[i].len() == tehais2[i].len());
                assert(hidden_hand(tehais[i]) =~= hidden_hand(tehais2[i]));
            }
            assert(hands_for(tehais, seat) =~= hands_for(tehais2, seat));
        }
    }
}

/// What a player sees of an event differs from it in nothing that the player may see, and seeing it
/// a second time changes nothing.
pub proof fn law_mask_keeps_the_rest(e: EventView, seat: u8)
    ensures
        alike_for(e, seen_by(e, seat), seat),
        seen_by(seen_by(e, seat), seat) == seen_by(e, seat),
{
    law_mask_hides(seen_by(e, seat), e, seat);
}

/// At the start of a round a player sees the own hand as it is, of every other hand the number of
/// its tiles and no tile; another player's draw is seen without its tile.
pub proof fn law_other_tiles_are_hidden(e: EventView, seat: u8)
    ensures
        e matches EventView::StartKyoku { tehais, .. } ==> (seen_by(
            e,
            seat,
        ) matches EventView::StartKyoku { tehais: shown, .. } && {
            &&& shown.len() == tehais.len()
            &&& forall|i: int|
                0 <= i < tehais.len() ==> {
                    &&& (#[trigger] shown[i]).len() == tehais[i].len()
                    &&& i == seat ==> shown[i] == tehais[i]
                    &&& i != seat ==> forall|k: int|
                        0 <= k < tehais[i].len() ==> #[trigger] shown[i][k] == hidden()
                }
        }),
        e matches EventView::Tsumo { actor, pai } ==> seen_by(e, seat) == (EventView::Tsumo {
            actor,
            pai: if actor == seat {
                pai
            } else {
                hidden()
            },
        }),
{
}

/// The event that opens a game's stream is what the human player may see of it.
pub proof fn law_opening_is_for_the_human(game: GameView)
    ensures
        seen_by(opening_event(game), HUMAN_SEAT) == opening_event(game),
{
}

/// Whether two tables differ at most in the tiles of hands that are not the viewer's.
pub open spec fn alike_but_hands(table: TableView, other: TableView, viewer: u8) -> bool {
    &&& table.seats.len() == other.seats.len()
    &&& other == (TableView { seats: other.seats, ..table })
    &&& forall|i: int|
        0 <= i < table.seats.len() ==> {
            &&& other.seats[i] == (SeatView { hand: other.seats[i].hand, ..table.seats[i] })
            &&& (#[trigger] other.seats[i]).hand.len() == table.seats[i].hand.len()
            &&& i == viewer ==> other.seats[i].hand == table.seats[i].hand
        }
}

/// Nothing of the other hands but their size shows in what a player is shown of the table.
pub proof fn law_snapshot_hides(status: StatusView, table: TableView, other: TableView, viewer: u8)
    requires
        alike_but_hands(table, other, viewer),
    ensures
        seen_table(status, table, viewer) == seen_table(status, other, viewer),
{
    let one = seen_table(status, table, viewer).seats;
    let two = seen_table(status, other, viewer).seats;
    assert forall|i: int| 0 <= i < one.len() implies #[trigger] one[i] == two[i] by {
        assert(other.seats[i].hand.len() == table.seats[i].hand.len());
    }
    assert(one =~= two);
}

/// Nothing of the bots' hands but their size shows in what the human player is shown of a game.
pub proof fn law_view_hides_hands(game: GameView, other: GameView)
    requires
        other == (GameView { engine: other.engine, ..game }),
        other.engine.status() == game.engine.status(),
        alike_but_hands(game.engine.table(), other.engine.table(), HUMAN_SEAT),
    ensures
        shown_game(game) == shown_game(other),
{
    law_snapshot_hides(
        game.engine.status(),
        game.engine.table(),
        other.engine.table(),
        HUMAN_SEAT,
    );
}

/// Whatever a game's view offers can be taken: by its identifier a legal action is found that is
/// shown the same way.
pub proof fn law_view_offers_what_can_be_taken(game: GameView, i: int)
    requires
        game.wf(),
        0 <= i < shown_game(game).legal_actions.len(),
    ensures
        offered(game.latest_human_actions, shown_game(game).legal_actions[i].id) matches Some(a)
            && game.latest_human_actions.contains(a) && shown(a) == shown_game(
            game,
        ).legal_actions[i],
{
    law_shown_is_offered(game.latest_human_actions, i);
}

/// The bots after they have been fed a list of events, one after the other.
pub open spec fn fed_all(bots: Seq<SeatBotView>, events: Seq<EventView>) -> Seq<SeatBotView>
    decreases events.len(),
{
    if events.len() == 0 {
        bots
    } else {
        fed(fed_all(bots, events.drop_last()), events.last())
    }
}

/// What the player at `seat` sees of a list of events.
pub open spec fn all_seen_by(events: Seq<EventView>, seat: u8) -> Seq<EventView> {
    events.map_values(|e: EventView| seen_by(e, seat))
}

/// Feeding a list of events keeps the bots at their seats, and leaves each with what it had to be
/// shown before, followed by what it may see of each event, in their order.
pub proof fn law_bots_are_fed_everything(bots: Seq<SeatBotView>, events: Seq<EventView>)
    ensures
        fed_all(bots, events).len() == bots.len(),
        forall|i: int|
            0 <= i < bots.len() ==> #[trigger] fed_all(bots, events)[i] == (SeatBotView {
                pending: bots[i].pending + all_seen_by(events, bots[i].seat),
                ..bots[i]
            }),
    decreases events.len(),
{
    if events.len() == 0 {
        assert forall|i: int| 0 <= i < bots.len() implies #[trigger] fed_all(bots, events)[i] == (
        SeatBotView {
            pending: bots[i].pending + all_seen_by(events, bots[i].seat),
            ..bots[i]
        }) by {
            assert(bots[i].pending + all_seen_by(events, bots[i].seat) =~= bots[i].pending);
        }
    } else {
        let front = events.drop_last();
        law_bots_are_fed_everything(bots, front);
        assert forall|i: int| 0 <= i < bots.len() implies #[trigger] fed_all(bots, events)[i] == (
        SeatBotView {
            pending: bots[i].pending + all_seen_by(events, bots[i].seat),
            ..bots[i]
        }) by {
            assert(fed_all(bots, front)[i].seat == bots[i].seat);
            assert((bots[i].pending + all_seen_by(front, bots[i].seat)).push(
                seen_by(events.last(), bots[i].seat),
            ) =~= bots[i].pending + all_seen_by(events, bots[i].seat));
        }
    }
}

proof fn lemma_same_seats(bots: Seq<SeatBotView>, others: Seq<SeatBotView>, seat: u8)
    requires
        bots.len() == others.len(),
        forall|i: int| 0 <= i < bots.len() ==> (#[trigger] others[i]).seat == bots[i].seat,
        has_bot(bots, seat),
    ensures
        has_bot(others, seat),
        bot_index(others, seat) == bot_index(bots, seat),
        is_bot_at(bots, seat, bot_index(bots, seat)),
{
    let i = bot_index(bots, seat);
    assert(is_bot_at(bots, seat, i));
    assert(others[i].seat == seat);
    assert(is_bot_at(others, seat, i));
    let k = bot_index(others, seat);
    assert(is_bot_at(others, seat, k));
    assert(others[k].seat == bots[k].seat);
    if k < i {
        assert(bots[k].seat != seat);
    }
    if i < k {
        assert(others[i].seat != seat);
    }
}

/// A bot is shown everything once: of two questions to it, the second holds what it may see of
/// exactly the events since the first, and the last of them is what it reacts to.
pub proof fn law_batch_is_what_came_since(
    game: GameView,
    seat: u8,
    waiting: Seq<u8>,
    chosen: Map<u8, ActionView>,
    events: Seq<EventView>,
)
    requires
        has_bot(game.bots, seat),
    ensures
        ({
            let asked = questioned(game, seat, waiting, chosen);
            let later = GameView { bots: fed_all(asked.bots, events), ..asked };
            question(later, seat) == (StepView::Ask {
                seat,
                name: game.bots[bot_index(game.bots, seat)].name,
                batch: all_seen_by(events, seat),
                trigger: if events.len() == 0 {
                    EventView::Nothing
                } else {
                    seen_by(events.last(), seat)
                },
            })
        }),
{
    let asked = questioned(game, seat, waiting, chosen);
    let i = bot_index(game.bots, seat);
    assert(is_bot_at(game.bots, seat, i));
    lemma_same_seats(game.bots, asked.bots, seat);
    law_bots_are_fed_everything(asked.bots, events);
    let later = fed_all(asked.bots, events);
    assert forall|k: int| 0 <= k < later.len() implies (#[trigger] later[k]).seat
        == asked.bots[k].seat by {}
    lemma_same_seats(asked.bots, later, seat);
    assert(later[i].pending =~= all_seen_by(events, seat));
}

/// A question to one bot takes nothing from what the others have to be shown.
pub proof fn law_question_is_to_one(
    game: GameView,
    seat: u8,
    waiting: Seq<u8>,
    chosen: Map<u8, ActionView>,
    i: int,
)
    requires
        has_bot(game.bots, seat),
        0 <= i < game.bots.len(),
        i != bot_index(game.bots, seat),
    ensures
        questioned(game, seat, waiting, chosen).bots[i] == game.bots[i],
{
    assert(is_bot_at(game.bots, seat, bot_index(game.bots, seat)));
}

/// Every seat but the human one is played by one bot.
pub proof fn law_everyone_sits(mode: LocalGameMode, name: Seq<char>)
    ensures
        fresh_bots(mode, name).len() == mode.seats() - 1,
        forall|s: u8| #[trigger]
            has_bot(fresh_bots(mode, name), s) <==> 0 < s < mode.seats(),
        forall|i: int, j: int|
            0 <= i < j < fresh_bots(mode, name).len() ==> (#[trigger] fresh_bots(
                mode,
                name,
            )[i]).seat != (#[trigger] fresh_bots(mode, name)[j]).seat,
{
    let bots = fresh_bots(mode, name);
    assert forall|s: u8| #[trigger] has_bot(bots, s) <==> 0 < s < mode.seats() by {
        if 0 < s < mode.seats() {
            let i = s - 1;
            assert(bots[i].seat == s);
            assert(is_bot_at(bots, s, i));
        }
        if has_bot(bots, s) {
            let i = choose|i: int| is_bot_at(bots, s, i);
            assert(bots[i].seat == s);
        }
    }
}

/// A bot is named: neither the bots of a request nor those of the configuration are taken where they
/// are blank.
pub proof fn law_bots_are_named(
    req: LocalGameStartRequest,
    active_4p: Seq<char>,
    active_3p: Seq<char>,
)
    ensures
        !blank(bot_4p_for(req, active_4p)),
        !blank(bot_3p_for(req, active_3p)),
{
    reveal_strlit("mortal");
    reveal_strlit("mortal3p");
    assert(DEFAULT_4P_BOT@[0] == 'm');
    assert(DEFAULT_3P_BOT@[0] == 'm');
}

/// The bot of the request goes before that of the configuration, and that before the given one.
pub proof fn law_bot_choice(requested: Seq<char>, configured: Seq<char>, fallback: Seq<char>)
    ensures
        !blank(requested) ==> chosen_bot(Some(requested), configured, fallback) == requested,
        blank(requested) ==> chosen_bot(Some(requested), configured, fallback) == chosen_bot(
            None,
            configured,
            fallback,
        ),
        !blank(configured) ==> chosen_bot(None, configured, fallback) == configured,
        blank(configured) ==> chosen_bot(None, configured, fallback) == fallback,
{
}

/// A game that is asked for is of the mode of the request, else of four-player east; its seats are
/// named, the first for the human player and the others after the bot of its number of players, with
/// the number of the seat.
pub proof fn law_prepared_game(
    game: GameView,
    req: LocalGameStartRequest,
    active_4p: Seq<char>,
    active_3p: Seq<char>,
)
    requires
        is_prepared(game, req, active_4p, active_3p),
    ensures
        req.mode is None ==> game.mode is FourEast,
        req.mode matches Some(mode) ==> game.mode == mode,
        game.names.len() == game.mode.seats(),
        game.names[HUMAN_SEAT as int] == "Player"@,
        forall|i: int|
            0 < i < game.names.len() ==> #[trigger] game.names[i] == playing_bot(
                game.mode,
                game.bot_4p,
                game.bot_3p,
            ) + " "@ + decimal(i as nat),
{
}

/// Lines of the log that have been collected are not collected again, and none is left out: what is
/// collected from two engines in a row is what would have been collected from the second alone.
pub proof fn law_log_is_collected_once(
    first: LocalEngine,
    actions: Map<u8, ActionView>,
    second: LocalEngine,
    emitted: nat,
)
    requires
        first.steps_to(actions, second),
        emitted <= first.log().len(),
    ensures
        first.log().skip(emitted as int) + second.log().skip(first.log().len() as int)
            == second.log().skip(emitted as int),
{
    assert(first.log() =~= second.log().take(first.log().len() as int));
    assert(first.log().skip(emitted as int) + second.log().skip(first.log().len() as int)
        =~= second.log().skip(emitted as int));
}

/// Who is asked is one of those to be asked, has something to choose from, and is a bot.
pub proof fn law_asked_is_a_waiting_bot(
    engine: LocalEngine,
    bots: Seq<SeatBotView>,
    waiting: Seq<u8>,
    chosen: Map<u8, ActionView>,
)
    ensures
        poll(engine, bots, waiting, chosen) matches Poll::Ask { seat, .. } ==> {
            &&& waiting.contains(seat)
            &&& engine.legal(seat).len() > 0
            &&& has_bot(bots, seat)
            &&& is_bot_at(bots, seat, bot_index(bots, seat))
        },
    decreases waiting.len(),
{
    if waiting.len() > 0 {
        let seat = waiting[0];
        let rest = waiting.drop_first();
        law_asked_is_a_waiting_bot(engine, bots, rest, chosen);
        law_asked_is_a_waiting_bot(
            engine,
            bots,
            rest,
            chosen.insert(seat, fallback_of(engine.legal(seat))->0),
        );
        assert forall|s: u8| rest.contains(s) implies waiting.contains(s) by {
            let i = choose|i: int| 0 <= i < rest.len() && rest[i] == s;
            assert(waiting[i + 1] == s);
        }
    }
}

/// What has been chosen for a seat that is not to be asked any more stays chosen while the others
/// are asked; so does the human player's action until the engine plays all actions together.
pub proof fn law_choice_is_kept(
    engine: LocalEngine,
    bots: Seq<SeatBotView>,
    waiting: Seq<u8>,
    chosen: Map<u8, ActionView>,
    s: u8,
)
    requires
        chosen.contains_key(s),
        !waiting.contains(s),
    ensures
        match poll(engine, bots, waiting, chosen) {
            Poll::Ask { waiting: rest, chosen: so_far, .. } => {
                &&& so_far.contains_key(s) && so_far[s] == chosen[s]
                &&& !rest.contains(s)
            },
            Poll::Ready { chosen: all } => all.contains_key(s) && all[s] == chosen[s],
        },
    decreases waiting.len(),
{
    if waiting.len() > 0 {
        let seat = waiting[0];
        let rest = waiting.drop_first();
        assert(waiting.contains(seat));
        assert forall|t: u8| rest.contains(t) implies waiting.contains(t) by {
            let i = choose|i: int| 0 <= i < rest.len() && rest[i] == t;
            assert(waiting[i + 1] == t);
        }
        law_choice_is_kept(engine, bots, rest, chosen, s);
        law_choice_is_kept(
            engine,
            bots,
            rest,
            chosen.insert(seat, fallback_of(engine.legal(seat))->0),
            s,
        );
    }
}

/// Asking changes nothing of a game but who is being asked, what the asked bot has to be shown, the
/// engine, and the message and the offer where the game stalls.
pub proof fn law_asking_keeps(
    game: GameView,
    waiting: Seq<u8>,
    chosen: Map<u8, ActionView>,
    after: GameView,
    step: StepView,
)
    requires
        polled(game, waiting, chosen, after, step),
    ensures
        after == (GameView {
            engine: after.engine,
            bots: after.bots,
            round: after.round,
            message: after.message,
            latest_human_actions: after.latest_human_actions,
            ..game
        }),
        after.bots.len() == game.bots.len(),
        forall|i: int|
            0 <= i < game.bots.len() ==> (#[trigger] after.bots[i]).seat == game.bots[i].seat
                && after.bots[i].name == game.bots[i].name,
        step is Ask <==> after.round is Asking,
        !(step is Ask) ==> after.bots == game.bots,
        !(step is Collect) ==> after.engine == game.engine,
        !(step is Rest) ==> after.message == game.message && after.latest_human_actions
            == game.latest_human_actions,
        !(step is Exceeded),
{
    law_asked_is_a_waiting_bot(game.engine, game.bots, waiting, chosen);
}

/// Whether the game waits for the human player, and nothing else comes first.
pub open spec fn waits_for_human(game: GameView) -> bool {
    let status = game.engine.status();
    &&& !status.is_done
    &&& !status.needs_initialize_next_round
    &&& status.phase is WaitAct ==> status.current_player == HUMAN_SEAT
    &&& status.phase is WaitResponse ==> status.active_players.contains(HUMAN_SEAT)
}

/// A game that rests, in whatever round, has moved nothing. The human player is offered exactly the
/// legal actions where the game waits for one, and nothing where it is over or stalled. A stalled game
/// says why: the player to act cannot, or nobody claims; else the message stays.
pub proof fn law_rest(game: GameView, after: GameView, step: StepView)
    requires
        advances(game, after, step),
        step is Rest,
    ensures
        after.engine == game.engine,
        waits_for_human(game) ==> after.latest_human_actions == game.engine.legal(HUMAN_SEAT),
        !waits_for_human(game) ==> after.latest_human_actions == Seq::<ActionView>::empty(),
        after.message == if waits_for_human(game) || game.engine.status().is_done {
            game.message
        } else if game.engine.status().phase is WaitAct {
            Some(stuck_message(game.engine.status().current_player))
        } else {
            Some(idle_message())
        },
{
    let seat = game.engine.status().current_player;
    assert(seq![seat].drop_first() =~= Seq::empty());
    reveal_with_fuel(poll, 2);
}

/// The table never plays on over the head of the human player: while the game waits for one, a round
/// moves nothing and offers the legal actions. (Where the next round has to be dealt first, the table
/// has it dealt, whoever is to act then.)
pub proof fn law_human_is_waited_for(game: GameView, after: GameView, step: StepView)
    requires
        advances(game, after, step),
        waits_for_human(game),
    ensures
        after.engine == game.engine,
        game.budget > 0 ==> step is Rest && after.latest_human_actions == game.engine.legal(
            HUMAN_SEAT,
        ),
        game.budget == 0 ==> step is Exceeded,
{
}

/// A round after which the game does not rest leaves the message and the offer as they were.
pub proof fn law_round_keeps_the_message(game: GameView, after: GameView, step: StepView)
    requires
        advances(game, after, step),
        !(step is Rest),
    ensures
        after.message == game.message,
        after.latest_human_actions == game.latest_human_actions,
{
}

/// One round of going on, at the number of rounds that are left.
pub ghost struct Going {
    pub before: GameView,
    pub after: GameView,
    pub step: StepView,
}

/// Whether rounds follow each other within one going on: each is a round, none is refused, and
/// between two of them the rounds that are left are not counted.
pub open spec fn goes_on(rounds: Seq<Going>) -> bool {
    &&& forall|i: int|
        0 <= i < rounds.len() ==> {
            &&& advances((#[trigger] rounds[i]).before, rounds[i].after, rounds[i].step)
            &&& !(rounds[i].step is Exceeded)
        }
    &&& forall|i: int|
        0 < i < rounds.len() ==> (#[trigger] rounds[i]).before.budget
            == rounds[i - 1].after.budget
}

/// The table goes on at most `MAX_AUTO_STEPS` times without the human player: that many rounds from
/// the start, and the next is refused.
pub proof fn law_going_on_ends(rounds: Seq<Going>)
    requires
        goes_on(rounds),
        rounds.len() > 0,
        rounds[0].before.budget == MAX_AUTO_STEPS,
    ensures
        rounds.len() <= MAX_AUTO_STEPS,
        rounds.last().after.budget == MAX_AUTO_STEPS - rounds.len(),
    decreases rounds.len(),
{
    let n = rounds.len() - 1;
    assert(advances(rounds[n].before, rounds[n].after, rounds[n].step));
    law_round_is_counted(rounds[n].before, rounds[n].after, rounds[n].step);
    if n > 0 {
        let front = rounds.drop_last();
        assert forall|i: int| 0 <= i < front.len() implies #[trigger] front[i] == rounds[i] by {}
        assert(goes_on(front));
        law_going_on_ends(front);
        assert(rounds[n].before.budget == rounds[n - 1].after.budget);
    }
}

/// A round is refused exactly where none is left, and changes nothing then; any other round counts.
pub proof fn law_round_is_counted(game: GameView, after: GameView, step: StepView)
    requires
        advances(game, after, step),
    ensures
        step is Exceeded <==> game.budget == 0,
        step is Exceeded ==> after == game,
        !(step is Exceeded) ==> after.budget + 1 == game.budget,
{
}

} // verus!
