//! What the table hands to the engine when it goes on without the human player.

use vstd::prelude::*;
use crate::action::{fallback_of, law_fallback_is_legal, ActionView};
use crate::engine::LocalEngine;
use crate::event::EventView;
use crate::mode::HUMAN_SEAT;
use crate::response::{bot_turn, law_bot_turn_is_legal};
use crate::table::{
    advances, answered, awaited_bot, bot_seats, human_decides, lemma_bot_seats, poll, polled,
    GameView, Poll, RoundView, SeatBotView, StepView,
};

verus! {

/// Whether the engine waits for the bot at `s` and it has something to choose from: as the player to
/// act, or as one of those who may claim.
pub open spec fn due(engine: LocalEngine, s: u8) -> bool {
    let status = engine.status();
    &&& engine.legal(s).len() > 0
    &&& if status.phase is WaitAct {
        s == status.current_player && s != HUMAN_SEAT
    } else {
        awaited_bot(status, s)
    }
}

/// Whether `all` is what the table hands to the engine on its own. It holds no action of the human
/// player and legal ones only. It is empty exactly where the next round has to be dealt; else it
/// holds that of the player to act alone, or those of exactly the players whose claims are waited for
/// and who have something to choose from; the human player is none of them.
pub open spec fn handed_alone(engine: LocalEngine, all: Map<u8, ActionView>) -> bool {
    &&& !all.contains_key(HUMAN_SEAT)
    &&& forall|s: u8| #[trigger] all.contains_key(s) ==> engine.legal(s).contains(all[s])
    &&& all.is_empty() <==> engine.status().needs_initialize_next_round
    &&& !engine.status().needs_initialize_next_round && engine.status().phase is WaitAct ==> {
        &&& engine.status().current_player != HUMAN_SEAT
        &&& all.dom() == set![engine.status().current_player]
    }
    &&& !engine.status().needs_initialize_next_round && engine.status().phase is WaitResponse ==> {
        &&& !engine.status().active_players.contains(HUMAN_SEAT)
        &&& forall|s: u8| #[trigger]
            all.contains_key(s) <==> engine.status().active_players.contains(s) && engine.legal(
                s,
            ).len() > 0
    }
}

/// Whether the engine has come from `before` to `after` on what the table hands to it on its own.
pub open spec fn plays_alone(before: LocalEngine, after: LocalEngine) -> bool {
    exists|all: Map<u8, ActionView>| #[trigger]
        before.steps_to(all, after) && handed_alone(before, all)
}

/// Whether the seats of `waiting` and those of `chosen` are part of a round that the table plays on
/// its own: what has been chosen is legal, and those who have chosen or are to be asked are the bots
/// that the engine waits for, `asked` among them.
pub open spec fn fit_alone(
    engine: LocalEngine,
    waiting: Seq<u8>,
    chosen: Map<u8, ActionView>,
    asked: Option<u8>,
) -> bool {
    &&& forall|s: u8| #[trigger]
        chosen.contains_key(s) ==> due(engine, s) && engine.legal(s).contains(chosen[s])
    &&& forall|i: int|
        0 <= i < waiting.len() && engine.legal(waiting[i]).len() > 0 ==> due(
            engine,
            #[trigger] waiting[i],
        )
    &&& asked matches Some(s) ==> due(engine, s)
    &&& forall|s: u8| #[trigger]
        due(engine, s) ==> chosen.contains_key(s) || waiting.contains(s) || asked == Some(s)
}

/// Whether a bot is being asked in a round that the table plays on its own.
pub open spec fn automatic(game: GameView) -> bool {
    let status = game.engine.status();
    &&& !status.is_done
    &&& !status.needs_initialize_next_round
    &&& !human_decides(status)
    &&& match game.round {
        RoundView::Idle => false,
        RoundView::Asking { seat, legal, waiting, chosen } => {
            &&& legal == game.engine.legal(seat)
            &&& fit_alone(game.engine, waiting, chosen, Some(seat))
        },
    }
}

proof fn lemma_poll_alone(
    engine: LocalEngine,
    bots: Seq<SeatBotView>,
    waiting: Seq<u8>,
    chosen: Map<u8, ActionView>,
)
    requires
        fit_alone(engine, waiting, chosen, None),
    ensures
        match poll(engine, bots, waiting, chosen) {
            Poll::Ask { seat, waiting: rest, chosen: so_far } => fit_alone(
                engine,
                rest,
                so_far,
                Some(seat),
            ),
            Poll::Ready { chosen: all } => fit_alone(engine, Seq::empty(), all, None),
        },
    decreases waiting.len(),
{
    if waiting.len() == 0 {
        assert(waiting =~= Seq::empty());
    } else {
        let seat = waiting[0];
        let rest = waiting.drop_first();
        assert forall|i: int| 0 <= i < rest.len() && engine.legal(rest[i]).len() > 0 implies due(
            engine,
            #[trigger] rest[i],
        ) by {
            assert(rest[i] == waiting[i + 1]);
        }
        assert forall|s: u8| waiting.contains(s) implies s == seat || rest.contains(s) by {
            let i = choose|i: int| 0 <= i < waiting.len() && waiting[i] == s;
            if i > 0 {
                assert(rest[i - 1] == s);
            }
        }
        if engine.legal(seat).len() == 0 {
            assert(fit_alone(engine, rest, chosen, None));
            lemma_poll_alone(engine, bots, rest, chosen);
        } else {
            assert(due(engine, waiting[0]));
            law_fallback_is_legal(engine.legal(seat));
            let more = chosen.insert(seat, fallback_of(engine.legal(seat))->0);
            assert(fit_alone(engine, rest, more, None));
            lemma_poll_alone(engine, bots, rest, more);
        }
    }
}

proof fn lemma_polled_alone(
    game: GameView,
    waiting: Seq<u8>,
    chosen: Map<u8, ActionView>,
    after: GameView,
    step: StepView,
)
    requires
        !game.engine.status().is_done,
        !game.engine.status().needs_initialize_next_round,
        !human_decides(game.engine.status()),
        fit_alone(game.engine, waiting, chosen, None),
        polled(game, waiting, chosen, after, step),
    ensures
        step is Ask ==> automatic(after),
        step is Collect ==> plays_alone(game.engine, after.engine),
{
    lemma_poll_alone(game.engine, game.bots, waiting, chosen);
    if let Poll::Ready { chosen: all } = poll(game.engine, game.bots, waiting, chosen) {
        if !all.is_empty() {
            assert forall|s: u8| #[trigger] due(game.engine, s) implies s != HUMAN_SEAT by {}
            assert(forall|s: u8| !Seq::<u8>::empty().contains(s));
            assert(forall|s: u8| #[trigger] all.contains_key(s) <==> due(game.engine, s));
            if game.engine.status().phase is WaitAct {
                let s = choose|s: u8| all.dom().contains(s);
                assert(all.contains_key(s));
                assert(all.dom() =~= set![game.engine.status().current_player]);
            }
            assert(handed_alone(game.engine, all));
            assert(game.engine.steps_to(all, after.engine));
        }
    }
}

/// A round without the human player that moves the engine hands it nothing where the next round has to
/// be dealt, and else a legal action of each bot that it waits for, and of nobody else. Where a bot is
/// asked first, its round is one of those.
pub proof fn law_round_is_played_alone(game: GameView, after: GameView, step: StepView)
    requires
        advances(game, after, step),
    ensures
        step is Ask ==> automatic(after) && after.engine == game.engine,
        step is Collect ==> plays_alone(game.engine, after.engine),
{
    let status = game.engine.status();
    let seat = status.current_player;
    let nothing = Map::<u8, ActionView>::empty();
    let going = GameView { round: RoundView::Idle, budget: (game.budget - 1) as nat, ..game };
    if game.budget == 0 || status.is_done {
    } else if status.needs_initialize_next_round {
        assert(handed_alone(game.engine, nothing));
        assert(game.engine.steps_to(nothing, after.engine));
    } else if human_decides(status) {
    } else if status.phase is WaitAct {
        if game.engine.legal(seat).len() > 0 {
            let waiting = seq![seat];
            assert(waiting[0] == seat);
            assert(waiting.contains(seat));
            assert(fit_alone(game.engine, waiting, nothing, None));
            lemma_polled_alone(going, waiting, nothing, after, step);
        }
    } else {
        lemma_bot_seats(status);
        assert(fit_alone(game.engine, bot_seats(status), nothing, None));
        lemma_polled_alone(going, bot_seats(status), nothing, after, step);
    }
}

/// Asking on in a round that the table plays on its own, whatever the bot answers, leaves it such a
/// round, until the engine is handed a legal action of each bot that it waits for, and of nobody else.
pub proof fn law_answer_is_played_alone(
    game: GameView,
    answer: Option<EventView>,
    after: GameView,
    step: StepView,
)
    requires
        automatic(game),
        answered(game, answer, after, step),
    ensures
        step is Ask ==> automatic(after) && after.engine == game.engine,
        step is Collect ==> plays_alone(game.engine, after.engine),
        step is Ask || step is Collect,
{
    if let RoundView::Asking { seat, legal, waiting, chosen } = game.round {
        law_bot_turn_is_legal(answer, seat, legal);
        let more = chosen.insert(seat, bot_turn(answer, seat, legal)->0);
        assert(fit_alone(game.engine, waiting, more, None));
        lemma_polled_alone(game, waiting, more, after, step);
        lemma_poll_alone(game.engine, game.bots, waiting, more);
        assert(more.contains_key(seat));
        lemma_due_is_not_left_out(game.engine, game.bots, waiting, more, seat);
    }
}

proof fn lemma_due_is_not_left_out(
    engine: LocalEngine,
    bots: Seq<SeatBotView>,
    waiting: Seq<u8>,
    chosen: Map<u8, ActionView>,
    s: u8,
)
    requires
        chosen.contains_key(s),
    ensures
        poll(engine, bots, waiting, chosen) matches Poll::Ready { chosen: all }
            ==> all.contains_key(s) && !all.is_empty(),
    decreases waiting.len(),
{
    if waiting.len() > 0 {
        let seat = waiting[0];
        let rest = waiting.drop_first();
        lemma_due_is_not_left_out(engine, bots, rest, chosen, s);
        lemma_due_is_not_left_out(
            engine,
            bots,
            rest,
            chosen.insert(seat, fallback_of(engine.legal(seat))->0),
            s,
        );
    } else {
        assert(chosen.dom().contains(s));
    }
}

/// Whether the answer of one bot leads to the question to the next.
pub open spec fn asks_on(game: GameView, answer: Option<EventView>, after: GameView) -> bool {
    exists|step: StepView| step is Ask && #[trigger] answered(game, answer, after, step)
}

/// Whether a round of the table's own asks one bot after the other: `games` are the games in which
/// they are asked, and `answers` what all but the last of them answer.
pub open spec fn asks_through(games: Seq<GameView>, answers: Seq<Option<EventView>>) -> bool {
    &&& games.len() > 0
    &&& answers.len() == games.len() - 1
    &&& forall|i: int|
        0 <= i < answers.len() ==> asks_on(games[i], #[trigger] answers[i], games[i + 1])
}

/// However many bots are asked in a round that the table plays on its own, and whatever they answer:
/// the engine, which has not moved since the round began, is handed a legal action of each bot that it
/// waits for, and of nobody else.
pub proof fn law_automatic_round(
    start: GameView,
    first: StepView,
    games: Seq<GameView>,
    answers: Seq<Option<EventView>>,
    answer: Option<EventView>,
    after: GameView,
    step: StepView,
)
    requires
        asks_through(games, answers),
        advances(start, games[0], first),
        first is Ask,
        answered(games.last(), answer, after, step),
    ensures
        step is Ask || step is Collect,
        step is Ask ==> automatic(after) && after.engine == start.engine,
        step is Collect ==> plays_alone(start.engine, after.engine),
{
    law_round_is_played_alone(start, games[0], first);
    lemma_asked_through(start.engine, games, answers);
    law_answer_is_played_alone(games.last(), answer, after, step);
}

proof fn lemma_asked_through(
    engine: LocalEngine,
    games: Seq<GameView>,
    answers: Seq<Option<EventView>>,
)
    requires
        asks_through(games, answers),
        automatic(games[0]),
        games[0].engine == engine,
    ensures
        automatic(games.last()),
        games.last().engine == engine,
    decreases games.len(),
{
    if games.len() > 1 {
        let front = games.drop_last();
        let before = answers.drop_last();
        let n = before.len() as int;
        assert forall|i: int| 0 <= i < before.len() implies asks_on(
            front[i],
            #[trigger] before[i],
            front[i + 1],
        ) by {
            assert(before[i] == answers[i]);
        }
        lemma_asked_through(engine, front, before);
        assert(front.last() == games[n]);
        let answer = answers[n];
        assert(asks_on(games[n], answer, games[n + 1]));
        let step = choose|step: StepView|
            step is Ask && #[trigger] answered(games[n], answer, games[n + 1], step);
        law_answer_is_played_alone(games[n], answer, games[n + 1], step);
    }
}

} // verus!
