//! What the table hands to the engine when the human player has taken an action.

use vstd::prelude::*;
use crate::action::{fallback_of, law_fallback_is_legal, ActionView};
use crate::auto_laws::{asks_on, asks_through};
use crate::engine::LocalEngine;
use crate::event::EventView;
use crate::mode::HUMAN_SEAT;
use crate::response::{bot_turn, law_bot_turn_is_legal};
use crate::table::{
    answered, claimants, human_choice, lemma_bot_seats, poll, polled, GameView, Poll,
    RoundView, SeatBotView, StepView,
};

verus! {

/// Whether the bot at `s` decides together with the human player: claims are waited for, its own
/// among them, and it has something to choose from.
pub open spec fn joins(engine: LocalEngine, s: u8) -> bool {
    &&& engine.status().phase is WaitResponse
    &&& engine.status().active_players.contains(s)
    &&& s != HUMAN_SEAT
    &&& engine.legal(s).len() > 0
}

/// Whether `all` is what the engine is handed when the human player has taken `action`: that action
/// and a legal one of each bot that decides together with the human player, and nothing else.
pub open spec fn handed_with(
    engine: LocalEngine,
    all: Map<u8, ActionView>,
    action: ActionView,
) -> bool {
    &&& forall|s: u8| #[trigger] all.contains_key(s) <==> s == HUMAN_SEAT || joins(engine, s)
    &&& all[HUMAN_SEAT] == action
    &&& forall|s: u8|
        s != HUMAN_SEAT && #[trigger] all.contains_key(s) ==> engine.legal(s).contains(all[s])
}

/// Whether the engine has come from `before` to `after` on `action` of the human player and the
/// actions of those who decide together with them.
pub open spec fn plays_with(before: LocalEngine, after: LocalEngine, action: ActionView) -> bool {
    exists|all: Map<u8, ActionView>| #[trigger]
        before.steps_to(all, after) && handed_with(before, all, action)
}

/// Whether the seats of `waiting` and those of `chosen` are part of a round in which the human player
/// has taken `action`: it has been chosen, what has been chosen else is legal, and those who have
/// chosen or are to be asked are the bots that decide together with the human player, `asked` among
/// them.
pub open spec fn fit_with(
    engine: LocalEngine,
    action: ActionView,
    waiting: Seq<u8>,
    chosen: Map<u8, ActionView>,
    asked: Option<u8>,
) -> bool {
    &&& chosen.contains_key(HUMAN_SEAT) && chosen[HUMAN_SEAT] == action
    &&& forall|s: u8|
        s != HUMAN_SEAT && #[trigger] chosen.contains_key(s) ==> joins(engine, s) && engine.legal(
            s,
        ).contains(chosen[s])
    &&& forall|i: int|
        0 <= i < waiting.len() && engine.legal(waiting[i]).len() > 0 ==> joins(
            engine,
            #[trigger] waiting[i],
        )
    &&& asked matches Some(s) ==> joins(engine, s)
    &&& forall|s: u8| #[trigger]
        joins(engine, s) ==> chosen.contains_key(s) || waiting.contains(s) || asked == Some(s)
}

/// Whether a bot is being asked in a round in which the human player has taken `action`.
pub open spec fn claiming(game: GameView, action: ActionView) -> bool {
    match game.round {
        RoundView::Idle => false,
        RoundView::Asking { seat, legal, waiting, chosen } => {
            &&& legal == game.engine.legal(seat)
            &&& fit_with(game.engine, action, waiting, chosen, Some(seat))
        },
    }
}

proof fn lemma_poll_with(
    engine: LocalEngine,
    bots: Seq<SeatBotView>,
    action: ActionView,
    waiting: Seq<u8>,
    chosen: Map<u8, ActionView>,
)
    requires
        fit_with(engine, action, waiting, chosen, None),
    ensures
        match poll(engine, bots, waiting, chosen) {
            Poll::Ask { seat, waiting: rest, chosen: so_far } => fit_with(
                engine,
                action,
                rest,
                so_far,
                Some(seat),
            ),
            Poll::Ready { chosen: all } => fit_with(engine, action, Seq::empty(), all, None),
        },
    decreases waiting.len(),
{
    if waiting.len() == 0 {
        assert(waiting =~= Seq::empty());
    } else {
        let seat = waiting[0];
        let rest = waiting.drop_first();
        assert forall|i: int| 0 <= i < rest.len() && engine.legal(rest[i]).len() > 0 implies joins(
            engine,
            #[trigger] rest[i],
        ) by {
            assert(rest[i] == waiting[i + 1]);
        }
        assert forall|s: u8| waiting.contains(s) implies s == seat || rest.contains(s) by {
            let i = choose|i: int| 0 <= i < waiting.len() && waiting[i] == s;
            if i > 0 {
                assert(rest[i - 1] == s);
            }
        }
        if engine.legal(seat).len() == 0 {
            assert(fit_with(engine, action, rest, chosen, None));
            lemma_poll_with(engine, bots, action, rest, chosen);
        } else {
            assert(joins(engine, waiting[0]));
            law_fallback_is_legal(engine.legal(seat));
            let more = chosen.insert(seat, fallback_of(engine.legal(seat))->0);
            assert(fit_with(engine, action, rest, more, None));
            lemma_poll_with(engine, bots, action, rest, more);
        }
    }
}

proof fn lemma_polled_with(
    game: GameView,
    action: ActionView,
    waiting: Seq<u8>,
    chosen: Map<u8, ActionView>,
    after: GameView,
    step: StepView,
)
    requires
        fit_with(game.engine, action, waiting, chosen, None),
        polled(game, waiting, chosen, after, step),
    ensures
        step is Ask || step is Collect,
        step is Ask ==> claiming(after, action) && after.engine == game.engine,
        step is Collect ==> plays_with(game.engine, after.engine, action),
{
    lemma_poll_with(game.engine, game.bots, action, waiting, chosen);
    if let Poll::Ready { chosen: all } = poll(game.engine, game.bots, waiting, chosen) {
        assert(all.dom().contains(HUMAN_SEAT));
        assert(forall|s: u8| !Seq::<u8>::empty().contains(s));
        assert(handed_with(game.engine, all, action));
        assert(game.engine.steps_to(all, after.engine));
    }
}

/// An action of the human player is never left without consequence: the bots that decide together with
/// the human player are asked, and where none has to be asked the engine is handed that action and a
/// legal one of each of them, and nothing else. With a player to act that is the action alone.
pub proof fn law_submission_is_played(
    game: GameView,
    action: ActionView,
    after: GameView,
    step: StepView,
)
    requires
        polled(game, claimants(game.engine.status()), human_choice(action), after, step),
    ensures
        step is Ask || step is Collect,
        step is Ask ==> claiming(after, action) && after.engine == game.engine,
        step is Collect ==> plays_with(game.engine, after.engine, action),
        game.engine.status().phase is WaitAct ==> step is Collect && game.engine.steps_to(
            human_choice(action),
            after.engine,
        ),
{
    let status = game.engine.status();
    let waiting = claimants(status);
    lemma_bot_seats(status);
    assert(fit_with(game.engine, action, waiting, human_choice(action), None));
    lemma_polled_with(game, action, waiting, human_choice(action), after, step);
    if status.phase is WaitAct {
        assert(human_choice(action).dom().contains(HUMAN_SEAT));
    }
}

/// Asking on in a round in which the human player has taken an action, whatever the bot answers, leaves
/// it such a round, until the engine is handed that action and a legal one of each bot that decides
/// together with the human player, and nothing else.
pub proof fn law_claim_answer_is_played(
    game: GameView,
    action: ActionView,
    answer: Option<EventView>,
    after: GameView,
    step: StepView,
)
    requires
        claiming(game, action),
        answered(game, answer, after, step),
    ensures
        step is Ask || step is Collect,
        step is Ask ==> claiming(after, action) && after.engine == game.engine,
        step is Collect ==> plays_with(game.engine, after.engine, action),
{
    if let RoundView::Asking { seat, legal, waiting, chosen } = game.round {
        law_bot_turn_is_legal(answer, seat, legal);
        let more = chosen.insert(seat, bot_turn(answer, seat, legal)->0);
        assert(fit_with(game.engine, action, waiting, more, None));
        lemma_polled_with(game, action, waiting, more, after, step);
    }
}

proof fn lemma_asked_through(
    engine: LocalEngine,
    action: ActionView,
    games: Seq<GameView>,
    answers: Seq<Option<EventView>>,
)
    requires
        asks_through(games, answers),
        claiming(games[0], action),
        games[0].engine == engine,
    ensures
        claiming(games.last(), action),
        games.last().engine == engine,
    decreases games.len(),
{
    if games.len() > 1 {
        let front = games.drop_last();
        let before = answers.drop_last();
        let n = before.len() as int;
        assert forall|i: int| 0 <= i < before.len() implies asks_on(
            front[i],
            #[trigger] before[i],
            front[i + 1],
        ) by {
            assert(before[i] == answers[i]);
        }
        lemma_asked_through(engine, action, front, before);
        assert(front.last() == games[n]);
        let answer = answers[n];
        assert(asks_on(games[n], answer, games[n + 1]));
        let step = choose|step: StepView|
            step is Ask && #[trigger] answered(games[n], answer, games[n + 1], step);
        law_claim_answer_is_played(games[n], action, answer, games[n + 1], step);
    }
}

/// However many bots are asked after the human player has taken an action, and whatever they answer:
/// the engine, which has not moved since, is handed that action and a legal one of each bot whose claim
/// it waits for and that has something to choose from, all together, and nothing else.
pub proof fn law_submitted_round(
    start: GameView,
    action: ActionView,
    first: StepView,
    games: Seq<GameView>,
    answers: Seq<Option<EventView>>,
    answer: Option<EventView>,
    after: GameView,
    step: StepView,
)
    requires
        asks_through(games, answers),
        polled(start, claimants(start.engine.status()), human_choice(action), games[0], first),
        first is Ask,
        answered(games.last(), answer, after, step),
    ensures
        start.engine.status().phase is WaitResponse,
        step is Ask || step is Collect,
        step is Ask ==> claiming(after, action) && after.engine == start.engine,
        step is Collect ==> exists|all: Map<u8, ActionView>|
            {
                &&& #[trigger] start.engine.steps_to(all, after.engine)
                &&& all[HUMAN_SEAT] == action
                &&& forall|s: u8| #[trigger]
                    all.contains_key(s) <==> s == HUMAN_SEAT
                        || start.engine.status().active_players.contains(s) && start.engine.legal(
                        s,
                    ).len() > 0
                &&& forall|s: u8|
                    s != HUMAN_SEAT && #[trigger] all.contains_key(s) ==> start.engine.legal(
                        s,
                    ).contains(all[s])
            },
{
    law_submission_is_played(start, action, games[0], first);
    lemma_asked_through(start.engine, action, games, answers);
    law_claim_answer_is_played(games.last(), action, answer, after, step);
    if step is Collect {
        let all = choose|all: Map<u8, ActionView>| #[trigger]
            start.engine.steps_to(all, after.engine) && handed_with(start.engine, all, action);
        assert(start.engine.steps_to(all, after.engine));
        assert(handed_with(start.engine, all, action));
    }
}

} // verus!
