//! How a game goes on, said of the engine's status, the legal actions and the bots alone.

use vstd::prelude::*;
use crate::action::{fallback_of, id_of, ActionView};
use crate::answer_laws::{law_fallback_order, preferred};
use crate::engine::LocalEngine;
use crate::event::EventView;
use crate::mode::HUMAN_SEAT;
use crate::response::{bot_turn, first_asked};
use crate::id_laws::law_offered_is_first;
use crate::table::{
    advances, answered, bot_index, bot_seats, claimants, has_bot, human_choice, is_bot_at, offered,
    poll, polled, set_going, GameView, Poll, RoundView, SeatBotView, StepView,
};
use crate::text::decimal;

verus! {

/// Whether the bot at index `b` is the first that sits at `seat`.
pub open spec fn sits_at(bots: Seq<SeatBotView>, seat: u8, b: int) -> bool {
    &&& 0 <= b < bots.len()
    &&& bots[b].seat == seat
    &&& forall|j: int| 0 <= j < b ==> (#[trigger] bots[j]).seat != seat
}

/// Whether a bot sits at `seat`.
pub open spec fn is_taken(bots: Seq<SeatBotView>, seat: u8) -> bool {
    exists|b: int| 0 <= b < bots.len() && (#[trigger] bots[b]).seat == seat
}

/// Whether the seat `s` has something to choose from.
pub open spec fn can_act(engine: LocalEngine, s: u8) -> bool {
    engine.legal(s).len() > 0
}

/// Whether the seat `s` has something to choose from and a bot to choose.
pub open spec fn askable(game: GameView, s: u8) -> bool {
    can_act(game.engine, s) && is_taken(game.bots, s)
}

/// Whether `all` is `chosen` with an action for each of the seats that has something to choose from
/// and no bot: the one that is taken where nothing better is known.
pub open spec fn gathered(
    engine: LocalEngine,
    seats: Seq<u8>,
    chosen: Map<u8, ActionView>,
    all: Map<u8, ActionView>,
) -> bool {
    &&& forall|s: u8| #[trigger]
        all.contains_key(s) <==> chosen.contains_key(s) || seats.contains(s) && can_act(engine, s)
    &&& forall|s: u8| #[trigger]
        all.contains_key(s) ==> if seats.contains(s) && can_act(engine, s) {
            preferred(engine.legal(s), all[s])
        } else {
            all[s] == chosen[s]
        }
}

/// The game in which the bot at index `b` is being asked: it has been shown what it had to be shown,
/// and nothing else has changed.
pub open spec fn asking(
    game: GameView,
    b: int,
    waiting: Seq<u8>,
    chosen: Map<u8, ActionView>,
) -> GameView {
    GameView {
        bots: game.bots.update(
            b,
            SeatBotView { seat: game.bots[b].seat, name: game.bots[b].name, pending: Seq::empty() },
        ),
        round: RoundView::Asking {
            seat: game.bots[b].seat,
            legal: game.engine.legal(game.bots[b].seat),
            waiting,
            chosen,
        },
        ..game
    }
}

/// Whether, of the seats of `waiting`, the one at `i` is asked by way of the bot at `b`: the first that
/// has something to choose from and a bot. The bot gets all that it had to be shown, with the last of
/// it; those after it wait, and those before it that have no bot have been chosen for.
pub open spec fn asked_at(
    game: GameView,
    waiting: Seq<u8>,
    chosen: Map<u8, ActionView>,
    after: GameView,
    step: StepView,
    i: int,
    b: int,
) -> bool {
    let pending = game.bots[b].pending;
    &&& 0 <= i < waiting.len()
    &&& askable(game, waiting[i])
    &&& forall|j: int| 0 <= j < i ==> !askable(game, #[trigger] waiting[j])
    &&& sits_at(game.bots, waiting[i], b)
    &&& step == (StepView::Ask {
        seat: waiting[i],
        name: game.bots[b].name,
        batch: pending,
        trigger: if pending.len() == 0 {
            EventView::Nothing
        } else {
            pending.last()
        },
    })
    &&& after.round matches RoundView::Asking { chosen: so_far, .. } && {
        &&& gathered(game.engine, waiting.take(i), chosen, so_far)
        &&& after == asking(game, b, waiting.skip(i + 1), so_far)
    }
}

/// Whether all seats have been chosen for: the engine has played everything at once, and nothing else
/// has changed; where nothing has been chosen, the game rests, says so and offers nothing.
pub open spec fn settled(
    game: GameView,
    all: Map<u8, ActionView>,
    after: GameView,
    step: StepView,
) -> bool {
    if forall|s: u8| !all.contains_key(s) {
        &&& step is Rest
        &&& after == (GameView {
            latest_human_actions: Seq::empty(),
            message: Some("local engine waited without any active bot"@),
            round: RoundView::Idle,
            ..game
        })
    } else {
        &&& step is Collect
        &&& game.engine.steps_to(all, after.engine)
        &&& after == (GameView { engine: after.engine, round: RoundView::Idle, ..game })
    }
}

/// Whether asking the seats of `waiting`, with `chosen` chosen already, makes `after` of a game and has
/// `step` done.
pub open spec fn asks_in_turn(
    game: GameView,
    waiting: Seq<u8>,
    chosen: Map<u8, ActionView>,
    after: GameView,
    step: StepView,
) -> bool {
    if exists|i: int| 0 <= i < waiting.len() && askable(game, #[trigger] waiting[i]) {
        exists|i: int, b: int| asked_at(game, waiting, chosen, after, step, i, b)
    } else {
        exists|all: Map<u8, ActionView>|
            gathered(game.engine, waiting, chosen, all) && #[trigger] settled(game, all, after, step)
    }
}

proof fn lemma_taken(bots: Seq<SeatBotView>, seat: u8)
    ensures
        is_taken(bots, seat) <==> has_bot(bots, seat),
        has_bot(bots, seat) ==> sits_at(bots, seat, bot_index(bots, seat)),
    decreases bots.len(),
{
    if has_bot(bots, seat) {
        let b = bot_index(bots, seat);
        assert(is_bot_at(bots, seat, b));
        assert(bots[b].seat == seat);
    }
    if is_taken(bots, seat) && !has_bot(bots, seat) {
        let b = choose|b: int| 0 <= b < bots.len() && (#[trigger] bots[b]).seat == seat;
        lemma_least(bots, seat, b);
    }
}

proof fn lemma_least(bots: Seq<SeatBotView>, seat: u8, b: int)
    requires
        0 <= b < bots.len(),
        bots[b].seat == seat,
    ensures
        has_bot(bots, seat),
    decreases b,
{
    if exists|j: int| 0 <= j < b && (#[trigger] bots[j]).seat == seat {
        let j = choose|j: int| 0 <= j < b && (#[trigger] bots[j]).seat == seat;
        lemma_least(bots, seat, j);
    } else {
        assert(is_bot_at(bots, seat, b));
    }
}

proof fn lemma_gather_more(
    engine: LocalEngine,
    seats: Seq<u8>,
    chosen: Map<u8, ActionView>,
    all: Map<u8, ActionView>,
)
    requires
        seats.len() > 0,
        !can_act(engine, seats[0]) ==> gathered(engine, seats.drop_first(), chosen, all),
        can_act(engine, seats[0]) ==> gathered(
            engine,
            seats.drop_first(),
            chosen.insert(seats[0], fallback_of(engine.legal(seats[0]))->0),
            all,
        ),
    ensures
        gathered(engine, seats, chosen, all),
{
    let rest = seats.drop_first();
    law_fallback_order(engine.legal(seats[0]));
    assert(seats[0] == seats[0] && seats.contains(seats[0]));
    assert forall|s: u8| #[trigger] seats.contains(s) <==> s == seats[0] || rest.contains(s) by {
        if seats.contains(s) {
            let i = choose|i: int| 0 <= i < seats.len() && seats[i] == s;
            if i > 0 {
                assert(rest[i - 1] == s);
            }
        }
        if rest.contains(s) {
            let i = choose|i: int| 0 <= i < rest.len() && rest[i] == s;
            assert(seats[i + 1] == s);
        }
    }
}

proof fn lemma_polls(game: GameView, waiting: Seq<u8>, chosen: Map<u8, ActionView>) -> (i: int)
    ensures
        match poll(game.engine, game.bots, waiting, chosen) {
            Poll::Ask { seat, waiting: rest, chosen: so_far } => {
                &&& 0 <= i < waiting.len()
                &&& seat == waiting[i]
                &&& askable(game, seat)
                &&& rest == waiting.skip(i + 1)
                &&& gathered(game.engine, waiting.take(i), chosen, so_far)
                &&& forall|j: int| 0 <= j < i ==> !askable(game, #[trigger] waiting[j])
            },
            Poll::Ready { chosen: all } => {
                &&& gathered(game.engine, waiting, chosen, all)
                &&& forall|j: int| 0 <= j < waiting.len() ==> !askable(game, #[trigger] waiting[j])
            },
        },
    decreases waiting.len(),
{
    if waiting.len() == 0 {
        assert(gathered(game.engine, waiting, chosen, chosen));
        0
    } else {
        let seat = waiting[0];
        let rest = waiting.drop_first();
        lemma_taken(game.bots, seat);
        if askable(game, seat) {
            assert(waiting.skip(1) =~= rest);
            assert(gathered(game.engine, waiting.take(0), chosen, chosen));
            0
        } else {
            let more = if can_act(game.engine, seat) {
                chosen.insert(seat, fallback_of(game.engine.legal(seat))->0)
            } else {
                chosen
            };
            let k = lemma_polls(game, rest, more);
            let i = k + 1;
            assert forall|j: int| 0 < j < waiting.len() implies rest[j - 1] == #[trigger] waiting[
                j
            ] by {}
            match poll(game.engine, game.bots, rest, more) {
                Poll::Ask { seat: asked, waiting: left, chosen: so_far } => {
                    assert(waiting.skip(i + 1) =~= rest.skip(k + 1));
                    assert(waiting.take(i).drop_first() =~= rest.take(k));
                    assert(waiting.take(i)[0] == seat);
                    lemma_gather_more(game.engine, waiting.take(i), chosen, so_far);
                    assert forall|j: int| 0 <= j < i implies !askable(game, #[trigger] waiting[j]) by {
                        if j > 0 {
                            assert(!askable(game, rest[j - 1]));
                        }
                    }
                },
                Poll::Ready { chosen: all } => {
                    lemma_gather_more(game.engine, waiting, chosen, all);
                    assert forall|j: int| 0 <= j < waiting.len() implies !askable(
                        game,
                        #[trigger] waiting[j],
                    ) by {
                        if j > 0 {
                            assert(!askable(game, rest[j - 1]));
                        }
                    }
                },
            }
            i
        }
    }
}

proof fn lemma_asks_in_turn(
    game: GameView,
    waiting: Seq<u8>,
    chosen: Map<u8, ActionView>,
    after: GameView,
    step: StepView,
)
    requires
        polled(game, waiting, chosen, after, step),
    ensures
        asks_in_turn(game, waiting, chosen, after, step),
{
    let i = lemma_polls(game, waiting, chosen);
    match poll(game.engine, game.bots, waiting, chosen) {
        Poll::Ask { seat, waiting: rest, chosen: so_far } => {
            lemma_taken(game.bots, seat);
            let b = bot_index(game.bots, seat);
            assert(askable(game, waiting[i]));
            assert(after == asking(game, b, rest, so_far));
            assert(asked_at(game, waiting, chosen, after, step, i, b));
        },
        Poll::Ready { chosen: all } => {
            if all.is_empty() {
                assert forall|s: u8| !all.contains_key(s) by {
                    assert(!all.dom().contains(s));
                }
            } else {
                let s = choose|s: u8| all.dom().contains(s);
                assert(all.contains_key(s));
            }
            assert(settled(game, all, after, step));
        },
    }
}

/// The seats of the list but the human one, in their order.
pub open spec fn without_human(seats: Seq<u8>) -> Seq<u8> {
    seats.filter(|s: u8| s != HUMAN_SEAT)
}

/// A round begun: nobody is being asked, and one round less is left.
pub open spec fn begun(game: GameView) -> GameView {
    GameView { round: RoundView::Idle, budget: (game.budget - 1) as nat, ..game }
}

/// Whether a round can be played on and no round has to be dealt first.
pub open spec fn goes_on_here(game: GameView) -> bool {
    &&& game.budget > 0
    &&& !game.engine.status().is_done
    &&& !game.engine.status().needs_initialize_next_round
}

/// Going on begins without a message and with four thousand rounds, and changes nothing else.
pub proof fn law_set_going(game: GameView)
    ensures
        set_going(game).message is None,
        set_going(game).budget == 4000,
        set_going(game) == (GameView { message: None, budget: 4000, ..game }),
{
}

/// A round that is not left is refused and changes nothing; a game that is over rests and offers
/// nothing; where a round has to be dealt, the engine steps on no action at all.
pub proof fn law_round_before_play(game: GameView, after: GameView, step: StepView)
    requires
        advances(game, after, step),
    ensures
        game.budget == 0 ==> step is Exceeded && after == game,
        game.budget > 0 && game.engine.status().is_done ==> step is Rest && after == (GameView {
            latest_human_actions: Seq::empty(),
            ..begun(game)
        }),
        game.budget > 0 && !game.engine.status().is_done
            && game.engine.status().needs_initialize_next_round ==> {
            &&& step is Collect
            &&& game.engine.steps_to(Map::empty(), after.engine)
            &&& after == (GameView { engine: after.engine, ..begun(game) })
        },
{
}

/// Wherever the human player has to decide, the game stops: on the own turn, and in every claim window
/// in which the engine waits for the human seat, whoever else it waits for. Nothing is moved and nobody
/// is asked, and exactly the human seat's legal actions are offered.
pub proof fn law_human_decision_stops_the_game(game: GameView, after: GameView, step: StepView)
    requires
        advances(game, after, step),
        goes_on_here(game),
        game.engine.status().phase is WaitAct ==> game.engine.status().current_player == HUMAN_SEAT,
        game.engine.status().phase is WaitResponse
            ==> game.engine.status().active_players.contains(HUMAN_SEAT),
    ensures
        step is Rest,
        after == (GameView {
            latest_human_actions: game.engine.legal(HUMAN_SEAT),
            ..begun(game)
        }),
{
}

/// Whenever a round steps the engine or asks a bot, and no round has to be dealt, the human player has
/// nothing to decide.
pub proof fn law_play_is_never_the_humans(game: GameView, after: GameView, step: StepView)
    requires
        advances(game, after, step),
        step is Ask || step is Collect,
        !game.engine.status().needs_initialize_next_round,
    ensures
        game.engine.status().phase is WaitAct ==> game.engine.status().current_player != HUMAN_SEAT,
        game.engine.status().phase is WaitResponse
            ==> !game.engine.status().active_players.contains(HUMAN_SEAT),
        !game.engine.status().is_done,
{
}

/// On the turn of another player, that player alone is asked. One that can do nothing stalls the game,
/// which says so and offers nothing.
pub proof fn law_turn_of_a_bot(game: GameView, after: GameView, step: StepView)
    requires
        advances(game, after, step),
        goes_on_here(game),
        game.engine.status().phase is WaitAct,
        game.engine.status().current_player != HUMAN_SEAT,
    ensures
        can_act(game.engine, game.engine.status().current_player) ==> {
            &&& asks_in_turn(
                begun(game),
                seq![game.engine.status().current_player],
                Map::empty(),
                after,
                step,
            )
            &&& step is Ask || step is Collect
        },
        !can_act(game.engine, game.engine.status().current_player) ==> {
            &&& step is Rest
            &&& after == (GameView {
                latest_human_actions: Seq::empty(),
                message: Some(
                    "bot at seat "@ + decimal(game.engine.status().current_player as nat)
                        + " has no legal action"@,
                ),
                ..begun(game)
            })
        },
{
    let seat = game.engine.status().current_player;
    if can_act(game.engine, seat) {
        lemma_asks_in_turn(begun(game), seq![seat], Map::empty(), after, step);
        assert(seq![seat].drop_first() =~= Seq::empty());
        reveal_with_fuel(poll, 2);
        let one = Map::<u8, ActionView>::empty().insert(seat, fallback_of(game.engine.legal(seat))->0);
        assert(one.dom().contains(seat));
    }
}

/// In a claim window in which the engine does not wait for the human seat, everyone for whom it waits
/// is asked, in its order.
pub proof fn law_claims_of_bots(game: GameView, after: GameView, step: StepView)
    requires
        advances(game, after, step),
        goes_on_here(game),
        game.engine.status().phase is WaitResponse,
        !game.engine.status().active_players.contains(HUMAN_SEAT),
    ensures
        asks_in_turn(
            begun(game),
            game.engine.status().active_players,
            Map::empty(),
            after,
            step,
        ),
{
    let active = game.engine.status().active_players;
    lemma_nothing_left_out(active);
    assert(bot_seats(game.engine.status()) =~= without_human(active));
    lemma_asks_in_turn(begun(game), active, Map::empty(), after, step);
}

proof fn lemma_nothing_left_out(seats: Seq<u8>)
    requires
        !seats.contains(HUMAN_SEAT),
    ensures
        without_human(seats) == seats,
    decreases seats.len(),
{
    reveal(Seq::filter);
    if seats.len() > 0 {
        let front = seats.drop_last();
        assert(seats.contains(seats.last()));
        assert forall|s: u8| front.contains(s) implies seats.contains(s) by {
            let i = choose|i: int| 0 <= i < front.len() && front[i] == s;
            assert(seats[i] == s);
        }
        lemma_nothing_left_out(front);
        assert(seats =~= front.push(seats.last()));
    }
}

/// What the human player takes is chosen for the human seat. With a player to act the engine plays it
/// at once and alone; in a claim window all others for whom the engine waits are asked first, in its
/// order.
pub proof fn law_submission(
    game: GameView,
    id: Seq<char>,
    action: ActionView,
    after: GameView,
    step: StepView,
)
    requires
        offered(game.latest_human_actions, id) == Some(action),
        polled(game, claimants(game.engine.status()), human_choice(action), after, step),
    ensures
        game.latest_human_actions.contains(action),
        id_of(action) == id,
        game.engine.status().phase is WaitAct ==> {
            &&& step is Collect
            &&& game.engine.steps_to(map![HUMAN_SEAT => action], after.engine)
            &&& after == (GameView { engine: after.engine, round: RoundView::Idle, ..game })
        },
        game.engine.status().phase is WaitResponse ==> asks_in_turn(
            game,
            without_human(game.engine.status().active_players),
            map![HUMAN_SEAT => action],
            after,
            step,
        ),
{
    law_offered_is_first(game.latest_human_actions, id);
    assert(human_choice(action) =~= map![HUMAN_SEAT => action]);
    assert(human_choice(action).dom().contains(HUMAN_SEAT));
    if game.engine.status().phase is WaitResponse {
        assert(claimants(game.engine.status()) =~= without_human(
            game.engine.status().active_players,
        ));
        lemma_asks_in_turn(
            game,
            without_human(game.engine.status().active_players),
            map![HUMAN_SEAT => action],
            after,
            step,
        );
    }
}

/// Whether `turn` is what the bot at `seat` plays on `answer`: what the answer finds among the legal
/// actions, else what is taken where nothing better is known.
pub open spec fn is_turn(
    answer: Option<EventView>,
    seat: u8,
    legal: Seq<ActionView>,
    turn: ActionView,
) -> bool {
    if answer is Some && first_asked(answer->0, seat, legal) is Some {
        first_asked(answer->0, seat, legal) == Some(turn)
    } else {
        preferred(legal, turn)
    }
}

/// The turn of the bot that was asked is added to what has been chosen, and those who wait are asked.
pub proof fn law_answer(
    game: GameView,
    answer: Option<EventView>,
    after: GameView,
    step: StepView,
)
    requires
        answered(game, answer, after, step),
    ensures
        game.round matches RoundView::Asking { seat, legal, waiting, chosen } && exists|
            turn: ActionView,
        |
            is_turn(answer, seat, legal, turn) && #[trigger] asks_in_turn(
                game,
                waiting,
                chosen.insert(seat, turn),
                after,
                step,
            ),
{
    if let RoundView::Asking { seat, legal, waiting, chosen } = game.round {
        let turn = bot_turn(answer, seat, legal)->0;
        law_fallback_order(legal);
        assert(is_turn(answer, seat, legal, turn));
        lemma_asks_in_turn(game, waiting, chosen.insert(seat, turn), after, step);
    }
}

proof fn lemma_kept(
    engine: LocalEngine,
    bots: Seq<SeatBotView>,
    waiting: Seq<u8>,
    chosen: Map<u8, ActionView>,
    s: u8,
)
    requires
        chosen.contains_key(s),
        is_taken(bots, s) || !waiting.contains(s),
    ensures
        match poll(engine, bots, waiting, chosen) {
            Poll::Ask { chosen: so_far, .. } => so_far.contains_key(s) && so_far[s] == chosen[s],
            Poll::Ready { chosen: all } => all.contains_key(s) && all[s] == chosen[s],
        },
    decreases waiting.len(),
{
    if waiting.len() > 0 {
        let seat = waiting[0];
        let rest = waiting.drop_first();
        lemma_taken(bots, seat);
        assert(waiting.contains(seat));
        assert forall|t: u8| rest.contains(t) implies waiting.contains(t) by {
            let i = choose|i: int| 0 <= i < rest.len() && rest[i] == t;
            assert(waiting[i + 1] == t);
        }
        lemma_kept(engine, bots, rest, chosen, s);
        if seat != s {
            let more = chosen.insert(seat, fallback_of(engine.legal(seat))->0);
            lemma_kept(engine, bots, rest, more, s);
        }
    }
}

/// A bot plays what it answers: where its answer finds a legal action, that action is what is chosen
/// for its seat while others are asked, and what the engine is handed for it in the end.
pub proof fn law_bot_plays_its_answer(
    game: GameView,
    answer: EventView,
    turn: ActionView,
    after: GameView,
    step: StepView,
)
    requires
        answered(game, Some(answer), after, step),
        game.round matches RoundView::Asking { seat, legal, waiting, .. } && {
            &&& first_asked(answer, seat, legal) == Some(turn)
            &&& is_taken(game.bots, seat) || !waiting.contains(seat)
        },
    ensures
        step is Ask || step is Collect,
        step is Ask ==> (after.round matches RoundView::Asking { chosen, .. }
            && chosen.contains_key(game.round->seat) && chosen[game.round->seat] == turn),
        step is Collect ==> exists|all: Map<u8, ActionView>| #[trigger]
            game.engine.steps_to(all, after.engine) && all.contains_key(game.round->seat)
                && all[game.round->seat] == turn,
{
    if let RoundView::Asking { seat, legal, waiting, chosen } = game.round {
        let more = chosen.insert(seat, turn);
        assert(bot_turn(Some(answer), seat, legal) == Some(turn));
        lemma_kept(game.engine, game.bots, waiting, more, seat);
        if let Poll::Ready { chosen: all } = poll(game.engine, game.bots, waiting, more) {
            assert(all.dom().contains(seat));
            assert(game.engine.steps_to(all, after.engine));
        }
    }
}

/// An answer leaves alone what has been chosen for those who are not asked any more.
pub proof fn law_answer_leaves_others(
    game: GameView,
    answer: Option<EventView>,
    s: u8,
    after: GameView,
    step: StepView,
)
    requires
        answered(game, answer, after, step),
        game.round matches RoundView::Asking { seat, waiting, chosen, .. } && {
            &&& s != seat
            &&& chosen.contains_key(s)
            &&& !waiting.contains(s)
        },
    ensures
        step is Ask ==> (after.round matches RoundView::Asking { chosen, .. }
            && chosen.contains_key(s) && chosen[s] == game.round->chosen[s]),
        step is Collect ==> exists|all: Map<u8, ActionView>| #[trigger]
            game.engine.steps_to(all, after.engine) && all.contains_key(s) && all[s]
                == game.round->chosen[s],
{
    if let RoundView::Asking { seat, legal, waiting, chosen } = game.round {
        let more = chosen.insert(seat, bot_turn(answer, seat, legal)->0);
        lemma_kept(game.engine, game.bots, waiting, more, s);
        if let Poll::Ready { chosen: all } = poll(game.engine, game.bots, waiting, more) {
            assert(all.dom().contains(s));
            assert(game.engine.steps_to(all, after.engine));
        }
    }
}

} // verus!
