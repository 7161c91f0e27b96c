//! From a bot's answer to one of the legal actions.

use vstd::prelude::*;
use crate::action::{
    fallback_action, fallback_of, law_fallback_is_legal, Action, ActionType, ActionView,
};
use crate::event::{EventView, MjaiEvent};
use crate::matching::{action_tile_matches, consumed_matches, consumes, holds_tile};
use crate::text::{decimal, decimal_text};

verus! {

/// What a bot answers: the event by which it acts.
#[derive(Debug)]
pub struct BotResponse {
    pub action: MjaiEvent,
}

/// Whether the action `a` of the player at `seat` is what the event `e` asks for. An event that
/// names another actor asks for nothing.
pub open spec fn asks_for(e: EventView, seat: u8, a: ActionView) -> bool {
    &&& a.actor == Some(seat)
    &&& match e {
        EventView::Nothing => a.action_type is Pass,
        EventView::Dahai { actor, pai, .. } => actor == seat && a.action_type is Discard
            && holds_tile(a, pai),
        EventView::Reach { actor } => actor == seat && a.action_type is Riichi,
        EventView::Hora { actor, .. } => actor == seat && (a.action_type is Ron
            || a.action_type is Tsumo),
        EventView::Ryukyoku { .. } => a.action_type is KyushuKyuhai,
        EventView::Kita { actor, pai } => actor == seat && a.action_type is Kita && (pai is Some
            ==> holds_tile(a, pai->0)),
        EventView::Chi { actor, pai, consumed, .. } => actor == seat && a.action_type is Chi
            && holds_tile(a, pai) && consumes(a, consumed),
        EventView::Pon { actor, pai, consumed, .. } => actor == seat && a.action_type is Pon
            && holds_tile(a, pai) && consumes(a, consumed),
        EventView::Daiminkan { actor, pai, consumed, .. } => actor == seat
            && a.action_type is Daiminkan && holds_tile(a, pai) && consumes(a, consumed),
        EventView::Ankan { actor, consumed } => actor == seat && a.action_type is Ankan && consumes(
            a,
            consumed,
        ),
        EventView::Kakan { actor, pai, consumed } => actor == seat && a.action_type is Kakan
            && holds_tile(a, pai) && consumes(a, consumed),
        _ => false,
    }
}

/// The first of the legal actions that the event `e` asks for, none where it asks for none of them.
pub open spec fn first_asked(e: EventView, seat: u8, legal: Seq<ActionView>) -> Option<ActionView>
    decreases legal.len(),
{
    if legal.len() == 0 {
        None
    } else if asks_for(e, seat, legal[0]) {
        Some(legal[0])
    } else {
        first_asked(e, seat, legal.drop_first())
    }
}

fn type_matches(a: &Action, ty: ActionType, seat: u8) -> (r: bool)
    ensures
        r == (a.actor == Some(seat) && a.action_type == ty),
{
    match a.actor {
        Some(actor) => actor == seat && a.action_type == ty,
        None => false,
    }
}

fn is_asked_for(e: &MjaiEvent, seat: u8, a: &Action) -> (r: bool)
    ensures
        r == asks_for(e@, seat, a@),
{
    match e {
        MjaiEvent::Nothing => type_matches(a, ActionType::Pass, seat),
        MjaiEvent::Dahai { actor, pai, .. } => *actor == seat && type_matches(
            a,
            ActionType::Discard,
            seat,
        ) && action_tile_matches(a, pai.as_str()),
        MjaiEvent::Reach { actor } => *actor == seat && type_matches(a, ActionType::Riichi, seat),
        MjaiEvent::Hora { actor, .. } => *actor == seat && (type_matches(a, ActionType::Ron, seat)
            || type_matches(a, ActionType::Tsumo, seat)),
        MjaiEvent::Ryukyoku { .. } => type_matches(a, ActionType::KyushuKyuhai, seat),
        MjaiEvent::Kita { actor, pai } => *actor == seat && type_matches(a, ActionType::Kita, seat)
            && match pai {
            Some(p) => action_tile_matches(a, p.as_str()),
            None => true,
        },
        MjaiEvent::Chi { actor, pai, consumed, .. } => *actor == seat && type_matches(
            a,
            ActionType::Chi,
            seat,
        ) && action_tile_matches(a, pai.as_str()) && consumed_matches(a, consumed),
        MjaiEvent::Pon { actor, pai, consumed, .. } => *actor == seat && type_matches(
            a,
            ActionType::Pon,
            seat,
        ) && action_tile_matches(a, pai.as_str()) && consumed_matches(a, consumed),
        MjaiEvent::Daiminkan { actor, pai, consumed, .. } => *actor == seat && type_matches(
            a,
            ActionType::Daiminkan,
            seat,
        ) && action_tile_matches(a, pai.as_str()) && consumed_matches(a, consumed),
        MjaiEvent::Ankan { actor, consumed } => *actor == seat && type_matches(
            a,
            ActionType::Ankan,
            seat,
        ) && consumed_matches(a, consumed),
        MjaiEvent::Kakan { actor, pai, consumed } => *actor == seat && type_matches(
            a,
            ActionType::Kakan,
            seat,
        ) && action_tile_matches(a, pai.as_str()) && consumed_matches(a, consumed),
        _ => false,
    }
}

/// The first of the legal actions that the bot at `seat` asks for.
pub fn action_from_bot_response(resp: &BotResponse, legal: &[Action], seat: u8) -> (r: Option<
    Action,
>)
    ensures
        r.deep_view() == first_asked(resp.action@, seat, legal.deep_view()),
{
    let ghost views = legal.deep_view();
    let mut i: usize = 0;
    proof {
        assert(views.skip(0) =~= views);
    }
    while i < legal.len()
        invariant
            i <= legal.len(),
            views == legal.deep_view(),
            first_asked(resp.action@, seat, views) == first_asked(
                resp.action@,
                seat,
                views.skip(i as int),
            ),
        decreases legal.len() - i,
    {
        proof {
            assert(views.skip(i as int)[0] == legal[i as int]@);
            assert(views.skip(i as int).drop_first() =~= views.skip(i + 1));
        }
        if is_asked_for(&resp.action, seat, &legal[i]) {
            return Some(legal[i].clone());
        }
        i += 1;
    }
    None
}

/// The action of a bot's turn: the one that it asks for, else the fallback. `None` in place of an
/// event stands for a bot that gave no answer.
pub open spec fn bot_turn(
    answer: Option<EventView>,
    seat: u8,
    legal: Seq<ActionView>,
) -> Option<ActionView> {
    if answer is Some && first_asked(answer->0, seat, legal) is Some {
        first_asked(answer->0, seat, legal)
    } else {
        fallback_of(legal)
    }
}

/// What a bot's answer asks for is one of the legal actions, the first that fits it. There is none
/// exactly where no legal action fits.
pub proof fn law_asked_is_legal(e: EventView, seat: u8, legal: Seq<ActionView>)
    ensures
        first_asked(e, seat, legal) matches Some(a) ==> exists|i: int|
            {
                &&& 0 <= i < legal.len()
                &&& #[trigger] legal[i] == a
                &&& asks_for(e, seat, a)
                &&& forall|j: int| 0 <= j < i ==> !asks_for(e, seat, #[trigger] legal[j])
            },
        first_asked(e, seat, legal) is None ==> forall|j: int|
            0 <= j < legal.len() ==> !asks_for(e, seat, #[trigger] legal[j]),
    decreases legal.len(),
{
    if legal.len() > 0 {
        let rest = legal.drop_first();
        if asks_for(e, seat, legal[0]) {
            assert(legal[0] == first_asked(e, seat, legal)->0);
        } else {
            law_asked_is_legal(e, seat, rest);
            assert forall|j: int| 0 < j < legal.len() implies rest[j - 1] == #[trigger] legal[j] by {}
            if first_asked(e, seat, rest) is Some {
                let i = choose|i: int|
                    {
                        &&& 0 <= i < rest.len()
                        &&& #[trigger] rest[i] == first_asked(e, seat, rest)->0
                        &&& asks_for(e, seat, rest[i])
                        &&& forall|j: int| 0 <= j < i ==> !asks_for(e, seat, #[trigger] rest[j])
                    };
                assert(legal[i + 1] == rest[i]);
                assert forall|j: int| 0 <= j < i + 1 implies !asks_for(
                    e,
                    seat,
                    #[trigger] legal[j],
                ) by {
                    if j > 0 {
                        assert(legal[j] == rest[j - 1]);
                    }
                }
            } else {
                assert forall|j: int| 0 <= j < legal.len() implies !asks_for(
                    e,
                    seat,
                    #[trigger] legal[j],
                ) by {
                    if j > 0 {
                        assert(legal[j] == rest[j - 1]);
                    }
                }
            }
        }
    }
}

/// Whatever a bot answers, and if it answers nothing: where something is legal, its turn ends in one
/// of the legal actions; where nothing is, in none.
pub proof fn law_bot_turn_is_legal(answer: Option<EventView>, seat: u8, legal: Seq<ActionView>)
    ensures
        bot_turn(answer, seat, legal) is Some <==> legal.len() > 0,
        bot_turn(answer, seat, legal) matches Some(a) ==> legal.contains(a),
{
    law_fallback_is_legal(legal);
    if answer is Some {
        law_asked_is_legal(answer->0, seat, legal);
    }
}

/// The event of a bot's answer, if there is an answer.
pub open spec fn answer_event(resp: Option<BotResponse>) -> Option<EventView> {
    match resp {
        Some(resp) => Some(resp.action@),
        None => None,
    }
}

/// What is told where a bot fails to answer.
pub open spec fn failure_text(name: Seq<char>, seat: u8, cause: Seq<char>) -> Seq<char> {
    "local bot "@ + name + " (seat "@ + decimal(seat as nat) + ") failed: "@ + cause
}

/// Tells that the bot at `seat` failed to answer, and why.
pub fn bot_failure(name: &str, seat: u8, cause: &str) -> (r: String)
    ensures
        r@ == failure_text(name@, seat, cause@),
{
    let mut r = "local bot ".to_owned();
    r.append(name);
    r.append(" (seat ");
    r.append(decimal_text(seat as usize).as_str());
    r.append(") failed: ");
    r.append(cause);
    r
}

/// The action of a bot's turn, from its answer, or from none where it failed.
pub fn bot_turn_action(resp: &Option<BotResponse>, legal: &[Action], seat: u8) -> (r: Option<
    Action,
>)
    ensures
        r.deep_view() == bot_turn(answer_event(*resp), seat, legal.deep_view()),
{
    if let Some(resp) = resp {
        let asked = action_from_bot_response(resp, legal, seat);
        if asked.is_some() {
            return asked;
        }
    }
    fallback_action(legal)
}

} // verus!
