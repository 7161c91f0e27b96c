use local_table::action::{Action, ActionType};
use local_table::error::LocalGameError;
use local_table::event::MjaiEvent;
use local_table::response::{action_from_bot_response, bot_failure, bot_turn_action, BotResponse};

fn action(action_type: ActionType, tile: Option<u8>, consume: &[u8], actor: u8) -> Action {
    Action { action_type, tile, consume_tiles: consume.to_vec(), actor: Some(actor) }
}

fn text(s: &str) -> String {
    s.to_string()
}

// What the player at seat 1 may do, with one action of each kind and two discards.
fn legal() -> Vec<Action> {
    vec![
        action(ActionType::Chi, Some(0), &[4, 8], 1),
        action(ActionType::Chi, Some(0), &[4, 16], 1),
        action(ActionType::Pon, Some(16), &[17, 18], 1),
        action(ActionType::Daiminkan, Some(108), &[109, 110, 111], 1),
        action(ActionType::Ankan, Some(20), &[20, 21, 22, 23], 1),
        action(ActionType::Kakan, Some(52), &[53, 54, 55], 1),
        action(ActionType::Discard, Some(16), &[], 1),
        action(ActionType::Discard, Some(40), &[], 1),
        action(ActionType::Riichi, None, &[], 1),
        action(ActionType::Tsumo, None, &[], 1),
        action(ActionType::KyushuKyuhai, None, &[], 1),
        action(ActionType::Kita, Some(120), &[], 1),
        action(ActionType::Pass, None, &[], 1),
    ]
}

fn taken(event: MjaiEvent) -> Option<usize> {
    let legal = legal();
    let found = action_from_bot_response(&BotResponse { action: event }, &legal, 1)?;
    legal.iter().position(|a| {
        a.action_type == found.action_type
            && a.tile == found.tile
            && a.consume_tiles == found.consume_tiles
            && a.actor == found.actor
    })
}

#[test]
fn nothing_means_pass() {
    assert_eq!(taken(MjaiEvent::Nothing), Some(12));
}

#[test]
fn discards_go_by_the_tile() {
    let dahai = |actor, pai: &str| MjaiEvent::Dahai { actor, pai: text(pai), tsumogiri: false };
    assert_eq!(taken(dahai(1, "5m")), Some(6));
    assert_eq!(taken(dahai(1, "5mr")), Some(6));
    assert_eq!(taken(dahai(1, "2p")), Some(7));
    assert_eq!(taken(dahai(1, "9s")), None);
    assert_eq!(taken(dahai(2, "5m")), None);
}

#[test]
fn riichi_and_wins_go_by_the_actor() {
    assert_eq!(taken(MjaiEvent::Reach { actor: 1 }), Some(8));
    assert_eq!(taken(MjaiEvent::Reach { actor: 0 }), None);
    let hora = |actor| MjaiEvent::Hora { actor, target: 1, deltas: None, ura_markers: None };
    assert_eq!(taken(hora(1)), Some(9));
    assert_eq!(taken(hora(3)), None);
}

#[test]
fn a_draw_is_nine_kinds() {
    assert_eq!(taken(MjaiEvent::Ryukyoku { deltas: None }), Some(10));
}

#[test]
fn kita_may_leave_the_tile_out() {
    assert_eq!(taken(MjaiEvent::Kita { actor: 1, pai: None }), Some(11));
    assert_eq!(taken(MjaiEvent::Kita { actor: 1, pai: Some(text("N")) }), Some(11));
    assert_eq!(taken(MjaiEvent::Kita { actor: 1, pai: Some(text("W")) }), None);
    assert_eq!(taken(MjaiEvent::Kita { actor: 2, pai: None }), None);
}

#[test]
fn chi_goes_by_tile_and_consumed() {
    let chi = |a: &str, b: &str| MjaiEvent::Chi {
        actor: 1,
        target: 0,
        pai: text("1m"),
        consumed: [text(a), text(b)],
    };
    assert_eq!(taken(chi("2m", "3m")), Some(0));
    assert_eq!(taken(chi("5mr", "2m")), Some(1));
    assert_eq!(taken(chi("3m", "4m")), None);
}

#[test]
fn calls_of_three_and_four() {
    let pon = MjaiEvent::Pon {
        actor: 1,
        target: 0,
        pai: text("5mr"),
        consumed: [text("5m"), text("5m")],
    };
    assert_eq!(taken(pon), Some(2));
    let daiminkan = MjaiEvent::Daiminkan {
        actor: 1,
        target: 0,
        pai: text("E"),
        consumed: [text("E"), text("E"), text("E")],
    };
    assert_eq!(taken(daiminkan), Some(3));
    let ankan = MjaiEvent::Ankan {
        actor: 1,
        consumed: [text("6m"), text("6m"), text("6m"), text("6m")],
    };
    assert_eq!(taken(ankan), Some(4));
    let kakan = MjaiEvent::Kakan {
        actor: 1,
        pai: text("5pr"),
        consumed: [text("5p"), text("5p"), text("5p")],
    };
    assert_eq!(taken(kakan), Some(5));
}

#[test]
fn events_that_are_no_answer_ask_for_nothing() {
    assert_eq!(taken(MjaiEvent::EndKyoku), None);
    assert_eq!(taken(MjaiEvent::Tsumo { actor: 1, pai: text("1m") }), None);
    assert_eq!(taken(MjaiEvent::ReachAccepted { actor: 1 }), None);
}

#[test]
fn actions_of_other_seats_are_never_taken() {
    let legal = vec![action(ActionType::Pass, None, &[], 2)];
    let resp = BotResponse { action: MjaiEvent::Nothing };
    assert!(action_from_bot_response(&resp, &legal, 1).is_none());
}

#[test]
fn ron_comes_before_tsumo_where_it_stands_first() {
    let legal =
        vec![action(ActionType::Ron, Some(3), &[], 1), action(ActionType::Tsumo, None, &[], 1)];
    let resp = BotResponse {
        action: MjaiEvent::Hora { actor: 1, target: 0, deltas: None, ura_markers: None },
    };
    let a = action_from_bot_response(&resp, &legal, 1).unwrap();
    assert_eq!(a.action_type, ActionType::Ron);
}

#[test]
fn a_turn_ends_in_a_legal_action_whatever_is_answered() {
    let legal = legal();
    let dahai = BotResponse {
        action: MjaiEvent::Dahai { actor: 1, pai: text("2p"), tsumogiri: true },
    };
    assert_eq!(bot_turn_action(&Some(dahai), &legal, 1).unwrap().tile, Some(40));
    let nonsense = BotResponse { action: MjaiEvent::EndGame };
    let a = bot_turn_action(&Some(nonsense), &legal, 1).unwrap();
    assert_eq!(a.action_type, ActionType::Pass);
    assert_eq!(bot_turn_action(&None, &legal, 1).unwrap().action_type, ActionType::Pass);
    assert!(bot_turn_action(&None, &[], 1).is_none());
}

#[test]
fn failures_are_told() {
    assert_eq!(
        bot_failure("mortal", 3, "broken pipe"),
        "local bot mortal (seat 3) failed: broken pipe"
    );
}

#[test]
fn errors_have_their_texts() {
    assert_eq!(LocalGameError::NoGame.message(), "no local game is running");
    assert_eq!(LocalGameError::ActionNotLegal.message(), "local action is no longer legal");
    assert_eq!(
        LocalGameError::StepsExceeded.message(),
        "local game auto loop exceeded 4000 steps"
    );
    assert_eq!(
        LocalGameError::NoRuntime.message(),
        "Python runtime not available; bots cannot be launched"
    );
    assert_eq!(
        LocalGameError::NoProject { bot: text("x") }.message(),
        "bot x has no pyproject.toml; local opponents require a normal Akagi bot install"
    );
    assert_eq!(
        LocalGameError::SyncInProgress { bot: text("x") }.message(),
        "sync already in progress for x"
    );
}
