use local_table::action::{action_id, LocalActionKind, Phase};
use local_table::engine::LocalEngine;
use local_table::error::LocalGameError;
use local_table::event::MjaiEvent;
use local_table::log_line::{prepare_line, LogLine};
use local_table::manager::LocalGameManager;
use local_table::mode::{LocalGameMode, LocalGameStartRequest, HUMAN_SEAT};
use local_table::response::BotResponse;
use local_table::snapshot::GameStateSnapshot;
use local_table::table::{BotQuestion, LocalGame, TableStep};
use local_table::view::LocalGameView;
use serde_json::Value;
use std::collections::HashMap;

fn number(v: &Value, key: &str) -> u8 {
    v.get(key).and_then(Value::as_u64).unwrap() as u8
}

fn text(v: &Value, key: &str) -> String {
    v.get(key).and_then(Value::as_str).unwrap().to_string()
}

fn strings(v: &Value) -> Vec<String> {
    v.as_array().unwrap().iter().map(|s| s.as_str().unwrap().to_string()).collect()
}

fn scores(v: &Value) -> Vec<i32> {
    v.as_array().unwrap().iter().map(|s| s.as_i64().unwrap() as i32).collect()
}

// An event of the log. The calls and results that the tests do not look at become nothing.
fn event(v: &Value) -> MjaiEvent {
    match v.get("type").and_then(Value::as_str).unwrap() {
        "start_kyoku" => MjaiEvent::StartKyoku {
            bakaze: text(v, "bakaze"),
            dora_marker: text(v, "dora_marker"),
            kyoku: number(v, "kyoku"),
            honba: number(v, "honba"),
            kyotaku: number(v, "kyotaku") as u32,
            oya: number(v, "oya"),
            scores: scores(v.get("scores").unwrap()),
            tehais: v.get("tehais").unwrap().as_array().unwrap().iter().map(strings).collect(),
            num_players: number(v, "num_players"),
        },
        "tsumo" => MjaiEvent::Tsumo { actor: number(v, "actor"), pai: text(v, "pai") },
        "dahai" => MjaiEvent::Dahai {
            actor: number(v, "actor"),
            pai: text(v, "pai"),
            tsumogiri: v.get("tsumogiri").and_then(Value::as_bool).unwrap_or(false),
        },
        "end_kyoku" => MjaiEvent::EndKyoku,
        "end_game" => MjaiEvent::EndGame,
        _ => MjaiEvent::Nothing,
    }
}

// Collects what the engine has logged, and hands back what the human player gets to see.
fn collect(game: &mut LocalGame, players: u8) -> Vec<MjaiEvent> {
    let mut seen = Vec::new();
    for line in game.collect() {
        match prepare_line(&line, players) {
            LogLine::Event(v) => seen.push(game.deliver(&event(&v))),
            LogLine::Skipped => {}
            LogLine::Malformed => panic!("{line}"),
        }
    }
    seen
}

struct Played {
    seen: Vec<MjaiEvent>,
    questions: Vec<BotQuestion>,
}

// Lets the game go on from a step until it rests.
fn drive(
    game: &mut LocalGame,
    players: u8,
    first: Option<TableStep>,
    reply: fn(&BotQuestion) -> Option<BotResponse>,
) -> Played {
    let mut played = Played { seen: Vec::new(), questions: Vec::new() };
    let mut step = match first {
        Some(step) => step,
        None => {
            game.begin_advance();
            game.advance()
        }
    };
    let mut submitted = true;
    loop {
        step = match step {
            TableStep::Ask(q) => {
                assert!(game.is_asking());
                assert_ne!(q.seat, HUMAN_SEAT);
                match q.batch.last() {
                    Some(last) => assert_eq!(format!("{last:?}"), format!("{:?}", q.trigger)),
                    None => assert!(matches!(q.trigger, MjaiEvent::Nothing)),
                }
                let answer = reply(&q);
                played.questions.push(q);
                game.answer(&answer)
            }
            TableStep::Collect => {
                assert!(!game.is_asking());
                played.seen.extend(collect(game, players));
                if submitted {
                    game.begin_advance();
                    submitted = false;
                }
                game.advance()
            }
            TableStep::Rest => return played,
            TableStep::Exceeded => panic!("too long"),
        };
    }
}

// Lets the bots play one round, and hands back who was asked in it.
fn one_round(game: &mut LocalGame) -> (Vec<u8>, TableStep) {
    let mut asked = Vec::new();
    let mut step = game.advance();
    while let TableStep::Ask(q) = step {
        asked.push(q.seat);
        step = game.answer(&None);
    }
    (asked, step)
}

fn silent(_: &BotQuestion) -> Option<BotResponse> {
    None
}

// Discards what was drawn, else passes.
fn tsumogiri(q: &BotQuestion) -> Option<BotResponse> {
    let action = match &q.trigger {
        MjaiEvent::Tsumo { actor, pai } if *actor == q.seat => {
            assert_ne!(pai, "?");
            MjaiEvent::Dahai { actor: q.seat, pai: pai.clone(), tsumogiri: true }
        }
        _ => MjaiEvent::Nothing,
    };
    Some(BotResponse { action })
}

fn sit_down(mode: LocalGameMode) -> LocalGame {
    let mut game =
        LocalGame::new(mode, "four".to_string(), "three".to_string(), "three".to_string());
    game.seat_bots();
    game
}

// The choice of a player who never wins: pass, else discard.
fn dull_choice(view: &LocalGameView) -> String {
    let wanted = [LocalActionKind::Pass, LocalActionKind::Discard];
    for kind in wanted {
        if let Some(a) = view.legal_actions.iter().find(|a| a.kind == kind) {
            return a.id.clone();
        }
    }
    view.legal_actions[0].id.clone()
}

fn play_out(mode: LocalGameMode, reply: fn(&BotQuestion) -> Option<BotResponse>) {
    let players = mode.num_players();
    let mut game = sit_down(mode);
    game.emit_start_game();
    collect(&mut game, players);
    let mut played = drive(&mut game, players, None, reply);
    let mut asked = 0;
    let mut turns = 0;
    loop {
        asked += played.questions.len();
        for q in &played.questions {
            assert!(q.seat < players);
            assert_eq!(q.name, game.bot_name());
            for ev in &q.batch {
                match ev {
                    MjaiEvent::Tsumo { actor, pai } => assert_eq!(*actor != q.seat, pai == "?"),
                    MjaiEvent::StartKyoku { tehais, num_players, .. } => {
                        assert_eq!(*num_players, players);
                        for (i, hand) in tehais.iter().enumerate() {
                            let hidden = hand.iter().all(|t| t == "?");
                            assert_eq!(hidden, i != q.seat as usize);
                        }
                    }
                    _ => {}
                }
            }
        }
        for ev in &played.seen {
            if let MjaiEvent::Tsumo { actor, pai } = ev {
                assert_eq!(*actor != HUMAN_SEAT, pai == "?");
            }
        }
        let view = game.show();
        assert_eq!(view.message, None);
        for (i, seat) in view.snapshot.seats.iter().enumerate() {
            assert_eq!(seat.hand.is_some(), i == HUMAN_SEAT as usize);
            if let Some(hand) = &seat.hand {
                assert_eq!(hand.len(), seat.hand_size);
            }
        }
        if view.snapshot.is_done {
            assert!(view.legal_actions.is_empty());
            break;
        }
        assert!(game.human_has_decision());
        assert!(!view.legal_actions.is_empty());
        turns += 1;
        assert!(turns < 2000);
        let step = game.submit(&dull_choice(&view)).unwrap();
        if view.snapshot.phase == Phase::WaitAct {
            assert!(matches!(step, TableStep::Collect));
        }
        if matches!(step, TableStep::Ask(_)) {
            assert_eq!(view.snapshot.phase, Phase::WaitResponse);
            assert_eq!(game.show().snapshot, view.snapshot);
        }
        played = drive(&mut game, players, Some(step), reply);
    }
    assert!(asked > 0);
    assert!(turns > 0);
    assert!(game.collect().is_empty());
    game.begin_advance();
    assert!(matches!(game.advance(), TableStep::Rest));
}

#[test]
fn four_player_game_is_played_to_its_end() {
    play_out(LocalGameMode::FourEast, tsumogiri);
}

#[test]
fn three_player_game_is_played_to_its_end() {
    play_out(LocalGameMode::ThreeEast, tsumogiri);
}

#[test]
fn half_games_are_played_with_silent_bots() {
    play_out(LocalGameMode::FourHanchan, silent);
    play_out(LocalGameMode::ThreeHanchan, silent);
}

#[test]
fn seats_are_named() {
    let game = LocalGame::new(
        LocalGameMode::FourEast,
        "a".to_string(),
        "b".to_string(),
        "a".to_string(),
    );
    assert_eq!(game.bot_name(), "a");
    assert_eq!(game.show().names, vec!["Player", "a 1", "a 2", "a 3"]);
    let game = LocalGame::new(
        LocalGameMode::ThreeHanchan,
        "a".to_string(),
        "b".to_string(),
        "b".to_string(),
    );
    assert_eq!(game.bot_name(), "b");
    assert_eq!(game.show().names, vec!["Player", "b 1", "b 2"]);
}

#[test]
fn the_stream_is_opened_for_the_human_player() {
    let mut game = sit_down(LocalGameMode::ThreeEast);
    match game.emit_start_game() {
        MjaiEvent::StartGame { names, kyoku_first, aka_flag, id, num_players } => {
            assert_eq!(names, vec!["Player", "three 1", "three 2"]);
            assert_eq!(kyoku_first, Some(0));
            assert_eq!(aka_flag, Some(true));
            assert_eq!(id, Some(0));
            assert_eq!(num_players, 3);
        }
        other => panic!("{other:?}"),
    }
}

#[test]
fn bots_are_shown_everything_once() {
    let mode = LocalGameMode::ThreeEast;
    let mut game = sit_down(mode);
    game.emit_start_game();
    collect(&mut game, 3);
    let mut played = drive(&mut game, 3, None, tsumogiri);
    let mut shown: HashMap<u8, usize> = HashMap::new();
    for _ in 0..3 {
        for q in &played.questions {
            let first = !shown.contains_key(&q.seat);
            let opened = q
                .batch
                .iter()
                .filter(|ev| matches!(ev, MjaiEvent::StartGame { .. }))
                .count();
            assert_eq!(opened, if first { 1 } else { 0 });
            if let Some(MjaiEvent::StartGame { id, .. }) = q.batch.first() {
                assert_eq!(*id, Some(q.seat));
            }
            *shown.entry(q.seat).or_insert(0) += q.batch.len();
        }
        let view = game.show();
        if view.legal_actions.is_empty() {
            break;
        }
        let step = game.submit(&dull_choice(&view)).unwrap();
        played = drive(&mut game, 3, Some(step), tsumogiri);
    }
    assert!(!shown.is_empty());
}

#[test]
fn the_human_player_opens_the_first_round() {
    let mut game = sit_down(LocalGameMode::FourEast);
    game.emit_start_game();
    collect(&mut game, 4);
    drive(&mut game, 4, None, silent);
    let view = game.show();
    assert_eq!(view.snapshot.viewer, 0);
    assert_eq!(view.snapshot.phase, Phase::WaitAct);
    assert_eq!(view.snapshot.current_player, 0);
    assert_eq!(view.snapshot.oya, 0);
    assert_eq!(view.snapshot.round_wind, 0);
    assert_eq!(view.snapshot.honba, 0);
    assert_eq!(view.snapshot.riichi_sticks, 0);
    assert_eq!(view.snapshot.dora_indicators.len(), 1);
    assert_eq!(view.snapshot.seats.len(), 4);
    let sizes: Vec<usize> = view.snapshot.seats.iter().map(|s| s.hand_size).collect();
    assert_eq!(sizes, vec![14, 13, 13, 13]);
    for seat in &view.snapshot.seats {
        assert_eq!(seat.score, 25000);
        assert!(seat.discards.is_empty());
        assert!(!seat.riichi_declared);
    }
    assert!(view.legal_actions.iter().all(|a| a.actor == 0));
    assert!(view.legal_actions.iter().any(|a| a.kind == LocalActionKind::Discard));
}

#[test]
fn unknown_actions_are_refused() {
    let mut game = sit_down(LocalGameMode::FourEast);
    game.emit_start_game();
    collect(&mut game, 4);
    drive(&mut game, 4, None, silent);
    let before = game.show();
    assert!(matches!(game.submit("Discard|0|?|"), Err(LocalGameError::ActionNotLegal)));
    assert!(matches!(game.submit(""), Err(LocalGameError::ActionNotLegal)));
    let after = game.show();
    assert_eq!(before.legal_actions, after.legal_actions);
    assert_eq!(before.snapshot, after.snapshot);
}

#[test]
fn nothing_can_be_taken_before_something_is_offered() {
    let mut game = sit_down(LocalGameMode::FourEast);
    assert!(game.show().legal_actions.is_empty());
    assert!(matches!(game.submit("Pass|0||"), Err(LocalGameError::ActionNotLegal)));
}

#[test]
fn a_taken_action_is_played() {
    let mut game = sit_down(LocalGameMode::FourEast);
    game.emit_start_game();
    collect(&mut game, 4);
    drive(&mut game, 4, None, silent);
    let view = game.show();
    let discard =
        view.legal_actions.iter().find(|a| a.kind == LocalActionKind::Discard).unwrap().clone();
    let step = game.submit(&discard.id).unwrap();
    assert!(matches!(step, TableStep::Collect));
    let seen = collect(&mut game, 4);
    match &seen[0] {
        MjaiEvent::Dahai { actor, pai, .. } => {
            assert_eq!(*actor, 0);
            assert_eq!(Some(pai.clone()), discard.tile);
        }
        other => panic!("{other:?}"),
    }
    assert_eq!(game.show().snapshot.seats[0].discards.len(), 1);
}

#[test]
fn the_player_to_act_is_asked_alone() {
    let mut game = sit_down(LocalGameMode::FourEast);
    game.begin_advance();
    assert!(matches!(game.advance(), TableStep::Rest));
    let view = game.show();
    let mut step = game.submit(&dull_choice(&view)).unwrap();
    while let TableStep::Ask(_) = step {
        step = game.answer(&None);
    }
    game.collect();
    game.begin_advance();
    for _ in 0..20 {
        let before = game.show().snapshot;
        let (asked, step) = one_round(&mut game);
        assert!(!asked.contains(&HUMAN_SEAT));
        if matches!(step, TableStep::Rest) {
            assert!(asked.is_empty());
            return;
        }
        if before.phase == Phase::WaitAct && !asked.is_empty() {
            assert_eq!(asked, vec![before.current_player]);
        }
        game.collect();
    }
}

#[test]
fn rounds_without_a_start_are_refused() {
    let mut game = sit_down(LocalGameMode::FourEast);
    assert!(matches!(game.advance(), TableStep::Exceeded));
    game.begin_advance();
    assert!(!matches!(game.advance(), TableStep::Exceeded));
}

#[test]
fn going_on_ends_after_four_thousand_rounds() {
    let mut game = sit_down(LocalGameMode::FourEast);
    game.begin_advance();
    for _ in 0..4000 {
        assert!(matches!(game.advance(), TableStep::Rest));
    }
    assert!(matches!(game.advance(), TableStep::Exceeded));
}

#[test]
fn seats_without_bots_take_the_fallback() {
    let mut game = LocalGame::new(
        LocalGameMode::FourEast,
        "a".to_string(),
        "b".to_string(),
        "a".to_string(),
    );
    game.begin_advance();
    assert!(matches!(game.advance(), TableStep::Rest));
    let view = game.show();
    let step = game.submit(&dull_choice(&view)).unwrap();
    assert!(matches!(step, TableStep::Collect));
    game.collect();
    game.begin_advance();
    for _ in 0..3 {
        let before = game.show().snapshot;
        let seat = before.current_player as usize;
        match game.advance() {
            TableStep::Collect => {
                game.collect();
                if before.phase == Phase::WaitAct {
                    let discards = game.show().snapshot.seats[seat].discards.len();
                    assert_eq!(discards, before.seats[seat].discards.len() + 1);
                }
            }
            TableStep::Rest => return,
            other => panic!("{other:?}"),
        }
    }
}

#[test]
fn engine_plays_what_it_is_handed() {
    for mode in [LocalGameMode::FourEast, LocalGameMode::ThreeEast] {
        let mut engine = LocalEngine::new(mode);
        assert_eq!(engine.num_seats(), mode.num_players());
        assert!(!engine.is_done());
        assert!(!engine.needs_initialize_next_round());
        assert_eq!(engine.phase(), Phase::WaitAct);
        assert_eq!(engine.current_player(), 0);
        assert_eq!(engine.active_players(), vec![0]);
        let before = engine.logs_from(0);
        assert!(!before.is_empty());
        assert!(engine.logs_from(before.len()).is_empty());
        assert!(engine.logs_from(before.len() + 5).is_empty());
        assert_eq!(engine.logs_from(1), before[1..].to_vec());
        let legal = engine.legal_actions(0);
        assert!(engine.legal_actions(1).is_empty());
        let discard = legal
            .iter()
            .find(|a| action_id(a).starts_with("Discard|0|"))
            .unwrap()
            .clone();
        let tile = discard.tile.unwrap();
        let mut actions = HashMap::new();
        actions.insert(0u8, discard);
        engine.step(&actions);
        let after = engine.logs_from(0);
        assert_eq!(after[..before.len()], before[..]);
        assert!(after.len() > before.len());
        let facts = engine.table_facts();
        assert_eq!(facts.seats.len(), mode.num_players() as usize);
        assert_eq!(facts.seats[0].discards, vec![tile]);
        assert!(!facts.seats[0].hand.contains(&tile));
        let shown = engine.snapshot();
        assert_eq!(shown.viewer, 0);
        assert_eq!(shown.seats[0].hand, Some(facts.seats[0].hand.clone()));
        for i in 1..facts.seats.len() {
            assert_eq!(shown.seats[i].hand, None);
            assert_eq!(shown.seats[i].hand_size, facts.seats[i].hand.len());
        }
        let other = GameStateSnapshot::from_state(&engine, 1);
        assert_eq!(other.seats[0].hand, None);
        assert_eq!(other.seats[1].hand, Some(facts.seats[1].hand.clone()));
    }
}

#[test]
fn actions_of_seats_that_are_not_there_are_left_out() {
    for mode in [LocalGameMode::FourEast, LocalGameMode::ThreeEast] {
        let mut engine = LocalEngine::new(mode);
        let legal = engine.legal_actions(0);
        let discard =
            legal.iter().find(|a| action_id(a).starts_with("Discard|0|")).unwrap().clone();
        let tile = discard.tile.unwrap();
        let mut nonsense = discard.clone();
        nonsense.tile = Some(200);
        let mut actions = HashMap::new();
        actions.insert(0u8, discard);
        actions.insert(9u8, nonsense);
        engine.step(&actions);
        assert!(!engine.is_done());
        assert!(!engine.needs_initialize_next_round());
        assert_eq!(engine.table_facts().seats[0].discards, vec![tile]);
    }
}

#[test]
fn prepared_games_follow_the_request() {
    let game = LocalGameManager::prepare(LocalGameStartRequest::default(), " ", "mine");
    let view = game.show();
    assert_eq!(view.mode, LocalGameMode::FourEast);
    assert_eq!(view.bot_4p, "mortal");
    assert_eq!(view.bot_3p, "mine");
    assert_eq!(view.names, vec!["Player", "mortal 1", "mortal 2", "mortal 3"]);
    let req = LocalGameStartRequest {
        mode: Some(LocalGameMode::ThreeHanchan),
        bot_4p: None,
        bot_3p: Some("asked".to_string()),
    };
    let view = LocalGameManager::prepare(req, "four", "three").show();
    assert_eq!(view.mode, LocalGameMode::ThreeHanchan);
    assert_eq!(view.bot_4p, "four");
    assert_eq!(view.bot_3p, "asked");
    assert_eq!(view.names, vec!["Player", "asked 1", "asked 2"]);
}

#[test]
fn nothing_is_played_at_first() {
    let mut manager = LocalGameManager::default();
    assert!(manager.view().is_none());
    assert!(manager.game_mut().is_none());
    let refused = manager.submit_action("Pass|0||".to_string());
    assert!(matches!(refused, Err(LocalGameError::NoGame)));
}

#[test]
fn a_started_game_is_viewed_played_and_stopped() {
    let mut manager = LocalGameManager::default();
    let mut game = LocalGameManager::prepare(LocalGameStartRequest::default(), "", "");
    game.seat_bots();
    game.emit_start_game();
    collect(&mut game, 4);
    drive(&mut game, 4, None, silent);
    let view = manager.start(game);
    assert!(!view.legal_actions.is_empty());
    assert_eq!(manager.view().unwrap().legal_actions, view.legal_actions);
    let refused = manager.submit_action("nothing".to_string());
    assert!(matches!(refused, Err(LocalGameError::ActionNotLegal)));
    assert_eq!(manager.view().unwrap().legal_actions, view.legal_actions);
    let step = manager.submit_action(dull_choice(&view)).unwrap();
    let game = manager.game_mut().unwrap();
    drive(game, 4, Some(step), silent);
    let later = manager.view().unwrap();
    assert_ne!(later.snapshot, view.snapshot);
    manager.stop();
    assert!(manager.view().is_none());
    assert!(manager.game_mut().is_none());
}
