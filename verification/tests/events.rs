use local_table::event::{event_for_seat, MjaiEvent};
use local_table::log_line::{line_rule, prepare_line, prepare_value, LineRule, LogLine};
use serde_json::Value;

fn texts(list: &[&str]) -> Vec<String> {
    list.iter().map(|s| s.to_string()).collect()
}

fn start_kyoku() -> MjaiEvent {
    MjaiEvent::StartKyoku {
        bakaze: "E".to_string(),
        dora_marker: "3s".to_string(),
        kyoku: 2,
        honba: 1,
        kyotaku: 3,
        oya: 1,
        scores: vec![25000, 24000, 26000],
        tehais: vec![texts(&["1m", "2m"]), texts(&["5pr", "E", "C"]), texts(&["9s"])],
        num_players: 3,
    }
}

#[test]
fn start_of_a_round_shows_the_own_hand_only() {
    for seat in 0..3u8 {
        match event_for_seat(&start_kyoku(), seat) {
            MjaiEvent::StartKyoku {
                bakaze,
                dora_marker,
                kyoku,
                honba,
                kyotaku,
                oya,
                scores,
                tehais,
                num_players,
            } => {
                assert_eq!(bakaze, "E");
                assert_eq!(dora_marker, "3s");
                assert_eq!((kyoku, honba, kyotaku, oya, num_players), (2, 1, 3, 1, 3));
                assert_eq!(scores, vec![25000, 24000, 26000]);
                let open = vec![texts(&["1m", "2m"]), texts(&["5pr", "E", "C"]), texts(&["9s"])];
                for i in 0..3 {
                    if i == seat as usize {
                        assert_eq!(tehais[i], open[i]);
                    } else {
                        assert_eq!(tehais[i], vec!["?".to_string(); open[i].len()]);
                    }
                }
            }
            other => panic!("{other:?}"),
        }
    }
}

#[test]
fn a_stranger_sees_no_hand() {
    match event_for_seat(&start_kyoku(), 7) {
        MjaiEvent::StartKyoku { tehais, .. } => {
            assert_eq!(tehais, vec![texts(&["?", "?"]), texts(&["?", "?", "?"]), texts(&["?"])]);
        }
        other => panic!("{other:?}"),
    }
}

#[test]
fn draws_of_others_are_hidden() {
    let draw = MjaiEvent::Tsumo { actor: 2, pai: "5sr".to_string() };
    match event_for_seat(&draw, 2) {
        MjaiEvent::Tsumo { actor, pai } => assert_eq!((actor, pai.as_str()), (2, "5sr")),
        other => panic!("{other:?}"),
    }
    match event_for_seat(&draw, 0) {
        MjaiEvent::Tsumo { actor, pai } => assert_eq!((actor, pai.as_str()), (2, "?")),
        other => panic!("{other:?}"),
    }
}

#[test]
fn start_of_a_game_names_the_seat() {
    let ev = MjaiEvent::StartGame {
        names: texts(&["Player", "a 1"]),
        kyoku_first: Some(0),
        aka_flag: Some(true),
        id: Some(0),
        num_players: 4,
    };
    match event_for_seat(&ev, 3) {
        MjaiEvent::StartGame { names, kyoku_first, aka_flag, id, num_players } => {
            assert_eq!(names, texts(&["Player", "a 1"]));
            assert_eq!(kyoku_first, Some(0));
            assert_eq!(aka_flag, Some(true));
            assert_eq!(id, Some(3));
            assert_eq!(num_players, 4);
        }
        other => panic!("{other:?}"),
    }
}

#[test]
fn everything_else_is_open() {
    let open = [
        MjaiEvent::Nothing,
        MjaiEvent::Dahai { actor: 1, pai: "E".to_string(), tsumogiri: true },
        MjaiEvent::Reach { actor: 1 },
        MjaiEvent::ReachAccepted { actor: 1 },
        MjaiEvent::Dora { dora_marker: "1m".to_string() },
        MjaiEvent::Chi {
            actor: 1,
            target: 0,
            pai: "1m".to_string(),
            consumed: ["2m".to_string(), "3m".to_string()],
        },
        MjaiEvent::Kita { actor: 1, pai: None },
        MjaiEvent::Hora { actor: 1, target: 2, deltas: Some(vec![1]), ura_markers: Some(texts(&["W"])) },
        MjaiEvent::Ryukyoku { deltas: Some(vec![-1500, 1500]) },
        MjaiEvent::EndKyoku,
        MjaiEvent::EndGame,
    ];
    for ev in open {
        assert_eq!(format!("{:?}", event_for_seat(&ev, 0)), format!("{ev:?}"));
    }
}

#[test]
fn masking_twice_is_masking_once() {
    for seat in 0..4u8 {
        let once = event_for_seat(&start_kyoku(), seat);
        let twice = event_for_seat(&once, seat);
        assert_eq!(format!("{once:?}"), format!("{twice:?}"));
    }
}

#[test]
fn hidden_tiles_leave_no_trace() {
    let a = MjaiEvent::Tsumo { actor: 1, pai: "1m".to_string() };
    let b = MjaiEvent::Tsumo { actor: 1, pai: "C".to_string() };
    assert_eq!(format!("{:?}", event_for_seat(&a, 0)), format!("{:?}", event_for_seat(&b, 0)));
}

#[test]
fn rules_for_log_lines() {
    assert_eq!(line_rule("start_game"), LineRule::Skip);
    assert_eq!(line_rule("start_kyoku"), LineRule::AddPlayers);
    assert_eq!(line_rule("tsumo"), LineRule::Keep);
    assert_eq!(line_rule(""), LineRule::Keep);
}

#[test]
fn malformed_lines_are_told_apart() {
    assert!(matches!(prepare_line("{\"type\":", 4), LogLine::Malformed));
    assert!(matches!(prepare_value(None, 4), LogLine::Malformed));
}

#[test]
fn lines_without_a_kind_are_skipped() {
    assert!(matches!(prepare_line("{}", 4), LogLine::Skipped));
    assert!(matches!(prepare_line("[1,2]", 4), LogLine::Skipped));
    assert!(matches!(prepare_line("{\"type\":7}", 4), LogLine::Skipped));
    assert!(matches!(prepare_line("{\"type\":\"start_game\",\"id\":0}", 4), LogLine::Skipped));
}

#[test]
fn start_of_a_round_gets_the_number_of_players() {
    match prepare_line("{\"type\":\"start_kyoku\",\"kyoku\":1}", 3) {
        LogLine::Event(v) => {
            assert_eq!(v.get("num_players").and_then(Value::as_u64), Some(3));
            assert_eq!(v.get("kyoku").and_then(Value::as_u64), Some(1));
            assert_eq!(v.get("type").and_then(Value::as_str), Some("start_kyoku"));
        }
        other => panic!("{other:?}"),
    }
    match prepare_line("{\"type\":\"start_kyoku\",\"num_players\":9}", 4) {
        LogLine::Event(v) => {
            assert_eq!(v.get("num_players").and_then(Value::as_u64), Some(4));
        }
        other => panic!("{other:?}"),
    }
}

#[test]
fn other_lines_stay_as_they_are() {
    match prepare_line("{\"type\":\"tsumo\",\"actor\":2,\"pai\":\"5pr\"}", 4) {
        LogLine::Event(v) => {
            assert_eq!(v.get("actor").and_then(Value::as_u64), Some(2));
            assert_eq!(v.get("pai").and_then(Value::as_str), Some("5pr"));
            assert_eq!(v.get("num_players"), None);
        }
        other => panic!("{other:?}"),
    }
}
