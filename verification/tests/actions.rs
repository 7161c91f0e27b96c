use local_table::action::{
    action_id, fallback_action, local_action_view, Action, ActionType,
    LocalActionKind,
};
use local_table::matching::{action_tile_matches, consumed_matches};
use local_table::tile::tile_texts;
use riichienv_core::parser::{mjai_to_tid, tid_to_mjai};

fn action(action_type: ActionType, tile: Option<u8>, consume: &[u8], actor: Option<u8>) -> Action {
    Action { action_type, tile, consume_tiles: consume.to_vec(), actor }
}

fn names(list: [&str; 2]) -> [String; 2] {
    [list[0].to_string(), list[1].to_string()]
}

const KINDS: [(ActionType, LocalActionKind, &str); 12] = [
    (ActionType::Discard, LocalActionKind::Discard, "Discard"),
    (ActionType::Chi, LocalActionKind::Chi, "Chi"),
    (ActionType::Pon, LocalActionKind::Pon, "Pon"),
    (ActionType::Daiminkan, LocalActionKind::Daiminkan, "Daiminkan"),
    (ActionType::Ron, LocalActionKind::Ron, "Ron"),
    (ActionType::Riichi, LocalActionKind::Riichi, "Riichi"),
    (ActionType::Tsumo, LocalActionKind::Tsumo, "Tsumo"),
    (ActionType::Pass, LocalActionKind::Pass, "Pass"),
    (ActionType::Ankan, LocalActionKind::Ankan, "Ankan"),
    (ActionType::Kakan, LocalActionKind::Kakan, "Kakan"),
    (ActionType::KyushuKyuhai, LocalActionKind::KyushuKyuhai, "KyushuKyuhai"),
    (ActionType::Kita, LocalActionKind::Kita, "Kita"),
];

// The names as the library states them, written out apart from the engine.
fn stated_name(tid: u8) -> String {
    let suits = ["m", "p", "s"];
    let honours = ["E", "S", "W", "N", "P", "F", "C"];
    match tid {
        16 => "5mr".to_string(),
        52 => "5pr".to_string(),
        88 => "5sr".to_string(),
        0..=107 => format!("{}{}", tid % 36 / 4 + 1, suits[tid as usize / 36]),
        _ => {
            let n = (tid as usize - 108) / 4;
            if n < 7 {
                honours[n].to_string()
            } else {
                format!("{}z", n + 1)
            }
        }
    }
}

#[test]
fn every_tile_number_has_its_name() {
    let all: Vec<u8> = (0..=255).collect();
    let texts = tile_texts(&all);
    for tid in 0..=255u8 {
        assert_eq!(texts[tid as usize], stated_name(tid));
    }
}

#[test]
fn every_tile_is_read_back_as_its_kind() {
    for tid in 0..136u8 {
        let read = mjai_to_tid(&tid_to_mjai(tid)).unwrap();
        assert_eq!(read / 4, tid / 4);
    }
    assert_eq!(mjai_to_tid("5mr"), Some(16));
    assert_eq!(mjai_to_tid("5m"), Some(17));
    assert_eq!(mjai_to_tid("0p"), Some(52));
    assert_eq!(mjai_to_tid("9s"), Some(104));
    assert_eq!(mjai_to_tid("C"), Some(132));
    assert_eq!(mjai_to_tid("1z"), Some(108));
    assert_eq!(mjai_to_tid("3mx"), Some(8));
    assert_eq!(mjai_to_tid("?"), None);
    assert_eq!(mjai_to_tid(""), None);
    assert_eq!(mjai_to_tid("0z"), None);
    assert_eq!(mjai_to_tid("xm"), None);
    assert_eq!(mjai_to_tid("1x"), None);
}

#[test]
fn tile_matching_agrees_with_kinds() {
    for tid in 0..136u8 {
        let a = action(ActionType::Discard, Some(tid), &[], Some(1));
        for other in (0..136u8).step_by(3) {
            let same = tid / 4 == other / 4;
            assert_eq!(action_tile_matches(&a, &stated_name(other)), same);
        }
    }
}

#[test]
fn identifiers_hold_kind_actor_tile_and_consumed() {
    let a = action(ActionType::Chi, Some(16), &[20, 24], Some(3));
    assert_eq!(action_id(&a), "Chi|3|5mr|6m,7m");
    let pass = action(ActionType::Pass, None, &[], Some(0));
    assert_eq!(action_id(&pass), "Pass|0||");
    let nobody = action(ActionType::Tsumo, Some(108), &[], None);
    assert_eq!(action_id(&nobody), "Tsumo|255|E|");
    for (kind, _, name) in KINDS {
        let a = action(kind, Some(0), &[4], Some(2));
        assert_eq!(action_id(&a), format!("{name}|2|1m|2m"));
    }
}

#[test]
fn actions_are_shown_with_names() {
    let a = action(ActionType::Pon, Some(52), &[53, 54], Some(2));
    let v = local_action_view(&a);
    assert_eq!(v.id, "Pon|2|5pr|5p,5p");
    assert_eq!(v.kind, LocalActionKind::Pon);
    assert_eq!(v.actor, 2);
    assert_eq!(v.tile, Some("5pr".to_string()));
    assert_eq!(v.consumed, vec!["5p".to_string(), "5p".to_string()]);
}

#[test]
fn action_of_nobody_is_shown_as_the_humans() {
    let v = local_action_view(&action(ActionType::Pass, None, &[], None));
    assert_eq!(v.actor, 0);
    assert_eq!(v.tile, None);
    assert!(v.consumed.is_empty());
    assert_eq!(v.id, "Pass|255||");
}

#[test]
fn every_kind_is_shown_as_itself() {
    for (kind, shown, _) in KINDS {
        assert_eq!(local_action_view(&action(kind, None, &[], Some(0))).kind, shown);
    }
}

#[test]
fn identifiers_of_different_actions_differ() {
    let list = [
        action(ActionType::Discard, Some(16), &[], Some(0)),
        action(ActionType::Discard, Some(17), &[], Some(0)),
        action(ActionType::Riichi, Some(17), &[], Some(0)),
        action(ActionType::Chi, Some(0), &[4, 8], Some(0)),
        action(ActionType::Chi, Some(0), &[4], Some(0)),
        action(ActionType::Pass, None, &[], Some(0)),
        action(ActionType::Pass, None, &[], Some(1)),
    ];
    for (i, a) in list.iter().enumerate() {
        for (j, b) in list.iter().enumerate() {
            assert_eq!(action_id(a) == action_id(b), i == j);
        }
    }
}

#[test]
fn fallback_follows_the_order_of_kinds() {
    let order = [
        ActionType::Pass,
        ActionType::Discard,
        ActionType::Riichi,
        ActionType::Kita,
        ActionType::Tsumo,
        ActionType::Ron,
        ActionType::KyushuKyuhai,
        ActionType::Ankan,
        ActionType::Kakan,
        ActionType::Daiminkan,
        ActionType::Pon,
        ActionType::Chi,
    ];
    for i in 0..order.len() {
        let legal: Vec<Action> =
            order[i..].iter().rev().map(|t| action(*t, Some(7), &[], Some(1))).collect();
        assert_eq!(fallback_action(&legal).unwrap().action_type, order[i]);
    }
}

#[test]
fn fallback_is_the_first_of_its_kind() {
    let legal = vec![
        action(ActionType::Riichi, Some(1), &[], Some(1)),
        action(ActionType::Discard, Some(2), &[], Some(1)),
        action(ActionType::Discard, Some(3), &[], Some(1)),
    ];
    assert_eq!(fallback_action(&legal).unwrap().tile, Some(2));
    assert!(fallback_action(&[]).is_none());
}

#[test]
fn copies_are_the_same_actions() {
    let a = action(ActionType::Chi, Some(1), &[2, 3], Some(1));
    let b = a.clone();
    assert_eq!(action_id(&a), action_id(&b));
    assert_eq!(a.consume_tiles, b.consume_tiles);
}

#[test]
fn red_and_plain_fives_stand_for_each_other() {
    let red = action(ActionType::Discard, Some(16), &[], Some(1));
    assert!(action_tile_matches(&red, "5mr"));
    assert!(action_tile_matches(&red, "5m"));
    assert!(action_tile_matches(&red, "0m"));
    assert!(!action_tile_matches(&red, "5p"));
    assert!(!action_tile_matches(&red, "?"));
    let plain = action(ActionType::Discard, Some(18), &[], Some(1));
    assert!(action_tile_matches(&plain, "5mr"));
    let none = action(ActionType::Pass, None, &[], Some(1));
    assert!(!action_tile_matches(&none, "5m"));
}

#[test]
fn consumed_tiles_match_in_any_order() {
    let a = action(ActionType::Chi, Some(0), &[4, 16], Some(1));
    assert!(consumed_matches(&a, &names(["2m", "5mr"])));
    assert!(consumed_matches(&a, &names(["5mr", "2m"])));
    assert!(consumed_matches(&a, &names(["5m", "2m"])));
    assert!(!consumed_matches(&a, &names(["2m", "2m"])));
    assert!(!consumed_matches(&a, &names(["5m", "3m"])));
    assert!(!consumed_matches(&a, &["2m".to_string()]));
}

#[test]
fn unreadable_consumed_names_are_left_out() {
    let a = action(ActionType::Chi, Some(0), &[4, 8], Some(1));
    let with_noise = ["2m".to_string(), "?".to_string(), "3m".to_string()];
    assert!(consumed_matches(&a, &with_noise));
    let none = action(ActionType::Pass, None, &[], Some(1));
    assert!(consumed_matches(&none, &names(["?", "x"])));
}
