use local_table::mode::{
    choose_bot, LocalGameMode, LocalGameStartRequest, DEFAULT_3P_BOT, DEFAULT_4P_BOT, HUMAN_SEAT,
};
use local_table::text::{decimal_text, is_blank, join, same_text};

#[test]
fn modes_have_their_numbers() {
    assert_eq!(LocalGameMode::FourEast.num_players(), 4);
    assert_eq!(LocalGameMode::FourHanchan.num_players(), 4);
    assert_eq!(LocalGameMode::ThreeEast.num_players(), 3);
    assert_eq!(LocalGameMode::ThreeHanchan.num_players(), 3);
    assert_eq!(LocalGameMode::FourEast.game_mode_id(), 1);
    assert_eq!(LocalGameMode::FourHanchan.game_mode_id(), 2);
    assert_eq!(LocalGameMode::ThreeEast.game_mode_id(), 4);
    assert_eq!(LocalGameMode::ThreeHanchan.game_mode_id(), 5);
    assert_eq!(HUMAN_SEAT, 0);
}

#[test]
fn default_request_asks_for_nothing() {
    let req = LocalGameStartRequest::default();
    assert_eq!(req.mode, None);
    assert_eq!(req.bot_4p, None);
    assert_eq!(req.bot_3p, None);
}

#[test]
fn requested_bot_goes_first() {
    let r = choose_bot(Some("alpha".to_string()), "beta", "gamma");
    assert_eq!(r, "alpha");
}

#[test]
fn requested_bot_keeps_its_spaces() {
    let r = choose_bot(Some(" alpha ".to_string()), "beta", "gamma");
    assert_eq!(r, " alpha ");
}

#[test]
fn blank_request_gives_way() {
    assert_eq!(choose_bot(Some(String::new()), "beta", "gamma"), "beta");
    assert_eq!(choose_bot(Some(" \t\n".to_string()), "beta", "gamma"), "beta");
    assert_eq!(choose_bot(Some("\u{3000}\u{a0}".to_string()), "beta", "gamma"), "beta");
}

#[test]
fn configured_bot_is_second() {
    assert_eq!(choose_bot(None, "beta", "gamma"), "beta");
}

#[test]
fn fallback_bot_is_last() {
    assert_eq!(choose_bot(None, "", DEFAULT_4P_BOT), "mortal");
    assert_eq!(choose_bot(None, "  ", DEFAULT_3P_BOT), "mortal3p");
}

#[test]
fn blank_is_white_space_only() {
    assert!(is_blank(""));
    assert!(is_blank(" \u{2003}\u{85}\r\n"));
    assert!(!is_blank(" x "));
    assert!(!is_blank("\u{200b}"));
}

#[test]
fn decimals_have_no_leading_zeros() {
    for n in 0..=4100usize {
        assert_eq!(decimal_text(n), n.to_string());
    }
    assert_eq!(decimal_text(usize::MAX), usize::MAX.to_string());
}

#[test]
fn joining_puts_the_separator_between() {
    let list = vec!["a".to_string(), "b".to_string(), "c".to_string()];
    assert_eq!(join(&list, ","), "a,b,c");
    assert_eq!(join(&vec!["a".to_string()], ","), "a");
    assert_eq!(join(&Vec::new(), ","), "");
}

#[test]
fn same_text_compares_characters() {
    assert!(same_text("5mr", "5mr"));
    assert!(!same_text("5mr", "5m"));
}
