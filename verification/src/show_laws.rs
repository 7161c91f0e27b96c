//! What is shown, said and set up, said of the parts it is made of.

use vstd::prelude::*;
use crate::action::{id_of, shown, ActionType, ActionView, LocalActionKind};
use crate::engine::{StatusView, TableView};
use crate::error::LocalGameError;
use crate::event::{seen_by, EventView};
use crate::manager::is_prepared;
use crate::mode::{chosen_bot, LocalGameMode, LocalGameStartRequest, HUMAN_SEAT};
use crate::response::failure_text;
use crate::snapshot::seen_table;
use crate::table::{
    fed, fresh_bots, opening_event, playing_bot, seat_names, GameView, SeatBotView,
};
use crate::text::{blank, decimal, digit, is_white_space, joined};
use crate::tile::tile_name;
use crate::view::shown_game;

verus! {

/// The number that a text of digits is read as.
pub open spec fn read_number(digits: Seq<char>) -> nat
    decreases digits.len(),
{
    if digits.len() == 0 {
        0
    } else {
        10 * read_number(digits.drop_last()) + (digits.last() as nat - '0' as nat) as nat
    }
}

/// A number in decimal consists of digits, does not begin with a zero unless it is zero, and is read
/// back as the number.
pub proof fn law_decimal_is_read_back(n: nat)
    ensures
        decimal(n).len() > 0,
        forall|i: int| 0 <= i < decimal(n).len() ==> '0' <= #[trigger] decimal(n)[i] <= '9',
        n > 0 ==> decimal(n)[0] != '0',
        n == 0 ==> decimal(n) == seq!['0'],
        read_number(decimal(n)) == n,
    decreases n,
{
    if n < 10 {
        assert(digit(n) as int == 48 + n);
        assert(decimal(n).drop_last() =~= Seq::empty());
        reveal_with_fuel(read_number, 2);
    } else {
        let d = n % 10;
        law_decimal_is_read_back(n / 10);
        assert(digit(d) as int == 48 + d);
        assert(decimal(n).drop_last() =~= decimal(n / 10));
        assert(decimal(n).last() == digit(d));
        assert forall|i: int| 0 <= i < decimal(n).len() implies '0' <= #[trigger] decimal(n)[i]
            <= '9' by {
            if i < decimal(n / 10).len() {
                assert(decimal(n)[i] == decimal(n / 10)[i]);
            }
        }
        assert(decimal(n)[0] == decimal(n / 10)[0]);
    }
}

/// A list is joined by putting the separator between neighbours and nowhere else.
pub proof fn law_joined(list: Seq<Seq<char>>, next: Seq<char>, sep: Seq<char>)
    ensures
        joined(Seq::empty(), sep) == Seq::<char>::empty(),
        joined(seq![next], sep) == next,
        list.len() > 0 ==> joined(list.push(next), sep) == joined(list, sep) + sep + next,
{
    assert(list.push(next).drop_last() =~= list);
}

/// The name under which a kind of action stands in an identifier.
pub open spec fn word_for(kind: ActionType) -> Seq<char> {
    match kind {
        ActionType::Discard => "Discard"@,
        ActionType::Chi => "Chi"@,
        ActionType::Pon => "Pon"@,
        ActionType::Daiminkan => "Daiminkan"@,
        ActionType::Ron => "Ron"@,
        ActionType::Riichi => "Riichi"@,
        ActionType::Tsumo => "Tsumo"@,
        ActionType::Pass => "Pass"@,
        ActionType::Ankan => "Ankan"@,
        ActionType::Kakan => "Kakan"@,
        ActionType::KyushuKyuhai => "KyushuKyuhai"@,
        ActionType::Kita => "Kita"@,
    }
}

/// Whether a kind is shown as the kind of the same name.
pub open spec fn same_kind(kind: ActionType, shown: LocalActionKind) -> bool {
    &&& kind is Discard <==> shown is Discard
    &&& kind is Chi <==> shown is Chi
    &&& kind is Pon <==> shown is Pon
    &&& kind is Daiminkan <==> shown is Daiminkan
    &&& kind is Ron <==> shown is Ron
    &&& kind is Riichi <==> shown is Riichi
    &&& kind is Tsumo <==> shown is Tsumo
    &&& kind is Pass <==> shown is Pass
    &&& kind is Ankan <==> shown is Ankan
    &&& kind is Kakan <==> shown is Kakan
    &&& kind is KyushuKyuhai <==> shown is KyushuKyuhai
    &&& kind is Kita <==> shown is Kita
}

/// An action is shown under its own kind, as the human player's where it has no actor, with the names of
/// its tile and of each tile that it consumes. Its identifier has four parts between bars: the kind,
/// the actor's number or 255, the tile's name or nothing, and the consumed tiles' names with commas.
pub proof fn law_action_is_shown_whole(a: ActionView)
    ensures
        same_kind(a.action_type, shown(a).kind),
        a.actor matches Some(seat) ==> shown(a).actor == seat,
        a.actor is None ==> shown(a).actor == 0,
        a.tile matches Some(t) ==> shown(a).tile == Some(tile_name(t)),
        a.tile is None ==> shown(a).tile is None,
        shown(a).consumed.len() == a.consume_tiles.len(),
        forall|i: int|
            0 <= i < a.consume_tiles.len() ==> #[trigger] shown(a).consumed[i] == tile_name(
                a.consume_tiles[i],
            ),
        shown(a).id == id_of(a),
        id_of(a) == word_for(a.action_type) + "|"@ + decimal(
            if a.actor is Some {
                a.actor->0 as nat
            } else {
                255
            },
        ) + "|"@ + (if a.tile is Some {
            tile_name(a.tile->0)
        } else {
            Seq::empty()
        }) + "|"@ + joined(shown(a).consumed, ","@),
{
}

/// What a seat sees of an event is the event, but that the start of a game names the seat, and every
/// tile of another hand or of another player's draw is a question mark.
pub proof fn law_what_a_seat_sees(e: EventView, seat: u8)
    ensures
        e matches EventView::StartGame { names, kyoku_first, aka_flag, num_players, .. } ==> seen_by(
            e,
            seat,
        ) == (EventView::StartGame {
            names,
            kyoku_first,
            aka_flag,
            id: Some(seat),
            num_players,
        }),
        e matches EventView::StartKyoku {
            bakaze,
            dora_marker,
            kyoku,
            honba,
            kyotaku,
            oya,
            scores,
            tehais,
            num_players,
        } ==> (seen_by(e, seat) matches EventView::StartKyoku {
            bakaze: bakaze2,
            dora_marker: dora_marker2,
            kyoku: kyoku2,
            honba: honba2,
            kyotaku: kyotaku2,
            oya: oya2,
            scores: scores2,
            tehais: tehais2,
            num_players: num_players2,
        } && {
            &&& bakaze2 == bakaze
            &&& dora_marker2 == dora_marker
            &&& kyoku2 == kyoku
            &&& honba2 == honba
            &&& kyotaku2 == kyotaku
            &&& oya2 == oya
            &&& scores2 == scores
            &&& num_players2 == num_players
            &&& tehais2.len() == tehais.len()
            &&& forall|i: int|
                0 <= i < tehais.len() ==> (#[trigger] tehais2[i]).len() == tehais[i].len()
            &&& forall|i: int, k: int|
                0 <= i < tehais.len() && 0 <= k < tehais[i].len() ==> #[trigger] tehais2[i][k] == (
                if i == seat {
                    tehais[i][k]
                } else {
                    "?"@
                })
        }),
        e matches EventView::Tsumo { actor, pai } ==> seen_by(e, seat) == (EventView::Tsumo {
            actor,
            pai: if actor == seat {
                pai
            } else {
                "?"@
            },
        }),
        !(e is StartGame) && !(e is StartKyoku) && !(e is Tsumo) ==> seen_by(e, seat) == e,
{
}

/// Feeding an event leaves every bot at its seat and appends what that seat sees, whatever the event.
pub proof fn law_every_bot_is_fed(bots: Seq<SeatBotView>, event: EventView)
    ensures
        fed(bots, event).len() == bots.len(),
        forall|i: int|
            0 <= i < bots.len() ==> #[trigger] fed(bots, event)[i] == (SeatBotView {
                seat: bots[i].seat,
                name: bots[i].name,
                pending: bots[i].pending.push(seen_by(event, bots[i].seat)),
            }),
{
}

/// The stream is opened with the names of the players, the first round, red fives, the human seat and
/// the number of players of the mode.
pub proof fn law_opening(game: GameView)
    ensures
        opening_event(game) == (EventView::StartGame {
            names: game.names,
            kyoku_first: Some(0),
            aka_flag: Some(true),
            id: Some(0),
            num_players: if game.mode is ThreeEast || game.mode is ThreeHanchan {
                3
            } else {
                4
            },
        }),
{
}

/// The engine knows the modes by their numbers, and two of them have three seats and two four.
pub proof fn law_modes(mode: LocalGameMode)
    ensures
        mode is FourEast ==> mode.seats() == 4 && mode.id() == 1,
        mode is FourHanchan ==> mode.seats() == 4 && mode.id() == 2,
        mode is ThreeEast ==> mode.seats() == 3 && mode.id() == 4,
        mode is ThreeHanchan ==> mode.seats() == 3 && mode.id() == 5,
        HUMAN_SEAT == 0,
{
}

/// In both three-player modes the bot that is launched and seated is the three-player bot, in both
/// four-player modes the four-player bot.
pub proof fn law_bot_fits_the_mode(mode: LocalGameMode, bot_4p: Seq<char>, bot_3p: Seq<char>)
    ensures
        mode is ThreeEast || mode is ThreeHanchan ==> playing_bot(mode, bot_4p, bot_3p) == bot_3p,
        mode is FourEast || mode is FourHanchan ==> playing_bot(mode, bot_4p, bot_3p) == bot_4p,
{
}

/// The bots that are seated sit at the seats after the human one, in order, under the bot's name, with
/// nothing to be shown yet.
pub proof fn law_bots_that_are_seated(mode: LocalGameMode, name: Seq<char>)
    ensures
        fresh_bots(mode, name).len() == if mode is ThreeEast || mode is ThreeHanchan {
            2nat
        } else {
            3nat
        },
        forall|i: int|
            0 <= i < fresh_bots(mode, name).len() ==> {
                &&& (#[trigger] fresh_bots(mode, name)[i]).seat == i + 1
                &&& fresh_bots(mode, name)[i].name == name
                &&& fresh_bots(mode, name)[i].pending.len() == 0
            },
{
}

/// The players' names are the human one's and the bot's with the number of each seat.
pub proof fn law_names(mode: LocalGameMode, bot: Seq<char>)
    ensures
        seat_names(mode, bot).len() == if mode is ThreeEast || mode is ThreeHanchan {
            3nat
        } else {
            4nat
        },
        seat_names(mode, bot)[0] == "Player"@,
        forall|i: int|
            0 < i < seat_names(mode, bot).len() ==> #[trigger] seat_names(mode, bot)[i] == bot + " "@
                + decimal(i as nat),
{
}

/// Whether a text holds anything but white space.
pub open spec fn has_ink(s: Seq<char>) -> bool {
    exists|k: int| 0 <= k < s.len() && !is_white_space(#[trigger] s[k])
}

/// Whether `bot` is the one to play with: the requested one if it holds anything but white space, else
/// the configured one if that does, else the given one.
pub open spec fn is_choice(
    bot: Seq<char>,
    requested: Option<String>,
    configured: Seq<char>,
    given: Seq<char>,
) -> bool {
    &&& requested matches Some(asked) ==> (has_ink(asked@) ==> bot == asked@)
    &&& !(requested matches Some(asked) && has_ink(asked@)) ==> {
        &&& has_ink(configured) ==> bot == configured
        &&& !has_ink(configured) ==> bot == given
    }
}

/// A text is blank exactly if it holds nothing but white space, and a bot is chosen accordingly: the
/// requested one before the configured one, and that before the given one.
pub proof fn law_choice_of_a_bot(requested: Option<String>, configured: Seq<char>, given: Seq<char>)
    ensures
        blank(configured) <==> !has_ink(configured),
        is_choice(
            chosen_bot(requested.deep_view(), configured, given),
            requested,
            configured,
            given,
        ),
{
    assert(requested matches Some(asked) ==> requested.deep_view() == Some(asked@));
}

/// A game that is asked for has the mode of the request, else four-player east; both its bots chosen
/// from request and configuration; and, in the three-player modes, names after the three-player bot,
/// else after the four-player bot. Nothing has happened in it.
pub proof fn law_game_as_asked_for(
    game: GameView,
    req: LocalGameStartRequest,
    active_4p: Seq<char>,
    active_3p: Seq<char>,
)
    requires
        is_prepared(game, req, active_4p, active_3p),
    ensures
        req.mode matches Some(mode) ==> game.mode == mode,
        req.mode is None ==> game.mode is FourEast,
        is_choice(game.bot_4p, req.bot_4p, active_4p, "mortal"@),
        is_choice(game.bot_3p, req.bot_3p, active_3p, "mortal3p"@),
        game.engine.may_open(game.mode),
        game.mode is ThreeEast || game.mode is ThreeHanchan ==> {
            &&& game.names.len() == 3
            &&& forall|i: int|
                0 < i < 3 ==> #[trigger] game.names[i] == game.bot_3p + " "@ + decimal(i as nat)
        },
        game.mode is FourEast || game.mode is FourHanchan ==> {
            &&& game.names.len() == 4
            &&& forall|i: int|
                0 < i < 4 ==> #[trigger] game.names[i] == game.bot_4p + " "@ + decimal(i as nat)
        },
        game.names[0] == "Player"@,
        game.bots.len() == 0,
        game.latest_human_actions.len() == 0,
        game.emitted_log_len == 0,
        game.message is None,
        game.round is Idle,
{
    assert(req.bot_4p matches Some(asked) ==> req.bot_4p.deep_view() == Some(asked@));
    assert(req.bot_3p matches Some(asked) ==> req.bot_3p.deep_view() == Some(asked@));
}

/// A player is shown the table as it is, the own hand open, and of the others the size of the hand.
pub proof fn law_table_is_shown(status: StatusView, table: TableView, viewer: u8)
    ensures
        ({
            let s = seen_table(status, table, viewer);
            &&& s.viewer == viewer
            &&& s.is_done == status.is_done
            &&& s.phase == status.phase
            &&& s.current_player == status.current_player
            &&& s.round_wind == table.round_wind
            &&& s.oya == table.oya
            &&& s.honba == table.honba
            &&& s.riichi_sticks == table.riichi_sticks
            &&& s.dora_indicators == table.dora_indicators
            &&& s.seats.len() == table.seats.len()
            &&& forall|i: int|
                0 <= i < table.seats.len() ==> {
                    &&& (#[trigger] s.seats[i]).hand == (if i == viewer {
                        Some(table.seats[i].hand)
                    } else {
                        None
                    })
                    &&& s.seats[i].hand_size == table.seats[i].hand.len()
                    &&& s.seats[i].discards == table.seats[i].discards
                    &&& s.seats[i].score == table.seats[i].score
                    &&& s.seats[i].riichi_declared == table.seats[i].riichi_declared
                }
        }),
{
}

/// The human player is shown the game's mode, bots, names and message as they are, the table from the
/// human seat, and every action on offer, in its order.
pub proof fn law_game_is_shown(game: GameView)
    ensures
        ({
            let v = shown_game(game);
            &&& v.mode == game.mode
            &&& v.bot_4p == game.bot_4p
            &&& v.bot_3p == game.bot_3p
            &&& v.names == game.names
            &&& v.message == game.message
            &&& v.snapshot == seen_table(game.engine.status(), game.engine.table(), 0)
            &&& v.legal_actions.len() == game.latest_human_actions.len()
            &&& forall|i: int|
                0 <= i < game.latest_human_actions.len() ==> #[trigger] v.legal_actions[i] == shown(
                    game.latest_human_actions[i],
                )
        }),
{
}

/// What is told of a refusal, and of a bot that fails, for every bot, seat and cause.
pub proof fn law_what_is_told(e: LocalGameError, name: Seq<char>, seat: u8, cause: Seq<char>)
    ensures
        e is NoGame ==> e.text() == "no local game is running"@,
        e is ActionNotLegal ==> e.text() == "local action is no longer legal"@,
        e is StepsExceeded ==> e.text() == "local game auto loop exceeded "@ + decimal(4000)
            + " steps"@,
        e is NoRuntime ==> e.text() == "Python runtime not available; bots cannot be launched"@,
        e matches LocalGameError::NoProject { bot } ==> e.text() == "bot "@ + bot@
            + " has no pyproject.toml; local opponents require a normal Akagi bot install"@,
        e matches LocalGameError::SyncInProgress { bot } ==> e.text()
            == "sync already in progress for "@ + bot@,
        failure_text(name, seat, cause) == "local bot "@ + name + " (seat "@ + decimal(seat as nat)
            + ") failed: "@ + cause,
{
}

} // verus!
