//! Game modes, start requests and the choice of bots.

use vstd::prelude::*;
use crate::text::{blank, is_blank};

verus! {

/// The seat of the human player.
pub const HUMAN_SEAT: u8 = 0;

/// The four-player bot where neither the request nor the configuration names one.
pub const DEFAULT_4P_BOT: &'static str = "mortal";

/// The three-player bot where neither the request nor the configuration names one.
pub const DEFAULT_3P_BOT: &'static str = "mortal3p";

/// How many players sit down, and whether the game is an east round or a half game.
#[derive(Debug, Clone, Copy, PartialEq, Eq, Structural)]
pub enum LocalGameMode {
    FourEast,
    FourHanchan,
    ThreeEast,
    ThreeHanchan,
}

impl LocalGameMode {
    /// Three seats in the two three-player modes, four in the others.
    pub open spec fn seats(self) -> u8 {
        if self is ThreeEast || self is ThreeHanchan {
            3
        } else {
            4
        }
    }

    /// The number by which the rules engine knows the mode.
    pub open spec fn id(self) -> u8 {
        match self {
            Self::FourEast => 1,
            Self::FourHanchan => 2,
            Self::ThreeEast => 4,
            Self::ThreeHanchan => 5,
        }
    }

    /// The number of players.
    pub fn num_players(self) -> (n: u8)
        ensures
            n == self.seats(),
    {
        match self {
            Self::FourEast | Self::FourHanchan => 4,
            Self::ThreeEast | Self::ThreeHanchan => 3,
        }
    }

    /// The number by which the rules engine knows the mode.
    pub fn game_mode_id(self) -> (id: u8)
        ensures
            id == self.id(),
    {
        match self {
            Self::FourEast => 1,
            Self::FourHanchan => 2,
            Self::ThreeEast => 4,
            Self::ThreeHanchan => 5,
        }
    }
}

/// What a player asks for when a game is started.
#[derive(Debug, Clone)]
pub struct LocalGameStartRequest {
    pub mode: Option<LocalGameMode>,
    pub bot_4p: Option<String>,
    pub bot_3p: Option<String>,
}

impl Default for LocalGameStartRequest {
    fn default() -> (r: Self)
        ensures
            r.mode is None,
            r.bot_4p is None,
            r.bot_3p is None,
    {
        LocalGameStartRequest { mode: None, bot_4p: None, bot_3p: None }
    }
}

impl LocalGameStartRequest {
    /// The mode to play: four-player east where the request leaves it open.
    pub open spec fn mode_or_default(self) -> LocalGameMode {
        match self.mode {
            Some(mode) => mode,
            None => LocalGameMode::FourEast,
        }
    }
}

/// The bot to play with: the requested one unless it is missing or blank, then the configured one
/// unless it is blank, then `fallback`.
pub open spec fn chosen_bot(
    requested: Option<Seq<char>>,
    configured: Seq<char>,
    fallback: Seq<char>,
) -> Seq<char> {
    if requested is Some && !blank(requested->0) {
        requested->0
    } else if !blank(configured) {
        configured
    } else {
        fallback
    }
}

/// Chooses the bot to play with.
pub fn choose_bot(requested: Option<String>, configured: &str, fallback: &str) -> (r: String)
    ensures
        r@ == chosen_bot(requested.deep_view(), configured@, fallback@),
{
    if let Some(name) = requested {
        if !is_blank(name.as_str()) {
            return name;
        }
    }
    if !is_blank(configured) {
        configured.to_owned()
    } else {
        fallback.to_owned()
    }
}

} // verus!
