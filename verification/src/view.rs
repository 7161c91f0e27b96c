//! What the human player is shown of a game.

use vstd::prelude::*;
use crate::action::{shown, ActionView, LocalActionView, ShownAction};
use crate::mode::{LocalGameMode, HUMAN_SEAT};
use crate::snapshot::{seen_table, GameStateSnapshot, SnapshotView};
use crate::table::GameView;

verus! {

/// What the human player is shown of a game.
#[derive(Debug, Clone)]
pub struct LocalGameView {
    pub mode: LocalGameMode,
    pub bot_4p: String,
    pub bot_3p: String,
    pub names: Vec<String>,
    pub snapshot: GameStateSnapshot,
    pub legal_actions: Vec<LocalActionView>,
    pub message: Option<String>,
}

/// What the human player is shown, as a mathematical value.
#[verifier::ext_equal]
pub struct ShownGame {
    pub mode: LocalGameMode,
    pub bot_4p: Seq<char>,
    pub bot_3p: Seq<char>,
    pub names: Seq<Seq<char>>,
    pub snapshot: SnapshotView,
    pub legal_actions: Seq<ShownAction>,
    pub message: Option<Seq<char>>,
}

impl View for LocalGameView {
    type V = ShownGame;

    open spec fn view(&self) -> ShownGame {
        ShownGame {
            mode: self.mode,
            bot_4p: self.bot_4p@,
            bot_3p: self.bot_3p@,
            names: self.names.deep_view(),
            snapshot: self.snapshot@,
            legal_actions: self.legal_actions.deep_view(),
            message: self.message.deep_view(),
        }
    }
}

/// What the human player is shown of the game `game`.
pub open spec fn shown_game(game: GameView) -> ShownGame {
    ShownGame {
        mode: game.mode,
        bot_4p: game.bot_4p,
        bot_3p: game.bot_3p,
        names: game.names,
        snapshot: seen_table(game.engine.status(), game.engine.table(), HUMAN_SEAT),
        legal_actions: game.latest_human_actions.map_values(|a: ActionView| shown(a)),
        message: game.message,
    }
}

} // verus!
