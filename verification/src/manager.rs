//! The one game that is being played, if any.

use vstd::prelude::*;
use crate::claim_laws::{claiming, plays_with};
use crate::error::LocalGameError;
use crate::mode::{
    choose_bot, chosen_bot, LocalGameMode, LocalGameStartRequest, DEFAULT_3P_BOT, DEFAULT_4P_BOT,
};
use crate::table::{
    claimants, human_choice, offered, playing_bot, plays_together, polled, seat_names, GameView,
    LocalGame, RoundView, TableStep,
};
use crate::view::{shown_game, LocalGameView};

verus! {

/// Keeps the game that is being played.
pub struct LocalGameManager {
    game: Option<LocalGame>,
}

/// The four-player bot of a game that is asked for.
pub open spec fn bot_4p_for(req: LocalGameStartRequest, active_4p: Seq<char>) -> Seq<char> {
    chosen_bot(req.bot_4p.deep_view(), active_4p, DEFAULT_4P_BOT@)
}

/// The three-player bot of a game that is asked for.
pub open spec fn bot_3p_for(req: LocalGameStartRequest, active_3p: Seq<char>) -> Seq<char> {
    chosen_bot(req.bot_3p.deep_view(), active_3p, DEFAULT_3P_BOT@)
}

/// The game that is asked for, before anyone but the human player sits down, as far as chance leaves
/// it open: the engine is any that may open a game of the mode.
pub open spec fn is_prepared(
    game: GameView,
    req: LocalGameStartRequest,
    active_4p: Seq<char>,
    active_3p: Seq<char>,
) -> bool {
    let mode = req.mode_or_default();
    let bot_4p = bot_4p_for(req, active_4p);
    let bot_3p = bot_3p_for(req, active_3p);
    &&& game.engine.may_open(mode)
    &&& game == (GameView {
        mode,
        bot_4p,
        bot_3p,
        names: seat_names(mode, playing_bot(mode, bot_4p, bot_3p)),
        engine: game.engine,
        bots: Seq::empty(),
        latest_human_actions: Seq::empty(),
        emitted_log_len: 0,
        message: None,
        round: RoundView::Idle,
        budget: 0,
    })
}

impl Default for LocalGameManager {
    fn default() -> (r: Self)
        ensures
            r.running() is None,
    {
        LocalGameManager { game: None }
    }
}

impl LocalGameManager {
    /// The game that is being played.
    pub closed spec fn running(&self) -> Option<GameView> {
        match self.game {
            Some(game) => Some(game@),
            None => None,
        }
    }

    /// What holds of every manager: the game that is being played is a proper one.
    pub open spec fn wf(&self) -> bool {
        self.running() matches Some(game) ==> game.wf()
    }

    /// Sets up the game that is asked for, with the bots of the request or else of the
    /// configuration. What is being played goes on.
    pub fn prepare(req: LocalGameStartRequest, active_4p: &str, active_3p: &str) -> (r: LocalGame)
        ensures
            is_prepared(r@, req, active_4p@, active_3p@),
            r@.wf(),
    {
        let mode = match req.mode {
            Some(mode) => mode,
            None => LocalGameMode::FourEast,
        };
        let bot_4p = choose_bot(req.bot_4p, active_4p, DEFAULT_4P_BOT);
        let bot_3p = choose_bot(req.bot_3p, active_3p, DEFAULT_3P_BOT);
        let chosen = if mode.num_players() == 3 {
            bot_3p.clone()
        } else {
            bot_4p.clone()
        };
        LocalGame::new(mode, bot_4p, bot_3p, chosen)
    }

    /// Puts a game that has come to rest in the place of the one that was being played.
    pub fn start(&mut self, game: LocalGame) -> (r: LocalGameView)
        requires
            game@.wf(),
        ensures
            r@ == shown_game(game@),
            final(self).running() == Some(game@),
            final(self).wf(),
    {
        let view = game.show();
        self.game = Some(game);
        view
    }

    /// Takes an action of the human player.
    pub fn submit_action(&mut self, action_id: String) -> (r: Result<TableStep, LocalGameError>)
        requires
            old(self).wf(),
        ensures
            match old(self).running() {
                None => r == Err::<TableStep, LocalGameError>(LocalGameError::NoGame)
                    && final(self).running() is None,
                Some(game) => final(self).running() matches Some(after) && match offered(
                    game.latest_human_actions,
                    action_id@,
                ) {
                    None => r == Err::<TableStep, LocalGameError>(LocalGameError::ActionNotLegal)
                        && after == game,
                    Some(action) => r matches Ok(step) && {
                        &&& polled(
                            game,
                            claimants(game.engine.status()),
                            human_choice(action),
                            after,
                            step@,
                        )
                        &&& step is Collect ==> plays_together(
                            game.engine,
                            after.engine,
                            human_choice(action),
                        )
                        &&& step is Ask || step is Collect
                        &&& step is Ask ==> claiming(after, action)
                        &&& step is Collect ==> plays_with(game.engine, after.engine, action)
                    },
                },
            },
            final(self).wf(),
    {
        match &mut self.game {
            None => Err(LocalGameError::NoGame),
            Some(game) => game.submit(action_id.as_str()),
        }
    }

    /// The game that is being played, to be gone on with.
    pub fn game_mut(&mut self) -> (r: Option<&mut LocalGame>)
        ensures
            match r {
                None => old(self).running() is None && *final(self) == *old(self),
                Some(game) => old(self).running() == Some(game@) && final(self).running() == Some(
                    final(game)@,
                ),
            },
    {
        match &mut self.game {
            None => None,
            Some(game) => Some(game),
        }
    }

    /// What the human player is shown, if a game is being played.
    pub fn view(&self) -> (r: Option<LocalGameView>)
        requires
            self.wf(),
        ensures
            match self.running() {
                None => r is None,
                Some(game) => r matches Some(view) && view@ == shown_game(game),
            },
    {
        match &self.game {
            None => None,
            Some(game) => Some(game.show()),
        }
    }

    /// Ends the game that is being played.
    pub fn stop(&mut self)
        ensures
            final(self).running() is None,
            final(self).wf(),
    {
        self.game = None;
    }
}

} // verus!
