//! What can go wrong at the table, and how it is told.

use vstd::prelude::*;
use crate::table::MAX_AUTO_STEPS;
use crate::text::{decimal, decimal_text};

verus! {

/// Why a request to the table is refused, or a game cannot be played.
#[derive(Debug)]
pub enum LocalGameError {
    /// No game is being played.
    NoGame,
    /// The action that was submitted is none of those last offered.
    ActionNotLegal,
    /// The game went on too long without the human player.
    StepsExceeded,
    /// There is nothing to launch bots with.
    NoRuntime,
    /// The bot is not installed as a project.
    NoProject { bot: String },
    /// The bot is being installed right now.
    SyncInProgress { bot: String },
}

impl LocalGameError {
    /// The text of an error.
    pub open spec fn text(&self) -> Seq<char> {
        match self {
            LocalGameError::NoGame => "no local game is running"@,
            LocalGameError::ActionNotLegal => "local action is no longer legal"@,
            LocalGameError::StepsExceeded => "local game auto loop exceeded "@ + decimal(
                MAX_AUTO_STEPS as nat,
            ) + " steps"@,
            LocalGameError::NoRuntime => {
                "Python runtime not available; bots cannot be launched"@
            },
            LocalGameError::NoProject { bot } => "bot "@ + bot@
                + " has no pyproject.toml; local opponents require a normal Akagi bot install"@,
            LocalGameError::SyncInProgress { bot } => "sync already in progress for "@ + bot@,
        }
    }

    /// The text of the error.
    pub fn message(&self) -> (r: String)
        ensures
            r@ == self.text(),
    {
        match self {
            LocalGameError::NoGame => "no local game is running".to_owned(),
            LocalGameError::ActionNotLegal => "local action is no longer legal".to_owned(),
            LocalGameError::StepsExceeded => {
                let mut r = "local game auto loop exceeded ".to_owned();
                r.append(decimal_text(MAX_AUTO_STEPS).as_str());
                r.append(" steps");
                r
            },
            LocalGameError::NoRuntime => {
                "Python runtime not available; bots cannot be launched".to_owned()
            },
            LocalGameError::NoProject { bot } => {
                let mut r = "bot ".to_owned();
                r.append(bot.as_str());
                r.append(
                    " has no pyproject.toml; local opponents require a normal Akagi bot install",
                );
                r
            },
            LocalGameError::SyncInProgress { bot } => {
                let mut r = "sync already in progress for ".to_owned();
                r.append(bot.as_str());
                r
            },
        }
    }
}

} // verus!
