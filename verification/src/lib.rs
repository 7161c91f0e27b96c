//! A riichi mahjong table that runs on this machine: one human seat, the other seats played by
//! bots, the rules kept by the `riichienv_core` engine.
//!
//! The library holds the table's decisions. It performs no input or output: where a bot has to be
//! asked, or an event has to be sent, a function returns what is wanted and the program around the
//! library does it.

pub mod action;
pub mod answer_laws;
pub mod auto_laws;
pub mod bag;
pub mod claim_laws;
pub mod engine;
pub mod error;
pub mod event;
pub mod id_laws;
pub mod laws;
pub mod log_line;
pub mod manager;
pub mod matching;
pub mod mode;
pub mod response;
pub mod show_laws;
pub mod snapshot;
pub mod table;
pub mod text;
pub mod tile;
pub mod tile_laws;
pub mod turn_laws;
pub mod view;

