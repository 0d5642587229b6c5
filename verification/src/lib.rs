//! Verified game-side logic of the Tataku rhythm game client: task state
//! machines, chat, multiplayer lobby bookkeeping, online state, UI dialog
//! stacking, song queueing, downloads, notifications, and the rules of a play.

pub mod text;
pub mod chat;
pub mod dialogs;
pub mod discord;
pub mod frame;
pub mod game;
pub mod gameplay;
pub mod misc;
pub mod multiplayer;
pub mod notifications;
pub mod online;
pub mod online_content;
pub mod song;
pub mod tasks;
pub mod ui;
pub mod values;
