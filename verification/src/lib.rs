//! Task bookkeeping for a Discord task bot: the task model, how stored rows
//! read back, how reminders are collected, stored, shown and scheduled, how
//! an edit applies, and the text that the bot's commands answer with.
//!
//! The bot itself (Discord commands, the SQLite store, the clock and the
//! reminder loop) stands around this library and hands it plain values.

pub mod text;
pub mod models;
pub mod choices;
pub mod reminders;
pub mod rows;
pub mod due;
pub mod notify;
pub mod edit;
pub mod messages;
