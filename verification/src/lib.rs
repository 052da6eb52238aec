//! Deferred verification reconciliation for a chat-platform role bot.
//!
//! A user who joins a guild, or asks for it, is granted the guild's verified role once the
//! verification backend confirms them. The backend may lag, so unresolved users are checked
//! again, sweep after sweep, until they are confirmed or their retry budget is spent.

pub mod cache;
pub mod commands;
pub mod scheduler;
