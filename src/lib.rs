//! Forwards chat messages that reach an agreement threshold to a channel
//! chosen per guild.

pub mod command;
pub mod decision;
pub mod embed;
pub mod routing;
pub mod webhook;
