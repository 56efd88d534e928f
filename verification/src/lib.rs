//! The progression engine of an idle game: a player gathers spice by hand
//! and over time, and spends it on items that raise the rate of gathering or
//! the worth of one click.
pub mod amount;
pub mod text;
pub mod item;
pub mod clickeritem;
pub mod clock;
pub mod userstate;
pub mod listing;
pub mod catalog;
pub mod command;
pub mod gamestate;
pub mod laws;
