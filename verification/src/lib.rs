//! Verified core of a Discord community bot: game rules of the
//! "Coup de Coude" mini-game, moderation helpers, progression role sync,
//! security decisions and the slot machine routing.

pub mod text;
pub mod config;
pub mod guild_config;
pub mod milestones;
pub mod ultimates;
pub mod prison;
pub mod coude;
pub mod challenge;
pub mod progression;
pub mod security;
pub mod tournament;
pub mod duel;
pub mod profile;
pub mod prank;
pub mod curses;
pub mod slot;
pub mod moderation;
pub mod games;
pub mod templates;
pub mod help;
pub mod dates;
