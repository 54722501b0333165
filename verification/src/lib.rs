//! Rocket League rich presence: the verified core of a bridge between the
//! game's Stats API and Discord's rich presence.

pub mod cache;
pub mod config;
pub mod encoding;
pub mod launcher;
pub mod maps;
pub mod playlist;
pub mod rank;
pub mod session;
pub mod text;
