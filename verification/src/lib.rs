//! Verified core of the pikadick chat bot.

pub mod text;
pub mod hex;
pub mod r6tracker;
pub mod profile;
pub mod embed;
pub mod stats;
pub mod vaporwave;
pub mod zalgo;
pub mod flags;
pub mod tiktok;
pub mod reencode;
pub mod message;
pub mod rule34;
pub mod sqlite_log;
pub mod ffmpeg;
pub mod urban;
pub mod links;
