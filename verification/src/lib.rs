//! Verified core of boi, a small opinionated wrapper around Borg backups.

pub mod text;
pub mod prune;
pub mod borg;
pub mod config;
pub mod child;
pub mod progress;
pub mod reporting;
pub mod check;
pub mod frontend;
pub mod snapshot;
pub mod apfs;
pub mod upload;
pub mod tiptop;
pub mod signals;
pub mod foreground;
