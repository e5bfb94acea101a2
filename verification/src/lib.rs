//! Verified core of ClaudeMeter, a tray monitor for AI subscription usage.

pub mod text;
pub mod json;
pub mod credentials;
pub mod updater;
pub mod config;
pub mod i18n;
pub mod theme;
pub mod usage;
pub mod notifications;
pub mod time;
pub mod pace;
pub mod colors;
pub mod tray;
pub mod popup;
pub mod autostart;
pub mod widget;
pub mod history;
pub mod agent;
pub mod keyed;
pub mod clock;
