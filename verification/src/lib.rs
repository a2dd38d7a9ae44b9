//! Verified core of the Windrose server manager.
pub mod text;
pub mod updates;
pub mod crypto;
pub mod accounts;
pub mod access;
pub mod clock;
pub mod logs;
pub mod players;
pub mod lifecycle;
pub mod schedule;
pub mod web;
pub mod config;
pub mod files;
pub mod install;
pub mod pidfile;
pub mod game_config;
