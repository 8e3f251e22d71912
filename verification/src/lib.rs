//! Verified core of GSB Connect: configuration parsing and rendering,
//! credential encoding, the login retry policy, localization and small
//! helpers shared by the desktop shell.

pub mod text;
pub mod ini;
pub mod base64;
pub mod secret_store;
pub mod config;
pub mod login;
pub mod i18n;
pub mod alert;
pub mod autostart;
pub mod gui;
