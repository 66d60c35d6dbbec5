pub mod text;
pub mod hardware;
pub mod ec_io;
pub mod curve;
pub mod ec;
pub mod i18n;
pub mod alert;
pub mod fan;
pub mod thermal;
pub mod config;
pub mod cli;
pub mod session;
pub mod diagnose;
pub mod harden;
pub mod platform;
pub mod pawnio;
pub mod tray;
pub mod ui;
pub mod edit;
pub mod logger;
