//! The backend of a keyboard-driven clipboard manager: the clip history store
//! with its search, the capture and paste decisions, the tray menu and the
//! preferences.

pub mod capture;
pub mod commands;
pub mod db;
pub mod paste;
pub mod settings;
pub mod sqlite;
pub mod strings;
pub mod tray;
