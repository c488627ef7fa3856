//! Session Signals: what coding sessions are doing, and who is to be told of it.

pub mod alert;
pub mod cli_alert;
pub mod cli_alert_laws;
pub mod config;
pub mod engine;
pub mod event;
pub mod folder;
pub mod glyph;
pub mod ignore;
pub mod label;
pub mod laws;
pub mod listener;
pub mod markers;
pub mod model;
pub mod report;
pub mod session;
pub mod shell;
pub mod table;
pub mod text;
pub mod time;
