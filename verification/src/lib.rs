//! Hotkey-triggered prompt refinement: the verified core.
//!
//! A global hotkey selects a template, the clipboard text is substituted into
//! the template's prompt, the remote reply is pasted back, and the run is kept
//! in a bounded history. This crate holds the rules and data structures; the
//! host application performs the operating-system and network work.

pub mod anthropic;
pub mod clipboard;
pub mod config;
pub mod history;
pub mod hotkey;
pub mod hotkey_manager;
pub mod lookup;
pub mod migration;
pub mod models;
pub mod paste;
pub mod text;
pub mod workflow;
