//! An echo chat bot: it repeats each incoming message a configurable number
//! of times, either on a local console or against the Telegram Bot HTTP API.
//!
//! This crate holds the verified core: command parsing, conversion of raw
//! API updates into typed events, per-chat conversation state, the update
//! handler that decides which outbound calls to make, and the poll cycle.
//! Network and terminal I/O live outside the library and drive it through
//! the `TelegramClient` and `Logger` traits.

pub mod client;
pub mod client_types;
pub mod commands;
pub mod config;
pub mod console;
pub mod handler;
pub mod keyboard;
pub mod logger;
pub mod poll;
pub mod text;
pub mod update_converter;
pub mod validation;
