//! A coding assistant for the terminal, as a verified library.
//!
//! The library turns a user's instruction into a bounded sequence of model
//! calls and tool runs. It holds everything that decides: the conversation
//! engine ([`agent`]), the canonical chat model and its translation for each
//! provider ([`api`]), the response cache ([`cache`]), the tool dispatcher
//! ([`dispatch`]), and what the tools check and report ([`tools`]). It
//! performs no input or output itself; a caller makes the calls that the
//! engine asks for and hands back what happened.
//!
//! Every executable function states its result over a mathematical model of
//! its inputs, and the properties that hold across functions are proved as
//! public proof functions beside the specifications they speak of.

pub mod agent;
pub mod api;
pub mod backup;
pub mod cache;
pub mod config;
pub mod dispatch;
pub mod display;
pub mod error;
pub mod json;
pub mod keystore;
pub mod plugins;
pub mod text;
pub mod tools;
pub mod tui;
