//! The decision logic of `codexctl`, a shell-native controller for the Codex App Server.
#![allow(unused_imports)]
pub mod clock;
pub mod command;
pub mod connect;
pub mod daemon;
pub mod error;
pub mod goal;
pub mod json;
pub mod listing;
pub mod notice;
pub mod paths;
pub mod registry;
pub mod remove;
pub mod session;
pub mod spawn;
pub mod start;
pub mod stop;
pub mod text;
pub mod turns;
pub mod wait;
