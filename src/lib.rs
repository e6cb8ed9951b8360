//! An extensible chat bot runtime: routes match incoming messages, callbacks answer them with
//! actions, and a hierarchical key-value store keeps their state.
//!
//! The library decides; a run loop around it does the waiting. `Robot::dispatch` starts the way
//! of one message through the routes that fire on it, and the resulting `Dispatch` says, one
//! command at a time, which callback to invoke, when to pull the next action and what to send.

pub mod adapter;
pub mod chat_service;
pub mod config;
pub mod correspondent;
pub mod error;
pub mod handler;
pub mod message;
pub mod pattern;
pub mod prelude;
pub mod result;
pub mod robot;
pub mod room;
pub mod route;
pub mod storage;
pub mod store;
pub mod user;
