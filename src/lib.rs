//! Relay of source-hosting webhook events to chat destinations: signature
//! checking, normalisation of event payloads, message formatting and routing.

pub mod config;
pub mod github;
pub mod json;
pub mod telegram;
pub mod text;
pub mod webhook;
