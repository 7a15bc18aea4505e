#![verifier::loop_isolation(false)]
//! Protocol ingestion layer for a live-chat client: a typed command parser
//! for the tag-based line protocol, and the subscription-tracking state of
//! the two resilient WebSocket session clients.

pub mod line;
pub mod num;
pub mod split;
pub mod twitch;
pub mod extract;
pub mod commands;
pub mod usernotice;
pub mod tokenize;
pub mod registry;
pub mod eventsub;
pub mod seventv;
