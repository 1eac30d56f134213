//! Server-side building blocks for bots on an end-to-end encrypted
//! messaging platform: message fan-out to every device of a conversation,
//! recovery when the platform reports devices without a session, inbound
//! request routing and the bookkeeping of per-bot state.

pub mod text;
pub mod encoding;
pub mod assoc;
pub mod devices;
pub mod recipients;
pub mod members;
pub mod errors;
pub mod ids;
pub mod types;
pub mod messages;
pub mod picture;
pub mod utils;
pub mod storage;
pub mod file_store;
pub mod otr_manager;
pub mod service;
pub mod client;
pub mod delivery;
pub mod cache;
pub mod handlers;

pub use crate::client::BotClient;
pub use crate::errors::{BerylliumError, BerylliumResult};
pub use crate::types::{Event, EventData};
