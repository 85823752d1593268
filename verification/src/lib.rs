//! Verified core of the AuvroAI desktop chat client.
use vstd::prelude::*;

pub mod actions;
pub mod ai;
pub mod auth;
pub mod backend;
pub mod chat_pipeline;
pub mod chat_state;
pub mod conversation_list;
pub mod events;
pub mod forms;
pub mod json;
pub mod keychain;
pub mod message_blocks;
pub mod model_metadata;
pub mod provider;
pub mod requests;
pub mod response_cache;
pub mod secret_crypto;
pub mod secret_map;
pub mod secrets;
pub mod session;
pub mod startup;
pub mod streaming;
pub mod text;

verus! {

} // verus!
