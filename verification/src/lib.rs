//! A bot's session with the QQ guild gateway, without the socket.
//!
//! - [`operation`]: the envelope that travels over the connection.
//! - [`codec`]: frames to envelopes and back, over JSON.
//! - [`json`]: JSON documents as trees, read and written by `serde_json`.
//! - [`subscription_mask`]: the intent mask that a session identifies with.
//! - [`heartbeat`]: when to send a heartbeat, and when one went unanswered.
//! - [`wss`]: the session itself, from the handshake to the dispatched events.

pub mod codec;
pub mod heartbeat;
pub mod json;
pub mod operation;
pub mod subscription_mask;
pub mod wss;
