//! An append-only ledger of chat messages.
//!
//! The ledger stores each message together with the account that submitted
//! it, preserves insertion order, and exposes the number of stored messages
//! and a copy of the whole sequence. The submitting account comes from the
//! host execution context, one lookup per append.

mod chat;
mod host;
mod message;

pub use chat::after_appends;
pub use chat::lemma_after_appends;
pub use chat::Chat;
pub use message::Message;
pub use message::MessageView;
