//! A bridge between a host authentication runtime's callback-style
//! conversation protocol and a pluggable, strongly-typed conversation
//! handler.
//!
//! The host drives authentication as a conversation: it hands over a batch
//! of messages (visible prompts, hidden prompts, informational text, error
//! text) and expects a parallel batch of responses. This crate provides the
//! verified core of that exchange: the [`conv::Conversation`] handler
//! contract, a minimal credential-based handler, and the
//! [`bridge::converse`] function that classifies each message, dispatches it
//! to the handler, collects the responses, and stops at the first failure.

pub mod bridge;
pub mod conv;
pub mod types;

pub use bridge::converse;
pub use conv::Conversation;
pub use conv::PasswordConv;
pub use types::PamMessage;
pub use types::PamMessageStyle;
pub use types::PamResponse;
pub use types::PamReturnCode;
