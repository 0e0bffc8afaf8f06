//! The linking core of a bot that ties a chat-platform account to a wiki
//! account: pending link requests with lazy expiry, the durable link store,
//! the verification callback, and the reaction to a member joining a
//! community.
pub mod callback;
pub mod reactor;
pub mod registry;
pub mod store;
