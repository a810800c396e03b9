//! A verified conversation session and request broker for a chat-completion
//! endpoint: an append-only conversation log with a mandatory system
//! preamble, a wire-format payload builder, a persisted-settings codec, and
//! the cached exit-prevention flag read on the window-close path.
pub mod broker;
pub mod escape;
pub mod payload;
pub mod reply;
pub mod settings;
pub mod strutil;
pub mod turns;
