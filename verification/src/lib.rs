//! Decision logic of a hotkey-driven translation utility.
//!
//! The crate holds the rules by which selected text is captured through the
//! clipboard, a chat-completion request is composed, its reply is read, and the
//! translation is pasted back. It performs no I/O: every effect is described
//! as an [`effect::Action`] that the caller carries out, answering with an
//! [`effect::Event`].

pub mod capture;
pub mod config;
pub mod dispatch;
pub mod effect;
pub mod json;
pub mod pipeline;
pub mod translate;
