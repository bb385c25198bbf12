//! Decision logic of a chat bot that answers slash-commands about polls.
//!
//! The crate holds no I/O.  A caller fetches updates from the messaging
//! service, hands them to a [`poller::UpdatePoller`], and performs the
//! [`action::Action`]s that come back.

pub mod action;
pub mod command;
pub mod decimal;
pub mod dispatch;
pub mod message;
pub mod poller;
pub mod text;
