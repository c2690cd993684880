//! SMTP-to-Telegram relay library.
//!
//! Inbound mail is assembled per connection by [`handler::TelegramMailHandler`],
//! handed over a FIFO channel to a single relay worker, and turned into
//! per-recipient delivery plans by [`telegram::TelegramBroker`]. The network
//! edges (sockets, HTTP) live outside this crate; everything that decides
//! — destination resolution, size-based delivery strategy, payload layout,
//! per-connection protocol replies — is here, with contracts.

pub mod error;
pub mod handler;
pub mod json;
pub mod queue;
pub mod resolver;
pub mod server;
pub mod telegram;
