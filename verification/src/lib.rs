//! A minimal chat-bot plugin, verified: it registers fixed metadata,
//! receives three event kinds (group message, private message, group poke),
//! and decides for each whether to reply with a fixed text through the
//! host's send capability.
//!
//! The handlers are pure decisions: each returns the single send it asks the
//! host to make, or none. Delivery itself, and the host runtime around it,
//! live outside this crate; the handlers' contracts state exactly when a
//! send is asked for, and [`handler::absorb_send_failure`] states that a
//! failed delivery never turns into a handler failure.

pub mod events;
pub mod handler;
pub mod text;
