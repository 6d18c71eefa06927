//! The event values the host hands to the plugin, the plugin's static
//! metadata record, the reply it asks the host to deliver, and its errors.

use vstd::prelude::*;

verus! {

/// A message posted in a group chat.
pub struct GroupMessage {
    pub group_id: String,
    pub sender_id: String,
    pub content: String,
}

/// A message sent to the bot in a private chat.
pub struct PrivateMessage {
    pub sender_id: String,
    pub content: String,
}

/// The plugin's static descriptive record, exposed to the host for
/// discovery and registration.
pub struct PluginMetadata {
    pub name: String,
    pub describe: String,
    pub author: String,
    pub version: String,
    pub message_types: Vec<String>,
}

/// The one outbound send a handler asks of the host for a single event,
/// or no send at all.
#[derive(Debug, PartialEq, Eq)]
pub enum ReplyAction {
    SendGroupMessage { group_id: String, text: String },
    SendPrivateMessage { user_id: String, text: String },
    NoReply,
}

/// The errors this plugin raises itself. A failed send is not among them:
/// delivery failures are absorbed by the handlers.
#[derive(Debug, PartialEq, Eq)]
pub enum PluginError {
    /// The host API capability could not be constructed from the
    /// configuration; carries the underlying cause.
    Initialization(String),
}

} // verus!
