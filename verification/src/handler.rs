//! The plugin itself: its metadata, its construction from what the host
//! provides, and the three event handlers.
//!
//! A handler never performs delivery: it decides, for one event, which send
//! the host API should make, and hands that decision back as a
//! [`ReplyAction`](crate::events::ReplyAction). The caller that owns the
//! transport performs the send and feeds its outcome to
//! [`absorb_send_failure`], which states the plugin's failure policy.

use vstd::prelude::*;

use crate::events::{GroupMessage, PluginError, PluginMetadata, PrivateMessage, ReplyAction};
use crate::text::{contains_seq, str_contains, str_eq};

verus! {

/// The characters of the fixed greeting reply.
pub open spec fn spec_greeting_text() -> Seq<char> {
    "你好啊！我是洛玖机器人！"@
}

/// The fixed greeting reply, sent when a message carries a greeting keyword.
pub fn greeting_text() -> (s: &'static str)
    ensures
        s@ == spec_greeting_text(),
{
    "你好啊！我是洛玖机器人！"
}

/// The characters of the fixed reply to a poke aimed at the bot.
pub open spec fn spec_poke_reply_text() -> Seq<char> {
    "别戳我，我怕痒！"@
}

/// The fixed reply to a poke aimed at the bot; a different literal from the
/// greeting.
pub fn poke_reply_text() -> (s: &'static str)
    ensures
        s@ == spec_poke_reply_text(),
{
    "别戳我，我怕痒！"
}

/// `content` carries a greeting keyword: the case-sensitive substring
/// "你好" or "hello", anywhere in it.
pub open spec fn spec_has_greeting(content: Seq<char>) -> bool {
    ||| contains_seq(content, "你好"@)
    ||| contains_seq(content, "hello"@)
}

/// Decides whether `content` carries a greeting keyword.
pub fn has_greeting(content: &str) -> (r: bool)
    ensures
        r == spec_has_greeting(content@),
{
    if str_contains(content, "你好") {
        true
    } else {
        str_contains(content, "hello")
    }
}

/// The metadata this plugin registers: fixed name, description, author and
/// version, and exactly the three event kinds its handlers respond to.
pub open spec fn is_plugin_metadata(m: PluginMetadata) -> bool {
    &&& m.name@ == "hello_plugin"@
    &&& m.describe@ == "一个简单的示例插件，用于演示基本功能"@
    &&& m.author@ == "Luo9"@
    &&& m.version@ == "0.1.0"@
    &&& m.message_types@.len() == 3
    &&& m.message_types@[0]@ == "group_message"@
    &&& m.message_types@[1]@ == "private_message"@
    &&& m.message_types@[2]@ == "group_poke"@
}

/// Builds the plugin's metadata record.
pub fn plugin_metadata() -> (m: PluginMetadata)
    ensures
        is_plugin_metadata(m),
{
    let mut message_types: Vec<String> = Vec::new();
    message_types.push("group_message".to_owned());
    message_types.push("private_message".to_owned());
    message_types.push("group_poke".to_owned());
    PluginMetadata {
        name: "hello_plugin".to_owned(),
        describe: "一个简单的示例插件，用于演示基本功能".to_owned(),
        author: "Luo9".to_owned(),
        version: "0.1.0".to_owned(),
        message_types,
    }
}

/// The plugin: immutable after construction. It holds its metadata and the
/// host's configured bot identity, which the poke handler compares against.
pub struct HelloPlugin {
    metadata: PluginMetadata,
    bot_id: String,
}

impl HelloPlugin {
    /// The plugin's metadata record is the fixed one.
    pub closed spec fn wf(&self) -> bool {
        is_plugin_metadata(self.metadata)
    }

    /// The bot identity this plugin was constructed with.
    pub closed spec fn spec_bot_id(&self) -> Seq<char> {
        self.bot_id@
    }

    /// Builds the plugin from the host's configured bot identity and the
    /// outcome of constructing the host's API capability. Construction
    /// succeeds exactly when that capability was obtained; otherwise it
    /// fails with `Initialization`, carrying the underlying cause.
    pub fn new(bot_id: String, api_init: Result<(), String>) -> (r: Result<HelloPlugin, PluginError>)
        ensures
            r is Ok <==> api_init is Ok,
            r matches Ok(p) ==> p.wf() && p.spec_bot_id() == bot_id@,
            api_init matches Err(cause) ==> r == Result::<HelloPlugin, PluginError>::Err(
                PluginError::Initialization(cause),
            ),
    {
        match api_init {
            Ok(()) => Ok(HelloPlugin { metadata: plugin_metadata(), bot_id }),
            Err(cause) => Err(PluginError::Initialization(cause)),
        }
    }

    /// The plugin's metadata, as registered.
    pub fn metadata(&self) -> (m: &PluginMetadata)
        ensures
            self.wf() ==> is_plugin_metadata(*m),
    {
        &self.metadata
    }

    /// Exactly one group send is asked for, with the message's group and the
    /// fixed greeting text, iff the content carries a greeting keyword;
    /// otherwise no send at all.
    pub fn handle_group_message(&self, message: &GroupMessage) -> (action: ReplyAction)
        ensures
            spec_has_greeting(message.content@) ==> (action matches ReplyAction::SendGroupMessage {
                group_id,
                text,
            } && group_id@ == message.group_id@ && text@ == spec_greeting_text()),
            !spec_has_greeting(message.content@) ==> action is NoReply,
    {
        if has_greeting(message.content.as_str()) {
            ReplyAction::SendGroupMessage {
                group_id: message.group_id.clone(),
                text: greeting_text().to_owned(),
            }
        } else {
            ReplyAction::NoReply
        }
    }

    /// Exactly one private send is asked for, to the sender and with the
    /// fixed greeting text, iff the content carries a greeting keyword;
    /// otherwise no send at all.
    pub fn handle_private_message(&self, message: &PrivateMessage) -> (action: ReplyAction)
        ensures
            spec_has_greeting(message.content@) ==> (action matches ReplyAction::SendPrivateMessage {
                user_id,
                text,
            } && user_id@ == message.sender_id@ && text@ == spec_greeting_text()),
            !spec_has_greeting(message.content@) ==> action is NoReply,
    {
        if has_greeting(message.content.as_str()) {
            ReplyAction::SendPrivateMessage {
                user_id: message.sender_id.clone(),
                text: greeting_text().to_owned(),
            }
        } else {
            ReplyAction::NoReply
        }
    }

    /// Exactly one group send is asked for, into the poked group and with the
    /// fixed poke reply, iff the poke's target is the configured bot identity
    /// (character-for-character string equality); otherwise no send at all.
    #[allow(unused_variables)]
    pub fn handle_group_poke(&self, target_id: &str, user_id: &str, group_id: &str) -> (action:
        ReplyAction)
        ensures
            target_id@ == self.spec_bot_id() ==> (action matches ReplyAction::SendGroupMessage {
                group_id: g,
                text,
            } && g@ == group_id@ && text@ == spec_poke_reply_text()),
            target_id@ != self.spec_bot_id() ==> action is NoReply,
    {
        if str_eq(target_id, self.bot_id.as_str()) {
            ReplyAction::SendGroupMessage {
                group_id: group_id.to_owned(),
                text: poke_reply_text().to_owned(),
            }
        } else {
            ReplyAction::NoReply
        }
    }
}

/// The plugin's failure policy for delivery: whatever the outcome of the
/// send the host API made, the handler reports success to the host. A
/// failed send is absorbed, never escalated.
pub fn absorb_send_failure(outcome: Result<(), String>) -> (r: Result<(), PluginError>)
    ensures
        r is Ok,
{
    match outcome {
        Ok(done) => Ok(done),
        Err(_cause) => Ok(()),
    }
}

} // verus!
