//! The interaction envelope that the chat platform posts, and the message
//! content that a context-menu invocation resolves.
use vstd::prelude::*;

verus! {

/// A resolved chat message.
pub struct Message {
    pub content: String,
}

/// The messages that a context-menu invocation targets, keyed by id.
pub struct ResolvedData {
    pub messages: Vec<(String, Message)>,
}

/// The command part of an interaction.
pub struct InteractionData {
    pub id: String,
    pub command_type: i32,
    pub name: String,
    pub resolved: Option<ResolvedData>,
}

/// An inbound interaction: type 1 is a handshake, type 2 a command.
pub struct InteractionObject {
    pub id: String,
    pub application_id: String,
    pub interaction_type: i32,
    pub data: Option<InteractionData>,
}

impl InteractionData {
    /// The content of the single message that the invocation targets, if it
    /// targets exactly one.
    pub open spec fn target_content(&self) -> Option<Seq<char>> {
        match self.resolved {
            Some(r) => if r.messages@.len() == 1 {
                Some(r.messages@[0].1.content@)
            } else {
                None
            },
            None => None,
        }
    }

    pub fn get_content(&self) -> (r: Option<String>)
        ensures
            r is Some <==> self.target_content() is Some,
            r matches Some(s) ==> self.target_content() == Some(s@),
    {
        match &self.resolved {
            Some(resolved) => if resolved.messages.len() == 1 {
                Some(resolved.messages[0].1.content.clone())
            } else {
                None
            },
            None => None,
        }
    }
}

} // verus!
