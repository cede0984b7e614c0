use vstd::prelude::*;
use crate::domain::{ConversationId, UserId};

verus! {

/// The payload of one chat message, whichever way it travels.
#[derive(Debug)]
pub struct ChatContent {
    pub conversation_id: ConversationId,
    pub content: String,
}

impl Clone for ChatContent {
    fn clone(&self) -> (r: Self)
        ensures
            r == *self,
    {
        ChatContent { conversation_id: self.conversation_id, content: self.content.clone() }
    }
}

/// The payload of a client's `send` frame.
#[derive(Debug)]
pub struct SendMessage {
    pub content: ChatContent,
}

/// A frame that a client sends to the server.
#[derive(Debug)]
pub enum ClientToServer {
    /// Acknowledges that history was fetched; accepted and otherwise inert.
    HistoryFetched,
    Send(SendMessage),
}

/// The payload of a `distribute` frame: a message and who sent it.
#[derive(Debug)]
pub struct DistributeMessage {
    pub sender: UserId,
    pub content: ChatContent,
}

impl Clone for DistributeMessage {
    fn clone(&self) -> (r: Self)
        ensures
            r == *self,
    {
        DistributeMessage { sender: self.sender, content: self.content.clone() }
    }
}

/// A frame that the server sends to a client.
#[derive(Debug)]
pub enum ServerToClient {
    Distribute(DistributeMessage),
}

impl Clone for ServerToClient {
    fn clone(&self) -> (r: Self)
        ensures
            r == *self,
    {
        match self {
            ServerToClient::Distribute(d) => ServerToClient::Distribute(d.clone()),
        }
    }
}

/// The frame that carries `content` from `sender` to its recipients.
pub open spec fn distribute_frame(sender: UserId, content: ChatContent) -> ServerToClient {
    ServerToClient::Distribute(DistributeMessage { sender, content })
}

} // verus!
