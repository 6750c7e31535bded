//! The messages exchanged with the chat-completion service: the request
//! body, the whole reply and the chunks of a streamed reply.
use vstd::prelude::*;

verus! {

/// One message of a conversation: who speaks and what is said.
pub struct Message {
    pub role: String,
    pub content: String,
}

/// The body of a chat-completion request.
pub struct ChatMessage {
    pub model: String,
    pub stream: bool,
    pub messages: Vec<Message>,
}

/// A complete (not streamed) reply.
pub struct ChatCompletion {
    pub id: String,
    pub object: String,
    pub created: i64,
    pub model: String,
    pub usage: Usage,
    pub choices: Vec<Choice>,
}

/// Token counts of a reply.
pub struct Usage {
    pub prompt_tokens: i64,
    pub completion_tokens: i64,
    pub total_tokens: i64,
}

/// One answer of a complete reply.
pub struct Choice {
    pub message: Recv_Message,
    pub finish_reason: String,
    pub index: i64,
}

/// The message of one answer.
pub struct Recv_Message {
    pub role: String,
    pub content: String,
}

/// One chunk of a streamed reply.
pub struct ChatCompletionChunk {
    pub id: String,
    pub object: String,
    pub created: i64,
    pub model: String,
    pub choices: Vec<CompletionChoice>,
}

/// One answer of a streamed chunk.
pub struct CompletionChoice {
    pub delta: Delta,
    pub index: usize,
    pub finish_reason: Option<String>,
}

/// The piece of text that a streamed chunk adds.
pub struct Delta {
    pub content: String,
}

/// The text that a decoded chunk adds: the content of its first choice,
/// when it has a choice; nothing when it has none or was not decoded.
pub open spec fn chunk_content(chunk: Option<ChatCompletionChunk>) -> Option<Seq<char>> {
    match chunk {
        Some(c) => if c.choices@.len() > 0 {
            Some(c.choices@[0].delta.content@)
        } else {
            None
        },
        None => None,
    }
}

impl ChatCompletionChunk {
    /// The content of the first choice, when there is one.
    pub fn first_content(&self) -> (r: Option<String>)
        ensures
            r matches Some(s) ==> s@ == self.choices@[0].delta.content@,
            r is Some <==> self.choices@.len() > 0,
    {
        if self.choices.len() > 0 {
            Some(self.choices[0].delta.content.clone())
        } else {
            None
        }
    }
}

impl ChatCompletion {
    /// The content of the first answer.
    pub fn first_content(&self) -> (r: String)
        requires
            self.choices@.len() > 0,
        ensures
            r@ == self.choices@[0].message.content@,
    {
        self.choices[0].message.content.clone()
    }
}

} // verus!
