//! The parts of an incoming chat message that the command logic reads.

use vstd::prelude::*;

verus! {

/// What an annotated span of a message's text marks.
#[derive(Clone, Copy, Debug, PartialEq, Eq, Structural)]
pub enum MessageEntityKind {
    /// The span mentions a user whom the platform has already resolved.
    TextMention { user_id: i64 },
    /// Any other annotation: a command, a link, a plain `@handle`.
    Other,
}

/// An annotated span of a message's text, placed by byte offset and length.
#[derive(Clone, Copy, Debug, PartialEq, Eq, Structural)]
pub struct MessageEntity {
    pub kind: MessageEntityKind,
    pub offset: usize,
    pub length: usize,
}

/// The earlier message that a message replies to.
#[derive(Clone, Debug, PartialEq, Eq)]
pub struct RepliedMessage {
    /// The author, where the platform names one.
    pub from: Option<i64>,
    pub text: Option<String>,
}

/// An incoming message.
#[derive(Clone, Debug, PartialEq, Eq)]
pub struct Message {
    pub text: Option<String>,
    /// The annotated spans of `text`, in the order the platform lists them.
    pub entities: Vec<MessageEntity>,
    pub reply_to_message: Option<RepliedMessage>,
}

/// The characters of a text that may be absent.
pub open spec fn text_view(text: Option<String>) -> Option<Seq<char>> {
    match text {
        Some(t) => Some(t@),
        None => None,
    }
}

} // verus!
