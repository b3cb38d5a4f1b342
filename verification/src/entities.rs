use vstd::prelude::*;

verus! {

/// A user as remembered by the store, keyed by `user_id`.
#[derive(Clone, Debug, PartialEq, Eq)]
pub struct User {
    pub user_id: i64,
    pub full_name: String,
    pub user_name: Option<String>,
}

/// A chat as remembered by the store, keyed by `chat_id`.
#[derive(Clone, Debug, PartialEq, Eq)]
pub struct Chat {
    pub chat_id: i64,
    pub chat_name: Option<String>,
}

/// A note saved in a chat, keyed by `(chat_id, note_id)`.
#[derive(Clone, Debug, PartialEq, Eq)]
pub struct Note {
    pub chat_id: i64,
    pub note_id: String,
    pub note_content: String,
}

} // verus!
