//! Telling identities, and what is remembered of the users and chats that
//! pass by.

use vstd::prelude::*;
use vstd::string::*;
use crate::entities::{Chat, User};
use crate::html::{code_inline, escape, escaped, inline_code};
use crate::message::text_view;
use crate::perms::ChatKind;
use crate::text::{decimal, lowercase, to_lowercase, write_decimal};

verus! {

/// A user as a message names them.
#[derive(Clone, Debug, PartialEq, Eq)]
pub struct Author {
    pub user_id: i64,
    pub first_name: String,
}

/// Where a forwarded message came from.
#[derive(Clone, Debug, PartialEq, Eq)]
pub enum Forwarded {
    /// The message was not forwarded.
    No,
    /// It was first sent by this user.
    User(Author),
    /// It was first sent by somebody who only shows a name.
    SenderName,
    /// It came from anywhere else.
    Other,
}

/// What the identity command reads of the message that it replies to.
#[derive(Clone, Debug, PartialEq, Eq)]
pub struct Replied {
    pub author: Option<Author>,
    pub forwarded: Forwarded,
}

/// What to do about a request for an identity.
#[derive(Clone, Debug, PartialEq, Eq)]
pub enum IdAnswer {
    /// Answer with this text.
    Reply(String),
    /// Ask the platform for this user's profile, then answer with
    /// `profile_id`.
    Profile(i64),
    Nothing,
}

/// A whole number written in base ten, with `-` before a negative one.
pub open spec fn signed_decimal(n: int) -> Seq<char> {
    if n < 0 {
        "-"@ + decimal((-n) as nat)
    } else {
        decimal(n as nat)
    }
}

/// The line that tells a user's identity.
pub open spec fn id_line(first_name: Seq<char>, user_id: i64) -> Seq<char> {
    escaped(first_name) + "'s ID is "@ + inline_code(signed_decimal(user_id as int))
}

/// The line that tells the identities behind a forwarded message.
pub open spec fn forward_line(origin: Author, forwarder: Author) -> Seq<char> {
    "The original sender, "@ + escaped(origin.first_name@) + " has an ID of "@ + inline_code(
        signed_decimal(origin.user_id as int),
    ) + ".\nThe forwarder, "@ + escaped(forwarder.first_name@) + ", has an ID of "@ + inline_code(
        signed_decimal(forwarder.user_id as int),
    ) + "."@
}

/// Writes a whole number in base ten.
pub fn write_signed(n: i64) -> (r: String)
    ensures
        r@ == signed_decimal(n as int),
{
    if n >= 0 {
        write_decimal(n as u64)
    } else {
        let magnitude: u64 = if n == i64::MIN {
            0x8000_0000_0000_0000
        } else {
            (-n) as u64
        };
        let mut r = String::from_str("-");
        let digits = write_decimal(magnitude);
        r.append(digits.as_str());
        r
    }
}

fn write_id_line(first_name: &str, user_id: i64) -> (r: String)
    ensures
        r@ == id_line(first_name@, user_id),
{
    let mut r = escape(first_name);
    r.append("'s ID is ");
    let number = write_signed(user_id);
    let code = code_inline(number.as_str());
    r.append(code.as_str());
    r
}

fn write_forward_line(origin: &Author, forwarder: &Author) -> (r: String)
    ensures
        r@ == forward_line(*origin, *forwarder),
{
    let mut r = String::from_str("The original sender, ");
    let name = escape(origin.first_name.as_str());
    r.append(name.as_str());
    r.append(" has an ID of ");
    let number = write_signed(origin.user_id);
    let code = code_inline(number.as_str());
    r.append(code.as_str());
    r.append(".\nThe forwarder, ");
    let name = escape(forwarder.first_name.as_str());
    r.append(name.as_str());
    r.append(", has an ID of ");
    let number = write_signed(forwarder.user_id);
    let code = code_inline(number.as_str());
    r.append(code.as_str());
    r.append(".");
    r
}

/// An `IdAnswer` with its text as a character sequence.
pub enum IdPlan {
    Reply(Seq<char>),
    Profile(i64),
    Nothing,
}

impl View for IdAnswer {
    type V = IdPlan;

    open spec fn view(&self) -> IdPlan {
        match *self {
            IdAnswer::Reply(text) => IdPlan::Reply(text@),
            IdAnswer::Profile(user_id) => IdPlan::Profile(user_id),
            IdAnswer::Nothing => IdPlan::Nothing,
        }
    }
}

/// What a request for an identity is answered with. Without a target
/// nothing is said. In reply to a message forwarded from a user, both the
/// first sender and the forwarder are told; forwarded from a hidden sender,
/// the forwarder alone; in reply to any other message nothing is said.
/// Without a reply the target's profile has to be fetched.
pub open spec fn id_plan(target: Option<i64>, replied: Option<Replied>) -> IdPlan {
    match target {
        None => IdPlan::Nothing,
        Some(user_id) => match replied {
            None => IdPlan::Profile(user_id),
            Some(prev) => match prev.author {
                None => IdPlan::Nothing,
                Some(author) => match prev.forwarded {
                    Forwarded::User(origin) => IdPlan::Reply(forward_line(origin, author)),
                    Forwarded::SenderName => IdPlan::Reply(
                        id_line(author.first_name@, author.user_id),
                    ),
                    _ => IdPlan::Nothing,
                },
            },
        },
    }
}

/// Decides what a request for an identity is answered with. `replied` is the
/// message that the command replies to.
pub fn handle_id(target: Option<i64>, replied: Option<&Replied>) -> (r: IdAnswer)
    ensures
        r@ == id_plan(
            target,
            match replied {
                Some(prev) => Some(*prev),
                None => None,
            },
        ),
{
    let user_id = match target {
        Some(id) => id,
        None => {
            return IdAnswer::Nothing;
        },
    };
    match replied {
        None => IdAnswer::Profile(user_id),
        Some(prev) => match &prev.author {
            None => IdAnswer::Nothing,
            Some(author) => match &prev.forwarded {
                Forwarded::User(origin) => IdAnswer::Reply(write_forward_line(origin, author)),
                Forwarded::SenderName => IdAnswer::Reply(
                    write_id_line(author.first_name.as_str(), author.user_id),
                ),
                _ => IdAnswer::Nothing,
            },
        },
    }
}

/// The answer that tells the identity of a user whose profile was fetched; a
/// profile without a first name is told with an empty one.
pub fn profile_id(first_name: Option<&str>, user_id: i64) -> (r: String)
    ensures
        r@ == id_line(
            match first_name {
                Some(name) => name@,
                None => Seq::<char>::empty(),
            },
            user_id,
        ),
{
    match first_name {
        Some(name) => write_id_line(name, user_id),
        None => {
            let empty = String::new();
            write_id_line(empty.as_str(), user_id)
        },
    }
}

/// The record to store for the sender of a message: the handle is kept in
/// lower case, so that it is found whatever case it is asked in.
pub fn save_user_handler(user_id: i64, username: Option<&str>, full_name: &str) -> (r: User)
    ensures
        r.user_id == user_id,
        r.full_name@ == full_name@,
        text_view(r.user_name) == (match username {
            Some(name) => Some(lowercase(name@)),
            None => None,
        }),
{
    let user_name = match username {
        Some(name) => Some(to_lowercase(name)),
        None => None,
    };
    User { user_id, full_name: String::from_str(full_name), user_name }
}

/// The record to store for the chat of a message: a group under its title, a
/// private chat under the handle of the person; a channel is not stored.
pub fn save_chat_handler(chat_id: i64, kind: ChatKind, title: Option<String>, username: Option<String>) -> (r: Option<Chat>)
    ensures
        match r {
            None => kind == ChatKind::Channel,
            Some(chat) => kind != ChatKind::Channel && chat.chat_id == chat_id && chat.chat_name
                == (if kind == ChatKind::Private {
                username
            } else {
                title
            }),
        },
{
    match kind {
        ChatKind::Channel => None,
        ChatKind::Private => Some(Chat { chat_id, chat_name: username }),
        _ => Some(Chat { chat_id, chat_name: title }),
    }
}

} // verus!
