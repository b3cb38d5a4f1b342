//! What a command decides: at most one change to the chat, and what the user
//! is told.

use vstd::prelude::*;
use vstd::string::*;
use crate::args::{checked_time, seconds_of, UnitOfTime};
use crate::message::text_view;

verus! {

/// What a member may do in a chat.
#[derive(Clone, Copy, Debug, PartialEq, Eq, Structural)]
pub struct ChatPermissions {
    pub can_send_messages: bool,
    pub can_send_media_messages: bool,
    pub can_send_other_messages: bool,
    pub can_send_polls: bool,
    pub can_add_web_page_previews: bool,
    pub can_change_info: bool,
    pub can_invite_users: bool,
    pub can_pin_messages: bool,
}

/// The capability flags that a promotion sets.
#[derive(Clone, Copy, Debug, PartialEq, Eq, Structural)]
pub struct AdminRights {
    pub can_manage_chat: bool,
    pub can_change_info: bool,
    pub can_delete_messages: bool,
    pub can_manage_voice_chats: bool,
    pub can_invite_users: bool,
    pub can_restrict_members: bool,
    pub can_pin_messages: bool,
    pub can_promote_members: bool,
}

/// A change that the bot asks the platform to make.
#[derive(Clone, Copy, Debug, PartialEq, Eq)]
pub enum Mutation {
    /// Remove the user from the chat and keep them out, until `until` (in
    /// seconds since the epoch) where one is given.
    Ban { user_id: i64, until: Option<i64> },
    /// Lift a ban. On somebody who is in the chat this removes them without
    /// barring their return.
    Unban { user_id: i64 },
    /// Set what the user may post, until `until` where one is given.
    Restrict { user_id: i64, permissions: ChatPermissions, until: Option<i64> },
    /// Set the user's administrator flags.
    Promote { user_id: i64, rights: AdminRights },
    /// Pin a message, quietly or not.
    Pin { message_id: i32, silent: bool },
}

/// What a command decided.
#[derive(Clone, Debug, PartialEq, Eq)]
pub struct Decision {
    /// The change to make, if any. It is made before the reply is sent.
    pub mutation: Option<Mutation>,
    /// What the user is told, if anything.
    pub reply: Option<String>,
    /// Set where the command cannot go on; nothing is changed then.
    pub failure: Option<String>,
}

/// A `Decision` with its texts as character sequences.
pub struct Verdict {
    pub mutation: Option<Mutation>,
    pub reply: Option<Seq<char>>,
    pub failure: Option<Seq<char>>,
}

impl View for Decision {
    type V = Verdict;

    open spec fn view(&self) -> Verdict {
        Verdict {
            mutation: self.mutation,
            reply: text_view(self.reply),
            failure: text_view(self.failure),
        }
    }
}

/// Nothing changes; the user is told `text`.
pub open spec fn told(text: Seq<char>) -> Verdict {
    Verdict { mutation: None, reply: Some(text), failure: None }
}

/// `mutation` is made and the user is told `text`.
pub open spec fn done(mutation: Mutation, text: Seq<char>) -> Verdict {
    Verdict { mutation: Some(mutation), reply: Some(text), failure: None }
}

/// Nothing changes and nothing is said; the command fails with `text`.
pub open spec fn failed(text: Seq<char>) -> Verdict {
    Verdict { mutation: None, reply: None, failure: Some(text) }
}

/// Nothing changes and nothing is said.
pub open spec fn nothing() -> Verdict {
    Verdict { mutation: None, reply: None, failure: None }
}

/// The moment at which a ban or a restriction ends, where the verdict sets
/// one that ends.
pub open spec fn timed_until(verdict: Verdict) -> Option<i64> {
    match verdict.mutation {
        Some(Mutation::Ban { until, .. }) => until,
        Some(Mutation::Restrict { until, .. }) => until,
        _ => None,
    }
}

/// No permission at all: what a muted member may do.
pub open spec fn no_permissions() -> ChatPermissions {
    ChatPermissions {
        can_send_messages: false,
        can_send_media_messages: false,
        can_send_other_messages: false,
        can_send_polls: false,
        can_add_web_page_previews: false,
        can_change_info: false,
        can_invite_users: false,
        can_pin_messages: false,
    }
}

/// No administrator flag at all.
pub open spec fn no_rights() -> AdminRights {
    AdminRights {
        can_manage_chat: false,
        can_change_info: false,
        can_delete_messages: false,
        can_manage_voice_chats: false,
        can_invite_users: false,
        can_restrict_members: false,
        can_pin_messages: false,
        can_promote_members: false,
    }
}

/// The texts of a reference to a text that may be absent.
pub open spec fn str_view(text: Option<&str>) -> Option<Seq<char>> {
    match text {
        Some(t) => Some(t@),
        None => None,
    }
}

/// Decides to change nothing and to tell the user `text`.
pub fn say(text: &str) -> (r: Decision)
    ensures
        r@ == told(text@),
{
    Decision { mutation: None, reply: Some(String::from_str(text)), failure: None }
}

/// Decides to make `mutation` and to tell the user `text`.
pub fn act(mutation: Mutation, text: String) -> (r: Decision)
    ensures
        r@ == done(mutation, text@),
{
    Decision { mutation: Some(mutation), reply: Some(text), failure: None }
}

/// Decides that the command cannot go on, for the reason `text`.
pub fn fail(text: &str) -> (r: Decision)
    ensures
        r@ == failed(text@),
{
    Decision { mutation: None, reply: None, failure: Some(String::from_str(text)) }
}

/// Decides to change nothing and to say nothing.
pub fn silent() -> (r: Decision)
    ensures
        r@ == nothing(),
{
    Decision { mutation: None, reply: None, failure: None }
}

/// `head`, then `middle`, then `tail`.
pub fn framed(head: &str, middle: &str, tail: &str) -> (r: String)
    ensures
        r@ == head@ + middle@ + tail@,
{
    let mut r = String::from_str(head);
    r.append(middle);
    r.append(tail);
    r
}

/// Whether a moment, in seconds since the epoch, lies within eight million
/// million seconds of it. That is less than 253,700 years either way, so the
/// moment falls well inside the years -262143 to 262142 that the calendar
/// library can represent.
pub open spec fn in_calendar(moment: int) -> bool {
    -8_000_000_000_000 <= moment <= 8_000_000_000_000
}

/// The moment `seconds` after `date`, both in seconds since the epoch, as
/// the calendar library computes it; `None` where it has no such moment.
pub uninterp spec fn later(date: i64, seconds: i64) -> Option<i64>;

/// Adds a span to a moment with `chrono::DateTime::checked_add_signed`, the
/// moment made by `DateTime::from_timestamp` and the span by
/// `TimeDelta::try_seconds`. Trusted: the result is named `later`; where there
/// is one it is the plain sum, since both values are whole seconds; and there
/// is one where the moment and the sum are `in_calendar`, since the library
/// only fails on a date outside its years, a span beyond `i64::MAX`
/// milliseconds or a number of days beyond `i32`.
#[verifier::external_body]
pub(crate) fn checked_add_seconds(date: i64, seconds: i64) -> (r: Option<i64>)
    ensures
        r == later(date, seconds),
        r matches Some(moment) ==> moment == date + seconds,
        in_calendar(date as int) && in_calendar(date + seconds) ==> r is Some,
{
    let start = chrono::DateTime::from_timestamp(date, 0)?;
    let span = chrono::TimeDelta::try_seconds(seconds)?;
    start.checked_add_signed(span).map(|end| end.timestamp())
}

/// When a span that begins at `date` ends; `None` where the span or its end
/// cannot be represented.
pub open spec fn expiry_of(date: i64, unit: UnitOfTime) -> Option<i64> {
    if seconds_of(unit) <= i64::MAX {
        later(date, seconds_of(unit) as i64)
    } else {
        None
    }
}

/// Computes the end of a span that begins at `date`, the time of the event
/// that asked for it. There is an end wherever the event and the end are
/// `in_calendar`, and it is the date plus the seconds of the span.
pub fn expiry(date: i64, unit: &UnitOfTime) -> (r: Option<i64>)
    ensures
        r == expiry_of(date, *unit),
        r matches Some(moment) ==> moment == date + seconds_of(*unit),
        in_calendar(date as int) && in_calendar(date + seconds_of(*unit)) ==> r == Some(
            (date + seconds_of(*unit)) as i64,
        ),
{
    match checked_time(unit) {
        Some(seconds) => {
            if seconds <= 0x7fff_ffff_ffff_ffff {
                checked_add_seconds(date, seconds as i64)
            } else {
                None
            }
        },
        None => None,
    }
}

} // verus!
