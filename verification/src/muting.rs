//! Taking away and giving back the right to post: mute and unmute.
//!
//! Each command is decided after its guards have passed and its target has
//! been resolved. `member` is the target's standing in the chat, `None` where
//! the platform could not tell it.

use vstd::prelude::*;
use vstd::string::*;
use crate::actions::{
    act, done, expiry, fail, failed, framed, in_calendar, no_permissions, nothing, say, silent,
    str_view, timed_until, told, ChatPermissions, Decision, Mutation, Verdict,
};
use crate::args::{seconds_of, unit_text, UnitOfTime};
use crate::banning::{end_of, span_of};
use crate::perms::{is_user_restricted, kind_of, restricted, ChatKind, ChatMemberKind};

verus! {

/// What a member may do again after an unmute: post text, media, other
/// content, polls and link previews.
pub open spec fn unmuted_permissions() -> ChatPermissions {
    ChatPermissions {
        can_send_messages: true,
        can_send_media_messages: true,
        can_send_other_messages: true,
        can_send_polls: true,
        can_add_web_page_previews: true,
        can_change_info: false,
        can_invite_users: false,
        can_pin_messages: false,
    }
}

/// What becomes of a timed mute once its end is known: without an end the
/// command fails; with one the user is muted until then, and the answer tells
/// whether restrictions were already in place.
pub open spec fn mute_until_verdict(
    user_id: i64,
    unit: UnitOfTime,
    until: Option<i64>,
    was_restricted: bool,
) -> Verdict {
    match until {
        None => failed("Something went wrong!"@),
        Some(moment) => done(
            Mutation::Restrict { user_id, permissions: no_permissions(), until: Some(moment) },
            if was_restricted {
                "Restrictions have been updated. Muted for "@ + unit_text(unit) + "!"@
            } else {
                "Muted for "@ + unit_text(unit) + "!"@
            },
        ),
    }
}

/// What a mute decides, by the first line that fits:
/// no target; the bot itself; a timed mute without a span; a target unknown
/// to the chat; an owner or administrator; somebody who is not in the chat;
/// no text: muted for good; a plain mute with any text: nothing at all; a
/// timed mute whose text is a span: muted until `until`, the end of that
/// span; a timed mute with any other text: an error. Whoever was restricted
/// before is muted all the same, and the answer says that the restrictions
/// were updated.
pub open spec fn mute_verdict_with(
    target: Option<i64>,
    args: Option<Seq<char>>,
    is_tmute: bool,
    chat: ChatKind,
    member: Option<ChatMemberKind>,
    bot_id: i64,
    until: Option<i64>,
) -> Verdict {
    match target {
        None => told("Try targeting a user next time bud."@),
        Some(user_id) => if user_id == bot_id {
            told("No u"@)
        } else if args is None && is_tmute {
            told("You need to specify a duration in d/h/m/s (days, hours, minutes, seconds)"@)
        } else {
            match member {
                None => told("This user is ded mate."@),
                Some(kind) => if kind is Owner || kind is Administrator {
                    told("I'm not muting an administrator!"@)
                } else if kind is Banned || kind is Left {
                    told("This user isn't in the chat!"@)
                } else if args is None {
                    done(
                        Mutation::Restrict { user_id, permissions: no_permissions(), until: None },
                        if restricted(chat, kind) {
                            "Restrictions have been updated. Permanently muted!"@
                        } else {
                            "Muted!"@
                        },
                    )
                } else if !is_tmute {
                    nothing()
                } else {
                    match span_of(args) {
                        Some(unit) => mute_until_verdict(
                            user_id,
                            unit,
                            until,
                            restricted(chat, kind),
                        ),
                        None => told(
                            "failed to get specified time; expected one of d/h/m/s (days, hours, minutes, seconds)"@,
                        ),
                    }
                },
            }
        },
    }
}

/// What a mute decides for a message of the time `date`: a span that the
/// text writes ends that long after `date`.
pub open spec fn mute_verdict(
    target: Option<i64>,
    args: Option<Seq<char>>,
    is_tmute: bool,
    chat: ChatKind,
    member: Option<ChatMemberKind>,
    bot_id: i64,
    date: i64,
) -> Verdict {
    mute_verdict_with(target, args, is_tmute, chat, member, bot_id, end_of(args, date))
}

/// What an unmute decides, by the first line that fits: no target; a target
/// unknown to the chat; somebody who is not in the chat; somebody who is not
/// restricted; the bot itself; otherwise the right to post is given back.
pub open spec fn unmute_verdict(
    target: Option<i64>,
    chat: ChatKind,
    member: Option<ChatMemberKind>,
    bot_id: i64,
) -> Verdict {
    match target {
        None => told("Try targeting a user next time bud."@),
        Some(user_id) => match member {
            None => told("This user is ded mate."@),
            Some(kind) => if kind is Banned || kind is Left {
                told("This user isn't in the chat!"@)
            } else if !restricted(chat, kind) {
                told("This user can already speak freely!"@)
            } else if user_id == bot_id {
                told("What exactly are you trying to do?"@)
            } else {
                done(
                    Mutation::Restrict {
                        user_id,
                        permissions: unmuted_permissions(),
                        until: None,
                    },
                    "Unmuted!"@,
                )
            },
        },
    }
}

fn muted() -> (r: ChatPermissions)
    ensures
        r == no_permissions(),
{
    ChatPermissions {
        can_send_messages: false,
        can_send_media_messages: false,
        can_send_other_messages: false,
        can_send_polls: false,
        can_add_web_page_previews: false,
        can_change_info: false,
        can_invite_users: false,
        can_pin_messages: false,
    }
}

/// Finishes a timed mute with the end that was computed for it.
pub fn mute_until(user_id: i64, unit: &UnitOfTime, until: Option<i64>, was_restricted: bool) -> (r:
    Decision)
    ensures
        r@ == mute_until_verdict(user_id, *unit, until, was_restricted),
{
    match until {
        None => fail("Something went wrong!"),
        Some(moment) => {
            let span = unit.to_string();
            let text = if was_restricted {
                framed("Restrictions have been updated. Muted for ", span.as_str(), "!")
            } else {
                framed("Muted for ", span.as_str(), "!")
            };
            act(Mutation::Restrict { user_id, permissions: muted(), until: Some(moment) }, text)
        },
    }
}

/// Decides a mute, plain or timed. `date` is the time of the message, in
/// seconds since the epoch; a timed mute ends that long after it.
pub fn mute(
    target: Option<i64>,
    args: Option<&str>,
    is_tmute: bool,
    chat: ChatKind,
    member: Option<&ChatMemberKind>,
    bot_id: i64,
    date: i64,
) -> (r: Decision)
    ensures
        r@ == mute_verdict(target, str_view(args), is_tmute, chat, kind_of(member), bot_id, date),
        match span_of(str_view(args)) {
            Some(unit) => in_calendar(date as int) && in_calendar(date + seconds_of(unit))
                ==> r@ == mute_verdict_with(
                target,
                str_view(args),
                is_tmute,
                chat,
                kind_of(member),
                bot_id,
                Some((date + seconds_of(unit)) as i64),
            ),
            None => true,
        },
        match (timed_until(r@), span_of(str_view(args))) {
            (Some(moment), Some(unit)) => moment == date + seconds_of(unit),
            (Some(_), None) => false,
            _ => true,
        },
{
    let user_id = match target {
        Some(id) => id,
        None => {
            return say("Try targeting a user next time bud.");
        },
    };
    if user_id == bot_id {
        return say("No u");
    }
    if args.is_none() && is_tmute {
        return say("You need to specify a duration in d/h/m/s (days, hours, minutes, seconds)");
    }
    let kind = match member {
        Some(kind) => kind,
        None => {
            return say("This user is ded mate.");
        },
    };
    match kind {
        ChatMemberKind::Owner | ChatMemberKind::Administrator(_) => {
            return say("I'm not muting an administrator!");
        },
        ChatMemberKind::Banned | ChatMemberKind::Left => {
            return say("This user isn't in the chat!");
        },
        _ => {},
    }
    let was_restricted = is_user_restricted(chat, kind);
    match args {
        None => {
            let text = if was_restricted {
                String::from_str("Restrictions have been updated. Permanently muted!")
            } else {
                String::from_str("Muted!")
            };
            act(Mutation::Restrict { user_id, permissions: muted(), until: None }, text)
        },
        Some(span) => {
            if !is_tmute {
                return silent();
            }
            match UnitOfTime::from_str(span) {
                Ok(unit) => mute_until(user_id, &unit, expiry(date, &unit), was_restricted),
                Err(_) => say(
                    "failed to get specified time; expected one of d/h/m/s (days, hours, minutes, seconds)",
                ),
            }
        },
    }
}

/// Decides an unmute.
pub fn unmute(target: Option<i64>, chat: ChatKind, member: Option<&ChatMemberKind>, bot_id: i64) -> (r:
    Decision)
    ensures
        r@ == unmute_verdict(target, chat, kind_of(member), bot_id),
{
    let user_id = match target {
        Some(id) => id,
        None => {
            return say("Try targeting a user next time bud.");
        },
    };
    let kind = match member {
        Some(kind) => kind,
        None => {
            return say("This user is ded mate.");
        },
    };
    match kind {
        ChatMemberKind::Banned | ChatMemberKind::Left => {
            return say("This user isn't in the chat!");
        },
        _ => {},
    }
    if !is_user_restricted(chat, kind) {
        return say("This user can already speak freely!");
    }
    if user_id == bot_id {
        return say("What exactly are you trying to do?");
    }
    act(
        Mutation::Restrict {
            user_id,
            permissions: ChatPermissions {
                can_send_messages: true,
                can_send_media_messages: true,
                can_send_other_messages: true,
                can_send_polls: true,
                can_add_web_page_previews: true,
                can_change_info: false,
                can_invite_users: false,
                can_pin_messages: false,
            },
            until: None,
        },
        String::from_str("Unmuted!"),
    )
}

/// Aimed at the bot itself, a mute changes nothing and is answered "No u",
/// whatever else holds.
pub proof fn law_mute_spares_the_bot(
    args: Option<Seq<char>>,
    is_tmute: bool,
    chat: ChatKind,
    member: Option<ChatMemberKind>,
    bot_id: i64,
    date: i64,
)
    ensures
        mute_verdict(Some(bot_id), args, is_tmute, chat, member, bot_id, date) == told("No u"@),
        mute_verdict(Some(bot_id), args, is_tmute, chat, member, bot_id, date).mutation is None,
{
}

} // verus!
