//! Removing people from a chat and letting them back in: ban, kick, unban.
//!
//! Each command is decided after its guards have passed and its target has
//! been resolved. `member` is the target's standing in the chat, `None` where
//! the platform could not tell it.

use vstd::prelude::*;
use vstd::string::*;
use crate::actions::{
    act, done, expiry, expiry_of, fail, failed, framed, in_calendar, nothing, say, silent, str_view,
    timed_until, told, Decision, Mutation, Verdict,
};
use crate::args::{parse_unit_of_time, seconds_of, unit_text, UnitOfTime};
use crate::perms::{is_admin, is_user_admin, kind_of, ChatKind, ChatMemberKind};

verus! {

/// What becomes of a timed ban once its end is known: without an end the
/// command fails, with one the user is banned until then.
pub open spec fn ban_until_verdict(user_id: i64, unit: UnitOfTime, until: Option<i64>) -> Verdict {
    match until {
        None => failed("Something went wrong!"@),
        Some(moment) => done(
            Mutation::Ban { user_id, until: Some(moment) },
            "Banned for "@ + unit_text(unit) + "!"@,
        ),
    }
}

/// The span that the text of a command writes, if it writes one.
pub open spec fn span_of(args: Option<Seq<char>>) -> Option<UnitOfTime> {
    match args {
        Some(span) => parse_unit_of_time(span),
        None => None,
    }
}

/// The end of the span that the text of a command writes, counted from
/// `date`.
pub open spec fn end_of(args: Option<Seq<char>>, date: i64) -> Option<i64> {
    match span_of(args) {
        Some(unit) => expiry_of(date, unit),
        None => None,
    }
}

/// What a ban decides, by the first line that fits:
/// no target; the bot itself; a timed ban without a span; a target unknown
/// to the chat; an owner or administrator; no text: banned for good; a text
/// that is a span: banned until `until`, the end of that span; any other
/// text: an error for a timed ban, and nothing at all for a plain one.
pub open spec fn ban_verdict_with(
    target: Option<i64>,
    args: Option<Seq<char>>,
    is_tban: bool,
    member: Option<ChatMemberKind>,
    bot_id: i64,
    until: Option<i64>,
) -> Verdict {
    match target {
        None => told("Try targeting a user next time bud."@),
        Some(user_id) => if user_id == bot_id {
            told("No u"@)
        } else if args is None && is_tban {
            told("You need to specify a duration in d/h/m/s (days, hours, minutes, seconds)"@)
        } else {
            match member {
                None => told("This user is ded mate."@),
                Some(kind) => if kind is Owner || kind is Administrator {
                    told("I'm not banning an administrator!"@)
                } else if args is None {
                    done(Mutation::Ban { user_id, until: None }, "Banned!"@)
                } else {
                    match span_of(args) {
                        Some(unit) => ban_until_verdict(user_id, unit, until),
                        None => if is_tban {
                            told(
                                "failed to get specified time; expected one of d/h/m/s (days, hours, minutes, seconds)"@,
                            )
                        } else {
                            nothing()
                        },
                    }
                },
            }
        },
    }
}

/// What a ban decides for a message of the time `date`: a span that the
/// text writes ends that long after `date`.
pub open spec fn ban_verdict(
    target: Option<i64>,
    args: Option<Seq<char>>,
    is_tban: bool,
    member: Option<ChatMemberKind>,
    bot_id: i64,
    date: i64,
) -> Verdict {
    ban_verdict_with(target, args, is_tban, member, bot_id, end_of(args, date))
}

/// What a kick decides, by the first line that fits: no target; the bot
/// itself; a target unknown to the chat; somebody who is not in the chat; an
/// owner or administrator; otherwise the target is removed by lifting a ban
/// that was never set, which leaves them free to return.
pub open spec fn kick_verdict(target: Option<i64>, member: Option<ChatMemberKind>, bot_id: i64) -> Verdict {
    match target {
        None => told("Try targeting a user next time bud."@),
        Some(user_id) => if user_id == bot_id {
            told("No u"@)
        } else {
            match member {
                None => told("This user is ded mate."@),
                Some(kind) => if kind is Banned || kind is Left {
                    told("This user isn't in the chat!"@)
                } else if kind is Owner || kind is Administrator {
                    told("I'm not kicking an administrator!"@)
                } else {
                    done(Mutation::Unban { user_id }, "Kicked!"@)
                },
            }
        },
    }
}

/// What a request to be kicked decides: it fails without a sender, spares
/// whoever runs the chat, and removes anybody else.
pub open spec fn kickme_verdict(chat: ChatKind, sender: Option<i64>, member: Option<ChatMemberKind>) -> Verdict {
    match sender {
        None => failed("No user found"@),
        Some(user_id) => if member is Some && is_admin(chat, member->0) {
            told("Yeah no, not banning an admin."@)
        } else {
            done(Mutation::Unban { user_id }, "Sure thing boss."@)
        },
    }
}

/// What an unban decides, by the first line that fits: no target; a target
/// unknown to the chat; somebody who is not banned; the bot itself; otherwise
/// the ban is lifted.
pub open spec fn unban_verdict(target: Option<i64>, member: Option<ChatMemberKind>, bot_id: i64) -> Verdict {
    match target {
        None => told("Try targeting a user next time bud."@),
        Some(user_id) => match member {
            None => told("This user is ded mate."@),
            Some(kind) => if !(kind is Banned) {
                told("This user wasn't banned!"@)
            } else if user_id == bot_id {
                told("What exactly are you trying to do?"@)
            } else {
                done(Mutation::Unban { user_id }, "Unbanned!"@)
            },
        },
    }
}

/// Finishes a timed ban with the end that was computed for it.
pub fn ban_until(user_id: i64, unit: &UnitOfTime, until: Option<i64>) -> (r: Decision)
    ensures
        r@ == ban_until_verdict(user_id, *unit, until),
{
    match until {
        None => fail("Something went wrong!"),
        Some(moment) => {
            let span = unit.to_string();
            act(
                Mutation::Ban { user_id, until: Some(moment) },
                framed("Banned for ", span.as_str(), "!"),
            )
        },
    }
}

/// Decides a ban, plain or timed. `date` is the time of the message, in
/// seconds since the epoch; a timed ban ends that long after it.
pub fn ban(
    target: Option<i64>,
    args: Option<&str>,
    is_tban: bool,
    member: Option<&ChatMemberKind>,
    bot_id: i64,
    date: i64,
) -> (r: Decision)
    ensures
        r@ == ban_verdict(target, str_view(args), is_tban, kind_of(member), bot_id, date),
        match span_of(str_view(args)) {
            Some(unit) => in_calendar(date as int) && in_calendar(date + seconds_of(unit))
                ==> r@ == ban_verdict_with(
                target,
                str_view(args),
                is_tban,
                kind_of(member),
                bot_id,
                Some((date + seconds_of(unit)) as i64),
            ),
            None => true,
        },
        match (timed_until(r@), span_of(str_view(args))) {
            (Some(moment), Some(unit)) => moment == date + seconds_of(unit),
            (Some(_), None) => false,
            _ => true,
        },
{
    let user_id = match target {
        Some(id) => id,
        None => {
            return say("Try targeting a user next time bud.");
        },
    };
    if user_id == bot_id {
        return say("No u");
    }
    if args.is_none() && is_tban {
        return say("You need to specify a duration in d/h/m/s (days, hours, minutes, seconds)");
    }
    let kind = match member {
        Some(kind) => kind,
        None => {
            return say("This user is ded mate.");
        },
    };
    match kind {
        ChatMemberKind::Owner | ChatMemberKind::Administrator(_) => {
            return say("I'm not banning an administrator!");
        },
        _ => {},
    }
    match args {
        None => act(Mutation::Ban { user_id, until: None }, String::from_str("Banned!")),
        Some(span) => match UnitOfTime::from_str(span) {
            Ok(unit) => ban_until(user_id, &unit, expiry(date, &unit)),
            Err(_) => if is_tban {
                say(
                    "failed to get specified time; expected one of d/h/m/s (days, hours, minutes, seconds)",
                )
            } else {
                silent()
            },
        },
    }
}

/// Decides a kick.
pub fn kick(target: Option<i64>, member: Option<&ChatMemberKind>, bot_id: i64) -> (r: Decision)
    ensures
        r@ == kick_verdict(target, kind_of(member), bot_id),
{
    let user_id = match target {
        Some(id) => id,
        None => {
            return say("Try targeting a user next time bud.");
        },
    };
    if user_id == bot_id {
        return say("No u");
    }
    match member {
        None => say("This user is ded mate."),
        Some(ChatMemberKind::Banned) | Some(ChatMemberKind::Left) => say(
            "This user isn't in the chat!",
        ),
        Some(ChatMemberKind::Owner) | Some(ChatMemberKind::Administrator(_)) => say(
            "I'm not kicking an administrator!",
        ),
        Some(_) => act(Mutation::Unban { user_id }, String::from_str("Kicked!")),
    }
}

/// Decides a sender's request to be kicked.
pub fn kickme(chat: ChatKind, sender: Option<i64>, member: Option<&ChatMemberKind>) -> (r: Decision)
    ensures
        r@ == kickme_verdict(chat, sender, kind_of(member)),
{
    let user_id = match sender {
        Some(id) => id,
        None => {
            return fail("No user found");
        },
    };
    let spared = match member {
        Some(kind) => is_user_admin(chat, kind).is_ok(),
        None => false,
    };
    if spared {
        say("Yeah no, not banning an admin.")
    } else {
        act(Mutation::Unban { user_id }, String::from_str("Sure thing boss."))
    }
}

/// Decides an unban.
pub fn unban(target: Option<i64>, member: Option<&ChatMemberKind>, bot_id: i64) -> (r: Decision)
    ensures
        r@ == unban_verdict(target, kind_of(member), bot_id),
{
    let user_id = match target {
        Some(id) => id,
        None => {
            return say("Try targeting a user next time bud.");
        },
    };
    match member {
        None => say("This user is ded mate."),
        Some(ChatMemberKind::Banned) => {
            if user_id == bot_id {
                say("What exactly are you trying to do?")
            } else {
                act(Mutation::Unban { user_id }, String::from_str("Unbanned!"))
            }
        },
        Some(_) => say("This user wasn't banned!"),
    }
}

/// Whoever is not banned is never unbanned: the answer is that they were
/// not banned, and nothing is changed.
pub proof fn law_unban_needs_a_ban(target: i64, member: ChatMemberKind, bot_id: i64)
    requires
        !(member is Banned),
    ensures
        unban_verdict(Some(target), Some(member), bot_id) == told("This user wasn't banned!"@),
        unban_verdict(Some(target), Some(member), bot_id).mutation is None,
{
}

/// Aimed at the bot itself, a ban changes nothing and is answered "No u",
/// whatever else holds.
pub proof fn law_ban_spares_the_bot(
    args: Option<Seq<char>>,
    is_tban: bool,
    member: Option<ChatMemberKind>,
    bot_id: i64,
    date: i64,
)
    ensures
        ban_verdict(Some(bot_id), args, is_tban, member, bot_id, date) == told("No u"@),
        ban_verdict(Some(bot_id), args, is_tban, member, bot_id, date).mutation is None,
{
}

/// Aimed at the bot itself, a kick changes nothing and is answered "No u",
/// whatever else holds.
pub proof fn law_kick_spares_the_bot(member: Option<ChatMemberKind>, bot_id: i64)
    ensures
        kick_verdict(Some(bot_id), member, bot_id) == told("No u"@),
        kick_verdict(Some(bot_id), member, bot_id).mutation is None,
{
}

} // verus!
