//! A moderation command from its guards to its decision: nothing is changed
//! unless every guard of the command has passed.

use vstd::prelude::*;
use crate::actions::{in_calendar, say, silent, Decision, Verdict};
use crate::admin::{demote, demote_verdict, pin, pin_verdict, promote, promote_verdict};
use crate::args::{seconds_of, PinMode};
use crate::banning::{
    ban, ban_verdict_with, end_of, kick, kick_verdict, kickme, kickme_verdict, span_of, unban,
    unban_verdict,
};
use crate::message::text_view;
use crate::muting::{mute, mute_verdict_with, unmute, unmute_verdict};
use crate::perms::{
    bot_holds, denial_text, guards, kind_of, require_all, require_bot_restrict_chat_members,
    require_group, sender_holds, Capability, ChatKind, ChatMemberKind, Denial,
};

verus! {

/// The commands that change a chat.
#[derive(Clone, Copy, Debug, PartialEq, Eq, Structural)]
pub enum Command {
    Ban,
    Tban,
    Kick,
    Kickme,
    Unban,
    Mute,
    Tmute,
    Unmute,
    Promote,
    Demote,
    Pin(PinMode),
}

/// What is known when a command is decided.
#[derive(Clone, Debug, PartialEq, Eq)]
pub struct Facts {
    pub chat: ChatKind,
    pub bot_id: i64,
    /// The bot's own standing in the chat.
    pub bot: ChatMemberKind,
    /// The time of the message, in seconds since the epoch.
    pub date: i64,
    /// Who sent the message.
    pub sender: Option<i64>,
    /// The resolved target and the text that goes with it.
    pub target: Option<i64>,
    pub args: Option<String>,
    /// The standing of the person the command acts on: the target's, and for
    /// a request to be kicked the sender's; `None` where the platform could
    /// not tell it.
    pub member: Option<ChatMemberKind>,
    /// The message that the command replies to.
    pub replied: Option<i32>,
}

/// The capability that the sender and the bot need for a command. A request
/// to be kicked asks it of the bot alone.
pub open spec fn needed(command: Command) -> Capability {
    match command {
        Command::Promote | Command::Demote => Capability::PromoteMembers,
        Command::Pin(_) => Capability::PinMessages,
        _ => Capability::RestrictMembers,
    }
}

/// The guards of a command, asked in order: the chat is a group, the sender
/// holds the capability, the bot holds it. A request to be kicked skips the
/// sender. The first refusal is the answer.
pub open spec fn guard_of(
    command: Command,
    chat: ChatKind,
    sender: Option<ChatMemberKind>,
    bot: ChatMemberKind,
) -> Result<(), Denial> {
    if command == Command::Kickme {
        if !(chat == ChatKind::Group || chat == ChatKind::Supergroup) {
            Err(Denial::NotGroup)
        } else if !bot_holds(bot, Capability::RestrictMembers) {
            Err(Denial::BotCannotRestrict)
        } else {
            Ok(())
        }
    } else {
        guards(chat, sender, bot, needed(command))
    }
}

/// Whether a command names its target in its arguments or by a reply.
pub open spec fn has_target(command: Command) -> bool {
    !(command == Command::Kickme || command is Pin)
}

/// What a refused command decides: nothing is changed, and the user is told
/// why, where the denial has a text.
pub open spec fn denied(denial: Denial) -> Verdict {
    Verdict { mutation: None, reply: denial_text(denial), failure: None }
}

/// What a command decides once its guards have passed, with `until` as the
/// end of the span that its text writes.
pub open spec fn command_verdict_with(command: Command, facts: Facts, until: Option<i64>) -> Verdict {
    let args = text_view(facts.args);
    match command {
        Command::Ban => ban_verdict_with(facts.target, args, false, facts.member, facts.bot_id, until),
        Command::Tban => ban_verdict_with(facts.target, args, true, facts.member, facts.bot_id, until),
        Command::Kick => kick_verdict(facts.target, facts.member, facts.bot_id),
        Command::Kickme => kickme_verdict(facts.chat, facts.sender, facts.member),
        Command::Unban => unban_verdict(facts.target, facts.member, facts.bot_id),
        Command::Mute => mute_verdict_with(
            facts.target,
            args,
            false,
            facts.chat,
            facts.member,
            facts.bot_id,
            until,
        ),
        Command::Tmute => mute_verdict_with(
            facts.target,
            args,
            true,
            facts.chat,
            facts.member,
            facts.bot_id,
            until,
        ),
        Command::Unmute => unmute_verdict(facts.target, facts.chat, facts.member, facts.bot_id),
        Command::Promote => promote_verdict(
            facts.target,
            facts.member,
            facts.bot,
            facts.chat,
            facts.bot_id,
        ),
        Command::Demote => demote_verdict(facts.target, facts.member, facts.bot_id),
        Command::Pin(mode) => pin_verdict(facts.replied, mode),
    }
}

/// What a command decides once its guards have passed.
pub open spec fn command_verdict(command: Command, facts: Facts) -> Verdict {
    command_verdict_with(command, facts, end_of(text_view(facts.args), facts.date))
}

/// What a command decides, given the answer of its guards: a denial stops it
/// before anything is changed.
pub open spec fn guarded_verdict(guard: Result<(), Denial>, command: Command, facts: Facts) -> Verdict {
    match guard {
        Err(denial) => denied(denial),
        Ok(_) => command_verdict(command, facts),
    }
}

/// Asks the guards of a command. `sender` is the standing of the person who
/// sent it, `bot` the bot's own.
pub fn check(command: Command, chat: ChatKind, sender: Option<&ChatMemberKind>, bot: &ChatMemberKind) -> (r:
    Result<(), Denial>)
    ensures
        r == guard_of(command, chat, kind_of(sender), *bot),
{
    match command {
        Command::Kickme => match require_group(chat) {
            Err(denial) => Err(denial),
            Ok(_) => require_bot_restrict_chat_members(bot),
        },
        Command::Promote | Command::Demote => require_all(chat, sender, bot, Capability::PromoteMembers),
        Command::Pin(_) => require_all(chat, sender, bot, Capability::PinMessages),
        _ => require_all(chat, sender, bot, Capability::RestrictMembers),
    }
}

/// Tells whether a command names its target in its arguments or by a reply,
/// so that the target has to be resolved before the command is decided.
pub fn takes_target(command: Command) -> (r: bool)
    ensures
        r == has_target(command),
{
    match command {
        Command::Kickme | Command::Pin(_) => false,
        _ => true,
    }
}

/// Decides a command, given the answer of its guards. On a denial nothing is
/// changed and the user is told the denial's text; otherwise the command
/// decides by its own rules.
pub fn decide(guard: Result<(), Denial>, command: Command, facts: &Facts) -> (r: Decision)
    ensures
        r@ == guarded_verdict(guard, command, *facts),
        guard is Err ==> r@.mutation is None && r@.failure is None,
        match span_of(text_view(facts.args)) {
            Some(unit) => guard is Ok && in_calendar(facts.date as int) && in_calendar(
                facts.date + seconds_of(unit),
            ) ==> r@ == command_verdict_with(
                command,
                *facts,
                Some((facts.date + seconds_of(unit)) as i64),
            ),
            None => true,
        },
{
    match guard {
        Err(denial) => {
            return match denial.message() {
                Some(text) => say(text),
                None => silent(),
            };
        },
        Ok(_) => {},
    }
    let args = match &facts.args {
        Some(text) => Some(text.as_str()),
        None => None,
    };
    let member = match &facts.member {
        Some(kind) => Some(kind),
        None => None,
    };
    match command {
        Command::Ban => ban(facts.target, args, false, member, facts.bot_id, facts.date),
        Command::Tban => ban(facts.target, args, true, member, facts.bot_id, facts.date),
        Command::Kick => kick(facts.target, member, facts.bot_id),
        Command::Kickme => kickme(facts.chat, facts.sender, member),
        Command::Unban => unban(facts.target, member, facts.bot_id),
        Command::Mute => mute(facts.target, args, false, facts.chat, member, facts.bot_id, facts.date),
        Command::Tmute => mute(facts.target, args, true, facts.chat, member, facts.bot_id, facts.date),
        Command::Unmute => unmute(facts.target, facts.chat, member, facts.bot_id),
        Command::Promote => promote(facts.target, member, &facts.bot, facts.chat, facts.bot_id),
        Command::Demote => demote(facts.target, member, facts.bot_id),
        Command::Pin(mode) => pin(facts.replied, mode),
    }
}

/// A command whose guards refuse changes nothing, whatever its target and
/// text: a chat that is no group, a sender without the capability or a bot
/// without it each stop the command, and the user is told of the first.
pub proof fn law_refused_changes_nothing(
    command: Command,
    sender: Option<ChatMemberKind>,
    facts: Facts,
)
    requires
        guard_of(command, facts.chat, sender, facts.bot) is Err,
    ensures
        guarded_verdict(guard_of(command, facts.chat, sender, facts.bot), command, facts).mutation
            is None,
        guarded_verdict(guard_of(command, facts.chat, sender, facts.bot), command, facts).reply
            == denial_text(guard_of(command, facts.chat, sender, facts.bot)->Err_0),
{
}

/// The guards of a command pass exactly where the chat is a group and the
/// bot holds the capability that the command needs, and, for every command
/// but a request to be kicked, the sender holds it too.
pub proof fn law_guards_pass(
    command: Command,
    chat: ChatKind,
    sender: Option<ChatMemberKind>,
    bot: ChatMemberKind,
)
    ensures
        guard_of(command, chat, sender, bot) is Ok <==> (chat == ChatKind::Group || chat
            == ChatKind::Supergroup) && bot_holds(bot, needed(command)) && (command
            == Command::Kickme || sender_holds(sender, needed(command))),
{
}

} // verus!
