//! Running the chat: promote, demote, pin, invite link.
//!
//! Promote and demote are decided after their guards have passed and their
//! target has been resolved. `member` is the target's standing in the chat,
//! `None` where the platform could not tell it.

use vstd::prelude::*;
use vstd::string::*;
use crate::actions::{
    act, done, no_rights, say, str_view, told, AdminRights, Decision, Mutation, Verdict,
};
use crate::args::PinMode;
use crate::message::text_view;
use crate::perms::{kind_of, ChatKind, ChatMemberKind};

verus! {

/// The administrator flags that a member holds: the owner all of them, an
/// administrator those that are set, anybody else none.
pub open spec fn rights_of(kind: ChatMemberKind) -> AdminRights {
    match kind {
        ChatMemberKind::Owner => AdminRights {
            can_manage_chat: true,
            can_change_info: true,
            can_delete_messages: true,
            can_manage_voice_chats: true,
            can_invite_users: true,
            can_restrict_members: true,
            can_pin_messages: true,
            can_promote_members: true,
        },
        ChatMemberKind::Administrator(admin) => AdminRights {
            can_manage_chat: admin.can_manage_chat,
            can_change_info: admin.can_change_info,
            can_delete_messages: admin.can_delete_messages,
            can_manage_voice_chats: admin.can_manage_voice_chats,
            can_invite_users: admin.can_invite_users,
            can_restrict_members: admin.can_restrict_members,
            can_pin_messages: admin.can_pin_messages == Some(true),
            can_promote_members: admin.can_promote_members,
        },
        _ => no_rights(),
    }
}

/// The flags that the bot hands on: its own, with the right to pin only in
/// a supergroup.
pub open spec fn granted(bot: ChatMemberKind, chat: ChatKind) -> AdminRights {
    AdminRights {
        can_pin_messages: rights_of(bot).can_pin_messages && chat == ChatKind::Supergroup,
        ..rights_of(bot)
    }
}

/// Whether every flag of `part` is also set in `whole`.
pub open spec fn within(part: AdminRights, whole: AdminRights) -> bool {
    &&& part.can_manage_chat ==> whole.can_manage_chat
    &&& part.can_change_info ==> whole.can_change_info
    &&& part.can_delete_messages ==> whole.can_delete_messages
    &&& part.can_manage_voice_chats ==> whole.can_manage_voice_chats
    &&& part.can_invite_users ==> whole.can_invite_users
    &&& part.can_restrict_members ==> whole.can_restrict_members
    &&& part.can_pin_messages ==> whole.can_pin_messages
    &&& part.can_promote_members ==> whole.can_promote_members
}

/// Whether the bot can set a member's flags: never the owner's, an
/// administrator's only where the platform lets the bot edit them.
pub open spec fn editable(kind: ChatMemberKind) -> bool {
    match kind {
        ChatMemberKind::Owner => false,
        ChatMemberKind::Administrator(admin) => admin.can_be_edited,
        _ => true,
    }
}

/// What a promotion decides, by the first line that fits: no target; the bot
/// itself; a target unknown to the chat; otherwise the answer is a success,
/// and where the bot can set the target's flags it hands on its own.
pub open spec fn promote_verdict(
    target: Option<i64>,
    member: Option<ChatMemberKind>,
    bot: ChatMemberKind,
    chat: ChatKind,
    bot_id: i64,
) -> Verdict {
    match target {
        None => told("Try targeting a user next time bud."@),
        Some(user_id) => if user_id == bot_id {
            told("No u"@)
        } else {
            match member {
                None => told("This user is ded mate."@),
                Some(kind) => if editable(kind) {
                    done(
                        Mutation::Promote { user_id, rights: granted(bot, chat) },
                        "Successfully promoted!"@,
                    )
                } else {
                    told("Successfully promoted!"@)
                },
            }
        },
    }
}

/// What a demotion decides, by the first line that fits: no target; a target
/// unknown to the chat; the owner; somebody who is no administrator; the bot
/// itself; an administrator whom the bot cannot edit; otherwise every flag of
/// the target is cleared.
pub open spec fn demote_verdict(target: Option<i64>, member: Option<ChatMemberKind>, bot_id: i64) -> Verdict {
    match target {
        None => told("Try targeting a user next time bud."@),
        Some(user_id) => match member {
            None => told("This user is ded mate."@),
            Some(ChatMemberKind::Owner) => told(
                "This person CREATED the chat, how would I demote them?"@,
            ),
            Some(ChatMemberKind::Administrator(admin)) => if user_id == bot_id {
                told("No u"@)
            } else if admin.can_be_edited {
                done(Mutation::Promote { user_id, rights: no_rights() }, "Successfully demoted!"@)
            } else {
                told(
                    "Could not demote. I might not be admin, or the admin status was appointed by another user, so I can't act upon them!"@,
                )
            },
            Some(_) => told("Can't demote what wasn't promoted!"@),
        },
    }
}

/// What pinning decides: the message replied to is pinned, quietly unless the
/// mode is loud; without a reply there is nothing to pin.
pub open spec fn pin_verdict(replied: Option<i32>, mode: PinMode) -> Verdict {
    match replied {
        Some(message_id) => Verdict {
            mutation: Some(Mutation::Pin { message_id, silent: mode == PinMode::Silent }),
            reply: None,
            failure: None,
        },
        None => told("Can't pin that message!"@),
    }
}

/// What to do about a request for the invite link.
#[derive(Clone, Debug, PartialEq, Eq)]
pub enum Invite {
    /// Answer with this text.
    Reply(String),
    /// Ask the platform for a new link, then answer with `invite_exported`.
    Export,
}

/// The first step for an invite link: a private chat has none; a chat whose
/// link is known gives it; for any other a link has to be made.
pub open spec fn invite_step(chat: ChatKind, link: Option<Seq<char>>) -> Option<Seq<char>> {
    if chat == ChatKind::Private {
        Some("I can only give you invite links for supergroups and channels, sorry!"@)
    } else {
        link
    }
}

/// The answer once the platform was asked for a link: the link, or an excuse.
pub open spec fn exported_text(link: Option<Seq<char>>) -> Seq<char> {
    match link {
        Some(l) => l,
        None => "I don't have access to the invite link, try changing my permissions!"@,
    }
}

fn rights(kind: &ChatMemberKind) -> (r: AdminRights)
    ensures
        r == rights_of(*kind),
{
    match kind {
        ChatMemberKind::Owner => AdminRights {
            can_manage_chat: true,
            can_change_info: true,
            can_delete_messages: true,
            can_manage_voice_chats: true,
            can_invite_users: true,
            can_restrict_members: true,
            can_pin_messages: true,
            can_promote_members: true,
        },
        ChatMemberKind::Administrator(admin) => AdminRights {
            can_manage_chat: admin.can_manage_chat,
            can_change_info: admin.can_change_info,
            can_delete_messages: admin.can_delete_messages,
            can_manage_voice_chats: admin.can_manage_voice_chats,
            can_invite_users: admin.can_invite_users,
            can_restrict_members: admin.can_restrict_members,
            can_pin_messages: match admin.can_pin_messages {
                Some(flag) => flag,
                None => false,
            },
            can_promote_members: admin.can_promote_members,
        },
        _ => cleared(),
    }
}

fn cleared() -> (r: AdminRights)
    ensures
        r == no_rights(),
{
    AdminRights {
        can_manage_chat: false,
        can_change_info: false,
        can_delete_messages: false,
        can_manage_voice_chats: false,
        can_invite_users: false,
        can_restrict_members: false,
        can_pin_messages: false,
        can_promote_members: false,
    }
}

/// Decides a promotion. `bot` is the bot's own standing in the chat.
pub fn promote(
    target: Option<i64>,
    member: Option<&ChatMemberKind>,
    bot: &ChatMemberKind,
    chat: ChatKind,
    bot_id: i64,
) -> (r: Decision)
    ensures
        r@ == promote_verdict(target, kind_of(member), *bot, chat, bot_id),
        r@.mutation matches Some(Mutation::Promote { rights, .. }) ==> within(
            rights,
            rights_of(*bot),
        ),
{
    let user_id = match target {
        Some(id) => id,
        None => {
            return say("Try targeting a user next time bud.");
        },
    };
    if user_id == bot_id {
        return say("No u");
    }
    let kind = match member {
        Some(kind) => kind,
        None => {
            return say("This user is ded mate.");
        },
    };
    let can_edit = match kind {
        ChatMemberKind::Owner => false,
        ChatMemberKind::Administrator(admin) => admin.can_be_edited,
        _ => true,
    };
    if can_edit {
        let own = rights(bot);
        let in_supergroup = match chat {
            ChatKind::Supergroup => true,
            _ => false,
        };
        let handed = AdminRights {
            can_manage_chat: own.can_manage_chat,
            can_change_info: own.can_change_info,
            can_delete_messages: own.can_delete_messages,
            can_manage_voice_chats: own.can_manage_voice_chats,
            can_invite_users: own.can_invite_users,
            can_restrict_members: own.can_restrict_members,
            can_pin_messages: own.can_pin_messages && in_supergroup,
            can_promote_members: own.can_promote_members,
        };
        act(Mutation::Promote { user_id, rights: handed }, String::from_str("Successfully promoted!"))
    } else {
        say("Successfully promoted!")
    }
}

/// Decides a demotion.
pub fn demote(target: Option<i64>, member: Option<&ChatMemberKind>, bot_id: i64) -> (r: Decision)
    ensures
        r@ == demote_verdict(target, kind_of(member), bot_id),
        r@.mutation matches Some(Mutation::Promote { rights, .. }) ==> rights == no_rights(),
{
    let user_id = match target {
        Some(id) => id,
        None => {
            return say("Try targeting a user next time bud.");
        },
    };
    match member {
        None => say("This user is ded mate."),
        Some(ChatMemberKind::Owner) => say("This person CREATED the chat, how would I demote them?"),
        Some(ChatMemberKind::Administrator(admin)) => {
            if user_id == bot_id {
                say("No u")
            } else if admin.can_be_edited {
                act(
                    Mutation::Promote { user_id, rights: cleared() },
                    String::from_str("Successfully demoted!"),
                )
            } else {
                say(
                    "Could not demote. I might not be admin, or the admin status was appointed by another user, so I can't act upon them!",
                )
            }
        },
        Some(_) => say("Can't demote what wasn't promoted!"),
    }
}

/// Decides a pin. `replied` is the message that the command replies to.
pub fn pin(replied: Option<i32>, mode: PinMode) -> (r: Decision)
    ensures
        r@ == pin_verdict(replied, mode),
{
    match replied {
        Some(message_id) => Decision {
            mutation: Some(Mutation::Pin { message_id, silent: mode.is_silent() }),
            reply: None,
            failure: None,
        },
        None => say("Can't pin that message!"),
    }
}

/// Decides what to do about a request for the invite link. `link` is the
/// link that the chat is already known to have.
pub fn invite(chat: ChatKind, link: Option<&str>) -> (r: Invite)
    ensures
        match r {
            Invite::Reply(text) => invite_step(chat, str_view(link)) == Some(text@),
            Invite::Export => invite_step(chat, str_view(link)) is None,
        },
{
    match chat {
        ChatKind::Private => Invite::Reply(
            String::from_str("I can only give you invite links for supergroups and channels, sorry!"),
        ),
        _ => match link {
            Some(known) => Invite::Reply(String::from_str(known)),
            None => Invite::Export,
        },
    }
}

/// The answer to a request for the invite link once the platform was asked
/// to make one; `link` is what it gave.
pub fn invite_exported(link: Option<String>) -> (r: String)
    ensures
        r@ == exported_text(text_view(link)),
{
    match link {
        Some(made) => made,
        None => String::from_str(
            "I don't have access to the invite link, try changing my permissions!",
        ),
    }
}

/// A promotion never hands the target a flag that the bot does not hold.
pub proof fn law_promote_within_own_rights(
    target: Option<i64>,
    member: Option<ChatMemberKind>,
    bot: ChatMemberKind,
    chat: ChatKind,
    bot_id: i64,
)
    ensures
        promote_verdict(target, member, bot, chat, bot_id).mutation matches Some(
            Mutation::Promote { rights, .. },
        ) ==> within(rights, rights_of(bot)),
        promote_verdict(target, member, bot, chat, bot_id).mutation matches Some(m) ==> m is Promote,
{
}

/// A demotion that changes anything clears every flag of the target,
/// whatever the target held before.
pub proof fn law_demote_clears_all(target: Option<i64>, member: Option<ChatMemberKind>, bot_id: i64)
    ensures
        demote_verdict(target, member, bot_id).mutation matches Some(m) ==> m == (Mutation::Promote {
            user_id: target->0,
            rights: no_rights(),
        }),
{
}

/// Aimed at the bot itself, a promotion changes nothing and is answered
/// "No u", whatever else holds.
pub proof fn law_promote_spares_the_bot(
    member: Option<ChatMemberKind>,
    bot: ChatMemberKind,
    chat: ChatKind,
    bot_id: i64,
)
    ensures
        promote_verdict(Some(bot_id), member, bot, chat, bot_id) == told("No u"@),
        promote_verdict(Some(bot_id), member, bot, chat, bot_id).mutation is None,
{
}

} // verus!
