//! Who may do what: the membership model of a chat, and the guards that a
//! command has to pass before it changes anything.

use vstd::prelude::*;

verus! {

/// The kind of chat a message was sent in.
#[derive(Clone, Copy, Debug, PartialEq, Eq, Structural)]
pub enum ChatKind {
    Private,
    Group,
    Supergroup,
    Channel,
}

/// The capability flags of an administrator.
#[derive(Clone, Copy, Debug, PartialEq, Eq)]
pub struct Administrator {
    /// Whether the bot may edit this administrator's privileges.
    pub can_be_edited: bool,
    pub can_manage_chat: bool,
    pub can_change_info: bool,
    pub can_delete_messages: bool,
    pub can_manage_voice_chats: bool,
    pub can_invite_users: bool,
    pub can_restrict_members: bool,
    /// Only told in supergroups.
    pub can_pin_messages: Option<bool>,
    pub can_promote_members: bool,
}

/// What a restricted member may still post.
#[derive(Clone, Copy, Debug, PartialEq, Eq, Structural)]
pub struct Restricted {
    pub can_send_messages: bool,
    pub can_send_media_messages: bool,
    pub can_send_other_messages: bool,
    pub can_add_web_page_previews: bool,
}

/// A user's standing in a chat.
#[derive(Clone, Copy, Debug, PartialEq, Eq)]
pub enum ChatMemberKind {
    Owner,
    Administrator(Administrator),
    Member,
    Restricted(Restricted),
    Left,
    Banned,
}

/// Why a guard refused.
#[derive(Clone, Copy, Debug, PartialEq, Eq, Structural)]
pub enum Denial {
    NotGroup,
    BotNotAdmin,
    UserNotAdmin,
    /// The message names no sender; nobody is told.
    NoSender,
    BotCannotRestrict,
    UserCannotRestrict,
    BotCannotPromote,
    UserCannotPromote,
    BotCannotPin,
    UserCannotPin,
}

/// The capabilities that a guard can ask for.
#[derive(Clone, Copy, Debug, PartialEq, Eq, Structural)]
pub enum Capability {
    RestrictMembers,
    PromoteMembers,
    PinMessages,
}

/// What the user is told about a denial.
pub open spec fn denial_text(denial: Denial) -> Option<Seq<char>> {
    match denial {
        Denial::NotGroup => Some("This command is meant to be used in a group!"@),
        Denial::BotNotAdmin => Some("The bot must be an admin for this to work!"@),
        Denial::UserNotAdmin => Some("You need to be an admin for this to work!"@),
        Denial::NoSender => None,
        Denial::BotCannotRestrict => Some(
            "I am missing the required permission for this action: CAN_RESTRICT_MEMBERS."@,
        ),
        Denial::UserCannotRestrict => Some(
            "You're missing the required permission for this action: CAN_RESTRICT_MEMBERS."@,
        ),
        Denial::BotCannotPromote => Some(
            "I am missing the required permission for this action: CAN_PROMOTE_MEMBERS."@,
        ),
        Denial::UserCannotPromote => Some(
            "You're missing the required permission for this action: CAN_PROMOTE_MEMBERS."@,
        ),
        Denial::BotCannotPin => Some(
            "I am missing the required permission for this action: CAN_PIN_MESSAGES."@,
        ),
        Denial::UserCannotPin => Some(
            "You're missing the required permission for this action: CAN_PIN_MESSAGES."@,
        ),
    }
}

/// Whether an administrator's flag for `capability` is set.
pub open spec fn flag_set(admin: Administrator, capability: Capability) -> bool {
    match capability {
        Capability::RestrictMembers => admin.can_restrict_members,
        Capability::PromoteMembers => admin.can_promote_members,
        Capability::PinMessages => admin.can_pin_messages == Some(true),
    }
}

/// Whether the person who sent a command holds `capability`: the owner
/// always does, an administrator by the flag, nobody else.
pub open spec fn sender_holds(sender: Option<ChatMemberKind>, capability: Capability) -> bool {
    match sender {
        Some(ChatMemberKind::Owner) => true,
        Some(ChatMemberKind::Administrator(admin)) => flag_set(admin, capability),
        _ => false,
    }
}

/// Whether the bot holds `capability`: only as an administrator with the
/// flag set.
pub open spec fn bot_holds(bot: ChatMemberKind, capability: Capability) -> bool {
    match bot {
        ChatMemberKind::Administrator(admin) => flag_set(admin, capability),
        _ => false,
    }
}

/// Whether a member runs the chat, as owner or administrator. In a private
/// chat everybody does.
pub open spec fn is_admin(chat: ChatKind, member: ChatMemberKind) -> bool {
    chat == ChatKind::Private || member is Owner || member is Administrator
}

/// Whether a member may post everything: text, media, other content and
/// link previews. Who left or was banned may post nothing.
pub open spec fn speaks_freely(member: ChatMemberKind) -> bool {
    match member {
        ChatMemberKind::Restricted(r) => r.can_send_messages && r.can_send_media_messages
            && r.can_send_other_messages && r.can_add_web_page_previews,
        ChatMemberKind::Owner | ChatMemberKind::Administrator(_) | ChatMemberKind::Member => true,
        ChatMemberKind::Left | ChatMemberKind::Banned => false,
    }
}

/// Whether a member counts as restricted: outside private chats, whoever may
/// not post everything.
pub open spec fn restricted(chat: ChatKind, member: ChatMemberKind) -> bool {
    chat != ChatKind::Private && !speaks_freely(member)
}

impl Denial {
    /// The text that explains this denial to the user, if one is sent.
    pub fn message(&self) -> (r: Option<&'static str>)
        ensures
            match r {
                Some(text) => denial_text(*self) == Some(text@),
                None => denial_text(*self) is None,
            },
    {
        match self {
            Denial::NotGroup => Some("This command is meant to be used in a group!"),
            Denial::BotNotAdmin => Some("The bot must be an admin for this to work!"),
            Denial::UserNotAdmin => Some("You need to be an admin for this to work!"),
            Denial::NoSender => None,
            Denial::BotCannotRestrict => Some(
                "I am missing the required permission for this action: CAN_RESTRICT_MEMBERS.",
            ),
            Denial::UserCannotRestrict => Some(
                "You're missing the required permission for this action: CAN_RESTRICT_MEMBERS.",
            ),
            Denial::BotCannotPromote => Some(
                "I am missing the required permission for this action: CAN_PROMOTE_MEMBERS.",
            ),
            Denial::UserCannotPromote => Some(
                "You're missing the required permission for this action: CAN_PROMOTE_MEMBERS.",
            ),
            Denial::BotCannotPin => Some(
                "I am missing the required permission for this action: CAN_PIN_MESSAGES.",
            ),
            Denial::UserCannotPin => Some(
                "You're missing the required permission for this action: CAN_PIN_MESSAGES.",
            ),
        }
    }
}

/// The membership behind a reference that may be absent.
pub open spec fn kind_of(member: Option<&ChatMemberKind>) -> Option<ChatMemberKind> {
    match member {
        Some(kind) => Some(*kind),
        None => None,
    }
}

fn has_flag(admin: &Administrator, capability: Capability) -> (r: bool)
    ensures
        r == flag_set(*admin, capability),
{
    match capability {
        Capability::RestrictMembers => admin.can_restrict_members,
        Capability::PromoteMembers => admin.can_promote_members,
        Capability::PinMessages => match admin.can_pin_messages {
            Some(flag) => flag,
            None => false,
        },
    }
}

fn sender_has(sender: Option<&ChatMemberKind>, capability: Capability) -> (r: bool)
    ensures
        r == sender_holds(kind_of(sender), capability),
{
    match sender {
        Some(ChatMemberKind::Owner) => true,
        Some(ChatMemberKind::Administrator(admin)) => has_flag(admin, capability),
        _ => false,
    }
}

fn bot_has(bot: &ChatMemberKind, capability: Capability) -> (r: bool)
    ensures
        r == bot_holds(*bot, capability),
{
    match bot {
        ChatMemberKind::Administrator(admin) => has_flag(admin, capability),
        _ => false,
    }
}

/// Passes where the bot is an administrator of the chat; a private chat has
/// none and always passes.
fn is_bot_admin(chat: ChatKind, bot: &ChatMemberKind) -> (r: Result<(), Denial>)
    ensures
        r == (if chat == ChatKind::Private || *bot is Administrator {
            Ok::<(), Denial>(())
        } else {
            Err::<(), Denial>(Denial::BotNotAdmin)
        }),
{
    match chat {
        ChatKind::Private => Ok(()),
        _ => match bot {
            ChatMemberKind::Administrator(_) => Ok(()),
            _ => Err(Denial::BotNotAdmin),
        },
    }
}

/// The guard form of `is_bot_admin`: the denial carries the text for the
/// user.
pub fn require_bot_admin(chat: ChatKind, bot: &ChatMemberKind) -> (r: Result<(), Denial>)
    ensures
        r == (if chat == ChatKind::Private || *bot is Administrator {
            Ok::<(), Denial>(())
        } else {
            Err::<(), Denial>(Denial::BotNotAdmin)
        }),
{
    is_bot_admin(chat, bot)
}

/// Passes where `member` is the owner or an administrator of the chat; in a
/// private chat everybody passes.
pub fn is_user_admin(chat: ChatKind, member: &ChatMemberKind) -> (r: Result<(), Denial>)
    ensures
        r == (if is_admin(chat, *member) {
            Ok::<(), Denial>(())
        } else {
            Err::<(), Denial>(Denial::UserNotAdmin)
        }),
{
    match chat {
        ChatKind::Private => Ok(()),
        _ => match member {
            ChatMemberKind::Administrator(_) => Ok(()),
            ChatMemberKind::Owner => Ok(()),
            _ => Err(Denial::UserNotAdmin),
        },
    }
}

/// Passes where the sender of the command runs the chat. A message without a
/// sender is refused without a word.
pub fn require_user_admin(chat: ChatKind, sender: Option<&ChatMemberKind>) -> (r: Result<
    (),
    Denial,
>)
    ensures
        r == (match kind_of(sender) {
            None => Err::<(), Denial>(Denial::NoSender),
            Some(member) => if is_admin(chat, member) {
                Ok::<(), Denial>(())
            } else {
                Err::<(), Denial>(Denial::UserNotAdmin)
            },
        }),
{
    match sender {
        None => Err(Denial::NoSender),
        Some(member) => is_user_admin(chat, member),
    }
}

/// Whether `member` is restricted in this chat.
pub fn is_user_restricted(chat: ChatKind, member: &ChatMemberKind) -> (r: bool)
    ensures
        r == restricted(chat, *member),
{
    match chat {
        ChatKind::Private => false,
        _ => {
            let free = match member {
                ChatMemberKind::Restricted(r) => r.can_send_messages && r.can_send_media_messages
                    && r.can_send_other_messages && r.can_add_web_page_previews,
                ChatMemberKind::Owner | ChatMemberKind::Administrator(_) | ChatMemberKind::Member => true,
                ChatMemberKind::Left | ChatMemberKind::Banned => false,
            };
            !free
        },
    }
}

/// Passes in groups and supergroups only.
pub fn require_group(chat: ChatKind) -> (r: Result<(), Denial>)
    ensures
        r == (if chat == ChatKind::Group || chat == ChatKind::Supergroup {
            Ok::<(), Denial>(())
        } else {
            Err::<(), Denial>(Denial::NotGroup)
        }),
{
    match chat {
        ChatKind::Group | ChatKind::Supergroup => Ok(()),
        _ => Err(Denial::NotGroup),
    }
}

/// Passes where the bot may restrict, ban and unban members.
pub fn require_bot_restrict_chat_members(bot: &ChatMemberKind) -> (r: Result<(), Denial>)
    ensures
        r == (if bot_holds(*bot, Capability::RestrictMembers) {
            Ok::<(), Denial>(())
        } else {
            Err::<(), Denial>(Denial::BotCannotRestrict)
        }),
{
    if bot_has(bot, Capability::RestrictMembers) {
        Ok(())
    } else {
        Err(Denial::BotCannotRestrict)
    }
}

/// Passes where the sender may restrict, ban and unban members.
pub fn require_restrict_chat_members(sender: Option<&ChatMemberKind>) -> (r: Result<(), Denial>)
    ensures
        r == (if sender_holds(kind_of(sender), Capability::RestrictMembers) {
            Ok::<(), Denial>(())
        } else {
            Err::<(), Denial>(Denial::UserCannotRestrict)
        }),
{
    if sender_has(sender, Capability::RestrictMembers) {
        Ok(())
    } else {
        Err(Denial::UserCannotRestrict)
    }
}

/// Passes where the bot may appoint administrators.
pub fn require_bot_promote_chat_members(bot: &ChatMemberKind) -> (r: Result<(), Denial>)
    ensures
        r == (if bot_holds(*bot, Capability::PromoteMembers) {
            Ok::<(), Denial>(())
        } else {
            Err::<(), Denial>(Denial::BotCannotPromote)
        }),
{
    if bot_has(bot, Capability::PromoteMembers) {
        Ok(())
    } else {
        Err(Denial::BotCannotPromote)
    }
}

/// Passes where the sender may appoint administrators.
pub fn require_promote_chat_members(sender: Option<&ChatMemberKind>) -> (r: Result<(), Denial>)
    ensures
        r == (if sender_holds(kind_of(sender), Capability::PromoteMembers) {
            Ok::<(), Denial>(())
        } else {
            Err::<(), Denial>(Denial::UserCannotPromote)
        }),
{
    if sender_has(sender, Capability::PromoteMembers) {
        Ok(())
    } else {
        Err(Denial::UserCannotPromote)
    }
}

/// Passes where the sender may pin messages.
pub fn require_can_pin_messages(sender: Option<&ChatMemberKind>) -> (r: Result<(), Denial>)
    ensures
        r == (if sender_holds(kind_of(sender), Capability::PinMessages) {
            Ok::<(), Denial>(())
        } else {
            Err::<(), Denial>(Denial::UserCannotPin)
        }),
{
    if sender_has(sender, Capability::PinMessages) {
        Ok(())
    } else {
        Err(Denial::UserCannotPin)
    }
}

/// Passes where the bot may pin messages.
pub fn require_bot_can_pin_messages(bot: &ChatMemberKind) -> (r: Result<(), Denial>)
    ensures
        r == (if bot_holds(*bot, Capability::PinMessages) {
            Ok::<(), Denial>(())
        } else {
            Err::<(), Denial>(Denial::BotCannotPin)
        }),
{
    if bot_has(bot, Capability::PinMessages) {
        Ok(())
    } else {
        Err(Denial::BotCannotPin)
    }
}

/// What a command that needs `capability` has to pass, in this order: the
/// chat is a group, the sender holds the capability, the bot holds it.
pub open spec fn guards(
    chat: ChatKind,
    sender: Option<ChatMemberKind>,
    bot: ChatMemberKind,
    capability: Capability,
) -> Result<(), Denial> {
    if !(chat == ChatKind::Group || chat == ChatKind::Supergroup) {
        Err(Denial::NotGroup)
    } else if !sender_holds(sender, capability) {
        Err(
            match capability {
                Capability::RestrictMembers => Denial::UserCannotRestrict,
                Capability::PromoteMembers => Denial::UserCannotPromote,
                Capability::PinMessages => Denial::UserCannotPin,
            },
        )
    } else if !bot_holds(bot, capability) {
        Err(
            match capability {
                Capability::RestrictMembers => Denial::BotCannotRestrict,
                Capability::PromoteMembers => Denial::BotCannotPromote,
                Capability::PinMessages => Denial::BotCannotPin,
            },
        )
    } else {
        Ok(())
    }
}

/// Asks all guards of a command that needs `capability` and gives the first
/// denial, so that the user hears of one refusal at most.
pub fn require_all(
    chat: ChatKind,
    sender: Option<&ChatMemberKind>,
    bot: &ChatMemberKind,
    capability: Capability,
) -> (r: Result<(), Denial>)
    ensures
        r == guards(chat, kind_of(sender), *bot, capability),
        r is Ok <==> (chat == ChatKind::Group || chat == ChatKind::Supergroup) && sender_holds(
            kind_of(sender),
            capability,
        ) && bot_holds(*bot, capability),
{
    match require_group(chat) {
        Err(denial) => {
            return Err(denial);
        },
        Ok(_) => {},
    }
    let by_sender = match capability {
        Capability::RestrictMembers => require_restrict_chat_members(sender),
        Capability::PromoteMembers => require_promote_chat_members(sender),
        Capability::PinMessages => require_can_pin_messages(sender),
    };
    match by_sender {
        Err(denial) => {
            return Err(denial);
        },
        Ok(_) => {},
    }
    match capability {
        Capability::RestrictMembers => require_bot_restrict_chat_members(bot),
        Capability::PromoteMembers => require_bot_promote_chat_members(bot),
        Capability::PinMessages => require_bot_can_pin_messages(bot),
    }
}

} // verus!
