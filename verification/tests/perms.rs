use marvin::perms::{
    is_user_admin, is_user_restricted, require_all, require_bot_admin,
    require_bot_can_pin_messages, require_bot_promote_chat_members,
    require_bot_restrict_chat_members, require_can_pin_messages, require_group,
    require_promote_chat_members, require_restrict_chat_members, require_user_admin,
    Administrator, Capability, ChatKind, ChatMemberKind, Denial, Restricted,
};

fn admin_with(restrict: bool, promote: bool, pin: Option<bool>) -> ChatMemberKind {
    ChatMemberKind::Administrator(Administrator {
        can_be_edited: false,
        can_manage_chat: true,
        can_change_info: false,
        can_delete_messages: false,
        can_manage_voice_chats: false,
        can_invite_users: false,
        can_restrict_members: restrict,
        can_pin_messages: pin,
        can_promote_members: promote,
    })
}

fn limited(messages: bool, media: bool, other: bool, previews: bool) -> ChatMemberKind {
    ChatMemberKind::Restricted(Restricted {
        can_send_messages: messages,
        can_send_media_messages: media,
        can_send_other_messages: other,
        can_add_web_page_previews: previews,
    })
}

fn others() -> Vec<ChatMemberKind> {
    vec![
        ChatMemberKind::Member,
        limited(true, true, true, true),
        ChatMemberKind::Left,
        ChatMemberKind::Banned,
    ]
}

#[test]
fn group_guard_passes_groups_only() {
    assert_eq!(require_group(ChatKind::Group), Ok(()));
    assert_eq!(require_group(ChatKind::Supergroup), Ok(()));
    assert_eq!(require_group(ChatKind::Private), Err(Denial::NotGroup));
    assert_eq!(require_group(ChatKind::Channel), Err(Denial::NotGroup));
}

#[test]
fn owner_holds_every_capability() {
    let owner = ChatMemberKind::Owner;
    assert_eq!(require_restrict_chat_members(Some(&owner)), Ok(()));
    assert_eq!(require_promote_chat_members(Some(&owner)), Ok(()));
    assert_eq!(require_can_pin_messages(Some(&owner)), Ok(()));
}

#[test]
fn administrator_holds_what_is_flagged() {
    let a = admin_with(true, false, None);
    assert_eq!(require_restrict_chat_members(Some(&a)), Ok(()));
    assert_eq!(require_promote_chat_members(Some(&a)), Err(Denial::UserCannotPromote));
    assert_eq!(require_can_pin_messages(Some(&a)), Err(Denial::UserCannotPin));
    let a = admin_with(false, true, Some(true));
    assert_eq!(require_restrict_chat_members(Some(&a)), Err(Denial::UserCannotRestrict));
    assert_eq!(require_promote_chat_members(Some(&a)), Ok(()));
    assert_eq!(require_can_pin_messages(Some(&a)), Ok(()));
    let a = admin_with(false, false, Some(false));
    assert_eq!(require_can_pin_messages(Some(&a)), Err(Denial::UserCannotPin));
}

#[test]
fn nobody_else_holds_a_capability() {
    for kind in others() {
        assert_eq!(require_restrict_chat_members(Some(&kind)), Err(Denial::UserCannotRestrict));
        assert_eq!(require_promote_chat_members(Some(&kind)), Err(Denial::UserCannotPromote));
        assert_eq!(require_can_pin_messages(Some(&kind)), Err(Denial::UserCannotPin));
    }
    assert_eq!(require_restrict_chat_members(None), Err(Denial::UserCannotRestrict));
    assert_eq!(require_promote_chat_members(None), Err(Denial::UserCannotPromote));
    assert_eq!(require_can_pin_messages(None), Err(Denial::UserCannotPin));
}

#[test]
fn bot_holds_a_capability_only_as_flagged_administrator() {
    let a = admin_with(true, true, Some(true));
    assert_eq!(require_bot_restrict_chat_members(&a), Ok(()));
    assert_eq!(require_bot_promote_chat_members(&a), Ok(()));
    assert_eq!(require_bot_can_pin_messages(&a), Ok(()));
    let a = admin_with(false, false, None);
    assert_eq!(require_bot_restrict_chat_members(&a), Err(Denial::BotCannotRestrict));
    assert_eq!(require_bot_promote_chat_members(&a), Err(Denial::BotCannotPromote));
    assert_eq!(require_bot_can_pin_messages(&a), Err(Denial::BotCannotPin));
    let mut rest = others();
    rest.push(ChatMemberKind::Owner);
    for kind in rest {
        assert_eq!(require_bot_restrict_chat_members(&kind), Err(Denial::BotCannotRestrict));
        assert_eq!(require_bot_promote_chat_members(&kind), Err(Denial::BotCannotPromote));
        assert_eq!(require_bot_can_pin_messages(&kind), Err(Denial::BotCannotPin));
    }
}

#[test]
fn admin_checks() {
    let a = admin_with(false, false, None);
    assert_eq!(is_user_admin(ChatKind::Group, &a), Ok(()));
    assert_eq!(is_user_admin(ChatKind::Group, &ChatMemberKind::Owner), Ok(()));
    assert_eq!(is_user_admin(ChatKind::Group, &ChatMemberKind::Member), Err(Denial::UserNotAdmin));
    assert_eq!(is_user_admin(ChatKind::Private, &ChatMemberKind::Member), Ok(()));
    assert_eq!(require_user_admin(ChatKind::Supergroup, Some(&a)), Ok(()));
    assert_eq!(
        require_user_admin(ChatKind::Supergroup, Some(&ChatMemberKind::Left)),
        Err(Denial::UserNotAdmin)
    );
    assert_eq!(require_user_admin(ChatKind::Supergroup, None), Err(Denial::NoSender));
    assert_eq!(require_user_admin(ChatKind::Private, None), Err(Denial::NoSender));
    assert_eq!(require_bot_admin(ChatKind::Group, &ChatMemberKind::Owner), Err(Denial::BotNotAdmin));
    assert_eq!(require_bot_admin(ChatKind::Private, &ChatMemberKind::Member), Ok(()));
    assert_eq!(require_bot_admin(ChatKind::Group, &ChatMemberKind::Member), Err(Denial::BotNotAdmin));
    assert_eq!(require_bot_admin(ChatKind::Group, &a), Ok(()));
}

#[test]
fn one_denied_permission_makes_restricted() {
    let g = ChatKind::Supergroup;
    assert!(!is_user_restricted(g, &limited(true, true, true, true)));
    assert!(is_user_restricted(g, &limited(false, true, true, true)));
    assert!(is_user_restricted(g, &limited(true, false, true, true)));
    assert!(is_user_restricted(g, &limited(true, true, false, true)));
    assert!(is_user_restricted(g, &limited(true, true, true, false)));
    assert!(is_user_restricted(g, &limited(false, false, false, false)));
    assert!(!is_user_restricted(g, &ChatMemberKind::Member));
    assert!(!is_user_restricted(g, &ChatMemberKind::Owner));
    assert!(!is_user_restricted(g, &admin_with(false, false, None)));
    assert!(is_user_restricted(g, &ChatMemberKind::Left));
    assert!(is_user_restricted(g, &ChatMemberKind::Banned));
    assert!(!is_user_restricted(ChatKind::Private, &limited(false, false, false, false)));
}

#[test]
fn first_failing_guard_gives_the_denial() {
    let able = admin_with(true, true, Some(true));
    let unable = admin_with(false, false, None);
    let c = Capability::RestrictMembers;
    assert_eq!(require_all(ChatKind::Group, Some(&able), &able, c), Ok(()));
    assert_eq!(require_all(ChatKind::Supergroup, Some(&ChatMemberKind::Owner), &able, c), Ok(()));
    assert_eq!(require_all(ChatKind::Private, Some(&unable), &unable, c), Err(Denial::NotGroup));
    assert_eq!(require_all(ChatKind::Group, Some(&unable), &unable, c), Err(Denial::UserCannotRestrict));
    assert_eq!(require_all(ChatKind::Group, None, &able, c), Err(Denial::UserCannotRestrict));
    assert_eq!(require_all(ChatKind::Group, Some(&able), &unable, c), Err(Denial::BotCannotRestrict));
    let c = Capability::PromoteMembers;
    assert_eq!(require_all(ChatKind::Group, Some(&able), &able, c), Ok(()));
    assert_eq!(require_all(ChatKind::Group, Some(&unable), &unable, c), Err(Denial::UserCannotPromote));
    assert_eq!(require_all(ChatKind::Group, Some(&able), &unable, c), Err(Denial::BotCannotPromote));
    let c = Capability::PinMessages;
    assert_eq!(require_all(ChatKind::Group, Some(&able), &able, c), Ok(()));
    assert_eq!(require_all(ChatKind::Channel, Some(&able), &able, c), Err(Denial::NotGroup));
    assert_eq!(require_all(ChatKind::Group, Some(&unable), &unable, c), Err(Denial::UserCannotPin));
    assert_eq!(require_all(ChatKind::Group, Some(&able), &unable, c), Err(Denial::BotCannotPin));
}

#[test]
fn each_denial_has_its_text() {
    assert_eq!(Denial::NotGroup.message(), Some("This command is meant to be used in a group!"));
    assert_eq!(Denial::BotNotAdmin.message(), Some("The bot must be an admin for this to work!"));
    assert_eq!(Denial::UserNotAdmin.message(), Some("You need to be an admin for this to work!"));
    assert_eq!(Denial::NoSender.message(), None);
    assert_eq!(
        Denial::BotCannotRestrict.message(),
        Some("I am missing the required permission for this action: CAN_RESTRICT_MEMBERS.")
    );
    assert_eq!(
        Denial::UserCannotRestrict.message(),
        Some("You're missing the required permission for this action: CAN_RESTRICT_MEMBERS.")
    );
    assert_eq!(
        Denial::BotCannotPromote.message(),
        Some("I am missing the required permission for this action: CAN_PROMOTE_MEMBERS.")
    );
    assert_eq!(
        Denial::UserCannotPromote.message(),
        Some("You're missing the required permission for this action: CAN_PROMOTE_MEMBERS.")
    );
    assert_eq!(
        Denial::BotCannotPin.message(),
        Some("I am missing the required permission for this action: CAN_PIN_MESSAGES.")
    );
    assert_eq!(
        Denial::UserCannotPin.message(),
        Some("You're missing the required permission for this action: CAN_PIN_MESSAGES.")
    );
}
