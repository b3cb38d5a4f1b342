//! Finds the user that a command targets and the text that goes with it.
//!
//! A message is read in a fixed order of rules. Two of them need an answer
//! from outside: a `@handle` has to be looked up in the user store, and an
//! identity that did not come from a reply has to be confirmed by the
//! platform. The resolver therefore works in steps: `extract_user_and_text`
//! reads the message and says what to ask, `after_lookup` and
//! `after_confirmation` take the answers. `resolve` describes a whole run.

use vstd::prelude::*;
use vstd::string::*;
use vstd::utf8::*;
use crate::message::{text_view, Message, MessageEntity, MessageEntityKind, RepliedMessage};
use crate::text::{
    after_first_space, first_token, leading_token, lowercase, parse_i64, read_i64, scan,
    split_after_first_space, to_lowercase, find,
};

verus! {

/// Where a resolution stands.
#[derive(Clone, Debug, PartialEq, Eq)]
#[allow(inconsistent_fields)]
pub enum Resolution {
    /// Nothing is left to ask: this is the result.
    Settled { user_id: Option<i64>, text: Option<String> },
    /// The handle has to be looked up in the user store.
    Lookup { handle: String, text: Option<String> },
    /// The platform has to confirm that it knows this identity.
    Confirm { user_id: i64, text: Option<String> },
}

/// A `Resolution` with its texts as character sequences.
#[allow(inconsistent_fields)]
pub enum Plan {
    Settled { user_id: Option<i64>, text: Option<Seq<char>> },
    Lookup { handle: Seq<char>, text: Option<Seq<char>> },
    Confirm { user_id: i64, text: Option<Seq<char>> },
}

impl View for Resolution {
    type V = Plan;

    open spec fn view(&self) -> Plan {
        match *self {
            Resolution::Settled { user_id, text } => Plan::Settled {
                user_id,
                text: text_view(text),
            },
            Resolution::Lookup { handle, text } => Plan::Lookup {
                handle: handle@,
                text: text_view(text),
            },
            Resolution::Confirm { user_id, text } => Plan::Confirm {
                user_id,
                text: text_view(text),
            },
        }
    }
}

/// The state after an answer from outside, and what to tell the user.
#[derive(Clone, Debug, PartialEq, Eq)]
pub struct Step {
    pub next: Resolution,
    pub reply: Option<String>,
}

/// The result of a whole run: the target, the text, and every message that
/// was sent to the user on the way.
pub struct Outcome {
    pub user_id: Option<i64>,
    pub text: Option<Seq<char>>,
    pub replies: Seq<Seq<char>>,
}

/// The message for a handle that the store does not hold.
pub open spec fn unseen_handle_text() -> Seq<char> {
    "Could not find a user by this name; are you sure I've seen them before?"@
}

/// The message for an identity that the platform does not know.
pub open spec fn unknown_identity_text() -> Seq<char> {
    "I don't seem to have interacted with this user before - please forward a message from them to give me control! (like a voodoo doll, I need a piece of them to be able to execute certain commands...)"@
}

/// The text that goes with the author of a message replied to: what follows
/// the first white space of that message's text, and the empty text where
/// nothing follows or the message has no text at all.
pub open spec fn text_behind(text: Option<String>) -> Seq<char> {
    match text {
        Some(t) => match after_first_space(t@) {
            Some(rest) => rest,
            None => Seq::empty(),
        },
        None => Seq::empty(),
    }
}

/// The target and text that a reply gives: the author of the message replied
/// to, with `text_behind` its text. Nothing where there is no reply, or the
/// message replied to names no author.
pub open spec fn reply_target(reply: Option<RepliedMessage>) -> (Option<i64>, Option<Seq<char>>) {
    match reply {
        Some(RepliedMessage { from: Some(author), text }) => (
            Some(author),
            Some(text_behind(text)),
        ),
        _ => (None, None),
    }
}

/// The settled plan that a reply gives.
pub open spec fn settle_by_reply(reply: Option<RepliedMessage>) -> Plan {
    Plan::Settled { user_id: reply_target(reply).0, text: reply_target(reply).1 }
}

/// The byte offset at which the arguments of a command begin: right behind
/// the first white-space character of `text`.
pub open spec fn arguments_offset(text: Seq<char>) -> int {
    encode_utf8(text.take(scan(text, true) as int + 1)).len() as int
}

/// The first text mention among `entities` that begins at byte `offset`.
pub open spec fn mention_at(entities: Seq<MessageEntity>, offset: int) -> Option<MessageEntity>
    decreases entities.len(),
{
    if entities.len() == 0 {
        None
    } else if entities[0].kind is TextMention && entities[0].offset == offset {
        Some(entities[0])
    } else {
        mention_at(entities.drop_first(), offset)
    }
}

/// The text from byte `at` to the end, where `at` is a place between two
/// characters of a text that is addressable.
pub open spec fn text_from_byte(text: Seq<char>, at: int) -> Option<Seq<char>> {
    let bytes = encode_utf8(text);
    if at <= usize::MAX && is_char_boundary(bytes, at) {
        Some(decode_utf8(bytes.subrange(at, bytes.len() as int)))
    } else {
        None
    }
}

/// What follows the second white-space character that splits `text`: the
/// third segment and all behind it.
pub open spec fn third_segment(text: Seq<char>) -> Option<Seq<char>> {
    match after_first_space(text) {
        Some(rest) => after_first_space(rest),
        None => None,
    }
}

/// What a message asks for, by the first rule that fits:
/// 1. without arguments, the reply decides;
/// 2. a text mention that begins exactly where the arguments begin gives its
///    user, and the text behind the mention;
/// 3. a first argument that begins with `@` is a handle to look up, taken
///    without the `@` and in lower case;
/// 4. a first argument that is a whole number is the identity itself;
/// 5. otherwise the reply decides, and without a reply there is no target.
/// Rules 3 and 4 give the third segment of the message as text. A message
/// without text has no arguments.
pub open spec fn plan_of(msg: Message) -> Plan {
    match msg.text {
        None => settle_by_reply(msg.reply_to_message),
        Some(t) => match after_first_space(t@) {
            None => settle_by_reply(msg.reply_to_message),
            Some(arguments) => {
                let token = first_token(arguments);
                if token.len() == 0 {
                    settle_by_reply(msg.reply_to_message)
                } else {
                    match mention_at(msg.entities@, arguments_offset(t@)) {
                        Some(mention) => Plan::Confirm {
                            user_id: mention.kind->user_id,
                            text: text_from_byte(t@, mention.offset + mention.length),
                        },
                        None => if token[0] == '@' {
                            Plan::Lookup {
                                handle: lowercase(token.skip(1)),
                                text: third_segment(t@),
                            }
                        } else {
                            match parse_i64(token) {
                                Some(id) => Plan::Confirm { user_id: id, text: third_segment(t@) },
                                None => settle_by_reply(msg.reply_to_message),
                            }
                        },
                    }
                }
            },
        },
    }
}

/// The step after the store answered: a handle that was found still has to
/// be confirmed; one that was not ends the run without a target, and the
/// user is told.
pub open spec fn lookup_step(found: Option<i64>, text: Option<Seq<char>>) -> (Plan, Option<Seq<char>>) {
    match found {
        Some(user_id) => (Plan::Confirm { user_id, text }, None),
        None => (Plan::Settled { user_id: None, text: None }, Some(unseen_handle_text())),
    }
}

/// The step after the platform answered: an identity that it knows is the
/// result; one that it does not know ends the run without a target, and the
/// user is told.
pub open spec fn confirmation_step(known: bool, user_id: i64, text: Option<Seq<char>>) -> (
    Plan,
    Option<Seq<char>>,
) {
    if known {
        (Plan::Settled { user_id: Some(user_id), text }, None)
    } else {
        (Plan::Settled { user_id: None, text: None }, Some(unknown_identity_text()))
    }
}

/// The messages sent so far, with one more where a step sends one.
pub open spec fn with_reply(replies: Seq<Seq<char>>, reply: Option<Seq<char>>) -> Seq<Seq<char>> {
    match reply {
        Some(r) => replies.push(r),
        None => replies,
    }
}

/// Runs a plan to its end. `store` maps the handles that the user store
/// holds, in lower case, to their users; `known` holds the identities that the
/// platform recognises.
pub open spec fn run(plan: Plan, store: Map<Seq<char>, i64>, known: Set<i64>, replies: Seq<Seq<char>>) -> Outcome
    decreases
        (match plan {
            Plan::Lookup { .. } => 2nat,
            Plan::Confirm { .. } => 1nat,
            Plan::Settled { .. } => 0nat,
        }),
{
    match plan {
        Plan::Settled { user_id, text } => Outcome { user_id, text, replies },
        Plan::Confirm { user_id, text } => {
            let step = confirmation_step(known.contains(user_id), user_id, text);
            run(step.0, store, known, with_reply(replies, step.1))
        },
        Plan::Lookup { handle, text } => {
            let found = if store.contains_key(handle) {
                Some(store[handle])
            } else {
                None
            };
            let step = lookup_step(found, text);
            run(step.0, store, known, with_reply(replies, step.1))
        },
    }
}

/// The whole resolution of `msg` against a user store and a platform.
pub open spec fn resolve(msg: Message, store: Map<Seq<char>, i64>, known: Set<i64>) -> Outcome {
    run(plan_of(msg), store, known, Seq::empty())
}

fn rest_or_empty(text: &str) -> (r: String)
    ensures
        r@ == (match after_first_space(text@) {
            Some(rest) => rest,
            None => Seq::<char>::empty(),
        }),
{
    match split_after_first_space(text) {
        Some(rest) => String::from_str(rest),
        None => String::new(),
    }
}

/// The target and text that the reply of `msg` gives.
pub fn id_from_reply(msg: &Message) -> (r: (Option<i64>, Option<String>))
    ensures
        r.0 == reply_target(msg.reply_to_message).0,
        text_view(r.1) == reply_target(msg.reply_to_message).1,
{
    match &msg.reply_to_message {
        Some(previous) => match &previous.from {
            Some(author) => {
                let text = match &previous.text {
                    Some(t) => rest_or_empty(t.as_str()),
                    None => String::new(),
                };
                (Some(*author), Some(text))
            },
            None => (None, None),
        },
        None => (None, None),
    }
}

fn settled_by_reply(msg: &Message) -> (r: Resolution)
    ensures
        r@ == settle_by_reply(msg.reply_to_message),
{
    let (user_id, text) = id_from_reply(msg);
    Resolution::Settled { user_id, text }
}

/// The user, offset and length of the first text mention that begins at byte
/// `offset`.
fn find_mention(entities: &Vec<MessageEntity>, offset: usize) -> (r: Option<(i64, usize, usize)>)
    ensures
        match r {
            Some((user_id, start, length)) => mention_at(entities@, offset as int) == Some(
                MessageEntity { kind: MessageEntityKind::TextMention { user_id }, offset: start, length },
            ),
            None => mention_at(entities@, offset as int) is None,
        },
{
    let mut i: usize = 0;
    assert(entities@.skip(0) =~= entities@);
    while i < entities.len()
        invariant
            i <= entities.len(),
            mention_at(entities@, offset as int) == mention_at(entities@.skip(i as int), offset as int),
        decreases entities.len() - i,
    {
        let entity = entities[i];
        proof {
            assert(entities@.skip(i as int)[0] == entity);
            assert(entities@.skip(i as int).drop_first() =~= entities@.skip(i as int + 1));
        }
        match entity.kind {
            MessageEntityKind::TextMention { user_id } => {
                if entity.offset == offset {
                    return Some((user_id, entity.offset, entity.length));
                }
            },
            MessageEntityKind::Other => {},
        }
        i = i + 1;
    }
    None
}

fn tail_from_byte(text: &str, start: usize, length: usize) -> (r: Option<String>)
    ensures
        text_view(r) == text_from_byte(text@, start + length),
{
    broadcast use group_utf8_lib;

    match start.checked_add(length) {
        Some(at) => {
            if text.is_char_boundary(at) {
                let (_, tail) = text.split_at(at);
                assert(tail@ == decode_utf8(encode_utf8(tail@)));
                Some(String::from_str(tail))
            } else {
                None
            }
        },
        None => None,
    }
}

fn third_part(text: &str) -> (r: Option<String>)
    ensures
        text_view(r) == third_segment(text@),
{
    match split_after_first_space(text) {
        Some(rest) => match split_after_first_space(rest) {
            Some(third) => Some(String::from_str(third)),
            None => None,
        },
        None => None,
    }
}

/// Reads a message and says whom it targets, or what has to be asked first.
pub fn extract_user_and_text(msg: &Message) -> (r: Resolution)
    ensures
        r@ == plan_of(*msg),
{
    let text = match &msg.text {
        Some(t) => t.as_str(),
        None => {
            return settled_by_reply(msg);
        },
    };
    let count = text.unicode_len();
    let split = find(text, true);
    if split >= count {
        return settled_by_reply(msg);
    }
    let arguments = text.substring_char(split + 1, count);
    assert(arguments@ =~= text@.skip(split as int + 1));
    let token = leading_token(arguments);
    if token.unicode_len() == 0 {
        return settled_by_reply(msg);
    }
    let keyword = text.substring_char(0, split + 1);
    assert(keyword@ =~= text@.take(scan(text@, true) as int + 1));
    match find_mention(&msg.entities, keyword.as_bytes().len()) {
        Some((user_id, start, length)) => Resolution::Confirm {
            user_id,
            text: tail_from_byte(text, start, length),
        },
        None => {
            if token.get_char(0) == '@' {
                let name = token.substring_char(1, token.unicode_len());
                assert(name@ =~= token@.skip(1));
                Resolution::Lookup { handle: to_lowercase(name), text: third_part(text) }
            } else {
                match read_i64(token) {
                    Some(id) => Resolution::Confirm { user_id: id, text: third_part(text) },
                    None => settled_by_reply(msg),
                }
            }
        },
    }
}

/// Takes the store's answer to a handle lookup.
pub fn after_lookup(found: Option<i64>, text: Option<String>) -> (r: Step)
    ensures
        r.next@ == lookup_step(found, text_view(text)).0,
        text_view(r.reply) == lookup_step(found, text_view(text)).1,
{
    match found {
        Some(user_id) => Step { next: Resolution::Confirm { user_id, text }, reply: None },
        None => Step {
            next: Resolution::Settled { user_id: None, text: None },
            reply: Some(
                String::from_str(
                    "Could not find a user by this name; are you sure I've seen them before?",
                ),
            ),
        },
    }
}

/// Takes the platform's answer on whether it knows `user_id`.
pub fn after_confirmation(known: bool, user_id: i64, text: Option<String>) -> (r: Step)
    ensures
        r.next@ == confirmation_step(known, user_id, text_view(text)).0,
        text_view(r.reply) == confirmation_step(known, user_id, text_view(text)).1,
{
    if known {
        Step { next: Resolution::Settled { user_id: Some(user_id), text }, reply: None }
    } else {
        Step {
            next: Resolution::Settled { user_id: None, text: None },
            reply: Some(
                String::from_str(
                    "I don't seem to have interacted with this user before - please forward a message from them to give me control! (like a voodoo doll, I need a piece of them to be able to execute certain commands...)",
                ),
            ),
        }
    }
}

/// Whether a message carries an argument: a word behind the first white
/// space of its text.
pub open spec fn has_arguments(msg: Message) -> bool {
    match msg.text {
        Some(t) => match after_first_space(t@) {
            Some(arguments) => first_token(arguments).len() > 0,
            None => false,
        },
        None => false,
    }
}

/// The first argument of a message that has one.
pub open spec fn first_argument(msg: Message) -> Seq<char>
    recommends
        has_arguments(msg),
{
    first_token(after_first_space(msg.text->0@)->0)
}

/// Whether a text mention stands exactly where the arguments begin.
pub open spec fn leads_with_mention(msg: Message) -> bool {
    has_arguments(msg) && mention_at(msg.entities@, arguments_offset(msg.text->0@)) is Some
}

/// Whether the arguments of a message name a target by themselves: by a
/// leading text mention, a handle or a number.
pub open spec fn names_target(msg: Message) -> bool {
    has_arguments(msg) && (leads_with_mention(msg) || first_argument(msg)[0] == '@' || parse_i64(
        first_argument(msg),
    ) is Some)
}

/// A message without arguments that replies to nothing has no target and no
/// text, and the user is told nothing.
pub proof fn law_no_arguments_no_reply(msg: Message, store: Map<Seq<char>, i64>, known: Set<i64>)
    requires
        !has_arguments(msg),
        msg.reply_to_message is None,
    ensures
        resolve(msg, store, known).user_id is None,
        resolve(msg, store, known).text is None,
        resolve(msg, store, known).replies.len() == 0,
{
}

/// A reply whose arguments name no target targets the author of the message
/// replied to, with the text behind that message's first white space, or the
/// empty text where it has none or has no text at all.
pub proof fn law_reply_decides(
    msg: Message,
    author: i64,
    text: Option<String>,
    store: Map<Seq<char>, i64>,
    known: Set<i64>,
)
    requires
        !names_target(msg),
        msg.reply_to_message == Some(RepliedMessage { from: Some(author), text }),
    ensures
        resolve(msg, store, known).user_id == Some(author),
        resolve(msg, store, known).text == Some(text_behind(text)),
        resolve(msg, store, known).replies.len() == 0,
{
}

/// A first argument `@handle` is looked up in lower case, without the `@`.
/// Where the store holds the handle and the platform knows its user, that
/// user is the target. Where the store does not hold it there is no target
/// and no text, and the user is told once that the handle was never seen.
/// This holds unless a text mention stands where the arguments begin.
pub proof fn law_handle_is_looked_up(msg: Message, store: Map<Seq<char>, i64>, known: Set<i64>)
    requires
        has_arguments(msg),
        !leads_with_mention(msg),
        first_argument(msg)[0] == '@',
    ensures
        plan_of(msg) == (Plan::Lookup {
            handle: lowercase(first_argument(msg).skip(1)),
            text: third_segment(msg.text->0@),
        }),
        ({
            let handle = lowercase(first_argument(msg).skip(1));
            let outcome = resolve(msg, store, known);
            &&& store.contains_key(handle) && known.contains(store[handle]) ==> outcome.user_id
                == Some(store[handle]) && outcome.text == third_segment(msg.text->0@)
                && outcome.replies.len() == 0
            &&& !store.contains_key(handle) ==> outcome.user_id is None && outcome.text is None
                && outcome.replies == seq![unseen_handle_text()]
        }),
{
    reveal_with_fuel(run, 3);
    let handle = lowercase(first_argument(msg).skip(1));
    if !store.contains_key(handle) {
        assert(resolve(msg, store, known).replies =~= seq![unseen_handle_text()]);
    }
}

/// A first argument that is a whole number is the target itself, whatever
/// the store holds, where the platform knows that identity. This holds
/// unless a text mention stands where the arguments begin.
pub proof fn law_number_is_the_identity(
    msg: Message,
    id: i64,
    store: Map<Seq<char>, i64>,
    other_store: Map<Seq<char>, i64>,
    known: Set<i64>,
)
    requires
        has_arguments(msg),
        !leads_with_mention(msg),
        parse_i64(first_argument(msg)) == Some(id),
    ensures
        plan_of(msg) == (Plan::Confirm { user_id: id, text: third_segment(msg.text->0@) }),
        resolve(msg, store, known) == resolve(msg, other_store, known),
        known.contains(id) ==> resolve(msg, store, known).user_id == Some(id) && resolve(
            msg,
            store,
            known,
        ).text == third_segment(msg.text->0@) && resolve(msg, store, known).replies.len() == 0,
{
    reveal_with_fuel(run, 3);
    let token = first_argument(msg);
    assert(token[0] != '@') by {
        if token[0] == '+' || token[0] == '-' {
        } else {
            assert(crate::text::is_digit(token[0]));
        }
    }
}

/// An identity that the arguments name, but the platform does not know, is
/// no target: there is no text either, and the user is told once.
pub proof fn law_unknown_identity(plan: Plan, store: Map<Seq<char>, i64>, known: Set<i64>)
    requires
        plan matches Plan::Confirm { user_id, .. } && !known.contains(user_id),
    ensures
        run(plan, store, known, Seq::empty()).user_id is None,
        run(plan, store, known, Seq::empty()).text is None,
        run(plan, store, known, Seq::empty()).replies == seq![unknown_identity_text()],
{
    reveal_with_fuel(run, 3);
    assert(run(plan, store, known, Seq::empty()).replies =~= seq![unknown_identity_text()]);
}

} // verus!
