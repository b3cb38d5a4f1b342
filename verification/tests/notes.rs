use marvin::entities::{Chat, Note, User};
use marvin::filters::{get_note, is_note_request, note_answer, note_saved, save_note};
use marvin::misc::{
    handle_id, profile_id, save_chat_handler, save_user_handler, write_signed, Author, Forwarded,
    IdAnswer, Replied,
};
use marvin::perms::ChatKind;

fn author(user_id: i64, first_name: &str) -> Author {
    Author { user_id, first_name: first_name.to_string() }
}

#[test]
fn save_note_splits_name_and_content() {
    assert_eq!(
        save_note(-100, Some("rules be nice to  each other")),
        Ok(Note {
            chat_id: -100,
            note_id: "rules".to_string(),
            note_content: "be nice to  each other".to_string(),
        })
    );
    assert_eq!(
        save_note(1, Some("rules ")),
        Ok(Note { chat_id: 1, note_id: "rules".to_string(), note_content: String::new() })
    );
    assert_eq!(
        save_note(1, Some(" x")),
        Ok(Note { chat_id: 1, note_id: String::new(), note_content: "x".to_string() })
    );
    assert_eq!(
        save_note(1, Some("a\tb c")),
        Ok(Note { chat_id: 1, note_id: "a\tb".to_string(), note_content: "c".to_string() })
    );
}

#[test]
fn save_note_needs_name_and_content() {
    assert_eq!(save_note(1, None), Err("You need to give the note a name!".to_string()));
    assert_eq!(save_note(1, Some("rules")), Err("You need to give the note some content!".to_string()));
    assert_eq!(save_note(1, Some("")), Err("You need to give the note some content!".to_string()));
    assert_eq!(save_note(1, Some("a\tb")), Err("You need to give the note some content!".to_string()));
}

#[test]
fn saving_the_same_note_twice_reads_the_same_note() {
    let first = save_note(7, Some("rules be nice"));
    let second = save_note(7, Some("rules be nice"));
    assert_eq!(first, second);
}

#[test]
fn note_saved_names_the_note_as_code() {
    assert_eq!(note_saved("rules"), "Saved note <code>rules</code>.");
    assert_eq!(note_saved("a<b>&c"), "Saved note <code>a&lt;b&gt;&amp;c</code>.");
    assert_eq!(note_saved(""), "Saved note <code></code>.");
}

#[test]
fn get_note_finds_the_name() {
    assert_eq!(get_note("/get rules", true, Some("rules".to_string())), Ok("rules".to_string()));
    assert_eq!(get_note("/get", true, None), Err("You need to give me a note name!".to_string()));
    assert_eq!(get_note("#rules", false, None), Ok("rules".to_string()));
    assert_eq!(get_note("#a#b", false, None), Ok("a#b".to_string()));
    assert_eq!(get_note("#", false, None), Ok(String::new()));
    assert_eq!(get_note("rules", false, Some("x".to_string())), Ok("rules".to_string()));
}

#[test]
fn note_request_is_one_word_behind_a_hash() {
    assert!(is_note_request("#rules"));
    assert!(is_note_request("#rules  "));
    assert!(is_note_request("#"));
    assert!(!is_note_request("#rules now"));
    assert!(!is_note_request("rules"));
    assert!(!is_note_request(" #rules"));
    assert!(!is_note_request(""));
    assert!(!is_note_request("# rules x"));
    assert!(!is_note_request("# rules"));
}

#[test]
fn write_signed_writes_the_sign() {
    assert_eq!(write_signed(0), "0");
    assert_eq!(write_signed(12345), "12345");
    assert_eq!(write_signed(-1001234567890), "-1001234567890");
    assert_eq!(write_signed(i64::MAX), "9223372036854775807");
    assert_eq!(write_signed(i64::MIN), "-9223372036854775808");
}

#[test]
fn identity_of_a_forwarded_message() {
    let replied = Replied { author: Some(author(2, "Bo<b>")), forwarded: Forwarded::User(author(1, "A&a")) };
    assert_eq!(
        handle_id(Some(2), Some(&replied)),
        IdAnswer::Reply(
            "The original sender, A&amp;a has an ID of <code>1</code>.\nThe forwarder, Bo&lt;b&gt;, has an ID of <code>2</code>."
                .to_string()
        )
    );
    let replied = Replied { author: Some(author(-2, "Bo")), forwarded: Forwarded::SenderName };
    assert_eq!(
        handle_id(Some(-2), Some(&replied)),
        IdAnswer::Reply("Bo's ID is <code>-2</code>".to_string())
    );
}

#[test]
fn identity_without_an_answer() {
    let plain = Replied { author: Some(author(2, "Bo")), forwarded: Forwarded::No };
    let other = Replied { author: Some(author(2, "Bo")), forwarded: Forwarded::Other };
    let nobody = Replied { author: None, forwarded: Forwarded::SenderName };
    assert_eq!(handle_id(None, None), IdAnswer::Nothing);
    assert_eq!(handle_id(None, Some(&plain)), IdAnswer::Nothing);
    assert_eq!(handle_id(Some(2), Some(&plain)), IdAnswer::Nothing);
    assert_eq!(handle_id(Some(2), Some(&other)), IdAnswer::Nothing);
    assert_eq!(handle_id(Some(2), Some(&nobody)), IdAnswer::Nothing);
}

#[test]
fn identity_by_profile() {
    assert_eq!(handle_id(Some(12345), None), IdAnswer::Profile(12345));
    assert_eq!(profile_id(Some("Al<"), 12345), "Al&lt;'s ID is <code>12345</code>");
    assert_eq!(profile_id(None, 7), "'s ID is <code>7</code>");
}

#[test]
fn user_is_stored_under_a_lower_case_handle() {
    assert_eq!(
        save_user_handler(5, Some("AliCe_01"), "Alice A."),
        User { user_id: 5, full_name: "Alice A.".to_string(), user_name: Some("alice_01".to_string()) }
    );
    assert_eq!(
        save_user_handler(5, None, "Alice"),
        User { user_id: 5, full_name: "Alice".to_string(), user_name: None }
    );
}

#[test]
fn chat_is_stored_under_title_or_handle() {
    let title = Some("The Group".to_string());
    let handle = Some("alice".to_string());
    assert_eq!(
        save_chat_handler(-1, ChatKind::Group, title.clone(), None),
        Some(Chat { chat_id: -1, chat_name: title.clone() })
    );
    assert_eq!(
        save_chat_handler(-1, ChatKind::Supergroup, None, handle.clone()),
        Some(Chat { chat_id: -1, chat_name: None })
    );
    assert_eq!(
        save_chat_handler(9, ChatKind::Private, title.clone(), handle.clone()),
        Some(Chat { chat_id: 9, chat_name: handle.clone() })
    );
    assert_eq!(save_chat_handler(-1, ChatKind::Channel, title, handle), None);
}

#[test]
fn missing_note_gets_no_answer() {
    assert_eq!(note_answer(None), None);
    let note = Note { chat_id: 7, note_id: "rules".to_string(), note_content: "be nice".to_string() };
    assert_eq!(note_answer(Some(&note)), Some("be nice".to_string()));
    let empty = Note { chat_id: 7, note_id: "x".to_string(), note_content: String::new() };
    assert_eq!(note_answer(Some(&empty)), Some(String::new()));
}
