//! Notes: short texts that a chat keeps under a name.

use vstd::prelude::*;
use vstd::string::*;
use crate::actions::framed;
use crate::entities::Note;
use crate::html::{code_inline, inline_code};
use crate::message::text_view;
use crate::text::{find, first_token, leading_token, scan};

verus! {

/// Index of the first blank of `s`; `s.len()` where it has none.
pub open spec fn first_blank(s: Seq<char>) -> nat
    decreases s.len(),
{
    if s.len() == 0 || s[0] == ' ' {
        0
    } else {
        1 + first_blank(s.drop_first())
    }
}

/// `first_blank` is the one index with no blank before it and a blank, or
/// the end, at it.
pub proof fn lemma_first_blank(s: Seq<char>, k: int)
    requires
        0 <= k <= s.len(),
        forall|j: int| 0 <= j < k ==> s[j] != ' ',
        k < s.len() ==> s[k] == ' ',
    ensures
        first_blank(s) == k,
    decreases s.len(),
{
    if k > 0 {
        let t = s.drop_first();
        assert forall|j: int| 0 <= j < k - 1 implies t[j] != ' ' by {
            assert(t[j] == s[j + 1]);
        }
        assert(s[0] != ' ');
        lemma_first_blank(t, k - 1);
    }
}

/// Whether a message asks for a note by its text alone: it begins with `#`
/// and holds one word at most.
pub open spec fn asks_for_note(text: Seq<char>) -> bool {
    let from = text.skip(scan(text, false) as int);
    let behind = from.skip(scan(from, true) as int);
    text.len() > 0 && text[0] == '#' && first_token(behind).len() == 0
}

/// The name under which a message asks for a note. A command names it in its
/// text, and has to; a bare `#name` names it behind the `#`.
pub open spec fn note_name(text: Seq<char>, from_command: bool, named: Option<Seq<char>>) -> Result<
    Seq<char>,
    Seq<char>,
> {
    if from_command {
        match named {
            Some(name) => Ok(name),
            None => Err("You need to give me a note name!"@),
        }
    } else if text.len() > 0 && text[0] == '#' {
        Ok(text.skip(1))
    } else {
        Ok(text)
    }
}

/// Tells whether a message that is no command asks for a note.
pub fn is_note_request(text: &str) -> (r: bool)
    ensures
        r == asks_for_note(text@),
{
    let n = text.unicode_len();
    if n == 0 || text.get_char(0) != '#' {
        return false;
    }
    let a = find(text, false);
    let from = text.substring_char(a, n);
    assert(from@ =~= text@.skip(a as int));
    let b = find(from, true);
    let behind = from.substring_char(b, from.unicode_len());
    assert(behind@ =~= from@.skip(b as int));
    leading_token(behind).unicode_len() == 0
}

/// Reads a note to save from the text of a save command: the name up to the
/// first blank, the content behind it. Both are needed.
pub fn save_note(chat_id: i64, text: Option<&str>) -> (r: Result<Note, String>)
    ensures
        match r {
            Ok(note) => text matches Some(t) && first_blank(t@) < t@.len() && note.chat_id
                == chat_id && note.note_id@ == t@.take(first_blank(t@) as int)
                && note.note_content@ == t@.skip(first_blank(t@) as int + 1),
            Err(reply) => match text {
                None => reply@ == "You need to give the note a name!"@,
                Some(t) => first_blank(t@) >= t@.len() && reply@
                    == "You need to give the note some content!"@,
            },
        },
{
    let t = match text {
        Some(t) => t,
        None => {
            return Err(String::from_str("You need to give the note a name!"));
        },
    };
    let n = t.unicode_len();
    let mut i: usize = 0;
    while i < n && t.get_char(i) != ' '
        invariant
            n == t@.len(),
            i <= n,
            forall|j: int| 0 <= j < i ==> t@[j] != ' ',
        decreases n - i,
    {
        i = i + 1;
    }
    proof {
        lemma_first_blank(t@, i as int);
    }
    if i >= n {
        return Err(String::from_str("You need to give the note some content!"));
    }
    let name = t.substring_char(0, i);
    let content = t.substring_char(i + 1, n);
    assert(name@ =~= t@.take(i as int));
    assert(content@ =~= t@.skip(i as int + 1));
    Ok(Note { chat_id, note_id: String::from_str(name), note_content: String::from_str(content) })
}

/// The answer to a note that was saved under `name`.
pub fn note_saved(name: &str) -> (r: String)
    ensures
        r@ == "Saved note "@ + inline_code(name@) + "."@,
{
    let code = code_inline(name);
    framed("Saved note ", code.as_str(), ".")
}

/// Finds the name of the note that a message asks for, or what to answer
/// where it names none. `named` is the text that the command carries.
pub fn get_note(text: &str, from_command: bool, named: Option<String>) -> (r: Result<String, String>)
    ensures
        match r {
            Ok(name) => note_name(text@, from_command, text_view(named)) == Ok::<
                Seq<char>,
                Seq<char>,
            >(name@),
            Err(reply) => note_name(text@, from_command, text_view(named)) == Err::<
                Seq<char>,
                Seq<char>,
            >(reply@),
        },
{
    if from_command {
        match named {
            Some(name) => Ok(name),
            None => Err(String::from_str("You need to give me a note name!")),
        }
    } else {
        let n = text.unicode_len();
        if n > 0 && text.get_char(0) == '#' {
            let name = text.substring_char(1, n);
            assert(name@ =~= text@.skip(1));
            Ok(String::from_str(name))
        } else {
            Ok(String::from_str(text))
        }
    }
}

/// The answer to a request for a note, given what the store holds under its
/// name in this chat: the note's content, and no answer at all where the
/// store holds no such note.
pub fn note_answer(found: Option<&Note>) -> (r: Option<String>)
    ensures
        match found {
            Some(note) => text_view(r) == Some(note.note_content@),
            None => r is None,
        },
{
    match found {
        Some(note) => Some(note.note_content.clone()),
        None => None,
    }
}

} // verus!
