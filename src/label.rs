use vstd::prelude::*;
use vstd::string::*;

verus! {

/// Appends one character to a string.
/// Relies on `String::push`: the character is added at the end.
#[verifier::external_body]
pub(crate) fn push_char(s: &mut String, c: char)
    ensures
        final(s)@ == old(s)@.push(c),
{
    s.push(c)
}

/// Characters that may stand unchanged in a window label.
pub open spec fn is_label_char(c: char) -> bool {
    ('a' <= c && c <= 'z') || ('A' <= c && c <= 'Z') || ('0' <= c && c <= '9') || c == '_' || c
        == '-'
}

/// A character as it appears in a label: itself if safe, otherwise a hyphen.
pub open spec fn label_char(c: char) -> char {
    if is_label_char(c) {
        c
    } else {
        '-'
    }
}

/// The chat identifier with every unsafe character replaced by a hyphen.
pub open spec fn normalized_id(id: Seq<char>) -> Seq<char> {
    id.map_values(|c: char| label_char(c))
}

pub fn is_label_character(c: char) -> (r: bool)
    ensures
        r == is_label_char(c),
{
    ('a' <= c && c <= 'z') || ('A' <= c && c <= 'Z') || ('0' <= c && c <= '9') || c == '_' || c
        == '-'
}

/// Replaces each character outside `[A-Za-z0-9_-]` by `-`.
pub fn normalize_chat_id(chat_id: &str) -> (r: String)
    ensures
        r@ == normalized_id(chat_id@),
{
    let n = chat_id.unicode_len();
    let mut out = String::new();
    let mut i: usize = 0;
    while i < n
        invariant
            n == chat_id@.len(),
            i <= n,
            out@ == normalized_id(chat_id@.subrange(0, i as int)),
        decreases n - i,
    {
        let c = chat_id.get_char(i);
        let d = if is_label_character(c) {
            c
        } else {
            '-'
        };
        push_char(&mut out, d);
        assert(chat_id@.subrange(0, i + 1) == chat_id@.subrange(0, i as int).push(c));
        i = i + 1;
    }
    assert(chat_id@.subrange(0, n as int) == chat_id@);
    out
}

/// Label of the primary window.
pub open spec fn main_label() -> Seq<char> {
    seq!['m', 'a', 'i', 'n']
}

/// Label of the chat window for a chat identifier: `chat-` and the normalized identifier.
pub open spec fn chat_label(id: Seq<char>) -> Seq<char> {
    seq!['c', 'h', 'a', 't', '-'] + normalized_id(id)
}

/// Title of a chat window: `Chat with <name>`.
pub open spec fn chat_title(name: Seq<char>) -> Seq<char> {
    seq!['C', 'h', 'a', 't', ' ', 'w', 'i', 't', 'h', ' '] + name
}

/// Route of a chat window: `/?chat=<id>&window=chat`.
pub open spec fn chat_route(id: Seq<char>) -> Seq<char> {
    seq!['/', '?', 'c', 'h', 'a', 't', '='] + id + seq![
        '&',
        'w',
        'i',
        'n',
        'd',
        'o',
        'w',
        '=',
        'c',
        'h',
        'a',
        't',
    ]
}

/// The label of the primary window, `main`.
pub fn main_window_label() -> (r: String)
    ensures
        r@ == main_label(),
{
    proof {
        reveal_strlit("main");
    }
    "main".to_owned()
}

/// The label under which the chat window for `chat_id` is created, found and closed.
pub fn chat_window_label(chat_id: &str) -> (r: String)
    ensures
        r@ == chat_label(chat_id@),
{
    proof {
        reveal_strlit("chat-");
    }
    let mut r = "chat-".to_owned();
    let n = normalize_chat_id(chat_id);
    r.append(n.as_str());
    r
}

/// The title of the chat window for a contact.
pub fn chat_window_title(contact_name: &str) -> (r: String)
    ensures
        r@ == chat_title(contact_name@),
{
    proof {
        reveal_strlit("Chat with ");
    }
    let mut r = "Chat with ".to_owned();
    r.append(contact_name);
    r
}

/// The in-app route that a chat window opens; the identifier is kept as given.
pub fn chat_window_route(chat_id: &str) -> (r: String)
    ensures
        r@ == chat_route(chat_id@),
{
    proof {
        reveal_strlit("/?chat=");
        reveal_strlit("&window=chat");
    }
    let mut r = "/?chat=".to_owned();
    r.append(chat_id);
    r.append("&window=chat");
    r
}

/// Every character of a derived label after the `chat-` prefix is the identifier's
/// character where that one is in `[A-Za-z0-9_-]`, and `-` where it is not.
pub proof fn lemma_label_derivation(id: Seq<char>)
    ensures
        chat_label(id).len() == id.len() + 5,
        chat_label(id).subrange(0, 5) == seq!['c', 'h', 'a', 't', '-'],
        forall|i: int|
            0 <= i < id.len() ==> is_label_char(#[trigger] chat_label(id)[i + 5]),
        forall|i: int|
            0 <= i < id.len() ==> (#[trigger] chat_label(id)[i + 5] == if is_label_char(id[i]) {
                id[i]
            } else {
                '-'
            }),
        chat_label(id) != main_label(),
{
    assert(chat_label(id).subrange(0, 5) =~= seq!['c', 'h', 'a', 't', '-']);
    assert(chat_label(id)[0] == 'c');
}

} // verus!
