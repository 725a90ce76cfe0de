//! The JSON text of queue entries, as they are stored and as they are sent
//! to the queue's watchers: the library frames objects and arrays, and
//! serde_json writes each string value.

use vstd::prelude::*;
use crate::queue::{entries_view, QueueEntry, QueueEntryView};
use crate::text::digit_char;

verus! {

#[verifier::external_type_specification]
#[verifier::external_body]
pub struct ExJsonError(serde_json::Error);

/// The lowercase hexadecimal digit for `d`, where `d < 16`.
pub open spec fn hex_digit(d: nat) -> char {
    if d < 10 {
        digit_char(d)
    } else if d == 10 {
        'a'
    } else if d == 11 {
        'b'
    } else if d == 12 {
        'c'
    } else if d == 13 {
        'd'
    } else if d == 14 {
        'e'
    } else {
        'f'
    }
}

/// How serde_json writes one character inside a string literal: `"` and
/// `\` after a backslash; backspace, tab, line feed, form feed and carriage
/// return as `\b`, `\t`, `\n`, `\f`, `\r`; the other characters below
/// 0x20 as `\u00` and two lowercase hex digits; every other character as
/// it is.
pub open spec fn escaped_char(c: char) -> Seq<char> {
    let code = c as nat;
    if c == '"' {
        seq!['\\', '"']
    } else if c == '\\' {
        seq!['\\', '\\']
    } else if code == 8 {
        seq!['\\', 'b']
    } else if code == 9 {
        seq!['\\', 't']
    } else if code == 10 {
        seq!['\\', 'n']
    } else if code == 12 {
        seq!['\\', 'f']
    } else if code == 13 {
        seq!['\\', 'r']
    } else if code < 32 {
        seq!['\\', 'u', '0', '0', hex_digit(code / 16), hex_digit(code % 16)]
    } else {
        seq![c]
    }
}

/// The characters of a text, each written as `escaped_char` writes it.
pub open spec fn json_escape(text: Seq<char>) -> Seq<char>
    decreases text.len(),
{
    if text.len() == 0 {
        Seq::empty()
    } else {
        json_escape(text.drop_last()) + escaped_char(text.last())
    }
}

/// The JSON string literal that serde_json writes for a text: the escaped
/// text in double quotes.
pub open spec fn json_string(text: Seq<char>) -> Seq<char> {
    seq!['"'] + json_escape(text) + seq!['"']
}

/// `serde_json::to_string` on a `str`: the text in double quotes, each
/// character written as `escaped_char` says (serde_json's escape table and
/// `write_char_escape`). Writing a `str` into serde_json's in-memory buffer
/// does not fail, so the result is always `Ok`.
#[verifier::external_body]
fn json_string_literal(text: &str) -> (res: Result<String, serde_json::Error>)
    ensures
        res is Ok,
        res->Ok_0@ == json_string(text@),
{
    serde_json::to_string(text)
}

/// Appends the JSON string literal of `text` to `out`.
pub fn push_json_string(out: &mut String, text: &str)
    ensures
        final(out)@ == old(out)@ + json_string(text@),
{
    match json_string_literal(text) {
        Ok(literal) => out.append(literal.as_str()),
        Err(_) => {},
    }
}

/// The JSON object of an entry, its fields in declaration order.
pub open spec fn entry_json(entry: QueueEntryView) -> Seq<char> {
    "{\"user_id\":"@ + json_string(entry.user_id) + ",\"display_name\":"@
        + json_string(entry.display_name) + "}"@
}

/// The JSON objects of entries, separated by commas.
pub open spec fn entries_json_items(entries: Seq<QueueEntryView>) -> Seq<char>
    decreases entries.len(),
{
    if entries.len() == 0 {
        Seq::empty()
    } else if entries.len() == 1 {
        entry_json(entries[0])
    } else {
        entries_json_items(entries.drop_last()) + ","@ + entry_json(entries.last())
    }
}

/// The JSON array of a queue's entries, in queue order.
pub open spec fn queue_json(entries: Seq<QueueEntryView>) -> Seq<char> {
    "["@ + entries_json_items(entries) + "]"@
}

fn push_entry_json(out: &mut String, entry: &QueueEntry)
    ensures
        final(out)@ == old(out)@ + entry_json(entry@),
{
    out.append("{\"user_id\":");
    push_json_string(out, entry.user_id.as_str());
    out.append(",\"display_name\":");
    push_json_string(out, entry.display_name.as_str());
    out.append("}");
    assert(final(out)@ =~= old(out)@ + entry_json(entry@));
}

/// The JSON object of an entry, as it is stored in the guild's queue:
/// `{"user_id":...,"display_name":...}`.
pub fn encode_entry(entry: &QueueEntry) -> (json: String)
    ensures
        json@ == entry_json(entry@),
{
    let mut json = String::new();
    push_entry_json(&mut json, entry);
    assert(json@ =~= entry_json(entry@));
    json
}

/// The JSON array of a queue's entries, in queue order.
pub fn encode_queue(entries: &Vec<QueueEntry>) -> (json: String)
    ensures
        json@ == queue_json(entries_view(entries@)),
{
    let ghost views = entries_view(entries@);
    let mut json = String::from_str("[");
    let mut i: usize = 0;
    while i < entries.len()
        invariant
            i <= entries.len(),
            views == entries_view(entries@),
            json@ == "["@ + entries_json_items(views.take(i as int)),
        decreases entries.len() - i,
    {
        if i > 0 {
            json.append(",");
        }
        push_entry_json(&mut json, &entries[i]);
        proof {
            let taken = views.take(i + 1);
            assert(taken.drop_last() =~= views.take(i as int));
            assert(taken.last() == entries@[i as int]@);
            if i == 0 {
                assert(views.take(0) =~= Seq::<QueueEntryView>::empty());
            }
            assert(json@ =~= "["@ + entries_json_items(taken));
        }
        i = i + 1;
    }
    json.append("]");
    assert(views.take(entries.len() as int) =~= views);
    assert(json@ =~= queue_json(views));
    json
}

} // verus!
