//! The JSON text of strings and of objects whose values are strings.
use vstd::prelude::*;

verus! {

/// The lower-case hexadecimal digit of a number below 16.
pub open spec fn hex_digit(n: int) -> char {
    if n < 10 {
        ((48 + n) as u8) as char
    } else {
        ((87 + n) as u8) as char
    }
}

/// What one character of a string is written as inside a JSON string: the
/// quote and the backslash behind a backslash, the control characters
/// below the space by their short escape or as `\u00` and two digits, and
/// every other character as itself.
pub open spec fn json_escape(c: char) -> Seq<char> {
    if c == '"' {
        seq!['\\', '"']
    } else if c == '\\' {
        seq!['\\', '\\']
    } else if c == '\u{8}' {
        seq!['\\', 'b']
    } else if c == '\t' {
        seq!['\\', 't']
    } else if c == '\n' {
        seq!['\\', 'n']
    } else if c == '\u{c}' {
        seq!['\\', 'f']
    } else if c == '\r' {
        seq!['\\', 'r']
    } else if ' ' > c {
        seq!['\\', 'u', '0', '0', hex_digit(c as int / 16), hex_digit(c as int % 16)]
    } else {
        seq![c]
    }
}

/// The JSON text of a string: its characters, each escaped, between two
/// quotes.
pub open spec fn json_string(s: Seq<char>) -> Seq<char> {
    seq!['"'] + s.map_values(|c: char| json_escape(c)).flatten() + seq!['"']
}

/// The JSON text of one entry of an object: the key, a colon, the value.
pub open spec fn json_entry(entry: (Seq<char>, Seq<char>)) -> Seq<char> {
    json_string(entry.0) + seq![':'] + json_string(entry.1)
}

/// The texts of the entries in their order, with a comma between each two.
pub open spec fn json_entries(entries: Seq<(Seq<char>, Seq<char>)>) -> Seq<char>
    decreases entries.len(),
{
    if entries.len() == 0 {
        Seq::empty()
    } else if entries.len() == 1 {
        json_entry(entries[0])
    } else {
        json_entries(entries.drop_last()) + seq![','] + json_entry(entries.last())
    }
}

/// The JSON text of an object with the given entries in the given order.
pub open spec fn json_object(entries: Seq<(Seq<char>, Seq<char>)>) -> Seq<char> {
    seq!['{'] + json_entries(entries) + seq!['}']
}

/// Whether `entries` lists what the map holds, each entry once, in some
/// order.
pub open spec fn lists_entries(entries: Seq<(String, String)>, m: Map<String, String>) -> bool {
    &&& entries.len() == m.len()
    &&& forall|i: int, j: int|
        0 <= i < j < entries.len() ==> (#[trigger] entries[i]).0@ != (#[trigger] entries[j]).0@
    &&& forall|i: int|
        0 <= i < entries.len() ==> m.contains_pair((#[trigger] entries[i]).0, entries[i].1)
}

/// The texts of a list of entries.
pub open spec fn entry_texts(entries: Seq<(String, String)>) -> Seq<(Seq<char>, Seq<char>)> {
    entries.map_values(|e: (String, String)| (e.0@, e.1@))
}

/// Whether `text` is the JSON text of an object that holds what the map
/// holds: its entries, each once, in some order.
pub open spec fn is_json_of_map(text: Seq<char>, m: Map<String, String>) -> bool {
    exists|entries: Seq<(String, String)>| #[trigger]
        lists_entries(entries, m) && text == json_object(entry_texts(entries))
}

/// The text of a list of entries that is not empty holds at least a colon.
pub proof fn entries_have_text(entries: Seq<(Seq<char>, Seq<char>)>)
    requires
        entries.len() > 0,
    ensures
        json_entries(entries).len() > 0,
    decreases entries.len(),
{
    if entries.len() > 1 {
        entries_have_text(entries.drop_last());
    }
}

/// The text of a map opens with `{` and closes with `}`, and is `{}`
/// exactly for the empty map.
pub proof fn json_of_map_is_an_object(text: Seq<char>, m: Map<String, String>)
    requires
        is_json_of_map(text, m),
    ensures
        text.len() >= 2,
        text[0] == '{',
        text.last() == '}',
        (m.len() == 0) == (text == "{}"@),
{
    reveal_strlit("{}");
    let entries = choose|entries: Seq<(String, String)>| #[trigger]
        lists_entries(entries, m) && text == json_object(entry_texts(entries));
    let texts = entry_texts(entries);
    if texts.len() > 0 {
        entries_have_text(texts);
    } else {
        assert(text =~= "{}"@);
    }
}

} // verus!
