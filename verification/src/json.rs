//! JSON text for wire values.
//!
//! The framing of lists, objects and numbers is written here; the quoting
//! of strings is left to `serde_json`.

use vstd::prelude::*;
use vstd::string::*;
use crate::number::decimal_text;
use crate::wire::{lemma_list_view, lemma_object_view, WireValue, WireTree};

verus! {

/// The error with which `serde_json` reports that a value could not be
/// written.
#[verifier::external_type_specification]
#[verifier::external_body]
pub struct ExJsonError(serde_json::Error);

/// A value could not be written as JSON text.
#[derive(Debug)]
pub struct SerializationError {
    /// The cause, as `serde_json` gives it.
    pub cause: serde_json::Error,
}

/// The lower-case hexadecimal digit for `n`.
pub open spec fn hex_digit(n: int) -> char
    recommends
        0 <= n < 16,
{
    seq!['0', '1', '2', '3', '4', '5', '6', '7', '8', '9', 'a', 'b', 'c', 'd', 'e', 'f'][n]
}

/// How one character stands inside a JSON string: the quotation mark and
/// the backslash behind a backslash, the control characters below U+0020 by
/// their short escape where JSON has one and as `\u00XX` where it has none,
/// and every other character as it is.
pub open spec fn escaped_char(c: char) -> Seq<char> {
    if c == '"' {
        seq!['\\', '"']
    } else if c == '\\' {
        seq!['\\', '\\']
    } else if c == '\u{8}' {
        seq!['\\', 'b']
    } else if c == '\t' {
        seq!['\\', 't']
    } else if c == '\n' {
        seq!['\\', 'n']
    } else if c == '\u{c}' {
        seq!['\\', 'f']
    } else if c == '\r' {
        seq!['\\', 'r']
    } else if (c as u32) < 0x20 {
        seq!['\\', 'u', '0', '0', hex_digit((c as u32 / 16) as int), hex_digit((c as u32 % 16) as int)]
    } else {
        seq![c]
    }
}

/// The characters of `s`, each as it stands inside a JSON string.
pub open spec fn escaped(s: Seq<char>) -> Seq<char>
    decreases s.len(),
{
    if s.len() == 0 {
        Seq::empty()
    } else {
        escaped(s.drop_last()) + escaped_char(s.last())
    }
}

/// The JSON string that holds `s`: its characters escaped, between
/// quotation marks.
pub open spec fn quoted(s: Seq<char>) -> Seq<char> {
    seq!['"'] + escaped(s) + seq!['"']
}

/// The JSON text of a value, without any white space: members and items in
/// their order, separated by commas.
pub open spec fn json_text(doc: WireTree) -> Seq<char>
    decreases doc, 0nat,
{
    match doc {
        WireTree::Null => "null"@,
        WireTree::Bool(b) => if b {
            "true"@
        } else {
            "false"@
        },
        WireTree::Number(n) => decimal_text(n.value()),
        WireTree::Text(t) => quoted(t),
        WireTree::List(items) => "["@ + items_text(items, items.len()) + "]"@,
        WireTree::Object(members) => "{"@ + members_text(members, members.len()) + "}"@,
    }
}

/// The JSON text of the first `n` items of a list, separated by commas.
pub open spec fn items_text(items: Seq<WireTree>, n: nat) -> Seq<char>
    decreases items, n,
{
    if n == 0 || n > items.len() {
        Seq::empty()
    } else if n == 1 {
        json_text(items[0])
    } else {
        items_text(items, (n - 1) as nat) + ","@ + json_text(items[n - 1])
    }
}

/// The JSON text of the first `n` members of an object, each as its quoted
/// key, a colon and its value, separated by commas.
pub open spec fn members_text(members: Seq<(Seq<char>, WireTree)>, n: nat) -> Seq<char>
    decreases members, n,
{
    if n == 0 || n > members.len() {
        Seq::empty()
    } else if n == 1 {
        quoted(members[0].0) + ":"@ + json_text(members[0].1)
    } else {
        members_text(members, (n - 1) as nat) + ","@ + quoted(members[n - 1].0) + ":"@
            + json_text(members[n - 1].1)
    }
}

/// Calls `serde_json::to_string` on a string slice.
///
/// The call is taken to succeed on every slice: it writes into a byte
/// vector, and a string slice gives it no other cause to fail. Its result is
/// taken to be the JSON string that holds the slice: a quotation mark, each
/// character as `escaped_char` gives it, and a quotation mark.
#[verifier::external_body]
fn quote(text: &str) -> (r: Result<String, serde_json::Error>)
    ensures
        r is Ok,
        r matches Ok(literal) ==> literal@ == quoted(text@),
{
    serde_json::to_string(text)
}

/// Takes what quoting a string came to: a string is appended to `out`,
/// an error is handed on as the cause of a [`SerializationError`] and leaves
/// `out` as it was.
pub fn push_outcome(outcome: Result<String, serde_json::Error>, out: &mut String) -> (r: Result<
    (),
    SerializationError,
>)
    ensures
        outcome matches Ok(literal) ==> r is Ok && final(out)@ == old(out)@ + literal@,
        outcome matches Err(cause) ==> r is Err && r->Err_0.cause == cause && final(out)@ == old(
            out,
        )@,
{
    match outcome {
        Ok(literal) => {
            out.append(literal.as_str());
            Ok(())
        },
        Err(cause) => Err(SerializationError { cause }),
    }
}

/// Appends the JSON string that holds `text` to `out`.
fn push_quoted(text: &str, out: &mut String) -> (r: Result<(), SerializationError>)
    ensures
        r is Ok,
        final(out)@ == old(out)@ + quoted(text@),
{
    push_outcome(quote(text), out)
}

/// Appends the JSON text of `doc` to `out`. The text is always written.
pub fn push_json(doc: &WireValue, out: &mut String) -> (r: Result<(), SerializationError>)
    ensures
        r is Ok,
        final(out)@ == old(out)@ + json_text(doc@),
    decreases doc,
{
    match doc {
        WireValue::Null => {
            out.append("null");
            Ok(())
        },
        WireValue::Bool(b) => {
            if *b {
                out.append("true");
            } else {
                out.append("false");
            }
            Ok(())
        },
        WireValue::Number(n) => {
            n.push_text(out);
            Ok(())
        },
        WireValue::Text(t) => push_quoted(t.as_str(), out),
        WireValue::List(items) => {
            proof {
                lemma_list_view(*items);
            }
            out.append("[");
            let mut i: usize = 0;
            while i < items.len()
                invariant
                    i <= items.len(),
                    doc == WireValue::List(*items),
                    doc@ == WireTree::List(items.deep_view()),
                    out@ == old(out)@ + "["@ + items_text(items.deep_view(), i as nat),
                decreases items.len() - i,
            {
                if i > 0 {
                    out.append(",");
                }
                assert(decreases_to!(doc => doc->List_0));
                assert(decreases_to!(doc->List_0 => items[i as int]));
                match push_json(&items[i], out) {
                    Ok(()) => {},
                    Err(e) => {
                        return Err(e);
                    },
                }
                i += 1;
                assert(out@ =~= old(out)@ + "["@ + items_text(items.deep_view(), i as nat));
            }
            out.append("]");
            assert(out@ =~= old(out)@ + json_text(doc@));
            Ok(())
        },
        WireValue::Object(members) => {
            proof {
                lemma_object_view(*members);
            }
            out.append("{");
            let mut i: usize = 0;
            while i < members.len()
                invariant
                    i <= members.len(),
                    doc == WireValue::Object(*members),
                    doc@ == WireTree::Object(members.deep_view()),
                    out@ == old(out)@ + "{"@ + members_text(members.deep_view(), i as nat),
                decreases members.len() - i,
            {
                if i > 0 {
                    out.append(",");
                }
                match push_quoted(members[i].0.as_str(), out) {
                    Ok(()) => {},
                    Err(e) => {
                        return Err(e);
                    },
                }
                out.append(":");
                assert(decreases_to!(doc => doc->Object_0));
                assert(decreases_to!(doc->Object_0 => members[i as int]));
                assert(decreases_to!(members[i as int] => members[i as int].1));
                match push_json(&members[i].1, out) {
                    Ok(()) => {},
                    Err(e) => {
                        return Err(e);
                    },
                }
                i += 1;
                assert(out@ =~= old(out)@ + "{"@ + members_text(members.deep_view(), i as nat));
            }
            out.append("}");
            assert(out@ =~= old(out)@ + json_text(doc@));
            Ok(())
        },
    }
}

/// The JSON text of `doc`. The text is always written.
pub fn render(doc: &WireValue) -> (r: Result<String, SerializationError>)
    ensures
        r matches Ok(text) && text@ == json_text(doc@),
{
    let mut out = String::new();
    match push_json(doc, &mut out) {
        Ok(()) => {
            assert(out@ =~= json_text(doc@));
            Ok(out)
        },
        Err(e) => Err(e),
    }
}

} // verus!
