//! Flat JSON objects as text: a list of named members, written out in order.

use vstd::prelude::*;
use vstd::string::StringExecFns;
use crate::text::{join, joined, texts};

verus! {

/// The JSON string literal that `serde_json` writes for a text: the text in
/// double quotes, with the characters that JSON reserves written as escapes.
pub uninterp spec fn json_string_literal(text: Seq<char>) -> Seq<char>;

/// Trusted: `serde_json::to_string` on a string slice. It succeeds on every
/// text: it writes into a byte vector, and the only failure that writing a
/// string can meet is the writer's, which a vector never reports. What it
/// returns depends on the text alone and is its JSON string literal.
#[verifier::external_body]
pub(crate) fn to_json_string(text: &str) -> (r: Result<String, String>)
    ensures
        r is Ok,
        r matches Ok(literal) ==> literal@ == json_string_literal(text@),
{
    match serde_json::to_string(text) {
        Ok(literal) => Ok(literal),
        Err(e) => Err(e.to_string()),
    }
}

/// One member of an object: its key as plain text and its value as the JSON
/// text that stands behind the colon.
pub ghost struct Field {
    pub key: Seq<char>,
    pub value: Seq<char>,
}

/// A word between double quotes. This is the JSON literal of a word that
/// holds no quote, backslash or control character.
pub open spec fn quoted(word: Seq<char>) -> Seq<char> {
    seq!['"'] + word + seq!['"']
}

/// One member as it is written: the quoted key, a colon, the value.
pub open spec fn field_text(f: Field) -> Seq<char> {
    quoted(f.key) + seq![':'] + f.value
}

/// The members as they are written, one text for each, in order.
pub open spec fn field_texts(fields: Seq<Field>) -> Seq<Seq<char>> {
    Seq::new(fields.len(), |i: int| field_text(fields[i]))
}

/// The object as it is written: the members between braces, with a comma
/// between each two.
pub open spec fn object_text(fields: Seq<Field>) -> Seq<char> {
    seq!['{'] + joined(field_texts(fields), seq![',']) + seq!['}']
}

/// Whether one of the members has the key `key`.
pub open spec fn has_key(fields: Seq<Field>, key: Seq<char>) -> bool {
    exists|i: int| 0 <= i < fields.len() && #[trigger] fields[i].key == key
}

/// One member of an object that is being written.
pub struct Member {
    pub key: String,
    pub value: String,
}

impl View for Member {
    type V = Field;

    open spec fn view(&self) -> Field {
        Field { key: self.key@, value: self.value@ }
    }
}

/// The members that a list holds, in order.
pub open spec fn fields_of(members: Seq<Member>) -> Seq<Field> {
    Seq::new(members.len(), |i: int| members[i]@)
}

impl Member {
    /// A member whose value is written as it stands.
    pub fn raw(key: &str, value: &str) -> (m: Member)
        ensures
            m@ == (Field { key: key@, value: value@ }),
    {
        Member { key: String::from_str(key), value: String::from_str(value) }
    }

    /// A member whose value is a word of a fixed vocabulary, written between quotes.
    pub fn word(key: &str, word: &str) -> (m: Member)
        ensures
            m@ == (Field { key: key@, value: quoted(word@) }),
    {
        let mut value = String::from_str("\"");
        value.append(word);
        value.append("\"");
        proof {
            reveal_strlit("\"");
            assert(value@ =~= quoted(word@));
        }
        Member { key: String::from_str(key), value }
    }

    /// The member as it is written.
    fn write(&self) -> (text: String)
        ensures
            text@ == field_text(self@),
    {
        let mut text = String::from_str("\"");
        text.append(self.key.as_str());
        text.append("\":");
        text.append(self.value.as_str());
        proof {
            reveal_strlit("\"");
            reveal_strlit("\":");
            assert(text@ =~= field_text(self@));
        }
        text
    }
}

/// Writes the members out as one JSON object.
pub fn write_object(members: &Vec<Member>) -> (text: String)
    ensures
        text@ == object_text(fields_of(members@)),
{
    let mut written: Vec<String> = Vec::new();
    let mut i: usize = 0;
    while i < members.len()
        invariant
            i <= members.len(),
            written@.len() == i,
            forall|j: int| 0 <= j < i ==> (#[trigger] written@[j])@ == field_text(members@[j]@),
        decreases members.len() - i,
    {
        written.push(members[i].write());
        i = i + 1;
    }
    let mut text = String::from_str("{");
    text.append(join(&written, ",").as_str());
    text.append("}");
    proof {
        reveal_strlit("{");
        reveal_strlit(",");
        reveal_strlit("}");
        assert(texts(written@) =~= field_texts(fields_of(members@)));
        assert(","@ =~= seq![',']);
    }
    text
}

} // verus!
