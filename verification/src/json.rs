//! JSON on the wire. Writing objects and reading documents is serde_json's
//! work; this module gives the library's side of it: the members an object
//! is made of, and what the written text is.
use vstd::prelude::*;
use vstd::string::*;
use crate::plan::views;
use crate::text::decimal;

verus! {

/// What serde_json reports when it reads `text` as a JSON document: `None`
/// where the text is one document, else the message of the error.
pub uninterp spec fn json_syntax_error(text: Seq<char>) -> Option<Seq<char>>;

/// The string that the JSON document `text` holds under `key`: `Some` where
/// the document is an object whose member `key` is a string, `None` in every
/// other case, also where `text` is no JSON document.
pub uninterp spec fn json_string_member(text: Seq<char>, key: Seq<char>) -> Option<Seq<char>>;

/// The boolean that the JSON document `text` holds under `key`: `Some` where
/// the document is an object whose member `key` is `true` or `false`, `None`
/// in every other case, also where `text` is no JSON document.
pub uninterp spec fn json_bool_member(text: Seq<char>, key: Seq<char>) -> Option<bool>;

/// The text that serde_json writes for the object made by inserting the
/// given members, in the given order, into an empty map.
pub uninterp spec fn json_object_text(members: Seq<MemberView>) -> Seq<char>;

/// A scalar JSON value.
#[derive(Debug, Clone)]
pub enum JsonScalar {
    Text(String),
    Flag(bool),
    Number(u64),
}

/// A scalar JSON value as contracts see it.
pub enum ScalarView {
    Text(Seq<char>),
    Flag(bool),
    Number(nat),
}

impl View for JsonScalar {
    type V = ScalarView;

    open spec fn view(&self) -> ScalarView {
        match self {
            JsonScalar::Text(s) => ScalarView::Text(s@),
            JsonScalar::Flag(b) => ScalarView::Flag(*b),
            JsonScalar::Number(n) => ScalarView::Number(*n as nat),
        }
    }
}

/// One member of a JSON object.
#[derive(Debug, Clone)]
pub struct JsonMember {
    pub key: String,
    pub value: JsonScalar,
}

/// A member as contracts see it.
pub struct MemberView {
    pub key: Seq<char>,
    pub value: ScalarView,
}

impl View for JsonMember {
    type V = MemberView;

    open spec fn view(&self) -> MemberView {
        MemberView { key: self.key@, value: self.value@ }
    }
}

/// The character of a hexadecimal digit, in lower case.
pub open spec fn hex_char(d: nat) -> char {
    if d < 10 {
        crate::text::digit_char(d)
    } else if d == 10 {
        'a'
    } else if d == 11 {
        'b'
    } else if d == 12 {
        'c'
    } else if d == 13 {
        'd'
    } else if d == 14 {
        'e'
    } else {
        'f'
    }
}

/// What stands for one character inside a JSON string literal: a backslash
/// and a letter for the quote, the backslash and five control characters,
/// `\u00` and two hexadecimal digits for the other characters below the
/// space, and the character itself for every other.
pub open spec fn escaped(c: char) -> Seq<char> {
    if c == '"' {
        seq!['\\', '"']
    } else if c == '\\' {
        seq!['\\', '\\']
    } else if c == '\u{8}' {
        seq!['\\', 'b']
    } else if c == '\u{c}' {
        seq!['\\', 'f']
    } else if c == '\n' {
        seq!['\\', 'n']
    } else if c == '\r' {
        seq!['\\', 'r']
    } else if c == '\t' {
        seq!['\\', 't']
    } else if (c as u32) < 32 {
        seq!['\\', 'u', '0', '0', hex_char((c as u32 / 16) as nat), hex_char((c as u32 % 16) as nat)]
    } else {
        seq![c]
    }
}

/// The characters of a text, each as it stands inside a JSON string literal.
pub open spec fn escaped_text(s: Seq<char>) -> Seq<char>
    decreases s.len(),
{
    if s.len() == 0 {
        Seq::empty()
    } else {
        escaped_text(s.drop_last()) + escaped(s.last())
    }
}

/// The JSON string literal of a text: the escaped text in double quotes.
pub open spec fn json_quoted(s: Seq<char>) -> Seq<char> {
    seq!['"'] + escaped_text(s) + seq!['"']
}

/// The JSON text of a scalar.
pub open spec fn scalar_text(v: ScalarView) -> Seq<char> {
    match v {
        ScalarView::Text(s) => json_quoted(s),
        ScalarView::Flag(b) => if b {
            "true"@
        } else {
            "false"@
        },
        ScalarView::Number(n) => decimal(n),
    }
}

/// The JSON text of a member: the quoted key, a colon, the value.
pub open spec fn member_text(m: MemberView) -> Seq<char> {
    json_quoted(m.key) + ":"@ + scalar_text(m.value)
}

/// The JSON text of a list of members, separated by commas.
pub open spec fn members_text(members: Seq<MemberView>) -> Seq<char>
    decreases members.len(),
{
    if members.len() == 0 {
        Seq::empty()
    } else if members.len() == 1 {
        member_text(members[0])
    } else {
        members_text(members.drop_last()) + ","@ + member_text(members.last())
    }
}

/// The compact JSON text of an object with the given members, in the given
/// order.
pub open spec fn object_text(members: Seq<MemberView>) -> Seq<char> {
    "{"@ + members_text(members) + "}"@
}

/// Whether the text `a` comes before the text `b`: at the first place where
/// they differ `a` has the lesser character, or `a` ends where `b` goes on.
pub open spec fn text_before(a: Seq<char>, b: Seq<char>) -> bool
    decreases a.len(),
{
    if b.len() == 0 {
        false
    } else if a.len() == 0 {
        true
    } else if a[0] != b[0] {
        (a[0] as u32) < (b[0] as u32)
    } else {
        text_before(a.drop_first(), b.drop_first())
    }
}

/// Whether the keys of a list of members ascend: every key comes before
/// every later one, so that no key occurs twice.
pub open spec fn keys_ascending(members: Seq<MemberView>) -> bool {
    forall|i: int, j: int|
        0 <= i < j < members.len() ==> text_before(
            (#[trigger] members[i]).key,
            (#[trigger] members[j]).key,
        )
}

/// A text comes before another where the two agree up to a place at which
/// the first has the lesser character.
pub proof fn lemma_text_before(a: Seq<char>, b: Seq<char>, at: int)
    requires
        0 <= at < a.len(),
        at < b.len(),
        forall|k: int| 0 <= k < at ==> a[k] == b[k],
        (a[at] as u32) < (b[at] as u32),
    ensures
        text_before(a, b),
    decreases at,
{
    if at > 0 {
        lemma_text_before(a.drop_first(), b.drop_first(), at - 1);
    }
}

/// Writes an object as compact JSON.
///
/// The body inserts the members one by one into an empty
/// `serde_json::Map`, each value as the `serde_json::Value` of its kind, and
/// renders `Value::Object` of the map with its `Display` impl, serde_json's
/// compact writer. The map keeps one value per key and hands its members
/// out in the order of their keys. The contract is not proved. It gives the
/// result its name, and for members whose keys ascend it states the text:
/// the members in their order, separated by commas, in braces.
#[verifier::external_body]
pub(crate) fn write_object(members: &Vec<JsonMember>) -> (text: String)
    ensures
        text@ == json_object_text(views(members@)),
        keys_ascending(views(members@)) ==> text@ == object_text(views(members@)),
{
    let mut map = serde_json::Map::new();
    for member in members.iter() {
        let value = match &member.value {
            JsonScalar::Text(s) => serde_json::Value::String(s.clone()),
            JsonScalar::Flag(b) => serde_json::Value::Bool(*b),
            JsonScalar::Number(n) => serde_json::Value::Number(serde_json::Number::from(*n)),
        };
        map.insert(member.key.clone(), value);
    }
    serde_json::Value::Object(map).to_string()
}

/// Reads `text` as a JSON document and reports the error, if any.
///
/// The body calls `serde_json::from_str` for a `serde_json::Value` and keeps
/// the error's `Display` text. The contract is not proved: it gives the
/// result its name and claims nothing else of it.
#[verifier::external_body]
pub(crate) fn syntax_error(text: &str) -> (error: Option<String>)
    ensures
        match json_syntax_error(text@) {
            Some(e) => error matches Some(got) && got@ == e,
            None => error.is_none(),
        },
{
    match serde_json::from_str::<serde_json::Value>(text) {
        Ok(_) => None,
        Err(e) => Some(e.to_string()),
    }
}

/// Reads the string member `key` of the JSON document `text`.
///
/// The body calls `serde_json::from_str` for a `serde_json::Value`, then
/// `Value::get` with the key and `Value::as_str` on what it finds. The
/// contract is not proved: it gives the result its name and claims nothing
/// else of it but that a text which is no document has no member.
#[verifier::external_body]
pub(crate) fn string_member(text: &str, key: &str) -> (member: Option<String>)
    ensures
        match json_string_member(text@, key@) {
            Some(s) => member matches Some(got) && got@ == s,
            None => member.is_none(),
        },
        json_syntax_error(text@) is Some ==> member.is_none(),
{
    let document = serde_json::from_str::<serde_json::Value>(text).ok()?;
    Some(document.get(key)?.as_str()?.to_string())
}

/// Reads the boolean member `key` of the JSON document `text`.
///
/// The body calls `serde_json::from_str` for a `serde_json::Value`, then
/// `Value::get` with the key and `Value::as_bool` on what it finds. The
/// contract is not proved: it gives the result its name and claims nothing
/// else of it but that a text which is no document has no member.
#[verifier::external_body]
pub(crate) fn bool_member(text: &str, key: &str) -> (member: Option<bool>)
    ensures
        member == json_bool_member(text@, key@),
        json_syntax_error(text@) is Some ==> member.is_none(),
{
    let document = serde_json::from_str::<serde_json::Value>(text).ok()?;
    document.get(key)?.as_bool()
}

/// Builds a member whose value is a string.
pub fn text_member(key: &str, value: &str) -> (m: JsonMember)
    ensures
        m@ == (MemberView { key: key@, value: ScalarView::Text(value@) }),
{
    JsonMember { key: String::from_str(key), value: JsonScalar::Text(String::from_str(value)) }
}

/// Builds a member whose value is a boolean.
pub fn flag_member(key: &str, value: bool) -> (m: JsonMember)
    ensures
        m@ == (MemberView { key: key@, value: ScalarView::Flag(value) }),
{
    JsonMember { key: String::from_str(key), value: JsonScalar::Flag(value) }
}

/// Builds a member whose value is a number.
pub fn number_member(key: &str, value: u64) -> (m: JsonMember)
    ensures
        m@ == (MemberView { key: key@, value: ScalarView::Number(value as nat) }),
{
    JsonMember { key: String::from_str(key), value: JsonScalar::Number(value) }
}

/// Appends a member to a list.
pub fn push_member(list: &mut Vec<JsonMember>, member: JsonMember)
    ensures
        views(final(list)@) == views(old(list)@).push(member@),
{
    list.push(member);
    assert(views(list@) =~= views(old(list)@).push(member@));
}

} // verus!
