//! JSON values, as far as the library reads them.

use vstd::prelude::*;

use crate::crypto;
use crate::text;

verus! {

/// A JSON value. A number is held by what it is as an `i64` and as a `u64`, where it
/// is one; the members of an object have distinct names.
#[derive(Debug, PartialEq, Eq)]
pub enum Json {
    Null,
    Bool(bool),
    Number { signed: Option<i64>, unsigned: Option<u64> },
    Text(String),
    Array(Vec<Json>),
    Object(Vec<(String, Json)>),
}

/// The first value under a name.
pub open spec fn named(members: Seq<(String, Json)>, name: Seq<char>) -> Option<Json>
    decreases members.len(),
{
    if members.len() == 0 {
        None
    } else if members[0].0@ == name {
        Some(members[0].1)
    } else {
        named(members.drop_first(), name)
    }
}

impl Json {
    /// The member of an object under a name.
    pub open spec fn member(self, name: Seq<char>) -> Option<Json> {
        match self {
            Json::Object(members) => named(members@, name),
            _ => None,
        }
    }

    pub open spec fn text(self) -> Option<Seq<char>> {
        match self {
            Json::Text(text) => Some(text@),
            _ => None,
        }
    }

    pub open spec fn signed(self) -> Option<i64> {
        match self {
            Json::Number { signed, .. } => signed,
            _ => None,
        }
    }

    pub open spec fn unsigned(self) -> Option<u64> {
        match self {
            Json::Number { unsigned, .. } => unsigned,
            _ => None,
        }
    }

    pub open spec fn elements(self) -> Option<Seq<Json>> {
        match self {
            Json::Array(values) => Some(values@),
            _ => None,
        }
    }

    /// The text of the member under a name.
    pub open spec fn member_text(self, name: Seq<char>) -> Option<Seq<char>> {
        match self.member(name) {
            Some(value) => value.text(),
            None => None,
        }
    }

    /// The natural number of the member under a name.
    pub open spec fn member_unsigned(self, name: Seq<char>) -> Option<u64> {
        match self.member(name) {
            Some(value) => value.unsigned(),
            None => None,
        }
    }

    /// The member under a name is missing, null or a text.
    pub open spec fn member_is_optional_text(self, name: Seq<char>) -> bool {
        match self.member(name) {
            Some(value) => value is Null || value is Text,
            None => true,
        }
    }

    /// Reads a JSON text.
    pub fn parse(text: &str) -> (value: Option<Json>)
        ensures
            value == json_value(text@),
    {
        parse_json(text)
    }

    pub fn is_object(&self) -> (is_object: bool)
        ensures
            is_object == (self is Object),
    {
        matches!(self, Json::Object(_))
    }

    pub fn get(&self, name: &str) -> (value: Option<&Json>)
        ensures
            match value {
                Some(value) => self.member(name@) == Some(*value),
                None => self.member(name@) is None,
            },
    {
        match self {
            Json::Object(members) => {
                let mut i: usize = 0;
                assert(members@.skip(0) =~= members@);
                while i < members.len()
                    invariant
                        i <= members@.len(),
                        self.member(name@) == named(members@, name@),
                        named(members@, name@) == named(members@.skip(i as int), name@),
                    decreases members@.len() - i,
                {
                    let member = &members[i];
                    assert(members@.skip(i as int).drop_first() =~= members@.skip(i + 1));
                    assert(members@.skip(i as int)[0] == *member);
                    if text::same_text(member.0.as_str(), name) {
                        return Some(&member.1);
                    }
                    i += 1;
                }
                None
            },
            _ => None,
        }
    }

    pub fn as_str(&self) -> (text: Option<&str>)
        ensures
            match text {
                Some(text) => self.text() == Some(text@),
                None => self.text() is None,
            },
    {
        match self {
            Json::Text(text) => Some(text.as_str()),
            _ => None,
        }
    }

    pub fn as_i64(&self) -> (number: Option<i64>)
        ensures
            number == self.signed(),
    {
        match self {
            Json::Number { signed, .. } => *signed,
            _ => None,
        }
    }

    pub fn as_u64(&self) -> (number: Option<u64>)
        ensures
            number == self.unsigned(),
    {
        match self {
            Json::Number { unsigned, .. } => *unsigned,
            _ => None,
        }
    }

    pub fn as_array(&self) -> (values: Option<&Vec<Json>>)
        ensures
            match values {
                Some(values) => self.elements() == Some(values@),
                None => self.elements() is None,
            },
    {
        match self {
            Json::Array(values) => Some(values),
            _ => None,
        }
    }

    /// Whether the member under a name is this text.
    pub fn member_is(&self, name: &str, expected: &str) -> (same: bool)
        ensures
            same == (self.member_text(name@) == Some(expected@)),
    {
        match self.get(name) {
            Some(value) => match value.as_str() {
                Some(text) => text::same_text(text, expected),
                None => false,
            },
            None => false,
        }
    }

    pub fn get_u64(&self, name: &str) -> (number: Option<u64>)
        ensures
            number == self.member_unsigned(name@),
    {
        match self.get(name) {
            Some(value) => value.as_u64(),
            None => None,
        }
    }

    pub fn has_optional_text(&self, name: &str) -> (valid: bool)
        ensures
            valid == self.member_is_optional_text(name@),
    {
        match self.get(name) {
            Some(value) => matches!(value, Json::Null) || matches!(value, Json::Text(_)),
            None => true,
        }
    }
}

/// `serde_json::Value`, the value that a JSON text is read as.
#[verifier::external_type_specification]
#[verifier::external_body]
pub struct ExJsonValue(serde_json::Value);

/// Takes a `serde_json::Value` apart, variant by variant: what it holds is handed on, and
/// a number is asked for its `as_i64` and its `as_u64`.
#[verifier::external_body]
fn tree(value: serde_json::Value) -> (tree: Json) {
    match value {
        serde_json::Value::Null => Json::Null,
        serde_json::Value::Bool(flag) => Json::Bool(flag),
        serde_json::Value::Number(number) => Json::Number {
            signed: number.as_i64(),
            unsigned: number.as_u64(),
        },
        serde_json::Value::String(text) => Json::Text(text),
        serde_json::Value::Array(values) => Json::Array(values.into_iter().map(tree).collect()),
        serde_json::Value::Object(members) => Json::Object(
            members.into_iter().map(|(name, value)| (name, tree(value))).collect(),
        ),
    }
}

/// The value that a text is in JSON, if it is JSON.
pub uninterp spec fn json_value(text: Seq<char>) -> Option<Json>;

/// Calls `serde_json::from_str` for a `serde_json::Value`, and takes what it returns
/// apart: the text alone decides over the value, and over whether there is one.
#[verifier::external_body]
pub(crate) fn parse_json(text: &str) -> (value: Option<Json>)
    ensures
        value == json_value(text@),
{
    serde_json::from_str::<serde_json::Value>(text).ok().map(tree)
}

/// A character as it stands in a JSON string literal: a quotation mark, a backslash and the
/// control characters are escaped, and every other character stands for itself.
pub open spec fn escaped(c: char) -> Seq<char> {
    if c == '"' || c == '\\' {
        seq!['\\', c]
    } else if c == '\u{8}' {
        seq!['\\', 'b']
    } else if c == '\t' {
        seq!['\\', 't']
    } else if c == '\n' {
        seq!['\\', 'n']
    } else if c == '\u{c}' {
        seq!['\\', 'f']
    } else if c == '\r' {
        seq!['\\', 'r']
    } else if (c as int) < 32 {
        seq!['\\', 'u', '0', '0', text::hex_digit(c as int / 16), text::hex_digit(c as int % 16)]
    } else {
        seq![c]
    }
}

/// The characters of a text, each as it stands in a JSON string literal.
pub open spec fn all_escaped(value: Seq<char>) -> Seq<char>
    decreases value.len(),
{
    if value.len() == 0 {
        Seq::empty()
    } else {
        escaped(value[0]) + all_escaped(value.drop_first())
    }
}

/// The JSON string literal of a text.
pub open spec fn json_string(value: Seq<char>) -> Seq<char> {
    seq!['"'] + all_escaped(value) + seq!['"']
}

/// Calls `serde_json::to_string` on a text, which gives its JSON string literal: the text
/// between quotation marks, with a short escape for a quotation mark, a backslash, a
/// backspace, a tab, a line feed, a form feed and a carriage return, and `\u` with four
/// lower case hexadecimal digits for every other character below the space. Writing a text
/// into a `String` does not fail.
#[verifier::external_body]
fn json_string_text(value: &str) -> (literal: Option<String>)
    ensures
        literal matches Some(literal) && literal@ == json_string(value@),
{
    serde_json::to_string(value).ok()
}

proof fn lemma_escaped(first: char, x: Seq<char>, second: char, y: Seq<char>)
    requires
        escaped(first) + x == escaped(second) + y,
    ensures
        first == second,
        x == y,
{
    let left = escaped(first) + x;
    let right = escaped(second) + y;
    let a = escaped(first);
    let b = escaped(second);
    assert(left[0] == a[0] && right[0] == b[0]);
    if a[0] == '\\' {
        assert(left[1] == a[1] && right[1] == b[1]);
        if a[1] == 'u' {
            assert(left[4] == a[4] && right[4] == b[4]);
            assert(left[5] == a[5] && right[5] == b[5]);
            text::lemma_hex_digit_injective(first as int / 16, second as int / 16);
            text::lemma_hex_digit_injective(first as int % 16, second as int % 16);
            assert(first as int == second as int);
        }
    }
    assert(first == second);
    assert(left.skip(a.len() as int) =~= x);
    assert(right.skip(b.len() as int) =~= y);
}

/// A literal is read back as it was written: no two texts have the same literal, and no
/// literal goes on where another ends.
pub proof fn literals_are_told_apart(
    first: Seq<char>,
    x: Seq<char>,
    second: Seq<char>,
    y: Seq<char>,
)
    requires
        json_string(first) + x == json_string(second) + y,
    ensures
        first == second,
        x == y,
{
    let left = json_string(first) + x;
    let right = json_string(second) + y;
    assert(left.skip(1) =~= all_escaped(first) + (seq!['"'] + x));
    assert(right.skip(1) =~= all_escaped(second) + (seq!['"'] + y));
    lemma_all_escaped(first, x, second, y);
}

proof fn lemma_all_escaped(first: Seq<char>, x: Seq<char>, second: Seq<char>, y: Seq<char>)
    requires
        all_escaped(first) + (seq!['"'] + x) == all_escaped(second) + (seq!['"'] + y),
    ensures
        first == second,
        x == y,
    decreases first.len(),
{
    let left = all_escaped(first) + (seq!['"'] + x);
    let right = all_escaped(second) + (seq!['"'] + y);
    if first.len() == 0 || second.len() == 0 {
        if first.len() > 0 {
            assert(left[0] == escaped(first[0])[0]);
            assert(right[0] == '"');
        }
        if second.len() > 0 {
            assert(right[0] == escaped(second[0])[0]);
            assert(left[0] == '"');
        }
        assert(first =~= second);
        assert(left.skip(1) =~= x);
        assert(right.skip(1) =~= y);
    } else {
        let a = all_escaped(first.drop_first()) + (seq!['"'] + x);
        let b = all_escaped(second.drop_first()) + (seq!['"'] + y);
        assert(left =~= escaped(first[0]) + a);
        assert(right =~= escaped(second[0]) + b);
        lemma_escaped(first[0], a, second[0], b);
        lemma_all_escaped(first.drop_first(), x, second.drop_first(), y);
        assert(first =~= seq![first[0]] + first.drop_first());
        assert(second =~= seq![second[0]] + second.drop_first());
    }
}

/// Appends the JSON string literal of a text.
pub fn push_json_string(out: &mut String, value: &str)
    ensures
        final(out)@ == old(out)@ + json_string(value@),
{
    if let Some(literal) = json_string_text(value) {
        text::push_text(out, literal.as_str());
    }
}

/// Overwrites every text in a value, its member names among them, and leaves null.
pub fn zeroize_json_value(value: &mut Json)
    ensures
        *final(value) == Json::Null,
    decreases *old(value),
{
    let mut taken = Json::Null;
    std::mem::swap(value, &mut taken);
    match taken {
        Json::Text(mut text) => crypto::wipe_text(&mut text),
        Json::Array(mut values) => {
            let ghost all = values@;
            while values.len() > 0
                invariant
                    values@.len() <= all.len(),
                    forall|i: int| 0 <= i < values@.len() ==> values@[i] == all[i],
                    *old(value) matches Json::Array(held) && held@ == all,
                decreases values.len(),
            {
                let ghost last = values@.len() - 1;
                match values.pop() {
                    Some(mut nested) => {
                        assert(nested == all[last]);
                        zeroize_json_value(&mut nested);
                    },
                    None => {},
                }
            }
        },
        Json::Object(mut members) => {
            let ghost all = members@;
            while members.len() > 0
                invariant
                    members@.len() <= all.len(),
                    forall|i: int| 0 <= i < members@.len() ==> members@[i] == all[i],
                    *old(value) matches Json::Object(held) && held@ == all,
                decreases members.len(),
            {
                let ghost last = members@.len() - 1;
                match members.pop() {
                    Some((mut name, mut nested)) => {
                        assert((name, nested) == all[last]);
                        crypto::wipe_text(&mut name);
                        zeroize_json_value(&mut nested);
                    },
                    None => {},
                }
            }
        },
        _ => {},
    }
}

/// A member of an object is the first with its name.
pub proof fn members_are_found_by_name(members: Seq<(String, Json)>, name: Seq<char>, at: int)
    requires
        0 <= at <= members.len(),
        at < members.len() ==> members[at].0@ == name,
        forall|i: int| 0 <= i < at ==> (#[trigger] members[i]).0@ != name,
    ensures
        at < members.len() ==> named(members, name) == Some(members[at].1),
        at == members.len() ==> named(members, name) is None,
    decreases members.len(),
{
    if at > 0 {
        assert(members[0].0@ != name);
        members_are_found_by_name(members.drop_first(), name, at - 1);
    }
}

/// Only an object has members, and a value is read as what it is and as nothing else.
pub proof fn values_are_read_as_what_they_are(value: Json, name: Seq<char>)
    ensures
        value matches Json::Object(members) ==> value.member(name) == named(members@, name),
        !(value is Object) ==> value.member(name) is None,
        value matches Json::Text(text) ==> value.text() == Some(text@),
        !(value is Text) ==> value.text() is None,
        value matches Json::Number { signed, unsigned } ==> value.signed() == signed
            && value.unsigned() == unsigned,
        !(value is Number) ==> value.signed() is None && value.unsigned() is None,
        value matches Json::Array(values) ==> value.elements() == Some(values@),
        !(value is Array) ==> value.elements() is None,
        value.member(name) is None ==> value.member_text(name) is None && value.member_unsigned(
            name,
        ) is None && value.member_is_optional_text(name),
        value.member(name) matches Some(member) ==> value.member_text(name) == member.text()
            && value.member_unsigned(name) == member.unsigned() && value.member_is_optional_text(
            name,
        ) == (member is Null || member is Text),
{
}

} // verus!
