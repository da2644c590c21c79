//! JSON values, as read by `serde_json`, held as plain values.
use vstd::prelude::*;

verus! {

/// A JSON value.
#[derive(Debug)]
pub enum JsonValue {
    /// `null`.
    Null,
    /// `true` or `false`.
    Bool(bool),
    /// A number: its value where it is an integer that fits `i64`, and its
    /// text.
    Number(Option<i64>, String),
    /// A string.
    String(String),
    /// An array.
    Array(Vec<JsonValue>),
    /// An object: its members in the order the parser keeps them (by key).
    Object(Vec<(String, JsonValue)>),
}

/// `serde_json::Value`, the tree that `serde_json` reads a text into; opaque here.
#[verifier::external_type_specification]
#[verifier::external_body]
pub struct ExSerdeValue(serde_json::Value);

/// The value that `serde_json` reads from a text, if the text is valid JSON.
pub uninterp spec fn json_parse(text: Seq<char>) -> Option<JsonValue>;

/// Reads a JSON text with `serde_json::from_str` into `serde_json::Value` and
/// converts the result into a `JsonValue`.
///
/// Claimed: the result is the value that `json_parse` names for the text,
/// `None` where `serde_json` reports an error. What that value is for a given
/// text is not stated here.
#[verifier::external_body]
pub(crate) fn parse_json(text: &str) -> (r: Option<JsonValue>)
    ensures
        r == json_parse(text@),
{
    match serde_json::from_str::<serde_json::Value>(text) {
        Ok(v) => Some(from_serde_value(v)),
        Err(_) => None,
    }
}

/// Converts a `serde_json::Value` variant by variant: an integer number keeps
/// `Number::as_i64` and the number's text, arrays and objects are converted
/// member by member in the order `serde_json` holds them.
///
/// Nothing is claimed: the only caller is `parse_json`, whose own claim names
/// the result.
#[verifier::external_body]
fn from_serde_value(v: serde_json::Value) -> JsonValue {
    match v {
        serde_json::Value::Null => JsonValue::Null,
        serde_json::Value::Bool(b) => JsonValue::Bool(b),
        serde_json::Value::Number(n) => JsonValue::Number(n.as_i64(), n.to_string()),
        serde_json::Value::String(s) => JsonValue::String(s),
        serde_json::Value::Array(a) => JsonValue::Array(a.into_iter().map(from_serde_value).collect()),
        serde_json::Value::Object(o) => JsonValue::Object(
            o.into_iter().map(|(k, x)| (k, from_serde_value(x))).collect(),
        ),
    }
}

/// A JSON value as plain values: what a `JsonValue` holds, texts as
/// character sequences.
pub enum JsonTree {
    /// `null`.
    Null,
    /// `true` or `false`.
    Bool(bool),
    /// A number: its value where it is an integer that fits `i64`, and its
    /// text.
    Number(Option<i64>, Seq<char>),
    /// A string.
    Str(Seq<char>),
    /// An array.
    Array(Seq<JsonTree>),
    /// An object: its members in order.
    Object(Seq<(Seq<char>, JsonTree)>),
}

/// The plain value that a `JsonValue` holds.
pub open spec fn tree_of(v: JsonValue) -> JsonTree
    decreases v,
{
    match v {
        JsonValue::Null => JsonTree::Null,
        JsonValue::Bool(b) => JsonTree::Bool(b),
        JsonValue::Number(n, t) => JsonTree::Number(n, t@),
        JsonValue::String(s) => JsonTree::Str(s@),
        JsonValue::Array(a) => JsonTree::Array(
            Seq::new(
                a@.len(),
                |i: int|
                    if 0 <= i < a@.len() {
                        tree_of(a@[i])
                    } else {
                        JsonTree::Null
                    },
            ),
        ),
        JsonValue::Object(m) => JsonTree::Object(
            Seq::new(
                m@.len(),
                |i: int|
                    if 0 <= i < m@.len() {
                        (m@[i].0@, tree_of(m@[i].1))
                    } else {
                        (Seq::empty(), JsonTree::Null)
                    },
            ),
        ),
    }
}

/// The plain value of an object is its members' keys and plain values, in
/// order.
pub proof fn lemma_object_tree(m: Vec<(String, JsonValue)>)
    ensures
        JsonValue::Object(m)@ == JsonTree::Object(
            m@.map_values(|p: (String, JsonValue)| (p.0@, p.1@)),
        ),
{
    assert(tree_of(JsonValue::Object(m))->Object_0 =~= m@.map_values(
        |p: (String, JsonValue)| (p.0@, p.1@),
    ));
}

/// The plain value of an array is its elements' plain values, in order.
pub proof fn lemma_array_tree(a: Vec<JsonValue>)
    ensures
        JsonValue::Array(a)@ == JsonTree::Array(a@.map_values(|x: JsonValue| x@)),
{
    assert(tree_of(JsonValue::Array(a))->Array_0 =~= a@.map_values(|x: JsonValue| x@));
}

/// A string value.
pub fn json_string(s: &str) -> (v: JsonValue)
    ensures
        v@ == JsonTree::Str(s@),
{
    JsonValue::String(String::from_str(s))
}

/// The number value of a count.
pub open spec fn count_tree(n: nat) -> JsonTree {
    JsonTree::Number(
        if n <= i64::MAX {
            Some(n as i64)
        } else {
            None
        },
        crate::text::decimal(n),
    )
}

/// A number value for a count.
pub fn json_count(n: u64) -> (v: JsonValue)
    ensures
        v@ == count_tree(n as nat),
{
    let t = crate::text::decimal_string(n);
    if n <= 9223372036854775807u64 {
        JsonValue::Number(Some(n as i64), t)
    } else {
        JsonValue::Number(None, t)
    }
}

/// A number value for a signed integer.
pub fn json_signed(n: i64) -> (v: JsonValue)
    ensures
        v@ == JsonTree::Number(Some(n), crate::text::signed_decimal(n as int)),
{
    let mut t = String::new();
    crate::text::push_signed_decimal(&mut t, n);
    assert(t@ =~= crate::text::signed_decimal(n as int));
    JsonValue::Number(Some(n), t)
}

/// A member of an object: its key and value.
pub fn json_member(key: &str, v: JsonValue) -> (m: (String, JsonValue))
    ensures
        m.0@ == key@,
        m.1 == v,
{
    (String::from_str(key), v)
}

/// The value of the first member named `key`.
pub open spec fn first_member(m: Seq<(String, JsonValue)>, key: Seq<char>) -> Option<JsonValue>
    decreases m.len(),
{
    if m.len() == 0 {
        None
    } else if m[0].0@ == key {
        Some(m[0].1)
    } else {
        first_member(m.drop_first(), key)
    }
}

/// The member `key` of an object (the first one of that key); nothing for
/// other values.
pub open spec fn json_get(v: JsonValue, key: Seq<char>) -> Option<JsonValue> {
    match v {
        JsonValue::Object(m) => first_member(m@, key),
        _ => None,
    }
}

/// The text of a string value.
pub open spec fn json_str(v: JsonValue) -> Option<Seq<char>> {
    match v {
        JsonValue::String(s) => Some(s@),
        _ => None,
    }
}

/// The integer of a number value that fits `i64`.
pub open spec fn json_i64(v: JsonValue) -> Option<i64> {
    match v {
        JsonValue::Number(n, _) => n,
        _ => None,
    }
}

/// The boolean of a boolean value.
pub open spec fn json_bool(v: JsonValue) -> Option<bool> {
    match v {
        JsonValue::Bool(b) => Some(b),
        _ => None,
    }
}

/// The texts of the string elements of an array, in order.
pub open spec fn json_strings(a: Seq<JsonValue>) -> Seq<Seq<char>>
    decreases a.len(),
{
    if a.len() == 0 {
        Seq::empty()
    } else {
        let rest = json_strings(a.drop_last());
        match a.last() {
            JsonValue::String(s) => rest.push(s@),
            _ => rest,
        }
    }
}

impl JsonValue {
    /// The member `key` of an object.
    pub fn get(&self, key: &str) -> (r: Option<&JsonValue>)
        ensures
            match r {
                Some(x) => json_get(*self, key@) == Some(*x),
                None => json_get(*self, key@) is None,
            },
    {
        match self {
            JsonValue::Object(m) => {
                let k = String::from_str(key);
                let mut i: usize = 0;
                assert(m@.subrange(0, m@.len() as int) =~= m@);
                while i < m.len()
                    invariant
                        i <= m@.len(),
                        k@ == key@,
                        json_get(*self, key@) == first_member(m@, key@),
                        first_member(m@, key@) == first_member(m@.subrange(i as int, m@.len() as int), key@),
                    decreases m.len() - i,
                {
                    assert(m@.subrange(i as int, m@.len() as int).drop_first() =~= m@.subrange(
                        i + 1,
                        m@.len() as int,
                    ));
                    if m[i].0 == k {
                        assert(m@.subrange(i as int, m@.len() as int)[0] == m@[i as int]);
                        assert(first_member(m@, key@) == Some(m@[i as int].1));
                        return Some(&m[i].1);
                    }
                    i = i + 1;
                }
                None
            },
            _ => None,
        }
    }

    /// The text of a string value.
    pub fn as_str(&self) -> (r: Option<&str>)
        ensures
            match r {
                Some(s) => json_str(*self) == Some(s@),
                None => json_str(*self) is None,
            },
    {
        match self {
            JsonValue::String(s) => Some(s.as_str()),
            _ => None,
        }
    }

    /// The integer of a number value that fits `i64`.
    pub fn as_i64(&self) -> (r: Option<i64>)
        ensures
            r == json_i64(*self),
    {
        match self {
            JsonValue::Number(n, _) => *n,
            _ => None,
        }
    }

    /// The boolean of a boolean value.
    pub fn as_bool(&self) -> (r: Option<bool>)
        ensures
            r == json_bool(*self),
    {
        match self {
            JsonValue::Bool(b) => Some(*b),
            _ => None,
        }
    }

    /// Whether the value is `null`.
    pub fn is_null(&self) -> (b: bool)
        ensures
            b == (*self is Null),
    {
        match self {
            JsonValue::Null => true,
            _ => false,
        }
    }

    /// The elements of an array.
    pub fn as_array(&self) -> (r: Option<&Vec<JsonValue>>)
        ensures
            match *self {
                JsonValue::Array(a) => r == Some(&a),
                _ => r is None,
            },
    {
        match self {
            JsonValue::Array(a) => Some(a),
            _ => None,
        }
    }
}

/// The string elements of an array, in order.
pub fn json_string_elements(a: &Vec<JsonValue>) -> (r: Vec<String>)
    ensures
        r@.map_values(|s: String| s@) == json_strings(a@),
{
    let mut r: Vec<String> = Vec::new();
    let mut i: usize = 0;
    while i < a.len()
        invariant
            i <= a@.len(),
            r@.map_values(|s: String| s@) == json_strings(a@.take(i as int)),
        decreases a.len() - i,
    {
        let ghost before = r@.map_values(|s: String| s@);
        assert(a@.take(i + 1).drop_last() =~= a@.take(i as int));
        match &a[i] {
            JsonValue::String(s) => {
                r.push(s.clone());
                assert(r@.map_values(|s: String| s@) =~= before.push(s@));
            },
            _ => {},
        }
        i = i + 1;
    }
    assert(a@.take(a@.len() as int) =~= a@);
    r
}

impl View for JsonValue {
    type V = JsonTree;

    open spec fn view(&self) -> JsonTree {
        tree_of(*self)
    }
}

/// The text that `serde_json::to_string` writes for a value.
pub uninterp spec fn json_text(v: JsonTree) -> Seq<char>;

/// Writes a value as compact JSON: converts it into `serde_json::Value` and
/// calls `serde_json::to_string`.
///
/// Claimed: the text is what `json_text` names for the value (how
/// `serde_json` writes JSON is not stated here).
#[verifier::external_body]
pub(crate) fn json_to_string(v: &JsonValue) -> (s: String)
    ensures
        s@ == json_text(v@),
{
    serde_json::to_string(&to_serde_value(v)).unwrap_or_default()
}

/// The message (`Display`) of the error that `serde_json::from_str`
/// reports for a text that is not valid JSON.
pub uninterp spec fn json_error_text(text: Seq<char>) -> Seq<char>;

/// Reads a JSON text with `serde_json::from_str` into `serde_json::Value`;
/// on success converts it into a `JsonValue`, on failure gives the error's
/// message (its `Display`).
///
/// Claimed: success exactly where `json_parse` names a value, which is the
/// result; otherwise the message is what `json_error_text` names for the
/// text. What the message says is not stated here.
#[verifier::external_body]
pub(crate) fn parse_json_detailed(text: &str) -> (r: Result<JsonValue, String>)
    ensures
        match r {
            Ok(v) => json_parse(text@) == Some(v),
            Err(e) => json_parse(text@) is None && e@ == json_error_text(text@),
        },
{
    match serde_json::from_str::<serde_json::Value>(text) {
        Ok(v) => Ok(from_serde_value(v)),
        Err(e) => Err(e.to_string()),
    }
}

/// A lower-case hexadecimal digit.
pub open spec fn hex_digit(d: nat) -> char {
    if d < 10 {
        crate::text::digit_char(d)
    } else if d == 10 {
        'a'
    } else if d == 11 {
        'b'
    } else if d == 12 {
        'c'
    } else if d == 13 {
        'd'
    } else if d == 14 {
        'e'
    } else {
        'f'
    }
}

/// How a JSON string writes a character: a backslash before a quote or a
/// backslash, the short escapes for backspace, tab, line feed, form feed
/// and carriage return, `\u00` and two hexadecimal digits for the other
/// control characters below 0x20, any other character as it is.
pub open spec fn json_escape(c: char) -> Seq<char> {
    if c == '"' || c == '\\' {
        seq!['\\', c]
    } else if c == '\u{8}' {
        seq!['\\', 'b']
    } else if c == '\t' {
        seq!['\\', 't']
    } else if c == '\n' {
        seq!['\\', 'n']
    } else if c == '\u{c}' {
        seq!['\\', 'f']
    } else if c == '\r' {
        seq!['\\', 'r']
    } else if (c as nat) < 32 {
        seq!['\\', 'u', '0', '0', hex_digit((c as nat) / 16), hex_digit((c as nat) % 16)]
    } else {
        seq![c]
    }
}

/// A text with each character written as a JSON string writes it.
pub open spec fn json_escaped(s: Seq<char>) -> Seq<char>
    decreases s.len(),
{
    if s.len() == 0 {
        Seq::empty()
    } else {
        json_escaped(s.drop_last()) + json_escape(s.last())
    }
}

/// The JSON string literal that `serde_json::to_string` writes for a text:
/// the text, its characters escaped (see `json_escape`), in double quotes.
pub open spec fn json_quoted(s: Seq<char>) -> Seq<char> {
    seq!['"'] + json_escaped(s) + seq!['"']
}

/// Writes a text as a JSON string literal with `serde_json::to_string`.
///
/// Claimed: the result is the text in double quotes with the escapes of
/// `json_escape`, as `format_escaped_str_contents` and its `ESCAPE` table
/// write them. Writing a `str` into memory does not fail, so the error
/// branch (an empty text) is not taken.
#[verifier::external_body]
pub(crate) fn quote_json(s: &str) -> (r: String)
    ensures
        r@ == json_quoted(s@),
{
    serde_json::to_string(s).unwrap_or_default()
}

/// Converts a `JsonValue` back into a `serde_json::Value`, variant by
/// variant; a number is read back from its text.
///
/// Nothing is claimed: the only caller is `json_to_string`, whose own claim
/// names the result.
#[verifier::external_body]
fn to_serde_value(v: &JsonValue) -> serde_json::Value {
    match v {
        JsonValue::Null => serde_json::Value::Null,
        JsonValue::Bool(b) => serde_json::Value::Bool(*b),
        JsonValue::Number(_, text) => serde_json::from_str(text).unwrap_or(serde_json::Value::Null),
        JsonValue::String(s) => serde_json::Value::String(s.clone()),
        JsonValue::Array(a) => serde_json::Value::Array(a.iter().map(to_serde_value).collect()),
        JsonValue::Object(m) => serde_json::Value::Object(
            m.iter().map(|(k, x)| (k.clone(), to_serde_value(x))).collect(),
        ),
    }
}

} // verus!
