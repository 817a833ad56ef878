//! JSON text as the transport sees it: documents in compact one-line form,
//! their members, and the scalar decodings the envelopes need.

use vstd::prelude::*;
use vstd::string::*;

verus! {

/// `s` holds no line feed, so it can travel as (part of) one line.
pub open spec fn single_line(s: Seq<char>) -> bool {
    forall|i: int| 0 <= i < s.len() ==> s[i] != '\n'
}

/// The view of an optional string.
pub open spec fn text_of(o: Option<String>) -> Option<Seq<char>> {
    match o {
        Some(s) => Some(s@),
        None => None,
    }
}

/// The JSON string literal, quotes and escapes included, that encodes `s`.
pub uninterp spec fn quoted(s: Seq<char>) -> Seq<char>;

/// The compact rendering of the JSON document `doc`; `None` where `doc` is
/// not one JSON document.
pub uninterp spec fn compact(doc: Seq<char>) -> Option<Seq<char>>;

/// The compact rendering of member `key` of the JSON object `doc`; `None`
/// where `doc` is not a JSON object or has no such member.
pub uninterp spec fn member(doc: Seq<char>, key: Seq<char>) -> Option<Seq<char>>;

/// The unsigned 64-bit integer that the JSON text denotes, if it denotes one.
pub uninterp spec fn as_u64(text: Seq<char>) -> Option<u64>;

/// The signed 64-bit integer that the JSON text denotes, if it denotes one.
pub uninterp spec fn as_i64(text: Seq<char>) -> Option<i64>;

/// The string that the JSON text denotes, if it is a JSON string literal.
pub uninterp spec fn as_string(text: Seq<char>) -> Option<Seq<char>>;

/// The decimal digit for `d`, which is below ten.
pub open spec fn digit(d: nat) -> char {
    if d == 0 {
        '0'
    } else if d == 1 {
        '1'
    } else if d == 2 {
        '2'
    } else if d == 3 {
        '3'
    } else if d == 4 {
        '4'
    } else if d == 5 {
        '5'
    } else if d == 6 {
        '6'
    } else if d == 7 {
        '7'
    } else if d == 8 {
        '8'
    } else {
        '9'
    }
}

/// `n` in decimal, without sign or leading zeros.
pub open spec fn decimal(n: nat) -> Seq<char>
    decreases n,
{
    if n < 10 {
        seq![digit(n)]
    } else {
        decimal(n / 10).push(digit(n % 10))
    }
}

/// `n` in decimal, with a leading minus sign where it is negative.
pub open spec fn signed_decimal(n: int) -> Seq<char> {
    if n < 0 {
        seq!['-'] + decimal((-n) as nat)
    } else {
        decimal(n as nat)
    }
}

/// A decimal rendering never holds a line feed.
pub proof fn lemma_decimal_single_line(n: nat)
    ensures
        single_line(decimal(n)),
    decreases n,
{
    if n >= 10 {
        lemma_decimal_single_line(n / 10);
    }
}

/// Calls `serde_json::to_string` on a string slice. The result is the JSON
/// string literal for `s`; the serializer escapes every control character,
/// so the literal holds no line feed.
#[verifier::external_body]
pub(crate) fn json_quote(s: &str) -> (r: String)
    ensures
        r@ == quoted(s@),
        single_line(r@),
{
    serde_json::to_string(s).unwrap_or_default()
}

/// Calls `serde_json::to_string` on a `u64`, which writes it in decimal.
#[verifier::external_body]
pub(crate) fn u64_text(n: u64) -> (r: String)
    ensures
        r@ == decimal(n as nat),
{
    serde_json::to_string(&n).unwrap_or_default()
}

/// Formats an `i64` with std's `Display`, which writes it in decimal with a
/// minus sign where it is negative.
#[verifier::external_body]
pub(crate) fn i64_text(n: i64) -> (r: String)
    ensures
        r@ == signed_decimal(n as int),
{
    format!("{}", n)
}

/// Parses `doc` with `serde_json::from_str` into a `serde_json::Value` and
/// prints it back with the value's `Display`, the compact form. A failed
/// parse gives `None`. The compact printer writes no white space between
/// tokens and escapes line feeds inside strings.
#[verifier::external_body]
pub(crate) fn json_compact(doc: &str) -> (r: Option<String>)
    ensures
        text_of(r) == compact(doc@),
        r matches Some(t) ==> single_line(t@),
{
    match serde_json::from_str::<serde_json::Value>(doc) {
        Ok(v) => Some(v.to_string()),
        Err(_) => None,
    }
}

/// Parses `doc` with `serde_json::from_str` into a `serde_json::Value`,
/// looks `key` up with `Value::get` and prints the member found in compact
/// form. A failed parse, a document that is no object and a missing member
/// all give `None`.
#[verifier::external_body]
pub(crate) fn json_member(doc: &str, key: &str) -> (r: Option<String>)
    ensures
        text_of(r) == member(doc@, key@),
        r matches Some(t) ==> single_line(t@),
{
    match serde_json::from_str::<serde_json::Value>(doc) {
        Ok(v) => match v.get(key) {
            Some(m) => Some(m.to_string()),
            None => None,
        },
        Err(_) => None,
    }
}

/// Calls `serde_json::from_str` at type `u64`.
#[verifier::external_body]
pub(crate) fn json_u64(text: &str) -> (r: Option<u64>)
    ensures
        r == as_u64(text@),
{
    serde_json::from_str::<u64>(text).ok()
}

/// Calls `serde_json::from_str` at type `i64`.
#[verifier::external_body]
pub(crate) fn json_i64(text: &str) -> (r: Option<i64>)
    ensures
        r == as_i64(text@),
{
    serde_json::from_str::<i64>(text).ok()
}

/// Calls `serde_json::from_str` at type `String`.
#[verifier::external_body]
pub(crate) fn json_string(text: &str) -> (r: Option<String>)
    ensures
        text_of(r) == as_string(text@),
{
    serde_json::from_str::<String>(text).ok()
}

/// A JSON document held as compact text on one line.
#[derive(Debug)]
pub struct JsonText {
    text: String,
}

impl View for JsonText {
    type V = Seq<char>;

    closed spec fn view(&self) -> Seq<char> {
        self.text@
    }
}

/// The view of an optional document.
pub open spec fn json_of(o: Option<JsonText>) -> Option<Seq<char>> {
    match o {
        Some(j) => Some(j@),
        None => None,
    }
}

impl JsonText {
    #[verifier::type_invariant]
    spec fn one_line(&self) -> bool {
        single_line(self.text@)
    }

    /// Reads `doc` as one JSON document and keeps its compact form.
    pub fn parse(doc: &str) -> (r: Option<JsonText>)
        ensures
            json_of(r) == compact(doc@),
    {
        match json_compact(doc) {
            Some(text) => Some(JsonText { text }),
            None => None,
        }
    }

    /// The document `null`.
    pub fn null() -> (r: JsonText)
        ensures
            r@ == "null"@,
    {
        proof {
            reveal_strlit("null");
        }
        JsonText { text: String::from_str("null") }
    }

    /// Whether this is the document `null`.
    pub fn is_null(&self) -> (b: bool)
        ensures
            b == (self@ == "null"@),
    {
        let null: String = String::from_str("null");
        self.text == null
    }

    /// The text of the document, which holds no line feed.
    pub fn as_str(&self) -> (s: &str)
        ensures
            s@ == self@,
            single_line(s@),
    {
        proof {
            use_type_invariant(self);
        }
        self.text.as_str()
    }

    /// Member `key` of this document, where it is an object that has one.
    pub fn get(&self, key: &str) -> (r: Option<JsonText>)
        ensures
            json_of(r) == member(self@, key@),
    {
        JsonText::member_of(self.text.as_str(), key)
    }

    /// Member `key` of the JSON object written in `doc`.
    pub fn member_of(doc: &str, key: &str) -> (r: Option<JsonText>)
        ensures
            json_of(r) == member(doc@, key@),
    {
        match json_member(doc, key) {
            Some(text) => Some(JsonText { text }),
            None => None,
        }
    }

    /// The unsigned integer this document denotes, if any.
    pub fn to_u64(&self) -> (r: Option<u64>)
        ensures
            r == as_u64(self@),
    {
        json_u64(self.text.as_str())
    }

    /// The signed integer this document denotes, if any.
    pub fn to_i64(&self) -> (r: Option<i64>)
        ensures
            r == as_i64(self@),
    {
        json_i64(self.text.as_str())
    }

    /// The string this document denotes, if it is a string literal.
    pub fn to_text(&self) -> (r: Option<String>)
        ensures
            text_of(r) == as_string(self@),
    {
        json_string(self.text.as_str())
    }

    /// A copy of this document.
    pub fn duplicate(&self) -> (r: JsonText)
        ensures
            r@ == self@,
    {
        proof {
            use_type_invariant(self);
        }
        JsonText { text: self.text.clone() }
    }
}

} // verus!
