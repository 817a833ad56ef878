//! The message codec: request identifiers, the request, response and
//! notification envelopes, and the classification of an incoming line.

use vstd::prelude::*;
use vstd::string::*;
use crate::json::{
    as_i64, as_string, as_u64, decimal, i64_text, json_of, json_quote, lemma_decimal_single_line,
    member, quoted, signed_decimal, single_line, u64_text, JsonText,
};

verus! {

/// The source of request identifiers. Each supervisor owns one.
#[derive(Clone, Copy, Debug)]
pub struct IdCounter {
    next: u64,
}

/// The identifier issued `k` steps after `first`.
pub open spec fn issued(first: u64, k: nat) -> u64 {
    ((first as nat + k) % 0x1_0000_0000_0000_0000) as u64
}

impl IdCounter {
    /// The identifier that the next request will get.
    pub closed spec fn upcoming(&self) -> u64 {
        self.next
    }

    /// A counter whose first identifier is 1.
    pub fn new() -> (c: IdCounter)
        ensures
            c.upcoming() == 1,
    {
        IdCounter { next: 1 }
    }
}

/// Hands out the upcoming identifier and moves the counter one step on.
pub fn next_id(counter: &mut IdCounter) -> (id: u64)
    ensures
        id == old(counter).upcoming(),
        final(counter).upcoming() == issued(old(counter).upcoming(), 1),
{
    let id: u64 = counter.next;
    if id == u64::MAX {
        counter.next = 0;
    } else {
        counter.next = id + 1;
    }
    id
}

/// Stepping the counter once more from the `k`-th identifier gives the
/// `k + 1`-th.
pub proof fn lemma_issued_step(first: u64, k: nat)
    ensures
        issued(issued(first, k), 1) == issued(first, k + 1),
{
}

/// Identifiers grow strictly in the order of issue, as long as the counter
/// has not run past the largest 64-bit value.
pub proof fn lemma_issued_increasing(first: u64, i: nat, j: nat)
    requires
        i < j,
        first + j <= u64::MAX,
    ensures
        issued(first, i) < issued(first, j),
{
}

/// Two identifiers issued fewer than 2^64 steps apart differ.
pub proof fn lemma_issued_distinct(first: u64, i: nat, j: nat)
    requires
        i < j,
        j - i < 0x1_0000_0000_0000_0000,
    ensures
        issued(first, i) != issued(first, j),
{
}

/// An outgoing call.
#[derive(Debug)]
pub struct JsonRpcRequest {
    pub jsonrpc: String,
    pub method: String,
    pub params: Option<JsonText>,
    pub id: u64,
}

/// The wire text of a request, without the line terminator. The `params`
/// member is left out where there are none.
pub open spec fn request_text(
    jsonrpc: Seq<char>,
    method: Seq<char>,
    params: Option<Seq<char>>,
    id: u64,
) -> Seq<char> {
    "{\"jsonrpc\":"@ + quoted(jsonrpc) + ",\"method\":"@ + quoted(method) + (match params {
        Some(p) => ",\"params\":"@ + p,
        None => Seq::empty(),
    }) + ",\"id\":"@ + decimal(id as nat) + "}"@
}

impl JsonRpcRequest {
    /// The wire text of this request, without the line terminator.
    pub open spec fn text(&self) -> Seq<char> {
        request_text(self.jsonrpc@, self.method@, json_of(self.params), self.id)
    }

    /// A request for `method` under the counter's upcoming identifier.
    pub fn new(method: &str, params: Option<JsonText>, counter: &mut IdCounter) -> (r: Self)
        ensures
            r.jsonrpc@ == "2.0"@,
            r.method@ == method@,
            r.params == params,
            r.id == old(counter).upcoming(),
            final(counter).upcoming() == issued(old(counter).upcoming(), 1),
    {
        let id: u64 = next_id(counter);
        JsonRpcRequest {
            jsonrpc: String::from_str("2.0"),
            method: String::from_str(method),
            params,
            id,
        }
    }

    /// The request as one line: its wire text, which holds no line feed,
    /// followed by a single line feed.
    pub fn to_line(&self) -> (line: String)
        ensures
            line@ == self.text().push('\n'),
            single_line(self.text()),
    {
        proof {
            reveal_strlit("{\"jsonrpc\":");
            reveal_strlit(",\"method\":");
            reveal_strlit(",\"params\":");
            reveal_strlit(",\"id\":");
            reveal_strlit("}");
            reveal_strlit("\n");
            lemma_decimal_single_line(self.id as nat);
        }
        let mut line: String = String::from_str("{\"jsonrpc\":");
        let version: String = json_quote(self.jsonrpc.as_str());
        line.append(version.as_str());
        line.append(",\"method\":");
        let method: String = json_quote(self.method.as_str());
        line.append(method.as_str());
        assert(single_line(line@));
        match &self.params {
            Some(p) => {
                line.append(",\"params\":");
                line.append(p.as_str());
            },
            None => {},
        }
        assert(single_line(line@));
        line.append(",\"id\":");
        let id: String = u64_text(self.id);
        line.append(id.as_str());
        line.append("}");
        assert(line@ =~= self.text());
        line.append("\n");
        assert(line@ =~= self.text().push('\n'));
        line
    }
}

/// Builds the request for `method` and `params` under the next identifier
/// and encodes it as one line.
pub fn encode_request(counter: &mut IdCounter, method: &str, params: Option<JsonText>) -> (r: (
    u64,
    String,
))
    ensures
        r.0 == old(counter).upcoming(),
        final(counter).upcoming() == issued(old(counter).upcoming(), 1),
        r.1@ == request_text("2.0"@, method@, json_of(params), r.0).push('\n'),
        single_line(request_text("2.0"@, method@, json_of(params), r.0)),
{
    let request: JsonRpcRequest = JsonRpcRequest::new(method, params, counter);
    let line: String = request.to_line();
    (request.id, line)
}

/// The error a worker reports in a response.
#[derive(Debug)]
pub struct JsonRpcError {
    pub code: i64,
    pub message: String,
    pub data: Option<JsonText>,
}

/// What a `JsonRpcError` holds.
pub struct ErrorView {
    pub code: i64,
    pub message: Seq<char>,
    pub data: Option<Seq<char>>,
}

impl View for JsonRpcError {
    type V = ErrorView;

    open spec fn view(&self) -> ErrorView {
        ErrorView { code: self.code, message: self.message@, data: json_of(self.data) }
    }
}

/// The one-line description of a reported error: code, then message.
pub open spec fn error_text(code: i64, message: Seq<char>) -> Seq<char> {
    "RPC Error "@ + signed_decimal(code as int) + ": "@ + message
}

impl JsonRpcError {
    /// The description that a caller sees in place of the result.
    pub fn to_text(&self) -> (r: String)
        ensures
            r@ == error_text(self.code, self.message@),
    {
        let mut r: String = String::from_str("RPC Error ");
        let code: String = i64_text(self.code);
        r.append(code.as_str());
        r.append(": ");
        r.append(self.message.as_str());
        assert(r@ =~= error_text(self.code, self.message@));
        r
    }
}

/// An incoming answer to a call.
#[derive(Debug)]
pub struct JsonRpcResponse {
    pub jsonrpc: String,
    pub id: Option<u64>,
    pub result: Option<JsonText>,
    pub error: Option<JsonRpcError>,
}

/// What a `JsonRpcResponse` holds.
pub struct ResponseView {
    pub jsonrpc: Seq<char>,
    pub id: Option<u64>,
    pub result: Option<Seq<char>>,
    pub error: Option<ErrorView>,
}

impl View for JsonRpcResponse {
    type V = ResponseView;

    open spec fn view(&self) -> ResponseView {
        ResponseView {
            jsonrpc: self.jsonrpc@,
            id: self.id,
            result: json_of(self.result),
            error: match self.error {
                Some(e) => Some(e@),
                None => None,
            },
        }
    }
}

/// An incoming message that answers no call.
#[derive(Debug)]
pub struct JsonRpcNotification {
    pub method: String,
    pub params: Option<JsonText>,
}

/// What a `JsonRpcNotification` holds.
pub struct NotificationView {
    pub method: Seq<char>,
    pub params: Option<Seq<char>>,
}

impl View for JsonRpcNotification {
    type V = NotificationView;

    open spec fn view(&self) -> NotificationView {
        NotificationView { method: self.method@, params: json_of(self.params) }
    }
}

/// What one incoming line turned out to be.
#[derive(Debug)]
pub enum Classified {
    Response(JsonRpcResponse),
    Notification(JsonRpcNotification),
    Malformed,
}

/// What a `Classified` holds.
pub enum LineKind {
    Response(ResponseView),
    Notification(NotificationView),
    Malformed,
}

impl View for Classified {
    type V = LineKind;

    open spec fn view(&self) -> LineKind {
        match self {
            Classified::Response(r) => LineKind::Response(r@),
            Classified::Notification(n) => LineKind::Notification(n@),
            Classified::Malformed => LineKind::Malformed,
        }
    }
}

/// A member of an object, decoded at some type: not there (or `null`),
/// there and well-formed, or there and not of that type.
#[derive(Debug)]
pub enum Field<T> {
    Absent,
    Valid(T),
    Invalid,
}

impl<T: View> View for Field<T> {
    type V = Field<T::V>;

    open spec fn view(&self) -> Field<T::V> {
        match self {
            Field::Absent => Field::Absent,
            Field::Valid(t) => Field::Valid(t@),
            Field::Invalid => Field::Invalid,
        }
    }
}

/// Member `key` of `doc`, with `null` counted as no member.
pub open spec fn present(doc: Seq<char>, key: Seq<char>) -> Option<Seq<char>> {
    match member(doc, key) {
        Some(t) => if t == "null"@ {
            None
        } else {
            Some(t)
        },
        None => None,
    }
}

/// Member `key` of `doc` as an unsigned integer.
pub open spec fn u64_field(doc: Seq<char>, key: Seq<char>) -> Field<u64> {
    match present(doc, key) {
        None => Field::Absent,
        Some(t) => match as_u64(t) {
            Some(n) => Field::Valid(n),
            None => Field::Invalid,
        },
    }
}

/// Member `key` of `doc` as a signed integer.
pub open spec fn i64_field(doc: Seq<char>, key: Seq<char>) -> Field<i64> {
    match present(doc, key) {
        None => Field::Absent,
        Some(t) => match as_i64(t) {
            Some(n) => Field::Valid(n),
            None => Field::Invalid,
        },
    }
}

/// Member `key` of `doc` as a string.
pub open spec fn string_field(doc: Seq<char>, key: Seq<char>) -> Field<Seq<char>> {
    match present(doc, key) {
        None => Field::Absent,
        Some(t) => match as_string(t) {
            Some(s) => Field::Valid(s),
            None => Field::Invalid,
        },
    }
}

/// Member `error` of `doc` as a reported error: it needs an integer `code`
/// and a string `message`, and may carry `data`.
pub open spec fn error_field(doc: Seq<char>) -> Field<ErrorView> {
    match present(doc, "error"@) {
        None => Field::Absent,
        Some(e) => match (i64_field(e, "code"@), string_field(e, "message"@)) {
            (Field::Valid(code), Field::Valid(message)) => Field::Valid(
                ErrorView { code, message, data: present(e, "data"@) },
            ),
            _ => Field::Invalid,
        },
    }
}

/// The classification of a line by its decoded members. A usable `id`
/// makes it a response, provided that `error`, where present, is
/// well-formed. Without an `id` a string `method` makes it a notification.
/// Everything else is malformed.
pub open spec fn classify_fields(
    id: Field<u64>,
    jsonrpc: Field<Seq<char>>,
    result: Option<Seq<char>>,
    error: Field<ErrorView>,
    method: Field<Seq<char>>,
    params: Option<Seq<char>>,
) -> LineKind {
    match id {
        Field::Valid(n) => match error {
            Field::Invalid => LineKind::Malformed,
            Field::Valid(e) => LineKind::Response(
                ResponseView { jsonrpc: version_text(jsonrpc), id: Some(n), result, error: Some(e) },
            ),
            Field::Absent => LineKind::Response(
                ResponseView { jsonrpc: version_text(jsonrpc), id: Some(n), result, error: None },
            ),
        },
        Field::Invalid => LineKind::Malformed,
        Field::Absent => match method {
            Field::Valid(m) => LineKind::Notification(NotificationView { method: m, params }),
            _ => LineKind::Malformed,
        },
    }
}

/// The protocol version a response states, empty where it states none.
pub open spec fn version_text(jsonrpc: Field<Seq<char>>) -> Seq<char> {
    match jsonrpc {
        Field::Valid(v) => v,
        _ => Seq::empty(),
    }
}

/// The classification of the line `line`.
pub open spec fn classify(line: Seq<char>) -> LineKind {
    classify_fields(
        u64_field(line, "id"@),
        string_field(line, "jsonrpc"@),
        present(line, "result"@),
        error_field(line),
        string_field(line, "method"@),
        present(line, "params"@),
    )
}

/// Reads member `key` of `doc`, counting `null` as no member.
pub fn read_present(doc: &str, key: &str) -> (r: Option<JsonText>)
    ensures
        json_of(r) == present(doc@, key@),
{
    match JsonText::member_of(doc, key) {
        Some(t) => if t.is_null() {
            None
        } else {
            Some(t)
        },
        None => None,
    }
}

/// Reads member `key` of `doc` as an unsigned integer.
pub fn read_u64(doc: &str, key: &str) -> (r: Field<u64>)
    ensures
        r == u64_field(doc@, key@),
{
    match read_present(doc, key) {
        None => Field::Absent,
        Some(t) => match t.to_u64() {
            Some(n) => Field::Valid(n),
            None => Field::Invalid,
        },
    }
}

/// Reads member `key` of `doc` as a signed integer.
pub fn read_i64(doc: &str, key: &str) -> (r: Field<i64>)
    ensures
        r == i64_field(doc@, key@),
{
    match read_present(doc, key) {
        None => Field::Absent,
        Some(t) => match t.to_i64() {
            Some(n) => Field::Valid(n),
            None => Field::Invalid,
        },
    }
}

/// Reads member `key` of `doc` as a string.
pub fn read_string(doc: &str, key: &str) -> (r: Field<String>)
    ensures
        r@ == string_field(doc@, key@),
{
    match read_present(doc, key) {
        None => Field::Absent,
        Some(t) => match t.to_text() {
            Some(s) => Field::Valid(s),
            None => Field::Invalid,
        },
    }
}

/// Reads member `error` of `doc` as a reported error.
pub fn read_error(doc: &str) -> (r: Field<JsonRpcError>)
    ensures
        r@ == error_field(doc@),
{
    match read_present(doc, "error") {
        None => Field::Absent,
        Some(e) => {
            let code: Field<i64> = read_i64(e.as_str(), "code");
            let message: Field<String> = read_string(e.as_str(), "message");
            match (code, message) {
                (Field::Valid(code), Field::Valid(message)) => {
                    let data: Option<JsonText> = read_present(e.as_str(), "data");
                    Field::Valid(JsonRpcError { code, message, data })
                },
                _ => Field::Invalid,
            }
        },
    }
}

/// Classifies a line whose members have been decoded.
pub fn classify_decoded(
    id: Field<u64>,
    jsonrpc: Field<String>,
    result: Option<JsonText>,
    error: Field<JsonRpcError>,
    method: Field<String>,
    params: Option<JsonText>,
) -> (c: Classified)
    ensures
        c@ == classify_fields(id@, jsonrpc@, json_of(result), error@, method@, json_of(params)),
{
    match id {
        Field::Valid(n) => {
            let version: String = match jsonrpc {
                Field::Valid(v) => v,
                _ => String::new(),
            };
            match error {
                Field::Invalid => Classified::Malformed,
                Field::Valid(e) => Classified::Response(
                    JsonRpcResponse { jsonrpc: version, id: Some(n), result, error: Some(e) },
                ),
                Field::Absent => Classified::Response(
                    JsonRpcResponse { jsonrpc: version, id: Some(n), result, error: None },
                ),
            }
        },
        Field::Invalid => Classified::Malformed,
        Field::Absent => match method {
            Field::Valid(m) => Classified::Notification(JsonRpcNotification { method: m, params }),
            _ => Classified::Malformed,
        },
    }
}

/// Classifies one incoming line as a response, a notification or malformed.
pub fn classify_line(line: &str) -> (c: Classified)
    ensures
        c@ == classify(line@),
{
    let id: Field<u64> = read_u64(line, "id");
    let jsonrpc: Field<String> = read_string(line, "jsonrpc");
    let result: Option<JsonText> = read_present(line, "result");
    let error: Field<JsonRpcError> = read_error(line);
    let method: Field<String> = read_string(line, "method");
    let params: Option<JsonText> = read_present(line, "params");
    classify_decoded(id, jsonrpc, result, error, method, params)
}

/// A line without an `id` member (or with `id` set to `null`) is never a
/// response; with a string `method` it is a notification.
pub proof fn lemma_no_id_is_no_response(line: Seq<char>)
    requires
        present(line, "id"@) is None,
    ensures
        !(classify(line) is Response),
        string_field(line, "method"@) is Valid ==> classify(line) is Notification,
        !(string_field(line, "method"@) is Valid) ==> classify(line) is Malformed,
{
}

/// A line is a response exactly when its `id` is an unsigned integer and
/// its `error`, if any, is well-formed; the response then carries that
/// identifier.
pub proof fn lemma_response_iff(line: Seq<char>)
    ensures
        classify(line) is Response <==> (u64_field(line, "id"@) is Valid && !(error_field(
            line,
        ) is Invalid)),
        classify(line) matches LineKind::Response(r) ==> r.id == Some(
            u64_field(line, "id"@)->Valid_0,
        ),
{
}

} // verus!
