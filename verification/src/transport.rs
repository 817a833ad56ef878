//! What the reader of the worker's output does with each line.

use vstd::prelude::*;
use vstd::string::*;
use crate::ipc::{
    classify, classify_line, error_field, present, u64_field, Classified, ErrorView, Field,
    JsonRpcError, LineKind, ResponseView,
};
use crate::json::JsonText;
use crate::pending::PendingCalls;

verus! {

/// What is to be done about one line of the worker's output.
#[derive(Debug)]
pub enum LineAction<H> {
    /// Nothing: the line is blank, malformed or answers no call in flight.
    Skip,
    /// Complete the caller behind `handle` with `outcome`: the result, or
    /// the error that the worker reported, with its code, message and data.
    Complete { handle: H, outcome: Result<JsonText, JsonRpcError> },
    /// Publish `payload` to the subscribers of `event`.
    Emit { event: String, payload: JsonText },
}

/// What a `LineAction` holds.
pub enum ActionView<H> {
    Skip,
    Complete { handle: H, outcome: Result<Seq<char>, ErrorView> },
    Emit { event: Seq<char>, payload: Seq<char> },
}

impl<H> View for LineAction<H> {
    type V = ActionView<H>;

    open spec fn view(&self) -> ActionView<H> {
        match self {
            LineAction::Skip => ActionView::Skip,
            LineAction::Complete { handle, outcome } => ActionView::Complete {
                handle: *handle,
                outcome: match outcome {
                    Ok(v) => Ok(v@),
                    Err(e) => Err(e@),
                },
            },
            LineAction::Emit { event, payload } => ActionView::Emit {
                event: event@,
                payload: payload@,
            },
        }
    }
}

/// `s` without its leading and trailing white space.
pub uninterp spec fn trimmed(s: Seq<char>) -> Seq<char>;

/// Calls `str::trim`, which gives the part of `s` between its leading and
/// its trailing white space: never longer than `s`, and empty where `s` is.
#[verifier::external_body]
fn trim_line(s: &str) -> (r: &str)
    ensures
        r@ == trimmed(s@),
        r@.len() <= s@.len(),
        s@.len() == 0 ==> r@.len() == 0,
{
    s.trim()
}

/// The event name for a notification's method: every `.` becomes `:`.
pub open spec fn event_name(method: Seq<char>) -> Seq<char> {
    Seq::new(
        method.len(),
        |i: int|
            if method[i] == '.' {
                ':'
            } else {
                method[i]
            },
    )
}

/// The event name for a notification's method.
pub fn translate(method: &str) -> (r: String)
    ensures
        r@ == event_name(method@),
{
    let n: usize = method.unicode_len();
    let mut r: String = String::new();
    let mut i: usize = 0;
    while i < n
        invariant
            i <= n,
            n == method@.len(),
            r@ =~= event_name(method@).subrange(0, i as int),
        decreases n - i,
    {
        let ghost before: Seq<char> = r@;
        let c: char = method.get_char(i);
        if c == '.' {
            proof {
                reveal_strlit(":");
            }
            r.append(":");
            assert(r@ =~= before.push(':'));
        } else {
            r.append(method.substring_char(i, i + 1));
            assert(method@.subrange(i as int, i + 1) =~= seq![c]);
            assert(r@ =~= before.push(c));
        }
        assert(event_name(method@).subrange(0, i + 1) =~= event_name(method@).subrange(
            0,
            i as int,
        ).push(event_name(method@)[i as int]));
        i += 1;
    }
    assert(r@ =~= event_name(method@));
    r
}

/// What a response delivers to its caller: the reported error where there
/// is one, else the result, `null` standing for none.
pub open spec fn outcome_of(r: ResponseView) -> Result<Seq<char>, ErrorView> {
    match r.error {
        Some(e) => Err(e),
        None => Ok(
            match r.result {
                Some(v) => v,
                None => "null"@,
            },
        ),
    }
}

/// The table after a classified line, and what is to be done about it.
pub open spec fn dispatched<H>(m: Map<u64, H>, kind: LineKind) -> (Map<u64, H>, ActionView<H>) {
    match kind {
        LineKind::Response(r) => match r.id {
            Some(id) => if m.contains_key(id) {
                (m.remove(id), ActionView::Complete { handle: m[id], outcome: outcome_of(r) })
            } else {
                (m, ActionView::Skip)
            },
            None => (m, ActionView::Skip),
        },
        LineKind::Notification(n) => (
            m,
            ActionView::Emit {
                event: event_name(n.method),
                payload: match n.params {
                    Some(p) => p,
                    None => "null"@,
                },
            },
        ),
        LineKind::Malformed => (m, ActionView::Skip),
    }
}

/// The table after the line `line`, and what is to be done about it.
pub open spec fn handled<H>(m: Map<u64, H>, line: Seq<char>) -> (Map<u64, H>, ActionView<H>) {
    if trimmed(line).len() == 0 {
        (m, ActionView::Skip)
    } else {
        dispatched(m, classify(line))
    }
}

/// Acts on a classified line: a response takes its call out of the table
/// for completion, and every notification is to be published, with `null`
/// as payload where it has no parameters.
pub fn dispatch<H>(table: &mut PendingCalls<H>, kind: Classified) -> (action: LineAction<H>)
    ensures
        (final(table)@, action@) == dispatched(old(table)@, kind@),
{
    match kind {
        Classified::Response(response) => match response.id {
            Some(id) => match table.resolve(id) {
                Some(handle) => {
                    let outcome: Result<JsonText, JsonRpcError> = match response.error {
                        Some(e) => Err(e),
                        None => Ok(
                            match response.result {
                                Some(v) => v,
                                None => JsonText::null(),
                            },
                        ),
                    };
                    LineAction::Complete { handle, outcome }
                },
                None => {
                    assert(table@ =~= old(table)@);
                    LineAction::Skip
                },
            },
            None => LineAction::Skip,
        },
        Classified::Notification(notification) => LineAction::Emit {
            event: translate(notification.method.as_str()),
            payload: match notification.params {
                Some(p) => p,
                None => JsonText::null(),
            },
        },
        Classified::Malformed => LineAction::Skip,
    }
}

/// Whether `line` holds nothing but white space. An empty line does.
pub fn is_blank(line: &str) -> (b: bool)
    ensures
        b == (trimmed(line@).len() == 0),
        line@.len() == 0 ==> b,
{
    trim_line(line).is_empty()
}

/// Acts on one line of the worker's output. Blank lines are passed over;
/// an empty line is one.
pub fn handle_line<H>(table: &mut PendingCalls<H>, line: &str) -> (action: LineAction<H>)
    ensures
        (final(table)@, action@) == handled(old(table)@, line@),
        line@.len() == 0 ==> action@ is Skip && final(table)@ == old(table)@,
{
    if is_blank(line) {
        LineAction::Skip
    } else {
        dispatch(table, classify_line(line))
    }
}

/// A response to a call in flight completes that call, with the handle
/// it was registered under and the outcome the response carries, and takes
/// it out of the table.
pub proof fn lemma_response_completes_call<H>(
    m: Map<u64, H>,
    id: u64,
    handle: H,
    r: ResponseView,
)
    requires
        r.id == Some(id),
    ensures
        dispatched(m.insert(id, handle), LineKind::Response(r)) == (
            m.remove(id),
            ActionView::Complete { handle, outcome: outcome_of(r) },
        ),
{
    assert(m.insert(id, handle).remove(id) =~= m.remove(id));
}

/// A line that is not blank, carries the identifier of a call in flight and
/// no error completes that call with the result it carries, `null` where
/// it carries none, and takes the call out of the table.
pub proof fn lemma_answer_completes_call<H>(m: Map<u64, H>, id: u64, handle: H, line: Seq<char>)
    requires
        trimmed(line).len() != 0,
        u64_field(line, "id"@) == Field::Valid(id),
        error_field(line) is Absent,
    ensures
        handled(m.insert(id, handle), line) == (
            m.remove(id),
            ActionView::Complete {
                handle,
                outcome: Ok(
                    match present(line, "result"@) {
                        Some(v) => v,
                        None => "null"@,
                    },
                ),
            },
        ),
{
    assert(m.insert(id, handle).remove(id) =~= m.remove(id));
}

/// A response for an identifier that has expired is passed over and leaves
/// the table as it is.
pub proof fn lemma_late_response_is_skipped<H>(m: Map<u64, H>, id: u64, r: ResponseView)
    requires
        r.id == Some(id),
    ensures
        dispatched(m.remove(id), LineKind::Response(r)) == (m.remove(id), ActionView::<H>::Skip),
{
}

/// The same response a second time is passed over and leaves the table as
/// the first left it.
pub proof fn lemma_duplicate_response_is_skipped<H>(m: Map<u64, H>, r: ResponseView)
    ensures
        dispatched(dispatched(m, LineKind::Response(r)).0, LineKind::Response(r)) == (
            dispatched(m, LineKind::Response(r)).0,
            ActionView::<H>::Skip,
        ),
{
}

/// A line without an `id` member completes no call and leaves the table as
/// it is, whatever else it holds.
pub proof fn lemma_line_without_id_resolves_nothing<H>(m: Map<u64, H>, line: Seq<char>)
    requires
        present(line, "id"@) is None,
    ensures
        handled(m, line).0 == m,
        !(handled(m, line).1 is Complete),
{
}

} // verus!
