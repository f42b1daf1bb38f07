//! The JSON boundary: thin trusted wrappers around serde_json, and the
//! verified extraction of the plain fields the assembler reads.

use crate::raw::{RawActor, RawEvent, RawItem, RawItemView};
use crate::time::{parse_rfc3339, Timestamp};
use vstd::prelude::*;

verus! {

#[verifier::external_type_specification]
#[verifier::external_body]
pub struct ExValue(serde_json::Value);

/// Whether serde_json accepts the text as one well-formed JSON value.
pub uninterp spec fn json_wellformed(s: Seq<char>) -> bool;

/// The fields the assembler reads, as one well-formed JSON text carries
/// them.  serde_json's acceptance and parse result are functions of the
/// text alone, and so is this extraction of them.
pub uninterp spec fn item_of(s: Seq<char>) -> RawItemView;

/// Relies on serde_json::from_str::<Value>: it returns a value exactly
/// where the text is one well-formed JSON value, and both its acceptance
/// and the value are functions of the text alone.  The extraction of the
/// plain fields from that value is [`extract_item`], verified below.
#[verifier::external_body]
pub(crate) fn parse_item(s: &str) -> (r: Option<RawItem>)
    ensures
        r is Some <==> json_wellformed(s@),
        r matches Some(it) ==> it.wf() && it@ == item_of(s@),
{
    match serde_json::from_str::<serde_json::Value>(s) {
        Ok(v) => Some(extract_item(&v)),
        Err(_) => None,
    }
}

/// Relies on serde_json::Value::get: the member of a JSON object under the
/// given key, or `None` for a missing key or a non-object.
#[verifier::external_body]
fn get_field<'a>(v: &'a serde_json::Value, key: &str) -> (r: Option<&'a serde_json::Value>) {
    v.get(key)
}

/// Relies on serde_json::Value::as_str: the text of a JSON string, owned;
/// `None` for any other value.
#[verifier::external_body]
fn as_string(v: &serde_json::Value) -> (r: Option<String>) {
    v.as_str().map(|s| s.to_owned())
}

/// Relies on serde_json::Value::as_u64: the value of a JSON number that is
/// a non-negative integer fitting `u64`; `None` otherwise.
#[verifier::external_body]
fn as_u64(v: &serde_json::Value) -> (r: Option<u64>) {
    v.as_u64()
}

/// Relies on serde_json::Value::as_array: the elements of a JSON array;
/// `None` for any other value.
#[verifier::external_body]
fn as_array<'a>(v: &'a serde_json::Value) -> (r: Option<&'a Vec<serde_json::Value>>) {
    v.as_array()
}

/// Relies on serde_json's Display for Value: the value rendered back as
/// compact JSON text (a string keeps its quotes, an absent value is the
/// caller's business).
#[verifier::external_body]
fn render(v: &serde_json::Value) -> (r: String) {
    v.to_string()
}

/// An actor object's numeric id and declared account type, each absent
/// where the object lacks it or types it otherwise.
fn extract_actor(v: &serde_json::Value) -> (r: RawActor) {
    let id = match get_field(v, "id") {
        Some(f) => as_u64(f),
        None => None,
    };
    let kind = match get_field(v, "type") {
        Some(f) => as_string(f),
        None => None,
    };
    RawActor { id, kind }
}

/// A timestamp field: present only where it is a JSON string that parses
/// as RFC3339.
fn extract_timestamp(v: &serde_json::Value) -> (r: Option<Timestamp>)
    ensures
        r matches Some(t) ==> t.wf(),
{
    match as_string(v) {
        Some(s) => parse_rfc3339(s.as_str()),
        None => None,
    }
}

/// One timeline entry: timestamp, kind tag, the "actor" and "user" members
/// as they stand (which of the two counts is the reducer's rule, under its
/// contract) and the event's own association string.
fn extract_event(v: &serde_json::Value) -> (r: RawEvent)
    ensures
        r.wf(),
{
    let time = match get_field(v, "created_at") {
        Some(f) => extract_timestamp(f),
        None => None,
    };
    let kind = match get_field(v, "event") {
        Some(f) => as_string(f),
        None => None,
    };
    let actor = match get_field(v, "actor") {
        Some(a) => Some(extract_actor(a)),
        None => None,
    };
    let user = match get_field(v, "user") {
        Some(u) => Some(extract_actor(u)),
        None => None,
    };
    let association = match get_field(v, "author_association") {
        Some(f) => as_string(f),
        None => None,
    };
    RawEvent { time, kind, actor, user, association }
}

/// Every plain field the assembler reads, pulled out of one JSON value.
fn extract_item(v: &serde_json::Value) -> (r: RawItem)
    ensures
        r.wf(),
{
    let url = match get_field(v, "html_url") {
        Some(f) => render(f),
        None => "null".to_owned(),
    };
    let node_id = match get_field(v, "node_id") {
        Some(f) => as_string(f),
        None => None,
    };
    let author = match get_field(v, "user") {
        Some(u) => Some(extract_actor(u)),
        None => None,
    };
    let author_association = match get_field(v, "author_association") {
        Some(f) => as_string(f),
        None => None,
    };
    let comments = match get_field(v, "comments") {
        Some(f) => as_u64(f),
        None => None,
    };
    let created_at = match get_field(v, "created_at") {
        Some(f) => extract_timestamp(f),
        None => None,
    };
    let closed_at = match get_field(v, "closed_at") {
        Some(f) => extract_timestamp(f),
        None => None,
    };
    let state_reason = match get_field(v, "state_reason") {
        Some(f) => as_string(f),
        None => None,
    };
    let timeline = match get_field(v, "time_line") {
        Some(f) => match as_array(f) {
            Some(arr) => {
                let mut evs: Vec<RawEvent> = Vec::new();
                let mut i: usize = 0;
                while i < arr.len()
                    invariant
                        0 <= i <= arr@.len(),
                        forall|j: int| 0 <= j < evs@.len() ==> (#[trigger] evs@[j]).wf(),
                    decreases arr@.len() - i,
                {
                    let e = extract_event(&arr[i]);
                    evs.push(e);
                    i = i + 1;
                }
                Some(evs)
            },
            None => None,
        },
        None => None,
    };
    RawItem {
        url,
        node_id,
        author,
        author_association,
        comments,
        created_at,
        closed_at,
        state_reason,
        timeline,
    }
}

} // verus!
