//! JSON texts, as `serde_json` reads and writes them.
use vstd::prelude::*;

use crate::records::CloudStateError;

verus! {

/// Whether `serde_json::from_str` reads a JSON value from the text.
pub uninterp spec fn json_valid(text: Seq<char>) -> bool;

/// The payloads that the library itself writes.
pub open spec fn own_payload(text: Seq<char>) -> bool {
    ||| text == "{}"@
    ||| text == "{\"reason\":\"thread_writer_lease_lost\"}"@
    ||| text == "{\"reason\":\"thread_writer_lease_expired\"}"@
    ||| text == "{\"reason\":\"owner_lease_lost\"}"@
    ||| text == "{\"reason\":\"owner_lease_expired\"}"@
}

/// `serde_json::from_str::<serde_json::Value>`, of which only success is told.
///
/// Trusted: whether it succeeds depends on the text alone, and it does so on the few
/// objects that the library writes itself.
#[verifier::external_body]
fn reads_as_json(text: &str) -> (r: bool)
    ensures
        r == json_valid(text@),
        own_payload(text@) ==> r,
{
    serde_json::from_str::<serde_json::Value>(text).is_ok()
}

/// A member of a JSON object; its value is kept as JSON.
#[derive(Debug, PartialEq, Eq)]
pub struct JsonMember {
    pub name: String,
    pub json: String,
}

/// What a [`JsonMember`] says.
#[verifier::ext_equal]
pub struct JsonMemberView {
    pub name: Seq<char>,
    pub json: Seq<char>,
}

impl DeepView for JsonMember {
    type V = JsonMemberView;

    open spec fn deep_view(&self) -> JsonMemberView {
        JsonMemberView { name: self.name@, json: self.json@ }
    }
}

/// The members that `serde_json` reads from an object, if the JSON is one.
pub uninterp spec fn json_members(json: Seq<char>) -> Option<Seq<JsonMemberView>>;

/// The JSON of the elements that `serde_json` reads from an array, if the JSON is one.
pub uninterp spec fn json_elements(json: Seq<char>) -> Option<Seq<Seq<char>>>;

/// The text that `serde_json` reads from a string, if the JSON is one.
pub uninterp spec fn json_text(json: Seq<char>) -> Option<Seq<char>>;

/// `serde_json::from_str` into a map from names to `serde_json::value::RawValue`, with `None`
/// for an error.
///
/// Trusted: what it reads depends on the JSON alone. The value of a member is a part of the
/// text between the braces, so it is shorter than the text. An empty object has no members.
#[verifier::external_body]
pub(crate) fn read_members(json: &str) -> (r: Option<Vec<JsonMember>>)
    ensures
        r.deep_view() == json_members(json@),
        r matches Some(members) ==> forall|i: int|
            0 <= i < members@.len() ==> (#[trigger] members@[i]).json@.len() < json@.len(),
        json@ == "{}"@ ==> r.deep_view() == Some(Seq::<JsonMemberView>::empty()),
{
    serde_json::from_str::<std::collections::BTreeMap<String, Box<serde_json::value::RawValue>>>(json)
        .ok()
        .map(|members| {
            members
                .into_iter()
                .map(|(name, value)| JsonMember { name, json: value.get().to_owned() })
                .collect()
        })
}

/// `serde_json::from_str` into a list of `serde_json::value::RawValue`, with `None` for an
/// error.
///
/// Trusted: what it reads depends on the JSON alone. An element is a part of the text between
/// the brackets, so it is shorter than the text.
#[verifier::external_body]
pub(crate) fn read_elements(json: &str) -> (r: Option<Vec<String>>)
    ensures
        r.deep_view() == json_elements(json@),
        r matches Some(elements) ==> forall|i: int|
            0 <= i < elements@.len() ==> (#[trigger] elements@[i])@.len() < json@.len(),
{
    serde_json::from_str::<Vec<Box<serde_json::value::RawValue>>>(json)
        .ok()
        .map(|elements| elements.into_iter().map(|value| value.get().to_owned()).collect())
}

/// `serde_json::from_str::<String>`, with `None` for an error.
///
/// Trusted: what it reads depends on the JSON alone.
#[verifier::external_body]
pub(crate) fn read_text(json: &str) -> (r: Option<String>)
    ensures
        r.deep_view() == json_text(json@),
{
    serde_json::from_str::<String>(json).ok()
}

/// The text that the first member of that name holds, from the `from`-th member on.
pub open spec fn member_text(members: Seq<JsonMemberView>, name: Seq<char>, from: int) -> Option<
    Seq<char>,
>
    decreases members.len() - from,
{
    if from >= members.len() {
        None
    } else if members[from].name == name {
        json_text(members[from].json)
    } else {
        member_text(members, name, from + 1)
    }
}

/// The reason that the payload of a cancellation holds, if there is one.
pub open spec fn json_reason(payload_inline: Seq<char>) -> Option<Seq<char>> {
    match json_members(payload_inline) {
        Some(members) => member_text(members, "reason"@, 0),
        None => None,
    }
}

/// What `serde_json` writes for an object whose one member is a text with the name `reason`.
pub uninterp spec fn reason_json(reason: Seq<char>) -> Seq<char>;

/// `serde_json::Value::to_string` on an object whose one member is a text with the name
/// `reason`.
///
/// Trusted: what it writes depends on the text alone, reads as JSON again, and has the text
/// as its `reason` when it is read.
#[verifier::external_body]
fn write_reason(reason: String) -> (r: String)
    ensures
        r@ == reason_json(reason@),
        json_valid(r@),
        json_reason(r@) == Some(reason@),
{
    let mut object = serde_json::Map::new();
    object.insert("reason".to_owned(), serde_json::Value::String(reason));
    serde_json::Value::Object(object).to_string()
}

/// What `serde_json` writes for an array of texts.
pub uninterp spec fn texts_json(texts: Seq<Seq<char>>) -> Seq<char>;

/// The texts that `serde_json` reads from an array of texts, if it is one.
pub uninterp spec fn json_texts(text: Seq<char>) -> Option<Seq<Seq<char>>>;

/// `serde_json::to_string` on a list of texts, with the error as text.
///
/// Trusted: it does not fail on texts, what it writes depends on them alone, and
/// `serde_json::from_str` reads them back.
#[verifier::external_body]
fn write_texts(texts: &Vec<String>) -> (r: Result<String, String>)
    ensures
        r is Ok,
        r->Ok_0@ == texts_json(texts.deep_view()),
        json_texts(r->Ok_0@) == Some(texts.deep_view()),
{
    serde_json::to_string(texts).map_err(|err| err.to_string())
}

/// `serde_json::from_str::<Vec<String>>`, with `None` for an error.
///
/// Trusted: what it reads depends on the text alone.
#[verifier::external_body]
fn read_texts(text: &str) -> (r: Option<Vec<String>>)
    ensures
        r.deep_view() == json_texts(text@),
{
    serde_json::from_str::<Vec<String>>(text).ok()
}

/// What is kept of the payload references of an append, to tell a repeated append by.
pub fn append_payload_refs_fingerprint(payload_refs: &Vec<String>) -> (r: Result<
    String,
    CloudStateError,
>)
    ensures
        r is Ok,
        r->Ok_0@ == texts_json(payload_refs.deep_view()),
        json_texts(r->Ok_0@) == Some(payload_refs.deep_view()),
{
    match write_texts(payload_refs) {
        Ok(text) => Ok(text),
        Err(error) => {
            let mut message = "failed to serialize append payload refs: ".to_owned();
            message.append(error.as_str());
            Err(CloudStateError::Storage(message))
        },
    }
}

/// Whether a fingerprint was made from the given payload references.
pub fn append_payload_refs_match(fingerprint: &str, payload_refs: &Vec<String>) -> (r: bool)
    ensures
        r == (json_texts(fingerprint@) == Some(payload_refs.deep_view())),
{
    match read_texts(fingerprint) {
        Some(existing) => crate::text::same_texts(&existing, payload_refs),
        None => false,
    }
}

/// Accepts a JSON text as the payload of an event.
pub fn validate_event_payload_inline(payload_inline: &str) -> (r: Result<(), CloudStateError>)
    ensures
        json_valid(payload_inline@) ==> r == Ok::<(), CloudStateError>(()),
        !json_valid(payload_inline@) ==> r == Err::<(), CloudStateError>(
            CloudStateError::InvalidEventPayload,
        ),
        own_payload(payload_inline@) ==> json_valid(payload_inline@),
{
    if reads_as_json(payload_inline) {
        Ok(())
    } else {
        Err(CloudStateError::InvalidEventPayload)
    }
}

/// Accepts a JSON text as a configuration or as metadata.
pub fn validate_json_payload(payload_inline: &str) -> (r: Result<(), CloudStateError>)
    ensures
        r is Ok <==> json_valid(payload_inline@),
        r matches Err(error) ==> error.deep_view() == crate::records::ErrorView::Storage(
            "payload must be valid JSON"@,
        ),
{
    if reads_as_json(payload_inline) {
        Ok(())
    } else {
        Err(CloudStateError::Storage("payload must be valid JSON".to_owned()))
    }
}

/// The payload of a cancellation: an object that holds the reason, if there is one.
pub fn cancel_payload(reason: Option<String>) -> (r: String)
    ensures
        match reason {
            Some(reason) => r@ == reason_json(reason@) && json_reason(r@) == Some(reason@),
            None => r@ == "{}"@,
        },
        reason is Some ==> json_valid(r@),
{
    match reason {
        Some(reason) => write_reason(reason),
        None => "{}".to_owned(),
    }
}

/// The reason that the payload of a cancellation holds, if there is one.
pub fn cancel_reason(payload_inline: &str) -> (r: Option<String>)
    ensures
        r.deep_view() == json_reason(payload_inline@),
        payload_inline@ == "{}"@ ==> r is None,
{
    let members = match read_members(payload_inline) {
        Some(members) => members,
        None => return None,
    };
    let ghost shown = members.deep_view();
    for i in 0..members.len()
        invariant
            shown == members.deep_view(),
            member_text(shown, "reason"@, 0) == member_text(shown, "reason"@, i as int),
            json_members(payload_inline@) == Some(shown),
            payload_inline@ == "{}"@ ==> shown.len() == 0,
    {
        if members[i].name == "reason".to_owned() {
            return read_text(members[i].json.as_str());
        }
    }
    None
}

/// Members under other names do not matter to what is found under a name.
proof fn other_members_are_passed(members: Seq<JsonMemberView>, name: Seq<char>, from: int, to: int)
    requires
        0 <= from <= to <= members.len(),
        forall|i: int| from <= i < to ==> (#[trigger] members[i]).name != name,
    ensures
        member_text(members, name, from) == member_text(members, name, to),
    decreases to - from,
{
    if from < to {
        other_members_are_passed(members, name, from + 1, to);
    }
}

/// The reason of a cancellation is the text of the first member of the payload that is named
/// `reason`. A payload that is no object, or has no such member, holds none.
pub proof fn reason_is_the_member_of_that_name(payload_inline: Seq<char>, i: int)
    ensures
        json_members(payload_inline) is None ==> json_reason(payload_inline) is None,
        json_members(payload_inline) matches Some(members) ==> {
            &&& (forall|j: int|
                0 <= j < members.len() ==> (#[trigger] members[j]).name != "reason"@)
                ==> json_reason(payload_inline) is None
            &&& 0 <= i < members.len() && members[i].name == "reason"@ && (forall|j: int|
                0 <= j < i ==> (#[trigger] members[j]).name != "reason"@) ==> json_reason(
                payload_inline,
            ) == json_text(members[i].json)
        },
{
    if let Some(members) = json_members(payload_inline) {
        let all = members.len() as int;
        if forall|j: int| 0 <= j < all ==> (#[trigger] members[j]).name != "reason"@ {
            other_members_are_passed(members, "reason"@, 0, all);
        }
        if 0 <= i < all && (forall|j: int|
            0 <= j < i ==> (#[trigger] members[j]).name != "reason"@) {
            other_members_are_passed(members, "reason"@, 0, i);
        }
    }
}

} // verus!
