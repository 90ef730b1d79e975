//! The status record received from the assistant: a JSON object with
//! optional members, decoded into a typed record with one optional field per
//! member that the overlay reads.

use vstd::prelude::*;
use crate::text::same_text;

verus! {

/// What a JSON member holds, as far as the overlay reads it.
pub enum MemberValue {
    Flag(bool),
    Text(Seq<char>),
    Other,
}

/// A top-level member value of a decoded JSON document.
pub enum JsonField {
    Flag(bool),
    Text(String),
    Other,
}

impl View for JsonField {
    type V = MemberValue;

    open spec fn view(&self) -> MemberValue {
        match self {
            JsonField::Flag(b) => MemberValue::Flag(*b),
            JsonField::Text(s) => MemberValue::Text(s@),
            JsonField::Other => MemberValue::Other,
        }
    }
}

pub open spec fn members_view(ms: Seq<(String, JsonField)>) -> Seq<(Seq<char>, MemberValue)> {
    ms.map_values(|m: (String, JsonField)| (m.0@, m.1@))
}

/// The top-level members that serde_json decodes from `doc`: `None` when
/// `doc` is not a JSON document, no members when it is one but not an object.
pub uninterp spec fn json_members(doc: Seq<u8>) -> Option<Seq<(Seq<char>, MemberValue)>>;

/// Relies on `serde_json::from_slice` into a `serde_json::Value`: it fails
/// exactly on bytes that are not one JSON document, and otherwise the result
/// depends on the bytes alone. An object's members are handed out in the
/// map's order, a string or a bool as such and any other value as `Other`.
#[verifier::external_body]
fn parse_members(doc: &[u8]) -> (r: Option<Vec<(String, JsonField)>>)
    ensures
        match r {
            None => json_members(doc@) is None,
            Some(ms) => json_members(doc@) == Some(members_view(ms@)),
        },
{
    match serde_json::from_slice::<serde_json::Value>(doc) {
        Ok(serde_json::Value::Object(map)) => Some(map.into_iter().map(|(k, v)| (k, match v {
            serde_json::Value::Bool(b) => JsonField::Flag(b),
            serde_json::Value::String(s) => JsonField::Text(s),
            _ => JsonField::Other,
        })).collect()),
        Ok(_) => Some(Vec::new()),
        Err(_) => None,
    }
}

/// The value of the first member named `key`.
pub open spec fn member(ms: Seq<(Seq<char>, MemberValue)>, key: Seq<char>) -> Option<MemberValue>
    decreases ms.len(),
{
    if ms.len() == 0 {
        None
    } else if ms[0].0 == key {
        Some(ms[0].1)
    } else {
        member(ms.drop_first(), key)
    }
}

/// The member named `key` when it holds a string.
pub open spec fn text_member(ms: Seq<(Seq<char>, MemberValue)>, key: Seq<char>) -> Option<Seq<char>> {
    match member(ms, key) {
        Some(MemberValue::Text(t)) => Some(t),
        _ => None,
    }
}

/// The member named `key` when it holds a bool.
pub open spec fn flag_member(ms: Seq<(Seq<char>, MemberValue)>, key: Seq<char>) -> Option<bool> {
    match member(ms, key) {
        Some(MemberValue::Flag(b)) => Some(b),
        _ => None,
    }
}

/// One status message of the assistant, each member optional.
pub struct StatusRecord {
    pub status: Option<String>,
    pub text: Option<String>,
    pub message: Option<String>,
    pub is_listening: Option<bool>,
    pub is_speaking: Option<bool>,
    pub wake_word_detected: Option<bool>,
    pub overlay_visible: Option<bool>,
    pub action: Option<String>,
    pub show_overlay: Option<bool>,
    pub hide_overlay: Option<bool>,
}

/// The mathematical content of a [`StatusRecord`].
pub struct StatusRecordView {
    pub status: Option<Seq<char>>,
    pub text: Option<Seq<char>>,
    pub message: Option<Seq<char>>,
    pub is_listening: Option<bool>,
    pub is_speaking: Option<bool>,
    pub wake_word_detected: Option<bool>,
    pub overlay_visible: Option<bool>,
    pub action: Option<Seq<char>>,
    pub show_overlay: Option<bool>,
    pub hide_overlay: Option<bool>,
}

pub open spec fn opt_view(o: Option<String>) -> Option<Seq<char>> {
    match o {
        Some(s) => Some(s@),
        None => None,
    }
}

impl View for StatusRecord {
    type V = StatusRecordView;

    open spec fn view(&self) -> StatusRecordView {
        StatusRecordView {
            status: opt_view(self.status),
            text: opt_view(self.text),
            message: opt_view(self.message),
            is_listening: self.is_listening,
            is_speaking: self.is_speaking,
            wake_word_detected: self.wake_word_detected,
            overlay_visible: self.overlay_visible,
            action: opt_view(self.action),
            show_overlay: self.show_overlay,
            hide_overlay: self.hide_overlay,
        }
    }
}

/// The record that a list of JSON members describes.
pub open spec fn record_of_members(ms: Seq<(Seq<char>, MemberValue)>) -> StatusRecordView {
    StatusRecordView {
        status: text_member(ms, "status"@),
        text: text_member(ms, "text"@),
        message: text_member(ms, "message"@),
        is_listening: flag_member(ms, "is_listening"@),
        is_speaking: flag_member(ms, "is_speaking"@),
        wake_word_detected: flag_member(ms, "wake_word_detected"@),
        overlay_visible: flag_member(ms, "overlay_visible"@),
        action: text_member(ms, "action"@),
        show_overlay: flag_member(ms, "show_overlay"@),
        hide_overlay: flag_member(ms, "hide_overlay"@),
    }
}

proof fn lemma_member_step(ms: Seq<(Seq<char>, MemberValue)>, i: int, key: Seq<char>)
    requires
        0 <= i < ms.len(),
    ensures
        member(ms.subrange(i, ms.len() as int), key) == (if ms[i].0 == key {
            Some(ms[i].1)
        } else {
            member(ms.subrange(i + 1, ms.len() as int), key)
        }),
{
    assert(ms.subrange(i, ms.len() as int).drop_first() =~= ms.subrange(i + 1, ms.len() as int));
}

fn find_member<'a>(ms: &'a Vec<(String, JsonField)>, key: &str) -> (r: Option<&'a JsonField>)
    ensures
        match r {
            Some(f) => member(members_view(ms@), key@) == Some(f@),
            None => member(members_view(ms@), key@) is None,
        },
{
    let ghost mv = members_view(ms@);
    let mut i: usize = 0;
    assert(mv.subrange(0, mv.len() as int) =~= mv);
    while i < ms.len()
        invariant
            mv == members_view(ms@),
            i <= ms@.len(),
            member(mv, key@) == member(mv.subrange(i as int, mv.len() as int), key@),
        decreases ms.len() - i,
    {
        proof {
            lemma_member_step(mv, i as int, key@);
        }
        if same_text(ms[i].0.as_str(), key) {
            return Some(&ms[i].1);
        }
        i = i + 1;
    }
    assert(mv.subrange(i as int, mv.len() as int).len() == 0);
    None
}

fn text_field(ms: &Vec<(String, JsonField)>, key: &str) -> (r: Option<String>)
    ensures
        opt_view(r) == text_member(members_view(ms@), key@),
{
    match find_member(ms, key) {
        Some(JsonField::Text(s)) => Some(s.clone()),
        _ => None,
    }
}

fn flag_field(ms: &Vec<(String, JsonField)>, key: &str) -> (r: Option<bool>)
    ensures
        r == flag_member(members_view(ms@), key@),
{
    match find_member(ms, key) {
        Some(JsonField::Flag(b)) => Some(*b),
        _ => None,
    }
}

impl StatusRecord {
    /// The record described by decoded JSON members; a member of another
    /// type than the field's counts as missing.
    pub fn from_members(ms: &Vec<(String, JsonField)>) -> (r: StatusRecord)
        ensures
            r@ == record_of_members(members_view(ms@)),
    {
        StatusRecord {
            status: text_field(ms, "status"),
            text: text_field(ms, "text"),
            message: text_field(ms, "message"),
            is_listening: flag_field(ms, "is_listening"),
            is_speaking: flag_field(ms, "is_speaking"),
            wake_word_detected: flag_field(ms, "wake_word_detected"),
            overlay_visible: flag_field(ms, "overlay_visible"),
            action: text_field(ms, "action"),
            show_overlay: flag_field(ms, "show_overlay"),
            hide_overlay: flag_field(ms, "hide_overlay"),
        }
    }

    /// Decodes one JSON document; `None` when the bytes are not JSON.
    pub fn from_json(doc: &[u8]) -> (r: Option<StatusRecord>)
        ensures
            match json_members(doc@) {
                None => r is None,
                Some(ms) => r is Some && r->0@ == record_of_members(ms),
            },
    {
        match parse_members(doc) {
            Some(ms) => Some(StatusRecord::from_members(&ms)),
            None => None,
        }
    }
}

} // verus!
