//! The pieces of text that the printed lines are made of.

use crate::command::{Recording, Replay, Streaming, VirtualCamera};
use vstd::prelude::*;

verus! {

/// The text that std's `Debug` formatting gives for a string: the string
/// between double quotes, with escapes where std puts them.
pub uninterp spec fn debug_text(s: Seq<char>) -> Seq<char>;

/// Formats `s` with `{:?}`, that is by std's `<str as Debug>::fmt`. The
/// contract claims, unproved, that the text depends on `s` alone.
#[verifier::external_body]
pub(crate) fn quoted(s: &str) -> (out: String)
    ensures
        out@ == debug_text(s@),
{
    format!("{:?}", s)
}

/// The compact text that `serde_json` gives for a JSON object made by
/// inserting the first key with its string value, then the second.
pub uninterp spec fn json_object_text(
    first_key: Seq<char>,
    first_value: Seq<char>,
    second_key: Seq<char>,
    second_value: Seq<char>,
) -> Seq<char>;

/// Builds a `serde_json::Map` by two calls of `insert`, each with a
/// `Value::String`, and formats the `Value::Object` of it with `to_string`.
/// The contract claims, unproved, that the text depends on the four
/// arguments alone.
#[verifier::external_body]
pub(crate) fn json_object(
    first_key: &str,
    first_value: &str,
    second_key: &str,
    second_value: &str,
) -> (out: String)
    ensures
        out@ == json_object_text(first_key@, first_value@, second_key@, second_value@),
{
    let mut object = serde_json::Map::new();
    object.insert(first_key.to_string(), serde_json::Value::String(first_value.to_string()));
    object.insert(second_key.to_string(), serde_json::Value::String(second_value.to_string()));
    serde_json::Value::Object(object).to_string()
}

/// `head` followed by `tail`.
pub fn joined(head: &str, tail: &str) -> (out: String)
    ensures
        out@ == head@ + tail@,
{
    let mut out = String::from_str(head);
    out.append(tail);
    out
}

/// A truth value as `{:?}` prints it.
pub open spec fn flag_text(flag: bool) -> Seq<char> {
    if flag {
        "true"@
    } else {
        "false"@
    }
}

/// A truth value as `{:?}` prints it.
pub fn flag_name(flag: bool) -> (out: &'static str)
    ensures
        out@ == flag_text(flag),
{
    if flag {
        "true"
    } else {
        "false"
    }
}

impl Recording {
    /// The variant's name.
    pub open spec fn name_text(self) -> Seq<char> {
        match self {
            Recording::Start => "Start"@,
            Recording::Stop => "Stop"@,
            Recording::Toggle => "Toggle"@,
        }
    }

    /// The variant's name, as `{:?}` prints it.
    pub fn name(&self) -> (out: &'static str)
        ensures
            out@ == self.name_text(),
    {
        match self {
            Recording::Start => "Start",
            Recording::Stop => "Stop",
            Recording::Toggle => "Toggle",
        }
    }
}

impl Streaming {
    /// The variant's name.
    pub open spec fn name_text(self) -> Seq<char> {
        match self {
            Streaming::Start => "Start"@,
            Streaming::Stop => "Stop"@,
            Streaming::Toggle => "Toggle"@,
        }
    }

    /// The variant's name, as `{:?}` prints it.
    pub fn name(&self) -> (out: &'static str)
        ensures
            out@ == self.name_text(),
    {
        match self {
            Streaming::Start => "Start",
            Streaming::Stop => "Stop",
            Streaming::Toggle => "Toggle",
        }
    }
}

impl VirtualCamera {
    /// The variant's name.
    pub open spec fn name_text(self) -> Seq<char> {
        match self {
            VirtualCamera::Start => "Start"@,
            VirtualCamera::Stop => "Stop"@,
            VirtualCamera::Toggle => "Toggle"@,
        }
    }

    /// The variant's name, as `{:?}` prints it.
    pub fn name(&self) -> (out: &'static str)
        ensures
            out@ == self.name_text(),
    {
        match self {
            VirtualCamera::Start => "Start",
            VirtualCamera::Stop => "Stop",
            VirtualCamera::Toggle => "Toggle",
        }
    }
}

impl Replay {
    /// The variant's name.
    pub open spec fn name_text(self) -> Seq<char> {
        match self {
            Replay::Start => "Start"@,
            Replay::Stop => "Stop"@,
            Replay::Toggle => "Toggle"@,
            Replay::Save => "Save"@,
        }
    }

    /// The variant's name, as `{:?}` prints it.
    pub fn name(&self) -> (out: &'static str)
        ensures
            out@ == self.name_text(),
    {
        match self {
            Replay::Start => "Start",
            Replay::Stop => "Stop",
            Replay::Toggle => "Toggle",
            Replay::Save => "Save",
        }
    }
}

} // verus!
