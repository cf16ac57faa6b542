//! What the library reads of a message from the adapter: the identifier
//! that ties a reply to its command, the marks of an event and of an error,
//! and the error's message.

use crate::failure::Failure;
use crate::model::optional_text;
use crate::text::{chars_of, same_text};
use crate::wire::{as_number, as_text, json_member, json_parse, json_text, json_u64, member, parse_value};
use vstd::prelude::*;

verus! {

/// The members of a message that the library acts on.
#[derive(Debug)]
pub struct Envelope {
    /// The member `id`, where it is an unsigned number.
    pub id: Option<u64>,
    /// The member `event`, where it is a text.
    pub event: Option<String>,
    /// The member `type`, where it is a text.
    pub kind: Option<String>,
    /// The member `message`, where it is a text.
    pub message: Option<String>,
}

/// The view of an [`Envelope`].
pub ghost struct EnvelopeView {
    pub id: Option<u64>,
    pub event: Option<Seq<char>>,
    pub kind: Option<Seq<char>>,
    pub message: Option<Seq<char>>,
}

impl View for Envelope {
    type V = EnvelopeView;

    open spec fn view(&self) -> EnvelopeView {
        EnvelopeView {
            id: self.id,
            event: optional_text(self.event),
            kind: optional_text(self.kind),
            message: optional_text(self.message),
        }
    }
}

/// The text under a key of a value, where there is one.
pub open spec fn text_member(value: serde_json::Value, key: Seq<char>) -> Option<Seq<char>> {
    match json_member(value, key) {
        Some(m) => json_text(m),
        None => None,
    }
}

/// The unsigned number under a key of a value, where there is one.
pub open spec fn number_member(value: serde_json::Value, key: Seq<char>) -> Option<u64> {
    match json_member(value, key) {
        Some(m) => json_u64(m),
        None => None,
    }
}

/// The envelope of a value.
pub open spec fn envelope_of(value: serde_json::Value) -> EnvelopeView {
    EnvelopeView {
        id: number_member(value, "id"@),
        event: text_member(value, "event"@),
        kind: text_member(value, "type"@),
        message: text_member(value, "message"@),
    }
}

/// The envelope of a line of text: that of the value it holds, or `None`
/// where the line is not JSON.
pub open spec fn envelope_of_line(line: Seq<char>) -> Option<EnvelopeView> {
    match json_parse(line) {
        Some(value) => Some(envelope_of(value)),
        None => None,
    }
}

/// The text under a key of a value, where there is one.
pub fn read_text(value: &serde_json::Value, key: &str) -> (text: Option<String>)
    ensures
        optional_text(text) == text_member(*value, key@),
{
    match member(value, key) {
        Some(m) => match as_text(m) {
            Some(t) => Some(t.to_owned()),
            None => None,
        },
        None => None,
    }
}

/// The unsigned number under a key of a value, where there is one.
pub fn read_number(value: &serde_json::Value, key: &str) -> (number: Option<u64>)
    ensures
        number == number_member(*value, key@),
{
    match member(value, key) {
        Some(m) => as_number(m),
        None => None,
    }
}

impl Envelope {
    /// Reads the envelope of a value.
    pub fn of_value(value: &serde_json::Value) -> (envelope: Envelope)
        ensures
            envelope@ == envelope_of(*value),
    {
        Envelope {
            id: read_number(value, "id"),
            event: read_text(value, "event"),
            kind: read_text(value, "type"),
            message: read_text(value, "message"),
        }
    }

    /// Reads the envelope of a line of text, or `None` where the line is
    /// not JSON.
    pub fn of_line(line: &str) -> (envelope: Option<Envelope>)
        ensures
            match envelope {
                Some(e) => envelope_of_line(line@) == Some(e@),
                None => envelope_of_line(line@) is None,
            },
    {
        match parse_value(line) {
            Some(value) => Some(Envelope::of_value(&value)),
            None => None,
        }
    }

    /// Whether the message announces that the adapter is ready.
    pub fn announces_ready(&self) -> (ready: bool)
        ensures
            ready == is_ready_signal(self@),
    {
        match &self.event {
            Some(event) => {
                let event_chars = chars_of(event.as_str());
                let ready_chars = chars_of("ready");
                same_text(&event_chars, &ready_chars)
            },
            None => false,
        }
    }

    /// Whether the message reports an error of the adapter.
    pub fn reports_error(&self) -> (error: bool)
        ensures
            error == is_error_report(self@),
    {
        match &self.kind {
            Some(kind) => {
                let kind_chars = chars_of(kind.as_str());
                let error_chars = chars_of("error");
                same_text(&kind_chars, &error_chars)
            },
            None => false,
        }
    }

    /// The failure that the message reports, or `None` where it reports
    /// none. An error without a message of its own is an unknown error.
    pub fn reported_failure(&self) -> (failure: Option<Failure>)
        ensures
            failure is Some <==> is_error_report(self@),
            failure matches Some(f) ==> f matches Failure::Logical(text) && text@ == error_text(
                self@,
            ),
    {
        if self.reports_error() {
            let text = match &self.message {
                Some(message) => message.clone(),
                None => "Unknown error".to_owned(),
            };
            Some(Failure::Logical(text))
        } else {
            None
        }
    }
}

/// Whether the envelope is that of a readiness signal: its event is `ready`.
pub open spec fn is_ready_signal(envelope: EnvelopeView) -> bool {
    envelope.event == Some("ready"@)
}

/// Whether the envelope is that of an error report: its type is `error`.
pub open spec fn is_error_report(envelope: EnvelopeView) -> bool {
    envelope.kind == Some("error"@)
}

/// The message of an error report: its own, or a stand-in where it has none.
pub open spec fn error_text(envelope: EnvelopeView) -> Seq<char> {
    match envelope.message {
        Some(message) => message,
        None => "Unknown error"@,
    }
}

} // verus!
