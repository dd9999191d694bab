//! The record that a settlement leaves in the execution trace.

use vstd::prelude::*;
use crate::text::{decimal_digits, is_one_line, lemma_decimal_digits_are_digits};
use crate::json::{json_number, json_string, json_string_text};

verus! {

/// What one settlement measured: the storage in use before and after the
/// operation, the deposit attached to it, and an optional note.
#[derive(Debug, Clone, PartialEq, Eq)]
pub struct SetInfoLog {
    pub initial_storage: u64,
    pub current_storage: u64,
    pub attached_deposit: u128,
    pub memo: Option<String>,
}

/// An event: the standard it follows, that standard's version, and the data.
#[derive(Debug, Clone, PartialEq, Eq)]
pub struct EventLog {
    pub standard: String,
    pub version: String,
    pub event: SetInfoLog,
}

/// Mathematical value of a [`SetInfoLog`].
pub struct SetInfoLogView {
    pub initial_storage: u64,
    pub current_storage: u64,
    pub attached_deposit: u128,
    pub memo: Option<Seq<char>>,
}

/// Mathematical value of an [`EventLog`].
pub struct EventLogView {
    pub standard: Seq<char>,
    pub version: Seq<char>,
    pub event: SetInfoLogView,
}

impl View for SetInfoLog {
    type V = SetInfoLogView;

    open spec fn view(&self) -> SetInfoLogView {
        SetInfoLogView {
            initial_storage: self.initial_storage,
            current_storage: self.current_storage,
            attached_deposit: self.attached_deposit,
            memo: match self.memo {
                Some(memo) => Some(memo@),
                None => None,
            },
        }
    }
}

impl View for EventLog {
    type V = EventLogView;

    open spec fn view(&self) -> EventLogView {
        EventLogView { standard: self.standard@, version: self.version@, event: self.event@ }
    }
}

/// The JSON object of an event whose values are already encoded: the
/// standard, its version, the name of the event, the three measurements and,
/// only where there is one, the memo. No whitespace separates the members.
pub open spec fn event_json_text(
    standard: Seq<char>,
    version: Seq<char>,
    initial_storage: Seq<char>,
    current_storage: Seq<char>,
    attached_deposit: Seq<char>,
    memo: Option<Seq<char>>,
) -> Seq<char> {
    "{\"standard\":"@ + standard + ",\"version\":"@ + version
        + ",\"event\":\"SetInfoLog\",\"initial_storage\":"@ + initial_storage
        + ",\"current_storage\":"@ + current_storage + ",\"attached_deposit\":"@
        + attached_deposit + match memo {
        Some(memo) => ",\"memo\":"@ + memo,
        None => Seq::empty(),
    } + "}"@
}

/// A trace line: the marker that announces an event, then the event's JSON.
pub open spec fn event_line_text(json: Seq<char>) -> Seq<char> {
    "EVENT_JSON:"@ + json
}

impl EventLogView {
    /// The JSON object of this event.
    pub open spec fn json(self) -> Seq<char> {
        event_json_text(
            json_string_text(self.standard),
            json_string_text(self.version),
            decimal_digits(self.event.initial_storage as nat),
            decimal_digits(self.event.current_storage as nat),
            decimal_digits(self.event.attached_deposit as nat),
            match self.event.memo {
                Some(memo) => Some(json_string_text(memo)),
                None => None,
            },
        )
    }

    /// The line that this event adds to the trace.
    pub open spec fn line(self) -> Seq<char> {
        event_line_text(self.json())
    }
}

/// Says that each encoded value of an event is one line.
pub open spec fn values_are_one_line(
    standard: Seq<char>,
    version: Seq<char>,
    initial_storage: Seq<char>,
    current_storage: Seq<char>,
    attached_deposit: Seq<char>,
    memo: Option<Seq<char>>,
) -> bool {
    &&& is_one_line(standard)
    &&& is_one_line(version)
    &&& is_one_line(initial_storage)
    &&& is_one_line(current_storage)
    &&& is_one_line(attached_deposit)
    &&& memo matches Some(memo) ==> is_one_line(memo)
}

/// Assembles the JSON object of an event from its encoded values. The object
/// is one line if each of the values is.
pub fn event_json(
    standard: &str,
    version: &str,
    initial_storage: &str,
    current_storage: &str,
    attached_deposit: &str,
    memo: Option<&str>,
) -> (json: String)
    ensures
        json@ == event_json_text(
            standard@,
            version@,
            initial_storage@,
            current_storage@,
            attached_deposit@,
            match memo {
                Some(memo) => Some(memo@),
                None => None,
            },
        ),
        values_are_one_line(
            standard@,
            version@,
            initial_storage@,
            current_storage@,
            attached_deposit@,
            match memo {
                Some(memo) => Some(memo@),
                None => None,
            },
        ) ==> is_one_line(json@),
{
    proof {
        reveal_strlit("{\"standard\":");
        reveal_strlit(",\"version\":");
        reveal_strlit(",\"event\":\"SetInfoLog\",\"initial_storage\":");
        reveal_strlit(",\"current_storage\":");
        reveal_strlit(",\"attached_deposit\":");
        reveal_strlit(",\"memo\":");
        reveal_strlit("}");
    }
    let mut json: String = String::from_str("{\"standard\":");
    json.append(standard);
    json.append(",\"version\":");
    json.append(version);
    json.append(",\"event\":\"SetInfoLog\",\"initial_storage\":");
    json.append(initial_storage);
    json.append(",\"current_storage\":");
    json.append(current_storage);
    json.append(",\"attached_deposit\":");
    json.append(attached_deposit);
    match memo {
        Some(memo) => {
            json.append(",\"memo\":");
            json.append(memo);
        },
        None => {},
    }
    json.append("}");
    json
}

/// Puts the event marker in front of an event's JSON.
pub fn event_line(json: &str) -> (line: String)
    ensures
        line@ == event_line_text(json@),
        is_one_line(json@) ==> is_one_line(line@),
{
    proof {
        reveal_strlit("EVENT_JSON:");
    }
    let mut line: String = String::from_str("EVENT_JSON:");
    line.append(json);
    line
}

impl EventLog {
    /// The JSON object of this event, its strings and numbers encoded by
    /// `serde_json`.
    pub fn to_json(&self) -> (json: String)
        ensures
            json@ == self@.json(),
            is_one_line(json@),
    {
        proof {
            lemma_decimal_digits_are_digits(self.event.initial_storage as nat);
            lemma_decimal_digits_are_digits(self.event.current_storage as nat);
            lemma_decimal_digits_are_digits(self.event.attached_deposit as nat);
        }
        let standard: String = json_string(self.standard.as_str());
        let version: String = json_string(self.version.as_str());
        let initial_storage: String = json_number(self.event.initial_storage as u128);
        let current_storage: String = json_number(self.event.current_storage as u128);
        let attached_deposit: String = json_number(self.event.attached_deposit);
        match &self.event.memo {
            Some(memo) => {
                let memo: String = json_string(memo.as_str());
                event_json(
                    standard.as_str(),
                    version.as_str(),
                    initial_storage.as_str(),
                    current_storage.as_str(),
                    attached_deposit.as_str(),
                    Some(memo.as_str()),
                )
            },
            None => event_json(
                standard.as_str(),
                version.as_str(),
                initial_storage.as_str(),
                current_storage.as_str(),
                attached_deposit.as_str(),
                None,
            ),
        }
    }

    /// The line that this event adds to the trace. It is a single line,
    /// whatever the strings of the event hold.
    pub fn to_string(&self) -> (line: String)
        ensures
            line@ == self@.line(),
            is_one_line(line@),
    {
        let json: String = self.to_json();
        event_line(json.as_str())
    }
}

} // verus!
