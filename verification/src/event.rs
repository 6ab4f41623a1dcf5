//! Decoding the host's numeric event ids and choosing the log line that each
//! event is reported with.

use vstd::prelude::*;

verus! {

/// A focus-change event delivered by the host, decoded from its numeric id.
#[derive(Clone, Copy, PartialEq, Eq, Structural, Debug)]
pub enum Event {
    ActivateApp,
    DeactivateApp,
    IconifyApp,
    DeiconifyApp,
    Unknown,
}

/// Severity of a log line.
#[derive(Clone, Copy, PartialEq, Eq, Structural, Debug)]
pub enum LogLevel {
    Info,
    Warning,
}

/// The event that a host event id denotes: ids zero to three are the four
/// focus events, and every other id is unknown.
pub open spec fn spec_event_of_id(id: u32) -> Event {
    if id == 0 {
        Event::ActivateApp
    } else if id == 1 {
        Event::DeactivateApp
    } else if id == 2 {
        Event::IconifyApp
    } else if id == 3 {
        Event::DeiconifyApp
    } else {
        Event::Unknown
    }
}

/// The log message reported for an event.
pub open spec fn spec_message(e: Event) -> Seq<char> {
    match e {
        Event::ActivateApp => "App activated!"@,
        Event::DeactivateApp => "App deactivated!"@,
        Event::IconifyApp => "App iconified!"@,
        Event::DeiconifyApp => "App deiconified!"@,
        Event::Unknown => "Received unknown event!"@,
    }
}

/// The severity at which an event's message is logged: a known event is
/// reported as information, an unknown one as a warning.
pub open spec fn spec_level(e: Event) -> LogLevel {
    match e {
        Event::Unknown => LogLevel::Warning,
        _ => LogLevel::Info,
    }
}

/// Decodes a host event id.
pub fn event_from_id(id: u32) -> (e: Event)
    ensures
        e == spec_event_of_id(id),
{
    match id {
        0 => Event::ActivateApp,
        1 => Event::DeactivateApp,
        2 => Event::IconifyApp,
        3 => Event::DeiconifyApp,
        _ => Event::Unknown,
    }
}

impl Event {
    /// The log message for this event.
    pub fn message(&self) -> (m: &'static str)
        ensures
            m@ == spec_message(*self),
    {
        match self {
            Event::ActivateApp => "App activated!",
            Event::DeactivateApp => "App deactivated!",
            Event::IconifyApp => "App iconified!",
            Event::DeiconifyApp => "App deiconified!",
            Event::Unknown => "Received unknown event!",
        }
    }

    /// The severity this event's message is logged at.
    pub fn level(&self) -> (l: LogLevel)
        ensures
            l == spec_level(*self),
    {
        match self {
            Event::Unknown => LogLevel::Warning,
            _ => LogLevel::Info,
        }
    }
}

/// Law: the mapping from events to log messages is one to one — each event has
/// exactly one log message, and distinct events have distinct messages.
pub proof fn lemma_message_injective(a: Event, b: Event)
    ensures
        spec_message(a) == spec_message(b) ==> a == b,
{
    reveal_strlit("App activated!");
    reveal_strlit("App deactivated!");
    reveal_strlit("App iconified!");
    reveal_strlit("App deiconified!");
    reveal_strlit("Received unknown event!");
    assert("App activated!"@.len() == 14);
    assert("App deactivated!"@.len() == 16);
    assert("App iconified!"@.len() == 14);
    assert("App deiconified!"@.len() == 16);
    assert("Received unknown event!"@.len() == 23);
    assert("App activated!"@[4] == 'a');
    assert("App iconified!"@[4] == 'i');
    assert("App deactivated!"@[6] == 'a');
    assert("App deiconified!"@[6] == 'i');
}

/// Law: every event id outside the four known ones decodes to the unknown
/// event, so all such ids share the one generic message, logged as a warning.
pub proof fn lemma_unrecognized_id(id: u32)
    requires
        4 <= id,
    ensures
        spec_event_of_id(id) == Event::Unknown,
        spec_message(spec_event_of_id(id)) == spec_message(Event::Unknown),
        spec_level(spec_event_of_id(id)) == LogLevel::Warning,
{
}

} // verus!
