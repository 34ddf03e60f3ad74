//! Tags on calendars and events, and where their taggers are cached.

use vstd::prelude::*;
use vstd::string::*;

verus! {

/// A label on an object with the users who put it there.
#[derive(Debug)]
pub struct TagDetails {
    pub label: String,
    pub taggers: Vec<String>,
    pub taggers_count: usize,
    pub relationship: bool,
}

/// The taggers of one label on a calendar.
#[derive(Debug)]
pub struct TagCalendar(pub Vec<String>);

/// The taggers of one label on an event.
#[derive(Debug)]
pub struct TagEvent(pub Vec<String>);

impl TagCalendar {
    /// The taggers.
    pub fn as_ref(&self) -> (r: &[String])
        ensures
            r@ == self.0@,
    {
        self.0.as_slice()
    }

    /// The prefix of the cache keys under which the taggers of calendars live.
    pub fn prefix() -> (p: String)
        ensures
            p@ == "Calendar:Taggers"@,
    {
        String::from_str("Calendar:Taggers")
    }

    /// The leading segments of the cache keys under which the tags of
    /// calendars live.
    pub fn get_tag_prefix() -> (parts: [&'static str; 2])
        ensures
            parts[0]@ == "Calendars"@,
            parts[1]@ == "Tag"@,
    {
        ["Calendars", "Tag"]
    }
}

impl TagEvent {
    /// The taggers.
    pub fn as_ref(&self) -> (r: &[String])
        ensures
            r@ == self.0@,
    {
        self.0.as_slice()
    }

    /// The prefix of the cache keys under which the taggers of events live.
    pub fn prefix() -> (p: String)
        ensures
            p@ == "Event:Taggers"@,
    {
        String::from_str("Event:Taggers")
    }

    /// The leading segments of the cache keys under which the tags of
    /// events live.
    pub fn get_tag_prefix() -> (parts: [&'static str; 2])
        ensures
            parts[0]@ == "Events"@,
            parts[1]@ == "Tag"@,
    {
        ["Events", "Tag"]
    }
}

} // verus!
