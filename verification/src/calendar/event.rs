//! One calendar event, with its times in whole seconds since the start of
//! 1970 in universal time.

use vstd::prelude::*;

verus! {

/// What a calendar component says of the event it describes; `None` where it
/// leaves a property out.
#[derive(Debug, PartialEq, Eq)]
pub struct Component {
    pub summary: Option<String>,
    pub description: Option<String>,
    pub dtstart: Option<i64>,
    pub dtend: Option<i64>,
}

/// One calendar event.
#[derive(Debug, PartialEq, Eq)]
pub struct Event {
    pub summary: String,
    pub description: String,
    pub start: i64,
    pub end: i64,
}

/// The text of a property, empty where the property is left out.
pub open spec fn text_or_empty(text: Option<String>) -> Seq<char> {
    match text {
        Some(s) => s@,
        None => Seq::empty(),
    }
}

/// The time of a property, the start of 1970 where the property is left out.
pub open spec fn time_or_epoch(time: Option<i64>) -> i64 {
    match time {
        Some(t) => t,
        None => 0,
    }
}

impl Event {
    /// Reads an event off a component. A text that is left out reads as
    /// empty, a time that is left out as the start of 1970.
    pub fn from_component(component: Component) -> (event: Self)
        ensures
            event.summary@ == text_or_empty(component.summary),
            event.description@ == text_or_empty(component.description),
            event.start == time_or_epoch(component.dtstart),
            event.end == time_or_epoch(component.dtend),
    {
        let summary = match component.summary {
            Some(s) => s,
            None => String::new(),
        };
        let description = match component.description {
            Some(s) => s,
            None => String::new(),
        };
        let start = match component.dtstart {
            Some(t) => t,
            None => 0,
        };
        let end = match component.dtend {
            Some(t) => t,
            None => 0,
        };
        Event { summary, description, start, end }
    }

    /// How long the event lasts, in seconds.
    pub open spec fn duration(&self) -> int {
        self.end - self.start
    }

    /// The same event moved to start at `t`: it lasts as long as before.
    pub fn starting_at(self, t: i64) -> (moved: Self)
        requires
            i64::MIN <= t + self.duration() <= i64::MAX,
        ensures
            moved.start == t,
            moved.duration() == self.duration(),
            moved.summary == self.summary,
            moved.description == self.description,
    {
        let end: i128 = t as i128 + (self.end as i128 - self.start as i128);
        Event { summary: self.summary, description: self.description, start: t, end: end as i64 }
    }
}

} // verus!
