//! Walking the occurrences of the events of a calendar.
//!
//! The calendar itself is read by whoever holds it. A walk says what it needs
//! to know next, takes the answer, and says what follows from it.

pub mod event;

pub use event::Event;

use vstd::prelude::*;

verus! {

/// The span, from now, within which an occurrence counts as upcoming: thirty
/// days, in seconds.
pub const UPCOMING_WINDOW: i64 = 2_592_000;

/// Whether the one occurrence, at `time`, of an event that does not recur is
/// upcoming at `now`: after now, and before the end of the window.
pub open spec fn upcoming(now: i64, time: i64) -> bool {
    now < time < now + UPCOMING_WINDOW
}

/// Tells whether the one occurrence, at `time`, of an event that does not
/// recur is upcoming at `now`.
pub fn is_upcoming(now: i64, time: i64) -> (yes: bool)
    ensures
        yes == upcoming(now, time),
{
    time > now && (time as i128) < now as i128 + UPCOMING_WINDOW as i128
}

/// Where an occurrence of a recurring event lies, seen from now.
#[derive(Debug, Clone, Copy, PartialEq, Eq, Structural)]
pub enum Outlook {
    /// Not after now.
    Past,
    /// After now, and no later than the end of the window.
    Upcoming,
    /// Later than the end of the window. The occurrences of a recurring
    /// event come in order of time, so none that follows is upcoming either.
    Beyond,
}

/// Where an occurrence at `time` of a recurring event lies, seen from `now`.
pub open spec fn outlook(now: i64, time: i64) -> Outlook {
    if time > now + UPCOMING_WINDOW {
        Outlook::Beyond
    } else if time > now {
        Outlook::Upcoming
    } else {
        Outlook::Past
    }
}

/// Tells where an occurrence at `time` of a recurring event lies, seen from
/// `now`.
pub fn classify(now: i64, time: i64) -> (place: Outlook)
    ensures
        place == outlook(now, time),
{
    if (time as i128) > now as i128 + UPCOMING_WINDOW as i128 {
        Outlook::Beyond
    } else if time > now {
        Outlook::Upcoming
    } else {
        Outlook::Past
    }
}

/// Where the walk over the occurrences of one event stands.
#[derive(Debug, Clone, Copy, PartialEq, Eq, Structural)]
pub enum IcalIterVeventState {
    /// The event does not recur, and its one occurrence is still to come.
    NoRecur,
    /// The event recurs, and its rule may hold further occurrences.
    Recur,
    /// The event has no further occurrence.
    Done,
}

/// The walk over the occurrences of one event.
#[derive(Debug, Clone, Copy, PartialEq, Eq, Structural)]
pub struct IcalIterVevent {
    pub start: i64,
    pub ritr: IcalIterVeventState,
}

/// The walk over one event after a step, and the occurrence that the step
/// yields. `recurrence` is what the event's rule gave when it was asked; it
/// counts only for an event that recurs.
pub open spec fn vevent_step(walk: IcalIterVevent, recurrence: Option<i64>) -> (
    IcalIterVevent,
    Option<i64>,
) {
    match walk.ritr {
        IcalIterVeventState::Done => (walk, None),
        IcalIterVeventState::NoRecur => (
            IcalIterVevent { start: walk.start, ritr: IcalIterVeventState::Done },
            Some(walk.start),
        ),
        IcalIterVeventState::Recur => match recurrence {
            Some(time) => (walk, Some(time)),
            None => (IcalIterVevent { start: walk.start, ritr: IcalIterVeventState::Done }, None),
        },
    }
}

impl IcalIterVevent {
    /// The walk over an event that starts at `start`; `recurs` tells whether
    /// the event has a recurrence rule.
    pub fn new(start: i64, recurs: bool) -> (walk: Self)
        ensures
            walk.start == start,
            walk.ritr == if recurs {
                IcalIterVeventState::Recur
            } else {
                IcalIterVeventState::NoRecur
            },
    {
        let ritr = if recurs {
            IcalIterVeventState::Recur
        } else {
            IcalIterVeventState::NoRecur
        };
        IcalIterVevent { start, ritr }
    }

    /// Whether the next step needs the next occurrence of the event's rule.
    pub fn needs_recurrence(&self) -> (yes: bool)
        ensures
            yes == (self.ritr == IcalIterVeventState::Recur),
    {
        match self.ritr {
            IcalIterVeventState::Recur => true,
            _ => false,
        }
    }

    /// Takes one step and returns the occurrence it yields, if any. An event
    /// that does not recur yields its start, once. An event that recurs
    /// yields what its rule gives, until the rule gives nothing.
    pub fn next(&mut self, recurrence: Option<i64>) -> (time: Option<i64>)
        ensures
            (*final(self), time) == vevent_step(*old(self), recurrence),
    {
        match self.ritr {
            IcalIterVeventState::Done => None,
            IcalIterVeventState::NoRecur => {
                self.ritr = IcalIterVeventState::Done;
                Some(self.start)
            },
            IcalIterVeventState::Recur => match recurrence {
                Some(time) => Some(time),
                None => {
                    self.ritr = IcalIterVeventState::Done;
                    None
                },
            },
        }
    }
}

/// Where the walk over a calendar stands once it has begun.
#[derive(Debug, Clone, Copy, PartialEq, Eq, Structural)]
pub enum IterState {
    /// Inside an event.
    Recurse(IcalIterVevent),
    /// Past the last event.
    Done,
}

impl IterState {
    /// Whether the walk has been set up. A walk that has a state has been;
    /// one that has not begun has none.
    pub fn is_init(&self) -> (yes: bool)
        ensures
            yes,
    {
        true
    }
}

/// What a walk over a calendar needs to know before its next step.
#[derive(Debug, Clone, Copy, PartialEq, Eq, Structural)]
pub enum Need {
    /// The next event of the calendar.
    Vevent,
    /// The next occurrence that the rule of the current event gives.
    Recurrence,
    /// Nothing.
    Nothing,
}

/// What the holder of the calendar answers.
#[derive(Debug, Clone, Copy, PartialEq, Eq, Structural)]
pub enum Answer {
    /// The next event, or none where the calendar has no further one.
    Vevent(Option<IcalIterVevent>),
    /// The next occurrence, or none where the rule gives no further one.
    Recurrence(Option<i64>),
    /// Nothing was asked.
    Nothing,
}

/// What follows from a step.
#[derive(Debug, Clone, Copy, PartialEq, Eq, Structural)]
pub enum Step {
    /// The next occurrence of the walk.
    Yield(i64),
    /// No occurrence yet: take another step.
    Continue,
    /// The walk is over.
    Finished,
}

/// What a walk that stands at `state` needs to know before its next step.
pub open spec fn need_at(state: Option<IterState>) -> Need {
    match state {
        None => Need::Vevent,
        Some(IterState::Done) => Need::Nothing,
        Some(IterState::Recurse(walk)) => match walk.ritr {
            IcalIterVeventState::NoRecur => Need::Nothing,
            IcalIterVeventState::Recur => Need::Recurrence,
            IcalIterVeventState::Done => Need::Vevent,
        },
    }
}

/// The event in an answer to [`Need::Vevent`], none where another answer
/// was given.
pub open spec fn vevent_in(answer: Answer) -> Option<IcalIterVevent> {
    match answer {
        Answer::Vevent(next) => next,
        _ => None,
    }
}

/// The occurrence in an answer to [`Need::Recurrence`], none where another
/// answer was given.
pub open spec fn recurrence_in(answer: Answer) -> Option<i64> {
    match answer {
        Answer::Recurrence(next) => next,
        _ => None,
    }
}

/// The walk after it has entered the next event, or found none.
pub open spec fn enter(next: Option<IcalIterVevent>) -> (Option<IterState>, Step) {
    match next {
        Some(walk) => (Some(IterState::Recurse(walk)), Step::Continue),
        None => (Some(IterState::Done), Step::Finished),
    }
}

/// One step of the walk over a calendar. At its start, and when an event
/// has no further occurrence, the walk enters the next event, or ends where
/// there is none. Inside an event it yields that event's next occurrence.
/// Once over, it stays over.
pub open spec fn walk_step(state: Option<IterState>, answer: Answer) -> (Option<IterState>, Step) {
    match state {
        None => enter(vevent_in(answer)),
        Some(IterState::Done) => (state, Step::Finished),
        Some(IterState::Recurse(walk)) => match walk.ritr {
            IcalIterVeventState::Done => enter(vevent_in(answer)),
            _ => {
                let (after, time) = vevent_step(walk, recurrence_in(answer));
                (
                    Some(IterState::Recurse(after)),
                    match time {
                        Some(t) => Step::Yield(t),
                        None => Step::Continue,
                    },
                )
            },
        },
    }
}

/// The walk over the occurrences of all events of a calendar, event by
/// event.
#[derive(Debug, Clone, Copy, PartialEq, Eq, Structural)]
pub struct IcalIterator {
    pub state: Option<IterState>,
}

impl IcalIterator {
    /// A walk that has not begun.
    pub fn new() -> (walk: Self)
        ensures
            walk.state is None,
    {
        IcalIterator { state: None }
    }

    /// What the walk needs to know before its next step.
    pub fn need(&self) -> (need: Need)
        ensures
            need == need_at(self.state),
    {
        match self.state {
            None => Need::Vevent,
            Some(IterState::Done) => Need::Nothing,
            Some(IterState::Recurse(walk)) => match walk.ritr {
                IcalIterVeventState::NoRecur => Need::Nothing,
                IcalIterVeventState::Recur => Need::Recurrence,
                IcalIterVeventState::Done => Need::Vevent,
            },
        }
    }

    /// Enters the next event of the calendar, or ends the walk where there
    /// is none.
    pub fn next_vevent(&mut self, next: Option<IcalIterVevent>) -> (step: Step)
        ensures
            (final(self).state, step) == enter(next),
    {
        match next {
            Some(walk) => {
                self.state = Some(IterState::Recurse(walk));
                Step::Continue
            },
            None => {
                self.state = Some(IterState::Done);
                Step::Finished
            },
        }
    }

    /// Takes one step with the answer to what [`IcalIterator::need`] asked.
    pub fn next(&mut self, answer: Answer) -> (step: Step)
        ensures
            (final(self).state, step) == walk_step(old(self).state, answer),
    {
        let next_event = match answer {
            Answer::Vevent(next) => next,
            _ => None,
        };
        let recurrence = match answer {
            Answer::Recurrence(next) => next,
            _ => None,
        };
        match self.state {
            None => self.next_vevent(next_event),
            Some(IterState::Done) => Step::Finished,
            Some(IterState::Recurse(walk)) => match walk.ritr {
                IcalIterVeventState::Done => self.next_vevent(next_event),
                _ => {
                    let mut walk = walk;
                    let time = walk.next(recurrence);
                    self.state = Some(IterState::Recurse(walk));
                    match time {
                        Some(t) => Step::Yield(t),
                        None => Step::Continue,
                    }
                },
            },
        }
    }
}

/// An event of a calendar as a walk meets it: where it starts and, if it
/// recurs, the occurrences that its rule gives, in the order it gives them.
pub struct Vevent {
    pub start: i64,
    pub rule: Option<Seq<i64>>,
}

/// The occurrences of one event: what its rule gives if it recurs, and else
/// its start.
pub open spec fn occurrences_of(event: Vevent) -> Seq<i64> {
    match event.rule {
        Some(times) => times,
        None => seq![event.start],
    }
}

/// The occurrences of the events of a calendar, event by event.
pub open spec fn occurrences(calendar: Seq<Vevent>) -> Seq<i64>
    decreases calendar.len(),
{
    if calendar.len() == 0 {
        Seq::empty()
    } else {
        occurrences_of(calendar.first()) + occurrences(calendar.drop_first())
    }
}

/// The walk over one event as it is entered.
pub open spec fn entering(event: Vevent) -> IcalIterVevent {
    IcalIterVevent {
        start: event.start,
        ritr: if event.rule is Some {
            IcalIterVeventState::Recur
        } else {
            IcalIterVeventState::NoRecur
        },
    }
}

/// What the rule of an event has to give when the event is entered.
pub open spec fn rule_of(event: Vevent) -> Seq<i64> {
    match event.rule {
        Some(times) => times,
        None => Seq::empty(),
    }
}

/// What the holder of a calendar answers to a walk that stands at `state`,
/// when `events` are the events not yet entered and `rule` is what the rule
/// of the current event has still to give.
pub open spec fn answer_to(state: Option<IterState>, events: Seq<Vevent>, rule: Seq<i64>) -> Answer {
    match need_at(state) {
        Need::Vevent => Answer::Vevent(
            if events.len() > 0 {
                Some(entering(events.first()))
            } else {
                None
            },
        ),
        Need::Recurrence => Answer::Recurrence(
            if rule.len() > 0 {
                Some(rule.first())
            } else {
                None
            },
        ),
        Need::Nothing => Answer::Nothing,
    }
}

/// Whether a walk that stands at `state` is inside an event that may still
/// yield.
pub open spec fn inside(state: Option<IterState>) -> bool {
    state matches Some(IterState::Recurse(walk)) && walk.ritr != IcalIterVeventState::Done
}

/// Everything that a walk yields from `state` until it is over, when the
/// holder of the calendar answers as [`answer_to`] says.
pub open spec fn yields(state: Option<IterState>, events: Seq<Vevent>, rule: Seq<i64>) -> Seq<i64>
    decreases events.len(), rule.len(), (if inside(state) {
            1nat
        } else {
            0nat
        }),
{
    let (next, step) = walk_step(state, answer_to(state, events, rule));
    match need_at(state) {
        Need::Vevent => if events.len() > 0 {
            yields(next, events.drop_first(), rule_of(events.first()))
        } else {
            Seq::empty()
        },
        Need::Recurrence => if rule.len() > 0 {
            seq![rule.first()] + yields(next, events, rule.drop_first())
        } else {
            yields(next, events, rule)
        },
        Need::Nothing => match step {
            Step::Yield(time) => seq![time] + yields(next, events, rule),
            _ => Seq::empty(),
        },
    }
}

/// A walk over a calendar yields the occurrences of its events, event by
/// event, each event's occurrences in their order, and then is over.
pub proof fn walk_yields_occurrences(calendar: Seq<Vevent>)
    ensures
        yields(None, calendar, Seq::empty()) == occurrences(calendar),
{
    yields_from(None, calendar, Seq::empty());
}

/// What a walk yields from any state in which it can stand.
proof fn yields_from(state: Option<IterState>, events: Seq<Vevent>, rule: Seq<i64>)
    requires
        state == Some(IterState::Done) ==> events.len() == 0,
    ensures
        yields(state, events, rule) == match state {
            Some(IterState::Recurse(walk)) => match walk.ritr {
                IcalIterVeventState::NoRecur => seq![walk.start] + occurrences(events),
                IcalIterVeventState::Recur => rule + occurrences(events),
                IcalIterVeventState::Done => occurrences(events),
            },
            _ => occurrences(events),
        },
    decreases events.len(), rule.len(), (if inside(state) {
            1nat
        } else {
            0nat
        }),
{
    let (next, step) = walk_step(state, answer_to(state, events, rule));
    match need_at(state) {
        Need::Vevent => {
            if events.len() > 0 {
                let event = events.first();
                yields_from(next, events.drop_first(), rule_of(event));
            }
        },
        Need::Recurrence => {
            if rule.len() > 0 {
                yields_from(next, events, rule.drop_first());
                assert(rule =~= seq![rule.first()] + rule.drop_first());
                assert(seq![rule.first()] + (rule.drop_first() + occurrences(events)) =~= rule
                    + occurrences(events));
            } else {
                yields_from(next, events, rule);
                assert(rule + occurrences(events) =~= occurrences(events));
            }
        },
        Need::Nothing => {
            if step is Yield {
                yields_from(next, events, rule);
            }
        },
    }
}

} // verus!
