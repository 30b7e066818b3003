use space_shutdown::calendar::event::{Component, Event};
use space_shutdown::calendar::{
    classify, is_upcoming, Answer, IcalIterVevent, IcalIterVeventState, IcalIterator, IterState,
    Need, Outlook, Step, UPCOMING_WINDOW,
};

#[test]
fn event_reads_what_the_component_says() {
    let event = Event::from_component(Component {
        summary: Some("Plenum".to_string()),
        description: Some("monthly".to_string()),
        dtstart: Some(1_561_485_600),
        dtend: Some(1_561_492_800),
    });
    assert_eq!(
        event,
        Event {
            summary: "Plenum".to_string(),
            description: "monthly".to_string(),
            start: 1_561_485_600,
            end: 1_561_492_800,
        }
    );
}

#[test]
fn event_fills_in_what_the_component_leaves_out() {
    let event = Event::from_component(Component {
        summary: None,
        description: None,
        dtstart: None,
        dtend: None,
    });
    assert_eq!(
        event,
        Event { summary: "".to_string(), description: "".to_string(), start: 0, end: 0 }
    );
}

#[test]
fn moved_event_lasts_as_long_as_before() {
    let event = Event {
        summary: "Plenum".to_string(),
        description: "monthly".to_string(),
        start: 1_000,
        end: 8_200,
    };
    let moved = event.starting_at(2_000_000);
    assert_eq!(moved.start, 2_000_000);
    assert_eq!(moved.end, 2_007_200);
    assert_eq!(moved.summary, "Plenum");
    assert_eq!(moved.description, "monthly");
    let back = moved.starting_at(-500);
    assert_eq!((back.start, back.end), (-500, 6_700));
}

#[test]
fn upcoming_is_after_now_and_within_thirty_days() {
    assert_eq!(UPCOMING_WINDOW, 3600 * 24 * 30);
    assert!(!is_upcoming(1_000, 1_000));
    assert!(is_upcoming(1_000, 1_001));
    assert!(is_upcoming(1_000, 1_000 + UPCOMING_WINDOW - 1));
    assert!(!is_upcoming(1_000, 1_000 + UPCOMING_WINDOW));
    assert!(!is_upcoming(1_000, 999));
    assert!(!is_upcoming(i64::MAX, i64::MAX));
    assert!(is_upcoming(i64::MAX - 1, i64::MAX));
}

#[test]
fn occurrences_of_a_recurring_event_are_past_upcoming_or_beyond() {
    assert_eq!(classify(1_000, 999), Outlook::Past);
    assert_eq!(classify(1_000, 1_000), Outlook::Past);
    assert_eq!(classify(1_000, 1_001), Outlook::Upcoming);
    assert_eq!(classify(1_000, 1_000 + UPCOMING_WINDOW), Outlook::Upcoming);
    assert_eq!(classify(1_000, 1_001 + UPCOMING_WINDOW), Outlook::Beyond);
    assert_eq!(classify(i64::MAX, i64::MAX), Outlook::Past);
    assert_eq!(classify(i64::MAX - 1, i64::MAX), Outlook::Upcoming);
    assert_eq!(classify(i64::MIN, i64::MAX), Outlook::Beyond);
}

#[test]
fn event_that_does_not_recur_yields_its_start_once() {
    let mut walk = IcalIterVevent::new(42, false);
    assert_eq!(walk.ritr, IcalIterVeventState::NoRecur);
    assert!(!walk.needs_recurrence());
    assert_eq!(walk.next(None), Some(42));
    assert_eq!(walk.ritr, IcalIterVeventState::Done);
    assert_eq!(walk.next(None), None);
    assert_eq!(walk.next(Some(7)), None);
}

#[test]
fn event_that_recurs_yields_what_its_rule_gives() {
    let mut walk = IcalIterVevent::new(42, true);
    assert!(walk.needs_recurrence());
    assert_eq!(walk.next(Some(42)), Some(42));
    assert_eq!(walk.next(Some(100)), Some(100));
    assert!(walk.needs_recurrence());
    assert_eq!(walk.next(None), None);
    assert_eq!(walk.ritr, IcalIterVeventState::Done);
    assert!(!walk.needs_recurrence());
    assert_eq!(walk.next(Some(200)), None);
}

#[test]
fn walk_over_an_empty_calendar_ends_at_once() {
    let mut walk = IcalIterator::new();
    assert_eq!(walk.need(), Need::Vevent);
    assert_eq!(walk.next(Answer::Vevent(None)), Step::Finished);
    assert_eq!(walk.need(), Need::Nothing);
    assert_eq!(walk.next(Answer::Nothing), Step::Finished);
    assert_eq!(walk.state, Some(IterState::Done));
    assert!(IterState::Done.is_init());
}

#[test]
fn walk_yields_the_occurrences_event_by_event() {
    // Two events: one at 10 that does not recur, one whose rule gives 20 and 30.
    let mut walk = IcalIterator::new();
    let mut yielded = Vec::new();
    let mut events = vec![IcalIterVevent::new(10, false), IcalIterVevent::new(20, true)].into_iter();
    let mut rule = vec![20, 30].into_iter();
    loop {
        let answer = match walk.need() {
            Need::Vevent => Answer::Vevent(events.next()),
            Need::Recurrence => Answer::Recurrence(rule.next()),
            Need::Nothing => Answer::Nothing,
        };
        match walk.next(answer) {
            Step::Yield(t) => yielded.push(t),
            Step::Continue => {}
            Step::Finished => break,
        }
    }
    assert_eq!(yielded, vec![10, 20, 30]);
    assert_eq!(walk.next(Answer::Nothing), Step::Finished);
}

#[test]
fn walk_enters_the_event_it_is_given() {
    let mut walk = IcalIterator::new();
    assert_eq!(walk.next_vevent(Some(IcalIterVevent::new(5, false))), Step::Continue);
    assert_eq!(walk.state, Some(IterState::Recurse(IcalIterVevent::new(5, false))));
    assert_eq!(walk.need(), Need::Nothing);
    assert_eq!(walk.next(Answer::Nothing), Step::Yield(5));
    assert_eq!(walk.need(), Need::Vevent);
    assert_eq!(walk.next_vevent(None), Step::Finished);
}
