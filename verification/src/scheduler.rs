//! The delayed-action scheduler: door observations arm and disarm a single
//! shutdown countdown, and an expired countdown releases the shutdown actions.
//!
//! The scheduler decides; it does not wait. Whoever drives it runs the
//! countdown it hands out, feeds every bus message to [`AutoShutdown::handle_msg`]
//! and reports an elapsed deadline to [`AutoShutdown::timer_expired`], each call
//! under one critical section.

use crate::action::{ShutdownActions, ShutdownMessage, Thermostat};
use crate::hass::home_assistant::{
    service_path, BodyView, HomeAssistant, Method, Request, RequestView,
};
use crate::hass::{
    climate_domain, set_temperature, set_temperature_service, temperature_attributes, Hass,
};
use crate::mqtt::{OpCode, OpCodeView};
use futures::sync::oneshot::{Receiver, Sender};
use std::time::Duration;
use vstd::prelude::*;
use vstd::string::StringExecFns;

verus! {

/// `futures::sync::oneshot::Sender`, the sending half of a one-shot channel,
/// carried without looking inside.
#[verifier::external_type_specification]
#[verifier::external_body]
#[verifier::reject_recursive_types(T)]
pub struct ExOneshotSender<T>(Sender<T>);

/// `futures::sync::oneshot::Receiver`, the receiving half of a one-shot
/// channel, carried without looking inside.
#[verifier::external_type_specification]
#[verifier::external_body]
#[verifier::reject_recursive_types(T)]
pub struct ExOneshotReceiver<T>(Receiver<T>);

/// Calls `futures::sync::oneshot::channel`, which allocates a fresh channel
/// and returns its two halves. Nothing is claimed of them.
#[verifier::external_body]
fn cancellation_channel() -> (halves: (Sender<()>, Receiver<()>)) {
    futures::sync::oneshot::channel()
}

/// Calls `futures::sync::oneshot::Sender::send`, which consumes the sender
/// and reports whether the unit value was left for the receiver. Whether it
/// was depends on what the receiving side has done meanwhile, so nothing is
/// claimed of the answer.
#[verifier::external_body]
fn send_cancellation(sender: Sender<()>) -> (delivered: bool) {
    sender.send(()).is_ok()
}

/// The observed value that means "the door is locked".
pub open spec fn locked_value() -> Seq<char> {
    seq!['1']
}

/// The timer slot as the contracts see it: the countdown that is pending, if
/// any, and the identifier that the next countdown will get.
pub struct TimerState {
    pub pending: Option<u64>,
    pub issued: u64,
}

/// What the scheduler answers to one bus message, without the channel half
/// that an `Armed` answer carries.
pub enum ReactionView {
    Armed { timer: u64 },
    Disarmed { timer: u64 },
    Ignored { locked: bool },
    Unhandled,
}

/// The identifier that follows `issued`; it starts over after the largest.
pub open spec fn following(issued: u64) -> u64 {
    if issued == u64::MAX {
        0
    } else {
        (issued + 1) as u64
    }
}

/// The slot before any countdown was started.
pub open spec fn idle() -> TimerState {
    TimerState { pending: None, issued: 0 }
}

/// The transition on one door observation: an unlock cancels the pending
/// countdown, a lock starts one where none is pending, anything else changes
/// nothing.
pub open spec fn observe(s: TimerState, locked: bool) -> (TimerState, ReactionView) {
    match s.pending {
        Some(timer) if !locked => (
            TimerState { pending: None, issued: s.issued },
            ReactionView::Disarmed { timer },
        ),
        None if locked => (
            TimerState { pending: Some(s.issued), issued: following(s.issued) },
            ReactionView::Armed { timer: s.issued },
        ),
        _ => (s, ReactionView::Ignored { locked }),
    }
}

/// The transition when the deadline of countdown `timer` has elapsed: it
/// fires only if it is the pending one, and then leaves the slot empty.
pub open spec fn expire(s: TimerState, timer: u64) -> (TimerState, bool) {
    if s.pending == Some(timer) {
        (TimerState { pending: None, issued: s.issued }, true)
    } else {
        (s, false)
    }
}

/// The transition on one bus message: an observation on the door topic goes
/// through [`observe`]; every other message passes by.
pub open spec fn react(door: Seq<char>, s: TimerState, msg: OpCodeView) -> (
    TimerState,
    ReactionView,
) {
    match msg {
        OpCodeView::MessageReceived(topic, value) if topic == door => observe(
            s,
            value == locked_value(),
        ),
        _ => (s, ReactionView::Unhandled),
    }
}

/// The publish requests that make up the shutdown, one per message, in order.
pub open spec fn publish_requests(messages: Seq<ShutdownMessage>) -> Seq<OpCodeView> {
    Seq::new(
        messages.len(),
        |i: int| OpCodeView::Publish(messages[i].topic@, messages[i].value@),
    )
}

/// The name under which the thermostat of a room is known to the service.
pub open spec fn thermostat_entity(room: Seq<char>) -> Seq<char> {
    "climate."@ + room
}

/// The requests that turn the thermostats down, one per thermostat, in order.
pub open spec fn temperature_requests(hass: HomeAssistant, thermostats: Seq<Thermostat>) -> Seq<
    RequestView,
> {
    Seq::new(
        thermostats.len(),
        |i: int|
            RequestView {
                method: Method::Post,
                url: hass.endpoint(service_path(climate_domain(), set_temperature_service())),
                body: BodyView::Attributes(
                    temperature_attributes(
                        thermostat_entity(thermostats[i].room@),
                        thermostats[i].temperature,
                    ),
                ),
            },
    )
}

/// The pending countdown: its identifier, and the sender whose signal stops it.
struct Interrupter {
    timer: u64,
    sender: Sender<()>,
}

/// What the driver has to do after a bus message.
#[derive(Debug)]
pub enum Reaction {
    /// A countdown was started. Wait for `delay` or for `cancelled`, whichever
    /// comes first; if it is the delay, report `timer` as expired.
    Armed { timer: u64, delay: Duration, cancelled: Receiver<()> },
    /// The pending countdown was cancelled. `delivered` tells whether its
    /// waiting side was still there to take the signal.
    Disarmed { timer: u64, delivered: bool },
    /// A repeated observation: the door already was in that state.
    Ignored { locked: bool },
    /// Not an observation of the door.
    Unhandled,
}

impl View for Reaction {
    type V = ReactionView;

    open spec fn view(&self) -> ReactionView {
        match *self {
            Reaction::Armed { timer, .. } => ReactionView::Armed { timer },
            Reaction::Disarmed { timer, .. } => ReactionView::Disarmed { timer },
            Reaction::Ignored { locked } => ReactionView::Ignored { locked },
            Reaction::Unhandled => ReactionView::Unhandled,
        }
    }
}

/// The delayed-action scheduler.
pub struct AutoShutdown {
    interrupter: Option<Interrupter>,
    issued: u64,
    settings: Settings,
}

/// What a scheduler is set up with, and keeps for good.
struct Settings {
    hass: HomeAssistant,
    door_topic: String,
    delay: Duration,
    thermostats: Vec<Thermostat>,
    shutdown_messages: Vec<ShutdownMessage>,
}

impl Settings {
    #[verifier::type_invariant]
    spec fn well_formed(self) -> bool {
        self.hass.ready()
    }
}

impl AutoShutdown {
    /// The remote-state service that the thermostats are set through.
    pub closed spec fn service(&self) -> HomeAssistant {
        self.settings.hass
    }

    /// The thermostats to turn down.
    pub closed spec fn thermostats(&self) -> Seq<Thermostat> {
        self.settings.thermostats@
    }

    /// The timer slot.
    pub closed spec fn state(&self) -> TimerState {
        TimerState {
            pending: match self.interrupter {
                Some(it) => Some(it.timer),
                None => None,
            },
            issued: self.issued,
        }
    }

    /// The topic whose observations count as door observations.
    pub closed spec fn door(&self) -> Seq<char> {
        self.settings.door_topic@
    }

    /// The length of a countdown.
    pub closed spec fn countdown(&self) -> Duration {
        self.settings.delay
    }

    /// The configured shutdown messages.
    pub closed spec fn messages(&self) -> Seq<ShutdownMessage> {
        self.settings.shutdown_messages@
    }

    /// A scheduler for the given door topic, with no countdown pending.
    pub fn new(
        hass: HomeAssistant,
        topic: &str,
        delay: Duration,
        thermostats: Vec<Thermostat>,
        shutdown_messages: Vec<ShutdownMessage>,
    ) -> (s: Self)
        requires
            hass.ready(),
        ensures
            s.state() == idle(),
            s.service() == hass,
            s.door() == topic@,
            s.countdown() == delay,
            s.thermostats() == thermostats@,
            s.messages() == shutdown_messages@,
    {
        AutoShutdown {
            interrupter: None,
            issued: 0,
            settings: Settings {
                hass,
                door_topic: topic.to_owned(),
                delay,
                thermostats,
                shutdown_messages,
            },
        }
    }

    /// Whether two schedulers are configured alike: the same service, door
    /// topic, delay, thermostats and messages.
    pub open spec fn same_configuration(&self, other: &Self) -> bool {
        &&& self.service() == other.service()
        &&& self.door() == other.door()
        &&& self.countdown() == other.countdown()
        &&& self.thermostats() == other.thermostats()
        &&& self.messages() == other.messages()
    }

    /// The actions of a shutdown as the contracts see them.
    pub open spec fn actions(&self) -> (Seq<RequestView>, Seq<OpCodeView>) {
        (
            temperature_requests(self.service(), self.thermostats()),
            publish_requests(self.messages()),
        )
    }

    /// The topic whose observations count as door observations.
    pub fn door_topic(&self) -> (topic: &str)
        ensures
            topic@ == self.door(),
    {
        self.settings.door_topic.as_str()
    }

    /// The length of a countdown.
    pub fn delay(&self) -> (delay: Duration)
        ensures
            delay == self.countdown(),
    {
        self.settings.delay
    }

    /// The request to put on the bus at startup: it subscribes to the door
    /// topic.
    pub fn subscription(&self) -> (request: OpCode)
        ensures
            request@ == OpCodeView::Subscribe(self.door()),
    {
        OpCode::Subscribe(self.settings.door_topic.clone())
    }

    /// The identifier of the pending countdown, if one is pending.
    pub fn pending(&self) -> (timer: Option<u64>)
        ensures
            timer == self.state().pending,
    {
        match &self.interrupter {
            Some(it) => Some(it.timer),
            None => None,
        }
    }

    /// Handles one message from the bus.
    ///
    /// The slot and the answer follow [`react`]. A cancellation that finds
    /// nobody waiting is no error: the slot is emptied and the answer is
    /// `Disarmed` all the same.
    pub fn handle_msg(&mut self, msg: OpCode) -> (reaction: Reaction)
        ensures
            (final(self).state(), reaction@) == react(old(self).door(), old(self).state(), msg@),
            reaction matches Reaction::Armed { delay, .. } ==> delay == old(self).countdown(),
            final(self).same_configuration(old(self)),
    {
        match msg {
            OpCode::MessageReceived((topic, value)) => {
                if topic == self.settings.door_topic {
                    let locked = is_locked(&value);
                    match (locked, self.interrupter.take()) {
                        (false, Some(it)) => {
                            let delivered = send_cancellation(it.sender);
                            Reaction::Disarmed { timer: it.timer, delivered }
                        },
                        (true, None) => {
                            let (sender, cancelled) = cancellation_channel();
                            let timer: u64 = self.issued;
                            self.interrupter = Some(Interrupter { timer, sender });
                            self.issued = if timer == u64::MAX {
                                0
                            } else {
                                timer + 1
                            };
                            Reaction::Armed { timer, delay: self.settings.delay, cancelled }
                        },
                        (locked, it) => {
                            self.interrupter = it;
                            Reaction::Ignored { locked }
                        },
                    }
                } else {
                    Reaction::Unhandled
                }
            },
            _ => Reaction::Unhandled,
        }
    }

    /// Reports that the deadline of countdown `timer` has elapsed.
    ///
    /// If that countdown is the pending one, the slot is emptied and the
    /// shutdown actions are handed out, all of them, to be dispatched.
    /// A countdown that was cancelled or replaced meanwhile gets `None`, and
    /// nothing changes.
    pub fn timer_expired(&mut self, timer: u64) -> (fired: Option<ShutdownActions>)
        ensures
            (final(self).state(), fired is Some) == expire(old(self).state(), timer),
            fired matches Some(actions) ==> actions@ == old(self).actions(),
            final(self).same_configuration(old(self)),
    {
        let is_pending = match &self.interrupter {
            Some(it) => it.timer == timer,
            None => false,
        };
        if is_pending {
            self.interrupter = None;
            Some(self.shutdown_actions())
        } else {
            None
        }
    }

    /// The actions of a shutdown: the thermostats are turned down and the
    /// shutdown messages are published.
    pub fn shutdown_actions(&self) -> (actions: ShutdownActions)
        ensures
            actions@ == self.actions(),
    {
        ShutdownActions {
            calls: self.shutdown_temperature_requests(),
            publishes: self.shutdown_mqtt_requests(),
        }
    }

    /// One request to the remote-state service for every thermostat, in
    /// order: it sets the thermostat to its shutdown temperature.
    pub fn shutdown_temperature_requests(&self) -> (requests: Vec<Request>)
        ensures
            requests@.len() == self.thermostats().len(),
            requests.deep_view() == temperature_requests(self.service(), self.thermostats()),
    {
        proof {
            use_type_invariant(&self.settings);
        }
        let mut requests: Vec<Request> = Vec::new();
        let n: usize = self.settings.thermostats.len();
        let mut i: usize = 0;
        while i < n
            invariant
                self.settings.hass.ready(),
                n == self.settings.thermostats@.len(),
                i <= n,
                requests@.len() == i,
                forall|k: int|
                    0 <= k < i ==> (#[trigger] requests@[k])@ == temperature_requests(
                        self.settings.hass,
                        self.settings.thermostats@,
                    )[k],
            decreases n - i,
        {
            let thermostat = &self.settings.thermostats[i];
            let entity = String::from_str("climate.").concat(thermostat.room.as_str());
            requests.push(
                set_temperature(&self.settings.hass, entity.as_str(), thermostat.temperature),
            );
            i += 1;
        }
        assert(requests.deep_view() =~= temperature_requests(
            self.settings.hass,
            self.settings.thermostats@,
        ));
        requests
    }

    /// One publish request for every configured shutdown message, in order.
    pub fn shutdown_mqtt_requests(&self) -> (requests: Vec<OpCode>)
        ensures
            requests@.len() == self.messages().len(),
            requests.deep_view() == publish_requests(self.messages()),
    {
        let mut requests: Vec<OpCode> = Vec::new();
        let n: usize = self.settings.shutdown_messages.len();
        let mut i: usize = 0;
        while i < n
            invariant
                n == self.settings.shutdown_messages@.len(),
                i <= n,
                requests@.len() == i,
                forall|k: int|
                    0 <= k < i ==> (#[trigger] requests@[k])@ == publish_requests(
                        self.settings.shutdown_messages@,
                    )[k],
            decreases n - i,
        {
            let msg = &self.settings.shutdown_messages[i];
            requests.push(OpCode::Publish((msg.topic.clone(), msg.value.clone())));
            i += 1;
        }
        assert(requests.deep_view() =~= publish_requests(self.messages()));
        requests
    }
}

/// One thing that can happen to the scheduler: a message arrives from the
/// bus, or the deadline of a countdown elapses.
pub enum Stimulus {
    Message(OpCodeView),
    Deadline(u64),
}

/// The slot after one stimulus.
pub open spec fn advance(door: Seq<char>, s: TimerState, e: Stimulus) -> TimerState {
    match e {
        Stimulus::Message(msg) => react(door, s, msg).0,
        Stimulus::Deadline(timer) => expire(s, timer).0,
    }
}

/// Whether the stimulus makes the scheduler start a countdown.
pub open spec fn starts(door: Seq<char>, s: TimerState, e: Stimulus) -> bool {
    e matches Stimulus::Message(msg) && react(door, s, msg).1 is Armed
}

/// Whether the stimulus ends a countdown: by cancelling it, or by letting it
/// fire.
pub open spec fn ends(door: Seq<char>, s: TimerState, e: Stimulus) -> bool {
    match e {
        Stimulus::Message(msg) => react(door, s, msg).1 is Disarmed,
        Stimulus::Deadline(timer) => expire(s, timer).1,
    }
}

/// The slot after a sequence of stimuli, taken in order.
pub open spec fn slot_after(door: Seq<char>, s: TimerState, events: Seq<Stimulus>) -> TimerState
    decreases events.len(),
{
    if events.len() == 0 {
        s
    } else {
        advance(door, slot_after(door, s, events.drop_last()), events.last())
    }
}

/// The number of countdowns that are live after a sequence of stimuli: those
/// that were started less those that were cancelled or have fired, counting
/// the one that was pending at the outset.
pub open spec fn live(door: Seq<char>, s: TimerState, events: Seq<Stimulus>) -> int
    decreases events.len(),
{
    if events.len() == 0 {
        if s.pending is Some {
            1
        } else {
            0
        }
    } else {
        let before = slot_after(door, s, events.drop_last());
        live(door, s, events.drop_last()) + (if starts(door, before, events.last()) {
            1int
        } else {
            0int
        }) - (if ends(door, before, events.last()) {
            1int
        } else {
            0int
        })
    }
}

/// Single flight: whatever messages arrive and whatever deadlines elapse, in
/// whatever order, at most one countdown is live, and it is the one in the
/// slot. The count never falls below zero either: no countdown is both
/// cancelled and fired, and none fires twice.
pub proof fn single_flight(door: Seq<char>, s: TimerState, events: Seq<Stimulus>)
    ensures
        live(door, s, events) == (if slot_after(door, s, events).pending is Some {
            1int
        } else {
            0int
        }),
        0 <= live(door, s, events) <= 1,
    decreases events.len(),
{
    if events.len() > 0 {
        single_flight(door, s, events.drop_last());
    }
}

/// A lock observed while a countdown is pending starts nothing and leaves the
/// pending countdown, with its deadline, as it was.
pub proof fn arming_while_armed(s: TimerState)
    requires
        s.pending is Some,
    ensures
        observe(s, true) == (s, ReactionView::Ignored { locked: true }),
{
}

/// Exclusive outcome: once a countdown is armed, a cancellation and its
/// deadline may come in either order, and in each order exactly one of them
/// takes effect. If the unlock comes first the countdown is cancelled and
/// its deadline fires nothing; if the deadline comes first it fires and the
/// unlock finds nothing to cancel. Either way the slot ends empty.
pub proof fn exclusive_outcome(s: TimerState)
    requires
        s.pending is None,
    ensures
        ({
            let timer = s.issued;
            let (armed, started) = observe(s, true);
            let (unlocked, cancelled) = observe(armed, false);
            let (late, fired_late) = expire(unlocked, timer);
            let (expired, fired) = expire(armed, timer);
            let (after, ignored) = observe(expired, false);
            &&& started == ReactionView::Armed { timer }
            &&& cancelled == ReactionView::Disarmed { timer }
            &&& !fired_late
            &&& fired
            &&& ignored == ReactionView::Ignored { locked: false }
            &&& late.pending is None
            &&& after.pending is None
        }),
{
}

/// Debounce: an observation that repeats the previous one starts nothing,
/// cancels nothing and leaves the slot as it is.
pub proof fn debounce(s: TimerState, locked: bool)
    ensures
        observe(observe(s, locked).0, locked) == (
            observe(s, locked).0,
            ReactionView::Ignored { locked },
        ),
{
}

/// Late cancellation: after a countdown has fired, an unlock cancels nothing
/// and a second report of the same deadline fires nothing.
pub proof fn late_cancellation(s: TimerState, timer: u64)
    requires
        s.pending == Some(timer),
    ensures
        ({
            let (fired_state, fired) = expire(s, timer);
            let (after, reaction) = observe(fired_state, false);
            &&& fired
            &&& reaction == ReactionView::Ignored { locked: false }
            &&& after == fired_state
            &&& !expire(after, timer).1
        }),
{
}

/// A countdown fires once: when its deadline is reported again, nothing
/// fires and nothing changes.
pub proof fn fires_once(s: TimerState, timer: u64)
    ensures
        ({
            let (after, fired) = expire(s, timer);
            expire(after, timer) == (after, false)
        }),
{
}

/// A countdown that is armed after a cancellation is a new one: it has
/// another identifier than the cancelled one, and the deadline of the
/// cancelled one neither fires nor disturbs it.
pub proof fn rearming_is_fresh(s: TimerState)
    requires
        s.pending is None,
    ensures
        ({
            let first = s.issued;
            let rearmed = observe(observe(observe(s, true).0, false).0, true);
            let second = following(first);
            &&& second != first
            &&& rearmed.1 == ReactionView::Armed { timer: second }
            &&& rearmed.0.pending == Some(second)
            &&& expire(rearmed.0, first) == (rearmed.0, false)
        }),
{
}

/// Tells whether an observed value says that the door is locked.
pub fn is_locked(value: &String) -> (locked: bool)
    ensures
        locked == (value@ == locked_value()),
{
    let text = value.as_str();
    if text.unicode_len() == 1 {
        let c = text.get_char(0);
        assert(value@ =~= seq![c]);
        c == '1'
    } else {
        false
    }
}

} // verus!
