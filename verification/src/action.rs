//! The remote actions performed when a shutdown countdown expires, and the
//! bookkeeping that tells when all of them have been carried out.

use crate::hass::attributes::Decimal;
use crate::hass::home_assistant::{Request, RequestView};
use crate::mqtt::{OpCode, OpCodeView};
use vstd::prelude::*;
use vstd::string::StringExecFns;

verus! {

/// One remote action: the value to publish and the topic to publish it on.
#[derive(Debug, PartialEq, Eq)]
pub struct ShutdownMessage {
    pub topic: String,
    pub value: String,
}

impl ShutdownMessage {
    /// Builds a message from borrowed text.
    pub fn new(topic: &str, value: &str) -> (msg: Self)
        ensures
            msg.topic@ == topic@,
            msg.value@ == value@,
    {
        ShutdownMessage { topic: String::from_str(topic), value: String::from_str(value) }
    }
}

impl Clone for ShutdownMessage {
    fn clone(&self) -> (copy: Self)
        ensures
            copy == *self,
    {
        ShutdownMessage { topic: self.topic.clone(), value: self.value.clone() }
    }
}

/// A thermostat and the temperature it is set to when the rooms shut down.
#[derive(Debug, PartialEq, Eq)]
pub struct Thermostat {
    pub room: String,
    pub temperature: Decimal,
}

impl Thermostat {
    /// The thermostat of `room`, to be set to `temperature`.
    pub fn new(room: &str, temperature: Decimal) -> (thermostat: Self)
        ensures
            thermostat.room@ == room@,
            thermostat.temperature == temperature,
    {
        Thermostat { room: String::from_str(room), temperature }
    }
}

/// Everything that an expired countdown sets off: the calls to the
/// remote-state service and the publications on the bus. Each action is
/// independent of the others; all of them are to be carried out.
#[derive(Debug)]
pub struct ShutdownActions {
    pub calls: Vec<Request>,
    pub publishes: Vec<OpCode>,
}

impl View for ShutdownActions {
    type V = (Seq<RequestView>, Seq<OpCodeView>);

    open spec fn view(&self) -> (Seq<RequestView>, Seq<OpCodeView>) {
        (self.calls.deep_view(), self.publishes.deep_view())
    }
}

/// The state of a fan-out, one entry per dispatched action: `None` while the
/// action is under way, then whether it succeeded.
pub type Outcomes = Seq<Option<bool>>;

/// A fan-out of `n` actions, none of them resolved.
pub open spec fn dispatched(n: nat) -> Outcomes {
    Seq::new(n, |i: int| None)
}

/// The fan-out after action `index` has reported `succeeded`. The first
/// report of an action counts; a repeated one, or one for an action that was
/// never dispatched, changes nothing.
pub open spec fn record(state: Outcomes, index: int, succeeded: bool) -> Outcomes {
    if 0 <= index < state.len() && state[index] is None {
        state.update(index, Some(succeeded))
    } else {
        state
    }
}

/// The fan-out after a sequence of reports, taken in order.
pub open spec fn record_all(state: Outcomes, reports: Seq<(int, bool)>) -> Outcomes
    decreases reports.len(),
{
    if reports.len() == 0 {
        state
    } else {
        record(record_all(state, reports.drop_last()), reports.last().0, reports.last().1)
    }
}

/// Whether every action of the fan-out has resolved.
pub open spec fn all_resolved(state: Outcomes) -> bool {
    forall|i: int| 0 <= i < state.len() ==> (#[trigger] state[i]) is Some
}

/// The number of actions that have resolved with a failure.
pub open spec fn failed(state: Outcomes) -> nat
    decreases state.len(),
{
    if state.len() == 0 {
        0
    } else {
        failed(state.drop_last()) + if state.last() == Some(false) {
            1nat
        } else {
            0nat
        }
    }
}

/// Collects the outcomes of the actions that one expired countdown has
/// dispatched, and tells when the last of them is in.
pub struct FanIn {
    outcomes: Vec<Option<bool>>,
}

impl View for FanIn {
    type V = Outcomes;

    closed spec fn view(&self) -> Outcomes {
        self.outcomes@
    }
}

impl FanIn {
    /// Starts to wait for `n` actions.
    pub fn new(n: usize) -> (fan_in: Self)
        ensures
            fan_in@ == dispatched(n as nat),
    {
        let mut outcomes: Vec<Option<bool>> = Vec::new();
        let mut i: usize = 0;
        while i < n
            invariant
                i <= n,
                outcomes@ =~= dispatched(i as nat),
            decreases n - i,
        {
            outcomes.push(None);
            i += 1;
        }
        FanIn { outcomes }
    }

    /// Starts to wait for the actions of a shutdown: first its calls, in
    /// order, then its publications, in order.
    pub fn for_actions(actions: &ShutdownActions) -> (fan_in: Self)
        ensures
            fan_in@ == dispatched(actions.calls@.len() + actions.publishes@.len()),
    {
        let mut outcomes: Vec<Option<bool>> = Vec::new();
        let calls: usize = actions.calls.len();
        let mut i: usize = 0;
        while i < calls
            invariant
                calls == actions.calls@.len(),
                i <= calls,
                outcomes@ =~= dispatched(i as nat),
            decreases calls - i,
        {
            outcomes.push(None);
            i += 1;
        }
        let publishes: usize = actions.publishes.len();
        let mut j: usize = 0;
        while j < publishes
            invariant
                publishes == actions.publishes@.len(),
                j <= publishes,
                outcomes@ =~= dispatched(calls as nat + j as nat),
            decreases publishes - j,
        {
            outcomes.push(None);
            j += 1;
        }
        FanIn { outcomes }
    }

    /// Takes the report of action `index` and tells whether the fan-out is
    /// complete with it. A failure is recorded like a success: it neither
    /// ends the wait for the other actions nor keeps it from ending.
    pub fn resolve(&mut self, index: usize, succeeded: bool) -> (complete: bool)
        ensures
            final(self)@ == record(old(self)@, index as int, succeeded),
            complete == all_resolved(final(self)@),
    {
        if index < self.outcomes.len() {
            if self.outcomes[index].is_none() {
                self.outcomes.set(index, Some(succeeded));
            }
        }
        self.is_complete()
    }

    /// Whether every dispatched action has resolved, whatever its outcome.
    pub fn is_complete(&self) -> (complete: bool)
        ensures
            complete == all_resolved(self@),
    {
        let n: usize = self.outcomes.len();
        let mut i: usize = 0;
        while i < n
            invariant
                n == self.outcomes@.len(),
                i <= n,
                forall|k: int| 0 <= k < i ==> (#[trigger] self.outcomes@[k]) is Some,
            decreases n - i,
        {
            if self.outcomes[i].is_none() {
                return false;
            }
            i += 1;
        }
        true
    }

    /// The number of actions that were dispatched.
    pub fn len(&self) -> (n: usize)
        ensures
            n == self@.len(),
    {
        self.outcomes.len()
    }

    /// The number of actions that have reported a failure so far.
    pub fn failures(&self) -> (count: usize)
        ensures
            count == failed(self@),
    {
        let n: usize = self.outcomes.len();
        let mut count: usize = 0;
        let mut i: usize = 0;
        while i < n
            invariant
                n == self.outcomes@.len(),
                i <= n,
                count <= i,
                count == failed(self.outcomes@.take(i as int)),
            decreases n - i,
        {
            proof {
                assert(self.outcomes@.take(i + 1).drop_last() =~= self.outcomes@.take(i as int));
            }
            match self.outcomes[i] {
                Some(false) => {
                    count += 1;
                },
                _ => {},
            }
            i += 1;
        }
        proof {
            assert(self.outcomes@.take(n as int) =~= self.outcomes@);
        }
        count
    }
}

/// Whether the reports name action `index`.
pub open spec fn reported(reports: Seq<(int, bool)>, index: int) -> bool {
    exists|k: int| 0 <= k < reports.len() && (#[trigger] reports[k]).0 == index
}

/// Fan-out completion: a fan-out of `n` actions is complete exactly when
/// each of the `n` has reported, in whatever order and with whatever
/// outcome. A failure does not end the wait early, and does not prolong it.
pub proof fn completion(n: nat, reports: Seq<(int, bool)>)
    ensures
        all_resolved(record_all(dispatched(n), reports)) <==> forall|i: int|
            0 <= i < n ==> reported(reports, i),
{
    resolved_iff_reported(n, reports);
    let state = record_all(dispatched(n), reports);
    if all_resolved(state) {
        assert forall|i: int| 0 <= i < n implies reported(reports, i) by {
            assert(state[i] is Some);
        }
    }
}

/// After any reports, the fan-out still has its `n` entries, and an entry is
/// resolved exactly when its action is among the reports.
proof fn resolved_iff_reported(n: nat, reports: Seq<(int, bool)>)
    ensures
        record_all(dispatched(n), reports).len() == n,
        forall|i: int|
            0 <= i < n ==> ((#[trigger] record_all(dispatched(n), reports)[i]) is Some
                <==> reported(reports, i)),
    decreases reports.len(),
{
    if reports.len() > 0 {
        let earlier = reports.drop_last();
        resolved_iff_reported(n, earlier);
        let before = record_all(dispatched(n), earlier);
        let after = record_all(dispatched(n), reports);
        assert forall|i: int| 0 <= i < n implies ((#[trigger] after[i]) is Some <==> reported(
            reports,
            i,
        )) by {
            if reported(earlier, i) {
                let k = choose|k: int| 0 <= k < earlier.len() && (#[trigger] earlier[k]).0 == i;
                assert(reports[k].0 == i);
            }
            if reports.last().0 == i {
                assert(reports[reports.len() - 1].0 == i);
            }
            if reported(reports, i) && reports.last().0 != i {
                let k = choose|k: int| 0 <= k < reports.len() && (#[trigger] reports[k]).0 == i;
                assert(earlier[k].0 == i);
            }
        }
    }
}

} // verus!
