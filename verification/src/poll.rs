use vstd::prelude::*;

use crate::bus::{
    PropertyRead, ReadOutcome, adapter_iface, bluez_service_name, powered_property,
    spec_adapter_iface, spec_bluez_service_name, spec_powered_property, PROPERTY_TIMEOUT_MS,
};
use crate::error::Error;

verus! {

/// The result of one scheduling turn of an in-flight await.
#[derive(Debug, Clone, PartialEq)]
pub enum PollTurn {
    /// The adapter read back powered: the await is complete.
    Ready,
    /// The adapter is not yet powered: yield, and poll again on a later turn.
    Pending,
    /// The read failed; the await terminates with this error.
    Failed(Error),
}

/// Whether an in-flight await still has a read to issue.
#[derive(Debug, Clone, PartialEq)]
pub enum PollState {
    /// Another read must be issued.
    Polling,
    /// A turn returned `Ready` or `Failed`; no further read is issued.
    Finished,
}

/// The full shape of the read that each poll turn issues: a read of the
/// `Powered` property on the adapter interface of the object at `path`, owned
/// by the BlueZ service, under the property timeout.
pub open spec fn is_powered_read(rq: PropertyRead, path: Seq<char>) -> bool {
    &&& rq.service@ == spec_bluez_service_name()
    &&& rq.object_path@ == path
    &&& rq.interface@ == spec_adapter_iface()
    &&& rq.property@ == spec_powered_property()
    &&& rq.timeout_ms == PROPERTY_TIMEOUT_MS
}

/// What one turn returns for a given read outcome: `true` completes the await;
/// `false` is not yet ready; a wrongly typed value and a transport fault are
/// terminal failures, never treated as "not ready".
pub open spec fn turn_result(outcome: ReadOutcome) -> PollTurn {
    match outcome {
        ReadOutcome::Value(b) => if b {
            PollTurn::Ready
        } else {
            PollTurn::Pending
        },
        ReadOutcome::WrongType => PollTurn::Failed(Error::TypeMismatch),
        ReadOutcome::Failed(m) => PollTurn::Failed(Error::Transport(m)),
    }
}

/// An await of the adapter's `Powered` property reading back `true`: a
/// two-state machine driven by a cooperative scheduler. On each turn the
/// driver issues the read that `read_request` describes, hands the outcome to
/// `step`, and completes, yields or fails as the returned turn says. The
/// machine performs no bus calls of its own, so abandoning it at any pending
/// turn issues nothing further and leaves the adapter's bus-side state
/// untouched.
#[derive(Debug, Clone)]
pub struct PoweredPoll {
    pub object_path: String,
    pub state: PollState,
}

impl PoweredPoll {
    /// The read this machine's next turn issues, determined by the adapter's
    /// identity alone.
    pub fn read_request(&self) -> (r: PropertyRead)
        ensures
            is_powered_read(r, self.object_path@),
    {
        PropertyRead {
            service: bluez_service_name().to_owned(),
            object_path: self.object_path.clone(),
            interface: adapter_iface().to_owned(),
            property: powered_property().to_owned(),
            timeout_ms: PROPERTY_TIMEOUT_MS,
        }
    }

    /// Whether another read is still owed. Drivers consult this before
    /// stepping: a finished machine takes no further turn.
    pub fn is_polling(&self) -> (r: bool)
        ensures
            r == (self.state is Polling),
    {
        match self.state {
            PollState::Polling => true,
            PollState::Finished => false,
        }
    }

    /// Take one scheduling turn, given the outcome of the read this turn
    /// issued. The turn is exactly `turn_result(outcome)`, and the machine
    /// keeps polling precisely when the turn is `Pending`.
    pub fn step(&mut self, outcome: ReadOutcome) -> (r: PollTurn)
        requires
            old(self).state is Polling,
        ensures
            r == turn_result(outcome),
            final(self).object_path@ == old(self).object_path@,
            final(self).state is Polling <==> r is Pending,
    {
        match outcome {
            ReadOutcome::Value(true) => {
                self.state = PollState::Finished;
                PollTurn::Ready
            },
            ReadOutcome::Value(false) => PollTurn::Pending,
            ReadOutcome::WrongType => {
                self.state = PollState::Finished;
                PollTurn::Failed(Error::TypeMismatch)
            },
            ReadOutcome::Failed(m) => {
                self.state = PollState::Finished;
                PollTurn::Failed(Error::Transport(m))
            },
        }
    }
}

/// The turn on which an await completes, given the outcomes that the reads of
/// successive turns observe: the least index whose outcome ends the poll, or
/// `None` when every listed outcome merely yields.
pub open spec fn completion_turn(outcomes: Seq<ReadOutcome>) -> Option<int>
    decreases outcomes.len(),
{
    if outcomes.len() == 0 {
        None
    } else if !(turn_result(outcomes[0]) is Pending) {
        Some(0)
    } else {
        match completion_turn(outcomes.drop_first()) {
            None => None,
            Some(i) => Some(i + 1),
        }
    }
}

/// Poll termination: when the read of the first turn yields `true`, the await
/// completes on that very turn.
pub proof fn lemma_poll_termination(outcomes: Seq<ReadOutcome>)
    requires
        outcomes.len() > 0,
        outcomes[0] == ReadOutcome::Value(true),
    ensures
        turn_result(outcomes[0]) == PollTurn::Ready,
        completion_turn(outcomes) == Some(0int),
{
}

/// Poll progression: when the reads of the first `n` turns yield `false` and
/// the read of turn `n` yields `true`, the await completes on turn `n` and not
/// earlier — every earlier turn merely yields.
pub proof fn lemma_poll_progression(outcomes: Seq<ReadOutcome>, n: int)
    requires
        0 <= n < outcomes.len(),
        forall|i: int| 0 <= i < n ==> outcomes[i] == ReadOutcome::Value(false),
        outcomes[n] == ReadOutcome::Value(true),
    ensures
        completion_turn(outcomes) == Some(n),
        turn_result(outcomes[n]) == PollTurn::Ready,
        forall|i: int| 0 <= i < n ==> turn_result(outcomes[i]) == PollTurn::Pending,
    decreases n,
{
    if n > 0 {
        let rest = outcomes.drop_first();
        assert forall|i: int| 0 <= i < n - 1 implies rest[i] == ReadOutcome::Value(false) by {
            assert(rest[i] == outcomes[i + 1]);
        }
        lemma_poll_progression(rest, n - 1);
    }
}

} // verus!
