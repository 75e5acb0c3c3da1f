//! The connection supervisor: what to do next, given what just happened.
//!
//! The supervisor holds no connection. Whoever runs it opens, reads and
//! waits, reports each outcome as an event, and is told the next action. A
//! failed open, a stream that ends and a frame past the size limit all lead
//! to a new open after a wait; the waits follow the backoff policy and are
//! never reset, so they only grow. A malformed telegram is skipped and the
//! stream is read on. Only cancellation stops the supervisor.

use crate::backoff::{lemma_grown_between, BackoffPolicy};
use crate::decoder::DecodeError;
use dsmr5::state::State;
use vstd::prelude::*;

verus! {

/// Where the supervisor stands.
#[derive(Debug, Clone, Copy, PartialEq, Eq, Structural)]
pub enum Phase {
    /// Not started.
    Idle,
    /// An open was asked for and its outcome is awaited.
    Connecting,
    /// The connection is open and the next frame is awaited.
    Reading,
    /// Cancelled.
    Stopped,
}

/// What happened.
#[derive(Debug, Clone, Copy, PartialEq, Eq, Structural)]
pub enum Event {
    /// The supervisor is set going.
    Started,
    /// The connection could not be opened.
    OpenFailed,
    /// The connection is open.
    Opened,
    /// A telegram was decoded.
    Decoded,
    /// A frame was cut out and was no telegram.
    Malformed,
    /// The buffer passed the size limit.
    FrameTooLong,
    /// The stream ended.
    StreamEnded,
    /// The shutdown signal arrived.
    Cancelled,
}

/// What to do.
#[derive(Debug, Clone, Copy, PartialEq, Eq, Structural)]
pub enum Action {
    /// Drop the connection and its buffer, if there are any, wait `after`
    /// milliseconds and open the connection.
    Open { after: u64 },
    /// Read the next frame.
    Read,
    /// Apply the telegram just decoded to the store, then read the next frame.
    Apply,
    /// Report the malformed telegram, then read the next frame.
    Skip,
    /// Give up the connection and return.
    Stop,
    /// The event does not belong to the phase: do as if it had not happened.
    Ignore,
}

/// The outcome of a transition.
pub struct Step {
    pub phase: Phase,
    pub interval: u64,
    pub action: Action,
}

/// The transition function. `interval` is the wait before the next open
/// that follows a failure.
pub open spec fn transition(
    policy: BackoffPolicy,
    phase: Phase,
    interval: u64,
    event: Event,
) -> Step {
    let retry = Step {
        phase: Phase::Connecting,
        interval: policy.grown(interval),
        action: Action::Open { after: interval },
    };
    let ignore = Step { phase, interval, action: Action::Ignore };
    match (phase, event) {
        (Phase::Stopped, _) => Step { phase, interval, action: Action::Stop },
        (_, Event::Cancelled) => Step { phase: Phase::Stopped, interval, action: Action::Stop },
        (Phase::Idle, Event::Started) => Step {
            phase: Phase::Connecting,
            interval,
            action: Action::Open { after: 0 },
        },
        (Phase::Connecting, Event::OpenFailed) => retry,
        (Phase::Connecting, Event::Opened) => Step {
            phase: Phase::Reading,
            interval,
            action: Action::Read,
        },
        (Phase::Reading, Event::Decoded) => Step { phase, interval, action: Action::Apply },
        (Phase::Reading, Event::Malformed) => Step { phase, interval, action: Action::Skip },
        (Phase::Reading, Event::FrameTooLong) => retry,
        (Phase::Reading, Event::StreamEnded) => retry,
        _ => ignore,
    }
}

/// The actions that a run of events leads to, one for each event.
pub open spec fn actions(
    policy: BackoffPolicy,
    phase: Phase,
    interval: u64,
    events: Seq<Event>,
) -> Seq<Action>
    decreases events.len(),
{
    if events.len() == 0 {
        Seq::empty()
    } else {
        let step = transition(policy, phase, interval, events[0]);
        seq![step.action] + actions(policy, step.phase, step.interval, events.skip(1))
    }
}

/// The event that the outcome of a look at the buffer amounts to; `None`
/// when the look only asks for more bytes.
pub open spec fn event_of(outcome: Result<Option<State>, DecodeError>) -> Option<Event> {
    match outcome {
        Ok(Some(_)) => Some(Event::Decoded),
        Ok(None) => None,
        Err(DecodeError::MalformedTelegram) => Some(Event::Malformed),
        Err(DecodeError::FrameTooLong) => Some(Event::FrameTooLong),
    }
}

/// The event that the outcome of a look at the buffer amounts to.
pub fn read_event(outcome: &Result<Option<State>, DecodeError>) -> (r: Option<Event>)
    ensures
        r == event_of(*outcome),
{
    match outcome {
        Ok(Some(_)) => Some(Event::Decoded),
        Ok(None) => None,
        Err(DecodeError::MalformedTelegram) => Some(Event::Malformed),
        Err(DecodeError::FrameTooLong) => Some(Event::FrameTooLong),
    }
}

/// The supervisor's state.
pub struct Supervisor {
    policy: BackoffPolicy,
    phase: Phase,
    interval: u64,
}

impl Supervisor {
    #[verifier::type_invariant]
    spec fn inv(self) -> bool {
        &&& self.policy.valid()
        &&& self.policy.initial_interval() <= self.interval <= self.policy.max_interval()
    }

    /// The policy that the waits follow.
    pub closed spec fn policy(self) -> BackoffPolicy {
        self.policy
    }

    /// Where the supervisor stands.
    pub closed spec fn phase(self) -> Phase {
        self.phase
    }

    /// The wait before the next open that follows a failure.
    pub closed spec fn interval(self) -> u64 {
        self.interval
    }

    /// A supervisor that has not started.
    pub fn new(policy: BackoffPolicy) -> (supervisor: Self)
        ensures
            supervisor.policy() == policy,
            supervisor.phase() == Phase::Idle,
            supervisor.interval() == policy.initial_interval(),
    {
        proof {
            use_type_invariant(&policy);
        }
        let interval = policy.first_interval();
        Supervisor { policy, phase: Phase::Idle, interval }
    }

    /// Where the supervisor stands.
    pub fn current_phase(&self) -> (phase: Phase)
        ensures
            phase == self.phase(),
    {
        self.phase
    }

    /// Takes an event and says what to do next.
    pub fn step(&mut self, event: Event) -> (action: Action)
        ensures
            final(self).policy() == old(self).policy(),
            (Step { phase: final(self).phase(), interval: final(self).interval(), action })
                == transition(old(self).policy(), old(self).phase(), old(self).interval(), event),
    {
        proof {
            use_type_invariant(&*self);
            lemma_grown_between(self.policy, self.interval);
        }
        match (self.phase, event) {
            (Phase::Stopped, _) => Action::Stop,
            (_, Event::Cancelled) => {
                self.phase = Phase::Stopped;
                Action::Stop
            },
            (Phase::Idle, Event::Started) => {
                self.phase = Phase::Connecting;
                Action::Open { after: 0 }
            },
            (Phase::Connecting, Event::Opened) => {
                self.phase = Phase::Reading;
                Action::Read
            },
            (Phase::Reading, Event::Decoded) => Action::Apply,
            (Phase::Reading, Event::Malformed) => Action::Skip,
            (Phase::Connecting, Event::OpenFailed)
            | (Phase::Reading, Event::FrameTooLong)
            | (Phase::Reading, Event::StreamEnded) => {
                let after = self.interval;
                self.interval = self.policy.next_interval(after);
                self.phase = Phase::Connecting;
                Action::Open { after }
            },
            _ => Action::Ignore,
        }
    }
}

/// The interval is one that the policy can have reached.
pub open spec fn in_range(policy: BackoffPolicy, interval: u64) -> bool {
    policy.initial_interval() <= interval <= policy.max_interval()
}

/// Every event gets its action.
pub proof fn lemma_one_action_each(
    policy: BackoffPolicy,
    phase: Phase,
    interval: u64,
    events: Seq<Event>,
)
    ensures
        actions(policy, phase, interval, events).len() == events.len(),
    decreases events.len(),
{
    if events.len() > 0 {
        let step = transition(policy, phase, interval, events[0]);
        lemma_one_action_each(policy, step.phase, step.interval, events.skip(1));
    }
}

/// No wait is longer than the cap, and once the supervisor is started none
/// is shorter than the interval it has reached.
pub proof fn lemma_waits_bounded(
    policy: BackoffPolicy,
    phase: Phase,
    interval: u64,
    events: Seq<Event>,
    k: int,
)
    requires
        policy.valid(),
        in_range(policy, interval),
        0 <= k < events.len(),
    ensures
        actions(policy, phase, interval, events).len() == events.len(),
        actions(policy, phase, interval, events)[k] matches Action::Open { after } ==> {
            &&& after <= policy.max_interval()
            &&& phase != Phase::Idle ==> interval <= after
        },
    decreases events.len(),
{
    lemma_one_action_each(policy, phase, interval, events);
    lemma_grown_between(policy, interval);
    let step = transition(policy, phase, interval, events[0]);
    if k > 0 {
        lemma_one_action_each(policy, step.phase, step.interval, events.skip(1));
        lemma_waits_bounded(policy, step.phase, step.interval, events.skip(1), k - 1);
    }
}

/// Whatever happens, in whatever order: of two waits the later is at least
/// as long as the earlier, and none is longer than the cap.
pub proof fn lemma_waits_never_shrink(
    policy: BackoffPolicy,
    phase: Phase,
    interval: u64,
    events: Seq<Event>,
    i: int,
    j: int,
)
    requires
        policy.valid(),
        in_range(policy, interval),
        0 <= i < j < events.len(),
    ensures
        actions(policy, phase, interval, events).len() == events.len(),
        ({
            let all = actions(policy, phase, interval, events);
            all[i] matches Action::Open { after: earlier } ==> (all[j] matches Action::Open {
                after: later,
            } ==> earlier <= later <= policy.max_interval())
        }),
    decreases events.len(),
{
    lemma_one_action_each(policy, phase, interval, events);
    lemma_grown_between(policy, interval);
    let step = transition(policy, phase, interval, events[0]);
    lemma_one_action_each(policy, step.phase, step.interval, events.skip(1));
    if i == 0 {
        lemma_waits_bounded(policy, step.phase, step.interval, events.skip(1), j - 1);
    } else {
        lemma_waits_never_shrink(policy, step.phase, step.interval, events.skip(1), i - 1, j - 1);
    }
}

/// The event reports the outcome of what the action asked for.
pub open spec fn answers(action: Action, event: Event) -> bool {
    match action {
        Action::Open { .. } => event == Event::Opened || event == Event::OpenFailed,
        Action::Read | Action::Apply | Action::Skip => {
            ||| event == Event::Decoded
            ||| event == Event::Malformed
            ||| event == Event::FrameTooLong
            ||| event == Event::StreamEnded
        },
        Action::Stop | Action::Ignore => false,
    }
}

/// The phase is the one in which the outcome of the action is awaited.
pub open spec fn awaited_in(action: Action, phase: Phase) -> bool {
    match action {
        Action::Open { .. } => phase == Phase::Connecting,
        Action::Read | Action::Apply | Action::Skip => phase == Phase::Reading,
        Action::Stop => phase == Phase::Stopped,
        Action::Ignore => true,
    }
}

/// Whoever does what each action asks and reports the outcome is never
/// ignored and never told to stop: the answer to an action leads to an
/// action that can be answered in turn.
pub proof fn lemma_answers_lead_on(
    policy: BackoffPolicy,
    phase: Phase,
    interval: u64,
    action: Action,
    event: Event,
)
    requires
        awaited_in(action, phase),
        answers(action, event),
    ensures
        ({
            let step = transition(policy, phase, interval, event);
            &&& step.action != Action::Stop
            &&& step.action != Action::Ignore
            &&& awaited_in(step.action, step.phase)
        }),
{
}

/// The first action can be answered, and every action is awaited in the
/// phase it leads to.
pub proof fn lemma_actions_are_awaited(
    policy: BackoffPolicy,
    phase: Phase,
    interval: u64,
    event: Event,
)
    ensures
        transition(policy, Phase::Idle, interval, Event::Started).action == (Action::Open {
            after: 0,
        }),
        transition(policy, phase, interval, event).action != Action::Ignore ==> awaited_in(
            transition(policy, phase, interval, event).action,
            transition(policy, phase, interval, event).phase,
        ),
{
}

/// Only cancellation stops the supervisor: without it no action is `Stop`
/// and the supervisor is never `Stopped`.
pub proof fn lemma_only_cancellation_stops(
    policy: BackoffPolicy,
    phase: Phase,
    interval: u64,
    event: Event,
)
    requires
        phase != Phase::Stopped,
        event != Event::Cancelled,
    ensures
        transition(policy, phase, interval, event).action != Action::Stop,
        transition(policy, phase, interval, event).phase != Phase::Stopped,
{
}

/// Cancellation stops the supervisor in every phase, and for good.
pub proof fn lemma_cancellation_stops(
    policy: BackoffPolicy,
    phase: Phase,
    interval: u64,
    event: Event,
)
    ensures
        transition(policy, phase, interval, Event::Cancelled).action == Action::Stop,
        transition(policy, phase, interval, Event::Cancelled).phase == Phase::Stopped,
        transition(policy, Phase::Stopped, interval, event).action == Action::Stop,
        transition(policy, Phase::Stopped, interval, event).phase == Phase::Stopped,
{
}

} // verus!
