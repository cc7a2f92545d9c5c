//! The life of the broker process: what is done first, and what is done once the runtime
//! has returned. Starting the runtime is left to the caller, who either reports back with
//! an event or hands `run` the operation that starts it.

use crate::config::BrokerConfig;
use vstd::pervasive::unreached;
use vstd::prelude::*;

verus! {

/// Why the broker runtime gave up.
#[derive(Debug, PartialEq, Eq)]
pub struct BrokerError {
    /// What the runtime said of the failure.
    pub message: String,
}

/// Where the process stands.
#[derive(Debug, PartialEq, Eq)]
pub enum BrokerLifecycle {
    /// The configuration is built and the runtime has not been started.
    Ready(BrokerConfig),
    /// The runtime has the configuration and is running.
    Running,
    /// The runtime has returned; nothing more is done.
    Finished,
}

/// What the caller reports.
#[derive(Debug, PartialEq, Eq)]
pub enum Event {
    /// The process is set up and the broker may start.
    Begin,
    /// The start operation of the runtime returned this outcome.
    Stopped(Result<(), BrokerError>),
}

/// What the caller is told to do.
#[derive(Debug, PartialEq, Eq)]
pub enum Action {
    /// Construct the runtime from this configuration, without an authentication channel,
    /// start it, and report `Event::Stopped` with what the start operation returns.
    Start(BrokerConfig),
    /// End the run with this outcome.
    Exit(Result<(), BrokerError>),
    /// The event does not belong to this state: do nothing.
    Nothing,
}

impl BrokerLifecycle {
    /// The state that follows `self` on `event`, and what the caller is to do. The
    /// configuration is handed over when the broker begins; the outcome that the runtime
    /// stops with ends the run as it is; any other event changes nothing.
    pub open spec fn next(self, event: Event) -> (BrokerLifecycle, Action) {
        match (self, event) {
            (BrokerLifecycle::Ready(config), Event::Begin) => (
                BrokerLifecycle::Running,
                Action::Start(config),
            ),
            (BrokerLifecycle::Running, Event::Stopped(outcome)) => (
                BrokerLifecycle::Finished,
                Action::Exit(outcome),
            ),
            _ => (self, Action::Nothing),
        }
    }

    /// The state reached from `self` by `events` in their order, and the actions taken on
    /// the way, one for each event.
    pub open spec fn replay(self, events: Seq<Event>) -> (BrokerLifecycle, Seq<Action>)
        decreases events.len(),
    {
        if events.len() == 0 {
            (self, Seq::empty())
        } else {
            let before = self.replay(events.drop_last());
            let last = before.0.next(events.last());
            (last.0, before.1.push(last.1))
        }
    }

    /// Decides what follows `self` on `event`.
    pub fn step(self, event: Event) -> (next: (BrokerLifecycle, Action))
        ensures
            next == self.next(event),
    {
        match (self, event) {
            (BrokerLifecycle::Ready(config), Event::Begin) => (
                BrokerLifecycle::Running,
                Action::Start(config),
            ),
            (BrokerLifecycle::Running, Event::Stopped(outcome)) => (
                BrokerLifecycle::Finished,
                Action::Exit(outcome),
            ),
            (state, _) => (state, Action::Nothing),
        }
    }

    /// Runs the broker to its end. `start` stands for the runtime: it is given the
    /// configuration, once, and what it returns is returned as it is, success or failure.
    /// There is no second attempt. `start` may block for as long as the broker lives.
    pub fn run<F: FnOnce(BrokerConfig) -> Result<(), BrokerError>>(
        config: BrokerConfig,
        start: F,
    ) -> (outcome: Result<(), BrokerError>)
        requires
            call_requires(start, (config,)),
        ensures
            call_ensures(start, (config,), outcome),
    {
        let (state, action) = BrokerLifecycle::Ready(config).step(Event::Begin);
        match action {
            Action::Start(config) => {
                let stopped = start(config);
                let (_, action) = state.step(Event::Stopped(stopped));
                match action {
                    Action::Exit(outcome) => outcome,
                    _ => unreached(),
                }
            },
            _ => unreached(),
        }
    }
}

/// How many of `actions` start the runtime.
pub open spec fn starts(actions: Seq<Action>) -> nat
    decreases actions.len(),
{
    if actions.len() == 0 {
        0
    } else {
        starts(actions.drop_last()) + if actions.last() is Start {
            1nat
        } else {
            0nat
        }
    }
}

/// How many of `actions` end the run.
pub open spec fn exits(actions: Seq<Action>) -> nat
    decreases actions.len(),
{
    if actions.len() == 0 {
        0
    } else {
        exits(actions.drop_last()) + if actions.last() is Exit {
            1nat
        } else {
            0nat
        }
    }
}

/// Whatever is reported and in whatever order, the runtime is started at most once and the
/// run ends at most once: a failure is never followed by another start. A process that is
/// past `Ready` starts nothing, and one that is finished does nothing at all.
pub proof fn lemma_started_and_ended_at_most_once(state: BrokerLifecycle, events: Seq<Event>)
    ensures
        starts(state.replay(events).1) <= 1,
        exits(state.replay(events).1) <= 1,
        state.replay(events).0 is Ready ==> starts(state.replay(events).1) == 0 && exits(
            state.replay(events).1,
        ) == 0,
        state.replay(events).0 is Running ==> exits(state.replay(events).1) == 0,
        !(state is Ready) ==> starts(state.replay(events).1) == 0 && !(state.replay(events).0
            is Ready),
        state is Finished ==> exits(state.replay(events).1) == 0 && state.replay(events).0
            is Finished,
    decreases events.len(),
{
    if events.len() > 0 {
        lemma_started_and_ended_at_most_once(state, events.drop_last());
        assert(state.replay(events).1.drop_last() =~= state.replay(events.drop_last()).1);
    }
}

/// A run that begins and is then told that the runtime stopped ends with the outcome that
/// the runtime gave, unchanged, whether success or failure.
pub proof fn lemma_outcome_is_passed_on(config: BrokerConfig, outcome: Result<(), BrokerError>)
    ensures
        BrokerLifecycle::Ready(config).replay(seq![Event::Begin, Event::Stopped(outcome)]) == (
            BrokerLifecycle::Finished,
            seq![Action::Start(config), Action::Exit(outcome)],
        ),
{
    let events = seq![Event::Begin, Event::Stopped(outcome)];
    reveal_with_fuel(BrokerLifecycle::replay, 3);
    assert(BrokerLifecycle::Ready(config).replay(events).1 =~= seq![
        Action::Start(config),
        Action::Exit(outcome),
    ]);
}

} // verus!
