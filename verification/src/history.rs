//! What holds of the dispatcher over a whole stream of events.
//!
//! A history is a sequence of events fed to a dispatcher one after the
//! other; its trace is the sequence of all effects that were answered.

use crate::dispatcher::{
    lemma_after_keeps_well_formed, Deploy, DispatchError, Dispatcher, Effect, State,
};
use crate::event::Event;
use crate::spec::Stop;
use vstd::prelude::*;

verus! {

/// Whether the deployment of generation `generation` runs once the backend
/// has carried out `trace`: the last effect about it started it.
pub open spec fn runs_after(trace: Seq<Effect>, generation: u64) -> bool
    decreases trace.len(),
{
    if trace.len() == 0 {
        false
    } else if trace.last().subject().generation == generation {
        trace.last() is Start
    } else {
        runs_after(trace.drop_last(), generation)
    }
}

/// Every stop in `trace` hits a deployment that runs at that point.
pub open spec fn stops_only_running(trace: Seq<Effect>) -> bool {
    forall|i: int|
        0 <= i < trace.len() && (#[trigger] trace[i]).is_stop() ==> runs_after(
            trace.take(i),
            trace[i].subject().generation,
        )
}

impl State {
    /// The held deployments that the backend was told to run and has not
    /// been told to stop: all but a stable one that made room for its
    /// successor.
    pub open spec fn live(self) -> Seq<Deploy> {
        match self {
            State::WaitingForNewStable { candidate, .. } => seq![candidate],
            _ => self.deploys(),
        }
    }
}

impl Dispatcher {
    /// The dispatcher after the events of `events`, taken in order.
    pub open spec fn run(self, events: Seq<Event>) -> Dispatcher
        decreases events.len(),
    {
        if events.len() == 0 {
            self
        } else {
            self.run(events.drop_last()).after(events.last())
        }
    }

    /// All effects answered to the events of `events`, in order.
    pub open spec fn trace(self, events: Seq<Event>) -> Seq<Effect>
        decreases events.len(),
    {
        if events.len() == 0 {
            Seq::empty()
        } else {
            self.trace(events.drop_last()) + self.run(events.drop_last()).effects_of(events.last())
        }
    }

    /// The link between a dispatcher and the effects answered so far: what
    /// is live runs, nothing younger than the next generation was ever
    /// touched, and no stop hit a deployment that did not run.
    pub open spec fn agrees_with(self, trace: Seq<Effect>) -> bool {
        &&& self.well_formed()
        &&& stops_only_running(trace)
        &&& forall|i: int|
            0 <= i < self.state.live().len() ==> runs_after(
                trace,
                (#[trigger] self.state.live()[i]).generation,
            )
    }
}

/// Appending effects about other deployments does not change whether a
/// deployment runs.
proof fn lemma_runs_after_push(trace: Seq<Effect>, effect: Effect, generation: u64)
    ensures
        runs_after(trace.push(effect), generation) == if effect.subject().generation
            == generation {
            effect is Start
        } else {
            runs_after(trace, generation)
        },
{
    assert(trace.push(effect).drop_last() =~= trace);
}

/// A trace in which every stop hit a running deployment stays so when an
/// effect is appended that is a start, or a stop of a running deployment.
proof fn lemma_stops_only_running_push(trace: Seq<Effect>, effect: Effect)
    requires
        stops_only_running(trace),
        effect.is_stop() ==> runs_after(trace, effect.subject().generation),
    ensures
        stops_only_running(trace.push(effect)),
{
    let longer = trace.push(effect);
    assert forall|i: int| 0 <= i < longer.len() && (#[trigger] longer[i]).is_stop() implies runs_after(
        longer.take(i),
        longer[i].subject().generation,
    ) by {
        if i < trace.len() {
            assert(longer.take(i) =~= trace.take(i));
            assert(longer[i] == trace[i]);
        } else {
            assert(longer.take(i) =~= trace);
        }
    }
}

/// One event keeps a dispatcher in agreement with its trace.
pub proof fn lemma_after_keeps_agreement(d: Dispatcher, trace: Seq<Effect>, event: Event)
    requires
        d.agrees_with(trace),
    ensures
        d.after(event).agrees_with(trace + d.effects_of(event)),
{
    lemma_after_keeps_well_formed(d, event);
    let next = d.after(event);
    let effects = d.effects_of(event);
    if d.refusal(event) is Some {
        assert(trace + effects =~= trace);
    } else {
        match (d.state, event) {
            (State::Start, Event::NewSpec(spec)) => {
                let candidate = Deploy::of(spec, d.next_generation);
                let start = Effect::Start(candidate);
                assert(trace + effects =~= trace.push(start));
                lemma_stops_only_running_push(trace, start);
                lemma_runs_after_push(trace, start, candidate.generation);
                assert(next.state.live()[0] == candidate);
            },
            (State::RunningStable { current }, Event::NewSpec(spec)) => {
                let candidate = Deploy::of(spec, d.next_generation);
                let start = Effect::Start(candidate);
                assert(d.state.live()[0] == current);
                assert(d.state.deploys()[0] == current);
                match spec.stop {
                    Stop::Before => {
                        let stop = Effect::stop_of(current);
                        assert(trace + effects =~= trace.push(stop).push(start));
                        lemma_stops_only_running_push(trace, stop);
                        lemma_stops_only_running_push(trace.push(stop), start);
                        lemma_runs_after_push(trace.push(stop), start, candidate.generation);
                        assert(next.state.live()[0] == candidate);
                    },
                    Stop::AfterTimeout(_) => {
                        assert(trace + effects =~= trace.push(start));
                        lemma_stops_only_running_push(trace, start);
                        lemma_runs_after_push(trace, start, candidate.generation);
                        lemma_runs_after_push(trace, start, current.generation);
                        assert(next.state.live()[0] == current);
                        assert(next.state.live()[1] == candidate);
                    },
                }
            },
            (State::WaitingForFirstStable { candidate }, Event::DeployFailed) => {
                assert(trace + effects =~= trace);
            },
            (State::WaitingForFirstStable { candidate }, Event::GotStable) => {
                assert(trace + effects =~= trace);
                assert(d.state.live()[0] == candidate);
                assert(next.state.live()[0] == candidate);
            },
            (State::WaitingForNewStable { last_stable, candidate }, Event::DeployFailed) => {
                let start = Effect::Start(last_stable);
                assert(trace + effects =~= trace.push(start));
                lemma_stops_only_running_push(trace, start);
                lemma_runs_after_push(trace, start, last_stable.generation);
                assert(next.state.live()[0] == last_stable);
            },
            (State::WaitingForNewStable { last_stable, candidate }, Event::GotStable) => {
                assert(trace + effects =~= trace);
                assert(d.state.live()[0] == candidate);
                assert(next.state.live()[0] == candidate);
            },
            (State::RunningStableWaitingForNew { current, candidate }, Event::DeployFailed) => {
                let stop = Effect::stop_of(candidate);
                assert(d.state.live()[0] == current);
                assert(d.state.live()[1] == candidate);
                assert(trace + effects =~= trace.push(stop));
                lemma_stops_only_running_push(trace, stop);
                lemma_runs_after_push(trace, stop, current.generation);
                assert(next.state.live()[0] == current);
            },
            (State::RunningStableWaitingForNew { current, candidate }, Event::GotStable) => {
                let stop = Effect::deferred_stop_of(current, candidate.spec.stop);
                assert(d.state.live()[0] == current);
                assert(d.state.live()[1] == candidate);
                assert(trace + effects =~= trace.push(stop));
                lemma_stops_only_running_push(trace, stop);
                lemma_runs_after_push(trace, stop, candidate.generation);
                assert(next.state.live()[0] == candidate);
            },
            _ => {},
        }
    }
}

/// Whatever events arrive, a dispatcher that began empty agrees with the
/// trace of what it answered.
pub proof fn lemma_history_agrees(events: Seq<Event>)
    ensures
        Dispatcher::initial().run(events).agrees_with(Dispatcher::initial().trace(events)),
    decreases events.len(),
{
    let start = Dispatcher::initial();
    if events.len() == 0 {
        assert(start.state.deploys().len() == 0);
    } else {
        lemma_history_agrees(events.drop_last());
        lemma_after_keeps_agreement(
            start.run(events.drop_last()),
            start.trace(events.drop_last()),
            events.last(),
        );
    }
}

/// At every point of every event stream the state holds the deployments of
/// its row and no others: none at the start, one while the first is tried
/// or one runs alone, two while a successor is tried. Two held deployments
/// are never the same one, every held generation was handed out, and a
/// candidate waits where its stop policy puts it.
pub proof fn theorem_state_holds_its_row(events: Seq<Event>)
    ensures
        ({
            let d = Dispatcher::initial().run(events);
            &&& d.well_formed()
            &&& d.state.deploys().len() == match d.state {
                State::Start => 0nat,
                State::WaitingForFirstStable { .. } => 1nat,
                State::RunningStable { .. } => 1nat,
                State::WaitingForNewStable { .. } => 2nat,
                State::RunningStableWaitingForNew { .. } => 2nat,
            }
            &&& d.state.deploys().len() == 2 ==> d.state.deploys()[0].generation
                != d.state.deploys()[1].generation
        }),
{
    lemma_history_agrees(events);
}

/// In every event stream a stop, immediate or scheduled, is only ever
/// answered for a deployment that was started and has not been stopped
/// since: no deployment is stopped twice without a start in between.
pub proof fn theorem_stop_at_most_once(events: Seq<Event>)
    ensures
        stops_only_running(Dispatcher::initial().trace(events)),
{
    lemma_history_agrees(events);
}

/// A stable deployment is stopped at the point that its successor's policy
/// names. Under `Before` the answer to the descriptor is the stop of the
/// stable deployment followed by the start of the candidate. Under
/// `AfterTimeout` the answer to the descriptor is the start alone, and the
/// stop is scheduled in the answer to the candidate's `GotStable`, with the
/// policy's seconds as its delay.
pub proof fn theorem_stop_follows_policy(d: Dispatcher, event: Event)
    requires
        d.well_formed(),
        d.refusal(event) is None,
    ensures
        match (d.state, event) {
            (State::RunningStable { current }, Event::NewSpec(spec)) => {
                let candidate = Deploy::of(spec, d.next_generation);
                match spec.stop {
                    Stop::Before => d.effects_of(event) == seq![
                        Effect::stop_of(current),
                        Effect::Start(candidate),
                    ],
                    Stop::AfterTimeout(_) => d.effects_of(event) == seq![Effect::Start(candidate)],
                }
            },
            (State::RunningStableWaitingForNew { current, candidate }, Event::GotStable) => {
                &&& candidate.spec.stop matches Stop::AfterTimeout(seconds)
                &&& d.effects_of(event) == seq![
                    Effect::ScheduleStop {
                        deploy: current,
                        delay: seconds,
                        kill_timeout: current.spec.kill_timeout,
                    },
                ]
            },
            (State::RunningStableWaitingForNew { candidate, .. }, Event::DeployFailed) => {
                d.effects_of(event) == seq![Effect::stop_of(candidate)]
            },
            _ => forall|i: int|
                0 <= i < d.effects_of(event).len() ==> !(#[trigger] d.effects_of(event)[i]).is_stop(),
        },
{
}

/// While a candidate awaits its verdict, nothing but a verdict moves the
/// dispatcher: a descriptor is turned away and leaves the candidate, the
/// only one there is, where it was.
pub proof fn theorem_only_verdicts_end_a_trial(d: Dispatcher, event: Event)
    requires
        d.state.awaits_verdict(),
        !event.is_verdict(),
    ensures
        d.refusal(event) == Some(DispatchError::CandidateInFlight),
        d.after(event) == d,
        d.effects_of(event) == Seq::<Effect>::empty(),
{
}

/// A verdict that no candidate is awaiting is turned away: the dispatcher
/// says so, stays as it is and asks nothing of the backend.
pub proof fn theorem_stray_verdict_is_turned_away(d: Dispatcher, event: Event)
    requires
        event.is_verdict(),
        !d.state.awaits_verdict(),
    ensures
        d.refusal(event) == Some(DispatchError::NoCandidate),
        d.after(event) == d,
        d.effects_of(event) == Seq::<Effect>::empty(),
{
}

} // verus!
