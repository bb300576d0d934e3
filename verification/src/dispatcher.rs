//! The rollout state machine.
//!
//! The dispatcher owns the answer to "what is running, and why". It is told
//! events and answers each with the effects that the deploy backend has to
//! carry out, in order. It performs none of them itself.
//!
//! An event that has no meaning in the present state is turned away: the
//! dispatcher says why and stays as it is. That holds for a verdict that no
//! candidate is awaiting and for a descriptor that arrives while a
//! candidate is still being tried; such a descriptor is neither queued nor
//! does it supersede the candidate.

use crate::event::Event;
use crate::spec::{Spec, Stop};
use std::sync::Arc;
use vstd::prelude::*;

verus! {

/// One attempt to realise a descriptor. It is made once, never changed, and
/// told apart from every other attempt by its generation.
#[derive(Debug)]
pub struct Deploy {
    pub spec: Arc<Spec>,
    pub generation: u64,
}

/// `Arc::clone`: another handle on the same value.
#[verifier::external_body]
fn share(spec: &Arc<Spec>) -> (r: Arc<Spec>)
    ensures
        r == *spec,
{
    Arc::clone(spec)
}

impl Deploy {
    /// The deployment of `spec` with the given generation.
    pub open spec fn of(spec: Spec, generation: u64) -> Deploy {
        Deploy { spec: Arc::new(spec), generation }
    }

    pub fn new(spec: Spec, generation: u64) -> (r: Deploy)
        ensures
            r == Deploy::of(spec, generation),
    {
        Deploy { spec: Arc::new(spec), generation }
    }
}

impl Clone for Deploy {
    fn clone(&self) -> (r: Self)
        ensures
            r == *self,
    {
        Deploy { spec: share(&self.spec), generation: self.generation }
    }
}

impl Stop {
    /// The seconds for which the old deployment is kept once the new one has
    /// proved healthy.
    pub open spec fn delay(self) -> u16 {
        match self {
            Stop::Before => 0,
            Stop::AfterTimeout(seconds) => seconds,
        }
    }

    pub fn grace(&self) -> (r: u16)
        ensures
            r == self.delay(),
    {
        match self {
            Stop::Before => 0,
            Stop::AfterTimeout(seconds) => *seconds,
        }
    }
}

/// What the dispatcher holds between two events.
#[derive(Debug, Clone)]
pub enum State {
    /// Nothing runs and nothing is being tried.
    Start,
    /// The first deployment was started and has not yet proved healthy.
    WaitingForFirstStable { candidate: Deploy },
    /// One deployment runs and is healthy.
    RunningStable { current: Deploy },
    /// The healthy deployment was stopped to make room; its successor has
    /// not yet proved healthy.
    WaitingForNewStable { last_stable: Deploy, candidate: Deploy },
    /// The healthy deployment still runs beside a successor that has not yet
    /// proved healthy.
    RunningStableWaitingForNew { current: Deploy, candidate: Deploy },
}

/// One call that the deploy backend is to make.
#[derive(Debug, Clone)]
pub enum Effect {
    /// Launch the deployment and evaluate its health.
    Start(Deploy),
    /// Stop the deployment now, giving it `kill_timeout` to end.
    Stop { deploy: Deploy, kill_timeout: Option<u16> },
    /// Stop the deployment `delay` seconds from now, giving it
    /// `kill_timeout` to end.
    ScheduleStop { deploy: Deploy, delay: u16, kill_timeout: Option<u16> },
}

/// Why an event was turned away. The state is then as it was before.
#[derive(Debug, Clone, Copy, PartialEq, Eq, Structural)]
pub enum DispatchError {
    /// A verdict arrived while no candidate was awaiting one.
    NoCandidate,
    /// A descriptor arrived while a candidate was awaiting its verdict.
    CandidateInFlight,
    /// Every generation has been handed out.
    GenerationsExhausted,
}

impl Effect {
    /// The immediate stop of `deploy`.
    pub open spec fn stop_of(deploy: Deploy) -> Effect {
        Effect::Stop { deploy, kill_timeout: deploy.spec.kill_timeout }
    }

    /// The stop of `deploy` that `policy` asks for once its owner has proved
    /// healthy.
    pub open spec fn deferred_stop_of(deploy: Deploy, policy: Stop) -> Effect {
        Effect::ScheduleStop {
            deploy,
            delay: policy.delay(),
            kill_timeout: deploy.spec.kill_timeout,
        }
    }

    /// The deployment that the effect is about.
    pub open spec fn subject(self) -> Deploy {
        match self {
            Effect::Start(deploy) => deploy,
            Effect::Stop { deploy, .. } => deploy,
            Effect::ScheduleStop { deploy, .. } => deploy,
        }
    }

    /// Whether the effect stops its deployment, now or later.
    pub open spec fn is_stop(self) -> bool {
        self is Stop || self is ScheduleStop
    }

    pub fn deploy(&self) -> (r: &Deploy)
        ensures
            *r == self.subject(),
    {
        match self {
            Effect::Start(deploy) => deploy,
            Effect::Stop { deploy, .. } => deploy,
            Effect::ScheduleStop { deploy, .. } => deploy,
        }
    }

    pub fn stops(&self) -> (r: bool)
        ensures
            r == self.is_stop(),
    {
        match self {
            Effect::Start(_) => false,
            _ => true,
        }
    }
}

impl State {
    /// The deployments that the state holds, in the order of its fields.
    pub open spec fn deploys(self) -> Seq<Deploy> {
        match self {
            State::Start => Seq::empty(),
            State::WaitingForFirstStable { candidate } => seq![candidate],
            State::RunningStable { current } => seq![current],
            State::WaitingForNewStable { last_stable, candidate } => seq![last_stable, candidate],
            State::RunningStableWaitingForNew { current, candidate } => seq![current, candidate],
        }
    }

    /// The deployments that the state holds, in the order of its fields.
    pub fn held(&self) -> (r: Vec<Deploy>)
        ensures
            r@ == self.deploys(),
    {
        let mut held: Vec<Deploy> = Vec::new();
        match self {
            State::Start => {},
            State::WaitingForFirstStable { candidate } => {
                held.push(candidate.clone());
            },
            State::RunningStable { current } => {
                held.push(current.clone());
            },
            State::WaitingForNewStable { last_stable, candidate } => {
                held.push(last_stable.clone());
                held.push(candidate.clone());
            },
            State::RunningStableWaitingForNew { current, candidate } => {
                held.push(current.clone());
                held.push(candidate.clone());
            },
        }
        assert(held@ =~= self.deploys());
        held
    }

    /// The name of the state.
    pub open spec fn label(self) -> Seq<char> {
        match self {
            State::Start => "Start"@,
            State::WaitingForFirstStable { .. } => "WaitingForFirstStable"@,
            State::WaitingForNewStable { .. } => "WaitingForNewStable"@,
            State::RunningStable { .. } => "RunningStable"@,
            State::RunningStableWaitingForNew { .. } => "RunningStableWaitingForNew"@,
        }
    }

    pub fn name(&self) -> (r: &'static str)
        ensures
            r@ == self.label(),
    {
        match self {
            State::Start => "Start",
            State::WaitingForFirstStable { .. } => "WaitingForFirstStable",
            State::WaitingForNewStable { .. } => "WaitingForNewStable",
            State::RunningStable { .. } => "RunningStable",
            State::RunningStableWaitingForNew { .. } => "RunningStableWaitingForNew",
        }
    }

    /// Whether a candidate is awaiting its verdict.
    pub open spec fn awaits_verdict(self) -> bool {
        self is WaitingForFirstStable || self is WaitingForNewStable
            || self is RunningStableWaitingForNew
    }

    pub fn is_waiting(&self) -> (r: bool)
        ensures
            r == self.awaits_verdict(),
    {
        match self {
            State::Start => false,
            State::RunningStable { .. } => false,
            _ => true,
        }
    }

    /// The first deployment is started.
    pub open spec fn after_initial_deploy(candidate: Deploy) -> (State, Seq<Effect>) {
        (State::WaitingForFirstStable { candidate }, seq![Effect::Start(candidate)])
    }

    /// The healthy deployment is stopped, then its successor is started.
    pub open spec fn after_stop_and_deploy(current: Deploy, candidate: Deploy) -> (
        State,
        Seq<Effect>,
    ) {
        (
            State::WaitingForNewStable { last_stable: current, candidate },
            seq![Effect::stop_of(current), Effect::Start(candidate)],
        )
    }

    /// The successor is started beside the healthy deployment.
    pub open spec fn after_new_deploy(current: Deploy, candidate: Deploy) -> (
        State,
        Seq<Effect>,
    ) {
        (
            State::RunningStableWaitingForNew { current, candidate },
            seq![Effect::Start(candidate)],
        )
    }

    /// The deployment that was stopped for a failed successor is started
    /// again.
    pub open spec fn after_restore(last_stable: Deploy) -> (State, Seq<Effect>) {
        (
            State::WaitingForFirstStable { candidate: last_stable },
            seq![Effect::Start(last_stable)],
        )
    }

    /// The successor takes over; the deployment before it is retired as the
    /// successor's policy says.
    pub open spec fn after_replace(current: Deploy, candidate: Deploy) -> (State, Seq<Effect>) {
        (
            State::RunningStable { current: candidate },
            seq![Effect::deferred_stop_of(current, candidate.spec.stop)],
        )
    }

    /// The transition table: the state and the effects that answer `event`,
    /// where an accepted descriptor becomes the deployment of the given
    /// generation. `None` where the event has no meaning in this state.
    pub open spec fn step(self, event: Event, generation: u64) -> Option<(State, Seq<Effect>)> {
        match (self, event) {
            (State::Start, Event::NewSpec(spec)) => Some(
                State::after_initial_deploy(Deploy::of(spec, generation)),
            ),
            (State::RunningStable { current }, Event::NewSpec(spec)) => match spec.stop {
                Stop::Before => Some(
                    State::after_stop_and_deploy(current, Deploy::of(spec, generation)),
                ),
                Stop::AfterTimeout(_) => Some(
                    State::after_new_deploy(current, Deploy::of(spec, generation)),
                ),
            },
            (State::WaitingForFirstStable { .. }, Event::DeployFailed) => Some(
                (State::Start, Seq::empty()),
            ),
            (State::WaitingForFirstStable { candidate }, Event::GotStable) => Some(
                (State::RunningStable { current: candidate }, Seq::empty()),
            ),
            (State::WaitingForNewStable { last_stable, .. }, Event::DeployFailed) => Some(
                State::after_restore(last_stable),
            ),
            (State::WaitingForNewStable { candidate, .. }, Event::GotStable) => Some(
                (State::RunningStable { current: candidate }, Seq::empty()),
            ),
            (State::RunningStableWaitingForNew { current, candidate }, Event::DeployFailed) => Some(
                (State::RunningStable { current }, seq![Effect::stop_of(candidate)]),
            ),
            (State::RunningStableWaitingForNew { current, candidate }, Event::GotStable) => Some(
                State::after_replace(current, candidate),
            ),
            _ => None,
        }
    }
}

/// The state machine together with the generation that the next accepted
/// descriptor will carry.
#[derive(Debug)]
pub struct Dispatcher {
    pub state: State,
    pub next_generation: u64,
}

impl Dispatcher {
    /// What every dispatcher that grew out of events satisfies: each held
    /// deployment carries a generation that was handed out; where two are
    /// held the candidate is the younger one, and it waits in the state
    /// that its own stop policy asks for.
    pub open spec fn well_formed(self) -> bool {
        &&& forall|i: int|
            0 <= i < self.state.deploys().len() ==> (#[trigger] self.state.deploys()[i]).generation
                < self.next_generation
        &&& match self.state {
            State::WaitingForNewStable { last_stable, candidate } => {
                &&& last_stable.generation < candidate.generation
                &&& candidate.spec.stop is Before
            },
            State::RunningStableWaitingForNew { current, candidate } => {
                &&& current.generation < candidate.generation
                &&& candidate.spec.stop is AfterTimeout
            },
            _ => true,
        }
    }

    /// Why `event` is turned away in the present state, if it is.
    pub open spec fn refusal(self, event: Event) -> Option<DispatchError> {
        if event.is_verdict() {
            if self.state.awaits_verdict() {
                None
            } else {
                Some(DispatchError::NoCandidate)
            }
        } else if self.state.awaits_verdict() {
            Some(DispatchError::CandidateInFlight)
        } else if self.next_generation == u64::MAX {
            Some(DispatchError::GenerationsExhausted)
        } else {
            None
        }
    }

    /// The dispatcher after `event`: unchanged where the event is turned
    /// away, else as the transition table says, with one generation used up
    /// by an accepted descriptor.
    pub open spec fn after(self, event: Event) -> Dispatcher {
        if self.refusal(event) is Some {
            self
        } else {
            Dispatcher {
                state: self.state.step(event, self.next_generation).unwrap().0,
                next_generation: if event is NewSpec {
                    (self.next_generation + 1) as u64
                } else {
                    self.next_generation
                },
            }
        }
    }

    /// The effects that answer `event`: none where it is turned away.
    pub open spec fn effects_of(self, event: Event) -> Seq<Effect> {
        if self.refusal(event) is Some {
            Seq::empty()
        } else {
            self.state.step(event, self.next_generation).unwrap().1
        }
    }

    /// A dispatcher that holds nothing and has seen nothing.
    pub open spec fn initial() -> Dispatcher {
        Dispatcher { state: State::Start, next_generation: 0 }
    }

    #[inline]
    pub fn new() -> (r: Self)
        ensures
            r == Dispatcher::initial(),
            r.well_formed(),
    {
        assert(State::Start.deploys().len() == 0);
        Dispatcher { state: State::Start, next_generation: 0 }
    }

    /// Takes one event. Where the event is accepted the dispatcher moves on
    /// and the effects to carry out are returned, in order. Where it is
    /// turned away the dispatcher stays as it was and the reason is
    /// returned.
    pub fn handle(&mut self, event: Event) -> (r: Result<Vec<Effect>, DispatchError>)
        ensures
            *final(self) == old(self).after(event),
            old(self).well_formed() ==> final(self).well_formed(),
            match old(self).refusal(event) {
                Some(reason) => r matches Err(e) && e == reason,
                None => r matches Ok(effects) && effects@ == old(self).effects_of(event),
            },
    {
        proof {
            if self.well_formed() {
                lemma_after_keeps_well_formed(*self, event);
            }
        }
        let accepts_descriptor = match &event {
            Event::NewSpec(_) => true,
            _ => false,
        };
        let (state, effects) = match &self.state {
            State::Start => match event {
                Event::NewSpec(spec) => {
                    if self.next_generation == u64::MAX {
                        return Err(DispatchError::GenerationsExhausted);
                    }
                    self.start_initial_deploy(spec)
                },
                _ => {
                    return Err(DispatchError::NoCandidate);
                },
            },
            State::RunningStable { current } => match event {
                Event::NewSpec(spec) => {
                    if self.next_generation == u64::MAX {
                        return Err(DispatchError::GenerationsExhausted);
                    }
                    match spec.stop {
                        Stop::Before => self.stop_current_and_start_deploy(current, spec),
                        Stop::AfterTimeout(_) => self.start_new_deploy(current, spec),
                    }
                },
                _ => {
                    return Err(DispatchError::NoCandidate);
                },
            },
            State::WaitingForFirstStable { candidate } => match event {
                Event::NewSpec(_) => {
                    return Err(DispatchError::CandidateInFlight);
                },
                Event::DeployFailed => (State::Start, Vec::new()),
                Event::GotStable => (State::RunningStable { current: candidate.clone() }, Vec::new()),
            },
            State::WaitingForNewStable { last_stable, candidate } => match event {
                Event::NewSpec(_) => {
                    return Err(DispatchError::CandidateInFlight);
                },
                Event::DeployFailed => self.restore_last_stable(last_stable),
                Event::GotStable => (State::RunningStable { current: candidate.clone() }, Vec::new()),
            },
            State::RunningStableWaitingForNew { current, candidate } => match event {
                Event::NewSpec(_) => {
                    return Err(DispatchError::CandidateInFlight);
                },
                Event::DeployFailed => {
                    let mut effects: Vec<Effect> = Vec::new();
                    effects.push(
                        Effect::Stop {
                            deploy: candidate.clone(),
                            kill_timeout: candidate.spec.kill_timeout,
                        },
                    );
                    (State::RunningStable { current: current.clone() }, effects)
                },
                Event::GotStable => self.replace_old_stable(current, candidate),
            },
        };
        if accepts_descriptor {
            self.next_generation = self.next_generation + 1;
        }
        self.state = state;
        Ok(effects)
    }

    fn start_initial_deploy(&self, init: Spec) -> (r: (State, Vec<Effect>))
        ensures
            (r.0, r.1@) == State::after_initial_deploy(Deploy::of(init, self.next_generation)),
    {
        let candidate = Deploy::new(init, self.next_generation);
        let mut effects: Vec<Effect> = Vec::new();
        effects.push(Effect::Start(candidate.clone()));
        (State::WaitingForFirstStable { candidate }, effects)
    }

    fn stop_current_and_start_deploy(&self, current: &Deploy, new: Spec) -> (r: (
        State,
        Vec<Effect>,
    ))
        ensures
            (r.0, r.1@) == State::after_stop_and_deploy(
                *current,
                Deploy::of(new, self.next_generation),
            ),
    {
        let candidate = Deploy::new(new, self.next_generation);
        let mut effects: Vec<Effect> = Vec::new();
        effects.push(
            Effect::Stop { deploy: current.clone(), kill_timeout: current.spec.kill_timeout },
        );
        effects.push(Effect::Start(candidate.clone()));
        (State::WaitingForNewStable { last_stable: current.clone(), candidate }, effects)
    }

    fn start_new_deploy(&self, current: &Deploy, new: Spec) -> (r: (State, Vec<Effect>))
        ensures
            (r.0, r.1@) == State::after_new_deploy(
                *current,
                Deploy::of(new, self.next_generation),
            ),
    {
        let candidate = Deploy::new(new, self.next_generation);
        let mut effects: Vec<Effect> = Vec::new();
        effects.push(Effect::Start(candidate.clone()));
        (State::RunningStableWaitingForNew { current: current.clone(), candidate }, effects)
    }

    fn restore_last_stable(&self, last_stable: &Deploy) -> (r: (State, Vec<Effect>))
        ensures
            (r.0, r.1@) == State::after_restore(*last_stable),
    {
        let mut effects: Vec<Effect> = Vec::new();
        effects.push(Effect::Start(last_stable.clone()));
        (State::WaitingForFirstStable { candidate: last_stable.clone() }, effects)
    }

    fn replace_old_stable(&self, current: &Deploy, new: &Deploy) -> (r: (State, Vec<Effect>))
        ensures
            (r.0, r.1@) == State::after_replace(*current, *new),
    {
        let mut effects: Vec<Effect> = Vec::new();
        effects.push(
            Effect::ScheduleStop {
                deploy: current.clone(),
                delay: new.spec.stop.grace(),
                kill_timeout: current.spec.kill_timeout,
            },
        );
        (State::RunningStable { current: new.clone() }, effects)
    }
}

/// One event keeps a well-formed dispatcher well-formed.
pub proof fn lemma_after_keeps_well_formed(d: Dispatcher, event: Event)
    requires
        d.well_formed(),
    ensures
        d.after(event).well_formed(),
{
    let next = d.after(event);
    if d.refusal(event) is None {
        assert forall|i: int| 0 <= i < next.state.deploys().len() implies (
        #[trigger] next.state.deploys()[i]).generation < next.next_generation by {
            match d.state {
                State::Start => {},
                State::WaitingForFirstStable { .. } => {
                    assert(d.state.deploys()[0].generation < d.next_generation);
                },
                State::RunningStable { .. } => {
                    assert(d.state.deploys()[0].generation < d.next_generation);
                },
                State::WaitingForNewStable { .. } => {
                    assert(d.state.deploys()[0].generation < d.next_generation);
                    assert(d.state.deploys()[1].generation < d.next_generation);
                },
                State::RunningStableWaitingForNew { .. } => {
                    assert(d.state.deploys()[0].generation < d.next_generation);
                    assert(d.state.deploys()[1].generation < d.next_generation);
                },
            }
        }
        if d.state is RunningStable {
            assert(d.state.deploys()[0].generation < d.next_generation);
        }
    }
}

} // verus!
