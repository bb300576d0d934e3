use condo::dispatcher::{DispatchError, Dispatcher, Effect, State};
use condo::event::Event;
use condo::spec::{Image, Spec, Stop};

fn spec(name: &str, stop: Stop) -> Spec {
    Spec {
        image: Image { name: name.to_string(), tag: "latest".to_string() },
        cmd: vec![],
        services: vec![],
        envs: vec![],
        discoveries: vec![],
        name: None,
        host: None,
        user: None,
        privileged: false,
        network_mode: None,
        stop,
        kill_timeout: Some(7),
        log: None,
    }
}

fn image_of(effect: &Effect) -> String {
    effect.deploy().spec.image.name.clone()
}

fn running_stable(name: &str) -> Dispatcher {
    let mut d = Dispatcher::new();
    d.handle(Event::NewSpec(spec(name, Stop::AfterTimeout(10)))).unwrap();
    d.handle(Event::GotStable).unwrap();
    d
}

#[test]
fn starts_empty() {
    let d = Dispatcher::new();
    assert!(matches!(d.state, State::Start));
    assert_eq!(d.next_generation, 0);
    assert_eq!(d.state.name(), "Start");
    assert!(d.state.held().is_empty());
}

#[test]
fn first_deploy_is_started_once_and_never_stopped() {
    let mut d = Dispatcher::new();
    let effects = d.handle(Event::NewSpec(spec("x", Stop::AfterTimeout(10)))).unwrap();
    assert_eq!(effects.len(), 1);
    assert!(matches!(&effects[0], Effect::Start(deploy) if deploy.spec.image.name == "x" && deploy.generation == 0));
    assert!(matches!(&d.state, State::WaitingForFirstStable { candidate } if candidate.spec.image.name == "x"));
    assert_eq!(d.state.name(), "WaitingForFirstStable");

    let effects = d.handle(Event::GotStable).unwrap();
    assert!(effects.is_empty());
    assert!(matches!(&d.state, State::RunningStable { current } if current.spec.image.name == "x"));
    assert_eq!(d.state.name(), "RunningStable");
}

#[test]
fn first_deploy_that_fails_is_discarded() {
    let mut d = Dispatcher::new();
    d.handle(Event::NewSpec(spec("x", Stop::Before))).unwrap();
    let effects = d.handle(Event::DeployFailed).unwrap();
    assert!(effects.is_empty());
    assert!(matches!(d.state, State::Start));
}

#[test]
fn stop_before_stops_the_old_one_then_starts_the_new_one() {
    let mut d = running_stable("a");
    let effects = d.handle(Event::NewSpec(spec("b", Stop::Before))).unwrap();
    assert_eq!(effects.len(), 2);
    assert!(matches!(&effects[0], Effect::Stop { deploy, kill_timeout: Some(7) } if deploy.spec.image.name == "a"));
    assert!(matches!(&effects[1], Effect::Start(deploy) if deploy.spec.image.name == "b" && deploy.generation == 1));
    assert!(matches!(&d.state, State::WaitingForNewStable { last_stable, candidate }
        if last_stable.spec.image.name == "a" && candidate.spec.image.name == "b"));
    assert_eq!(d.state.name(), "WaitingForNewStable");

    let effects = d.handle(Event::GotStable).unwrap();
    assert!(effects.is_empty());
    assert!(matches!(&d.state, State::RunningStable { current } if current.spec.image.name == "b"));
}

#[test]
fn stop_after_timeout_keeps_the_old_one_running() {
    let mut d = running_stable("a");
    let effects = d.handle(Event::NewSpec(spec("b", Stop::AfterTimeout(10)))).unwrap();
    assert_eq!(effects.len(), 1);
    assert!(matches!(&effects[0], Effect::Start(deploy) if deploy.spec.image.name == "b"));
    assert!(matches!(&d.state, State::RunningStableWaitingForNew { current, candidate }
        if current.spec.image.name == "a" && candidate.spec.image.name == "b"));
    assert_eq!(d.state.name(), "RunningStableWaitingForNew");

    let effects = d.handle(Event::DeployFailed).unwrap();
    assert_eq!(effects.len(), 1);
    assert!(effects[0].stops());
    assert_eq!(image_of(&effects[0]), "b");
    assert!(matches!(&effects[0], Effect::Stop { kill_timeout: Some(7), .. }));
    assert!(matches!(&d.state, State::RunningStable { current } if current.spec.image.name == "a"));
}

#[test]
fn promoted_successor_schedules_the_stop_of_the_old_one() {
    let mut d = running_stable("a");
    d.handle(Event::NewSpec(spec("b", Stop::AfterTimeout(25)))).unwrap();
    let effects = d.handle(Event::GotStable).unwrap();
    assert_eq!(effects.len(), 1);
    assert!(matches!(&effects[0], Effect::ScheduleStop { deploy, delay: 25, kill_timeout: Some(7) }
        if deploy.spec.image.name == "a" && deploy.generation == 0));
    assert!(matches!(&d.state, State::RunningStable { current } if current.spec.image.name == "b"));
}

#[test]
fn failed_successor_brings_the_stopped_one_back() {
    let mut d = running_stable("a");
    d.handle(Event::NewSpec(spec("b", Stop::Before))).unwrap();
    let effects = d.handle(Event::DeployFailed).unwrap();
    assert_eq!(effects.len(), 1);
    assert!(matches!(&effects[0], Effect::Start(deploy) if deploy.spec.image.name == "a" && deploy.generation == 0));
    assert!(matches!(&d.state, State::WaitingForFirstStable { candidate } if candidate.spec.image.name == "a"));
}

#[test]
fn stray_verdict_is_turned_away() {
    let mut d = Dispatcher::new();
    assert_eq!(d.handle(Event::GotStable).unwrap_err(), DispatchError::NoCandidate);
    assert_eq!(d.handle(Event::DeployFailed).unwrap_err(), DispatchError::NoCandidate);
    assert!(matches!(d.state, State::Start));

    let mut d = running_stable("a");
    assert_eq!(d.handle(Event::GotStable).unwrap_err(), DispatchError::NoCandidate);
    assert_eq!(d.handle(Event::DeployFailed).unwrap_err(), DispatchError::NoCandidate);
    assert!(matches!(&d.state, State::RunningStable { current } if current.spec.image.name == "a"));
    assert_eq!(d.next_generation, 1);
}

#[test]
fn descriptor_during_a_trial_is_turned_away() {
    let mut d = Dispatcher::new();
    d.handle(Event::NewSpec(spec("a", Stop::Before))).unwrap();
    let r = d.handle(Event::NewSpec(spec("b", Stop::Before)));
    assert_eq!(r.unwrap_err(), DispatchError::CandidateInFlight);
    assert!(matches!(&d.state, State::WaitingForFirstStable { candidate } if candidate.spec.image.name == "a"));
    assert_eq!(d.next_generation, 1);

    let mut d = running_stable("a");
    d.handle(Event::NewSpec(spec("b", Stop::Before))).unwrap();
    let r = d.handle(Event::NewSpec(spec("c", Stop::Before)));
    assert_eq!(r.unwrap_err(), DispatchError::CandidateInFlight);
    assert_eq!(d.state.name(), "WaitingForNewStable");

    let mut d = running_stable("a");
    d.handle(Event::NewSpec(spec("b", Stop::AfterTimeout(1)))).unwrap();
    let r = d.handle(Event::NewSpec(spec("c", Stop::Before)));
    assert_eq!(r.unwrap_err(), DispatchError::CandidateInFlight);
    assert_eq!(d.state.name(), "RunningStableWaitingForNew");
}

#[test]
fn generations_run_out() {
    let mut d = Dispatcher { state: State::Start, next_generation: u64::MAX };
    let r = d.handle(Event::NewSpec(spec("a", Stop::Before)));
    assert_eq!(r.unwrap_err(), DispatchError::GenerationsExhausted);
    assert!(matches!(d.state, State::Start));
    assert_eq!(d.next_generation, u64::MAX);
}

#[test]
fn generations_grow_with_each_accepted_descriptor() {
    let mut d = running_stable("a");
    d.handle(Event::NewSpec(spec("b", Stop::AfterTimeout(3)))).unwrap();
    d.handle(Event::GotStable).unwrap();
    let effects = d.handle(Event::NewSpec(spec("c", Stop::Before))).unwrap();
    assert_eq!(effects[0].deploy().generation, 1);
    assert_eq!(effects[1].deploy().generation, 2);
    assert_eq!(d.next_generation, 3);
    let held = d.state.held();
    assert_eq!(held.len(), 2);
    assert_eq!(held[0].generation, 1);
    assert_eq!(held[1].generation, 2);
}

#[test]
fn no_deployment_is_stopped_twice_in_a_row() {
    let mut d = Dispatcher::new();
    let events = vec![
        Event::NewSpec(spec("a", Stop::Before)),
        Event::GotStable,
        Event::NewSpec(spec("b", Stop::Before)),
        Event::DeployFailed,
        Event::GotStable,
        Event::NewSpec(spec("c", Stop::AfterTimeout(5))),
        Event::DeployFailed,
        Event::NewSpec(spec("d", Stop::AfterTimeout(5))),
        Event::GotStable,
        Event::NewSpec(spec("e", Stop::Before)),
        Event::GotStable,
    ];
    let mut running: Vec<u64> = vec![];
    for event in events {
        for effect in d.handle(event).unwrap() {
            let generation = effect.deploy().generation;
            if effect.stops() {
                assert!(running.contains(&generation));
                running.retain(|g| *g != generation);
            } else {
                running.push(generation);
            }
        }
    }
    assert!(matches!(&d.state, State::RunningStable { current } if current.spec.image.name == "e"));
}

#[test]
fn stop_policy_knows_its_grace() {
    assert_eq!(Stop::Before.grace(), 0);
    assert_eq!(Stop::AfterTimeout(10).grace(), 10);
    assert_eq!(Stop::default(), Stop::AfterTimeout(10));
}

#[test]
fn state_holds_the_deploys_of_its_row_at_every_point() {
    let mut d = Dispatcher::new();
    let events = vec![
        Event::GotStable,
        Event::NewSpec(spec("a", Stop::Before)),
        Event::NewSpec(spec("x", Stop::Before)),
        Event::GotStable,
        Event::NewSpec(spec("b", Stop::Before)),
        Event::DeployFailed,
        Event::DeployFailed,
        Event::NewSpec(spec("c", Stop::AfterTimeout(1))),
        Event::GotStable,
        Event::NewSpec(spec("d", Stop::AfterTimeout(1))),
        Event::DeployFailed,
        Event::NewSpec(spec("e", Stop::AfterTimeout(1))),
        Event::GotStable,
    ];
    for event in events {
        let _ = d.handle(event);
        let held = d.state.held();
        let expected = match d.state.name() {
            "Start" => 0,
            "WaitingForFirstStable" | "RunningStable" => 1,
            _ => 2,
        };
        assert_eq!(held.len(), expected);
        assert_eq!(d.state.is_waiting(), d.state.name().contains("Waiting"));
        assert!(held.iter().all(|deploy| deploy.generation < d.next_generation));
        if held.len() == 2 {
            assert!(held[0].generation < held[1].generation);
        }
    }
    assert!(matches!(&d.state, State::RunningStable { current } if current.spec.image.name == "e"));
}

#[test]
fn deploy_keeps_its_descriptor_and_generation() {
    let deploy = condo::dispatcher::Deploy::new(spec("a", Stop::Before), 41);
    let copy = deploy.clone();
    assert_eq!(copy.generation, 41);
    assert_eq!(*copy.spec, spec("a", Stop::Before));
    assert_eq!(*deploy.spec, *copy.spec);
}
