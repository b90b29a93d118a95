use rust_app::lifecycle::{Action, Event, Phase, Process};
use rust_app::routes::Service;

fn drive(service: Service, events: &[Event]) -> (Process, Vec<Action>) {
    let (mut p, first) = Process::new(service);
    let mut actions = vec![first];
    for e in events {
        actions.push(p.step(*e));
    }
    (p, actions)
}

fn shutdowns(actions: &[Action]) -> usize {
    actions.iter().filter(|a| **a == Action::ShutdownTracer).count()
}

#[test]
fn normal_run_flushes_once_after_requests() {
    for n in [0usize, 1, 5, 100] {
        let mut events = vec![
            Event::ConfigLoaded,
            Event::ProfilerStarted,
            Event::TracingStarted,
            Event::Bound,
        ];
        events.extend(std::iter::repeat(Event::RequestServed).take(n));
        events.push(Event::ServerStopped);
        events.push(Event::ShutdownDone);
        let (p, actions) = drive(Service::Ping, &events);
        assert_eq!(shutdowns(&actions), 1);
        assert_eq!(p.phase, Phase::Exited);
        assert_eq!(*actions.last().unwrap(), Action::Exit(true));
        let flush = actions.iter().position(|a| *a == Action::ShutdownTracer).unwrap();
        assert_eq!(flush, actions.len() - 2);
    }
}

#[test]
fn startup_sequence_of_ping_variant() {
    let (_, actions) = drive(
        Service::Ping,
        &[Event::ConfigLoaded, Event::ProfilerStarted, Event::TracingStarted, Event::Bound],
    );
    assert_eq!(
        actions,
        vec![
            Action::LoadConfig,
            Action::StartProfiler,
            Action::StartTracing,
            Action::Bind,
            Action::Serve
        ]
    );
}

#[test]
fn users_variant_starts_with_tracing() {
    let (_, actions) = drive(Service::Users, &[Event::TracingStarted, Event::Bound]);
    assert_eq!(actions, vec![Action::StartTracing, Action::Bind, Action::Serve]);
}

#[test]
fn missing_config_exits_before_binding() {
    let (p, actions) = drive(
        Service::Ping,
        &[Event::ConfigMissing, Event::TracingStarted, Event::Bound, Event::ServerStopped],
    );
    assert_eq!(actions[1], Action::Exit(false));
    assert!(actions[2..].iter().all(|a| *a == Action::Wait));
    assert!(!actions.contains(&Action::Bind));
    assert_eq!(p.phase, Phase::Exited);
    assert!(p.failed);
}

#[test]
fn tracing_failure_exits_before_binding() {
    let (_, actions) = drive(
        Service::Ping,
        &[Event::ConfigLoaded, Event::ProfilerStarted, Event::TracingFailed, Event::Bound],
    );
    assert_eq!(actions[3], Action::Exit(false));
    assert!(!actions.contains(&Action::Bind));
    assert_eq!(shutdowns(&actions), 0);
}

#[test]
fn profiler_failure_is_not_fatal() {
    let (p, actions) = drive(Service::Ping, &[Event::ConfigLoaded, Event::ProfilerFailed]);
    assert_eq!(actions[2], Action::StartTracing);
    assert_eq!(p.phase, Phase::StartingTracing);
}

#[test]
fn bind_failure_still_flushes() {
    let (p, actions) = drive(
        Service::Users,
        &[Event::TracingStarted, Event::BindFailed, Event::ShutdownDone],
    );
    assert_eq!(shutdowns(&actions), 1);
    assert_eq!(*actions.last().unwrap(), Action::Exit(false));
    assert!(p.failed);
}

#[test]
fn server_failure_flushes_once() {
    let (_, actions) = drive(
        Service::Users,
        &[
            Event::TracingStarted,
            Event::Bound,
            Event::ServerFailed,
            Event::ServerStopped,
            Event::ShutdownFailed,
            Event::ShutdownDone,
        ],
    );
    assert_eq!(shutdowns(&actions), 1);
    assert_eq!(actions[4], Action::Wait);
    assert_eq!(actions[5], Action::Exit(false));
    assert_eq!(actions[6], Action::Wait);
}

#[test]
fn shutdown_failure_exits_unsuccessfully() {
    let (_, actions) = drive(
        Service::Users,
        &[Event::TracingStarted, Event::Bound, Event::ServerStopped, Event::ShutdownFailed],
    );
    assert_eq!(*actions.last().unwrap(), Action::Exit(false));
}

#[test]
fn unrelated_events_are_ignored() {
    let (p, actions) = drive(Service::Ping, &[Event::Bound, Event::ShutdownDone]);
    assert_eq!(actions[1..], [Action::Wait, Action::Wait]);
    assert_eq!(p.phase, Phase::Configuring);
}
