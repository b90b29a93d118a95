//! The decisions of the process lifecycle: configure, start the profiler and
//! the tracer, bind, serve, flush the tracer, exit.
//!
//! The caller performs each [`Action`] and reports its outcome as an
//! [`Event`]; [`Process::step`] decides what comes next.
use vstd::prelude::*;
use crate::routes::Service;

verus! {

#[derive(Debug, Clone, Copy, PartialEq, Eq, Structural)]
pub enum Phase {
    Configuring,
    StartingProfiler,
    StartingTracing,
    Binding,
    Serving,
    ShuttingDown,
    Exited,
}

/// The outcome of the last action, or something that happened meanwhile.
#[derive(Debug, Clone, Copy, PartialEq, Eq, Structural)]
pub enum Event {
    ConfigLoaded,
    ConfigMissing,
    ProfilerStarted,
    ProfilerFailed,
    TracingStarted,
    TracingFailed,
    Bound,
    BindFailed,
    RequestServed,
    ServerStopped,
    ServerFailed,
    ShutdownDone,
    ShutdownFailed,
}

/// What the caller is to do next.
#[derive(Debug, Clone, Copy, PartialEq, Eq, Structural)]
pub enum Action {
    LoadConfig,
    StartProfiler,
    StartTracing,
    Bind,
    Serve,
    /// Shut the tracer provider down, flushing the spans it still holds.
    ShutdownTracer,
    /// End the process, successfully or not.
    Exit(bool),
    /// Nothing to do for this event.
    Wait,
}

#[derive(Debug, Clone, Copy, PartialEq, Eq, Structural)]
pub struct Process {
    pub phase: Phase,
    /// Whether this variant runs the profiler.
    pub profiling: bool,
    /// Whether a tracer provider has been installed.
    pub tracer_installed: bool,
    /// Whether the shutdown of the tracer provider has been asked for.
    pub flushed: bool,
    /// Whether something went wrong on the way.
    pub failed: bool,
}

impl Process {
    pub open spec fn spec_new(service: Service) -> Process {
        match service {
            Service::Ping => Process {
                phase: Phase::Configuring,
                profiling: true,
                tracer_installed: false,
                flushed: false,
                failed: false,
            },
            Service::Users => Process {
                phase: Phase::StartingTracing,
                profiling: false,
                tracer_installed: false,
                flushed: false,
                failed: false,
            },
        }
    }

    pub open spec fn spec_first_action(service: Service) -> Action {
        match service {
            Service::Ping => Action::LoadConfig,
            Service::Users => Action::StartTracing,
        }
    }

    /// A process about to start, with its first action: the variant that
    /// reads the environment begins there, the other with the tracer.
    pub fn new(service: Service) -> (r: (Process, Action))
        ensures
            r == (Process::spec_new(service), Process::spec_first_action(service)),
    {
        match service {
            Service::Ping => (
                Process {
                    phase: Phase::Configuring,
                    profiling: true,
                    tracer_installed: false,
                    flushed: false,
                    failed: false,
                },
                Action::LoadConfig,
            ),
            Service::Users => (
                Process {
                    phase: Phase::StartingTracing,
                    profiling: false,
                    tracer_installed: false,
                    flushed: false,
                    failed: false,
                },
                Action::StartTracing,
            ),
        }
    }

    pub open spec fn in_phase(self, phase: Phase) -> Process {
        Process { phase, ..self }
    }

    /// The transition table. Configuration and tracer failures end the
    /// process before it binds; a profiler failure does not stop it. Once a
    /// tracer is installed, every way out goes through one shutdown of it.
    pub open spec fn spec_step(self, e: Event) -> (Process, Action) {
        match self.phase {
            Phase::Configuring => match e {
                Event::ConfigLoaded => if self.profiling {
                    (self.in_phase(Phase::StartingProfiler), Action::StartProfiler)
                } else {
                    (self.in_phase(Phase::StartingTracing), Action::StartTracing)
                },
                Event::ConfigMissing => (
                    Process { phase: Phase::Exited, failed: true, ..self },
                    Action::Exit(false),
                ),
                _ => (self, Action::Wait),
            },
            Phase::StartingProfiler => match e {
                Event::ProfilerStarted | Event::ProfilerFailed => (
                    self.in_phase(Phase::StartingTracing),
                    Action::StartTracing,
                ),
                _ => (self, Action::Wait),
            },
            Phase::StartingTracing => match e {
                Event::TracingStarted => (
                    Process { phase: Phase::Binding, tracer_installed: true, ..self },
                    Action::Bind,
                ),
                Event::TracingFailed => (
                    Process { phase: Phase::Exited, failed: true, ..self },
                    Action::Exit(false),
                ),
                _ => (self, Action::Wait),
            },
            Phase::Binding => match e {
                Event::Bound => (self.in_phase(Phase::Serving), Action::Serve),
                Event::BindFailed => (
                    Process { phase: Phase::ShuttingDown, flushed: true, failed: true, ..self },
                    Action::ShutdownTracer,
                ),
                _ => (self, Action::Wait),
            },
            Phase::Serving => match e {
                Event::ServerStopped => (
                    Process { phase: Phase::ShuttingDown, flushed: true, ..self },
                    Action::ShutdownTracer,
                ),
                Event::ServerFailed => (
                    Process { phase: Phase::ShuttingDown, flushed: true, failed: true, ..self },
                    Action::ShutdownTracer,
                ),
                _ => (self, Action::Wait),
            },
            Phase::ShuttingDown => match e {
                Event::ShutdownDone => (self.in_phase(Phase::Exited), Action::Exit(!self.failed)),
                Event::ShutdownFailed => (
                    Process { phase: Phase::Exited, failed: true, ..self },
                    Action::Exit(false),
                ),
                _ => (self, Action::Wait),
            },
            Phase::Exited => (self, Action::Wait),
        }
    }

    /// Takes in the outcome of the last action and returns the next one.
    pub fn step(&mut self, e: Event) -> (a: Action)
        ensures
            (*final(self), a) == old(self).spec_step(e),
    {
        match self.phase {
            Phase::Configuring => match e {
                Event::ConfigLoaded => if self.profiling {
                    self.phase = Phase::StartingProfiler;
                    Action::StartProfiler
                } else {
                    self.phase = Phase::StartingTracing;
                    Action::StartTracing
                },
                Event::ConfigMissing => {
                    self.phase = Phase::Exited;
                    self.failed = true;
                    Action::Exit(false)
                },
                _ => Action::Wait,
            },
            Phase::StartingProfiler => match e {
                Event::ProfilerStarted | Event::ProfilerFailed => {
                    self.phase = Phase::StartingTracing;
                    Action::StartTracing
                },
                _ => Action::Wait,
            },
            Phase::StartingTracing => match e {
                Event::TracingStarted => {
                    self.phase = Phase::Binding;
                    self.tracer_installed = true;
                    Action::Bind
                },
                Event::TracingFailed => {
                    self.phase = Phase::Exited;
                    self.failed = true;
                    Action::Exit(false)
                },
                _ => Action::Wait,
            },
            Phase::Binding => match e {
                Event::Bound => {
                    self.phase = Phase::Serving;
                    Action::Serve
                },
                Event::BindFailed => {
                    self.phase = Phase::ShuttingDown;
                    self.flushed = true;
                    self.failed = true;
                    Action::ShutdownTracer
                },
                _ => Action::Wait,
            },
            Phase::Serving => match e {
                Event::ServerStopped => {
                    self.phase = Phase::ShuttingDown;
                    self.flushed = true;
                    Action::ShutdownTracer
                },
                Event::ServerFailed => {
                    self.phase = Phase::ShuttingDown;
                    self.flushed = true;
                    self.failed = true;
                    Action::ShutdownTracer
                },
                _ => Action::Wait,
            },
            Phase::ShuttingDown => match e {
                Event::ShutdownDone => {
                    self.phase = Phase::Exited;
                    Action::Exit(!self.failed)
                },
                Event::ShutdownFailed => {
                    self.phase = Phase::Exited;
                    self.failed = true;
                    Action::Exit(false)
                },
                _ => Action::Wait,
            },
            Phase::Exited => Action::Wait,
        }
    }

    /// The bookkeeping that every reachable state keeps.
    pub open spec fn wf(self) -> bool {
        &&& self.flushed ==> self.tracer_installed
        &&& self.phase == Phase::ShuttingDown ==> self.flushed
        &&& self.phase == Phase::Exited && self.tracer_installed ==> self.flushed
        &&& (self.phase == Phase::Binding || self.phase == Phase::Serving) ==> (
        self.tracer_installed && !self.flushed)
        &&& (self.phase == Phase::Configuring || self.phase == Phase::StartingProfiler
            || self.phase == Phase::StartingTracing) ==> !self.tracer_installed
    }
}

/// The state reached and the actions asked for, event after event.
pub open spec fn run(p: Process, events: Seq<Event>) -> (Process, Seq<Action>)
    decreases events.len(),
{
    if events.len() == 0 {
        (p, Seq::empty())
    } else {
        let (q, a) = p.spec_step(events[0]);
        let (r, rest) = run(q, events.drop_first());
        (r, seq![a] + rest)
    }
}

/// How many times the tracer is asked to shut down.
pub open spec fn count_shutdowns(actions: Seq<Action>) -> nat
    decreases actions.len(),
{
    if actions.len() == 0 {
        0
    } else {
        (if actions[0] == Action::ShutdownTracer { 1nat } else { 0nat }) + count_shutdowns(
            actions.drop_first(),
        )
    }
}

proof fn lemma_step_wf(p: Process, e: Event)
    requires
        p.wf(),
    ensures
        p.spec_step(e).0.wf(),
        p.spec_step(e).0.flushed == (p.flushed || p.spec_step(e).1 == Action::ShutdownTracer),
        p.spec_step(e).1 == Action::ShutdownTracer ==> !p.flushed,
{
}

proof fn lemma_run_counts(p: Process, events: Seq<Event>)
    requires
        p.wf(),
    ensures
        run(p, events).0.wf(),
        p.flushed ==> run(p, events).0.flushed,
        count_shutdowns(run(p, events).1) == (if run(p, events).0.flushed && !p.flushed {
            1nat
        } else {
            0nat
        }),
    decreases events.len(),
{
    if events.len() > 0 {
        let (q, a) = p.spec_step(events[0]);
        lemma_step_wf(p, events[0]);
        lemma_run_counts(q, events.drop_first());
        let rest = run(q, events.drop_first()).1;
        assert((seq![a] + rest).drop_first() =~= rest);
    }
}

/// Whatever happens, the tracer is asked to shut down at most once.
pub proof fn lemma_shutdown_at_most_once(service: Service, events: Seq<Event>)
    ensures
        count_shutdowns(run(Process::spec_new(service), events).1) <= 1,
{
    lemma_run_counts(Process::spec_new(service), events);
}

/// A process that installed a tracer and has exited asked for the tracer's
/// shutdown exactly once, however many requests it served before.
pub proof fn lemma_shutdown_once_before_exit(service: Service, events: Seq<Event>)
    requires
        run(Process::spec_new(service), events).0.phase == Phase::Exited,
        run(Process::spec_new(service), events).0.tracer_installed,
    ensures
        count_shutdowns(run(Process::spec_new(service), events).1) == 1,
{
    lemma_run_counts(Process::spec_new(service), events);
}

/// A missing variable ends the process at once: no later event leads it to
/// bind, or to anything else.
pub proof fn lemma_missing_config_never_binds(events: Seq<Event>)
    ensures
        ({
            let (q, acts) = run(Process::spec_new(Service::Ping), seq![Event::ConfigMissing] + events);
            &&& q.phase == Phase::Exited
            &&& acts[0] == Action::Exit(false)
            &&& forall|i: int| 1 <= i < acts.len() ==> acts[i] == Action::Wait
        }),
{
    let p = Process::spec_new(Service::Ping);
    let evs = seq![Event::ConfigMissing] + events;
    assert(evs.drop_first() =~= events);
    let q = p.spec_step(Event::ConfigMissing).0;
    lemma_exited_waits(q, events);
}

proof fn lemma_exited_waits(p: Process, events: Seq<Event>)
    requires
        p.phase == Phase::Exited,
    ensures
        run(p, events).0 == p,
        run(p, events).1.len() == events.len(),
        forall|i: int| 0 <= i < events.len() ==> run(p, events).1[i] == Action::Wait,
    decreases events.len(),
{
    if events.len() > 0 {
        lemma_exited_waits(p, events.drop_first());
    }
}

} // verus!
