//! The lifecycle of a run: the socket is bound, the service and the child
//! are started, and the first of the two that ends decides how the run ends.

use crate::config::{RunArgs, SocketAddress};
use crate::state::AppState;
use crate::supervisor::{child_command, credentials_uri, keeps_watching, launched_spec,
    lemma_closed_signals_abort, lemma_finishes_only_on_exit, lemma_uri_targets_port, spawn,
    state_after, uri_port, ChildCommand, Supervision, SupervisorEvent};
use crate::token::{effective_token, is_generated_token};
use crate::StartUpNotify;
use vstd::prelude::*;

verus! {

/// The address that the service listens on once its socket is bound. Its
/// port is the one that the operating system gave, never 0.
#[derive(Debug, Clone, Copy)]
pub struct BoundAddress {
    address: SocketAddress,
}

impl View for BoundAddress {
    type V = SocketAddress;

    closed spec fn view(&self) -> SocketAddress {
        self.address
    }
}

impl BoundAddress {
    /// The address names a port.
    pub open spec fn wf(&self) -> bool {
        self@.port != 0
    }

    #[verifier::type_invariant]
    spec fn names_a_port(&self) -> bool {
        self.wf()
    }

    /// The bound address `address`; `None` where it names no port.
    pub fn new(address: SocketAddress) -> (bound: Option<Self>)
        ensures
            match bound {
                Some(bound) => bound@ == address && bound.wf(),
                None => address.port == 0,
            },
    {
        if address.port == 0 {
            None
        } else {
            Some(BoundAddress { address })
        }
    }

    /// The address.
    pub fn get(&self) -> (address: SocketAddress)
        ensures
            address == self@,
            self.wf(),
    {
        proof {
            use_type_invariant(self);
        }
        self.address
    }

    /// The port of the address.
    pub fn port(&self) -> (port: u16)
        ensures
            port == self@.port,
            port != 0,
    {
        proof {
            use_type_invariant(self);
        }
        self.address.port
    }
}

/// The phases of a run, in the order in which they are passed through.
#[derive(Debug, Clone, Copy, PartialEq, Eq, Structural)]
pub enum Phase {
    Initializing,
    Bound,
    Running,
    ShuttingDown,
    Terminated,
}

/// How the first of the two units of work of a run ended. A run ends when
/// one of them does.
#[derive(Debug, Clone, Copy, PartialEq, Eq, Structural)]
pub enum Completion {
    /// The supervisor finished: the child has exited.
    ChildExited,
    /// The supervisor ended without the child's exit: it could not start
    /// the child, or it lost the source of signals.
    SupervisorAborted,
    /// The service stopped accepting connections, which it never should.
    ServiceStopped,
}

/// How a run ended.
#[derive(Debug, Clone, Copy, PartialEq, Eq, Structural)]
pub enum Outcome {
    /// The child exited and the run ended with it.
    Success,
    /// The supervisor gave up.
    SupervisorFailure,
    /// The service stopped while the child ran.
    ServiceFailure,
}

/// How a run ends when `first` is how the first unit of work ended: with
/// success after the child's exit and after nothing else.
pub open spec fn outcome_of(first: Completion) -> Outcome {
    match first {
        Completion::ChildExited => Outcome::Success,
        Completion::SupervisorAborted => Outcome::SupervisorFailure,
        Completion::ServiceStopped => Outcome::ServiceFailure,
    }
}

/// How the supervisor ended, from where it stood when it ended: with the
/// child's exit where it had finished, and without it otherwise.
pub open spec fn completion_of(end: Supervision) -> Completion {
    match end {
        Supervision::Finished => Completion::ChildExited,
        Supervision::Aborted => Completion::SupervisorAborted,
        Supervision::Watching => Completion::SupervisorAborted,
    }
}

/// How the supervisor ended, from where it stood when it ended.
pub fn supervisor_completed(end: Supervision) -> (first: Completion)
    ensures
        first == completion_of(end),
{
    match end {
        Supervision::Finished => Completion::ChildExited,
        Supervision::Aborted => Completion::SupervisorAborted,
        Supervision::Watching => Completion::SupervisorAborted,
    }
}

/// What is started when a run goes from bound to running: the state of the
/// service, the command of the child, and the message for the readiness
/// observer.
#[derive(Debug)]
pub struct Startup<C> {
    pub state: AppState<C>,
    pub child: ChildCommand,
    pub notify: StartUpNotify<SocketAddress>,
}

/// The coordinator of a run.
#[derive(Debug)]
pub struct Coordinator {
    config: RunArgs,
    phase: Phase,
    bound: Option<BoundAddress>,
    first: Option<Completion>,
}

impl Coordinator {
    /// The configuration of the run.
    pub closed spec fn config(&self) -> RunArgs {
        self.config
    }

    /// The phase that the run is in.
    pub closed spec fn spec_phase(&self) -> Phase {
        self.phase
    }

    /// The address that the socket is bound to, once it is.
    pub closed spec fn bound_address(&self) -> Option<BoundAddress> {
        self.bound
    }

    /// How the first unit of work ended, once one has.
    pub closed spec fn first_completed(&self) -> Option<Completion> {
        self.first
    }

    /// The coordinator holds what its phase asks for: a bound address from
    /// `Bound` on, and how the first unit of work ended from `ShuttingDown`
    /// on, and neither before.
    pub open spec fn wf(&self) -> bool {
        &&& self.bound_address() is Some <==> self.spec_phase() != Phase::Initializing
        &&& self.bound_address() is Some ==> self.bound_address()->0.wf()
        &&& self.first_completed() is Some <==> (self.spec_phase() == Phase::ShuttingDown
            || self.spec_phase() == Phase::Terminated)
    }

    #[verifier::type_invariant]
    spec fn holds_what_its_phase_asks_for(&self) -> bool {
        self.wf()
    }

    /// The phase that the run is in.
    #[verifier::when_used_as_spec(spec_phase)]
    pub fn phase(&self) -> (phase: Phase)
        ensures
            phase == self.spec_phase(),
            self.wf(),
    {
        proof {
            use_type_invariant(self);
        }
        self.phase
    }

    /// The address that the socket is to be bound to.
    pub fn listen_address(&self) -> (address: SocketAddress)
        ensures
            address == self.config().http_listen,
    {
        self.config.http_listen
    }

    /// From `Initializing` to `Bound`: the socket is bound to `address`.
    pub fn bound(self, address: BoundAddress) -> (next: Coordinator)
        requires
            self.spec_phase() == Phase::Initializing,
        ensures
            next.wf(),
            next.spec_phase() == Phase::Bound,
            next.bound_address() == Some(address),
            next.config() == self.config(),
    {
        proof {
            use_type_invariant(&self);
            use_type_invariant(&address);
        }
        Coordinator { config: self.config, phase: Phase::Bound, bound: Some(address), first: None }
    }

    /// From `Bound` to `Running`. The token of the run is the configured
    /// one, or a fresh random one where none is configured. The service gets
    /// it with the configured role; the child gets it with the port of the
    /// bound address; the readiness observer gets the bound address.
    pub fn start<C>(self, sts_client: C) -> (next: (Coordinator, Startup<C>))
        requires
            self.spec_phase() == Phase::Bound,
        ensures
            next.0.wf(),
            next.0.spec_phase() == Phase::Running,
            next.0.bound_address() == self.bound_address(),
            next.0.config() == self.config(),
            next.1.state.sts_client == sts_client,
            match self.config().auth_token {
                Some(given) => next.1.state.auth_token@ == given@,
                None => is_generated_token(next.1.state.auth_token@),
            },
            next.1.state.role_arn@ == self.config().role_arn@,
            next.1.state.role_session_name@ == self.config().role_session_name@,
            next.1.child@ == child_command(
                self.config().command@,
                self.config().args.deep_view(),
                next.1.state.auth_token@,
                self.bound_address()->0@.port,
            ),
            next.1.notify.message() == self.bound_address()->0@,
    {
        proof {
            use_type_invariant(&self);
        }
        let Coordinator { config, phase: _, bound, first } = self;
        let address = bound.unwrap();
        let auth_token = effective_token(&config.auth_token);
        let child = spawn(&config, auth_token.clone(), address.port());
        let state = AppState::new(
            sts_client,
            auth_token,
            config.role_arn.clone(),
            config.role_session_name.clone(),
        );
        let notify = StartUpNotify::new(address.get());
        (
            Coordinator { config, phase: Phase::Running, bound: Some(address), first },
            Startup { state, child, notify },
        )
    }

    /// From `Running` to `ShuttingDown`: `first` is how the first unit of
    /// work ended. The other one is not waited for.
    pub fn completed(self, first: Completion) -> (next: Coordinator)
        requires
            self.spec_phase() == Phase::Running,
        ensures
            next.wf(),
            next.spec_phase() == Phase::ShuttingDown,
            next.first_completed() == Some(first),
            next.bound_address() == self.bound_address(),
            next.config() == self.config(),
    {
        proof {
            use_type_invariant(&self);
        }
        Coordinator {
            config: self.config,
            phase: Phase::ShuttingDown,
            bound: self.bound,
            first: Some(first),
        }
    }

    /// From `ShuttingDown` to `Terminated`: the run ends with success where
    /// the child exited first, with a failure of the supervisor where the
    /// supervisor gave up first, and with a failure of the service where the
    /// service stopped first.
    pub fn terminate(self) -> (next: (Coordinator, Outcome))
        requires
            self.spec_phase() == Phase::ShuttingDown,
        ensures
            next.0.wf(),
            next.0.spec_phase() == Phase::Terminated,
            next.0.first_completed() == self.first_completed(),
            next.0.bound_address() == self.bound_address(),
            next.0.config() == self.config(),
            next.1 == outcome_of(self.first_completed()->0),
    {
        proof {
            use_type_invariant(&self);
        }
        let first = self.first.unwrap();
        let outcome = match first {
            Completion::ChildExited => Outcome::Success,
            Completion::SupervisorAborted => Outcome::SupervisorFailure,
            Completion::ServiceStopped => Outcome::ServiceFailure,
        };
        (
            Coordinator {
                config: self.config,
                phase: Phase::Terminated,
                bound: self.bound,
                first: Some(first),
            },
            outcome,
        )
    }
}

/// The coordinator of a run with the configuration `config`, before
/// anything is done.
pub fn run_cmd(config: RunArgs) -> (coordinator: Coordinator)
    ensures
        coordinator.wf(),
        coordinator.spec_phase() == Phase::Initializing,
        coordinator.config() == config,
{
    Coordinator { config, phase: Phase::Initializing, bound: None, first: None }
}

/// The address that is published and the address that the child is told
/// name the same port, and that port is not 0.
pub proof fn lemma_child_targets_published_port(
    bound: BoundAddress,
    command: Seq<char>,
    args: Seq<Seq<char>>,
    auth_token: Seq<char>,
)
    requires
        bound.wf(),
    ensures
        bound@.port != 0,
        child_command(command, args, auth_token, bound@.port).env[1] == (
            "AWS_CONTAINER_CREDENTIALS_FULL_URI"@,
            credentials_uri(bound@.port),
        ),
        uri_port(credentials_uri(bound@.port)) == Some(bound@.port as nat),
{
    lemma_uri_targets_port(bound@.port);
}

/// A run whose supervisor ends first ends with success only after the
/// child's exit: the events that the supervisor saw hold that exit, and
/// before it nothing but signals and failed deliveries.
pub proof fn lemma_success_only_after_exit(events: Seq<SupervisorEvent>) -> (at: int)
    requires
        outcome_of(completion_of(state_after(Supervision::Watching, events))) == Outcome::Success,
    ensures
        0 <= at < events.len(),
        events[at] == SupervisorEvent::ChildExited,
        forall|i: int| 0 <= i < at ==> keeps_watching(#[trigger] events[i]),
{
    lemma_finishes_only_on_exit(events)
}

/// A run whose supervisor gives up ends with a failure: where the child
/// cannot be started, and where the source of signals closes while the
/// child runs.
pub proof fn lemma_fatal_supervisor_fails(events: Seq<SupervisorEvent>)
    requires
        forall|i: int| 0 <= i < events.len() ==> keeps_watching(#[trigger] events[i]),
    ensures
        outcome_of(completion_of(launched_spec(false).0)) == Outcome::SupervisorFailure,
        outcome_of(
            completion_of(
                state_after(Supervision::Watching, events.push(SupervisorEvent::SignalsClosed)),
            ),
        ) == Outcome::SupervisorFailure,
{
    lemma_closed_signals_abort(events);
}

} // verus!
