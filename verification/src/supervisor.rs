//! The process supervisor: what the child is started with, and what is done
//! on each event while it runs.

use crate::config::RunArgs;
use crate::decimal::{all_digits, decimal, decimal_value, lemma_decimal_round_trip, push_decimal};
use crate::service::CREDENTIALS_PATH;
use vstd::prelude::*;
use vstd::string::StringExecFns;

verus! {

/// A termination signal that can be relayed to the child.
#[derive(Debug, Clone, Copy, PartialEq, Eq, Structural)]
pub enum Signal {
    Interrupt,
    Terminate,
    Quit,
}

/// The command that starts the child: program, arguments, the environment
/// variables to set and those to remove from what the child inherits.
#[derive(Debug)]
pub struct ChildCommand {
    pub program: String,
    pub args: Vec<String>,
    pub env: Vec<(String, String)>,
    pub env_remove: Vec<String>,
}

/// A child command as plain text.
pub ghost struct ChildCommandView {
    pub program: Seq<char>,
    pub args: Seq<Seq<char>>,
    pub env: Seq<(Seq<char>, Seq<char>)>,
    pub env_remove: Seq<Seq<char>>,
}

impl View for ChildCommand {
    type V = ChildCommandView;

    open spec fn view(&self) -> ChildCommandView {
        ChildCommandView {
            program: self.program@,
            args: self.args.deep_view(),
            env: self.env.deep_view(),
            env_remove: self.env_remove.deep_view(),
        }
    }
}

/// The address of the credential endpoint as the child is told it: the
/// local host, the port, and the path of the endpoint.
pub open spec fn credentials_uri(port: u16) -> Seq<char> {
    "http://localhost:"@ + decimal(port as nat) + CREDENTIALS_PATH@
}

/// The port that a credential endpoint address names, if `uri` is such an
/// address.
pub open spec fn uri_port(uri: Seq<char>) -> Option<nat> {
    let prefix = "http://localhost:"@;
    let suffix = CREDENTIALS_PATH@;
    let port = uri.subrange(prefix.len() as int, uri.len() - suffix.len());
    if uri.len() > prefix.len() + suffix.len() && uri.subrange(0, prefix.len() as int) == prefix
        && uri.subrange(uri.len() - suffix.len(), uri.len() as int) == suffix && all_digits(port) {
        Some(decimal_value(port))
    } else {
        None
    }
}

/// The variables that are set for the child: the token, the address of the
/// credential endpoint, and a credentials file that holds nothing.
pub open spec fn child_environment(auth_token: Seq<char>, port: u16) -> Seq<
    (Seq<char>, Seq<char>),
> {
    seq![
        ("AWS_CONTAINER_AUTHORIZATION_TOKEN"@, auth_token),
        ("AWS_CONTAINER_CREDENTIALS_FULL_URI"@, credentials_uri(port)),
        ("AWS_SHARED_CREDENTIALS_FILE"@, "/dev/null"@),
    ]
}

/// The variables that the child must not inherit: static keys and the
/// profile name.
pub open spec fn removed_variables() -> Seq<Seq<char>> {
    seq![
        "AWS_ACCESS_KEY_ID"@,
        "AWS_SECRET_ACCESS_KEY"@,
        "AWS_SESSION_TOKEN"@,
        "AWS_PROFILE"@,
    ]
}

/// The child command for a configuration, a token and the port of the
/// credential endpoint.
pub open spec fn child_command(
    command: Seq<char>,
    args: Seq<Seq<char>>,
    auth_token: Seq<char>,
    port: u16,
) -> ChildCommandView {
    ChildCommandView {
        program: command,
        args,
        env: child_environment(auth_token, port),
        env_remove: removed_variables(),
    }
}

/// An address made for a port names that port and no other.
pub proof fn lemma_uri_targets_port(port: u16)
    ensures
        uri_port(credentials_uri(port)) == Some(port as nat),
{
    let prefix = "http://localhost:"@;
    let suffix = CREDENTIALS_PATH@;
    let uri = credentials_uri(port);
    lemma_decimal_round_trip(port as nat);
    assert(uri.subrange(0, prefix.len() as int) =~= prefix);
    assert(uri.subrange(uri.len() - suffix.len(), uri.len() as int) =~= suffix);
    assert(uri.subrange(prefix.len() as int, uri.len() - suffix.len()) =~= decimal(port as nat));
}

/// The address of the credential endpoint on `port`.
pub fn credentials_full_uri(port: u16) -> (uri: String)
    ensures
        uri@ == credentials_uri(port),
{
    let mut uri = String::from_str("http://localhost:");
    push_decimal(&mut uri, port);
    uri.append(CREDENTIALS_PATH);
    uri
}

/// A copy of a list of strings.
fn copy_strings(list: &Vec<String>) -> (copy: Vec<String>)
    ensures
        copy.deep_view() == list.deep_view(),
{
    let mut copy: Vec<String> = Vec::new();
    let mut i: usize = 0;
    while i < list.len()
        invariant
            i <= list.len(),
            copy.len() == i,
            forall|j: int| 0 <= j < i ==> copy[j]@ == list[j]@,
        decreases list.len() - i,
    {
        copy.push(list[i].clone());
        i = i + 1;
    }
    copy
}

/// The command that starts the child of a run: the configured program and
/// arguments, with the token and the address of the credential endpoint in
/// its environment and the static credentials taken out of it.
pub fn spawn(config: &RunArgs, auth_token: String, port: u16) -> (child: ChildCommand)
    ensures
        child@ == child_command(config.command@, config.args.deep_view(), auth_token@, port),
{
    let mut env: Vec<(String, String)> = Vec::new();
    env.push((String::from_str("AWS_CONTAINER_AUTHORIZATION_TOKEN"), auth_token));
    env.push((String::from_str("AWS_CONTAINER_CREDENTIALS_FULL_URI"), credentials_full_uri(port)));
    env.push((String::from_str("AWS_SHARED_CREDENTIALS_FILE"), String::from_str("/dev/null")));
    let mut env_remove: Vec<String> = Vec::new();
    env_remove.push(String::from_str("AWS_ACCESS_KEY_ID"));
    env_remove.push(String::from_str("AWS_SECRET_ACCESS_KEY"));
    env_remove.push(String::from_str("AWS_SESSION_TOKEN"));
    env_remove.push(String::from_str("AWS_PROFILE"));
    let child = ChildCommand {
        program: config.command.clone(),
        args: copy_strings(&config.args),
        env,
        env_remove,
    };
    assert(child.env.deep_view() =~= child_environment(auth_token@, port));
    assert(child.env_remove.deep_view() =~= removed_variables());
    child
}

/// Where the supervisor stands.
#[derive(Debug, Clone, Copy, PartialEq, Eq, Structural)]
pub enum Supervision {
    /// The child runs; its exit and signals are awaited.
    Watching,
    /// The child has exited.
    Finished,
    /// The supervisor gave up: the child could not be started, or the source
    /// of signals closed while it ran.
    Aborted,
}

/// What can happen while the child runs.
#[derive(Debug, Clone, Copy, PartialEq, Eq, Structural)]
pub enum SupervisorEvent {
    /// The child exited.
    ChildExited,
    /// A signal was forwarded; `child` is the child's process identifier, if
    /// it still has one.
    Signal { signal: Signal, child: Option<u32> },
    /// A signal could not be delivered to the child.
    RelayFailed,
    /// The source of signals closed.
    SignalsClosed,
}

/// What the supervisor does next.
#[derive(Debug, Clone, Copy, PartialEq, Eq, Structural)]
pub enum SupervisorAction {
    /// Keep waiting for the child and for signals.
    Wait,
    /// Deliver `signal` to the process `pid`, then keep waiting.
    Relay { pid: u32, signal: Signal },
    /// Stop: the child is gone.
    Stop,
    /// Give up: the child could not be started, or the source of signals is
    /// gone. Neither is recovered from.
    Abort,
}

/// Where the supervisor stands once it has tried to start the child, and
/// what it does: it watches a child that was started, and gives up at once
/// where the child could not be started. No second attempt is made.
pub open spec fn launched_spec(spawned: bool) -> (Supervision, SupervisorAction) {
    if spawned {
        (Supervision::Watching, SupervisorAction::Wait)
    } else {
        (Supervision::Aborted, SupervisorAction::Abort)
    }
}

/// The first step of the supervisor, once it has tried to start the child.
pub fn launched(spawned: bool) -> (next: (Supervision, SupervisorAction))
    ensures
        next == launched_spec(spawned),
{
    if spawned {
        (Supervision::Watching, SupervisorAction::Wait)
    } else {
        (Supervision::Aborted, SupervisorAction::Abort)
    }
}

/// The supervisor's rule. While the child runs, its exit ends the watch, a
/// signal is relayed to the child if it has a process identifier, a failed
/// delivery changes nothing, and the loss of the signal source is fatal.
/// Once the watch is over, nothing changes any more.
pub open spec fn supervise_spec(state: Supervision, event: SupervisorEvent) -> (
    Supervision,
    SupervisorAction,
) {
    match state {
        Supervision::Watching => match event {
            SupervisorEvent::ChildExited => (Supervision::Finished, SupervisorAction::Stop),
            SupervisorEvent::Signal { signal, child: Some(pid) } => (
                Supervision::Watching,
                SupervisorAction::Relay { pid, signal },
            ),
            SupervisorEvent::Signal { signal, child: None } => (
                Supervision::Watching,
                SupervisorAction::Wait,
            ),
            SupervisorEvent::RelayFailed => (Supervision::Watching, SupervisorAction::Wait),
            SupervisorEvent::SignalsClosed => (Supervision::Aborted, SupervisorAction::Abort),
        },
        Supervision::Finished => (Supervision::Finished, SupervisorAction::Stop),
        Supervision::Aborted => (Supervision::Aborted, SupervisorAction::Abort),
    }
}

/// One step of the supervisor: the state after `event` and what to do.
pub fn supervise(state: Supervision, event: SupervisorEvent) -> (next: (
    Supervision,
    SupervisorAction,
))
    ensures
        next == supervise_spec(state, event),
{
    match state {
        Supervision::Watching => match event {
            SupervisorEvent::ChildExited => (Supervision::Finished, SupervisorAction::Stop),
            SupervisorEvent::Signal { signal, child } => match child {
                Some(pid) => (Supervision::Watching, SupervisorAction::Relay { pid, signal }),
                None => (Supervision::Watching, SupervisorAction::Wait),
            },
            SupervisorEvent::RelayFailed => (Supervision::Watching, SupervisorAction::Wait),
            SupervisorEvent::SignalsClosed => (Supervision::Aborted, SupervisorAction::Abort),
        },
        Supervision::Finished => (Supervision::Finished, SupervisorAction::Stop),
        Supervision::Aborted => (Supervision::Aborted, SupervisorAction::Abort),
    }
}

/// The state after a run of events, starting from `state`.
pub open spec fn state_after(state: Supervision, events: Seq<SupervisorEvent>) -> Supervision
    decreases events.len(),
{
    if events.len() == 0 {
        state
    } else {
        supervise_spec(state_after(state, events.drop_last()), events.last()).0
    }
}

/// What is done on the event at `index` of a run of events that starts in
/// `state`.
pub open spec fn action_at(
    state: Supervision,
    events: Seq<SupervisorEvent>,
    index: int,
) -> SupervisorAction
    recommends
        0 <= index < events.len(),
{
    supervise_spec(state_after(state, events.subrange(0, index)), events[index]).1
}

/// The event is a signal for a child that has a process identifier.
pub open spec fn is_live_signal(event: SupervisorEvent) -> bool {
    event matches SupervisorEvent::Signal { child: Some(_), .. }
}

/// The event neither ends the watch nor aborts it.
pub open spec fn keeps_watching(event: SupervisorEvent) -> bool {
    event is Signal || event is RelayFailed
}

/// While only signals and failed deliveries come in, the supervisor keeps
/// watching.
pub proof fn lemma_watching_persists(events: Seq<SupervisorEvent>)
    requires
        forall|i: int| 0 <= i < events.len() ==> keeps_watching(#[trigger] events[i]),
    ensures
        state_after(Supervision::Watching, events) == Supervision::Watching,
    decreases events.len(),
{
    if events.len() > 0 {
        lemma_watching_persists(events.drop_last());
    }
}

/// While the child runs, each signal notification is answered by exactly
/// one delivery, of that signal, to the process identifier that came with
/// it; and nothing but a notification is answered by a delivery.
pub proof fn lemma_one_relay_per_signal(events: Seq<SupervisorEvent>, index: int)
    requires
        0 <= index < events.len(),
        forall|i: int| 0 <= i < index ==> keeps_watching(#[trigger] events[i]),
    ensures
        events[index] matches SupervisorEvent::Signal { signal, child: Some(pid) }
            ==> action_at(Supervision::Watching, events, index) == (SupervisorAction::Relay {
            pid,
            signal,
        }),
        !is_live_signal(events[index]) ==> !(action_at(Supervision::Watching, events, index)
            is Relay),
{
    lemma_watching_persists(events.subrange(0, index));
}

/// Once the watch is over it stays over: later events change nothing and no
/// signal is delivered any more.
pub proof fn lemma_ended_watch_is_final(state: Supervision, event: SupervisorEvent)
    requires
        state != Supervision::Watching,
    ensures
        supervise_spec(state, event).0 == state,
        !(supervise_spec(state, event).1 is Relay),
        !(supervise_spec(state, event).1 is Wait),
{
}

/// While the child runs, the loss of the signal source ends the watch for
/// good, and not as the child's exit does.
pub proof fn lemma_closed_signals_abort(events: Seq<SupervisorEvent>)
    requires
        forall|i: int| 0 <= i < events.len() ==> keeps_watching(#[trigger] events[i]),
    ensures
        state_after(Supervision::Watching, events.push(SupervisorEvent::SignalsClosed))
            == Supervision::Aborted,
{
    lemma_watching_persists(events);
    assert(events.push(SupervisorEvent::SignalsClosed).drop_last() =~= events);
}

/// The supervisor finishes only when the child exits: a run of events that
/// ends in `Finished` holds the child's exit, and before it nothing but
/// signals and failed deliveries.
pub proof fn lemma_finishes_only_on_exit(events: Seq<SupervisorEvent>) -> (at: int)
    requires
        state_after(Supervision::Watching, events) == Supervision::Finished,
    ensures
        0 <= at < events.len(),
        events[at] == SupervisorEvent::ChildExited,
        forall|i: int| 0 <= i < at ==> keeps_watching(#[trigger] events[i]),
    decreases events.len(),
{
    let before = state_after(Supervision::Watching, events.drop_last());
    if before == Supervision::Finished {
        let at = lemma_finishes_only_on_exit(events.drop_last());
        assert forall|i: int| 0 <= i < at implies keeps_watching(#[trigger] events[i]) by {
            assert(events[i] == events.drop_last()[i]);
        }
        at
    } else {
        lemma_watching_reached(events.drop_last());
        assert forall|i: int| 0 <= i < events.len() - 1 implies keeps_watching(
            #[trigger] events[i],
        ) by {
            assert(events[i] == events.drop_last()[i]);
        }
        events.len() - 1
    }
}

/// A run of events that leaves the supervisor watching held nothing but
/// signals and failed deliveries.
proof fn lemma_watching_reached(events: Seq<SupervisorEvent>)
    requires
        state_after(Supervision::Watching, events) == Supervision::Watching,
    ensures
        forall|i: int| 0 <= i < events.len() ==> keeps_watching(#[trigger] events[i]),
    decreases events.len(),
{
    if events.len() > 0 {
        lemma_watching_reached(events.drop_last());
        assert forall|i: int| 0 <= i < events.len() implies keeps_watching(
            #[trigger] events[i],
        ) by {
            if i < events.len() - 1 {
                assert(events[i] == events.drop_last()[i]);
            }
        }
    }
}

} // verus!
