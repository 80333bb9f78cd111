use iam_assumer::config::{
    Args, GenerateCompletionArgs, IpAddress, RunArgs, Shell, SocketAddress,
};
use iam_assumer::coordinator::{
    run_cmd, supervisor_completed, BoundAddress, Completion, Outcome, Phase,
};
use iam_assumer::supervisor::{launched, supervise, Signal, Supervision, SupervisorEvent};
use iam_assumer::http::credential::AuthorizationHeader;
use iam_assumer::token::{effective_token, generate_token, TOKEN_LENGTH};
use iam_assumer::{run, setup_server, StartUpNotify};

fn config(auth_token: Option<&str>) -> RunArgs {
    RunArgs {
        http_listen: SocketAddress::default_listen(),
        sts_endpoint: None,
        role_arn: "arn:aws:iam::123456789012:role/demo".to_string(),
        role_session_name: "demo-session".to_string(),
        auth_token: auth_token.map(str::to_string),
        command: "true".to_string(),
        args: Vec::new(),
    }
}

fn loopback(port: u16) -> SocketAddress {
    SocketAddress { ip: IpAddress::V6(0, 0, 0, 0, 0, 0, 0, 1), port }
}

#[test]
fn default_listen_address_is_the_loopback_with_any_port() {
    assert_eq!(SocketAddress::default_listen(), loopback(0));
}

#[test]
fn generated_token_is_twenty_letters_and_digits() {
    assert_eq!(TOKEN_LENGTH, 20);
    for _ in 0..50 {
        let token = generate_token();
        assert_eq!(token.chars().count(), 20);
        assert!(token.chars().all(|c| c.is_ascii_alphanumeric()));
    }
}

#[test]
fn generated_tokens_differ() {
    assert_ne!(generate_token(), generate_token());
}

#[test]
fn supplied_token_is_kept() {
    assert_eq!(effective_token(&Some("given".to_string())), "given");
    assert_eq!(effective_token(&Some(String::new())), "");
}

#[test]
fn missing_token_is_generated() {
    let token = effective_token(&None);
    assert_eq!(token.len(), 20);
    assert!(token.bytes().all(|b| b.is_ascii_alphanumeric()));
}

#[test]
fn bound_address_names_a_port() {
    assert!(BoundAddress::new(loopback(0)).is_none());
    let bound = BoundAddress::new(loopback(40123)).unwrap();
    assert_eq!(bound.port(), 40123);
    assert_eq!(bound.get(), loopback(40123));
    let low = BoundAddress::new(SocketAddress { ip: IpAddress::V4(127, 0, 0, 1), port: 1 }).unwrap();
    assert_eq!(low.port(), 1);
}

#[test]
fn start_up_message_carries_its_content() {
    let notify = StartUpNotify::new(loopback(9));
    assert_eq!(notify.into_inner(), loopback(9));
}

#[test]
fn set_up_takes_the_configured_endpoint() {
    let mut with = config(None);
    with.sts_endpoint = Some("http://localhost:4566/".to_string());
    assert_eq!(setup_server(&with).endpoint_url, Some("http://localhost:4566/".to_string()));
    assert_eq!(setup_server(&config(None)).endpoint_url, None);
}

#[test]
fn run_begins_in_initializing() {
    let coordinator = run(Args::Run(config(None))).unwrap();
    assert_eq!(coordinator.phase(), Phase::Initializing);
    assert_eq!(coordinator.listen_address(), loopback(0));
}

#[test]
fn completion_request_is_handed_back() {
    let handed_back =
        run(Args::GenerateCompletion(GenerateCompletionArgs { shell: Shell::Zsh })).unwrap_err();
    assert_eq!(handed_back.shell, Shell::Zsh);
}

#[test]
fn run_passes_through_its_phases() {
    let coordinator = run_cmd(config(Some("tok")));
    assert_eq!(coordinator.phase(), Phase::Initializing);
    let coordinator = coordinator.bound(BoundAddress::new(loopback(40123)).unwrap());
    assert_eq!(coordinator.phase(), Phase::Bound);
    let (coordinator, _startup) = coordinator.start(());
    assert_eq!(coordinator.phase(), Phase::Running);
    let coordinator = coordinator.completed(Completion::ChildExited);
    assert_eq!(coordinator.phase(), Phase::ShuttingDown);
    let (coordinator, outcome) = coordinator.terminate();
    assert_eq!(coordinator.phase(), Phase::Terminated);
    assert_eq!(outcome, Outcome::Success);
}

#[test]
fn exit_of_the_child_ends_the_run_with_success() {
    let coordinator = run_cmd(config(None)).bound(BoundAddress::new(loopback(5000)).unwrap());
    let (coordinator, _startup) = coordinator.start(());
    let (_, outcome) = coordinator.completed(Completion::ChildExited).terminate();
    assert_eq!(outcome, Outcome::Success);
}

#[test]
fn stop_of_the_service_ends_the_run_with_a_failure() {
    let coordinator = run_cmd(config(None)).bound(BoundAddress::new(loopback(5000)).unwrap());
    let (coordinator, _startup) = coordinator.start(());
    let (_, outcome) = coordinator.completed(Completion::ServiceStopped).terminate();
    assert_eq!(outcome, Outcome::ServiceFailure);
}

#[test]
fn supervisor_that_gave_up_ends_the_run_with_a_failure() {
    let coordinator = run_cmd(config(None)).bound(BoundAddress::new(loopback(5000)).unwrap());
    let (coordinator, _startup) = coordinator.start(());
    let (_, outcome) = coordinator.completed(Completion::SupervisorAborted).terminate();
    assert_eq!(outcome, Outcome::SupervisorFailure);
}

#[test]
fn child_that_cannot_be_started_ends_the_run_with_a_failure() {
    let (end, _) = launched(false);
    assert_eq!(end, Supervision::Aborted);
    assert_eq!(supervisor_completed(end), Completion::SupervisorAborted);
    let coordinator = run_cmd(config(None)).bound(BoundAddress::new(loopback(5000)).unwrap());
    let (coordinator, _startup) = coordinator.start(());
    let (_, outcome) = coordinator.completed(supervisor_completed(end)).terminate();
    assert_eq!(outcome, Outcome::SupervisorFailure);
}

#[test]
fn closed_signal_source_ends_the_run_with_a_failure() {
    let (state, _) = launched(true);
    let (state, _) = supervise(
        state,
        SupervisorEvent::Signal { signal: Signal::Terminate, child: Some(9) },
    );
    let (end, _) = supervise(state, SupervisorEvent::SignalsClosed);
    let coordinator = run_cmd(config(None)).bound(BoundAddress::new(loopback(5000)).unwrap());
    let (coordinator, _startup) = coordinator.start(());
    let (_, outcome) = coordinator.completed(supervisor_completed(end)).terminate();
    assert_eq!(outcome, Outcome::SupervisorFailure);
}

#[test]
fn only_the_exit_of_the_child_completes_with_success() {
    assert_eq!(supervisor_completed(Supervision::Finished), Completion::ChildExited);
    assert_eq!(supervisor_completed(Supervision::Aborted), Completion::SupervisorAborted);
    assert_eq!(supervisor_completed(Supervision::Watching), Completion::SupervisorAborted);
    let (state, _) = launched(true);
    let (end, _) = supervise(state, SupervisorEvent::ChildExited);
    assert_eq!(supervisor_completed(end), Completion::ChildExited);
}

#[test]
fn published_port_is_the_port_the_child_is_told() {
    for port in [1u16, 80, 40123, 65535] {
        let coordinator = run_cmd(config(Some("tok"))).bound(BoundAddress::new(loopback(port)).unwrap());
        let (_, startup) = coordinator.start(());
        let published = startup.notify.into_inner();
        assert_eq!(published, loopback(port));
        assert_ne!(published.port, 0);
        assert_eq!(
            startup.child.env[1],
            (
                "AWS_CONTAINER_CREDENTIALS_FULL_URI".to_string(),
                format!("http://localhost:{}/get-credentials", port)
            )
        );
    }
}

#[test]
fn service_and_child_share_the_supplied_token() {
    let coordinator = run_cmd(config(Some("tok"))).bound(BoundAddress::new(loopback(5000)).unwrap());
    let (_, startup) = coordinator.start("client");
    assert_eq!(startup.state.sts_client, "client");
    assert_eq!(startup.state.auth_token, "tok");
    assert_eq!(startup.state.role_arn, "arn:aws:iam::123456789012:role/demo");
    assert_eq!(startup.state.role_session_name, "demo-session");
    assert_eq!(
        startup.child.env[0],
        ("AWS_CONTAINER_AUTHORIZATION_TOKEN".to_string(), "tok".to_string())
    );
    assert_eq!(startup.child.program, "true");
}

#[test]
fn service_and_child_share_the_generated_token() {
    let coordinator = run_cmd(config(None)).bound(BoundAddress::new(loopback(5000)).unwrap());
    let (_, startup) = coordinator.start(());
    let token = startup.state.auth_token.clone();
    assert_eq!(token.len(), 20);
    assert!(token.bytes().all(|b| b.is_ascii_alphanumeric()));
    assert_eq!(startup.child.env[0].1, token);
    assert!(AuthorizationHeader::from_request_parts(Some(token.as_bytes()), &startup.state).is_ok());
}
