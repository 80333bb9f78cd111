//! A sidecar that runs a command and vends temporary credentials to it.
//!
//! The command is started with the address of a loopback HTTP endpoint and
//! a token in its environment. The endpoint answers requests that carry the
//! token with credentials that are obtained afresh for each request.

use crate::config::{Args, GenerateCompletionArgs, RunArgs};
use crate::coordinator::{run_cmd, Coordinator, Phase};
use vstd::prelude::*;

pub mod config;
pub mod coordinator;
pub mod decimal;
pub mod http;
pub mod service;
pub mod state;
pub mod supervisor;
pub mod time;
pub mod token;

verus! {

/// The message handed to the readiness observer once the service is listening.
#[derive(Debug)]
pub struct StartUpNotify<T> {
    msg: T,
}

impl<T> StartUpNotify<T> {
    /// Wraps `msg` for the readiness observer.
    pub fn new(msg: T) -> (notify: Self)
        ensures
            notify.message() == msg,
    {
        StartUpNotify { msg }
    }

    /// The wrapped message.
    pub closed spec fn message(&self) -> T {
        self.msg
    }

    /// Hands the wrapped message out.
    pub fn into_inner(self) -> (msg: T)
        ensures
            msg == self.message(),
    {
        self.msg
    }
}

/// How the client of the credential issuer is set up.
#[derive(Debug)]
pub struct ProviderSetup {
    /// The endpoint to use in place of the issuer's default one.
    pub endpoint_url: Option<String>,
}

/// The set-up of the issuer's client for a run: the default one, but for
/// the endpoint where one is configured.
pub fn setup_server(config: &RunArgs) -> (setup: ProviderSetup)
    ensures
        match config.sts_endpoint {
            Some(endpoint) => setup.endpoint_url matches Some(url) && url@ == endpoint@,
            None => setup.endpoint_url is None,
        },
{
    match &config.sts_endpoint {
        Some(endpoint) => ProviderSetup { endpoint_url: Some(endpoint.clone()) },
        None => ProviderSetup { endpoint_url: None },
    }
}

/// Begins what `config` asks for. A run gets its coordinator, which has done
/// nothing yet; a request for a completion script is handed back, since it
/// asks for no run.
pub fn run(config: Args) -> (begun: Result<Coordinator, GenerateCompletionArgs>)
    ensures
        match config {
            Args::Run(args) => begun matches Ok(coordinator) && coordinator.wf()
                && coordinator.spec_phase() == Phase::Initializing && coordinator.config() == args,
            Args::GenerateCompletion(args) => begun == Err::<Coordinator, GenerateCompletionArgs>(
                args,
            ),
        },
{
    match config {
        Args::Run(args) => Ok(run_cmd(args)),
        Args::GenerateCompletion(args) => Err(args),
    }
}

} // verus!
