//! The run configuration and the values it is made of.

use vstd::prelude::*;

verus! {

/// An internet address: either four octets or eight 16-bit segments.
#[derive(Debug, Clone, Copy, PartialEq, Eq, Structural)]
pub enum IpAddress {
    V4(u8, u8, u8, u8),
    V6(u16, u16, u16, u16, u16, u16, u16, u16),
}

/// A host and a port. Port 0 in a listen address asks the operating system
/// to pick a free port.
#[derive(Debug, Clone, Copy, PartialEq, Eq, Structural)]
pub struct SocketAddress {
    pub ip: IpAddress,
    pub port: u16,
}

impl SocketAddress {
    /// The address that is listened on when none is configured: the IPv6
    /// loopback address, with the port left to the operating system.
    pub open spec fn spec_default_listen() -> SocketAddress {
        SocketAddress {
            ip: IpAddress::V6(0, 0, 0, 0, 0, 0, 0, 1),
            port: 0,
        }
    }

    /// The address that is listened on when none is configured.
    #[verifier::when_used_as_spec(spec_default_listen)]
    pub fn default_listen() -> (address: SocketAddress)
        ensures
            address == Self::spec_default_listen(),
    {
        SocketAddress {
            ip: IpAddress::V6(0, 0, 0, 0, 0, 0, 0, 1),
            port: 0,
        }
    }
}

/// The shells for which a completion script can be generated.
#[derive(Debug, Clone, Copy, PartialEq, Eq, Structural)]
pub enum Shell {
    Bash,
    Elvish,
    Fish,
    PowerShell,
    Zsh,
}

/// What the program was asked to do.
#[derive(Debug, Clone)]
pub enum Args {
    Run(RunArgs),
    GenerateCompletion(GenerateCompletionArgs),
}

/// The configuration of one supervised run.
#[derive(Debug, Clone)]
pub struct RunArgs {
    /// Socket to listen on: the host and port to bind the HTTP service.
    pub http_listen: SocketAddress,
    /// Endpoint of the credential issuer, where the default is not wanted.
    pub sts_endpoint: Option<String>,
    /// Role arn.
    pub role_arn: String,
    /// Role session name.
    pub role_session_name: String,
    /// Auth token; one is generated where none is given.
    pub auth_token: Option<String>,
    /// Command to run.
    pub command: String,
    /// Command arguments, in order.
    pub args: Vec<String>,
}

/// The configuration of a request for a completion script.
#[derive(Debug, Clone)]
pub struct GenerateCompletionArgs {
    pub shell: Shell,
}

} // verus!
