//! What the vending service is configured with once it runs.

use vstd::prelude::*;

verus! {

/// The state of the vending service: the handle of the credential issuer,
/// the shared token and the role that credentials are asked for. It is set
/// once and only read afterwards.
#[derive(Debug, Clone)]
pub struct AppState<C> {
    pub sts_client: C,
    pub auth_token: String,
    pub role_arn: String,
    pub role_session_name: String,
}

impl<C> AppState<C> {
    pub fn new(
        sts_client: C,
        auth_token: String,
        role_arn: String,
        role_session_name: String,
    ) -> (state: Self)
        ensures
            state.sts_client == sts_client,
            state.auth_token == auth_token,
            state.role_arn == role_arn,
            state.role_session_name == role_session_name,
    {
        Self { sts_client, auth_token, role_arn, role_session_name }
    }
}

} // verus!
