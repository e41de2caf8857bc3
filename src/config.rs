use vstd::prelude::*;

verus! {

/// The base address used when no override is configured.
pub const DEFAULT_API_BASE: &'static str = "http://127.0.0.1:8123";

/// Where the service lives and how to authenticate to it, as read for one
/// command.
pub struct Endpoint {
    pub api_base: String,
    pub auth_token: Option<String>,
}

impl Endpoint {
    /// The endpoint given the two settings as they were read: a missing base
    /// address falls back to the default, and the token is kept as it is.
    pub fn resolve(api_base: Option<String>, auth_token: Option<String>) -> (r: Endpoint)
        ensures
            r.api_base@ == match api_base {
                Some(b) => b@,
                None => DEFAULT_API_BASE@,
            },
            r.auth_token == auth_token,
    {
        let base = match api_base {
            Some(b) => b,
            None => DEFAULT_API_BASE.to_string(),
        };
        Endpoint { api_base: base, auth_token }
    }
}

} // verus!
