//! The three option groups of a client.

use vstd::prelude::*;
use vstd::string::StringExecFns;

verus! {

/// Which database schema the client addresses.
#[derive(Debug, Clone)]
pub struct ClientDbOptions {
    pub schema: String,
}

impl ClientDbOptions {
    /// The schema `public`.
    pub fn default() -> (r: Self)
        ensures
            r.schema@ == "public"@,
    {
        Self { schema: String::from_str("public") }
    }
}

/// How the client treats a session.
#[derive(Debug, Clone)]
pub struct ClientAuthOptions {
    pub auto_refresh_token: bool,
    pub persist_session: bool,
}

impl ClientAuthOptions {
    /// Tokens are refreshed, sessions are not kept.
    pub fn default() -> (r: Self)
        ensures
            r.auto_refresh_token,
            !r.persist_session,
    {
        Self { auto_refresh_token: true, persist_session: false }
    }
}

/// Headers sent with every request, in the order in which they are applied:
/// of two entries with one name the later one stays.
#[derive(Debug, Clone)]
pub struct ClientGlobalOptions {
    pub headers: Option<Vec<(String, String)>>,
}

impl ClientGlobalOptions {
    /// No extra headers.
    pub fn default() -> (r: Self)
        ensures
            r.headers is None,
    {
        Self { headers: None }
    }
}

} // verus!
