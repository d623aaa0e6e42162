//! The remote-filesystem-over-HTTP destination: its connection parameters as
//! plain values, and the construction-time validation of its authentication
//! fields.

use crate::config::ConfigError;
use vstd::prelude::*;

verus! {

/// How the destination authenticates: anonymously, or with a username and
/// password pair.
#[derive(Clone, Debug, PartialEq, Eq)]
pub enum WebDavAuth {
    Anonymous,
    Basic(String, String),
}

/// One remote-filesystem destination, described by plain values. The host
/// opens the HTTP client from these parameters.
#[derive(Clone, Debug)]
pub struct WebDav {
    pub endpoint: String,
    pub auth: WebDavAuth,
}

/// The authentication that a (user, password) configuration pair denotes, or
/// the startup error when exactly one of the two is supplied.
pub open spec fn spec_webdav_auth(user: Option<String>, password: Option<String>) -> Result<
    WebDavAuth,
    ConfigError,
> {
    match (user, password) {
        (Some(u), Some(p)) => Ok(WebDavAuth::Basic(u, p)),
        (None, None) => Ok(WebDavAuth::Anonymous),
        (Some(_), None) => Err(ConfigError::WebDavPasswordMissing),
        (None, Some(_)) => Err(ConfigError::WebDavUserMissing),
    }
}

impl WebDav {
    /// Builds the destination descriptor. Supplying exactly one of user and
    /// password is a configuration error raised here, at construction time,
    /// never at upload time.
    pub fn new(endpoint: String, user: Option<String>, password: Option<String>) -> (r: Result<
        WebDav,
        ConfigError,
    >)
        ensures
            r matches Ok(w) ==> spec_webdav_auth(user, password) matches Ok(a) && w.auth == a
                && w.endpoint == endpoint,
            r matches Err(e) ==> spec_webdav_auth(user, password) == Err::<
                WebDavAuth,
                ConfigError,
            >(e),
    {
        let auth = match (user, password) {
            (Some(u), Some(p)) => WebDavAuth::Basic(u, p),
            (None, None) => WebDavAuth::Anonymous,
            (Some(_), None) => {
                return Err(ConfigError::WebDavPasswordMissing);
            },
            (None, Some(_)) => {
                return Err(ConfigError::WebDavUserMissing);
            },
        };
        Ok(WebDav { endpoint, auth })
    }
}

} // verus!
