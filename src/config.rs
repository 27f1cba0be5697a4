//! Start-up settings of the server, fixed once before any request.
use vstd::prelude::*;

verus! {

/// The fewest bytes a session-signing key may have.
pub const MIN_KEY_LEN: usize = 32;

/// The settings the server starts with.
#[derive(Clone, Debug, PartialEq, Eq)]
pub struct ServerConfig {
    /// The address the server listens on.
    pub address: String,
    /// Seconds given to requests in flight when the server stops.
    pub shutdown_timeout_secs: u16,
    /// The logging filter.
    pub log_filter: String,
    /// Whether panics print a backtrace.
    pub backtrace: bool,
}

/// The address the server listens on: the loopback interface, port 8080.
pub open spec fn listen_address() -> Seq<char> {
    "127.0.0.1:8080"@
}

/// The logging filter: the HTTP framework's messages at debug level.
pub open spec fn log_filter() -> Seq<char> {
    "actix_web=debug"@
}

impl ServerConfig {
    /// The settings of this site: the loopback address, no grace period on
    /// shutdown, debug logging of requests and backtraces on panics.
    pub fn site() -> (r: ServerConfig)
        ensures
            r.address@ == listen_address(),
            r.shutdown_timeout_secs == 0,
            r.log_filter@ == log_filter(),
            r.backtrace,
    {
        ServerConfig {
            address: "127.0.0.1:8080".to_owned(),
            shutdown_timeout_secs: 0,
            log_filter: "actix_web=debug".to_owned(),
            backtrace: true,
        }
    }
}

/// The key that signs session cookies, from the bytes the deployment
/// supplies: accepted when it has at least `MIN_KEY_LEN` bytes, refused
/// (`None`) otherwise.
pub fn signing_key(supplied: Vec<u8>) -> (r: Option<Vec<u8>>)
    ensures
        r is Some <==> supplied@.len() >= MIN_KEY_LEN,
        r is Some ==> r->0@ == supplied@,
{
    if supplied.len() >= MIN_KEY_LEN {
        Some(supplied)
    } else {
        None
    }
}

} // verus!
