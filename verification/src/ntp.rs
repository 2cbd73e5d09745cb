//! The SNTP client's configuration. The query itself is network I/O and
//! lives outside the crate; the embedding loop hands the measured offset to
//! `controller::ntp_step_needed` to decide whether to step.

use vstd::prelude::*;

verus! {

/// An SNTP phase source: the server it queries.
#[derive(Debug)]
pub struct NtpClient {
    pub server: String,
}

impl NtpClient {
    /// A client that will query the given server.
    pub fn new(server: &str) -> (c: Self)
        ensures
            c.server@ == server@,
    {
        NtpClient { server: server.to_owned() }
    }

    /// The configured server name.
    pub fn server(&self) -> (r: &String)
        ensures
            r@ == self.server@,
    {
        &self.server
    }
}

} // verus!
