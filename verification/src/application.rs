//! What the running application is wired with: the base URL it hands out in
//! links, and the address its listener binds.

use vstd::prelude::*;

use crate::text::{dec_rep, u16_to_string};

verus! {

/// The public base URL of the application, as confirmation links see it.
#[derive(Clone, Debug)]
pub struct ApplicationBaseUrl(pub String);

impl ApplicationBaseUrl {
    /// The wrapped URL string.
    pub fn deref(&self) -> (r: &String)
        ensures
            r@ == self.0@,
    {
        &self.0
    }
}

/// The `host:port` address the listener binds.
pub fn listen_address(host: &str, port: u16) -> (r: String)
    ensures
        r@ == host@ + ":"@ + dec_rep(port as nat),
{
    let mut s = host.to_owned();
    s.append(":");
    let port_str = u16_to_string(port);
    s.append(port_str.as_str());
    s
}

} // verus!
