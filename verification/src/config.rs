//! Connection settings read one variable at a time.
use vstd::prelude::*;

verus! {

/// Settings read from the `HOST`, `PORT` and `MONGO_DB_URL` variables.
pub struct ConfigConn {}

/// The address to listen on: the host, a colon, and the port as given.
pub fn listener_address(host: &str, port: &str) -> (addr: String)
    ensures
        addr@ == host@ + ":"@ + port@,
{
    let mut addr = host.to_owned();
    addr.append(":");
    addr.append(port);
    addr
}

} // verus!
