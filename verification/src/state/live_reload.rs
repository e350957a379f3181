//! The live reload server: where the browser connects to hear of rebuilds.
use vstd::prelude::*;

verus! {

/// The address of the live reload server's socket.
pub open spec fn reload_server_url_spec(host: Seq<char>, port: Seq<char>) -> Seq<char> {
    "ws://"@ + host + ":"@ + port + "/receive"@
}

/// The address to connect to for live reloading, given the host and port
/// the server injected into the page: none where either is missing (live
/// reloading is then off).
pub fn reload_server_url(host: Option<String>, port: Option<String>) -> (r: Option<String>)
    ensures
        match (host, port) {
            (Some(h), Some(p)) => r matches Some(u) && u@ == reload_server_url_spec(h@, p@),
            _ => r is None,
        },
{
    match (host, port) {
        (Some(h), Some(p)) => {
            let mut u = "ws://".to_owned();
            u.append(h.as_str());
            u.append(":");
            u.append(p.as_str());
            u.append("/receive");
            Some(u)
        },
        _ => None,
    }
}

} // verus!
