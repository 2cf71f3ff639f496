//! How a client reaches the API: plain TCP for `http` URLs, TLS for
//! `https` URLs, on the URL's port or the scheme's default one.

use vstd::prelude::*;
use vstd::string::*;

verus! {

/// The transport of a connection.
#[derive(Debug, Clone, Copy, PartialEq, Eq, Structural)]
pub enum GmailTransport {
    Tcp,
    Tls,
}

/// The transport and port for a URL scheme and explicit port: `http`
/// goes over TCP, on port 80 by default, `https` over TLS, on port 443
/// by default, and no other scheme is supported.
pub open spec fn connection_target(scheme: Seq<char>, port: Option<u16>) -> Option<(GmailTransport, u16)> {
    if scheme == "http"@ {
        Some((GmailTransport::Tcp, match port { Some(p) => p, None => 80u16 }))
    } else if scheme == "https"@ {
        Some((GmailTransport::Tls, match port { Some(p) => p, None => 443u16 }))
    } else {
        None
    }
}

/// Exec form of `connection_target`.
pub fn transport_for(scheme: &str, port: Option<u16>) -> (r: Option<(GmailTransport, u16)>)
    ensures
        r == connection_target(scheme@, port),
{
    let http = String::from_str("http");
    let https = String::from_str("https");
    let s = String::from_str(scheme);
    if s == http {
        Some((GmailTransport::Tcp, match port { Some(p) => p, None => 80 }))
    } else if s == https {
        Some((GmailTransport::Tls, match port { Some(p) => p, None => 443 }))
    } else {
        None
    }
}

} // verus!
