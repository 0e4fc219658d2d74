//! Address formation for the wire endpoint. The endpoint itself — binding
//! and accepting in the listener role, connecting in the dialer role,
//! duplicating the stream handle — is plain socket work done outside this
//! library; what is decided here is the exact `host:port` text those
//! calls are given, with the documented defaults substituted where the
//! operator left a field empty.

use vstd::prelude::*;

verus! {

/// The host a listener binds when the operator gives none: all
/// interfaces, IPv6-capable.
pub open spec fn default_host() -> Seq<char> {
    "[::]"@
}

/// The port used when the operator gives none.
pub open spec fn default_port() -> Seq<char> {
    "8080"@
}

/// The listener's effective host: the operator's entry, or the default
/// for an empty entry.
pub open spec fn effective_host(h: Seq<char>) -> Seq<char> {
    if h.len() == 0 {
        default_host()
    } else {
        h
    }
}

/// The listener's effective port: the operator's entry, or the default
/// for an empty entry.
pub open spec fn effective_port(p: Seq<char>) -> Seq<char> {
    if p.len() == 0 {
        default_port()
    } else {
        p
    }
}

/// A socket address written as `host:port`.
pub open spec fn joined_address(h: Seq<char>, p: Seq<char>) -> Seq<char> {
    h + ":"@ + p
}

/// The address a listener binds: `host:port` with the defaults put in
/// for empty operator entries.
pub fn listen_address(host: &str, port: &str) -> (r: String)
    ensures
        r@ == joined_address(effective_host(host@), effective_port(port@)),
{
    let h: &str = if host.is_empty() {
        "[::]"
    } else {
        host
    };
    let p: &str = if port.is_empty() {
        "8080"
    } else {
        port
    };
    String::from_str(h).concat(":").concat(p)
}

/// The address a dialer connects to: `host:port` exactly as entered —
/// the dialer substitutes no defaults.
pub fn connect_address(host: &str, port: &str) -> (r: String)
    ensures
        r@ == joined_address(host@, port@),
{
    String::from_str(host).concat(":").concat(port)
}

} // verus!
