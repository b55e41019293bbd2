//! The client's TLS trust policy: connections to loopback or private
//! addresses, or to the literal `localhost`, skip certificate verification
//! (trusted-LAN policy); every other destination is validated against a
//! public root bundle. This asymmetry is deliberate.

use vstd::prelude::*;
use crate::split::{spec_split, split_on};
use crate::strutil::{parse_u32, spec_parse_u32, str_eq};

verus! {

/// One dotted-decimal octet: up to three digits, value at most 255, no
/// leading zero (as the standard address parser has it).
pub open spec fn spec_parse_octet(p: Seq<char>) -> Option<u8> {
    match spec_parse_u32(p) {
        Some(v) => if v <= 255 && (p.len() == 1 || p[0] != '0') {
            Some(v as u8)
        } else {
            None
        },
        None => None,
    }
}

fn parse_octet(p: &str) -> (r: Option<u8>)
    ensures
        r == spec_parse_octet(p@),
{
    match parse_u32(p) {
        Some(v) => if v <= 255 && (p.unicode_len() == 1 || p.get_char(0) != '0') {
            Some(v as u8)
        } else {
            None
        },
        None => None,
    }
}

/// A dotted-decimal IPv4 address: exactly four octets.
pub open spec fn spec_parse_ipv4(s: Seq<char>) -> Option<(u8, u8, u8, u8)> {
    let parts = spec_split(s, '.');
    if parts.len() == 4 {
        match (
            spec_parse_octet(parts[0]),
            spec_parse_octet(parts[1]),
            spec_parse_octet(parts[2]),
            spec_parse_octet(parts[3]),
        ) {
            (Some(a), Some(b), Some(c), Some(d)) => Some((a, b, c, d)),
            _ => None,
        }
    } else {
        None
    }
}

/// Parses a dotted-decimal IPv4 address.
pub fn parse_ipv4(s: &str) -> (r: Option<(u8, u8, u8, u8)>)
    ensures
        r == spec_parse_ipv4(s@),
{
    let parts = split_on(s, '.');
    let ghost pviews = parts@.map_values(|x: String| x@);
    if parts.len() != 4 {
        return None;
    }
    let a = parse_octet(parts[0].as_str());
    let b = parse_octet(parts[1].as_str());
    let c = parse_octet(parts[2].as_str());
    let d = parse_octet(parts[3].as_str());
    match (a, b, c, d) {
        (Some(a), Some(b), Some(c), Some(d)) => Some((a, b, c, d)),
        _ => None,
    }
}

/// Whether an IPv4 address is loopback or in a private range: 127/8,
/// 10/8, 172.16/12 or 192.168/16.
pub open spec fn spec_ipv4_local(a: u8, b: u8) -> bool {
    a == 127 || a == 10 || (a == 172 && 16 <= b <= 31) || (a == 192 && b == 168)
}

/// Whether a destination falls under the trusted-LAN policy: the literal
/// `localhost`, the IPv6 loopback `::1`, or a loopback/private IPv4
/// address. A domain name is never local.
pub open spec fn spec_is_local(host: Seq<char>) -> bool {
    host == "localhost"@ || host == "::1"@ || match spec_parse_ipv4(host) {
        Some(ip) => spec_ipv4_local(ip.0, ip.1),
        None => false,
    }
}

/// Decides the trust policy for a destination host.
pub fn is_local(host: &str) -> (r: bool)
    ensures
        r == spec_is_local(host@),
{
    if str_eq(host, "localhost") {
        return true;
    }
    if str_eq(host, "::1") {
        return true;
    }
    match parse_ipv4(host) {
        Some((a, b, _c, _d)) => a == 127 || a == 10 || (a == 172 && 16 <= b && b <= 31) || (a
            == 192 && b == 168),
        None => false,
    }
}

} // verus!
