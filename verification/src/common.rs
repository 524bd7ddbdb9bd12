use vstd::prelude::*;
use vstd::string::StrSliceExecFns;
use crate::net::{
    ipv4_from_str, ipv4_of, ipv6_from_str, ipv6_of, scan_sep, sep_idx, valid_ipv4, valid_ipv6,
};
use crate::num::{parse_u8_str, parses_as_uint, uint_of};

verus! {

/// Where a network string divides: the first slash.
pub open spec fn slash_idx(s: Seq<char>) -> int {
    sep_idx(s, 0, '/')
}

/// A well-formed v4 network string: an address, a slash, and a decimal
/// prefix length of at most 32. An overlong length is rejected outright,
/// never clamped.
pub open spec fn ip4_net_valid(s: Seq<char>) -> bool {
    let k = slash_idx(s);
    &&& k < s.len()
    &&& valid_ipv4(s.take(k))
    &&& parses_as_uint(s.skip(k + 1), 255)
    &&& uint_of(s.skip(k + 1)) <= 32
}

pub open spec fn ip4_net_addr(s: Seq<char>) -> int {
    ipv4_of(s.take(slash_idx(s)))
}

pub open spec fn ip4_net_len(s: Seq<char>) -> int {
    uint_of(s.skip(slash_idx(s) + 1))
}

/// A well-formed v6 network string: an address, a slash, and a decimal
/// prefix length of at most 128.
pub open spec fn ip6_net_valid(s: Seq<char>) -> bool {
    let k = slash_idx(s);
    &&& k < s.len()
    &&& valid_ipv6(s.take(k))
    &&& parses_as_uint(s.skip(k + 1), 255)
    &&& uint_of(s.skip(k + 1)) <= 128
}

pub open spec fn ip6_net_addr(s: Seq<char>) -> int {
    ipv6_of(s.take(slash_idx(s)))
}

pub open spec fn ip6_net_len(s: Seq<char>) -> int {
    uint_of(s.skip(slash_idx(s) + 1))
}

/// Reads a v4 network string. The whole record is discarded — `None` —
/// when the address does not parse or the prefix length exceeds the
/// family's 32 bits.
pub fn parse_ip4_network(ip_net: &str) -> (r: Option<(u32, u8)>)
    ensures
        r is Some <==> ip4_net_valid(ip_net@),
        r matches Some(t) ==> t.0 as int == ip4_net_addr(ip_net@) && t.1 as int == ip4_net_len(
            ip_net@,
        ),
{
    let len = ip_net.unicode_len();
    let k = scan_sep(ip_net, 0, len, '/');
    if k == len {
        return None;
    }
    let ip_part = ip_net.substring_char(0, k);
    let net_part = ip_net.substring_char(k + 1, len);
    proof {
        assert(ip_part@ =~= ip_net@.take(k as int));
        assert(net_part@ =~= ip_net@.skip(k as int + 1));
    }
    let netlen = match parse_u8_str(net_part) {
        Some(v) => v,
        None => {
            return None;
        },
    };
    if netlen > 32 {
        return None;
    }
    let addr = match ipv4_from_str(ip_part) {
        Some(v) => v,
        None => {
            return None;
        },
    };
    Some((addr, netlen))
}

/// Reads a v6 network string. The whole record is discarded — `None` —
/// when the address does not parse or the prefix length exceeds the
/// family's 128 bits.
pub fn parse_ip6_network(ip_net: &str) -> (r: Option<(u128, u8)>)
    ensures
        r is Some <==> ip6_net_valid(ip_net@),
        r matches Some(t) ==> t.0 as int == ip6_net_addr(ip_net@) && t.1 as int == ip6_net_len(
            ip_net@,
        ),
{
    let len = ip_net.unicode_len();
    let k = scan_sep(ip_net, 0, len, '/');
    if k == len {
        return None;
    }
    let ip_part = ip_net.substring_char(0, k);
    let net_part = ip_net.substring_char(k + 1, len);
    proof {
        assert(ip_part@ =~= ip_net@.take(k as int));
        assert(net_part@ =~= ip_net@.skip(k as int + 1));
    }
    let netlen = match parse_u8_str(net_part) {
        Some(v) => v,
        None => {
            return None;
        },
    };
    if netlen > 128 {
        return None;
    }
    let addr = match ipv6_from_str(ip_part) {
        Some(v) => v,
        None => {
            return None;
        },
    };
    Some((addr, netlen))
}

} // verus!
