//! Choosing the local address to advertise.
//!
//! The surrounding program enumerates the machine's interface addresses
//! and hands them in as plain candidates; the policy here picks the
//! first non-loopback IPv4 address (an IPv6-mapped IPv4 address counts,
//! mapped down), and renders it in dotted decimal notation.

use vstd::prelude::*;

use crate::text::push_char;
use crate::text::push_u8_dec;
use crate::text::spec_dec;

verus! {

/// One interface address, as plain values.
#[derive(Debug, Copy, Clone)]
pub enum HostCandidate {
    /// An IPv4 address, by octets.
    V4 { a: u8, b: u8, c: u8, d: u8 },
    /// An IPv6 address that embeds an IPv4 address, by the embedded
    /// octets.
    V6MappedV4 { a: u8, b: u8, c: u8, d: u8 },
    /// Any other IPv6 address; never advertised.
    V6Other,
}

/// A chosen IPv4 address, by octets.
#[derive(Debug, Copy, Clone, PartialEq, Eq, Structural)]
pub struct Ipv4Octets {
    /// The first octet.
    pub a: u8,
    /// The second octet.
    pub b: u8,
    /// The third octet.
    pub c: u8,
    /// The fourth octet.
    pub d: u8,
}

/// The IPv4 address a candidate qualifies with: its (embedded) octets,
/// unless it is loopback or carries no IPv4 address at all.
pub open spec fn spec_candidate_ipv4(c: HostCandidate) -> Option<Ipv4Octets> {
    match c {
        HostCandidate::V4 { a, b, c, d } => {
            if a != 127 {
                Some(Ipv4Octets { a, b, c, d })
            } else {
                None
            }
        },
        HostCandidate::V6MappedV4 { a, b, c, d } => {
            if a != 127 {
                Some(Ipv4Octets { a, b, c, d })
            } else {
                None
            }
        },
        HostCandidate::V6Other => None,
    }
}

/// The first qualifying candidate's address, if any qualifies.
pub open spec fn spec_select_host(cs: Seq<HostCandidate>) -> Option<Ipv4Octets>
    decreases cs.len(),
{
    if cs.len() == 0 {
        None
    } else if spec_candidate_ipv4(cs.first()) is Some {
        spec_candidate_ipv4(cs.first())
    } else {
        spec_select_host(cs.drop_first())
    }
}

/// Pick the address to advertise: the first candidate that is a
/// non-loopback IPv4 address, or embeds one.
pub fn select_host(cs: &Vec<HostCandidate>) -> (r: Option<Ipv4Octets>)
    ensures
        r == spec_select_host(cs@),
{
    let mut i: usize = 0;
    proof {
        assert(cs@.skip(0) =~= cs@);
    }
    while i < cs.len()
        invariant
            i <= cs@.len(),
            spec_select_host(cs@) == spec_select_host(cs@.skip(i as int)),
        decreases cs@.len() - i,
    {
        proof {
            assert(cs@.skip(i as int).first() == cs@[i as int]);
            assert(cs@.skip(i as int).drop_first() =~= cs@.skip(i + 1));
        }
        match cs[i] {
            HostCandidate::V4 { a, b, c, d } => {
                if a != 127 {
                    return Some(Ipv4Octets { a, b, c, d });
                }
            },
            HostCandidate::V6MappedV4 { a, b, c, d } => {
                if a != 127 {
                    return Some(Ipv4Octets { a, b, c, d });
                }
            },
            HostCandidate::V6Other => {},
        }
        i = i + 1;
    }
    proof {
        assert(cs@.skip(cs@.len() as int) =~= Seq::<HostCandidate>::empty());
    }
    None
}

/// The dotted decimal notation of an IPv4 address.
pub open spec fn spec_ipv4_text(h: Ipv4Octets) -> Seq<char> {
    spec_dec(h.a as nat) + seq!['.'] + spec_dec(h.b as nat) + seq!['.'] + spec_dec(h.c as nat)
        + seq!['.'] + spec_dec(h.d as nat)
}

/// Render an IPv4 address in dotted decimal notation.
pub fn ipv4_text(h: &Ipv4Octets) -> (r: String)
    ensures
        r@ == spec_ipv4_text(*h),
{
    let mut s = String::new();
    push_u8_dec(&mut s, h.a);
    push_char(&mut s, '.');
    push_u8_dec(&mut s, h.b);
    push_char(&mut s, '.');
    push_u8_dec(&mut s, h.c);
    push_char(&mut s, '.');
    push_u8_dec(&mut s, h.d);
    proof {
        assert(s@ =~= spec_ipv4_text(*h));
    }
    s
}

} // verus!
