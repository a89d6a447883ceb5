//! A local SOCKS4/4a/5 proxy core that tunnels TCP connections into a
//! Kubernetes cluster by resolving cluster DNS names to pod port-forwards.
//!
//! The library holds the verified logic: the SOCKS wire codecs, the cluster
//! name parser and resolver decisions, and the per-connection state machine.
//! Network and cluster-API I/O is left to the caller.
use vstd::prelude::*;

pub mod v4;
pub mod v5;
pub mod resolver;
pub mod handler;

verus! {

/// Errors that concern the connection as a whole.
#[derive(Debug, Clone, Copy, PartialEq, Eq, Structural)]
pub enum Errors {
    /// The first byte of the stream named a SOCKS version other than 4 or 5.
    UnsupportedVersion(u8),
}

/// The big-endian value of two bytes.
pub open spec fn be16(hi: u8, lo: u8) -> u16 {
    (hi as int * 256 + lo as int) as u16
}

/// The big-endian bytes of a 16-bit value.
pub open spec fn be16_bytes(v: u16) -> Seq<u8> {
    seq![(v / 256) as u8, (v % 256) as u8]
}

/// Reading back the big-endian bytes of a value gives the value.
pub proof fn lemma_be16_round_trip(v: u16)
    ensures
        be16(be16_bytes(v)[0], be16_bytes(v)[1]) == v,
{
    let hi = (v / 256) as u8;
    let lo = (v % 256) as u8;
    assert(hi as int * 256 + lo as int == v as int);
}

/// Reads a big-endian 16-bit value from two bytes.
pub fn read_be16(hi: u8, lo: u8) -> (r: u16)
    ensures
        r == be16(hi, lo),
        be16_bytes(r) == seq![hi, lo],
{
    let r = (hi as u16) * 256 + (lo as u16);
    assert(be16_bytes(r) =~= seq![hi, lo]);
    r
}

/// Splits a 16-bit value into its big-endian bytes.
pub fn write_be16(v: u16) -> (r: (u8, u8))
    ensures
        seq![r.0, r.1] == be16_bytes(v),
        be16(r.0, r.1) == v,
{
    ((v / 256) as u8, (v % 256) as u8)
}

/// A copy of `buf[from..to]`.
pub fn copy_range(buf: &[u8], from: usize, to: usize) -> (r: Vec<u8>)
    requires
        from <= to <= buf@.len(),
    ensures
        r@ == buf@.subrange(from as int, to as int),
{
    let mut r: Vec<u8> = Vec::new();
    let mut i: usize = from;
    while i < to
        invariant
            from <= i <= to <= buf@.len(),
            r@ == buf@.subrange(from as int, i as int),
        decreases to - i,
    {
        r.push(buf[i]);
        i = i + 1;
    }
    r
}

} // verus!
