//! SOCKS4 and SOCKS4a frames.
use vstd::prelude::*;

use crate::{be16, be16_bytes, copy_range, read_be16, write_be16};

verus! {

pub const VERSION: u8 = 4;

pub const METHOD_CONNECT: u8 = 1;

pub const METHOD_BIND: u8 = 2;

/// The destination address a SOCKS4a client sends when it passes a host name.
pub const SOCKS4A_ADDRESS: [u8; 4] = [0, 0, 0, 1];

pub const RESP_VERSION: u8 = 0;

pub const RESP_CODE_GRANTED: u8 = 90;

pub const RESP_CODE_REJECT_OR_FAILED: u8 = 91;

/// The eight-byte reply to a SOCKS4 request.
pub struct Response {
    pub version: u8,
    pub result: u8,
    pub dest_port: u16,
    pub dest_ip: [u8; 4],
}

/// The wire form of a reply.
pub open spec fn response_bytes(version: u8, result: u8, dest_port: u16, dest_ip: Seq<u8>) -> Seq<u8> {
    seq![version, result] + be16_bytes(dest_port) + dest_ip
}

impl Response {
    pub open spec fn spec_bytes(&self) -> Seq<u8> {
        response_bytes(self.version, self.result, self.dest_port, self.dest_ip@)
    }

    pub fn granted(dest_port: u16, dest_ip: [u8; 4]) -> (r: Response)
        ensures
            r.version == RESP_VERSION,
            r.result == RESP_CODE_GRANTED,
            r.dest_port == dest_port,
            r.dest_ip == dest_ip,
    {
        Response { version: RESP_VERSION, result: RESP_CODE_GRANTED, dest_port, dest_ip }
    }

    pub fn rejected_or_failed(dest_port: u16, dest_ip: [u8; 4]) -> (r: Response)
        ensures
            r.version == RESP_VERSION,
            r.result == RESP_CODE_REJECT_OR_FAILED,
            r.dest_port == dest_port,
            r.dest_ip == dest_ip,
    {
        Response { version: RESP_VERSION, result: RESP_CODE_REJECT_OR_FAILED, dest_port, dest_ip }
    }

    /// The reply as it goes on the wire: version, code, port (big-endian), address.
    pub fn to_buf(&self) -> (r: [u8; 8])
        ensures
            r@ == self.spec_bytes(),
    {
        let (hi, lo) = write_be16(self.dest_port);
        let r = [
            self.version,
            self.result,
            hi,
            lo,
            self.dest_ip[0],
            self.dest_ip[1],
            self.dest_ip[2],
            self.dest_ip[3],
        ];
        assert(r@ =~= self.spec_bytes());
        r
    }
}

/// The position of the first zero byte of `b` at or after `from`.
pub open spec fn first_null(b: Seq<u8>, from: int) -> Option<int>
    decreases b.len() - from,
{
    if from < 0 || from >= b.len() {
        None
    } else if b[from] == 0 {
        Some(from)
    } else {
        first_null(b, from + 1)
    }
}

proof fn lemma_first_null_found(b: Seq<u8>, from: int)
    requires
        0 <= from,
    ensures
        first_null(b, from) matches Some(i) ==> from <= i < b.len() && b[i] == 0,
    decreases b.len() - from,
{
    if from < b.len() && b[from] != 0 {
        lemma_first_null_found(b, from + 1);
    }
}

/// Finds the first zero byte of `buf` at or after `from`.
pub fn find_null(buf: &[u8], from: usize) -> (r: Option<usize>)
    ensures
        r matches Some(i) ==> first_null(buf@, from as int) == Some(i as int),
        r is None ==> first_null(buf@, from as int) is None,
{
    let mut i: usize = from;
    while i < buf.len()
        invariant
            from <= i,
            first_null(buf@, from as int) == first_null(buf@, i as int),
        decreases buf.len() - i,
    {
        if buf[i] == 0 {
            return Some(i);
        }
        i = i + 1;
    }
    None
}

/// A SOCKS4 request as the model sees it.
pub struct RequestView {
    pub method: u8,
    pub dest_port: u16,
    pub dest_ip: Seq<u8>,
    pub userid: Seq<u8>,
    pub hostname: Option<Seq<u8>>,
}

/// A SOCKS4 or SOCKS4a request: version, method, port, address, a user id
/// ended by a zero byte and, for SOCKS4a, a host name ended by a zero byte.
pub struct Request {
    pub method: u8,
    pub dest_port: u16,
    pub dest_ip: [u8; 4],
    pub userid: Vec<u8>,
    /// Present exactly when the address is the SOCKS4a marker `0.0.0.1`.
    pub hostname: Option<Vec<u8>>,
}

impl View for Request {
    type V = RequestView;

    open spec fn view(&self) -> RequestView {
        RequestView {
            method: self.method,
            dest_port: self.dest_port,
            dest_ip: self.dest_ip@,
            userid: self.userid@,
            hostname: match self.hostname {
                Some(h) => Some(h@),
                None => None,
            },
        }
    }
}

/// Whether an address is the SOCKS4a marker.
pub open spec fn is_socks4a(ip: Seq<u8>) -> bool {
    ip == SOCKS4A_ADDRESS@
}

/// The request that a complete frame at the start of `b` holds, with the
/// number of bytes it takes; `None` while the frame is not complete.
pub open spec fn spec_parse_request(b: Seq<u8>) -> Option<(RequestView, int)> {
    if b.len() < 8 {
        None
    } else {
        let ip = b.subrange(4, 8);
        match first_null(b, 8) {
            None => None,
            Some(u) => {
                if is_socks4a(ip) {
                    match first_null(b, u + 1) {
                        None => None,
                        Some(h) => Some((RequestView {
                            method: b[1],
                            dest_port: be16(b[2], b[3]),
                            dest_ip: ip,
                            userid: b.subrange(8, u),
                            hostname: Some(b.subrange(u + 1, h)),
                        }, h + 1)),
                    }
                } else {
                    Some((RequestView {
                        method: b[1],
                        dest_port: be16(b[2], b[3]),
                        dest_ip: ip,
                        userid: b.subrange(8, u),
                        hostname: None,
                    }, u + 1))
                }
            }
        }
    }
}

impl Request {
    /// Parses the request at the start of `buf`. The version byte is not
    /// checked: the caller has read it to choose this parser. `None` means
    /// that more bytes are needed.
    pub fn parse(buf: &[u8]) -> (r: Option<(Request, usize)>)
        ensures
            match (r, spec_parse_request(buf@)) {
                (Some((req, n)), Some((v, m))) => req@ == v && n as int == m,
                (None, None) => true,
                _ => false,
            },
    {
        if buf.len() < 8 {
            return None;
        }
        let dest_port = read_be16(buf[2], buf[3]);
        let dest_ip: [u8; 4] = [buf[4], buf[5], buf[6], buf[7]];
        assert(dest_ip@ =~= buf@.subrange(4, 8));
        let u = match find_null(buf, 8) {
            Some(u) => u,
            None => return None,
        };
        proof {
            lemma_first_null_found(buf@, 8);
        }
        let userid = copy_range(buf, 8, u);
        if dest_ip[0] == 0 && dest_ip[1] == 0 && dest_ip[2] == 0 && dest_ip[3] == 1 {
            assert(is_socks4a(dest_ip@));
            let h = match find_null(buf, u + 1) {
                Some(h) => h,
                None => return None,
            };
            proof {
                lemma_first_null_found(buf@, u + 1);
            }
            let hostname = copy_range(buf, u + 1, h);
            Some((Request { method: buf[1], dest_port, dest_ip, userid, hostname: Some(hostname) }, h + 1))
        } else {
            assert(!is_socks4a(dest_ip@)) by {
                if dest_ip@ == SOCKS4A_ADDRESS@ {
                    assert(dest_ip@[3] == SOCKS4A_ADDRESS@[3]);
                    assert(dest_ip@[0] == SOCKS4A_ADDRESS@[0]);
                    assert(dest_ip@[1] == SOCKS4A_ADDRESS@[1]);
                    assert(dest_ip@[2] == SOCKS4A_ADDRESS@[2]);
                }
            }
            Some((Request { method: buf[1], dest_port, dest_ip, userid, hostname: None }, u + 1))
        }
    }
}

} // verus!
