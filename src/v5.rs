//! SOCKS5 frames (RFC 1928): method negotiation, the command request and
//! the command reply.
use vstd::prelude::*;
use vstd::utf8::{
    decode_utf8, decode_utf8_encode_utf8, encode_utf8, encode_utf8_decode_utf8,
    encode_utf8_valid_utf8, valid_utf8,
};

use crate::{be16, be16_bytes, copy_range, lemma_be16_round_trip, read_be16, write_be16};

verus! {

pub const VERSION: u8 = 5;

pub const AUTH_NOT_REQUIRED: u8 = 0x00;

pub const AUTH_GSSAPI: u8 = 0x01;

pub const AUTH_USER_PASS: u8 = 0x02;

pub const AUTH_NONE: u8 = 0xFF;

pub const CMD_CONNECT: u8 = 0x01;

pub const CMD_BIND: u8 = 0x02;

pub const CMD_UDP_ASSOCIATE: u8 = 0x03;

pub const ATYPE_IPV4: u8 = 0x01;

pub const ATYPE_IPV6: u8 = 0x04;

pub const ATYPE_DNS: u8 = 0x03;

pub const RESP_SUCCEEDED: u8 = 0x00;

pub const RESP_GENERAL_FAILURE: u8 = 0x01;

pub const RESP_DENIED: u8 = 0x02;

pub const RESP_NETWORK_UNREACHABLE: u8 = 0x03;

pub const RESP_HOST_UNREACHABLE: u8 = 0x04;

pub const RESP_CONNECTION_REFUSED: u8 = 0x05;

pub const RESP_TTL_EXPIRED: u8 = 0x06;

pub const RESP_COMMAND_NOT_SUPPORTED: u8 = 0x07;

pub const RESP_ADDRESS_NOT_SUPPORTED: u8 = 0x08;

/// Protocol errors found while reading a frame.
#[derive(Debug, Clone, Copy, PartialEq, Eq, Structural)]
pub enum Errors {
    General(crate::Errors),
    UnsupportedCommand(u8),
    UnsupportedAddressType(u8),
}

/// Why a frame could not be read.
#[derive(Debug, Clone, Copy, PartialEq, Eq, Structural)]
pub enum ParseError {
    ProtocolError(Errors),
    /// The input ended before the frame did.
    Incomplete,
    /// A host name was not valid UTF-8.
    InvalidUtf8,
}

#[derive(Clone, Copy, Debug, PartialEq, Eq, Structural)]
pub enum AuthMethods {
    NotRequired,
    Gssapi,
    Basic,
    NoAcceptable,
}

/// The method that a tag byte names, if any.
pub open spec fn method_of(b: u8) -> Option<AuthMethods> {
    if b == AUTH_NOT_REQUIRED {
        Some(AuthMethods::NotRequired)
    } else if b == AUTH_GSSAPI {
        Some(AuthMethods::Gssapi)
    } else if b == AUTH_USER_PASS {
        Some(AuthMethods::Basic)
    } else if b == AUTH_NONE {
        Some(AuthMethods::NoAcceptable)
    } else {
        None
    }
}

/// The tag byte of a method.
pub open spec fn method_tag(m: AuthMethods) -> u8 {
    match m {
        AuthMethods::NotRequired => AUTH_NOT_REQUIRED,
        AuthMethods::Gssapi => AUTH_GSSAPI,
        AuthMethods::Basic => AUTH_USER_PASS,
        AuthMethods::NoAcceptable => AUTH_NONE,
    }
}

impl AuthMethods {
    pub fn from_u8(b: u8) -> (r: Option<AuthMethods>)
        ensures
            r == method_of(b),
    {
        if b == AUTH_NOT_REQUIRED {
            Some(AuthMethods::NotRequired)
        } else if b == AUTH_GSSAPI {
            Some(AuthMethods::Gssapi)
        } else if b == AUTH_USER_PASS {
            Some(AuthMethods::Basic)
        } else if b == AUTH_NONE {
            Some(AuthMethods::NoAcceptable)
        } else {
            None
        }
    }

    pub fn to_u8(&self) -> (r: u8)
        ensures
            r == method_tag(*self),
            method_of(r) == Some(*self),
    {
        match self {
            AuthMethods::NotRequired => AUTH_NOT_REQUIRED,
            AuthMethods::Gssapi => AUTH_GSSAPI,
            AuthMethods::Basic => AUTH_USER_PASS,
            AuthMethods::NoAcceptable => AUTH_NONE,
        }
    }
}

#[derive(Clone, Copy, Debug, Eq, PartialEq, Structural)]
pub enum Command {
    Connect,
    Bind,
    UdpAssociate,
}

/// The command that a byte names, if any.
pub open spec fn command_of(b: u8) -> Option<Command> {
    if b == CMD_CONNECT {
        Some(Command::Connect)
    } else if b == CMD_BIND {
        Some(Command::Bind)
    } else if b == CMD_UDP_ASSOCIATE {
        Some(Command::UdpAssociate)
    } else {
        None
    }
}

impl Command {
    pub fn from_u8(b: u8) -> (r: Option<Command>)
        ensures
            r == command_of(b),
    {
        if b == CMD_CONNECT {
            Some(Command::Connect)
        } else if b == CMD_BIND {
            Some(Command::Bind)
        } else if b == CMD_UDP_ASSOCIATE {
            Some(Command::UdpAssociate)
        } else {
            None
        }
    }
}

/// The recognised methods among the tag bytes `s`, in order; unknown tags
/// are dropped.
pub open spec fn known_methods(s: Seq<u8>) -> Seq<AuthMethods>
    decreases s.len(),
{
    if s.len() == 0 {
        seq![]
    } else {
        let rest = known_methods(s.drop_last());
        match method_of(s.last()) {
            Some(m) => rest.push(m),
            None => rest,
        }
    }
}

/// What reading a method-selection frame from the start of `b` gives: the
/// offered methods and the length of the frame.
pub open spec fn spec_parse_auth(b: Seq<u8>) -> Result<(Seq<AuthMethods>, int), ParseError> {
    if b.len() < 1 {
        Err(ParseError::Incomplete)
    } else if b[0] != VERSION {
        Err(ParseError::ProtocolError(Errors::General(crate::Errors::UnsupportedVersion(b[0]))))
    } else if b.len() < 2 || b.len() < 2 + b[1] {
        Err(ParseError::Incomplete)
    } else {
        Ok((known_methods(b.subrange(2, 2 + b[1])), 2 + b[1]))
    }
}

/// The client's method-selection frame.
pub struct AuthRequest {
    pub requests: Vec<AuthMethods>,
}

impl AuthRequest {
    pub fn contains(&self, method: &AuthMethods) -> (r: bool)
        ensures
            r == self.requests@.contains(*method),
    {
        let mut i: usize = 0;
        while i < self.requests.len()
            invariant
                i <= self.requests@.len(),
                forall|k: int| 0 <= k < i ==> self.requests@[k] != *method,
            decreases self.requests@.len() - i,
        {
            if self.requests[i] == *method {
                return true;
            }
            i = i + 1;
        }
        false
    }

    /// Reads the frame at the start of `buf`: the version byte, which must
    /// be 5, a count `n` and `n` method tags. Returns the request and the
    /// number of bytes it took.
    pub fn parse(buf: &[u8]) -> (r: Result<(AuthRequest, usize), ParseError>)
        ensures
            match (r, spec_parse_auth(buf@)) {
                (Ok((req, n)), Ok((ms, m))) => req.requests@ == ms && n as int == m,
                (Err(e), Err(f)) => e == f,
                _ => false,
            },
    {
        if buf.len() < 1 {
            return Err(ParseError::Incomplete);
        }
        let ver = buf[0];
        if ver != VERSION {
            return Err(ParseError::ProtocolError(Errors::General(crate::Errors::UnsupportedVersion(ver))));
        }
        if buf.len() < 2 {
            return Err(ParseError::Incomplete);
        }
        let count = buf[1] as usize;
        if buf.len() - 2 < count {
            return Err(ParseError::Incomplete);
        }
        let end = 2 + count;
        let mut requests: Vec<AuthMethods> = Vec::new();
        let mut i: usize = 2;
        while i < end
            invariant
                2 <= i <= end <= buf@.len(),
                requests@ == known_methods(buf@.subrange(2, i as int)),
            decreases end - i,
        {
            assert(buf@.subrange(2, i + 1).drop_last() =~= buf@.subrange(2, i as int));
            match AuthMethods::from_u8(buf[i]) {
                Some(m) => requests.push(m),
                None => {},
            }
            i = i + 1;
        }
        Ok((AuthRequest { requests }, end))
    }
}

/// The server's choice of method.
pub struct AuthResponse {
    pub method: AuthMethods,
}

impl AuthResponse {
    pub fn not_required() -> (r: AuthResponse)
        ensures
            r.method == AuthMethods::NotRequired,
    {
        AuthResponse { method: AuthMethods::NotRequired }
    }

    pub fn none() -> (r: AuthResponse)
        ensures
            r.method == AuthMethods::NoAcceptable,
    {
        AuthResponse { method: AuthMethods::NoAcceptable }
    }

    pub open spec fn spec_bytes(&self) -> Seq<u8> {
        seq![VERSION, method_tag(self.method)]
    }

    /// The two-byte reply: version and method.
    pub fn to_bytes(&self) -> (r: Vec<u8>)
        ensures
            r@ == self.spec_bytes(),
    {
        let r = vec![VERSION, self.method.to_u8()];
        assert(r@ =~= self.spec_bytes());
        r
    }
}

/// Relies on `String::from_utf8`: it accepts exactly the byte strings that
/// are valid UTF-8 and then holds the characters they encode.
#[verifier::external_body]
fn string_from_utf8(bytes: Vec<u8>) -> (r: Option<String>)
    ensures
        r is Some <==> valid_utf8(bytes@),
        r matches Some(s) ==> s@ == decode_utf8(bytes@),
{
    String::from_utf8(bytes).ok()
}

/// A destination address as the model sees it.
pub enum AddressView {
    Ipv4(Seq<u8>),
    Ipv6(Seq<u8>),
    Dns(Seq<char>),
}

/// A destination address: an IP literal or a host name.
#[derive(Debug)]
pub enum Address {
    Ipv4([u8; 4]),
    Ipv6([u8; 16]),
    Dns(String),
}

impl View for Address {
    type V = AddressView;

    open spec fn view(&self) -> AddressView {
        match self {
            Address::Ipv4(a) => AddressView::Ipv4(a@),
            Address::Ipv6(a) => AddressView::Ipv6(a@),
            Address::Dns(s) => AddressView::Dns(s@),
        }
    }
}

/// The wire form of an address: its type byte, then four or sixteen
/// address bytes, or a length byte and the name's UTF-8 bytes.
pub open spec fn address_bytes(a: AddressView) -> Seq<u8> {
    match a {
        AddressView::Ipv4(ip) => seq![ATYPE_IPV4] + ip,
        AddressView::Ipv6(ip) => seq![ATYPE_IPV6] + ip,
        AddressView::Dns(name) => seq![ATYPE_DNS, encode_utf8(name).len() as u8] + encode_utf8(name),
    }
}

/// Whether an address has a wire form: a host name takes at most 255 bytes.
pub open spec fn address_fits(a: AddressView) -> bool {
    match a {
        AddressView::Ipv4(ip) => ip.len() == 4,
        AddressView::Ipv6(ip) => ip.len() == 16,
        AddressView::Dns(name) => encode_utf8(name).len() <= 255,
    }
}

/// What reading an address whose type byte is at `b[at]` gives: the address
/// and the position just past it.
pub open spec fn spec_parse_address(b: Seq<u8>, at: int) -> Result<(AddressView, int), ParseError> {
    if b.len() <= at {
        Err(ParseError::Incomplete)
    } else if b[at] == ATYPE_IPV4 {
        if b.len() < at + 5 {
            Err(ParseError::Incomplete)
        } else {
            Ok((AddressView::Ipv4(b.subrange(at + 1, at + 5)), at + 5))
        }
    } else if b[at] == ATYPE_IPV6 {
        if b.len() < at + 17 {
            Err(ParseError::Incomplete)
        } else {
            Ok((AddressView::Ipv6(b.subrange(at + 1, at + 17)), at + 17))
        }
    } else if b[at] == ATYPE_DNS {
        if b.len() < at + 2 || b.len() < at + 2 + b[at + 1] {
            Err(ParseError::Incomplete)
        } else {
            let name = b.subrange(at + 2, at + 2 + b[at + 1]);
            if valid_utf8(name) {
                Ok((AddressView::Dns(decode_utf8(name)), at + 2 + b[at + 1]))
            } else {
                Err(ParseError::InvalidUtf8)
            }
        }
    } else {
        Err(ParseError::ProtocolError(Errors::UnsupportedAddressType(b[at])))
    }
}

impl Address {
    /// The address in its wire form.
    pub fn to_bytes(&self) -> (r: Vec<u8>)
        requires
            address_fits(self@),
        ensures
            r@ == address_bytes(self@),
    {
        match self {
            Address::Ipv4(a) => {
                let mut r: Vec<u8> = vec![ATYPE_IPV4];
                r.extend_from_slice(a.as_slice());
                assert(r@ =~= address_bytes(self@));
                r
            },
            Address::Ipv6(a) => {
                let mut r: Vec<u8> = vec![ATYPE_IPV6];
                r.extend_from_slice(a.as_slice());
                assert(r@ =~= address_bytes(self@));
                r
            },
            Address::Dns(name) => {
                let bytes = name.as_str().as_bytes();
                let mut r: Vec<u8> = vec![ATYPE_DNS, bytes.len() as u8];
                r.extend_from_slice(bytes);
                assert(r@ =~= address_bytes(self@));
                r
            },
        }
    }

    /// Reads the address whose type byte is at `buf[at]`; returns it with
    /// the position just past it.
    pub fn parse(buf: &[u8], at: usize) -> (r: Result<(Address, usize), ParseError>)
        ensures
            match (r, spec_parse_address(buf@, at as int)) {
                (Ok((a, n)), Ok((v, m))) => a@ == v && n as int == m,
                (Err(e), Err(f)) => e == f,
                _ => false,
            },
            (r is Ok) ==> address_fits(r->Ok_0.0@),
    {
        if buf.len() <= at {
            return Err(ParseError::Incomplete);
        }
        let atype = buf[at];
        if atype == ATYPE_IPV4 {
            if buf.len() - at < 5 {
                return Err(ParseError::Incomplete);
            }
            let a: [u8; 4] = [buf[at + 1], buf[at + 2], buf[at + 3], buf[at + 4]];
            assert(a@ =~= buf@.subrange(at + 1, at + 5));
            Ok((Address::Ipv4(a), at + 5))
        } else if atype == ATYPE_IPV6 {
            if buf.len() - at < 17 {
                return Err(ParseError::Incomplete);
            }
            let mut a: [u8; 16] = [0; 16];
            let mut i: usize = 0;
            while i < 16
                invariant
                    0 <= i <= 16,
                    at + 17 <= buf@.len() <= usize::MAX,
                    a@.len() == 16,
                    forall|k: int| 0 <= k < i ==> a@[k] == buf@[at + 1 + k],
                decreases 16 - i,
            {
                let j: usize = at + 1 + i;
                a[i] = buf[j];
                i = i + 1;
            }
            assert(a@ =~= buf@.subrange(at + 1, at + 17));
            Ok((Address::Ipv6(a), at + 17))
        } else if atype == ATYPE_DNS {
            if buf.len() - at < 2 {
                return Err(ParseError::Incomplete);
            }
            let size = buf[at + 1] as usize;
            if buf.len() - at - 2 < size {
                return Err(ParseError::Incomplete);
            }
            let bytes = copy_range(buf, at + 2, at + 2 + size);
            proof {
                if valid_utf8(bytes@) {
                    decode_utf8_encode_utf8(bytes@);
                }
            }
            match string_from_utf8(bytes) {
                Some(name) => Ok((Address::Dns(name), at + 2 + size)),
                None => Err(ParseError::InvalidUtf8),
            }
        } else {
            Err(ParseError::ProtocolError(Errors::UnsupportedAddressType(atype)))
        }
    }
}

/// A command request as the model sees it.
pub struct CommandRequestView {
    pub command: Command,
    pub address: AddressView,
    pub port: u16,
}

/// The client's command request.
#[derive(Debug)]
pub struct CommandRequest {
    pub command: Command,
    pub address: Address,
    pub port: u16,
}

impl View for CommandRequest {
    type V = CommandRequestView;

    open spec fn view(&self) -> CommandRequestView {
        CommandRequestView { command: self.command, address: self.address@, port: self.port }
    }
}

/// What reading a command request from the start of `b` gives: version,
/// command, a reserved byte, the address and the port, and the frame's
/// length. Errors come in the order in which the bytes are read.
pub open spec fn spec_parse_command(b: Seq<u8>) -> Result<(CommandRequestView, int), ParseError> {
    if b.len() < 1 {
        Err(ParseError::Incomplete)
    } else if b[0] != VERSION {
        Err(ParseError::ProtocolError(Errors::General(crate::Errors::UnsupportedVersion(b[0]))))
    } else if b.len() < 2 {
        Err(ParseError::Incomplete)
    } else if command_of(b[1]) is None {
        Err(ParseError::ProtocolError(Errors::UnsupportedCommand(b[1])))
    } else if b.len() < 3 {
        Err(ParseError::Incomplete)
    } else {
        match spec_parse_address(b, 3) {
            Err(e) => Err(e),
            Ok((a, end)) => {
                if b.len() < end + 2 {
                    Err(ParseError::Incomplete)
                } else {
                    Ok((
                        CommandRequestView {
                            command: command_of(b[1])->0,
                            address: a,
                            port: be16(b[end], b[end + 1]),
                        },
                        end + 2,
                    ))
                }
            },
        }
    }
}

impl CommandRequest {
    /// Reads the request at the start of `buf`; returns it with the number
    /// of bytes it took. Reads no further than the port.
    pub fn parse(buf: &[u8]) -> (r: Result<(CommandRequest, usize), ParseError>)
        ensures
            match (r, spec_parse_command(buf@)) {
                (Ok((req, n)), Ok((v, m))) => req@ == v && n as int == m,
                (Err(e), Err(f)) => e == f,
                _ => false,
            },
            (r is Ok) ==> address_fits(r->Ok_0.0.address@),
    {
        if buf.len() < 1 {
            return Err(ParseError::Incomplete);
        }
        let ver = buf[0];
        if ver != VERSION {
            return Err(ParseError::ProtocolError(Errors::General(crate::Errors::UnsupportedVersion(ver))));
        }
        if buf.len() < 2 {
            return Err(ParseError::Incomplete);
        }
        let command = match Command::from_u8(buf[1]) {
            Some(c) => c,
            None => return Err(ParseError::ProtocolError(Errors::UnsupportedCommand(buf[1]))),
        };
        if buf.len() < 3 {
            return Err(ParseError::Incomplete);
        }
        let parsed = Address::parse(buf, 3);
        let (address, end) = match parsed {
            Ok(p) => p,
            Err(e) => return Err(e),
        };
        if buf.len() - end < 2 {
            return Err(ParseError::Incomplete);
        }
        let port = read_be16(buf[end], buf[end + 1]);
        Ok((CommandRequest { command, address, port }, end + 2))
    }
}

/// A reply to a command request as the model sees it.
pub struct ConnectResponseView {
    pub reply: u8,
    pub address: AddressView,
    pub port: u16,
}

/// The server's reply to a command request.
#[derive(Debug)]
pub struct ConnectResponse {
    pub reply: u8,
    pub address: Address,
    pub port: u16,
}

impl View for ConnectResponse {
    type V = ConnectResponseView;

    open spec fn view(&self) -> ConnectResponseView {
        ConnectResponseView { reply: self.reply, address: self.address@, port: self.port }
    }
}

/// The address that failure replies carry: `0.0.0.0`.
pub open spec fn unspecified() -> AddressView {
    AddressView::Ipv4(seq![0u8, 0u8, 0u8, 0u8])
}

/// The wire form of a reply: version, reply code, a zero byte, the address
/// and the port.
pub open spec fn reply_bytes(r: ConnectResponseView) -> Seq<u8> {
    seq![VERSION, r.reply, 0u8] + address_bytes(r.address) + be16_bytes(r.port)
}

/// What reading a whole reply frame `b` gives.
pub open spec fn spec_decode_reply(b: Seq<u8>) -> Option<ConnectResponseView> {
    if b.len() < 4 || b[0] != VERSION || b[2] != 0 {
        None
    } else {
        match spec_parse_address(b, 3) {
            Ok((a, end)) => if b.len() == end + 2 {
                Some(ConnectResponseView { reply: b[1], address: a, port: be16(b[end], b[end + 1]) })
            } else {
                None
            },
            Err(_) => None,
        }
    }
}

impl ConnectResponse {
    /// A failure reply with code `reply` and the address `0.0.0.0:0`.
    pub fn failure(reply: u8) -> (r: ConnectResponse)
        ensures
            r@ == (ConnectResponseView { reply, address: unspecified(), port: 0 }),
    {
        let r = ConnectResponse { reply, address: Address::Ipv4([0, 0, 0, 0]), port: 0 };
        assert(r@.address == unspecified());
        r
    }

    pub fn success(address: Address, port: u16) -> (r: ConnectResponse)
        ensures
            r@ == (ConnectResponseView { reply: RESP_SUCCEEDED, address: address@, port }),
    {
        ConnectResponse { reply: RESP_SUCCEEDED, address, port }
    }

    pub fn geneal_failure() -> (r: ConnectResponse)
        ensures
            r@ == (ConnectResponseView { reply: RESP_GENERAL_FAILURE, address: unspecified(), port: 0 }),
    {
        ConnectResponse::failure(RESP_GENERAL_FAILURE)
    }

    pub fn network_unreachable(address: Address, port: u16) -> (r: ConnectResponse)
        ensures
            r@ == (ConnectResponseView { reply: RESP_NETWORK_UNREACHABLE, address: address@, port }),
    {
        ConnectResponse { reply: RESP_NETWORK_UNREACHABLE, address, port }
    }

    pub fn host_unreachable(address: Address, port: u16) -> (r: ConnectResponse)
        ensures
            r@ == (ConnectResponseView { reply: RESP_HOST_UNREACHABLE, address: address@, port }),
    {
        ConnectResponse { reply: RESP_HOST_UNREACHABLE, address, port }
    }

    pub fn connection_refused(address: Address, port: u16) -> (r: ConnectResponse)
        ensures
            r@ == (ConnectResponseView { reply: RESP_CONNECTION_REFUSED, address: address@, port }),
    {
        ConnectResponse { reply: RESP_CONNECTION_REFUSED, address, port }
    }

    pub fn unsupported_address() -> (r: ConnectResponse)
        ensures
            r@ == (ConnectResponseView { reply: RESP_ADDRESS_NOT_SUPPORTED, address: unspecified(), port: 0 }),
    {
        ConnectResponse::failure(RESP_ADDRESS_NOT_SUPPORTED)
    }

    pub fn unsupported_command() -> (r: ConnectResponse)
        ensures
            r@ == (ConnectResponseView { reply: RESP_COMMAND_NOT_SUPPORTED, address: unspecified(), port: 0 }),
    {
        ConnectResponse::failure(RESP_COMMAND_NOT_SUPPORTED)
    }

    /// The reply that a protocol error calls for.
    pub fn from_error(e: Errors) -> (r: ConnectResponse)
        ensures
            r@ == (ConnectResponseView { reply: error_reply(e), address: unspecified(), port: 0 }),
    {
        match e {
            Errors::General(_) => ConnectResponse::geneal_failure(),
            Errors::UnsupportedCommand(_) => ConnectResponse::unsupported_command(),
            Errors::UnsupportedAddressType(_) => ConnectResponse::unsupported_address(),
        }
    }

    /// The reply in its wire form, as one buffer.
    pub fn to_bytes(&self) -> (r: Vec<u8>)
        requires
            address_fits(self@.address),
        ensures
            r@ == reply_bytes(self@),
    {
        let mut r: Vec<u8> = vec![VERSION, self.reply, 0u8];
        let mut a = self.address.to_bytes();
        r.append(&mut a);
        let (hi, lo) = write_be16(self.port);
        r.push(hi);
        r.push(lo);
        assert(r@ =~= reply_bytes(self@));
        r
    }
}

/// The reply code for a protocol error.
pub open spec fn error_reply(e: Errors) -> u8 {
    match e {
        Errors::General(_) => RESP_GENERAL_FAILURE,
        Errors::UnsupportedCommand(_) => RESP_COMMAND_NOT_SUPPORTED,
        Errors::UnsupportedAddressType(_) => RESP_ADDRESS_NOT_SUPPORTED,
    }
}

proof fn lemma_known_methods_recognised(tags: Seq<u8>)
    ensures
        known_methods(tags).len() <= tags.len(),
        forall|i: int|
            0 <= i < known_methods(tags).len() ==> exists|j: int|
                0 <= j < tags.len() && method_of(#[trigger] tags[j]) == Some(
                    #[trigger] known_methods(tags)[i],
                ),
    decreases tags.len(),
{
    if tags.len() > 0 {
        let init = tags.drop_last();
        lemma_known_methods_recognised(init);
        assert forall|i: int| 0 <= i < known_methods(tags).len() implies exists|j: int|
            0 <= j < tags.len() && method_of(#[trigger] tags[j]) == Some(
                #[trigger] known_methods(tags)[i],
            ) by {
            if i < known_methods(init).len() {
                let j = choose|j: int|
                    0 <= j < init.len() && method_of(#[trigger] init[j]) == Some(
                        known_methods(init)[i],
                    );
                assert(tags[j] == init[j]);
            } else {
                assert(method_of(tags[tags.len() - 1]) == Some(known_methods(tags)[i]));
            }
        }
    }
}

/// A method-selection frame is accepted whenever it is the version byte 5,
/// a count `n` and `n` tag bytes, whatever follows it: the frame takes
/// exactly those bytes, and each method returned is one that a tag names.
pub proof fn lemma_auth_request_accepted(tags: Seq<u8>, rest: Seq<u8>)
    requires
        tags.len() <= 255,
    ensures
        spec_parse_auth(seq![VERSION, tags.len() as u8] + tags + rest) == Ok::<
            (Seq<AuthMethods>, int),
            ParseError,
        >((known_methods(tags), 2 + tags.len() as int)),
        known_methods(tags).len() <= tags.len(),
        forall|i: int|
            0 <= i < known_methods(tags).len() ==> exists|j: int|
                0 <= j < tags.len() && method_of(#[trigger] tags[j]) == Some(
                    #[trigger] known_methods(tags)[i],
                ),
{
    let b = seq![VERSION, tags.len() as u8] + tags + rest;
    assert(b.subrange(2, 2 + tags.len() as int) =~= tags);
    lemma_known_methods_recognised(tags);
}

/// Decoding the wire form of a reply gives the same reply back, with the
/// address type (IPv4, IPv6 or host name) kept, whenever the address has a
/// wire form.
pub proof fn lemma_reply_round_trip(r: ConnectResponseView)
    requires
        address_fits(r.address),
    ensures
        spec_decode_reply(reply_bytes(r)) == Some(r),
{
    let b = reply_bytes(r);
    let ab = address_bytes(r.address);
    assert(b =~= seq![VERSION, r.reply, 0u8] + ab + be16_bytes(r.port));
    lemma_be16_round_trip(r.port);
    let end: int = 3 + ab.len() as int;
    assert(b.subrange(3, end) =~= ab);
    assert(b[end] == be16_bytes(r.port)[0]);
    assert(b[end + 1] == be16_bytes(r.port)[1]);
    match r.address {
        AddressView::Ipv4(ip) => {
            assert(b.subrange(4, 8) =~= ip);
        },
        AddressView::Ipv6(ip) => {
            assert(b.subrange(4, 20) =~= ip);
        },
        AddressView::Dns(name) => {
            let e = encode_utf8(name);
            assert(b[4] == e.len() as u8);
            assert(b.subrange(5, 5 + e.len() as int) =~= e);
            encode_utf8_valid_utf8(name);
            encode_utf8_decode_utf8(name);
        },
    }
}

} // verus!
