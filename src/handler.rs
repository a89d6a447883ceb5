//! The per-connection state machine.
//!
//! The caller owns the client stream and the cluster session. It hands the
//! machine the bytes received so far (and whether the client has stopped
//! sending), the outcome of opening a forward, or the end of the relay; the
//! machine answers with the next action. The connection always ends with
//! `Action::Close`, after which the caller joins the forward session once
//! and stops.
use vstd::prelude::*;
use vstd::slice::slice_to_vec;

use crate::be16;
use crate::read_be16;
use crate::resolver::{
    self, first_eligible, first_named_port, first_service_port, spec_select_pod,
    spec_service_labels, ErrorsView, PodInfo, ServiceInfo, TargetPort,
};
use crate::v4;
use crate::v5::{
    self, error_reply, reply_bytes, spec_parse_auth, spec_parse_command, unspecified, Address,
    AddressView, AuthMethods, AuthRequest, AuthResponse, Command, CommandRequest, ConnectResponse,
    ConnectResponseView, ParseError,
};

verus! {

/// Where a connection stands.
#[derive(Debug)]
pub enum Phase {
    /// Nothing accepted yet: the first byte chooses the protocol version.
    Greeting,
    /// SOCKS5 method negotiation is done; the command request is awaited.
    V5Command,
    /// A CONNECT to a host name; the forward is being opened.
    Forwarding { address: Address, port: u16 },
    /// Bytes are relayed both ways.
    Relaying,
    /// The connection is over.
    Done,
}

pub enum PhaseView {
    Greeting,
    V5Command,
    Forwarding { address: AddressView, port: u16 },
    Relaying,
    Done,
}

impl View for Phase {
    type V = PhaseView;

    open spec fn view(&self) -> PhaseView {
        match self {
            Phase::Greeting => PhaseView::Greeting,
            Phase::V5Command => PhaseView::V5Command,
            Phase::Forwarding { address, port } => PhaseView::Forwarding {
                address: address@,
                port: *port,
            },
            Phase::Relaying => PhaseView::Relaying,
            Phase::Done => PhaseView::Done,
        }
    }
}

/// What the caller does next.
#[derive(Debug)]
pub enum Action {
    /// Wait for more bytes from the client; nothing was consumed.
    Read,
    /// Write `reply` to the client, drop `consumed` bytes of input, go on.
    Reply { reply: Vec<u8>, consumed: usize },
    /// Drop `consumed` bytes of input and open a forward to `host`:`port`.
    Forward { host: String, port: u16, consumed: usize },
    /// Write `reply` to the client, then relay bytes both ways.
    Relay { reply: Vec<u8> },
    /// Write `reply` to the client (if not empty), join the forward session
    /// and end the connection.
    Close { reply: Vec<u8> },
}

pub enum ActionView {
    Read,
    Reply { reply: Seq<u8>, consumed: int },
    Forward { host: Seq<char>, port: u16, consumed: int },
    Relay { reply: Seq<u8> },
    Close { reply: Seq<u8> },
}

impl View for Action {
    type V = ActionView;

    open spec fn view(&self) -> ActionView {
        match self {
            Action::Read => ActionView::Read,
            Action::Reply { reply, consumed } => ActionView::Reply {
                reply: reply@,
                consumed: *consumed as int,
            },
            Action::Forward { host, port, consumed } => ActionView::Forward {
                host: host@,
                port: *port,
                consumed: *consumed as int,
            },
            Action::Relay { reply } => ActionView::Relay { reply: reply@ },
            Action::Close { reply } => ActionView::Close { reply: reply@ },
        }
    }
}

/// The SOCKS5 reply that refuses every offered method.
pub open spec fn refuse_bytes() -> Seq<u8> {
    seq![v5::VERSION, v5::AUTH_NONE]
}

/// The SOCKS5 reply that accepts the method `NOT_REQUIRED`.
pub open spec fn accept_bytes() -> Seq<u8> {
    seq![v5::VERSION, v5::AUTH_NOT_REQUIRED]
}

/// The command reply for a failure with code `code`.
pub open spec fn failure_bytes(code: u8) -> Seq<u8> {
    reply_bytes(ConnectResponseView { reply: code, address: unspecified(), port: 0 })
}

/// The SOCKS4 reply to the bytes `b`, or `None` while more are needed.
/// Once the eight header bytes are in, a method other than CONNECT is
/// rejected at once; a CONNECT is answered once the request is complete,
/// or rejected if the client ends it early. Only a SOCKS4a CONNECT is
/// granted. Every reply past the header echoes its port and address.
pub open spec fn spec_v4_reply(b: Seq<u8>, ended: bool) -> Option<Seq<u8>> {
    if b.len() < 8 {
        if ended {
            Some(
                v4::response_bytes(
                    v4::RESP_VERSION,
                    v4::RESP_CODE_REJECT_OR_FAILED,
                    0,
                    seq![0u8, 0u8, 0u8, 0u8],
                ),
            )
        } else {
            None
        }
    } else {
        let port = be16(b[2], b[3]);
        let ip = b.subrange(4, 8);
        let reject = v4::response_bytes(v4::RESP_VERSION, v4::RESP_CODE_REJECT_OR_FAILED, port, ip);
        if b[1] != v4::METHOD_CONNECT {
            Some(reject)
        } else {
            match v4::spec_parse_request(b) {
                None => if ended {
                    Some(reject)
                } else {
                    None
                },
                Some(_) => if v4::is_socks4a(ip) {
                    Some(v4::response_bytes(v4::RESP_VERSION, v4::RESP_CODE_GRANTED, port, ip))
                } else {
                    Some(reject)
                },
            }
        }
    }
}

/// Whether a parse outcome asks for more input: the frame is incomplete
/// and the client may still send.
pub open spec fn waits<T>(r: Result<T, ParseError>, ended: bool) -> bool {
    r == Err::<T, ParseError>(ParseError::Incomplete) && !ended
}

/// The step taken on the first bytes of a connection.
pub open spec fn spec_greeting(b: Seq<u8>, ended: bool) -> (PhaseView, ActionView) {
    if b.len() == 0 {
        if ended {
            (PhaseView::Done, ActionView::Close { reply: refuse_bytes() })
        } else {
            (PhaseView::Greeting, ActionView::Read)
        }
    } else if b[0] == v4::VERSION {
        match spec_v4_reply(b, ended) {
            None => (PhaseView::Greeting, ActionView::Read),
            Some(r) => (PhaseView::Done, ActionView::Close { reply: r }),
        }
    } else if b[0] == v5::VERSION {
        if waits(spec_parse_auth(b), ended) {
            (PhaseView::Greeting, ActionView::Read)
        } else {
            match spec_parse_auth(b) {
                Ok((ms, n)) => if ms.contains(AuthMethods::NotRequired) {
                    (PhaseView::V5Command, ActionView::Reply { reply: accept_bytes(), consumed: n })
                } else {
                    (PhaseView::Done, ActionView::Close { reply: refuse_bytes() })
                },
                Err(_) => (PhaseView::Done, ActionView::Close { reply: refuse_bytes() }),
            }
        }
    } else {
        (PhaseView::Done, ActionView::Close { reply: refuse_bytes() })
    }
}

/// The step taken on a SOCKS5 command request.
pub open spec fn spec_command(b: Seq<u8>, ended: bool) -> (PhaseView, ActionView) {
    if waits(spec_parse_command(b), ended) {
        (PhaseView::V5Command, ActionView::Read)
    } else {
        match spec_parse_command(b) {
            Err(ParseError::ProtocolError(e)) => (
                PhaseView::Done,
                ActionView::Close { reply: failure_bytes(error_reply(e)) },
            ),
            Err(_) => (
                PhaseView::Done,
                ActionView::Close { reply: failure_bytes(v5::RESP_GENERAL_FAILURE) },
            ),
            Ok((req, n)) => if req.command != Command::Connect {
                (
                    PhaseView::Done,
                    ActionView::Close { reply: failure_bytes(v5::RESP_COMMAND_NOT_SUPPORTED) },
                )
            } else {
                match req.address {
                    AddressView::Dns(name) => (
                        PhaseView::Forwarding { address: req.address, port: req.port },
                        ActionView::Forward { host: name, port: req.port, consumed: n },
                    ),
                    _ => (
                        PhaseView::Done,
                        ActionView::Close { reply: failure_bytes(v5::RESP_ADDRESS_NOT_SUPPORTED) },
                    ),
                }
            },
        }
    }
}

/// The step taken on input bytes.
pub open spec fn spec_on_data(p: PhaseView, b: Seq<u8>, ended: bool) -> (PhaseView, ActionView) {
    match p {
        PhaseView::Greeting => spec_greeting(b, ended),
        _ => spec_command(b, ended),
    }
}

/// The reply code for a resolution or forwarding failure.
pub open spec fn resolve_error_code(e: ErrorsView) -> u8 {
    match e {
        ErrorsView::PodNotFound { .. } => v5::RESP_HOST_UNREACHABLE,
        ErrorsView::ServiceNotFound { .. } => v5::RESP_HOST_UNREACHABLE,
        ErrorsView::NamedServicePodsNotFound { .. } => v5::RESP_HOST_UNREACHABLE,
        ErrorsView::ServiceNoReadyPods { .. } => v5::RESP_CONNECTION_REFUSED,
        ErrorsView::PortNotFound(..) => v5::RESP_CONNECTION_REFUSED,
        ErrorsView::UnsupportedAddress(_) => v5::RESP_ADDRESS_NOT_SUPPORTED,
        ErrorsView::ServiceInvalid { .. } => v5::RESP_GENERAL_FAILURE,
        ErrorsView::ForwardFailed(_) => v5::RESP_GENERAL_FAILURE,
        ErrorsView::LookupFailed(_) => v5::RESP_GENERAL_FAILURE,
    }
}

/// The reply for a resolution or forwarding failure: its code, with the
/// address `0.0.0.0` and port 0.
pub open spec fn spec_resolve_error_reply(e: ErrorsView) -> ConnectResponseView {
    ConnectResponseView { reply: resolve_error_code(e), address: unspecified(), port: 0 }
}

/// The reply to a client whose target could not be resolved or reached.
pub fn resolve_error_reply(e: &resolver::Errors) -> (r: ConnectResponse)
    ensures
        r@ == spec_resolve_error_reply(e@),
{
    match e {
        resolver::Errors::PodNotFound { .. } => ConnectResponse::failure(v5::RESP_HOST_UNREACHABLE),
        resolver::Errors::ServiceNotFound { .. } => ConnectResponse::failure(v5::RESP_HOST_UNREACHABLE),
        resolver::Errors::NamedServicePodsNotFound { .. } => ConnectResponse::failure(
            v5::RESP_HOST_UNREACHABLE,
        ),
        resolver::Errors::ServiceNoReadyPods { .. } => ConnectResponse::failure(
            v5::RESP_CONNECTION_REFUSED,
        ),
        resolver::Errors::PortNotFound(..) => ConnectResponse::failure(v5::RESP_CONNECTION_REFUSED),
        resolver::Errors::UnsupportedAddress(_) => ConnectResponse::unsupported_address(),
        resolver::Errors::ServiceInvalid { .. } => ConnectResponse::geneal_failure(),
        resolver::Errors::ForwardFailed(_) => ConnectResponse::geneal_failure(),
        resolver::Errors::LookupFailed(_) => ConnectResponse::geneal_failure(),
    }
}

/// The failure that opening a forward reported, if any.
pub open spec fn failure_of(r: Result<(), resolver::Errors>) -> Option<ErrorsView> {
    match r {
        Ok(_) => None,
        Err(e) => Some(e@),
    }
}

/// The step taken once opening the forward has succeeded (`None`) or
/// failed: the success reply echoes the requested address, then the relay
/// starts; a failure gets its reply and the connection ends.
pub open spec fn spec_on_forward(p: PhaseView, failure: Option<ErrorsView>) -> (PhaseView, ActionView) {
    match p {
        PhaseView::Forwarding { address, port } => match failure {
            None => (
                PhaseView::Relaying,
                ActionView::Relay {
                    reply: reply_bytes(
                        ConnectResponseView { reply: v5::RESP_SUCCEEDED, address, port },
                    ),
                },
            ),
            Some(e) => (
                PhaseView::Done,
                ActionView::Close { reply: reply_bytes(spec_resolve_error_reply(e)) },
            ),
        },
        _ => (PhaseView::Done, ActionView::Close { reply: Seq::<u8>::empty() }),
    }
}

/// When the service port asked for targets a port by name and the chosen
/// pod has no container port of that name, resolution fails with
/// `PortNotFound` and the client is answered CONNECTION_REFUSED, with the
/// address `0.0.0.0:0`.
pub proof fn lemma_missing_named_port_refused(
    namespace: Seq<char>,
    service: Seq<char>,
    hostname: Option<Seq<char>>,
    svc: ServiceInfo,
    pods: Seq<PodInfo>,
    port: u16,
    chosen: int,
    entry: int,
    port_name: Seq<char>,
)
    requires
        first_eligible(pods, hostname, 0) == Some(chosen),
        (svc.spec matches Some(spec) && first_service_port(spec.ports@, port, 0) == Some(entry)
            && (spec.ports@[entry].target_port matches Some(TargetPort::Name(n)) && n@
            == port_name)),
        first_named_port(pods[chosen].container_ports@, port_name, 0) == None::<int>,
    ensures
        spec_select_pod(namespace, service, hostname, svc, pods, port) == Err::<
            (Seq<char>, Seq<char>, u16),
            ErrorsView,
        >(ErrorsView::PortNotFound(namespace, service, port)),
        reply_bytes(spec_resolve_error_reply(ErrorsView::PortNotFound(namespace, service, port)))
            == failure_bytes(v5::RESP_CONNECTION_REFUSED),
{
}

/// A service found without a selector fails resolution with
/// `ServiceInvalid`, and the client is answered GENERAL_FAILURE, with the
/// address `0.0.0.0:0`.
pub proof fn lemma_missing_selector_general_failure(namespace: Seq<char>, service: Seq<char>, svc: ServiceInfo)
    requires
        (svc.spec matches Some(spec) && spec.selector is None),
    ensures
        spec_service_labels(namespace, service, Some(svc)) matches Err(e) && e is ServiceInvalid
            && reply_bytes(spec_resolve_error_reply(e)) == failure_bytes(v5::RESP_GENERAL_FAILURE),
{
}

/// Whether an action ends the connection.
pub open spec fn is_close(a: ActionView) -> bool {
    a is Close
}

/// One transition of the machine: it starts from a live phase and ends in
/// `Done` exactly when its action is `Close`.
pub open spec fn step_ok(before: PhaseView, a: ActionView, after: PhaseView) -> bool {
    &&& !(before is Done)
    &&& (is_close(a) <==> after is Done)
}

/// Whether an action closes the connection after writing a non-empty
/// reply whose first byte is `first`.
pub open spec fn closes_with_reply(a: ActionView, first: u8) -> bool {
    match a {
        ActionView::Close { reply } => reply.len() > 0 && reply[0] == first,
        _ => false,
    }
}

/// After any failure to read a frame, whether malformed or cut short by the
/// client, the connection writes a whole reply and closes: a SOCKS5 reply
/// (first byte 5) to a SOCKS5 frame or an unknown version, a SOCKS4 reply
/// (first byte 0) to a SOCKS4 request.
pub proof fn lemma_parse_failure_replies(b: Seq<u8>, ended: bool)
    ensures
        b.len() > 0 && b[0] == v5::VERSION && spec_parse_auth(b) is Err && !waits(
            spec_parse_auth(b),
            ended,
        ) ==> closes_with_reply(spec_greeting(b, ended).1, v5::VERSION),
        spec_parse_command(b) is Err && !waits(spec_parse_command(b), ended) ==> closes_with_reply(
            spec_command(b, ended).1,
            v5::VERSION,
        ),
        b.len() > 0 && b[0] == v4::VERSION && v4::spec_parse_request(b) is None && ended
            ==> closes_with_reply(spec_greeting(b, ended).1, v4::RESP_VERSION),
        b.len() > 0 && b[0] != v4::VERSION && b[0] != v5::VERSION ==> closes_with_reply(
            spec_greeting(b, ended).1,
            v5::VERSION,
        ),
        b.len() == 0 && ended ==> closes_with_reply(spec_greeting(b, ended).1, v5::VERSION),
{
    assert forall|code: u8| #[trigger] failure_bytes(code).len() > 0 && failure_bytes(code)[0] == v5::VERSION by {
        let v = ConnectResponseView { reply: code, address: unspecified(), port: 0 };
        assert(reply_bytes(v) == seq![v5::VERSION, code, 0u8] + v5::address_bytes(v.address) + crate::be16_bytes(0));
    }
}

/// The number of actions that close the connection.
pub open spec fn closes(actions: Seq<ActionView>) -> nat
    decreases actions.len(),
{
    if actions.len() == 0 {
        0
    } else {
        closes(actions.drop_last()) + if is_close(actions.last()) {
            1nat
        } else {
            0nat
        }
    }
}

/// Along any run of transitions from a live phase, the connection is
/// closed, and its forward session joined, at most once: exactly once when
/// the run has reached `Done`, never before.
pub proof fn lemma_closed_exactly_once(phases: Seq<PhaseView>, actions: Seq<ActionView>)
    requires
        phases.len() == actions.len() + 1,
        !(phases[0] is Done),
        forall|i: int| 0 <= i < actions.len() ==> step_ok(phases[i], #[trigger] actions[i], phases[i + 1]),
    ensures
        closes(actions) == (if phases.last() is Done { 1nat } else { 0nat }),
    decreases actions.len(),
{
    if actions.len() > 0 {
        let n = actions.len() - 1;
        let p0 = phases.drop_last();
        let a0 = actions.drop_last();
        assert forall|i: int| 0 <= i < a0.len() implies step_ok(p0[i], #[trigger] a0[i], p0[i + 1]) by {
            assert(step_ok(phases[i], actions[i], phases[i + 1]));
        }
        lemma_closed_exactly_once(p0, a0);
        assert(step_ok(phases[n], actions[n], phases[n + 1]));
    }
}

/// A connection and where it stands.
pub struct Connection {
    phase: Phase,
}

impl View for Connection {
    type V = PhaseView;

    closed spec fn view(&self) -> PhaseView {
        self.phase@
    }
}

impl Connection {
    /// The address a forward is being opened for has a wire form, so the
    /// success reply can echo it.
    #[verifier::type_invariant]
    spec fn inv(&self) -> bool {
        match self.phase@ {
            PhaseView::Forwarding { address, .. } => v5::address_fits(address),
            _ => true,
        }
    }

    pub fn new() -> (r: Connection)
        ensures
            r@ is Greeting,
    {
        Connection { phase: Phase::Greeting }
    }

    /// Where the connection stands.
    pub fn phase(&self) -> (r: &Phase)
        ensures
            r@ == self@,
    {
        &self.phase
    }

    fn v4_step(&mut self, buf: &[u8], ended: bool) -> (a: Action)
        requires
            old(self)@ is Greeting,
            buf@.len() > 0 && buf@[0] == v4::VERSION,
        ensures
            (final(self)@, a@) == spec_greeting(buf@, ended),
    {
        if buf.len() < 8 {
            if ended {
                self.phase = Phase::Done;
                let r = v4::Response::rejected_or_failed(0, [0, 0, 0, 0]).to_buf();
                let reply = slice_to_vec(&r);
                assert(reply@ =~= v4::response_bytes(
                    v4::RESP_VERSION,
                    v4::RESP_CODE_REJECT_OR_FAILED,
                    0,
                    seq![0u8, 0u8, 0u8, 0u8],
                ));
                return Action::Close { reply };
            } else {
                return Action::Read;
            }
        }
        let port = read_be16(buf[2], buf[3]);
        let ip: [u8; 4] = [buf[4], buf[5], buf[6], buf[7]];
        assert(ip@ =~= buf@.subrange(4, 8));
        let reject = v4::Response::rejected_or_failed(port, ip).to_buf();
        if buf[1] != v4::METHOD_CONNECT {
            self.phase = Phase::Done;
            return Action::Close { reply: slice_to_vec(&reject) };
        }
        match v4::Request::parse(buf) {
            None => if ended {
                self.phase = Phase::Done;
                Action::Close { reply: slice_to_vec(&reject) }
            } else {
                Action::Read
            },
            Some(_) => {
                let is_4a = ip[0] == 0 && ip[1] == 0 && ip[2] == 0 && ip[3] == 1;
                assert(is_4a == v4::is_socks4a(ip@)) by {
                    if ip@ == v4::SOCKS4A_ADDRESS@ {
                        assert(ip@[0] == v4::SOCKS4A_ADDRESS@[0]);
                        assert(ip@[1] == v4::SOCKS4A_ADDRESS@[1]);
                        assert(ip@[2] == v4::SOCKS4A_ADDRESS@[2]);
                        assert(ip@[3] == v4::SOCKS4A_ADDRESS@[3]);
                    }
                    if is_4a {
                        assert(ip@ =~= v4::SOCKS4A_ADDRESS@);
                    }
                }
                self.phase = Phase::Done;
                if is_4a {
                    let r = v4::Response::granted(port, ip).to_buf();
                    Action::Close { reply: slice_to_vec(&r) }
                } else {
                    Action::Close { reply: slice_to_vec(&reject) }
                }
            },
        }
    }

    fn v5_auth_step(&mut self, buf: &[u8], ended: bool) -> (a: Action)
        requires
            old(self)@ is Greeting,
            buf@.len() > 0 && buf@[0] == v5::VERSION,
        ensures
            (final(self)@, a@) == spec_greeting(buf@, ended),
    {
        match AuthRequest::parse(buf) {
            Ok((req, n)) => if req.contains(&AuthMethods::NotRequired) {
                self.phase = Phase::V5Command;
                let reply = AuthResponse::not_required().to_bytes();
                Action::Reply { reply, consumed: n }
            } else {
                self.phase = Phase::Done;
                Action::Close { reply: AuthResponse::none().to_bytes() }
            },
            Err(ParseError::Incomplete) => if ended {
                self.phase = Phase::Done;
                Action::Close { reply: AuthResponse::none().to_bytes() }
            } else {
                Action::Read
            },
            Err(_) => {
                self.phase = Phase::Done;
                Action::Close { reply: AuthResponse::none().to_bytes() }
            },
        }
    }

    fn command_step(&mut self, buf: &[u8], ended: bool) -> (a: Action)
        requires
            old(self)@ is V5Command,
        ensures
            (final(self)@, a@) == spec_command(buf@, ended),
    {
        match CommandRequest::parse(buf) {
            Err(ParseError::ProtocolError(e)) => {
                self.phase = Phase::Done;
                Action::Close { reply: ConnectResponse::from_error(e).to_bytes() }
            },
            Err(ParseError::Incomplete) => if ended {
                self.phase = Phase::Done;
                Action::Close { reply: ConnectResponse::geneal_failure().to_bytes() }
            } else {
                Action::Read
            },
            Err(ParseError::InvalidUtf8) => {
                self.phase = Phase::Done;
                Action::Close { reply: ConnectResponse::geneal_failure().to_bytes() }
            },
            Ok((req, n)) => {
                if req.command != Command::Connect {
                    self.phase = Phase::Done;
                    return Action::Close { reply: ConnectResponse::unsupported_command().to_bytes() };
                }
                match req.address {
                    Address::Dns(name) => {
                        let host = name.clone();
                        let port = req.port;
                        self.phase = Phase::Forwarding { address: Address::Dns(name), port };
                        Action::Forward { host, port, consumed: n }
                    },
                    _ => {
                        self.phase = Phase::Done;
                        Action::Close { reply: ConnectResponse::unsupported_address().to_bytes() }
                    },
                }
            },
        }
    }

    /// The next action given the client bytes not yet consumed; `ended`
    /// says that the client will send no more.
    pub fn on_data(&mut self, buf: &[u8], ended: bool) -> (a: Action)
        requires
            old(self)@ is Greeting || old(self)@ is V5Command,
        ensures
            (final(self)@, a@) == spec_on_data(old(self)@, buf@, ended),
            step_ok(old(self)@, a@, final(self)@),
    {
        match self.phase {
            Phase::Greeting => {
                if buf.len() == 0 {
                    if ended {
                        self.phase = Phase::Done;
                        return Action::Close { reply: AuthResponse::none().to_bytes() };
                    } else {
                        return Action::Read;
                    }
                }
                if buf[0] == v4::VERSION {
                    self.v4_step(buf, ended)
                } else if buf[0] == v5::VERSION {
                    self.v5_auth_step(buf, ended)
                } else {
                    self.phase = Phase::Done;
                    Action::Close { reply: AuthResponse::none().to_bytes() }
                }
            },
            _ => self.command_step(buf, ended),
        }
    }

    /// The next action once opening the forward has succeeded or failed.
    pub fn on_forward(&mut self, result: &Result<(), resolver::Errors>) -> (a: Action)
        requires
            old(self)@ is Forwarding,
        ensures
            (final(self)@, a@) == spec_on_forward(old(self)@, failure_of(*result)),
            step_ok(old(self)@, a@, final(self)@),
    {
        proof {
            use_type_invariant(&*self);
        }
        let mut old_phase = Phase::Done;
        core::mem::swap(&mut self.phase, &mut old_phase);
        match old_phase {
            Phase::Forwarding { address, port } => match result {
                Ok(_) => {
                    self.phase = Phase::Relaying;
                    Action::Relay { reply: ConnectResponse::success(address, port).to_bytes() }
                },
                Err(e) => Action::Close { reply: resolve_error_reply(e).to_bytes() },
            },
            _ => Action::Close { reply: Vec::new() },
        }
    }

    /// The next action once the relay has ended, either side having closed
    /// or failed.
    pub fn on_relay_end(&mut self) -> (a: Action)
        requires
            old(self)@ is Relaying,
        ensures
            final(self)@ is Done,
            a@ == (ActionView::Close { reply: Seq::<u8>::empty() }),
            step_ok(old(self)@, a@, final(self)@),
    {
        self.phase = Phase::Done;
        Action::Close { reply: Vec::new() }
    }
}

} // verus!
