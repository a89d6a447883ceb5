use kube_socks::v5::{
    Address, AuthMethods, AuthRequest, AuthResponse, Command, CommandRequest, ConnectResponse,
    Errors, ParseError, ATYPE_DNS, ATYPE_IPV4, ATYPE_IPV6, AUTH_GSSAPI, AUTH_NOT_REQUIRED,
    AUTH_USER_PASS, VERSION,
};

#[test]
fn error_if_wrong_version() {
    let req_res = AuthRequest::parse(&[0x04_u8]);

    assert!(req_res.is_err());
}

#[test]
fn tests_error_if_wrong_version() {
    let req_res = AuthRequest::parse(&[0x04_u8]);

    assert!(req_res.is_err())
}

#[test]
fn parse_no_auth_options() {
    let (req, _) = AuthRequest::parse(&[VERSION, 0x00_u8]).unwrap();

    assert_eq!(req.requests.len(), 0);
}

#[test]
fn parse_single_auth_options() {
    let (req, _) = AuthRequest::parse(&[VERSION, 0x01_u8, AUTH_NOT_REQUIRED]).unwrap();

    assert_eq!(req.requests, vec![AuthMethods::NotRequired]);
}

#[test]
fn parse_multiple_auth_options() {
    let (req, _) = AuthRequest::parse(&[
        VERSION,
        0x03_u8,
        AUTH_NOT_REQUIRED,
        AUTH_GSSAPI,
        AUTH_USER_PASS,
    ])
    .unwrap();

    assert_eq!(
        req.requests,
        vec![
            AuthMethods::NotRequired,
            AuthMethods::Gssapi,
            AuthMethods::Basic
        ]
    );
}

#[test]
fn parse_ipv4() {
    let (req, n) = CommandRequest::parse(&[5, 1, 0, 1, 192, 0, 2, 1, 0, 80]).unwrap();
    assert_eq!(n, 10);
    assert_eq!(req.command, Command::Connect);
    assert!(matches!(req.address, Address::Ipv4([192, 0, 2, 1])));
    assert_eq!(req.port, 80);
}

#[test]
fn ipv4_address() {
    let address = Address::Ipv4([192, 0, 2, 20]);

    let res: Vec<u8> = address.to_bytes();

    assert_eq!(res, vec![ATYPE_IPV4, 192, 0, 2, 20]);
}

#[test]
fn ipv6_address() {
    let address = Address::Ipv6([32, 1, 13, 184, 0, 0, 0, 0, 0, 19, 21, 81, 1, 51, 0, 1]);

    let res: Vec<u8> = address.to_bytes();

    assert_eq!(
        res,
        vec![ATYPE_IPV6, 32, 1, 13, 184, 0, 0, 0, 0, 0, 19, 21, 81, 1, 51, 0, 1]
    );
}

#[test]
fn dns_address() {
    let address = Address::Dns("example.com".to_string());

    let res: Vec<u8> = address.to_bytes();

    assert_eq!(
        res,
        vec![ATYPE_DNS, 11, 101, 120, 97, 109, 112, 108, 101, 46, 99, 111, 109]
    );
}

#[test]
fn auth_parse_drops_unknown_tags_and_keeps_rest() {
    let (req, n) = AuthRequest::parse(&[5, 4, 0x09, 0x02, 0xFF, 0x80, 5, 1]).unwrap();
    assert_eq!(n, 6);
    assert_eq!(req.requests, vec![AuthMethods::Basic, AuthMethods::NoAcceptable]);
}

#[test]
fn auth_parse_incomplete() {
    assert_eq!(AuthRequest::parse(&[]).err(), Some(ParseError::Incomplete));
    assert_eq!(AuthRequest::parse(&[5]).err(), Some(ParseError::Incomplete));
    assert_eq!(AuthRequest::parse(&[5, 2, 0]).err(), Some(ParseError::Incomplete));
}

#[test]
fn auth_parse_wrong_version_error() {
    assert_eq!(
        AuthRequest::parse(&[4, 1, 0]).err(),
        Some(ParseError::ProtocolError(Errors::General(
            kube_socks::Errors::UnsupportedVersion(4)
        )))
    );
}

#[test]
fn auth_contains() {
    let (req, _) = AuthRequest::parse(&[5, 2, 1, 2]).unwrap();
    assert!(req.contains(&AuthMethods::Gssapi));
    assert!(!req.contains(&AuthMethods::NotRequired));
}

#[test]
fn auth_responses_bytes() {
    assert_eq!(AuthResponse::not_required().to_bytes(), vec![5, 0]);
    assert_eq!(AuthResponse::none().to_bytes(), vec![5, 0xFF]);
}

#[test]
fn command_parse_unsupported_command() {
    assert_eq!(
        CommandRequest::parse(&[5, 9, 0, 7]).err(),
        Some(ParseError::ProtocolError(Errors::UnsupportedCommand(9)))
    );
}

#[test]
fn command_parse_unsupported_address_type() {
    assert_eq!(
        CommandRequest::parse(&[5, 1, 0, 7, 1, 2]).err(),
        Some(ParseError::ProtocolError(Errors::UnsupportedAddressType(7)))
    );
}

#[test]
fn command_parse_wrong_version() {
    assert_eq!(
        CommandRequest::parse(&[4, 1, 0, 1]).err(),
        Some(ParseError::ProtocolError(Errors::General(
            kube_socks::Errors::UnsupportedVersion(4)
        )))
    );
}

#[test]
fn command_parse_incomplete() {
    assert_eq!(CommandRequest::parse(&[5, 1, 0]).err(), Some(ParseError::Incomplete));
    assert_eq!(CommandRequest::parse(&[5, 1, 0, 1, 1, 2, 3, 4, 0]).err(), Some(ParseError::Incomplete));
    assert_eq!(CommandRequest::parse(&[5, 1, 0, 3, 5, b'a']).err(), Some(ParseError::Incomplete));
}

#[test]
fn command_parse_invalid_utf8() {
    assert_eq!(
        CommandRequest::parse(&[5, 1, 0, 3, 2, 0xC3, 0x28, 0, 80]).err(),
        Some(ParseError::InvalidUtf8)
    );
}

#[test]
fn command_parse_dns_non_ascii() {
    let (req, n) = CommandRequest::parse(&[5, 1, 0, 3, 3, b'a', 0xC3, 0xA9, 1, 2, 99]).unwrap();
    assert_eq!(n, 10);
    match req.address {
        Address::Dns(name) => assert_eq!(name, "a\u{e9}"),
        other => panic!("unexpected {:?}", other),
    }
    assert_eq!(req.port, 258);
}

#[test]
fn command_parse_ipv6() {
    let mut frame = vec![5, 3, 0, 4];
    frame.extend_from_slice(&[1; 16]);
    frame.extend_from_slice(&[0x1F, 0x90]);
    let (req, n) = CommandRequest::parse(&frame).unwrap();
    assert_eq!(n, 22);
    assert_eq!(req.command, Command::UdpAssociate);
    assert!(matches!(req.address, Address::Ipv6(a) if a == [1; 16]));
    assert_eq!(req.port, 8080);
}

#[test]
fn domain_name_of_255_bytes_parses() {
    let name = "a".repeat(255);
    let mut frame = vec![5, 1, 0, 3, 255];
    frame.extend_from_slice(name.as_bytes());
    frame.extend_from_slice(&[0, 80]);
    let (req, n) = CommandRequest::parse(&frame).unwrap();
    assert_eq!(n, 262);
    match req.address {
        Address::Dns(s) => assert_eq!(s, name),
        other => panic!("unexpected {:?}", other),
    }
}

#[test]
fn domain_name_of_length_zero_is_empty() {
    let (req, n) = CommandRequest::parse(&[5, 1, 0, 3, 0, 0, 80]).unwrap();
    assert_eq!(n, 7);
    match req.address {
        Address::Dns(s) => assert_eq!(s, ""),
        other => panic!("unexpected {:?}", other),
    }
}

#[test]
fn connect_response_bytes() {
    let r = ConnectResponse::success(Address::Dns("api.ns1.svc".to_string()), 80);
    let mut expected = vec![5, 0, 0, 3, 11];
    expected.extend_from_slice(b"api.ns1.svc");
    expected.extend_from_slice(&[0, 80]);
    assert_eq!(r.to_bytes(), expected);
    assert_eq!(
        ConnectResponse::geneal_failure().to_bytes(),
        vec![5, 1, 0, 1, 0, 0, 0, 0, 0, 0]
    );
    assert_eq!(
        ConnectResponse::network_unreachable(Address::Ipv4([10, 0, 0, 1]), 443).to_bytes(),
        vec![5, 3, 0, 1, 10, 0, 0, 1, 1, 187]
    );
    assert_eq!(
        ConnectResponse::host_unreachable(Address::Ipv4([10, 0, 0, 1]), 1).to_bytes(),
        vec![5, 4, 0, 1, 10, 0, 0, 1, 0, 1]
    );
    assert_eq!(
        ConnectResponse::connection_refused(Address::Ipv4([10, 0, 0, 1]), 1).to_bytes(),
        vec![5, 5, 0, 1, 10, 0, 0, 1, 0, 1]
    );
    assert_eq!(
        ConnectResponse::unsupported_address().to_bytes(),
        vec![5, 8, 0, 1, 0, 0, 0, 0, 0, 0]
    );
    assert_eq!(
        ConnectResponse::unsupported_command().to_bytes(),
        vec![5, 7, 0, 1, 0, 0, 0, 0, 0, 0]
    );
}

#[test]
fn connect_response_from_errors() {
    assert_eq!(
        ConnectResponse::from_error(Errors::UnsupportedCommand(3)).to_bytes(),
        vec![5, 7, 0, 1, 0, 0, 0, 0, 0, 0]
    );
    assert_eq!(
        ConnectResponse::from_error(Errors::UnsupportedAddressType(9)).to_bytes(),
        vec![5, 8, 0, 1, 0, 0, 0, 0, 0, 0]
    );
    assert_eq!(
        ConnectResponse::from_error(Errors::General(kube_socks::Errors::UnsupportedVersion(6)))
            .to_bytes(),
        vec![5, 1, 0, 1, 0, 0, 0, 0, 0, 0]
    );
}

#[test]
fn connect_response_round_trip_through_frame_reader() {
    // A reply has the layout of a request, with the reply code in the
    // command's place; reading a CONNECT-coded reply back gives its parts.
    let r = ConnectResponse::success(Address::Dns("db.prod.svc".to_string()), 5432);
    let mut bytes = r.to_bytes();
    bytes[1] = 1;
    let (req, n) = CommandRequest::parse(&bytes).unwrap();
    assert_eq!(n, bytes.len());
    match req.address {
        Address::Dns(s) => assert_eq!(s, "db.prod.svc"),
        other => panic!("unexpected {:?}", other),
    }
    assert_eq!(req.port, 5432);
}
