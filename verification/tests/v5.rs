use socks2::v5::client::{
    method_request, method_response, password_request, password_response, request, Step,
};
use socks2::v5::Authentication;
use socks2::{
    unwrap_io_to_socks2_error, Endpoint, EndpointV4, EndpointV6, Error, ErrorKind, IoError,
    Socks5Listener, Socks5Stream, TargetAddr, Text,
};

/// A transport in memory: what the proxy will say, and what was sent to it.
#[derive(Debug)]
struct Wire {
    incoming: Vec<u8>,
    at: usize,
    outgoing: Vec<u8>,
    reads: Vec<usize>,
}

impl Wire {
    fn new(incoming: &[u8]) -> Wire {
        Wire { incoming: incoming.to_vec(), at: 0, outgoing: Vec::new(), reads: Vec::new() }
    }

    fn read_exact(&mut self, n: usize) -> Result<Vec<u8>, IoError> {
        if self.incoming.len() - self.at < n {
            self.at = self.incoming.len();
            return Err(IoError::Transport(ErrorKind::UnexpectedEof));
        }
        let bytes = self.incoming[self.at..self.at + n].to_vec();
        self.at += n;
        self.reads.push(n);
        Ok(bytes)
    }

    fn read_to_end(&mut self) -> Vec<u8> {
        let rest = self.incoming[self.at..].to_vec();
        self.at = self.incoming.len();
        rest
    }
}

/// Runs a handshake to its end: sends what each step holds and reads what it asks for.
fn drive(mut step: Step<'_, Wire>) -> Result<Socks5Stream<Wire>, IoError> {
    loop {
        match step {
            Step::Exchange { mut next, send, receive } => {
                next.get_mut().outgoing.extend_from_slice(&send);
                let bytes = next.get_mut().read_exact(receive)?;
                step = next.advance(&bytes)?;
            }
            Step::Done { stream, rest } => {
                assert!(rest.is_empty());
                return Ok(stream);
            }
        }
    }
}

const SOCKS_PROXY_NO_AUTH_ONLY: &[u8] = &[5, 0];
const SOCKS_PROXY_PASSWD_ONLY: &[u8] = &[5, 2];
const GRANTED: &[u8] = &[5, 0, 0, 1, 10, 0, 0, 7, 0x9c, 0x40];
const PAGE: &[u8] = b"HTTP/1.0 200 OK\r\n\r\n<html></html>";

fn script(parts: &[&[u8]]) -> Wire {
    let mut all = Vec::new();
    for p in parts {
        all.extend_from_slice(p);
    }
    Wire::new(&all)
}

fn passwd_proxy(username: &str, password: &str, then: &[u8]) -> Wire {
    let ok = username == "testuser" && password == "testpass";
    script(&[SOCKS_PROXY_PASSWD_ONLY, &[1, if ok { 0 } else { 1 }], then])
}

fn google_addr() -> Endpoint {
    Endpoint::V4(EndpointV4 { ip: [142, 250, 185, 78], port: 80 })
}

fn text(s: &str) -> Text<'_> {
    Text { text: s, endpoint: None, literal: None }
}

fn google(mut socket: Socks5Stream<Wire>) {
    socket.get_mut().outgoing.extend_from_slice(b"GET / HTTP/1.0\r\n\r\n");
    let result = socket.get_mut().read_to_end();

    println!("{}", String::from_utf8_lossy(&result));
    assert!(result.starts_with(b"HTTP/1.0"));
    assert!(result.ends_with(b"</HTML>\r\n") || result.ends_with(b"</html>"));
}

#[test]
fn google_no_auth() {
    let addr = google_addr();
    let wire = script(&[SOCKS_PROXY_NO_AUTH_ONLY, GRANTED, PAGE]);
    let socket = drive(Socks5Stream::connect(wire, &addr).unwrap()).unwrap();
    assert_eq!(
        socket.get_ref().outgoing,
        [5, 1, 0, 5, 1, 0, 1, 142, 250, 185, 78, 0, 80]
    );
    google(socket);
}

#[test]
fn google_with_password() {
    let addr = google_addr();
    let wire = passwd_proxy("testuser", "testpass", &[GRANTED, PAGE].concat());
    let socket = drive(
        Socks5Stream::connect_with_password(wire, &addr, "testuser", "testpass").unwrap(),
    )
    .unwrap();
    assert_eq!(
        socket.get_ref().outgoing,
        b"\x05\x02\x02\x00\x01\x08testuser\x08testpass\x05\x01\x00\x01\x8e\xfa\xb9\x4e\x00\x50"
    );
    google(socket);
}

#[test]
fn v5_google_dns() {
    let wire = script(&[SOCKS_PROXY_NO_AUTH_ONLY, GRANTED, PAGE]);
    let mut socket = drive(Socks5Stream::connect(wire, &text("google.com:80")).unwrap()).unwrap();
    assert_eq!(
        socket.get_ref().outgoing,
        b"\x05\x01\x00\x05\x01\x00\x03\x0agoogle.com\x00\x50"
    );

    socket.get_mut().outgoing.extend_from_slice(b"GET / HTTP/1.0\r\n\r\n");
    let result = socket.get_mut().read_to_end();

    println!("{}", String::from_utf8_lossy(&result));
    assert!(result.starts_with(b"HTTP/1.0"));
    assert!(result.ends_with(b"</HTML>\r\n") || result.ends_with(b"</html>"));
}

// First figure out our local address that we'll be connecting from
fn find_address() -> TargetAddr {
    let wire = script(&[SOCKS_PROXY_NO_AUTH_ONLY, GRANTED]);
    let socket = drive(Socks5Stream::connect(wire, &text("google.com:80")).unwrap()).unwrap();
    socket.proxy_addr().to_owned()
}

const LISTENING: &[u8] = &[5, 0, 0, 1, 127, 0, 0, 1, 0x04, 0x38];

fn bind(listener: Socks5Listener<Wire>) {
    let addr = listener.proxy_addr().clone();
    assert_eq!(addr, TargetAddr::Ip(Endpoint::V4(EndpointV4 { ip: [127, 0, 0, 1], port: 1080 })));
    let mut conn = drive(listener.accept()).unwrap();
    assert_eq!(*conn.proxy_addr(), find_address());
    conn.get_mut().outgoing.clear();
    conn.get_mut().outgoing.extend_from_slice(b"hello world");
    let result = conn.into_inner().outgoing;
    assert_eq!(result, b"hello world");
}

#[test]
fn bind_no_auth() {
    let addr = find_address();
    let wire = script(&[SOCKS_PROXY_NO_AUTH_ONLY, LISTENING, GRANTED]);
    let stream = drive(Socks5Listener::bind(wire, &addr).unwrap()).unwrap();
    assert_eq!(stream.get_ref().outgoing, [5, 1, 0, 5, 2, 0, 1, 10, 0, 0, 7, 0x9c, 0x40]);
    bind(Socks5Listener::listening(stream));
}

#[test]
fn bind_with_password_supported_but_no_auth_used() {
    let addr = find_address();
    let wire = script(&[SOCKS_PROXY_NO_AUTH_ONLY, LISTENING, GRANTED]);
    let stream = drive(
        Socks5Listener::bind_with_password(
            wire,
            &addr,
            "unused_and_invalid_username",
            "unused_and_invalid_password",
        )
        .unwrap(),
    )
    .unwrap();
    assert_eq!(stream.get_ref().outgoing, [5, 2, 2, 0, 5, 2, 0, 1, 10, 0, 0, 7, 0x9c, 0x40]);
    bind(Socks5Listener::listening(stream));
}

#[test]
fn bind_with_password() {
    let addr = find_address();
    let wire = passwd_proxy("testuser", "testpass", &[LISTENING, GRANTED].concat());
    let stream = drive(
        Socks5Listener::bind_with_password(wire, &addr, "testuser", "testpass").unwrap(),
    )
    .unwrap();
    bind(Socks5Listener::listening(stream));
}

#[test]
fn incorrect_password() {
    let addr = google_addr();
    let wire = passwd_proxy("testuser", "invalid", GRANTED);
    let err = drive(Socks5Stream::connect_with_password(wire, &addr, "testuser", "invalid").unwrap())
        .unwrap_err();

    assert_eq!(err.kind(), ErrorKind::PermissionDenied);
    assert_eq!(
        unwrap_io_to_socks2_error(&err).unwrap().message(),
        "password authentication failed"
    );
}

#[test]
fn auth_method_not_supported() {
    let addr = google_addr();
    let wire = script(&[&[5, 0xff]]);
    let err = drive(Socks5Stream::connect(wire, &addr).unwrap()).unwrap_err();

    assert_eq!(
        unwrap_io_to_socks2_error(&err),
        Some(&Error::NoAuthMethods { method: 99 })
    );
}

#[test]
fn username_and_password_length() {
    let addr = google_addr();
    let connect = |username: &str, password: &str| {
        let wire = passwd_proxy(username, password, GRANTED);
        drive(Socks5Stream::connect_with_password(wire, &addr, username, password).unwrap())
    };

    let err = connect(&string_of_size(1), &string_of_size(1)).unwrap_err();
    assert_eq!(
        unwrap_io_to_socks2_error(&err),
        Some(&Error::FailedPasswordAuth {})
    );

    let err = connect(&string_of_size(255), &string_of_size(255)).unwrap_err();
    assert_eq!(
        unwrap_io_to_socks2_error(&err),
        Some(&Error::FailedPasswordAuth {})
    );

    let err = connect(&string_of_size(0), &string_of_size(255)).unwrap_err();
    assert_eq!(
        unwrap_io_to_socks2_error(&err),
        Some(&Error::InvalidUsername {
            username: "1".to_string(),
            length: 1
        })
    );

    let err = connect(&string_of_size(256), &string_of_size(255)).unwrap_err();
    assert_eq!(
        unwrap_io_to_socks2_error(&err),
        Some(&Error::InvalidUsername {
            username: "1".to_string(),
            length: 1
        })
    );

    let err = connect(&string_of_size(255), &string_of_size(0)).unwrap_err();
    assert_eq!(
        unwrap_io_to_socks2_error(&err),
        Some(&Error::InvalidPassword {
            password: (),
            length: 1
        })
    );

    let err = connect(&string_of_size(255), &string_of_size(256)).unwrap_err();
    assert_eq!(
        unwrap_io_to_socks2_error(&err),
        Some(&Error::InvalidPassword {
            password: (),
            length: 1
        })
    );
}

fn string_of_size(size: usize) -> String {
    (0..size).map(|_| 'x').collect()
}

#[test]
fn connect_no_auth_byte_streams() {
    let target = EndpointV4 { ip: [1, 2, 3, 4], port: 80 };
    let wire = Wire::new(&[0x05, 0x00, 0x05, 0x00, 0x00, 0x01, 0x7f, 0x00, 0x00, 0x01, 0x1f, 0x90]);
    let stream = drive(Socks5Stream::connect(wire, &target).unwrap()).unwrap();
    assert_eq!(
        stream.get_ref().outgoing,
        [0x05, 0x01, 0x00, 0x05, 0x01, 0x00, 0x01, 0x01, 0x02, 0x03, 0x04, 0x00, 0x50]
    );
    assert_eq!(
        *stream.proxy_addr(),
        TargetAddr::Ip(Endpoint::V4(EndpointV4 { ip: [127, 0, 0, 1], port: 8080 }))
    );
    assert_eq!(stream.get_ref().reads, [2, 1, 1, 1, 1, 4, 2]);
}

#[test]
fn wrong_password_byte_streams() {
    let target = EndpointV4 { ip: [1, 2, 3, 4], port: 80 };
    let wire = Wire::new(&[0x05, 0x02, 0x01, 0x01]);
    let mut step = Socks5Stream::connect_with_password(wire, &target, "user", "pass").unwrap();
    let mut sent = Vec::new();
    let err = loop {
        match step {
            Step::Exchange { mut next, send, receive } => {
                sent.push(send);
                let bytes = next.get_mut().read_exact(receive).unwrap();
                match next.advance(&bytes) {
                    Ok(s) => step = s,
                    Err(e) => break e,
                }
            }
            Step::Done { .. } => panic!("granted"),
        }
    };
    assert_eq!(sent.len(), 2);
    assert_eq!(sent[0], [0x05, 0x02, 0x02, 0x00]);
    assert_eq!(
        sent[1],
        [0x01, 0x04, 0x75, 0x73, 0x65, 0x72, 0x04, 0x70, 0x61, 0x73, 0x73]
    );
    assert_eq!(err.kind(), ErrorKind::PermissionDenied);
    assert!(matches!(unwrap_io_to_socks2_error(&err), Some(Error::FailedPasswordAuth {})));
}

#[test]
fn method_request_layout() {
    assert_eq!(method_request(&Authentication::NoAuth), [5, 1, 0]);
    let auth = Authentication::Password { username: "u", password: "p" };
    assert_eq!(method_request(&auth), [5, 2, 2, 0]);
    assert_eq!(Authentication::NoAuth.id(), 0);
    assert_eq!(auth.id(), 2);
    assert!(Authentication::NoAuth.is_no_auth());
    assert!(!auth.is_no_auth());
}

#[test]
fn method_response_choices() {
    let none = Authentication::NoAuth;
    let auth = Authentication::Password { username: "u", password: "p" };
    assert_eq!(method_response(&none, 5, 0).unwrap(), false);
    assert_eq!(method_response(&auth, 5, 0).unwrap(), false);
    assert_eq!(method_response(&auth, 5, 2).unwrap(), true);

    let err = method_response(&none, 5, 2).unwrap_err();
    assert_eq!(err.kind(), ErrorKind::Unsupported);
    assert!(matches!(
        unwrap_io_to_socks2_error(&err),
        Some(Error::UnknownAuthMethod { method: 2 })
    ));
    for method in [1u8, 3, 0x80, 0xfe] {
        for a in [&none, &auth] {
            let err = method_response(a, 5, method).unwrap_err();
            match unwrap_io_to_socks2_error(&err) {
                Some(Error::UnknownAuthMethod { method: m }) => assert_eq!(*m, method),
                other => panic!("{:?}", other),
            }
        }
    }
    for a in [&none, &auth] {
        let err = method_response(a, 5, 0xff).unwrap_err();
        assert_eq!(err.kind(), ErrorKind::Unsupported);
        assert!(matches!(
            unwrap_io_to_socks2_error(&err),
            Some(Error::NoAuthMethods { method: 0xff })
        ));
        for version in [0u8, 4, 6] {
            for method in [0u8, 2, 0xff] {
                let err = method_response(a, version, method).unwrap_err();
                assert_eq!(err.kind(), ErrorKind::InvalidData);
                match unwrap_io_to_socks2_error(&err) {
                    Some(Error::InvalidResponseVersion { version: v }) => assert_eq!(*v, version),
                    other => panic!("{:?}", other),
                }
            }
        }
    }
}

#[test]
fn password_request_layout() {
    for (u, p) in [(1usize, 1usize), (1, 255), (255, 1), (255, 255), (4, 9)] {
        let username = "u".repeat(u);
        let password = "p".repeat(p);
        let packet = password_request(&username, &password).unwrap();
        assert_eq!(packet.len(), 3 + u + p);
        assert_eq!(packet[0], 1);
        assert_eq!(packet[1] as usize, u);
        assert_eq!(&packet[2..2 + u], username.as_bytes());
        assert_eq!(packet[2 + u] as usize, p);
        assert_eq!(&packet[3 + u..], password.as_bytes());
    }
    assert_eq!(
        password_request("user", "pass").unwrap(),
        [0x01, 0x04, 0x75, 0x73, 0x65, 0x72, 0x04, 0x70, 0x61, 0x73, 0x73]
    );
}

#[test]
fn password_request_lengths() {
    for len in [0usize, 256, 300] {
        let err = password_request(&"u".repeat(len), "secret").unwrap_err();
        assert_eq!(err.kind(), ErrorKind::InvalidInput);
        match unwrap_io_to_socks2_error(&err) {
            Some(Error::InvalidUsername { username, length }) => {
                assert_eq!(*length, len);
                assert_eq!(username.len(), len);
            }
            other => panic!("{:?}", other),
        }
        let err = password_request("user", &"p".repeat(len)).unwrap_err();
        assert_eq!(err.kind(), ErrorKind::InvalidInput);
        match unwrap_io_to_socks2_error(&err) {
            Some(Error::InvalidPassword { password: (), length }) => assert_eq!(*length, len),
            other => panic!("{:?}", other),
        }
        assert!(!format!("{:?}", err).contains("ppp"));
    }
    let err = password_request("", "").unwrap_err();
    assert!(matches!(unwrap_io_to_socks2_error(&err), Some(Error::InvalidUsername { .. })));
    let err = password_request(&"é".repeat(128), "p").unwrap_err();
    assert!(matches!(
        unwrap_io_to_socks2_error(&err),
        Some(Error::InvalidUsername { length: 256, .. })
    ));
}

#[test]
fn password_response_status() {
    assert!(password_response(1, 0).is_ok());
    for status in [1u8, 2, 0xff] {
        let err = password_response(1, status).unwrap_err();
        assert_eq!(err.kind(), ErrorKind::PermissionDenied);
        assert!(matches!(unwrap_io_to_socks2_error(&err), Some(Error::FailedPasswordAuth {})));
    }
    for version in [0u8, 5] {
        let err = password_response(version, 0).unwrap_err();
        match unwrap_io_to_socks2_error(&err) {
            Some(Error::InvalidResponseVersion { version: v }) => assert_eq!(*v, version),
            other => panic!("{:?}", other),
        }
    }
}

#[test]
fn v5_request_layout() {
    let target = TargetAddr::Ip(Endpoint::V4(EndpointV4 { ip: [1, 2, 3, 4], port: 80 }));
    assert_eq!(request(1, &target).unwrap(), [5, 1, 0, 1, 1, 2, 3, 4, 0, 80]);
    assert_eq!(request(2, &target).unwrap(), [5, 2, 0, 1, 1, 2, 3, 4, 0, 80]);
    assert_eq!(request(3, &target).unwrap(), [5, 3, 0, 1, 1, 2, 3, 4, 0, 80]);
    let target = TargetAddr::Ip(Endpoint::V6(EndpointV6 { ip: [9; 16], port: 0x0102 }));
    let packet = request(1, &target).unwrap();
    assert_eq!(packet.len(), 22);
    assert_eq!(&packet[..4], &[5, 1, 0, 4]);
    assert_eq!(&packet[4..20], &[9; 16]);
    assert_eq!(&packet[20..], &[1, 2]);
    let target = TargetAddr::Domain("x".repeat(255), 80);
    let packet = request(1, &target).unwrap();
    assert_eq!(packet.len(), 3 + 2 + 255 + 2);
    assert_eq!(&packet[..5], &[5, 1, 0, 3, 255]);
    for len in [0usize, 256] {
        let err = request(1, &TargetAddr::Domain("x".repeat(len), 80)).unwrap_err();
        assert!(matches!(
            unwrap_io_to_socks2_error(&err),
            Some(Error::InvalidDomainLength { .. })
        ));
    }
}

#[test]
fn domain_is_checked_after_the_methods() {
    let target = TargetAddr::Domain(String::new(), 80);
    let wire = script(&[SOCKS_PROXY_NO_AUTH_ONLY, GRANTED]);
    let step = Socks5Stream::connect(wire, &target).unwrap();
    match step {
        Step::Exchange { mut next, send, receive } => {
            assert_eq!(send, [5, 1, 0]);
            assert_eq!(receive, 2);
            let bytes = next.get_mut().read_exact(2).unwrap();
            let err = next.advance(&bytes).unwrap_err();
            assert!(matches!(
                unwrap_io_to_socks2_error(&err),
                Some(Error::InvalidDomainLength { length: 0, .. })
            ));
        }
        Step::Done { .. } => panic!("granted"),
    }
}

#[test]
fn bad_target_sends_nothing() {
    let err = Socks5Stream::connect(Wire::new(&[]), &text("localhost")).unwrap_err();
    assert!(matches!(
        unwrap_io_to_socks2_error(&err),
        Some(Error::InvalidSocksAddress { .. })
    ));
}

#[test]
fn reply_errors_end_the_handshake() {
    let target = EndpointV4 { ip: [1, 2, 3, 4], port: 80 };
    let err = drive(Socks5Stream::connect(script(&[&[5, 0], &[5, 5]]), &target).unwrap()).unwrap_err();
    assert_eq!(err.kind(), ErrorKind::ConnectionRefused);
    let err = drive(Socks5Stream::connect(script(&[&[5, 0], &[4]]), &target).unwrap()).unwrap_err();
    assert!(matches!(
        unwrap_io_to_socks2_error(&err),
        Some(Error::InvalidResponseVersion { version: 4 })
    ));
    let err =
        drive(Socks5Stream::connect(script(&[&[5, 0], &[5, 0, 1]]), &target).unwrap()).unwrap_err();
    assert!(matches!(
        unwrap_io_to_socks2_error(&err),
        Some(Error::InvalidReservedByte { byte: 1 })
    ));
    let err = drive(Socks5Stream::connect(script(&[&[5, 0], &[5, 0, 0, 3, 1, 0xff]]), &target).unwrap())
        .unwrap_err();
    assert!(matches!(unwrap_io_to_socks2_error(&err), Some(Error::MalformedDomain { .. })));
    let err = drive(Socks5Stream::connect(script(&[&[5, 0], &[5, 0, 0]]), &target).unwrap())
        .unwrap_err();
    assert!(matches!(err, IoError::Transport(ErrorKind::UnexpectedEof)));
}

#[test]
fn reply_with_a_domain() {
    let target = EndpointV4 { ip: [1, 2, 3, 4], port: 80 };
    let wire = script(&[&[5, 0], b"\x05\x00\x00\x03\x09localhost\x00\x50"]);
    let stream = drive(Socks5Stream::connect(wire, &target).unwrap()).unwrap();
    assert_eq!(*stream.proxy_addr(), TargetAddr::Domain("localhost".to_owned(), 80));
    assert_eq!(stream.get_ref().reads, [2, 1, 1, 1, 1, 1, 9, 2]);
}

#[test]
fn handshake_takes_bytes_in_any_pieces() {
    let target = EndpointV4 { ip: [1, 2, 3, 4], port: 80 };
    let all = [SOCKS_PROXY_PASSWD_ONLY, &[1, 0], GRANTED, b"after"].concat();
    for piece in [1usize, 2, 3, 5, 7, 64] {
        let mut step =
            Socks5Stream::connect_with_password(Wire::new(&[]), &target, "user", "pass").unwrap();
        let mut sent = Vec::new();
        let mut at = 0;
        let (stream, rest) = loop {
            match step {
                Step::Exchange { next, send, receive } => {
                    sent.extend_from_slice(&send);
                    let n = if receive == 0 { 0 } else { piece.min(all.len() - at) };
                    step = next.advance(&all[at..at + n]).unwrap();
                    at += n;
                }
                Step::Done { stream, rest } => break (stream, rest),
            }
        };
        assert_eq!(
            sent,
            b"\x05\x02\x02\x00\x01\x04user\x04pass\x05\x01\x00\x01\x01\x02\x03\x04\x00\x50"
        );
        assert_eq!(
            *stream.proxy_addr(),
            TargetAddr::Ip(Endpoint::V4(EndpointV4 { ip: [10, 0, 0, 7], port: 40000 }))
        );
        let mut tail = rest;
        tail.extend_from_slice(&all[at..]);
        assert_eq!(tail, b"after");
    }
}

#[test]
fn accept_failure() {
    let target = EndpointV4 { ip: [1, 2, 3, 4], port: 80 };
    let wire = script(&[SOCKS_PROXY_NO_AUTH_ONLY, LISTENING, &[5, 4]]);
    let stream = drive(Socks5Listener::bind(wire, &target).unwrap()).unwrap();
    let err = drive(Socks5Listener::listening(stream).accept()).unwrap_err();
    assert_eq!(err.kind(), ErrorKind::ConnectionAborted);
    assert_eq!(unwrap_io_to_socks2_error(&err), Some(&Error::ServerHostUnreachable {}));
}
