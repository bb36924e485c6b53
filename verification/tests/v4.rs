use socks2::v4::{read_response, request, Socks4Handshake};
use socks2::{
    unwrap_io_to_socks2_error, Endpoint, EndpointV4, EndpointV6, Error, ErrorKind, IoError,
    Socks4Listener, Socks4Stream, TargetAddr, Text,
};

/// A transport in memory: what the proxy will say, and what was sent to it.
#[derive(Debug)]
struct Wire {
    incoming: Vec<u8>,
    at: usize,
    outgoing: Vec<u8>,
}

impl Wire {
    fn new(incoming: &[u8]) -> Wire {
        Wire { incoming: incoming.to_vec(), at: 0, outgoing: Vec::new() }
    }

    fn read_to_end(&mut self) -> Vec<u8> {
        let rest = self.incoming[self.at..].to_vec();
        self.at = self.incoming.len();
        rest
    }
}

fn exchange(pending: (Socks4Handshake<Wire>, Vec<u8>)) -> Result<Socks4Stream<Wire>, IoError> {
    let (mut pending, packet) = pending;
    pending.get_mut().outgoing.extend_from_slice(&packet);
    reply(pending)
}

fn reply(mut pending: Socks4Handshake<Wire>) -> Result<Socks4Stream<Wire>, IoError> {
    let wire = pending.get_mut();
    let mut response = [0u8; 8];
    response.copy_from_slice(&wire.incoming[wire.at..wire.at + 8]);
    wire.at += 8;
    pending.finish(&response)
}

fn google_ip() -> EndpointV4 {
    EndpointV4 { ip: [142, 250, 185, 78], port: 80 }
}

fn text(s: &str) -> Text<'_> {
    Text { text: s, endpoint: None, literal: None }
}

const PAGE: &[u8] = b"HTTP/1.0 200 OK\r\n\r\n<html></html>";

#[test]
fn google() {
    let mut script = vec![0u8, 90, 0, 80, 142, 250, 185, 78];
    script.extend_from_slice(PAGE);
    let pending = Socks4Stream::connect(Wire::new(&script), &google_ip(), "").unwrap();
    let mut socket = exchange(pending).unwrap();
    assert_eq!(socket.get_ref().outgoing, [4, 1, 0, 80, 142, 250, 185, 78, 0]);

    socket.get_mut().outgoing.extend_from_slice(b"GET / HTTP/1.0\r\n\r\n");
    let result = socket.get_mut().read_to_end();

    println!("{}", String::from_utf8_lossy(&result));
    assert!(result.starts_with(b"HTTP/1.0"));
    assert!(result.ends_with(b"</HTML>\r\n") || result.ends_with(b"</html>"));
}

#[test]
fn v4_google_dns() {
    let mut script = vec![0u8, 90, 0, 80, 0, 0, 0, 0];
    script.extend_from_slice(PAGE);
    let pending = Socks4Stream::connect(Wire::new(&script), &text("google.com:80"), "").unwrap();
    let mut socket = exchange(pending).unwrap();
    assert_eq!(socket.get_ref().outgoing, b"\x04\x01\x00\x50\x00\x00\x00\x01\x00google.com\x00");

    socket.get_mut().outgoing.extend_from_slice(b"GET / HTTP/1.0\r\n\r\n");
    let result = socket.get_mut().read_to_end();

    println!("{}", String::from_utf8_lossy(&result));
    assert!(result.starts_with(b"HTTP/1.0"));
    assert!(result.ends_with(b"</HTML>\r\n") || result.ends_with(b"</html>"));
}

#[test]
fn bind() {
    // First figure out our local address that we'll be connecting from
    let pending =
        Socks4Stream::connect(Wire::new(&[0, 90, 0x9c, 0x40, 10, 0, 0, 7]), &google_ip(), "")
            .unwrap();
    let socket = exchange(pending).unwrap();
    let addr = socket.proxy_addr();
    assert_eq!(addr, EndpointV4 { ip: [10, 0, 0, 7], port: 40000 });

    let mut script = vec![0u8, 90, 0x04, 0x38, 0, 0, 0, 0];
    script.extend_from_slice(&[0, 90, 0x9c, 0x40, 10, 0, 0, 7]);
    let pending = Socks4Listener::bind(Wire::new(&script), &addr, "").unwrap();
    let listener = Socks4Listener::listening(exchange(pending).unwrap());
    assert!(listener.needs_peer());
    let proxy = Endpoint::V4(EndpointV4 { ip: [127, 0, 0, 1], port: 1084 });
    let addr = listener.proxy_addr(Some(proxy)).unwrap();
    assert_eq!(addr, Endpoint::V4(EndpointV4 { ip: [127, 0, 0, 1], port: 1080 }));
    let mut conn = reply(listener.accept()).unwrap();
    assert_eq!(conn.proxy_addr(), EndpointV4 { ip: [10, 0, 0, 7], port: 40000 });
    assert_eq!(conn.get_ref().outgoing, [4, 2, 0x9c, 0x40, 10, 0, 0, 7, 0]);
    conn.get_mut().outgoing.clear();
    conn.get_mut().outgoing.extend_from_slice(b"hello world");
    let result = conn.into_inner().outgoing;
    assert_eq!(result, b"hello world");
}

#[test]
fn connect_ipv4_empty_userid() {
    let target = EndpointV4 { ip: [93, 184, 216, 34], port: 80 };
    let wire = Wire::new(&[0x00, 0x5a, 0x00, 0x50, 0x5d, 0xb8, 0xd8, 0x22]);
    let stream = exchange(Socks4Stream::connect(wire, &target, "").unwrap()).unwrap();
    assert_eq!(
        stream.get_ref().outgoing,
        [0x04, 0x01, 0x00, 0x50, 0x5d, 0xb8, 0xd8, 0x22, 0x00]
    );
    assert_eq!(stream.proxy_addr(), EndpointV4 { ip: [93, 184, 216, 34], port: 80 });
}

#[test]
fn connect_domain_with_userid() {
    let target = TargetAddr::Domain("example.com".to_owned(), 80);
    let wire = Wire::new(&[0x00, 0x5a, 0x00, 0x50, 0x00, 0x00, 0x00, 0x00]);
    let stream = exchange(Socks4Stream::connect(wire, &target, "u").unwrap()).unwrap();
    assert_eq!(
        stream.get_ref().outgoing,
        [
            0x04, 0x01, 0x00, 0x50, 0x00, 0x00, 0x00, 0x01, 0x75, 0x00, 0x65, 0x78, 0x61, 0x6d,
            0x70, 0x6c, 0x65, 0x2e, 0x63, 0x6f, 0x6d, 0x00
        ]
    );
    assert_eq!(stream.proxy_addr(), EndpointV4 { ip: [0, 0, 0, 0], port: 80 });
}

#[test]
fn v4_request_layout() {
    let target = TargetAddr::Ip(Endpoint::V4(EndpointV4 { ip: [1, 2, 3, 4], port: 0x1234 }));
    assert_eq!(request(1, &target, "me").unwrap(), [4, 1, 0x12, 0x34, 1, 2, 3, 4, b'm', b'e', 0]);
    assert_eq!(request(2, &target, "").unwrap(), [4, 2, 0x12, 0x34, 1, 2, 3, 4, 0]);
    let target = TargetAddr::Domain(String::new(), 1);
    assert_eq!(request(1, &target, "").unwrap(), [4, 1, 0, 1, 0, 0, 0, 1, 0, 0]);
    let long: String = "d".repeat(300);
    let packet = request(1, &TargetAddr::Domain(long.clone(), 1), "id").unwrap();
    assert_eq!(packet.len(), 8 + 3 + 301);
    assert_eq!(&packet[11..311], long.as_bytes());
    assert_eq!(packet[311], 0);
}

#[test]
fn request_refuses_ipv6() {
    let addr = EndpointV6 { ip: [0, 0, 0, 0, 0, 0, 0, 0, 0, 0, 0, 0, 0, 0, 0, 1], port: 80 };
    let err = request(1, &TargetAddr::Ip(Endpoint::V6(addr)), "").unwrap_err();
    assert_eq!(err.kind(), ErrorKind::InvalidInput);
    match unwrap_io_to_socks2_error(&err) {
        Some(Error::Socks4NoIPv6 { addr: a }) => assert_eq!(*a, addr),
        other => panic!("{:?}", other),
    }
    assert!(Socks4Stream::connect(Wire::new(&[]), &addr, "").is_err());
    assert!(Socks4Listener::bind(Wire::new(&[]), &addr, "").is_err());
}

#[test]
fn connect_refuses_bad_text() {
    let err = Socks4Stream::connect(Wire::new(&[]), &text("nonsense"), "").unwrap_err();
    assert!(matches!(
        unwrap_io_to_socks2_error(&err),
        Some(Error::InvalidSocksAddress { .. })
    ));
}

#[test]
fn v4_read_response_granted() {
    assert_eq!(
        read_response(&[0, 90, 0x1f, 0x90, 127, 0, 0, 1]).unwrap(),
        EndpointV4 { ip: [127, 0, 0, 1], port: 8080 }
    );
    assert_eq!(
        read_response(&[0, 90, 0, 1, 1, 2, 3, 4]).unwrap(),
        EndpointV4 { ip: [1, 2, 3, 4], port: 1 }
    );
}

#[test]
fn v4_read_response_version() {
    for version in [1u8, 4, 5, 255] {
        let err = read_response(&[version, 90, 0, 80, 1, 2, 3, 4]).unwrap_err();
        assert_eq!(err.kind(), ErrorKind::InvalidData);
        match unwrap_io_to_socks2_error(&err) {
            Some(Error::InvalidResponseVersion { version: v }) => assert_eq!(*v, version),
            other => panic!("{:?}", other),
        }
    }
    let err = read_response(&[4, 91, 0, 80, 1, 2, 3, 4]).unwrap_err();
    assert!(matches!(
        unwrap_io_to_socks2_error(&err),
        Some(Error::InvalidResponseVersion { version: 4 })
    ));
}

#[test]
fn v4_read_response_codes() {
    let err = read_response(&[0, 91, 0, 80, 1, 2, 3, 4]).unwrap_err();
    assert_eq!(err.kind(), ErrorKind::ConnectionRefused);
    assert!(matches!(
        unwrap_io_to_socks2_error(&err),
        Some(Error::ConnectionRefused { code: 91 })
    ));
    for code in [92u8, 93] {
        let err = read_response(&[0, code, 0, 80, 1, 2, 3, 4]).unwrap_err();
        assert_eq!(err.kind(), ErrorKind::PermissionDenied);
        match unwrap_io_to_socks2_error(&err) {
            Some(Error::RejectedRequestID { code: c }) => assert_eq!(*c, code),
            other => panic!("{:?}", other),
        }
    }
    for code in (0..=255u8).filter(|c| !(90..=93).contains(c)) {
        let err = read_response(&[0, code, 0, 80, 1, 2, 3, 4]).unwrap_err();
        assert_eq!(err.kind(), ErrorKind::Other);
        match unwrap_io_to_socks2_error(&err) {
            Some(Error::UnknownResponseCode { code: c }) => assert_eq!(*c, code),
            other => panic!("{:?}", other),
        }
    }
}

#[test]
fn failed_exchange_gives_no_stream() {
    let target = EndpointV4 { ip: [1, 2, 3, 4], port: 80 };
    let wire = Wire::new(&[0, 91, 0, 0, 0, 0, 0, 0]);
    let err = exchange(Socks4Stream::connect(wire, &target, "").unwrap()).unwrap_err();
    assert_eq!(
        unwrap_io_to_socks2_error(&err),
        Some(&Error::ConnectionRefused { code: 0 })
    );
}

#[test]
fn listener_uses_peer_for_unspecified_address() {
    let target = EndpointV4 { ip: [1, 2, 3, 4], port: 80 };
    let wire = Wire::new(&[0, 90, 0x04, 0x38, 0, 0, 0, 0]);
    let stream = exchange(Socks4Listener::bind(wire, &target, "").unwrap()).unwrap();
    let listener = Socks4Listener::listening(stream);
    assert!(listener.needs_peer());
    assert_eq!(
        listener.proxy_addr(Some(Endpoint::V4(EndpointV4 { ip: [192, 168, 1, 1], port: 1080 }))),
        Some(Endpoint::V4(EndpointV4 { ip: [192, 168, 1, 1], port: 0x0438 }))
    );
    let peer6 = [0xfe, 0x80, 0, 0, 0, 0, 0, 0, 0, 0, 0, 0, 0, 0, 0, 9];
    assert_eq!(
        listener.proxy_addr(Some(Endpoint::V6(EndpointV6 { ip: peer6, port: 1080 }))),
        Some(Endpoint::V6(EndpointV6 { ip: peer6, port: 0x0438 }))
    );
    assert_eq!(listener.proxy_addr(None), None);
}

#[test]
fn listener_keeps_reported_address() {
    let target = EndpointV4 { ip: [1, 2, 3, 4], port: 80 };
    for ip in [[10u8, 0, 0, 1], [0, 0, 0, 1], [1, 0, 0, 0], [0, 0, 1, 0]] {
        let wire = Wire::new(&[0, 90, 0x04, 0x38, ip[0], ip[1], ip[2], ip[3]]);
        let stream = exchange(Socks4Listener::bind(wire, &target, "").unwrap()).unwrap();
        let listener = Socks4Listener::listening(stream);
        assert!(!listener.needs_peer());
        let expected = Some(Endpoint::V4(EndpointV4 { ip, port: 0x0438 }));
        assert_eq!(listener.proxy_addr(None), expected);
        assert_eq!(
            listener.proxy_addr(Some(Endpoint::V4(EndpointV4 { ip: [9, 9, 9, 9], port: 9 }))),
            expected
        );
    }
}

#[test]
fn accept_reads_second_reply() {
    let target = EndpointV4 { ip: [1, 2, 3, 4], port: 80 };
    let wire = Wire::new(&[0, 90, 0, 1, 5, 5, 5, 5, 0, 90, 0, 2, 6, 6, 6, 6]);
    let stream = exchange(Socks4Listener::bind(wire, &target, "").unwrap()).unwrap();
    let listener = Socks4Listener::listening(stream);
    let stream = reply(listener.accept()).unwrap();
    assert_eq!(stream.proxy_addr(), EndpointV4 { ip: [6, 6, 6, 6], port: 2 });
    assert_eq!(stream.get_ref().outgoing, [4, 2, 0, 80, 1, 2, 3, 4, 0]);

    let wire = Wire::new(&[0, 90, 0, 1, 5, 5, 5, 5, 0, 92, 0, 2, 6, 6, 6, 6]);
    let stream = exchange(Socks4Listener::bind(wire, &target, "").unwrap()).unwrap();
    let err = reply(Socks4Listener::listening(stream).accept()).unwrap_err();
    assert_eq!(
        unwrap_io_to_socks2_error(&err),
        Some(&Error::RejectedRequestID { code: 92 })
    );
}
