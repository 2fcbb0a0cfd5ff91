use fiv_net::socket::{NO_HANDLE_INHERIT, RIO_CAPABLE, WSAEINVAL, WSAEPROTOTYPE};
use fiv_net::{AddrsFamily, ConnectAttempts, Direction, FivSocket, LLProtocol, Reset, RioError, NAMEME1};

#[test]
fn protocol_codes() {
    assert_eq!(LLProtocol::TCP.to_type(), 1);
    assert_eq!(LLProtocol::UDP.to_type(), 2);
    assert_eq!(LLProtocol::UDP.to_proto(), 0);
    assert_eq!(AddrsFamily::IPV6.as_i32(), 23);
    assert!(Reset::Manual.as_bool());
}

#[test]
fn creation_fallback() {
    assert_eq!(FivSocket::creation_flags(RIO_CAPABLE), RIO_CAPABLE | NO_HANDLE_INHERIT);
    assert_eq!(FivSocket::retry_flags(WSAEINVAL, RIO_CAPABLE | NO_HANDLE_INHERIT), Some(RIO_CAPABLE));
    assert_eq!(FivSocket::retry_flags(WSAEPROTOTYPE, 1), Some(1));
    assert_eq!(FivSocket::retry_flags(10013, 1), None);
}

#[test]
fn socket_roles_and_capabilities() {
    let mut s = FivSocket::from_raw(4, RIO_CAPABLE, LLProtocol::TCP, AddrsFamily::IPV4, None);
    assert!(s.can_rio());
    assert!(!s.can_overlapped());
    assert!(s.is_tcp() && !s.is_udp());
    assert!(!s.is_bound());
    assert_eq!(s.listened(10048), Err(RioError::Os(10048)));
    assert!(!s.is_bound());
    assert!(s.listened(0).is_ok());
    assert!(s.is_bound());
    assert!(NAMEME1::Listener.is_listener());
    assert!(NAMEME1::Stream(Direction::HOST).is_stream());
    assert!(Direction::CLIENT.is_client() && !Direction::CLIENT.is_host());
}

#[test]
fn connect_surfaces_last_failure() {
    assert_eq!(ConnectAttempts::new().finish(), RioError::NoAddresses);
    let mut a = ConnectAttempts::new();
    a.failed(RioError::Os(10061));
    a.failed(RioError::Os(10060));
    assert_eq!(a.finish(), RioError::Os(10060));
}
