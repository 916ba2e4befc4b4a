use vsock_proxy::addr::AddressError;
use vsock_proxy::addr::Endpoint;

#[test]
fn tcp_well_formed_yields_exact_host_and_port() {
    match Endpoint::parse_tcp("127.0.0.1:9000") {
        Ok(Endpoint::Tcp { host, port }) => {
            assert_eq!(host, "127.0.0.1");
            assert_eq!(port, 9000);
        }
        _ => panic!("a well-formed tcp text must parse"),
    }
}

#[test]
fn tcp_port_bounds() {
    match Endpoint::parse_tcp("host:65535") {
        Ok(Endpoint::Tcp { host, port }) => {
            assert_eq!(host, "host");
            assert_eq!(port, 65535);
        }
        _ => panic!("largest port must be accepted"),
    }
    assert!(matches!(Endpoint::parse_tcp("host:65536"), Err(AddressError::InvalidPort)));
}

#[test]
fn tcp_missing_separator_is_a_format_error() {
    assert!(matches!(Endpoint::parse_tcp("not-an-address"), Err(AddressError::InvalidFormat)));
    assert!(matches!(Endpoint::parse_tcp(""), Err(AddressError::InvalidFormat)));
}

#[test]
fn tcp_empty_host_is_a_format_error() {
    assert!(matches!(Endpoint::parse_tcp(":80"), Err(AddressError::InvalidFormat)));
}

#[test]
fn tcp_bad_port_is_a_port_error() {
    assert!(matches!(Endpoint::parse_tcp("host:abc"), Err(AddressError::InvalidPort)));
    assert!(matches!(Endpoint::parse_tcp("host:"), Err(AddressError::InvalidPort)));
    assert!(matches!(Endpoint::parse_tcp("host:12a"), Err(AddressError::InvalidPort)));
    assert!(matches!(Endpoint::parse_tcp("a:1:2"), Err(AddressError::InvalidPort)));
}

#[test]
fn vsock_well_formed_yields_exact_cid_and_port() {
    match Endpoint::parse_vsock("3:5000") {
        Ok(Endpoint::Vsock { cid, port }) => {
            assert_eq!(cid, 3);
            assert_eq!(port, 5000);
        }
        _ => panic!("a well-formed vsock text must parse"),
    }
    match Endpoint::parse_vsock("4294967295:4294967295") {
        Ok(Endpoint::Vsock { cid, port }) => {
            assert_eq!(cid, u32::MAX);
            assert_eq!(port, u32::MAX);
        }
        _ => panic!("largest cid and port must be accepted"),
    }
}

#[test]
fn vsock_cid_out_of_range_is_a_cid_error() {
    assert!(matches!(Endpoint::parse_vsock("4294967296:1"), Err(AddressError::InvalidCid)));
    assert!(matches!(Endpoint::parse_vsock("abc:1"), Err(AddressError::InvalidCid)));
    assert!(matches!(Endpoint::parse_vsock(":1"), Err(AddressError::InvalidCid)));
}

#[test]
fn vsock_bad_port_is_a_port_error() {
    assert!(matches!(Endpoint::parse_vsock("1:4294967296"), Err(AddressError::InvalidPort)));
    assert!(matches!(Endpoint::parse_vsock("1:abc"), Err(AddressError::InvalidPort)));
    assert!(matches!(Endpoint::parse_vsock("1:"), Err(AddressError::InvalidPort)));
}

#[test]
fn vsock_missing_separator_is_a_format_error() {
    assert!(matches!(Endpoint::parse_vsock("42"), Err(AddressError::InvalidFormat)));
}
