use z2pgh::text::{listen_address, port_decimal};

#[test]
fn listen_address_joins_host_and_port() {
    assert_eq!(listen_address("127.0.0.1", 8000), "127.0.0.1:8000");
    assert_eq!(listen_address("localhost", 0), "localhost:0");
}

#[test]
fn ports_are_written_in_decimal() {
    assert_eq!(port_decimal(0), "0");
    assert_eq!(port_decimal(7), "7");
    assert_eq!(port_decimal(10), "10");
    assert_eq!(port_decimal(65535), "65535");
    for p in [1u16, 99, 100, 443, 8080, 10000] {
        assert_eq!(port_decimal(p), p.to_string());
    }
}
