use reverse_proxy::{
    encode_init_frame, init_config_for, is_heartbeat, protocol_code, transport_of, ConfigError,
    InitConfig, ProxyConfig, Transport, HEARTBEAT, TCP, UDP,
};

fn proxy(protocol: &str, port: u16) -> ProxyConfig {
    ProxyConfig {
        protocol: protocol.to_string(),
        proxy_addr: "127.0.0.1:30000".to_string(),
        remote_port: port,
    }
}

#[test]
fn tcp_entry_opens_tcp_mapping() {
    let init = init_config_for(&proxy("tcp", 18888)).unwrap();
    assert_eq!(init, InitConfig { protocol: TCP, bind_port: 18888 });
}

#[test]
fn udp_entry_opens_udp_mapping() {
    let init = init_config_for(&proxy("udp", 5353)).unwrap();
    assert_eq!(init, InitConfig { protocol: UDP, bind_port: 5353 });
}

#[test]
fn other_protocol_is_refused() {
    assert_eq!(init_config_for(&proxy("TCP", 1)), Err(ConfigError::UnknownProtocol));
    assert_eq!(init_config_for(&proxy("sctp", 1)), Err(ConfigError::UnknownProtocol));
    assert_eq!(init_config_for(&proxy("", 1)), Err(ConfigError::UnknownProtocol));
}

#[test]
fn protocol_codes() {
    assert_eq!(protocol_code(&"tcp".to_string()), Some(1));
    assert_eq!(protocol_code(&"udp".to_string()), Some(2));
    assert_eq!(protocol_code(&"udp ".to_string()), None);
}

#[test]
fn transport_selection() {
    assert_eq!(transport_of(1), Some(Transport::Tcp));
    assert_eq!(transport_of(2), Some(Transport::Udp));
    assert_eq!(transport_of(0), None);
    assert_eq!(transport_of(3), None);
}

#[test]
fn accepted_names_select_their_transport() {
    let tcp = init_config_for(&proxy("tcp", 1)).unwrap();
    assert_eq!(transport_of(tcp.protocol), Some(Transport::Tcp));
    let udp = init_config_for(&proxy("udp", 1)).unwrap();
    assert_eq!(transport_of(udp.protocol), Some(Transport::Udp));
}

#[test]
fn init_frame_layout() {
    let payload = br#"{"protocol":1,"bind_port":18888}"#;
    let frame = encode_init_frame(payload);
    assert_eq!(frame[0], 0);
    assert_eq!(frame[1], payload.len() as u8);
    assert_eq!(&frame[2..], &payload[..]);
}

#[test]
fn init_frame_length_is_big_endian() {
    let payload = vec![7u8; 0x0102];
    let frame = encode_init_frame(&payload);
    assert_eq!(&frame[..2], &[0x01, 0x02]);
    assert_eq!(frame.len(), 0x0104);
    assert_eq!(u16::from_be_bytes([frame[0], frame[1]]) as usize, payload.len());
}

#[test]
fn init_frame_length_wraps_at_16_bits() {
    let payload = vec![0u8; 65537];
    let frame = encode_init_frame(&payload);
    assert_eq!(&frame[..2], &[0, 1]);
    assert_eq!(frame.len(), 65539);
}

#[test]
fn empty_init_frame() {
    assert_eq!(encode_init_frame(&[]), vec![0, 0]);
}

#[test]
fn heartbeat_byte() {
    assert!(is_heartbeat(HEARTBEAT));
    assert!(!is_heartbeat(0));
    assert!(!is_heartbeat(2));
}
