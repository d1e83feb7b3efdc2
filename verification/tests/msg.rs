use bytes::Bytes;
use reverse_proxy::{decode_msg, encode_msg, is_complete, SocketAddr, IPV4, IPV6};

fn v6_octets() -> [u8; 16] {
    [0x20, 0x01, 0x0d, 0xb8, 0, 0, 0, 0, 0, 0, 0, 0, 0, 0, 0xab, 0xcd]
}

#[test]
fn encode_ipv4_layout() {
    let dest = SocketAddr::V4 { ip: [127, 0, 0, 1], port: 0x1234 };
    let out = encode_msg(&[9, 8, 7], dest);
    assert_eq!(&out[..], &[IPV4, 127, 0, 0, 1, 0x12, 0x34, 9, 8, 7][..]);
}

#[test]
fn encode_ipv6_layout() {
    let dest = SocketAddr::V6 { ip: v6_octets(), port: 443 };
    let out = encode_msg(b"hi", dest);
    let mut expected = vec![IPV6];
    expected.extend_from_slice(&v6_octets());
    expected.extend_from_slice(&[0x01, 0xbb]);
    expected.extend_from_slice(b"hi");
    assert_eq!(out.to_vec(), expected);
}

#[test]
fn encode_empty_payload_is_header_only() {
    let dest = SocketAddr::V4 { ip: [10, 0, 0, 2], port: 53 };
    let out = encode_msg(&[], dest);
    assert_eq!(out.len(), 7);
    assert_eq!(&out[..], &[1, 10, 0, 0, 2, 0, 53][..]);
}

#[test]
fn decode_ipv4() {
    let packet = Bytes::from(vec![1, 192, 168, 1, 20, 0x1f, 0x90, 0xaa, 0xbb]);
    let (data, dest) = decode_msg(packet).unwrap();
    assert_eq!(&data[..], &[0xaa, 0xbb][..]);
    assert_eq!(dest, SocketAddr::V4 { ip: [192, 168, 1, 20], port: 8080 });
}

#[test]
fn decode_ipv6() {
    let mut raw = vec![2];
    raw.extend_from_slice(&v6_octets());
    raw.extend_from_slice(&[0x00, 0x35, 5, 6, 7]);
    let (data, dest) = decode_msg(Bytes::from(raw)).unwrap();
    assert_eq!(&data[..], &[5, 6, 7][..]);
    assert_eq!(dest, SocketAddr::V6 { ip: v6_octets(), port: 53 });
}

#[test]
fn decode_header_only_gives_empty_payload() {
    let packet = Bytes::from(vec![1, 1, 2, 3, 4, 0, 1]);
    let (data, dest) = decode_msg(packet).unwrap();
    assert!(data.is_empty());
    assert_eq!(dest, SocketAddr::V4 { ip: [1, 2, 3, 4], port: 1 });
}

#[test]
fn decode_unknown_address_kind() {
    let packet = Bytes::from(vec![3, 1, 2, 3]);
    let e = decode_msg(packet).unwrap_err();
    assert_eq!(e.kind(), std::io::ErrorKind::Other);
    assert_eq!(e.to_string(), "Msg error");
    let packet = Bytes::from(vec![0]);
    assert_eq!(decode_msg(packet).unwrap_err().to_string(), "Msg error");
    let packet = Bytes::from_static(&[0, 1, 2, 3, 4, 0, 80]);
    let e = decode_msg(packet).unwrap_err();
    assert_eq!(e.kind(), std::io::ErrorKind::Other);
    assert_eq!(e.to_string(), "Msg error");
}

#[test]
fn decode_undoes_encode_ipv4() {
    let dest = SocketAddr::V4 { ip: [8, 8, 4, 4], port: 65535 };
    let payload: Vec<u8> = (0..=255).collect();
    let out = encode_msg(&payload, dest);
    assert!(is_complete(&out));
    let (data, back) = decode_msg(out).unwrap();
    assert_eq!(data.to_vec(), payload);
    assert_eq!(back, dest);
}

#[test]
fn decode_undoes_encode_ipv6() {
    let dest = SocketAddr::V6 { ip: v6_octets(), port: 0 };
    let out = encode_msg(b"payload", dest);
    assert!(is_complete(&out));
    let (data, back) = decode_msg(out).unwrap();
    assert_eq!(&data[..], b"payload");
    assert_eq!(back, dest);
}

#[test]
fn encode_undoes_decode() {
    let raw = vec![1, 172, 16, 0, 9, 0x30, 0x39, 1, 2, 3, 4];
    let (data, dest) = decode_msg(Bytes::from(raw.clone())).unwrap();
    assert_eq!(encode_msg(&data, dest).to_vec(), raw);
}

#[test]
fn completeness_of_headers() {
    assert!(!is_complete(&Bytes::new()));
    assert!(!is_complete(&Bytes::from(vec![1, 1, 2, 3, 4, 0])));
    assert!(is_complete(&Bytes::from(vec![1, 1, 2, 3, 4, 0, 0])));
    assert!(!is_complete(&Bytes::from(vec![2; 18])));
    assert!(is_complete(&Bytes::from(vec![2; 19])));
    assert!(is_complete(&Bytes::from(vec![7])));
}

#[test]
fn socket_addr_equality() {
    let a = SocketAddr::V4 { ip: [1, 2, 3, 4], port: 5 };
    assert_eq!(a, SocketAddr::V4 { ip: [1, 2, 3, 4], port: 5 });
    assert_ne!(a, SocketAddr::V4 { ip: [1, 2, 3, 4], port: 6 });
    assert_ne!(a, SocketAddr::V4 { ip: [1, 2, 3, 5], port: 5 });
    let mut six = [0u8; 16];
    six[12..].copy_from_slice(&[1, 2, 3, 4]);
    assert_ne!(a, SocketAddr::V6 { ip: six, port: 5 });
}
