//! The framing of a datagram that crosses the tunnel: one byte for the kind
//! of address, the address octets, the port in big-endian order, then the
//! payload.
use vstd::prelude::*;

use crate::addr::SocketAddr;
use crate::convert::{io_error_is_other, io_error_message, other_io_error};
use crate::buf::{
    be16, be16_value, bytes_as_slice, bytes_copy_to_array, bytes_get_u16, bytes_get_u8,
    bytes_mut_freeze, bytes_mut_put_slice, bytes_mut_put_u16, bytes_mut_put_u8,
    bytes_mut_with_capacity, bytes_view,
};

verus! {

/// The byte a client sends to keep a session alive.
pub const HEARTBEAT: u8 = 1;

/// The protocol code of a TCP mapping.
pub const TCP: u8 = 1;

/// The protocol code of a UDP mapping.
pub const UDP: u8 = 2;

/// The header tag of an IPv4 address.
pub const IPV4: u8 = 1;

/// The header tag of an IPv6 address.
pub const IPV6: u8 = 2;

/// The header that precedes the payload of a datagram for `dest`.
pub open spec fn addr_header(dest: SocketAddr) -> Seq<u8> {
    match dest {
        SocketAddr::V4 { ip, port } => seq![IPV4] + ip@ + be16(port),
        SocketAddr::V6 { ip, port } => seq![IPV6] + ip@ + be16(port),
    }
}

/// The bytes of a datagram that carries `data` for `dest`.
pub open spec fn encoded(data: Seq<u8>, dest: SocketAddr) -> Seq<u8> {
    addr_header(dest) + data
}

/// The length of the header that a first byte announces: the tag, the
/// octets and the port; for an unknown tag, the tag alone.
pub open spec fn header_len(tag: u8) -> int {
    if tag == IPV4 {
        7
    } else if tag == IPV6 {
        19
    } else {
        1
    }
}

/// The datagram holds at least the header that its first byte announces.
pub open spec fn has_full_header(p: Seq<u8>) -> bool {
    p.len() >= 1 && p.len() >= header_len(p[0])
}

/// What a datagram carries: the payload and the address, or nothing where
/// the first byte names no known kind of address.
pub open spec fn decoded(p: Seq<u8>) -> Option<(Seq<u8>, SocketAddr)> {
    if p[0] == IPV4 {
        Some(
            (
                p.skip(7),
                SocketAddr::V4 { ip: [p[1], p[2], p[3], p[4]], port: be16_value(p[5], p[6]) },
            ),
        )
    } else if p[0] == IPV6 {
        Some(
            (
                p.skip(19),
                SocketAddr::V6 {
                    ip: [
                        p[1],
                        p[2],
                        p[3],
                        p[4],
                        p[5],
                        p[6],
                        p[7],
                        p[8],
                        p[9],
                        p[10],
                        p[11],
                        p[12],
                        p[13],
                        p[14],
                        p[15],
                        p[16],
                    ],
                    port: be16_value(p[17], p[18]),
                },
            ),
        )
    } else {
        None
    }
}

/// Whether `packet` holds the whole header that its first byte announces,
/// so that `decode_msg` may read it.
pub fn is_complete(packet: &bytes::Bytes) -> (b: bool)
    ensures
        b == has_full_header(bytes_view(*packet)),
{
    let s = bytes_as_slice(packet);
    if s.len() == 0 {
        return false;
    }
    let tag = s[0];
    if tag == IPV4 {
        s.len() >= 7
    } else if tag == IPV6 {
        s.len() >= 19
    } else {
        true
    }
}

/// Splits a datagram into its payload and the address in its header. A
/// first byte that names no known kind of address gives an I/O error of
/// kind `Other` with the text "Msg error".
pub fn decode_msg(packet: bytes::Bytes) -> (res: Result<(bytes::Bytes, SocketAddr), std::io::Error>)
    requires
        has_full_header(bytes_view(packet)),
    ensures
        res is Ok <==> (bytes_view(packet)[0] == IPV4 || bytes_view(packet)[0] == IPV6),
        bytes_view(packet)[0] == IPV4 ==> (res matches Ok((data, dest)) && (dest matches SocketAddr::V4 {
            ip,
            port,
        } && ip@ == bytes_view(packet).subrange(1, 5) && port == bytes_view(packet)[5] * 256
            + bytes_view(packet)[6] && bytes_view(data) == bytes_view(packet).skip(7))),
        bytes_view(packet)[0] == IPV6 ==> (res matches Ok((data, dest)) && (dest matches SocketAddr::V6 {
            ip,
            port,
        } && ip@ == bytes_view(packet).subrange(1, 17) && port == bytes_view(packet)[17] * 256
            + bytes_view(packet)[18] && bytes_view(data) == bytes_view(packet).skip(19))),
        match res {
            Ok((data, dest)) => {
                &&& decoded(bytes_view(packet)) == Some((bytes_view(data), dest))
                &&& addr_header(dest).len() + bytes_view(data).len() <= isize::MAX
            },
            Err(e) => {
                &&& decoded(bytes_view(packet)) is None
                &&& io_error_is_other(e)
                &&& io_error_message(e) == "Msg error"@
            },
        },
{
    let ghost p = bytes_view(packet);
    let mut packet = packet;
    let tag = bytes_get_u8(&mut packet);
    if tag == IPV4 {
        let ip: [u8; 4] = bytes_copy_to_array(&mut packet);
        let port = bytes_get_u16(&mut packet);
        proof {
            assert(ip@ =~= p.skip(1).take(4));
            assert(ip =~= [p[1], p[2], p[3], p[4]]);
            assert(bytes_view(packet) =~= p.skip(7));
        }
        Ok((packet, SocketAddr::V4 { ip, port }))
    } else if tag == IPV6 {
        let ip: [u8; 16] = bytes_copy_to_array(&mut packet);
        let port = bytes_get_u16(&mut packet);
        proof {
            assert(ip@ =~= p.skip(1).take(16));
            assert(ip =~= [
                p[1],
                p[2],
                p[3],
                p[4],
                p[5],
                p[6],
                p[7],
                p[8],
                p[9],
                p[10],
                p[11],
                p[12],
                p[13],
                p[14],
                p[15],
                p[16],
            ]);
            assert(bytes_view(packet) =~= p.skip(19));
        }
        Ok((packet, SocketAddr::V6 { ip, port }))
    } else {
        Err(other_io_error("Msg error"))
    }
}

/// Frames `data_slice` for `dest`: the header, then the payload.
pub fn encode_msg(data_slice: &[u8], dest: SocketAddr) -> (out: bytes::Bytes)
    requires
        addr_header(dest).len() + data_slice@.len() <= isize::MAX,
    ensures
        bytes_view(out) == encoded(data_slice@, dest),
        match dest {
            SocketAddr::V4 { ip, port } => {
                &&& bytes_view(out).len() == 7 + data_slice@.len()
                &&& bytes_view(out)[0] == IPV4
                &&& bytes_view(out).subrange(1, 5) == ip@
                &&& bytes_view(out)[5] == port / 256
                &&& bytes_view(out)[6] == port % 256
                &&& bytes_view(out).skip(7) == data_slice@
            },
            SocketAddr::V6 { ip, port } => {
                &&& bytes_view(out).len() == 19 + data_slice@.len()
                &&& bytes_view(out)[0] == IPV6
                &&& bytes_view(out).subrange(1, 17) == ip@
                &&& bytes_view(out)[17] == port / 256
                &&& bytes_view(out)[18] == port % 256
                &&& bytes_view(out).skip(19) == data_slice@
            },
        },
{
    let len = data_slice.len();
    match dest {
        SocketAddr::V4 { ip, port } => {
            let mut out = bytes_mut_with_capacity(1 + 4 + 2 + len);
            bytes_mut_put_u8(&mut out, IPV4);
            bytes_mut_put_slice(&mut out, &ip);
            bytes_mut_put_u16(&mut out, port);
            bytes_mut_put_slice(&mut out, data_slice);
            bytes_mut_freeze(out)
        },
        SocketAddr::V6 { ip, port } => {
            let mut out = bytes_mut_with_capacity(1 + 16 + 2 + len);
            bytes_mut_put_u8(&mut out, IPV6);
            bytes_mut_put_slice(&mut out, &ip);
            bytes_mut_put_u16(&mut out, port);
            bytes_mut_put_slice(&mut out, data_slice);
            bytes_mut_freeze(out)
        },
    }
}

/// Decoding undoes encoding: the datagram framed for `dest` holds a whole
/// header, and decoding it gives back the payload and `dest`.
pub proof fn lemma_decode_encoded(data: Seq<u8>, dest: SocketAddr)
    ensures
        has_full_header(encoded(data, dest)),
        decoded(encoded(data, dest)) == Some((data, dest)),
{
    let p = encoded(data, dest);
    match dest {
        SocketAddr::V4 { ip, port } => {
            assert(p.skip(7) =~= data);
            assert(ip =~= [p[1], p[2], p[3], p[4]]);
        },
        SocketAddr::V6 { ip, port } => {
            assert(p.skip(19) =~= data);
            assert(ip =~= [
                p[1],
                p[2],
                p[3],
                p[4],
                p[5],
                p[6],
                p[7],
                p[8],
                p[9],
                p[10],
                p[11],
                p[12],
                p[13],
                p[14],
                p[15],
                p[16],
            ]);
        },
    }
}

/// Encoding undoes decoding: a datagram with a whole header that decodes to
/// a payload and an address is exactly the framing of that payload for that
/// address.
pub proof fn lemma_encode_decoded(p: Seq<u8>)
    requires
        has_full_header(p),
        decoded(p) is Some,
    ensures
        encoded(decoded(p)->Some_0.0, decoded(p)->Some_0.1) == p,
{
    let (data, dest) = decoded(p)->Some_0;
    assert(encoded(data, dest) =~= p);
}

/// The layout of a tunnelled datagram, for every payload and address: the
/// tag of the address kind, the octets, the port's high byte then its low
/// byte, then the payload and nothing after it.
pub proof fn lemma_encoded_layout(data: Seq<u8>, dest: SocketAddr)
    ensures
        match dest {
            SocketAddr::V4 { ip, port } => {
                &&& encoded(data, dest).len() == 7 + data.len()
                &&& encoded(data, dest)[0] == IPV4
                &&& encoded(data, dest).subrange(1, 5) == ip@
                &&& encoded(data, dest)[5] == port / 256
                &&& encoded(data, dest)[6] == port % 256
                &&& encoded(data, dest).skip(7) == data
            },
            SocketAddr::V6 { ip, port } => {
                &&& encoded(data, dest).len() == 19 + data.len()
                &&& encoded(data, dest)[0] == IPV6
                &&& encoded(data, dest).subrange(1, 17) == ip@
                &&& encoded(data, dest)[17] == port / 256
                &&& encoded(data, dest)[18] == port % 256
                &&& encoded(data, dest).skip(19) == data
            },
        },
{
    let e = encoded(data, dest);
    match dest {
        SocketAddr::V4 { ip, port } => {
            assert(e.subrange(1, 5) =~= ip@);
            assert(e.skip(7) =~= data);
        },
        SocketAddr::V6 { ip, port } => {
            assert(e.subrange(1, 17) =~= ip@);
            assert(e.skip(19) =~= data);
        },
    }
}

/// What a datagram with a whole header carries, for every datagram: with the
/// IPv4 tag, the address is octets 1 to 4 with the big-endian port of bytes
/// 5 and 6, and the payload is everything from byte 7; with the IPv6 tag,
/// octets 1 to 16, the port of bytes 17 and 18, and everything from byte 19;
/// with any other tag, nothing.
pub proof fn lemma_decoded_layout(p: Seq<u8>)
    requires
        has_full_header(p),
    ensures
        p[0] == IPV4 ==> (decoded(p) matches Some((data, dest)) && (dest matches SocketAddr::V4 {
            ip,
            port,
        } && ip@ == p.subrange(1, 5) && port == p[5] * 256 + p[6] && data == p.skip(7))),
        p[0] == IPV6 ==> (decoded(p) matches Some((data, dest)) && (dest matches SocketAddr::V6 {
            ip,
            port,
        } && ip@ == p.subrange(1, 17) && port == p[17] * 256 + p[18] && data == p.skip(19))),
        p[0] != IPV4 && p[0] != IPV6 ==> decoded(p) is None,
{
    if p[0] == IPV4 {
        let ip: [u8; 4] = [p[1], p[2], p[3], p[4]];
        assert(ip@ =~= p.subrange(1, 5));
    } else if p[0] == IPV6 {
        let ip: [u8; 16] = [
            p[1],
            p[2],
            p[3],
            p[4],
            p[5],
            p[6],
            p[7],
            p[8],
            p[9],
            p[10],
            p[11],
            p[12],
            p[13],
            p[14],
            p[15],
            p[16],
        ];
        assert(ip@ =~= p.subrange(1, 17));
    }
}

} // verus!
