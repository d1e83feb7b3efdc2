//! Configuration of the two ends of the tunnel, and the handshake that opens a
//! mapping: the client names the protocol and the remote port in an
//! `InitConfig`, sends it behind a big-endian length, then keeps the session
//! alive with heartbeat bytes.
use vstd::prelude::*;
use vstd::string::StringExecFns;

use crate::buf::{be16, be16_value};
use crate::msg::{HEARTBEAT, TCP, UDP};

verus! {

/// What a client asks the server to open: the protocol code (`TCP` or `UDP`)
/// and the port to bind on the server.
#[derive(Clone, Copy, Debug, PartialEq, Eq, Structural)]
pub struct InitConfig {
    pub protocol: u8,
    pub bind_port: u16,
}

/// The client's configuration file.
#[derive(Clone, Debug)]
pub struct ClientConfig {
    pub server_addr: String,
    pub cert_path: String,
    pub server_name: String,
    pub proxy: Vec<ProxyConfig>,
}

/// One local service to expose: its protocol name (`"tcp"` or `"udp"`), its
/// local address and the port that maps it on the server.
#[derive(Clone, Debug)]
pub struct ProxyConfig {
    pub protocol: String,
    pub proxy_addr: String,
    pub remote_port: u16,
}

/// The server's configuration file.
#[derive(Clone, Debug)]
pub struct ServerConfig {
    pub bind_addr: String,
    pub cert_path: String,
    pub priv_key_path: String,
}

/// The two kinds of mapping.
#[derive(Clone, Copy, Debug, PartialEq, Eq, Structural)]
pub enum Transport {
    Tcp,
    Udp,
}

/// Why a proxy entry cannot be opened.
#[derive(Clone, Copy, Debug, PartialEq, Eq, Structural)]
pub enum ConfigError {
    /// The protocol name is neither `"tcp"` nor `"udp"`.
    UnknownProtocol,
}

/// The mapping that a protocol code selects on either end.
pub open spec fn transport_spec(code: u8) -> Option<Transport> {
    if code == TCP {
        Some(Transport::Tcp)
    } else if code == UDP {
        Some(Transport::Udp)
    } else {
        None
    }
}

/// The protocol code of a transport.
pub open spec fn code_spec(t: Transport) -> u8 {
    match t {
        Transport::Tcp => TCP,
        Transport::Udp => UDP,
    }
}

/// The name of a transport in the configuration file.
pub open spec fn transport_name(t: Transport) -> Seq<char> {
    match t {
        Transport::Tcp => seq!['t', 'c', 'p'],
        Transport::Udp => seq!['u', 'd', 'p'],
    }
}

/// The protocol code that a configured protocol name stands for.
pub open spec fn protocol_code_spec(name: Seq<char>) -> Option<u8> {
    if name == transport_name(Transport::Tcp) {
        Some(TCP)
    } else if name == transport_name(Transport::Udp) {
        Some(UDP)
    } else {
        None
    }
}

/// The mapping that a protocol code selects, or `None` for an unknown code.
pub fn transport_of(protocol: u8) -> (t: Option<Transport>)
    ensures
        t == transport_spec(protocol),
{
    if protocol == TCP {
        Some(Transport::Tcp)
    } else if protocol == UDP {
        Some(Transport::Udp)
    } else {
        None
    }
}

/// The protocol code of a configured protocol name, or `None` for a name
/// other than `"tcp"` and `"udp"`.
pub fn protocol_code(name: &String) -> (c: Option<u8>)
    ensures
        c == protocol_code_spec(name@),
{
    let tcp = String::from_str("tcp");
    let udp = String::from_str("udp");
    proof {
        reveal_strlit("tcp");
        reveal_strlit("udp");
        assert(tcp@ =~= transport_name(Transport::Tcp));
        assert(udp@ =~= transport_name(Transport::Udp));
    }
    if *name == tcp {
        Some(TCP)
    } else if *name == udp {
        Some(UDP)
    } else {
        None
    }
}

/// The handshake a client sends for one proxy entry: the protocol code of its
/// name and its remote port. A protocol name other than `"tcp"` or `"udp"` is
/// refused.
pub fn init_config_for(proxy: &ProxyConfig) -> (r: Result<InitConfig, ConfigError>)
    ensures
        match protocol_code_spec(proxy.protocol@) {
            Some(code) => r == Ok::<InitConfig, ConfigError>(
                InitConfig { protocol: code, bind_port: proxy.remote_port },
            ),
            None => r == Err::<InitConfig, ConfigError>(ConfigError::UnknownProtocol),
        },
{
    match protocol_code(&proxy.protocol) {
        Some(protocol) => Ok(InitConfig { protocol, bind_port: proxy.remote_port }),
        None => Err(ConfigError::UnknownProtocol),
    }
}

/// Whether a byte read from the control stream keeps the session alive.
pub fn is_heartbeat(byte: u8) -> (b: bool)
    ensures
        b == (byte == HEARTBEAT),
{
    byte == HEARTBEAT
}

/// The bytes of the handshake frame: the payload's length, cut to 16 bits,
/// in big-endian order, then the payload.
pub open spec fn init_frame(payload: Seq<u8>) -> Seq<u8> {
    be16((payload.len() % 65536) as u16) + payload
}

/// Frames a serialized `InitConfig` for the control stream.
pub fn encode_init_frame(payload: &[u8]) -> (frame: Vec<u8>)
    ensures
        frame@ == init_frame(payload@),
        frame@.len() == payload@.len() + 2,
        frame@[0] == (payload@.len() % 65536) / 256,
        frame@[1] == payload@.len() % 256,
        frame@.skip(2) == payload@,
{
    let len: u16 = (payload.len() % 65536) as u16;
    let mut frame: Vec<u8> = Vec::new();
    frame.push((len / 256) as u8);
    frame.push((len % 256) as u8);
    let mut i: usize = 0;
    while i < payload.len()
        invariant
            0 <= i <= payload@.len(),
            frame@ == be16(len) + payload@.take(i as int),
        decreases payload@.len() - i,
    {
        frame.push(payload[i]);
        i = i + 1;
        proof {
            assert(payload@.take(i as int) =~= payload@.take(i - 1).push(payload@[i - 1]));
        }
    }
    proof {
        assert(payload@.take(i as int) =~= payload@);
    }
    frame
}

/// Every name that a client accepts selects, on the server, the transport
/// of that very name.
pub proof fn lemma_accepted_name_selects_its_transport(name: Seq<char>)
    requires
        protocol_code_spec(name) is Some,
    ensures
        transport_spec(protocol_code_spec(name)->Some_0) is Some,
        transport_name(transport_spec(protocol_code_spec(name)->Some_0)->Some_0) == name,
{
}

/// The code of a transport selects that transport again.
pub proof fn lemma_transport_code_roundtrip(t: Transport)
    ensures
        transport_spec(code_spec(t)) == Some(t),
{
}

/// A server that reads a 16-bit big-endian length and then that many bytes
/// gets back the payload of a handshake frame that fits in 16 bits.
pub proof fn lemma_init_frame_readback(payload: Seq<u8>)
    requires
        payload.len() < 65536,
    ensures
        init_frame(payload).len() == payload.len() + 2,
        init_frame(payload)[0] * 256 + init_frame(payload)[1] == payload.len(),
        init_frame(payload).skip(2) == payload,
{
    let f = init_frame(payload);
    assert(f.skip(2) =~= payload);
}

/// The layout of every handshake frame: two length bytes, high then low, of
/// the payload's length cut to 16 bits, then the payload and nothing after.
pub proof fn lemma_init_frame_layout(payload: Seq<u8>)
    ensures
        init_frame(payload).len() == payload.len() + 2,
        init_frame(payload)[0] == (payload.len() % 65536) / 256,
        init_frame(payload)[1] == payload.len() % 256,
        init_frame(payload).skip(2) == payload,
{
    let f = init_frame(payload);
    assert(f.skip(2) =~= payload);
    assert((payload.len() % 65536) % 256 == payload.len() % 256) by (nonlinear_arith);
}

} // verus!
