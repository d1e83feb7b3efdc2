//! A QUIC reverse proxy's verified core: the framing of tunnelled datagrams,
//! the handshake that opens a mapping, the client's table of UDP relays, the
//! configuration types and the conversions into I/O errors.
pub mod addr;
pub mod buf;
pub mod config;
pub mod convert;
pub mod msg;
pub mod nat_table;
pub mod pem;

pub use addr::SocketAddr;
pub use config::{
    encode_init_frame, init_config_for, is_heartbeat, protocol_code, transport_of, ClientConfig,
    ConfigError, InitConfig, ProxyConfig, ServerConfig, Transport,
};
pub use convert::{
    option_convert, std_res_convert, OptionConvert, StdResAutoConvert, StdResConvert,
};
pub use msg::{decode_msg, encode_msg, is_complete, HEARTBEAT, IPV4, IPV6, TCP, UDP};
pub use nat_table::NatTable;
pub use pem::{ca_chain_from_pem, server_identity_from_pem};
