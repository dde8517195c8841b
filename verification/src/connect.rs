//! What passes between `WebTransportClient::connect` and the code that does its I/O.
use crate::read_task::ReadTask;
use vstd::prelude::*;

verus! {

/// An address with a port.
#[derive(Debug, Clone, Copy, PartialEq, Eq)]
pub enum SocketAddr {
    V4 { ipv4: [u8; 4], port: u16 },
    V6 { ipv6: [u8; 16], port: u16, flowinfo: u32, scope_id: u32 },
}

/// Whether `addr` is the unspecified IPv4 address with port zero: any interface, any free port.
pub open spec fn is_any_local(addr: SocketAddr) -> bool {
    addr matches SocketAddr::V4 { ipv4, port } && ipv4@ == seq![0u8, 0u8, 0u8, 0u8] && port == 0
}

/// How the length of a new connection ID is chosen.
#[derive(Debug, Clone, Copy, PartialEq, Eq)]
pub enum ConnectionIdLen {
    /// At random.
    Random,
}

/// The material that a connection ID is made from.
#[derive(Debug, PartialEq, Eq)]
pub struct ConnectionIdRequest {
    /// The buffer that receives the ID.
    pub cid: Vec<u8>,
    pub cid_len: ConnectionIdLen,
}

impl ConnectionIdRequest {
    /// Whether this asks for an ID of random length in a zeroed buffer of `size` bytes.
    pub open spec fn asks_for_random(&self, size: nat) -> bool {
        self.cid@ == crate::read_task::zeros(size) && self.cid_len == ConnectionIdLen::Random
    }
}

/// Something that happened to an attempt to connect.
///
/// `C` is a shared handle on a connection and `E` an error of the I/O.
pub enum ConnectEvent<C, E> {
    /// The attempt begins.
    Started,
    /// The local socket is bound.
    SocketBound,
    /// The socket is connected to the server's address.
    SocketConnected,
    /// The configuration exists; connection IDs have at most `max_cid_size` bytes.
    ConfigCreated { max_cid_size: u8 },
    /// The connection exists.
    ConnectionOpened(C),
    /// The step that was asked for last went wrong.
    Failed(E),
}

/// What an attempt to connect asks for next.
pub enum ConnectAction<C, E> {
    /// Bind a UDP socket to the address.
    BindSocket { local_addr: SocketAddr },
    /// Connect the socket to the address.
    ConnectSocket { server_addr: SocketAddr },
    /// Create a configuration for the default QUIC version.
    CreateDefaultConfig { verify_peer: bool },
    /// Create the connection from the configuration.
    OpenConnection { id_request: ConnectionIdRequest, server_addr: SocketAddr },
    /// Spawn the task; the attempt has succeeded.
    SpawnReadTask(ReadTask<C>),
    /// Give the error to the caller; the attempt has failed.
    Fail(E),
}

} // verus!
