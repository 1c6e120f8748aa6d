use vstd::prelude::*;

verus! {

/// Why a handshake datagram was rejected.
#[derive(Debug, Clone, Copy, PartialEq, Eq, Structural)]
pub enum ProtocolFault {
    /// The datagram came from an address other than the handshake target.
    WrongSource,
    /// The envelope carried a conn id other than the one sent in the SYN.
    WrongConnId,
    /// The envelope was well-formed but was not a SACK.
    WrongVariant,
}

/// The transport's error taxonomy.
#[derive(Debug, Clone, Copy, PartialEq, Eq, Structural)]
pub enum TunnelError {
    /// URL scheme or address rejected, or no bind address available.
    ConfigError,
    /// An underlying socket operation failed.
    IoError,
    /// An envelope failed validation on receive.
    DecodeError,
    /// An envelope would not fit in the MTU.
    EncodeError,
    /// A handshake datagram came from the wrong place or said the wrong thing.
    ProtocolError(ProtocolFault),
    /// The handshake deadline elapsed.
    ConnectTimeout,
    /// The accept queue or the tunnel stream is terminally closed.
    ClosedError,
}

} // verus!
