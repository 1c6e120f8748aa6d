//! A UDP tunnel transport core: many logical, conn-id-keyed tunnels over one
//! shared datagram socket. This crate holds the verified heart of the
//! transport — the checked wire envelope with its fixed MTU, the server-side
//! socket map and its receive-loop state machine, and the client-side
//! handshake checks — stated against mathematical models and proved. The
//! sockets, tasks and URLs around it are an unverified shell's business.

pub mod addr;
pub mod codec;
pub mod connector;
pub mod errors;
pub mod listener;
pub mod packet;
pub mod sock_map;
pub mod tunnel;
