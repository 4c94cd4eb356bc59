//! The decision logic of an OPC UA client: the transport that carries requests and
//! responses over `opc.tcp`, and the loop that keeps publish requests in flight.
//!
//! Everything here is synchronous and free of I/O. Sockets, timers, channels and locks
//! belong to the program around the library, which reports what happened and carries out
//! what the library decides.

pub mod channel;
pub mod endpoint;
pub mod merge;
pub mod message;
pub mod send_buffer;
pub mod sequence;
pub mod stack;
pub mod status;
pub mod subscription;
pub mod transport;
pub mod url;
