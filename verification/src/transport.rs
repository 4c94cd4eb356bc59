//! The transport that carries requests to a server and responses back.

pub mod connect;
pub mod pending;
pub mod tcp;
