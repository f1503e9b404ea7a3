//! Address resolution over raw Ethernet: the ARP wire format, the
//! request/await-reply protocol that maps an IPv4 address to the hardware
//! address that owns it, and the choice of the local interface to ask from.
//!
//! The library holds no socket. It produces the bytes to transmit and decides
//! what each received frame means; the caller moves frames on and off the link.

pub mod addr;
pub mod codec;
pub mod error;
pub mod resolver;
pub mod host;
