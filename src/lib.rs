//! Decision logic for reaching a host through a SOCKS4 or SOCKS5 proxy.
//!
//! `descriptor` turns the parts of a proxy URL into a proxy descriptor;
//! `connector` drives one connection attempt from the proxy URL to a
//! negotiated tunnel, one phase at a time.

pub mod descriptor;
pub mod connector;
pub mod lemmas;
