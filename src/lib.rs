//! An authenticated SOCKS5 front-end that sends each client's traffic out of
//! a chosen mobile-broadband interface, with the decisions of the protocol,
//! of the interface registry and of the modem control client verified.

pub mod allocator;
pub mod api;
pub mod binder;
pub mod codec;
pub mod fingerprint;
pub mod text;
pub mod modem;
pub mod registry;
pub mod route;
pub mod session;
pub mod username;
pub mod xml;
pub mod wire;
