//! The bytes the proxy writes to a SOCKS5 client.
use vstd::prelude::*;
use crate::session::{Action, METHOD_UNACCEPTABLE, Reply, SocketTarget, TargetAddress, reply_code};

verus! {

/// The protocol version byte of RFC 1928.
pub const SOCKS_VERSION: u8 = 0x05;

/// The version byte of the RFC 1929 sub-negotiation.
pub const SUBNEGOTIATION_VERSION: u8 = 0x01;

/// A port in network byte order.
pub open spec fn port_bytes(port: u16) -> Seq<u8> {
    seq![(port / 256) as u8, (port % 256) as u8]
}

/// An address field: its type byte, the address and the port. A host name
/// longer than a length byte can count is answered with the unspecified
/// IPv4 address.
pub open spec fn address_bytes(a: TargetAddress) -> Seq<u8> {
    match a {
        TargetAddress::Ip(SocketTarget::V4(ip, port)) => seq![0x01u8] + ip@ + port_bytes(port),
        TargetAddress::Ip(SocketTarget::V6(ip, port)) => seq![0x04u8] + ip@ + port_bytes(port),
        TargetAddress::Domain { host, port } => if host@.len() <= 255 {
            seq![0x03u8, host@.len() as u8] + host@ + port_bytes(port)
        } else {
            seq![0x01u8, 0, 0, 0, 0, 0, 0]
        },
    }
}

/// A reply record: version, reply code, a reserved zero, and the address.
pub open spec fn reply_bytes(reply: Reply, address: TargetAddress) -> Seq<u8> {
    seq![SOCKS_VERSION, reply_code(reply), 0x00u8] + address_bytes(address)
}

/// What an action writes to the client before its next step.
pub open spec fn action_bytes(a: Action) -> Seq<u8> {
    match a {
        Action::SelectMethod(m) => seq![SOCKS_VERSION, m],
        Action::RejectMethods => seq![SOCKS_VERSION, METHOD_UNACCEPTABLE],
        Action::AcceptCredentials => seq![SUBNEGOTIATION_VERSION, 0x00u8],
        Action::RejectCredentials => seq![SUBNEGOTIATION_VERSION, 0x01u8],
        Action::Connect { .. } => Seq::empty(),
        Action::ReplyAndClose(reply, address) => reply_bytes(reply, address),
        Action::ReplyAndRelay(t) => reply_bytes(Reply::Succeeded, TargetAddress::Ip(t)),
        Action::Close => Seq::empty(),
    }
}

fn push_port(out: &mut Vec<u8>, port: u16)
    ensures
        final(out)@ == old(out)@ + port_bytes(port),
{
    out.push((port / 256) as u8);
    out.push((port % 256) as u8);
    assert(final(out)@ =~= old(out)@ + port_bytes(port));
}

fn push_all(out: &mut Vec<u8>, bytes: &[u8])
    ensures
        final(out)@ == old(out)@ + bytes@,
{
    let ghost start = out@;
    let mut i: usize = 0;
    while i < bytes.len()
        invariant
            i <= bytes@.len(),
            out@ == start + bytes@.subrange(0, i as int),
        decreases bytes@.len() - i,
    {
        out.push(bytes[i]);
        assert(bytes@.subrange(0, i + 1) == bytes@.subrange(0, i as int).push(bytes@[i as int]));
        i = i + 1;
    }
    assert(bytes@.subrange(0, i as int) =~= bytes@);
}

/// Appends the address field of `a`.
fn push_address(out: &mut Vec<u8>, a: &TargetAddress)
    ensures
        final(out)@ == old(out)@ + address_bytes(*a),
{
    let ghost start = out@;
    match a {
        TargetAddress::Ip(SocketTarget::V4(ip, port)) => {
            out.push(0x01);
            push_all(out, ip.as_slice());
            push_port(out, *port);
            assert(out@ =~= start + address_bytes(*a));
        },
        TargetAddress::Ip(SocketTarget::V6(ip, port)) => {
            out.push(0x04);
            push_all(out, ip.as_slice());
            push_port(out, *port);
            assert(out@ =~= start + address_bytes(*a));
        },
        TargetAddress::Domain { host, port } => {
            if host.len() <= 255 {
                out.push(0x03);
                out.push(host.len() as u8);
                push_all(out, host.as_slice());
                push_port(out, *port);
                assert(out@ =~= start + address_bytes(*a));
            } else {
                push_all(out, &[0x01, 0, 0, 0, 0, 0, 0]);
                assert(out@ =~= start + address_bytes(*a));
            }
        },
    }
}

impl Action {
    /// The bytes to write to the client for this action; empty where
    /// nothing is written.
    pub fn wire_bytes(&self) -> (r: Vec<u8>)
        ensures
            r@ == action_bytes(*self),
    {
        let mut out: Vec<u8> = Vec::new();
        match self {
            Action::SelectMethod(m) => {
                out.push(SOCKS_VERSION);
                out.push(*m);
            },
            Action::RejectMethods => {
                out.push(SOCKS_VERSION);
                out.push(METHOD_UNACCEPTABLE);
            },
            Action::AcceptCredentials => {
                out.push(SUBNEGOTIATION_VERSION);
                out.push(0x00);
            },
            Action::RejectCredentials => {
                out.push(SUBNEGOTIATION_VERSION);
                out.push(0x01);
            },
            Action::Connect { .. } => {},
            Action::ReplyAndClose(reply, address) => {
                out.push(SOCKS_VERSION);
                out.push(reply.code());
                out.push(0x00);
                push_address(&mut out, address);
            },
            Action::ReplyAndRelay(t) => {
                out.push(SOCKS_VERSION);
                out.push(Reply::Succeeded.code());
                out.push(0x00);
                push_address(&mut out, &TargetAddress::Ip(*t));
            },
            Action::Close => {},
        }
        assert(out@ =~= action_bytes(*self));
        out
    }
}

} // verus!
