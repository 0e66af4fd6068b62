//! What an outbound socket is set up with before it connects: the address
//! family of the target, the device it is bound to, and the options of the
//! fingerprint profile. The socket calls themselves are made by the caller,
//! in this order, and any failure among them fails the connection.
use vstd::prelude::*;
use vstd::string::StringSliceAdditionalSpecFns;
use crate::fingerprint::{OsFingerprint, profile_buffer, profile_ttl};
use crate::session::SocketTarget;

verus! {

/// The address family of a socket.
#[derive(Clone, Copy, Debug, PartialEq, Eq, Structural)]
pub enum AddressFamily {
    V4,
    V6,
}

/// The family that a target's address belongs to.
pub open spec fn family_of(t: SocketTarget) -> AddressFamily {
    match t {
        SocketTarget::V4(..) => AddressFamily::V4,
        SocketTarget::V6(..) => AddressFamily::V6,
    }
}

/// Why no socket could be set up.
#[derive(Clone, Copy, Debug, PartialEq, Eq, Structural)]
pub enum BindError {
    /// The device name holds a NUL byte, so it cannot be passed to the kernel.
    NulInDeviceName,
}

/// The socket to create, the options to set on it, and where to connect it.
#[derive(Debug)]
pub struct SocketPlan {
    pub family: AddressFamily,
    /// `TCP_NODELAY`.
    pub nodelay: bool,
    /// `SO_KEEPALIVE`.
    pub keepalive: bool,
    /// The value of `SO_BINDTODEVICE`: the device name and a terminating NUL.
    pub bind_device: Vec<u8>,
    /// `IP_TTL`, where a profile applies.
    pub ttl: Option<u32>,
    /// `SO_SNDBUF` and `SO_RCVBUF`, where a profile applies.
    pub buffer_size: Option<u32>,
    pub target: SocketTarget,
}

/// Plans a TCP connection to `target` that leaves through the device named
/// `device`, with the socket options of `fingerprint` where one is given.
pub fn plan_connect(target: SocketTarget, device: &str, fingerprint: Option<OsFingerprint>) -> (r:
    Result<SocketPlan, BindError>)
    ensures
        r is Ok <==> !device.spec_bytes().contains(0u8),
        r matches Ok(plan) ==> {
            &&& plan.family == family_of(target)
            &&& plan.nodelay && plan.keepalive
            &&& plan.bind_device@ == device.spec_bytes().push(0u8)
            &&& plan.target == target
            &&& match fingerprint {
                Some(fp) => plan.ttl == Some(profile_ttl(fp)) && plan.buffer_size == Some(
                    profile_buffer(fp),
                ),
                None => plan.ttl is None && plan.buffer_size is None,
            }
        },
{
    let bytes = device.as_bytes();
    let mut name: Vec<u8> = Vec::new();
    let mut i: usize = 0;
    while i < bytes.len()
        invariant
            i <= bytes@.len(),
            bytes@ == device.spec_bytes(),
            name@ == bytes@.subrange(0, i as int),
            forall|j: int| 0 <= j < i ==> bytes@[j] != 0u8,
        decreases bytes@.len() - i,
    {
        if bytes[i] == 0 {
            return Err(BindError::NulInDeviceName);
        }
        name.push(bytes[i]);
        i = i + 1;
    }
    assert(name@ == bytes@);
    name.push(0);
    let family = match target {
        SocketTarget::V4(..) => AddressFamily::V4,
        SocketTarget::V6(..) => AddressFamily::V6,
    };
    let (ttl, buffer_size) = match fingerprint {
        Some(fp) => (Some(fp.ttl()), Some(fp.buffer_size())),
        None => (None, None),
    };
    Ok(SocketPlan { family, nodelay: true, keepalive: true, bind_device: name, ttl, buffer_size, target })
}

} // verus!
