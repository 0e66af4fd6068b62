//! The per-connection SOCKS5 state machine (RFC 1928 with the RFC 1929
//! username/password sub-negotiation). The connection's owner reads each
//! message, hands it over as an [`Event`], and performs the [`Action`] that
//! comes back: writing a reply, opening the outbound stream, relaying or
//! closing.
use vstd::prelude::*;
use vstd::utf8::{decode_utf8, valid_utf8};
use crate::fingerprint::OsFingerprint;
use crate::registry::InterfaceMap;
use crate::text::{chars_of, same_chars, utf8_string};
use crate::username::{parse_username, parsed_username};
use crate::wire::action_bytes;

verus! {

/// The only authentication method the proxy accepts: username/password.
pub const METHOD_PASSWORD: u8 = 0x02;

/// The method byte that tells a client none of its methods is acceptable.
pub const METHOD_UNACCEPTABLE: u8 = 0xFF;

/// A request's command.
#[derive(Clone, Copy, Debug, PartialEq, Eq, Structural)]
pub enum Command {
    Connect,
    Bind,
    Associate,
    /// A command byte that RFC 1928 does not define.
    Other(u8),
}

/// A literal IP socket address.
#[derive(Clone, Copy, Debug)]
pub enum SocketTarget {
    /// The four octets of the address, and the port.
    V4([u8; 4], u16),
    /// The sixteen octets of the address, and the port.
    V6([u8; 16], u16),
}

/// The address a request names.
#[derive(Debug)]
pub enum TargetAddress {
    Ip(SocketTarget),
    Domain { host: Vec<u8>, port: u16 },
}

/// The reply codes the proxy sends.
#[derive(Clone, Copy, Debug, PartialEq, Eq, Structural)]
pub enum Reply {
    Succeeded,
    GeneralFailure,
    ConnectionNotAllowed,
    CommandNotSupported,
}

impl Reply {
    /// The reply field's byte on the wire.
    pub fn code(&self) -> (r: u8)
        ensures
            r == reply_code(*self),
    {
        match self {
            Reply::Succeeded => 0x00,
            Reply::GeneralFailure => 0x01,
            Reply::ConnectionNotAllowed => 0x02,
            Reply::CommandNotSupported => 0x07,
        }
    }
}

/// The byte of each reply code.
pub open spec fn reply_code(r: Reply) -> u8 {
    match r {
        Reply::Succeeded => 0x00,
        Reply::GeneralFailure => 0x01,
        Reply::ConnectionNotAllowed => 0x02,
        Reply::CommandNotSupported => 0x07,
    }
}

/// A message read from the client, or the outcome of the outbound connect.
#[derive(Debug)]
pub enum Event {
    /// The method-selection message: the methods the client offers.
    Greeting(Vec<u8>),
    /// The username/password record.
    Credentials { username: Vec<u8>, password: Vec<u8> },
    /// The request record.
    Request { command: Command, address: TargetAddress },
    /// Whether the outbound stream was established.
    Connected(bool),
}

/// What the connection's owner does next.
#[derive(Debug)]
pub enum Action {
    /// Write the method selection with this method, then read the credentials.
    SelectMethod(u8),
    /// Write the method selection with `METHOD_UNACCEPTABLE`, then close.
    RejectMethods,
    /// Write the sub-negotiation status `0x00`, then read the request.
    AcceptCredentials,
    /// Write the sub-negotiation status `0x01`, then close.
    RejectCredentials,
    /// Open a stream to `target` bound to `device` with `fingerprint`'s
    /// profile, then report the outcome with `Event::Connected`.
    Connect { target: SocketTarget, device: String, fingerprint: OsFingerprint },
    /// Write this reply with this address, then close.
    ReplyAndClose(Reply, TargetAddress),
    /// Write the success reply with this address, then relay both ways.
    ReplyAndRelay(SocketTarget),
    /// Close without writing anything.
    Close,
}

/// Where a session stands.
#[derive(Clone, Copy, Debug, PartialEq, Eq, Structural)]
pub enum Phase {
    Greeting,
    Authenticating,
    AwaitingRequest,
    Connecting,
    Relaying,
    Closed,
}

/// The position of a phase in the session's one-way order.
pub open spec fn phase_rank(p: Phase) -> int {
    match p {
        Phase::Greeting => 0,
        Phase::Authenticating => 1,
        Phase::AwaitingRequest => 2,
        Phase::Connecting => 3,
        Phase::Relaying => 4,
        Phase::Closed => 5,
    }
}

/// The user name that the proxy accepts.
pub open spec fn proxy_user() -> Seq<char> {
    seq!['m', 'o', 'd', 'e', 'm']
}

/// The device and profile that a username/password record selects, if it
/// is accepted: both fields are UTF-8, the username parses to the proxy's
/// user, and the password is an identifier of the map.
pub open spec fn credentials_grant(
    username: Seq<u8>,
    password: Seq<u8>,
    default_fp: OsFingerprint,
    map: Map<Seq<char>, Seq<char>>,
) -> Option<(Seq<char>, OsFingerprint)> {
    if valid_utf8(username) && valid_utf8(password) {
        match parsed_username(decode_utf8(username), default_fp) {
            Ok((user, fp)) => if user == proxy_user() && map.contains_key(decode_utf8(password)) {
                Some((map[decode_utf8(password)], fp))
            } else {
                None
            },
            Err(_) => None,
        }
    } else {
        None
    }
}

/// The state of one client connection.
pub struct Session {
    phase: Phase,
    default_fingerprint: OsFingerprint,
    fingerprint: OsFingerprint,
    password: String,
    device: String,
    target: Option<SocketTarget>,
}

impl Session {
    /// Where the session stands.
    pub closed spec fn phase_of(&self) -> Phase {
        self.phase
    }

    /// The profile applied when the username names none.
    pub closed spec fn default_fingerprint_of(&self) -> OsFingerprint {
        self.default_fingerprint
    }

    /// The profile selected at authentication.
    pub closed spec fn fingerprint_of(&self) -> OsFingerprint {
        self.fingerprint
    }

    /// The password the client authenticated with.
    pub closed spec fn password_of(&self) -> Seq<char> {
        self.password@
    }

    /// The device selected at authentication.
    pub closed spec fn device_of(&self) -> Seq<char> {
        self.device@
    }

    /// The target of the outbound connect.
    pub closed spec fn target_of(&self) -> Option<SocketTarget> {
        self.target
    }

    /// Once authenticated, the device is what the map gives for the password;
    /// once connecting, the target is known.
    pub open spec fn wf(&self, map: Map<Seq<char>, Seq<char>>) -> bool {
        &&& (phase_rank(self.phase_of()) >= 2 && self.phase_of() != Phase::Closed) ==> (
        map.contains_key(self.password_of()) && map[self.password_of()] == self.device_of())
        &&& (self.phase_of() == Phase::Connecting || self.phase_of() == Phase::Relaying) ==> self.target_of() is Some
    }

    /// A session that waits for the client's greeting.
    pub fn new(default_fingerprint: OsFingerprint) -> (r: Session)
        ensures
            r.phase_of() == Phase::Greeting,
            r.default_fingerprint_of() == default_fingerprint,
    {
        Session {
            phase: Phase::Greeting,
            default_fingerprint,
            fingerprint: default_fingerprint,
            password: String::new(),
            device: String::new(),
            target: None,
        }
    }

    /// Where the session stands.
    pub fn phase(&self) -> (r: Phase)
        ensures
            r == self.phase_of(),
    {
        self.phase
    }

    fn offers_password(methods: &Vec<u8>) -> (r: bool)
        ensures
            r == methods@.contains(METHOD_PASSWORD),
    {
        let mut i: usize = 0;
        while i < methods.len()
            invariant
                i <= methods@.len(),
                forall|j: int| 0 <= j < i ==> methods@[j] != METHOD_PASSWORD,
            decreases methods@.len() - i,
        {
            if methods[i] == METHOD_PASSWORD {
                return true;
            }
            i = i + 1;
        }
        false
    }

    fn is_proxy_user(user: &String) -> (r: bool)
        ensures
            r == (user@ == proxy_user()),
    {
        same_chars(&chars_of(user.as_str()), &vec!['m', 'o', 'd', 'e', 'm'])
    }

    /// Checks a username/password record against the map.
    pub fn check_credentials(
        username: Vec<u8>,
        password: Vec<u8>,
        default_fp: OsFingerprint,
        map: &InterfaceMap,
    ) -> (r: Option<(String, String, OsFingerprint)>)
        requires
            map.wf(),
        ensures
            match r {
                Some((pass, device, fp)) => credentials_grant(username@, password@, default_fp, map.view())
                    == Some((device@, fp)) && valid_utf8(password@) && pass@ == decode_utf8(password@),
                None => credentials_grant(username@, password@, default_fp, map.view()) is None,
            },
    {
        let ghost u = username@;
        let ghost p = password@;
        let user = match utf8_string(username) {
            Some(s) => s,
            None => return None,
        };
        let pass = match utf8_string(password) {
            Some(s) => s,
            None => return None,
        };
        match parse_username(user.as_str(), default_fp) {
            Ok((name, fp)) => {
                if !Self::is_proxy_user(&name) {
                    return None;
                }
                match map.get(pass.as_str()) {
                    Some(device) => Some((pass, device, fp)),
                    None => None,
                }
            },
            Err(_) => None,
        }
    }

    /// Advances the session by one event.
    ///
    /// Each phase takes one kind of event; any other event closes the
    /// session. The phase only moves forward.
    pub fn handle(&mut self, event: Event, map: &InterfaceMap) -> (r: Action)
        requires
            map.wf(),
            old(self).wf(map.view()),
        ensures
            final(self).wf(map.view()),
            final(self).default_fingerprint_of() == old(self).default_fingerprint_of(),
            phase_rank(final(self).phase_of()) > phase_rank(old(self).phase_of()) || (
            old(self).phase_of() == Phase::Closed && final(self).phase_of() == Phase::Closed),
            match (old(self).phase_of(), event) {
                (Phase::Greeting, Event::Greeting(methods)) => if methods@.contains(METHOD_PASSWORD) {
                    r == Action::SelectMethod(METHOD_PASSWORD) && final(self).phase_of()
                        == Phase::Authenticating
                } else {
                    &&& r is RejectMethods
                    &&& action_bytes(r) == seq![0x05u8, 0xFFu8]
                    &&& final(self).phase_of() == Phase::Closed
                },
                (Phase::Authenticating, Event::Credentials { username, password }) => match credentials_grant(
                    username@,
                    password@,
                    old(self).default_fingerprint_of(),
                    map.view(),
                ) {
                    Some((device, fp)) => {
                        &&& r is AcceptCredentials
                        &&& action_bytes(r) == seq![0x01u8, 0x00u8]
                        &&& final(self).phase_of() == Phase::AwaitingRequest
                        &&& final(self).device_of() == device
                        &&& final(self).fingerprint_of() == fp
                        &&& final(self).password_of() == decode_utf8(password@)
                    },
                    None => {
                        &&& r is RejectCredentials
                        &&& action_bytes(r) == seq![0x01u8, 0x01u8]
                        &&& final(self).phase_of() == Phase::Closed
                    },
                },
                (Phase::AwaitingRequest, Event::Request { command, address }) => match command {
                    Command::Connect => match address {
                        TargetAddress::Ip(t) => {
                            &&& r matches Action::Connect { target, device, fingerprint }
                            &&& target == t
                            &&& device@ == old(self).device_of()
                            &&& device@ == map.view()[old(self).password_of()]
                            &&& fingerprint == old(self).fingerprint_of()
                            &&& final(self).phase_of() == Phase::Connecting
                            &&& final(self).target_of() == Some(t)
                        },
                        TargetAddress::Domain { host, port } => {
                            &&& r matches Action::ReplyAndClose(reply, TargetAddress::Domain { host: h, port: p })
                            &&& reply == Reply::GeneralFailure && h@ == host@ && p == port
                            &&& final(self).phase_of() == Phase::Closed
                        },
                    },
                    Command::Associate => {
                        &&& r matches Action::ReplyAndClose(reply, a)
                        &&& reply == Reply::ConnectionNotAllowed
                        &&& a == address
                        &&& final(self).phase_of() == Phase::Closed
                    },
                    _ => {
                        &&& r matches Action::ReplyAndClose(reply, a)
                        &&& reply == Reply::CommandNotSupported
                        &&& a == address
                        &&& final(self).phase_of() == Phase::Closed
                    },
                },
                (Phase::Connecting, Event::Connected(ok)) => if ok {
                    &&& r matches Action::ReplyAndRelay(t)
                    &&& old(self).target_of() == Some(t)
                    &&& final(self).phase_of() == Phase::Relaying
                } else {
                    &&& r matches Action::ReplyAndClose(reply, TargetAddress::Ip(t))
                    &&& reply == Reply::GeneralFailure
                    &&& old(self).target_of() == Some(t)
                    &&& final(self).phase_of() == Phase::Closed
                },
                _ => r is Close && final(self).phase_of() == Phase::Closed,
            },
    {
        match (self.phase, event) {
            (Phase::Greeting, Event::Greeting(methods)) => {
                if Self::offers_password(&methods) {
                    self.phase = Phase::Authenticating;
                    Action::SelectMethod(METHOD_PASSWORD)
                } else {
                    self.phase = Phase::Closed;
                    Action::RejectMethods
                }
            },
            (Phase::Authenticating, Event::Credentials { username, password }) => {
                match Self::check_credentials(username, password, self.default_fingerprint, map) {
                    Some((pass, device, fp)) => {
                        self.phase = Phase::AwaitingRequest;
                        self.password = pass;
                        self.device = device;
                        self.fingerprint = fp;
                        Action::AcceptCredentials
                    },
                    None => {
                        self.phase = Phase::Closed;
                        Action::RejectCredentials
                    },
                }
            },
            (Phase::AwaitingRequest, Event::Request { command, address }) => {
                match command {
                    Command::Connect => match address {
                        TargetAddress::Ip(t) => {
                            self.phase = Phase::Connecting;
                            self.target = Some(t);
                            Action::Connect {
                                target: t,
                                device: self.device.clone(),
                                fingerprint: self.fingerprint,
                            }
                        },
                        TargetAddress::Domain { host, port } => {
                            self.phase = Phase::Closed;
                            Action::ReplyAndClose(
                                Reply::GeneralFailure,
                                TargetAddress::Domain { host, port },
                            )
                        },
                    },
                    Command::Associate => {
                        self.phase = Phase::Closed;
                        Action::ReplyAndClose(Reply::ConnectionNotAllowed, address)
                    },
                    _ => {
                        self.phase = Phase::Closed;
                        Action::ReplyAndClose(Reply::CommandNotSupported, address)
                    },
                }
            },
            (Phase::Connecting, Event::Connected(ok)) => {
                match self.target {
                    Some(t) => {
                        if ok {
                            self.phase = Phase::Relaying;
                            Action::ReplyAndRelay(t)
                        } else {
                            self.phase = Phase::Closed;
                            Action::ReplyAndClose(Reply::GeneralFailure, TargetAddress::Ip(t))
                        }
                    },
                    None => {
                        self.phase = Phase::Closed;
                        Action::Close
                    },
                }
            },
            _ => {
                self.phase = Phase::Closed;
                Action::Close
            },
        }
    }
}

} // verus!
