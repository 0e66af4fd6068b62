use vstd::prelude::*;

verus! {

/// The client operating system whose TCP stack defaults an outbound socket imitates.
#[derive(Clone, Copy, Debug, PartialEq, Eq, Structural)]
pub enum OsFingerprint {
    Windows,
    Linux,
    Android,
    MacOS,
    IOS,
}

/// The IP time-to-live of a profile.
pub open spec fn profile_ttl(fp: OsFingerprint) -> u32 {
    match fp {
        OsFingerprint::Windows => 128,
        _ => 64,
    }
}

/// The send and receive buffer size, in bytes, of a profile.
pub open spec fn profile_buffer(fp: OsFingerprint) -> u32 {
    match fp {
        OsFingerprint::Windows => 65536,
        OsFingerprint::Linux => 29200,
        OsFingerprint::Android => 44800,
        OsFingerprint::MacOS => 65536,
        OsFingerprint::IOS => 32768,
    }
}

/// The lower-case tag that selects a profile in a username.
pub open spec fn tag_name(fp: OsFingerprint) -> Seq<char> {
    match fp {
        OsFingerprint::Windows => seq!['w', 'i', 'n', 'd', 'o', 'w', 's'],
        OsFingerprint::Linux => seq!['l', 'i', 'n', 'u', 'x'],
        OsFingerprint::Android => seq!['a', 'n', 'd', 'r', 'o', 'i', 'd'],
        OsFingerprint::MacOS => seq!['m', 'a', 'c', 'o', 's'],
        OsFingerprint::IOS => seq!['i', 'o', 's'],
    }
}

/// The profile whose tag is exactly `t`, if any.
pub open spec fn profile_of_tag(t: Seq<char>) -> Option<OsFingerprint> {
    if t == tag_name(OsFingerprint::Windows) {
        Some(OsFingerprint::Windows)
    } else if t == tag_name(OsFingerprint::Linux) {
        Some(OsFingerprint::Linux)
    } else if t == tag_name(OsFingerprint::Android) {
        Some(OsFingerprint::Android)
    } else if t == tag_name(OsFingerprint::MacOS) {
        Some(OsFingerprint::MacOS)
    } else if t == tag_name(OsFingerprint::IOS) {
        Some(OsFingerprint::IOS)
    } else {
        None
    }
}

/// Distinct profiles have distinct tags, so a tag names at most one profile.
pub proof fn lemma_tag_names_distinct(fp: OsFingerprint)
    ensures
        profile_of_tag(tag_name(fp)) == Some(fp),
{
    let w = tag_name(OsFingerprint::Windows);
    let l = tag_name(OsFingerprint::Linux);
    let a = tag_name(OsFingerprint::Android);
    let m = tag_name(OsFingerprint::MacOS);
    let i = tag_name(OsFingerprint::IOS);
    assert(w.len() != l.len() || w[0] != l[0]);
    assert(w[0] != a[0]);
    assert(w.len() != m.len());
    assert(w.len() != i.len());
    assert(l[0] != a[0]);
    assert(l[0] != m[0]);
    assert(l.len() != i.len());
    assert(a.len() != m.len());
    assert(a.len() != i.len());
    assert(m.len() != i.len());
}

impl OsFingerprint {
    /// The IP time-to-live that sockets of this profile carry.
    pub fn ttl(&self) -> (r: u32)
        ensures
            r == profile_ttl(*self),
    {
        match self {
            OsFingerprint::Windows => 128,
            _ => 64,
        }
    }

    /// The size given to both the send and the receive buffer.
    pub fn buffer_size(&self) -> (r: u32)
        ensures
            r == profile_buffer(*self),
    {
        match self {
            OsFingerprint::Windows => 65536,
            OsFingerprint::Linux => 29200,
            OsFingerprint::Android => 44800,
            OsFingerprint::MacOS => 65536,
            OsFingerprint::IOS => 32768,
        }
    }

    /// The lower-case tag of this profile.
    pub fn tag(&self) -> (r: Vec<char>)
        ensures
            r@ == tag_name(*self),
    {
        match self {
            OsFingerprint::Windows => vec!['w', 'i', 'n', 'd', 'o', 'w', 's'],
            OsFingerprint::Linux => vec!['l', 'i', 'n', 'u', 'x'],
            OsFingerprint::Android => vec!['a', 'n', 'd', 'r', 'o', 'i', 'd'],
            OsFingerprint::MacOS => vec!['m', 'a', 'c', 'o', 's'],
            OsFingerprint::IOS => vec!['i', 'o', 's'],
        }
    }
}

} // verus!
