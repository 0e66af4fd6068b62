//! Values of the HTTP control and metrics endpoints.
use vstd::prelude::*;
use vstd::utf8::{decode_utf8, valid_utf8};
use vstd::string::StringSliceAdditionalSpecFns;
use crate::codec::{base64_decode, base64_decoding};
use crate::registry::has_prefix;
use crate::text::{chars_of, matches_at, same_chars, utf8_string};

verus! {

/// A text message to send through a modem.
pub struct SmsMessage {
    pub recipient: String,
    pub content: String,
}

/// The modem's answer to a text message.
pub struct SmsResponse {
    pub id: String,
    pub status: String,
}

/// The scheme word of an HTTP Basic authorization header, with its space.
pub open spec fn basic_scheme() -> Seq<char> {
    "Basic "@
}

/// `s` with every leading repetition of `p` removed.
pub open spec fn strip_leading(s: Seq<char>, p: Seq<char>) -> Seq<char>
    decreases s.len(),
{
    if p.len() > 0 && has_prefix(s, p) {
        strip_leading(s.subrange(p.len() as int, s.len() as int), p)
    } else {
        s
    }
}

/// The credentials text that a Basic header must decode to.
pub open spec fn credentials_text(username: Seq<char>, password: Seq<char>) -> Seq<char> {
    username + ":"@ + password
}

/// Whether an `Authorization` header grants access: it uses the Basic
/// scheme and its token, with the scheme words removed, is base64 of the
/// UTF-8 text `<username>:<password>`.
pub open spec fn basic_auth_grants(header: Seq<char>, username: Seq<char>, password: Seq<char>) -> bool {
    has_prefix(header, basic_scheme()) && {
        let token = strip_leading(header, basic_scheme());
        match base64_decoding(vstd::utf8::encode_utf8(token)) {
            Some(bytes) => valid_utf8(bytes) && decode_utf8(bytes) == credentials_text(username, password),
            None => false,
        }
    }
}

/// Decides whether a metrics request may pass, from its `Authorization`
/// header and the configured credentials.
pub fn basic_auth_accepts(header: Option<&str>, username: &str, password: &str) -> (r: bool)
    ensures
        r == match header {
            Some(h) => basic_auth_grants(h@, username@, password@),
            None => false,
        },
{
    let h = match header {
        Some(h) => h,
        None => return false,
    };
    let chars = chars_of(h);
    let scheme = chars_of("Basic ");
    if !matches_at(&chars, &scheme, 0) {
        return false;
    }
    proof {
        reveal_strlit("Basic ");
        assert(chars@.subrange(0, chars@.len() as int) =~= chars@);
    }
    let mut start: usize = 0;
    while start <= chars.len() && matches_at(&chars, &scheme, start)
        invariant
            scheme@ == basic_scheme(),
            scheme@.len() > 0,
            start <= chars@.len(),
            strip_leading(chars@, scheme@) == strip_leading(chars@.subrange(start as int, chars@.len() as int), scheme@),
        decreases chars@.len() - start,
    {
        let ghost rest = chars@.subrange(start as int, chars@.len() as int);
        assert(rest.subrange(0, scheme@.len() as int) =~= chars@.subrange(start as int, start + scheme@.len()));
        assert(rest.subrange(scheme@.len() as int, rest.len() as int) =~= chars@.subrange(start + scheme@.len(), chars@.len() as int));
        start = start + scheme.len();
    }
    let ghost rest = chars@.subrange(start as int, chars@.len() as int);
    assert(!has_prefix(rest, scheme@)) by {
        if has_prefix(rest, scheme@) {
            assert(rest.subrange(0, scheme@.len() as int) =~= chars@.subrange(start as int, start + scheme@.len()));
        }
    }
    let token = h.substring_char(start, chars.len());
    let decoded = match base64_decode(token) {
        Some(b) => b,
        None => return false,
    };
    let text = match utf8_string(decoded) {
        Some(t) => t,
        None => return false,
    };
    let mut expected = username.to_owned();
    expected.append(":");
    expected.append(password);
    same_chars(&chars_of(text.as_str()), &chars_of(expected.as_str()))
}

} // verus!
