//! Usernames of the form `<user>[-fingerprint-<tag>]`.
use vstd::prelude::*;
use crate::fingerprint::{OsFingerprint, lemma_tag_names_distinct, profile_of_tag, tag_name};
use crate::text::{
    ascii_lowercase, chars_of, find, first_occurrence, is_first_occurrence, lemma_first_occurrence_at,
    lowercase_from, occurs_at, same_chars, string_of,
};

verus! {

/// Why a username was refused.
#[derive(Debug, PartialEq, Eq)]
pub enum ParseUsernameError {
    /// The text after the separator, lower-cased, names no profile.
    InvalidFingerprint(String),
}

impl ParseUsernameError {
    /// A line that describes the error.
    pub fn message(&self) -> (r: String)
        ensures
            match self {
                ParseUsernameError::InvalidFingerprint(tag) => r@ == "invalid fingerprint value: "@ + tag@,
            },
    {
        match self {
            ParseUsernameError::InvalidFingerprint(tag) => {
                let mut m = String::from_str("invalid fingerprint value: ");
                m.append(tag.as_str());
                m
            },
        }
    }
}

/// The separator between the user and the fingerprint tag.
pub open spec fn separator() -> Seq<char> {
    seq!['-', 'f', 'i', 'n', 'g', 'e', 'r', 'p', 'r', 'i', 'n', 't', '-']
}

/// What a username decodes to: the user and the profile, or the offending
/// tag in lower case. The first separator splits the input; without one the
/// whole input is the user and the default profile applies.
pub open spec fn parsed_username(input: Seq<char>, default_fp: OsFingerprint) -> Result<
    (Seq<char>, OsFingerprint),
    Seq<char>,
> {
    match first_occurrence(input, separator()) {
        None => Ok((input, default_fp)),
        Some(i) => {
            let tag = ascii_lowercase(input.subrange(i + separator().len(), input.len() as int));
            match profile_of_tag(tag) {
                Some(fp) => Ok((input.subrange(0, i), fp)),
                None => Err(tag),
            }
        },
    }
}

fn separator_chars() -> (r: Vec<char>)
    ensures
        r@ == separator(),
{
    vec!['-', 'f', 'i', 'n', 'g', 'e', 'r', 'p', 'r', 'i', 'n', 't', '-']
}

fn profile_of(tag: &Vec<char>) -> (r: Option<OsFingerprint>)
    ensures
        r == profile_of_tag(tag@),
{
    if same_chars(tag, &OsFingerprint::Windows.tag()) {
        Some(OsFingerprint::Windows)
    } else if same_chars(tag, &OsFingerprint::Linux.tag()) {
        Some(OsFingerprint::Linux)
    } else if same_chars(tag, &OsFingerprint::Android.tag()) {
        Some(OsFingerprint::Android)
    } else if same_chars(tag, &OsFingerprint::MacOS.tag()) {
        Some(OsFingerprint::MacOS)
    } else if same_chars(tag, &OsFingerprint::IOS.tag()) {
        Some(OsFingerprint::IOS)
    } else {
        None
    }
}

/// Splits a username into the user and the fingerprint profile it selects.
/// The tag is compared without regard to ASCII case; the user keeps its case.
pub fn parse_username(input: &str, fingerprint: OsFingerprint) -> (r: Result<
    (String, OsFingerprint),
    ParseUsernameError,
>)
    ensures
        match r {
            Ok((user, fp)) => parsed_username(input@, fingerprint) == Ok::<
                (Seq<char>, OsFingerprint),
                Seq<char>,
            >((user@, fp)),
            Err(ParseUsernameError::InvalidFingerprint(tag)) => parsed_username(input@, fingerprint)
                == Err::<(Seq<char>, OsFingerprint), Seq<char>>(tag@),
        },
{
    let chars = chars_of(input);
    let sep = separator_chars();
    match find(&chars, &sep) {
        None => {
            Ok((input.to_owned(), fingerprint))
        },
        Some(idx) => {
            let n = chars.len();
            assert(idx + sep@.len() <= n);
            let tag = lowercase_from(&chars, idx + sep.len());
            match profile_of(&tag) {
                Some(fp) => {
                    Ok((string_of(&chars, 0, idx), fp))
                },
                None => {
                    let text = string_of(&tag, 0, tag.len());
                    assert(text@ == tag@.subrange(0, tag@.len() as int));
                    assert(tag@.subrange(0, tag@.len() as int) =~= tag@);
                    Err(ParseUsernameError::InvalidFingerprint(text))
                },
            }
        },
    }
}

/// A username built as user, separator and tag decodes back to that user and
/// the tag's profile, in any ASCII case of the tag, provided that no separator
/// starts inside the user (for instance the user `x-fingerprint` followed by
/// the separator holds one that does).
pub proof fn lemma_parse_round_trip(
    user: Seq<char>,
    tag: Seq<char>,
    fp: OsFingerprint,
    default_fp: OsFingerprint,
)
    requires
        forall|j: int| 0 <= j < user.len() ==> !#[trigger] occurs_at(user + separator(), separator(), j),
        ascii_lowercase(tag) == tag_name(fp),
    ensures
        parsed_username(user + separator() + tag, default_fp) == Ok::<
            (Seq<char>, OsFingerprint),
            Seq<char>,
        >((user, fp)),
{
    let s = user + separator() + tag;
    let n = user.len() as int;
    let m = separator().len() as int;
    assert(s.subrange(n, n + m) =~= separator());
    assert forall|j: int| 0 <= j < n implies !#[trigger] occurs_at(s, separator(), j) by {
        assert(!occurs_at(user + separator(), separator(), j));
        if j + m <= s.len() {
            assert(s.subrange(j, j + m) =~= (user + separator()).subrange(j, j + m));
        }
    }
    assert(is_first_occurrence(s, separator(), n));
    lemma_first_occurrence_at(s, separator(), n);
    assert(s.subrange(n + m, s.len() as int) =~= tag);
    assert(s.subrange(0, n) =~= user);
    lemma_tag_names_distinct(fp);
}

} // verus!
