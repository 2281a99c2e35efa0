//! Looking a user up by name.

use crate::grpc::error::GrpcError;
use crate::text::{
    ascii_lower, ascii_lowered, is_ascii_alphanumeric, lemma_trimmed_ends, lemma_trimmed_fixed,
    opt_text, to_ascii_lowercase, trim, trim_start_matches, trimmed, without_prefixes,
};
use vstd::prelude::*;

verus! {

/// A user name as the server stores it: no white space around it, no `@` in front, lower case.
pub open spec fn normalized_username(raw: Seq<char>) -> Seq<char> {
    ascii_lowered(trimmed(without_prefixes(trimmed(raw), "@"@)))
}

/// A name that the server can know: 3 to 30 ASCII letters, digits and underscores.
pub open spec fn searchable(name: Seq<char>) -> bool {
    3 <= name.len() <= 30 && forall|i: int|
        0 <= i < name.len() ==> is_ascii_alphanumeric(#[trigger] name[i]) || name[i] == '_'
}

pub fn normalize_username(raw: &str) -> (r: String)
    ensures
        r@ == normalized_username(raw@),
{
    proof {
        reveal_strlit("@");
    }
    to_ascii_lowercase(trim(trim_start_matches(trim(raw), "@")))
}

pub fn username_is_searchable(normalized: &str) -> (r: bool)
    ensures
        r == searchable(normalized@),
{
    let len: usize = normalized.unicode_len();
    if len < 3 || len > 30 {
        return false;
    }
    for c in it: normalized.chars()
        invariant
            it.seq() == normalized@,
            forall|j: int|
                0 <= j < it.index() ==> is_ascii_alphanumeric(#[trigger] normalized@[j])
                    || normalized@[j] == '_',
    {
        if !(('0' <= c && c <= '9') || ('a' <= c && c <= 'z') || ('A' <= c && c <= 'Z') || c
            == '_') {
            assert(normalized@[it.index()] == c);
            return false;
        }
    }
    true
}

/// The name to ask the server for; `None` when the server cannot know it.
pub fn find_user_query(username: &str) -> (r: Option<String>)
    ensures
        opt_text(r) == (if searchable(normalized_username(username@)) {
            Some(normalized_username(username@))
        } else {
            None
        }),
{
    let username = normalize_username(username);
    if username_is_searchable(username.as_str()) {
        Some(username)
    } else {
        None
    }
}

/// What the reply means: the user's id, or `None` when there is no such user (an empty id, or
/// status 5).
pub fn find_user(reply: Result<String, GrpcError>) -> (r: Result<Option<String>, GrpcError>)
    ensures
        r == (match reply {
            Ok(id) => if id@.len() == 0 {
                Ok(None)
            } else {
                Ok(Some(id))
            },
            Err(GrpcError::Status { code: 5, .. }) => Ok(None),
            Err(e) => Err(e),
        }),
{
    match reply {
        Ok(id) => if id.as_str().is_empty() {
            Ok(None)
        } else {
            Ok(Some(id))
        },
        Err(GrpcError::Status { code, message }) => if code == 5 {
            Ok(None)
        } else {
            Err(GrpcError::Status { code, message })
        },
        Err(e) => Err(e),
    }
}

/// A normalized name stays as it is, unless it begins with another `@`.
pub proof fn law_normalization_is_stable(raw: Seq<char>)
    requires
        !"@"@.is_prefix_of(normalized_username(raw)),
    ensures
        normalized_username(normalized_username(raw)) == normalized_username(raw),
{
    let inner = trimmed(without_prefixes(trimmed(raw), "@"@));
    let s = normalized_username(raw);
    lemma_trimmed_ends(without_prefixes(trimmed(raw), "@"@));
    if s.len() > 0 {
        assert(s[0] == ascii_lower(inner[0]));
        assert(s.last() == ascii_lower(inner.last()));
    }
    lemma_trimmed_fixed(s);
    assert(ascii_lowered(s) =~= s);
}

} // verus!
