//! Looking for people to add.

use crate::text::{contains, occurs};
use vstd::prelude::*;

verus! {

/// A user that was found by name.
#[derive(Debug, Clone, PartialEq)]
pub struct SearchResult<T = String> {
    pub user_id: T,
    pub username: T,
    pub display_name: T,
}

pub type SearchResultView = SearchResult<Seq<char>>;

impl View for SearchResult<String> {
    type V = SearchResultView;

    open spec fn view(&self) -> SearchResultView {
        SearchResult {
            user_id: self.user_id@,
            username: self.username@,
            display_name: self.display_name@,
        }
    }
}

/// What is listed for a name: the user of that name, if there is one.
pub fn search_results(query: &str, user_id: Option<String>) -> (r: Vec<SearchResult>)
    ensures
        match user_id {
            Some(id) => r@.len() == 1 && r@[0]@ == (SearchResult {
                user_id: id@,
                username: query@,
                display_name: query@,
            }),
            None => r@.len() == 0,
        },
{
    let mut out: Vec<SearchResult> = Vec::new();
    if let Some(user_id) = user_id {
        out.push(
            SearchResult {
                user_id,
                username: query.to_string(),
                display_name: query.to_string(),
            },
        );
    }
    out
}

/// What is said of a search that failed: a limit that was reached is explained.
pub open spec fn search_complaint(msg: Seq<char>) -> Seq<char> {
    if occurs(msg, "rate limit"@) || occurs(msg, "8:"@) {
        "Search limit (5/hour). Wait, then Enter once."@
    } else {
        msg
    }
}

/// What is said of a search that failed.
pub fn search_error(msg: String) -> (r: String)
    ensures
        r@ == search_complaint(msg@),
{
    if contains(msg.as_str(), "rate limit") || contains(msg.as_str(), "8:") {
        "Search limit (5/hour). Wait, then Enter once.".to_string()
    } else {
        msg
    }
}

} // verus!
