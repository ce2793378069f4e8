//! What the remote API answers to a query for the first page of a list.
use vstd::prelude::*;
use crate::parse::{parse_timestamp, rfc3339_seconds};

verus! {

/// Where the first page of a list ends: the cursor of its last entry, if the
/// API gave one. Only the first page is ever read; a caller that sees a cursor
/// knows that entries beyond it were not searched.
#[derive(Debug, Clone)]
pub struct PageInfo {
    pub end_cursor: Option<String>,
}

/// The answer to a paged list query: the entries of the first page, in the order
/// that the API delivered them, or no data, together with the reported errors.
/// An entry may be `None` where the API returned a null node.
#[derive(Debug, Clone)]
pub struct PageResponse<T> {
    pub data: Option<Vec<Option<T>>>,
    pub page_info: PageInfo,
    pub errors: Vec<String>,
}

/// A URL as the API returns it.
#[derive(Debug, Clone, PartialEq, Eq)]
pub struct Uri(pub String);

impl From<Uri> for String {
    fn from(u: Uri) -> (r: String) {
        u.0
    }
}

impl vstd::std_specs::convert::FromSpecImpl<Uri> for String {
    open spec fn obeys_from_spec() -> bool {
        true
    }

    open spec fn from_spec(u: Uri) -> String {
        u.0
    }
}

/// A point in time as the API returns it: RFC 3339 text.
#[derive(Debug, Clone, PartialEq, Eq)]
pub struct DateTime(pub String);

impl DateTime {
    /// The whole seconds since the Unix epoch; `None` where the text is no
    /// RFC 3339 timestamp.
    pub fn seconds(&self) -> (r: Option<i64>)
        ensures
            r == rfc3339_seconds(self.0@),
    {
        parse_timestamp(self.0.as_str())
    }
}

/// The mathematical value of an optional string.
pub open spec fn opt_text(o: Option<String>) -> Option<Seq<char>> {
    match o {
        Some(s) => Some(s@),
        None => None,
    }
}

} // verus!
