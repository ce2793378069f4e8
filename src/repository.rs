//! Resolves a repository's identifier from the body of the repository lookup.
use vstd::prelude::*;
use crate::error::{text_result, Failure, ReconcileError};
use crate::parse::{json_str_member, json_str_member_of};

verus! {

pub open spec fn spec_resolve_repository(body: Seq<char>) -> Result<Seq<char>, Failure> {
    match json_str_member(body, "id"@) {
        Some(id) => Ok(id),
        None => Err(Failure::Malformed(body)),
    }
}

/// Reads the string member `id` of the JSON object in `body`. Where the body
/// is no JSON object, or `id` is absent or not a string, the response is
/// malformed and carries the body for diagnosis.
pub fn resolve_repository_id(body: &str) -> (r: Result<String, ReconcileError>)
    ensures
        text_result(r) == spec_resolve_repository(body@),
{
    match json_str_member_of(body, "id") {
        Some(id) => Ok(id),
        None => Err(ReconcileError::MalformedResponse(body.to_string())),
    }
}

} // verus!
