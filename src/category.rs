//! Resolves a discussion category's identifier from its display name.
use vstd::prelude::*;
use crate::error::{text_result, Failure, ReconcileError};
use crate::response::PageResponse;

verus! {

/// One discussion category as the API lists it.
#[derive(Debug, Clone)]
pub struct CategoryEntry {
    pub id: String,
    pub name: String,
}

/// The identifier of the first entry from index `i` on whose name is `target`.
pub open spec fn first_category_from(
    entries: Seq<Option<CategoryEntry>>,
    target: Seq<char>,
    i: int,
) -> Option<Seq<char>>
    decreases entries.len() - i,
{
    if i >= entries.len() {
        None
    } else {
        match entries[i] {
            Some(c) => if c.name@ == target {
                Some(c.id@)
            } else {
                first_category_from(entries, target, i + 1)
            },
            None => first_category_from(entries, target, i + 1),
        }
    }
}

pub open spec fn spec_resolve_category(page: PageResponse<CategoryEntry>, target: Seq<char>) -> Result<
    Seq<char>,
    Failure,
> {
    match page.data {
        None => Err(Failure::RemoteQuery(page.errors.deep_view())),
        Some(v) => match first_category_from(v@, target, 0) {
            Some(id) => Ok(id),
            None => Err(Failure::CategoryNotFound(target)),
        },
    }
}

/// Returns the identifier of the first listed category whose name equals
/// `target` exactly (case-sensitive). Only the first page of categories is
/// searched: a category beyond it is reported as not found. There is no
/// fallback to any other category.
pub fn resolve_category_id(page: &PageResponse<CategoryEntry>, target: &String) -> (r: Result<
    String,
    ReconcileError,
>)
    ensures
        text_result(r) == spec_resolve_category(*page, target@),
{
    let entries = match &page.data {
        Some(v) => v,
        None => {
            return Err(ReconcileError::RemoteQueryFailure(page.errors.clone()));
        },
    };
    let mut i: usize = 0;
    while i < entries.len()
        invariant
            0 <= i <= entries.len(),
            page.data == Some(*entries),
            first_category_from(entries@, target@, 0) == first_category_from(
                entries@,
                target@,
                i as int,
            ),
        decreases entries.len() - i,
    {
        if let Some(c) = &entries[i] {
            if c.name == *target {
                return Ok(c.id.clone());
            }
        }
        i = i + 1;
    }
    Err(ReconcileError::CategoryNotFound(target.clone()))
}

} // verus!
