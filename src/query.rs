//! The remote queries that the reconciliation reads, and their variables.
//! Each reads the first page only: 20 categories, 50 discussions.
use vstd::prelude::*;

verus! {

/// The query for the first page of a repository's discussion categories.
pub const CATEGORY_QUERY: &'static str = "query CategoryQuery($owner: String!, $repoName: String!) { repository(owner: $owner, name: $repoName) { discussionCategories(first: 20) { edges { node { id name } } pageInfo { endCursor } } } }";

/// The query for the first page of a repository's discussions, newest first.
pub const DISCUSSION_QUERY: &'static str = "query DiscussionExists($owner: String!, $repoName: String!) { repository(owner: $owner, name: $repoName) { discussions(first: 50, orderBy: {field: CREATED_AT, direction: DESC}) { edges { node { id title createdAt url } } pageInfo { endCursor } } } }";

/// The mutation that creates a discussion.
pub const CREATE_MUTATION: &'static str = "mutation CreateCommentsDiscussion($repoId: ID!, $catId: ID!, $title: String!, $desc: String!) { createDiscussion(input: {repositoryId: $repoId, categoryId: $catId, title: $title, body: $desc}) { discussion { id title createdAt url } } }";

/// The variables of [`CATEGORY_QUERY`].
#[derive(Debug, Clone)]
pub struct CategoryQueryVariables {
    pub owner: String,
    pub repo_name: String,
}

/// The variables of [`DISCUSSION_QUERY`].
#[derive(Debug, Clone)]
pub struct DiscussionExistsVariables {
    pub owner: String,
    pub repo_name: String,
}

impl CategoryQueryVariables {
    pub fn new(owner: &str, repo_name: &str) -> (r: CategoryQueryVariables)
        ensures
            r.owner@ == owner@,
            r.repo_name@ == repo_name@,
    {
        CategoryQueryVariables { owner: owner.to_string(), repo_name: repo_name.to_string() }
    }
}

impl DiscussionExistsVariables {
    pub fn new(owner: &str, repo_name: &str) -> (r: DiscussionExistsVariables)
        ensures
            r.owner@ == owner@,
            r.repo_name@ == repo_name@,
    {
        DiscussionExistsVariables { owner: owner.to_string(), repo_name: repo_name.to_string() }
    }
}

} // verus!
