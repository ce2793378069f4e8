//! Composes the creation request for a post and checks what the API answers.
use vstd::prelude::*;
use crate::error::ReconcileError;
use crate::post::Post;
use crate::response::{opt_text, Uri};

verus! {

/// The request that creates a discussion for a post.
#[derive(Debug, Clone)]
pub struct CreationRequest {
    pub repository_id: String,
    pub category_id: String,
    pub body: String,
    pub title: String,
}

pub struct RequestView {
    pub repository_id: Seq<char>,
    pub category_id: Seq<char>,
    pub body: Seq<char>,
    pub title: Seq<char>,
}

impl View for CreationRequest {
    type V = RequestView;

    open spec fn view(&self) -> RequestView {
        RequestView {
            repository_id: self.repository_id@,
            category_id: self.category_id@,
            body: self.body@,
            title: self.title@,
        }
    }
}

/// A discussion that the API reports as created.
#[derive(Debug, Clone)]
pub struct CreatedDiscussion {
    pub id: String,
    pub title: String,
    pub url: Uri,
}

/// What the API answers to the creation mutation.
#[derive(Debug, Clone)]
pub struct CreationResponse {
    pub discussion: Option<CreatedDiscussion>,
    pub errors: Vec<String>,
}

/// The body of a post's discussion: the description, a blank line and the URL;
/// the URL alone where there is no description.
pub open spec fn spec_body(description: Option<Seq<char>>, href: Seq<char>) -> Seq<char> {
    match description {
        Some(d) => d + seq!['\n', '\n'] + href,
        None => href,
    }
}

pub open spec fn spec_request(post: Post, repository_id: Seq<char>, category_id: Seq<char>) -> RequestView {
    RequestView {
        repository_id,
        category_id,
        body: spec_body(opt_text(post.description), post.url.href@),
        title: post.url.path@,
    }
}

pub fn compose_body(post: &Post) -> (r: String)
    ensures
        r@ == spec_body(opt_text(post.description), post.url.href@),
{
    match &post.description {
        Some(d) => {
            let sep = "\n\n";
            proof {
                reveal_strlit("\n\n");
            }
            let mut body = d.clone();
            body.append(sep);
            body.append(post.url.href.as_str());
            body
        },
        None => post.url.href.clone(),
    }
}

/// The request for `post` in the given repository and category; its title is
/// the path of the post's URL.
pub fn build_request(post: &Post, repository_id: String, category_id: String) -> (r:
    CreationRequest)
    ensures
        r@ == spec_request(*post, repository_id@, category_id@),
{
    CreationRequest {
        repository_id,
        category_id,
        body: compose_body(post),
        title: post.url.path.clone(),
    }
}

/// Whether `r` is what joining the two lookups for `post` yields.
pub open spec fn spec_prepared(
    post: Post,
    repository: Result<String, ReconcileError>,
    category: Result<String, ReconcileError>,
    r: Result<CreationRequest, ReconcileError>,
) -> bool {
    match (repository, category) {
        (Err(e), _) => r == Err::<CreationRequest, ReconcileError>(e),
        (Ok(_), Err(e)) => r == Err::<CreationRequest, ReconcileError>(e),
        (Ok(rid), Ok(cid)) => r is Ok && r->Ok_0@ == spec_request(post, rid@, cid@),
    }
}

/// Joins the two identifier lookups into the request for `post`; a failed
/// repository lookup is reported before a failed category lookup.
pub fn prepare(
    post: &Post,
    repository: Result<String, ReconcileError>,
    category: Result<String, ReconcileError>,
) -> (r: Result<CreationRequest, ReconcileError>)
    ensures
        spec_prepared(*post, repository, category, r),
{
    match repository {
        Err(e) => Err(e),
        Ok(rid) => match category {
            Err(e) => Err(e),
            Ok(cid) => Ok(build_request(post, rid, cid)),
        },
    }
}

/// What the check of a creation response yields.
pub open spec fn spec_created(request: CreationRequest, response: CreationResponse) -> Result<
    CreatedDiscussion,
    ReconcileError,
> {
    match response.discussion {
        None => Err(ReconcileError::CreationFailure(response.errors)),
        Some(d) => if d.title@ == request.title@ {
            Ok(d)
        } else {
            Err(ReconcileError::MalformedResponse(d.title))
        },
    }
}

/// Checks the answer to the creation mutation: a missing discussion is a
/// creation failure carrying the reported errors; a discussion whose title
/// differs from the requested one is malformed and carries that title.
pub fn check_created(request: &CreationRequest, response: CreationResponse) -> (r: Result<
    CreatedDiscussion,
    ReconcileError,
>)
    ensures
        r == spec_created(*request, response),
{
    match response.discussion {
        None => Err(ReconcileError::CreationFailure(response.errors)),
        Some(d) => {
            if d.title == request.title {
                Ok(d)
            } else {
                Err(ReconcileError::MalformedResponse(d.title))
            }
        },
    }
}

} // verus!
