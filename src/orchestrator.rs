//! The decisions of a reconciliation run, as a state machine driven by the
//! results of the remote calls.
//!
//! A run starts in `Checking`. Once the existing-discussion scan and the
//! request preparation have both completed, `on_lookups` either asks for the
//! request to be submitted (`Creating`) or stops the run (`Aborted` on a
//! duplicate, `Failed` otherwise). After the one submission, `on_submitted`
//! checks the answer (`Done` or `Failed`). The creation request can only be
//! submitted from `Checking`, so a run submits it at most once, and only when
//! no existing discussion was found.
use vstd::prelude::*;
use crate::category::{spec_resolve_category, CategoryEntry};
use crate::creation::{
    check_created, spec_created, spec_prepared, spec_request, CreatedDiscussion, CreationRequest,
    CreationResponse,
};
use crate::error::{text_result, Failure, ReconcileError};
use crate::finder::{find_view, spec_find, DiscussionEntry};
use crate::post::{MatchKey, Post};
use crate::repository::spec_resolve_repository;
use crate::response::PageResponse;

verus! {

/// Where a run stands.
#[derive(Debug, Clone, Copy, PartialEq, Eq, Structural)]
pub enum Phase {
    Checking,
    Creating,
    Aborted,
    Done,
    Failed,
}

/// What the caller does next.
#[derive(Debug, Clone)]
pub enum Action {
    /// Send this creation request, once.
    Submit(CreationRequest),
    /// End the run with this error; nothing is created.
    Stop(ReconcileError),
}

/// The decision once the scan and the preparation have completed: a failed
/// scan stops the run with its error, a found discussion stops it as a
/// duplicate, and otherwise the prepared request is submitted, or its
/// failure stops the run.
pub open spec fn spec_decide(
    scan: Result<Option<String>, ReconcileError>,
    prepared: Result<CreationRequest, ReconcileError>,
) -> Action {
    match scan {
        Err(e) => Action::Stop(e),
        Ok(Some(url)) => Action::Stop(ReconcileError::DuplicateDiscussion(url)),
        Ok(None) => match prepared {
            Ok(request) => Action::Submit(request),
            Err(e) => Action::Stop(e),
        },
    }
}

pub open spec fn phase_after(action: Action) -> Phase {
    match action {
        Action::Submit(_) => Phase::Creating,
        Action::Stop(ReconcileError::DuplicateDiscussion(_)) => Phase::Aborted,
        Action::Stop(_) => Phase::Failed,
    }
}

/// One reconciliation run.
#[derive(Debug)]
pub struct Reconciliation {
    pub phase: Phase,
}

impl Reconciliation {
    pub fn new() -> (r: Reconciliation)
        ensures
            r.phase == Phase::Checking,
    {
        Reconciliation { phase: Phase::Checking }
    }

    /// Takes the results of the existing-discussion scan and of the request
    /// preparation, and says whether to submit the request.
    pub fn on_lookups(
        &mut self,
        scan: Result<Option<String>, ReconcileError>,
        prepared: Result<CreationRequest, ReconcileError>,
    ) -> (a: Action)
        requires
            old(self).phase == Phase::Checking,
        ensures
            a == spec_decide(scan, prepared),
            final(self).phase == phase_after(a),
    {
        let a = match scan {
            Err(e) => Action::Stop(e),
            Ok(Some(url)) => Action::Stop(ReconcileError::DuplicateDiscussion(url)),
            Ok(None) => match prepared {
                Ok(request) => Action::Submit(request),
                Err(e) => Action::Stop(e),
            },
        };
        self.phase = match &a {
            Action::Submit(_) => Phase::Creating,
            Action::Stop(ReconcileError::DuplicateDiscussion(_)) => Phase::Aborted,
            Action::Stop(_) => Phase::Failed,
        };
        a
    }

    /// Takes the answer to the submitted `request` and ends the run.
    pub fn on_submitted(&mut self, request: &CreationRequest, response: CreationResponse) -> (r:
        Result<CreatedDiscussion, ReconcileError>)
        requires
            old(self).phase == Phase::Creating,
        ensures
            r == spec_created(*request, response),
            final(self).phase == if r is Ok {
                Phase::Done
            } else {
                Phase::Failed
            },
    {
        let r = check_created(request, response);
        self.phase = if r.is_ok() {
            Phase::Done
        } else {
            Phase::Failed
        };
        r
    }
}

/// Where the scan finds a discussion for the post, the run stops with a
/// duplicate error carrying that discussion's URL, and nothing is submitted.
pub proof fn lemma_duplicate_never_submits(
    page: PageResponse<DiscussionEntry>,
    key: Option<Seq<char>>,
    now: i64,
    scan: Result<Option<String>, ReconcileError>,
    prepared: Result<CreationRequest, ReconcileError>,
    url: Seq<char>,
)
    requires
        find_view(scan) == spec_find(page, key, now),
        spec_find(page, key, now) == Ok::<Option<Seq<char>>, Failure>(Some(url)),
    ensures
        spec_decide(scan, prepared) is Stop,
        spec_decide(scan, prepared)->Stop_0@ == Failure::Duplicate(url),
        phase_after(spec_decide(scan, prepared)) == Phase::Aborted,
{
}

/// A failed scan stops the run with the scan's own error, whatever the
/// preparation gave, and nothing is submitted.
pub proof fn lemma_scan_failure_stops(
    scan: Result<Option<String>, ReconcileError>,
    prepared: Result<CreationRequest, ReconcileError>,
)
    requires
        scan is Err,
    ensures
        spec_decide(scan, prepared) == Action::Stop(scan->Err_0),
{
}

/// A run for a post with no existing discussion, whose category is listed
/// and whose repository lookup names an identifier, submits the request built
/// from those identifiers; where the API then returns a discussion titled
/// with the post's path, the run ends with that discussion.
pub proof fn lemma_end_to_end(
    post: Post,
    by: MatchKey,
    now: i64,
    scan_page: PageResponse<DiscussionEntry>,
    scan: Result<Option<String>, ReconcileError>,
    category_page: PageResponse<CategoryEntry>,
    target: Seq<char>,
    category: Result<String, ReconcileError>,
    repository_body: Seq<char>,
    repository: Result<String, ReconcileError>,
    prepared: Result<CreationRequest, ReconcileError>,
    response: CreationResponse,
)
    requires
        find_view(scan) == spec_find(scan_page, post.spec_match_key(by), now),
        spec_find(scan_page, post.spec_match_key(by), now) == Ok::<Option<Seq<char>>, Failure>(
            None,
        ),
        text_result(category) == spec_resolve_category(category_page, target),
        spec_resolve_category(category_page, target) is Ok,
        text_result(repository) == spec_resolve_repository(repository_body),
        spec_resolve_repository(repository_body) is Ok,
        spec_prepared(post, repository, category, prepared),
        response.discussion is Some,
        response.discussion->Some_0.title@ == post.url.path@,
    ensures
        spec_decide(scan, prepared) is Submit,
        spec_decide(scan, prepared)->Submit_0@ == spec_request(
            post,
            spec_resolve_repository(repository_body)->Ok_0,
            spec_resolve_category(category_page, target)->Ok_0,
        ),
        spec_created(spec_decide(scan, prepared)->Submit_0, response) == Ok::<
            CreatedDiscussion,
            ReconcileError,
        >(response.discussion->Some_0),
        spec_created(spec_decide(scan, prepared)->Submit_0, response)->Ok_0.title@ == post.url.path@,
{
}

} // verus!
