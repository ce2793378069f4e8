use vstd::prelude::*;

verus! {

/// Why a reconciliation run stopped without creating a discussion.
#[derive(Debug, Clone, PartialEq, Eq)]
pub enum ReconcileError {
    /// A network or HTTP-layer failure, with the transport's message.
    TransportFailure(String),
    /// A successful response whose expected field is missing or has the wrong shape.
    MalformedResponse(String),
    /// The remote API answered with query errors instead of data.
    RemoteQueryFailure(Vec<String>),
    /// The configured category name is absent from the first page of categories.
    CategoryNotFound(String),
    /// A discussion for the post already exists; it carries that discussion's URL.
    DuplicateDiscussion(String),
    /// The creation mutation returned no discussion; it carries the reported errors.
    CreationFailure(Vec<String>),
}

/// The mathematical value of a [`ReconcileError`].
pub enum Failure {
    Transport(Seq<char>),
    Malformed(Seq<char>),
    RemoteQuery(Seq<Seq<char>>),
    CategoryNotFound(Seq<char>),
    Duplicate(Seq<char>),
    Creation(Seq<Seq<char>>),
}

impl View for ReconcileError {
    type V = Failure;

    open spec fn view(&self) -> Failure {
        match self {
            ReconcileError::TransportFailure(m) => Failure::Transport(m@),
            ReconcileError::MalformedResponse(m) => Failure::Malformed(m@),
            ReconcileError::RemoteQueryFailure(e) => Failure::RemoteQuery(e.deep_view()),
            ReconcileError::CategoryNotFound(c) => Failure::CategoryNotFound(c@),
            ReconcileError::DuplicateDiscussion(u) => Failure::Duplicate(u@),
            ReconcileError::CreationFailure(e) => Failure::Creation(e.deep_view()),
        }
    }
}

/// The mathematical value of a result whose success value is a string.
pub open spec fn text_result(r: Result<String, ReconcileError>) -> Result<Seq<char>, Failure> {
    match r {
        Ok(s) => Ok(s@),
        Err(e) => Err(e@),
    }
}

} // verus!
