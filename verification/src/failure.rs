//! How failures are classified and reported to a client.

use vstd::prelude::*;
use vstd::string::*;
use crate::auth::AuthOutcome;
use crate::story::StoryError;

verus! {

/// The kinds of failure that a request can end in.
#[derive(Clone, Copy, Debug, PartialEq, Eq, Structural)]
pub enum ErrorKind {
    /// A query or the connection failed.
    Store,
    /// The request has an empty title or names a creator that does not exist.
    Validation,
    /// The credentials were not accepted.
    Auth,
    /// The response could not be rendered.
    Render,
}

/// The status sent with every failure, whatever its kind.
pub const FAILURE_STATUS: u16 = 500;

/// The detail reported for refused credentials.
pub const LOGIN_FAILED: &'static str = "Login failed!";

pub open spec fn story_error_kind(error: StoryError) -> ErrorKind {
    match error {
        StoryError::CreatorNotFound => ErrorKind::Validation,
        StoryError::EmptyTitle => ErrorKind::Validation,
        StoryError::StoreFailure => ErrorKind::Store,
    }
}

pub open spec fn auth_error_kind(outcome: AuthOutcome) -> Option<ErrorKind> {
    match outcome {
        AuthOutcome::Authenticated => None,
        AuthOutcome::InvalidCredentials => Some(ErrorKind::Auth),
        AuthOutcome::LookupFailed => Some(ErrorKind::Store),
    }
}

/// The detail reported for each failure of a story operation.
pub open spec fn story_detail(error: StoryError) -> Seq<char> {
    match error {
        StoryError::CreatorNotFound => "creator not found"@,
        StoryError::EmptyTitle => "the title is empty"@,
        StoryError::StoreFailure => "the store failed"@,
    }
}

/// The detail to report for a failed story operation.
pub fn story_error_detail(error: StoryError) -> (detail: &'static str)
    ensures
        detail@ == story_detail(error),
{
    match error {
        StoryError::CreatorNotFound => "creator not found",
        StoryError::EmptyTitle => "the title is empty",
        StoryError::StoreFailure => "the store failed",
    }
}

/// The kind of a failed story operation.
pub fn classify_story_error(error: StoryError) -> (kind: ErrorKind)
    ensures
        kind == story_error_kind(error),
{
    match error {
        StoryError::CreatorNotFound => ErrorKind::Validation,
        StoryError::EmptyTitle => ErrorKind::Validation,
        StoryError::StoreFailure => ErrorKind::Store,
    }
}

/// The kind of failure that a login outcome stands for, if it is one.
pub fn classify_auth_outcome(outcome: AuthOutcome) -> (kind: Option<ErrorKind>)
    ensures
        kind == auth_error_kind(outcome),
{
    match outcome {
        AuthOutcome::Authenticated => None,
        AuthOutcome::InvalidCredentials => Some(ErrorKind::Auth),
        AuthOutcome::LookupFailed => Some(ErrorKind::Store),
    }
}

/// The status for a failure: the same for every kind.
pub fn status_code(kind: ErrorKind) -> (code: u16)
    ensures
        code == FAILURE_STATUS,
{
    FAILURE_STATUS
}

/// The body sent with a failure: a fixed prefix and the detail.
pub fn failure_body(detail: &str) -> (body: String)
    ensures
        body@ == "Something went wrong: "@ + detail@,
{
    String::from_str("Something went wrong: ").concat(detail)
}

/// What a client is told of a failure.
#[derive(Clone, Debug, PartialEq, Eq)]
pub struct Rejection {
    pub kind: ErrorKind,
    pub status: u16,
    pub body: String,
}

/// Mathematical value of a [`Rejection`].
pub struct RejectionView {
    pub kind: ErrorKind,
    pub status: int,
    pub body: Seq<char>,
}

impl View for Rejection {
    type V = RejectionView;

    open spec fn view(&self) -> RejectionView {
        RejectionView { kind: self.kind, status: self.status as int, body: self.body@ }
    }
}

/// What a client is told after a login attempt that did not authenticate:
/// the kind of the outcome, the one status, and a body that names no cause.
pub open spec fn login_rejection(outcome: AuthOutcome) -> Option<RejectionView> {
    match auth_error_kind(outcome) {
        Some(kind) => Some(
            RejectionView {
                kind,
                status: FAILURE_STATUS as int,
                body: "Something went wrong: "@ + LOGIN_FAILED@,
            },
        ),
        None => None,
    }
}

/// What a client is told after a story operation that failed.
pub open spec fn story_rejection(error: StoryError) -> RejectionView {
    RejectionView {
        kind: story_error_kind(error),
        status: FAILURE_STATUS as int,
        body: "Something went wrong: "@ + story_detail(error),
    }
}

/// The rejection to send for a failed story operation.
pub fn reject_story(error: StoryError) -> (rejection: Rejection)
    ensures
        rejection@ == story_rejection(error),
{
    let kind = classify_story_error(error);
    Rejection { kind, status: status_code(kind), body: failure_body(story_error_detail(error)) }
}

/// The rejection to send for a login outcome, if it is a failure.
pub fn reject_login(outcome: AuthOutcome) -> (rejection: Option<Rejection>)
    ensures
        match rejection {
            Some(r) => login_rejection(outcome) == Some(r@),
            None => login_rejection(outcome) is None,
        },
{
    match classify_auth_outcome(outcome) {
        Some(kind) => Some(
            Rejection { kind, status: status_code(kind), body: failure_body(LOGIN_FAILED) },
        ),
        None => None,
    }
}

} // verus!
