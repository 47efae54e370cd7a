//! The authentication decision.

use vstd::prelude::*;
use vstd::string::*;
use crate::digest::{constant_time_eq, salted, salted_digest};

verus! {

/// What a credential check reports.
#[derive(Clone, Copy, Debug, PartialEq, Eq, Structural)]
pub enum AuthOutcome {
    /// The candidate password matches the stored one.
    Authenticated,
    /// No such user, or the password does not match. The two are reported
    /// alike so that a caller cannot probe for usernames.
    InvalidCredentials,
    /// The store could not be asked.
    LookupFailed,
}

/// What the store answered when asked for a user's credentials.
pub enum CredentialLookup {
    /// The user exists, with this stored password and salt.
    Found { password: String, salt: String },
    /// No user has the username.
    Missing,
    /// The query itself failed.
    Failed,
}

/// Mathematical value of a [`CredentialLookup`].
pub enum CredentialLookupView {
    Found { password: Seq<char>, salt: Seq<char> },
    Missing,
    Failed,
}

impl View for CredentialLookup {
    type V = CredentialLookupView;

    open spec fn view(&self) -> CredentialLookupView {
        match self {
            CredentialLookup::Found { password, salt } => CredentialLookupView::Found {
                password: password@,
                salt: salt@,
            },
            CredentialLookup::Missing => CredentialLookupView::Missing,
            CredentialLookup::Failed => CredentialLookupView::Failed,
        }
    }
}

/// A candidate password is accepted exactly when its salted digest equals the
/// salted digest of the stored password.
pub open spec fn password_accepted(stored: Seq<char>, salt: Seq<char>, candidate: Seq<char>) -> bool {
    salted(stored, salt) == salted(candidate, salt)
}

/// The outcome owed for a lookup answer and a candidate password.
pub open spec fn auth_decision(lookup: CredentialLookupView, candidate: Seq<char>) -> AuthOutcome {
    match lookup {
        CredentialLookupView::Found { password, salt } => if password_accepted(
            password,
            salt,
            candidate,
        ) {
            AuthOutcome::Authenticated
        } else {
            AuthOutcome::InvalidCredentials
        },
        CredentialLookupView::Missing => AuthOutcome::InvalidCredentials,
        CredentialLookupView::Failed => AuthOutcome::LookupFailed,
    }
}

/// Whether `candidate` is accepted against a stored password and its salt.
pub fn password_matches(stored: &str, salt: &str, candidate: &str) -> (accepted: bool)
    ensures
        accepted == password_accepted(stored@, salt@, candidate@),
{
    let expected = salted_digest(stored, salt);
    let offered = salted_digest(candidate, salt);
    constant_time_eq(expected.as_str(), offered.as_str())
}

/// Decides a login from what the store answered.
pub fn verify_credentials(lookup: &CredentialLookup, candidate: &str) -> (outcome: AuthOutcome)
    ensures
        outcome == auth_decision(lookup@, candidate@),
{
    match lookup {
        CredentialLookup::Found { password, salt } => {
            if password_matches(password.as_str(), salt.as_str(), candidate) {
                AuthOutcome::Authenticated
            } else {
                AuthOutcome::InvalidCredentials
            }
        },
        CredentialLookup::Missing => AuthOutcome::InvalidCredentials,
        CredentialLookup::Failed => AuthOutcome::LookupFailed,
    }
}

/// The cookie that carries a session token to the client.
pub fn session_cookie(token: &str) -> (cookie: String)
    ensures
        cookie@ == "session-id:"@ + token@,
{
    String::from_str("session-id:").concat(token)
}

} // verus!
