//! Who is calling the API.
use crate::ids::{GithubUserId, UserId};
use vstd::prelude::*;

verus! {

/// The authenticated caller of the API.
#[derive(Debug, Clone, Copy, PartialEq, Eq, Structural)]
pub struct CallerInfo {
    user_id: UserId,
    github_user_id: GithubUserId,
}

/// Why the API refuses a request.
#[derive(Debug, Clone, PartialEq, Eq)]
pub enum ContextError {
    /// The caller is not authenticated; the message says why.
    NotAuthenticated(String),
}

impl CallerInfo {
    pub closed spec fn user_of(self) -> UserId {
        self.user_id
    }

    pub closed spec fn github_user_of(self) -> GithubUserId {
        self.github_user_id
    }

    pub fn user_id(&self) -> (r: &UserId)
        ensures
            *r == self.user_of(),
    {
        &self.user_id
    }

    pub fn github_user_id(&self) -> (r: &GithubUserId)
        ensures
            *r == self.github_user_of(),
    {
        &self.github_user_id
    }
}

/// The caller, from what the request's credentials say of its user id and its GitHub user
/// id; the first that is missing makes the caller unauthenticated.
pub fn caller_info(user_id: Result<UserId, String>, github_user_id: Result<GithubUserId, String>) -> (r: Result<CallerInfo, ContextError>)
    ensures
        match (user_id, github_user_id) {
            (Err(msg), _) => r == Err::<CallerInfo, ContextError>(ContextError::NotAuthenticated(msg)),
            (Ok(_), Err(msg)) => r == Err::<CallerInfo, ContextError>(ContextError::NotAuthenticated(msg)),
            (Ok(u), Ok(g)) => r matches Ok(c) && c.user_of() == u && c.github_user_of() == g,
        },
{
    let user_id = match user_id {
        Ok(u) => u,
        Err(msg) => return Err(ContextError::NotAuthenticated(msg)),
    };
    let github_user_id = match github_user_id {
        Ok(g) => g,
        Err(msg) => return Err(ContextError::NotAuthenticated(msg)),
    };
    Ok(CallerInfo { user_id, github_user_id })
}

} // verus!
