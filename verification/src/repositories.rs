//! The repositories of projects and users, and the use cases and projectors that
//! write through them.
use crate::ids::{GithubRepoId, GithubUserId};
use crate::projections::Project;
use std::sync::Arc;
use vstd::prelude::*;

verus! {

/// The id of a project in the repositories: its GitHub repository id.
pub type ProjectId = GithubRepoId;

/// An error of the project repository; where the infrastructure gave a cause, its message
/// is kept.
#[derive(Debug, Clone, PartialEq, Eq)]
pub enum ProjectRepositoryError {
    /// Project not found.
    NotFound,
    /// Project already exists.
    AlreadyExist(String),
    /// Project contains invalid members.
    InvalidEntity(String),
    /// Something happened at the infrastructure level.
    Infrastructure(String),
}

impl ProjectRepositoryError {
    /// The error's message.
    pub open spec fn message(self) -> Seq<char> {
        match self {
            ProjectRepositoryError::NotFound => "Project not found"@,
            ProjectRepositoryError::AlreadyExist(_) => "Project already exist"@,
            ProjectRepositoryError::InvalidEntity(_) => "Project contains invalid members"@,
            ProjectRepositoryError::Infrastructure(_) => "Something happend at the infrastructure level"@,
        }
    }

    pub fn to_string(&self) -> (r: String)
        ensures
            r@ == self.message(),
    {
        match self {
            ProjectRepositoryError::NotFound => String::from_str("Project not found"),
            ProjectRepositoryError::AlreadyExist(_) => String::from_str("Project already exist"),
            ProjectRepositoryError::InvalidEntity(_) => String::from_str("Project contains invalid members"),
            ProjectRepositoryError::Infrastructure(_) => String::from_str("Something happend at the infrastructure level"),
        }
    }
}

/// Where projects are stored.
pub trait ProjectRepository {
    /// Whether `outcome` is a possible outcome of creating the project `id`. The relation is
    /// each implementation's own (by default it admits every outcome); the library claims
    /// nothing of it, and uses it only to name what a call returned for the id it was given.
    closed spec fn creates(&self, id: ProjectId, outcome: Result<ProjectId, ProjectRepositoryError>) -> bool {
        true
    }

    fn create(&self, id: ProjectId) -> (r: Result<ProjectId, ProjectRepositoryError>)
        ensures
            self.creates(id, r),
    ;

    fn find(&self, id: ProjectId) -> Result<Project, ProjectRepositoryError>;
}

/// An error of the user repository.
#[derive(Debug, Clone, PartialEq, Eq)]
pub enum UserRepositoryError {
    /// User not found.
    NotFound,
    /// Something happened at the infrastructure level.
    Infrastructure(String),
}

impl UserRepositoryError {
    /// The error's message.
    pub open spec fn message(self) -> Seq<char> {
        match self {
            UserRepositoryError::NotFound => "User not found"@,
            UserRepositoryError::Infrastructure(_) => "Something happend at the infrastructure level"@,
        }
    }

    pub fn to_string(&self) -> (r: String)
        ensures
            r@ == self.message(),
    {
        match self {
            UserRepositoryError::NotFound => String::from_str("User not found"),
            UserRepositoryError::Infrastructure(_) => String::from_str("Something happend at the infrastructure level"),
        }
    }
}

/// Where users are stored.
pub trait UserRepository {
    fn get_user_by_id(&self, user_id: GithubUserId) -> Result<(), UserRepositoryError>;
}

/// The outcome of a project's creation: success, whatever id the repository gave, or the
/// repository's error as it is.
pub open spec fn created_result(created: Result<ProjectId, ProjectRepositoryError>) -> Result<(), ProjectRepositoryError> {
    match created {
        Ok(_) => Ok(()),
        Err(e) => Err(e),
    }
}

/// The outcome of a project's creation: success, whatever id the repository gave, or the
/// repository's error as it is.
pub fn creation_outcome(created: Result<ProjectId, ProjectRepositoryError>) -> (r: Result<(), ProjectRepositoryError>)
    ensures
        r == created_result(created),
        created is Ok ==> r is Ok,
        created matches Err(e) ==> r == Err::<(), ProjectRepositoryError>(e),
{
    match created {
        Ok(_) => Ok(()),
        Err(e) => Err(e),
    }
}

/// A project's creation succeeds exactly when the repository created it, whatever id it gave,
/// and a repository failure is reported as it is: no error is turned into a success or into
/// another error.
pub proof fn lemma_creation_outcome(id: ProjectId, e: ProjectRepositoryError)
    ensures
        created_result(Ok(id)) == Ok::<(), ProjectRepositoryError>(()),
        created_result(Err(e)) == Err::<(), ProjectRepositoryError>(e),
{
}

/// Keeps the project repository up to date with project events.
pub struct ProjectProjector<R> {
    project_repository: Arc<R>,
}

impl<R> ProjectProjector<R> {
    pub closed spec fn repository_of(self) -> Arc<R> {
        self.project_repository
    }

    pub fn new(project_repository: Arc<R>) -> (r: ProjectProjector<R>)
        ensures
            r.repository_of() == project_repository,
    {
        ProjectProjector { project_repository }
    }
}

impl<R: ProjectRepository> ProjectProjector<R> {
    /// Records a created project by creating it in the repository.
    pub fn on_create(&self, project_id: ProjectId) -> (r: Result<(), ProjectRepositoryError>)
        ensures
            exists|created: Result<ProjectId, ProjectRepositoryError>|
                #[trigger] (*self.repository_of()).creates(project_id, created) && r == created_result(created)
                    && (r is Ok <==> created is Ok) && (created matches Err(e) ==> r
                    == Err::<(), ProjectRepositoryError>(e)),
    {
        let created = self.project_repository.create(project_id);
        let r = creation_outcome(created);
        assert((*self.repository_of()).creates(project_id, created));
        r
    }
}

/// The use case of requesting a payment.
pub struct RequestPayment<R> {
    user_repository: Arc<R>,
}

impl<R> RequestPayment<R> {
    pub closed spec fn repository_of(self) -> Arc<R> {
        self.user_repository
    }

    pub fn new(user_repository: Arc<R>) -> (r: RequestPayment<R>)
        ensures
            r.repository_of() == user_repository,
    {
        RequestPayment { user_repository }
    }
}

} // verus!
