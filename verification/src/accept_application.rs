//! Accepting a contributor's application to a contribution: the application service
//! accepts it, the contribution is looked up, and the contributor is assigned on chain.
use crate::ids::{ContributionId, ContributorId};
use crate::uuid::Uuid;
use std::sync::Arc;
use vstd::prelude::*;
use vstd::std_specs::convert::FromSpecImpl;

verus! {

/// The id of an application.
#[derive(Debug, Clone, Copy, Default, PartialEq, Eq, Structural)]
pub struct ApplicationId(pub Uuid);

/// An application of a contributor to a contribution.
#[derive(Debug, Clone, Copy, PartialEq, Eq, Structural)]
pub struct Application {
    contribution_id: ContributionId,
    contributor_id: ContributorId,
}

impl Application {
    pub closed spec fn contribution_of(self) -> ContributionId {
        self.contribution_id
    }

    pub closed spec fn contributor_of(self) -> ContributorId {
        self.contributor_id
    }

    pub fn new(contribution_id: ContributionId, contributor_id: ContributorId) -> (r: Application)
        ensures
            r.contribution_of() == contribution_id,
            r.contributor_of() == contributor_id,
    {
        Application { contribution_id, contributor_id }
    }

    pub fn contribution_id(&self) -> (r: &ContributionId)
        ensures
            *r == self.contribution_of(),
    {
        &self.contribution_id
    }

    pub fn contributor_id(&self) -> (r: &ContributorId)
        ensures
            *r == self.contributor_of(),
    {
        &self.contributor_id
    }
}

/// A contribution, with the id under which it is known on chain.
#[derive(Debug, Clone, Copy, PartialEq, Eq, Structural)]
pub struct Contribution {
    pub id: ContributionId,
    pub onchain_id: ContributionId,
}

/// An error of the application repository.
#[derive(Debug, Clone, PartialEq, Eq)]
pub enum ApplicationRepositoryError {
    NotFound,
    Infrastructure(String),
}

/// An error of the application service.
#[derive(Debug, Clone, PartialEq, Eq)]
pub enum ApplicationServiceError {
    NotFound,
    Infrastructure(String),
}

/// An error of the contribution repository.
#[derive(Debug, Clone, PartialEq, Eq)]
pub enum ContributionRepositoryError {
    NotFound,
    Infrastructure(String),
}

/// An error of the contributor repository.
#[derive(Debug, Clone, PartialEq, Eq)]
pub enum ContributorRepositoryError {
    NotFound,
    Infrastructure(String),
}

/// An error of the on-chain contribution service.
#[derive(Debug, Clone, PartialEq, Eq)]
pub enum ContributionServiceError {
    Infrastructure(String),
}

/// An error of the contributions domain.
#[derive(Debug, Clone, PartialEq, Eq)]
pub enum DomainError {
    ApplicationRepository(ApplicationRepositoryError),
    ContributionRepository(ContributionRepositoryError),
    ContributorRepository(ContributorRepositoryError),
    ContributionService(ContributionServiceError),
    ApplicationService(ApplicationServiceError),
    /// A lock could not be taken.
    Lock,
}

impl DomainError {
    /// The error's message.
    pub open spec fn message(self) -> Seq<char> {
        match self {
            DomainError::ApplicationRepository(_) => "Application repository error"@,
            DomainError::ContributionRepository(_) => "Contribution repository error"@,
            DomainError::ContributorRepository(_) => "Contributor repository error"@,
            DomainError::ContributionService(_) => "Contribution service error"@,
            DomainError::ApplicationService(_) => "Application service error"@,
            DomainError::Lock => "Failed to take control of a lock"@,
        }
    }

    pub fn to_string(&self) -> (r: String)
        ensures
            r@ == self.message(),
    {
        match self {
            DomainError::ApplicationRepository(_) => String::from_str("Application repository error"),
            DomainError::ContributionRepository(_) => String::from_str("Contribution repository error"),
            DomainError::ContributorRepository(_) => String::from_str("Contributor repository error"),
            DomainError::ContributionService(_) => String::from_str("Contribution service error"),
            DomainError::ApplicationService(_) => String::from_str("Application service error"),
            DomainError::Lock => String::from_str("Failed to take control of a lock"),
        }
    }
}

impl From<ApplicationRepositoryError> for DomainError {
    fn from(e: ApplicationRepositoryError) -> (r: DomainError) {
        DomainError::ApplicationRepository(e)
    }
}

impl FromSpecImpl<ApplicationRepositoryError> for DomainError {
    open spec fn obeys_from_spec() -> bool {
        true
    }

    open spec fn from_spec(e: ApplicationRepositoryError) -> DomainError {
        DomainError::ApplicationRepository(e)
    }
}

impl From<ContributionRepositoryError> for DomainError {
    fn from(e: ContributionRepositoryError) -> (r: DomainError) {
        DomainError::ContributionRepository(e)
    }
}

impl FromSpecImpl<ContributionRepositoryError> for DomainError {
    open spec fn obeys_from_spec() -> bool {
        true
    }

    open spec fn from_spec(e: ContributionRepositoryError) -> DomainError {
        DomainError::ContributionRepository(e)
    }
}

impl From<ContributorRepositoryError> for DomainError {
    fn from(e: ContributorRepositoryError) -> (r: DomainError) {
        DomainError::ContributorRepository(e)
    }
}

impl FromSpecImpl<ContributorRepositoryError> for DomainError {
    open spec fn obeys_from_spec() -> bool {
        true
    }

    open spec fn from_spec(e: ContributorRepositoryError) -> DomainError {
        DomainError::ContributorRepository(e)
    }
}

impl From<ContributionServiceError> for DomainError {
    fn from(e: ContributionServiceError) -> (r: DomainError) {
        DomainError::ContributionService(e)
    }
}

impl FromSpecImpl<ContributionServiceError> for DomainError {
    open spec fn obeys_from_spec() -> bool {
        true
    }

    open spec fn from_spec(e: ContributionServiceError) -> DomainError {
        DomainError::ContributionService(e)
    }
}

impl From<ApplicationServiceError> for DomainError {
    fn from(e: ApplicationServiceError) -> (r: DomainError) {
        DomainError::ApplicationService(e)
    }
}

impl FromSpecImpl<ApplicationServiceError> for DomainError {
    open spec fn obeys_from_spec() -> bool {
        true
    }

    open spec fn from_spec(e: ApplicationServiceError) -> DomainError {
        DomainError::ApplicationService(e)
    }
}

/// The service that accepts applications.
pub trait ApplicationService {
    /// Whether `outcome` is a possible outcome of accepting the application `application_id`.
    /// The relation is each implementation's own (by default it admits every outcome); the
    /// library claims nothing of it, and uses it only to name what a call returned for the
    /// arguments it was given.
    closed spec fn accepts(&self, application_id: ApplicationId, outcome: Result<Application, ApplicationServiceError>) -> bool {
        true
    }

    fn accept_application(&self, application_id: &ApplicationId) -> (r: Result<Application, ApplicationServiceError>)
        ensures
            self.accepts(*application_id, r),
    ;
}

/// The repository of contributions.
pub trait ContributionRepository {
    /// Whether `outcome` is a possible outcome of looking the contribution `contribution_id`
    /// up; the relation is each implementation's own (by default it admits every outcome).
    closed spec fn finds(&self, contribution_id: ContributionId, outcome: Result<Option<Contribution>, ContributionRepositoryError>) -> bool {
        true
    }

    fn find_by_id(&self, contribution_id: &ContributionId) -> (r: Result<Option<Contribution>, ContributionRepositoryError>)
        ensures
            self.finds(*contribution_id, r),
    ;
}

/// The service that records contributions on chain.
pub trait OnchainContributionService {
    /// Whether `outcome` is a possible outcome of assigning `contributor_id` to the on-chain
    /// contribution `contribution_id`; the relation is each implementation's own (by default it
    /// admits every outcome).
    closed spec fn assigns(&self, contribution_id: ContributionId, contributor_id: ContributorId, outcome: Result<(), ContributionServiceError>) -> bool {
        true
    }

    fn assign_contributor(&self, contribution_id: ContributionId, contributor_id: ContributorId) -> (r: Result<(), ContributionServiceError>)
        ensures
            self.assigns(contribution_id, contributor_id, r),
    ;
}

/// The use case of accepting an application.
pub trait Usecase {
    fn accept_application(&self, application_id: &ApplicationId) -> Result<(), DomainError>;
}

/// The contribution that a lookup found, or the domain error for its absence or failure.
pub open spec fn found_result(found: Result<Option<Contribution>, ContributionRepositoryError>) -> Result<Contribution, DomainError> {
    match found {
        Ok(Some(c)) => Ok(c),
        Ok(None) => Err(DomainError::ContributionRepository(ContributionRepositoryError::NotFound)),
        Err(e) => Err(DomainError::ContributionRepository(e)),
    }
}

/// The contribution that a lookup found, or the domain error for its absence or failure.
pub fn found_contribution(found: Result<Option<Contribution>, ContributionRepositoryError>) -> (r: Result<Contribution, DomainError>)
    ensures
        r == found_result(found),
{
    match found {
        Ok(Some(c)) => Ok(c),
        Ok(None) => Err(DomainError::ContributionRepository(ContributionRepositoryError::NotFound)),
        Err(e) => Err(DomainError::ContributionRepository(e)),
    }
}

/// The application accepted by the service, or the domain error for the service's failure.
pub open spec fn accepted_result(accepted: Result<Application, ApplicationServiceError>) -> Result<Application, DomainError> {
    match accepted {
        Ok(a) => Ok(a),
        Err(e) => Err(DomainError::ApplicationService(e)),
    }
}

/// The application accepted by the service, or the domain error for the service's failure.
pub fn accepted_application(accepted: Result<Application, ApplicationServiceError>) -> (r: Result<Application, DomainError>)
    ensures
        r == accepted_result(accepted),
{
    match accepted {
        Ok(a) => Ok(a),
        Err(e) => Err(DomainError::ApplicationService(e)),
    }
}

/// What is assigned on chain for an accepted application and its contribution: the
/// contribution's on-chain id and the application's contributor.
pub fn assignment(application: &Application, contribution: &Contribution) -> (r: (ContributionId, ContributorId))
    ensures
        r == (contribution.onchain_id, application.contributor_of()),
{
    (contribution.onchain_id, *application.contributor_id())
}

/// The outcome of the on-chain assignment, with its error as a domain error.
pub open spec fn assigned_result(assigned: Result<(), ContributionServiceError>) -> Result<(), DomainError> {
    match assigned {
        Ok(()) => Ok(()),
        Err(e) => Err(DomainError::ContributionService(e)),
    }
}

/// The outcome of the on-chain assignment, with its error as a domain error.
pub fn assignment_outcome(assigned: Result<(), ContributionServiceError>) -> (r: Result<(), DomainError>)
    ensures
        r == assigned_result(assigned),
{
    match assigned {
        Ok(()) => Ok(()),
        Err(e) => Err(DomainError::ContributionService(e)),
    }
}

/// Whether `r` is the result of accepting `application_id` with the three services: the
/// application service's outcome for `application_id`, on an accepted application the
/// repository's outcome for its contribution id, on a found contribution the on-chain
/// outcome for the contribution's on-chain id and the application's contributor; the first
/// failure is the result, as its domain error.
pub open spec fn accept_result<O: OnchainContributionService, C: ContributionRepository, A: ApplicationService>(
    onchain: O,
    contributions: C,
    applications: A,
    application_id: ApplicationId,
    r: Result<(), DomainError>,
) -> bool {
    exists|accepted: Result<Application, ApplicationServiceError>|
        #[trigger] applications.accepts(application_id, accepted) && match accepted_result(accepted) {
            Err(e) => r == Err::<(), DomainError>(e),
            Ok(a) => exists|found: Result<Option<Contribution>, ContributionRepositoryError>|
                #[trigger] contributions.finds(a.contribution_of(), found) && match found_result(found) {
                    Err(e) => r == Err::<(), DomainError>(e),
                    Ok(c) => exists|assigned: Result<(), ContributionServiceError>|
                        #[trigger] onchain.assigns(c.onchain_id, a.contributor_of(), assigned) && r
                            == assigned_result(assigned),
                },
        }
}

/// Accepts applications with the given services and repository.
pub struct AcceptApplication<O, C, A> {
    onchain_contribution_service: Arc<O>,
    contribution_repository: Arc<C>,
    application_repository: Arc<A>,
}

impl<O, C, A> AcceptApplication<O, C, A> {
    pub closed spec fn onchain_service_of(self) -> Arc<O> {
        self.onchain_contribution_service
    }

    pub closed spec fn contribution_repository_of(self) -> Arc<C> {
        self.contribution_repository
    }

    pub closed spec fn application_repository_of(self) -> Arc<A> {
        self.application_repository
    }

    pub fn new(
        onchain_contribution_service: Arc<O>,
        contribution_repository: Arc<C>,
        application_repository: Arc<A>,
    ) -> (r: AcceptApplication<O, C, A>)
        ensures
            r.onchain_service_of() == onchain_contribution_service,
            r.contribution_repository_of() == contribution_repository,
            r.application_repository_of() == application_repository,
    {
        AcceptApplication { onchain_contribution_service, contribution_repository, application_repository }
    }
}

impl<O: OnchainContributionService, C: ContributionRepository, A: ApplicationService> Usecase for AcceptApplication<O, C, A> {
    /// Accepts the application, looks its contribution up, and assigns its contributor to
    /// the contribution on chain. Each step's failure is reported as the domain error of the
    /// service or repository that failed, and stops the use case.
    fn accept_application(&self, application_id: &ApplicationId) -> (r: Result<(), DomainError>)
        ensures
            accept_result(
                *self.onchain_service_of(),
                *self.contribution_repository_of(),
                *self.application_repository_of(),
                *application_id,
                r,
            ),
    {
        let accepted = self.application_repository.accept_application(application_id);
        let application = match accepted_application(accepted) {
            Ok(a) => a,
            Err(e) => return Err(e),
        };
        let found = self.contribution_repository.find_by_id(application.contribution_id());
        let contribution = match found_contribution(found) {
            Ok(c) => c,
            Err(e) => return Err(e),
        };
        let (onchain_id, contributor_id) = assignment(&application, &contribution);
        let assigned = self.onchain_contribution_service.assign_contributor(onchain_id, contributor_id);
        assignment_outcome(assigned)
    }
}

} // verus!
