//! Read models of projects: their lead contributors, their members, and their
//! GitHub description.
use crate::ids::{ContributorAccountAddress, GithubRepoId, U256};
use crate::parsed_url::ParsedUrl;
use vstd::prelude::*;

verus! {

/// A lead contributor of a project.
#[derive(Debug, Clone, Copy, PartialEq, Eq, Structural)]
pub struct LeadContributor {
    project_id: GithubRepoId,
    account: ContributorAccountAddress,
}

impl LeadContributor {
    pub closed spec fn project_of(self) -> GithubRepoId {
        self.project_id
    }

    pub closed spec fn account_of(self) -> ContributorAccountAddress {
        self.account
    }

    pub fn new(project_id: GithubRepoId, account: ContributorAccountAddress) -> (r: LeadContributor)
        ensures
            r.project_of() == project_id,
            r.account_of() == account,
    {
        LeadContributor { project_id, account }
    }

    pub fn project_id(&self) -> (r: &GithubRepoId)
        ensures
            *r == self.project_of(),
    {
        &self.project_id
    }

    /// Two lead contributors are equal exactly when their projects and accounts are.
    pub proof fn lemma_eq(x: LeadContributor, y: LeadContributor)
        ensures
            x == y <==> (x.project_of() == y.project_of() && x.account_of() == y.account_of()),
    {
    }

    pub fn account(&self) -> (r: &ContributorAccountAddress)
        ensures
            *r == self.account_of(),
    {
        &self.account
    }
}

impl Default for LeadContributor {
    /// The lead contributor of project zero with the zero account:
    /// `LeadContributor::new(0, Default::default())`.
    fn default() -> (r: LeadContributor)
        ensures
            r.project_of() == 0,
            r.account_of() == ContributorAccountAddress(U256 { high: 0, low: 0 }),
    {
        LeadContributor::new(0, ContributorAccountAddress::default())
    }
}

/// A member of a project.
#[derive(Debug, Clone, Copy, PartialEq, Eq, Structural)]
pub struct Member {
    project_id: GithubRepoId,
    contributor_account_address: ContributorAccountAddress,
}

impl Member {
    pub closed spec fn project_of(self) -> GithubRepoId {
        self.project_id
    }

    pub closed spec fn address_of(self) -> ContributorAccountAddress {
        self.contributor_account_address
    }

    pub fn new(project_id: GithubRepoId, contributor_account_address: ContributorAccountAddress) -> (r: Member)
        ensures
            r.project_of() == project_id,
            r.address_of() == contributor_account_address,
    {
        Member { project_id, contributor_account_address }
    }

    pub fn project_id(&self) -> (r: &GithubRepoId)
        ensures
            *r == self.project_of(),
    {
        &self.project_id
    }

    pub fn contributor_account_address(&self) -> (r: &ContributorAccountAddress)
        ensures
            *r == self.address_of(),
    {
        &self.contributor_account_address
    }

    /// Two members are equal exactly when their projects and addresses are.
    pub proof fn lemma_eq(x: Member, y: Member)
        ensures
            x == y <==> (x.project_of() == y.project_of() && x.address_of() == y.address_of()),
    {
    }
}

impl Default for Member {
    /// The member of project zero with the zero address: `Member::new(0, Default::default())`.
    fn default() -> (r: Member)
        ensures
            r.project_of() == 0,
            r.address_of() == ContributorAccountAddress(U256 { high: 0, low: 0 }),
    {
        Member::new(0, ContributorAccountAddress::default())
    }
}

/// A project as its contributions show it: its GitHub repository and how to present it.
#[derive(Debug, Default)]
pub struct Project {
    pub id: GithubRepoId,
    pub owner: String,
    pub name: String,
    pub url: Option<ParsedUrl>,
    pub description: Option<String>,
    pub logo_url: Option<ParsedUrl>,
}

} // verus!
