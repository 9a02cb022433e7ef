//! Identifiers shared across the marketplace.
use crate::uuid::Uuid;
use vstd::prelude::*;
use vstd::std_specs::convert::FromSpecImpl;

verus! {

/// A GitHub repository id, which also identifies a project.
pub type GithubRepoId = u64;

/// A GitHub issue number.
pub type GithubIssueNumber = u64;

/// A GitHub user id.
pub type GithubUserId = u64;

/// A 256-bit unsigned integer, as its high and low 128 bits.
#[derive(Debug, Clone, Copy, PartialEq, Eq, Structural)]
pub struct U256 {
    pub high: u128,
    pub low: u128,
}

impl Default for U256 {
    /// Zero.
    fn default() -> (r: U256)
        ensures
            r == (U256 { high: 0, low: 0 }),
    {
        U256 { high: 0, low: 0 }
    }
}

impl U256 {
    /// The number `v`.
    pub fn from_u128(v: u128) -> (r: U256)
        ensures
            r == (U256 { high: 0, low: v }),
    {
        U256 { high: 0, low: v }
    }

    /// The number as a mathematical integer.
    pub open spec fn value(self) -> int {
        self.high * 0x1_0000_0000_0000_0000_0000_0000_0000_0000int + self.low
    }
}

/// The id of a contribution, a 256-bit number written as a `0x`-prefixed hex string.
#[derive(Debug, Clone, Copy, PartialEq, Eq, Structural)]
pub struct ContributionId(pub U256);

impl Default for ContributionId {
    /// The id zero.
    fn default() -> (r: ContributionId)
        ensures
            r == ContributionId(U256 { high: 0, low: 0 }),
    {
        ContributionId(U256::default())
    }
}

/// The on-chain account address of a contributor.
#[derive(Debug, Clone, Copy, PartialEq, Eq, Structural)]
pub struct ContributorAccountAddress(pub U256);

impl Default for ContributorAccountAddress {
    /// The id zero.
    fn default() -> (r: ContributorAccountAddress)
        ensures
            r == ContributorAccountAddress(U256 { high: 0, low: 0 }),
    {
        ContributorAccountAddress(U256::default())
    }
}

/// The id of a contributor.
#[derive(Debug, Clone, Copy, PartialEq, Eq, Structural)]
pub struct ContributorId(pub U256);

impl Default for ContributorId {
    /// The id zero.
    fn default() -> (r: ContributorId)
        ensures
            r == ContributorId(U256 { high: 0, low: 0 }),
    {
        ContributorId(U256::default())
    }
}

impl From<u128> for ContributionId {
    fn from(id: u128) -> (r: ContributionId) {
        ContributionId(U256::from_u128(id))
    }
}

impl FromSpecImpl<u128> for ContributionId {
    open spec fn obeys_from_spec() -> bool {
        true
    }

    open spec fn from_spec(id: u128) -> ContributionId {
        ContributionId(U256 { high: 0, low: id })
    }
}

impl From<u128> for ContributorAccountAddress {
    fn from(id: u128) -> (r: ContributorAccountAddress) {
        ContributorAccountAddress(U256::from_u128(id))
    }
}

impl FromSpecImpl<u128> for ContributorAccountAddress {
    open spec fn obeys_from_spec() -> bool {
        true
    }

    open spec fn from_spec(id: u128) -> ContributorAccountAddress {
        ContributorAccountAddress(U256 { high: 0, low: id })
    }
}

impl From<u128> for ContributorId {
    fn from(id: u128) -> (r: ContributorId) {
        ContributorId(U256::from_u128(id))
    }
}

impl FromSpecImpl<u128> for ContributorId {
    open spec fn obeys_from_spec() -> bool {
        true
    }

    open spec fn from_spec(id: u128) -> ContributorId {
        ContributorId(U256 { high: 0, low: id })
    }
}

/// The id of a user of the platform.
#[derive(Debug, Clone, Copy, Default, PartialEq, Eq, Structural)]
pub struct UserId(pub Uuid);

} // verus!
