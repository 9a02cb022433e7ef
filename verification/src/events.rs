//! The events that the marketplace's aggregates emit.
use crate::amount::Amount;
use crate::ids::{ContributionId, ContributorAccountAddress, GithubIssueNumber, GithubRepoId};
use crate::uuid::{hyphenated, is_random_v4, new_v4, uuid_to_string, Uuid};
use vstd::prelude::*;

verus! {

/// What happened to a project.
#[derive(Debug, Clone, PartialEq, Eq)]
pub enum ProjectEvent {
    Created { project_id: Uuid },
    PaymentRequested {
        project_id: Uuid,
        id: Uuid,
        recipient_id: Uuid,
        requestor_id: Uuid,
        amount_in_usd: u32,
        reason: String,
    },
}

/// What happened to a contribution.
#[derive(Debug, Clone, Copy, PartialEq, Eq, Structural)]
pub enum ContributionEvent {
    Created { id: ContributionId, project_id: GithubRepoId, issue_number: GithubIssueNumber, gate: u8 },
    Assigned { id: ContributionId, contributor_account_address: ContributorAccountAddress },
    Unassigned { id: ContributionId },
    Validated { id: ContributionId },
    GateChanged { id: ContributionId, gate: u8 },
}

/// A blockchain network.
#[derive(Debug, Clone, Copy, PartialEq, Eq, Structural)]
pub enum BlockchainNetwork {
    Ethereum,
}

/// The proof that a payment was made.
#[derive(Debug, Clone, PartialEq, Eq)]
pub enum PaymentReceipt {
    OnChainPayment { network: BlockchainNetwork, recipient_address: String, transaction_hash: String },
}

/// The id of a payment request.
#[derive(Debug, Clone, Copy, Default, PartialEq, Eq, Structural)]
pub struct PaymentId(pub Uuid);

impl PaymentId {
    /// A fresh random id.
    pub fn new() -> (r: PaymentId)
        ensures
            is_random_v4(r.0),
    {
        PaymentId(new_v4())
    }

    /// The id in its hyphenated form.
    pub fn to_string(&self) -> (r: String)
        ensures
            r@ == hyphenated(self.0),
    {
        uuid_to_string(self.0)
    }
}

/// What happened to a payment.
#[derive(Debug, Clone, PartialEq, Eq)]
pub enum PaymentEvent {
    Processed { id: PaymentId, receipt_id: Uuid, amount: Amount, receipt: PaymentReceipt },
}

/// An event of one of the marketplace's aggregates.
#[derive(Debug, Clone, PartialEq, Eq)]
pub enum Event {
    Project(ProjectEvent),
    Contributor(ContributionEvent),
    Payment(PaymentEvent),
}

/// The name under which the event store files an event's aggregate.
pub open spec fn aggregate_name_of(event: Event) -> Seq<char> {
    match event {
        Event::Project(_) => "PROJECT"@,
        Event::Contributor(_) => "CONTRIBUTOR"@,
        Event::Payment(_) => "PAYMENT"@,
    }
}

impl Event {
    /// The name under which the event store files this event's aggregate.
    pub fn aggregate_name(&self) -> (r: &'static str)
        ensures
            r@ == aggregate_name_of(*self),
            *self is Project ==> r@ == "PROJECT"@,
            *self is Contributor ==> r@ == "CONTRIBUTOR"@,
            *self is Payment ==> r@ == "PAYMENT"@,
    {
        match self {
            Event::Project(_) => "PROJECT",
            Event::Contributor(_) => "CONTRIBUTOR",
            Event::Payment(_) => "PAYMENT",
        }
    }
}

/// Each aggregate is filed under its own name: `PROJECT` for project events, `CONTRIBUTOR`
/// for contribution events and `PAYMENT` for payment events, so events of two different
/// aggregates never share a name.
pub proof fn lemma_aggregate_names(a: Event, b: Event)
    ensures
        a is Project ==> aggregate_name_of(a) == "PROJECT"@,
        a is Contributor ==> aggregate_name_of(a) == "CONTRIBUTOR"@,
        a is Payment ==> aggregate_name_of(a) == "PAYMENT"@,
        (a is Project) != (b is Project) || (a is Contributor) != (b is Contributor) ==> aggregate_name_of(a)
            != aggregate_name_of(b),
{
    reveal_strlit("PROJECT");
    reveal_strlit("CONTRIBUTOR");
    reveal_strlit("PAYMENT");
    if aggregate_name_of(a) == aggregate_name_of(b) {
        assert(aggregate_name_of(a)[1] == aggregate_name_of(b)[1]);
        assert(aggregate_name_of(a).len() == aggregate_name_of(b).len());
    }
}

} // verus!
