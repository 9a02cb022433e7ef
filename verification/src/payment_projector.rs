//! The projector that records processed payments.
use crate::decimal::DecimalNumber;
use crate::events::{Event, PaymentEvent, PaymentReceipt};
use crate::uuid::Uuid;
use vstd::prelude::*;

verus! {

/// A processed payment as it is recorded: the receipt's id, the amount and its currency's
/// code, the receipt, and the id of the payment request it settles.
#[derive(Debug)]
pub struct PaymentRecord {
    pub receipt_id: Uuid,
    pub amount: DecimalNumber,
    pub currency_code: String,
    pub receipt: PaymentReceipt,
    pub request_id: Uuid,
}

/// Records processed payments in a payment repository.
pub struct Projector<R> {
    repository: R,
}

impl<R> Projector<R> {
    pub closed spec fn repository_of(self) -> R {
        self.repository
    }

    pub fn new(repository: R) -> (r: Projector<R>)
        ensures
            r.repository_of() == repository,
    {
        Projector { repository }
    }

    pub fn repository(&self) -> (r: &R)
        ensures
            *r == self.repository_of(),
    {
        &self.repository
    }

    /// The payment to record for `event`: one for a processed payment, none for any other
    /// event.
    pub fn payment_record(&self, event: Event) -> (r: Option<PaymentRecord>)
        ensures
            match event {
                Event::Payment(PaymentEvent::Processed { id, receipt_id, amount, receipt }) => {
                    &&& r matches Some(p)
                    &&& p.receipt_id == receipt_id
                    &&& p.amount == amount.amount_of()
                    &&& p.currency_code@ == amount.currency_of().code()
                    &&& p.receipt == receipt
                    &&& p.request_id == id.0
                },
                _ => r is None,
            },
    {
        match event {
            Event::Payment(PaymentEvent::Processed { id, receipt_id, amount, receipt }) => {
                Some(
                    PaymentRecord {
                        receipt_id,
                        amount: *amount.amount(),
                        currency_code: amount.currency().to_string(),
                        receipt,
                        request_id: id.0,
                    },
                )
            },
            _ => None,
        }
    }
}

} // verus!
