//! The parties and payments a direct-debit document is made from.
//!
//! The identifiers are distinct types so that a name cannot stand where an IBAN
//! is expected; their text is taken as given.

use vstd::prelude::*;

use crate::calendar::Date;

verus! {

/// Identifies one document; chosen by the caller.
pub type MessageID = String;

/// The name of a party.
#[derive(Clone, Debug)]
pub struct Name {
    pub value: String,
}

/// An international bank account number.
#[derive(Clone, Debug)]
pub struct IBAN {
    pub iban: String,
}

/// A SEPA creditor identifier.
#[derive(Clone, Debug)]
pub struct CreditorID {
    pub value: String,
}

/// Identifies a mandate between a creditor and a debitor.
#[derive(Clone, Debug)]
pub struct MandateID {
    pub value: String,
}

/// The reason given to the debitor for a collection.
#[derive(Clone, Debug)]
pub struct Purpose {
    pub value: String,
}

/// The standing authorisation a debitor gave the creditor.
#[derive(Clone, Debug)]
pub struct Mandate {
    pub id: MandateID,
    pub date_of_signature: Date,
}

/// The party whose account is debited.
#[derive(Clone, Debug)]
pub struct Debitor {
    pub name: Name,
    pub iban: IBAN,
    pub mandate: Mandate,
}

/// The party who collects; one per document.
#[derive(Clone, Debug)]
pub struct Creditor {
    pub name: Name,
    pub id: CreditorID,
    pub iban: IBAN,
}

/// One direct-debit line item.
#[derive(Clone, Debug)]
pub struct Transaction {
    pub debitor: Debitor,
    /// The amount to collect, in euro cents.
    pub value: u64,
    pub purpose: Purpose,
}

impl Transaction {
    pub open spec fn wf(&self) -> bool {
        self.debitor.mandate.date_of_signature.wf()
    }
}

/// Whether every transaction of `ts` is well formed.
pub open spec fn all_wf(ts: Seq<Transaction>) -> bool {
    forall|i: int| 0 <= i < ts.len() ==> (#[trigger] ts[i]).wf()
}

/// The sum of the amounts of `ts`, in cents.
pub open spec fn total_cents(ts: Seq<Transaction>) -> nat
    decreases ts.len(),
{
    if ts.len() == 0 {
        0
    } else {
        total_cents(ts.drop_last()) + ts.last().value as nat
    }
}

} // verus!
