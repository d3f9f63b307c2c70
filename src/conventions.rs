//! The fixed SEPA conventions this library writes into every document.

use vstd::prelude::*;

verus! {

/// Stands where no real value is available: the end-to-end id of each
/// transaction and the identification of both financial institutions.
pub const NOT_PROVIDED: &'static str = "NOTPROVIDED";

/// The payment-information id of the one payment block.
pub const PAYMENT_INFORMATION_ID: &'static str = "Fancy payment information ID";

/// The service-level code, and the proprietary scheme name of creditor identifiers.
pub const SEPA: &'static str = "SEPA";

/// The local-instrument code of the core direct-debit scheme.
pub const CORE: &'static str = "CORE";

/// The currency of every amount.
pub const CURRENCY: &'static str = "EUR";

/// The XML namespace of the message.
pub const PAIN_008_001_11_NAMESPACE: &'static str = "urn:iso:std:iso:20022:tech:xsd:pain.008.001.11";

} // verus!
