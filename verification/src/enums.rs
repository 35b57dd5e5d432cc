//! Canonical enumerations shared by every connector: attempt status, refund
//! status, capture method and payment-method kind.

use vstd::prelude::*;

verus! {

/// Canonical outcome of a payment attempt, independent of any connector's
/// own status vocabulary.
#[derive(Clone, Copy, Debug, PartialEq, Eq, Structural)]
pub enum AttemptStatus {
    Started,
    Authorizing,
    Charged,
    Failure,
    Voided,
    Pending,
    AuthenticationFailed,
}

/// Canonical outcome of a refund.
#[derive(Clone, Copy, Debug, PartialEq, Eq, Structural)]
pub enum RefundStatus {
    Pending,
    Success,
    Failure,
}

/// How a payment is to be captured once authorized.
#[derive(Clone, Copy, Debug, PartialEq, Eq, Structural)]
pub enum CaptureMethod {
    Automatic,
    Manual,
}

/// Currency of an amount, in the small set the adapter is exercised with.
#[derive(Clone, Copy, Debug, PartialEq, Eq, Structural)]
pub enum Currency {
    Usd,
    Eur,
    Gbp,
}

/// The kind of payment instrument an attempt runs on.
#[derive(Clone, Copy, Debug, PartialEq, Eq, Structural)]
pub enum PaymentMethod {
    Card,
    Wallet,
    BankRedirect,
}

/// Whether a connector expects amounts in minor units or in base units.
#[derive(Clone, Copy, Debug, PartialEq, Eq, Structural)]
pub enum CurrencyUnit {
    Minor,
    Base,
}

} // verus!
