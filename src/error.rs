use vstd::prelude::*;

verus! {

/// Why an invocation was refused. Every error is raised before anything is
/// scheduled, so a refused invocation moves no funds.
#[derive(Clone, Copy, Debug, PartialEq, Eq, Structural)]
pub enum PayoutError {
    /// The recipient list has no entries.
    EmptyList,
    /// No deposit was attached to the call.
    NoPayment,
    /// The estimated fees exceed the attached deposit.
    InsufficientDeposit,
    /// The registry account id is not a syntactically valid account id.
    InvalidRegistryId,
    /// The registry answered with bytes that are not a list of account ids.
    MalformedRegistryResponse,
    /// The gas left for the callback would be negative.
    BudgetExceeded,
    /// A callback saw other than exactly one ready pending result.
    ProtocolViolation,
    /// The registry call failed.
    RegistryUnavailable,
}

} // verus!
