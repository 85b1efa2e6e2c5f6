use vstd::prelude::*;

verus! {

/// One plain transfer of `amount` yoctoNEAR to `receiver`.
#[derive(Debug)]
pub struct Transfer {
    pub receiver: String,
    pub amount: u128,
}

/// What one distribution schedules, in order: the transfers (all together,
/// joined into one composite), then the refund to the payer if there is one,
/// then the call that reports `slice`.
///
/// The transfers are joined, not made atomic: a failed transfer is neither
/// retried nor rolled back, and the report does not tell it from success.
#[derive(Debug)]
pub struct PayoutPlan {
    /// One transfer per recipient, in the order of the recipient list.
    pub transfers: Vec<Transfer>,
    /// The amount each recipient receives, as reported at the end.
    pub slice: u128,
    /// Sent back to the payer after the transfers (fee-aware mode only).
    pub refund: Option<u128>,
    /// Left behind in the distributing account.
    pub retained: u128,
    /// Gas attached to the reporting call.
    pub report_gas: u64,
}

/// The account ids of a list, as character sequences.
pub open spec fn names(v: Seq<String>) -> Seq<Seq<char>> {
    v.map_values(|s: String| s@)
}

/// `transfers` pays `amount` to each of `payees`, in order.
pub open spec fn pays_each(transfers: Seq<Transfer>, payees: Seq<Seq<char>>, amount: u128) -> bool {
    &&& transfers.len() == payees.len()
    &&& forall|i: int|
        0 <= i < payees.len() ==> {
            &&& (#[trigger] transfers[i]).receiver@ == payees[i]
            &&& transfers[i].amount == amount
        }
}

} // verus!
