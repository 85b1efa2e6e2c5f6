//! Properties that relate the outcome of a payout to its inputs, stated over
//! the outcome predicates that the entry points ensure.

use vstd::prelude::*;

use crate::distrotron::{
    callback_result, gross_result, net_refund, net_result, net_slice, PendingResult,
};
use crate::error::PayoutError;
use crate::fees::FeeSchedule;
use crate::host::decoded_account_list;
use crate::plan::PayoutPlan;

verus! {

/// A gross payout of a positive deposit over a non-empty list succeeds, pays
/// out no more than the deposit, and leaves behind less than one unit per
/// recipient; what it pays out and what it leaves add up to the deposit.
pub proof fn lemma_gross_split_bounds(
    r: Result<PayoutPlan, PayoutError>,
    payees: Seq<Seq<char>>,
    deposit: u128,
)
    requires
        gross_result(r, payees, deposit),
        payees.len() > 0,
        deposit > 0,
    ensures
        r matches Ok(p) && {
            &&& p.slice * payees.len() <= deposit
            &&& deposit - p.slice * payees.len() < payees.len()
            &&& p.slice * payees.len() + p.retained == deposit
        },
{
    let n = payees.len();
    let d = deposit as nat;
    assert(d == (d / n) * n + d % n && d % n < n) by (nonlinear_arith)
        requires
            n > 0,
    ;
}

/// With a single recipient, a gross payout hands over the whole deposit.
pub proof fn lemma_single_payee_gets_all(
    r: Result<PayoutPlan, PayoutError>,
    payees: Seq<Seq<char>>,
    deposit: u128,
)
    requires
        gross_result(r, payees, deposit),
        payees.len() == 1,
        deposit > 0,
    ensures
        r matches Ok(p) && p.slice == deposit && p.retained == 0,
{
}

/// A fee-aware payout over a non-empty list with a positive deposit fails
/// with `InsufficientDeposit` exactly when the fees exceed the deposit, and
/// otherwise pays out and refunds exactly the deposit.
pub proof fn lemma_net_conservation(
    r: Result<PayoutPlan, PayoutError>,
    fees: FeeSchedule,
    payees: Seq<Seq<char>>,
    deposit: u128,
)
    requires
        net_result(r, fees, payees, deposit),
        payees.len() > 0,
        deposit > 0,
    ensures
        fees.total_fee(payees.len()) > deposit ==> r == Err::<PayoutPlan, PayoutError>(
            PayoutError::InsufficientDeposit,
        ),
        fees.total_fee(payees.len()) <= deposit ==> (r matches Ok(p) && p.refund matches Some(
            refund,
        ) && p.slice * payees.len() + refund == deposit),
{
    let n = payees.len();
    let d = deposit as nat;
    if fees.total_fee(n) <= d {
        let net = (d - fees.total_fee(n)) as nat;
        let s = net_slice(fees, d, n);
        assert(s * n <= net) by (nonlinear_arith)
            requires
                s == net / n,
                n > 0,
        ;
        assert(net_refund(fees, d, n) == d - s * n);
    }
}

/// Neither payout moves anything for an empty recipient list.
pub proof fn lemma_empty_list_refused(
    gross: Result<PayoutPlan, PayoutError>,
    net: Result<PayoutPlan, PayoutError>,
    fees: FeeSchedule,
    payees: Seq<Seq<char>>,
    deposit: u128,
)
    requires
        gross_result(gross, payees, deposit),
        net_result(net, fees, payees, deposit),
        payees.len() == 0,
    ensures
        gross == Err::<PayoutPlan, PayoutError>(PayoutError::EmptyList),
        net == Err::<PayoutPlan, PayoutError>(PayoutError::EmptyList),
{
}

/// Neither payout moves anything without a deposit (for a non-empty list; an
/// empty one is refused as such first).
pub proof fn lemma_no_payment_refused(
    gross: Result<PayoutPlan, PayoutError>,
    net: Result<PayoutPlan, PayoutError>,
    fees: FeeSchedule,
    payees: Seq<Seq<char>>,
)
    requires
        gross_result(gross, payees, 0),
        net_result(net, fees, payees, 0),
        payees.len() > 0,
    ensures
        gross == Err::<PayoutPlan, PayoutError>(PayoutError::NoPayment),
        net == Err::<PayoutPlan, PayoutError>(PayoutError::NoPayment),
{
}

/// The registry callback refuses to act on anything but exactly one pending
/// result.
pub proof fn lemma_callback_needs_one_result(
    r: Result<PayoutPlan, PayoutError>,
    results: Seq<PendingResult>,
    deposit: u128,
)
    requires
        callback_result(r, results, deposit),
        results.len() != 1,
    ensures
        r == Err::<PayoutPlan, PayoutError>(PayoutError::ProtocolViolation),
{
}

/// A registry that answers with an empty list gets nothing distributed.
pub proof fn lemma_callback_empty_list(
    r: Result<PayoutPlan, PayoutError>,
    results: Seq<PendingResult>,
    deposit: u128,
)
    requires
        callback_result(r, results, deposit),
        results.len() == 1,
        results[0] matches PendingResult::Successful(bytes) && decoded_account_list(bytes@)
            == Some(Seq::<Seq<char>>::empty()),
    ensures
        r == Err::<PayoutPlan, PayoutError>(PayoutError::EmptyList),
{
}

/// A failed registry call ends the distribution as `RegistryUnavailable`.
pub proof fn lemma_callback_registry_failure(
    r: Result<PayoutPlan, PayoutError>,
    results: Seq<PendingResult>,
    deposit: u128,
)
    requires
        callback_result(r, results, deposit),
        results.len() == 1,
        results[0] is Failed,
    ensures
        r == Err::<PayoutPlan, PayoutError>(PayoutError::RegistryUnavailable),
{
}

} // verus!
