use vstd::prelude::*;

use crate::error::PayoutError;
use crate::fees::FeeSchedule;
use crate::host::{
    decode_account_list, decoded_account_list, decoded_names, is_valid_account_id,
    valid_account_id,
};
use near_sdk::json_types::U128;

use crate::plan::{names, pays_each, PayoutPlan, Transfer};

verus! {

/// Gas attached to the reporting call of a gross payout, and the margin kept
/// for the dispatch instruction of a registry query (10 Tgas).
pub const SOMEGAS: u64 = 10_000_000_000_000;

/// Gas attached to the registry's `list_minters` call.
pub const LIST_MINTERS_GAS: u64 = SOMEGAS;

/// The distributing contract. It keeps no state between calls; it only holds
/// the fee estimate used by the fee-aware payout.
#[derive(Clone, Copy, Debug)]
pub struct Distrotron {
    pub fees: FeeSchedule,
}

/// A host result pending for a callback.
#[derive(Debug)]
pub enum PendingResult {
    NotReady,
    Successful(Vec<u8>),
    Failed,
}

/// The registry call to issue, and the callback to chain after it.
#[derive(Debug)]
pub struct RegistryQuery {
    /// The registry contract whose `list_minters` is called.
    pub registry: String,
    /// Gas attached to the `list_minters` call.
    pub registry_gas: u64,
    /// Deposit forwarded to the callback, to be distributed there.
    pub callback_deposit: u128,
    /// Gas attached to the callback.
    pub callback_gas: u64,
}

/// Per-recipient amount of a gross payout.
pub open spec fn gross_slice(deposit: nat, n: nat) -> nat {
    deposit / n
}

/// What a gross payout leaves in the distributing account.
pub open spec fn gross_remainder(deposit: nat, n: nat) -> nat {
    deposit % n
}

/// Per-recipient amount of a fee-aware payout; meaningful where the fees do
/// not exceed the deposit.
pub open spec fn net_slice(fees: FeeSchedule, deposit: nat, n: nat) -> nat {
    ((deposit - fees.total_fee(n)) as nat) / n
}

/// What a fee-aware payout sends back to the payer.
pub open spec fn net_refund(fees: FeeSchedule, deposit: nat, n: nat) -> nat {
    (deposit - net_slice(fees, deposit, n) * n) as nat
}

/// The refusal owed before any payout, if any.
pub open spec fn payee_check(n: nat, deposit: u128) -> Result<(), PayoutError> {
    if n == 0 {
        Err(PayoutError::EmptyList)
    } else if deposit == 0 {
        Err(PayoutError::NoPayment)
    } else {
        Ok(())
    }
}

/// `p` is the gross payout of `deposit` over `payees`.
pub open spec fn is_gross_plan(p: PayoutPlan, payees: Seq<Seq<char>>, deposit: u128) -> bool {
    let n = payees.len();
    &&& p.slice == gross_slice(deposit as nat, n)
    &&& pays_each(p.transfers@, payees, p.slice)
    &&& p.refund is None
    &&& p.retained == gross_remainder(deposit as nat, n)
    &&& p.report_gas == SOMEGAS
}

/// `p` is the fee-aware payout of `deposit` over `payees`.
pub open spec fn is_net_plan(
    p: PayoutPlan,
    fees: FeeSchedule,
    payees: Seq<Seq<char>>,
    deposit: u128,
) -> bool {
    let n = payees.len();
    &&& p.slice == net_slice(fees, deposit as nat, n)
    &&& pays_each(p.transfers@, payees, p.slice)
    &&& p.refund == Some(net_refund(fees, deposit as nat, n) as u128)
    &&& p.retained == 0
    &&& p.report_gas == fees.gas_end
}

/// `r` is the outcome of a gross payout of `deposit` over `payees`.
pub open spec fn gross_result(
    r: Result<PayoutPlan, PayoutError>,
    payees: Seq<Seq<char>>,
    deposit: u128,
) -> bool {
    match payee_check(payees.len(), deposit) {
        Err(e) => r == Err::<PayoutPlan, PayoutError>(e),
        Ok(_) => r matches Ok(p) && is_gross_plan(p, payees, deposit),
    }
}

/// `r` is the outcome of a fee-aware payout of `deposit` over `payees`.
pub open spec fn net_result(
    r: Result<PayoutPlan, PayoutError>,
    fees: FeeSchedule,
    payees: Seq<Seq<char>>,
    deposit: u128,
) -> bool {
    match payee_check(payees.len(), deposit) {
        Err(e) => r == Err::<PayoutPlan, PayoutError>(e),
        Ok(_) => if fees.total_fee(payees.len()) > deposit {
            r == Err::<PayoutPlan, PayoutError>(PayoutError::InsufficientDeposit)
        } else {
            r matches Ok(p) && is_net_plan(p, fees, payees, deposit)
        },
    }
}

/// `r` is the outcome of distributing `deposit` over a decoded registry list.
pub open spec fn registry_list_result(
    r: Result<PayoutPlan, PayoutError>,
    decoded: Option<Seq<Seq<char>>>,
    deposit: u128,
) -> bool {
    match decoded {
        None => r == Err::<PayoutPlan, PayoutError>(PayoutError::MalformedRegistryResponse),
        Some(payees) => gross_result(r, payees, deposit),
    }
}

/// `r` is the outcome of the registry callback on `results`.
pub open spec fn callback_result(
    r: Result<PayoutPlan, PayoutError>,
    results: Seq<PendingResult>,
    deposit: u128,
) -> bool {
    if results.len() != 1 {
        r == Err::<PayoutPlan, PayoutError>(PayoutError::ProtocolViolation)
    } else {
        match results[0] {
            PendingResult::NotReady => r == Err::<PayoutPlan, PayoutError>(
                PayoutError::ProtocolViolation,
            ),
            PendingResult::Failed => r == Err::<PayoutPlan, PayoutError>(
                PayoutError::RegistryUnavailable,
            ),
            PendingResult::Successful(bytes) => registry_list_result(
                r,
                decoded_account_list(bytes@),
                deposit,
            ),
        }
    }
}

/// The gas left for the registry callback, where the budget allows any.
pub open spec fn callback_allowance(prepaid_gas: u64, used_gas: u64) -> int {
    prepaid_gas - (used_gas + LIST_MINTERS_GAS + SOMEGAS)
}

/// `r` is the outcome of a registry query for `registry`.
pub open spec fn query_result(
    r: Result<RegistryQuery, PayoutError>,
    registry: Seq<char>,
    id_valid: bool,
    deposit: u128,
    prepaid_gas: u64,
    used_gas: u64,
) -> bool {
    if !id_valid {
        r == Err::<RegistryQuery, PayoutError>(PayoutError::InvalidRegistryId)
    } else if callback_allowance(prepaid_gas, used_gas) < 0 {
        r == Err::<RegistryQuery, PayoutError>(PayoutError::BudgetExceeded)
    } else {
        r matches Ok(q) && {
            &&& q.registry@ == registry
            &&& q.registry_gas == LIST_MINTERS_GAS
            &&& q.callback_deposit == deposit
            &&& q.callback_gas == callback_allowance(prepaid_gas, used_gas)
        }
    }
}

impl Distrotron {
    /// A contract that estimates fees with `fees`.
    pub fn with_fees(fees: FeeSchedule) -> (r: Distrotron)
        ensures
            r.fees == fees,
    {
        Distrotron { fees }
    }

    /// Refuses an empty recipient list, then a missing deposit. The account
    /// ids themselves are not checked: an id that names no account still
    /// receives its transfer, and that transfer fails on the host.
    pub fn test_payees(&self, payees: &Vec<String>, deposit: u128) -> (r: Result<(), PayoutError>)
        ensures
            r == payee_check(payees@.len(), deposit),
    {
        if payees.len() == 0 {
            Err(PayoutError::EmptyList)
        } else if deposit == 0 {
            Err(PayoutError::NoPayment)
        } else {
            Ok(())
        }
    }

    /// One transfer of `sum` to each of `payees`, in order.
    pub fn transfer_to_each(&self, payees: &Vec<String>, sum: u128) -> (r: Vec<Transfer>)
        ensures
            pays_each(r@, names(payees@), sum),
    {
        let mut transfers: Vec<Transfer> = Vec::new();
        let mut i: usize = 0;
        while i < payees.len()
            invariant
                i <= payees@.len(),
                transfers@.len() == i,
                forall|j: int|
                    0 <= j < i ==> {
                        &&& (#[trigger] transfers@[j]).receiver@ == payees@[j]@
                        &&& transfers@[j].amount == sum
                    },
            decreases payees@.len() - i,
        {
            transfers.push(Transfer { receiver: payees[i].clone(), amount: sum });
            i = i + 1;
        }
        transfers
    }

    /// Splits the whole deposit evenly over `payees`. The remainder of the
    /// division stays in the distributing account.
    pub fn pay_out(&self, payees: Vec<String>, deposit: u128) -> (r: Result<PayoutPlan, PayoutError>)
        ensures
            gross_result(r, names(payees@), deposit),
    {
        match self.test_payees(&payees, deposit) {
            Err(e) => Err(e),
            Ok(()) => {
                let count = payees.len() as u128;
                let slice = deposit / count;
                let retained = deposit % count;
                let transfers = self.transfer_to_each(&payees, slice);
                Ok(PayoutPlan { transfers, slice, refund: None, retained, report_gas: SOMEGAS })
            },
        }
    }

    /// Holds back the estimated fees, splits the rest evenly over `payees`,
    /// and sends everything not paid out back to the payer.
    pub fn pay_out_net(&self, payees: Vec<String>, deposit: u128) -> (r: Result<PayoutPlan, PayoutError>)
        ensures
            net_result(r, self.fees, names(payees@), deposit),
    {
        match self.test_payees(&payees, deposit) {
            Err(e) => Err(e),
            Ok(()) => {
                let n = payees.len();
                let fee = match self.fees.total_fee_for(n) {
                    Some(f) if f <= deposit => f,
                    _ => {
                        return Err(PayoutError::InsufficientDeposit);
                    },
                };
                let count = n as u128;
                let net_payment = deposit - fee;
                let net_slice = net_payment / count;
                proof {
                    assert(net_slice * count <= net_payment) by (nonlinear_arith)
                        requires
                            net_slice == net_payment / count,
                            count > 0,
                    ;
                }
                let refund = deposit - net_slice * count;
                let transfers = self.transfer_to_each(&payees, net_slice);
                Ok(
                    PayoutPlan {
                        transfers,
                        slice: net_slice,
                        refund: Some(refund),
                        retained: 0,
                        report_gas: self.fees.gas_end,
                    },
                )
            },
        }
    }
    /// Decides the registry query for `minter_contract`, given whether its id
    /// is valid. The callback receives what remains of the gas budget after
    /// the gas used so far, the registry call's gas and a margin for the
    /// dispatch itself.
    pub fn plan_registry_query(
        &self,
        minter_contract: String,
        id_valid: bool,
        deposit: u128,
        prepaid_gas: u64,
        used_gas: u64,
    ) -> (r: Result<RegistryQuery, PayoutError>)
        ensures
            query_result(r, minter_contract@, id_valid, deposit, prepaid_gas, used_gas),
    {
        if !id_valid {
            return Err(PayoutError::InvalidRegistryId);
        }
        let reserved = used_gas as u128 + LIST_MINTERS_GAS as u128 + SOMEGAS as u128;
        if reserved > prepaid_gas as u128 {
            return Err(PayoutError::BudgetExceeded);
        }
        let callback_gas = (prepaid_gas as u128 - reserved) as u64;
        Ok(
            RegistryQuery {
                registry: minter_contract,
                registry_gas: LIST_MINTERS_GAS,
                callback_deposit: deposit,
                callback_gas,
            },
        )
    }

    /// Starts a distribution to the recipients that the registry contract
    /// `minter_contract` lists: the registry is asked for its list, and
    /// `list_minters_cb` distributes `deposit` once the answer is in.
    pub fn pay_minters(
        &self,
        minter_contract: String,
        deposit: u128,
        prepaid_gas: u64,
        used_gas: u64,
    ) -> (r: Result<RegistryQuery, PayoutError>)
        ensures
            query_result(
                r,
                minter_contract@,
                valid_account_id(minter_contract@),
                deposit,
                prepaid_gas,
                used_gas,
            ),
    {
        let id_valid = is_valid_account_id(minter_contract.as_str());
        self.plan_registry_query(minter_contract, id_valid, deposit, prepaid_gas, used_gas)
    }

    /// Distributes `deposit` over a recipient list decoded from the registry's
    /// answer (`None` where it did not decode), as `pay_out` does.
    pub fn pay_registry_list(&self, decoded: Option<Vec<String>>, deposit: u128) -> (r: Result<
        PayoutPlan,
        PayoutError,
    >)
        ensures
            registry_list_result(r, decoded_names(decoded), deposit),
    {
        match decoded {
            None => Err(PayoutError::MalformedRegistryResponse),
            Some(payees) => self.pay_out(payees, deposit),
        }
    }

    /// The callback of a registry query: takes the results pending for it,
    /// of which there must be exactly one, and distributes `deposit` over the
    /// list the registry returned. Nothing here can tell that the result
    /// comes from the query this contract issued; that rests on the host.
    pub fn list_minters_cb(&self, results: &Vec<PendingResult>, deposit: u128) -> (r: Result<
        PayoutPlan,
        PayoutError,
    >)
        ensures
            callback_result(r, results@, deposit),
    {
        if results.len() != 1 {
            return Err(PayoutError::ProtocolViolation);
        }
        match &results[0] {
            PendingResult::NotReady => Err(PayoutError::ProtocolViolation),
            PendingResult::Failed => Err(PayoutError::RegistryUnavailable),
            PendingResult::Successful(bytes) => {
                let decoded = decode_account_list(bytes);
                self.pay_registry_list(decoded, deposit)
            },
        }
    }

    /// The terminal leg of a payout: hands back the amount each recipient
    /// received, so that it can be read from the outcome.
    pub fn report_payment(&self, amount: U128) -> (r: U128)
        ensures
            r == amount,
    {
        amount
    }

    /// Liveness probe.
    pub fn be_good(&self) -> (r: bool)
        ensures
            r,
    {
        true
    }
}

impl Default for Distrotron {
    fn default() -> (r: Distrotron)
        ensures
            r.fees.is_standard(),
    {
        Distrotron { fees: FeeSchedule::standard() }
    }
}

} // verus!
