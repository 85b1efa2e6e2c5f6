use vstd::prelude::*;

verus! {

/// Price of one gas unit in yoctoNEAR (0.0001 NEAR per Tgas).
pub const YOCTO_PER_GAS: u64 = 1_000_000_000;

/// Estimated gas of one plain transfer (0.45 Tgas).
pub const GAS_PER_PAYEE: u64 = 45_000_000_000;

/// Estimated gas of the distribution call itself (0.1 Tgas).
pub const GAS_OTHER: u64 = 100_000_000_000;

/// Gas attached to the final reporting call (1 Tgas).
pub const GAS_END: u64 = 1_000_000_000_000;

/// The constants of the fee estimate: three gas amounts and the price that
/// converts gas into yoctoNEAR.
#[derive(Clone, Copy, Debug, PartialEq, Eq, Structural)]
pub struct FeeSchedule {
    pub gas_per_payee: u64,
    pub gas_other: u64,
    pub gas_end: u64,
    pub yocto_per_gas: u64,
}

impl FeeSchedule {
    pub open spec fn per_payee_fee(self) -> nat {
        (self.gas_per_payee as nat) * (self.yocto_per_gas as nat)
    }

    pub open spec fn other_fee(self) -> nat {
        (self.gas_other as nat) * (self.yocto_per_gas as nat)
    }

    pub open spec fn end_fee(self) -> nat {
        (self.gas_end as nat) * (self.yocto_per_gas as nat)
    }

    /// The fee held back from a deposit that is split over `n` recipients.
    pub open spec fn total_fee(self, n: nat) -> nat {
        self.other_fee() + n * self.per_payee_fee() + self.end_fee()
    }

    /// `self` holds the estimate used on the live network.
    pub open spec fn is_standard(self) -> bool {
        &&& self.gas_per_payee == GAS_PER_PAYEE
        &&& self.gas_other == GAS_OTHER
        &&& self.gas_end == GAS_END
        &&& self.yocto_per_gas == YOCTO_PER_GAS
    }

    /// The estimate used on the live network.
    pub fn standard() -> (r: FeeSchedule)
        ensures
            r.is_standard(),
    {
        FeeSchedule {
            gas_per_payee: GAS_PER_PAYEE,
            gas_other: GAS_OTHER,
            gas_end: GAS_END,
            yocto_per_gas: YOCTO_PER_GAS,
        }
    }

    /// The total fee for `count` recipients, or `None` where it exceeds
    /// `u128::MAX` (and so exceeds every deposit).
    pub fn total_fee_for(&self, count: usize) -> (r: Option<u128>)
        ensures
            r matches Some(f) ==> f as nat == self.total_fee(count as nat),
            r is None <==> self.total_fee(count as nat) > u128::MAX,
    {
        let price = self.yocto_per_gas as u128;
        proof {
            lemma_gas_fee_fits(self.gas_per_payee, self.yocto_per_gas);
            lemma_gas_fee_fits(self.gas_other, self.yocto_per_gas);
            lemma_gas_fee_fits(self.gas_end, self.yocto_per_gas);
        }
        let per_payee = self.gas_per_payee as u128 * price;
        let other = self.gas_other as u128 * price;
        let end = self.gas_end as u128 * price;
        match (count as u128).checked_mul(per_payee) {
            None => None,
            Some(payees) => match other.checked_add(payees) {
                None => None,
                Some(partial) => partial.checked_add(end),
            },
        }
    }
}

proof fn lemma_gas_fee_fits(gas: u64, price: u64)
    ensures
        (gas as nat) * (price as nat) <= u128::MAX,
{
    assert((gas as nat) * (price as nat) <= (u64::MAX as nat) * (u64::MAX as nat)) by (nonlinear_arith);
}

} // verus!
