//! Gas cost calculator for transactions.
use vstd::prelude::*;

verus! {

/// Base fee per operation, in stroops.
pub const BASE_FEE: u64 = 100;

/// Resource fee per gas unit, in stroops.
pub const RESOURCE_FEE_PER_GAS: u64 = 10;

/// A fee estimate in stroops.
#[derive(Debug, Clone)]
pub struct GasCostEstimate {
    /// Base fee in stroops
    pub base_fee: u64,
    /// Resource fee in stroops
    pub resource_fee: u64,
    /// Total fee in stroops
    pub total_fee: u64,
}

/// Computes fee estimates for the contract's operations.
pub struct CostCalculator;

/// `estimate` is the fee of an operation that uses `gas_units` gas units: the base fee,
/// plus the resource fee per gas unit for each unit, and their sum as the total.
pub open spec fn charges_gas(estimate: GasCostEstimate, gas_units: int) -> bool {
    &&& estimate.base_fee == BASE_FEE
    &&& estimate.resource_fee == gas_units * RESOURCE_FEE_PER_GAS
    &&& estimate.total_fee == estimate.base_fee + estimate.resource_fee
}

/// Gas units of a tip.
pub open spec fn tip_gas() -> int {
    100
}

/// Gas units of a withdrawal.
pub open spec fn withdrawal_gas() -> int {
    150
}

/// Gas units of a batch of `batch_size` tips.
pub open spec fn batch_gas(batch_size: int) -> int {
    batch_size * 100
}

impl CostCalculator {
    /// Calculate gas cost for a tip operation.
    pub fn calculate_tip_cost() -> (e: GasCostEstimate)
        ensures
            charges_gas(e, tip_gas()),
    {
        let base_fee = BASE_FEE;
        let resource_fee = 100 * RESOURCE_FEE_PER_GAS;
        let total_fee = base_fee + resource_fee;
        Self::create_estimate(base_fee, resource_fee, total_fee)
    }

    /// Calculate gas cost for a withdrawal operation.
    pub fn calculate_withdrawal_cost() -> (e: GasCostEstimate)
        ensures
            charges_gas(e, withdrawal_gas()),
    {
        let base_fee = BASE_FEE;
        let resource_fee = 150 * RESOURCE_FEE_PER_GAS;
        let total_fee = base_fee + resource_fee;
        Self::create_estimate(base_fee, resource_fee, total_fee)
    }

    /// Calculate gas cost for a batch operation.
    pub fn calculate_batch_cost(batch_size: u32) -> (e: GasCostEstimate)
        ensures
            charges_gas(e, batch_gas(batch_size as int)),
    {
        let base_fee = BASE_FEE;
        let resource_fee = (batch_size as u64 * 100) * RESOURCE_FEE_PER_GAS;
        let total_fee = base_fee + resource_fee;
        Self::create_estimate(base_fee, resource_fee, total_fee)
    }

    /// Create a cost estimate.
    fn create_estimate(base_fee: u64, resource_fee: u64, total_fee: u64) -> (e: GasCostEstimate)
        ensures
            e.base_fee == base_fee,
            e.resource_fee == resource_fee,
            e.total_fee == total_fee,
    {
        GasCostEstimate { base_fee, resource_fee, total_fee }
    }

    /// Estimate the cost of custom gas units.
    pub fn estimate_for_gas(gas_units: u64) -> (e: GasCostEstimate)
        requires
            BASE_FEE + gas_units * RESOURCE_FEE_PER_GAS <= u64::MAX,
        ensures
            charges_gas(e, gas_units as int),
    {
        let base_fee = BASE_FEE;
        let resource_fee = gas_units * RESOURCE_FEE_PER_GAS;
        let total_fee = base_fee + resource_fee;
        Self::create_estimate(base_fee, resource_fee, total_fee)
    }
}

/// Two operations' estimates: the one that uses more gas costs strictly more.
pub proof fn lemma_more_gas_costs_more(e1: GasCostEstimate, g1: int, e2: GasCostEstimate, g2: int)
    requires
        charges_gas(e1, g1),
        charges_gas(e2, g2),
        g1 < g2,
    ensures
        e1.total_fee < e2.total_fee,
{
}

/// A batch of `n` tips is estimated exactly as `n` times a tip's gas, and a batch of one
/// tip costs what a single tip costs.
pub proof fn lemma_batch_is_tips(n: int, e: GasCostEstimate)
    ensures
        charges_gas(e, batch_gas(n)) <==> charges_gas(e, n * tip_gas()),
        charges_gas(e, batch_gas(1)) <==> charges_gas(e, tip_gas()),
{
}

} // verus!
