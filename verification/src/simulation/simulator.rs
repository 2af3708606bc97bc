//! Transaction simulator for previewing contract calls.
use vstd::prelude::*;
use vstd::string::StringExecFns;

use crate::text::{int_text, int_to_text};

verus! {

/// The outcome of simulating a contract call.
#[derive(Debug, Clone)]
pub struct SimulationResult {
    /// Whether the transaction would succeed
    pub success: bool,
    /// Gas cost in stroops
    pub gas_cost: u64,
    /// State changes that would occur
    pub state_changes: Vec<StateChange>,
    /// Events that would be emitted
    pub events: Vec<ContractEvent>,
    /// Error message if simulation failed
    pub error: Option<String>,
}

/// One storage slot that a transaction would modify.
#[derive(Debug, Clone)]
pub struct StateChange {
    /// Storage key that would be modified
    pub key: String,
    /// Old value (if exists)
    pub old_value: Option<String>,
    /// New value
    pub new_value: String,
}

/// One event that a transaction would emit.
#[derive(Debug, Clone)]
pub struct ContractEvent {
    /// Event topic
    pub topic: String,
    /// Event data
    pub data: Vec<String>,
}

/// The parameters of a tip.
#[derive(Debug, Clone)]
pub struct TipSimulation {
    pub creator: String,
    pub amount: i128,
    pub tipper: String,
}

/// The parameters of a withdrawal.
#[derive(Debug, Clone)]
pub struct WithdrawalSimulation {
    pub creator: String,
    pub amount: i128,
}

/// Simulates tips, withdrawals and batches of tips without touching the chain.
pub struct TransactionSimulator;

/// A state change as plain text values.
pub struct StateChangeView {
    pub key: Seq<char>,
    pub old_value: Option<Seq<char>>,
    pub new_value: Seq<char>,
}

/// An event as plain text values.
pub struct ContractEventView {
    pub topic: Seq<char>,
    pub data: Seq<Seq<char>>,
}

/// A simulation result as plain values.
pub struct SimulationResultView {
    pub success: bool,
    pub gas_cost: nat,
    pub state_changes: Seq<StateChangeView>,
    pub events: Seq<ContractEventView>,
    pub error: Option<Seq<char>>,
}

/// The text held by an optional string.
pub open spec fn opt_text(o: Option<String>) -> Option<Seq<char>> {
    match o {
        Some(s) => Some(s@),
        None => None,
    }
}

impl View for StateChange {
    type V = StateChangeView;

    open spec fn view(&self) -> StateChangeView {
        StateChangeView { key: self.key@, old_value: opt_text(self.old_value), new_value: self.new_value@ }
    }
}

impl View for ContractEvent {
    type V = ContractEventView;

    open spec fn view(&self) -> ContractEventView {
        ContractEventView { topic: self.topic@, data: self.data@.map_values(|s: String| s@) }
    }
}

impl View for SimulationResult {
    type V = SimulationResultView;

    open spec fn view(&self) -> SimulationResultView {
        SimulationResultView {
            success: self.success,
            gas_cost: self.gas_cost as nat,
            state_changes: self.state_changes@.map_values(|c: StateChange| c@),
            events: self.events@.map_values(|e: ContractEvent| e@),
            error: opt_text(self.error),
        }
    }
}

/// The storage key of a creator's escrowed balance.
pub open spec fn balance_key(creator: Seq<char>) -> Seq<char> {
    "creator_balance:"@ + creator
}

/// The storage key of a creator's running tip total.
pub open spec fn total_key(creator: Seq<char>) -> Seq<char> {
    "creator_total:"@ + creator
}

/// Gas of an operation: its base gas plus a fixed overhead of 50.
pub open spec fn gas_with_overhead(base_gas: nat) -> nat {
    base_gas + 50
}

/// Total cost of an operation in stroops: a base fee of 100 plus 10 per gas unit.
pub open spec fn total_cost(gas_units: nat) -> int {
    100 + 10 * (gas_units as int)
}

/// Error text for an amount that is not positive.
pub open spec fn invalid_amount_message() -> Seq<char> {
    "Invalid amount: must be positive"@
}

/// Error text for a withdrawal above the balance.
pub open spec fn insufficient_balance_message() -> Seq<char> {
    "Insufficient balance"@
}

/// Error text for a batch without tips.
pub open spec fn empty_batch_message() -> Seq<char> {
    "Empty batch"@
}

/// Error text for a batch of more than 100 tips.
pub open spec fn batch_too_large_message() -> Seq<char> {
    "Batch too large"@
}

/// The simulated outcome of a valid tip.
pub open spec fn tip_simulation(creator: Seq<char>, amount: int, tipper: Seq<char>) -> SimulationResultView {
    SimulationResultView {
        success: true,
        gas_cost: gas_with_overhead(100),
        state_changes: seq![
            StateChangeView { key: balance_key(creator), old_value: None, new_value: int_text(amount) },
            StateChangeView { key: total_key(creator), old_value: None, new_value: int_text(amount) },
        ],
        events: seq![ContractEventView { topic: "tip"@, data: seq![tipper, int_text(amount)] }],
        error: None,
    }
}

/// The simulated outcome of a valid withdrawal.
pub open spec fn withdrawal_simulation(creator: Seq<char>, amount: int, balance: int) -> SimulationResultView {
    SimulationResultView {
        success: true,
        gas_cost: gas_with_overhead(150),
        state_changes: seq![
            StateChangeView {
                key: balance_key(creator),
                old_value: Some(int_text(balance)),
                new_value: int_text(balance - amount),
            },
        ],
        events: seq![ContractEventView { topic: "withdraw"@, data: seq![int_text(amount)] }],
        error: None,
    }
}

/// A batch of tips as plain values: each creator's text and the amount.
pub open spec fn tips_view(tips: Seq<(String, i128)>) -> Seq<(Seq<char>, int)> {
    tips.map_values(|t: (String, i128)| (t.0@, t.1 as int))
}

/// The balance change one tip of a batch makes.
pub open spec fn batch_change(tip: (Seq<char>, int)) -> StateChangeView {
    StateChangeView { key: balance_key(tip.0), old_value: None, new_value: int_text(tip.1) }
}

/// The event one tip of a batch emits.
pub open spec fn batch_event(tip: (Seq<char>, int)) -> ContractEventView {
    ContractEventView { topic: "batch_tip"@, data: seq![tip.0, int_text(tip.1)] }
}

/// The simulated outcome of a valid batch of tips.
pub open spec fn batch_simulation(tips: Seq<(Seq<char>, int)>) -> SimulationResultView {
    SimulationResultView {
        success: true,
        gas_cost: gas_with_overhead(100 * tips.len()),
        state_changes: tips.map_values(|t: (Seq<char>, int)| batch_change(t)),
        events: tips.map_values(|t: (Seq<char>, int)| batch_event(t)),
        error: None,
    }
}

fn text_of(s: &str) -> (r: String)
    ensures
        r@ == s@,
{
    String::from_str(s)
}

fn prefixed(prefix: &str, s: &str) -> (r: String)
    ensures
        r@ == prefix@ + s@,
{
    let mut r = String::from_str(prefix);
    r.append(s);
    r
}

fn balance_change(creator: &str, old_value: Option<String>, amount: i128) -> (c: StateChange)
    ensures
        c@ == (StateChangeView {
            key: balance_key(creator@),
            old_value: opt_text(old_value),
            new_value: int_text(amount as int),
        }),
{
    StateChange { key: prefixed("creator_balance:", creator), old_value, new_value: int_to_text(amount) }
}

impl TransactionSimulator {
    /// Simulate a tip transaction.
    pub fn simulate_tip(creator: &str, amount: i128, tipper: &str) -> (r: Result<SimulationResult, String>)
        ensures
            match r {
                Ok(sim) => amount > 0 && sim@ == tip_simulation(creator@, amount as int, tipper@),
                Err(e) => amount <= 0 && e@ == invalid_amount_message(),
            },
            r is Ok ==> {
                let sim = r->Ok_0@;
                &&& sim.success && sim.error is None && sim.gas_cost == 150
                &&& sim.state_changes.len() == 2
                &&& sim.state_changes[0].key == "creator_balance:"@ + creator@
                &&& sim.state_changes[1].key == "creator_total:"@ + creator@
                &&& sim.state_changes[0].old_value is None
                &&& sim.state_changes[1].old_value is None
                &&& sim.state_changes[0].new_value == int_text(amount as int)
                &&& sim.state_changes[1].new_value == int_text(amount as int)
                &&& sim.events.len() == 1
                &&& sim.events[0].topic == "tip"@
                &&& sim.events[0].data == seq![tipper@, int_text(amount as int)]
            },
    {
        if amount <= 0 {
            return Err(text_of("Invalid amount: must be positive"));
        }
        let gas_cost = Self::calculate_gas_cost(100);

        let mut state_changes: Vec<StateChange> = Vec::new();
        state_changes.push(balance_change(creator, None, amount));
        state_changes.push(
            StateChange { key: prefixed("creator_total:", creator), old_value: None, new_value: int_to_text(amount) },
        );

        let mut data: Vec<String> = Vec::new();
        data.push(text_of(tipper));
        data.push(int_to_text(amount));
        let mut events: Vec<ContractEvent> = Vec::new();
        events.push(ContractEvent { topic: text_of("tip"), data });

        let sim = SimulationResult { success: true, gas_cost, state_changes, events, error: None };
        assert(sim@.state_changes =~= tip_simulation(creator@, amount as int, tipper@).state_changes);
        assert(sim@.events[0].data =~= seq![tipper@, int_text(amount as int)]);
        assert(sim@.events =~= tip_simulation(creator@, amount as int, tipper@).events);
        Ok(sim)
    }

    /// Simulate a withdrawal transaction.
    pub fn simulate_withdrawal(creator: &str, amount: i128, balance: i128) -> (r: Result<SimulationResult, String>)
        ensures
            match r {
                Ok(sim) => 0 < amount <= balance && sim@ == withdrawal_simulation(creator@, amount as int, balance as int),
                Err(e) => if amount <= 0 {
                    e@ == invalid_amount_message()
                } else {
                    amount > balance && e@ == insufficient_balance_message()
                },
            },
            r is Ok ==> {
                let sim = r->Ok_0@;
                &&& sim.success && sim.error is None && sim.gas_cost == 200
                &&& sim.state_changes.len() == 1
                &&& sim.state_changes[0].key == "creator_balance:"@ + creator@
                &&& sim.state_changes[0].old_value == Some(int_text(balance as int))
                &&& sim.state_changes[0].new_value == int_text(balance - amount)
                &&& sim.events.len() == 1
                &&& sim.events[0].topic == "withdraw"@
                &&& sim.events[0].data == seq![int_text(amount as int)]
            },
    {
        if amount <= 0 {
            return Err(text_of("Invalid amount: must be positive"));
        }
        if amount > balance {
            return Err(text_of("Insufficient balance"));
        }
        let gas_cost = Self::calculate_gas_cost(150);

        let mut state_changes: Vec<StateChange> = Vec::new();
        state_changes.push(balance_change(creator, Some(int_to_text(balance)), balance - amount));

        let mut data: Vec<String> = Vec::new();
        data.push(int_to_text(amount));
        let mut events: Vec<ContractEvent> = Vec::new();
        events.push(ContractEvent { topic: text_of("withdraw"), data });

        let sim = SimulationResult { success: true, gas_cost, state_changes, events, error: None };
        let ghost expected = withdrawal_simulation(creator@, amount as int, balance as int);
        assert(sim@.state_changes =~= expected.state_changes);
        assert(sim@.events[0].data =~= seq![int_text(amount as int)]);
        assert(sim@.events =~= expected.events);
        Ok(sim)
    }

    /// Calculate total cost including network fees.
    pub fn calculate_total_cost(gas_units: u64) -> (cost: i128)
        ensures
            cost == total_cost(gas_units as nat),
    {
        let base_fee: i128 = 100;
        let resource_fee: i128 = (gas_units as i128) * 10;
        base_fee + resource_fee
    }

    /// Calculate gas cost for an operation.
    fn calculate_gas_cost(base_gas: u64) -> (gas: u64)
        requires
            base_gas + 50 <= u64::MAX,
        ensures
            gas == gas_with_overhead(base_gas as nat),
    {
        base_gas + 50
    }

    /// Simulate a batch tip operation.
    pub fn simulate_batch_tips(tips: Vec<(String, i128)>) -> (r: Result<SimulationResult, String>)
        ensures
            match r {
                Ok(sim) => 1 <= tips@.len() <= 100 && sim@ == batch_simulation(tips_view(tips@)),
                Err(e) => if tips@.len() == 0 {
                    e@ == empty_batch_message()
                } else {
                    tips@.len() > 100 && e@ == batch_too_large_message()
                },
            },
            r is Ok ==> {
                let sim = r->Ok_0@;
                &&& sim.success && sim.error is None && sim.gas_cost == 100 * tips@.len() + 50
                &&& sim.state_changes.len() == tips@.len()
                &&& sim.events.len() == tips@.len()
                &&& forall|i: int|
                    0 <= i < tips@.len() ==> {
                        &&& #[trigger] sim.state_changes[i].key == "creator_balance:"@ + tips@[i].0@
                        &&& sim.state_changes[i].old_value is None
                        &&& sim.state_changes[i].new_value == int_text(tips@[i].1 as int)
                    }
                &&& forall|i: int|
                    0 <= i < tips@.len() ==> {
                        &&& #[trigger] sim.events[i].topic == "batch_tip"@
                        &&& sim.events[i].data == seq![tips@[i].0@, int_text(tips@[i].1 as int)]
                    }
            },
    {
        if tips.len() == 0 {
            return Err(text_of("Empty batch"));
        }
        if tips.len() > 100 {
            return Err(text_of("Batch too large"));
        }
        let n = tips.len();
        let gas_cost = Self::calculate_gas_cost((n as u64) * 100);
        let ghost tv = tips_view(tips@);

        let mut state_changes: Vec<StateChange> = Vec::new();
        let mut events: Vec<ContractEvent> = Vec::new();
        let mut i: usize = 0;
        while i < n
            invariant
                n == tips@.len(),
                tv == tips_view(tips@),
                i <= n,
                state_changes@.len() == i,
                events@.len() == i,
                forall|j: int| 0 <= j < i ==> #[trigger] state_changes@[j]@ == batch_change(tv[j]),
                forall|j: int| 0 <= j < i ==> #[trigger] events@[j]@ == batch_event(tv[j]),
            decreases n - i,
        {
            let creator: &str = tips[i].0.as_str();
            let amount: i128 = tips[i].1;
            state_changes.push(balance_change(creator, None, amount));
            let mut data: Vec<String> = Vec::new();
            data.push(text_of(creator));
            data.push(int_to_text(amount));
            let event = ContractEvent { topic: text_of("batch_tip"), data };
            assert(event@.data =~= seq![tv[i as int].0, int_text(tv[i as int].1)]);
            events.push(event);
            i = i + 1;
        }

        let sim = SimulationResult { success: true, gas_cost, state_changes, events, error: None };
        let ghost expected = batch_simulation(tv);
        assert(sim@.state_changes =~= expected.state_changes);
        assert(sim@.events =~= expected.events);
        Ok(sim)
    }
}

} // verus!
