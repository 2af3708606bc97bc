//! Properties that tie the simulator, the preview generator and the cost calculator together.
use vstd::prelude::*;

use crate::text::{int_text, lemma_nat_text_has_no_sign, nat_text};
use super::cost_calculator::{charges_gas, tip_gas, withdrawal_gas, GasCostEstimate};
use super::preview::{change_lines, changes_summary, high_gas_warning, large_batch_warning, simulation_preview};
use super::simulator::{
    batch_simulation, gas_with_overhead, tip_simulation, total_cost, withdrawal_simulation,
    ContractEventView, SimulationResultView, StateChangeView,
};

verus! {

/// The simulator's total cost for `g` gas units is the total fee that the cost calculator
/// estimates for `g` gas units.
pub proof fn lemma_total_cost_is_estimated_fee(e: GasCostEstimate, g: int)
    requires
        g >= 0,
        charges_gas(e, g),
    ensures
        e.total_fee == total_cost(g as nat),
{
}

/// A preview's estimated cost is the simulator's total cost for the simulated gas.
pub proof fn lemma_preview_cost_is_total_cost(operation: Seq<char>, sim: SimulationResultView)
    ensures
        simulation_preview(operation, sim).estimated_cost == total_cost(sim.gas_cost),
{
}

/// Every preview of an accepted simulation from the simulator announces success and a
/// positive cost.
pub open spec fn announces_success(operation: Seq<char>, sim: SimulationResultView) -> bool {
    &&& simulation_preview(operation, sim).outcome == "Transaction will succeed"@
    &&& simulation_preview(operation, sim).estimated_cost > 0
}

/// Previews of a simulated tip and of a simulated withdrawal announce success, with no
/// warnings and the cost of the simulated gas.
pub proof fn lemma_single_previews_succeed(
    operation: Seq<char>,
    creator: Seq<char>,
    amount: int,
    tipper: Seq<char>,
    balance: int,
)
    ensures
        announces_success(operation, tip_simulation(creator, amount, tipper)),
        simulation_preview(operation, tip_simulation(creator, amount, tipper)).warnings.len() == 0,
        simulation_preview(operation, tip_simulation(creator, amount, tipper)).estimated_cost == 1600,
        announces_success(operation, withdrawal_simulation(creator, amount, balance)),
        simulation_preview(operation, withdrawal_simulation(creator, amount, balance)).warnings.len() == 0,
        simulation_preview(operation, withdrawal_simulation(creator, amount, balance)).estimated_cost == 2100,
{
    let tp = simulation_preview(operation, tip_simulation(creator, amount, tipper));
    let wp = simulation_preview(operation, withdrawal_simulation(creator, amount, balance));
    assert(tp.warnings =~= Seq::<Seq<char>>::empty());
    assert(wp.warnings =~= Seq::<Seq<char>>::empty());
}

/// A preview of a simulated batch announces success; it warns of high gas exactly when the
/// batch holds at least 100 tips, and of a large batch exactly when the operation is
/// `batch_tip` and the batch holds more than 50 tips.
pub proof fn lemma_batch_preview(operation: Seq<char>, tips: Seq<(Seq<char>, int)>)
    ensures
        announces_success(operation, batch_simulation(tips)),
        simulation_preview(operation, batch_simulation(tips)).warnings.contains(high_gas_warning())
            <==> tips.len() >= 100,
        simulation_preview(operation, batch_simulation(tips)).warnings.contains(large_batch_warning())
            <==> (operation == "batch_tip"@ && tips.len() > 50),
{
    let w = simulation_preview(operation, batch_simulation(tips)).warnings;
    reveal_strlit("High gas cost detected");
    reveal_strlit("Large batch operation may take longer to process");
    assert(high_gas_warning().len() != large_batch_warning().len());
    if tips.len() >= 100 {
        assert(w[0] == high_gas_warning());
    }
    if operation == "batch_tip"@ && tips.len() > 50 {
        assert(w[w.len() - 1] == large_batch_warning());
    }
}

/// A batch of one tip charges the gas of a single tip and makes the same balance change
/// as a single tip of the same creator and amount.
pub proof fn lemma_batch_of_one_is_a_tip(creator: Seq<char>, amount: int, tipper: Seq<char>)
    ensures
        batch_simulation(seq![(creator, amount)]).gas_cost == tip_simulation(creator, amount, tipper).gas_cost,
        batch_simulation(seq![(creator, amount)]).state_changes.len() == 1,
        batch_simulation(seq![(creator, amount)]).state_changes[0] == tip_simulation(
            creator,
            amount,
            tipper,
        ).state_changes[0],
{
}

/// The simulated gas of tips and withdrawals is the cost calculator's gas for those
/// operations plus the simulator's overhead.
pub proof fn lemma_simulated_gas(creator: Seq<char>, amount: int, tipper: Seq<char>, balance: int)
    ensures
        tip_simulation(creator, amount, tipper).gas_cost == gas_with_overhead(tip_gas() as nat),
        withdrawal_simulation(creator, amount, balance).gas_cost == gas_with_overhead(withdrawal_gas() as nat),
{
}

/// A valid withdrawal leaves the creator's balance at the old balance less the amount,
/// which is never negative: the new balance is written without a minus sign.
pub proof fn lemma_withdrawal_balance_stays_non_negative(creator: Seq<char>, amount: int, balance: int)
    requires
        0 < amount <= balance,
    ensures
        withdrawal_simulation(creator, amount, balance).state_changes[0].old_value == Some(int_text(balance)),
        withdrawal_simulation(creator, amount, balance).state_changes[0].new_value == nat_text(
            (balance - amount) as nat,
        ),
        !withdrawal_simulation(creator, amount, balance).state_changes[0].new_value.contains('-'),
{
    lemma_nat_text_has_no_sign((balance - amount) as nat);
}

/// In a simulated batch, the i-th state change and the i-th event belong to the i-th tip:
/// the change sets that tip's creator's balance key to the tip's amount, with no old value,
/// and the event is a `batch_tip` event naming that creator and that amount.
pub proof fn lemma_batch_follows_tips(tips: Seq<(Seq<char>, int)>, i: int)
    requires
        0 <= i < tips.len(),
    ensures
        batch_simulation(tips).state_changes.len() == tips.len(),
        batch_simulation(tips).events.len() == tips.len(),
        batch_simulation(tips).state_changes[i] == (StateChangeView {
            key: "creator_balance:"@ + tips[i].0,
            old_value: None,
            new_value: int_text(tips[i].1),
        }),
        batch_simulation(tips).events[i] == (ContractEventView {
            topic: "batch_tip"@,
            data: seq![tips[i].0, int_text(tips[i].1)],
        }),
{
}

/// Both state changes of a simulated tip have no old value and set their key to the tip's
/// amount, and the tip event names the tipper and the amount.
pub proof fn lemma_tip_changes_are_fresh(creator: Seq<char>, amount: int, tipper: Seq<char>)
    ensures
        tip_simulation(creator, amount, tipper).state_changes.len() == 2,
        tip_simulation(creator, amount, tipper).state_changes[0].old_value is None,
        tip_simulation(creator, amount, tipper).state_changes[1].old_value is None,
        tip_simulation(creator, amount, tipper).state_changes[0].key == "creator_balance:"@ + creator,
        tip_simulation(creator, amount, tipper).state_changes[1].key == "creator_total:"@ + creator,
        tip_simulation(creator, amount, tipper).state_changes[0].new_value == int_text(amount),
        tip_simulation(creator, amount, tipper).state_changes[1].new_value == int_text(amount),
        tip_simulation(creator, amount, tipper).events == seq![
            ContractEventView { topic: "tip"@, data: seq![tipper, int_text(amount)] },
        ],
{
}

/// The event of a simulated withdrawal is a `withdraw` event carrying exactly the
/// withdrawn amount, while the balance change goes from the old balance to the old balance
/// less the amount.
pub proof fn lemma_withdrawal_event_is_amount(creator: Seq<char>, amount: int, balance: int)
    ensures
        withdrawal_simulation(creator, amount, balance).events == seq![
            ContractEventView { topic: "withdraw"@, data: seq![int_text(amount)] },
        ],
        withdrawal_simulation(creator, amount, balance).state_changes == seq![
            StateChangeView {
                key: "creator_balance:"@ + creator,
                old_value: Some(int_text(balance)),
                new_value: int_text(balance - amount),
            },
        ],
{
}

/// A change summary adds one line per change, naming the change's key and its new value,
/// whatever its old value; the summary of no changes says so.
pub proof fn lemma_summary_shows_new_values(changes: Seq<StateChangeView>, change: StateChangeView, other_old: Option<Seq<char>>)
    ensures
        changes_summary(Seq::<StateChangeView>::empty()) == "No state changes"@,
        changes_summary(changes.push(change)) == change_lines(changes) + "- "@ + change.key
            + " will change to "@ + change.new_value + "\n"@,
        changes_summary(changes.push(change)) == changes_summary(changes.push(
            StateChangeView { key: change.key, old_value: other_old, new_value: change.new_value },
        )),
{
    assert(changes.push(change).drop_last() =~= changes);
    let other = StateChangeView { key: change.key, old_value: other_old, new_value: change.new_value };
    assert(changes.push(other).drop_last() =~= changes);
}

/// The preview of a valid withdrawal says that the creator's balance key will change to
/// the old balance less the withdrawn amount.
pub proof fn lemma_withdrawal_preview_shows_new_balance(
    operation: Seq<char>,
    creator: Seq<char>,
    amount: int,
    balance: int,
)
    ensures
        simulation_preview(operation, withdrawal_simulation(creator, amount, balance)).changes_summary
            == "- "@ + ("creator_balance:"@ + creator) + " will change to "@ + int_text(balance - amount) + "\n"@,
{
    let cs = withdrawal_simulation(creator, amount, balance).state_changes;
    assert(cs.drop_last() =~= Seq::<StateChangeView>::empty());
    assert(change_lines(Seq::<StateChangeView>::empty()) == Seq::<char>::empty());
    assert(Seq::<char>::empty() + ("- "@ + ("creator_balance:"@ + creator) + " will change to "@ + int_text(balance - amount) + "\n"@)
        =~= "- "@ + ("creator_balance:"@ + creator) + " will change to "@ + int_text(balance - amount) + "\n"@);
}

} // verus!
