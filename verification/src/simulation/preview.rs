//! Preview generator for transaction outcomes.
use vstd::prelude::*;
use vstd::string::StringExecFns;

use super::simulator::{
    total_cost, ContractEvent, SimulationResult, SimulationResultView, StateChange,
    StateChangeView,
};
use crate::text::{append_int, debug_list, debug_list_text, int_text, str_equals, texts};

verus! {

/// A human-readable preview of what a transaction would do.
#[derive(Debug, Clone)]
pub struct TransactionPreview {
    /// Human-readable description
    pub description: String,
    /// Expected outcome
    pub outcome: String,
    /// Estimated cost
    pub estimated_cost: i128,
    /// State changes summary
    pub changes_summary: String,
    /// Events that will be emitted
    pub events: Vec<String>,
    /// Warnings or notes
    pub warnings: Vec<String>,
}

/// Builds transaction previews.
pub struct PreviewGenerator;

/// A preview as plain values.
pub struct TransactionPreviewView {
    pub description: Seq<char>,
    pub outcome: Seq<char>,
    pub estimated_cost: int,
    pub changes_summary: Seq<char>,
    pub events: Seq<Seq<char>>,
    pub warnings: Seq<Seq<char>>,
}

impl View for TransactionPreview {
    type V = TransactionPreviewView;

    open spec fn view(&self) -> TransactionPreviewView {
        TransactionPreviewView {
            description: self.description@,
            outcome: self.outcome@,
            estimated_cost: self.estimated_cost as int,
            changes_summary: self.changes_summary@,
            events: texts(self.events@),
            warnings: texts(self.warnings@),
        }
    }
}

/// The description of an operation.
pub open spec fn operation_description(operation: Seq<char>) -> Seq<char> {
    if operation == "tip"@ {
        "Send a tip to a creator"@
    } else if operation == "withdraw"@ {
        "Withdraw escrowed tips"@
    } else if operation == "batch_tip"@ {
        "Send multiple tips in one transaction"@
    } else {
        "Execute operation: "@ + operation
    }
}

/// The expected outcome of a simulated transaction.
pub open spec fn outcome_text(success: bool, error: Option<Seq<char>>) -> Seq<char> {
    if success {
        "Transaction will succeed"@
    } else {
        "Transaction will fail: "@ + match error {
            Some(e) => e,
            None => "Unknown error"@,
        }
    }
}

/// One line of a state-change summary.
pub open spec fn change_line(change: StateChangeView) -> Seq<char> {
    "- "@ + change.key + " will change to "@ + change.new_value + "\n"@
}

/// The lines of all state changes, in order.
pub open spec fn change_lines(changes: Seq<StateChangeView>) -> Seq<char>
    decreases changes.len(),
{
    if changes.len() == 0 {
        seq![]
    } else {
        change_lines(changes.drop_last()) + change_line(changes.last())
    }
}

/// The summary of a list of state changes.
pub open spec fn changes_summary(changes: Seq<StateChangeView>) -> Seq<char> {
    if changes.len() == 0 {
        "No state changes"@
    } else {
        change_lines(changes)
    }
}

/// The preview line of one emitted event.
pub open spec fn event_line(topic: Seq<char>, data: Seq<Seq<char>>) -> Seq<char> {
    "Event: "@ + topic + " with data "@ + debug_list_text(data)
}

/// The warning for a gas cost above 10000.
pub open spec fn high_gas_warning() -> Seq<char> {
    "High gas cost detected"@
}

/// The warning for a batch of more than 50 state changes.
pub open spec fn large_batch_warning() -> Seq<char> {
    "Large batch operation may take longer to process"@
}

/// The warnings a simulation raises, in order.
pub open spec fn preview_warnings(operation: Seq<char>, sim: SimulationResultView) -> Seq<Seq<char>> {
    (if sim.gas_cost > 10000 { seq![high_gas_warning()] } else { seq![] }) + (if operation
        == "batch_tip"@ && sim.state_changes.len() > 50 {
        seq![large_batch_warning()]
    } else {
        seq![]
    })
}

/// The preview of a simulated operation.
pub open spec fn simulation_preview(operation: Seq<char>, sim: SimulationResultView) -> TransactionPreviewView {
    TransactionPreviewView {
        description: operation_description(operation),
        outcome: outcome_text(sim.success, sim.error),
        estimated_cost: total_cost(sim.gas_cost),
        changes_summary: changes_summary(sim.state_changes),
        events: sim.events.map_values(|e: super::simulator::ContractEventView| event_line(e.topic, e.data)),
        warnings: preview_warnings(operation, sim),
    }
}

/// The detailed preview of a tip.
pub open spec fn tip_preview(creator: Seq<char>, amount: int, tipper: Seq<char>) -> TransactionPreviewView {
    TransactionPreviewView {
        description: "Send "@ + int_text(amount) + " XLM tip to "@ + creator,
        outcome: "Tip will be recorded and escrowed"@,
        estimated_cost: 1100,
        changes_summary: "- Creator "@ + creator + " balance increases by "@ + int_text(amount)
            + "\n- Creator "@ + creator + " total tips increases by "@ + int_text(amount),
        events: seq!["Tip event: "@ + tipper + " sends "@ + int_text(amount) + " to "@ + creator],
        warnings: seq![],
    }
}

/// The detailed preview of a withdrawal.
pub open spec fn withdrawal_preview(creator: Seq<char>, amount: int) -> TransactionPreviewView {
    TransactionPreviewView {
        description: "Withdraw "@ + int_text(amount) + " XLM from escrowed balance"@,
        outcome: "Funds will be transferred to creator account"@,
        estimated_cost: 1500,
        changes_summary: "- Creator "@ + creator + " balance decreases by "@ + int_text(amount)
            + "\n- Funds transferred to creator account"@,
        events: seq!["Withdrawal event: "@ + creator + " withdraws "@ + int_text(amount)],
        warnings: seq!["Ensure sufficient balance before withdrawal"@],
    }
}

fn one_text(s: String) -> (v: Vec<String>)
    ensures
        texts(v@) == seq![s@],
{
    let mut v: Vec<String> = Vec::new();
    v.push(s);
    assert(texts(v@) =~= seq![s@]);
    v
}

impl PreviewGenerator {
    /// Generate a preview from a simulation result.
    pub fn generate_preview(operation: &str, simulation: &SimulationResult) -> (p: TransactionPreview)
        ensures
            p@ == simulation_preview(operation@, simulation@),
            simulation@.state_changes.len() == 0 ==> p@.changes_summary == "No state changes"@,
            forall|k: int|
                0 <= k < simulation@.state_changes.len() ==> #[trigger] changes_summary(
                    simulation@.state_changes.take(k + 1),
                ) == change_lines(simulation@.state_changes.take(k)) + "- "@
                    + simulation@.state_changes[k].key + " will change to "@
                    + simulation@.state_changes[k].new_value + "\n"@,
            p@.changes_summary == changes_summary(simulation@.state_changes),
            p@.estimated_cost == 100 + 10 * simulation.gas_cost,
            p@.outcome == (if simulation.success {
                "Transaction will succeed"@
            } else {
                "Transaction will fail: "@ + match simulation@.error {
                    Some(e) => e,
                    None => "Unknown error"@,
                }
            }),
            p@.events.len() == simulation@.events.len(),
            forall|i: int|
                0 <= i < simulation@.events.len() ==> #[trigger] p@.events[i] == "Event: "@
                    + simulation@.events[i].topic + " with data "@ + debug_list_text(simulation@.events[i].data),
            p@.warnings.contains("High gas cost detected"@) <==> simulation.gas_cost > 10000,
            p@.warnings.contains("Large batch operation may take longer to process"@) <==> (operation@
                == "batch_tip"@ && simulation@.state_changes.len() > 50),
    {
        proof {
            let cs = simulation@.state_changes;
            assert forall|k: int| 0 <= k < cs.len() implies #[trigger] changes_summary(cs.take(k + 1))
                == change_lines(cs.take(k)) + "- "@ + cs[k].key + " will change to "@ + cs[k].new_value
                + "\n"@ by {
                assert(cs.take(k + 1).drop_last() =~= cs.take(k));
            }
        }
        let description = Self::describe_operation(operation);
        let outcome = if simulation.success {
            String::from_str("Transaction will succeed")
        } else {
            let mut o = String::from_str("Transaction will fail: ");
            match &simulation.error {
                Some(e) => o.append(e.as_str()),
                None => o.append("Unknown error"),
            }
            o
        };
        let estimated_cost = Self::calculate_total_cost(simulation.gas_cost);
        let changes_summary = Self::summarize_changes(simulation.state_changes.as_slice());

        let ghost sim_events = simulation@.events;
        let n = simulation.events.len();
        let mut events: Vec<String> = Vec::new();
        let mut i: usize = 0;
        while i < n
            invariant
                n == simulation.events@.len(),
                sim_events == simulation@.events,
                i <= n,
                events@.len() == i,
                forall|j: int| 0 <= j < i ==> #[trigger] events@[j]@ == event_line(sim_events[j].topic, sim_events[j].data),
            decreases n - i,
        {
            let e: &ContractEvent = &simulation.events[i];
            let mut line = String::from_str("Event: ");
            line.append(e.topic.as_str());
            line.append(" with data ");
            let d = debug_list(&e.data);
            line.append(d.as_str());
            events.push(line);
            i = i + 1;
        }

        let warnings = Self::generate_warnings(operation, simulation);
        let p = TransactionPreview { description, outcome, estimated_cost, changes_summary, events, warnings };
        assert(p@.events =~= simulation_preview(operation@, simulation@).events);
        proof {
            reveal_strlit("High gas cost detected");
            reveal_strlit("Large batch operation may take longer to process");
            let w = p@.warnings;
            assert(high_gas_warning().len() != large_batch_warning().len());
            if simulation.gas_cost > 10000 {
                assert(w[0] == high_gas_warning());
            }
            if operation@ == "batch_tip"@ && simulation@.state_changes.len() > 50 {
                assert(w[w.len() - 1] == large_batch_warning());
            }
        }
        p
    }

    /// Describe the operation in human-readable form.
    fn describe_operation(operation: &str) -> (d: String)
        ensures
            d@ == operation_description(operation@),
    {
        if str_equals(operation, "tip") {
            String::from_str("Send a tip to a creator")
        } else if str_equals(operation, "withdraw") {
            String::from_str("Withdraw escrowed tips")
        } else if str_equals(operation, "batch_tip") {
            String::from_str("Send multiple tips in one transaction")
        } else {
            let mut d = String::from_str("Execute operation: ");
            d.append(operation);
            d
        }
    }

    /// Summarize state changes.
    fn summarize_changes(changes: &[StateChange]) -> (s: String)
        ensures
            s@ == changes_summary(changes@.map_values(|c: StateChange| c@)),
    {
        let ghost cv = changes@.map_values(|c: StateChange| c@);
        if changes.len() == 0 {
            return String::from_str("No state changes");
        }
        let n = changes.len();
        let mut summary = String::new();
        let mut i: usize = 0;
        while i < n
            invariant
                n == changes@.len(),
                cv == changes@.map_values(|c: StateChange| c@),
                i <= n,
                summary@ == change_lines(cv.take(i as int)),
            decreases n - i,
        {
            let change: &StateChange = &changes[i];
            summary.append("- ");
            summary.append(change.key.as_str());
            summary.append(" will change to ");
            summary.append(change.new_value.as_str());
            summary.append("\n");
            assert(cv.take(i + 1).drop_last() =~= cv.take(i as int));
            assert(cv.take(i + 1).last() == cv[i as int]);
            i = i + 1;
        }
        assert(cv.take(n as int) =~= cv);
        summary
    }

    /// Generate warnings based on the simulation.
    fn generate_warnings(operation: &str, simulation: &SimulationResult) -> (w: Vec<String>)
        ensures
            texts(w@) == preview_warnings(operation@, simulation@),
    {
        let mut warnings: Vec<String> = Vec::new();
        if simulation.gas_cost > 10000 {
            warnings.push(String::from_str("High gas cost detected"));
        }
        if str_equals(operation, "batch_tip") && simulation.state_changes.len() > 50 {
            warnings.push(String::from_str("Large batch operation may take longer to process"));
        }
        assert(texts(warnings@) =~= preview_warnings(operation@, simulation@));
        warnings
    }

    /// Calculate total cost including network fees.
    fn calculate_total_cost(gas_units: u64) -> (cost: i128)
        ensures
            cost == total_cost(gas_units as nat),
    {
        let base_fee: i128 = 100;
        let resource_fee: i128 = (gas_units as i128) * 10;
        base_fee + resource_fee
    }

    /// Generate the detailed preview of a tip operation.
    pub fn preview_tip(creator: &str, amount: i128, tipper: &str) -> (p: TransactionPreview)
        ensures
            p@ == tip_preview(creator@, amount as int, tipper@),
    {
        let mut description = String::from_str("Send ");
        append_int(&mut description, amount);
        description.append(" XLM tip to ");
        description.append(creator);

        let mut changes_summary = String::from_str("- Creator ");
        changes_summary.append(creator);
        changes_summary.append(" balance increases by ");
        append_int(&mut changes_summary, amount);
        changes_summary.append("\n- Creator ");
        changes_summary.append(creator);
        changes_summary.append(" total tips increases by ");
        append_int(&mut changes_summary, amount);

        let mut event = String::from_str("Tip event: ");
        event.append(tipper);
        event.append(" sends ");
        append_int(&mut event, amount);
        event.append(" to ");
        event.append(creator);

        let p = TransactionPreview {
            description,
            outcome: String::from_str("Tip will be recorded and escrowed"),
            estimated_cost: 1100,
            changes_summary,
            events: one_text(event),
            warnings: Vec::new(),
        };
        assert(p@.warnings =~= Seq::<Seq<char>>::empty());
        p
    }

    /// Generate the detailed preview of a withdrawal operation.
    pub fn preview_withdrawal(creator: &str, amount: i128) -> (p: TransactionPreview)
        ensures
            p@ == withdrawal_preview(creator@, amount as int),
    {
        let mut description = String::from_str("Withdraw ");
        append_int(&mut description, amount);
        description.append(" XLM from escrowed balance");

        let mut changes_summary = String::from_str("- Creator ");
        changes_summary.append(creator);
        changes_summary.append(" balance decreases by ");
        append_int(&mut changes_summary, amount);
        changes_summary.append("\n- Funds transferred to creator account");

        let mut event = String::from_str("Withdrawal event: ");
        event.append(creator);
        event.append(" withdraws ");
        append_int(&mut event, amount);

        TransactionPreview {
            description,
            outcome: String::from_str("Funds will be transferred to creator account"),
            estimated_cost: 1500,
            changes_summary,
            events: one_text(event),
            warnings: one_text(String::from_str("Ensure sufficient balance before withdrawal")),
        }
    }
}

} // verus!
