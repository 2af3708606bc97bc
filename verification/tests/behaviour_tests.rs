use tipjar_sdk::analytics::{export_csv_header, export_csv_record, period_label, tip_totals_json, top_creators_json};
use tipjar_sdk::simulation::simulator::{ContractEvent, SimulationResult, StateChange};
use tipjar_sdk::text::{debug_list, int_to_text, str_equals};
use tipjar_sdk::{PreviewGenerator, TransactionSimulator};

fn strings(items: &[&str]) -> Vec<String> {
    items.iter().map(|s| s.to_string()).collect()
}

#[test]
fn decimal_text_matches_display() {
    for n in [0i128, 1, 9, 10, 1000, -1, -42, 123456789, i128::MAX, i128::MIN, i64::MIN as i128] {
        assert_eq!(int_to_text(n), n.to_string());
    }
}

#[test]
fn string_equality() {
    assert!(str_equals("tip", "tip"));
    assert!(!str_equals("tip", "tips"));
    assert!(!str_equals("tip", "tap"));
    assert!(str_equals("", ""));
    assert!(str_equals("héllo", "héllo"));
}

#[test]
fn debug_list_matches_std() {
    for items in [vec![], strings(&["a"]), strings(&["tipper1", "1000"]), strings(&["quo\"te", "back\\slash", "new\nline", "tab\t", "é"])] {
        assert_eq!(debug_list(&items), format!("{:?}", items));
    }
}

#[test]
fn tip_simulation_exact() {
    let sim = TransactionSimulator::simulate_tip("alice", 250, "bob").unwrap();
    assert_eq!(sim.gas_cost, 150);
    assert!(sim.error.is_none());
    assert_eq!(sim.state_changes[0].key, "creator_balance:alice");
    assert_eq!(sim.state_changes[0].old_value, None);
    assert_eq!(sim.state_changes[0].new_value, "250");
    assert_eq!(sim.state_changes[1].key, "creator_total:alice");
    assert_eq!(sim.state_changes[1].new_value, "250");
    assert_eq!(sim.events[0].topic, "tip");
    assert_eq!(sim.events[0].data, strings(&["bob", "250"]));
    assert_eq!(
        TransactionSimulator::simulate_tip("alice", -5, "bob").unwrap_err(),
        "Invalid amount: must be positive"
    );
}

#[test]
fn withdrawal_simulation_exact() {
    let sim = TransactionSimulator::simulate_withdrawal("creator1", 500, 1000).unwrap();
    assert_eq!(sim.gas_cost, 200);
    assert_eq!(sim.state_changes.len(), 1);
    assert_eq!(sim.state_changes[0].key, "creator_balance:creator1");
    assert_eq!(sim.state_changes[0].old_value, Some("1000".to_string()));
    assert_eq!(sim.state_changes[0].new_value, "500");
    assert_eq!(sim.events[0].topic, "withdraw");
    assert_eq!(sim.events[0].data, strings(&["500"]));

    let all = TransactionSimulator::simulate_withdrawal("c", 1000, 1000).unwrap();
    assert_eq!(all.state_changes[0].new_value, "0");
    assert_eq!(
        TransactionSimulator::simulate_withdrawal("c", 0, 1000).unwrap_err(),
        "Invalid amount: must be positive"
    );
    assert_eq!(
        TransactionSimulator::simulate_withdrawal("c", 1001, 1000).unwrap_err(),
        "Insufficient balance"
    );
}

#[test]
fn batch_simulation_exact() {
    let sim = TransactionSimulator::simulate_batch_tips(vec![
        ("creator1".to_string(), 100),
        ("creator2".to_string(), -3),
    ])
    .unwrap();
    assert_eq!(sim.gas_cost, 250);
    assert_eq!(sim.state_changes[1].key, "creator_balance:creator2");
    assert_eq!(sim.state_changes[1].new_value, "-3");
    assert_eq!(sim.events.len(), 2);
    assert_eq!(sim.events[0].topic, "batch_tip");
    assert_eq!(sim.events[0].data, strings(&["creator1", "100"]));

    let full: Vec<_> = (0..100).map(|i| (format!("c{}", i), 1)).collect();
    assert_eq!(TransactionSimulator::simulate_batch_tips(full).unwrap().gas_cost, 10050);
    assert_eq!(TransactionSimulator::simulate_batch_tips(vec![]).unwrap_err(), "Empty batch");
    let too_many: Vec<_> = (0..101).map(|i| (format!("c{}", i), 1)).collect();
    assert_eq!(TransactionSimulator::simulate_batch_tips(too_many).unwrap_err(), "Batch too large");
}

#[test]
fn total_cost_values() {
    assert_eq!(TransactionSimulator::calculate_total_cost(0), 100);
    assert_eq!(TransactionSimulator::calculate_total_cost(150), 1600);
    assert_eq!(TransactionSimulator::calculate_total_cost(u64::MAX), 100 + 10 * (u64::MAX as i128));
}

#[test]
fn generated_preview_exact() {
    let sim = TransactionSimulator::simulate_tip("creator1", 1000, "tipper1").unwrap();
    let preview = PreviewGenerator::generate_preview("tip", &sim);
    assert_eq!(preview.description, "Send a tip to a creator");
    assert_eq!(preview.outcome, "Transaction will succeed");
    assert_eq!(preview.estimated_cost, TransactionSimulator::calculate_total_cost(sim.gas_cost));
    assert_eq!(preview.estimated_cost, 1600);
    assert_eq!(
        preview.changes_summary,
        "- creator_balance:creator1 will change to 1000\n- creator_total:creator1 will change to 1000\n"
    );
    assert_eq!(preview.events, vec![format!("Event: {} with data {:?}", "tip", strings(&["tipper1", "1000"]))]);
    assert_eq!(preview.events[0], "Event: tip with data [\"tipper1\", \"1000\"]");
    assert!(preview.warnings.is_empty());
}

#[test]
fn preview_descriptions_and_failures() {
    let empty = SimulationResult { success: true, gas_cost: 0, state_changes: vec![], events: vec![], error: None };
    assert_eq!(PreviewGenerator::generate_preview("withdraw", &empty).description, "Withdraw escrowed tips");
    assert_eq!(
        PreviewGenerator::generate_preview("batch_tip", &empty).description,
        "Send multiple tips in one transaction"
    );
    assert_eq!(PreviewGenerator::generate_preview("mint", &empty).description, "Execute operation: mint");
    assert_eq!(PreviewGenerator::generate_preview("mint", &empty).changes_summary, "No state changes");
    assert_eq!(PreviewGenerator::generate_preview("mint", &empty).estimated_cost, 100);

    let failed = SimulationResult { success: false, gas_cost: 0, state_changes: vec![], events: vec![], error: Some("boom".to_string()) };
    assert_eq!(PreviewGenerator::generate_preview("tip", &failed).outcome, "Transaction will fail: boom");
    let unknown = SimulationResult { success: false, gas_cost: 0, state_changes: vec![], events: vec![], error: None };
    assert_eq!(PreviewGenerator::generate_preview("tip", &unknown).outcome, "Transaction will fail: Unknown error");

    let odd = SimulationResult {
        success: true,
        gas_cost: 10000,
        state_changes: vec![],
        events: vec![ContractEvent { topic: "t".to_string(), data: strings(&["say \"hi\""]) }],
        error: None,
    };
    let preview = PreviewGenerator::generate_preview("tip", &odd);
    assert_eq!(preview.events[0], format!("Event: t with data {:?}", strings(&["say \"hi\""])));
    assert!(preview.warnings.is_empty());
}

#[test]
fn large_batch_warnings() {
    let change = StateChange { key: "k".to_string(), old_value: None, new_value: "v".to_string() };
    let sim = SimulationResult {
        success: true,
        gas_cost: 10001,
        state_changes: vec![change; 51],
        events: vec![],
        error: None,
    };
    assert_eq!(
        PreviewGenerator::generate_preview("batch_tip", &sim).warnings,
        strings(&["High gas cost detected", "Large batch operation may take longer to process"])
    );
    assert_eq!(PreviewGenerator::generate_preview("tip", &sim).warnings, strings(&["High gas cost detected"]));

    let batch: Vec<_> = (0..100).map(|i| (format!("c{}", i), 1)).collect();
    let sim = TransactionSimulator::simulate_batch_tips(batch).unwrap();
    assert_eq!(PreviewGenerator::generate_preview("batch_tip", &sim).warnings.len(), 2);
}

#[test]
fn tip_and_withdrawal_previews_exact() {
    let tip = PreviewGenerator::preview_tip("creator1", 1000, "tipper1");
    assert_eq!(tip.description, "Send 1000 XLM tip to creator1");
    assert_eq!(tip.outcome, "Tip will be recorded and escrowed");
    assert_eq!(tip.estimated_cost, 1100);
    assert_eq!(
        tip.changes_summary,
        "- Creator creator1 balance increases by 1000\n- Creator creator1 total tips increases by 1000"
    );
    assert_eq!(tip.events, strings(&["Tip event: tipper1 sends 1000 to creator1"]));
    assert!(tip.warnings.is_empty());

    let negative = PreviewGenerator::preview_tip("c", -7, "t");
    assert_eq!(negative.description, "Send -7 XLM tip to c");

    let withdrawal = PreviewGenerator::preview_withdrawal("creator1", 500);
    assert_eq!(withdrawal.description, "Withdraw 500 XLM from escrowed balance");
    assert_eq!(withdrawal.outcome, "Funds will be transferred to creator account");
    assert_eq!(withdrawal.estimated_cost, 1500);
    assert_eq!(
        withdrawal.changes_summary,
        "- Creator creator1 balance decreases by 500\n- Funds transferred to creator account"
    );
    assert_eq!(withdrawal.events, strings(&["Withdrawal event: creator1 withdraws 500"]));
    assert_eq!(withdrawal.warnings, strings(&["Ensure sufficient balance before withdrawal"]));
}

#[test]
fn batch_of_one_matches_a_tip() {
    let batch = TransactionSimulator::simulate_batch_tips(vec![("creator1".to_string(), 42)]).unwrap();
    let tip = TransactionSimulator::simulate_tip("creator1", 42, "anyone").unwrap();
    assert_eq!(batch.gas_cost, tip.gas_cost);
    assert_eq!(batch.state_changes[0].key, tip.state_changes[0].key);
    assert_eq!(batch.state_changes[0].new_value, tip.state_changes[0].new_value);
}

#[test]
fn analytics_labels_and_records() {
    assert_eq!(period_label("2024-01-01", "2024-01-31"), "2024-01-01 to 2024-01-31");
    assert_eq!(export_csv_header(), strings(&["date", "sender", "creator", "amount", "token"]));
    assert_eq!(
        export_csv_record("2024-01-02".to_string(), "s".to_string(), "c".to_string(), -12, "XLM".to_string()),
        strings(&["2024-01-02", "s", "c", "-12", "XLM"])
    );
    assert_eq!(
        export_csv_record(String::new(), String::new(), String::new(), i64::MAX, String::new())[3],
        i64::MAX.to_string()
    );
}

#[test]
fn previews_of_simulations_succeed() {
    let tip = TransactionSimulator::simulate_tip("c", 5, "t").unwrap();
    let tip_preview = PreviewGenerator::generate_preview("tip", &tip);
    assert_eq!(tip_preview.outcome, "Transaction will succeed");
    assert_eq!(tip_preview.estimated_cost, 1600);
    assert!(tip_preview.warnings.is_empty());

    let withdrawal = TransactionSimulator::simulate_withdrawal("c", 5, 9).unwrap();
    let withdrawal_preview = PreviewGenerator::generate_preview("withdraw", &withdrawal);
    assert_eq!(withdrawal_preview.outcome, "Transaction will succeed");
    assert_eq!(withdrawal_preview.estimated_cost, 2100);
    assert!(withdrawal_preview.warnings.is_empty());
    assert_eq!(withdrawal.state_changes[0].new_value, "4");
}

#[test]
fn json_exports_are_pretty_arrays() {
    assert_eq!(tip_totals_json(&vec![]), "[]");
    let rows = vec![
        ("2024-01-02".to_string(), "alice".to_string(), 150i64, "XLM".to_string()),
        ("2024-01-01".to_string(), "bo\"b".to_string(), -3i64, "USDC".to_string()),
    ];
    assert_eq!(
        tip_totals_json(&rows),
        "[\n  {\n    \"creator\": \"alice\",\n    \"date\": \"2024-01-02\",\n    \"token\": \"XLM\",\n    \"total\": 150\n  },\n  {\n    \"creator\": \"bo\\\"b\",\n    \"date\": \"2024-01-01\",\n    \"token\": \"USDC\",\n    \"total\": -3\n  }\n]"
    );
    assert_eq!(top_creators_json(&vec![]), "[]");
    assert_eq!(
        top_creators_json(&vec![("alice".to_string(), 900i64, 4i64)]),
        "[\n  {\n    \"creator\": \"alice\",\n    \"tip_count\": 4,\n    \"total_received\": 900\n  }\n]"
    );
}
