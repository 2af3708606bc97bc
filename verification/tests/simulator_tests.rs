use tipjar_sdk::TransactionSimulator;

#[test]
fn test_simulate_tip() {
    let result = TransactionSimulator::simulate_tip("creator1", 1000, "tipper1");
    assert!(result.is_ok());
    let sim = result.unwrap();
    assert!(sim.success);
    assert!(sim.gas_cost > 0);
    assert_eq!(sim.state_changes.len(), 2);
    assert_eq!(sim.events.len(), 1);
}

#[test]
fn test_simulate_tip_invalid_amount() {
    let result = TransactionSimulator::simulate_tip("creator1", 0, "tipper1");
    assert!(result.is_err());
}

#[test]
fn test_simulate_withdrawal() {
    let result = TransactionSimulator::simulate_withdrawal("creator1", 500, 1000);
    assert!(result.is_ok());
    let sim = result.unwrap();
    assert!(sim.success);
}

#[test]
fn test_simulate_withdrawal_insufficient_balance() {
    let result = TransactionSimulator::simulate_withdrawal("creator1", 1500, 1000);
    assert!(result.is_err());
}

#[test]
fn test_calculate_total_cost() {
    let cost = TransactionSimulator::calculate_total_cost(100);
    assert_eq!(cost, 100 + (100 * 10));
}

#[test]
fn simulator_test_simulate_batch_tips() {
    let tips = vec![
        ("creator1".to_string(), 100),
        ("creator2".to_string(), 200),
    ];
    let result = TransactionSimulator::simulate_batch_tips(tips);
    assert!(result.is_ok());
    let sim = result.unwrap();
    assert!(sim.success);
    assert_eq!(sim.state_changes.len(), 2);
}

#[test]
fn test_simulate_batch_too_large() {
    let tips: Vec<_> = (0..101)
        .map(|i| (format!("creator{}", i), 100))
        .collect();
    let result = TransactionSimulator::simulate_batch_tips(tips);
    assert!(result.is_err());
}
