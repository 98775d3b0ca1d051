use witness_compare::comparison::WitnessComparison;
use witness_compare::costs::WitnessCostTable;
use witness_compare::scenarios::scenario_contract_call_with_code;
use witness_compare::scenarios::scenario_full_block;
use witness_compare::scenarios::scenario_single_account;
use witness_compare::scenarios::scenario_storage_access;

fn improvement_factor(c: &WitnessComparison) -> f64 {
    c.merkle_size as f64 / c.verkle_size as f64
}

#[test]
fn single_account_reference_sizes() {
    let table = WitnessCostTable::reference();
    let c = scenario_single_account(&table);
    assert_eq!(c.merkle_size, 3_000);
    assert_eq!(c.verkle_size, 200);
    assert!((improvement_factor(&c) - 15.0).abs() < 1e-9);
}

#[test]
fn single_account_label() {
    let table = WitnessCostTable::reference();
    let c = scenario_single_account(&table);
    assert_eq!(c.scenario, "Scenario 1: Single Account Balance Check");
}

#[test]
fn storage_access_hundred_slots() {
    let table = WitnessCostTable::reference();
    let c = scenario_storage_access(&table, 100);
    assert_eq!(c.merkle_size, 300_000);
    assert_eq!(c.verkle_size, 20_000);
}

#[test]
fn storage_access_label_embeds_count() {
    let table = WitnessCostTable::reference();
    let c = scenario_storage_access(&table, 100);
    assert_eq!(c.scenario, "Scenario 2: Smart Contract Interaction (100 storage slots)");
}

#[test]
fn storage_access_single_slot() {
    let table = WitnessCostTable::reference();
    let c = scenario_storage_access(&table, 1);
    assert_eq!(c.merkle_size, 3_000);
    assert_eq!(c.verkle_size, 200);
    assert_eq!(c.scenario, "Scenario 2: Smart Contract Interaction (1 storage slots)");
}

#[test]
fn contract_call_with_code_sizes() {
    let table = WitnessCostTable::reference();
    let c = scenario_contract_call_with_code(&table);
    assert_eq!(c.merkle_size, 2 * 3_000 + 50 * 3_000 + 24_200);
    assert_eq!(c.merkle_size, 180_200);
    assert_eq!(c.verkle_size, 2 * 200 + 50 * 200 + 200);
    assert_eq!(c.verkle_size, 10_600);
    assert_eq!(c.scenario, "Scenario 3: Contract Call with Code Access");
}

#[test]
fn full_block_worst_case_sizes() {
    let table = WitnessCostTable::reference();
    let c = scenario_full_block(&table, 5_000);
    assert_eq!(c.merkle_size, 15_000_000);
    assert_eq!(c.verkle_size, 1_000_000);
    assert_eq!(c.scenario, "Scenario 4: Full Block (5000 state accesses - worst case)");
}

#[test]
fn full_block_fits_exactly_at_reference_count() {
    let table = WitnessCostTable::reference();
    let c = scenario_full_block(&table, 5_000);
    assert!(c.merkle_fits_in_slot(&table));
    assert!(c.verkle_fits_in_slot(&table));
}

#[test]
fn full_block_overflows_slot_one_access_later() {
    let table = WitnessCostTable::reference();
    let c = scenario_full_block(&table, 5_001);
    assert!(!c.merkle_fits_in_slot(&table));
    assert!(c.verkle_fits_in_slot(&table));
}

#[test]
fn slot_byte_budget_reference_value() {
    let table = WitnessCostTable::reference();
    assert_eq!(table.slot_byte_budget(), 15_000_000);
    assert_eq!(10 * 1_000_000 * 12 / 8, 15_000_000u64);
}

#[test]
fn verkle_never_larger_across_scenarios() {
    let table = WitnessCostTable::reference();
    let all = [
        scenario_single_account(&table),
        scenario_storage_access(&table, 100),
        scenario_contract_call_with_code(&table),
        scenario_full_block(&table, 5_000),
    ];
    for c in all.iter() {
        assert!(c.verkle_size <= c.merkle_size);
    }
}

#[test]
fn improvement_factor_matches_ratio_of_fields() {
    let table = WitnessCostTable::reference();
    let all = [
        scenario_single_account(&table),
        scenario_storage_access(&table, 100),
        scenario_contract_call_with_code(&table),
        scenario_full_block(&table, 5_000),
    ];
    let expected = [15.0, 15.0, 180_200.0 / 10_600.0, 15.0];
    for (c, e) in all.iter().zip(expected.iter()) {
        assert!((improvement_factor(c) - e).abs() < 1e-9);
    }
}

#[test]
fn fits_in_slot_monotonic_on_samples() {
    let table = WitnessCostTable::reference();
    let small = WitnessComparison::new(String::from("a"), 14_000_000, 1);
    let large = WitnessComparison::new(String::from("b"), 15_000_000, 1);
    assert!(large.merkle_fits_in_slot(&table));
    assert!(small.merkle_fits_in_slot(&table));
    let over = WitnessComparison::new(String::from("c"), 15_000_001, 1);
    assert!(!over.merkle_fits_in_slot(&table));
}

#[test]
fn comparison_new_stores_fields() {
    let c = WitnessComparison::new(String::from("label"), 10, 7);
    assert_eq!(c.scenario, "label");
    assert_eq!(c.merkle_size, 10);
    assert_eq!(c.verkle_size, 7);
}
