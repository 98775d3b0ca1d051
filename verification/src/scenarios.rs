//! The scenario generators: pure functions that combine the cost table's
//! per-unit costs into the total witness bytes of one reference scenario and
//! return the comparison record for it.

use vstd::prelude::*;
use vstd::string::StringExecFns;
use vstd::arithmetic::mul::lemma_mul_inequality;
use crate::comparison::WitnessComparison;
use crate::costs::WitnessCostTable;
use crate::text::dec_str;
use crate::text::u64_to_dec_string;

verus! {

/// One account's existence and balance proved under each scheme.
pub fn scenario_single_account(table: &WitnessCostTable) -> (c: WitnessComparison)
    requires
        table.wf(),
    ensures
        c.scenario@ == "Scenario 1: Single Account Balance Check"@,
        c.merkle_size == table.merkle_account_witness,
        c.verkle_size == table.verkle_account_witness,
        c.verkle_size <= c.merkle_size,
        c.wf(),
{
    WitnessComparison::new(
        String::from_str("Scenario 1: Single Account Balance Check"),
        table.merkle_account_witness,
        table.verkle_account_witness,
    )
}

/// `num_slots` storage slots of a contract proved under each scheme.
pub fn scenario_storage_access(table: &WitnessCostTable, num_slots: usize) -> (c: WitnessComparison)
    requires
        table.wf(),
        0 < num_slots,
        table.merkle_storage_witness * num_slots <= usize::MAX,
    ensures
        c.scenario@ == "Scenario 2: Smart Contract Interaction ("@ + dec_str(num_slots as nat)
            + " storage slots)"@,
        c.merkle_size == table.merkle_storage_witness * num_slots,
        c.verkle_size == table.verkle_storage_witness * num_slots,
        c.verkle_size <= c.merkle_size,
        c.wf(),
{
    proof {
        lemma_mul_inequality(
            1,
            table.verkle_storage_witness as int,
            num_slots as int,
        );
        lemma_mul_inequality(
            table.verkle_storage_witness as int,
            table.merkle_storage_witness as int,
            num_slots as int,
        );
    }
    let merkle_total = table.merkle_storage_witness * num_slots;
    let verkle_total = table.verkle_storage_witness * num_slots;
    let mut label = String::from_str("Scenario 2: Smart Contract Interaction (");
    let count = u64_to_dec_string(num_slots as u64);
    label.append(count.as_str());
    label.append(" storage slots)");
    proof {
        assert(label@ =~= "Scenario 2: Smart Contract Interaction ("@ + dec_str(num_slots as nat)
            + " storage slots)"@);
    }
    WitnessComparison::new(label, merkle_total, verkle_total)
}

/// A typical contract call proved under each scheme: the caller's and the
/// contract's accounts, fifty storage slots, and one unit of code.
pub fn scenario_contract_call_with_code(table: &WitnessCostTable) -> (c: WitnessComparison)
    requires
        table.wf(),
        table.merkle_account_witness * 2 + table.merkle_storage_witness * 50
            + table.merkle_code_chunk <= usize::MAX,
    ensures
        c.scenario@ == "Scenario 3: Contract Call with Code Access"@,
        c.merkle_size == table.merkle_account_witness * 2 + table.merkle_storage_witness * 50
            + table.merkle_code_chunk,
        c.verkle_size == table.verkle_account_witness * 2 + table.verkle_storage_witness * 50
            + table.verkle_code_chunk,
        c.verkle_size <= c.merkle_size,
        c.wf(),
{
    let accounts: usize = 2;
    let storage_slots: usize = 50;
    let code_chunks: usize = 1;

    let merkle_total = table.merkle_account_witness * accounts
        + table.merkle_storage_witness * storage_slots
        + table.merkle_code_chunk * code_chunks;

    let verkle_total = table.verkle_account_witness * accounts
        + table.verkle_storage_witness * storage_slots
        + table.verkle_code_chunk * code_chunks;

    WitnessComparison::new(
        String::from_str("Scenario 3: Contract Call with Code Access"),
        merkle_total,
        verkle_total,
    )
}

/// A worst-case full block of `state_accesses` independent account accesses
/// proved under each scheme.
pub fn scenario_full_block(table: &WitnessCostTable, state_accesses: usize) -> (c: WitnessComparison)
    requires
        table.wf(),
        0 < state_accesses,
        table.merkle_account_witness * state_accesses <= usize::MAX,
    ensures
        c.scenario@ == "Scenario 4: Full Block ("@ + dec_str(state_accesses as nat)
            + " state accesses - worst case)"@,
        c.merkle_size == table.merkle_account_witness * state_accesses,
        c.verkle_size == table.verkle_account_witness * state_accesses,
        c.verkle_size <= c.merkle_size,
        c.wf(),
{
    proof {
        lemma_mul_inequality(
            1,
            table.verkle_account_witness as int,
            state_accesses as int,
        );
        lemma_mul_inequality(
            table.verkle_account_witness as int,
            table.merkle_account_witness as int,
            state_accesses as int,
        );
    }
    let merkle_total = table.merkle_account_witness * state_accesses;
    let verkle_total = table.verkle_account_witness * state_accesses;
    let mut label = String::from_str("Scenario 4: Full Block (");
    let count = u64_to_dec_string(state_accesses as u64);
    label.append(count.as_str());
    label.append(" state accesses - worst case)");
    proof {
        assert(label@ =~= "Scenario 4: Full Block ("@ + dec_str(state_accesses as nat)
            + " state accesses - worst case)"@);
    }
    WitnessComparison::new(label, merkle_total, verkle_total)
}

} // verus!
