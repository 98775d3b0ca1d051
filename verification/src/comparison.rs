//! The comparison entity: a scenario label with the total witness bytes each
//! scheme needs for that scenario, and the per-scheme slot-fit question.

use vstd::prelude::*;
use crate::costs::WitnessCostTable;
use crate::costs::fits_in_slot;

verus! {

/// An immutable record of one scenario: its label and the total witness
/// bytes under each scheme. The improvement ratio and the slot-fit answers
/// are derived, never stored.
#[derive(Debug)]
pub struct WitnessComparison {
    pub scenario: String,
    pub merkle_size: usize,
    pub verkle_size: usize,
}

impl WitnessComparison {
    /// The Verkle size is positive, so the improvement ratio
    /// `merkle_size / verkle_size` is well defined.
    pub open spec fn wf(self) -> bool {
        0 < self.verkle_size
    }

    /// Builds the record. Callers must hand a positive Verkle size: a zero
    /// divisor would leave the improvement ratio undefined.
    pub fn new(scenario: String, merkle_size: usize, verkle_size: usize) -> (c: WitnessComparison)
        requires
            0 < verkle_size,
        ensures
            c.scenario == scenario,
            c.merkle_size == merkle_size,
            c.verkle_size == verkle_size,
            c.wf(),
    {
        WitnessComparison { scenario, merkle_size, verkle_size }
    }

    /// Whether the Merkle witness can be propagated within one slot under
    /// `table`'s network parameters.
    pub fn merkle_fits_in_slot(&self, table: &WitnessCostTable) -> (r: bool)
        requires
            table.wf(),
        ensures
            r == fits_in_slot(self.merkle_size as nat, *table),
    {
        let max_bytes = table.slot_byte_budget();
        self.merkle_size as u64 <= max_bytes
    }

    /// Whether the Verkle witness can be propagated within one slot under
    /// `table`'s network parameters.
    pub fn verkle_fits_in_slot(&self, table: &WitnessCostTable) -> (r: bool)
        requires
            table.wf(),
        ensures
            r == fits_in_slot(self.verkle_size as nat, *table),
    {
        let max_bytes = table.slot_byte_budget();
        self.verkle_size as u64 <= max_bytes
    }
}

} // verus!
